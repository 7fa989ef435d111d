use vstd::prelude::*;

verus! {

/// A zero-payload message meaning "one trigger occurred".
///
/// Signals are created by the event dispatcher, travel through the
/// [`ActionChannel`] and are consumed exactly once by the worker.
#[derive(Clone, Copy, PartialEq, Eq, Structural, Debug)]
pub struct ActionSignal;

/// Ordered, unbounded signal queue connecting the dispatch loop to the
/// worker: first-in-first-out, signals are never merged and never dropped.
pub struct ActionChannel {
    queue: Vec<ActionSignal>,
}

impl ActionChannel {
    /// The signals currently queued, oldest first.
    pub closed spec fn pending(self) -> Seq<ActionSignal> {
        self.queue@
    }

    /// Creates an empty channel.
    pub fn new() -> (r: ActionChannel)
        ensures
            r.pending().len() == 0,
    {
        ActionChannel { queue: Vec::new() }
    }

    /// How many signals are queued.
    pub fn len(&self) -> (r: usize)
        ensures
            r == self.pending().len(),
    {
        self.queue.len()
    }

    /// Enqueues one signal behind all signals already queued.
    pub fn send(&mut self, signal: ActionSignal)
        ensures
            final(self).pending() == old(self).pending().push(signal),
    {
        self.queue.push(signal);
    }

    /// Dequeues the oldest signal; `None` when the queue is empty.
    pub fn recv(&mut self) -> (r: Option<ActionSignal>)
        ensures
            old(self).pending().len() == 0 ==> r is None
                && final(self).pending() == old(self).pending(),
            old(self).pending().len() > 0 ==> r == Some(old(self).pending()[0])
                && final(self).pending() == old(self).pending().drop_first(),
    {
        if self.queue.len() == 0 {
            None
        } else {
            let s = self.queue.remove(0);
            proof {
                assert(self.queue@ =~= old(self).queue@.drop_first());
            }
            Some(s)
        }
    }
}

} // verus!
