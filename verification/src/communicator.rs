use crate::channel::ActionChannel;
use crate::codec;
use crate::codec::ProtocolMessage;
use crate::endpoint::chosen_local;
use crate::endpoint::Endpoint;
use vstd::prelude::*;

verus! {

/// Bit pattern of the 32-bit float 1.0, the argument value every trigger
/// currently transmits.
pub const FLOAT_ONE_BITS: u32 = 0x3f80_0000;

/// The boolean the worker owns exclusively and flips once per trigger.
#[derive(Clone, Copy, PartialEq, Eq, Structural, Debug)]
pub struct ToggleState {
    pub on: bool,
}

impl ToggleState {
    /// Inverts the state.
    pub fn flip(&mut self)
        ensures
            final(self).on == !old(self).on,
    {
        self.on = !self.on;
    }
}

/// `s` after `n` flips: `s` itself for an even `n`, its negation for an
/// odd `n`.
pub open spec fn toggled_n(s: bool, n: int) -> bool
    decreases n,
{
    if n <= 0 {
        s
    } else {
        !toggled_n(s, n - 1)
    }
}

/// The toggle operation is self-inverse: two flips return any state to its
/// original value.
pub proof fn lemma_toggle_self_inverse(s: bool)
    ensures
        toggled_n(s, 2) == s,
{
    assert(toggled_n(s, 2) == !toggled_n(s, 1));
    assert(toggled_n(s, 1) == !toggled_n(s, 0));
}

/// The message one trigger sends, as a function of the post-flip toggle
/// state. Both states currently map to the same argument, float 1.0, so
/// the toggle has no observable effect on the wire payload; this function
/// pins that behaviour.
pub open spec fn payload_for(state: ToggleState) -> ProtocolMessage {
    if state.on {
        ProtocolMessage { arg_bits: FLOAT_ONE_BITS }
    } else {
        ProtocolMessage { arg_bits: FLOAT_ONE_BITS }
    }
}

/// The worker: owns the toggle state and the two addresses of the fixed
/// UDP path. The socket itself lives with the surrounding binary, which
/// binds `local`, sends each returned datagram to `destination`, and logs
/// transmit failures.
pub struct Communicator {
    pub destination: Endpoint,
    pub local: Endpoint,
    pub state: ToggleState,
}

impl Communicator {
    /// Builds a worker for `destination`. The local bind address is the
    /// given one, or the wildcard of the destination's family with an
    /// ephemeral port; the toggle starts out set.
    pub fn new(destination: Endpoint, local_address: Option<Endpoint>) -> (r: Communicator)
        ensures
            r.destination == destination,
            r.local == chosen_local(destination, local_address),
            r.state.on == true,
    {
        let local = crate::endpoint::local_bind_address(&destination, local_address);
        Communicator { destination, local, state: ToggleState { on: true } }
    }

    /// One trigger: flip the toggle first, then build and encode the
    /// message for the new state. The returned datagram is what one
    /// transmit attempt sends to `destination`.
    pub fn trigger(&mut self) -> (datagram: Vec<u8>)
        ensures
            final(self).state.on == !old(self).state.on,
            final(self).destination == old(self).destination,
            final(self).local == old(self).local,
            datagram@ == codec::encode_spec(payload_for(final(self).state)),
    {
        self.state.flip();
        let arg_bits: u32 = if self.state.on {
            FLOAT_ONE_BITS
        } else {
            FLOAT_ONE_BITS
        };
        let msg = ProtocolMessage { arg_bits };
        codec::encode(&msg)
    }

    /// The worker loop: drains the channel in order and, for each signal,
    /// performs one flip and then one encode plus one transmit attempt,
    /// whose outcome `transmit_ok[i]` the network decides. A failed
    /// transmit is logged by the caller and dropped without retry; the loop
    /// continues. Returns, per signal in order, the datagram the transmit
    /// delivered, `None` where it failed.
    pub fn work(&mut self, channel: &mut ActionChannel, transmit_ok: &Vec<bool>) -> (sent: Vec<
        Option<Vec<u8>>,
    >)
        requires
            transmit_ok@.len() == old(channel).pending().len(),
        ensures
            final(channel).pending().len() == 0,
            final(self).destination == old(self).destination,
            final(self).local == old(self).local,
            sent@.len() == old(channel).pending().len(),
            final(self).state.on == toggled_n(old(self).state.on, sent@.len() as int),
            forall|i: int|
                0 <= i < sent@.len() ==> (sent@[i] is Some <==> transmit_ok@[i]),
            forall|i: int|
                0 <= i < sent@.len() ==> (#[trigger] sent@[i] matches Some(d) ==> d@ == codec::encode_spec(
                    payload_for((ToggleState { on: toggled_n(old(self).state.on, i + 1) })),
                )),
    {
        let mut sent: Vec<Option<Vec<u8>>> = Vec::new();
        let mut i: usize = 0;
        let n: usize = transmit_ok.len();
        proof {
            assert(old(channel).pending().skip(0) =~= old(channel).pending());
        }
        while channel.len() > 0
            invariant
                transmit_ok@.len() == old(channel).pending().len(),
                n == transmit_ok@.len(),
                i <= n,
                channel.pending() == old(channel).pending().skip(i as int),
                sent@.len() == i,
                self.destination == old(self).destination,
                self.local == old(self).local,
                self.state.on == toggled_n(old(self).state.on, i as int),
                forall|j: int|
                    0 <= j < i ==> (sent@[j] is Some <==> transmit_ok@[j]),
                forall|j: int|
                    0 <= j < i ==> (#[trigger] sent@[j] matches Some(d) ==> d@ == codec::encode_spec(
                        payload_for((ToggleState { on: toggled_n(old(self).state.on, j + 1) })),
                    )),
            decreases channel.pending().len(),
        {
            let _signal = channel.recv();
            let datagram = self.trigger();
            if transmit_ok[i] {
                sent.push(Some(datagram));
            } else {
                sent.push(None);
            }
            proof {
                assert(old(channel).pending().skip(i as int).len() == old(
                    channel,
                ).pending().len() - i);
                assert(i < n);
                assert(old(channel).pending().skip(i as int).drop_first() =~= old(
                    channel,
                ).pending().skip(i as int + 1));
            }
            i = i + 1;
        }
        sent
    }
}

} // verus!
