use vstd::prelude::*;

verus! {

/// An immutable association between a logical hotkey id and a physical key
/// combination (a modifier bitmask and a key code), registered once with
/// the operating system at startup and never mutated.
#[derive(Clone, Copy, PartialEq, Eq, Structural, Debug)]
pub struct HotkeyBinding {
    /// The logical id the OS reports back in hotkey events.
    pub id: u32,
    /// Modifier bitmask of the key combination.
    pub modifiers: u32,
    /// Key code of the key combination.
    pub code: u32,
}

/// One OS-delivered hotkey event: the id of the binding it concerns and
/// whether the transition is a press (`true`) or a release (`false`).
#[derive(Clone, Copy, PartialEq, Eq, Structural, Debug)]
pub struct HotkeyEvent {
    pub id: u32,
    pub pressed: bool,
}

/// One event of the status-icon surface. Such events are observed and
/// logged only; they carry nothing the dispatcher decides on.
#[derive(Clone, Copy, PartialEq, Eq, Structural, Debug)]
pub struct StatusIconEvent;

/// One menu selection event, carrying the id of the selected entry.
#[derive(Clone, Copy, PartialEq, Eq, Structural, Debug)]
pub struct MenuEvent {
    pub id: u32,
}

/// Dispatcher lifecycle: strictly Uninitialized, then Active, then
/// Terminated, never backwards and never in a cycle.
#[derive(Clone, Copy, PartialEq, Eq, Structural, Debug)]
pub enum LifecycleState {
    Uninitialized,
    Active,
    Terminated,
}

/// What one poll iteration drained, in the fixed order the dispatcher
/// examines it: the distinguished first-iteration cause, then at most one
/// event from each of the three sources.
#[derive(Clone, Copy, PartialEq, Eq, Debug)]
pub struct TickInput {
    /// Whether this iteration is the distinguished initialization cause.
    pub init_cause: bool,
    pub hotkey: Option<HotkeyEvent>,
    pub status_icon: Option<StatusIconEvent>,
    pub menu: Option<MenuEvent>,
}

/// Everything one poll iteration asks of its surroundings; the caller
/// performs these effects after the call.
#[derive(Clone, Copy, PartialEq, Eq, Debug)]
pub struct TickActions {
    /// Perform the one-time setup: build the status-icon surface and menu.
    pub perform_setup: bool,
    /// Send exactly one trigger signal to the worker.
    pub emit_signal: bool,
    /// Release the status-icon surface and stop iterating.
    pub exit: bool,
}

/// The dispatch loop's decision state: its lifecycle, the two registered
/// bindings it compares hotkey ids against, and the id of the single
/// "Exit" menu entry.
#[derive(Clone, Copy, PartialEq, Eq, Structural, Debug)]
pub struct EventDispatcher {
    pub state: LifecycleState,
    pub binding_a: HotkeyBinding,
    pub binding_b: HotkeyBinding,
    pub exit_menu_id: u32,
}

/// `d` after its initialization step: the distinguished first-iteration
/// cause moves Uninitialized to Active; nothing else ever does, and
/// nothing else changes.
pub open spec fn after_init(d: EventDispatcher, init_cause: bool) -> EventDispatcher {
    if d.state is Uninitialized && init_cause {
        EventDispatcher { state: LifecycleState::Active, ..d }
    } else {
        d
    }
}

/// Whether the dispatcher in state `d` accepts hotkey event `e` as a
/// trigger: only while Active, only for a registered binding id, and only
/// on the pressed transition; a release for the same id is ignored.
pub open spec fn accepts_hotkey(d: EventDispatcher, e: HotkeyEvent) -> bool {
    d.state is Active && (e.id == d.binding_a.id || e.id == d.binding_b.id) && e.pressed
}

/// Whether the iteration `input`, run from state `d`, emits a trigger
/// signal.
pub open spec fn tick_emits(d: EventDispatcher, input: TickInput) -> bool {
    input.hotkey matches Some(e) && accepts_hotkey(after_init(d, input.init_cause), e)
}

/// Whether the iteration `input`, run from state `d`, selects the exit
/// entry and so ends event processing.
pub open spec fn tick_exits(d: EventDispatcher, input: TickInput) -> bool {
    input.menu matches Some(e) && after_init(d, input.init_cause).state is Active && e.id
        == d.exit_menu_id
}

/// The dispatcher state after one full iteration on `input`.
pub open spec fn tick_next(d: EventDispatcher, input: TickInput) -> EventDispatcher {
    let d1 = after_init(d, input.init_cause);
    if tick_exits(d, input) {
        EventDispatcher { state: LifecycleState::Terminated, ..d1 }
    } else {
        d1
    }
}

/// How many trigger signals running the dispatcher from state `d` through
/// the iterations `inputs`, in order, emits.
pub open spec fn signals_emitted(d: EventDispatcher, inputs: Seq<TickInput>) -> nat
    decreases inputs.len(),
{
    if inputs.len() == 0 {
        0
    } else {
        (if tick_emits(d, inputs[0]) {
            1nat
        } else {
            0nat
        }) + signals_emitted(tick_next(d, inputs[0]), inputs.drop_first())
    }
}

/// The terminal state is terminal: no iteration leaves it, and no
/// iteration run from it emits a signal.
pub proof fn lemma_terminated_is_terminal(d: EventDispatcher, input: TickInput)
    requires
        d.state is Terminated,
    ensures
        tick_next(d, input).state is Terminated,
        !tick_emits(d, input),
{
}

/// Lifecycle transitions run strictly forward: no iteration returns a
/// dispatcher to Uninitialized, and none leaves Terminated.
pub proof fn lemma_lifecycle_runs_forward(d: EventDispatcher, input: TickInput)
    ensures
        tick_next(d, input).state is Uninitialized ==> d.state is Uninitialized,
        d.state is Terminated ==> tick_next(d, input).state is Terminated,
{
}

/// Selecting the exit entry reaches the terminal state within that same
/// iteration.
pub proof fn lemma_exit_terminates(d: EventDispatcher, input: TickInput)
    requires
        tick_exits(d, input),
    ensures
        tick_next(d, input).state is Terminated,
{
}

/// After the terminal transition no further signals are emitted, however
/// many events are still queued.
pub proof fn lemma_no_signals_after_termination(d: EventDispatcher, inputs: Seq<TickInput>)
    requires
        d.state is Terminated,
    ensures
        signals_emitted(d, inputs) == 0,
    decreases inputs.len(),
{
    if inputs.len() > 0 {
        lemma_terminated_is_terminal(d, inputs[0]);
        lemma_no_signals_after_termination(tick_next(d, inputs[0]), inputs.drop_first());
    }
}

impl EventDispatcher {
    /// A dispatcher that has not yet run its first iteration, with the two
    /// registered bindings and the id of the "Exit" menu entry.
    pub fn new(binding_a: HotkeyBinding, binding_b: HotkeyBinding, exit_menu_id: u32) -> (r:
        EventDispatcher)
        ensures
            r.state is Uninitialized,
            r.binding_a == binding_a,
            r.binding_b == binding_b,
            r.exit_menu_id == exit_menu_id,
    {
        EventDispatcher {
            state: LifecycleState::Uninitialized,
            binding_a,
            binding_b,
            exit_menu_id,
        }
    }

    /// One poll iteration. In fixed order: the initialization cause moves
    /// the dispatcher into steady state; a hotkey event is accepted as a
    /// trigger exactly under [`accepts_hotkey`]; a status-icon event is
    /// observed only; a menu event matching the exit entry ends event
    /// processing. The dispatcher decides everything here and performs no
    /// I/O; the caller carries out the returned actions.
    pub fn tick(&mut self, input: &TickInput) -> (r: TickActions)
        ensures
            *final(self) == tick_next(*old(self), *input),
            r.perform_setup == (old(self).state is Uninitialized && input.init_cause),
            r.emit_signal == tick_emits(*old(self), *input),
            r.exit == tick_exits(*old(self), *input),
    {
        let mut perform_setup = false;
        if input.init_cause && self.state == LifecycleState::Uninitialized {
            self.state = LifecycleState::Active;
            perform_setup = true;
        }
        let mut emit_signal = false;
        if let Some(e) = &input.hotkey {
            if self.state == LifecycleState::Active && (e.id == self.binding_a.id || e.id
                == self.binding_b.id) && e.pressed {
                emit_signal = true;
            }
        }
        // status-icon events carry no decision; the caller logs them
        let mut exit = false;
        if let Some(e) = &input.menu {
            if self.state == LifecycleState::Active && e.id == self.exit_menu_id {
                self.state = LifecycleState::Terminated;
                exit = true;
            }
        }
        TickActions { perform_setup, emit_signal, exit }
    }
}

} // verus!
