use totaldim::dispatcher::EventDispatcher;
use totaldim::dispatcher::HotkeyBinding;
use totaldim::dispatcher::HotkeyEvent;
use totaldim::dispatcher::MenuEvent;
use totaldim::dispatcher::StatusIconEvent;
use totaldim::dispatcher::TickInput;

const EXIT_ID: u32 = 9;

fn bindings() -> (HotkeyBinding, HotkeyBinding) {
    (
        HotkeyBinding { id: 1, modifiers: 0, code: 10 },
        HotkeyBinding { id: 2, modifiers: 4, code: 11 },
    )
}

fn quiet_tick() -> TickInput {
    TickInput { init_cause: false, hotkey: None, status_icon: None, menu: None }
}

fn hotkey_tick(id: u32, pressed: bool) -> TickInput {
    TickInput {
        init_cause: false,
        hotkey: Some(HotkeyEvent { id, pressed }),
        status_icon: None,
        menu: None,
    }
}

fn menu_tick(id: u32) -> TickInput {
    TickInput { init_cause: false, hotkey: None, status_icon: None, menu: Some(MenuEvent { id }) }
}

fn active_dispatcher() -> EventDispatcher {
    let (a, b) = bindings();
    let mut d = EventDispatcher::new(a, b, EXIT_ID);
    let first = d.tick(&TickInput { init_cause: true, hotkey: None, status_icon: None, menu: None });
    assert!(first.perform_setup);
    d
}

#[test]
fn first_iteration_performs_setup_once() {
    let (a, b) = bindings();
    let mut d = EventDispatcher::new(a, b, EXIT_ID);
    let init = TickInput { init_cause: true, hotkey: None, status_icon: None, menu: None };
    let first = d.tick(&init);
    assert!(first.perform_setup);
    assert!(!first.emit_signal);
    assert!(!first.exit);
    let second = d.tick(&init);
    assert!(!second.perform_setup);
}

#[test]
fn pressed_registered_binding_emits_one_signal() {
    let mut d = active_dispatcher();
    let actions = d.tick(&hotkey_tick(1, true));
    assert!(actions.emit_signal);
    assert!(!actions.exit);
}

#[test]
fn second_registered_binding_also_emits() {
    let mut d = active_dispatcher();
    let actions = d.tick(&hotkey_tick(2, true));
    assert!(actions.emit_signal);
}

#[test]
fn released_transition_emits_nothing() {
    let mut d = active_dispatcher();
    let actions = d.tick(&hotkey_tick(1, false));
    assert!(!actions.emit_signal);
}

#[test]
fn unregistered_id_emits_nothing() {
    let mut d = active_dispatcher();
    let actions = d.tick(&hotkey_tick(7, true));
    assert!(!actions.emit_signal);
}

#[test]
fn status_icon_event_is_observed_only() {
    let mut d = active_dispatcher();
    let actions = d.tick(&TickInput {
        init_cause: false,
        hotkey: None,
        status_icon: Some(StatusIconEvent),
        menu: None,
    });
    assert!(!actions.perform_setup);
    assert!(!actions.emit_signal);
    assert!(!actions.exit);
    let after = d.tick(&hotkey_tick(1, true));
    assert!(after.emit_signal);
}

#[test]
fn other_menu_entry_does_not_exit() {
    let mut d = active_dispatcher();
    let actions = d.tick(&menu_tick(EXIT_ID + 1));
    assert!(!actions.exit);
    let after = d.tick(&hotkey_tick(1, true));
    assert!(after.emit_signal);
}

#[test]
fn exit_menu_terminates_within_one_tick() {
    let mut d = active_dispatcher();
    let actions = d.tick(&menu_tick(EXIT_ID));
    assert!(actions.exit);
}

#[test]
fn no_signals_after_termination_despite_queued_events() {
    let mut d = active_dispatcher();
    let exit_actions = d.tick(&menu_tick(EXIT_ID));
    assert!(exit_actions.exit);
    let queued = [
        hotkey_tick(1, true),
        hotkey_tick(2, true),
        menu_tick(EXIT_ID),
        quiet_tick(),
    ];
    for input in queued {
        let actions = d.tick(&input);
        assert!(!actions.emit_signal);
        assert!(!actions.exit);
        assert!(!actions.perform_setup);
    }
}

#[test]
fn hotkey_and_exit_in_same_tick_still_emits_then_exits() {
    let mut d = active_dispatcher();
    let actions = d.tick(&TickInput {
        init_cause: false,
        hotkey: Some(HotkeyEvent { id: 1, pressed: true }),
        status_icon: None,
        menu: Some(MenuEvent { id: EXIT_ID }),
    });
    assert!(actions.emit_signal);
    assert!(actions.exit);
}
