use sspa_tui::events::{
    element_selection, handle_drained, widget_selection, Drained, InputEvent, InputPump, KeyCode,
    KeyPress, PumpAction, CONTROL, NO_MODIFIERS,
};
use sspa_tui::state::{StateKeeper, StateTransition, WidgetId};

fn key(code: KeyCode, modifiers: u8) -> InputEvent {
    InputEvent::Key(KeyPress { code, modifiers })
}

#[test]
fn control_arrows_and_vi_keys_move_focus() {
    assert_eq!(widget_selection(&key(KeyCode::Up, CONTROL)), Some(StateTransition::Up));
    assert_eq!(widget_selection(&key(KeyCode::Right, CONTROL)), Some(StateTransition::Right));
    assert_eq!(widget_selection(&key(KeyCode::Char('h'), CONTROL)), Some(StateTransition::Left));
    assert_eq!(widget_selection(&key(KeyCode::Char('J'), CONTROL)), Some(StateTransition::Down));
    assert_eq!(widget_selection(&key(KeyCode::Up, NO_MODIFIERS)), None);
    assert_eq!(widget_selection(&key(KeyCode::Up, CONTROL | 1)), None);
    assert_eq!(widget_selection(&key(KeyCode::Char('x'), CONTROL)), None);
    assert_eq!(widget_selection(&InputEvent::Mouse), None);
}

#[test]
fn plain_arrows_and_vi_keys_move_cursor() {
    assert_eq!(element_selection(&key(KeyCode::Down, NO_MODIFIERS)), Some(StateTransition::Down));
    assert_eq!(element_selection(&key(KeyCode::Char('k'), NO_MODIFIERS)), Some(StateTransition::Up));
    assert_eq!(element_selection(&key(KeyCode::Char('L'), NO_MODIFIERS)), Some(StateTransition::Right));
    assert_eq!(element_selection(&key(KeyCode::Left, NO_MODIFIERS)), Some(StateTransition::Left));
    assert_eq!(element_selection(&key(KeyCode::Down, CONTROL)), None);
    assert_eq!(element_selection(&key(KeyCode::Esc, NO_MODIFIERS)), None);
    assert_eq!(element_selection(&InputEvent::Other), None);
}

#[test]
fn quit_key_stops_the_pump_for_good() {
    let mut pump = InputPump::new();
    assert!(pump.running());
    assert_eq!(pump.on_event(&key(KeyCode::Down, NO_MODIFIERS)), PumpAction::Forward);
    assert_eq!(pump.on_event(&key(KeyCode::Char('q'), NO_MODIFIERS)), PumpAction::Stop);
    assert!(!pump.running());
    assert_eq!(pump.on_event(&key(KeyCode::Down, NO_MODIFIERS)), PumpAction::Stop);
    assert_eq!(pump.on_event(&InputEvent::Mouse), PumpAction::Stop);
    assert!(!pump.running());
}

#[test]
fn upper_q_and_escape_also_quit() {
    let mut a = InputPump::new();
    assert_eq!(a.on_event(&key(KeyCode::Char('Q'), CONTROL)), PumpAction::Stop);
    let mut b = InputPump::new();
    assert_eq!(b.on_event(&key(KeyCode::Esc, NO_MODIFIERS)), PumpAction::Stop);
}

#[test]
fn pump_forwards_keys_and_mouse_drops_others() {
    let mut pump = InputPump::new();
    assert_eq!(pump.on_event(&InputEvent::Mouse), PumpAction::Forward);
    assert_eq!(pump.on_event(&key(KeyCode::Other, NO_MODIFIERS)), PumpAction::Forward);
    assert_eq!(pump.on_event(&InputEvent::Other), PumpAction::Discard);
    assert!(pump.running());
}

#[test]
fn stopped_drain_exits_empty_drain_does_not() {
    let mut s = StateKeeper::new();
    assert!(!handle_drained(&mut s, Drained::Empty));
    assert!(s.is_widget_selected(WidgetId::Ext));
    assert!(handle_drained(&mut s, Drained::Stopped));
    assert!(handle_drained(&mut s, Drained::Stopped));
}

#[test]
fn drained_events_drive_navigation_in_order() {
    let mut s = StateKeeper::new();
    let events = [
        key(KeyCode::Down, NO_MODIFIERS),
        key(KeyCode::Char('j'), NO_MODIFIERS),
        key(KeyCode::Right, CONTROL),
        key(KeyCode::Down, NO_MODIFIERS),
        InputEvent::Mouse,
    ];
    for e in events {
        assert!(!handle_drained(&mut s, Drained::Event(e)));
    }
    assert!(s.is_widget_selected(WidgetId::Dac));
    assert_eq!(s.selected_item(WidgetId::Dac), Some(1));
    assert_eq!(s.selected_item(WidgetId::Ext), None);
}
