use rinertia::input_codes::{
    RawEvent, BTN_LEFT, BTN_MIDDLE, BTN_TOOL_FINGER, EV_ABS, EV_KEY, EV_REL, EV_SYN, KEY_A,
    KEY_MICMUTE, REL_WHEEL, REL_X, REL_Y,
};
use rinertia::interrupt::{
    after_read, any_interrupt, classify_revents, end_round, ReadDecision, is_event_node, is_external_mouse, is_interrupt_event,
    is_keyboard, should_monitor, DeviceCaps, PollOutcome,
};

const KEYBOARD: DeviceCaps = DeviceCaps {
    has_key_a: true,
    has_key_z: true,
    has_btn_left: false,
    has_btn_tool_finger: false,
    has_rel_x: false,
};

const MOUSE: DeviceCaps = DeviceCaps {
    has_key_a: false,
    has_key_z: false,
    has_btn_left: true,
    has_btn_tool_finger: false,
    has_rel_x: true,
};

const TOUCHPAD: DeviceCaps = DeviceCaps {
    has_key_a: false,
    has_key_z: false,
    has_btn_left: true,
    has_btn_tool_finger: true,
    has_rel_x: true,
};

fn raw(event_type: u16, code: u16, value: i32) -> RawEvent {
    RawEvent { event_type, code, value }
}

#[test]
fn device_kinds() {
    assert!(is_keyboard(&KEYBOARD));
    assert!(!is_keyboard(&MOUSE));
    assert!(is_external_mouse(&MOUSE));
    assert!(!is_external_mouse(&TOUCHPAD));
    assert!(!is_external_mouse(&KEYBOARD));
    assert!(!is_keyboard(&DeviceCaps { has_key_z: false, ..KEYBOARD }));
    assert!(!is_external_mouse(&DeviceCaps { has_rel_x: false, ..MOUSE }));
}

#[test]
fn which_devices_are_watched() {
    assert!(should_monitor(Some("Logitech USB Keyboard"), Some("isa0060/serio0/input0"), Some("isa0060/serio1/input0"), &KEYBOARD));
    assert!(!should_monitor(Some("rinertia Virtual Device"), None, None, &MOUSE));
    // the touchpad's own auxiliary mouse interface
    assert!(!should_monitor(Some("ELAN mouse"), Some("i2c-ELAN:00"), Some("i2c-ELAN:00"), &MOUSE));
    assert!(should_monitor(Some("USB mouse"), Some("usb-1/input0"), Some("i2c-ELAN:00"), &MOUSE));
    assert!(should_monitor(None, None, None, &MOUSE));
    assert!(!should_monitor(Some("Touchpad"), None, None, &TOUCHPAD));
}

#[test]
fn event_nodes() {
    assert!(is_event_node("event12"));
    assert!(!is_event_node("mouse0"));
    assert!(!is_event_node("by-id"));
}

#[test]
fn interrupting_events() {
    assert!(is_interrupt_event(&raw(EV_KEY, KEY_A, 1)));
    assert!(!is_interrupt_event(&raw(EV_KEY, KEY_A, 0)));
    assert!(!is_interrupt_event(&raw(EV_KEY, KEY_A, 2)));
    assert!(is_interrupt_event(&raw(EV_KEY, KEY_MICMUTE, 1)));
    assert!(!is_interrupt_event(&raw(EV_KEY, KEY_MICMUTE + 1, 1)));
    assert!(is_interrupt_event(&raw(EV_KEY, BTN_LEFT, 1)));
    assert!(is_interrupt_event(&raw(EV_KEY, BTN_MIDDLE, 1)));
    assert!(!is_interrupt_event(&raw(EV_KEY, BTN_TOOL_FINGER, 1)));
    assert!(is_interrupt_event(&raw(EV_REL, REL_X, -4)));
    assert!(is_interrupt_event(&raw(EV_REL, REL_Y, 0)));
    assert!(!is_interrupt_event(&raw(EV_REL, REL_WHEEL, 1)));
    assert!(!is_interrupt_event(&raw(EV_ABS, 0, 1)));
    assert!(!is_interrupt_event(&raw(EV_SYN, 0, 0)));
}

#[test]
fn batches_and_polls() {
    assert!(!any_interrupt(&[raw(EV_SYN, 0, 0), raw(EV_KEY, KEY_A, 0)]));
    assert!(any_interrupt(&[raw(EV_SYN, 0, 0), raw(EV_REL, REL_X, 3)]));
    assert!(!any_interrupt(&[]));
    assert_eq!(classify_revents(false, false, false), PollOutcome::Quiet);
    assert_eq!(classify_revents(true, true, true), PollOutcome::Gone);
    assert_eq!(classify_revents(true, false, true), PollOutcome::Readable);
    assert_eq!(classify_revents(true, false, false), PollOutcome::Quiet);
}

#[test]
fn device_set_after_a_round() {
    assert_eq!(after_read(false, true), ReadDecision::DropDevice);
    assert_eq!(after_read(true, true), ReadDecision::SendStop);
    assert_eq!(after_read(true, false), ReadDecision::Nothing);

    let mut devices = vec!["kbd", "mouse", "pad-aux"];
    assert!(end_round(&mut devices, None, false));
    assert_eq!(devices, vec!["kbd", "mouse", "pad-aux"]);
    assert!(end_round(&mut devices, Some(0), false));
    assert_eq!(devices, vec!["pad-aux", "mouse"]);
    assert!(!end_round(&mut devices, Some(1), true));
    assert_eq!(devices, vec!["pad-aux", "mouse"]);
    assert!(end_round(&mut devices, Some(1), false));
    assert!(!end_round(&mut devices, Some(0), false));
    assert!(devices.is_empty());
}
