use evdev_identify::capability::{capabilities, Capability, DeviceClass};
use evdev_identify::event::{
    BTN_0, BTN_9, BTN_DPAD_RIGHT, BTN_DPAD_UP, BTN_EXTRA, BTN_LEFT, BTN_THUMBR, BTN_TRIGGER,
    EV_ABS, EV_KEY, EV_REL, EV_SYN, KEY_MICMUTE, KEY_RESERVED, REL_MAX, REL_X, SYN_REPORT,
};
use evdev_identify::event::InputEvent;
use evdev_identify::inject::{key_press_events, key_syn_events};

#[test]
fn mouse_capabilities_exact() {
    assert_eq!(
        capabilities(DeviceClass::Mouse),
        vec![
            Capability::EventType(EV_REL),
            Capability::EventType(EV_KEY),
            Capability::Codes { event_type: EV_KEY, first: BTN_LEFT, last: BTN_EXTRA },
            Capability::Codes { event_type: EV_REL, first: REL_X, last: REL_MAX },
        ]
    );
    assert!(!capabilities(DeviceClass::Mouse).contains(&Capability::EventType(EV_ABS)));
}

#[test]
fn keyboard_capabilities_exact() {
    assert_eq!(
        capabilities(DeviceClass::Keyboard),
        vec![
            Capability::EventType(EV_KEY),
            Capability::Codes { event_type: EV_KEY, first: KEY_RESERVED, last: KEY_MICMUTE },
        ]
    );
}

#[test]
fn gamepad_capabilities_exact() {
    assert_eq!(
        capabilities(DeviceClass::Gamepad),
        vec![
            Capability::EventType(EV_KEY),
            Capability::EventType(EV_ABS),
            Capability::Codes { event_type: EV_KEY, first: BTN_0, last: BTN_9 },
            Capability::Codes { event_type: EV_KEY, first: BTN_TRIGGER, last: BTN_THUMBR },
            Capability::Codes { event_type: EV_KEY, first: BTN_DPAD_UP, last: BTN_DPAD_RIGHT },
        ]
    );
}

#[test]
fn key_press_is_press_syn_release_syn() {
    let syn = InputEvent::new(EV_SYN, SYN_REPORT, 0);
    assert_eq!(
        key_press_events(30),
        vec![InputEvent::new(EV_KEY, 30, 1), syn, InputEvent::new(EV_KEY, 30, 0), syn]
    );
}

#[test]
fn key_syn_is_value_then_syn() {
    assert_eq!(
        key_syn_events(42, 2),
        vec![InputEvent::new(EV_KEY, 42, 2), InputEvent::new(EV_SYN, SYN_REPORT, 0)]
    );
}
