use evdev_identify::classify::{
    keyboard_release, keyboard_step, mouse_evidence, KeyboardMouseSearch, MergedItem, Verdict,
};
use evdev_identify::error::IdentifyError;
use evdev_identify::event::{
    InputEvent, BTN_LEFT, BTN_SIDE, EV_KEY, EV_REL, EV_SYN, KEY_MICMUTE, REL_HWHEEL, REL_WHEEL,
    REL_X,
};

const KEY_A: u16 = 30;
const BTN_SOUTH: u16 = 304;
const REL_DIAL: u16 = 7;

fn ev(tag: usize, event_type: u16, code: u16, value: i32) -> MergedItem {
    Some(Ok((tag, InputEvent::new(event_type, code, value))))
}

fn io_error() -> std::io::Error {
    std::io::Error::new(std::io::ErrorKind::Other, "device gone")
}

#[test]
fn keyboard_press_then_release_takes_two_events() {
    let a = 0;
    assert!(matches!(keyboard_step(ev(a, EV_KEY, KEY_A, 1)), Verdict::Continue));
    assert!(matches!(keyboard_step(ev(a, EV_KEY, KEY_A, 0)), Verdict::Found(0)));
}

#[test]
fn keyboard_ignores_release_outside_range() {
    let b = 1;
    assert!(matches!(keyboard_step(ev(b, EV_KEY, BTN_SOUTH, 0)), Verdict::Continue));
    assert!(matches!(keyboard_step(ev(2, EV_KEY, KEY_A, 0)), Verdict::Found(2)));
}

#[test]
fn keyboard_range_edges() {
    assert!(keyboard_release(&InputEvent::new(EV_KEY, 0, 0)));
    assert!(keyboard_release(&InputEvent::new(EV_KEY, KEY_MICMUTE, 0)));
    assert!(!keyboard_release(&InputEvent::new(EV_KEY, KEY_MICMUTE + 1, 0)));
    assert!(!keyboard_release(&InputEvent::new(EV_KEY, KEY_A, 2)));
    assert!(!keyboard_release(&InputEvent::new(EV_REL, KEY_A, 0)));
}

#[test]
fn keyboard_stream_end_and_read_error() {
    assert!(matches!(keyboard_step(None), Verdict::Failed(IdentifyError::EventStreamEnded)));
    match keyboard_step(Some(Err(io_error()))) {
        Verdict::Failed(IdentifyError::ReadEvent(e)) => assert_eq!(e.to_string(), "device gone"),
        _ => panic!("expected a read error"),
    }
}

#[test]
fn mouse_evidence_codes() {
    assert!(mouse_evidence(&InputEvent::new(EV_KEY, BTN_LEFT, 1)));
    assert!(mouse_evidence(&InputEvent::new(EV_KEY, BTN_SIDE, 0)));
    assert!(mouse_evidence(&InputEvent::new(EV_REL, REL_WHEEL, -1)));
    assert!(mouse_evidence(&InputEvent::new(EV_REL, REL_HWHEEL, 1)));
    assert!(!mouse_evidence(&InputEvent::new(EV_REL, REL_DIAL, 1)));
    assert!(!mouse_evidence(&InputEvent::new(EV_SYN, 0, 0)));
}

#[test]
fn mkb_fills_slots_in_arrival_order() {
    let (k, m) = (0, 1);
    let mut s = KeyboardMouseSearch::new();
    assert!(matches!(s.step(ev(m, EV_REL, REL_X, 3)), Verdict::Continue));
    assert_eq!(s.mouse, Some(m));
    assert!(matches!(s.step(ev(k, EV_KEY, KEY_A, 0)), Verdict::Found((0, 1))));
}

#[test]
fn mkb_filled_slot_is_kept() {
    let mut s = KeyboardMouseSearch::new();
    assert!(matches!(s.step(ev(4, EV_REL, REL_X, 1)), Verdict::Continue));
    assert!(matches!(s.step(ev(5, EV_KEY, BTN_LEFT, 1)), Verdict::Continue));
    assert!(matches!(s.step(ev(6, EV_REL, REL_WHEEL, 1)), Verdict::Continue));
    assert_eq!(s.mouse, Some(4));
    assert_eq!(s.keyboard, None);
    assert!(matches!(s.step(ev(2, EV_KEY, KEY_A, 0)), Verdict::Found((2, 4))));
}

#[test]
fn mkb_keyboard_slot_is_kept() {
    let mut s = KeyboardMouseSearch::new();
    assert!(matches!(s.step(ev(2, EV_KEY, KEY_A, 0)), Verdict::Continue));
    assert!(matches!(s.step(ev(3, EV_KEY, KEY_A, 0)), Verdict::Continue));
    assert_eq!(s.keyboard, Some(2));
    assert!(matches!(s.step(ev(8, EV_KEY, BTN_LEFT, 0)), Verdict::Found((2, 8))));
}

#[test]
fn mkb_any_key_release_counts_as_keyboard() {
    let mut s = KeyboardMouseSearch::new();
    assert!(matches!(s.step(ev(9, EV_KEY, BTN_SOUTH, 0)), Verdict::Continue));
    assert_eq!(s.keyboard, Some(9));
}

#[test]
fn mkb_ignores_presses_and_other_events() {
    let mut s = KeyboardMouseSearch::new();
    assert!(matches!(s.step(ev(1, EV_KEY, KEY_A, 1)), Verdict::Continue));
    assert!(matches!(s.step(ev(1, EV_SYN, 0, 0)), Verdict::Continue));
    assert!(matches!(s.step(ev(1, EV_REL, REL_DIAL, 1)), Verdict::Continue));
    assert_eq!(s.keyboard, None);
    assert_eq!(s.mouse, None);
}

#[test]
fn mkb_mouse_button_release_is_mouse_evidence() {
    let mut s = KeyboardMouseSearch::new();
    assert!(matches!(s.step(ev(3, EV_KEY, BTN_LEFT, 0)), Verdict::Continue));
    assert_eq!(s.mouse, Some(3));
    assert_eq!(s.keyboard, None);
}

#[test]
fn mkb_stream_end_before_both_fails() {
    let mut s = KeyboardMouseSearch::new();
    assert!(matches!(s.step(ev(1, EV_REL, REL_X, 1)), Verdict::Continue));
    assert!(matches!(s.step(None), Verdict::Failed(IdentifyError::EventStreamEnded)));
    assert_eq!(s.keyboard, None);
}

#[test]
fn mkb_read_error_fails() {
    let mut s = KeyboardMouseSearch::new();
    assert!(matches!(
        s.step(Some(Err(io_error()))),
        Verdict::Failed(IdentifyError::ReadEvent(_))
    ));
}
