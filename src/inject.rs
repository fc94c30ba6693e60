use vstd::prelude::*;
use crate::event::{InputEvent, EV_KEY, EV_SYN, KEY_PRESSED, KEY_RELEASED, SYN_REPORT};

verus! {

/// The end-of-report marker.
pub open spec fn syn_report() -> InputEvent {
    InputEvent { event_type: EV_SYN, code: SYN_REPORT, value: 0 }
}

/// A key event.
pub open spec fn key_event(key: u16, value: i32) -> InputEvent {
    InputEvent { event_type: EV_KEY, code: key, value }
}

/// The events that report one key value: the key event, then the marker.
pub fn key_syn_events(key: u16, value: i32) -> (r: Vec<InputEvent>)
    ensures
        r@ == seq![key_event(key, value), syn_report()],
{
    vec![InputEvent::new(EV_KEY, key, value), InputEvent::new(EV_SYN, SYN_REPORT, 0)]
}

/// The events of a full key press: a press and a release, each followed by
/// the marker.
pub fn key_press_events(key: u16) -> (r: Vec<InputEvent>)
    ensures
        r@ == seq![
            key_event(key, KEY_PRESSED),
            syn_report(),
            key_event(key, KEY_RELEASED),
            syn_report(),
        ],
{
    let mut r = key_syn_events(key, KEY_PRESSED);
    let mut release = key_syn_events(key, KEY_RELEASED);
    r.append(&mut release);
    r
}

} // verus!
