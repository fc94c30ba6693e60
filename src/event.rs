use vstd::prelude::*;

verus! {

/// Synchronization event type.
pub const EV_SYN: u16 = 0;
/// Key and button event type.
pub const EV_KEY: u16 = 1;
/// Relative-axis event type.
pub const EV_REL: u16 = 2;
/// Absolute-axis event type.
pub const EV_ABS: u16 = 3;

/// End of one report of events.
pub const SYN_REPORT: u16 = 0;

/// Lowest key code.
pub const KEY_RESERVED: u16 = 0;
/// Microphone mute, the highest code of the typical keyboard range.
pub const KEY_MICMUTE: u16 = 248;

/// First generic button.
pub const BTN_0: u16 = 256;
/// Last generic button.
pub const BTN_9: u16 = 265;
/// Mouse buttons.
pub const BTN_LEFT: u16 = 272;
pub const BTN_RIGHT: u16 = 273;
pub const BTN_MIDDLE: u16 = 274;
pub const BTN_SIDE: u16 = 275;
pub const BTN_EXTRA: u16 = 276;
/// First and last named gamepad buttons.
pub const BTN_TRIGGER: u16 = 288;
pub const BTN_THUMBR: u16 = 318;
/// The D-pad buttons, up through right.
pub const BTN_DPAD_UP: u16 = 544;
pub const BTN_DPAD_RIGHT: u16 = 547;

/// Relative axes.
pub const REL_X: u16 = 0;
pub const REL_Y: u16 = 1;
pub const REL_HWHEEL: u16 = 6;
pub const REL_WHEEL: u16 = 8;
/// Highest relative-axis code.
pub const REL_MAX: u16 = 15;

/// Key value of a release.
pub const KEY_RELEASED: i32 = 0;
/// Key value of a press.
pub const KEY_PRESSED: i32 = 1;

/// One input event: its type, the code within that type, and the payload.
#[derive(Clone, Copy, Debug, PartialEq, Eq, Structural)]
pub struct InputEvent {
    pub event_type: u16,
    pub code: u16,
    pub value: i32,
}

impl InputEvent {
    pub fn new(event_type: u16, code: u16, value: i32) -> (r: InputEvent)
        ensures
            r == (InputEvent { event_type, code, value }),
    {
        InputEvent { event_type, code, value }
    }
}

} // verus!
