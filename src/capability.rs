use vstd::prelude::*;
use crate::event::{
    BTN_0, BTN_9, BTN_DPAD_RIGHT, BTN_DPAD_UP, BTN_EXTRA, BTN_LEFT, BTN_THUMBR, BTN_TRIGGER, EV_ABS,
    EV_KEY, EV_REL, KEY_MICMUTE, KEY_RESERVED, REL_MAX, REL_X,
};

verus! {

/// The kinds of device whose capabilities can be enabled.
#[derive(Clone, Copy, Debug, PartialEq, Eq, Structural)]
pub enum DeviceClass {
    Keyboard,
    Mouse,
    Gamepad,
}

/// One entry of a capability table.
#[derive(Clone, Copy, Debug, PartialEq, Eq, Structural)]
pub enum Capability {
    /// Enable an event type.
    EventType(u16),
    /// Enable the codes of one event type that the device library defines,
    /// from `first` through `last`.
    Codes { event_type: u16, first: u16, last: u16 },
}

/// The table of a device class, in the order the entries are enabled.
pub open spec fn table_of(class: DeviceClass) -> Seq<Capability> {
    match class {
        DeviceClass::Keyboard => seq![
            Capability::EventType(EV_KEY),
            Capability::Codes { event_type: EV_KEY, first: KEY_RESERVED, last: KEY_MICMUTE },
        ],
        DeviceClass::Mouse => seq![
            Capability::EventType(EV_REL),
            Capability::EventType(EV_KEY),
            Capability::Codes { event_type: EV_KEY, first: BTN_LEFT, last: BTN_EXTRA },
            Capability::Codes { event_type: EV_REL, first: REL_X, last: REL_MAX },
        ],
        DeviceClass::Gamepad => seq![
            Capability::EventType(EV_KEY),
            Capability::EventType(EV_ABS),
            Capability::Codes { event_type: EV_KEY, first: BTN_0, last: BTN_9 },
            Capability::Codes { event_type: EV_KEY, first: BTN_TRIGGER, last: BTN_THUMBR },
            Capability::Codes { event_type: EV_KEY, first: BTN_DPAD_UP, last: BTN_DPAD_RIGHT },
        ],
    }
}

/// An event type that a table enables.
pub open spec fn enables_type(t: Seq<Capability>, event_type: u16) -> bool {
    exists|i: int| 0 <= i < t.len() && t[i] == Capability::EventType(event_type)
}

/// A code that falls in one of a table's ranges.
pub open spec fn covers_code(t: Seq<Capability>, event_type: u16, code: u16) -> bool {
    exists|i: int|
        0 <= i < t.len() && (match #[trigger] t[i] {
            Capability::Codes { event_type: ty, first, last } => ty == event_type && first <= code
                <= last,
            _ => false,
        })
}

/// The capability table of a device class.
pub fn capabilities(class: DeviceClass) -> (r: Vec<Capability>)
    ensures
        r@ == table_of(class),
{
    match class {
        DeviceClass::Keyboard => vec![
            Capability::EventType(EV_KEY),
            Capability::Codes { event_type: EV_KEY, first: KEY_RESERVED, last: KEY_MICMUTE },
        ],
        DeviceClass::Mouse => vec![
            Capability::EventType(EV_REL),
            Capability::EventType(EV_KEY),
            Capability::Codes { event_type: EV_KEY, first: BTN_LEFT, last: BTN_EXTRA },
            Capability::Codes { event_type: EV_REL, first: REL_X, last: REL_MAX },
        ],
        DeviceClass::Gamepad => vec![
            Capability::EventType(EV_KEY),
            Capability::EventType(EV_ABS),
            Capability::Codes { event_type: EV_KEY, first: BTN_0, last: BTN_9 },
            Capability::Codes { event_type: EV_KEY, first: BTN_TRIGGER, last: BTN_THUMBR },
            Capability::Codes { event_type: EV_KEY, first: BTN_DPAD_UP, last: BTN_DPAD_RIGHT },
        ],
    }
}

/// The mouse table enables exactly the relative-axis and key types, the
/// buttons left through extra and the relative axes X through the maximum:
/// no absolute axis and no gamepad button.
pub proof fn lemma_mouse_table_exact()
    ensures
        forall|ty: u16| enables_type(table_of(DeviceClass::Mouse), ty) <==> (ty == EV_REL || ty == EV_KEY),
        forall|ty: u16, c: u16|
            covers_code(table_of(DeviceClass::Mouse), ty, c) <==> ((ty == EV_KEY && BTN_LEFT <= c
                <= BTN_EXTRA) || (ty == EV_REL && REL_X <= c <= REL_MAX)),
{
    let t = table_of(DeviceClass::Mouse);
    assert(enables_type(t, EV_REL)) by {
        assert(t[0] == Capability::EventType(EV_REL));
    }
    assert(enables_type(t, EV_KEY)) by {
        assert(t[1] == Capability::EventType(EV_KEY));
    }
    assert forall|ty: u16, c: u16|
        ((ty == EV_KEY && BTN_LEFT <= c <= BTN_EXTRA) || (ty == EV_REL && REL_X <= c
            <= REL_MAX)) implies covers_code(t, ty, c) by {
        if ty == EV_KEY {
            assert(t[2] == Capability::Codes { event_type: EV_KEY, first: BTN_LEFT, last: BTN_EXTRA });
        } else {
            assert(t[3] == Capability::Codes { event_type: EV_REL, first: REL_X, last: REL_MAX });
        }
    }
}

} // verus!
