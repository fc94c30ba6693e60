use vstd::prelude::*;
use crate::error::IdentifyError;
use crate::event::{
    InputEvent, BTN_EXTRA, BTN_LEFT, BTN_MIDDLE, BTN_RIGHT, BTN_SIDE, EV_KEY, EV_REL, KEY_MICMUTE,
    KEY_RELEASED, KEY_RESERVED, REL_HWHEEL, REL_WHEEL, REL_X, REL_Y,
};

verus! {

/// One item of the merged stream: the end of every source, a read failure,
/// or an event tagged with the index of the device that produced it.
pub type MergedItem = Option<Result<(usize, InputEvent), std::io::Error>>;

/// What a classifier does after taking one item.
pub enum Verdict<T> {
    /// No decision yet: take the next item.
    Continue,
    /// The decision.
    Found(T),
    /// Stop with this error.
    Failed(IdentifyError),
}

/// A release of a key in the typical keyboard range.
pub open spec fn is_keyboard_release(e: InputEvent) -> bool {
    &&& e.event_type == EV_KEY
    &&& KEY_RESERVED <= e.code <= KEY_MICMUTE
    &&& e.value == KEY_RELEASED
}

/// A mouse button or one of the motion and wheel axes, whatever its value.
pub open spec fn is_mouse_evidence(e: InputEvent) -> bool {
    ||| e.event_type == EV_KEY && (e.code == BTN_LEFT || e.code == BTN_RIGHT
        || e.code == BTN_MIDDLE || e.code == BTN_EXTRA || e.code == BTN_SIDE)
    ||| e.event_type == EV_REL && (e.code == REL_X || e.code == REL_Y || e.code
        == REL_WHEEL || e.code == REL_HWHEEL)
}

/// A release of any key or button.
pub open spec fn is_key_release(e: InputEvent) -> bool {
    e.event_type == EV_KEY && e.value == KEY_RELEASED
}

pub fn keyboard_release(e: &InputEvent) -> (r: bool)
    ensures
        r == is_keyboard_release(*e),
{
    e.event_type == EV_KEY && KEY_RESERVED <= e.code && e.code <= KEY_MICMUTE && e.value
        == KEY_RELEASED
}

pub fn mouse_evidence(e: &InputEvent) -> (r: bool)
    ensures
        r == is_mouse_evidence(*e),
{
    (e.event_type == EV_KEY && (e.code == BTN_LEFT || e.code == BTN_RIGHT || e.code == BTN_MIDDLE
        || e.code == BTN_EXTRA || e.code == BTN_SIDE)) || (e.event_type == EV_REL && (e.code
        == REL_X || e.code == REL_Y || e.code == REL_WHEEL || e.code == REL_HWHEEL))
}

/// The verdict of the keyboard search on one item: the first release of a
/// typical keyboard key names its device.
pub open spec fn keyboard_verdict(item: MergedItem) -> Verdict<usize> {
    match item {
        None => Verdict::Failed(IdentifyError::EventStreamEnded),
        Some(Err(e)) => Verdict::Failed(IdentifyError::ReadEvent(e)),
        Some(Ok((tag, ev))) => if is_keyboard_release(ev) {
            Verdict::Found(tag)
        } else {
            Verdict::Continue
        },
    }
}

/// Takes one item of the merged stream in the search for the keyboard.
pub fn keyboard_step(item: MergedItem) -> (r: Verdict<usize>)
    ensures
        r == keyboard_verdict(item),
{
    match item {
        None => Verdict::Failed(IdentifyError::EventStreamEnded),
        Some(Err(e)) => Verdict::Failed(IdentifyError::ReadEvent(e)),
        Some(Ok((tag, ev))) => {
            if keyboard_release(&ev) {
                Verdict::Found(tag)
            } else {
                Verdict::Continue
            }
        },
    }
}

/// The search for both the keyboard and the mouse: each slot holds the
/// device that first gave evidence for it.
pub struct KeyboardMouseSearch {
    pub keyboard: Option<usize>,
    pub mouse: Option<usize>,
}

/// The slots after one tagged event. Mouse evidence fills an empty mouse
/// slot; otherwise any key release fills an empty keyboard slot; a filled
/// slot is never replaced.
pub open spec fn absorb(s: KeyboardMouseSearch, tag: usize, e: InputEvent) -> KeyboardMouseSearch {
    if is_mouse_evidence(e) {
        if s.mouse is None {
            KeyboardMouseSearch { keyboard: s.keyboard, mouse: Some(tag) }
        } else {
            s
        }
    } else if is_key_release(e) && s.keyboard is None {
        KeyboardMouseSearch { keyboard: Some(tag), mouse: s.mouse }
    } else {
        s
    }
}

/// The pair (keyboard, mouse) once both slots are filled.
pub open spec fn pair_of(s: KeyboardMouseSearch) -> Option<(usize, usize)> {
    match (s.keyboard, s.mouse) {
        (Some(k), Some(m)) => Some((k, m)),
        _ => None,
    }
}

/// The slots and the verdict after one item of the merged stream.
pub open spec fn mkb_step(s: KeyboardMouseSearch, item: MergedItem) -> (KeyboardMouseSearch, Verdict<
    (usize, usize),
>) {
    match item {
        None => (s, Verdict::Failed(IdentifyError::EventStreamEnded)),
        Some(Err(e)) => (s, Verdict::Failed(IdentifyError::ReadEvent(e))),
        Some(Ok((tag, ev))) => {
            let n = absorb(s, tag, ev);
            match pair_of(n) {
                Some(p) => (n, Verdict::Found(p)),
                None => (n, Verdict::Continue),
            }
        },
    }
}

/// The slots after a sequence of tagged events, taken in order.
pub open spec fn absorb_all(s: KeyboardMouseSearch, evs: Seq<(usize, InputEvent)>) -> KeyboardMouseSearch
    decreases evs.len(),
{
    if evs.len() == 0 {
        s
    } else {
        absorb_all(absorb(s, evs[0].0, evs[0].1), evs.drop_first())
    }
}

/// The device of the first mouse evidence in a sequence.
pub open spec fn first_mouse(evs: Seq<(usize, InputEvent)>) -> Option<usize>
    decreases evs.len(),
{
    if evs.len() == 0 {
        None
    } else if is_mouse_evidence(evs[0].1) {
        Some(evs[0].0)
    } else {
        first_mouse(evs.drop_first())
    }
}

/// The device of the first key release in a sequence that is not mouse evidence.
pub open spec fn first_keyboard(evs: Seq<(usize, InputEvent)>) -> Option<usize>
    decreases evs.len(),
{
    if evs.len() == 0 {
        None
    } else if !is_mouse_evidence(evs[0].1) && is_key_release(evs[0].1) {
        Some(evs[0].0)
    } else {
        first_keyboard(evs.drop_first())
    }
}

/// Tagged events as items of the merged stream.
pub open spec fn as_items(evs: Seq<(usize, InputEvent)>) -> Seq<MergedItem> {
    evs.map_values(|p: (usize, InputEvent)| Some(Ok(p)))
}

/// The verdict of the search that starts from `s` and takes `items` in
/// order, stopping at the first decision; `Continue` if none was reached.
pub open spec fn mkb_run(s: KeyboardMouseSearch, items: Seq<MergedItem>) -> Verdict<(usize, usize)>
    decreases items.len(),
{
    if items.len() == 0 {
        Verdict::Continue
    } else {
        let (n, v) = mkb_step(s, items[0]);
        if v is Continue {
            mkb_run(n, items.drop_first())
        } else {
            v
        }
    }
}

/// A filled slot is never replaced, and an empty slot ends up holding the
/// device that first gave evidence for it.
pub proof fn lemma_slots_keep_first_evidence(s: KeyboardMouseSearch, evs: Seq<(usize, InputEvent)>)
    ensures
        absorb_all(s, evs).mouse == (match s.mouse {
            Some(m) => Some(m),
            None => first_mouse(evs),
        }),
        absorb_all(s, evs).keyboard == (match s.keyboard {
            Some(k) => Some(k),
            None => first_keyboard(evs),
        }),
    decreases evs.len(),
{
    if evs.len() > 0 {
        lemma_slots_keep_first_evidence(absorb(s, evs[0].0, evs[0].1), evs.drop_first());
    }
}

/// If the merged stream ends before both slots are filled, the search fails
/// with the stream-ended error and never yields a partial result.
pub proof fn lemma_end_before_both_fails(s: KeyboardMouseSearch, evs: Seq<(usize, InputEvent)>)
    requires
        pair_of(absorb_all(s, evs)) is None,
    ensures
        mkb_run(s, as_items(evs).push(None)) == Verdict::<(usize, usize)>::Failed(
            IdentifyError::EventStreamEnded,
        ),
    decreases evs.len(),
{
    let items = as_items(evs).push(None);
    if evs.len() == 0 {
        assert(items[0] is None);
        assert(items.drop_first().len() == 0);
    } else {
        let n = absorb(s, evs[0].0, evs[0].1);
        lemma_slots_keep_first_evidence(n, evs.drop_first());
        assert(pair_of(n) is None);
        assert(items[0] == Some(Ok::<(usize, InputEvent), std::io::Error>(evs[0])));
        assert(items.drop_first() =~= as_items(evs.drop_first()).push(None));
        lemma_end_before_both_fails(n, evs.drop_first());
    }
}

/// When the stream holds evidence for both slots, the search returns the
/// device of the first key release that is not mouse evidence and the
/// device of the first mouse evidence, whatever follows.
pub proof fn lemma_found_pair_is_first_evidence(evs: Seq<(usize, InputEvent)>)
    requires
        first_keyboard(evs) is Some,
        first_mouse(evs) is Some,
    ensures
        mkb_run(KeyboardMouseSearch { keyboard: None, mouse: None }, as_items(evs)) == Verdict::<
            (usize, usize),
        >::Found((first_keyboard(evs).unwrap(), first_mouse(evs).unwrap())),
{
    let s = KeyboardMouseSearch { keyboard: None, mouse: None };
    lemma_slots_keep_first_evidence(s, evs);
    lemma_run_returns_filled_slots(s, evs);
}

proof fn lemma_run_returns_filled_slots(s: KeyboardMouseSearch, evs: Seq<(usize, InputEvent)>)
    requires
        pair_of(absorb_all(s, evs)) is Some,
        pair_of(s) is None,
    ensures
        mkb_run(s, as_items(evs)) == Verdict::<(usize, usize)>::Found(
            pair_of(absorb_all(s, evs)).unwrap(),
        ),
    decreases evs.len(),
{
    let items = as_items(evs);
    let n = absorb(s, evs[0].0, evs[0].1);
    assert(items[0] == Some(Ok::<(usize, InputEvent), std::io::Error>(evs[0])));
    assert(items.drop_first() =~= as_items(evs.drop_first()));
    lemma_slots_keep_first_evidence(n, evs.drop_first());
    if pair_of(n) is None {
        lemma_run_returns_filled_slots(n, evs.drop_first());
    }
}

/// The verdict of the keyboard search over `items`, stopping at the first
/// decision; `Continue` if none was reached.
pub open spec fn keyboard_run(items: Seq<MergedItem>) -> Verdict<usize>
    decreases items.len(),
{
    if items.len() == 0 {
        Verdict::Continue
    } else if keyboard_verdict(items[0]) is Continue {
        keyboard_run(items.drop_first())
    } else {
        keyboard_verdict(items[0])
    }
}

/// The device of the first release of a typical keyboard key in a sequence.
pub open spec fn first_keyboard_release(evs: Seq<(usize, InputEvent)>) -> Option<usize>
    decreases evs.len(),
{
    if evs.len() == 0 {
        None
    } else if is_keyboard_release(evs[0].1) {
        Some(evs[0].0)
    } else {
        first_keyboard_release(evs.drop_first())
    }
}

/// Over a stream of events that then ends, the keyboard search returns the
/// device of the first release of a typical keyboard key, and fails with
/// the stream-ended error where there is none.
pub proof fn lemma_keyboard_search_takes_first_release(evs: Seq<(usize, InputEvent)>)
    ensures
        keyboard_run(as_items(evs).push(None)) == (match first_keyboard_release(evs) {
            Some(t) => Verdict::Found(t),
            None => Verdict::<usize>::Failed(IdentifyError::EventStreamEnded),
        }),
    decreases evs.len(),
{
    let items = as_items(evs).push(None);
    if evs.len() == 0 {
        assert(items[0] is None);
    } else {
        assert(items[0] == Some(Ok::<(usize, InputEvent), std::io::Error>(evs[0])));
        assert(items.drop_first() =~= as_items(evs.drop_first()).push(None));
        lemma_keyboard_search_takes_first_release(evs.drop_first());
    }
}

impl KeyboardMouseSearch {
    /// Both slots empty.
    pub fn new() -> (r: KeyboardMouseSearch)
        ensures
            r.keyboard is None,
            r.mouse is None,
    {
        KeyboardMouseSearch { keyboard: None, mouse: None }
    }

    /// Takes one item of the merged stream.
    pub fn step(&mut self, item: MergedItem) -> (r: Verdict<(usize, usize)>)
        ensures
            (*final(self), r) == mkb_step(*old(self), item),
    {
        match item {
            None => Verdict::Failed(IdentifyError::EventStreamEnded),
            Some(Err(e)) => Verdict::Failed(IdentifyError::ReadEvent(e)),
            Some(Ok((tag, ev))) => {
                if mouse_evidence(&ev) {
                    if self.mouse.is_none() {
                        self.mouse = Some(tag);
                    }
                } else if ev.event_type == EV_KEY && ev.value == KEY_RELEASED
                    && self.keyboard.is_none() {
                    self.keyboard = Some(tag);
                }
                match (self.keyboard, self.mouse) {
                    (Some(k), Some(m)) => Verdict::Found((k, m)),
                    _ => Verdict::Continue,
                }
            },
        }
    }
}

} // verus!
