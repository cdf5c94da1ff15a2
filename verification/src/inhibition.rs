//! The inhibition tracker: it consumes the raw press and release
//! notifications of one evaluation and answers whether a physical button is
//! to be treated as held.

use vstd::prelude::*;
use crate::buttons::{ButtonSet, RawButtonEvent};

verus! {

/// The tracker's memory.
#[derive(Debug)]
pub struct InhibitionState {
    /// Buttons that count as held.
    pub inhibit_mask: ButtonSet,
    /// Buttons released during the latest evaluation. They leave
    /// `inhibit_mask` at the start of the next one.
    pub uninhibit_mask: ButtonSet,
}

/// The tracker's memory as two mathematical sets.
pub ghost struct InhibitionView {
    pub inhibit: Set<i32>,
    pub uninhibit: Set<i32>,
}

impl View for InhibitionState {
    type V = InhibitionView;

    open spec fn view(&self) -> InhibitionView {
        InhibitionView { inhibit: self.inhibit_mask@, uninhibit: self.uninhibit_mask@ }
    }
}

/// The buttons for which `events` holds a press.
pub open spec fn pressed_buttons(events: Seq<RawButtonEvent>) -> Set<i32> {
    Set::new(
        |c: i32|
            exists|i: int|
                0 <= i < events.len() && (#[trigger] events[i]).pressed && events[i].button == c,
    )
}

/// The buttons for which `events` holds a release.
pub open spec fn released_buttons(events: Seq<RawButtonEvent>) -> Set<i32> {
    Set::new(
        |c: i32|
            exists|i: int|
                0 <= i < events.len() && !(#[trigger] events[i]).pressed && events[i].button == c,
    )
}

/// One evaluation of the tracker. The releases of the previous evaluation
/// take effect first; then every press of this one is added. The releases of
/// this one are only remembered.
pub open spec fn inhibition_cycle(
    s: InhibitionView,
    events: Seq<RawButtonEvent>,
) -> InhibitionView {
    InhibitionView {
        inhibit: s.inhibit.difference(s.uninhibit).union(pressed_buttons(events)),
        uninhibit: released_buttons(events),
    }
}

/// Whether a physical button counts as held.
pub open spec fn inhibited(s: InhibitionView) -> bool {
    !s.inhibit.is_empty()
}

/// Whether `events` holds, at some position, the notification `(c, pressed)`.
spec fn holds_event(events: Seq<RawButtonEvent>, c: i32, pressed: bool) -> bool {
    exists|i: int|
        0 <= i < events.len() && (#[trigger] events[i]).pressed == pressed && events[i].button
            == c
}

/// Extending a run of events by one adds that event's button to the pressed
/// set if it is a press and to the released set if it is a release, and
/// leaves the other set as it was.
proof fn lemma_event_sets_grow(events: Seq<RawButtonEvent>, i: int)
    requires
        0 <= i < events.len(),
    ensures
        pressed_buttons(events.take(i + 1)) == (if events[i].pressed {
            pressed_buttons(events.take(i)).insert(events[i].button)
        } else {
            pressed_buttons(events.take(i))
        }),
        released_buttons(events.take(i + 1)) == (if events[i].pressed {
            released_buttons(events.take(i))
        } else {
            released_buttons(events.take(i)).insert(events[i].button)
        }),
{
    let short = events.take(i);
    let long = events.take(i + 1);
    let last = events[i];
    assert(long[i] == last);
    assert forall|c: i32, pressed: bool|
        holds_event(long, c, pressed) <==> holds_event(short, c, pressed) || (last.pressed
            == pressed && last.button == c) by {
        if holds_event(short, c, pressed) {
            let k = choose|k: int|
                0 <= k < short.len() && (#[trigger] short[k]).pressed == pressed
                    && short[k].button == c;
            assert(long[k] == short[k]);
        }
        if holds_event(long, c, pressed) {
            let k = choose|k: int|
                0 <= k < long.len() && (#[trigger] long[k]).pressed == pressed && long[k].button
                    == c;
            if k < i {
                assert(short[k] == long[k]);
            }
        }
    }
    assert forall|c: i32| pressed_buttons(long).contains(c) <==> holds_event(long, c, true) by {}
    assert forall|c: i32| pressed_buttons(short).contains(c) <==> holds_event(short, c, true) by {}
    assert forall|c: i32| released_buttons(long).contains(c) <==> holds_event(long, c, false) by {}
    assert forall|c: i32|
        released_buttons(short).contains(c) <==> holds_event(short, c, false) by {}
    if last.pressed {
        assert(pressed_buttons(long) =~= pressed_buttons(short).insert(last.button));
        assert(released_buttons(long) =~= released_buttons(short));
    } else {
        assert(released_buttons(long) =~= released_buttons(short).insert(last.button));
        assert(pressed_buttons(long) =~= pressed_buttons(short));
    }
}

impl InhibitionState {
    /// A tracker that has seen nothing.
    pub fn new() -> (st: InhibitionState)
        ensures
            st@.inhibit == Set::<i32>::empty(),
            st@.uninhibit == Set::<i32>::empty(),
    {
        InhibitionState { inhibit_mask: ButtonSet::new(), uninhibit_mask: ButtonSet::new() }
    }
}

/// Runs one evaluation of the tracker on the notifications that arrived since
/// the previous one, in their order of arrival, and tells whether a physical
/// button counts as held.
pub fn is_click_inhibited(st: &mut InhibitionState, events: &Vec<RawButtonEvent>) -> (held: bool)
    ensures
        final(st)@ == inhibition_cycle(old(st)@, events@),
        held == inhibited(final(st)@),
{
    st.inhibit_mask.remove_all(&st.uninhibit_mask);
    st.uninhibit_mask.clear();
    let ghost base = old(st)@.inhibit.difference(old(st)@.uninhibit);
    proof {
        assert(pressed_buttons(events@.take(0)) =~= Set::<i32>::empty());
        assert(released_buttons(events@.take(0)) =~= Set::<i32>::empty());
        assert(st.inhibit_mask@ =~= base.union(pressed_buttons(events@.take(0))));
    }
    let mut i: usize = 0;
    while i < events.len()
        invariant
            i <= events.len(),
            st.inhibit_mask@ == base.union(pressed_buttons(events@.take(i as int))),
            st.uninhibit_mask@ == released_buttons(events@.take(i as int)),
        decreases events.len() - i,
    {
        let event = events[i];
        proof {
            lemma_event_sets_grow(events@, i as int);
        }
        if event.pressed {
            st.inhibit_mask.insert(event.button);
            assert(st.inhibit_mask@ =~= base.union(pressed_buttons(events@.take(i + 1))));
        } else {
            st.uninhibit_mask.insert(event.button);
        }
        i += 1;
    }
    proof {
        assert(events@.take(i as int) =~= events@);
    }
    !st.inhibit_mask.is_empty()
}

} // verus!
