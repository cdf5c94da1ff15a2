//! Laws of the engine: what holds of every evaluation and of runs of them,
//! stated over the same models as the contracts of the functions.

use vstd::prelude::*;
use crate::buttons::RawButtonEvent;
use crate::config::DwellConfig;
use crate::dwell::{
    button_phase,
    no_actions,
    pointer_phase,
    pointer_phase_sampled,
    polls_buttons,
    polls_buttons_sampled,
    tick,
    tick_sampled,
    timer_after_pointer,
    with_active,
    Emission,
    SessionState,
    SessionView,
    TickActions,
};
use crate::inhibition::{
    inhibited,
    inhibition_cycle,
    pressed_buttons,
    released_buttons,
    InhibitionView,
};
use crate::motion::{
    distance_squared,
    leaves_anchor,
    lemma_anchor_is_still,
    lemma_distance_separates_points,
    MotionState,
};

verus! {

/// What the host observes in one tick: the pointer's position, and the raw
/// button notifications that are pending.
pub ghost struct TickInput {
    pub x: i32,
    pub y: i32,
    pub events: Seq<RawButtonEvent>,
}

/// One whole evaluation on `input`.
pub open spec fn tick_on(cfg: DwellConfig, s: SessionView, input: TickInput) -> (
    SessionView,
    TickActions,
) {
    tick(cfg, s, input.x, input.y, input.events)
}

/// The session after a run of ticks.
pub open spec fn run(cfg: DwellConfig, s: SessionView, inputs: Seq<TickInput>) -> SessionView
    decreases inputs.len(),
{
    if inputs.len() == 0 {
        s
    } else {
        tick_on(cfg, run(cfg, s, inputs.drop_last()), inputs.last()).0
    }
}

/// Whether the point `(x, y)` lies within the configured slack of the point
/// `(ax, ay)`: closer than the slack, the border excluded.
pub open spec fn within_slack(cfg: DwellConfig, ax: i32, ay: i32, x: i32, y: i32) -> bool {
    distance_squared(ax as int, ay as int, x as int, y as int) < cfg.min_movement_pixels
        * cfg.min_movement_pixels
}

/// A run of `k + 1` ticks is a run of `k` ticks followed by one more.
proof fn lemma_run_unfolds(cfg: DwellConfig, s: SessionView, inputs: Seq<TickInput>, k: int)
    requires
        0 <= k < inputs.len(),
    ensures
        run(cfg, s, inputs.take(k + 1)) == tick_on(cfg, run(cfg, s, inputs.take(k)), inputs[k]).0,
{
    assert(inputs.take(k + 1).drop_last() =~= inputs.take(k));
    assert(inputs.take(k + 1).last() == inputs[k]);
}

/// A tick whose sample lies within the slack of the anchor of a resting
/// pointer leaves the pointer at rest and the anchor in place, and the idle
/// timer ends above its old value or at least at the saturation value. The
/// one exception is the tick on which a drag begins: its press restarts the
/// timer at zero to time the hold.
pub proof fn lemma_still_tick_advances_timer(
    cfg: DwellConfig,
    s: SessionView,
    x: i32,
    y: i32,
    events: Seq<RawButtonEvent>,
)
    requires
        cfg.valid(),
        s.state.active,
        !s.motion.moving,
        within_slack(cfg, s.motion.x, s.motion.y, x, y),
    ensures
        ({
            let (after, actions) = tick(cfg, s, x, y, events);
            &&& after.motion == s.motion
            &&& after.state.active
            &&& actions.emission != Emission::Press ==> after.state.idle_timer > s.state.idle_timer
                || after.state.idle_timer >= cfg.cap()
            &&& actions.emission == Emission::Press ==> after.state.idle_timer == 0
        }),
{
}

/// After `k` ticks within the slack the session is active and the detector
/// is where it started.
proof fn lemma_rest_persists(cfg: DwellConfig, s: SessionView, inputs: Seq<TickInput>, k: int)
    requires
        cfg.valid(),
        s.state.active,
        !s.motion.moving,
        forall|i: int|
            0 <= i < inputs.len() ==> within_slack(
                cfg,
                s.motion.x,
                s.motion.y,
                (#[trigger] inputs[i]).x,
                inputs[i].y,
            ),
        0 <= k <= inputs.len(),
    ensures
        run(cfg, s, inputs.take(k)).motion == s.motion,
        run(cfg, s, inputs.take(k)).state.active,
    decreases k,
{
    if k == 0 {
        assert(inputs.take(0).len() == 0);
    } else {
        lemma_rest_persists(cfg, s, inputs, k - 1);
        lemma_run_unfolds(cfg, s, inputs, k - 1);
        let input = inputs[k - 1];
        lemma_still_tick_advances_timer(
            cfg,
            run(cfg, s, inputs.take(k - 1)),
            input.x,
            input.y,
            input.events,
        );
    }
}

/// Over any run of ticks whose samples all lie within the slack of the
/// anchor of a resting pointer, the pointer stays at rest with its anchor in
/// place, and on every tick but those that begin a drag the idle timer ends
/// above its old value or at least at the saturation value.
pub proof fn lemma_stillness_keeps_timer_climbing(
    cfg: DwellConfig,
    s: SessionView,
    inputs: Seq<TickInput>,
)
    requires
        cfg.valid(),
        s.state.active,
        !s.motion.moving,
        forall|i: int|
            0 <= i < inputs.len() ==> within_slack(
                cfg,
                s.motion.x,
                s.motion.y,
                (#[trigger] inputs[i]).x,
                inputs[i].y,
            ),
    ensures
        forall|k: int|
            0 <= k <= inputs.len() ==> (#[trigger] run(cfg, s, inputs.take(k))).motion == s.motion,
        forall|k: int|
            #![trigger inputs[k]]
            0 <= k < inputs.len() ==> ({
                let before = run(cfg, s, inputs.take(k));
                let (after, actions) = tick_on(cfg, before, inputs[k]);
                &&& after == run(cfg, s, inputs.take(k + 1))
                &&& actions.emission != Emission::Press ==> after.state.idle_timer
                    > before.state.idle_timer || after.state.idle_timer >= cfg.cap()
            }),
{
    assert forall|k: int| 0 <= k <= inputs.len() implies (#[trigger] run(
        cfg,
        s,
        inputs.take(k),
    )).motion == s.motion by {
        lemma_rest_persists(cfg, s, inputs, k);
    }
    assert forall|k: int|
        #![trigger inputs[k]]
        0 <= k < inputs.len() implies ({
        let before = run(cfg, s, inputs.take(k));
        let (after, actions) = tick_on(cfg, before, inputs[k]);
        &&& after == run(cfg, s, inputs.take(k + 1))
        &&& actions.emission != Emission::Press ==> after.state.idle_timer
            > before.state.idle_timer || after.state.idle_timer >= cfg.cap()
    }) by {
        lemma_rest_persists(cfg, s, inputs, k);
        lemma_run_unfolds(cfg, s, inputs, k);
        let input = inputs[k];
        lemma_still_tick_advances_timer(
            cfg,
            run(cfg, s, inputs.take(k)),
            input.x,
            input.y,
            input.events,
        );
    }
}

/// A sample that lies at least the slack away from the anchor of a resting
/// pointer makes the tick a moving one: the sample becomes the anchor, the
/// idle timer restarts at zero, nothing is injected and no notification is
/// consumed. On the tick that follows, one pixel is the limit: the pointer
/// counts as moving exactly if it is at least one pixel from that sample,
/// that is, anywhere else.
pub proof fn lemma_displacement_restarts_timer(
    cfg: DwellConfig,
    s: SessionView,
    x: i32,
    y: i32,
    events: Seq<RawButtonEvent>,
    next_x: i32,
    next_y: i32,
    next_events: Seq<RawButtonEvent>,
)
    requires
        cfg.valid(),
        s.state.active,
        !s.motion.moving,
        !within_slack(cfg, s.motion.x, s.motion.y, x, y),
    ensures
        ({
            let (after, actions) = tick(cfg, s, x, y, events);
            let (later, _) = tick(cfg, after, next_x, next_y, next_events);
            &&& after.motion == (MotionState { x, y, moving: true })
            &&& after.state.idle_timer == 0
            &&& after.state.dragging == s.state.dragging
            &&& after.inhibition == s.inhibition
            &&& actions == no_actions()
            &&& later.motion.moving == (distance_squared(
                x as int,
                y as int,
                next_x as int,
                next_y as int,
            ) >= 1)
            &&& later.motion.moving == (next_x != x || next_y != y)
        }),
{
    lemma_distance_separates_points(x as int, y as int, next_x as int, next_y as int);
}

/// A tick whose pointer query failed counts as a resting one: nothing of the
/// detector changes but its verdict, which is "at rest"; the evaluation goes
/// on to the pending notifications; and the idle timer is not reset. Unless
/// the detector was at rest with a slack of zero, the tick is the same as
/// one whose sample lies on the anchor.
pub proof fn lemma_failed_query_counts_as_rest(
    cfg: DwellConfig,
    s: SessionView,
    events: Seq<RawButtonEvent>,
)
    requires
        cfg.valid(),
        s.state.active,
    ensures
        ({
            let sampled = pointer_phase_sampled(cfg, s, None);
            let (after, actions) = tick_sampled(cfg, s, None, events);
            &&& polls_buttons_sampled(cfg, s, None)
            &&& after.motion == (MotionState { x: s.motion.x, y: s.motion.y, moving: false })
            &&& (after, actions) == button_phase(cfg, sampled, events)
            &&& sampled.state.idle_timer == timer_after_pointer(cfg, s.state, false)
            &&& s.motion.moving || cfg.min_movement_pixels >= 1 ==> (after, actions) == tick(
                cfg,
                s,
                s.motion.x,
                s.motion.y,
                events,
            )
        }),
{
    if s.motion.moving || cfg.min_movement_pixels >= 1 {
        lemma_anchor_is_still(cfg, s.motion);
    }
}

/// A press among the notifications of an evaluation makes that evaluation
/// report a held button, whatever else arrives with it, a release of the
/// same button included.
pub proof fn lemma_press_inhibits_its_cycle(
    s: InhibitionView,
    events: Seq<RawButtonEvent>,
    i: int,
)
    requires
        0 <= i < events.len(),
        events[i].pressed,
    ensures
        inhibited(inhibition_cycle(s, events)),
{
    assert(pressed_buttons(events).contains(events[i].button));
    assert(inhibition_cycle(s, events).inhibit.contains(events[i].button));
}

/// A press and a later release of one button inside one evaluation: that
/// evaluation reports a held button. If every button that counts as held by
/// then was released within it, the next evaluation, with no notification at
/// all, reports none.
pub proof fn lemma_brief_click_inhibits_one_cycle(
    s: InhibitionView,
    events: Seq<RawButtonEvent>,
    i: int,
    j: int,
)
    requires
        0 <= i < j < events.len(),
        events[i].pressed,
        !events[j].pressed,
        events[i].button == events[j].button,
        inhibition_cycle(s, events).inhibit.subset_of(released_buttons(events)),
    ensures
        ({
            let during = inhibition_cycle(s, events);
            let after = inhibition_cycle(during, Seq::empty());
            &&& inhibited(during)
            &&& !inhibited(after)
            &&& after.uninhibit.is_empty()
        }),
{
    lemma_press_inhibits_its_cycle(s, events, i);
    let none = Seq::<RawButtonEvent>::empty();
    assert(pressed_buttons(none) =~= Set::<i32>::empty());
    assert(released_buttons(none) =~= Set::<i32>::empty());
    let after = inhibition_cycle(inhibition_cycle(s, events), none);
    assert(after.inhibit =~= Set::<i32>::empty());
}

/// On a resting tick a held physical button suppresses every synthetic
/// click and saturates the idle timer, unless a drag of the engine's own is
/// under way.
pub proof fn lemma_held_button_suppresses_click(
    cfg: DwellConfig,
    s: SessionView,
    x: i32,
    y: i32,
    events: Seq<RawButtonEvent>,
)
    requires
        cfg.valid(),
        polls_buttons(cfg, s, x, y),
        inhibited(inhibition_cycle(s.inhibition, events)),
        !(cfg.drag_enabled && s.state.dragging),
    ensures
        ({
            let (after, actions) = tick(cfg, s, x, y, events);
            &&& actions == no_actions()
            &&& after.state.idle_timer == cfg.cap()
            &&& after.state.dragging == s.state.dragging
        }),
{
}

/// The first evaluation of a freshly active session injects nothing and
/// clears the mark. Before the pointer is sampled the idle timer is put
/// above both waits, so after the first step it is zero if the pointer moved
/// and above both waits if it did not; after the whole evaluation it is zero
/// or the saturation value.
pub proof fn lemma_fresh_session_defers_click(
    cfg: DwellConfig,
    s: SessionView,
    x: i32,
    y: i32,
    events: Seq<RawButtonEvent>,
)
    requires
        cfg.valid(),
        s.state.active,
        s.state.just_became_active,
    ensures
        ({
            let sampled = pointer_phase(cfg, s, x, y);
            let (after, actions) = tick(cfg, s, x, y, events);
            let moved = leaves_anchor(cfg, s.motion, x as int, y as int);
            &&& actions == no_actions()
            &&& !after.state.just_became_active
            &&& after.state.dragging == s.state.dragging
            &&& moved ==> sampled.state.idle_timer == 0 && after.state.idle_timer == 0
            &&& !moved ==> sampled.state.idle_timer > cfg.dwell_ticks
            &&& !moved ==> sampled.state.idle_timer > cfg.drag_ticks
            &&& !moved ==> after.state.idle_timer == cfg.cap()
        }),
{
}

/// Switching an inactive session on guarantees that its next evaluation
/// injects nothing, wherever the idle timer stood: the session is freshly
/// active, and the first evaluation after that puts the timer above both
/// waits before anything else. While the session is off, an evaluation
/// changes nothing.
pub proof fn lemma_activation_defers_click(
    cfg: DwellConfig,
    s: SessionView,
    x: i32,
    y: i32,
    events: Seq<RawButtonEvent>,
)
    requires
        cfg.valid(),
        !s.state.active,
    ensures
        tick(cfg, s, x, y, events) == (s, no_actions()),
        ({
            let switched = with_active(s, true);
            let sampled = pointer_phase(cfg, switched, x, y);
            let (after, actions) = tick(cfg, switched, x, y, events);
            let moved = leaves_anchor(cfg, s.motion, x as int, y as int);
            &&& switched.state.active
            &&& switched.state.just_became_active
            &&& actions == no_actions()
            &&& !after.state.just_became_active
            &&& moved ==> after.state.idle_timer == 0
            &&& !moved ==> sampled.state.idle_timer > cfg.dwell_ticks
            &&& !moved ==> sampled.state.idle_timer > cfg.drag_ticks
            &&& !moved ==> after.state.idle_timer == cfg.cap()
        }),
{
    lemma_fresh_session_defers_click(cfg, with_active(s, true), x, y, events);
}

/// The idle timer saturates: after an evaluation of an active session it
/// never stands above the saturation value, wherever it stood before.
pub proof fn lemma_timer_stays_within_cap(
    cfg: DwellConfig,
    s: SessionView,
    x: i32,
    y: i32,
    events: Seq<RawButtonEvent>,
)
    requires
        cfg.valid(),
        s.state.active,
    ensures
        tick(cfg, s, x, y, events).0.state.idle_timer <= cfg.cap(),
{
}

/// Once the idle timer is saturated and no drag is under way, no tick
/// injects anything, and the timer stays saturated until the pointer moves.
pub proof fn lemma_saturated_timer_stays_silent(
    cfg: DwellConfig,
    s: SessionView,
    x: i32,
    y: i32,
    events: Seq<RawButtonEvent>,
)
    requires
        cfg.valid(),
        !s.state.dragging,
        s.state.idle_timer >= cfg.cap(),
    ensures
        ({
            let (after, actions) = tick(cfg, s, x, y, events);
            &&& actions == no_actions()
            &&& !after.state.dragging
            &&& polls_buttons(cfg, s, x, y) ==> after.state.idle_timer >= cfg.cap()
        }),
{
}

/// While a drag is under way no tick injects a press: the only thing that
/// can be injected is the release that ends the drag. With dragging enabled
/// the notifications of such a tick change neither what is injected nor the
/// state machine's own record, so the engine's own press cannot cancel the
/// drag it began.
pub proof fn lemma_drag_emits_no_second_press(
    cfg: DwellConfig,
    s: SessionView,
    x: i32,
    y: i32,
    events: Seq<RawButtonEvent>,
)
    requires
        cfg.valid(),
        s.state.dragging,
    ensures
        ({
            let (after, actions) = tick(cfg, s, x, y, events);
            let (quiet_after, quiet_actions) = tick(cfg, s, x, y, Seq::empty());
            &&& actions.emission == Emission::Nothing || actions.emission == Emission::Release
            &&& !actions.sound
            &&& cfg.drag_enabled ==> actions == quiet_actions && after.state == quiet_after.state
        }),
{
}

/// The triggers are exact. A press or a click is injected only on a resting
/// tick of an active session that is not dragging and whose idle timer
/// stood one below the dwell wait; a lone release only on a resting tick of
/// a dragging session whose idle timer stood one below the drag wait. A
/// freshly active session injects neither. The sound is due only together
/// with a press or a click, and only if it is enabled.
pub proof fn lemma_triggers_are_exact(
    cfg: DwellConfig,
    s: SessionView,
    x: i32,
    y: i32,
    events: Seq<RawButtonEvent>,
)
    requires
        cfg.valid(),
    ensures
        ({
            let actions = tick(cfg, s, x, y, events).1;
            let presses = actions.emission == Emission::Press || actions.emission
                == Emission::Click;
            &&& presses ==> polls_buttons(cfg, s, x, y) && !s.state.dragging
                && !s.state.just_became_active && s.state.idle_timer + 1 == cfg.dwell_ticks
            &&& actions.emission == Emission::Release ==> polls_buttons(cfg, s, x, y)
                && s.state.dragging && !s.state.just_became_active && s.state.idle_timer + 1
                == cfg.drag_ticks
            &&& actions.sound ==> cfg.sound_enabled && presses
        }),
{
}

/// Whether the sample of `input` counts as resting at the point `(ax, ay)`
/// whichever radius applies: it is that point itself, and the slack is not
/// zero.
pub open spec fn rests_at(cfg: DwellConfig, ax: i32, ay: i32, input: TickInput) -> bool {
    input.x == ax && input.y == ay && cfg.min_movement_pixels >= 1
}

/// Whether `input` carries no press.
pub open spec fn brings_no_press(input: TickInput) -> bool {
    forall|i: int| 0 <= i < input.events.len() ==> !(#[trigger] input.events[i]).pressed
}

/// Whether a dwell presses and holds: dragging is enabled and the hold lasts
/// at least one tick.
pub open spec fn holds_after_dwell(cfg: DwellConfig) -> bool {
    cfg.drag_enabled && cfg.drag_ticks > 0
}

/// What the `k`-th resting tick after a movement injects, counted from one,
/// when no physical button interferes: on the tick that completes the dwell
/// wait a click, or a press if the dwell holds; that press is released when
/// the drag wait has passed as well; every other tick injects nothing.
pub open spec fn dwell_run_actions(cfg: DwellConfig, k: int) -> TickActions {
    if k == cfg.dwell_ticks {
        TickActions {
            emission: if holds_after_dwell(cfg) {
                Emission::Press
            } else {
                Emission::Click
            },
            sound: cfg.sound_enabled,
        }
    } else if holds_after_dwell(cfg) && k == cfg.dwell_ticks + cfg.drag_ticks {
        TickActions { emission: Emission::Release, sound: false }
    } else {
        no_actions()
    }
}

/// The state machine's record after `k` resting ticks that followed a
/// movement, when no physical button interferes.
pub open spec fn dwell_run_state(cfg: DwellConfig, k: int) -> SessionState {
    if k < cfg.dwell_ticks {
        SessionState {
            active: true,
            just_became_active: false,
            dragging: false,
            idle_timer: k as u32,
        }
    } else if holds_after_dwell(cfg) && k < cfg.dwell_ticks + cfg.drag_ticks {
        SessionState {
            active: true,
            just_became_active: false,
            dragging: true,
            idle_timer: (k - cfg.dwell_ticks) as u32,
        }
    } else {
        SessionState {
            active: true,
            just_became_active: false,
            dragging: false,
            idle_timer: cfg.cap() as u32,
        }
    }
}

/// The setting of a dwell run: a valid configuration with a dwell wait of at
/// least one tick and a slack of at least one pixel; an active session that
/// has just seen movement, with no drag under way and no physical button
/// held; samples that all lie on the anchor; and no press among the
/// notifications until the dwell wait has passed.
pub open spec fn dwell_run_setting(
    cfg: DwellConfig,
    s: SessionView,
    inputs: Seq<TickInput>,
) -> bool {
    &&& cfg.valid()
    &&& cfg.dwell_ticks >= 1
    &&& s.state == (SessionState {
        active: true,
        just_became_active: false,
        dragging: false,
        idle_timer: 0,
    })
    &&& s.inhibition.inhibit.subset_of(s.inhibition.uninhibit)
    &&& forall|i: int|
        0 <= i < inputs.len() ==> rests_at(cfg, s.motion.x, s.motion.y, #[trigger] inputs[i])
    &&& forall|i: int|
        0 <= i < inputs.len() && i < cfg.dwell_ticks ==> brings_no_press(#[trigger] inputs[i])
}

/// After `k` ticks of a dwell run the record is the predicted one, the
/// anchor is where it was, and as long as the dwell wait has not passed no
/// button is left that the next evaluation would count as held. The last of
/// those ticks injected what was predicted for it.
proof fn lemma_dwell_run_state(cfg: DwellConfig, s: SessionView, inputs: Seq<TickInput>, k: int)
    requires
        dwell_run_setting(cfg, s, inputs),
        0 <= k <= inputs.len(),
    ensures
        ({
            let now = run(cfg, s, inputs.take(k));
            &&& now.state == dwell_run_state(cfg, k)
            &&& now.motion.x == s.motion.x
            &&& now.motion.y == s.motion.y
            &&& k < cfg.dwell_ticks ==> now.inhibition.inhibit.subset_of(now.inhibition.uninhibit)
        }),
        k > 0 ==> tick_on(cfg, run(cfg, s, inputs.take(k - 1)), inputs[k - 1]).1
            == dwell_run_actions(cfg, k),
    decreases k,
{
    if k == 0 {
        assert(inputs.take(0).len() == 0);
    } else {
        lemma_dwell_run_state(cfg, s, inputs, k - 1);
        lemma_run_unfolds(cfg, s, inputs, k - 1);
        let before = run(cfg, s, inputs.take(k - 1));
        let input = inputs[k - 1];
        assert(rests_at(cfg, s.motion.x, s.motion.y, input));
        lemma_anchor_is_still(cfg, before.motion);
        assert(polls_buttons(cfg, before, input.x, input.y));
        if k - 1 < cfg.dwell_ticks {
            assert(brings_no_press(input));
            assert(pressed_buttons(input.events) =~= Set::<i32>::empty());
            let during = inhibition_cycle(before.inhibition, input.events);
            assert(during.inhibit =~= Set::<i32>::empty());
            assert(!inhibited(during));
        }
    }
}

/// The dwell run. From a session that has just seen movement, over any run
/// of resting ticks in which no physical button is pressed before the dwell
/// wait has passed, the tick that completes the dwell wait injects one click,
/// or one press if the dwell holds, and that press is released exactly when
/// the drag wait has passed as well, whatever the notifications in between
/// say. No other tick of the run injects anything, however long it lasts.
pub proof fn lemma_dwell_run_fires_once(
    cfg: DwellConfig,
    s: SessionView,
    inputs: Seq<TickInput>,
)
    requires
        dwell_run_setting(cfg, s, inputs),
    ensures
        forall|k: int|
            0 <= k < inputs.len() ==> (#[trigger] tick_on(
                cfg,
                run(cfg, s, inputs.take(k)),
                inputs[k],
            )).1 == dwell_run_actions(cfg, k + 1),
        forall|k: int|
            0 <= k <= inputs.len() ==> (#[trigger] run(cfg, s, inputs.take(k))).state
                == dwell_run_state(cfg, k),
{
    assert forall|k: int| 0 <= k < inputs.len() implies (#[trigger] tick_on(
        cfg,
        run(cfg, s, inputs.take(k)),
        inputs[k],
    )).1 == dwell_run_actions(cfg, k + 1) by {
        lemma_dwell_run_state(cfg, s, inputs, k + 1);
    }
    assert forall|k: int| 0 <= k <= inputs.len() implies (#[trigger] run(
        cfg,
        s,
        inputs.take(k),
    )).state == dwell_run_state(cfg, k) by {
        lemma_dwell_run_state(cfg, s, inputs, k);
    }
}

} // verus!
