use rtmouse::buttons::RawButtonEvent;
use rtmouse::config::DwellConfig;
use rtmouse::dwell::{
    get_primary_button_code, main_loop, main_loop_buttons, main_loop_sampled, play_click_sound,
    DwellSession, Emission, SessionState, TickActions,
};
use rtmouse::motion::MotionState;

fn config(dwell_ticks: u32, drag_ticks: u32, drag_enabled: bool) -> DwellConfig {
    DwellConfig::new(10, dwell_ticks, drag_ticks, drag_enabled, true).unwrap()
}

fn quiet() -> TickActions {
    TickActions { emission: Emission::Nothing, sound: false }
}

fn press(button: i32) -> RawButtonEvent {
    RawButtonEvent { button, pressed: true }
}

fn release(button: i32) -> RawButtonEvent {
    RawButtonEvent { button, pressed: false }
}

/// One whole evaluation as a host runs it: the notifications are handed
/// over only when the first step asks for them.
fn evaluate(
    st: &mut DwellSession,
    cfg: &DwellConfig,
    x: i32,
    y: i32,
    pending: &mut Vec<RawButtonEvent>,
) -> TickActions {
    if main_loop(st, cfg, x, y) {
        let events: Vec<RawButtonEvent> = pending.drain(..).collect();
        main_loop_buttons(st, cfg, &events)
    } else {
        quiet()
    }
}

/// A session whose pointer has just moved to `(100, 100)`.
fn moved_baseline(cfg: &DwellConfig) -> DwellSession {
    let mut st = DwellSession::new();
    let mut pending = Vec::new();
    assert_eq!(evaluate(&mut st, cfg, 100, 100, &mut pending), quiet());
    assert_eq!(st.state.idle_timer, 0);
    assert!(!st.state.just_became_active);
    st
}

#[test]
fn new_session_has_startup_values() {
    let st = DwellSession::new();
    assert_eq!(
        st.state,
        SessionState { active: true, just_became_active: true, dragging: false, idle_timer: 0 }
    );
    assert_eq!(st.motion, MotionState { x: 0, y: 0, moving: false });
    assert!(st.inhibition.inhibit_mask.is_empty());
    assert!(st.inhibition.uninhibit_mask.is_empty());
}

#[test]
fn click_fires_once_after_dwell_without_drag() {
    let cfg = config(5, 3, false);
    let mut st = moved_baseline(&cfg);
    let mut pending = Vec::new();
    for expected_timer in 1..=4u32 {
        assert_eq!(evaluate(&mut st, &cfg, 100, 100, &mut pending), quiet());
        assert_eq!(st.state.idle_timer, expected_timer);
    }
    assert_eq!(
        evaluate(&mut st, &cfg, 100, 100, &mut pending),
        TickActions { emission: Emission::Click, sound: true }
    );
    assert_eq!(st.state.idle_timer, 6);
    assert!(!st.state.dragging);
    for _ in 0..20 {
        assert_eq!(evaluate(&mut st, &cfg, 100, 100, &mut pending), quiet());
        assert_eq!(st.state.idle_timer, 6);
    }
    // Movement re-arms the trigger.
    assert_eq!(evaluate(&mut st, &cfg, 200, 100, &mut pending), quiet());
    assert_eq!(st.state.idle_timer, 0);
    for _ in 0..4 {
        assert_eq!(evaluate(&mut st, &cfg, 200, 100, &mut pending), quiet());
    }
    assert_eq!(evaluate(&mut st, &cfg, 200, 100, &mut pending).emission, Emission::Click);
}

#[test]
fn drag_presses_at_dwell_and_releases_after_hold() {
    let cfg = config(5, 3, true);
    let mut st = moved_baseline(&cfg);
    let mut pending = Vec::new();
    for _ in 0..4 {
        assert_eq!(evaluate(&mut st, &cfg, 100, 100, &mut pending), quiet());
    }
    assert_eq!(
        evaluate(&mut st, &cfg, 100, 100, &mut pending),
        TickActions { emission: Emission::Press, sound: true }
    );
    assert!(st.state.dragging);
    assert_eq!(st.state.idle_timer, 0);
    // The backend reports the engine's own press as a raw press.
    pending.push(press(1));
    assert_eq!(evaluate(&mut st, &cfg, 100, 100, &mut pending), quiet());
    assert_eq!(st.state.idle_timer, 1);
    assert!(st.inhibition.inhibit_mask.contains(1));
    assert_eq!(evaluate(&mut st, &cfg, 100, 100, &mut pending), quiet());
    assert_eq!(st.state.idle_timer, 2);
    assert_eq!(
        evaluate(&mut st, &cfg, 100, 100, &mut pending),
        TickActions { emission: Emission::Release, sound: false }
    );
    assert!(!st.state.dragging);
    assert_eq!(st.state.idle_timer, 6);
    // The engine's own release arrives; nothing more fires.
    pending.push(release(1));
    for _ in 0..10 {
        assert_eq!(evaluate(&mut st, &cfg, 100, 100, &mut pending), quiet());
    }
    assert!(st.inhibition.inhibit_mask.is_empty());
}

#[test]
fn drag_with_zero_hold_clicks_in_one_tick() {
    let cfg = config(2, 0, true);
    let mut st = moved_baseline(&cfg);
    let mut pending = Vec::new();
    assert_eq!(evaluate(&mut st, &cfg, 100, 100, &mut pending), quiet());
    assert_eq!(
        evaluate(&mut st, &cfg, 100, 100, &mut pending),
        TickActions { emission: Emission::Click, sound: true }
    );
    assert!(!st.state.dragging);
    assert_eq!(st.state.idle_timer, 3);
}

#[test]
fn sound_follows_the_configuration() {
    let cfg = DwellConfig::new(10, 1, 1, false, false).unwrap();
    let mut st = moved_baseline(&cfg);
    let mut pending = Vec::new();
    assert_eq!(
        evaluate(&mut st, &cfg, 100, 100, &mut pending),
        TickActions { emission: Emission::Click, sound: false }
    );
    play_click_sound();
}

#[test]
fn first_tick_after_startup_never_clicks() {
    let cfg = config(1, 1, false);
    let mut st = DwellSession::new();
    let mut pending = Vec::new();
    // The pointer rests at the origin: without the activation mark the timer
    // would reach the dwell wait on this very tick.
    assert_eq!(evaluate(&mut st, &cfg, 0, 0, &mut pending), quiet());
    assert!(!st.state.just_became_active);
    assert_eq!(st.state.idle_timer, 2);
    for _ in 0..5 {
        assert_eq!(evaluate(&mut st, &cfg, 0, 0, &mut pending), quiet());
        assert_eq!(st.state.idle_timer, 2);
    }
}

#[test]
fn reactivation_defers_the_click() {
    let cfg = config(3, 3, false);
    let mut st = moved_baseline(&cfg);
    let mut pending = Vec::new();
    assert_eq!(evaluate(&mut st, &cfg, 100, 100, &mut pending), quiet());
    assert_eq!(evaluate(&mut st, &cfg, 100, 100, &mut pending), quiet());
    assert_eq!(st.state.idle_timer, 2);
    st.set_active(false);
    assert!(!st.state.active);
    assert!(!st.state.just_became_active);
    // Inactive ticks change nothing.
    pending.push(press(3));
    for _ in 0..3 {
        assert_eq!(evaluate(&mut st, &cfg, 500, 500, &mut pending), quiet());
        assert_eq!(st.state.idle_timer, 2);
        assert_eq!(st.motion, MotionState { x: 100, y: 100, moving: false });
    }
    assert_eq!(pending.len(), 1);
    assert_eq!(main_loop_buttons(&mut st, &cfg, &pending), quiet());
    assert!(st.inhibition.inhibit_mask.is_empty());
    pending.clear();
    st.set_active(true);
    assert!(st.state.active);
    assert!(st.state.just_became_active);
    // Without the mark this tick would bring the timer to 3 and click.
    assert_eq!(evaluate(&mut st, &cfg, 100, 100, &mut pending), quiet());
    assert_eq!(st.state.idle_timer, 4);
    assert!(!st.state.just_became_active);
    assert_eq!(evaluate(&mut st, &cfg, 100, 100, &mut pending), quiet());
    assert_eq!(st.state.idle_timer, 4);
}

#[test]
fn set_active_on_an_active_session_leaves_no_mark() {
    let cfg = config(3, 3, false);
    let mut st = moved_baseline(&cfg);
    st.set_active(true);
    assert!(st.state.active);
    assert!(!st.state.just_became_active);
}

#[test]
fn activation_mark_is_void_when_the_pointer_moves() {
    let cfg = config(2, 2, false);
    let mut st = DwellSession::new();
    let mut pending = Vec::new();
    assert_eq!(evaluate(&mut st, &cfg, 50, 0, &mut pending), quiet());
    assert_eq!(st.state.idle_timer, 0);
    assert!(!st.state.just_became_active);
    assert_eq!(evaluate(&mut st, &cfg, 50, 0, &mut pending), quiet());
    assert_eq!(evaluate(&mut st, &cfg, 50, 0, &mut pending).emission, Emission::Click);
}

#[test]
fn still_ticks_raise_the_timer_up_to_the_cap() {
    let cfg = config(7, 9, true);
    let mut st = moved_baseline(&cfg);
    let mut pending = Vec::new();
    // Samples wander inside the slack of the anchor.
    let samples = [(100, 100), (101, 100), (109, 100), (100, 91), (106, 107), (94, 93)];
    let mut previous = st.state.idle_timer;
    for &(x, y) in samples.iter() {
        assert_eq!(evaluate(&mut st, &cfg, x, y, &mut pending), quiet());
        assert!(!st.motion.moving);
        assert_eq!((st.motion.x, st.motion.y), (100, 100));
        assert_eq!(st.state.idle_timer, previous + 1);
        previous = st.state.idle_timer;
    }
    assert_eq!(previous, 6);
}

#[test]
fn timer_saturates_one_above_the_longer_wait() {
    let cfg = config(2, 4, false);
    let mut st = moved_baseline(&cfg);
    let mut pending = Vec::new();
    let mut seen = Vec::new();
    for _ in 0..8 {
        evaluate(&mut st, &cfg, 100, 100, &mut pending);
        seen.push(st.state.idle_timer);
    }
    assert_eq!(seen, vec![1, 5, 5, 5, 5, 5, 5, 5]);
}

#[test]
fn displacement_resets_timer_and_narrows_threshold() {
    let cfg = config(50, 50, false);
    let mut st = moved_baseline(&cfg);
    let mut pending = Vec::new();
    for _ in 0..3 {
        evaluate(&mut st, &cfg, 100, 100, &mut pending);
    }
    assert_eq!(st.state.idle_timer, 3);
    assert!(!st.motion.moving);
    // One pixel short of the slack: still.
    assert_eq!(evaluate(&mut st, &cfg, 109, 100, &mut pending), quiet());
    assert_eq!(st.state.idle_timer, 4);
    assert_eq!((st.motion.x, st.motion.y), (100, 100));
    // On the border: moving.
    pending.push(press(2));
    assert_eq!(evaluate(&mut st, &cfg, 110, 100, &mut pending), quiet());
    assert!(st.motion.moving);
    assert_eq!((st.motion.x, st.motion.y), (110, 100));
    assert_eq!(st.state.idle_timer, 0);
    // A moving tick leaves the notifications with the host.
    assert_eq!(pending.len(), 1);
    assert!(st.inhibition.inhibit_mask.is_empty());
    pending.clear();
    // Now one pixel is enough to keep moving.
    assert_eq!(evaluate(&mut st, &cfg, 111, 100, &mut pending), quiet());
    assert!(st.motion.moving);
    assert_eq!((st.motion.x, st.motion.y), (111, 100));
    assert_eq!(st.state.idle_timer, 0);
    // Only a pointer that stays where it is comes to rest.
    assert_eq!(evaluate(&mut st, &cfg, 111, 100, &mut pending), quiet());
    assert!(!st.motion.moving);
    assert_eq!((st.motion.x, st.motion.y), (111, 100));
    assert_eq!(st.state.idle_timer, 1);
}

#[test]
fn physical_press_cancels_a_pending_click() {
    let cfg = config(3, 3, false);
    let mut st = moved_baseline(&cfg);
    let mut pending = Vec::new();
    evaluate(&mut st, &cfg, 100, 100, &mut pending);
    evaluate(&mut st, &cfg, 100, 100, &mut pending);
    assert_eq!(st.state.idle_timer, 2);
    pending.push(press(1));
    pending.push(release(1));
    assert_eq!(evaluate(&mut st, &cfg, 100, 100, &mut pending), quiet());
    assert_eq!(st.state.idle_timer, 4);
    for _ in 0..5 {
        assert_eq!(evaluate(&mut st, &cfg, 100, 100, &mut pending), quiet());
        assert_eq!(st.state.idle_timer, 4);
    }
}

#[test]
fn held_button_does_not_cancel_an_own_drag() {
    let cfg = config(2, 4, true);
    let mut st = moved_baseline(&cfg);
    let mut pending = Vec::new();
    evaluate(&mut st, &cfg, 100, 100, &mut pending);
    assert_eq!(evaluate(&mut st, &cfg, 100, 100, &mut pending).emission, Emission::Press);
    pending.push(press(1));
    pending.push(press(3));
    for expected in 1..=3u32 {
        assert_eq!(evaluate(&mut st, &cfg, 100, 100, &mut pending), quiet());
        assert_eq!(st.state.idle_timer, expected);
        assert!(st.state.dragging);
    }
    assert_eq!(evaluate(&mut st, &cfg, 100, 100, &mut pending).emission, Emission::Release);
    assert_eq!(st.state.idle_timer, 5);
}

#[test]
fn movement_during_drag_restarts_the_hold() {
    let cfg = config(2, 3, true);
    let mut st = moved_baseline(&cfg);
    let mut pending = Vec::new();
    evaluate(&mut st, &cfg, 100, 100, &mut pending);
    assert_eq!(evaluate(&mut st, &cfg, 100, 100, &mut pending).emission, Emission::Press);
    evaluate(&mut st, &cfg, 100, 100, &mut pending);
    evaluate(&mut st, &cfg, 100, 100, &mut pending);
    assert_eq!(st.state.idle_timer, 2);
    assert_eq!(evaluate(&mut st, &cfg, 300, 300, &mut pending), quiet());
    assert_eq!(st.state.idle_timer, 0);
    assert!(st.state.dragging);
    assert_eq!(evaluate(&mut st, &cfg, 300, 300, &mut pending), quiet());
    assert_eq!(evaluate(&mut st, &cfg, 300, 300, &mut pending), quiet());
    assert_eq!(evaluate(&mut st, &cfg, 300, 300, &mut pending).emission, Emission::Release);
}

#[test]
fn zero_dwell_never_fires() {
    let cfg = config(0, 0, false);
    let mut st = moved_baseline(&cfg);
    let mut pending = Vec::new();
    for _ in 0..5 {
        assert_eq!(evaluate(&mut st, &cfg, 100, 100, &mut pending), quiet());
        assert_eq!(st.state.idle_timer, 1);
    }
}

#[test]
fn primary_button_falls_back_to_one() {
    assert_eq!(get_primary_button_code(0, 0), 1);
    assert_eq!(get_primary_button_code(-1, 7), 1);
    assert_eq!(get_primary_button_code(0, 3), 1);
}

#[test]
fn primary_button_follows_the_mapping() {
    assert_eq!(get_primary_button_code(1, 3), 3);
    assert_eq!(get_primary_button_code(5, 1), 1);
    assert_eq!(get_primary_button_code(1, 0), 0);
    assert_eq!(get_primary_button_code(i32::MAX, 255), 255);
}

#[test]
fn timer_above_the_cap_is_brought_back_to_it() {
    let cfg = config(3, 3, false);
    let mut st = moved_baseline(&cfg);
    st.state.idle_timer = 1_000;
    let mut pending = Vec::new();
    assert_eq!(evaluate(&mut st, &cfg, 100, 100, &mut pending), quiet());
    assert_eq!(st.state.idle_timer, 4);
}

#[test]
fn failed_pointer_query_counts_as_a_resting_tick() {
    let cfg = config(3, 3, false);
    let mut st = moved_baseline(&cfg);
    assert!(st.motion.moving);
    assert!(main_loop_sampled(&mut st, &cfg, None));
    assert_eq!(st.motion, MotionState { x: 100, y: 100, moving: false });
    assert_eq!(st.state.idle_timer, 1);
    assert_eq!(main_loop_buttons(&mut st, &cfg, &vec![]), quiet());
    assert!(main_loop_sampled(&mut st, &cfg, None));
    assert_eq!(main_loop_buttons(&mut st, &cfg, &vec![]), quiet());
    assert_eq!(st.state.idle_timer, 2);
    assert!(main_loop_sampled(&mut st, &cfg, None));
    assert_eq!(
        main_loop_buttons(&mut st, &cfg, &vec![]),
        TickActions { emission: Emission::Click, sound: true }
    );
    assert_eq!(st.motion, MotionState { x: 100, y: 100, moving: false });
}

#[test]
fn failed_pointer_query_does_not_reset_the_timer() {
    let cfg = config(9, 9, false);
    let mut st = moved_baseline(&cfg);
    let mut pending = Vec::new();
    evaluate(&mut st, &cfg, 100, 100, &mut pending);
    evaluate(&mut st, &cfg, 100, 100, &mut pending);
    assert_eq!(st.state.idle_timer, 2);
    assert!(main_loop_sampled(&mut st, &cfg, None));
    assert_eq!(st.state.idle_timer, 3);
    // The next answered query is measured from the anchor that was kept.
    assert!(main_loop_sampled(&mut st, &cfg, Some((109, 100))));
    assert_eq!(st.state.idle_timer, 4);
    assert!(!main_loop_sampled(&mut st, &cfg, Some((110, 100))));
    assert_eq!(st.state.idle_timer, 0);
    assert_eq!(st.motion, MotionState { x: 110, y: 100, moving: true });
}

#[test]
fn first_step_on_an_inactive_session_ignores_the_query() {
    let cfg = config(3, 3, false);
    let mut st = moved_baseline(&cfg);
    st.set_active(false);
    assert!(!main_loop_sampled(&mut st, &cfg, None));
    assert!(!main_loop_sampled(&mut st, &cfg, Some((500, 500))));
    assert_eq!(st.motion, MotionState { x: 100, y: 100, moving: true });
    assert_eq!(st.state.idle_timer, 0);
}

#[test]
fn answered_query_is_the_same_first_step_as_a_position() {
    let cfg = config(4, 4, true);
    let mut a = moved_baseline(&cfg);
    let mut b = moved_baseline(&cfg);
    for &(x, y) in [(100, 100), (103, 100), (200, 50), (200, 51), (200, 51)].iter() {
        assert_eq!(main_loop(&mut a, &cfg, x, y), main_loop_sampled(&mut b, &cfg, Some((x, y))));
        assert_eq!(a.state, b.state);
        assert_eq!(a.motion, b.motion);
    }
}
