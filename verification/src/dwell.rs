//! The dwell/drag state machine. One evaluation runs per tick, in two steps:
//! first the pointer sample, then, only if the pointer rests, the raw button
//! notifications that are pending. The host performs the input and output in
//! between and around them.

use vstd::prelude::*;
use crate::buttons::RawButtonEvent;
use crate::config::DwellConfig;
use crate::inhibition::{
    inhibited,
    inhibition_cycle,
    is_click_inhibited,
    InhibitionState,
    InhibitionView,
};
use crate::motion::{
    is_cursor_moving_sampled,
    motion_step_sampled,
    sample_leaves_anchor,
    MotionState,
};

verus! {

/// The state machine's own record.
#[derive(Clone, Copy, Debug, PartialEq, Eq, Structural)]
pub struct SessionState {
    /// Whether dwell clicking is switched on.
    pub active: bool,
    /// Set when `active` turns on, cleared by the first evaluation after.
    pub just_became_active: bool,
    /// Whether a synthetic press is out and not yet released.
    pub dragging: bool,
    /// Ticks of continuous stillness.
    pub idle_timer: u32,
}

/// Everything that lives from one tick to the next.
#[derive(Debug)]
pub struct DwellSession {
    pub state: SessionState,
    pub motion: MotionState,
    pub inhibition: InhibitionState,
}

/// A session with its button sets as mathematical sets.
pub ghost struct SessionView {
    pub state: SessionState,
    pub motion: MotionState,
    pub inhibition: InhibitionView,
}

impl View for DwellSession {
    type V = SessionView;

    open spec fn view(&self) -> SessionView {
        SessionView { state: self.state, motion: self.motion, inhibition: self.inhibition@ }
    }
}

/// What the host has to inject after an evaluation.
#[derive(Clone, Copy, Debug, PartialEq, Eq, Structural)]
pub enum Emission {
    /// No synthetic input.
    Nothing,
    /// A press of the primary button, to be held.
    Press,
    /// A press of the primary button followed at once by its release.
    Click,
    /// The release of the primary button that ends a drag.
    Release,
}

/// The outcome of an evaluation.
#[derive(Clone, Copy, Debug, PartialEq, Eq, Structural)]
pub struct TickActions {
    /// The synthetic input to inject.
    pub emission: Emission,
    /// Whether the click sound is due.
    pub sound: bool,
}

/// The outcome of an evaluation that injects nothing.
pub open spec fn no_actions() -> TickActions {
    TickActions { emission: Emission::Nothing, sound: false }
}

/// The idle timer once the activation mark is dealt with and the pointer
/// sampled: zero on movement, else one more than before, saturating at the
/// saturation value. A freshly active session counts as one whose timer is
/// saturated already.
pub open spec fn timer_after_pointer(cfg: DwellConfig, state: SessionState, moving: bool) -> int {
    if moving {
        0
    } else if !state.just_became_active && state.idle_timer < cfg.cap() {
        state.idle_timer + 1
    } else {
        cfg.cap()
    }
}

/// The first step of an evaluation, on the outcome of the pointer query:
/// `Some` of the pointer's position, or `None` if the query failed, which
/// counts as a pointer that does not move. An inactive session is left as it
/// is.
pub open spec fn pointer_phase_sampled(
    cfg: DwellConfig,
    s: SessionView,
    sample: Option<(i32, i32)>,
) -> SessionView {
    if !s.state.active {
        s
    } else {
        let motion = motion_step_sampled(cfg, s.motion, sample);
        SessionView {
            state: SessionState {
                active: true,
                just_became_active: false,
                dragging: s.state.dragging,
                idle_timer: timer_after_pointer(cfg, s.state, motion.moving) as u32,
            },
            motion,
            inhibition: s.inhibition,
        }
    }
}

/// Whether the evaluation goes on to its second step: the session is active
/// and the pointer rests or could not be queried.
pub open spec fn polls_buttons_sampled(
    cfg: DwellConfig,
    s: SessionView,
    sample: Option<(i32, i32)>,
) -> bool {
    s.state.active && !sample_leaves_anchor(cfg, s.motion, sample)
}

/// The first step of an evaluation on a pointer at `(x, y)`.
pub open spec fn pointer_phase(cfg: DwellConfig, s: SessionView, x: i32, y: i32) -> SessionView {
    pointer_phase_sampled(cfg, s, Some((x, y)))
}

/// Whether an evaluation on a pointer at `(x, y)` goes on to its second
/// step: the session is active and the pointer rests.
pub open spec fn polls_buttons(cfg: DwellConfig, s: SessionView, x: i32, y: i32) -> bool {
    polls_buttons_sampled(cfg, s, Some((x, y)))
}

/// The idle timer once the inhibition tracker has answered: a held
/// physical button pushes it to the saturation value, except during a drag
/// that the engine itself started.
pub open spec fn timer_after_inhibition(
    cfg: DwellConfig,
    state: SessionState,
    held: bool,
) -> int {
    if held && !(cfg.drag_enabled && state.dragging) {
        cfg.cap()
    } else {
        state.idle_timer as int
    }
}

/// Whether the dwell trigger fires: the timer stands exactly at the dwell
/// wait and no drag is under way.
pub open spec fn dwell_fires(cfg: DwellConfig, state: SessionState, held: bool) -> bool {
    !state.dragging && timer_after_inhibition(cfg, state, held) == cfg.dwell_ticks
}

/// Whether a drag ends in this evaluation: either one that was under way and
/// whose timer stands exactly at the drag wait, or one that starts in this
/// very evaluation with a drag wait of zero.
pub open spec fn drag_ends(cfg: DwellConfig, state: SessionState, held: bool) -> bool {
    if dwell_fires(cfg, state, held) {
        cfg.drag_enabled && cfg.drag_ticks == 0
    } else {
        state.dragging && timer_after_inhibition(cfg, state, held) == cfg.drag_ticks
    }
}

/// The second step of an evaluation, on the notifications that were pending.
pub open spec fn button_phase(
    cfg: DwellConfig,
    s: SessionView,
    events: Seq<RawButtonEvent>,
) -> (SessionView, TickActions) {
    if !s.state.active {
        (s, no_actions())
    } else {
        let inhibition = inhibition_cycle(s.inhibition, events);
        let held = inhibited(inhibition);
        let fires = dwell_fires(cfg, s.state, held);
        let ends = drag_ends(cfg, s.state, held);
        let timer = if ends || (fires && !cfg.drag_enabled) {
            cfg.cap()
        } else if fires {
            0
        } else {
            timer_after_inhibition(cfg, s.state, held)
        };
        let dragging = if ends {
            false
        } else if fires {
            cfg.drag_enabled
        } else {
            s.state.dragging
        };
        let emission = if fires {
            if ends || !cfg.drag_enabled {
                Emission::Click
            } else {
                Emission::Press
            }
        } else if ends {
            Emission::Release
        } else {
            Emission::Nothing
        };
        (
            SessionView {
                state: SessionState {
                    active: true,
                    just_became_active: s.state.just_became_active,
                    dragging,
                    idle_timer: timer as u32,
                },
                motion: s.motion,
                inhibition,
            },
            TickActions { emission, sound: fires && cfg.sound_enabled },
        )
    }
}

/// A whole evaluation: the pointer query, and the pending notifications if
/// the pointer rests or could not be queried. On a moving or inactive tick
/// the notifications are not consumed.
pub open spec fn tick_sampled(
    cfg: DwellConfig,
    s: SessionView,
    sample: Option<(i32, i32)>,
    events: Seq<RawButtonEvent>,
) -> (SessionView, TickActions) {
    if polls_buttons_sampled(cfg, s, sample) {
        button_phase(cfg, pointer_phase_sampled(cfg, s, sample), events)
    } else {
        (pointer_phase_sampled(cfg, s, sample), no_actions())
    }
}

/// A whole evaluation on a pointer at `(x, y)`.
pub open spec fn tick(
    cfg: DwellConfig,
    s: SessionView,
    x: i32,
    y: i32,
    events: Seq<RawButtonEvent>,
) -> (SessionView, TickActions) {
    tick_sampled(cfg, s, Some((x, y)), events)
}

/// The session after dwell clicking was switched on or off. Only a change
/// from off to on leaves a mark: the session is then freshly active.
pub open spec fn with_active(s: SessionView, active: bool) -> SessionView {
    SessionView {
        state: SessionState {
            active,
            just_became_active: s.state.just_became_active || (active && !s.state.active),
            dragging: s.state.dragging,
            idle_timer: s.state.idle_timer,
        },
        motion: s.motion,
        inhibition: s.inhibition,
    }
}

impl DwellSession {
    /// The session at startup: active, freshly so, at rest at the origin,
    /// with no button held.
    pub fn new() -> (st: DwellSession)
        ensures
            st@.state == (SessionState {
                active: true,
                just_became_active: true,
                dragging: false,
                idle_timer: 0,
            }),
            st@.motion == (MotionState { x: 0, y: 0, moving: false }),
            st@.inhibition.inhibit == Set::<i32>::empty(),
            st@.inhibition.uninhibit == Set::<i32>::empty(),
    {
        DwellSession {
            state: SessionState {
                active: true,
                just_became_active: true,
                dragging: false,
                idle_timer: 0,
            },
            motion: MotionState::new(),
            inhibition: InhibitionState::new(),
        }
    }

    /// Switches dwell clicking on or off. Switching it on from off marks the
    /// session as freshly active.
    pub fn set_active(&mut self, active: bool)
        ensures
            final(self)@ == with_active(old(self)@, active),
    {
        if active && !self.state.active {
            self.state.just_became_active = true;
        }
        self.state.active = active;
    }
}

/// Audio feedback for a click. The engine has no audio backend of its own,
/// so this makes no sound; the host calls it when the outcome of an
/// evaluation says that a sound is due.
pub fn play_click_sound() {
}

/// The first step of an evaluation, on the outcome of the pointer query:
/// `Some` of the pointer's absolute position, or `None` if the query failed.
/// A failed query counts as a pointer that does not move. Returns whether
/// the host has to drain the pending button notifications and hand them to
/// [`main_loop_buttons`]; if not, the evaluation is over and nothing is to
/// be injected.
pub fn main_loop_sampled(
    st: &mut DwellSession,
    cfg: &DwellConfig,
    sample: Option<(i32, i32)>,
) -> (poll: bool)
    requires
        cfg.valid(),
    ensures
        final(st)@ == pointer_phase_sampled(*cfg, old(st)@, sample),
        poll == polls_buttons_sampled(*cfg, old(st)@, sample),
{
    if !st.state.active {
        return false;
    }
    let max_time: u32 = cfg.saturation_cap();
    if st.state.just_became_active {
        st.state.just_became_active = false;
        st.state.idle_timer = max_time;
    }
    if is_cursor_moving_sampled(&mut st.motion, cfg, sample) {
        st.state.idle_timer = 0;
        return false;
    }
    if st.state.idle_timer < max_time {
        st.state.idle_timer += 1;
    } else {
        st.state.idle_timer = max_time;
    }
    true
}

/// The first step of an evaluation, on the pointer's absolute position.
/// Returns whether the host has to drain the pending button notifications
/// and hand them to [`main_loop_buttons`]; if not, the evaluation is over and
/// nothing is to be injected.
pub fn main_loop(st: &mut DwellSession, cfg: &DwellConfig, x: i32, y: i32) -> (poll: bool)
    requires
        cfg.valid(),
    ensures
        final(st)@ == pointer_phase(*cfg, old(st)@, x, y),
        poll == polls_buttons(*cfg, old(st)@, x, y),
{
    main_loop_sampled(st, cfg, Some((x, y)))
}

/// The second step of an evaluation, on the raw button notifications that
/// were pending, in their order of arrival. Returns what the host has to
/// inject.
pub fn main_loop_buttons(
    st: &mut DwellSession,
    cfg: &DwellConfig,
    events: &Vec<RawButtonEvent>,
) -> (actions: TickActions)
    requires
        cfg.valid(),
    ensures
        (final(st)@, actions) == button_phase(*cfg, old(st)@, events@),
{
    if !st.state.active {
        return TickActions { emission: Emission::Nothing, sound: false };
    }
    let max_time: u32 = cfg.saturation_cap();
    let mut emission = Emission::Nothing;
    let mut sound = false;

    if is_click_inhibited(&mut st.inhibition, events) {
        if !cfg.drag_enabled || !st.state.dragging {
            st.state.idle_timer = max_time;
        }
    }
    if st.state.idle_timer == cfg.dwell_ticks && !st.state.dragging {
        if cfg.drag_enabled {
            emission = Emission::Press;
            st.state.dragging = true;
            st.state.idle_timer = 0;
        } else {
            emission = Emission::Click;
            st.state.idle_timer = max_time;
        }
        sound = cfg.sound_enabled;
    }
    if st.state.idle_timer == cfg.drag_ticks && st.state.dragging {
        emission = match emission {
            Emission::Press => Emission::Click,
            _ => Emission::Release,
        };
        st.state.dragging = false;
        st.state.idle_timer = max_time;
    }
    TickActions { emission, sound }
}

/// The logical button that stands for the primary click. `reported` is the
/// number of buttons the backend reported when asked for the pointer mapping
/// and `first` the first entry of that mapping; without any entry the
/// primary button is button 1.
pub fn get_primary_button_code(reported: i32, first: u8) -> (code: u8)
    ensures
        code == (if reported < 1 {
            1u8
        } else {
            first
        }),
{
    if reported < 1 {
        1
    } else {
        first
    }
}

} // verus!
