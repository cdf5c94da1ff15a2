//! Motion detection with hysteresis. A resting pointer counts as moving once
//! it is at least the configured slack away from its anchor; a moving
//! pointer keeps moving as long as it travels at least one pixel per tick.

use vstd::prelude::*;
use crate::config::DwellConfig;

verus! {

/// The detector's memory: the last stable position and the last verdict.
#[derive(Clone, Copy, Debug, PartialEq, Eq, Structural)]
pub struct MotionState {
    /// Horizontal coordinate of the anchor.
    pub x: i32,
    /// Vertical coordinate of the anchor.
    pub y: i32,
    /// Whether the previous sample was classified as moving.
    pub moving: bool,
}

/// Squared Euclidean distance between two points.
pub open spec fn distance_squared(ax: int, ay: int, bx: int, by: int) -> int {
    (bx - ax) * (bx - ax) + (by - ay) * (by - ay)
}

/// The radius that applies to the next sample: one pixel while moving, the
/// configured slack while at rest.
pub open spec fn movement_threshold(cfg: DwellConfig, m: MotionState) -> int {
    if m.moving {
        1
    } else {
        cfg.min_movement_pixels as int
    }
}

/// Whether a sample at `(x, y)` lies at least the current radius away from
/// the anchor, the border counting as away. With a slack of zero every
/// sample of a resting pointer does, so a pointer that does not move at all
/// is classified as moving and as still in turn.
pub open spec fn leaves_anchor(cfg: DwellConfig, m: MotionState, x: int, y: int) -> bool {
    distance_squared(m.x as int, m.y as int, x, y) >= movement_threshold(cfg, m)
        * movement_threshold(cfg, m)
}

/// The detector after a sample: a moving sample becomes the new anchor, a
/// still one leaves the anchor where it was.
pub open spec fn motion_step(cfg: DwellConfig, m: MotionState, x: i32, y: i32) -> MotionState {
    if leaves_anchor(cfg, m, x as int, y as int) {
        MotionState { x, y, moving: true }
    } else {
        MotionState { x: m.x, y: m.y, moving: false }
    }
}

/// Whether the outcome of a pointer query counts as movement. A query that
/// failed counts as a pointer that does not move.
pub open spec fn sample_leaves_anchor(
    cfg: DwellConfig,
    m: MotionState,
    sample: Option<(i32, i32)>,
) -> bool {
    match sample {
        Some(p) => leaves_anchor(cfg, m, p.0 as int, p.1 as int),
        None => false,
    }
}

/// The detector after a pointer query: after a sample as [`motion_step`]
/// says, after a failed query at rest with the anchor where it was.
pub open spec fn motion_step_sampled(
    cfg: DwellConfig,
    m: MotionState,
    sample: Option<(i32, i32)>,
) -> MotionState {
    match sample {
        Some(p) => motion_step(cfg, m, p.0, p.1),
        None => MotionState { x: m.x, y: m.y, moving: false },
    }
}

/// The squared distance of two points is zero if they are one point and at
/// least one if they are not.
pub proof fn lemma_distance_separates_points(ax: int, ay: int, bx: int, by: int)
    ensures
        ax == bx && ay == by ==> distance_squared(ax, ay, bx, by) == 0,
        ax != bx || ay != by ==> distance_squared(ax, ay, bx, by) >= 1,
{
    let dx = bx - ax;
    let dy = by - ay;
    assert(dx * dx >= 0 && (dx != 0 ==> dx * dx >= 1)) by (nonlinear_arith);
    assert(dy * dy >= 0 && (dy != 0 ==> dy * dy >= 1)) by (nonlinear_arith);
}

/// A sample on the anchor itself counts as still, unless the detector is at
/// rest with a slack of zero.
pub proof fn lemma_anchor_is_still(cfg: DwellConfig, m: MotionState)
    requires
        m.moving || cfg.min_movement_pixels >= 1,
    ensures
        !leaves_anchor(cfg, m, m.x as int, m.y as int),
{
    lemma_distance_separates_points(m.x as int, m.y as int, m.x as int, m.y as int);
    let radius = movement_threshold(cfg, m);
    assert(radius * radius >= 1) by (nonlinear_arith)
        requires
            radius >= 1,
    ;
}

impl MotionState {
    /// A detector at rest, anchored at the origin.
    pub fn new() -> (m: MotionState)
        ensures
            m == (MotionState { x: 0, y: 0, moving: false }),
    {
        MotionState { x: 0, y: 0, moving: false }
    }
}

/// Absolute difference of two coordinates.
fn coordinate_gap(a: i32, b: i32) -> (gap: u64)
    ensures
        gap == (if b >= a {
            b - a
        } else {
            a - b
        }),
        gap <= 0xFFFF_FFFF,
{
    let wide_a: i64 = a as i64;
    let wide_b: i64 = b as i64;
    if wide_b >= wide_a {
        (wide_b - wide_a) as u64
    } else {
        (wide_a - wide_b) as u64
    }
}

/// Square of a value of at most 32 bits.
fn square(v: u64) -> (sq: u128)
    requires
        v <= 0xFFFF_FFFF,
    ensures
        sq == v * v,
        sq <= 0xFFFF_FFFE_0000_0001,
{
    assert(v * v <= 0xFFFF_FFFF * 0xFFFF_FFFF) by (nonlinear_arith)
        requires
            0 <= v <= 0xFFFF_FFFF,
    ;
    let wide: u128 = v as u128;
    wide * wide
}

/// Classifies the pointer sample `(x, y)` and updates the detector.
pub fn is_cursor_moving(st: &mut MotionState, cfg: &DwellConfig, x: i32, y: i32) -> (moving: bool)
    ensures
        *final(st) == motion_step(*cfg, *old(st), x, y),
        moving == leaves_anchor(*cfg, *old(st), x as int, y as int),
{
    let dx: u64 = coordinate_gap(st.x, x);
    let dy: u64 = coordinate_gap(st.y, y);
    let threshold: u64 = if st.moving {
        1
    } else {
        cfg.min_movement_pixels as u64
    };
    let travelled: u128 = square(dx) + square(dy);
    let limit: u128 = square(threshold);
    assert(dx * dx == (x - st.x) * (x - st.x)) by (nonlinear_arith)
        requires
            dx == x - st.x || dx == st.x - x,
    ;
    assert(dy * dy == (y - st.y) * (y - st.y)) by (nonlinear_arith)
        requires
            dy == y - st.y || dy == st.y - y,
    ;
    let moving = travelled >= limit;
    st.moving = moving;
    if moving {
        st.x = x;
        st.y = y;
    }
    moving
}

/// Classifies the outcome of a pointer query and updates the detector:
/// `Some` of the pointer's position, or `None` if the query failed. A failed
/// query counts as a pointer that does not move.
pub fn is_cursor_moving_sampled(
    st: &mut MotionState,
    cfg: &DwellConfig,
    sample: Option<(i32, i32)>,
) -> (moving: bool)
    ensures
        *final(st) == motion_step_sampled(*cfg, *old(st), sample),
        moving == sample_leaves_anchor(*cfg, *old(st), sample),
{
    match sample {
        Some(p) => is_cursor_moving(st, cfg, p.0, p.1),
        None => {
            st.moving = false;
            false
        },
    }
}

} // verus!
