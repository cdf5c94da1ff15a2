//! Configuration of the dwell-click engine. A configuration is built once and
//! handed by reference to everything that needs it.

use vstd::prelude::*;

verus! {

/// Length of one tick in milliseconds. Every duration in a configuration is
/// counted in ticks of this length.
pub const TIMER_INTERVAL_MS: u32 = 100;

/// The settings of the engine. Both waits are counted in ticks, not in wall
/// time.
#[derive(Clone, Copy, Debug, PartialEq, Eq, Structural)]
pub struct DwellConfig {
    /// Distance in pixels, measured from the last stable position, from
    /// which on a resting pointer counts as moving.
    pub min_movement_pixels: u32,
    /// Ticks of stillness after which a click fires.
    pub dwell_ticks: u32,
    /// Ticks of stillness after which a held drag is released.
    pub drag_ticks: u32,
    /// Whether a dwell presses and holds instead of clicking.
    pub drag_enabled: bool,
    /// Whether a click is accompanied by a sound.
    pub sound_enabled: bool,
}

impl DwellConfig {
    /// The longer of the two waits.
    pub open spec fn longest_wait(&self) -> int {
        if self.dwell_ticks >= self.drag_ticks {
            self.dwell_ticks as int
        } else {
            self.drag_ticks as int
        }
    }

    /// The value at which the idle timer saturates: one more than the longer
    /// wait, so that a saturated timer equals neither wait.
    pub open spec fn cap(&self) -> int {
        self.longest_wait() + 1
    }

    /// A configuration is usable when the idle timer can hold its saturation
    /// value.
    pub open spec fn valid(&self) -> bool {
        self.cap() <= u32::MAX
    }

    /// Builds a configuration, or nothing when a wait is too long for the
    /// idle timer.
    pub fn new(
        min_movement_pixels: u32,
        dwell_ticks: u32,
        drag_ticks: u32,
        drag_enabled: bool,
        sound_enabled: bool,
    ) -> (made: Option<DwellConfig>)
        ensures
            made == (if dwell_ticks <= u32::MAX - 1 && drag_ticks <= u32::MAX - 1 {
                Some(
                    DwellConfig {
                        min_movement_pixels,
                        dwell_ticks,
                        drag_ticks,
                        drag_enabled,
                        sound_enabled,
                    },
                )
            } else {
                None
            }),
            made is Some ==> made->0.valid(),
    {
        let cfg = DwellConfig {
            min_movement_pixels,
            dwell_ticks,
            drag_ticks,
            drag_enabled,
            sound_enabled,
        };
        if cfg.is_valid() {
            Some(cfg)
        } else {
            None
        }
    }

    /// Tells whether the configuration is usable.
    pub fn is_valid(&self) -> (ok: bool)
        ensures
            ok == self.valid(),
            ok == (self.dwell_ticks <= u32::MAX - 1 && self.drag_ticks <= u32::MAX - 1),
    {
        self.dwell_ticks <= u32::MAX - 1 && self.drag_ticks <= u32::MAX - 1
    }

    /// The saturation value of the idle timer.
    pub fn saturation_cap(&self) -> (cap: u32)
        requires
            self.valid(),
        ensures
            cap == self.cap(),
            cap > self.dwell_ticks,
            cap > self.drag_ticks,
    {
        if self.dwell_ticks >= self.drag_ticks {
            self.dwell_ticks + 1
        } else {
            self.drag_ticks + 1
        }
    }
}

impl Default for DwellConfig {
    /// Ten pixels of slack, half a second of dwell, half a second of drag
    /// hold, dragging and sound on.
    fn default() -> (cfg: DwellConfig)
        ensures
            cfg == (DwellConfig {
                min_movement_pixels: 10,
                dwell_ticks: 5,
                drag_ticks: 5,
                drag_enabled: true,
                sound_enabled: true,
            }),
            cfg.valid(),
    {
        DwellConfig {
            min_movement_pixels: 10,
            dwell_ticks: 500 / TIMER_INTERVAL_MS,
            drag_ticks: 500 / TIMER_INTERVAL_MS,
            drag_enabled: true,
            sound_enabled: true,
        }
    }
}

} // verus!
