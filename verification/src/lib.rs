//! Dwell-click decision logic: motion detection with hysteresis, tracking of
//! physical button activity, the dwell/drag state machine and the fixed
//! interval tick schedule.

pub mod buttons;
pub mod config;
pub mod dwell;
pub mod inhibition;
pub mod laws;
pub mod motion;
pub mod schedule;
pub mod xi;
