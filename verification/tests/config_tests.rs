use rtmouse::config::{DwellConfig, TIMER_INTERVAL_MS};

#[test]
fn default_configuration_values() {
    let cfg = DwellConfig::default();
    assert_eq!(
        cfg,
        DwellConfig {
            min_movement_pixels: 10,
            dwell_ticks: 5,
            drag_ticks: 5,
            drag_enabled: true,
            sound_enabled: true,
        }
    );
    assert!(cfg.is_valid());
    assert_eq!(cfg.saturation_cap(), 6);
    assert_eq!(TIMER_INTERVAL_MS, 100);
}

#[test]
fn new_keeps_its_arguments() {
    let cfg = DwellConfig::new(7, 3, 9, false, true).unwrap();
    assert_eq!(
        cfg,
        DwellConfig {
            min_movement_pixels: 7,
            dwell_ticks: 3,
            drag_ticks: 9,
            drag_enabled: false,
            sound_enabled: true,
        }
    );
    assert_eq!(cfg.saturation_cap(), 10);
}

#[test]
fn saturation_cap_takes_the_longer_wait() {
    assert_eq!(DwellConfig::new(1, 8, 2, true, true).unwrap().saturation_cap(), 9);
    assert_eq!(DwellConfig::new(1, 2, 8, true, true).unwrap().saturation_cap(), 9);
    assert_eq!(DwellConfig::new(1, 0, 0, true, true).unwrap().saturation_cap(), 1);
}

#[test]
fn new_refuses_waits_the_timer_cannot_pass() {
    assert!(DwellConfig::new(10, u32::MAX, 5, true, true).is_none());
    assert!(DwellConfig::new(10, 5, u32::MAX, true, true).is_none());
    assert!(DwellConfig::new(10, u32::MAX, u32::MAX, false, false).is_none());
    let widest = DwellConfig::new(u32::MAX, u32::MAX - 1, u32::MAX - 1, false, false).unwrap();
    assert_eq!(widest.saturation_cap(), u32::MAX);
}

#[test]
fn is_valid_matches_new() {
    let mut cfg = DwellConfig::default();
    cfg.dwell_ticks = u32::MAX;
    assert!(!cfg.is_valid());
    cfg.dwell_ticks = u32::MAX - 1;
    assert!(cfg.is_valid());
    cfg.drag_ticks = u32::MAX;
    assert!(!cfg.is_valid());
}
