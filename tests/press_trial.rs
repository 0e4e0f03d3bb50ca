use rust_survey::message::{Command, Phase, SensorEvent};
use rust_survey::press::{
    press_radius, range, round, Press, PressTrial, OUTPUT_END, OUTPUT_RING_MIN, OUTPUT_START,
};

fn touch(phase: Phase, pressure: i64, material: u32) -> SensorEvent {
    SensorEvent { phase, pressure, x: 1500, y: -2500, material }
}

/// Pressure (thousandths) that maps to a circle of 60.5.
const MID_PRESSURE: i64 = 760000;

fn trial(ring: i64, tolerance: u64) -> PressTrial {
    Press::new(1, 5, tolerance).begin_with(ring).0
}

#[test]
fn round_goes_to_half_above_floor() {
    assert_eq!(round(3200), 3500);
    assert_eq!(round(3900), 3500);
    assert_eq!(round(-100), -500);
    assert_eq!(round(0), 500);
    assert_eq!(round(3000), 3500);
    assert_eq!(round(-1000), -500);
    assert_eq!(round(-1001), -1500);
}

#[test]
fn pressure_mapping_endpoints() {
    assert_eq!(press_radius(20000), 20500);
    assert_eq!(press_radius(1500000), 100500);
    assert_eq!(press_radius(MID_PRESSURE), 60500);
    assert_eq!(press_radius(0), 18500);
}

#[test]
fn pressure_mapping_is_monotonic() {
    let mut prev = press_radius(20000);
    let mut p: i64 = 20000;
    while p <= 1500000 {
        let r = press_radius(p);
        assert!(r >= prev);
        prev = r;
        p += 3700;
    }
}

#[test]
fn range_maps_linearly() {
    assert_eq!(range(0, 10000, 0, 100000, 50000), 5500);
    assert_eq!(range(1000, 2000, 0, 1000, 0), 1500);
    assert_eq!(range(0, 10000, 0, 1000, -1), -500);
}

#[test]
fn running_counts_whole_seconds() {
    let p = Press::new(2, 5, 2000);
    assert!(p.running(0));
    assert!(p.running(4999));
    assert!(!p.running(5000));
    assert!(!Press::new(2, 0, 2000).running(0));
}

#[test]
fn begin_with_shows_smallest_circle() {
    let (t, c) = Press::new(3, 5, 2000).begin_with(45000);
    assert_eq!(c, Command::SetPressRadii { circle: OUTPUT_START, ring: 45000 });
    assert_eq!(t.material, 3);
    assert!(t.current.is_empty());
    assert!(t.closed.is_empty());
    assert!(!t.within_tolerance);
}

#[test]
fn begin_draws_ring_in_range() {
    for _ in 0..200 {
        let (t, c) = Press::new(3, 5, 2000).begin();
        assert!(t.ring_radius >= OUTPUT_RING_MIN && t.ring_radius < OUTPUT_END);
        assert_eq!(c, Command::SetPressRadii { circle: OUTPUT_START, ring: t.ring_radius });
    }
}

#[test]
fn other_material_is_ignored() {
    let mut t = trial(60000, 2000);
    let r = t.on_event(&touch(Phase::Start, MID_PRESSURE, 9), 10, 40000);
    assert_eq!(r, None);
    assert!(t.current.is_empty());
    assert!(!t.within_tolerance);
}

#[test]
fn every_event_reports_radii() {
    let mut t = trial(60000, 2000);
    let r = t.on_event(&touch(Phase::Start, 20000, 1), 10, 40000);
    assert_eq!(r, Some(Command::SetPressRadii { circle: 20500, ring: 60000 }));
    assert_eq!(t.current.len(), 1);
    assert_eq!(t.current[0].time_ms, 10);
    assert_eq!(t.current[0].pressure, 20000);
    assert_eq!(t.current[0].x, 1500);
    assert_eq!(t.current[0].y, -2500);
}

#[test]
fn dwell_short_of_a_second_keeps_target() {
    let mut t = trial(60000, 2000);
    t.on_event(&touch(Phase::Start, MID_PRESSURE, 1), 100, 40000);
    assert!(t.within_tolerance);
    t.on_event(&touch(Phase::Move, MID_PRESSURE, 1), 1090, 40000);
    assert!(t.closed.is_empty());
    assert_eq!(t.ring_radius, 60000);
    assert_eq!(t.current.len(), 2);
}

#[test]
fn dwell_of_a_second_moves_target_once() {
    let mut t = trial(60000, 2000);
    t.on_event(&touch(Phase::Start, MID_PRESSURE, 1), 100, 40000);
    let r = t.on_event(&touch(Phase::Move, MID_PRESSURE, 1), 1100, 40000);
    assert_eq!(r, Some(Command::SetPressRadii { circle: 60500, ring: 40000 }));
    assert_eq!(t.closed.len(), 1);
    assert_eq!(t.closed[0].ring_radius, 60000);
    assert_eq!(t.closed[0].circle_radius, OUTPUT_START);
    assert_eq!(t.closed[0].contacts.len(), 2);
    assert!(t.current.is_empty());
    assert_eq!(t.start_circle, 60500);
    assert_eq!(t.ring_radius, 40000);
    assert!(!t.within_tolerance);
    // the new ring is far away: staying put does not match again
    t.on_event(&touch(Phase::Move, MID_PRESSURE, 1), 2500, 70000);
    assert_eq!(t.closed.len(), 1);
}

#[test]
fn leaving_tolerance_restarts_dwell() {
    let mut t = trial(60000, 2000);
    t.on_event(&touch(Phase::Start, MID_PRESSURE, 1), 0, 40000);
    t.on_event(&touch(Phase::Move, 20000, 1), 500, 40000);
    assert!(!t.within_tolerance);
    t.on_event(&touch(Phase::Move, MID_PRESSURE, 1), 600, 40000);
    assert!(t.within_tolerance);
    t.on_event(&touch(Phase::Move, MID_PRESSURE, 1), 1200, 40000);
    t.on_event(&touch(Phase::Move, MID_PRESSURE, 1), 1599, 40000);
    assert!(t.closed.is_empty());
    t.on_event(&touch(Phase::Move, MID_PRESSURE, 1), 1600, 40000);
    assert_eq!(t.closed.len(), 1);
}

#[test]
fn finish_closes_open_segment() {
    let mut t = trial(60000, 2000);
    let times = [0u64, 300, 1000, 1000, 1200, 2200, 2300];
    for &ms in times.iter() {
        t.on_event(&touch(Phase::Move, MID_PRESSURE, 1), ms, 60000);
    }
    let matches = t.closed.len();
    assert_eq!(matches, 2);
    let segments = t.finish();
    assert_eq!(segments.len(), matches + 1);
    let total: usize = segments.iter().map(|s| s.contacts.len()).sum();
    assert_eq!(total, times.len());
    for s in segments.iter() {
        for w in s.contacts.windows(2) {
            assert!(w[0].time_ms <= w[1].time_ms);
        }
    }
}

#[test]
fn finish_without_events_has_one_empty_segment() {
    let segments = trial(55000, 2000).finish();
    assert_eq!(segments.len(), 1);
    assert_eq!(segments[0].circle_radius, OUTPUT_START);
    assert_eq!(segments[0].ring_radius, 55000);
    assert!(segments[0].contacts.is_empty());
}

#[test]
fn single_full_press_then_silence() {
    let press = Press::new(1, 5, 2000);
    let (mut t, _) = press.begin_with(99000);
    let r = t.on_event(&touch(Phase::Start, 1500000, 1), 0, 40000);
    assert_eq!(r, Some(Command::SetPressRadii { circle: 100500, ring: 99000 }));
    assert!(t.within_tolerance);
    // no further events: nothing is re-evaluated, however long it stays quiet
    assert!(press.running(1000));
    assert!(t.closed.is_empty());
    assert!(!press.running(5000));
    let segments = t.finish();
    assert_eq!(segments.len(), 1);
    assert_eq!(segments[0].contacts.len(), 1);
}

#[test]
fn handle_event_draws_new_ring_in_range() {
    let mut t = trial(60000, 2000);
    t.handle_event(&touch(Phase::Start, MID_PRESSURE, 1), 0);
    t.handle_event(&touch(Phase::Move, MID_PRESSURE, 1), 1000);
    assert_eq!(t.closed.len(), 1);
    assert!(t.ring_radius >= OUTPUT_RING_MIN && t.ring_radius < OUTPUT_END);
}
