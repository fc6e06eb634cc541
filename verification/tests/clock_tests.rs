use framecap::clock::VirtualClock;

fn enabled_clock(cpt: i64, threshold: u64, now: i64) -> VirtualClock {
    let mut c = VirtualClock::new(cpt, threshold, now);
    c.incr_tick();
    c
}

#[test]
fn fresh_clock_is_disabled_pass_through() {
    let mut c = VirtualClock::new(100, 65536, 1000);
    assert!(!c.enabled);
    assert_eq!(c.tick, 0);
    // Disabled: reading is real time plus a zero offset.
    assert_eq!(c.query(4242), 4242);
    assert_eq!(c.query(5000), 5000);
}

#[test]
fn ticks_advance_reported_time_exactly() {
    let mut c = enabled_clock(100, 65536, 1000);
    assert!(c.enabled);
    // The first capture event only enables the clock.
    assert_eq!(c.query(999_999), 1000);
    c.incr_tick();
    c.incr_tick();
    c.incr_tick();
    // Three events while enabled: exactly 3 * 100 counts, whatever the
    // real counter says.
    assert_eq!(c.query(123_456_789), 1000 + 3 * 100);
}

#[test]
fn pause_is_continuous() {
    let mut c = enabled_clock(100, 65536, 1000);
    c.incr_tick();
    c.incr_tick();
    let last_enabled = c.query(0);
    assert_eq!(last_enabled, 1200);
    c.pause(5000);
    assert!(!c.enabled);
    // First disabled reading at the instant capture ended: no jump.
    assert_eq!(c.query(5000), 1200);
}

#[test]
fn force_tick_fires_after_threshold() {
    let mut c = enabled_clock(100, 3, 1000);
    // Three consecutive queries with threshold 3: no forced tick.
    assert_eq!(c.query(0), 1000);
    assert_eq!(c.query(0), 1000);
    assert_eq!(c.query(0), 1000);
    assert_eq!(c.tick, 0);
    // The fourth forces exactly one.
    assert_eq!(c.query(0), 1100);
    assert_eq!(c.tick, 1);
    assert_eq!(c.alarm, 0);
}

#[test]
fn capture_event_resets_alarm() {
    let mut c = enabled_clock(100, 3, 1000);
    c.query(0);
    c.query(0);
    assert_eq!(c.alarm, 2);
    c.incr_tick();
    assert_eq!(c.alarm, 0);
}

#[test]
fn counter_to_millis_scales() {
    assert_eq!(framecap::clock::counter_to_millis(123_456, 1000), 123_000);
    assert_eq!(framecap::clock::counter_to_millis(10_000_000, 10_000_000), 1000);
    assert_eq!(framecap::clock::millis_truncated(0x1_0000_0005), 5);
    assert_eq!(framecap::clock::millis_truncated(17), 17);
}
