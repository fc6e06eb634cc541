use framecap::clock::VirtualClock;
use framecap::pacing::{
    augmented_handles, capture_event, multiple_wait_plan, pause_capture, single_wait_plan,
    sleep_plan, translate_wait_result, TickBarrier, WaitPlan, MAX_VIRTUAL_WAIT, WAIT_TIMEOUT_CODE,
};

#[test]
fn one_tick_releases_all_waiters_once() {
    let mut g = TickBarrier::new();
    let a = g.begin_wait();
    let b = g.begin_wait();
    let c = g.begin_wait();
    assert_eq!((a, b, c), (0, 1, 2));
    // All three are parked for epoch 0.
    assert!(g.waiters.iter().all(|&e| e == g.epoch));
    g.tick();
    // A single tick released every one of them.
    assert!(g.waiters.iter().all(|&e| e < g.epoch));
    // A waiter joining the new epoch is not released by the old tick,
    // and the old waiters are not released again by the next one.
    let d = g.begin_wait();
    assert_eq!(g.waiters[d], 1);
    g.tick();
    assert_eq!(g.epoch, 2);
    assert_eq!(g.waiters[a], 0);
    assert_eq!(g.waiters[d], 1);
}

#[test]
fn capture_events_drive_clock_and_barrier_together() {
    let mut clock = VirtualClock::new(100, 65536, 1000);
    let mut barrier = TickBarrier::new();
    let w = barrier.begin_wait();
    // The first event only enables the clock: no epoch has opened, so
    // nothing is released.
    capture_event(&mut clock, &mut barrier);
    assert!(clock.enabled);
    assert_eq!(clock.tick, 0);
    assert_eq!(barrier.epoch, 0);
    // Every further event advances the clock one tick and releases the
    // current epoch exactly once.
    capture_event(&mut clock, &mut barrier);
    assert_eq!(clock.tick, 1);
    assert_eq!(barrier.epoch, 1);
    assert!(barrier.waiters[w] < barrier.epoch);
    // Capture end releases one final epoch so nobody stays parked, and
    // disables the clock.
    let v = barrier.begin_wait();
    pause_capture(&mut clock, &mut barrier, 5000);
    assert!(!clock.enabled);
    assert_eq!(barrier.epoch, 2);
    assert!(barrier.waiters[v] < barrier.epoch);
    // Pausing a disabled clock touches neither side.
    pause_capture(&mut clock, &mut barrier, 6000);
    assert_eq!(barrier.epoch, 2);
}

#[test]
fn wait_plans_follow_clock_and_timeout() {
    assert!(single_wait_plan(false, 10) == WaitPlan::PassThrough);
    assert!(single_wait_plan(true, 10) == WaitPlan::Paced);
    assert!(single_wait_plan(true, MAX_VIRTUAL_WAIT) == WaitPlan::Paced);
    assert!(single_wait_plan(true, MAX_VIRTUAL_WAIT + 1) == WaitPlan::PassThrough);
    assert!(single_wait_plan(true, 0xFFFF_FFFF) == WaitPlan::PassThrough);

    assert!(multiple_wait_plan(false, false, 10) == WaitPlan::PassThrough);
    // A wait-all request is paced like any other bounded wait: the
    // host's timeout semantics are kept.
    assert!(multiple_wait_plan(true, true, 10) == WaitPlan::Paced);
    assert!(multiple_wait_plan(true, false, 10) == WaitPlan::Paced);
    assert!(multiple_wait_plan(true, false, 0x8000_0000) == WaitPlan::PassThrough);
    assert!(multiple_wait_plan(true, true, 0x8000_0000) == WaitPlan::PassThrough);

    assert!(sleep_plan(true, 0) == WaitPlan::PassThrough);
    assert!(sleep_plan(false, 7) == WaitPlan::PassThrough);
    assert!(sleep_plan(true, 7) == WaitPlan::Paced);
}

#[test]
fn barrier_wakeup_reads_as_timeout() {
    // Index equal to the original handle count is the appended release handle.
    assert_eq!(translate_wait_result(2, 2), WAIT_TIMEOUT_CODE);
    assert_eq!(translate_wait_result(0, 2), 0);
    assert_eq!(translate_wait_result(1, 2), 1);
}

#[test]
fn release_handle_is_appended_last() {
    let handles = vec![5usize, 6usize];
    let all = augmented_handles(&handles, 9);
    assert_eq!(all, vec![5, 6, 9]);
}
