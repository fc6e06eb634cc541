use framecap::clock::VirtualClock;
use framecap::pacing::TickBarrier;
use framecap::registry::HandleRegistry;
use framecap::capture::replacement_wait_semaphores;

use framecap::capture::{
    create_capture_channels, factory_create_decision, pack_frame, CaptureTarget, FactoryDecision,
    StagingInfo, IID_IDXGI_FACTORY, IID_IDXGI_FACTORY1, POOL_SIZE,
};

#[test]
fn pack_frame_drops_stride_and_fourth_channel() {
    // Two rows of two pixels, four channels each, rows padded to ten
    // bytes.
    let mapped = vec![
        1, 2, 3, 4, 5, 6, 7, 8, 0xAA, 0xAB, // row 0 + padding
        11, 12, 13, 14, 15, 16, 17, 18, // row 1 (no padding needed)
    ];
    let s = StagingInfo { width: 2, height: 2, row_pitch: 10 };
    let packed = pack_frame(&mapped, s);
    assert_eq!(packed, vec![1, 2, 3, 5, 6, 7, 11, 12, 13, 15, 16, 17]);
}

#[test]
fn present_without_encoder_skips_and_forwards() {
    let mut t = CaptureTarget::new(100, None);
    t.ensure_staging(StagingInfo { width: 1, height: 1, row_pitch: 4 });
    let mapped = vec![1, 2, 3, 4];
    let out = t.on_present(&mapped, 0x8876_0005);
    // The host sees exactly the native result; nothing was captured.
    assert_eq!(out.host_result, 0x8876_0005);
    assert!(!out.captured);
    assert_eq!(t.frame_count, 1);
}

#[test]
fn present_sends_packed_frame_through_pipeline() {
    let (duplex, worker, preloaded) = create_capture_channels();
    // A fresh pool with nothing contending accepts every buffer.
    assert_eq!(preloaded, POOL_SIZE);
    let mut t = CaptureTarget::new(0, Some(duplex));
    t.ensure_staging(StagingInfo { width: 1, height: 1, row_pitch: 4 });
    let mapped = vec![9, 8, 7, 6];
    let out = t.on_present(&mapped, 0);
    assert!(out.captured);
    let frame = worker.incoming.try_recv().unwrap().unwrap();
    assert_eq!(frame, vec![9, 8, 7]);
}

#[test]
fn empty_pool_drops_frames_not_presents() {
    let (duplex, _worker, _preloaded) = create_capture_channels();
    let mut t = CaptureTarget::new(0, Some(duplex));
    t.ensure_staging(StagingInfo { width: 1, height: 1, row_pitch: 4 });
    let mapped = vec![1, 2, 3, 4];
    // The pool holds a fixed number of buffers; with nobody recycling,
    // capture stops when it runs dry, but every present still succeeds.
    for i in 0..POOL_SIZE {
        let out = t.on_present(&mapped, i as u32);
        assert!(out.captured);
        assert_eq!(out.host_result, i as u32);
    }
    let out = t.on_present(&mapped, 0x5555);
    assert!(!out.captured);
    assert_eq!(out.host_result, 0x5555);
    assert_eq!(t.frame_count, POOL_SIZE as u64 + 1);
}

#[test]
fn staging_is_lazy_and_dropped_on_resize() {
    let mut t = CaptureTarget::new(0, None);
    assert!(t.staging.is_none());
    t.ensure_staging(StagingInfo { width: 4, height: 2, row_pitch: 16 });
    // A second allocation attempt leaves the first in place.
    t.ensure_staging(StagingInfo { width: 9, height: 9, row_pitch: 40 });
    let s = t.staging.as_ref().unwrap();
    assert_eq!((s.width, s.height, s.row_pitch), (4, 2, 16));
    t.on_resize();
    assert!(t.staging.is_none());
}

#[test]
fn throughput_reports_frames_and_elapsed() {
    let mut t = CaptureTarget::new(500, None);
    t.ensure_staging(StagingInfo { width: 1, height: 1, row_pitch: 4 });
    let mapped = vec![0, 0, 0, 0];
    t.on_present(&mapped, 0);
    t.on_present(&mapped, 0);
    assert_eq!(t.throughput(1500), (2, 1000));
}

#[test]
fn present_feeds_the_clock_one_tick() {
    let mut clock = VirtualClock::new(100, 65536, 1000);
    clock.incr_tick(); // the first capture event enables the clock
    let mut barrier = TickBarrier::new();
    let w = barrier.begin_wait();
    let mut t = CaptureTarget::new(0, None);
    t.ensure_staging(StagingInfo { width: 1, height: 1, row_pitch: 4 });
    let mapped = vec![1, 2, 3, 4];
    let out = t.present_and_tick(&mapped, 7, &mut clock, &mut barrier);
    assert_eq!(out.host_result, 7);
    assert_eq!(clock.tick, 1);
    // The reported time moved by exactly one tick's worth of counts,
    // and the waiter parked for this frame was released.
    assert_eq!(clock.query(0), 1000 + 100);
    assert!(barrier.waiters[w] < barrier.epoch);
}

#[test]
fn presented_surfaces_wait_on_their_copy_semaphores() {
    let mut semaphores = HandleRegistry::new();
    semaphores.record(0xA1, 0x51);
    semaphores.record(0xA2, 0x52);
    // The substituted list is each presented surface's copy semaphore,
    // in presentation order.
    let v = replacement_wait_semaphores(&semaphores, &vec![0xA2, 0xA1]);
    assert_eq!(v, Some(vec![0x52, 0x51]));
    // An unknown surface is a framework bug: nothing is substituted.
    assert_eq!(replacement_wait_semaphores(&semaphores, &vec![0xA1, 0xB0]), None);
    assert_eq!(replacement_wait_semaphores(&semaphores, &Vec::new()), Some(Vec::new()));
}

#[test]
fn factory_creation_wraps_known_interfaces_only() {
    assert!(factory_create_decision(IID_IDXGI_FACTORY) == FactoryDecision::Wrap);
    assert!(factory_create_decision(IID_IDXGI_FACTORY1) == FactoryDecision::Wrap);
    assert!(factory_create_decision(0x1234) == FactoryDecision::Reject);
}
