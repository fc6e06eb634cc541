use framecap::audio::{
    make_canonical_format, snapshot_buffer, AudioClient, InitializedState, RenderClient,
    AUDCLNT_E_ALREADY_INITIALIZED, AUDCLNT_E_BUFFER_TOO_LARGE, AUDCLNT_E_EVENTHANDLE_NOT_EXPECTED,
    AUDCLNT_E_EVENTHANDLE_NOT_SET, AUDCLNT_E_EXCLUSIVE_MODE_NOT_ALLOWED, AUDCLNT_E_INVALID_SIZE,
    AUDCLNT_E_NOT_INITIALIZED, AUDCLNT_E_NOT_STOPPED, AUDCLNT_E_OUT_OF_ORDER,
    AUDCLNT_E_UNSUPPORTED_FORMAT, BUFFERFLAGS_SILENT, E_NOINTERFACE, E_POINTER, SHARE_MODE_SHARED,
    S_FALSE, S_OK, STREAMFLAGS_EVENTCALLBACK,
};
use framecap::capture::create_capture_channels;
use framecap::devices::IID_IAUDIO_RENDER_CLIENT;

const ONE_SECOND_HNS: i64 = 10_000_000;

#[test]
fn initialize_accepts_only_the_canonical_format() {
    let f = make_canonical_format();
    let mut c = AudioClient::new();
    // Exclusive mode is refused.
    assert_eq!(c.initialize(1, 0, ONE_SECOND_HNS, Some(&f)), Err(AUDCLNT_E_EXCLUSIVE_MODE_NOT_ALLOWED));
    // A null format is refused.
    assert_eq!(c.initialize(SHARE_MODE_SHARED, 0, ONE_SECOND_HNS, None), Err(E_POINTER));
    // Any other format is refused with the native code, forcing the
    // host to adapt.
    let mut wrong = f;
    wrong.samples_per_sec = 44100;
    assert_eq!(
        c.initialize(SHARE_MODE_SHARED, 0, ONE_SECOND_HNS, Some(&wrong)),
        Err(AUDCLNT_E_UNSUPPORTED_FORMAT)
    );
    // The canonical format is accepted; one second is the sample rate
    // worth of frames.
    assert_eq!(c.initialize(SHARE_MODE_SHARED, 0, ONE_SECOND_HNS, Some(&f)), Ok(()));
    assert_eq!(c.get_buffer_size(), Ok(48000));
    // Re-initialization is refused.
    assert_eq!(
        c.initialize(SHARE_MODE_SHARED, 0, ONE_SECOND_HNS, Some(&f)),
        Err(AUDCLNT_E_ALREADY_INITIALIZED)
    );
}

#[test]
fn buffer_duration_rounds_to_nearest_frame() {
    let f = make_canonical_format();
    let mut c = AudioClient::new();
    // 100205 hns is 481.0 frames next to 481.48: rounds to 481.
    c.initialize(SHARE_MODE_SHARED, 0, 100_205, Some(&f)).unwrap();
    assert_eq!(c.get_buffer_size(), Ok(481));
}

#[test]
fn format_probe_matches_initialize() {
    let c = AudioClient::new();
    let f = make_canonical_format();
    assert_eq!(c.is_format_supported(SHARE_MODE_SHARED, Some(&f)), S_OK);
    assert_eq!(c.is_format_supported(1, Some(&f)), AUDCLNT_E_UNSUPPORTED_FORMAT);
    assert_eq!(c.is_format_supported(SHARE_MODE_SHARED, None), E_POINTER);
    let mut wrong = f;
    wrong.channels = 1;
    assert_eq!(c.is_format_supported(SHARE_MODE_SHARED, Some(&wrong)), AUDCLNT_E_UNSUPPORTED_FORMAT);
    // The advertised mix format is the canonical one.
    assert_eq!(c.get_mix_format(), f);
    assert_eq!(c.get_device_period(), (100000, 30000));
}

#[test]
fn start_stop_protocol() {
    let f = make_canonical_format();
    let mut c = AudioClient::new();
    assert_eq!(c.start(0), Err(AUDCLNT_E_NOT_INITIALIZED));
    assert_eq!(c.stop(), Err(AUDCLNT_E_NOT_INITIALIZED));
    assert_eq!(c.reset(), Err(AUDCLNT_E_NOT_INITIALIZED));
    c.initialize(SHARE_MODE_SHARED, 0, ONE_SECOND_HNS, Some(&f)).unwrap();
    assert_eq!(c.reset(), Ok(()));
    assert_eq!(c.stop(), Err(S_FALSE));
    assert_eq!(c.start(1000), Ok(()));
    assert_eq!(c.start(2000), Err(AUDCLNT_E_NOT_STOPPED));
    assert_eq!(c.stop(), Ok(()));
    assert_eq!(c.stop(), Err(S_FALSE));
}

#[test]
fn event_handle_protocol() {
    let f = make_canonical_format();
    let mut c = AudioClient::new();
    assert_eq!(c.set_event_handle(7), Err(AUDCLNT_E_NOT_INITIALIZED));
    c.initialize(SHARE_MODE_SHARED, STREAMFLAGS_EVENTCALLBACK, ONE_SECOND_HNS, Some(&f)).unwrap();
    // An event-driven stream cannot start before its handle is set.
    assert_eq!(c.start(0), Err(AUDCLNT_E_EVENTHANDLE_NOT_SET));
    assert_eq!(c.set_event_handle(7), Ok(()));
    assert_eq!(c.start(0), Ok(()));

    let mut plain = AudioClient::new();
    plain.initialize(SHARE_MODE_SHARED, 0, ONE_SECOND_HNS, Some(&f)).unwrap();
    assert_eq!(plain.set_event_handle(7), Err(AUDCLNT_E_EVENTHANDLE_NOT_EXPECTED));
}

#[test]
fn padding_follows_virtual_time() {
    // A stream that has delivered 48000 frames, started at virtual
    // time 0 with a 10 MHz counter.
    let c = AudioClient {
        init: Some(InitializedState {
            buffer_size: 48000,
            event_mode: false,
            event_handle: None,
            frame_counter: 48000,
            started_at: Some(0),
        }),
    };
    // Half a second elapsed: 24000 frames consumed.
    assert_eq!(c.get_current_padding(5_000_000, 10_000_000), Ok(24000));
    // No time elapsed: the whole delivery is still queued.
    assert_eq!(c.get_current_padding(0, 10_000_000), Ok(48000));
    // A stopped stream reports a full buffer.
    let stopped = AudioClient {
        init: Some(InitializedState {
            buffer_size: 480,
            event_mode: false,
            event_handle: None,
            frame_counter: 0,
            started_at: None,
        }),
    };
    assert_eq!(stopped.get_current_padding(0, 10_000_000), Ok(480));
    let idle = AudioClient::new();
    assert_eq!(idle.get_current_padding(0, 10_000_000), Err(AUDCLNT_E_NOT_INITIALIZED));
}

#[test]
fn padding_clamps_to_buffer() {
    let c = AudioClient {
        init: Some(InitializedState {
            buffer_size: 480,
            event_mode: false,
            event_handle: None,
            frame_counter: 100,
            started_at: Some(0),
        }),
    };
    // Far more consumed than delivered: clamped at zero.
    assert_eq!(c.get_current_padding(10_000_000, 10_000_000), Ok(0));
}

#[test]
fn service_lookup_offers_the_render_client() {
    let f = make_canonical_format();
    let idle = AudioClient::new();
    assert_eq!(idle.get_service(IID_IAUDIO_RENDER_CLIENT, None).err(), Some(AUDCLNT_E_NOT_INITIALIZED));
    let mut c = AudioClient::new();
    c.initialize(SHARE_MODE_SHARED, 0, ONE_SECOND_HNS, Some(&f)).unwrap();
    let rc = c.get_service(IID_IAUDIO_RENDER_CLIENT, None).unwrap();
    assert_eq!(rc.buffer_size, 48000);
    assert_eq!(c.get_service(0x1234, None).err(), Some(E_NOINTERFACE));
}

#[test]
fn render_client_borrow_release_protocol() {
    let mut rc = RenderClient::new(480, None);
    assert_eq!(rc.get_buffer(0), Err(S_OK));
    assert_eq!(rc.get_buffer(481), Err(AUDCLNT_E_BUFFER_TOO_LARGE));
    let data = vec![0u8; 480 * 8];
    assert_eq!(rc.release_buffer(&data, 10, 0), Err(AUDCLNT_E_OUT_OF_ORDER));
    assert_eq!(rc.get_buffer(100), Ok(()));
    assert_eq!(rc.get_buffer(10), Err(AUDCLNT_E_OUT_OF_ORDER));
    assert_eq!(rc.release_buffer(&data, 101, 0), Err(AUDCLNT_E_INVALID_SIZE));
    assert_eq!(rc.release_buffer(&data, 0, 0), Err(S_OK));
    assert_eq!(rc.release_buffer(&data, 100, 0), Ok(()));
    // The whole requested span counts as delivered.
    assert_eq!(rc.frame_counter, 100);
    assert!(!rc.requested);
}

#[test]
fn released_buffers_are_snapshotted_into_pipeline() {
    let (duplex, worker, _preloaded) = create_capture_channels();
    let mut rc = RenderClient::new(480, Some(duplex));
    let mut data = vec![0u8; 480 * 8];
    for (i, b) in data.iter_mut().enumerate() {
        *b = (i % 251) as u8;
    }
    rc.get_buffer(2).unwrap();
    rc.release_buffer(&data, 2, 0).unwrap();
    let snap = worker.incoming.try_recv().unwrap().unwrap();
    assert_eq!(snap, data[0..16].to_vec());
    // A silent release snapshots explicit zeros.
    rc.get_buffer(2).unwrap();
    rc.release_buffer(&data, 2, BUFFERFLAGS_SILENT).unwrap();
    let snap = worker.incoming.try_recv().unwrap().unwrap();
    assert_eq!(snap, vec![0u8; 16]);
}

#[test]
fn snapshot_copies_or_zeroes() {
    let data = vec![1, 2, 3, 4, 5, 6, 7, 8, 9, 10, 11, 12, 13, 14, 15, 16];
    assert_eq!(snapshot_buffer(&data, 1, false), vec![1, 2, 3, 4, 5, 6, 7, 8]);
    assert_eq!(snapshot_buffer(&data, 1, true), vec![0u8; 8]);
    assert_eq!(snapshot_buffer(&data, 2, false), data);
}
