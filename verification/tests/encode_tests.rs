use framecap::encode::{
    substitute_placeholder, u32_decimal, AudioPipeline, BlockAccum, CloseAction, PipelinePhase,
    VideoPipeline, AUDIO_BLOCK_BYTES, AUDIO_BLOCK_FRAMES,
};

#[test]
fn video_pipeline_counts_frames_and_keeps_rate() {
    let mut p = VideoPipeline::new(60, 1);
    assert!(p.needs_open());
    p.on_open_result(true);
    assert!(!p.needs_open());
    // Five frames at the configured rate: consecutive stamps, count
    // five, rate untouched.
    for i in 0..5 {
        assert_eq!(p.on_frame(), i);
    }
    assert_eq!(p.frames_sent, 5);
    assert_eq!((p.rate_num, p.rate_den), (60, 1));
    assert!(p.on_close() == CloseAction::FlushAndTrailer);
    assert!(p.phase == PipelinePhase::Closed);
}

#[test]
fn empty_completion_is_valid_and_writes_nothing() {
    let mut p = VideoPipeline::new(30, 1);
    p.on_open_result(true);
    assert!(p.on_close() == CloseAction::Nothing);

    let mut failed = VideoPipeline::new(30, 1);
    failed.on_open_result(false);
    assert!(failed.phase == PipelinePhase::Failed);
    assert!(failed.on_close() == CloseAction::Nothing);
}

#[test]
fn audio_pipeline_cuts_codec_blocks() {
    let mut p = AudioPipeline::new();
    p.on_open_result(true);
    let small = vec![7u8; 100];
    // Less than a block: everything stays queued.
    let blocks = p.on_buffer(&small);
    assert!(blocks.is_empty());
    assert_eq!(p.samples_sent, 0);

    // Enough for one full block plus a remainder.
    let mut big = vec![0u8; AUDIO_BLOCK_BYTES];
    for (i, b) in big.iter_mut().enumerate() {
        *b = (i % 251) as u8;
    }
    let blocks = p.on_buffer(&big);
    assert_eq!(blocks.len(), 1);
    assert_eq!(blocks[0].len(), AUDIO_BLOCK_BYTES);
    // The block starts with the queued remainder of the first buffer.
    assert_eq!(&blocks[0][0..100], &[7u8; 100][..]);
    assert_eq!(blocks[0][100], 0);
    assert_eq!(blocks[0][101], 1);
    assert_eq!(p.samples_sent, AUDIO_BLOCK_FRAMES as u64);

    // The 100 bytes that did not fit go out at close, zero-padded to
    // one whole codec block, and the stream is sealed.
    let (last, action) = p.on_close();
    assert_eq!(last.len(), AUDIO_BLOCK_BYTES);
    assert_eq!(&last[0..4], &big[AUDIO_BLOCK_BYTES - 100..AUDIO_BLOCK_BYTES - 96]);
    assert!(last[100..].iter().all(|&b| b == 0));
    assert!(action == CloseAction::FlushAndTrailer);
    assert_eq!(p.samples_sent, AUDIO_BLOCK_FRAMES as u64 + 100 / 8);
}

#[test]
fn audio_pipeline_empty_run_closes_quietly() {
    // No buffer ever arrived: the resources never opened, nothing is
    // written, and the empty completion is valid.
    let mut p = AudioPipeline::new();
    let (rest, action) = p.on_close();
    assert!(rest.is_empty());
    assert!(action == CloseAction::Nothing);

    // A failed open also writes nothing and discards what was queued.
    let mut failed = AudioPipeline::new();
    failed.on_open_result(false);
    let (rest, action) = failed.on_close();
    assert!(rest.is_empty());
    assert!(action == CloseAction::Nothing);
}

#[test]
fn audio_pipeline_seals_even_a_short_run() {
    // One small buffer arrived and the resources opened: the trailer
    // is still written, around one zero-padded block.
    let mut p = AudioPipeline::new();
    p.on_open_result(true);
    let blocks = p.on_buffer(&vec![9u8; 16]);
    assert!(blocks.is_empty());
    let (last, action) = p.on_close();
    assert!(action == CloseAction::FlushAndTrailer);
    assert_eq!(last.len(), AUDIO_BLOCK_BYTES);
    assert_eq!(&last[0..16], &[9u8; 16][..]);
    assert!(last[16..].iter().all(|&b| b == 0));
    assert_eq!(p.samples_sent, 2);
}

#[test]
fn block_accumulator_streams_in_order() {
    let mut a = BlockAccum::new();
    assert_eq!(a.len(), 0);
    assert!(a.take_block().is_none());
    let data = vec![1u8; AUDIO_BLOCK_BYTES + 5];
    a.push(&data);
    let block = a.take_block().unwrap();
    assert_eq!(block.len(), AUDIO_BLOCK_BYTES);
    assert_eq!(a.len(), 5);
    let rest = a.take_rest();
    assert_eq!(rest, vec![1u8; 5]);
    assert_eq!(a.len(), 0);
}

#[test]
fn decimal_rendering_is_exact() {
    assert_eq!(u32_decimal(0), b"0".to_vec());
    assert_eq!(u32_decimal(7), b"7".to_vec());
    assert_eq!(u32_decimal(1234), b"1234".to_vec());
    assert_eq!(u32_decimal(u32::MAX), b"4294967295".to_vec());
}

#[test]
fn output_names_substitute_stream_index() {
    let template = b"capture{n}.mkv".to_vec();
    let named = substitute_placeholder(&template, b'n', &u32_decimal(0));
    assert_eq!(named, b"capture0.mkv".to_vec());
    let named = substitute_placeholder(&template, b'n', &u32_decimal(12));
    assert_eq!(named, b"capture12.mkv".to_vec());
    // Every occurrence is replaced; other placeholders are untouched.
    let both = b"{p}-{n}-{n}".to_vec();
    let named = substitute_placeholder(&both, b'n', &b"3".to_vec());
    assert_eq!(named, b"{p}-3-3".to_vec());
    let named = substitute_placeholder(&named, b'p', &b"host.exe".to_vec());
    assert_eq!(named, b"host.exe-3-3".to_vec());
    // A template without the placeholder is returned as it is.
    let plain = b"plain.mkv".to_vec();
    assert_eq!(substitute_placeholder(&plain, b'n', &b"9".to_vec()), plain);
}
