//! The synthetic audio client.
//!
//! The shim substitutes its own render endpoint for the system's: an
//! audio client that accepts exactly one PCM format (stereo, 48 kHz,
//! 32-bit float samples) and rejects every other with the native
//! unsupported-format error, so the host adapts to the format the
//! encoder wants.  Delivered buffers are snapshotted into the encode
//! pipeline, and the client's reported fill level is computed from
//! virtual elapsed time so the host's buffering logic keeps working
//! without a real audio clock.

use vstd::prelude::*;
use crate::capture::EncodeDuplex;

verus! {

/// Success.
pub const S_OK: u32 = 0;

/// Benign failure: the call was a no-op.
pub const S_FALSE: u32 = 1;

/// A required pointer argument was null.
pub const E_POINTER: u32 = 0x8000_4003;

/// The requested interface is not offered.
pub const E_NOINTERFACE: u32 = 0x8000_4002;

/// The audio client has not been initialized.
pub const AUDCLNT_E_NOT_INITIALIZED: u32 = 0x8889_0001;

/// The audio client is already initialized.
pub const AUDCLNT_E_ALREADY_INITIALIZED: u32 = 0x8889_0002;

/// The client is started and must be stopped first.
pub const AUDCLNT_E_NOT_STOPPED: u32 = 0x8889_0005;

/// More frames were requested than the buffer holds.
pub const AUDCLNT_E_BUFFER_TOO_LARGE: u32 = 0x8889_0006;

/// Buffer operations were issued in the wrong order.
pub const AUDCLNT_E_OUT_OF_ORDER: u32 = 0x8889_0007;

/// The endpoint does not support the requested format.
pub const AUDCLNT_E_UNSUPPORTED_FORMAT: u32 = 0x8889_0008;

/// More frames were released than had been requested.
pub const AUDCLNT_E_INVALID_SIZE: u32 = 0x8889_0009;

/// Exclusive-mode streams are not allowed on this endpoint.
pub const AUDCLNT_E_EXCLUSIVE_MODE_NOT_ALLOWED: u32 = 0x8889_000E;

/// An event handle was set on a non-event-driven stream.
pub const AUDCLNT_E_EVENTHANDLE_NOT_EXPECTED: u32 = 0x8889_0011;

/// An event-driven stream was started before its handle was set.
pub const AUDCLNT_E_EVENTHANDLE_NOT_SET: u32 = 0x8889_0014;

/// The shared stream mode, the only one the endpoint accepts.
pub const SHARE_MODE_SHARED: u32 = 0;

/// Stream flag requesting event-driven buffering.
pub const STREAMFLAGS_EVENTCALLBACK: u32 = 0x4_0000;

/// Buffer flag marking a delivered buffer as silence.
pub const BUFFERFLAGS_SILENT: u32 = 0x2;

/// Format tag of an extensible wave format description.
pub const FORMAT_TAG_EXTENSIBLE: u16 = 0xFFFE;

/// Subformat identifier of IEEE-float samples.
pub const SUBFORMAT_IEEE_FLOAT: u128 = 0x7197_9b38_00aa_0080_1000_0000_0300_0000;

/// Sample rate of the one accepted format, in frames per second.
pub const SAMPLE_RATE: u32 = 48000;

/// Channels of the one accepted format.
pub const CHANNELS: u32 = 2;

/// Bytes of one sample of the one accepted format.
pub const BYTES_PER_SAMPLE: u32 = 4;

/// Bytes of one frame (one sample on every channel).
pub const BYTES_PER_FRAME: u32 = 8;

/// Hundred-nanosecond units per second, the unit of buffer durations.
pub const HNS_PER_SECOND: i64 = 10_000_000;

/// An extensible PCM wave format, carried as plain values.
#[derive(Clone, Copy, Debug, PartialEq, Eq, Structural)]
pub struct PcmFormat {
    pub format_tag: u16,
    pub channels: u16,
    pub samples_per_sec: u32,
    pub avg_bytes_per_sec: u32,
    pub block_align: u16,
    pub bits_per_sample: u16,
    pub cb_size: u16,
    pub valid_bits: u16,
    pub channel_mask: u32,
    pub subformat: u128,
}

/// The one format the synthetic endpoint plays: stereo, 48 kHz, 32-bit
/// IEEE-float samples, described extensibly.
pub open spec fn canonical_format() -> PcmFormat {
    PcmFormat {
        format_tag: FORMAT_TAG_EXTENSIBLE,
        channels: 2,
        samples_per_sec: 48000,
        avg_bytes_per_sec: 384000,
        block_align: 8,
        bits_per_sample: 32,
        cb_size: 22,
        valid_bits: 32,
        channel_mask: 0b11,
        subformat: SUBFORMAT_IEEE_FLOAT,
    }
}

/// Build the canonical format value.
pub fn make_canonical_format() -> (f: PcmFormat)
    ensures
        f == canonical_format(),
{
    PcmFormat {
        format_tag: FORMAT_TAG_EXTENSIBLE,
        channels: 2,
        samples_per_sec: 48000,
        avg_bytes_per_sec: 384000,
        block_align: 8,
        bits_per_sample: 32,
        cb_size: 22,
        valid_bits: 32,
        channel_mask: 0b11,
        subformat: SUBFORMAT_IEEE_FLOAT,
    }
}

/// State a client reaches once `initialize` succeeds.
pub struct InitializedState {
    /// Buffer length, in frames.
    pub buffer_size: u32,
    /// Whether the stream is event driven.
    pub event_mode: bool,
    /// The host's buffer-ready event, once set.
    pub event_handle: Option<usize>,
    /// Frames delivered so far.
    pub frame_counter: u64,
    /// Virtual time at which the stream started, while running.
    pub started_at: Option<i64>,
}

/// The synthetic audio client: idle until initialized, then a running
/// or stopped stream of the canonical format.
pub struct AudioClient {
    pub init: Option<InitializedState>,
}

/// Frames worth of audio in a buffer duration, rounded to nearest.
pub open spec fn frames_of_duration(hns: int) -> int {
    (hns * SAMPLE_RATE + HNS_PER_SECOND / 2) / (HNS_PER_SECOND as int)
}

/// The synthetic fill level: delivered frames minus the frames virtual
/// time says have been consumed since the stream started, clamped to
/// the buffer.
pub open spec fn padding_spec(count: u64, dt: int, freq: int, buffer_size: u32) -> int {
    let consumed = (dt * SAMPLE_RATE + freq / 2) / freq;
    let p = count - consumed;
    if p < 0 {
        0
    } else if p > buffer_size {
        buffer_size as int
    } else {
        p
    }
}

impl AudioClient {
    /// A fresh, uninitialized client.
    pub fn new() -> (c: Self)
        ensures
            c.init is None,
    {
        AudioClient { init: None }
    }

    /// Negotiate and set up the stream, accepting only a shared-mode
    /// stream of exactly the canonical format.
    ///
    /// Errors reproduce the native protocol: re-initialization,
    /// exclusive mode, a null format, and any format other than the
    /// canonical one are each rejected with their native code, in that
    /// order of precedence.
    pub fn initialize(
        &mut self,
        share_mode: u32,
        stream_flags: u32,
        hns_buffer_duration: i64,
        format: Option<&PcmFormat>,
    ) -> (r: Result<(), u32>)
        requires
            0 <= hns_buffer_duration,
            frames_of_duration(hns_buffer_duration as int) < 0x1_0000_0000,
            hns_buffer_duration * SAMPLE_RATE + HNS_PER_SECOND / 2 <= i64::MAX,
        ensures
            old(self).init is Some ==> r == Err::<(), u32>(AUDCLNT_E_ALREADY_INITIALIZED)
                && *final(self) == *old(self),
            old(self).init is None && share_mode != SHARE_MODE_SHARED ==> r == Err::<(), u32>(
                AUDCLNT_E_EXCLUSIVE_MODE_NOT_ALLOWED,
            ) && *final(self) == *old(self),
            old(self).init is None && share_mode == SHARE_MODE_SHARED && format is None ==> r
                == Err::<(), u32>(E_POINTER) && *final(self) == *old(self),
            old(self).init is None && share_mode == SHARE_MODE_SHARED ==> (format matches Some(f)
                ==> {
                &&& *f != canonical_format() ==> r == Err::<(), u32>(
                    AUDCLNT_E_UNSUPPORTED_FORMAT,
                ) && *final(self) == *old(self)
                &&& *f == canonical_format() ==> {
                    &&& r == Ok::<(), u32>(())
                    &&& final(self).init == Some(
                        InitializedState {
                            buffer_size: frames_of_duration(hns_buffer_duration as int) as u32,
                            event_mode: stream_flags & STREAMFLAGS_EVENTCALLBACK != 0,
                            event_handle: None,
                            frame_counter: 0,
                            started_at: None,
                        },
                    )
                }
            }),
    {
        if self.init.is_some() {
            return Err(AUDCLNT_E_ALREADY_INITIALIZED);
        }
        if share_mode != SHARE_MODE_SHARED {
            return Err(AUDCLNT_E_EXCLUSIVE_MODE_NOT_ALLOWED);
        }
        let f = match format {
            None => {
                return Err(E_POINTER);
            }
            Some(f) => f,
        };
        let canonical = make_canonical_format();
        if !(f.format_tag == canonical.format_tag && f.channels == canonical.channels
            && f.samples_per_sec == canonical.samples_per_sec
            && f.avg_bytes_per_sec == canonical.avg_bytes_per_sec
            && f.block_align == canonical.block_align
            && f.bits_per_sample == canonical.bits_per_sample && f.cb_size == canonical.cb_size
            && f.valid_bits == canonical.valid_bits && f.channel_mask == canonical.channel_mask
            && f.subformat == canonical.subformat) {
            return Err(AUDCLNT_E_UNSUPPORTED_FORMAT);
        }
        let buffer_size = ((hns_buffer_duration * (SAMPLE_RATE as i64) + HNS_PER_SECOND / 2)
            / HNS_PER_SECOND) as u32;
        let event_mode = stream_flags & STREAMFLAGS_EVENTCALLBACK != 0;
        self.init = Some(
            InitializedState {
                buffer_size,
                event_mode,
                event_handle: None,
                frame_counter: 0,
                started_at: None,
            },
        );
        Ok(())
    }

    /// The stream's buffer length in frames.
    pub fn get_buffer_size(&self) -> (r: Result<u32, u32>)
        ensures
            self.init is None ==> r == Err::<u32, u32>(AUDCLNT_E_NOT_INITIALIZED),
            self.init matches Some(st) ==> r == Ok::<u32, u32>(st.buffer_size),
    {
        match &self.init {
            None => Err(AUDCLNT_E_NOT_INITIALIZED),
            Some(st) => Ok(st.buffer_size),
        }
    }

    /// The stream's latency: the synthetic endpoint has none.
    pub fn get_stream_latency(&self) -> (r: Result<i64, u32>)
        ensures
            self.init is None ==> r == Err::<i64, u32>(AUDCLNT_E_NOT_INITIALIZED),
            self.init is Some ==> r == Ok::<i64, u32>(0),
    {
        match &self.init {
            None => Err(AUDCLNT_E_NOT_INITIALIZED),
            Some(_) => Ok(0),
        }
    }

    /// The synthetic fill level, computed from virtual elapsed time:
    /// frames delivered minus frames consumed at the nominal rate since
    /// the stream started, clamped to the buffer.  A stopped stream
    /// reports a full buffer.
    pub fn get_current_padding(&self, virtual_now: i64, freq: i64) -> (r: Result<u32, u32>)
        requires
            0 < freq,
            self.init matches Some(st) ==> (st.started_at matches Some(t0) ==> t0 <= virtual_now
                && virtual_now - t0 <= 0x4000_0000_0000_0000),
        ensures
            self.init is None ==> r == Err::<u32, u32>(AUDCLNT_E_NOT_INITIALIZED),
            self.init matches Some(st) ==> {
                &&& st.started_at is None ==> r == Ok::<u32, u32>(st.buffer_size)
                &&& st.started_at matches Some(t0) ==> r == Ok::<u32, u32>(
                    padding_spec(st.frame_counter, virtual_now - t0, freq as int, st.buffer_size)
                        as u32,
                )
            },
    {
        let st = match &self.init {
            None => {
                return Err(AUDCLNT_E_NOT_INITIALIZED);
            }
            Some(st) => st,
        };
        match st.started_at {
            None => Ok(st.buffer_size),
            Some(t0) => {
                let dt = virtual_now - t0;
                let consumed: i128 = ((dt as i128) * (SAMPLE_RATE as i128) + (freq as i128) / 2)
                    / (freq as i128);
                let p: i128 = (st.frame_counter as i128) - consumed;
                let pad: u32 = if p < 0 {
                    0
                } else if p > (st.buffer_size as i128) {
                    st.buffer_size
                } else {
                    p as u32
                };
                Ok(pad)
            }
        }
    }

    /// Report whether a format would be accepted, without touching the
    /// stream: shared mode and the canonical format, nothing else.
    pub fn is_format_supported(&self, share_mode: u32, format: Option<&PcmFormat>) -> (r: u32)
        ensures
            share_mode != SHARE_MODE_SHARED ==> r == AUDCLNT_E_UNSUPPORTED_FORMAT,
            share_mode == SHARE_MODE_SHARED && format is None ==> r == E_POINTER,
            share_mode == SHARE_MODE_SHARED ==> (format matches Some(f) ==> r == (if *f
                == canonical_format() {
                S_OK
            } else {
                AUDCLNT_E_UNSUPPORTED_FORMAT
            })),
    {
        if share_mode != SHARE_MODE_SHARED {
            return AUDCLNT_E_UNSUPPORTED_FORMAT;
        }
        let f = match format {
            None => {
                return E_POINTER;
            }
            Some(f) => f,
        };
        let canonical = make_canonical_format();
        if f.format_tag == canonical.format_tag && f.channels == canonical.channels
            && f.samples_per_sec == canonical.samples_per_sec
            && f.avg_bytes_per_sec == canonical.avg_bytes_per_sec
            && f.block_align == canonical.block_align
            && f.bits_per_sample == canonical.bits_per_sample && f.cb_size == canonical.cb_size
            && f.valid_bits == canonical.valid_bits && f.channel_mask == canonical.channel_mask
            && f.subformat == canonical.subformat {
            S_OK
        } else {
            AUDCLNT_E_UNSUPPORTED_FORMAT
        }
    }

    /// The mix format the endpoint advertises: always the canonical one.
    pub fn get_mix_format(&self) -> (f: PcmFormat)
        ensures
            f == canonical_format(),
    {
        make_canonical_format()
    }

    /// The advertised device periods, in hundred-nanosecond units:
    /// default and minimum.
    pub fn get_device_period(&self) -> (r: (i64, i64))
        ensures
            r == (100000i64, 30000i64),
    {
        (100000, 30000)
    }

    /// Start the stream at the given virtual time.
    pub fn start(&mut self, virtual_now: i64) -> (r: Result<(), u32>)
        ensures
            old(self).init is None ==> r == Err::<(), u32>(AUDCLNT_E_NOT_INITIALIZED)
                && *final(self) == *old(self),
            old(self).init matches Some(st) ==> {
                &&& st.started_at is Some ==> r == Err::<(), u32>(AUDCLNT_E_NOT_STOPPED)
                    && *final(self) == *old(self)
                &&& st.started_at is None && st.event_mode && st.event_handle is None ==> r
                    == Err::<(), u32>(AUDCLNT_E_EVENTHANDLE_NOT_SET) && *final(self) == *old(self)
                &&& st.started_at is None && (!st.event_mode || st.event_handle is Some) ==> {
                    &&& r == Ok::<(), u32>(())
                    &&& final(self).init == Some(
                        InitializedState { started_at: Some(virtual_now), ..st },
                    )
                }
            },
    {
        let st = match &self.init {
            None => {
                return Err(AUDCLNT_E_NOT_INITIALIZED);
            }
            Some(st) => st,
        };
        if st.started_at.is_some() {
            return Err(AUDCLNT_E_NOT_STOPPED);
        }
        if st.event_mode && st.event_handle.is_none() {
            return Err(AUDCLNT_E_EVENTHANDLE_NOT_SET);
        }
        self.init = Some(
            InitializedState {
                buffer_size: st.buffer_size,
                event_mode: st.event_mode,
                event_handle: st.event_handle,
                frame_counter: st.frame_counter,
                started_at: Some(virtual_now),
            },
        );
        Ok(())
    }

    /// Stop a running stream; stopping a stopped stream is the benign
    /// failure.
    pub fn stop(&mut self) -> (r: Result<(), u32>)
        ensures
            old(self).init is None ==> r == Err::<(), u32>(AUDCLNT_E_NOT_INITIALIZED)
                && *final(self) == *old(self),
            old(self).init matches Some(st) ==> {
                &&& st.started_at is None ==> r == Err::<(), u32>(S_FALSE) && *final(self)
                    == *old(self)
                &&& st.started_at is Some ==> {
                    &&& r == Ok::<(), u32>(())
                    &&& final(self).init == Some(InitializedState { started_at: None, ..st })
                }
            },
    {
        let st = match &self.init {
            None => {
                return Err(AUDCLNT_E_NOT_INITIALIZED);
            }
            Some(st) => st,
        };
        if st.started_at.is_none() {
            return Err(S_FALSE);
        }
        self.init = Some(
            InitializedState {
                buffer_size: st.buffer_size,
                event_mode: st.event_mode,
                event_handle: st.event_handle,
                frame_counter: st.frame_counter,
                started_at: None,
            },
        );
        Ok(())
    }

    /// Reset is accepted on any initialized stream and changes nothing
    /// the host can observe here.
    pub fn reset(&self) -> (r: Result<(), u32>)
        ensures
            self.init is None ==> r == Err::<(), u32>(AUDCLNT_E_NOT_INITIALIZED),
            self.init is Some ==> r == Ok::<(), u32>(()),
    {
        match &self.init {
            None => Err(AUDCLNT_E_NOT_INITIALIZED),
            Some(_) => Ok(()),
        }
    }

    /// Hand out the stream's render service: the only interface the
    /// synthetic client offers.  The render client shares the stream's
    /// buffer length and owns the encode handoff.
    pub fn get_service(&self, iid: u128, pipeline: Option<EncodeDuplex>) -> (r: Result<
        RenderClient,
        u32,
    >)
        ensures
            self.init is None ==> r is Err && r->Err_0 == AUDCLNT_E_NOT_INITIALIZED,
            self.init matches Some(st) ==> {
                &&& iid == crate::devices::IID_IAUDIO_RENDER_CLIENT ==> (r matches Ok(rc) && {
                    &&& rc.buffer_size == st.buffer_size
                    &&& !rc.requested
                    &&& rc.frame_req == 0
                    &&& rc.frame_counter == 0
                    &&& rc.pipeline is Some <==> pipeline is Some
                })
                &&& iid != crate::devices::IID_IAUDIO_RENDER_CLIENT ==> r is Err && r->Err_0
                    == E_NOINTERFACE
            },
    {
        let st = match &self.init {
            None => {
                return Err(AUDCLNT_E_NOT_INITIALIZED);
            }
            Some(st) => st,
        };
        if iid == crate::devices::IID_IAUDIO_RENDER_CLIENT {
            Ok(RenderClient::new(st.buffer_size, pipeline))
        } else {
            Err(E_NOINTERFACE)
        }
    }

    /// Attach the host's buffer-ready event to an event-driven stream.
    pub fn set_event_handle(&mut self, handle: usize) -> (r: Result<(), u32>)
        requires
            old(self).init matches Some(st) ==> !(st.event_mode && st.event_handle is Some),
        ensures
            old(self).init is None ==> r == Err::<(), u32>(AUDCLNT_E_NOT_INITIALIZED)
                && *final(self) == *old(self),
            old(self).init matches Some(st) ==> {
                &&& !st.event_mode ==> r == Err::<(), u32>(AUDCLNT_E_EVENTHANDLE_NOT_EXPECTED)
                    && *final(self) == *old(self)
                &&& st.event_mode ==> {
                    &&& r == Ok::<(), u32>(())
                    &&& final(self).init == Some(
                        InitializedState { event_handle: Some(handle), ..st },
                    )
                }
            },
    {
        let st = match &self.init {
            None => {
                return Err(AUDCLNT_E_NOT_INITIALIZED);
            }
            Some(st) => st,
        };
        if !st.event_mode {
            return Err(AUDCLNT_E_EVENTHANDLE_NOT_EXPECTED);
        }
        self.init = Some(
            InitializedState {
                buffer_size: st.buffer_size,
                event_mode: st.event_mode,
                event_handle: Some(handle),
                frame_counter: st.frame_counter,
                started_at: st.started_at,
            },
        );
        Ok(())
    }
}

/// Zero-fill or copy one delivered buffer: the snapshot the encode
/// pipeline receives.  A silent buffer becomes explicit zero samples;
/// otherwise the delivered bytes are taken verbatim.
pub fn snapshot_buffer(data: &Vec<u8>, frames: u32, muted: bool) -> (r: Vec<u8>)
    requires
        frames * BYTES_PER_FRAME <= data@.len(),
    ensures
        r@.len() == frames * BYTES_PER_FRAME,
        muted ==> forall|i: int| 0 <= i < r@.len() ==> r@[i] == 0u8,
        !muted ==> r@ == data@.take((frames * BYTES_PER_FRAME) as int),
{
    let data_len = data.len();
    proof {
        assert(frames * BYTES_PER_FRAME <= data_len);
    }
    let total = frames as usize * BYTES_PER_FRAME as usize;
    let mut r: Vec<u8> = Vec::new();
    let mut i: usize = 0;
    while i < total
        invariant
            total == frames * BYTES_PER_FRAME,
            total <= data@.len(),
            i <= total,
            r@.len() == i,
            muted ==> forall|j: int| 0 <= j < i ==> r@[j] == 0u8,
            !muted ==> r@ == data@.take(i as int),
        decreases total - i,
    {
        if muted {
            r.push(0);
        } else {
            let b = data[i];
            r.push(b);
            proof {
                assert(r@ =~= data@.take(i + 1));
            }
        }
        i = i + 1;
    }
    r
}

/// The render half of the synthetic client: the host borrows its buffer,
/// fills it, and releases it; every released buffer is snapshotted into
/// the encode pipeline.
pub struct RenderClient {
    /// Buffer capacity, in frames.
    pub buffer_size: u32,
    /// A buffer is currently lent to the host.
    pub requested: bool,
    /// Frames of the outstanding request.
    pub frame_req: u32,
    /// Frames delivered over the client's lifetime.
    pub frame_counter: u64,
    /// The encode handoff, absent when no encoder is configured.
    pub pipeline: Option<EncodeDuplex>,
}

impl RenderClient {
    /// A fresh render client over a buffer of `buffer_size` frames.
    pub fn new(buffer_size: u32, pipeline: Option<EncodeDuplex>) -> (c: Self)
        ensures
            c.buffer_size == buffer_size,
            !c.requested,
            c.frame_req == 0,
            c.frame_counter == 0,
            c.pipeline is Some <==> pipeline is Some,
    {
        let r = RenderClient {
            buffer_size,
            requested: false,
            frame_req: 0,
            frame_counter: 0,
            pipeline,
        };
        r
    }

    /// Lend the host room for `frames_req` frames.
    ///
    /// A zero-frame request is the benign no-op; a second request before
    /// release is out of order; a request beyond the buffer is too
    /// large.
    pub fn get_buffer(&mut self, frames_req: u32) -> (r: Result<(), u32>)
        ensures
            frames_req == 0 ==> r == Err::<(), u32>(S_OK) && *final(self) == *old(self),
            frames_req != 0 && old(self).requested ==> r == Err::<(), u32>(
                AUDCLNT_E_OUT_OF_ORDER,
            ) && *final(self) == *old(self),
            frames_req != 0 && !old(self).requested && frames_req > old(self).buffer_size ==> r
                == Err::<(), u32>(AUDCLNT_E_BUFFER_TOO_LARGE) && *final(self) == *old(self),
            frames_req != 0 && !old(self).requested && frames_req <= old(self).buffer_size ==> {
                &&& r == Ok::<(), u32>(())
                &&& *final(self) == (RenderClient {
                    requested: true,
                    frame_req: frames_req,
                    ..*old(self)
                })
            },
    {
        if frames_req == 0 {
            return Err(S_OK);
        }
        if self.requested {
            return Err(AUDCLNT_E_OUT_OF_ORDER);
        }
        if frames_req > self.buffer_size {
            return Err(AUDCLNT_E_BUFFER_TOO_LARGE);
        }
        self.requested = true;
        self.frame_req = frames_req;
        Ok(())
    }

    /// Take back a filled buffer and snapshot it into the pipeline.
    ///
    /// `data` is the lent buffer's contents; a silent release is
    /// honored by snapshotting zeros.  Releasing without a request is
    /// out of order, and releasing more frames than requested is an
    /// invalid size.  The delivered frames advance the client's frame
    /// counter whatever the pipeline does with the snapshot.
    pub fn release_buffer(&mut self, data: &Vec<u8>, written: u32, flags: u32) -> (r: Result<
        (),
        u32,
    >)
        requires
            old(self).frame_req * BYTES_PER_FRAME <= data@.len(),
            old(self).frame_counter + old(self).frame_req <= u64::MAX,
        ensures
            written == 0 ==> r == Err::<(), u32>(S_OK) && *final(self) == *old(self),
            written != 0 && !old(self).requested ==> r == Err::<(), u32>(AUDCLNT_E_OUT_OF_ORDER)
                && *final(self) == *old(self),
            written != 0 && old(self).requested && written > old(self).frame_req ==> r == Err::<
                (),
                u32,
            >(AUDCLNT_E_INVALID_SIZE) && *final(self) == *old(self),
            written != 0 && old(self).requested && written <= old(self).frame_req ==> {
                &&& r == Ok::<(), u32>(())
                &&& *final(self) == (RenderClient {
                    requested: false,
                    frame_req: 0,
                    frame_counter: (old(self).frame_counter + old(self).frame_req) as u64,
                    ..*old(self)
                })
            },
    {
        if written == 0 {
            return Err(S_OK);
        }
        if !self.requested {
            return Err(AUDCLNT_E_OUT_OF_ORDER);
        }
        if written > self.frame_req {
            return Err(AUDCLNT_E_INVALID_SIZE);
        }
        let muted = flags & BUFFERFLAGS_SILENT != 0;
        let frames = self.frame_req;
        match &self.pipeline {
            None => {}
            Some(duplex) => {
                match crate::capture::try_take_buffer(&duplex.reclaim) {
                    None => {}
                    Some(_drained) => {
                        let snap = snapshot_buffer(data, frames, muted);
                        crate::capture::try_send_buffer(&duplex.submit, snap);
                    }
                }
            }
        }
        self.frame_counter = self.frame_counter + frames as u64;
        self.frame_req = 0;
        self.requested = false;
        Ok(())
    }
}

} // verus!
