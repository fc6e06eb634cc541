//! The encode pipeline.
//!
//! Each capture target feeds one worker that turns raw frames or sample
//! buffers into a media file through an opaque encoder.  The worker's
//! heavyweight state (container, codec, conversion) is opened lazily and
//! fallibly on the first buffer, so failure is deferred until data
//! exists; frames are stamped with consecutive presentation times;
//! audio bytes are accumulated into the codec's fixed block size through
//! a ring buffer; and closing the input flushes what remains and writes
//! the container trailer — a zero-frame run is a valid, empty
//! completion.

use vstd::prelude::*;

verus! {

/// Frames of one audio codec block: the codec's own frame size.
pub const AUDIO_BLOCK_FRAMES: usize = 4608;

/// Bytes of one audio codec block: stereo 32-bit float frames.
pub const AUDIO_BLOCK_BYTES: usize = 36864;

/// Bytes of one audio frame: one 32-bit float sample on each of two
/// channels.
pub const AUDIO_FRAME_BYTES: usize = 8;

/// Declares the expanding ring buffer so it can accumulate sample bytes
/// inside verified code.
#[verifier::external_type_specification]
#[verifier::external_body]
#[verifier::reject_recursive_types(T)]
pub struct ExExpSliceRB<T: Default + Clone + Copy>(expanding_slice_rb::ExpSliceRB<T>);

/// The bytes queued in a ring buffer, oldest first.
pub uninterp spec fn ring_view(r: expanding_slice_rb::ExpSliceRB<u8>) -> Seq<u8>;

/// Relies on ExpSliceRB::with_capacity: a new ring buffer holding
/// nothing.
#[verifier::external_body]
fn ring_new(cap: usize) -> (r: expanding_slice_rb::ExpSliceRB<u8>)
    requires
        0 < cap,
        cap <= 0x7FFF_FFFF,
    ensures
        ring_view(r) == Seq::<u8>::empty(),
{
    expanding_slice_rb::ExpSliceRB::with_capacity(core::num::NonZeroUsize::new(cap).unwrap())
}

/// Relies on ExpSliceRB::write: appends every byte of the slice, growing
/// the buffer as needed.
#[verifier::external_body]
fn ring_write(r: &mut expanding_slice_rb::ExpSliceRB<u8>, data: &Vec<u8>)
    ensures
        ring_view(*final(r)) == ring_view(*old(r)) + data@,
{
    r.write(data.as_slice());
}

/// Relies on ExpSliceRB::len: the number of queued bytes.
#[verifier::external_body]
fn ring_len(r: &expanding_slice_rb::ExpSliceRB<u8>) -> (n: usize)
    ensures
        n == ring_view(*r).len(),
{
    r.len()
}

/// Relies on ExpSliceRB::read_into: copies the oldest `n` queued bytes
/// out and removes them from the buffer.
#[verifier::external_body]
fn ring_read_block(r: &mut expanding_slice_rb::ExpSliceRB<u8>, n: usize) -> (out: Vec<u8>)
    requires
        n <= ring_view(*old(r)).len(),
    ensures
        out@ == ring_view(*old(r)).take(n as int),
        ring_view(*final(r)) == ring_view(*old(r)).skip(n as int),
{
    let mut out = vec![0u8; n];
    r.read_into(&mut out);
    out
}

/// Block `i` of a byte stream cut into blocks of `b` bytes.
pub open spec fn block_at(total: Seq<u8>, b: int, i: int) -> Seq<u8> {
    total.subrange(i * b, i * b + b)
}

/// Accumulates incoming sample bytes and hands them out again in the
/// codec's fixed block size.
pub struct BlockAccum {
    ring: expanding_slice_rb::ExpSliceRB<u8>,
}

impl BlockAccum {
    /// The bytes queued, oldest first.
    pub closed spec fn view_spec(self) -> Seq<u8> {
        ring_view(self.ring)
    }

    /// An empty accumulator.
    pub fn new() -> (a: Self)
        ensures
            a.view_spec() == Seq::<u8>::empty(),
    {
        BlockAccum { ring: ring_new(AUDIO_BLOCK_BYTES) }
    }

    /// Queued bytes.
    pub fn len(&self) -> (n: usize)
        ensures
            n == self.view_spec().len(),
    {
        ring_len(&self.ring)
    }

    /// Queue the bytes of one delivered buffer.
    pub fn push(&mut self, data: &Vec<u8>)
        ensures
            final(self).view_spec() == old(self).view_spec() + data@,
    {
        ring_write(&mut self.ring, data);
    }

    /// Take one full codec block if enough bytes are queued.
    pub fn take_block(&mut self) -> (r: Option<Vec<u8>>)
        ensures
            old(self).view_spec().len() >= AUDIO_BLOCK_BYTES ==> {
                &&& r matches Some(block) && block@ == old(self).view_spec().take(
                    AUDIO_BLOCK_BYTES as int,
                )
                &&& final(self).view_spec() == old(self).view_spec().skip(
                    AUDIO_BLOCK_BYTES as int,
                )
            },
            old(self).view_spec().len() < AUDIO_BLOCK_BYTES ==> r is None && *final(self)
                == *old(self),
    {
        if ring_len(&self.ring) >= AUDIO_BLOCK_BYTES {
            Some(ring_read_block(&mut self.ring, AUDIO_BLOCK_BYTES))
        } else {
            None
        }
    }

    /// Take whatever remains, for the closing flush.
    pub fn take_rest(&mut self) -> (r: Vec<u8>)
        ensures
            r@ == old(self).view_spec(),
            final(self).view_spec() == Seq::<u8>::empty(),
    {
        let n = ring_len(&self.ring);
        let out = ring_read_block(&mut self.ring, n);
        proof {
            assert(old(self).view_spec().take(n as int) =~= old(self).view_spec());
            assert(old(self).view_spec().skip(n as int) =~= Seq::<u8>::empty());
        }
        out
    }
}

/// Life of one encode worker's heavyweight state.
#[derive(Clone, Copy, PartialEq, Eq, Structural)]
pub enum PipelinePhase {
    /// Nothing opened yet: no buffer has arrived.
    Idle,
    /// Container, codec and conversion state are open.
    Ready,
    /// Opening failed; the worker exits early and writes nothing.
    Failed,
    /// The input closed and the worker is done.
    Closed,
}

/// What the worker must do to finish a stream.
#[derive(Clone, Copy, PartialEq, Eq, Structural)]
pub enum CloseAction {
    /// Flush the codec, signal end of stream, write the trailer.
    FlushAndTrailer,
    /// Nothing was ever encoded: no output file is assumed to exist.
    Nothing,
}

/// The video encode worker's decision state: the phase of its lazy
/// resources, how many frames it has stamped, and the configured frame
/// rate it will declare in the container.
pub struct VideoPipeline {
    pub phase: PipelinePhase,
    pub frames_sent: u64,
    pub rate_num: i32,
    pub rate_den: i32,
}

impl VideoPipeline {
    /// A worker for a stream of the given frame rate, before any buffer
    /// has arrived.
    pub fn new(rate_num: i32, rate_den: i32) -> (p: Self)
        ensures
            p.phase == PipelinePhase::Idle,
            p.frames_sent == 0,
            p.rate_num == rate_num,
            p.rate_den == rate_den,
    {
        VideoPipeline { phase: PipelinePhase::Idle, frames_sent: 0, rate_num, rate_den }
    }

    /// Whether the next buffer must first open the heavyweight state.
    pub fn needs_open(&self) -> (r: bool)
        ensures
            r == (self.phase == PipelinePhase::Idle),
    {
        match self.phase {
            PipelinePhase::Idle => true,
            _ => false,
        }
    }

    /// Record the outcome of the one lazy open attempt: it is made
    /// once, when the first buffer arrives, and its failure is final.
    pub fn on_open_result(&mut self, ok: bool)
        requires
            old(self).phase == PipelinePhase::Idle,
        ensures
            *final(self) == (VideoPipeline {
                phase: if ok {
                    PipelinePhase::Ready
                } else {
                    PipelinePhase::Failed
                },
                ..*old(self)
            }),
    {
        self.phase = if ok {
            PipelinePhase::Ready
        } else {
            PipelinePhase::Failed
        };
    }

    /// The state after one frame is stamped and sent.
    pub open spec fn frame_step(self) -> Self {
        VideoPipeline { frames_sent: (self.frames_sent + 1) as u64, ..self }
    }

    /// Stamp the next frame: its presentation time is the number of
    /// frames sent before it, so the stream's times are exactly
    /// consecutive.
    pub fn on_frame(&mut self) -> (pts: i64)
        requires
            old(self).phase == PipelinePhase::Ready,
            old(self).frames_sent < 0x7FFF_FFFF_FFFF_FFFF,
        ensures
            pts == old(self).frames_sent,
            *final(self) == old(self).frame_step(),
    {
        let pts = self.frames_sent as i64;
        self.frames_sent = self.frames_sent + 1;
        pts
    }

    /// Close the input: a stream that encoded at least one frame is
    /// flushed and sealed with the trailer; an empty or failed run
    /// finishes without assuming an output file exists.
    pub fn on_close(&mut self) -> (r: CloseAction)
        requires
            old(self).phase != PipelinePhase::Closed,
        ensures
            final(self).phase == PipelinePhase::Closed,
            final(self).frames_sent == old(self).frames_sent,
            final(self).rate_num == old(self).rate_num,
            final(self).rate_den == old(self).rate_den,
            r == if old(self).phase == PipelinePhase::Ready && old(self).frames_sent > 0 {
                CloseAction::FlushAndTrailer
            } else {
                CloseAction::Nothing
            },
    {
        let r = match self.phase {
            PipelinePhase::Ready => {
                if self.frames_sent > 0 {
                    CloseAction::FlushAndTrailer
                } else {
                    CloseAction::Nothing
                }
            }
            _ => CloseAction::Nothing,
        };
        self.phase = PipelinePhase::Closed;
        r
    }
}

/// The audio encode worker's decision state: the phase of its lazy
/// resources, the sample position of the next block, and the bytes
/// accumulated toward the next full block.
pub struct AudioPipeline {
    pub phase: PipelinePhase,
    pub samples_sent: u64,
    pub accum: BlockAccum,
}

impl AudioPipeline {
    /// The bytes waiting for a full block.
    pub open spec fn queued(self) -> Seq<u8> {
        self.accum.view_spec()
    }

    /// A worker before any buffer has arrived.
    pub fn new() -> (p: Self)
        ensures
            p.phase == PipelinePhase::Idle,
            p.samples_sent == 0,
            p.queued() == Seq::<u8>::empty(),
    {
        AudioPipeline { phase: PipelinePhase::Idle, samples_sent: 0, accum: BlockAccum::new() }
    }

    /// Whether the next buffer must first open the heavyweight state.
    pub fn needs_open(&self) -> (r: bool)
        ensures
            r == (self.phase == PipelinePhase::Idle),
    {
        match self.phase {
            PipelinePhase::Idle => true,
            _ => false,
        }
    }

    /// Record the outcome of the one lazy open attempt.
    pub fn on_open_result(&mut self, ok: bool)
        requires
            old(self).phase == PipelinePhase::Idle,
        ensures
            final(self).phase == if ok {
                PipelinePhase::Ready
            } else {
                PipelinePhase::Failed
            },
            final(self).samples_sent == old(self).samples_sent,
            final(self).queued() == old(self).queued(),
    {
        self.phase = if ok {
            PipelinePhase::Ready
        } else {
            PipelinePhase::Failed
        };
    }

    /// Consume one delivered buffer: its bytes join the accumulator,
    /// and every full codec block that can now be cut is handed back,
    /// in order, each advancing the sample position by one block of
    /// frames.  What remains, less than one block, stays queued.
    pub fn on_buffer(&mut self, data: &Vec<u8>) -> (blocks: Vec<Vec<u8>>)
        requires
            old(self).phase == PipelinePhase::Ready,
            old(self).queued().len() < AUDIO_BLOCK_BYTES,
            old(self).samples_sent + old(self).queued().len() + data@.len()
                <= 0x7FFF_FFFF_FFFF_FFFF,
        ensures
            ({
                let total = old(self).queued() + data@;
                let k = total.len() as int / AUDIO_BLOCK_BYTES as int;
                &&& blocks@.len() == k
                &&& forall|i: int|
                    0 <= i < k ==> blocks@[i]@ == #[trigger] block_at(
                        total,
                        AUDIO_BLOCK_BYTES as int,
                        i,
                    )
                &&& final(self).queued() == total.skip(k * AUDIO_BLOCK_BYTES)
                &&& final(self).queued().len() < AUDIO_BLOCK_BYTES
                &&& final(self).samples_sent == old(self).samples_sent + k
                    * AUDIO_BLOCK_FRAMES
                &&& final(self).phase == old(self).phase
            }),
    {
        self.accum.push(data);
        let ghost total = old(self).queued() + data@;
        proof {
            assert(total.skip(0) =~= total);
        }
        let mut blocks: Vec<Vec<u8>> = Vec::new();
        loop
            invariant
                self.phase == old(self).phase,
                self.queued() == total.skip(blocks@.len() * AUDIO_BLOCK_BYTES),
                blocks@.len() * AUDIO_BLOCK_BYTES <= total.len(),
                forall|i: int|
                    0 <= i < blocks@.len() ==> blocks@[i]@ == #[trigger] block_at(
                        total,
                        AUDIO_BLOCK_BYTES as int,
                        i,
                    ),
                self.samples_sent == old(self).samples_sent + blocks@.len()
                    * AUDIO_BLOCK_FRAMES,
                old(self).samples_sent + total.len() <= 0x7FFF_FFFF_FFFF_FFFF,
            ensures
                self.phase == old(self).phase,
                self.queued() == total.skip(blocks@.len() * AUDIO_BLOCK_BYTES),
                self.queued().len() < AUDIO_BLOCK_BYTES,
                blocks@.len() == total.len() as int / AUDIO_BLOCK_BYTES as int,
                forall|i: int|
                    0 <= i < blocks@.len() ==> blocks@[i]@ == #[trigger] block_at(
                        total,
                        AUDIO_BLOCK_BYTES as int,
                        i,
                    ),
                self.samples_sent == old(self).samples_sent + blocks@.len()
                    * AUDIO_BLOCK_FRAMES,
            decreases self.queued().len(),
        {
            let ghost j = blocks@.len() as int;
            match self.accum.take_block() {
                None => {
                    proof {
                        vstd::arithmetic::div_mod::lemma_fundamental_div_mod_converse(
                            total.len() as int,
                            AUDIO_BLOCK_BYTES as int,
                            j,
                            total.len() - j * AUDIO_BLOCK_BYTES,
                        );
                    }
                    break;
                }
                Some(b) => {
                    proof {
                        assert(total.skip(j * AUDIO_BLOCK_BYTES).take(AUDIO_BLOCK_BYTES as int)
                            =~= block_at(total, AUDIO_BLOCK_BYTES as int, j));
                        assert(total.skip(j * AUDIO_BLOCK_BYTES).skip(AUDIO_BLOCK_BYTES as int)
                            =~= total.skip((j + 1) * AUDIO_BLOCK_BYTES));
                        assert((j + 1) * AUDIO_BLOCK_FRAMES * 8 == (j + 1)
                            * AUDIO_BLOCK_BYTES);
                    }
                    blocks.push(b);
                    self.samples_sent = self.samples_sent + AUDIO_BLOCK_FRAMES as u64;
                }
            }
        }
        blocks
    }

    /// Close the input.
    ///
    /// A stream whose resources opened — which happens on the first
    /// buffer — is always sealed: the queued remainder, zero-padded to
    /// one whole codec block, goes out as the final frame at the
    /// current sample position, then end of stream and the container
    /// trailer.  A stream that never opened (or failed to) writes
    /// nothing and discards what was queued; that empty completion is
    /// valid.
    pub fn on_close(&mut self) -> (r: (Vec<u8>, CloseAction))
        requires
            old(self).phase != PipelinePhase::Closed,
            old(self).queued().len() < AUDIO_BLOCK_BYTES,
            old(self).samples_sent + AUDIO_BLOCK_FRAMES <= u64::MAX,
        ensures
            final(self).queued() == Seq::<u8>::empty(),
            final(self).phase == PipelinePhase::Closed,
            old(self).phase == PipelinePhase::Ready ==> {
                &&& r.1 == CloseAction::FlushAndTrailer
                &&& r.0@.len() == AUDIO_BLOCK_BYTES
                &&& r.0@.take(old(self).queued().len() as int) == old(self).queued()
                &&& forall|i: int|
                    old(self).queued().len() <= i < AUDIO_BLOCK_BYTES ==> r.0@[i] == 0u8
                &&& final(self).samples_sent == old(self).samples_sent + old(
                    self,
                ).queued().len() as int / AUDIO_FRAME_BYTES as int
            },
            old(self).phase != PipelinePhase::Ready ==> {
                &&& r.1 == CloseAction::Nothing
                &&& r.0@.len() == 0
                &&& final(self).samples_sent == old(self).samples_sent
            },
    {
        let rest = self.accum.take_rest();
        let r = match self.phase {
            PipelinePhase::Ready => {
                let rest_len = rest.len();
                let mut block = rest;
                while block.len() < AUDIO_BLOCK_BYTES
                    invariant
                        rest_len <= block@.len() <= AUDIO_BLOCK_BYTES,
                        block@.take(rest_len as int) == old(self).queued(),
                        forall|i: int| rest_len <= i < block@.len() ==> block@[i] == 0u8,
                    decreases AUDIO_BLOCK_BYTES - block@.len(),
                {
                    block.push(0);
                    proof {
                        assert(block@.take(rest_len as int) =~= old(self).queued());
                    }
                }
                self.samples_sent = self.samples_sent + (rest_len / AUDIO_FRAME_BYTES) as u64;
                (block, CloseAction::FlushAndTrailer)
            }
            _ => (Vec::new(), CloseAction::Nothing),
        };
        self.phase = PipelinePhase::Closed;
        r
    }
}

/// The pipeline state after `n` frames.
pub open spec fn frames_n(p: VideoPipeline, n: nat) -> VideoPipeline
    decreases n,
{
    if n == 0 {
        p
    } else {
        frames_n(p, (n - 1) as nat).frame_step()
    }
}

/// Feeding a ready pipeline `n` frames sends exactly `n` frames, stamps
/// frame `k` with presentation time `k`, and leaves the declared frame
/// rate untouched: the container's probed frame count and rate are what
/// was configured and fed.
pub proof fn lemma_feed_counts(p: VideoPipeline, n: nat)
    requires
        p.frames_sent == 0,
        n <= 0x7FFF_FFFF_FFFF_FFFF,
    ensures
        frames_n(p, n).frames_sent == n,
        frames_n(p, n).rate_num == p.rate_num,
        frames_n(p, n).rate_den == p.rate_den,
        frames_n(p, n).phase == p.phase,
        forall|k: nat| k < n ==> #[trigger] frames_n(p, k).frames_sent == k,
    decreases n,
{
    if n > 0 {
        lemma_feed_counts(p, (n - 1) as nat);
    }
}

/// Decimal digits of `n`, most significant first.
pub open spec fn dec_str(n: nat) -> Seq<u8>
    decreases n,
{
    if n < 10 {
        seq![(0x30 + n) as u8]
    } else {
        dec_str(n / 10) + seq![(0x30 + n % 10) as u8]
    }
}

/// Render a stream index in decimal.
pub fn u32_decimal(n: u32) -> (r: Vec<u8>)
    ensures
        r@ == dec_str(n as nat),
    decreases n,
{
    if n < 10 {
        let mut v: Vec<u8> = Vec::new();
        v.push(0x30 + n as u8);
        proof {
            assert(v@ =~= dec_str(n as nat));
        }
        v
    } else {
        let mut v = u32_decimal(n / 10);
        v.push(0x30 + (n % 10) as u8);
        proof {
            assert(v@ =~= dec_str(n as nat));
        }
        v
    }
}

/// `s` with every `{x}` placeholder (for marker byte `x`) replaced by
/// `v`, scanning left to right without rescanning replacements.
pub open spec fn subst_placeholder(s: Seq<u8>, marker: u8, v: Seq<u8>) -> Seq<u8>
    decreases s.len(),
{
    if s.len() >= 3 && s[0] == 0x7Bu8 && s[1] == marker && s[2] == 0x7Du8 {
        v + subst_placeholder(s.skip(3), marker, v)
    } else if s.len() > 0 {
        seq![s[0]] + subst_placeholder(s.skip(1), marker, v)
    } else {
        Seq::empty()
    }
}

/// Build an output name from its template: every `{x}` placeholder is
/// replaced by the given value, such as a per-stream index or the host
/// executable's name.
pub fn substitute_placeholder(template: &Vec<u8>, marker: u8, value: &Vec<u8>) -> (r: Vec<u8>)
    ensures
        r@ == subst_placeholder(template@, marker, value@),
{
    let mut r: Vec<u8> = Vec::new();
    let mut i: usize = 0;
    let n = template.len();
    proof {
        assert(template@.skip(0) =~= template@);
    }
    while i < n
        invariant
            n == template@.len(),
            i <= n,
            subst_placeholder(template@, marker, value@) == r@ + subst_placeholder(
                template@.skip(i as int),
                marker,
                value@,
            ),
        decreases n - i,
    {
        let ghost pre = r@;
        let ghost rest = template@.skip(i as int);
        if n - i >= 3 && template[i] == 0x7B && template[i + 1] == marker && template[i + 2]
            == 0x7D {
            let mut j: usize = 0;
            while j < value.len()
                invariant
                    j <= value@.len(),
                    r@ == pre + value@.take(j as int),
                decreases value@.len() - j,
            {
                let b = value[j];
                r.push(b);
                proof {
                    assert(r@ =~= pre + value@.take(j + 1));
                }
                j = j + 1;
            }
            proof {
                assert(value@.take(value@.len() as int) =~= value@);
                assert(rest.skip(3) =~= template@.skip(i + 3));
                assert(subst_placeholder(rest, marker, value@) == value@ + subst_placeholder(
                    template@.skip(i + 3),
                    marker,
                    value@,
                ));
                assert(r@ + subst_placeholder(template@.skip(i + 3), marker, value@) =~= pre
                    + subst_placeholder(rest, marker, value@));
            }
            i = i + 3;
        } else {
            let b = template[i];
            r.push(b);
            proof {
                assert(rest.skip(1) =~= template@.skip(i + 1));
                assert(subst_placeholder(rest, marker, value@) == seq![template@[i as int]]
                    + subst_placeholder(template@.skip(i + 1), marker, value@));
                assert(r@ + subst_placeholder(template@.skip(i + 1), marker, value@) =~= pre
                    + subst_placeholder(rest, marker, value@));
            }
            i = i + 1;
        }
    }
    proof {
        assert(template@.skip(n as int) =~= Seq::<u8>::empty());
    }
    r
}

} // verus!
