//! Frame capture and the streaming handoff to the encoder.
//!
//! On every present the shim copies the frame into host-readable staging
//! memory and repacks it: the staging rows are stride-padded four-channel
//! pixels, the encoder wants densely packed three-channel rows.  The
//! packed frame travels to the encode worker over a bounded channel, and
//! drained buffers come back over a second bounded channel that doubles
//! as the backpressure signal: when no buffer is available the frame is
//! skipped, never the presentation.

use vstd::prelude::*;
use crate::clock::VirtualClock;
use crate::pacing::TickBarrier;
use crate::registry::HandleRegistry;

verus! {

/// Buffers preloaded into the recycling pool of each capture target.
pub const POOL_SIZE: usize = 10;

/// Capacity of each direction of a capture target's channel pair.
pub const CHANNEL_BOUND: usize = 30;

/// Declares the sending half of a `kanal` channel so it can be stored
/// and passed through verified code.
#[verifier::external_type_specification]
#[verifier::external_body]
#[verifier::reject_recursive_types(T)]
pub struct ExSender<T>(kanal::Sender<T>);

/// Declares the receiving half of a `kanal` channel so it can be stored
/// and passed through verified code.
#[verifier::external_type_specification]
#[verifier::external_body]
#[verifier::reject_recursive_types(T)]
pub struct ExReceiver<T>(kanal::Receiver<T>);

/// The capacity a buffer channel's sending half was created with.
pub uninterp spec fn sender_cap(s: kanal::Sender<Vec<u8>>) -> nat;

/// The capacity a buffer channel's receiving half was created with.
pub uninterp spec fn receiver_cap(r: kanal::Receiver<Vec<u8>>) -> nat;

/// Relies on kanal::bounded: creates a connected channel of the given
/// fixed capacity.  What the channel later carries depends on the
/// other side, so only the capacity — a function of the argument — is
/// promised.
#[verifier::external_body]
fn bounded_channel(cap: usize) -> (r: (kanal::Sender<Vec<u8>>, kanal::Receiver<Vec<u8>>))
    ensures
        sender_cap(r.0) == cap,
        receiver_cap(r.1) == cap,
{
    kanal::bounded(cap)
}

/// Relies on kanal::Receiver::try_recv: takes a queued buffer if one is
/// ready, without blocking.  The other side owns the queue, so no
/// outcome can be promised.
#[verifier::external_body]
pub(crate) fn try_take_buffer(rx: &kanal::Receiver<Vec<u8>>) -> (r: Option<Vec<u8>>) {
    rx.try_recv().unwrap_or(None)
}

/// Relies on kanal::Sender::try_send: queues the buffer if there is room,
/// without blocking; reports whether the buffer was accepted.
#[verifier::external_body]
pub(crate) fn try_send_buffer(tx: &kanal::Sender<Vec<u8>>, buf: Vec<u8>) -> (ok: bool) {
    tx.try_send(buf).unwrap_or(false)
}

/// The capture side of one encode pipeline: frames go out through
/// `submit`, drained buffers come back through `reclaim`.
pub struct EncodeDuplex {
    pub submit: kanal::Sender<Vec<u8>>,
    pub reclaim: kanal::Receiver<Vec<u8>>,
}

/// The worker side of one encode pipeline: raw frames arrive through
/// `incoming`, finished buffers are returned through `recycle`.
pub struct WorkerDuplex {
    pub incoming: kanal::Receiver<Vec<u8>>,
    pub recycle: kanal::Sender<Vec<u8>>,
}

/// Build the bounded channel pair for one capture target and preload
/// the recycling pool: the pool's fixed size is what bounds how many
/// frames can ever be in flight.  Both directions carry the configured
/// capacity; the last result is how many pool buffers the channel
/// accepted, at most the pool size (acceptance is the channel's own
/// business and cannot be promised).
pub fn create_capture_channels() -> (r: (EncodeDuplex, WorkerDuplex, usize))
    ensures
        sender_cap(r.0.submit) == CHANNEL_BOUND,
        receiver_cap(r.0.reclaim) == CHANNEL_BOUND,
        receiver_cap(r.1.incoming) == CHANNEL_BOUND,
        sender_cap(r.1.recycle) == CHANNEL_BOUND,
        r.2 <= POOL_SIZE,
{
    let (submit, incoming) = bounded_channel(CHANNEL_BOUND);
    let (recycle, reclaim) = bounded_channel(CHANNEL_BOUND);
    let mut accepted: usize = 0;
    let mut i: usize = 0;
    while i < POOL_SIZE
        invariant
            accepted <= i <= POOL_SIZE,
        decreases POOL_SIZE - i,
    {
        if try_send_buffer(&recycle, Vec::new()) {
            accepted = accepted + 1;
        }
        i = i + 1;
    }
    (EncodeDuplex { submit, reclaim }, WorkerDuplex { incoming, recycle }, accepted)
}

/// Interface identifier of the basic graphics factory, with the first
/// group of the textual form in the most significant bits.
pub const IID_IDXGI_FACTORY: u128 = 0x7B7166EC_21C7_44AE_B21A_C9AE321AE369;

/// Interface identifier of the extended graphics factory.
pub const IID_IDXGI_FACTORY1: u128 = 0x770AAE78_F26F_4DFA_A1A4_AA2B35B280B1;

/// How an intercepted factory-creation call resolves.
#[derive(Clone, Copy, PartialEq, Eq, Structural)]
pub enum FactoryDecision {
    /// Create the real factory and wrap it in the capturing proxy.
    Wrap,
    /// An interface the shim does not impersonate: refuse it.
    Reject,
}

/// Decide an intercepted factory creation: both factory interfaces the
/// shim impersonates are created for real and wrapped; any other
/// requested interface is refused outright.
pub fn factory_create_decision(iid: u128) -> (r: FactoryDecision)
    ensures
        r == if iid == IID_IDXGI_FACTORY || iid == IID_IDXGI_FACTORY1 {
            FactoryDecision::Wrap
        } else {
            FactoryDecision::Reject
        },
{
    if iid == IID_IDXGI_FACTORY || iid == IID_IDXGI_FACTORY1 {
        FactoryDecision::Wrap
    } else {
        FactoryDecision::Reject
    }
}

/// Dimensions of the staging memory a frame is read back through.
pub struct StagingInfo {
    pub width: usize,
    pub height: usize,
    pub row_pitch: usize,
}

impl StagingInfo {
    /// The shape every staging allocation satisfies: four source bytes
    /// per pixel fit in each padded row, and the packed frame fits in an
    /// allocation.
    pub open spec fn wf(self) -> bool {
        &&& 1 <= self.width
        &&& 1 <= self.height
        &&& 4 * self.width <= self.row_pitch
        &&& self.height * self.row_pitch <= usize::MAX
        &&& 3 * self.width * self.height <= usize::MAX
    }

    /// Bytes a staging mapping must provide.
    pub open spec fn mapped_bytes(self) -> int {
        (self.height - 1) * self.row_pitch + 4 * self.width
    }
}

/// Channel `c` of pixel `(row, x)` of the packed frame `r` equals the
/// same channel of the same pixel in the stride-padded source `mapped`.
pub open spec fn packed_at(
    r: Seq<u8>,
    mapped: Seq<u8>,
    s: StagingInfo,
    row: int,
    x: int,
    c: int,
) -> bool {
    r[3 * (row * s.width + x) + c] == mapped[row * s.row_pitch + 4 * x + c]
}

/// Repack a mapped staging image into dense three-channel rows.
///
/// The source holds `height` rows of four-channel pixels, each row
/// starting `row_pitch` bytes after the last; of every pixel the first
/// three channels are kept, in source order, and the padding between
/// rows is dropped.
pub fn pack_frame(mapped: &Vec<u8>, s: StagingInfo) -> (r: Vec<u8>)
    requires
        s.wf(),
        s.mapped_bytes() <= mapped@.len(),
    ensures
        r@.len() == 3 * s.width * s.height,
        forall|row: int, x: int, c: int|
            0 <= row < s.height && 0 <= x < s.width && 0 <= c < 3 ==> #[trigger] packed_at(
                r@,
                mapped@,
                s,
                row,
                x,
                c,
            ),
{
    let width = s.width;
    let height = s.height;
    let row_pitch = s.row_pitch;
    let mapped_len = mapped.len();
    let mut r: Vec<u8> = Vec::new();
    let mut row: usize = 0;
    while row < height
        invariant
            s.wf(),
            s.mapped_bytes() <= mapped@.len(),
            mapped@.len() == mapped_len,
            width == s.width,
            height == s.height,
            row_pitch == s.row_pitch,
            row <= height,
            r@.len() == 3 * (row * width),
            forall|rr: int, x: int, c: int|
                0 <= rr < row && 0 <= x < width && 0 <= c < 3 ==> #[trigger] packed_at(
                    r@,
                    mapped@,
                    s,
                    rr,
                    x,
                    c,
                ),
        decreases height - row,
    {
        proof {
            vstd::arithmetic::mul::lemma_mul_inequality(
                row as int,
                s.height - 1,
                s.row_pitch as int,
            );
            vstd::arithmetic::mul::lemma_mul_inequality(
                row + 1,
                s.height as int,
                s.width as int,
            );
            vstd::arithmetic::mul::lemma_mul_nonnegative(row as int, s.row_pitch as int);
            vstd::arithmetic::mul::lemma_mul_nonnegative(row as int, s.width as int);
            vstd::arithmetic::mul::lemma_mul_inequality(
                row as int,
                s.height as int,
                s.width as int,
            );
            vstd::arithmetic::mul::lemma_mul_inequality(
                s.height - 1,
                s.height as int,
                s.row_pitch as int,
            );
            vstd::arithmetic::mul::lemma_mul_is_distributive_add_other_way(
                s.width as int,
                row as int,
                1,
            );
            vstd::arithmetic::mul::lemma_mul_is_commutative(s.height as int, s.width as int);
            vstd::arithmetic::mul::lemma_mul_is_associative(3, s.width as int, s.height as int);
        }
        let row_base = row * row_pitch;
        let mut x: usize = 0;
        while x < width
            invariant
                s.wf(),
                s.mapped_bytes() <= mapped@.len(),
                mapped@.len() == mapped_len,
                width == s.width,
                height == s.height,
                row_pitch == s.row_pitch,
                row < height,
                x <= width,
                row_base == row * row_pitch,
                row_base <= (s.height - 1) * s.row_pitch,
                r@.len() == 3 * (row * width + x),
                3 * (row * width + width) <= 3 * s.width * s.height,
                forall|rr: int, xx: int, c: int|
                    0 <= rr < row && 0 <= xx < width && 0 <= c < 3 ==> #[trigger] packed_at(
                        r@,
                        mapped@,
                        s,
                        rr,
                        xx,
                        c,
                    ),
                forall|xx: int, c: int|
                    0 <= xx < x && 0 <= c < 3 ==> #[trigger] packed_at(r@, mapped@, s, row as int, xx, c),
            decreases width - x,
        {
            proof {
                assert(4 * x + 4 <= 4 * s.width);
                assert(row_base + 4 * x + 4 <= s.mapped_bytes());
                assert(row_base + 4 * x + 4 <= mapped@.len());
            }
            let src = row_base + 4 * x;
            let b0 = mapped[src];
            let b1 = mapped[src + 1];
            let b2 = mapped[src + 2];
            let ghost pre = r@;
            r.push(b0);
            r.push(b1);
            r.push(b2);
            proof {
                assert forall|rr: int, xx: int, c: int|
                    0 <= rr < row && 0 <= xx < width && 0 <= c < 3 implies #[trigger] packed_at(
                    r@,
                    mapped@,
                    s,
                    rr,
                    xx,
                    c,
                ) by {
                    vstd::arithmetic::mul::lemma_mul_is_distributive_add_other_way(
                        s.width as int,
                        rr,
                        1,
                    );
                    vstd::arithmetic::mul::lemma_mul_inequality(rr + 1, row as int, s.width as int);
                    assert(packed_at(pre, mapped@, s, rr, xx, c));
                    assert(3 * (rr * s.width + xx) + c < pre.len());
                    assert(r@[3 * (rr * s.width + xx) + c] == pre[3 * (rr * s.width + xx) + c]);
                }
                assert forall|xx: int, c: int| 0 <= xx < x + 1 && 0 <= c < 3 implies
                    #[trigger] packed_at(r@, mapped@, s, row as int, xx, c) by {
                    if xx < x {
                        assert(packed_at(pre, mapped@, s, row as int, xx, c));
                        assert(3 * (row * s.width + xx) + c < pre.len());
                        assert(r@[3 * (row * s.width + xx) + c] == pre[3 * (row * s.width + xx)
                            + c]);
                    } else {
                        assert(r@[3 * (row * s.width + xx) + c] == mapped@[row * s.row_pitch + 4
                            * xx + c]);
                    }
                }
            }
            x = x + 1;
        }
        proof {
            vstd::arithmetic::mul::lemma_mul_is_distributive_add(
                s.width as int,
                row as int,
                1,
            );
        }
        row = row + 1;
    }
    proof {
        vstd::arithmetic::mul::lemma_mul_is_commutative(s.height as int, s.width as int);
        vstd::arithmetic::mul::lemma_mul_is_associative(3, s.width as int, s.height as int);
    }
    r
}

/// The wait-semaphore list an intercepted queue present hands to the
/// native call: the copy semaphore of each presented surface, in
/// presentation order, looked up in the surface-to-semaphore registry.
/// The host's own wait semaphores are not in the list — the capture
/// copy submissions consumed them — so presentation waits on the
/// copies instead.  A surface the registry does not know is a
/// framework bug: nothing is substituted.
pub fn replacement_wait_semaphores(
    semaphores: &HandleRegistry,
    presented: &Vec<u64>,
) -> (r: Option<Vec<u64>>)
    ensures
        r is Some <==> (forall|i: int|
            0 <= i < presented@.len() ==> semaphores.view_spec().dom().contains(
                #[trigger] presented@[i],
            )),
        r matches Some(v) ==> {
            &&& v@.len() == presented@.len()
            &&& forall|i: int|
                0 <= i < presented@.len() ==> v@[i] == semaphores.view_spec()[
                    #[trigger] presented@[i]
                ]
        },
{
    let mut v: Vec<u64> = Vec::new();
    let mut i: usize = 0;
    while i < presented.len()
        invariant
            i <= presented@.len(),
            v@.len() == i,
            forall|j: int|
                0 <= j < i ==> semaphores.view_spec().dom().contains(#[trigger] presented@[j])
                    && v@[j] == semaphores.view_spec()[presented@[j]],
        decreases presented@.len() - i,
    {
        match semaphores.resolve(presented[i]) {
            None => {
                return None;
            }
            Some(s) => {
                v.push(s);
            }
        }
        i = i + 1;
    }
    Some(v)
}

/// What one intercepted present produced.
pub struct PresentOutcome {
    /// The value the host receives: always the native call's own result.
    pub host_result: u32,
    /// Whether a frame was handed to the encode pipeline, or skipped for
    /// want of a pool buffer.
    pub captured: bool,
}

/// Per-surface capture state, created when the surface's creation call
/// is intercepted and torn down when its destruction is.
pub struct CaptureTarget {
    /// Staging dimensions, allocated lazily on the first present and
    /// discarded on resize.
    pub staging: Option<StagingInfo>,
    /// Completed presents seen on this surface.
    pub frame_count: u64,
    /// Real performance-counter reading at creation, for throughput
    /// reporting.
    pub init_real_time: i64,
    /// The encode handoff, absent when no encoder is configured.
    pub pipeline: Option<EncodeDuplex>,
}

impl CaptureTarget {
    /// Every reachable target keeps a well-formed staging shape.
    pub open spec fn wf(self) -> bool {
        self.staging matches Some(s) ==> s.wf()
    }

    /// A fresh target with no staging resources and no frames seen.
    pub fn new(init_real_time: i64, pipeline: Option<EncodeDuplex>) -> (t: Self)
        ensures
            t.wf(),
            t.staging is None,
            t.frame_count == 0,
            t.init_real_time == init_real_time,
            t.pipeline is Some <==> pipeline is Some,
    {
        let r = CaptureTarget { staging: None, frame_count: 0, init_real_time, pipeline };
        r
    }

    /// Allocate the staging shape on first use; later presents reuse it
    /// unchanged until a resize discards it.
    pub fn ensure_staging(&mut self, info: StagingInfo)
        requires
            old(self).wf(),
            info.wf(),
        ensures
            final(self).wf(),
            final(self).staging == if old(self).staging is Some {
                old(self).staging
            } else {
                Some(info)
            },
            final(self).frame_count == old(self).frame_count,
            final(self).init_real_time == old(self).init_real_time,
    {
        if self.staging.is_none() {
            self.staging = Some(info);
        }
    }

    /// Drop the staging shape so the next present recreates it at the
    /// surface's new size.
    pub fn on_resize(&mut self)
        requires
            old(self).wf(),
        ensures
            final(self).wf(),
            final(self).staging is None,
            final(self).frame_count == old(self).frame_count,
            final(self).init_real_time == old(self).init_real_time,
    {
        self.staging = None;
    }

    /// Capture one presented frame from its staging mapping.
    ///
    /// Whatever the pool and the pipeline do, the host's view of the
    /// present is untouched: the native result is passed back verbatim
    /// and the frame counter advances by exactly one.  When no drained
    /// buffer is available the frame is skipped; fidelity degrades by
    /// dropping frames, never by blocking the presenting thread.
    pub fn on_present(&mut self, mapped: &Vec<u8>, native_result: u32) -> (r: PresentOutcome)
        requires
            old(self).wf(),
            old(self).staging matches Some(s) && s.mapped_bytes() <= mapped@.len(),
            old(self).frame_count < u64::MAX,
        ensures
            final(self).wf(),
            r.host_result == native_result,
            final(self).frame_count == old(self).frame_count + 1,
            final(self).staging == old(self).staging,
            final(self).init_real_time == old(self).init_real_time,
            old(self).pipeline is None ==> !r.captured,
    {
        let mut captured = false;
        let staging = match &self.staging {
            Some(s) => StagingInfo { width: s.width, height: s.height, row_pitch: s.row_pitch },
            None => vstd::pervasive::unreached(),
        };
        match &self.pipeline {
            None => {}
            Some(duplex) => {
                match try_take_buffer(&duplex.reclaim) {
                    None => {}
                    Some(_drained) => {
                        let frame = pack_frame(mapped, staging);
                        try_send_buffer(&duplex.submit, frame);
                        captured = true;
                    }
                }
            }
        }
        self.frame_count = self.frame_count + 1;
        PresentOutcome { host_result: native_result, captured }
    }

    /// One complete intercepted present: capture the frame (or skip it
    /// under backpressure), hand the host the native call's own result,
    /// and record one capture event — in that order, so frame N is
    /// submitted before its presentation event completes.  The event
    /// advances the virtual clock by exactly one tick and, once the
    /// clock is running, releases the current wait epoch exactly once.
    pub fn present_and_tick(
        &mut self,
        mapped: &Vec<u8>,
        native_result: u32,
        clock: &mut VirtualClock,
        barrier: &mut TickBarrier,
    ) -> (r: PresentOutcome)
        requires
            old(self).wf(),
            old(self).staging matches Some(s) && s.mapped_bytes() <= mapped@.len(),
            old(self).frame_count < u64::MAX,
            old(clock).wf(),
            old(clock).tick < crate::clock::TICK_MAX,
            old(barrier).wf(),
            old(barrier).epoch < u64::MAX,
        ensures
            final(self).wf(),
            r.host_result == native_result,
            final(self).frame_count == old(self).frame_count + 1,
            final(self).staging == old(self).staging,
            old(self).pipeline is None ==> !r.captured,
            final(clock).wf(),
            *final(clock) == old(clock).tick_step(),
            final(clock).enabled,
            final(barrier).wf(),
            old(clock).enabled ==> {
                &&& *final(barrier) == old(barrier).tick_step()
                &&& forall|i: int| old(barrier).blocked(i) ==> final(barrier).released(i)
            },
            !old(clock).enabled ==> *final(barrier) == *old(barrier),
    {
        let r = self.on_present(mapped, native_result);
        crate::pacing::capture_event(clock, barrier);
        r
    }

    /// Frames seen and real counter units elapsed, reported when the
    /// surface is destroyed.
    pub fn throughput(&self, real_now: i64) -> (r: (u64, i64))
        requires
            self.init_real_time <= real_now,
            real_now - self.init_real_time <= i64::MAX,
        ensures
            r.0 == self.frame_count,
            r.1 == real_now - self.init_real_time,
    {
        (self.frame_count, real_now - self.init_real_time)
    }
}

} // verus!
