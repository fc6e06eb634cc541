//! Configuration as the library consumes it.
//!
//! Configuration is owned by the launcher and arrives as already-parsed
//! immutable values: the desired frame rate travels as the raw bit
//! pattern of its floating-point value to avoid locale ambiguity, the
//! force-tick threshold as hexadecimal text, encoder options as one
//! delimited key=value string, and output paths as templates with
//! per-stream placeholders.

use vstd::prelude::*;
use crate::propagate::TargetPattern;

verus! {

/// The parsed configuration the shim runs under.  Absent values mean
/// the corresponding feature stays disabled.
pub struct CaptureConfig {
    /// Bit pattern of the desired frame rate.
    pub fps_bits: Option<u64>,
    /// Name of the video encoder to use.
    pub video_encoder: Option<String>,
    /// Raw delimited key=value encoder options.
    pub video_args: Option<Vec<u8>>,
    /// Video output path template.
    pub video_output: Option<Vec<u8>>,
    /// Audio output path template.
    pub audio_output: Option<Vec<u8>>,
    /// Selected graphics backend name, lower-cased.
    pub graphics_system: Option<String>,
    /// Selected sound backend name, lower-cased.
    pub sound_system: Option<String>,
    /// Pattern naming the processes to instrument.
    pub target_pattern: Option<TargetPattern>,
    /// Whether to intercept process creation even in the launcher.
    pub aggressive: bool,
    /// Whether this process is the launcher itself.
    pub is_cli: bool,
    /// Configured force-tick threshold.
    pub force_tick_threshold: Option<u64>,
}

/// Whether video capture is on: an encoder is named and a frame rate
/// was supplied.
pub fn should_emit_video(cfg: &CaptureConfig) -> (r: bool)
    ensures
        r == (cfg.video_encoder is Some && cfg.fps_bits is Some),
{
    cfg.video_encoder.is_some() && cfg.fps_bits.is_some()
}

/// Whether the wasapi sound shim is active: the backend is selected
/// and an audio output is configured.
pub fn wasapi_selected(cfg: &CaptureConfig) -> (r: bool)
    ensures
        r == (cfg.sound_system matches Some(s) && s@ == "wasapi"@ && cfg.audio_output is Some),
{
    if cfg.audio_output.is_none() {
        return false;
    }
    match &cfg.sound_system {
        None => false,
        Some(s) => {
            let w = String::from_str("wasapi");
            s.eq(&w)
        }
    }
}

/// Whether the vulkan graphics shim is active: the backend is selected
/// and a frame rate was supplied.
pub fn vulkan_selected(cfg: &CaptureConfig) -> (r: bool)
    ensures
        r == (cfg.graphics_system matches Some(s) && s@ == "vulkan"@ && cfg.fps_bits is Some),
{
    if cfg.fps_bits.is_none() {
        return false;
    }
    match &cfg.graphics_system {
        None => false,
        Some(s) => {
            let w = String::from_str("vulkan");
            s.eq(&w)
        }
    }
}

/// Which hook families attach when the shim enters a process: the
/// launcher only watches process creation, and only when asked;
/// instrumented hosts get the full set.
pub struct InitPlan {
    /// Install the process-creation hooks, for propagation.
    pub install_process_hooks: bool,
    /// Install the object-creation, module-load and timing hooks.
    pub install_capture_hooks: bool,
}

/// Decide which hook families to install in this process.
pub fn init_plan(cfg: &CaptureConfig) -> (p: InitPlan)
    ensures
        p.install_process_hooks == (cfg.is_cli || cfg.aggressive),
        p.install_capture_hooks == !cfg.is_cli,
{
    InitPlan {
        install_process_hooks: cfg.is_cli || cfg.aggressive,
        install_capture_hooks: !cfg.is_cli,
    }
}

/// Value of a hexadecimal digit, or 16 for a byte that is none.
pub open spec fn hex_digit(b: u8) -> int {
    if 0x30 <= b <= 0x39 {
        b - 0x30
    } else if 0x61 <= b <= 0x66 {
        b - 0x61 + 10
    } else if 0x41 <= b <= 0x46 {
        b - 0x41 + 10
    } else {
        16
    }
}

/// Whether every byte is a hexadecimal digit.
pub open spec fn all_hex(s: Seq<u8>) -> bool {
    forall|i: int| 0 <= i < s.len() ==> hex_digit(s[i]) < 16
}

/// The number the hexadecimal digits denote, most significant first.
pub open spec fn hex_value(s: Seq<u8>) -> int
    decreases s.len(),
{
    if s.len() == 0 {
        0
    } else {
        hex_value(s.take(s.len() - 1)) * 16 + hex_digit(s[s.len() - 1])
    }
}

/// The digits of a hexadecimal numeral: everything after one optional
/// leading plus sign.
pub open spec fn hex_digits_part(s: Seq<u8>) -> Seq<u8> {
    if s.len() > 0 && s[0] == 0x2Bu8 {
        s.skip(1)
    } else {
        s
    }
}

/// What parsing a hexadecimal numeral yields: its value, if the text
/// is an optional plus sign, then one or more hexadecimal digits, and
/// the value is representable.
pub open spec fn parse_hex_spec(s: Seq<u8>) -> Option<u64> {
    let d = hex_digits_part(s);
    if d.len() > 0 && all_hex(d) && hex_value(d) <= u64::MAX {
        Some(hex_value(d) as u64)
    } else {
        None
    }
}

proof fn lemma_hex_value_nonneg(s: Seq<u8>)
    ensures
        hex_value(s) >= 0,
    decreases s.len(),
{
    if s.len() > 0 {
        lemma_hex_value_nonneg(s.take(s.len() - 1));
    }
}

proof fn lemma_hex_prefix_monotone(s: Seq<u8>, i: int, j: int)
    requires
        0 <= i <= j <= s.len(),
    ensures
        hex_value(s.take(i)) <= hex_value(s.take(j)),
    decreases j - i,
{
    if i < j {
        lemma_hex_prefix_monotone(s, i, j - 1);
        let p = s.take(j);
        assert(p.take(j - 1) =~= s.take(j - 1));
        lemma_hex_value_nonneg(s.take(j - 1));
        assert(hex_value(p) == hex_value(s.take(j - 1)) * 16 + hex_digit(s[j - 1]));
        vstd::arithmetic::mul::lemma_mul_inequality(1, 16, hex_value(s.take(j - 1)));
    }
}

/// Parse a hexadecimal numeral, exactly as an unsigned 64-bit value is
/// read from base-16 text: one optional leading plus sign, then one or
/// more digits of either case; empty digits, a stray byte or a value
/// beyond the type are rejected.
pub fn parse_hex_u64(s: &Vec<u8>) -> (r: Option<u64>)
    ensures
        r == parse_hex_spec(s@),
{
    let n = s.len();
    let start: usize = if n > 0 && s[0] == 0x2B {
        1
    } else {
        0
    };
    let ghost d = hex_digits_part(s@);
    proof {
        assert(d =~= s@.skip(start as int));
    }
    if start >= n {
        return None;
    }
    let mut acc: u64 = 0;
    let mut i: usize = start;
    while i < n
        invariant
            start <= i <= n,
            n == s@.len(),
            d == s@.skip(start as int),
            d == hex_digits_part(s@),
            all_hex(d.take(i - start)),
            acc == hex_value(d.take(i - start)),
        decreases n - i,
    {
        let b = s[i];
        let v: u8 = if 0x30 <= b && b <= 0x39 {
            b - 0x30
        } else if 0x61 <= b && b <= 0x66 {
            b - 0x61 + 10
        } else if 0x41 <= b && b <= 0x46 {
            b - 0x41 + 10
        } else {
            proof {
                assert(d[i - start] == s@[i as int]);
                assert(hex_digit(d[i - start]) == 16);
                assert(!all_hex(d));
            }
            return None;
        };
        proof {
            assert(d[i - start] == s@[i as int]);
            assert(hex_digit(d[i - start]) == v);
        }
        if acc > (u64::MAX - v as u64) / 16 {
            proof {
                let k = i - start + 1;
                assert(d.take(k).take(k - 1) =~= d.take(i - start));
                assert(hex_value(d.take(k)) == acc * 16 + v);
                let m = (u64::MAX - v) as int / 16;
                vstd::arithmetic::mul::lemma_mul_inequality(m + 1, acc as int, 16);
                vstd::arithmetic::div_mod::lemma_fundamental_div_mod(
                    (u64::MAX - v) as int,
                    16,
                );
                assert(acc * 16 + v > u64::MAX);
                lemma_hex_prefix_monotone(d, k, d.len() as int);
                assert(d.take(d.len() as int) =~= d);
                assert(hex_value(d) > u64::MAX);
            }
            return None;
        }
        let next = acc * 16 + v as u64;
        proof {
            let k = i - start + 1;
            assert(d.take(k).take(k - 1) =~= d.take(i - start));
            assert(hex_value(d.take(k)) == acc * 16 + v);
            assert forall|j: int| 0 <= j < k implies hex_digit(d.take(k)[j]) < 16 by {
                if j < k - 1 {
                    assert(hex_digit(d.take(i - start)[j]) < 16);
                }
            }
        }
        acc = next;
        i = i + 1;
    }
    proof {
        assert(d.take(n - start) =~= d);
    }
    Some(acc)
}

/// Index of the first occurrence of `b`, or a negative value if there
/// is none.
pub open spec fn find_byte(s: Seq<u8>, b: u8) -> int
    decreases s.len(),
{
    if s.len() == 0 {
        -1
    } else if s[0] == b {
        0
    } else if find_byte(s.skip(1), b) < 0 {
        -1
    } else {
        1 + find_byte(s.skip(1), b)
    }
}

proof fn lemma_find_byte_at(s: Seq<u8>, b: u8, i: int)
    requires
        0 <= i <= s.len(),
        forall|j: int| 0 <= j < i ==> s[j] != b,
        i < s.len() ==> s[i] == b,
    ensures
        i < s.len() ==> find_byte(s, b) == i,
        i == s.len() ==> find_byte(s, b) < 0,
    decreases s.len(),
{
    if s.len() > 0 && s[0] != b {
        lemma_find_byte_at(s.skip(1), b, i - 1);
    }
}

/// Find the first occurrence of a byte.
pub fn find_first(s: &Vec<u8>, b: u8) -> (r: Option<usize>)
    ensures
        match r {
            Some(i) => i < s@.len() && find_byte(s@, b) == i,
            None => find_byte(s@, b) < 0,
        },
{
    let n = s.len();
    let mut i: usize = 0;
    while i < n
        invariant
            i <= n,
            n == s@.len(),
            forall|j: int| 0 <= j < i ==> s@[j] != b,
        decreases n - i,
    {
        if s[i] == b {
            proof {
                lemma_find_byte_at(s@, b, i as int);
            }
            return Some(i);
        }
        i = i + 1;
    }
    proof {
        lemma_find_byte_at(s@, b, n as int);
    }
    None
}

/// The key=value pair one delimited part denotes: the text around its
/// first equals sign, or nothing for a part without one.
pub open spec fn pair_of_part(part: Seq<u8>) -> Seq<(Seq<u8>, Seq<u8>)> {
    let e = find_byte(part, 0x3Du8);
    if e < 0 {
        Seq::empty()
    } else {
        seq![(part.take(e), part.skip(e + 1))]
    }
}

/// The key=value pairs of a semicolon-delimited option string, in
/// order; parts without an equals sign contribute nothing.
pub open spec fn kv_pairs(s: Seq<u8>) -> Seq<(Seq<u8>, Seq<u8>)>
    decreases s.len(),
{
    let i = find_byte(s, 0x3Bu8);
    if 0 <= i < s.len() {
        pair_of_part(s.take(i)) + kv_pairs(s.skip(i + 1))
    } else {
        pair_of_part(s)
    }
}

fn sub_vec(s: &Vec<u8>, from: usize, to: usize) -> (r: Vec<u8>)
    requires
        from <= to <= s@.len(),
    ensures
        r@ == s@.subrange(from as int, to as int),
{
    let mut r: Vec<u8> = Vec::new();
    let mut k: usize = from;
    while k < to
        invariant
            from <= k <= to <= s@.len(),
            r@ == s@.subrange(from as int, k as int),
        decreases to - k,
    {
        let b = s[k];
        r.push(b);
        proof {
            assert(r@ =~= s@.subrange(from as int, k + 1));
        }
        k = k + 1;
    }
    r
}

/// Parse one delimited part into its key=value pair, if it has one.
fn parse_part(part: &Vec<u8>) -> (r: Option<(Vec<u8>, Vec<u8>)>)
    ensures
        match r {
            Some(kv) => pair_of_part(part@) == seq![(kv.0@, kv.1@)],
            None => pair_of_part(part@) == Seq::<(Seq<u8>, Seq<u8>)>::empty(),
        },
{
    let plen = part.len();
    match find_first(part, 0x3D) {
        None => None,
        Some(e) => {
            let k = sub_vec(part, 0, e);
            let v = sub_vec(part, e + 1, plen);
            proof {
                assert(k@ =~= part@.take(e as int));
                assert(v@ =~= part@.skip(e + 1));
            }
            Some((k, v))
        }
    }
}

/// Parse the encoder option string: semicolon-delimited parts, each
/// contributing the key and value around its first equals sign, parts
/// without one contributing nothing, in order.
pub fn parse_video_args(s: &Vec<u8>) -> (r: Vec<(Vec<u8>, Vec<u8>)>)
    ensures
        r@.map_values(|kv: (Vec<u8>, Vec<u8>)| (kv.0@, kv.1@)) == kv_pairs(s@),
{
    let mut r: Vec<(Vec<u8>, Vec<u8>)> = Vec::new();
    let mut rest: Vec<u8> = sub_vec(s, 0, s.len());
    proof {
        assert(rest@ =~= s@);
        assert(r@.map_values(|kv: (Vec<u8>, Vec<u8>)| (kv.0@, kv.1@)) + kv_pairs(rest@)
            =~= kv_pairs(s@));
    }
    loop
        invariant
            r@.map_values(|kv: (Vec<u8>, Vec<u8>)| (kv.0@, kv.1@)) + kv_pairs(rest@) == kv_pairs(
                s@,
            ),
        ensures
            r@.map_values(|kv: (Vec<u8>, Vec<u8>)| (kv.0@, kv.1@)) == kv_pairs(s@),
        decreases rest@.len(),
    {
        let ghost pre = r@;
        match find_first(&rest, 0x3B) {
            None => {
                match parse_part(&rest) {
                    None => {}
                    Some(kv) => {
                        r.push(kv);
                        proof {
                            assert(r@.map_values(|kv: (Vec<u8>, Vec<u8>)| (kv.0@, kv.1@))
                                =~= pre.map_values(|kv: (Vec<u8>, Vec<u8>)| (kv.0@, kv.1@))
                                + pair_of_part(rest@));
                        }
                    }
                }
                proof {
                    assert(r@.map_values(|kv: (Vec<u8>, Vec<u8>)| (kv.0@, kv.1@)) =~= kv_pairs(
                        s@,
                    ));
                }
                return r;
            }
            Some(i) => {
                let rlen = rest.len();
                let part = sub_vec(&rest, 0, i);
                let tail = sub_vec(&rest, i + 1, rlen);
                proof {
                    assert(part@ =~= rest@.take(i as int));
                    assert(tail@ =~= rest@.skip(i + 1));
                }
                match parse_part(&part) {
                    None => {}
                    Some(kv) => {
                        r.push(kv);
                        proof {
                            assert(r@.map_values(|kv: (Vec<u8>, Vec<u8>)| (kv.0@, kv.1@))
                                =~= pre.map_values(|kv: (Vec<u8>, Vec<u8>)| (kv.0@, kv.1@))
                                + pair_of_part(part@));
                        }
                    }
                }
                proof {
                    assert(r@.map_values(|kv: (Vec<u8>, Vec<u8>)| (kv.0@, kv.1@)) + kv_pairs(
                        tail@,
                    ) =~= kv_pairs(s@));
                }
                rest = tail;
            }
        }
    }
}

} // verus!
