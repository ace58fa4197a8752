use vstd::prelude::*;

verus! {

use vstd::math::{max, min};
use crate::fixed::{isqrt, spec_isqrt};
use vstd::arithmetic::power2::pow2;

// Frequency-band values are plain integers: magnitudes enter the pipeline
// as nonnegative integers and leave `scale` in the range 0..=100. Values
// fed into the statistics are capped at 2^48 so that every sum and square
// below fits comfortably in 128 bits.

/// Largest magnitude the pipeline accepts.
pub open spec fn magnitude_limit() -> int {
    0x1_0000_0000_0000
}

/// Every element is at most `magnitude_limit`.
pub open spec fn bounded_seq(s: Seq<u64>) -> bool {
    forall|i: int| 0 <= i < s.len() ==> s[i] <= magnitude_limit()
}

/// Every element is zero.
pub open spec fn all_zero(s: Seq<u64>) -> bool {
    forall|i: int| 0 <= i < s.len() ==> s[i] == 0
}

/// Every element lies in the published display range 0..=100.
pub open spec fn display_range(s: Seq<u64>) -> bool {
    forall|i: int| 0 <= i < s.len() ==> s[i] <= 100
}

/// Sum of the elements.
pub open spec fn seq_sum(s: Seq<u64>) -> int
    decreases s.len(),
{
    if s.len() == 0 {
        0
    } else {
        seq_sum(s.drop_last()) + s.last()
    }
}

/// Sum of the squares of the elements.
pub open spec fn seq_sqsum(s: Seq<u64>) -> int
    decreases s.len(),
{
    if s.len() == 0 {
        0
    } else {
        seq_sqsum(s.drop_last()) + s.last() * s.last()
    }
}

/// Largest element, or zero for an empty sequence.
pub open spec fn seq_max(s: Seq<u64>) -> int
    decreases s.len(),
{
    if s.len() == 0 {
        0
    } else {
        max(seq_max(s.drop_last()), s.last() as int)
    }
}

pub proof fn lemma_seq_max_bounded(s: Seq<u64>)
    ensures
        0 <= seq_max(s),
        forall|i: int| 0 <= i < s.len() ==> s[i] <= seq_max(s),
        bounded_seq(s) ==> seq_max(s) <= magnitude_limit(),
    decreases s.len(),
{
    if s.len() > 0 {
        lemma_seq_max_bounded(s.drop_last());
        assert(forall|i: int| 0 <= i < s.len() - 1 ==> s[i] == s.drop_last()[i]);
    }
}

/// Per-channel decay state of the spectrum pipeline: a most-recent-first
/// ring of past cycle maxima, the band values published last cycle, the
/// last rising value per band, and the consecutive-non-rising counter per
/// band.
pub struct TransformedAudio {
    /// Previous per-cycle maximum band magnitudes, most recent first.
    pub band_max: Vec<u64>,
    /// Band values published last cycle.
    pub bands: Vec<u64>,
    /// Last rising value per band.
    pub band_peaks: Vec<u64>,
    /// Consecutive-non-rising counter per band.
    pub falloff: Vec<u64>,
}

impl TransformedAudio {
    /// Shapes match the band count and scaling-history length.
    pub open spec fn wf(&self, total_bands: int, fft_len: int) -> bool {
        &&& self.band_max@.len() == fft_len
        &&& self.bands@.len() == total_bands
        &&& self.band_peaks@.len() == total_bands
        &&& self.falloff@.len() == total_bands
    }

    /// Initializes an all-zero transformed audio representation.
    pub fn new(total_bands: usize, fft_len: usize) -> (t: TransformedAudio)
        ensures
            t.wf(total_bands as int, fft_len as int),
            all_zero(t.band_max@),
            all_zero(t.bands@),
            all_zero(t.band_peaks@),
            all_zero(t.falloff@),
    {
        TransformedAudio {
            band_max: vec![0u64; fft_len],
            bands: vec![0u64; total_bands],
            band_peaks: vec![0u64; total_bands],
            falloff: vec![0u64; total_bands],
        }
    }
}

/// History ring after recording a new most-recent maximum: the new value
/// in front, the oldest entry dropped.
pub open spec fn shifted_ring(ring: Seq<u64>, v: u64) -> Seq<u64> {
    seq![v] + ring.drop_last()
}

/// Ceiling the adaptive scaler divides by: mean of the history plus twice
/// its standard deviation, floored at one.
pub open spec fn spec_max_allowed(ring: Seq<u64>) -> int {
    let n = ring.len() as int;
    let mean = seq_sum(ring) / n;
    let msq = seq_sqsum(ring) / n;
    let var = if msq >= mean * mean {
        msq - mean * mean
    } else {
        0
    };
    max(mean + 2 * spec_isqrt(var), 1)
}

/// A band value rescaled against the allowed maximum, capped at 100.
pub open spec fn spec_scaled(b: int, allowed: int) -> int {
    min(100, (b * 100) / allowed)
}

proof fn lemma_scaled_range(b: int, allowed: int)
    requires
        b >= 0,
        allowed >= 1,
    ensures
        0 <= spec_scaled(b, allowed) <= 100,
{
    assert((b * 100) / allowed >= 0) by (nonlinear_arith)
        requires
            b >= 0,
            allowed >= 1,
    ;
}

/// All bands rescaled against the allowed maximum of the given history.
pub open spec fn spec_scale_all(bands: Seq<u64>, ring: Seq<u64>) -> Seq<u64> {
    Seq::new(bands.len(), |i: int| spec_scaled(bands[i] as int, spec_max_allowed(ring)) as u64)
}

proof fn lemma_seq_max_achieved(s: Seq<u64>)
    requires
        s.len() >= 1,
    ensures
        exists|i: int| 0 <= i < s.len() && s[i] == seq_max(s),
    decreases s.len(),
{
    if s.len() == 1 {
        assert(s.drop_last().len() == 0);
        assert(seq_max(s.drop_last()) == 0);
        assert(s.last() == s[0]);
        assert(s[0] == seq_max(s));
    } else {
        lemma_seq_max_achieved(s.drop_last());
        if seq_max(s.drop_last()) >= s.last() {
            let i = choose|i: int|
                0 <= i < s.drop_last().len() && s.drop_last()[i] == seq_max(s.drop_last());
            assert(s[i] == seq_max(s));
        } else {
            assert(s[s.len() - 1] == seq_max(s));
        }
    }
}

/// One adaptive-scaling cycle on a single-entry history: the history holds
/// exactly the vector's own maximum.
pub open spec fn scale_cycle(b: Seq<u64>) -> Seq<u64> {
    spec_scale_all(b, seq![seq_max(b) as u64])
}

/// Law: with a single-entry history, a band vector that stays the same
/// across two consecutive cycles converges to itself: the second
/// application of the adaptive scaler leaves the first one's output
/// unchanged.
pub proof fn lemma_scale_converges(b: Seq<u64>)
    requires
        b.len() >= 1,
        bounded_seq(b),
    ensures
        scale_cycle(scale_cycle(b)) == scale_cycle(b),
{
    lemma_seq_max_bounded(b);
    let m = seq_max(b);
    vstd::arithmetic::div_mod::lemma_div_basics(m);
    vstd::arithmetic::div_mod::lemma_div_basics(m * m);
    vstd::arithmetic::div_mod::lemma_div_basics(100);
    vstd::arithmetic::div_mod::lemma_div_basics(10000);
    let ring1 = seq![m as u64];
    assert(ring1.len() == 1 && ring1.last() == m as u64 && ring1.drop_last().len() == 0);
    assert(seq_sum(ring1.drop_last()) == 0 && seq_sqsum(ring1.drop_last()) == 0);
    assert(seq_sum(ring1) == m);
    assert(seq_sqsum(ring1) == m * m);
    let a1 = spec_max_allowed(ring1);
    assert(m / 1 == m);
    assert((m * m) / 1 == m * m);
    assert(spec_isqrt(0) == 0);
    let out1 = scale_cycle(b);
    if m == 0 {
        assert(a1 == 1);
        assert(forall|i: int| 0 <= i < b.len() ==> b[i] == 0);
        assert(forall|i: int| 0 <= i < out1.len() ==> out1[i] == 0);
        lemma_seq_max_achieved(out1);
        assert(seq_max(out1) == 0) by {
            lemma_seq_max_bounded(out1);
            let w = choose|i: int| 0 <= i < out1.len() && out1[i] == seq_max(out1);
            assert(out1[w] == 0);
        }
        assert(scale_cycle(out1) =~= out1);
    } else {
        assert(a1 == m);
        // every band scales to at most 100, the maximal band to exactly 100
        assert(forall|i: int|
            0 <= i < b.len() ==> #[trigger] out1[i] == spec_scaled(b[i] as int, m));
        lemma_seq_max_achieved(b);
        let j = choose|i: int| 0 <= i < b.len() && b[i] == m;
        vstd::arithmetic::div_mod::lemma_div_multiples_vanish(100, m);
        assert(spec_scaled(m, m) == 100);
        assert(out1[j] == 100);
        lemma_seq_max_bounded(out1);
        assert(forall|i: int| 0 <= i < out1.len() ==> #[trigger] out1[i] <= 100);
        lemma_seq_max_achieved(out1);
        assert(seq_max(out1) == 100) by {
            let w = choose|i: int| 0 <= i < out1.len() && out1[i] == seq_max(out1);
            assert(out1[j] <= seq_max(out1));
            assert(out1[w] <= 100);
        }
        let ring2 = seq![100u64];
        assert(ring2.len() == 1 && ring2.last() == 100u64 && ring2.drop_last().len() == 0);
        assert(seq_sum(ring2.drop_last()) == 0 && seq_sqsum(ring2.drop_last()) == 0);
        assert(seq_sum(ring2) == 100);
        assert(seq_sqsum(ring2) == 100 * 100);
        assert(seq_sum(ring2) / 1 == 100 && seq_sqsum(ring2) / 1 == 10000);
        assert(spec_isqrt(0) == 0);
        assert(spec_max_allowed(ring2) == 100);
        assert(forall|i: int|
            0 <= i < out1.len() ==> #[trigger] scale_cycle(out1)[i] == spec_scaled(
                out1[i] as int,
                100,
            ));
        assert forall|i: int| 0 <= i < out1.len() implies #[trigger] scale_cycle(out1)[i]
            == out1[i] by {
            vstd::arithmetic::div_mod::lemma_div_multiples_vanish(out1[i] as int, 100);
            assert((out1[i] as int * 100) / 100 == out1[i] as int);
        }
        assert(scale_cycle(out1) =~= out1);
    }
}

pub struct AudioTransformer {
    /// Name of the audio sink audio is streamed from.
    pub sink: String,
    /// Length of the FFT input, in samples per channel.
    pub fft_len: usize,
    /// Total number of frequency bands.
    pub total_bands: usize,
    /// Lower cutoff frequency in Hz.
    pub lower_cutoff: u64,
    /// Upper cutoff frequency in Hz.
    pub upper_cutoff: u64,
    /// Monstercat smoothing divisor.
    pub monstercat: u64,
    /// Per-cycle falloff decay subtrahend.
    pub decay: u64,
    /// Size of the audio byte buffer.
    pub buffer_size: usize,
    /// FFT bin index where each band starts.
    pub lower_idx: Vec<usize>,
    /// FFT bin index where each band ends (inclusive).
    pub upper_idx: Vec<usize>,
    /// Decay state for the left channel.
    pub left: TransformedAudio,
    /// Decay state for the right channel.
    pub right: TransformedAudio,
}

/// Distance between two band indices.
pub open spec fn dist(a: int, b: int) -> nat {
    if a >= b {
        (a - b) as nat
    } else {
        (b - a) as nat
    }
}

/// A band magnitude damped by the smoothing divisor raised to a distance.
pub open spec fn damped(v: int, mc: int, d: nat) -> int {
    v / vstd::arithmetic::power::pow(mc, d)
}

/// Maximum of `orig[j]` and every earlier band's contribution
/// `orig[k] / mc^|k - j|` for `k < b`.
pub open spec fn smoothed_upto(orig: Seq<u64>, mc: int, j: int, b: int) -> int
    decreases b,
{
    if b <= 0 {
        orig[j] as int
    } else {
        max(smoothed_upto(orig, mc, j, b - 1), damped(orig[b - 1] as int, mc, dist(b - 1, j)))
    }
}

/// The fully smoothed value of band `j`: no band may fall below any other
/// band's magnitude damped by the smoothing divisor per step of distance.
pub open spec fn spec_smoothed(orig: Seq<u64>, mc: int, j: int) -> int {
    smoothed_upto(orig, mc, j, orig.len() as int)
}

proof fn lemma_damped_le(v: int, mc: int, d1: nat, d2: nat)
    requires
        mc >= 1,
        v >= 0,
        d1 <= d2,
    ensures
        0 <= damped(v, mc, d2) <= damped(v, mc, d1) <= v,
{
    vstd::arithmetic::power::lemma_pow_positive(mc, d1);
    vstd::arithmetic::power::lemma_pow_positive(mc, d2);
    vstd::arithmetic::power::lemma_pow_increases(mc as nat, d1, d2);
    vstd::arithmetic::div_mod::lemma_div_is_ordered_by_denominator(
        v,
        vstd::arithmetic::power::pow(mc, d1),
        vstd::arithmetic::power::pow(mc, d2),
    );
    vstd::arithmetic::div_mod::lemma_div_is_ordered_by_denominator(
        v,
        1,
        vstd::arithmetic::power::pow(mc, d1),
    );
    vstd::arithmetic::div_mod::lemma_div_pos_is_pos(v, vstd::arithmetic::power::pow(mc, d2));
}

proof fn lemma_damped_chain(v: int, mc: int, a: nat, b: nat)
    requires
        mc >= 1,
        v >= 0,
    ensures
        damped(damped(v, mc, a), mc, b) == damped(v, mc, a + b),
{
    vstd::arithmetic::power::lemma_pow_positive(mc, a);
    vstd::arithmetic::power::lemma_pow_positive(mc, b);
    vstd::arithmetic::power::lemma_pow_adds(mc, a, b);
    vstd::arithmetic::div_mod::lemma_div_denominator(
        v,
        vstd::arithmetic::power::pow(mc, a),
        vstd::arithmetic::power::pow(mc, b),
    );
}

proof fn lemma_max_damped(u: int, v: int, mc: int, d: nat)
    requires
        mc >= 1,
        u >= 0,
        v >= 0,
    ensures
        damped(max(u, v), mc, d) == max(damped(u, mc, d), damped(v, mc, d)),
{
    vstd::arithmetic::power::lemma_pow_positive(mc, d);
    let p = vstd::arithmetic::power::pow(mc, d);
    if u >= v {
        vstd::arithmetic::div_mod::lemma_div_is_ordered(v, u, p);
    } else {
        vstd::arithmetic::div_mod::lemma_div_is_ordered(u, v, p);
    }
}

proof fn lemma_smoothed_ge(orig: Seq<u64>, mc: int, j: int, b: int, k: int)
    requires
        mc >= 1,
        0 <= j < orig.len(),
        0 <= b <= orig.len(),
    ensures
        smoothed_upto(orig, mc, j, b) >= orig[j],
        0 <= k < b ==> smoothed_upto(orig, mc, j, b) >= damped(orig[k] as int, mc, dist(k, j)),
    decreases b,
{
    if b > 0 {
        lemma_smoothed_ge(orig, mc, j, b - 1, k);
    }
}

proof fn lemma_smoothed_bounds(orig: Seq<u64>, mc: int, j: int, b: int)
    requires
        mc >= 1,
        0 <= j < orig.len(),
        0 <= b <= orig.len(),
        bounded_seq(orig),
    ensures
        0 <= smoothed_upto(orig, mc, j, b) <= magnitude_limit(),
    decreases b,
{
    if b > 0 {
        lemma_smoothed_bounds(orig, mc, j, b - 1);
        lemma_damped_le(orig[b - 1] as int, mc, 0, dist(b - 1, j));
    }
}

/// Folding the (already smoothed) value of band `b` into band `j` adds
/// nothing beyond band `b`'s own direct contribution: every earlier
/// band's damped share arrives at `j` at least as strongly directly.
proof fn lemma_propagate_upto(orig: Seq<u64>, mc: int, j: int, b: int, i: int)
    requires
        mc >= 1,
        0 <= j < orig.len(),
        0 <= b < orig.len(),
        j != b,
        0 <= i <= b,
    ensures
        max(
            smoothed_upto(orig, mc, j, b),
            damped(smoothed_upto(orig, mc, b, i), mc, dist(b, j)),
        ) == max(smoothed_upto(orig, mc, j, b), damped(orig[b] as int, mc, dist(b, j))),
    decreases i,
{
    let d = dist(b, j);
    if i > 0 {
        lemma_propagate_upto(orig, mc, j, b, i - 1);
        let u = smoothed_upto(orig, mc, b, i - 1);
        let v = damped(orig[i - 1] as int, mc, dist(i - 1, b));
        lemma_smoothed_ge(orig, mc, b, i - 1, 0);
        lemma_damped_le(orig[i - 1] as int, mc, 0, dist(i - 1, b));
        lemma_max_damped(u, v, mc, d);
        lemma_damped_chain(orig[i - 1] as int, mc, dist(i - 1, b), d);
        assert(dist(i - 1, j) <= dist(i - 1, b) + d);
        lemma_damped_le(orig[i - 1] as int, mc, dist(i - 1, j), dist(i - 1, b) + d);
        lemma_smoothed_ge(orig, mc, j, b, i - 1);
    }
}

/// Folding any band's fully smoothed value into band `j` adds nothing
/// beyond `j`'s own fully smoothed value: a contribution routed through
/// band `k` arrives at least as strongly directly.
proof fn lemma_damped_smoothed_le(orig: Seq<u64>, mc: int, j: int, k: int, i: int)
    requires
        mc >= 1,
        0 <= j < orig.len(),
        0 <= k < orig.len(),
        0 <= i <= orig.len(),
    ensures
        damped(smoothed_upto(orig, mc, k, i), mc, dist(k, j)) <= spec_smoothed(orig, mc, j),
    decreases i,
{
    let d = dist(k, j);
    if i == 0 {
        lemma_smoothed_ge(orig, mc, j, orig.len() as int, k);
    } else {
        lemma_damped_smoothed_le(orig, mc, j, k, i - 1);
        let u = smoothed_upto(orig, mc, k, i - 1);
        let v = damped(orig[i - 1] as int, mc, dist(i - 1, k));
        lemma_smoothed_ge(orig, mc, k, i - 1, 0);
        lemma_damped_le(orig[i - 1] as int, mc, 0, dist(i - 1, k));
        lemma_max_damped(u, v, mc, d);
        lemma_damped_chain(orig[i - 1] as int, mc, dist(i - 1, k), d);
        assert(dist(i - 1, j) <= dist(i - 1, k) + d);
        lemma_damped_le(orig[i - 1] as int, mc, dist(i - 1, j), dist(i - 1, k) + d);
        lemma_smoothed_ge(orig, mc, j, orig.len() as int, i - 1);
    }
}

/// A second smoothing pass gathers nothing new for band `j`: the running
/// maximum over already-smoothed bands stays at `j`'s smoothed value.
proof fn lemma_second_pass_le(orig: Seq<u64>, mc: int, j: int, b: int)
    requires
        mc >= 1,
        0 <= j < orig.len(),
        0 <= b <= orig.len(),
        bounded_seq(orig),
    ensures
        smoothed_upto(spec_smooth_all(orig, mc), mc, j, b) <= spec_smoothed(orig, mc, j),
    decreases b,
{
    let s = spec_smooth_all(orig, mc);
    lemma_smoothed_bounds(orig, mc, j, orig.len() as int);
    if b > 0 {
        lemma_second_pass_le(orig, mc, j, b - 1);
        lemma_smoothed_bounds(orig, mc, b - 1, orig.len() as int);
        assert(s[b - 1] as int == smoothed_upto(orig, mc, b - 1, orig.len() as int));
        lemma_damped_smoothed_le(orig, mc, j, b - 1, orig.len() as int);
    }
}

/// Law: the monstercat filter is idempotent: smoothing an already
/// smoothed band vector changes nothing.
pub proof fn lemma_smooth_idempotent(orig: Seq<u64>, mc: int)
    requires
        mc >= 1,
        bounded_seq(orig),
    ensures
        spec_smooth_all(spec_smooth_all(orig, mc), mc) == spec_smooth_all(orig, mc),
{
    let s = spec_smooth_all(orig, mc);
    assert forall|j: int| 0 <= j < orig.len() implies #[trigger] spec_smooth_all(s, mc)[j]
        == s[j] by {
        lemma_smoothed_bounds(orig, mc, j, orig.len() as int);
        assert(s[j] as int == spec_smoothed(orig, mc, j));
        lemma_smoothed_ge(s, mc, j, s.len() as int, 0);
        lemma_second_pass_le(orig, mc, j, s.len() as int);
        assert(spec_smoothed(s, mc, j) == spec_smoothed(orig, mc, j));
    }
    assert(spec_smooth_all(s, mc) =~= s);
}

/// Weighted average magnitude of one band: the mean of the FFT magnitudes
/// in the band's bin range (clamped to the input), weighted by
/// `log2(2 + n) * (100 / total_bands)` to compensate the spectrum's
/// low-frequency bias, then square-rooted.
pub open spec fn spec_band_value(input: Seq<u64>, lo: int, hi: int, n: int, tb: int) -> int {
    let hi2 = min(hi, input.len() - 1);
    if lo > hi2 {
        0
    } else {
        let cnt = hi2 - lo + 1;
        let avg = seq_sum(input.subrange(lo, hi2 + 1)) / cnt;
        spec_isqrt((avg * crate::fixed::spec_log2_fp(2 + n) * 100) / (tb * 0x1_0000_0000))
    }
}

/// Q32 coefficient distributing bands over the log-scaled spectrum:
/// `log2(upper / lower) * total_bands / (total_bands - 1)`, clamped at
/// zero, and zero for a single band.
pub open spec fn spec_freq_k(lower: int, upper: int, tb: int) -> int {
    if tb <= 1 {
        0
    } else {
        let diff = crate::fixed::spec_log2_fp(upper) - crate::fixed::spec_log2_fp(lower);
        let clamped = if diff >= 0 {
            diff
        } else {
            0
        };
        (clamped * tb) / (tb - 1)
    }
}

/// Q32 exponent by which band `n`'s cutoff frequency sits below the upper
/// cutoff: `k * (tb - n) / (tb + 1)`.
pub open spec fn spec_freq_exponent(lower: int, upper: int, tb: int, n: int) -> int {
    (spec_freq_k(lower, upper, tb) * (tb - n)) / (tb + 1)
}

/// FFT bin index of band `n`'s cutoff frequency before monotonicity
/// repair: `floor(cutoff / (rate / 4) * fft_len / 2)` with
/// `cutoff = upper * 2^-e`, evaluated as
/// `2 * fft_len * upper * 2^-e / rate` in Q32 fixed point and clamped
/// defensively to the FFT length.
pub open spec fn spec_raw_bin(lower: int, upper: int, tb: int, rate: int, fft_len: int, n: int) -> int {
    let e = spec_freq_exponent(lower, upper, tb, n);
    let ei = e / 0x1_0000_0000;
    let ef = e % 0x1_0000_0000;
    if ei >= 64 {
        0
    } else {
        min(
            (2 * fft_len * upper * 0x1_0000_0000) / (crate::fixed::spec_exp2_frac(ef) * rate * pow2(
                ei as nat,
            ) as int),
            fft_len,
        )
    }
}

/// Lower bin bound of band `n`, with colliding bounds bumped one past the
/// previous band's.
pub open spec fn spec_lower_bound(
    lower: int,
    upper: int,
    tb: int,
    rate: int,
    fft_len: int,
    n: int,
) -> int
    decreases n,
{
    if n <= 0 {
        spec_raw_bin(lower, upper, tb, rate, fft_len, 0)
    } else {
        let prev = spec_lower_bound(lower, upper, tb, rate, fft_len, n - 1);
        let raw = spec_raw_bin(lower, upper, tb, rate, fft_len, n);
        if raw <= prev {
            prev + 1
        } else {
            raw
        }
    }
}

/// All band values of one magnitude-aggregation step.
pub open spec fn spec_magnitudes(
    input: Seq<u64>,
    lower: Seq<usize>,
    upper: Seq<usize>,
    tb: int,
) -> Seq<u64> {
    Seq::new(
        tb as nat,
        |n: int| spec_band_value(input, lower[n] as int, upper[n] as int, n, tb) as u64,
    )
}

/// All band values of one smoothing step.
pub open spec fn spec_smooth_all(orig: Seq<u64>, mc: int) -> Seq<u64> {
    Seq::new(orig.len(), |j: int| spec_smoothed(orig, mc, j) as u64)
}

/// Band values published after the falloff step.
pub open spec fn spec_falloff_bands(
    fresh: Seq<u64>,
    prev: Seq<u64>,
    peaks: Seq<u64>,
    counters: Seq<u64>,
    decay: int,
) -> Seq<u64> {
    Seq::new(
        fresh.len(),
        |i: int|
            if fresh[i] < prev[i] {
                max(0, peaks[i] - counters[i] * decay) as u64
            } else {
                fresh[i]
            },
    )
}

/// Per-band peaks after the falloff step.
pub open spec fn spec_falloff_peaks(fresh: Seq<u64>, prev: Seq<u64>, peaks: Seq<u64>) -> Seq<u64> {
    Seq::new(
        fresh.len(),
        |i: int|
            if fresh[i] < prev[i] {
                peaks[i]
            } else {
                fresh[i]
            },
    )
}

/// Per-band non-rising counters after the falloff step.
pub open spec fn spec_falloff_counters(
    fresh: Seq<u64>,
    prev: Seq<u64>,
    counters: Seq<u64>,
) -> Seq<u64> {
    Seq::new(
        fresh.len(),
        |i: int|
            if fresh[i] < prev[i] {
                min(counters[i] + 1, u64::MAX as int) as u64
            } else {
                1u64
            },
    )
}

impl AudioTransformer {
    /// Transformer configuration and per-channel state are consistent.
    pub open spec fn wf(&self) -> bool {
        &&& 1 <= self.total_bands <= 0x100_0000
        &&& 1 <= self.fft_len <= 0x100_0000
        &&& 1 <= self.lower_cutoff < self.upper_cutoff <= 0x1_0000_0000
        &&& self.monstercat >= 1
        &&& self.lower_idx@.len() == self.total_bands
        &&& self.upper_idx@.len() == self.total_bands
        &&& self.left.wf(self.total_bands as int, self.fft_len as int)
        &&& self.right.wf(self.total_bands as int, self.fft_len as int)
        &&& bounded_seq(self.left.band_max@)
        &&& bounded_seq(self.right.band_max@)
        &&& display_range(self.left.bands@)
        &&& display_range(self.left.band_peaks@)
        &&& display_range(self.right.bands@)
        &&& display_range(self.right.band_peaks@)
    }

    /// Instantiates a transformer for the given configuration, with both
    /// channels' decay state zeroed and a whole-spectrum band partition
    /// until `set_rate` supplies the negotiated sample rate.
    pub fn new(
        sink: String,
        fft_len: usize,
        total_bands: usize,
        lower_cutoff: u64,
        upper_cutoff: u64,
        monstercat: u64,
        decay: u64,
        buffer_size: usize,
    ) -> (t: AudioTransformer)
        requires
            1 <= total_bands <= 0x100_0000,
            1 <= fft_len <= 0x100_0000,
            1 <= lower_cutoff < upper_cutoff <= 0x1_0000_0000,
            monstercat >= 1,
        ensures
            t.wf(),
            t.sink@ == sink@,
            t.fft_len == fft_len,
            t.total_bands == total_bands,
            t.lower_cutoff == lower_cutoff,
            t.upper_cutoff == upper_cutoff,
            t.monstercat == monstercat,
            t.decay == decay,
            t.buffer_size == buffer_size,
            all_zero(t.left.band_max@),
            all_zero(t.left.bands@),
            all_zero(t.left.band_peaks@),
            all_zero(t.left.falloff@),
            all_zero(t.right.band_max@),
            all_zero(t.right.bands@),
            all_zero(t.right.band_peaks@),
            all_zero(t.right.falloff@),
    {
        AudioTransformer {
            sink,
            fft_len,
            total_bands,
            lower_cutoff,
            upper_cutoff,
            monstercat,
            decay,
            buffer_size,
            lower_idx: vec![0usize; total_bands],
            upper_idx: vec![fft_len; total_bands],
            left: TransformedAudio::new(total_bands, fft_len),
            right: TransformedAudio::new(total_bands, fft_len),
        }
    }

    /// Recomputes the band partition for the sample rate the audio source
    /// negotiated.
    pub fn set_rate(&mut self, rate: u64)
        requires
            old(self).wf(),
            1 <= rate <= 0x1_0000_0000,
        ensures
            final(self).wf(),
            final(self).lower_idx@.len() == final(self).total_bands,
            forall|n: int|
                #![trigger final(self).lower_idx@[n]]
                0 <= n < old(self).total_bands ==> final(self).lower_idx@[n] == spec_lower_bound(
                    old(self).lower_cutoff as int,
                    old(self).upper_cutoff as int,
                    old(self).total_bands as int,
                    rate as int,
                    old(self).fft_len as int,
                    n,
                ),
            forall|n: int|
                #![trigger final(self).upper_idx@[n]]
                0 <= n < old(self).total_bands - 1 ==> final(self).upper_idx@[n] + 1
                    == final(self).lower_idx@[n + 1],
            final(self).upper_idx@[old(self).total_bands - 1] == old(self).fft_len,
            *final(self) == (AudioTransformer {
                lower_idx: final(self).lower_idx,
                upper_idx: final(self).upper_idx,
                ..*old(self)
            }),
    {
        let (lower_idx, upper_idx) = Self::cutoff_frequencies(
            self.total_bands,
            self.lower_cutoff,
            self.upper_cutoff,
            rate,
            self.fft_len,
        );
        self.lower_idx = lower_idx;
        self.upper_idx = upper_idx;
    }

    /// Computes, for every band, the inclusive range of FFT bin indices to
    /// merge: a logarithmic partition of the spectrum between the two
    /// cutoff frequencies, with strictly increasing lower bounds, each
    /// upper bound one below the next band's lower bound, and the last
    /// upper bound clamped to the FFT length.
    pub fn cutoff_frequencies(
        total_bands: usize,
        lower_cutoff: u64,
        upper_cutoff: u64,
        rate: u64,
        fft_len: usize,
    ) -> (bounds: (Vec<usize>, Vec<usize>))
        requires
            1 <= total_bands <= 0x100_0000,
            1 <= lower_cutoff < upper_cutoff <= 0x1_0000_0000,
            1 <= rate <= 0x1_0000_0000,
            1 <= fft_len <= 0x100_0000,
        ensures
            bounds.0@.len() == total_bands,
            bounds.1@.len() == total_bands,
            forall|n: int|
                #![trigger bounds.0@[n]]
                0 <= n < total_bands ==> bounds.0@[n] == spec_lower_bound(
                    lower_cutoff as int,
                    upper_cutoff as int,
                    total_bands as int,
                    rate as int,
                    fft_len as int,
                    n,
                ),
            forall|n: int| 0 < n < total_bands ==> #[trigger] bounds.0@[n] > bounds.0@[n - 1],
            forall|n: int|
                #![trigger bounds.1@[n]]
                0 <= n < total_bands - 1 ==> bounds.1@[n] + 1 == bounds.0@[n + 1],
            bounds.1@[total_bands - 1] == fft_len,
    {
        let ghost lower_i = lower_cutoff as int;
        let ghost upper_i = upper_cutoff as int;
        let ghost tb_i = total_bands as int;
        let ghost rate_i = rate as int;
        let ghost fft_i = fft_len as int;

        // log-scale distribution coefficient
        let k: u64;
        if total_bands == 1 {
            k = 0;
        } else {
            let la = crate::fixed::log2_fp(lower_cutoff);
            let ua = crate::fixed::log2_fp(upper_cutoff);
            let diff: u64 = if ua >= la {
                ua - la
            } else {
                0
            };
            proof {
                assert((diff as int) * (tb_i) <= u128::MAX) by (nonlinear_arith)
                    requires
                        0 <= diff < 0x1_0000_0000_0000_0000,
                        0 <= tb_i <= 0x100_0000,
                ;
            }
            let k_wide: u128 = ((diff as u128) * (total_bands as u128)) / ((total_bands as u128)
                - 1);
            proof {
                assert(k_wide <= 2 * diff) by (nonlinear_arith)
                    requires
                        k_wide == ((diff as int) * (tb_i)) / (tb_i - 1),
                        tb_i >= 2,
                        diff >= 0,
                ;
            }
            k = k_wide as u64;
        }
        proof {
            assert(k == spec_freq_k(lower_i, upper_i, tb_i));
            assert(k < 0x80_0000_0000);
        }

        let mut lower_idx: Vec<usize> = Vec::new();
        let mut upper_idx: Vec<usize> = vec![0usize; total_bands];
        let mut n: usize = 0;
        while n < total_bands
            invariant
                n <= total_bands <= 0x100_0000,
                lower_idx@.len() == n,
                upper_idx@.len() == total_bands,
                k == spec_freq_k(lower_i, upper_i, tb_i),
                k < 0x80_0000_0000,
                tb_i == total_bands as int,
                lower_i == lower_cutoff as int,
                upper_i == upper_cutoff as int,
                rate_i == rate as int,
                fft_i == fft_len as int,
                1 <= lower_cutoff < upper_cutoff <= 0x1_0000_0000,
                1 <= rate <= 0x1_0000_0000,
                1 <= fft_len <= 0x100_0000,
                forall|t: int|
                    #![trigger lower_idx@[t]]
                    0 <= t < n ==> lower_idx@[t] == spec_lower_bound(
                        lower_i,
                        upper_i,
                        tb_i,
                        rate_i,
                        fft_i,
                        t,
                    ),
                forall|t: int| 0 <= t < n ==> lower_idx@[t] <= fft_i + t,
                forall|t: int| 0 < t < n ==> #[trigger] lower_idx@[t] > lower_idx@[t - 1],
                forall|t: int|
                    #![trigger upper_idx@[t]]
                    0 <= t < n - 1 ==> upper_idx@[t] + 1 == lower_idx@[t + 1],
            decreases total_bands - n,
        {
            proof {
                assert((k as int) * (tb_i - n) <= u128::MAX) by (nonlinear_arith)
                    requires
                        0 <= k < 0x80_0000_0000,
                        0 <= tb_i - n <= 0x100_0000,
                ;
            }
            let e_wide: u128 = ((k as u128) * ((total_bands - n) as u128)) / ((total_bands as u128)
                + 1);
            proof {
                assert(e_wide <= k) by (nonlinear_arith)
                    requires
                        e_wide == ((k as int) * (tb_i - n)) / (tb_i + 1),
                        0 <= tb_i - n <= tb_i + 1,
                        k >= 0,
                        tb_i >= 1,
                ;
                assert(e_wide == spec_freq_exponent(lower_i, upper_i, tb_i, n as int));
            }
            let ei: u64 = (e_wide / 0x1_0000_0000) as u64;
            let ef: u64 = (e_wide % 0x1_0000_0000) as u64;
            let raw: usize;
            if ei >= 64 {
                raw = 0;
            } else {
                let p = crate::fixed::exp2_frac(ef);
                let pw = crate::fixed::pow2_u64(ei as u32);
                proof {
                    assert(2 * fft_i * upper_i <= 0x200_0000_0000_0000) by (nonlinear_arith)
                        requires
                            1 <= fft_i <= 0x100_0000,
                            1 <= upper_i <= 0x1_0000_0000,
                    ;
                }
                let base: u128 = 2 * (fft_len as u128) * (upper_cutoff as u128);
                let numer: u128 = base * 0x1_0000_0000;
                proof {
                    assert(0x1_0000_0000 <= (p as int) * (rate as int) <= u128::MAX)
                        by (nonlinear_arith)
                        requires
                            0x1_0000_0000 <= p < 0x1_0000_0000_0000_0000,
                            1 <= rate <= 0x1_0000_0000,
                    ;
                }
                let d1: u128 = (p as u128) * (rate as u128);
                let q1: u128 = numer / d1;
                let q2: u128 = q1 / (pw as u128);
                proof {
                    assert(d1 >= 0x1_0000_0000) by (nonlinear_arith)
                        requires
                            d1 == (p as int) * (rate as int),
                            p >= 0x1_0000_0000,
                            rate >= 1,
                    ;
                    vstd::arithmetic::div_mod::lemma_div_denominator(
                        numer as int,
                        d1 as int,
                        pw as int,
                    );
                    vstd::arithmetic::div_mod::lemma_div_is_ordered_by_denominator(
                        numer as int,
                        0x1_0000_0000,
                        d1 as int,
                    );
                    vstd::arithmetic::div_mod::lemma_div_multiples_vanish(
                        base as int,
                        0x1_0000_0000,
                    );
                    assert(q1 <= base);
                    vstd::arithmetic::div_mod::lemma_div_nonincreasing(q1 as int, pw as int);
                    assert(base <= 0x200_0000_0000_0000) by (nonlinear_arith)
                        requires
                            base == 2 * fft_i * upper_i,
                            1 <= fft_i <= 0x100_0000,
                            1 <= upper_i <= 0x1_0000_0000,
                    ;
                    assert((d1 as int) * (pw as int) == (p as int) * (rate as int) * (pow2(
                        ei as nat,
                    ) as int));
                }
                raw = if q2 >= fft_len as u128 {
                    fft_len
                } else {
                    q2 as usize
                };
            }
            proof {
                assert(raw == spec_raw_bin(lower_i, upper_i, tb_i, rate_i, fft_i, n as int));
                assert(raw <= fft_i);
            }
            let bound: usize;
            if n > 0 {
                let prev = lower_idx[n - 1];
                if raw <= prev {
                    bound = prev + 1;
                } else {
                    bound = raw;
                }
                upper_idx.set(n - 1, bound - 1);
            } else {
                bound = raw;
            }
            lower_idx.push(bound);
            n += 1;
        }
        upper_idx.set(total_bands - 1, fft_len);
        proof {
            assert(forall|t: int|
                0 <= t < total_bands - 1 ==> #[trigger] upper_idx@[t] + 1 == lower_idx@[t + 1]);
        }
        (lower_idx, upper_idx)
    }

    /// Computes the weighted average FFT magnitude of every band's bin
    /// range, writing one value per band into `bands`.
    pub fn magnitudes(
        bands: &mut Vec<u64>,
        input: Vec<u64>,
        lower_cutoff_freq: &Vec<usize>,
        upper_cutoff_freq: &Vec<usize>,
    )
        requires
            lower_cutoff_freq@.len() == old(bands)@.len(),
            upper_cutoff_freq@.len() == old(bands)@.len(),
            1 <= old(bands)@.len() <= 0x100_0000,
            input@.len() <= 0x100_0000,
            bounded_seq(input@),
        ensures
            final(bands)@.len() == old(bands)@.len(),
            forall|n: int|
                #![trigger final(bands)@[n]]
                0 <= n < old(bands)@.len() ==> final(bands)@[n] == spec_band_value(
                    input@,
                    lower_cutoff_freq@[n] as int,
                    upper_cutoff_freq@[n] as int,
                    n,
                    old(bands)@.len() as int,
                ),
            bounded_seq(final(bands)@),
    {
        let tb = bands.len();
        let mut n: usize = 0;
        while n < tb
            invariant
                n <= tb == bands@.len(),
                lower_cutoff_freq@.len() == tb,
                upper_cutoff_freq@.len() == tb,
                1 <= tb <= 0x100_0000,
                input@.len() <= 0x100_0000,
                bounded_seq(input@),
                forall|t: int|
                    #![trigger bands@[t]]
                    0 <= t < n ==> bands@[t] == spec_band_value(
                        input@,
                        lower_cutoff_freq@[t] as int,
                        upper_cutoff_freq@[t] as int,
                        t,
                        tb as int,
                    ),
                forall|t: int| 0 <= t < n ==> bands@[t] <= magnitude_limit(),
            decreases tb - n,
        {
            let lo = lower_cutoff_freq[n];
            let hi = upper_cutoff_freq[n];
            let hi2 = if hi >= input.len() {
                if input.len() == 0 {
                    0
                } else {
                    input.len() - 1
                }
            } else {
                hi
            };
            let value: u64;
            if input.len() == 0 || lo > hi2 {
                value = 0;
                proof {
                    assert(min(hi as int, input@.len() - 1) < lo);
                }
            } else {
                // average the FFT magnitudes of the band's bin range
                let mut sum: u128 = 0;
                let mut j: usize = lo;
                while j <= hi2
                    invariant
                        lo <= j <= hi2 + 1,
                        hi2 < input@.len() <= 0x100_0000,
                        bounded_seq(input@),
                        sum == seq_sum(input@.subrange(lo as int, j as int)),
                        sum <= (j - lo) * magnitude_limit(),
                    decreases hi2 + 1 - j,
                {
                    proof {
                        assert(input@.subrange(lo as int, j + 1).drop_last() =~= input@.subrange(
                            lo as int,
                            j as int,
                        ));
                        let l = magnitude_limit();
                        let w = j - lo;
                        assert(w * l + l == (w + 1) * l) by (nonlinear_arith);
                        assert(w * l + l <= 0x100_0000 * l) by (nonlinear_arith)
                            requires
                                0 <= w < 0x100_0000,
                                l > 0,
                        ;
                    }
                    sum = sum + input[j] as u128;
                    j += 1;
                }
                let cnt = hi2 - lo + 1;
                let avg: u128 = sum / (cnt as u128);
                let w = crate::fixed::log2_fp(2 + n as u64);
                proof {
                    let l = magnitude_limit();
                    assert(avg <= l) by (nonlinear_arith)
                        requires
                            avg == sum / (cnt as u128),
                            1 <= cnt,
                            0 <= sum <= (cnt as int) * l,
                            l > 0,
                    ;
                    assert(avg * w * 100 <= l * 0x40_0000_0000 * 100) by (nonlinear_arith)
                        requires
                            0 <= avg <= l,
                            0 <= w < 0x40_0000_0000,
                    ;
                }
                let val: u128 = (avg * (w as u128) * 100) / ((tb as u128) * 0x1_0000_0000);
                let root = isqrt(val);
                proof {
                    assert(val <= avg * (w as int) * 100) by (nonlinear_arith)
                        requires
                            val == (avg * (w as int) * 100) / ((tb as int) * 0x1_0000_0000),
                            avg * (w as int) * 100 >= 0,
                            (tb as int) * 0x1_0000_0000 >= 1,
                    ;
                    assert(root <= magnitude_limit()) by (nonlinear_arith)
                        requires
                            (root as int) * (root as int) <= val,
                            val <= magnitude_limit() * 0x40_0000_0000 * 100,
                            root >= 0,
                    ;
                }
                value = root;
            }
            bands.set(n, value);
            n += 1;
        }
    }

    /// Applies the monstercat filter: every band is raised to at least any
    /// other band's magnitude divided by `monstercat` once per step of
    /// distance, producing a tent-shaped local smoothing.
    pub fn smooth(input: &mut Vec<u64>, monstercat: u64)
        requires
            monstercat >= 1,
        ensures
            final(input)@.len() == old(input)@.len(),
            forall|j: int|
                #![trigger final(input)@[j]]
                0 <= j < old(input)@.len() ==> final(input)@[j] == spec_smoothed(
                    old(input)@,
                    monstercat as int,
                    j,
                ),
            bounded_seq(old(input)@) ==> bounded_seq(final(input)@),
    {
        let ghost orig = old(input)@;
        let ghost mc = monstercat as int;
        let len = input.len();
        let mut band: usize = 0;
        while band < len
            invariant
                band <= len == input@.len() == orig.len(),
                monstercat >= 1,
                mc == monstercat as int,
                forall|j: int|
                    #![trigger input@[j]]
                    0 <= j < len ==> input@[j] == smoothed_upto(orig, mc, j, band as int),
            decreases len - band,
        {
            let cur = input[band];
            proof {
                assert(cur == smoothed_upto(orig, mc, band as int, band as int));
            }
            // raise earlier bands that deviate too much
            let mut v = cur;
            let mut idx = band;
            proof {
                vstd::arithmetic::power::lemma_pow0(mc);
                vstd::arithmetic::div_mod::lemma_div_by_multiple(cur as int, 1);
                assert(damped(cur as int, mc, 0) == cur as int);
            }
            while idx > 0
                invariant
                    0 <= idx <= band < len == input@.len() == orig.len(),
                    monstercat >= 1,
                    mc == monstercat as int,
                    cur == smoothed_upto(orig, mc, band as int, band as int),
                    v == damped(cur as int, mc, dist(band as int, idx as int)),
                    forall|j: int|
                        #![trigger input@[j]]
                        0 <= j < idx ==> input@[j] == smoothed_upto(orig, mc, j, band as int),
                    forall|j: int|
                        #![trigger input@[j]]
                        idx <= j < band ==> input@[j] == smoothed_upto(orig, mc, j, band as int + 1),
                    forall|j: int|
                        #![trigger input@[j]]
                        band <= j < len ==> input@[j] == smoothed_upto(orig, mc, j, band as int),
                decreases idx,
            {
                idx -= 1;
                proof {
                    vstd::arithmetic::power::lemma_pow1(mc);
                    lemma_damped_chain(cur as int, mc, dist(band as int, idx as int + 1), 1);
                    assert(dist(band as int, idx as int + 1) + 1 == dist(band as int, idx as int));
                }
                v = v / monstercat;
                proof {
                    lemma_propagate_upto(orig, mc, idx as int, band as int, band as int);
                    lemma_smoothed_ge(orig, mc, band as int, band as int, 0);
                }
                if v > input[idx] {
                    input.set(idx, v);
                }
            }
            // raise following bands that deviate too much
            let mut w = cur;
            let mut fwd = band + 1;
            proof {
                vstd::arithmetic::power::lemma_pow0(mc);
                vstd::arithmetic::div_mod::lemma_div_by_multiple(cur as int, 1);
                assert(damped(cur as int, mc, 0) == cur as int);
            }
            while fwd < len
                invariant
                    band < fwd <= len,
                    band < len == input@.len() == orig.len(),
                    monstercat >= 1,
                    mc == monstercat as int,
                    cur == smoothed_upto(orig, mc, band as int, band as int),
                    w == damped(cur as int, mc, dist(band as int, fwd as int - 1)),
                    forall|j: int|
                        #![trigger input@[j]]
                        0 <= j < band ==> input@[j] == smoothed_upto(orig, mc, j, band as int + 1),
                    input@[band as int] == smoothed_upto(orig, mc, band as int, band as int),
                    forall|j: int|
                        #![trigger input@[j]]
                        band < j < fwd ==> input@[j] == smoothed_upto(orig, mc, j, band as int + 1),
                    forall|j: int|
                        #![trigger input@[j]]
                        fwd <= j < len ==> input@[j] == smoothed_upto(orig, mc, j, band as int),
                decreases len - fwd,
            {
                proof {
                    vstd::arithmetic::power::lemma_pow1(mc);
                    lemma_damped_chain(cur as int, mc, dist(band as int, fwd as int - 1), 1);
                    assert(dist(band as int, fwd as int - 1) + 1 == dist(band as int, fwd as int));
                }
                w = w / monstercat;
                proof {
                    lemma_propagate_upto(orig, mc, fwd as int, band as int, band as int);
                    lemma_smoothed_ge(orig, mc, band as int, band as int, 0);
                }
                if w > input[fwd] {
                    input.set(fwd, w);
                }
                fwd += 1;
            }
            proof {
                // band `band` itself: its own damped share adds nothing new
                lemma_smoothed_ge(orig, mc, band as int, band as int, 0);
                vstd::arithmetic::power::lemma_pow0(mc);
                vstd::arithmetic::div_mod::lemma_div_by_multiple(orig[band as int] as int, 1);
                assert(damped(orig[band as int] as int, mc, dist(band as int, band as int))
                    == orig[band as int] as int);
                assert(input@[band as int] == smoothed_upto(orig, mc, band as int, band as int + 1));
            }
            band += 1;
        }
        proof {
            if bounded_seq(orig) {
                assert forall|j: int| 0 <= j < orig.len() implies input@[j] <= magnitude_limit() by {
                    lemma_smoothed_bounds(orig, mc, j, orig.len() as int);
                }
            }
        }
    }

    /// Rescales every band against the recent loudness history kept in
    /// `transformed.band_max`, so that the output adapts to the overall
    /// level; results lie in 0..=100. The current cycle's maximum is
    /// recorded in front of the history ring first.
    pub fn scale(bands: &mut Vec<u64>, transformed: &mut TransformedAudio)
        requires
            1 <= old(transformed).band_max@.len() <= 0x100_0000,
            bounded_seq(old(transformed).band_max@),
            bounded_seq(old(bands)@),
        ensures
            final(transformed).band_max@ == shifted_ring(
                old(transformed).band_max@,
                seq_max(old(bands)@) as u64,
            ),
            final(transformed).bands@ == old(transformed).bands@,
            final(transformed).band_peaks@ == old(transformed).band_peaks@,
            final(transformed).falloff@ == old(transformed).falloff@,
            final(bands)@.len() == old(bands)@.len(),
            forall|i: int| 0 <= i < old(bands)@.len() ==> final(bands)@[i] == spec_scaled(
                old(bands)@[i] as int,
                spec_max_allowed(final(transformed).band_max@),
            ),
            forall|i: int| 0 <= i < old(bands)@.len() ==> final(bands)@[i] <= 100,
    {
        proof {
            lemma_seq_max_bounded(old(bands)@);
        }
        // current cycle's maximum band magnitude
        let mut cur_max: u64 = 0;
        let mut i: usize = 0;
        while i < bands.len()
            invariant
                i <= bands@.len(),
                bands@ == old(bands)@,
                cur_max == seq_max(bands@.take(i as int)),
                cur_max <= magnitude_limit(),
                bounded_seq(bands@),
            decreases bands@.len() - i,
        {
            proof {
                assert(bands@.take(i + 1).drop_last() =~= bands@.take(i as int));
            }
            if bands[i] > cur_max {
                cur_max = bands[i];
            }
            i += 1;
        }
        proof {
            assert(bands@.take(bands@.len() as int) =~= bands@);
        }

        // record it in front of the history ring
        let ghost old_ring = transformed.band_max@;
        let mut j: usize = transformed.band_max.len() - 1;
        while j > 0
            invariant
                0 <= j < transformed.band_max@.len(),
                transformed.band_max@.len() == old_ring.len(),
                transformed.bands@ == old(transformed).bands@,
                transformed.band_peaks@ == old(transformed).band_peaks@,
                transformed.falloff@ == old(transformed).falloff@,
                forall|k: int| 0 <= k <= j ==> transformed.band_max@[k] == old_ring[k],
                forall|k: int| j < k < old_ring.len() ==> transformed.band_max@[k] == old_ring[k - 1],
            decreases j,
        {
            let prev = transformed.band_max[j - 1];
            transformed.band_max.set(j, prev);
            j -= 1;
        }
        transformed.band_max.set(0, cur_max);
        proof {
            assert(transformed.band_max@ =~= shifted_ring(old_ring, cur_max));
            assert(bounded_seq(transformed.band_max@)) by {
                assert(forall|k: int| 0 <= k < old_ring.len() - 1 ==> shifted_ring(old_ring, cur_max)[k + 1]
                    == old_ring[k]);
            }
        }

        // mean and standard deviation of the history
        let n = transformed.band_max.len();
        let mut sum: u128 = 0;
        let mut sqsum: u128 = 0;
        let mut k: usize = 0;
        while k < n
            invariant
                k <= n == transformed.band_max@.len(),
                n <= 0x100_0000,
                bounded_seq(transformed.band_max@),
                sum == seq_sum(transformed.band_max@.take(k as int)),
                sqsum == seq_sqsum(transformed.band_max@.take(k as int)),
                sum <= k * magnitude_limit(),
                sqsum <= k * (magnitude_limit() * magnitude_limit()),
            decreases n - k,
        {
            let v = transformed.band_max[k];
            proof {
                assert(transformed.band_max@.take(k + 1).drop_last() =~= transformed.band_max@.take(
                    k as int,
                ));
                let l = magnitude_limit();
                assert((v as int) * (v as int) <= l * l) by (nonlinear_arith)
                    requires
                        0 <= v <= l,
                ;
                assert((k + 1) * l == k * l + l) by (nonlinear_arith);
                assert((k + 1) * (l * l) == k * (l * l) + l * l) by (nonlinear_arith);
                assert(k * l + l <= 0x100_0000 * l) by (nonlinear_arith)
                    requires
                        k < 0x100_0000,
                        l >= 0,
                        k >= 0,
                ;
                assert(k * (l * l) + l * l <= 0x100_0000 * (l * l)) by (nonlinear_arith)
                    requires
                        k < 0x100_0000,
                        l >= 0,
                        k >= 0,
                ;
            }
            sum = sum + v as u128;
            sqsum = sqsum + (v as u128) * (v as u128);
            k += 1;
        }
        proof {
            assert(transformed.band_max@.take(n as int) =~= transformed.band_max@);
        }
        let mean: u128 = sum / (n as u128);
        let msq: u128 = sqsum / (n as u128);
        proof {
            let l = magnitude_limit();
            assert(mean <= l && msq <= l * l) by (nonlinear_arith)
                requires
                    mean == sum / (n as u128),
                    msq == sqsum / (n as u128),
                    1 <= n,
                    0 <= sum <= (n as int) * l,
                    0 <= sqsum <= (n as int) * (l * l),
                    l > 0,
            ;
            assert(mean * mean <= l * l) by (nonlinear_arith)
                requires
                    0 <= mean <= l,
            ;
        }
        let var: u128 = if msq >= mean * mean {
            msq - mean * mean
        } else {
            0
        };
        let sd: u64 = isqrt(var);
        proof {
            assert((sd as int) * (sd as int) <= var);
            assert(sd <= 0x1_0000_0000_0000_0000) by (nonlinear_arith)
                requires
                    (sd as int) * (sd as int) <= var,
                    var <= u128::MAX,
                    sd >= 0,
                    (0x1_0000_0000_0000_0000 as int) * (0x1_0000_0000_0000_0000 as int) - 1 == u128::MAX,
            ;
        }
        let allowed_wide: u128 = mean + 2 * (sd as u128);
        let allowed: u128 = if allowed_wide < 1 {
            1
        } else {
            allowed_wide
        };
        proof {
            assert(allowed == spec_max_allowed(transformed.band_max@));
        }

        // rescale every band against the allowed maximum
        let mut b: usize = 0;
        let ghost old_bands = bands@;
        while b < bands.len()
            invariant
                b <= bands@.len() == old_bands.len(),
                bounded_seq(old_bands),
                allowed == spec_max_allowed(transformed.band_max@),
                allowed >= 1,
                forall|t: int| b <= t < old_bands.len() ==> bands@[t] == old_bands[t],
                forall|t: int| 0 <= t < b ==> bands@[t] == spec_scaled(
                    old_bands[t] as int,
                    spec_max_allowed(transformed.band_max@),
                ),
                forall|t: int| 0 <= t < b ==> bands@[t] <= 100,
            decreases bands@.len() - b,
        {
            let v = bands[b];
            let scaled_wide: u128 = ((v as u128) * 100) / allowed;
            let scaled: u64 = if scaled_wide > 100 {
                100
            } else {
                scaled_wide as u64
            };
            bands.set(b, scaled);
            b += 1;
        }
    }

    /// Runs one full transform cycle for one channel: magnitude
    /// aggregation over the band partition, monstercat smoothing, adaptive
    /// scaling against the loudness history, and falloff decay.
    fn process_channel(
        input: Vec<u64>,
        lower_idx: &Vec<usize>,
        upper_idx: &Vec<usize>,
        total_bands: usize,
        monstercat: u64,
        decay: u64,
        ta: &mut TransformedAudio,
    ) -> (bands: Vec<u64>)
        requires
            lower_idx@.len() == total_bands,
            upper_idx@.len() == total_bands,
            1 <= total_bands <= 0x100_0000,
            monstercat >= 1,
            input@.len() <= 0x100_0000,
            bounded_seq(input@),
            1 <= old(ta).band_max@.len() <= 0x100_0000,
            bounded_seq(old(ta).band_max@),
            old(ta).bands@.len() == total_bands,
            old(ta).band_peaks@.len() == total_bands,
            old(ta).falloff@.len() == total_bands,
            display_range(old(ta).bands@),
            display_range(old(ta).band_peaks@),
        ensures
            bands@.len() == total_bands,
            final(ta).band_max@.len() == old(ta).band_max@.len(),
            bounded_seq(final(ta).band_max@),
            final(ta).bands@.len() == total_bands,
            final(ta).band_peaks@.len() == total_bands,
            final(ta).falloff@.len() == total_bands,
            display_range(bands@),
            display_range(final(ta).bands@),
            display_range(final(ta).band_peaks@),
            ({
                let mags = spec_magnitudes(input@, lower_idx@, upper_idx@, total_bands as int);
                let sm = spec_smooth_all(mags, monstercat as int);
                let ring = shifted_ring(old(ta).band_max@, seq_max(sm) as u64);
                let sc = spec_scale_all(sm, ring);
                &&& bands@ == spec_falloff_bands(
                    sc,
                    old(ta).bands@,
                    old(ta).band_peaks@,
                    old(ta).falloff@,
                    decay as int,
                )
                &&& final(ta).band_max@ == ring
                &&& final(ta).bands@ == bands@
                &&& final(ta).band_peaks@ == spec_falloff_peaks(
                    sc,
                    old(ta).bands@,
                    old(ta).band_peaks@,
                )
                &&& final(ta).falloff@ == spec_falloff_counters(
                    sc,
                    old(ta).bands@,
                    old(ta).falloff@,
                )
            }),
    {
        let ghost mags_s = spec_magnitudes(input@, lower_idx@, upper_idx@, total_bands as int);
        let ghost mc_i = monstercat as int;
        let mut bands: Vec<u64> = vec![0u64; total_bands];
        Self::magnitudes(&mut bands, input, lower_idx, upper_idx);
        proof {
            assert(bands@ =~= mags_s);
        }
        let ghost sm_s = spec_smooth_all(mags_s, mc_i);
        Self::smooth(&mut bands, monstercat);
        proof {
            assert(bands@ =~= sm_s);
        }
        let ghost ring_s = shifted_ring(ta.band_max@, seq_max(sm_s) as u64);
        let ghost sc_s = spec_scale_all(sm_s, ring_s);
        let ghost pre_ring = old(ta).band_max@;
        Self::scale(&mut bands, ta);
        proof {
            assert(bands@ =~= sc_s);
            lemma_seq_max_bounded(sm_s);
            assert forall|k: int| 0 <= k < ta.band_max@.len() implies ta.band_max@[k]
                <= magnitude_limit() by {
                if k > 0 {
                    assert(ta.band_max@[k] == pre_ring.drop_last()[k - 1]);
                }
            }
        }
        let ghost pre = *ta;
        Self::falloff(&mut bands, ta, decay);
        proof {
            assert(bands@ =~= spec_falloff_bands(
                sc_s,
                pre.bands@,
                pre.band_peaks@,
                pre.falloff@,
                decay as int,
            ));
            assert forall|i: int| 0 <= i < total_bands implies ta.band_peaks@[i]
                == spec_falloff_peaks(sc_s, pre.bands@, pre.band_peaks@)[i] && ta.falloff@[i]
                == spec_falloff_counters(sc_s, pre.bands@, pre.falloff@)[i] by {
                // mention the frame element so the falloff postcondition instantiates
                assert(bands@[i] == bands@[i]);
            }
            assert(ta.band_peaks@ =~= spec_falloff_peaks(sc_s, pre.bands@, pre.band_peaks@));
            assert(ta.falloff@ =~= spec_falloff_counters(sc_s, pre.bands@, pre.falloff@));
            // the published values stay in the 0..=100 display range
            assert forall|i: int| 0 <= i < total_bands implies bands@[i] <= 100
                && ta.band_peaks@[i] <= 100 by {
                lemma_scaled_range(sm_s[i] as int, spec_max_allowed(ring_s));
                assert(sc_s[i] <= 100);
                assert(bands@[i] == bands@[i]);
            }
        }
        bands
    }

    /// Transforms one frame of left-channel FFT magnitudes into scaled,
    /// decayed band values, advancing the left channel's state.
    pub fn process_left(&mut self, input: Vec<u64>) -> (bands: Vec<u64>)
        requires
            old(self).wf(),
            input@.len() <= 0x100_0000,
            bounded_seq(input@),
        ensures
            final(self).wf(),
            bands@.len() == old(self).total_bands,
            display_range(bands@),
            ({
                let mags = spec_magnitudes(
                    input@,
                    old(self).lower_idx@,
                    old(self).upper_idx@,
                    old(self).total_bands as int,
                );
                let sm = spec_smooth_all(mags, old(self).monstercat as int);
                let ring = shifted_ring(old(self).left.band_max@, seq_max(sm) as u64);
                let sc = spec_scale_all(sm, ring);
                &&& bands@ == spec_falloff_bands(
                    sc,
                    old(self).left.bands@,
                    old(self).left.band_peaks@,
                    old(self).left.falloff@,
                    old(self).decay as int,
                )
                &&& final(self).left.band_max@ == ring
                &&& final(self).left.bands@ == bands@
                &&& final(self).left.band_peaks@ == spec_falloff_peaks(
                    sc,
                    old(self).left.bands@,
                    old(self).left.band_peaks@,
                )
                &&& final(self).left.falloff@ == spec_falloff_counters(
                    sc,
                    old(self).left.bands@,
                    old(self).left.falloff@,
                )
            }),
            *final(self) == (AudioTransformer { left: final(self).left, ..*old(self) }),
    {
        Self::process_channel(
            input,
            &self.lower_idx,
            &self.upper_idx,
            self.total_bands,
            self.monstercat,
            self.decay,
            &mut self.left,
        )
    }

    /// Transforms one frame of right-channel FFT magnitudes into scaled,
    /// decayed band values, advancing the right channel's state.
    pub fn process_right(&mut self, input: Vec<u64>) -> (bands: Vec<u64>)
        requires
            old(self).wf(),
            input@.len() <= 0x100_0000,
            bounded_seq(input@),
        ensures
            final(self).wf(),
            bands@.len() == old(self).total_bands,
            display_range(bands@),
            ({
                let mags = spec_magnitudes(
                    input@,
                    old(self).lower_idx@,
                    old(self).upper_idx@,
                    old(self).total_bands as int,
                );
                let sm = spec_smooth_all(mags, old(self).monstercat as int);
                let ring = shifted_ring(old(self).right.band_max@, seq_max(sm) as u64);
                let sc = spec_scale_all(sm, ring);
                &&& bands@ == spec_falloff_bands(
                    sc,
                    old(self).right.bands@,
                    old(self).right.band_peaks@,
                    old(self).right.falloff@,
                    old(self).decay as int,
                )
                &&& final(self).right.band_max@ == ring
                &&& final(self).right.bands@ == bands@
                &&& final(self).right.band_peaks@ == spec_falloff_peaks(
                    sc,
                    old(self).right.bands@,
                    old(self).right.band_peaks@,
                )
                &&& final(self).right.falloff@ == spec_falloff_counters(
                    sc,
                    old(self).right.bands@,
                    old(self).right.falloff@,
                )
            }),
            *final(self) == (AudioTransformer { right: final(self).right, ..*old(self) }),
    {
        Self::process_channel(
            input,
            &self.lower_idx,
            &self.upper_idx,
            self.total_bands,
            self.monstercat,
            self.decay,
            &mut self.right,
        )
    }

    /// Applies the visual decay trail: a band whose fresh value is lower
    /// than last cycle's published value is clamped to
    /// `peak - counter * decay` (floored at zero) and its counter grows by
    /// one; a rising band is adopted as the new peak and resets its
    /// counter to one.
    pub fn falloff(bands: &mut Vec<u64>, transformed: &mut TransformedAudio, decay: u64)
        requires
            old(transformed).bands@.len() == old(bands)@.len(),
            old(transformed).band_peaks@.len() == old(bands)@.len(),
            old(transformed).falloff@.len() == old(bands)@.len(),
        ensures
            final(bands)@.len() == old(bands)@.len(),
            final(transformed).band_max@ == old(transformed).band_max@,
            final(transformed).bands@ == final(bands)@,
            final(transformed).band_peaks@.len() == old(bands)@.len(),
            final(transformed).falloff@.len() == old(bands)@.len(),
            forall|i: int|
                #![trigger final(bands)@[i]]
                #![trigger final(transformed).band_peaks@[i]]
                #![trigger final(transformed).falloff@[i]]
                0 <= i < old(bands)@.len() ==> {
                let fresh = old(bands)@[i] as int;
                let prev = old(transformed).bands@[i] as int;
                let peak = old(transformed).band_peaks@[i] as int;
                let counter = old(transformed).falloff@[i] as int;
                if fresh < prev {
                    &&& final(bands)@[i] == max(0, peak - counter * decay)
                    &&& final(transformed).band_peaks@[i] == peak
                    &&& final(transformed).falloff@[i] == min(counter + 1, u64::MAX as int)
                } else {
                    &&& final(bands)@[i] == fresh
                    &&& final(transformed).band_peaks@[i] == fresh
                    &&& final(transformed).falloff@[i] == 1
                }
            },
    {
        let mut i: usize = 0;
        let ghost old_bands = bands@;
        let ghost old_ta = *old(transformed);
        while i < bands.len()
            invariant
                i <= bands@.len() == old_bands.len(),
                transformed.bands@.len() == old_bands.len(),
                transformed.band_peaks@.len() == old_bands.len(),
                transformed.falloff@.len() == old_bands.len(),
                transformed.band_max@ == old_ta.band_max@,
                old_ta.bands@.len() == old_bands.len(),
                old_ta.band_peaks@.len() == old_bands.len(),
                old_ta.falloff@.len() == old_bands.len(),
                forall|t: int| i <= t < old_bands.len() ==> bands@[t] == old_bands[t],
                forall|t: int| i <= t < old_bands.len() ==> transformed.bands@[t] == old_ta.bands@[t],
                forall|t: int| i <= t < old_bands.len() ==> transformed.band_peaks@[t]
                    == old_ta.band_peaks@[t],
                forall|t: int| i <= t < old_bands.len() ==> transformed.falloff@[t]
                    == old_ta.falloff@[t],
                forall|t: int| 0 <= t < i ==> transformed.bands@[t] == bands@[t],
                forall|t: int|
                    #![trigger old_bands[t]]
                    #![trigger transformed.band_peaks@[t]]
                    #![trigger transformed.falloff@[t]]
                    0 <= t < i ==> {
                    let fresh = old_bands[t] as int;
                    let prev = old_ta.bands@[t] as int;
                    let peak = old_ta.band_peaks@[t] as int;
                    let counter = old_ta.falloff@[t] as int;
                    if fresh < prev {
                        &&& bands@[t] == max(0, peak - counter * decay)
                        &&& transformed.band_peaks@[t] == peak
                        &&& transformed.falloff@[t] == min(counter + 1, u64::MAX as int)
                    } else {
                        &&& bands@[t] == fresh
                        &&& transformed.band_peaks@[t] == fresh
                        &&& transformed.falloff@[t] == 1
                    }
                },
            decreases old_bands.len() - i,
        {
            let fresh = bands[i];
            let prev = transformed.bands[i];
            if fresh < prev {
                let peak = transformed.band_peaks[i];
                let counter = transformed.falloff[i];
                proof {
                    assert((counter as int) * (decay as int) <= u128::MAX) by (nonlinear_arith)
                        requires
                            counter <= 0xFFFF_FFFF_FFFF_FFFF,
                            decay <= 0xFFFF_FFFF_FFFF_FFFF,
                    ;
                }
                let drop_amount: u128 = (counter as u128) * (decay as u128);
                let clamped: u64 = if (peak as u128) > drop_amount {
                    peak - (drop_amount as u64)
                } else {
                    0
                };
                bands.set(i, clamped);
                let grown = if counter < u64::MAX {
                    counter + 1
                } else {
                    counter
                };
                transformed.falloff.set(i, grown);
            } else {
                transformed.band_peaks.set(i, fresh);
                transformed.falloff.set(i, 1);
            }
            let published = bands[i];
            transformed.bands.set(i, published);
            i += 1;
        }
    }
}

} // verus!
