use vstd::prelude::*;

verus! {

use vstd::arithmetic::power2::pow2;

// Q32 fixed-point helpers: a value `v` stands for the real number
// `v / 2^32`. They supply the logarithms and exponentials needed by the
// log-scale frequency partition, using integer arithmetic only.

/// Floor of the square root, defined by counting up.
pub open spec fn spec_isqrt(x: int) -> int
    decreases x,
{
    if x <= 0 {
        0
    } else {
        let r = spec_isqrt(x - 1);
        if (r + 1) * (r + 1) <= x {
            r + 1
        } else {
            r
        }
    }
}

pub proof fn lemma_isqrt_bounds(x: int)
    requires
        x >= 0,
    ensures
        spec_isqrt(x) >= 0,
        spec_isqrt(x) * spec_isqrt(x) <= x,
        x < (spec_isqrt(x) + 1) * (spec_isqrt(x) + 1),
    decreases x,
{
    if x > 0 {
        lemma_isqrt_bounds(x - 1);
        let r = spec_isqrt(x - 1);
        if (r + 1) * (r + 1) <= x {
            assert(x < (r + 2) * (r + 2)) by (nonlinear_arith)
                requires
                    x - 1 < (r + 1) * (r + 1),
                    r >= 0,
            ;
        }
    }
}

/// The two floor-sqrt inequalities pin the root down uniquely.
pub proof fn lemma_isqrt_unique(x: int, r: int)
    requires
        x >= 0,
        r >= 0,
        r * r <= x,
        x < (r + 1) * (r + 1),
    ensures
        r == spec_isqrt(x),
{
    lemma_isqrt_bounds(x);
    let s = spec_isqrt(x);
    assert(r == s) by (nonlinear_arith)
        requires
            r >= 0,
            s >= 0,
            r * r <= x,
            x < (r + 1) * (r + 1),
            s * s <= x,
            x < (s + 1) * (s + 1),
    ;
}

/// Floor of the square root, by binary search.
pub fn isqrt(x: u128) -> (r: u64)
    ensures
        r == spec_isqrt(x as int),
        (r as int) * (r as int) <= x as int,
        (x as int) < (r as int + 1) * (r as int + 1),
{
    let mut lo: u128 = 0;
    let mut hi: u128 = 0x1_0000_0000_0000_0000;
    proof {
        assert((0x1_0000_0000_0000_0000 as int) * (0x1_0000_0000_0000_0000 as int) > u128::MAX as int)
            by (nonlinear_arith);
    }
    while hi - lo > 1
        invariant
            lo < hi <= 0x1_0000_0000_0000_0000,
            (lo as int) * (lo as int) <= x as int,
            (x as int) < (hi as int) * (hi as int),
        decreases hi - lo,
    {
        let mid = lo + (hi - lo) / 2;
        proof {
            assert((mid as int) * (mid as int) < u128::MAX as int) by (nonlinear_arith)
                requires
                    mid < 0x1_0000_0000_0000_0000,
                    u128::MAX as int == 0x1_0000_0000_0000_0000 * 0x1_0000_0000_0000_0000 - 1,
            ;
        }
        if mid * mid <= x {
            lo = mid;
        } else {
            hi = mid;
        }
    }
    proof {
        lemma_isqrt_unique(x as int, lo as int);
    }
    lo as u64
}

/// Floor of the base-two logarithm.
pub open spec fn spec_ilog2(x: int) -> int
    decreases x,
{
    if x < 2 {
        0
    } else {
        1 + spec_ilog2(x / 2)
    }
}

pub proof fn lemma_ilog2_bounds(x: int)
    requires
        x >= 1,
    ensures
        0 <= spec_ilog2(x),
        pow2(spec_ilog2(x) as nat) <= x,
        x < 2 * pow2(spec_ilog2(x) as nat),
    decreases x,
{
    vstd::arithmetic::power2::lemma2_to64();
    if x >= 2 {
        lemma_ilog2_bounds(x / 2);
        let m = spec_ilog2(x / 2);
        vstd::arithmetic::power2::lemma_pow2_unfold((m + 1) as nat);
    }
}

/// A 64-bit value has a base-two logarithm of at most 63.
pub proof fn lemma_ilog2_le63(x: u64)
    requires
        x >= 1,
    ensures
        0 <= spec_ilog2(x as int) <= 63,
{
    lemma_ilog2_bounds(x as int);
    let m = spec_ilog2(x as int);
    if m > 63 {
        if m > 64 {
            vstd::arithmetic::power2::lemma_pow2_strictly_increases(64, m as nat);
        }
        vstd::arithmetic::power2::lemma2_to64_rest();
        assert(pow2(m as nat) >= pow2(64));
    }
}

/// Floor of the base-two logarithm of a 64-bit value.
pub fn ilog2(x: u64) -> (m: u32)
    requires
        x >= 1,
    ensures
        m == spec_ilog2(x as int),
        m <= 63,
{
    proof {
        lemma_ilog2_le63(x);
    }
    let mut v: u64 = x;
    let mut m: u32 = 0;
    while v >= 2
        invariant
            v >= 1,
            spec_ilog2(x as int) == m + spec_ilog2(v as int),
            0 <= spec_ilog2(x as int) <= 63,
            0 <= spec_ilog2(v as int),
        decreases v,
    {
        proof {
            lemma_ilog2_bounds(v as int);
            lemma_ilog2_bounds((v / 2) as int);
            assert(spec_ilog2(v as int) == 1 + spec_ilog2((v / 2) as int));
        }
        v = v / 2;
        m = m + 1;
    }
    m
}

/// Two raised to the provided power, at most 63.
pub fn pow2_u64(e: u32) -> (r: u64)
    requires
        e <= 63,
    ensures
        r == pow2(e as nat),
        r >= 1,
{
    let mut r: u64 = 1;
    let mut i: u32 = 0;
    proof {
        vstd::arithmetic::power2::lemma2_to64();
        vstd::arithmetic::power2::lemma2_to64_rest();
    }
    while i < e
        invariant
            i <= e <= 63,
            r == pow2(i as nat),
            r >= 1,
        decreases e - i,
    {
        proof {
            vstd::arithmetic::power2::lemma_pow2_strictly_increases(i as nat, 63);
            vstd::arithmetic::power2::lemma2_to64_rest();
            vstd::arithmetic::power2::lemma_pow2_unfold((i + 1) as nat);
            assert(pow2(63) == 0x8000_0000_0000_0000);
            assert(r * 2 == pow2((i + 1) as nat));
        }
        r = r * 2;
        i = i + 1;
    }
    r
}

/// One digit-recurrence step of the fractional base-two logarithm: square
/// the Q32 mantissa and renormalize, emitting one result bit.
pub open spec fn log2_step(y: int) -> (int, int) {
    let ysq = (y * y) / 0x1_0000_0000;
    if ysq >= 0x2_0000_0000 {
        (1, ysq / 2)
    } else {
        (0, ysq)
    }
}

/// Fractional log2 bits accumulated over `n` digit-recurrence steps.
pub open spec fn log2_frac_steps(y: int, n: nat) -> (int, int)
    decreases n,
{
    if n == 0 {
        (0, y)
    } else {
        let prev = log2_frac_steps(y, (n - 1) as nat);
        let st = log2_step(prev.1);
        (prev.0 * 2 + st.0, st.1)
    }
}

/// The argument scaled into a Q32 mantissa in [1, 2).
pub open spec fn spec_normalized(x: int) -> int {
    (x * 0x1_0000_0000) / pow2(spec_ilog2(x) as nat) as int
}

/// Base-two logarithm in Q32 fixed point, with 32 fractional bits from the
/// digit recurrence.
pub open spec fn spec_log2_fp(x: int) -> int {
    spec_ilog2(x) * 0x1_0000_0000 + log2_frac_steps(spec_normalized(x), 32).0
}

/// Base-two logarithm of `x` in Q32 fixed point.
pub fn log2_fp(x: u64) -> (r: u64)
    requires
        x >= 1,
    ensures
        r == spec_log2_fp(x as int),
        r < 0x40_0000_0000,
{
    let m = ilog2(x);
    let p2 = pow2_u64(m);
    proof {
        lemma_ilog2_bounds(x as int);
    }
    let y0_wide: u128 = ((x as u128) * 0x1_0000_0000) / (p2 as u128);
    proof {
        assert(0x1_0000_0000 <= y0_wide < 0x2_0000_0000) by (nonlinear_arith)
            requires
                y0_wide == ((x as int) * 0x1_0000_0000) / (p2 as int),
                (p2 as int) <= (x as int),
                (x as int) < 2 * (p2 as int),
                (p2 as int) >= 1,
        ;
        assert(y0_wide == spec_normalized(x as int));
    }
    let y0 = y0_wide as u64;
    let mut y: u64 = y0;
    let mut frac: u64 = 0;
    let mut i: u32 = 0;
    proof {
        vstd::arithmetic::power2::lemma2_to64();
        vstd::arithmetic::power2::lemma2_to64_rest();
    }
    while i < 32
        invariant
            i <= 32,
            (frac as int, y as int) == log2_frac_steps(y0 as int, i as nat),
            0x1_0000_0000 <= y < 0x2_0000_0000,
            frac < pow2(i as nat),
        decreases 32 - i,
    {
        proof {
            assert((y as int) * (y as int) < 0x4_0000_0000_0000_0000) by (nonlinear_arith)
                requires
                    y < 0x2_0000_0000,
            ;
            assert((y as int) * (y as int) >= 0x1_0000_0000_0000_0000) by (nonlinear_arith)
                requires
                    y >= 0x1_0000_0000,
            ;
            vstd::arithmetic::power2::lemma2_to64();
            vstd::arithmetic::power2::lemma_pow2_strictly_increases(i as nat, 32);
            vstd::arithmetic::power2::lemma_pow2_unfold((i + 1) as nat);
            assert(pow2(32) == 0x1_0000_0000);
        }
        let ysq = (((y as u128) * (y as u128)) / 0x1_0000_0000) as u64;
        frac = frac * 2;
        if ysq >= 0x2_0000_0000 {
            y = ysq / 2;
            frac = frac + 1;
        } else {
            y = ysq;
        }
        i = i + 1;
    }
    proof {
        vstd::arithmetic::power2::lemma2_to64_rest();
    }
    (m as u64) * 0x1_0000_0000 + frac
}

/// Q32 multiplication, clamped at the 64-bit limit.
pub open spec fn mulfp_clamped(a: int, b: int) -> int {
    let p = (a * b) / 0x1_0000_0000;
    if p > u64::MAX {
        u64::MAX as int
    } else {
        p
    }
}

/// State (result, chained square root) of the fractional power-of-two
/// computation after `n` of its 32 steps. Step `n` multiplies the result
/// by `2^(2^-n)` exactly when fraction bit `32 - n` is set.
pub open spec fn exp2_steps(f: int, n: nat) -> (int, int)
    decreases n,
{
    if n == 0 {
        (0x1_0000_0000, 0x2_0000_0000)
    } else {
        let prev = exp2_steps(f, (n - 1) as nat);
        let c = spec_isqrt(prev.1 * 0x1_0000_0000);
        let bit = (f / pow2((32 - n) as nat) as int) % 2;
        (if bit == 1 { mulfp_clamped(prev.0, c) } else { prev.0 }, c)
    }
}

/// Two raised to the fractional Q32 argument, in Q32 fixed point.
pub open spec fn spec_exp2_frac(f: int) -> int {
    exp2_steps(f, 32).0
}

/// Two raised to a fractional Q32 argument (so the result lies in [1, 2]),
/// in Q32 fixed point.
pub fn exp2_frac(f: u64) -> (r: u64)
    requires
        f < 0x1_0000_0000,
    ensures
        r == spec_exp2_frac(f as int),
        r >= 0x1_0000_0000,
{
    let mut r: u64 = 0x1_0000_0000;
    let mut c: u64 = 0x2_0000_0000;
    let mut w: u64 = 0x8000_0000;
    let mut j: u32 = 0;
    proof {
        vstd::arithmetic::power2::lemma2_to64();
        vstd::arithmetic::power2::lemma2_to64_rest();
    }
    while j < 32
        invariant
            j <= 32,
            (r as int, c as int) == exp2_steps(f as int, j as nat),
            0x1_0000_0000 <= c <= 0x2_0000_0000,
            r >= 0x1_0000_0000,
            w >= 1,
            j < 32 ==> w == pow2((31 - j) as nat),
        decreases 32 - j,
    {
        let c_next = isqrt((c as u128) * 0x1_0000_0000);
        proof {
            assert((c as int) * 0x1_0000_0000 >= 0x1_0000_0000_0000_0000) by (nonlinear_arith)
                requires
                    c >= 0x1_0000_0000,
            ;
            let s = c_next as int;
            assert(s >= 0x1_0000_0000) by (nonlinear_arith)
                requires
                    (s + 1) * (s + 1) > 0x1_0000_0000_0000_0000,
                    s >= 0,
            ;
            assert(s <= 0x2_0000_0000) by (nonlinear_arith)
                requires
                    s * s <= (0x2_0000_0000 as int) * 0x1_0000_0000,
                    s >= 0,
            ;
        }
        let c2 = c_next;
        let bit = (f / w) % 2;
        let mut r2 = r;
        if bit == 1 {
            proof {
                assert((r as int) * (c2 as int) <= u128::MAX) by (nonlinear_arith)
                    requires
                        r <= 0xFFFF_FFFF_FFFF_FFFF,
                        c2 <= 0xFFFF_FFFF_FFFF_FFFF,
                ;
            }
            let prod = ((r as u128) * (c2 as u128)) / 0x1_0000_0000;
            proof {
                assert((r as int) * (c2 as int) / 0x1_0000_0000 >= r as int) by (nonlinear_arith)
                    requires
                        c2 >= 0x1_0000_0000,
                        r >= 0,
                ;
            }
            if prod > 0xFFFF_FFFF_FFFF_FFFF {
                r2 = 0xFFFF_FFFF_FFFF_FFFF;
            } else {
                r2 = prod as u64;
            }
        }
        proof {
            if j < 31 {
                vstd::arithmetic::power2::lemma_pow2_unfold((31 - j) as nat);
            }
        }
        r = r2;
        c = c2;
        if w >= 2 {
            w = w / 2;
        }
        j = j + 1;
    }
    r
}

} // verus!
