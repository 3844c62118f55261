//! Noise composition primitives on fixed-point samples.
//!
//! The sampler itself (continuous 3-D gradient noise) lives outside the
//! library; these functions combine the samples it produced, each in
//! `[-UNIT, UNIT]`.
use vstd::prelude::*;
use vstd::arithmetic::div_mod::{lemma_fundamental_div_mod, lemma_div_multiples_vanish_fancy, lemma_mod_bound, lemma_div_is_ordered, lemma_div_by_multiple, lemma_div_multiples_vanish};
use vstd::arithmetic::power2::{pow2, lemma_pow2_unfold, lemma_pow2_strictly_increases, lemma2_to64};
use crate::fixed::UNIT;

verus! {

/// Earth's equatorial circumference in kilometres: the noise-scale baseline.
pub const EARTH_CIRCUMFERENCE_KM: u32 = 40_075;

/// Largest number of octaves [`fbm`] combines.
pub const MAX_OCTAVES: usize = 16;

/// Every sample lies in `[-UNIT, UNIT]`.
pub open spec fn samples_in_range(s: Seq<i32>) -> bool {
    forall|i: int| 0 <= i < s.len() ==> -UNIT <= #[trigger] s[i] <= UNIT
}

/// Weighted sum of octave samples: octave `k` of `n` weighs `2^(n-1-k)`,
/// i.e. amplitude `0.5^k` scaled by `2^(n-1)`.
pub open spec fn octave_sum(s: Seq<i32>) -> int
    decreases s.len(),
{
    if s.len() == 0 {
        0
    } else {
        2 * octave_sum(s.drop_last()) + s.last()
    }
}

/// Sum of the weights of `n` octaves: `2^n - 1`.
pub open spec fn amplitude_total(n: nat) -> int
    decreases n,
{
    if n == 0 {
        0
    } else {
        2 * amplitude_total((n - 1) as nat) + 1
    }
}

/// Fractal sum of octave samples, normalised by the total amplitude and
/// rounded down.
pub open spec fn fbm_of(s: Seq<i32>) -> int {
    octave_sum(s) / amplitude_total(s.len())
}

proof fn lemma_amplitude_total(n: nat)
    ensures
        amplitude_total(n) + 1 == pow2(n),
    decreases n,
{
    if n > 0 {
        lemma_amplitude_total((n - 1) as nat);
        lemma_pow2_unfold(n);
    } else {
        lemma2_to64();
    }
}

proof fn lemma_octave_sum_bound(s: Seq<i32>)
    requires
        samples_in_range(s),
    ensures
        amplitude_total(s.len()) >= 0,
        -1_000_000 * amplitude_total(s.len()) <= octave_sum(s) <= 1_000_000 * amplitude_total(s.len()),
    decreases s.len(),
{
    if s.len() > 0 {
        let rest = s.drop_last();
        assert(samples_in_range(rest)) by {
            assert forall|i: int| 0 <= i < rest.len() implies -UNIT <= #[trigger] rest[i] <= UNIT by {
                assert(rest[i] == s[i]);
            }
        }
        lemma_octave_sum_bound(rest);
        assert(-UNIT <= s[s.len() - 1] <= UNIT);
    }
}

/// A fractal sum of in-range samples stays in `[-UNIT, UNIT]`.
pub proof fn lemma_fbm_range(s: Seq<i32>)
    requires
        s.len() >= 1,
        samples_in_range(s),
    ensures
        -UNIT <= fbm_of(s) <= UNIT,
{
    lemma_octave_sum_bound(s);
    let t = amplitude_total(s.len());
    assert(t >= 1) by {
        assert(samples_in_range(s.drop_last())) by {
            assert forall|i: int| 0 <= i < s.drop_last().len() implies -UNIT <= #[trigger] s.drop_last()[i] <= UNIT by {
                assert(s.drop_last()[i] == s[i]);
            }
        }
        lemma_octave_sum_bound(s.drop_last());
    }
    lemma_div_is_ordered(-1_000_000 * t, octave_sum(s), t);
    lemma_div_is_ordered(octave_sum(s), 1_000_000 * t, t);
    lemma_div_multiples_vanish(-1_000_000, t);
    lemma_div_multiples_vanish(1_000_000, t);
    assert(t * -1_000_000 == -1_000_000 * t);
    assert(t * 1_000_000 == 1_000_000 * t);
}

/// `(x + u * d) / d == x / d + u` for a positive divisor.
proof fn lemma_div_shift(x: int, u: int, d: int)
    requires
        d > 0,
    ensures
        (x + u * d) / d == x / d + u,
{
    lemma_fundamental_div_mod(x, d);
    lemma_mod_bound(x, d);
    assert(x + u * d == d * (x / d + u) + x % d) by (nonlinear_arith)
        requires
            x == d * (x / d) + x % d,
    ;
    lemma_div_multiples_vanish_fancy(x / d + u, x % d, d);
}

/// Fractional Brownian motion over pre-sampled octaves: octave `k` (sampled
/// at frequency `2^k`) contributes with amplitude `0.5^k`, and the sum is
/// normalised by the total amplitude. The result stays in `[-UNIT, UNIT]`.
pub fn fbm(samples: &Vec<i32>) -> (r: i32)
    requires
        1 <= samples.len() <= MAX_OCTAVES,
        samples_in_range(samples@),
    ensures
        r == fbm_of(samples@),
        -UNIT <= r <= UNIT,
{
    let n = samples.len();
    let mut value: i64 = 0;
    let mut total: i64 = 0;
    let mut k: usize = 0;
    proof {
        lemma2_to64();
    }
    while k < n
        invariant
            n == samples.len(),
            1 <= n <= MAX_OCTAVES,
            k <= n,
            samples_in_range(samples@),
            value == octave_sum(samples@.take(k as int)),
            total == amplitude_total(k as nat),
            total + 1 == pow2(k as nat),
            -1_000_000 * total <= value <= 1_000_000 * total,
        decreases n - k,
    {
        proof {
            if k < 16 {
                lemma_pow2_strictly_increases(k as nat, 16);
            }
            lemma2_to64();
            assert(samples@.take(k + 1).drop_last() =~= samples@.take(k as int));
            lemma_amplitude_total((k + 1) as nat);
            assert(total <= 65535);
            assert(1_000_000 * total <= 65_535_000_000) by (nonlinear_arith)
                requires
                    0 <= total <= 65535,
            ;
            assert(-65_535_000_000 <= value <= 65_535_000_000);
        }
        let s = samples[k] as i64;
        value = 2 * value + s;
        total = 2 * total + 1;
        k = k + 1;
    }
    proof {
        assert(samples@.take(n as int) =~= samples@);
        if n < 16 {
            lemma_pow2_strictly_increases(n as nat, 16);
        }
        lemma2_to64();
    }
    let shifted = value + (UNIT as i64) * total;
    proof {
        lemma_div_shift(value as int, UNIT as int, total as int);
        lemma_div_is_ordered(0, shifted as int, total as int);
        lemma_div_is_ordered(shifted as int, 2 * UNIT * total, total as int);
        lemma_div_by_multiple(2 * UNIT as int, total as int);
        assert(0int / total as int == 0);
        assert((2 * UNIT as int) * total as int == 2 * UNIT * total);
    }
    let q = shifted / total;
    assert(0 <= q <= 2 * UNIT);
    (q - UNIT as i64) as i32
}

/// Ridged fold of a signed sample: `UNIT - |v|`, sharp unsigned peaks in
/// `[0, UNIT]`.
pub fn ridged(v: i32) -> (r: i32)
    requires
        -UNIT <= v <= UNIT,
    ensures
        r == UNIT - (if v < 0 { -v } else { v as int }),
        0 <= r <= UNIT,
{
    if v < 0 {
        UNIT + v
    } else {
        UNIT - v
    }
}

/// `s` is the integer square root of `n`.
pub open spec fn is_int_sqrt(s: nat, n: nat) -> bool {
    s * s <= n && n < (s + 1) * (s + 1)
}

/// The integer square root of `n`: the largest `s` with `s * s <= n`.
pub open spec fn int_sqrt(n: nat) -> nat {
    choose|s: nat| #[trigger] is_int_sqrt(s, n)
}

proof fn lemma_sqrt_unique(a: nat, b: nat, n: nat)
    requires
        a * a <= n < (a + 1) * (a + 1),
        b * b <= n < (b + 1) * (b + 1),
    ensures
        a == b,
{
    if a < b {
        assert((a + 1) * (a + 1) <= b * b) by (nonlinear_arith)
            requires
                a + 1 <= b,
        ;
    } else if b < a {
        assert((b + 1) * (b + 1) <= a * a) by (nonlinear_arith)
            requires
                b + 1 <= a,
        ;
    }
}

/// Integer square root by bisection.
pub fn isqrt(n: u64) -> (r: u64)
    requires
        n < 0x4000_0000_0000_0000,
    ensures
        r == int_sqrt(n as nat),
        r * r <= n < (r + 1) * (r + 1),
{
    let mut lo: u64 = 0;
    let mut hi: u64 = 0x8000_0000;
    assert(hi * hi == 0x4000_0000_0000_0000) by (nonlinear_arith)
        requires
            hi == 0x8000_0000,
    ;
    while hi - lo > 1
        invariant
            lo < hi <= 0x8000_0000,
            lo * lo <= n,
            n < hi * hi,
        decreases hi - lo,
    {
        let mid = lo + (hi - lo) / 2;
        assert(mid * mid <= 0x4000_0000_0000_0000) by (nonlinear_arith)
            requires
                mid <= 0x8000_0000,
        ;
        if mid * mid <= n {
            lo = mid;
        } else {
            hi = mid;
        }
    }
    proof {
        assert(hi == lo + 1);
        let s = lo as nat;
        assert(is_int_sqrt(s, n as nat));
        let c = int_sqrt(n as nat);
        lemma_sqrt_unique(s, c, n as nat);
    }
    lo
}

} // verus!
