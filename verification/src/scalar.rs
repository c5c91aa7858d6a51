//! Single-precision numbers as bit patterns, and the pixel of a coordinate.
//!
//! Coordinates and scale factors reach the compositor as IEEE-754 bit
//! patterns. A coordinate is scaled to a physical pixel as single precision
//! does it: the product of coordinate and factor is rounded to the nearest
//! single-precision number, and that to the nearest whole number. Here this
//! is done on the patterns, with whole numbers only.
use crate::nearest::{
    is_nearest_quotient, is_nearest_single, is_within_half_a_step,
    lemma_nearest_in_a_coarser_unit, lemma_nearest_single_is_unique, nearest_single,
};
use vstd::arithmetic::div_mod::{
    lemma_basic_div, lemma_div_denominator, lemma_div_plus_one, lemma_div_pos_is_pos,
};
use vstd::arithmetic::mul::lemma_mul_nonnegative;
use vstd::arithmetic::power2::{
    lemma2_to64, lemma2_to64_rest, lemma_pow2_adds, lemma_pow2_pos,
    lemma_pow2_strictly_increases, lemma_pow2_unfold, pow2,
};
use vstd::bits::{lemma_u64_shl_is_mul, lemma_u64_shr_is_div};
use vstd::prelude::*;

verus! {

/// The rational number `(-1)^negative * mantissa * 2^exponent`.
pub struct Dyadic {
    pub negative: bool,
    pub mantissa: nat,
    pub exponent: int,
}

/// The 23 fraction bits of a single-precision pattern.
pub open spec fn f32_fraction(bits: u32) -> nat {
    (bits % 0x80_0000) as nat
}

/// The 8 exponent bits of a single-precision pattern.
pub open spec fn f32_biased_exponent(bits: u32) -> nat {
    ((bits / 0x80_0000) % 0x100) as nat
}

/// Whether the sign bit of a single-precision pattern is set.
pub open spec fn f32_negative(bits: u32) -> bool {
    bits >= 0x8000_0000
}

/// A single-precision pattern is finite unless its exponent bits are all ones
/// (the infinities and the NaNs).
pub open spec fn f32_is_finite(bits: u32) -> bool {
    f32_biased_exponent(bits) != 255
}

/// The pattern is an infinity.
pub open spec fn f32_is_infinite(bits: u32) -> bool {
    f32_biased_exponent(bits) == 255 && f32_fraction(bits) == 0
}

/// The pattern is a NaN.
pub open spec fn f32_is_nan(bits: u32) -> bool {
    f32_biased_exponent(bits) == 255 && f32_fraction(bits) != 0
}

/// The pattern is zero, of either sign.
pub open spec fn f32_is_zero(bits: u32) -> bool {
    f32_biased_exponent(bits) == 0 && f32_fraction(bits) == 0
}

/// The number that a finite single-precision pattern denotes.
pub open spec fn f32_value(bits: u32) -> Dyadic
    recommends
        f32_is_finite(bits),
{
    if f32_biased_exponent(bits) == 0 {
        Dyadic { negative: f32_negative(bits), mantissa: f32_fraction(bits), exponent: -149 }
    } else {
        Dyadic {
            negative: f32_negative(bits),
            mantissa: f32_fraction(bits) + 0x80_0000,
            exponent: f32_biased_exponent(bits) - 150,
        }
    }
}

/// The exact product of two dyadic rationals.
pub open spec fn product(a: Dyadic, b: Dyadic) -> Dyadic {
    Dyadic {
        negative: a.negative != b.negative,
        mantissa: a.mantissa * b.mantissa,
        exponent: a.exponent + b.exponent,
    }
}

/// The magnitude of `d` is less than `2^k`.
pub open spec fn is_below(d: Dyadic, k: int) -> bool {
    d.exponent < k && d.mantissa < pow2((k - d.exponent) as nat)
}

/// The magnitude of `d` rounded to the nearest integer, a tie going up:
/// `floor(|d| + 1/2)`.
pub open spec fn rounded_magnitude(d: Dyadic) -> int {
    if d.exponent >= 0 {
        (d.mantissa * pow2(d.exponent as nat)) as int
    } else {
        (d.mantissa + pow2((-d.exponent - 1) as nat)) as int / (pow2((-d.exponent) as nat) as int)
    }
}

/// `v` moved into the interval `[0, limit]`.
pub open spec fn clamp_to(v: int, limit: int) -> int {
    if v < 0 {
        0
    } else if v > limit {
        limit
    } else {
        v
    }
}

/// The physical pixel of a logical coordinate at a scale factor, both
/// single-precision patterns: the two are multiplied in single precision,
/// the product is rounded to the nearest whole number, a tie going away from
/// zero, and that is kept within `[0, limit]`.
///
/// - A NaN, or zero times an infinity, has no pixel.
/// - An infinite product is kept within the limits like any other.
/// - A product that is negative or zero rounds to nothing above zero.
/// - A product below `2^-2` is at most `2^-2` in single precision, and rounds
///   to zero; one from `2^32` on is at least `2^32` or infinite, and lies
///   beyond every limit.
/// - Any other product is a normal number in single precision, the one
///   nearest to the exact product.
pub open spec fn pixel_of(coord: u32, factor: u32, limit: u32) -> Option<int> {
    let p = product(f32_value(coord), f32_value(factor));
    if f32_is_nan(coord) || f32_is_nan(factor) {
        None
    } else if f32_is_infinite(coord) || f32_is_infinite(factor) {
        if f32_is_zero(coord) || f32_is_zero(factor) {
            None
        } else if f32_negative(coord) != f32_negative(factor) {
            Some(0)
        } else {
            Some(limit as int)
        }
    } else if p.negative || p.mantissa == 0 || is_below(p, -2) {
        Some(0)
    } else if !is_below(p, 32) {
        Some(limit as int)
    } else {
        Some(clamp_to(rounded_magnitude(nearest_single(p)), limit as int))
    }
}

/// The rounded magnitude of a number is not negative.
pub proof fn lemma_rounded_magnitude_is_nonnegative(d: Dyadic)
    ensures
        rounded_magnitude(d) >= 0,
{
    if d.exponent >= 0 {
        lemma_mul_nonnegative(d.mantissa as int, pow2(d.exponent as nat) as int);
    } else {
        lemma_pow2_pos((-d.exponent) as nat);
        lemma_div_pos_is_pos(
            (d.mantissa + pow2((-d.exponent - 1) as nat)) as int,
            pow2((-d.exponent) as nat) as int,
        );
    }
}

/// Zero has rounded magnitude zero, whatever its exponent.
pub proof fn lemma_rounded_magnitude_of_zero(d: Dyadic)
    requires
        d.mantissa == 0,
    ensures
        rounded_magnitude(d) == 0,
{
    if d.exponent >= 0 {
        assert(0 * pow2(d.exponent as nat) == 0);
    } else {
        let k = (-d.exponent) as nat;
        lemma_pow2_unfold(k);
        lemma_pow2_pos((k - 1) as nat);
        lemma_basic_div(pow2((k - 1) as nat) as int, pow2(k) as int);
    }
}

/// A pixel lies within its limits.
pub proof fn lemma_pixel_within_limit(coord: u32, factor: u32, limit: u32)
    ensures
        pixel_of(coord, factor, limit) matches Some(p) ==> 0 <= p <= limit,
{
}

/// Zero of either sign lies on pixel zero at every finite scale factor.
pub proof fn lemma_zero_has_pixel_zero(coord: u32, factor: u32, limit: u32)
    requires
        f32_is_zero(coord),
        f32_is_finite(factor),
    ensures
        pixel_of(coord, factor, limit) == Some(0int),
{
    let p = product(f32_value(coord), f32_value(factor));
    assert(p.mantissa == 0) by (nonlinear_arith)
        requires
            p.mantissa == f32_value(coord).mantissa * f32_value(factor).mantissa,
            f32_value(coord).mantissa == 0,
    ;
}

/// Rounding a quotient by `2^k` is one halving after a quotient by `2^(k-1)`.
proof fn lemma_round_by_halving(m: nat, k: nat)
    requires
        k >= 1,
    ensures
        (m + pow2((k - 1) as nat)) as int / (pow2(k) as int) == (m as int / (pow2(
            (k - 1) as nat,
        ) as int) + 1) / 2,
{
    let h = (k - 1) as nat;
    let c = pow2(h) as int;
    lemma_pow2_pos(h);
    lemma_pow2_unfold(k);
    lemma_div_denominator((m + c) as int, c, 2);
    lemma_div_plus_one(m as int, c);
    assert(c * 2 == pow2(k));
}

/// Where a mantissa, `j` times doubled, fills 48 bits, the number lies
/// between the two powers of two that this tells.
proof fn lemma_magnitude_of_filled(mant: nat, exp: int, j: nat, m: nat, k: int)
    requires
        j <= 47,
        m == mant * pow2(j),
        0x8000_0000_0000 <= m < 0x1_0000_0000_0000,
    ensures
        exp - j + 48 <= k ==> is_below(
            Dyadic { negative: false, mantissa: mant, exponent: exp },
            k,
        ),
        exp - j + 47 >= k ==> !is_below(
            Dyadic { negative: false, mantissa: mant, exponent: exp },
            k,
        ),
{
    lemma2_to64();
    lemma2_to64_rest();
    lemma_pow2_adds((47 - j) as nat, j);
    lemma_pow2_adds((48 - j) as nat, j);
    lemma_pow2_pos(j);
    assert(pow2((47 - j) as nat) <= mant < pow2((48 - j) as nat)) by (nonlinear_arith)
        requires
            m == mant * pow2(j),
            pow2(47) <= m < pow2(48),
            pow2(47) == pow2((47 - j) as nat) * pow2(j),
            pow2(48) == pow2((48 - j) as nat) * pow2(j),
            pow2(j) > 0,
    ;
    if exp - j + 48 <= k {
        if (48 - j) < k - exp {
            lemma_pow2_strictly_increases((48 - j) as nat, (k - exp) as nat);
        }
    }
    if exp - j + 47 >= k && exp < k {
        if k - exp < 47 - j {
            lemma_pow2_strictly_increases((k - exp) as nat, (47 - j) as nat);
        }
    }
}

/// The number `n * 2^e` rounded to the nearest whole number, a tie going up,
/// and kept within the limit.
fn pixel_from(n: u64, e: i32, limit: u32) -> (r: u32)
    requires
        n <= 0x100_0000,
        -26 <= e <= 9,
    ensures
        r == clamp_to(
            rounded_magnitude(Dyadic { negative: false, mantissa: n as nat, exponent: e as int }),
            limit as int,
        ),
{
    proof {
        lemma2_to64();
    }
    if e >= 0 {
        let sh: u64 = e as u64;
        proof {
            if e < 9 {
                lemma_pow2_strictly_increases(e as nat, 9);
            }
            assert(n * pow2(e as nat) <= 0x2_0000_0000) by (nonlinear_arith)
                requires
                    n <= 0x100_0000,
                    pow2(e as nat) <= 0x200,
            ;
            lemma_u64_shl_is_mul(n, sh);
        }
        let whole: u64 = n << sh;
        if whole > limit as u64 {
            limit
        } else {
            whole as u32
        }
    } else {
        let k: u64 = (-e) as u64;
        let whole: u64 = n >> (k - 1);
        proof {
            lemma_u64_shr_is_div(n, (k - 1) as u64);
            lemma_round_by_halving(n as nat, k as nat);
        }
        let q: u64 = (whole + 1) / 2;
        if q > limit as u64 {
            limit
        } else {
            q as u32
        }
    }
}

/// Scales the logical coordinate `coord` by the scale factor `factor`, both
/// single-precision patterns, to a physical pixel in `[0, limit]`: the
/// product in single precision, rounded to the nearest whole number. A
/// product that is no number has no pixel.
pub fn scale_to_pixel(coord: u32, factor: u32, limit: u32) -> (r: Option<u32>)
    ensures
        r is Some <==> pixel_of(coord, factor, limit) is Some,
        r matches Some(p) ==> pixel_of(coord, factor, limit) == Some(p as int),
{
    let ce: u32 = (coord / 0x80_0000) % 0x100;
    let ke: u32 = (factor / 0x80_0000) % 0x100;
    let cf: u64 = (coord % 0x80_0000) as u64;
    let kf: u64 = (factor % 0x80_0000) as u64;
    if (ce == 255 && cf != 0) || (ke == 255 && kf != 0) {
        return None;
    }
    let negative: bool = (coord >= 0x8000_0000) != (factor >= 0x8000_0000);
    if ce == 255 || ke == 255 {
        if (ce == 0 && cf == 0) || (ke == 0 && kf == 0) {
            return None;
        }
        return Some(if negative { 0 } else { limit });
    }
    let cm: u64 = if ce == 0 { cf } else { cf + 0x80_0000 };
    let km: u64 = if ke == 0 { kf } else { kf + 0x80_0000 };
    let cx: i32 = if ce == 0 { -149 } else { ce as i32 - 150 };
    let kx: i32 = if ke == 0 { -149 } else { ke as i32 - 150 };
    assert(cm * km < 0x1_0000_0000_0000) by (nonlinear_arith)
        requires
            cm < 0x100_0000,
            km < 0x100_0000,
    ;
    let mant: u64 = cm * km;
    let exp: i32 = cx + kx;
    let ghost p = product(f32_value(coord), f32_value(factor));
    assert(p.mantissa == mant && p.exponent == exp && p.negative == negative);
    if negative || mant == 0 {
        return Some(0);
    }
    let mut m: u64 = mant;
    let mut j: i32 = 0;
    proof {
        lemma2_to64();
        assert(mant * pow2(0) == mant) by (nonlinear_arith)
            requires
                pow2(0) == 1,
        ;
    }
    while m < 0x8000_0000_0000
        invariant
            0 < mant,
            0 < m < 0x1_0000_0000_0000,
            0 <= j <= 47,
            m == mant * pow2(j as nat),
        decreases 0x1_0000_0000_0000 - m,
    {
        proof {
            lemma_pow2_adds(j as nat, 1);
            lemma2_to64();
            lemma2_to64_rest();
            assert(j < 47) by {
                if j == 47 {
                    assert(mant * pow2(47) >= 0x8000_0000_0000) by (nonlinear_arith)
                        requires
                            mant >= 1,
                            pow2(47) == 0x8000_0000_0000,
                    ;
                }
            }
            assert(mant * pow2((j + 1) as nat) == (mant * pow2(j as nat)) * 2)
                by (nonlinear_arith)
                requires
                    pow2((j + 1) as nat) == pow2(j as nat) * pow2(1),
                    pow2(1) == 2,
            ;
        }
        m = m * 2;
        j = j + 1;
    }
    let e0: i32 = exp - j + 24;
    proof {
        lemma_magnitude_of_filled(mant as nat, exp as int, j as nat, m as nat, -2);
        lemma_magnitude_of_filled(mant as nat, exp as int, j as nat, m as nat, 32);
        assert(p == Dyadic { negative: false, mantissa: mant as nat, exponent: exp as int });
    }
    if e0 <= -26 {
        return Some(0);
    }
    if e0 >= 9 {
        return Some(limit);
    }
    let n0: u64 = m / 0x100_0000;
    let low: u64 = m % 0x100_0000;
    let up: bool = low > 0x80_0000 || (low == 0x80_0000 && n0 % 2 == 1);
    let carried: bool = up && n0 + 1 == 0x100_0000;
    let n: u64 = if !up {
        n0
    } else if carried {
        0x80_0000
    } else {
        n0 + 1
    };
    let e: i32 = if carried {
        e0 + 1
    } else {
        e0
    };
    proof {
        let v = Dyadic { negative: false, mantissa: n as nat, exponent: e as int };
        let s = Dyadic { negative: false, mantissa: 1, exponent: -(exp as int) };
        let g = e - exp;
        let a: int = if g < 0 {
            (mant * pow2((-g) as nat)) as int
        } else {
            mant as int
        };
        let b: int = if g > 0 {
            (1 * pow2(g as nat)) as int
        } else {
            1
        };
        // The step of the cut, and how many of the units of `a` and `b` make
        // one unit of the filled mantissa.
        let u: int = if carried {
            0x200_0000
        } else {
            0x100_0000
        };
        let t: int = if g > 0 {
            pow2(j as nat) as int
        } else {
            u
        };
        lemma2_to64();
        lemma_pow2_pos(j as nat);
        assert(m == n0 * 0x100_0000 + low);
        assert(is_within_half_a_step(m as int, n as int, u, 0x80_0000));
        if g > 0 {
            lemma_pow2_adds(g as nat, j as nat);
            assert(pow2((g + j) as nat) == u);
            assert(u == b * t) by (nonlinear_arith)
                requires
                    u == pow2(g as nat) * pow2(j as nat),
                    b == 1 * pow2(g as nat),
                    t == pow2(j as nat),
            ;
            assert(m == a * t);
        } else {
            lemma_pow2_adds((-g) as nat, (g + j) as nat);
            assert(pow2((g + j) as nat) == u);
            assert(m == a * t) by (nonlinear_arith)
                requires
                    m == mant * pow2(j as nat),
                    pow2(j as nat) == pow2((-g) as nat) * pow2((g + j) as nat),
                    pow2((g + j) as nat) == u,
                    t == u,
                    a == if g < 0 {
                        mant * pow2((-g) as nat)
                    } else {
                        mant as int
                    },
                    g < 0 || pow2((-g) as nat) == 1,
            ;
            assert(u == b * t);
        }
        lemma_nearest_in_a_coarser_unit(m as int, u, a, b, t, n as int, 0x80_0000);
        assert(is_nearest_quotient(v, mant as nat, s));
        assert(is_nearest_single(v, p));
        lemma_nearest_single_is_unique(v, p);
    }
    Some(pixel_from(n, e, limit))
}

} // verus!
