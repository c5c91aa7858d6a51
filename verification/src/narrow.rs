//! A scale factor in single precision.
//!
//! The window reports its scale factor in double precision; coordinates are
//! scaled with the factor narrowed to single precision. Here the narrowing
//! is done on the patterns.
use crate::geometry::ScaleFactor;
use crate::nearest::{
    is_nearest_quotient, is_nearest_single, lemma_nearest_single_is_unique, nearest_single,
};
use crate::scalar::Dyadic;
use vstd::arithmetic::div_mod::{lemma_basic_div, lemma_small_mod};
use vstd::arithmetic::power2::{
    lemma2_to64, lemma2_to64_rest, lemma_pow2_pos, lemma_pow2_strictly_increases, pow2,
};
use vstd::bits::lemma_u64_shl_is_mul;
use vstd::prelude::*;

verus! {

/// The 52 fraction bits of a double-precision pattern.
pub open spec fn f64_fraction(bits: u64) -> nat {
    (bits % 0x10_0000_0000_0000) as nat
}

/// The 11 exponent bits of a double-precision pattern.
pub open spec fn f64_biased_exponent(bits: u64) -> nat {
    ((bits / 0x10_0000_0000_0000) % 0x800) as nat
}

/// The pattern is a positive normal number: what a window may report as its
/// scale factor.
pub open spec fn f64_is_positive_normal(bits: u64) -> bool {
    bits < 0x8000_0000_0000_0000 && 1 <= f64_biased_exponent(bits) <= 2046
}

/// The number that a positive normal double-precision pattern denotes.
pub open spec fn f64_value(bits: u64) -> Dyadic
    recommends
        f64_is_positive_normal(bits),
{
    Dyadic {
        negative: false,
        mantissa: f64_fraction(bits) + 0x10_0000_0000_0000,
        exponent: f64_biased_exponent(bits) - 1075,
    }
}

/// The whole number nearest to `m / 2^sh`, a tie going to the even one.
pub open spec fn nearest_whole(m: nat, sh: nat) -> nat {
    let q = m / pow2(sh);
    let r = m % pow2(sh);
    if 2 * r > pow2(sh) || (2 * r == pow2(sh) && q % 2 == 1) {
        q + 1
    } else {
        q
    }
}

/// The pattern of the normal single-precision number `v`.
pub open spec fn f32_pattern(v: Dyadic) -> u32 {
    ((v.exponent + 150) * 0x80_0000 + (v.mantissa - 0x80_0000)) as u32
}

/// A positive normal double-precision number narrowed to single precision:
/// the single-precision number nearest to it, a tie going to the even
/// mantissa.
///
/// - From `2^128 - 2^103` on, midway between the largest single-precision
///   number and `2^128`, the nearest is infinity.
/// - Below `2^-126` the single-precision numbers are the multiples of
///   `2^-149`, and the pattern of a multiple is its count.
/// - Between them the nearest is a normal number.
pub open spec fn narrowed(double: u64) -> u32
    recommends
        f64_is_positive_normal(double),
{
    let x = f64_value(double);
    if x.exponent >= 76 || (x.exponent == 75 && x.mantissa >= 0x1f_ffff_f000_0000) {
        0x7f80_0000
    } else if x.exponent < -178 {
        nearest_whole(x.mantissa, (-149 - x.exponent) as nat) as u32
    } else {
        f32_pattern(nearest_single(x))
    }
}

impl ScaleFactor {
    /// The factor is one that a window may report, and its single-precision
    /// pattern is the narrowing of its double-precision pattern.
    pub open spec fn is_narrowed(self) -> bool {
        f64_is_positive_normal(self.double) && self.single == narrowed(self.double)
    }

    /// The scale factor of a double-precision pattern; none where the
    /// pattern is not a positive normal number.
    pub fn from_double(double: u64) -> (r: Option<ScaleFactor>)
        ensures
            r is Some <==> f64_is_positive_normal(double),
            r matches Some(s) ==> s.double == double && s.single == narrowed(double),
    {
        match narrow(double) {
            Some(single) => Some(ScaleFactor { double, single }),
            None => None,
        }
    }
}

/// Narrows a double-precision pattern to single precision; none where the
/// pattern is not a positive normal number.
pub fn narrow(double: u64) -> (r: Option<u32>)
    ensures
        r is Some <==> f64_is_positive_normal(double),
        r matches Some(single) ==> single == narrowed(double),
{
    let se: u64 = (double / 0x10_0000_0000_0000) % 0x800;
    if double >= 0x8000_0000_0000_0000 || se < 1 || se > 2046 {
        return None;
    }
    let ms: u64 = double % 0x10_0000_0000_0000 + 0x10_0000_0000_0000;
    let es: i32 = se as i32 - 1075;
    let ghost x = f64_value(double);
    assert(x.mantissa == ms && x.exponent == es);
    proof {
        lemma2_to64();
        lemma2_to64_rest();
    }
    if es >= 76 || (es == 75 && ms >= 0x1f_ffff_f000_0000) {
        return Some(0x7f80_0000);
    }
    if es < -178 {
        let sh: u64 = (-149 - es) as u64;
        if sh >= 54 {
            proof {
                if sh > 54 {
                    lemma_pow2_strictly_increases(54, sh as nat);
                }
                lemma_basic_div(ms as int, pow2(sh as nat) as int);
                lemma_small_mod(ms as nat, pow2(sh as nat));
            }
            return Some(0);
        }
        proof {
            if sh < 53 {
                lemma_pow2_strictly_increases(sh as nat, 53);
            }
            lemma_pow2_pos(sh as nat);
            lemma_u64_shl_is_mul(1, sh);
        }
        let unit: u64 = 1u64 << sh;
        let q: u64 = ms / unit;
        let r: u64 = ms % unit;
        proof {
            if sh > 30 {
                lemma_pow2_strictly_increases(30, sh as nat);
            }
            assert(q < 0x80_0000) by (nonlinear_arith)
                requires
                    q == ms / unit,
                    unit >= 0x4000_0000,
                    ms < 0x20_0000_0000_0000,
            ;
        }
        let n: u64 = if 2 * r > unit || (2 * r == unit && q % 2 == 1) {
            q + 1
        } else {
            q
        };
        return Some(n as u32);
    }
    let n0: u64 = ms / 0x2000_0000;
    let low: u64 = ms % 0x2000_0000;
    let up: bool = low > 0x1000_0000 || (low == 0x1000_0000 && n0 % 2 == 1);
    let carried: bool = up && n0 + 1 == 0x100_0000;
    let n: u32 = if !up {
        n0 as u32
    } else if carried {
        0x80_0000
    } else {
        (n0 + 1) as u32
    };
    let e: i32 = if carried {
        es + 30
    } else {
        es + 29
    };
    let single: u32 = ((e + 150) as u32) * 0x80_0000 + (n - 0x80_0000);
    proof {
        let v = Dyadic { negative: false, mantissa: n as nat, exponent: e as int };
        let s = Dyadic { negative: false, mantissa: 1, exponent: -(es as int) };
        let g = e - es;
        let b: int = (1 * pow2(g as nat)) as int;
        assert(ms == n0 * 0x2000_0000 + low);
        if g == 29 {
            assert(n * b == n * 0x2000_0000) by (nonlinear_arith)
                requires
                    b == 0x2000_0000,
            ;
        } else {
            assert(n * b == n * 0x4000_0000) by (nonlinear_arith)
                requires
                    b == 0x4000_0000,
            ;
        }
        assert(is_nearest_quotient(v, ms as nat, s));
        assert(is_nearest_single(v, x));
        lemma_nearest_single_is_unique(v, x);
        assert(f32_pattern(v) == single);
    }
    Some(single)
}

} // verus!
