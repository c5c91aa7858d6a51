//! The quotient of a count of pixels and a scale factor, as double precision
//! and then single precision round it.
//!
//! The size of a window in logical points is its size in physical pixels
//! divided by the scale factor. The division is done in double precision,
//! and its result narrowed to single precision. Here both are done on the
//! patterns, with whole numbers only.
use crate::narrow::{f64_is_positive_normal, f64_value, narrow, narrowed};
use crate::nearest::{is_nearest_double, lemma_nearest_is_unique};
use crate::scalar::Dyadic;
use vstd::arithmetic::power2::{
    lemma2_to64, lemma2_to64_rest, lemma_pow2_adds, lemma_pow2_pos,
    lemma_pow2_strictly_increases, pow2,
};
use vstd::prelude::*;

verus! {

/// The pattern of the normal double-precision number `v`.
pub open spec fn f64_pattern(v: Dyadic) -> u64 {
    ((v.exponent + 1075) * 0x10_0000_0000_0000 + (v.mantissa - 0x10_0000_0000_0000)) as u64
}

/// The quotient `w / s` is less than `2^k`.
pub open spec fn quotient_is_below(w: nat, s: Dyadic, k: int) -> bool {
    if k + s.exponent >= 0 {
        w < s.mantissa * pow2((k + s.exponent) as nat)
    } else {
        w * pow2((-(k + s.exponent)) as nat) < s.mantissa
    }
}

/// The length in logical points of `pixels` physical pixels at a scale
/// factor (a positive normal double-precision pattern), as a
/// single-precision pattern: the pixels are divided by the factor in double
/// precision, and the quotient is narrowed to single precision.
///
/// - No pixels are no points.
/// - A quotient below `2^-151` is at most `2^-151` in double precision, which
///   narrows to zero.
/// - A quotient from `2^128` on is at least `2^128` in double precision, or
///   infinite, which narrows to infinity.
/// - Any other quotient is a normal number in double precision, the one
///   nearest to the exact quotient.
pub open spec fn is_logical_length(bits: u32, pixels: u32, scale: u64) -> bool {
    let s = f64_value(scale);
    if pixels == 0 {
        bits == 0
    } else if quotient_is_below(pixels as nat, s, -151) {
        bits == 0
    } else if !quotient_is_below(pixels as nat, s, 128) {
        bits == 0x7f80_0000
    } else {
        exists|d: Dyadic| #[trigger]
            is_nearest_double(d, pixels as nat, s) && bits == narrowed(f64_pattern(d))
    }
}

/// The length in logical points of `pixels` physical pixels at a scale
/// factor: the one pattern of which [`is_logical_length`] holds.
pub open spec fn logical_length_of(pixels: u32, scale: u64) -> u32 {
    choose|bits: u32| is_logical_length(bits, pixels, scale)
}

/// Two patterns that are both the logical length of a count of pixels at a
/// scale factor are one pattern: the length is a function of the count and
/// the factor.
pub proof fn lemma_logical_length_is_unique(b1: u32, b2: u32, pixels: u32, scale: u64)
    requires
        f64_is_positive_normal(scale),
        is_logical_length(b1, pixels, scale),
        is_logical_length(b2, pixels, scale),
    ensures
        b1 == b2,
{
    let s = f64_value(scale);
    if pixels != 0 && !quotient_is_below(pixels as nat, s, -151) && quotient_is_below(
        pixels as nat,
        s,
        128,
    ) {
        let d1 = choose|d: Dyadic| #[trigger]
            is_nearest_double(d, pixels as nat, s) && b1 == narrowed(f64_pattern(d));
        let d2 = choose|d: Dyadic| #[trigger]
            is_nearest_double(d, pixels as nat, s) && b2 == narrowed(f64_pattern(d));
        lemma_nearest_is_unique(d1, d2, pixels as nat, s, 0x10_0000_0000_0000);
    }
}

/// What is left of a division bounds the quotient from both sides.
proof fn lemma_quotient_bounds(num: int, ms: int, q: int, r: int)
    requires
        num == q * ms + r,
        0 <= r < ms,
        0x800_0000_0000_0000_0000_0000_0000 <= num < 0x1000_0000_0000_0000_0000_0000_0000,
        0x10_0000_0000_0000 <= ms < 0x20_0000_0000_0000,
    ensures
        0x40_0000_0000_0000 <= q < 0x100_0000_0000_0000,
{
    assert(q < 0x100_0000_0000_0000) by (nonlinear_arith)
        requires
            num == q * ms + r,
            0 <= r,
            num < 0x1000_0000_0000_0000_0000_0000_0000,
            0x10_0000_0000_0000 <= ms,
    ;
    assert(q >= 0x40_0000_0000_0000) by (nonlinear_arith)
        requires
            num == q * ms + r,
            r < ms,
            0x800_0000_0000_0000_0000_0000_0000 <= num,
            0 < ms < 0x20_0000_0000_0000,
    ;
}

/// Rounding the quotient `q + r / ms` at its lowest `pd` to the nearest
/// multiple, a tie going to the even one, gives the nearest number.
proof fn lemma_rounding_is_nearest(
    a: int,
    ms: int,
    pd: int,
    n0: int,
    low: int,
    r: int,
    up: bool,
)
    requires
        pd == 4 || pd == 8,
        0 <= low < pd,
        0 <= r < ms,
        a * pd == (n0 * pd + low) * ms + r,
        up == (2 * low > pd || (2 * low == pd && (r != 0 || n0 % 2 == 1))),
    ensures
        !up ==> {
            &&& 2 * (a - n0 * ms) <= ms
            &&& 2 * (a - n0 * ms) == ms ==> n0 % 2 == 0
            &&& n0 * ms - a <= 0
        },
        up ==> {
            &&& a - (n0 + 1) * ms < 0
            &&& 2 * ((n0 + 1) * ms - a) <= ms
            &&& 2 * ((n0 + 1) * ms - a) == ms ==> (n0 + 1) % 2 == 0
        },
{
    let p = low * ms + r;
    assert(pd * (a - n0 * ms) == p) by (nonlinear_arith)
        requires
            a * pd == (n0 * pd + low) * ms + r,
            p == low * ms + r,
    ;
    assert(0 <= p < pd * ms) by (nonlinear_arith)
        requires
            p == low * ms + r,
            0 <= low < pd,
            0 <= r < ms,
    ;
    if up {
        assert(2 * p >= pd * ms) by (nonlinear_arith)
            requires
                p == low * ms + r,
                0 <= r < ms,
                2 * low >= pd,
        ;
        if 2 * low > pd {
            assert(2 * p > pd * ms) by (nonlinear_arith)
                requires
                    p == low * ms + r,
                    0 <= r,
                    0 < ms,
                    2 * low >= pd + 2,
            ;
        } else if r != 0 {
            assert(2 * p > pd * ms) by (nonlinear_arith)
                requires
                    p == low * ms + r,
                    0 < r,
                    2 * low == pd,
            ;
        }
        assert(pd * ((n0 + 1) * ms - a) == pd * ms - p) by (nonlinear_arith)
            requires
                pd * (a - n0 * ms) == p,
        ;
        assert(2 * ((n0 + 1) * ms - a) <= ms && a - (n0 + 1) * ms < 0 && (2 * ((n0 + 1) * ms
            - a) == ms ==> 2 * p == pd * ms)) by (nonlinear_arith)
            requires
                pd * ((n0 + 1) * ms - a) == pd * ms - p,
                2 * p >= pd * ms,
                p < pd * ms,
                pd == 4 || pd == 8,
        ;
    } else {
        if 2 * low < pd {
            assert(2 * p < pd * ms) by (nonlinear_arith)
                requires
                    p == low * ms + r,
                    0 <= r < ms,
                    2 * low + 2 <= pd,
                    0 <= low,
            ;
        } else {
            assert(2 * p == pd * ms) by (nonlinear_arith)
                requires
                    p == low * ms + r,
                    r == 0,
                    2 * low == pd,
            ;
        }
        assert(2 * (a - n0 * ms) <= ms && n0 * ms - a <= 0 && (2 * (a - n0 * ms) == ms ==> 2
            * p == pd * ms)) by (nonlinear_arith)
            requires
                pd * (a - n0 * ms) == p,
                2 * p <= pd * ms,
                0 <= p,
                pd == 4 || pd == 8,
        ;
    }
}

/// Where `w`, `c` times doubled, lies between `2^52` and `2^53` times the
/// mantissa of `s`, the quotient `w / s` lies between the two powers of two
/// that this tells.
proof fn lemma_quotient_magnitude(w: nat, s: Dyadic, c: nat, k: int)
    requires
        s.mantissa > 0,
        0x10_0000_0000_0000 * s.mantissa <= w * pow2(c),
        w * pow2(c) < 0x20_0000_0000_0000 * s.mantissa,
    ensures
        53 - c - s.exponent <= k ==> quotient_is_below(w, s, k),
        52 - c - s.exponent >= k ==> !quotient_is_below(w, s, k),
{
    let ms = s.mantissa as int;
    let g = k + s.exponent;
    let p = pow2(c) as int;
    lemma2_to64();
    lemma2_to64_rest();
    lemma_pow2_pos(c);
    if g >= 0 {
        let t = pow2(g as nat) as int;
        lemma_pow2_adds(g as nat, c);
        lemma_pow2_pos(g as nat);
        if 53 <= g + c {
            if 53 < g + c {
                lemma_pow2_strictly_increases(53, (g + c) as nat);
            }
            assert(w < ms * t) by (nonlinear_arith)
                requires
                    w * p < 0x20_0000_0000_0000 * ms,
                    0x20_0000_0000_0000 <= t * p,
                    p > 0,
                    ms > 0,
                    t > 0,
                    w >= 0,
            ;
        }
        if 52 >= g + c {
            if 52 > g + c {
                lemma_pow2_strictly_increases((g + c) as nat, 52);
            }
            assert(w >= ms * t) by (nonlinear_arith)
                requires
                    0x10_0000_0000_0000 * ms <= w * p,
                    t * p <= 0x10_0000_0000_0000,
                    p > 0,
                    ms > 0,
                    t > 0,
            ;
        }
    } else {
        let h = (-g) as nat;
        let t = pow2(h) as int;
        lemma_pow2_pos(h);
        if 53 <= c - h {
            let u = pow2((c - h) as nat) as int;
            lemma_pow2_adds(h, (c - h) as nat);
            if 53 < c - h {
                lemma_pow2_strictly_increases(53, (c - h) as nat);
            }
            assert(w * t < ms) by (nonlinear_arith)
                requires
                    w * p < 0x20_0000_0000_0000 * ms,
                    p == t * u,
                    u >= 0x20_0000_0000_0000,
                    t > 0,
                    w >= 0,
                    ms > 0,
            ;
        }
        if 52 >= c - h {
            if c >= h {
                let u = pow2((c - h) as nat) as int;
                lemma_pow2_adds(h, (c - h) as nat);
                lemma_pow2_pos((c - h) as nat);
                if 52 > c - h {
                    lemma_pow2_strictly_increases((c - h) as nat, 52);
                }
                assert(w * t >= ms) by (nonlinear_arith)
                    requires
                        0x10_0000_0000_0000 * ms <= w * p,
                        p == t * u,
                        0 < u <= 0x10_0000_0000_0000,
                        t > 0,
                        w >= 0,
                        ms > 0,
                ;
            } else {
                let u = pow2((h - c) as nat) as int;
                lemma_pow2_adds(c, (h - c) as nat);
                lemma_pow2_pos((h - c) as nat);
                assert(w * t >= ms) by (nonlinear_arith)
                    requires
                        0x10_0000_0000_0000 * ms <= w * p,
                        t == p * u,
                        u >= 1,
                        p > 0,
                        w >= 0,
                        ms > 0,
                ;
            }
        }
    }
}

/// Divides a count of physical pixels by a scale factor (a double-precision
/// pattern) in double precision and narrows the quotient to single
/// precision. A factor that is not a positive normal number has no quotient.
pub fn logical_length(pixels: u32, scale: u64) -> (r: Option<u32>)
    ensures
        r is Some <==> f64_is_positive_normal(scale),
        r matches Some(bits) ==> is_logical_length(bits, pixels, scale) && bits
            == logical_length_of(pixels, scale),
{
    match divide(pixels, scale) {
        Some(bits) => {
            proof {
                lemma_logical_length_is_unique(
                    bits,
                    logical_length_of(pixels, scale),
                    pixels,
                    scale,
                );
            }
            Some(bits)
        },
        None => None,
    }
}

fn divide(pixels: u32, scale: u64) -> (r: Option<u32>)
    ensures
        r is Some <==> f64_is_positive_normal(scale),
        r matches Some(bits) ==> is_logical_length(bits, pixels, scale),
{
    let se: u64 = (scale / 0x10_0000_0000_0000) % 0x800;
    if scale >= 0x8000_0000_0000_0000 || se < 1 || se > 2046 {
        return None;
    }
    if pixels == 0 {
        return Some(0);
    }
    let ms: u64 = scale % 0x10_0000_0000_0000 + 0x10_0000_0000_0000;
    let es: i32 = se as i32 - 1075;
    let ghost s = f64_value(scale);
    assert(s.mantissa == ms && s.exponent == es);
    let mut wn: u64 = pixels as u64;
    let mut lz: i32 = 0;
    proof {
        lemma2_to64();
        assert(pixels * pow2(0) == pixels) by (nonlinear_arith)
            requires
                pow2(0) == 1,
        ;
    }
    while wn < 0x8000_0000
        invariant
            0 < pixels,
            0 < wn < 0x1_0000_0000,
            0 <= lz <= 31,
            wn == pixels * pow2(lz as nat),
        decreases 0x1_0000_0000 - wn,
    {
        proof {
            lemma_pow2_adds(lz as nat, 1);
            lemma2_to64();
            assert(lz < 31) by {
                if lz == 31 {
                    assert(pixels * pow2(31) >= 0x8000_0000) by (nonlinear_arith)
                        requires
                            pixels >= 1,
                            pow2(31) == 0x8000_0000,
                    ;
                }
            }
            assert(pixels * pow2((lz + 1) as nat) == (pixels * pow2(lz as nat)) * 2)
                by (nonlinear_arith)
                requires
                    pow2((lz + 1) as nat) == pow2(lz as nat) * pow2(1),
                    pow2(1) == 2,
            ;
        }
        wn = wn * 2;
        lz = lz + 1;
    }
    let num: u128 = wn as u128 * 0x1000_0000_0000_0000_0000;
    let q: u128 = num / (ms as u128);
    let r: u128 = num % (ms as u128);
    proof {
        assert(num == q * ms + r) by {
            vstd::arithmetic::div_mod::lemma_fundamental_div_mod(num as int, ms as int);
            assert(ms * q == q * ms) by (nonlinear_arith);
        }
        lemma_quotient_bounds(num as int, ms as int, q as int, r as int);
    }
    let d: i32 = if q >= 0x80_0000_0000_0000 { 3 } else { 2 };
    let pd: u128 = if q >= 0x80_0000_0000_0000 { 8 } else { 4 };
    let n0: u128 = q / pd;
    let low: u128 = q % pd;
    let up: bool = 2 * low > pd || (2 * low == pd && (r != 0 || n0 % 2 == 1));
    let e0: i32 = d - 76 - lz - es;
    let ghost c: nat = (76 + lz - d) as nat;
    let ghost a: int = pixels * pow2(c);
    proof {
        lemma2_to64();
        lemma2_to64_rest();
        lemma_pow2_adds(64, 12);
        assert(pow2(76) == 0x1000_0000_0000_0000_0000);
        lemma_pow2_adds(c, d as nat);
        lemma_pow2_adds(lz as nat, 76);
        assert(pow2(d as nat) == pd);
        assert(a * pd == num) by (nonlinear_arith)
            requires
                a == pixels * pow2(c),
                pow2((76 + lz) as nat) == pow2(c) * pow2(d as nat),
                pow2((76 + lz) as nat) == pow2(lz as nat) * pow2(76),
                pow2(76) == 0x1000_0000_0000_0000_0000,
                pow2(d as nat) == pd,
                wn == pixels * pow2(lz as nat),
                num == wn * 0x1000_0000_0000_0000_0000,
        ;
        assert(q == n0 * pd + low) by {
            vstd::arithmetic::div_mod::lemma_fundamental_div_mod(q as int, pd as int);
            assert(pd * n0 == n0 * pd) by (nonlinear_arith);
        }
        lemma_rounding_is_nearest(
            a,
            ms as int,
            pd as int,
            n0 as int,
            low as int,
            r as int,
            up,
        );
        assert(n0 * ms <= a < (n0 + 1) * ms) by (nonlinear_arith)
            requires
                a * pd == (n0 * pd + low) * ms + r,
                0 <= low < pd,
                0 <= r < ms,
                pd == 4 || pd == 8,
        ;
        assert(0x10_0000_0000_0000 * ms <= a < 0x20_0000_0000_0000 * ms) by (nonlinear_arith)
            requires
                n0 * ms <= a < (n0 + 1) * ms,
                0x10_0000_0000_0000 <= n0 < 0x20_0000_0000_0000,
                ms > 0,
        ;
        lemma_quotient_magnitude(pixels as nat, s, c, -151);
        lemma_quotient_magnitude(pixels as nat, s, c, 128);
    }
    if e0 <= -204 {
        return Some(0);
    }
    if e0 >= 76 {
        return Some(0x7f80_0000);
    }
    let carried: bool = up && n0 + 1 == 0x20_0000_0000_0000;
    let n: u64 = if !up {
        n0 as u64
    } else if carried {
        0x10_0000_0000_0000
    } else {
        (n0 + 1) as u64
    };
    let e: i32 = if carried {
        e0 + 1
    } else {
        e0
    };
    let double: u64 = ((e + 1075) as u64) * 0x10_0000_0000_0000 + (n - 0x10_0000_0000_0000);
    proof {
        let v = Dyadic { negative: false, mantissa: n as nat, exponent: e as int };
        assert((double / 0x10_0000_0000_0000) % 0x800 == e + 1075);
        assert(double % 0x10_0000_0000_0000 == n - 0x10_0000_0000_0000);
        assert(f64_value(double) == v);
        assert(f64_pattern(v) == double);
        let g = e + es;
        if carried {
            lemma_pow2_adds((c - 1) as nat, 1);
            let half: int = pixels * pow2((c - 1) as nat);
            assert(a == 2 * half) by (nonlinear_arith)
                requires
                    a == pixels * pow2(c),
                    half == pixels * pow2((c - 1) as nat),
                    pow2(c) == pow2((c - 1) as nat) * pow2(1),
                    pow2(1) == 2,
            ;
            assert((-g) as nat == (c - 1) as nat);
            assert(4 * (0x10_0000_0000_0000 * ms - half) == 2 * ((n0 + 1) * ms - a))
                by (nonlinear_arith)
                requires
                    a == 2 * half,
                    n0 + 1 == 0x20_0000_0000_0000,
            ;
            assert(2 * (half - 0x10_0000_0000_0000 * ms) == a - (n0 + 1) * ms)
                by (nonlinear_arith)
                requires
                    a == 2 * half,
                    n0 + 1 == 0x20_0000_0000_0000,
            ;
            assert(is_nearest_double(v, pixels as nat, s));
        } else {
            assert((-g) as nat == c);
            assert(is_nearest_double(v, pixels as nat, s));
        }
    }
    narrow(double)
}

} // verus!
