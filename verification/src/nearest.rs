//! Rounding to single or double precision: the number nearest to a quotient
//! or a product, a tie going to the even mantissa, and that there is only
//! one.
use crate::scalar::Dyadic;
use vstd::arithmetic::power2::{lemma2_to64, lemma_pow2_adds, lemma_pow2_pos, pow2};
use vstd::prelude::*;

verus! {

/// `v` is, among the normal numbers of a precision, the one nearest to the
/// quotient `w / s`, a tie going to the even mantissa. The precision is
/// told by `least`, the least mantissa of a normal number: `2^23` for single
/// and `2^52` for double precision.
///
/// With `v = n * 2^e`, the quotient is `(a / b) * 2^e` for the whole numbers
/// `a` and `b` below. The next number above `v` is `(n + 1) * 2^e`; the next
/// below is `(n - 1) * 2^e`, or half as far where `n` is the least mantissa.
/// (Below the least normal number of a precision the step stays the same;
/// the relation is used of that number only for quotients not below it.)
pub open spec fn is_nearest(v: Dyadic, w: nat, s: Dyadic, least: int) -> bool {
    let g = v.exponent + s.exponent;
    let a: int = if g < 0 {
        (w * pow2((-g) as nat)) as int
    } else {
        w as int
    };
    let b: int = if g > 0 {
        (s.mantissa * pow2(g as nat)) as int
    } else {
        s.mantissa as int
    };
    !v.negative && is_within_half_a_step(a, v.mantissa as int, b, least)
}

/// `v` is the normal single-precision number nearest to the quotient `w / s`,
/// a tie going to the even mantissa.
pub open spec fn is_nearest_quotient(v: Dyadic, w: nat, s: Dyadic) -> bool {
    is_nearest(v, w, s, 0x80_0000)
}

/// `v` is the normal double-precision number nearest to the quotient `w / s`,
/// a tie going to the even mantissa.
pub open spec fn is_nearest_double(v: Dyadic, w: nat, s: Dyadic) -> bool {
    is_nearest(v, w, s, 0x10_0000_0000_0000)
}

/// `v` is the normal single-precision number nearest to the positive number
/// `x`, a tie going to the even mantissa: `x` is its mantissa over the power
/// of two that undoes its exponent.
pub open spec fn is_nearest_single(v: Dyadic, x: Dyadic) -> bool {
    is_nearest_quotient(
        v,
        x.mantissa,
        Dyadic { negative: false, mantissa: 1, exponent: -x.exponent },
    )
}

/// The normal single-precision number nearest to `x`: what `x` is rounded to
/// when it is the result of an operation in single precision. There is one
/// for every `x` from `2^-126` to below `2^128 - 2^103`, and never two.
pub open spec fn nearest_single(x: Dyadic) -> Dyadic {
    choose|v: Dyadic| is_nearest_single(v, x)
}

/// How far a quotient may lie from the number nearest to it: the quotient
/// is `x`, the number is `n * u`, and `u` is the step to the next number
/// above; `least` is the least mantissa.
pub open spec fn is_within_half_a_step(x: int, n: int, u: int, least: int) -> bool {
    &&& least <= n < 2 * least
    &&& 2 * (x - n * u) <= u
    &&& 2 * (x - n * u) == u ==> n % 2 == 0
    &&& if n == least {
        4 * (n * u - x) <= u
    } else {
        2 * (n * u - x) <= u && (2 * (n * u - x) == u ==> n % 2 == 0)
    }
}

/// Two numbers of one exponent that are both nearest to a quotient are one
/// number.
proof fn lemma_one_nearest_in_a_binade(x: int, n1: int, n2: int, u: int, least: int)
    requires
        u > 0,
        is_within_half_a_step(x, n1, u, least),
        is_within_half_a_step(x, n2, u, least),
        n1 <= n2,
    ensures
        n1 == n2,
{
    if n1 < n2 {
        assert(n2 * u - n1 * u >= u) by (nonlinear_arith)
            requires
                n1 + 1 <= n2,
                u > 0,
        ;
        assert(n2 * u - n1 * u == u ==> n2 == n1 + 1) by (nonlinear_arith)
            requires
                n1 + 1 <= n2,
                u > 0,
        ;
    }
}

/// Of two numbers of different exponents, at most one is nearest to a
/// quotient: `k` is how many steps of the lower make one step of the
/// higher.
proof fn lemma_no_nearest_in_two_binades(x: int, n1: int, n2: int, u1: int, k: int, least: int)
    requires
        u1 > 0,
        k == 2 || k >= 4,
        least >= 2,
        least % 2 == 0,
        is_within_half_a_step(x, n1, u1, least),
    ensures
        !is_within_half_a_step(x, n2, k * u1, least),
{
    let u2 = k * u1;
    // The least numbers of the two binades.
    let f1 = least * u1;
    let f2 = least * u2;
    assert(f1 >= 2 * u1 && f2 >= 2 * u2 && f2 >= 2 * f1 && (k >= 4 ==> f2 >= 4 * f1) && (k == 2
        ==> f2 == 2 * f1 && u2 == 2 * u1) && u2 >= 2 * u1) by (nonlinear_arith)
        requires
            u2 == k * u1,
            f1 == least * u1,
            f2 == least * u2,
            u1 > 0,
            least >= 2,
            k == 2 || k >= 4,
    ;
    // Twice the quotient stays below the least number of the next binade.
    assert(n1 * u1 <= 2 * f1 - u1 && (n1 * u1 == 2 * f1 - u1 ==> n1 == 2 * least - 1))
        by (nonlinear_arith)
        requires
            n1 <= 2 * least - 1,
            f1 == least * u1,
            u1 > 0,
    ;
    assert(2 * x <= 4 * f1 - u1);
    if is_within_half_a_step(x, n2, u2, least) {
        if n2 == least {
            assert(n2 * u2 == f2);
            assert(4 * x >= 4 * f2 - u2);
            if k >= 4 {
                assert(false);
            } else {
                assert(2 * x == 4 * f1 - u1);
                assert(n1 == 2 * least - 1);
                assert(n1 % 2 == 0);
                assert(false);
            }
        } else {
            assert(n2 * u2 >= f2 + u2) by (nonlinear_arith)
                requires
                    n2 >= least + 1,
                    f2 == least * u2,
                    u2 > 0,
            ;
            assert(false);
        }
    }
}

/// The terms of [`is_nearest`] in a finer unit: with `t` more
/// doublings of both the quotient and the step, as much holds of them.
proof fn lemma_nearest_in_a_finer_unit(v: Dyadic, w: nat, s: Dyadic, low: int, least: int)
    requires
        s.mantissa > 0,
        is_nearest(v, w, s, least),
        low <= 0,
        low <= v.exponent + s.exponent,
    ensures
        is_within_half_a_step(
            (w * pow2((-low) as nat)) as int,
            v.mantissa as int,
            (s.mantissa * pow2((v.exponent + s.exponent - low) as nat)) as int,
            least,
        ),
{
    let g = v.exponent + s.exponent;
    let a: int = if g < 0 {
        (w * pow2((-g) as nat)) as int
    } else {
        w as int
    };
    let b: int = if g > 0 {
        (s.mantissa * pow2(g as nat)) as int
    } else {
        s.mantissa as int
    };
    let n = v.mantissa as int;
    let t: nat = if g < 0 {
        (g - low) as nat
    } else {
        (-low) as nat
    };
    let f = pow2(t) as int;
    lemma_pow2_pos(t);
    lemma2_to64();
    let x = (w * pow2((-low) as nat)) as int;
    let u = (s.mantissa * pow2((g - low) as nat)) as int;
    if g < 0 {
        lemma_pow2_adds((-g) as nat, t);
        assert(x == a * f) by (nonlinear_arith)
            requires
                x == w * pow2((-low) as nat),
                a == w * pow2((-g) as nat),
                pow2((-low) as nat) == pow2((-g) as nat) * pow2(t),
                f == pow2(t),
        ;
        assert(u == b * f);
    } else {
        lemma_pow2_adds(g as nat, t);
        assert(x == a * f);
        assert(u == b * f) by (nonlinear_arith)
            requires
                u == s.mantissa * pow2((g - low) as nat),
                b == s.mantissa * pow2(g as nat),
                pow2((g - low) as nat) == pow2(g as nat) * pow2(t),
                f == pow2(t),
                pow2(0) == 1,
        ;
    }
    assert(x - n * u == (a - n * b) * f) by (nonlinear_arith)
        requires
            x == a * f,
            u == b * f,
    ;
    assert(2 * (x - n * u) <= u && (2 * (x - n * u) == u ==> 2 * (a - n * b) == b))
        by (nonlinear_arith)
        requires
            x - n * u == (a - n * b) * f,
            u == b * f,
            2 * (a - n * b) <= b,
            f > 0,
    ;
    if n == least {
        assert(4 * (n * u - x) <= u) by (nonlinear_arith)
            requires
                x - n * u == (a - n * b) * f,
                u == b * f,
                4 * (n * b - a) <= b,
                f > 0,
        ;
    } else {
        assert(2 * (n * u - x) <= u && (2 * (n * u - x) == u ==> 2 * (n * b - a) == b))
            by (nonlinear_arith)
            requires
                x - n * u == (a - n * b) * f,
                u == b * f,
                2 * (n * b - a) <= b,
                f > 0,
        ;
    }
}

/// A quotient has one nearest number: two normal numbers of one precision
/// that are both nearest to it are the same number.
pub proof fn lemma_nearest_is_unique(v1: Dyadic, v2: Dyadic, w: nat, s: Dyadic, least: int)
    requires
        s.mantissa > 0,
        least >= 2,
        least % 2 == 0,
        is_nearest(v1, w, s, least),
        is_nearest(v2, w, s, least),
    ensures
        v1.mantissa == v2.mantissa,
        v1.exponent == v2.exponent,
{
    let g1 = v1.exponent + s.exponent;
    let g2 = v2.exponent + s.exponent;
    let lower = if g1 <= g2 {
        g1
    } else {
        g2
    };
    let low = if lower <= 0 {
        lower
    } else {
        0
    };
    lemma_nearest_in_a_finer_unit(v1, w, s, low, least);
    lemma_nearest_in_a_finer_unit(v2, w, s, low, least);
    let x = (w * pow2((-low) as nat)) as int;
    let u1 = (s.mantissa * pow2((g1 - low) as nat)) as int;
    let u2 = (s.mantissa * pow2((g2 - low) as nat)) as int;
    lemma_pow2_pos((g1 - low) as nat);
    lemma_pow2_pos((g2 - low) as nat);
    assert(u1 > 0 && u2 > 0) by (nonlinear_arith)
        requires
            u1 == s.mantissa * pow2((g1 - low) as nat),
            u2 == s.mantissa * pow2((g2 - low) as nat),
            s.mantissa > 0,
            pow2((g1 - low) as nat) > 0,
            pow2((g2 - low) as nat) > 0,
    ;
    if g1 == g2 {
        if v1.mantissa <= v2.mantissa {
            lemma_one_nearest_in_a_binade(x, v1.mantissa as int, v2.mantissa as int, u1, least);
        } else {
            lemma_one_nearest_in_a_binade(x, v2.mantissa as int, v1.mantissa as int, u1, least);
        }
    } else if g1 < g2 {
        lemma_steps_of_binades(s.mantissa, (g1 - low) as nat, (g2 - low) as nat);
        let k = pow2((g2 - g1) as nat) as int;
        lemma_no_nearest_in_two_binades(x, v1.mantissa as int, v2.mantissa as int, u1, k, least);
    } else {
        lemma_steps_of_binades(s.mantissa, (g2 - low) as nat, (g1 - low) as nat);
        let k = pow2((g1 - g2) as nat) as int;
        lemma_no_nearest_in_two_binades(x, v2.mantissa as int, v1.mantissa as int, u2, k, least);
    }
}

/// The step of a higher binade is the step of a lower one, doubled once for
/// each binade between them.
proof fn lemma_steps_of_binades(m: nat, i: nat, j: nat)
    requires
        i < j,
    ensures
        m * pow2(j) == pow2((j - i) as nat) * (m * pow2(i)),
        pow2((j - i) as nat) == 2 || pow2((j - i) as nat) >= 4,
{
    lemma_pow2_adds(i, (j - i) as nat);
    assert(m * pow2(j) == pow2((j - i) as nat) * (m * pow2(i))) by (nonlinear_arith)
        requires
            pow2(j) == pow2(i) * pow2((j - i) as nat),
    ;
    lemma2_to64();
    if j - i >= 2 {
        if j - i > 2 {
            vstd::arithmetic::power2::lemma_pow2_strictly_increases(2, (j - i) as nat);
        }
    }
}

/// As much as holds of a quotient and a step in a finer unit holds of them
/// in a coarser one: `t` units of the finer make one of the coarser.
pub proof fn lemma_nearest_in_a_coarser_unit(
    x: int,
    u: int,
    a: int,
    b: int,
    t: int,
    n: int,
    least: int,
)
    requires
        t > 0,
        x == a * t,
        u == b * t,
        is_within_half_a_step(x, n, u, least),
    ensures
        is_within_half_a_step(a, n, b, least),
{
    assert(x - n * u == (a - n * b) * t) by (nonlinear_arith)
        requires
            x == a * t,
            u == b * t,
    ;
    assert(2 * (a - n * b) <= b && (2 * (a - n * b) == b ==> 2 * (x - n * u) == u))
        by (nonlinear_arith)
        requires
            x - n * u == (a - n * b) * t,
            u == b * t,
            2 * (x - n * u) <= u,
            t > 0,
    ;
    if n == least {
        assert(4 * (n * b - a) <= b) by (nonlinear_arith)
            requires
                x - n * u == (a - n * b) * t,
                u == b * t,
                4 * (n * u - x) <= u,
                t > 0,
        ;
    } else {
        assert(2 * (n * b - a) <= b && (2 * (n * b - a) == b ==> 2 * (n * u - x) == u))
            by (nonlinear_arith)
            requires
                x - n * u == (a - n * b) * t,
                u == b * t,
                2 * (n * u - x) <= u,
                t > 0,
        ;
    }
}

/// A number has one nearest single-precision number: whatever is nearest to
/// it is [`nearest_single`] of it.
pub proof fn lemma_nearest_single_is_unique(v: Dyadic, x: Dyadic)
    requires
        is_nearest_single(v, x),
    ensures
        nearest_single(x) == v,
{
    let c = nearest_single(x);
    lemma_nearest_is_unique(
        v,
        c,
        x.mantissa,
        Dyadic { negative: false, mantissa: 1, exponent: -x.exponent },
        0x80_0000,
    );
}

} // verus!
