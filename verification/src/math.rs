//! Scalar helpers: truncating division and overflow-free products.
//!
//! The engine multiplies velocities by durations and divides by normal
//! scales, so it needs one agreed-upon rounding rule.  Like Rust's own `/`
//! operator on machine integers, every division here truncates toward zero;
//! [`div_t`] is the specification-level statement of that rule, and every
//! contract in the crate that divides speaks through it.

use vstd::prelude::*;

verus! {

/// Division truncating toward zero, the rounding used everywhere in the
/// engine.  Only meaningful for positive divisors.
pub open spec fn div_t(a: int, b: int) -> int
    recommends
        b > 0,
{
    if a >= 0 {
        a / b
    } else {
        -((-a) / b)
    }
}

/// Truncating toward zero never grows the magnitude of the dividend.
pub proof fn lemma_div_t_bound(a: int, b: int)
    requires
        b > 0,
    ensures
        a >= 0 ==> 0 <= div_t(a, b) <= a,
        a < 0 ==> a <= div_t(a, b) <= 0,
{
    if a >= 0 {
        vstd::arithmetic::div_mod::lemma_div_nonincreasing(a, b);
        vstd::arithmetic::div_mod::lemma_div_pos_is_pos(a, b);
    } else {
        vstd::arithmetic::div_mod::lemma_div_nonincreasing(-a, b);
        vstd::arithmetic::div_mod::lemma_div_pos_is_pos(-a, b);
    }
}

/// Exact product of two machine integers, computed in the wider type.
pub fn mul_i64(a: i64, b: i64) -> (r: i128)
    ensures
        r == a * b,
{
    proof {
        lemma_i64_product_fits(a as int, b as int);
    }
    (a as i128) * (b as i128)
}

/// The product of two `i64` values always fits in an `i128`.
pub proof fn lemma_i64_product_fits(a: int, b: int)
    requires
        i64::MIN <= a <= i64::MAX,
        i64::MIN <= b <= i64::MAX,
    ensures
        -0x4000_0000_0000_0000_0000_0000_0000_0000 <= a * b
            <= 0x4000_0000_0000_0000_0000_0000_0000_0000,
{
    assert(-0x4000_0000_0000_0000_0000_0000_0000_0000 <= a * b
        <= 0x4000_0000_0000_0000_0000_0000_0000_0000) by (nonlinear_arith)
        requires
            -0x8000_0000_0000_0000 <= a <= 0x7fff_ffff_ffff_ffff,
            -0x8000_0000_0000_0000 <= b <= 0x7fff_ffff_ffff_ffff,
    ;
}

/// Truncating division on the wide type, used for every engine division.
pub fn div_trunc(a: i128, b: i128) -> (q: i128)
    requires
        b > 0,
        a > i128::MIN,
    ensures
        q == div_t(a as int, b as int),
{
    if a >= 0 {
        let q: u128 = (a as u128) / (b as u128);
        proof {
            vstd::arithmetic::div_mod::lemma_div_nonincreasing(a as int, b as int);
            vstd::arithmetic::div_mod::lemma_div_pos_is_pos(a as int, b as int);
        }
        q as i128
    } else {
        let n: i128 = -a;
        let q: u128 = (n as u128) / (b as u128);
        proof {
            vstd::arithmetic::div_mod::lemma_div_nonincreasing(n as int, b as int);
            vstd::arithmetic::div_mod::lemma_div_pos_is_pos(n as int, b as int);
        }
        -(q as i128)
    }
}

/// Magnitude of an integer, for stating bounds.
pub open spec fn abs_i(a: int) -> int {
    if a >= 0 {
        a
    } else {
        -a
    }
}

/// When the divisor divides evenly, truncating division is exact.
pub proof fn lemma_div_t_divides(a: int, b: int)
    requires
        b > 0,
        a % b == 0,
    ensures
        div_t(a, b) * b == a,
{
    if a >= 0 {
        vstd::arithmetic::div_mod::lemma_fundamental_div_mod(a, b);
        vstd::arithmetic::mul::lemma_mul_is_commutative(a / b, b);
    } else {
        vstd::arithmetic::div_mod::lemma_fundamental_div_mod(a, b);
        let k = a / b;
        assert(a == b * k);
        vstd::arithmetic::mul::lemma_mul_unary_negation(b, k);
        assert(-a == (-k) * b) by {
            vstd::arithmetic::mul::lemma_mul_is_commutative(b, -k);
        }
        vstd::arithmetic::div_mod::lemma_mod_multiples_basic(-k, b);
        vstd::arithmetic::div_mod::lemma_fundamental_div_mod(-a, b);
        let m = (-a) / b;
        assert(-a == b * m);
        assert(m == -k) by (nonlinear_arith)
            requires
                b > 0 && -a == b * m && -a == (-k) * b,
        ;
        assert(div_t(a, b) * b == (-m) * b);
        vstd::arithmetic::mul::lemma_mul_unary_negation(m, b);
        vstd::arithmetic::mul::lemma_mul_is_commutative(m, b);
    }
}

/// A positive common factor cancels from an equality of products.
pub proof fn lemma_mul_cancel(x: int, y: int, c: int)
    requires
        c > 0,
        x * c == y * c,
    ensures
        x == y,
{
    assert(x == y) by (nonlinear_arith)
        requires
            c > 0 && x * c == y * c,
    ;
}

/// Bounds on two factors bound their product.
pub proof fn lemma_abs_mul_le(a: int, b: int, ba: int, bb: int)
    requires
        abs_i(a) <= ba,
        abs_i(b) <= bb,
    ensures
        abs_i(a * b) <= ba * bb,
{
    assert(abs_i(a * b) <= ba * bb) by (nonlinear_arith)
        requires
            abs_i(a) <= ba && abs_i(b) <= bb,
    ;
}

} // verus!
