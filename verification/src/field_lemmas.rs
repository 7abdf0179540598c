//! Congruence modulo p and the algebra of the spec-level field operations.

use crate::field::{fadd, finv, finv0, fmul, fneg, fsq, is_inverse, modulus, sgn0_spec};
use vstd::arithmetic::div_mod::*;
use vstd::prelude::*;

verus! {

/// `x` and `y` are congruent modulo p.
pub open spec fn cong(x: int, y: int) -> bool {
    x % (modulus() as int) == y % (modulus() as int)
}

pub proof fn lemma_cong_mul(x1: int, x2: int, y1: int, y2: int)
    requires
        cong(x1, x2),
        cong(y1, y2),
    ensures
        cong(x1 * y1, x2 * y2),
{
    let m = modulus() as int;
    lemma_mul_mod_noop(x1, y1, m);
    lemma_mul_mod_noop(x2, y2, m);
}

pub proof fn lemma_cong_add(x1: int, x2: int, y1: int, y2: int)
    requires
        cong(x1, x2),
        cong(y1, y2),
    ensures
        cong(x1 + y1, x2 + y2),
{
    let m = modulus() as int;
    lemma_add_mod_noop(x1, y1, m);
    lemma_add_mod_noop(x2, y2, m);
}

pub proof fn lemma_cong_sub(x1: int, x2: int, y1: int, y2: int)
    requires
        cong(x1, x2),
        cong(y1, y2),
    ensures
        cong(x1 - y1, x2 - y2),
{
    let m = modulus() as int;
    lemma_sub_mod_noop(x1, y1, m);
    lemma_sub_mod_noop(x2, y2, m);
}

pub proof fn lemma_cong_neg(x1: int, x2: int)
    requires
        cong(x1, x2),
    ensures
        cong(-x1, -x2),
{
    lemma_cong_sub(0, 0, x1, x2);
    assert(0 - x1 == -x1);
    assert(0 - x2 == -x2);
}

/// Two canonical values that are congruent are equal.
pub proof fn lemma_cong_canonical(a: nat, b: nat)
    requires
        a < modulus(),
        b < modulus(),
        cong(a as int, b as int),
    ensures
        a == b,
{
    lemma_small_mod(a, modulus());
    lemma_small_mod(b, modulus());
}

pub proof fn lemma_reduce_cong(e: int)
    ensures
        cong(e % (modulus() as int), e),
{
    lemma_mod_twice(e, modulus() as int);
}

pub proof fn lemma_fmul_cong(a: nat, b: nat)
    ensures
        cong(fmul(a, b) as int, (a * b) as int),
        fmul(a, b) < modulus(),
{
    lemma_reduce_cong((a * b) as int);
}

pub proof fn lemma_fadd_cong(a: nat, b: nat)
    ensures
        cong(fadd(a, b) as int, (a + b) as int),
        fadd(a, b) < modulus(),
{
    lemma_reduce_cong((a + b) as int);
}

pub proof fn lemma_fsq_cong(a: nat)
    ensures
        cong(fsq(a) as int, (a * a) as int),
        fsq(a) < modulus(),
{
    lemma_fmul_cong(a, a);
}

pub proof fn lemma_fneg_cong(a: nat)
    ensures
        cong(fneg(a) as int, -a),
        fneg(a) < modulus(),
{
    let m = modulus() as int;
    let r: int = (a as int) % m;
    lemma_mod_bound(a as int, m);
    lemma_reduce_cong(m - r);
    lemma_mod_add_multiples_vanish(-r, m);
    assert(m + (-r) == m - r);
    lemma_sub_mod_noop(0, a as int, m);
    assert(0int % m == 0);
}

/// Negation of a nonzero canonical value is `p` minus it, and flips its
/// parity.
pub proof fn lemma_fneg_nonzero(a: nat)
    requires
        0 < a < modulus(),
    ensures
        fneg(a) == modulus() - a,
        fneg(a) != 0,
        sgn0_spec(fneg(a)) != sgn0_spec(a),
{
    lemma_small_mod(a, modulus());
    lemma_small_mod((modulus() - a) as nat, modulus());
}

pub proof fn lemma_fneg_zero()
    ensures
        fneg(0) == 0,
{
    lemma_small_mod(0, modulus());
}

/// Squaring forgets the sign.
pub proof fn lemma_fsq_fneg(a: nat)
    ensures
        fsq(fneg(a)) == fsq(a),
{
    lemma_fneg_cong(a);
    lemma_cong_mul(fneg(a) as int, -a, fneg(a) as int, -a);
    assert((-a) * (-a) == a * a) by (nonlinear_arith);
    lemma_fsq_cong(fneg(a));
    lemma_fsq_cong(a);
    lemma_cong_canonical(fsq(fneg(a)), fsq(a));
}

/// A value that is congruent to one is the inverse relation's witness.
pub proof fn lemma_is_inverse_from_cong(a: nat, w: nat)
    requires
        w < modulus(),
        cong((a * w) as int, 1),
    ensures
        is_inverse(a, w),
{
    lemma_small_mod(1, modulus());
}

/// An inverse is unique.
pub proof fn lemma_inverse_unique(a: nat, w1: nat, w2: nat)
    requires
        is_inverse(a, w1),
        is_inverse(a, w2),
    ensures
        w1 == w2,
{
    lemma_fmul_cong(a, w1);
    lemma_fmul_cong(a, w2);
    lemma_small_mod(1, modulus());
    // w1 = w1 * (a * w2) = (a * w1) * w2 = w2
    lemma_cong_mul(w1 as int, w1 as int, (a * w2) as int, 1);
    assert(w1 * (a * w2) == (a * w1) * w2) by (nonlinear_arith);
    lemma_cong_mul((a * w1) as int, 1, w2 as int, w2 as int);
    lemma_cong_canonical(w1, w2);
}

/// `finv` picks the inverse, when there is one.
pub proof fn lemma_finv_is(a: nat, w: nat)
    requires
        is_inverse(a, w),
    ensures
        finv(a) == w,
        finv0(a) == w,
{
    assert(is_inverse(a, finv(a)));
    lemma_inverse_unique(a, finv(a), w);
    if a % modulus() == 0 {
        lemma_mul_mod_noop_left(a as int, w as int, modulus() as int);
        assert(0 * w == 0);
    }
}

/// A nonzero value whose product with `c` vanishes makes `c` a zero
/// divisor, which no invertible `c` is.
pub proof fn lemma_invertible_nonzero(c: int, w: nat)
    requires
        cong(c * w, 1),
    ensures
        !cong(c, 0),
{
    if cong(c, 0) {
        lemma_cong_mul(c, 0, w as int, w as int);
        assert(0 * w == 0);
        lemma_small_mod(1, modulus());
        lemma_small_mod(0, modulus());
    }
}

/// Negation undoes itself on canonical values.
pub proof fn lemma_fneg_involutive(a: nat)
    requires
        a < modulus(),
    ensures
        fneg(fneg(a)) == a,
{
    lemma_fneg_cong(a);
    lemma_fneg_cong(fneg(a));
    lemma_cong_neg(fneg(a) as int, -(a as int));
    lemma_cong_canonical(fneg(fneg(a)), a);
}

/// Negation passes through a product.
pub proof fn lemma_fmul_fneg(a: nat, b: nat)
    ensures
        fmul(a, fneg(b)) == fneg(fmul(a, b)),
        fmul(fneg(a), b) == fneg(fmul(a, b)),
{
    lemma_fneg_cong(a);
    lemma_fneg_cong(b);
    lemma_fmul_cong(a, b);
    lemma_fmul_cong(a, fneg(b));
    lemma_fmul_cong(fneg(a), b);
    lemma_fneg_cong(fmul(a, b));
    lemma_cong_mul(a as int, a as int, fneg(b) as int, -(b as int));
    lemma_cong_mul(fneg(a) as int, -(a as int), b as int, b as int);
    lemma_cong_neg(fmul(a, b) as int, (a * b) as int);
    assert((a as int) * -(b as int) == -((a * b) as int)) by (nonlinear_arith);
    assert(-(a as int) * (b as int) == -((a * b) as int)) by (nonlinear_arith);
    lemma_cong_canonical(fmul(a, fneg(b)), fneg(fmul(a, b)));
    lemma_cong_canonical(fmul(fneg(a), b), fneg(fmul(a, b)));
}

} // verus!
