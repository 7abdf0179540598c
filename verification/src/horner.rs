//! Horner's rule read modulo p: how congruences between coefficients, and
//! products built one coefficient of the left factor at a time, carry over
//! to the values of polynomials.

use crate::field::{fmul, modulus};
use crate::field_lemmas::{cong, lemma_cong_add, lemma_cong_mul, lemma_fadd_cong, lemma_fmul_cong};
use crate::isogeny::poly_eval;
use vstd::arithmetic::div_mod::lemma_mod_multiples_vanish;
use vstd::arithmetic::mul::lemma_mul_is_commutative;
use vstd::prelude::*;

verus! {

/// `a` and `b` are congruent modulo p, kept opaque so that long chains of
/// such facts are matched as they stand.
#[verifier::opaque]
pub open spec fn congruent(a: int, b: int) -> bool {
    cong(a, b)
}

/// The product `a b`, kept opaque so that long chains of products are
/// matched as they stand.
#[verifier::opaque]
pub open spec fn times(a: int, b: int) -> int {
    a * b
}

/// A product with 0 is 0.
pub proof fn lemma_times_zero(a: int)
    ensures
        times(a, 0) == 0,
        times(0, a) == 0,
{
    reveal(times);
}

/// Equal values are congruent.
pub proof fn lemma_congruent_refl(a: int, b: int)
    requires
        a == b,
    ensures
        congruent(a, b),
{
    reveal(congruent);
}

/// One level of Horner's rule: coefficients with `c = k b + e` and tails
/// with `w_c = k w_b + w_e` give `c + x w_c = k (b + x w_b) + (e + x w_e)`.
pub proof fn lemma_horner_level(
    x: int,
    k: int,
    c: int,
    b: int,
    e: int,
    q: int,
    vc: int,
    vb: int,
    ve: int,
    wc: int,
    wb: int,
    we: int,
)
    requires
        c + q * (modulus() as int) == k * b + e,
        congruent(wc, k * wb + we),
        vc == c + times(x, wc),
        vb == b + times(x, wb),
        ve == e + times(x, we),
    ensures
        congruent(vc, k * vb + ve),
{
    reveal(congruent);
    reveal(times);
    lemma_mul_is_commutative(q, modulus() as int);
    lemma_mod_multiples_vanish(q, c, modulus() as int);
    lemma_cong_mul(x, x, wc, k * wb + we);
    lemma_cong_add(c, k * b + e, x * wc, x * (k * wb + we));
    assert(k * b + e + x * (k * wb + we) == k * (b + x * wb) + (e + x * we)) by (nonlinear_arith);
}

/// One step of a product by Horner's rule on the left factor: with
/// `d = w_a v_b` and `p = a v_b + x d`, `p = (a + x w_a) v_b`.
pub proof fn lemma_product_level(x: int, a: int, va: int, wa: int, vb: int, vp: int, vd: int)
    requires
        va == a + times(x, wa),
        congruent(vd, times(wa, vb)),
        congruent(vp, a * vb + times(x, vd)),
    ensures
        congruent(vp, times(va, vb)),
{
    reveal(congruent);
    reveal(times);
    lemma_cong_mul(x, x, vd, wa * vb);
    lemma_cong_add(a * vb, a * vb, x * vd, x * (wa * vb));
    assert(a * vb + x * (wa * vb) == (a + x * wa) * vb) by (nonlinear_arith);
}

/// One level of `poly_eval`: the part of `c` from `i` on.
pub proof fn lemma_eval_level(c: Seq<nat>, i: int, x: nat, v: int, w: int)
    requires
        0 <= i < c.len(),
        congruent(poly_eval(c.subrange(i + 1, c.len() as int), x) as int, w),
        v == c[i] + times(x as int, w),
    ensures
        congruent(poly_eval(c.subrange(i, c.len() as int), x) as int, v),
{
    reveal(congruent);
    reveal(times);
    let s = c.subrange(i, c.len() as int);
    assert(s.drop_first() =~= c.subrange(i + 1, c.len() as int));
    let r = poly_eval(s.drop_first(), x);
    lemma_fmul_cong(x, r);
    lemma_fadd_cong(c[i], fmul(x, r));
    lemma_cong_mul(x as int, x as int, r as int, w);
    lemma_cong_add(c[i] as int, c[i] as int, fmul(x, r) as int, (x * r) as int);
    lemma_cong_add(c[i] as int, c[i] as int, (x * r) as int, x * w);
}

/// `poly_eval` of nothing is 0, and the part of `c` from 0 on is `c`.
pub proof fn lemma_eval_ends(c: Seq<nat>, x: nat)
    ensures
        congruent(poly_eval(c.subrange(c.len() as int, c.len() as int), x) as int, 0),
        c.subrange(0, c.len() as int) == c,
{
    reveal(congruent);
    assert(c.subrange(c.len() as int, c.len() as int).len() == 0);
    assert(c.subrange(0, c.len() as int) =~= c);
}

} // verus!
