//! Euler's criterion as the SWU map needs it: of a value and its product
//! with the non-residue 11, one is a square.
//!
//! For `a` in Fq let `e(a) = a^((p - 1) / 2)`. The candidate root
//! `c(a) = a^((p + 1) / 4)` squares to `a e(a)`, so `a` has the root `c(a)`
//! when `e(a) = 1`; `e(11 a) = -e(a)` by the certificate in `nonresidue`;
//! and `e(a)^2 = 1` for nonzero `a`, which the arkworks square root of
//! `a^2` witnesses (it is `a e(a)`, and squares back to `a^2`).

use crate::field::{fadd, fmul, fneg, fsq, modulus, sqrt_candidate, sqrt_exponent};
use crate::field_lemmas::{
    cong, lemma_cong_add, lemma_cong_canonical, lemma_cong_mul, lemma_cong_neg, lemma_fadd_cong,
    lemma_fmul_cong, lemma_fneg_cong, lemma_fsq_cong, lemma_reduce_cong,
};
use crate::nonresidue::{half_order, lemma_z_euler};
use vstd::arithmetic::power::{
    lemma_pow1, lemma_pow_adds, lemma_pow_distributes, lemma_pow_mod_noop, lemma_pow_multiplies,
    pow,
};
use vstd::prelude::*;

verus! {

/// Euler's criterion value `a^((p - 1) / 2)`, reduced.
pub open spec fn euler(a: nat) -> nat {
    (pow(a as int, half_order()) % (modulus() as int)) as nat
}

proof fn lemma_exponents()
    ensures
        2 * sqrt_exponent() == half_order() + 1,
{
}

proof fn lemma_euler_canonical(a: nat)
    ensures
        euler(a) < modulus(),
        cong(euler(a) as int, pow(a as int, half_order())),
{
    vstd::arithmetic::div_mod::lemma_mod_bound(pow(a as int, half_order()), modulus() as int);
    lemma_reduce_cong(pow(a as int, half_order()));
}

/// `c(a)^2 = a e(a)`.
pub proof fn lemma_candidate_square(a: nat)
    ensures
        cong(fsq(sqrt_candidate(a)) as int, (a * euler(a)) as int),
{
    let k = sqrt_exponent();
    let ai = a as int;
    let m = modulus() as int;
    let x = pow(ai, k);
    lemma_exponents();
    lemma_pow_adds(ai, k, k);
    lemma_pow_adds(ai, half_order(), 1);
    lemma_pow1(ai);
    assert(k + k == half_order() + 1);
    assert(x * x == pow(ai, half_order()) * ai);
    let c = sqrt_candidate(a);
    vstd::arithmetic::div_mod::lemma_mod_bound(x, m);
    lemma_reduce_cong(x);
    assert(cong(c as int, x));
    lemma_fsq_cong(c);
    lemma_cong_mul(c as int, x, c as int, x);
    lemma_euler_canonical(a);
    lemma_cong_mul(pow(ai, half_order()), euler(a) as int, ai, ai);
    vstd::arithmetic::mul::lemma_mul_is_commutative(euler(a) as int, ai);
}

/// The candidate root of `a^2` is `a e(a)`.
pub proof fn lemma_candidate_of_square(a: nat)
    ensures
        cong(sqrt_candidate(fsq(a)) as int, (a * euler(a)) as int),
{
    let k = sqrt_exponent();
    let ai = a as int;
    let m = modulus() as int;
    lemma_exponents();
    lemma_pow_mod_noop(ai * ai, k, m);
    lemma_pow_adds(ai, 1, 1);
    lemma_pow1(ai);
    lemma_pow_multiplies(ai, 2, k);
    assert(pow(ai * ai, k) == pow(ai, 2 * k));
    lemma_pow_adds(ai, half_order(), 1);
    assert(pow(ai, 2 * k) == pow(ai, half_order()) * ai);
    vstd::arithmetic::div_mod::lemma_mod_bound(pow(ai * ai, k), m);
    lemma_reduce_cong(pow(ai, 2 * k));
    lemma_euler_canonical(a);
    lemma_cong_mul(pow(ai, half_order()), euler(a) as int, ai, ai);
    vstd::arithmetic::mul::lemma_mul_is_commutative(euler(a) as int, ai);
}

/// `e(11 a) = -e(a)`.
pub proof fn lemma_euler_times_z(a: nat, b: nat)
    requires
        cong(b as int, 11 * (a as int)),
    ensures
        cong(euler(b) as int, -(euler(a) as int)),
{
    let m = modulus() as int;
    let e = half_order();
    lemma_pow_mod_noop(b as int, e, m);
    lemma_pow_mod_noop(11 * (a as int), e, m);
    lemma_pow_distributes(11, a as int, e);
    lemma_z_euler();
    lemma_euler_canonical(a);
    lemma_euler_canonical(b);
    lemma_reduce_cong(pow(11, e));
    lemma_cong_mul(pow(11, e), m - 1, pow(a as int, e), euler(a) as int);
    assert((m - 1) * euler(a) == -(euler(a) as int) + m * euler(a)) by (nonlinear_arith);
    vstd::arithmetic::div_mod::lemma_mod_multiples_vanish(euler(a) as int, -(euler(a) as int), m);
}

/// Fermat's little theorem for a nonzero `q`: `q^p = q`. The witnesses are
/// the arkworks root `s` of `q^2` (which squares back to `q^2`) and an
/// inverse `qi` of `q`.
pub proof fn lemma_fermat(q: nat, s: nat, qi: nat)
    requires
        q < modulus(),
        s == sqrt_candidate(fsq(q)),
        fsq(s) == fsq(q),
        fmul(q, qi) == 1,
    ensures
        cong(pow(q as int, modulus()), q as int),
{
    let eul = euler(q);
    let ei = eul as int;
    let qq = q as int;
    let qii = qi as int;
    lemma_euler_canonical(q);
    vstd::arithmetic::div_mod::lemma_small_mod(1, modulus());
    lemma_candidate_of_square(q);
    lemma_fmul_cong(q, qi);
    lemma_fsq_cong(s);
    lemma_fsq_cong(q);
    lemma_cong_mul(s as int, qq * ei, s as int, qq * ei);
    lemma_cong_mul(qq * ei * (qq * ei), qq * qq, qii * qii, qii * qii);
    assert(qq * ei * (qq * ei) * (qii * qii) == (ei * ei) * ((qq * qii) * (qq * qii)))
        by (nonlinear_arith);
    assert(qq * qq * (qii * qii) == (qq * qii) * (qq * qii)) by (nonlinear_arith);
    lemma_cong_mul(qq * qii, 1, qq * qii, 1);
    lemma_cong_mul(ei * ei, ei * ei, (qq * qii) * (qq * qii), 1);
    assert(cong(ei * ei, 1));
    // q^p = (q^((p - 1) / 2))^2 q
    let e = half_order();
    assert(modulus() == (e + e) + 1);
    lemma_pow_adds(qq, e, e);
    lemma_pow_adds(qq, e + e, 1);
    lemma_pow1(qq);
    let x = pow(qq, e);
    lemma_cong_mul(x, ei, x, ei);
    lemma_cong_mul(x * x, ei * ei, qq, qq);
    lemma_cong_mul(ei * ei, 1, qq, qq);
}

/// Of a value `q` and its product `q2` with 11, one has the square root
/// that arkworks computes. The witnesses: the arkworks root `s` of `q^2`
/// (which squares back to `q^2`), an inverse `qi` of `q`, the product
/// `e = s qi`, and the inverse `w` of `e - 1` when arkworks finds one.
pub proof fn lemma_no_two_non_residues(
    q: nat,
    q2: nat,
    s: nat,
    qi: nat,
    e: nat,
    em1: nat,
    w: Option<nat>,
)
    requires
        q < modulus(),
        q2 < modulus(),
        cong(q2 as int, 11 * (q as int)),
        s == sqrt_candidate(fsq(q)),
        fsq(s) == fsq(q),
        fmul(q, qi) == 1,
        e == fmul(s, qi),
        em1 == fadd(e, fneg(1)),
        w is None ==> em1 == 0,
        w matches Some(wv) ==> fmul(em1, wv) == 1,
    ensures
        fsq(sqrt_candidate(q)) == q || fsq(sqrt_candidate(q2)) == q2,
{
    if fsq(sqrt_candidate(q)) != q && fsq(sqrt_candidate(q2)) != q2 {
        lemma_contradiction(q, q2, s, qi, e, em1, w);
    }
}

proof fn lemma_contradiction(q: nat, q2: nat, s: nat, qi: nat, e: nat, em1: nat, w: Option<nat>)
    requires
        q < modulus(),
        q2 < modulus(),
        cong(q2 as int, 11 * (q as int)),
        fsq(sqrt_candidate(q)) != q,
        fsq(sqrt_candidate(q2)) != q2,
        s == sqrt_candidate(fsq(q)),
        fsq(s) == fsq(q),
        fmul(q, qi) == 1,
        e == fmul(s, qi),
        em1 == fadd(e, fneg(1)),
        w is None ==> em1 == 0,
        w matches Some(wv) ==> fmul(em1, wv) == 1,
    ensures
        q == q + 1,
{
    let m = modulus() as int;
    let eul = euler(q);
    let ei = eul as int;
    let qq = q as int;
    let qii = qi as int;
    lemma_euler_canonical(q);
    vstd::arithmetic::div_mod::lemma_small_mod(1, modulus());
    // s = q e(q), and e = s / q = e(q)
    lemma_candidate_of_square(q);
    lemma_fmul_cong(s, qi);
    lemma_fmul_cong(q, qi);
    lemma_cong_mul(s as int, qq * ei, qii, qii);
    lemma_cong_mul(ei, ei, qq * qii, 1);
    assert(qq * ei * qii == ei * (qq * qii)) by (nonlinear_arith);
    lemma_cong_canonical(e, eul);
    // e(q)^2 = 1: (q e)^2 = s^2 = q^2, and q is invertible
    lemma_fsq_cong(s);
    lemma_fsq_cong(q);
    lemma_cong_mul(s as int, qq * ei, s as int, qq * ei);
    assert(cong(qq * ei * (qq * ei), qq * qq));
    lemma_cong_mul(qq * ei * (qq * ei), qq * qq, qii * qii, qii * qii);
    assert(qq * ei * (qq * ei) * (qii * qii) == (ei * ei) * ((qq * qii) * (qq * qii)))
        by (nonlinear_arith);
    assert(qq * qq * (qii * qii) == (qq * qii) * (qq * qii)) by (nonlinear_arith);
    lemma_cong_mul(qq * qii, 1, qq * qii, 1);
    lemma_cong_mul(ei * ei, ei * ei, (qq * qii) * (qq * qii), 1);
    assert(cong(ei * ei, 1));
    // e(q) is not 1, or q would have the root c(q)
    lemma_candidate_square(q);
    if eul == 1 {
        lemma_fsq_cong(sqrt_candidate(q));
        lemma_cong_canonical(fsq(sqrt_candidate(q)), q);
    }
    // e(q) is not -1, or 11 q would have the root c(11 q)
    lemma_candidate_square(q2);
    lemma_euler_times_z(q, q2);
    if eul == modulus() - 1 {
        lemma_cong_neg(ei, -1);
        assert(cong(euler(q2) as int, 1));
        lemma_cong_mul(q2 as int, q2 as int, euler(q2) as int, 1);
        lemma_euler_canonical(q2);
        lemma_fsq_cong(sqrt_candidate(q2));
        assert(q2 * euler(q2) == q2 * euler(q2));
        lemma_cong_canonical(fsq(sqrt_candidate(q2)), q2);
    }
    // e - 1 has no inverse (then e = 1) or has one (then e + 1 = 0)
    lemma_fneg_cong(1);
    lemma_fadd_cong(e, fneg(1));
    lemma_cong_add(e as int, ei, fneg(1) as int, -1);
    assert(cong(em1 as int, ei - 1));
    match w {
        None => {
            lemma_cong_canonical(eul, 1);
        },
        Some(wv) => {
            lemma_fmul_cong(em1, wv);
            lemma_cong_mul(em1 as int, ei - 1, wv as int, wv as int);
            lemma_cong_mul(ei + 1, ei + 1, (ei - 1) * wv, 1);
            assert((ei + 1) * ((ei - 1) * wv) == (ei * ei - 1) * wv) by (nonlinear_arith);
            lemma_cong_add(ei * ei, 1, -1, -1);
            lemma_cong_mul(ei * ei - 1, 0, wv as int, wv as int);
            assert(cong(ei + 1, 0));
            lemma_cong_add(ei + 1, 0, -1, -1);
            lemma_cong_canonical(eul, (modulus() - 1) as nat);
        },
    }
}

} // verus!
