//! The cubic `g(X) = X^3 + A' X + B'` of E' has no root in Fq, so no point
//! of E' has `y = 0`.
//!
//! For a root `r` of `g`, products of quadratics in `r` reduce modulo `g`
//! to quadratics in `r`. The certificate in `cubic_certificate` follows
//! `r^p` down to such a quadratic `h(r)`, step by step (square, or multiply
//! by `r`). With Fermat's `r^p = r`, `h(r) - r = 0`; but the certificate's
//! quadratic `w` has `w (h - X) = 1` modulo `g`, so `0 = 1`.

use crate::field_lemmas::{cong, lemma_cong_add, lemma_cong_mul, lemma_reduce_cong};
use crate::swu::{iso_a, iso_b};
use vstd::arithmetic::power::{lemma_pow1, lemma_pow_adds, pow};
use vstd::arithmetic::div_mod::lemma_small_mod;
use vstd::arithmetic::mul::{
    lemma_mul_is_associative, lemma_mul_is_commutative, lemma_mul_is_distributive_add,
    lemma_mul_is_distributive_add_other_way, lemma_mul_is_distributive_sub_other_way,
};
use vstd::prelude::*;

verus! {

/// `g(r) = r^3 + A' r + B'` over the integers.
pub open spec fn iso_cubic(r: int) -> int {
    r * r * r + (iso_a() as int) * r + (iso_b() as int)
}

/// The quadratic `c0 + c1 r + c2 r^2`.
pub open spec fn quad(c0: int, c1: int, c2: int, r: int) -> int {
    c0 + c1 * r + c2 * (r * r)
}

proof fn lemma_swap3(c: int, s: int, e: int)
    ensures
        (c * s) * e == (c * e) * s,
{
    lemma_mul_is_associative(c, s, e);
    lemma_mul_is_commutative(s, e);
    lemma_mul_is_associative(c, e, s);
}

proof fn lemma_swap4(c: int, s: int, e: int, t: int)
    ensures
        (c * s) * (e * t) == (c * e) * (s * t),
{
    lemma_mul_is_associative(c, s, e * t);
    lemma_mul_is_associative(s, e, t);
    lemma_mul_is_commutative(s, e);
    lemma_mul_is_associative(e, s, t);
    lemma_mul_is_associative(c, e, s * t);
}

proof fn lemma_powers(r: int)
    ensures
        r * (r * r) == (r * r) * r,
        (r * r) * (r * r) == r * (r * r * r),
{
    lemma_mul_is_commutative(r, r * r);
    lemma_mul_is_associative(r, r, r * r);
}

/// `x (e0 + e1 r + e2 r^2)` spread over the terms, for `x = c s`.
proof fn lemma_spread(c: int, s: int, e0: int, e1: int, e2: int, r: int)
    ensures
        (c * s) * quad(e0, e1, e2, r) == (c * e0) * s + (c * e1) * (s * r) + (c * e2) * (s * (r
            * r)),
{
    let x = c * s;
    lemma_mul_is_distributive_add(x, e0 + e1 * r, e2 * (r * r));
    lemma_mul_is_distributive_add(x, e0, e1 * r);
    lemma_swap3(c, s, e0);
    lemma_swap4(c, s, e1, r);
    lemma_swap4(c, s, e2, r * r);
}

/// The product of two quadratics, as a quartic.
proof fn lemma_quad_product(c0: int, c1: int, c2: int, e0: int, e1: int, e2: int, r: int)
    ensures
        quad(c0, c1, c2, r) * quad(e0, e1, e2, r) == c0 * e0 + (c0 * e1 + c1 * e0) * r + (c0 * e2
            + c1 * e1 + c2 * e0) * (r * r) + (c1 * e2 + c2 * e1) * (r * r * r) + (c2 * e2) * (r * (r
            * r * r)),
{
    let r2 = r * r;
    let qe = quad(e0, e1, e2, r);
    lemma_mul_is_distributive_add_other_way(qe, c0 + c1 * r, c2 * r2);
    lemma_mul_is_distributive_add_other_way(qe, c0, c1 * r);
    // c0 qe
    lemma_mul_is_distributive_add(c0, e0 + e1 * r, e2 * r2);
    lemma_mul_is_distributive_add(c0, e0, e1 * r);
    lemma_mul_is_associative(c0, e1, r);
    lemma_mul_is_associative(c0, e2, r2);
    // (c1 r) qe and (c2 r^2) qe
    lemma_spread(c1, r, e0, e1, e2, r);
    lemma_spread(c2, r2, e0, e1, e2, r);
    lemma_powers(r);
    lemma_mul_is_commutative(r, r2);
    // collect by powers
    lemma_mul_is_distributive_add_other_way(r, c0 * e1, c1 * e0);
    lemma_mul_is_distributive_add_other_way(r2, c0 * e2 + c1 * e1, c2 * e0);
    lemma_mul_is_distributive_add_other_way(r2, c0 * e2, c1 * e1);
    lemma_mul_is_distributive_add_other_way(r * r * r, c1 * e2, c2 * e1);
}

/// A quartic reduces modulo `g` to a quadratic.
proof fn lemma_quartic_reduction(
    p0: int,
    p1: int,
    p2: int,
    p3: int,
    p4: int,
    r: int,
    a: int,
    b: int,
)
    ensures
        p0 + p1 * r + p2 * (r * r) + p3 * (r * r * r) + p4 * (r * (r * r * r)) == (p0 - b * p3) + (
        p1 - a * p3 - b * p4) * r + (p2 - a * p4) * (r * r) + (p3 + p4 * r) * (r * r * r + a * r
            + b),
{
    let r2 = r * r;
    let r3 = r * r * r;
    let g = r3 + a * r + b;
    lemma_mul_is_distributive_add_other_way(g, p3, p4 * r);
    // p3 g
    lemma_mul_is_distributive_add(p3, r3 + a * r, b);
    lemma_mul_is_distributive_add(p3, r3, a * r);
    lemma_mul_is_associative(p3, a, r);
    lemma_mul_is_commutative(p3, a);
    lemma_mul_is_commutative(p3, b);
    // (p4 r) g
    lemma_mul_is_distributive_add(p4 * r, r3 + a * r, b);
    lemma_mul_is_distributive_add(p4 * r, r3, a * r);
    lemma_mul_is_associative(p4, r, r3);
    lemma_swap4(p4, r, a, r);
    lemma_mul_is_commutative(p4, a);
    lemma_swap3(p4, r, b);
    lemma_mul_is_commutative(p4, b);
    // the coefficients
    lemma_mul_is_distributive_sub_other_way(r, p1 - a * p3, b * p4);
    lemma_mul_is_distributive_sub_other_way(r, p1, a * p3);
    lemma_mul_is_distributive_sub_other_way(r2, p2, a * p4);
}

/// A product of two quadratics in a root `r` of `g` is the quadratic `d`
/// whose coefficients are those of the product reduced modulo `g` and p.
pub proof fn lemma_product_step(
    r: int,
    c0: int,
    c1: int,
    c2: int,
    e0: int,
    e1: int,
    e2: int,
    d0: int,
    d1: int,
    d2: int,
)
    requires
        cong(iso_cubic(r), 0),
        (c0 * e0 - (iso_b() as int) * (c1 * e2 + c2 * e1)) % (crate::field::modulus() as int)
            == d0,
        ((c0 * e1 + c1 * e0) - (iso_a() as int) * (c1 * e2 + c2 * e1) - (iso_b() as int) * (c2
            * e2)) % (crate::field::modulus() as int) == d1,
        ((c0 * e2 + c1 * e1 + c2 * e0) - (iso_a() as int) * (c2 * e2)) % (
        crate::field::modulus() as int) == d2,
    ensures
        cong(quad(c0, c1, c2, r) * quad(e0, e1, e2, r), quad(d0, d1, d2, r)),
{
    let a = iso_a() as int;
    let b = iso_b() as int;
    let p0 = c0 * e0;
    let p1 = c0 * e1 + c1 * e0;
    let p2 = c0 * e2 + c1 * e1 + c2 * e0;
    let p3 = c1 * e2 + c2 * e1;
    let p4 = c2 * e2;
    lemma_quad_product(c0, c1, c2, e0, e1, e2, r);
    lemma_quartic_reduction(p0, p1, p2, p3, p4, r, a, b);
    let f0 = p0 - b * p3;
    let f1 = p1 - a * p3 - b * p4;
    let f2 = p2 - a * p4;
    let f = quad(f0, f1, f2, r);
    let g = iso_cubic(r);
    let t = (p3 + p4 * r) * g;
    // t vanishes with g
    lemma_cong_mul(p3 + p4 * r, p3 + p4 * r, g, 0);
    assert((p3 + p4 * r) * 0 == 0);
    lemma_cong_add(f, f, t, 0);
    // f is congruent to d, coefficient by coefficient
    lemma_reduce_cong(f0);
    lemma_reduce_cong(f1);
    lemma_reduce_cong(f2);
    lemma_cong_mul(f1, d1, r, r);
    lemma_cong_mul(f2, d2, r * r, r * r);
    lemma_cong_add(f0, d0, f1 * r, d1 * r);
    lemma_cong_add(f0 + f1 * r, d0 + d1 * r, f2 * (r * r), d2 * (r * r));
}

/// Squaring `r^m = c(r)` gives `r^(2m) = c(r)^2`.
pub proof fn lemma_pow_double(r: int, m: nat, c: int)
    requires
        cong(pow(r, m), c),
    ensures
        cong(pow(r, 2 * m), c * c),
{
    lemma_pow_adds(r, m, m);
    assert(2 * m == m + m);
    lemma_cong_mul(pow(r, m), c, pow(r, m), c);
}

/// Multiplying `r^m = c(r)` by `r` gives `r^(m + 1) = c(r) r`, and `r` is
/// the quadratic `(0, 1, 0)`.
pub proof fn lemma_pow_next(r: int, m: nat, c: int)
    requires
        cong(pow(r, m), c),
    ensures
        cong(pow(r, m + 1), c * quad(0, 1, 0, r)),
{
    lemma_pow_adds(r, m, 1);
    lemma_pow1(r);
    assert(quad(0, 1, 0, r) == r);
    lemma_cong_mul(pow(r, m), c, r, r);
}

/// `r^m = c(r)` gives `r^(2m) = d(r)`, with `d` the square of `c` reduced
/// modulo `g` and p.
pub proof fn lemma_square_step(r: int, m: nat, c0: int, c1: int, c2: int, d0: int, d1: int, d2: int)
    requires
        cong(iso_cubic(r), 0),
        cong(pow(r, m), quad(c0, c1, c2, r)),
        (c0 * c0 - (iso_b() as int) * (c1 * c2 + c2 * c1)) % (crate::field::modulus() as int)
            == d0,
        ((c0 * c1 + c1 * c0) - (iso_a() as int) * (c1 * c2 + c2 * c1) - (iso_b() as int) * (c2
            * c2)) % (crate::field::modulus() as int) == d1,
        ((c0 * c2 + c1 * c1 + c2 * c0) - (iso_a() as int) * (c2 * c2)) % (
        crate::field::modulus() as int) == d2,
    ensures
        cong(pow(r, 2 * m), quad(d0, d1, d2, r)),
{
    lemma_pow_double(r, m, quad(c0, c1, c2, r));
    lemma_product_step(r, c0, c1, c2, c0, c1, c2, d0, d1, d2);
}

/// `r^m = c(r)` gives `r^(m + 1) = d(r)`, with `d` the product of `c` and
/// `X` reduced modulo `g` and p.
pub proof fn lemma_times_root_step(
    r: int,
    m: nat,
    c0: int,
    c1: int,
    c2: int,
    d0: int,
    d1: int,
    d2: int,
)
    requires
        cong(iso_cubic(r), 0),
        cong(pow(r, m), quad(c0, c1, c2, r)),
        (c0 * 0 - (iso_b() as int) * (c1 * 0 + c2 * 1)) % (crate::field::modulus() as int) == d0,
        ((c0 * 1 + c1 * 0) - (iso_a() as int) * (c1 * 0 + c2 * 1) - (iso_b() as int) * (c2 * 0))
            % (crate::field::modulus() as int) == d1,
        ((c0 * 0 + c1 * 1 + c2 * 0) - (iso_a() as int) * (c2 * 0)) % (crate::field::modulus()
            as int) == d2,
    ensures
        cong(pow(r, m + 1), quad(d0, d1, d2, r)),
{
    lemma_pow_next(r, m, quad(c0, c1, c2, r));
    lemma_product_step(r, c0, c1, c2, 0, 1, 0, d0, d1, d2);
}

/// A root `r` of `g` with `h(r) = r` contradicts a quadratic `w` with
/// `w (h - X) = 1` modulo `g`.
pub proof fn lemma_inverse_contradiction(
    r: int,
    h0: int,
    h1: int,
    h2: int,
    w0: int,
    w1: int,
    w2: int,
)
    requires
        cong(quad(h0, h1, h2, r), r),
        cong(quad(w0, w1, w2, r) * quad(h0, h1 - 1, h2, r), quad(1, 0, 0, r)),
    ensures
        r == r + 1,
{
    lemma_mul_is_distributive_sub_other_way(r, h1, 1);
    assert(quad(h0, h1 - 1, h2, r) == quad(h0, h1, h2, r) - r);
    lemma_cong_add(quad(h0, h1, h2, r), r, -r, -r);
    let w = quad(w0, w1, w2, r);
    lemma_cong_mul(w, w, quad(h0, h1 - 1, h2, r), 0);
    assert(w * 0 == 0);
    assert(quad(1, 0, 0, r) == 1);
    lemma_small_mod(1, crate::field::modulus());
    lemma_small_mod(0, crate::field::modulus());
}

} // verus!
