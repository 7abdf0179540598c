//! Hashing to BLS12-381 G1 (ciphersuite BLS12381G1_XMD:SHA-256_SSWU_RO_ of
//! RFC 9380): two field elements from the message, each mapped by the SWU
//! map and the 11-isogeny, their sum with the cofactor cleared.

use crate::field::{fadd, fmul, fsq, Fe};
use crate::isogeny::{iso_denominator_invertible, iso_map_spec, iso_map_swu, lemma_iso_map_on_curve};
use crate::swu::{map_to_curve_simple_swu, swu_x, swu_y};
use ark_bls12_381::{Fq, G1Affine};
use ark_ec::{AffineRepr, CurveGroup};
use ark_ff::field_hashers::{DefaultFieldHasher, HashToField};
use ark_ff::{BigInt, PrimeField};
use vstd::prelude::*;

verus! {

/// A point of BLS12-381 G1 in affine coordinates, or the point at infinity.
#[derive(Clone, Copy, Debug)]
pub struct G1Point {
    pub x: Fe,
    pub y: Fe,
    pub infinity: bool,
}

impl View for G1Point {
    type V = (nat, nat, bool);

    open spec fn view(&self) -> (nat, nat, bool) {
        (self.x@, self.y@, self.infinity)
    }
}

impl G1Point {
    /// The affine point `(x, y)`, with no check that it lies on the curve.
    pub fn new_unchecked(x: Fe, y: Fe) -> (r: G1Point)
        ensures
            r@ == (x@, y@, false),
    {
        G1Point { x, y, infinity: false }
    }
}

/// `p` is the point at infinity or lies on the curve of G1,
/// `y^2 = x^3 + 4`.
pub open spec fn g1_on_curve(p: (nat, nat, bool)) -> bool {
    p.2 || fsq(p.1) == fadd(fmul(fsq(p.0), p.0), 4)
}

/// What arkworks' `DefaultFieldHasher<Sha256, 128>` with domain separation
/// tag `dst` hashes `msg` to, asked for two elements of Fq.
pub uninterp spec fn hash_to_field_sha256(msg: Seq<u8>, dst: Seq<char>) -> (nat, nat);

/// The affine sum of two points, as arkworks' `Affine` addition followed by
/// `into_affine` computes it.
pub uninterp spec fn g1_sum(p: (nat, nat, bool), q: (nat, nat, bool)) -> (nat, nat, bool);

/// The point that arkworks' `clear_cofactor` of BLS12-381 G1 makes of `p`.
pub uninterp spec fn g1_cofactor_cleared(p: (nat, nat, bool)) -> (nat, nat, bool);

/// arkworks' `HashToField::hash_to_field` of `DefaultFieldHasher<Sha256,
/// 128>`, made with `dst`, asked for two elements: expand_message_xmd with
/// SHA-256, then each 64-byte block reduced modulo p. The contract names the
/// result; it does not spell out SHA-256.
#[verifier::external_body]
pub fn hash_to_field_pair(msg: &[u8], dst: &str) -> (r: (Fe, Fe))
    ensures
        (r.0@, r.1@) == hash_to_field_sha256(msg@, dst@),
{
    let htf = <DefaultFieldHasher<sha2::Sha256, 128> as HashToField<Fq>>::new(dst.as_bytes());
    let u: Vec<Fq> = htf.hash_to_field(msg, 2);
    (Fe { limbs: u[0].into_bigint().0 }, Fe { limbs: u[1].into_bigint().0 })
}

/// arkworks' addition of two `G1Affine` points, brought back to affine form
/// by `into_affine`. The contract names the result; it does not spell out
/// the group law. Of it, it states that the sum of two points of the curve
/// (or at infinity) is again one, and the same in either order: the projective formulas that arkworks
/// uses are the chord-and-tangent law, with doubling and the identity
/// handled, and `into_affine` gives the identity for `z = 0`.
#[verifier::external_body]
pub fn g1_add(p: &G1Point, q: &G1Point) -> (r: G1Point)
    ensures
        r@ == g1_sum(p@, q@),
        g1_on_curve(p@) && g1_on_curve(q@) ==> g1_on_curve(r@),
        g1_on_curve(p@) && g1_on_curve(q@) ==> r@ == g1_sum(q@, p@),
{
    let a = G1Affine { x: Fq::new(BigInt(p.x.limbs)), y: Fq::new(BigInt(p.y.limbs)), infinity: p.infinity };
    let b = G1Affine { x: Fq::new(BigInt(q.x.limbs)), y: Fq::new(BigInt(q.y.limbs)), infinity: q.infinity };
    let s = (a + b).into_affine();
    G1Point { x: Fe { limbs: s.x.into_bigint().0 }, y: Fe { limbs: s.y.into_bigint().0 }, infinity: s.infinity }
}

/// arkworks' `clear_cofactor` on a `G1Affine` point (multiplication by the
/// effective cofactor `1 - x`). The contract names the result, and states
/// that a point of the curve (or at infinity) stays one: a multiple of a
/// point, computed by double-and-add with the same group law.
#[verifier::external_body]
pub fn g1_clear_cofactor(p: &G1Point) -> (r: G1Point)
    ensures
        r@ == g1_cofactor_cleared(p@),
        g1_on_curve(p@) ==> g1_on_curve(r@),
{
    let a = G1Affine { x: Fq::new(BigInt(p.x.limbs)), y: Fq::new(BigInt(p.y.limbs)), infinity: p.infinity };
    let s = a.clear_cofactor();
    G1Point { x: Fe { limbs: s.x.into_bigint().0 }, y: Fe { limbs: s.y.into_bigint().0 }, infinity: s.infinity }
}

/// The point of G1 that `u` is mapped to before the cofactor is cleared: the
/// SWU map onto E' followed by the isogeny.
pub open spec fn map_to_curve_spec(u: nat) -> (nat, nat, bool) {
    let (x, y) = iso_map_spec(swu_x(u), swu_y(u));
    (x, y, false)
}

/// The hash of two field elements: the sum of their images, cofactor
/// cleared.
pub open spec fn hash_field_elements_spec(u0: nat, u1: nat) -> (nat, nat, bool) {
    g1_cofactor_cleared(g1_sum(map_to_curve_spec(u0), map_to_curve_spec(u1)))
}

/// Maps two field elements to G1 and sums them, clearing the cofactor.
/// Where the isogeny's denominator is invertible at both points of E'
/// (all but a negligible few), the result lies on the curve and does not
/// depend on the order of the two elements.
pub fn hash_field_elements_to_g1(u0: &Fe, u1: &Fe) -> (r: G1Point)
    ensures
        r@ == hash_field_elements_spec(u0@, u1@),
        iso_denominator_invertible(swu_x(u0@)) && iso_denominator_invertible(swu_x(u1@))
            ==> g1_on_curve(r@),
        iso_denominator_invertible(swu_x(u0@)) && iso_denominator_invertible(swu_x(u1@))
            ==> r@ == hash_field_elements_spec(u1@, u0@),
{
    let (x0, y0) = map_to_curve_simple_swu(u0);
    let (x, y) = iso_map_swu(&x0, &y0);
    let p0 = G1Point::new_unchecked(x, y);
    let (x1, y1) = map_to_curve_simple_swu(u1);
    let (x, y) = iso_map_swu(&x1, &y1);
    let p1 = G1Point::new_unchecked(x, y);
    proof {
        use_type_invariant(&x0);
        use_type_invariant(&y0);
        use_type_invariant(&x1);
        use_type_invariant(&y1);
        if iso_denominator_invertible(swu_x(u0@)) && iso_denominator_invertible(swu_x(u1@)) {
            lemma_iso_map_on_curve(x0@, y0@);
            lemma_iso_map_on_curve(x1@, y1@);
        }
    }
    g1_clear_cofactor(&g1_add(&p0, &p1))
}

/// Hashes `msg` to BLS12-381 G1 with domain separation tag `dst`
/// (BLS12381G1_XMD:SHA-256_SSWU_RO_).
pub fn bls12_381_hash_to_g1(msg: &[u8], dst: &str) -> (r: G1Point)
    ensures
        ({
            let (u0, u1) = hash_to_field_sha256(msg@, dst@);
            &&& r@ == hash_field_elements_spec(u0, u1)
            &&& iso_denominator_invertible(swu_x(u0)) && iso_denominator_invertible(swu_x(u1))
                ==> g1_on_curve(r@)
        }),
{
    let (u0, u1) = hash_to_field_pair(msg, dst);
    hash_field_elements_to_g1(&u0, &u1)
}


/// Law: the hash of `(u0, u1)` is the cofactor-cleared sum of two points,
/// the image of `u0` and the image of `u1`, each under the SWU map and then
/// the isogeny: each element is used once, `u0` in the first summand and
/// `u1` in the second.
pub proof fn lemma_hash_of_two_elements(u0: nat, u1: nat)
    ensures
        hash_field_elements_spec(u0, u1) == g1_cofactor_cleared(
            g1_sum(
                (
                    iso_map_spec(swu_x(u0), swu_y(u0)).0,
                    iso_map_spec(swu_x(u0), swu_y(u0)).1,
                    false,
                ),
                (
                    iso_map_spec(swu_x(u1), swu_y(u1)).0,
                    iso_map_spec(swu_x(u1), swu_y(u1)).1,
                    false,
                ),
            ),
        ),
{
}

} // verus!
