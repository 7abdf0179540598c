//! Elements of the base field Fq of BLS12-381, held as six canonical
//! little-endian 64-bit limbs, with their arithmetic delegated to arkworks.

use ark_bls12_381::Fq;
use ark_ff::{BigInt, Field, PrimeField};
use vstd::arithmetic::power::pow;
use vstd::prelude::*;

verus! {

/// The characteristic p of Fq.
pub open spec fn modulus() -> nat {
    4002409555221667393417789825735904156556882819939007885332058136124031650490837864442687629129015664037894272559787nat
}

/// `(p + 1) / 4`: since p = 3 (mod 4), `a^((p + 1) / 4)` is a square root of
/// every square `a`.
pub open spec fn sqrt_exponent() -> nat {
    1000602388805416848354447456433976039139220704984751971333014534031007912622709466110671907282253916009473568139947nat
}

/// The integer that six little-endian 64-bit limbs stand for.
pub open spec fn limbs_value(l: [u64; 6]) -> nat {
    l[0] as nat
        + l[1] as nat * 0x1_0000_0000_0000_0000nat
        + l[2] as nat * 0x1_0000_0000_0000_0000_0000_0000_0000_0000nat
        + l[3] as nat * 0x1_0000_0000_0000_0000_0000_0000_0000_0000_0000_0000_0000_0000nat
        + l[4] as nat * 0x1_0000_0000_0000_0000_0000_0000_0000_0000_0000_0000_0000_0000_0000_0000_0000_0000nat
        + l[5] as nat * 0x1_0000_0000_0000_0000_0000_0000_0000_0000_0000_0000_0000_0000_0000_0000_0000_0000_0000_0000_0000_0000nat
}

/// `2^64`, the weight of one limb.
pub open spec fn limb_base() -> int {
    0x1_0000_0000_0000_0000int
}

/// Addition in Fq.
pub open spec fn fadd(a: nat, b: nat) -> nat {
    (a + b) % modulus()
}

/// Multiplication in Fq.
pub open spec fn fmul(a: nat, b: nat) -> nat {
    (a * b) % modulus()
}

/// Squaring in Fq.
pub open spec fn fsq(a: nat) -> nat {
    fmul(a, a)
}

/// Negation in Fq.
pub open spec fn fneg(a: nat) -> nat {
    ((modulus() - a % modulus()) as nat) % modulus()
}

/// `a` has a square root in Fq.
pub open spec fn is_square(a: nat) -> bool {
    exists|y: nat| y < modulus() && #[trigger] fsq(y) == a % modulus()
}

/// `w` is a multiplicative inverse of `a` in Fq.
pub open spec fn is_inverse(a: nat, w: nat) -> bool {
    w < modulus() && fmul(a, w) == 1
}

/// The multiplicative inverse of `a` (meaningful when one exists).
pub open spec fn finv(a: nat) -> nat {
    choose|w: nat| is_inverse(a, w)
}

/// The inverse of `a`, or 0 when `a` is 0.
pub open spec fn finv0(a: nat) -> nat {
    if a % modulus() == 0 {
        0
    } else {
        finv(a)
    }
}

/// The candidate square root `a^((p + 1) / 4)` that arkworks computes.
pub open spec fn sqrt_candidate(a: nat) -> nat {
    (pow(a as int, sqrt_exponent()) % (modulus() as int)) as nat
}

/// RFC 9380's `sgn0` for a prime field: the parity of the canonical value.
pub open spec fn sgn0_spec(a: nat) -> bool {
    a % 2 == 1
}

/// An element of Fq, stored canonically (its value is below p).
#[derive(Clone, Copy, Debug)]
pub struct Fe {
    pub(crate) limbs: [u64; 6],
}

impl View for Fe {
    type V = nat;

    closed spec fn view(&self) -> nat {
        limbs_value(self.limbs)
    }
}

impl Fe {
    /// Every element is canonical.
    #[verifier::type_invariant]
    pub open spec fn canonical(self) -> bool {
        self@ < modulus()
    }

    /// The element with the given little-endian limbs, if they stand for a
    /// value below p.
    pub fn from_limbs(limbs: [u64; 6]) -> (r: Option<Fe>)
        ensures
            limbs_value(limbs) < modulus() <==> r is Some,
            r matches Some(e) ==> e@ == limbs_value(limbs),
    {
        if limbs_below_modulus(&limbs) {
            Some(Fe { limbs })
        } else {
            None
        }
    }

    /// The little-endian limbs of this element.
    pub fn limbs(&self) -> (r: [u64; 6])
        ensures
            limbs_value(r) == self@,
    {
        self.limbs
    }

    /// The element of the given small value.
    pub fn from_u64(v: u64) -> (r: Fe)
        ensures
            r@ == v,
    {
        Fe { limbs: [v, 0, 0, 0, 0, 0] }
    }

    /// The additive identity.
    pub fn zero() -> (r: Fe)
        ensures
            r@ == 0,
    {
        Fe::from_u64(0)
    }

    /// The multiplicative identity.
    pub fn one() -> (r: Fe)
        ensures
            r@ == 1,
    {
        Fe::from_u64(1)
    }

    /// Whether this element is zero.
    pub fn is_zero(&self) -> (b: bool)
        ensures
            b <==> self@ == 0,
    {
        self.limbs[0] == 0 && self.limbs[1] == 0 && self.limbs[2] == 0 && self.limbs[3] == 0
            && self.limbs[4] == 0 && self.limbs[5] == 0
    }

    /// Whether the canonical value is odd.
    pub fn is_odd(&self) -> (b: bool)
        ensures
            b == sgn0_spec(self@),
    {
        proof {
            lemma_limbs_value_parity(self.limbs);
        }
        self.limbs[0] % 2 == 1
    }
}

proof fn lemma_limbs_value_parity(l: [u64; 6])
    ensures
        limbs_value(l) % 2 == l[0] % 2,
{
    let w: int = limb_base();
    let rest: int = l[1] + l[2] * w + l[3] * (w * w) + l[4] * (w * w * w) + l[5] * (w * w * w * w);
    assert(limbs_value(l) == l[0] + 2 * (rest * 0x8000_0000_0000_0000)) by (nonlinear_arith)
        requires
            rest == l[1] + l[2] * w + l[3] * (w * w) + l[4] * (w * w * w) + l[5] * (w * w * w * w),
            w == limb_base(),
    {
    }
    vstd::arithmetic::div_mod::lemma_mod_multiples_vanish(
        rest * 0x8000_0000_0000_0000,
        l[0] as int,
        2,
    );
}

/// Compares limbs with p, from the most significant limb down.
fn limbs_below_modulus(l: &[u64; 6]) -> (b: bool)
    ensures
        b <==> limbs_value(*l) < modulus(),
{
    let m: [u64; 6] = [
        0xb9feffffffffaaab,
        0x1eabfffeb153ffff,
        0x6730d2a0f6b0f624,
        0x64774b84f38512bf,
        0x4b1ba7b6434bacd7,
        0x1a0111ea397fe69a,
    ];
    assert(limbs_value(m) == modulus());
    let mut i: usize = 6;
    while i > 0
        invariant
            i <= 6,
            forall|j: int| i <= j < 6 ==> l[j] == m[j],
            limbs_value(m) == modulus(),
        decreases i,
    {
        if l[i - 1] != m[i - 1] {
            proof {
                lemma_limbs_compare(*l, m, (i - 1) as int);
            }
            return l[i - 1] < m[i - 1];
        }
        i = i - 1;
    }
    assert(l@ =~= m@);
    false
}

/// The value of the limbs below index `k`.
spec fn low_value(l: [u64; 6], k: int) -> nat
    decreases k,
{
    if k <= 0 {
        0
    } else {
        low_value(l, k - 1) + l[k - 1] as nat * pow(limb_base(), (k - 1) as nat) as nat
    }
}

proof fn lemma_low_value_bound(l: [u64; 6], k: int)
    requires
        0 <= k <= 6,
    ensures
        low_value(l, k) < pow(limb_base(), k as nat),
    decreases k,
{
    vstd::arithmetic::power::lemma_pow_positive(limb_base(), k as nat);
    if k > 0 {
        lemma_low_value_bound(l, k - 1);
        let b = pow(limb_base(), (k - 1) as nat);
        vstd::arithmetic::power::lemma_pow_adds(limb_base(), (k - 1) as nat, 1);
        vstd::arithmetic::power::lemma_pow1(limb_base());
        assert(low_value(l, k) < pow(limb_base(), k as nat)) by (nonlinear_arith)
            requires
                low_value(l, k) == low_value(l, k - 1) + l[k - 1] as nat * b,
                low_value(l, k - 1) < b,
                l[k - 1] < limb_base(),
                pow(limb_base(), k as nat) == b * limb_base(),
                b > 0,
        {
        }
    }
}

/// The value of the limbs from index `k` up, as a multiple of `2^(64k)`.
spec fn high_value(l: [u64; 6], k: int) -> nat
    decreases 6 - k,
{
    if k >= 6 {
        0
    } else {
        l[k] as nat * pow(limb_base(), k as nat) as nat + high_value(l, k + 1)
    }
}

proof fn lemma_pow_w_values()
    ensures
        pow(limb_base(), 0) == 1,
        pow(limb_base(), 1) == 0x1_0000_0000_0000_0000nat,
        pow(limb_base(), 2) == 0x1_0000_0000_0000_0000_0000_0000_0000_0000nat,
        pow(limb_base(), 3)
            == 0x1_0000_0000_0000_0000_0000_0000_0000_0000_0000_0000_0000_0000nat,
        pow(limb_base(), 4)
            == 0x1_0000_0000_0000_0000_0000_0000_0000_0000_0000_0000_0000_0000_0000_0000_0000_0000nat,
        pow(limb_base(), 5)
            == 0x1_0000_0000_0000_0000_0000_0000_0000_0000_0000_0000_0000_0000_0000_0000_0000_0000_0000_0000_0000_0000nat,
{
    reveal_with_fuel(pow, 6);
}

proof fn lemma_split_value(l: [u64; 6], k: int)
    requires
        0 <= k <= 6,
    ensures
        limbs_value(l) == low_value(l, k) + high_value(l, k),
{
    lemma_pow_w_values();
    assert(low_value(l, 0) == 0);
    assert(low_value(l, 1) == low_value(l, 0) + l[0] * pow(limb_base(), 0));
    assert(low_value(l, 2) == low_value(l, 1) + l[1] * pow(limb_base(), 1));
    assert(low_value(l, 3) == low_value(l, 2) + l[2] * pow(limb_base(), 2));
    assert(low_value(l, 4) == low_value(l, 3) + l[3] * pow(limb_base(), 3));
    assert(low_value(l, 5) == low_value(l, 4) + l[4] * pow(limb_base(), 4));
    assert(low_value(l, 6) == low_value(l, 5) + l[5] * pow(limb_base(), 5));
    assert(high_value(l, 6) == 0);
    assert(high_value(l, 5) == l[5] * pow(limb_base(), 5) + high_value(l, 6));
    assert(high_value(l, 4) == l[4] * pow(limb_base(), 4) + high_value(l, 5));
    assert(high_value(l, 3) == l[3] * pow(limb_base(), 3) + high_value(l, 4));
    assert(high_value(l, 2) == l[2] * pow(limb_base(), 2) + high_value(l, 3));
    assert(high_value(l, 1) == l[1] * pow(limb_base(), 1) + high_value(l, 2));
    assert(high_value(l, 0) == l[0] * pow(limb_base(), 0) + high_value(l, 1));
}

/// Two limb arrays that agree above index `k` and differ at `k` compare as
/// their limbs at `k` do.
proof fn lemma_limbs_compare(a: [u64; 6], b: [u64; 6], k: int)
    requires
        0 <= k < 6,
        forall|j: int| k < j < 6 ==> a[j] == b[j],
        a[k] != b[k],
    ensures
        (limbs_value(a) < limbs_value(b)) <==> (a[k] < b[k]),
{
    lemma_split_value(a, k);
    lemma_split_value(b, k);
    lemma_split_value(a, k + 1);
    lemma_split_value(b, k + 1);
    lemma_low_value_bound(a, k);
    lemma_low_value_bound(b, k);
    assert(high_value(a, k + 1) == high_value(b, k + 1)) by {
        lemma_high_value_agree(a, b, k + 1);
    }
    let w = pow(limb_base(), k as nat);
    vstd::arithmetic::power::lemma_pow_positive(limb_base(), k as nat);
    assert(high_value(a, k) == a[k] * w + high_value(a, k + 1));
    assert(high_value(b, k) == b[k] * w + high_value(b, k + 1));
    if a[k] < b[k] {
        assert(a[k] * w + w <= b[k] * w) by (nonlinear_arith)
            requires
                a[k] < b[k],
                w > 0,
        {
        }
    } else {
        assert(b[k] * w + w <= a[k] * w) by (nonlinear_arith)
            requires
                b[k] < a[k],
                w > 0,
        {
        }
    }
}

proof fn lemma_high_value_agree(a: [u64; 6], b: [u64; 6], k: int)
    requires
        0 <= k <= 6,
        forall|j: int| k <= j < 6 ==> a[j] == b[j],
    ensures
        high_value(a, k) == high_value(b, k),
    decreases 6 - k,
{
    if k < 6 {
        lemma_high_value_agree(a, b, k + 1);
    }
}

/// Field addition, by arkworks' `Add` on `Fq`.
#[verifier::external_body]
pub fn fe_add(a: &Fe, b: &Fe) -> (r: Fe)
    ensures
        r@ == fadd(a@, b@),
{
    let x = Fq::new(BigInt::new(a.limbs));
    let y = Fq::new(BigInt::new(b.limbs));
    Fe { limbs: (x + y).into_bigint().0 }
}

/// Field multiplication, by arkworks' `Mul` on `Fq`.
#[verifier::external_body]
pub fn fe_mul(a: &Fe, b: &Fe) -> (r: Fe)
    ensures
        r@ == fmul(a@, b@),
{
    let x = Fq::new(BigInt::new(a.limbs));
    let y = Fq::new(BigInt::new(b.limbs));
    Fe { limbs: (x * y).into_bigint().0 }
}

/// Field squaring, by arkworks' `Field::square` on `Fq`.
#[verifier::external_body]
pub fn fe_square(a: &Fe) -> (r: Fe)
    ensures
        r@ == fsq(a@),
{
    let x = Fq::new(BigInt::new(a.limbs));
    Fe { limbs: x.square().into_bigint().0 }
}

/// Field negation, by arkworks' `Neg` on `Fq`.
#[verifier::external_body]
pub fn fe_neg(a: &Fe) -> (r: Fe)
    ensures
        r@ == fneg(a@),
{
    let x = Fq::new(BigInt::new(a.limbs));
    Fe { limbs: (-x).into_bigint().0 }
}

/// Field inversion, by arkworks' `Field::inverse` on `Fq`: `None` for zero,
/// and otherwise the element whose product with `a` is one.
#[verifier::external_body]
pub fn fe_inverse(a: &Fe) -> (r: Option<Fe>)
    ensures
        r is None <==> a@ == 0,
        r matches Some(w) ==> fmul(a@, w@) == 1,
{
    let x = Fq::new(BigInt::new(a.limbs));
    x.inverse().map(|w| Fe { limbs: w.into_bigint().0 })
}

/// Square root, by arkworks' `Field::sqrt` on `Fq`. Since p = 3 (mod 4),
/// arkworks computes `c = a^((p + 1) / 4)` and returns it exactly when
/// `c * c == a`; by its documentation the result is present exactly when a
/// square root of `a` exists.
#[verifier::external_body]
pub fn fe_sqrt(a: &Fe) -> (r: Option<Fe>)
    ensures
        r is Some <==> fsq(sqrt_candidate(a@)) == a@,
        r is Some <==> is_square(a@),
        r matches Some(s) ==> s@ == sqrt_candidate(a@),
{
    let x = Fq::new(BigInt::new(a.limbs));
    x.sqrt().map(|s| Fe { limbs: s.into_bigint().0 })
}

} // verus!
