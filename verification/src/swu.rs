//! The simplified Shallue-van de Woestijne-Ulas map of RFC 9380 (section
//! 6.6.2, straight-line form) onto the curve E': y^2 = x^3 + A' x + B' that
//! is 11-isogenous to BLS12-381 G1, with Z = 11.

use crate::field::{
    fadd, fe_add, fe_inverse, fe_mul, fe_neg, fe_sqrt, fe_square, finv, fmul, fneg, fsq,
    is_inverse, is_square, modulus, sgn0_spec, sqrt_candidate, Fe,
};
use crate::field_lemmas::{
    cong, lemma_cong_add, lemma_cong_canonical, lemma_cong_mul, lemma_cong_neg, lemma_fadd_cong,
    lemma_finv_is, lemma_fmul_cong, lemma_fneg_cong, lemma_fneg_nonzero, lemma_fneg_zero,
    lemma_fsq_cong, lemma_fsq_fneg, lemma_invertible_nonzero, lemma_is_inverse_from_cong,
    lemma_fmul_fneg, lemma_fneg_involutive,
};
use crate::euler::{lemma_fermat, lemma_no_two_non_residues};
use vstd::arithmetic::div_mod::lemma_small_mod;
use vstd::prelude::*;

verus! {

/// The coefficient A' of E'.
pub open spec fn iso_a() -> nat {
    12190336318893619529228877361869031420615612348429846051986726275283378313155663745811710833465465981901188123677nat
}

/// The coefficient B' of E'.
pub open spec fn iso_b() -> nat {
    2906670324641927570491258158026293881577086121416628140204402091718288198173574630967936031029026176254968826637280nat
}

/// The non-square Z of the map.
pub open spec fn swu_z() -> nat {
    11
}

/// The right-hand side `x^3 + A' x + B'` of E'.
pub open spec fn iso_curve_rhs(x: nat) -> nat {
    fadd(fadd(fmul(fsq(x), x), fmul(iso_a(), x)), iso_b())
}

/// `Z u^2`.
pub open spec fn swu_t(u: nat) -> nat {
    fmul(swu_z(), fsq(u))
}

/// `Z^2 u^4 + Z u^2`, the denominator of the map.
pub open spec fn swu_den(u: nat) -> nat {
    fadd(fsq(swu_t(u)), swu_t(u))
}

/// The first x-candidate: `(-B' / A') (1 + 1 / (Z^2 u^4 + Z u^2))`, or
/// `B' / (Z A')` in the exceptional case where that denominator is zero.
pub open spec fn swu_x1(u: nat) -> nat {
    if swu_den(u) == 0 {
        fmul(iso_b(), finv(fmul(swu_z(), iso_a())))
    } else {
        fmul(fmul(fneg(iso_b()), finv(iso_a())), fadd(1, finv(swu_den(u))))
    }
}

/// `g(x1)`.
pub open spec fn swu_gx1(u: nat) -> nat {
    iso_curve_rhs(swu_x1(u))
}

/// The x-coordinate of the map: `x1` when `g(x1)` is square, else `Z u^2 x1`.
pub open spec fn swu_x(u: nat) -> nat {
    if is_square(swu_gx1(u)) {
        swu_x1(u)
    } else {
        fmul(swu_t(u), swu_x1(u))
    }
}

/// The y-coordinate of the map, before its sign is fixed: the square root
/// of `g(x1)` that arkworks computes, or `Z u^3` times that of `Z g(x1)`.
pub open spec fn swu_y_unsigned(u: nat) -> nat {
    if is_square(swu_gx1(u)) {
        sqrt_candidate(swu_gx1(u))
    } else {
        fmul(fmul(swu_t(u), u), sqrt_candidate(fmul(swu_z(), swu_gx1(u))))
    }
}

/// The y-coordinate of the map, with `sgn0(y) == sgn0(u)`.
pub open spec fn swu_y(u: nat) -> nat {
    if sgn0_spec(u) == sgn0_spec(swu_y_unsigned(u)) {
        swu_y_unsigned(u)
    } else {
        fneg(swu_y_unsigned(u))
    }
}

/// One of `g(x1)` and `Z g(x1)` is square; as Z is a non-square, this
/// holds of every `u` (`map_to_curve_simple_swu` ensures it).
pub open spec fn swu_defined(u: nat) -> bool {
    is_square(swu_gx1(u)) || is_square(fmul(swu_z(), swu_gx1(u)))
}

spec fn a_inv_value() -> nat {
    2470605349102496840697564257721286814198963480458760529508496668981646457183329052911487732857586473067324032374572nat
}

spec fn za_value() -> nat {
    134093699507829814821517650980559345626771735832728306571853989028117161444712301203928819168120125800913069360447nat
}

spec fn za_inv_value() -> nat {
    1680022142726287855851702141878627585493317705474072006439702655770706641740607319152930749943059011747172829328520nat
}

spec fn x0_value() -> nat {
    2804858857133937099622193571436483626014013193105397454853431114229365119931628302936765775078151302032269524150292nat
}

spec fn gx0_value() -> nat {
    1439257076369429616335874216237123739464560681952602056194427427817441006483822902442243154947945956288630039559824nat
}

spec fn gx0_root() -> nat {
    883926319761702754759909536142450234040420493353017578303105057331414514426056372828799438842649753623273850162620nat
}

proof fn lemma_constants()
    ensures
        iso_a() < modulus(),
        iso_b() < modulus(),
        is_inverse(iso_a(), a_inv_value()),
        fmul(swu_z(), iso_a()) == za_value(),
        is_inverse(za_value(), za_inv_value()),
        fmul(iso_b(), za_inv_value()) == x0_value(),
        iso_curve_rhs(x0_value()) == gx0_value(),
        fsq(gx0_root()) == gx0_value(),
        gx0_root() < modulus(),
        fmul(iso_b(), 1) == iso_b(),
{
    lemma_a_inverse();
    lemma_za_inverse();
    lemma_x0_value();
    lemma_gx0_value();
    lemma_gx0_root();
}

proof fn lemma_a_inverse()
    ensures
        is_inverse(iso_a(), a_inv_value()),
{
}

proof fn lemma_za_inverse()
    ensures
        fmul(swu_z(), iso_a()) == za_value(),
        is_inverse(za_value(), za_inv_value()),
{
}

proof fn lemma_x0_value()
    ensures
        fmul(iso_b(), za_inv_value()) == x0_value(),
        fmul(iso_b(), 1) == iso_b(),
{
}

proof fn lemma_gx0_value()
    ensures
        iso_curve_rhs(x0_value()) == gx0_value(),
{
    let x = x0_value();
    let x2 = fsq(x);
    assert(x2 == 2385659190914799047432183344363415655717896065073494337454314729808762804800545241760802779084234880322525037831239nat);
    let x3 = fmul(x2, x);
    assert(x3 == 3362319792496721676513506912963226613361953956693199575484971864646257800010080587040642649080482790967802211940702nat);
    let ax = fmul(iso_a(), x);
    assert(ax == 3175086069674115156166688796719411557639286243720790111169169743700958309281843413319039733096468317141647546101416nat);
    assert(fadd(x3, ax) == 2534996306949169439262405883946734014444357380474981801322083472223184458801086135916994753047935444071555485482331nat);
}

proof fn lemma_gx0_root()
    ensures
        fsq(gx0_root()) == gx0_value(),
{
    let r = gx0_root() as int;
    let q = 195213840059952446038270873077220853934226862595197836218569959593861520177348626154449743728102024111393959160448int;
    assert(r * r == q * (modulus() as int) + gx0_value());
    vstd::arithmetic::div_mod::lemma_fundamental_div_mod_converse_mod(
        r * r,
        modulus() as int,
        q,
        gx0_value() as int,
    );
}

/// The exceptional x-candidate gives a square `g(x1)`.
proof fn lemma_x0_square()
    ensures
        is_square(gx0_value()),
{
    lemma_constants();
    lemma_small_mod(gx0_value(), modulus());
    assert(fsq(gx0_root()) == gx0_value() % modulus());
}

fn fe_constant(limbs: [u64; 6], Ghost(v): Ghost<nat>) -> (r: Fe)
    requires
        crate::field::limbs_value(limbs) == v,
        v < modulus(),
    ensures
        r@ == v,
{
    Fe::from_limbs(limbs).unwrap()
}

fn iso_a_fe() -> (r: Fe)
    ensures
        r@ == iso_a(),
{
    fe_constant(
        [
            0x5cf428082d584c1d,
            0x98936f8da0e0f97f,
            0xd8e8981aefd881ac,
            0xb0ea985383ee66a8,
            0x3d693a02c96d4982,
            0x00144698a3b8e943,
        ],
        Ghost(iso_a()),
    )
}

fn iso_b_fe() -> (r: Fe)
    ensures
        r@ == iso_b(),
{
    fe_constant(
        [
            0xd1cc48e98e172be0,
            0x5a23215a316ceaa5,
            0xa0b9c14fcef35ef5,
            0x2016c1f0f24f4070,
            0x018b12e8753eee3b,
            0x12e2908d11688030,
        ],
        Ghost(iso_b()),
    )
}

fn swu_z_fe() -> (r: Fe)
    ensures
        r@ == swu_z(),
{
    Fe::from_u64(11)
}

/// RFC 9380's `sgn0` for Fq: the parity of the canonical value.
pub fn sgn0(x: &Fe) -> (b: bool)
    ensures
        b == sgn0_spec(x@),
{
    x.is_odd()
}

/// `Z (u / v)` is 11 times `u / v`.
proof fn lemma_times_z(u: nat, vi: nat)
    ensures
        cong(fmul(fmul(u, swu_z()), vi) as int, 11 * (fmul(u, vi) as int)),
{
    let uz = fmul(u, swu_z());
    lemma_fmul_cong(u, swu_z());
    lemma_fmul_cong(uz, vi);
    lemma_fmul_cong(u, vi);
    lemma_cong_mul(uz as int, (u * 11) as int, vi as int, vi as int);
    lemma_cong_mul(11, 11, fmul(u, vi) as int, (u * vi) as int);
    assert((u * 11) * vi == 11 * (u * vi)) by (nonlinear_arith);
}

/// RFC 9380's `sqrt_ratio`, computed naively: `(true, sqrt(u / v))` when
/// `u / v` is square, else `(false, sqrt(Z u / v))`. One of the two is
/// square, Z being a non-residue; `v` must not be zero.
pub fn sqrt_ratio(u: &Fe, v: &Fe) -> (r: (bool, Fe))
    requires
        v@ != 0,
    ensures
        is_square(fmul(u@, finv(v@))) || is_square(fmul(fmul(u@, swu_z()), finv(v@))),
        r.0 == is_square(fmul(u@, finv(v@))),
        r.0 ==> r.1@ == sqrt_candidate(fmul(u@, finv(v@))),
        !r.0 ==> r.1@ == sqrt_candidate(fmul(fmul(u@, swu_z()), finv(v@))),
        r.0 ==> fmul(fsq(r.1@), v@) == u@,
        !r.0 ==> fmul(fsq(r.1@), v@) == fmul(swu_z(), u@),
{
    proof {
        use_type_invariant(u);
        use_type_invariant(v);
    }
    let v_inv = fe_inverse(v).unwrap();
    proof {
        use_type_invariant(&v_inv);
        lemma_finv_is(v@, v_inv@);
        lemma_fmul_cong(v@, v_inv@);
        lemma_small_mod(1, modulus());
    }
    let q = fe_mul(u, &v_inv);
    match fe_sqrt(&q) {
        Some(root) => {
            proof {
                // root^2 v = (u / v) v = u
                lemma_fmul_cong(fsq(root@), v@);
                lemma_fsq_cong(root@);
                lemma_fmul_cong(u@, v_inv@);
                lemma_cong_mul(fsq(root@) as int, (u@ * v_inv@) as int, v@ as int, v@ as int);
                lemma_cong_mul(u@ as int, u@ as int, (v@ * v_inv@) as int, 1);
                assert((u@ * v_inv@) * v@ == u@ * (v@ * v_inv@)) by (nonlinear_arith);
                lemma_cong_canonical(fmul(fsq(root@), v@), u@);
            }
            (true, root)
        },
        None => {
            let z = swu_z_fe();
            let q2 = fe_mul(&fe_mul(u, &z), &v_inv);
            match fe_sqrt(&q2) {
                Some(root) => {
                    proof {
                        // root^2 v = (u Z / v) v = Z u
                        let uz = fmul(u@, swu_z());
                        lemma_fmul_cong(u@, swu_z());
                        lemma_fmul_cong(uz, v_inv@);
                        lemma_fmul_cong(fsq(root@), v@);
                        lemma_fmul_cong(swu_z(), u@);
                        lemma_cong_mul(
                            fsq(root@) as int,
                            (uz * v_inv@) as int,
                            v@ as int,
                            v@ as int,
                        );
                        lemma_cong_mul(uz as int, (u@ * swu_z()) as int, (v@ * v_inv@) as int, 1);
                        assert((uz * v_inv@) * v@ == uz * (v@ * v_inv@)) by (nonlinear_arith);
                        assert(u@ * swu_z() == swu_z() * u@) by (nonlinear_arith);
                        lemma_cong_canonical(fmul(fsq(root@), v@), fmul(swu_z(), u@));
                    }
                    (false, root)
                },
                None => {
                    // Unreachable, as 11 is a non-residue: of `u / v` and
                    // `Z u / v` one is square. The calls below only gather
                    // the witnesses of that fact (see `euler`).
                    let q_sq = fe_square(&q);
                    proof {
                        use_type_invariant(&q);
                        lemma_fsq_cong(q@);
                        lemma_small_mod(q_sq@, modulus());
                        assert(fsq(q@) == q_sq@ % modulus());
                        if q@ == 0 {
                            lemma_small_mod(0, modulus());
                            assert(0nat * 0nat == 0nat);
                            assert(fsq(0) == 0);
                            assert(fsq(0) == q@ % modulus());
                        }
                    }
                    let s = fe_sqrt(&q_sq).unwrap();
                    let qi = fe_inverse(&q).unwrap();
                    let e = fe_mul(&s, &qi);
                    let em1 = fe_add(&e, &fe_neg(&Fe::one()));
                    let w = fe_inverse(&em1);
                    proof {
                        use_type_invariant(&q2);
                        lemma_times_z(u@, v_inv@);
                        let wv = match w {
                            Some(x) => Some(x@),
                            None => None,
                        };
                        lemma_no_two_non_residues(q@, q2@, s@, qi@, e@, em1@, wv);
                    }
                    (false, q2)
                },
            }
        },
    }
}

/// `c a` vanishes only with `c`, when `a` is invertible.
proof fn lemma_product_nonzero(c: int, a: nat, ai: nat)
    requires
        is_inverse(a, ai),
        !cong(c, 0),
    ensures
        !cong(c * a, 0),
{
    if cong(c * a, 0) {
        lemma_fmul_cong(a, ai);
        lemma_cong_mul(c * a, 0, ai as int, ai as int);
        lemma_cong_mul(c, c, (a * ai) as int, 1);
        assert(c * a * ai == c * (a * ai)) by (nonlinear_arith);
        assert(0 * ai == 0);
    }
}

proof fn lemma_cube_cong(x: int, y: int)
    requires
        cong(x, y),
    ensures
        cong(x * x * x, y * y * y),
{
    lemma_cong_mul(x, y, x, y);
    lemma_cong_mul(x * x, y * y, x, y);
}

/// The cubic `x^3 + A' x + B'` over the integers.
pub(crate) open spec fn cubic(x: int) -> int {
    x * x * x + iso_a() * x + iso_b()
}

/// The cubic respects congruence.
proof fn lemma_rhs_poly_cong(x: int, y: int)
    requires
        cong(x, y),
    ensures
        cong(cubic(x), cubic(y)),
{
    let a = iso_a() as int;
    let b = iso_b() as int;
    lemma_cube_cong(x, y);
    lemma_cong_mul(a, a, x, y);
    lemma_cong_add(x * x * x, y * y * y, a * x, a * y);
    lemma_cong_add(x * x * x + a * x, y * y * y + a * y, b, b);
}

/// `iso_curve_rhs` is the cubic, reduced.
pub(crate) proof fn lemma_rhs_cong(x: nat)
    ensures
        cong(iso_curve_rhs(x) as int, cubic(x as int)),
        iso_curve_rhs(x) < modulus(),
{
    let xi = x as int;
    let a = iso_a() as int;
    let b = iso_b() as int;
    let x2 = fsq(x);
    let x3 = fmul(x2, x);
    let ax = fmul(iso_a(), x);
    lemma_fsq_cong(x);
    lemma_fmul_cong(x2, x);
    lemma_cong_mul(x2 as int, xi * xi, xi, xi);
    lemma_fmul_cong(iso_a(), x);
    lemma_fadd_cong(x3, ax);
    lemma_cong_add(x3 as int, xi * xi * xi, ax as int, a * xi);
    lemma_fadd_cong(fadd(x3, ax), iso_b());
    lemma_cong_add(fadd(x3, ax) as int, xi * xi * xi + a * xi, b, b);
}

/// The first x-candidate is `tv3 / tv4`, where `tv3 = B' (d + 1)` and
/// `tv4 = A' (-d)`, or `A' Z` when `d` is zero; in the first case
/// `A' x1 d = -B' (d + 1)`.
proof fn lemma_x1_quotient(u: nat, tv3: nat, tv4: nat, w: nat)
    requires
        tv3 == fmul(iso_b(), fadd(swu_den(u), 1)),
        tv4 == fmul(if swu_den(u) != 0 { fneg(swu_den(u)) } else { swu_z() }, iso_a()),
        is_inverse(tv4, w),
    ensures
        swu_x1(u) == fmul(tv3, w),
        swu_den(u) == 0 ==> swu_x1(u) == x0_value(),
        swu_den(u) != 0 ==> cong(
            (iso_a() * swu_x1(u) * swu_den(u)) as int,
            -(iso_b() * (swu_den(u) + 1)),
        ),
{
    lemma_constants();
    let d = swu_den(u);
    let a = iso_a();
    let b = iso_b();
    let ai = a_inv_value();
    lemma_fadd_cong(fsq(swu_t(u)), swu_t(u));
    lemma_small_mod(1, modulus());
    lemma_fmul_cong(tv4, w);
    if d == 0 {
        assert(fadd(0, 1) == 1);
        lemma_finv_is(za_value(), w);
        lemma_finv_is(za_value(), za_inv_value());
    } else {
        let di = d as int;
        let aa = a as int;
        let bi = b as int;
        let wi = w as int;
        let aii = ai as int;
        lemma_finv_is(a, ai);
        lemma_fmul_cong(a, ai);
        let c = fneg(d);
        lemma_fneg_cong(d);
        lemma_fmul_cong(c, a);
        // tv4 w = -d a w = 1
        lemma_cong_mul(tv4 as int, (c * a) as int, wi, wi);
        lemma_cong_mul(c as int, -di, aa, aa);
        lemma_cong_mul((c * a) as int, -di * aa, wi, wi);
        assert(cong(-di * aa * wi, 1));
        // the inverse of d is -(a w)
        let aw = fmul(a, w);
        let wd = fneg(aw);
        lemma_fmul_cong(a, w);
        lemma_fneg_cong(aw);
        lemma_cong_neg(aw as int, aa * wi);
        lemma_cong_mul(di, di, wd as int, -(aa * wi));
        assert(di * -(aa * wi) == -di * aa * wi) by (nonlinear_arith);
        lemma_is_inverse_from_cong(d, wd);
        lemma_finv_is(d, wd);
        // d w = -ai
        lemma_cong_mul(-di * aa * wi, 1, aii, aii);
        lemma_cong_mul(-(di * wi), -(di * wi), aa * aii, 1);
        assert(-di * aa * wi * aii == -(di * wi) * (aa * aii)) by (nonlinear_arith);
        assert(cong(-(di * wi), aii));
        lemma_cong_neg(-(di * wi), aii);
        assert(cong(di * wi, -aii));
        // left: (-b ai)(1 + wd) = -b ai + b (a ai) w
        let nb = fneg(b);
        let l1 = fmul(nb, ai);
        let l2 = fadd(1, wd);
        lemma_fneg_cong(b);
        lemma_fmul_cong(nb, ai);
        lemma_cong_mul(nb as int, -bi, aii, aii);
        lemma_fadd_cong(1, wd);
        lemma_cong_add(1, 1, wd as int, -(aa * wi));
        lemma_fmul_cong(l1, l2);
        lemma_cong_mul(l1 as int, -bi * aii, l2 as int, 1 + -(aa * wi));
        assert((-bi * aii) * (1 + -(aa * wi)) == -bi * aii + bi * wi * (aa * aii))
            by (nonlinear_arith);
        lemma_cong_mul(bi * wi, bi * wi, aa * aii, 1);
        lemma_cong_add(-bi * aii, -bi * aii, bi * wi * (aa * aii), bi * wi * 1);
        // right: b (d + 1) w = b (d w) + b w
        let s = fadd(d, 1);
        lemma_fadd_cong(d, 1);
        lemma_fmul_cong(b, s);
        lemma_fmul_cong(tv3, w);
        lemma_cong_mul(tv3 as int, (b * s) as int, wi, wi);
        lemma_cong_mul(bi, bi, s as int, di + 1);
        lemma_cong_mul((b * s) as int, bi * (di + 1), wi, wi);
        assert(bi * (di + 1) * wi == bi * (di * wi) + bi * wi) by (nonlinear_arith);
        lemma_cong_mul(bi, bi, di * wi, -aii);
        lemma_cong_add(bi * (di * wi), bi * -aii, bi * wi, bi * wi);
        assert(bi * -aii + bi * wi == -bi * aii + bi * wi * 1) by (nonlinear_arith);
        lemma_cong_canonical(fmul(l1, l2), fmul(tv3, w));
        // a x1 d = a (b (d + 1) w) d = b (d + 1) (a d w) = -b (d + 1)
        let x1 = fmul(tv3, w);
        lemma_cong_mul(aa, aa, x1 as int, bi * (di + 1) * wi);
        lemma_cong_mul(aa * x1, aa * (bi * (di + 1) * wi), di, di);
        lemma_cong_neg(-di * aa * wi, 1);
        assert(aa * (bi * (di + 1) * wi) * di == (bi * (di + 1)) * -(-di * aa * wi))
            by (nonlinear_arith);
        lemma_cong_mul(bi * (di + 1), bi * (di + 1), -(-di * aa * wi), -1);
        assert(bi * (di + 1) * -1 == -(bi * (di + 1))) by (nonlinear_arith);
    }
}


proof fn lemma_num_identity(t3: int, t4: int, w: int, a: int, b: int)
    ensures
        ((t3 * t3 + a * (t4 * t4)) * t3 + b * (t4 * t4 * t4)) * (w * w * w) == (t3 * w) * (t3
            * w) * (t3 * w) + a * (t3 * w) * ((t4 * w) * (t4 * w)) + b * ((t4 * w) * (t4 * w) * (
        t4 * w)),
{
    assert((t3 * t3 * t3) * (w * w * w) == (t3 * w) * (t3 * w) * (t3 * w)) by (nonlinear_arith);
    assert((a * (t4 * t4) * t3) * (w * w * w) == a * (t3 * w) * ((t4 * w) * (t4 * w)))
        by (nonlinear_arith);
    assert((t3 * t3 + a * (t4 * t4)) * t3 == t3 * t3 * t3 + a * (t4 * t4) * t3)
        by (nonlinear_arith);
    assert((t3 * t3 * t3 + a * (t4 * t4) * t3) * (w * w * w) == (t3 * t3 * t3) * (w * w * w) + (a
        * (t4 * t4) * t3) * (w * w * w)) by (nonlinear_arith);
    assert((b * (t4 * t4 * t4)) * (w * w * w) == b * ((t4 * w) * (t4 * w) * (t4 * w)))
        by (nonlinear_arith);
    assert(((t3 * t3 + a * (t4 * t4)) * t3 + b * (t4 * t4 * t4)) * (w * w * w) == ((t3 * t3 + a
        * (t4 * t4)) * t3) * (w * w * w) + (b * (t4 * t4 * t4)) * (w * w * w))
        by (nonlinear_arith);
}

/// With `w = 1 / tv4`, `num = (tv3^2 + A' tv4^2) tv3 + B' tv4^3` and
/// `den = tv4^3`, `num / den` is `g(tv3 / tv4)`.
proof fn lemma_num_quotient(tv3: nat, tv4: nat, w: nat, num: nat, den: nat)
    requires
        is_inverse(tv4, w),
        tv3 < modulus(),
        den == fmul(fsq(tv4), tv4),
        num == fadd(
            fmul(fadd(fsq(tv3), fmul(iso_a(), fsq(tv4))), tv3),
            fmul(iso_b(), den),
        ),
    ensures
        den != 0,
        is_inverse(den, finv(den)),
        fmul(num, finv(den)) == iso_curve_rhs(fmul(tv3, w)),
        fmul(fmul(num, swu_z()), finv(den)) == fmul(swu_z(), iso_curve_rhs(fmul(tv3, w))),
{
    let a = iso_a() as int;
    let b = iso_b() as int;
    let t3 = tv3 as int;
    let t4 = tv4 as int;
    let wi = w as int;
    lemma_small_mod(1, modulus());
    lemma_fmul_cong(tv4, w);
    let e = t4 * wi;
    assert(cong(e, 1));
    // den = tv4^3 has the inverse w^3
    let t4sq = fsq(tv4);
    lemma_fsq_cong(tv4);
    lemma_fmul_cong(t4sq, tv4);
    lemma_cong_mul(t4sq as int, t4 * t4, t4, t4);
    let w3 = fmul(fsq(w), w);
    lemma_fsq_cong(w);
    lemma_fmul_cong(fsq(w), w);
    lemma_cong_mul(fsq(w) as int, wi * wi, wi, wi);
    lemma_cong_mul(den as int, t4 * t4 * t4, w3 as int, wi * wi * wi);
    lemma_cube_cong(e, 1);
    assert(t4 * t4 * t4 * (wi * wi * wi) == e * e * e) by (nonlinear_arith)
        requires
            e == t4 * wi,
    {
    }
    lemma_is_inverse_from_cong(den, w3);
    lemma_finv_is(den, w3);
    lemma_invertible_nonzero(den as int, w3);
    lemma_small_mod(den, modulus());
    // num = (tv3^2 + a tv4^2) tv3 + b tv4^3
    let t3sq = fsq(tv3);
    let atsq = fmul(iso_a(), t4sq);
    let s1 = fadd(t3sq, atsq);
    let s2 = fmul(s1, tv3);
    let s3 = fmul(iso_b(), den);
    lemma_fsq_cong(tv3);
    lemma_fmul_cong(iso_a(), t4sq);
    lemma_cong_mul(a, a, t4sq as int, t4 * t4);
    lemma_fadd_cong(t3sq, atsq);
    lemma_cong_add(t3sq as int, t3 * t3, atsq as int, a * (t4 * t4));
    lemma_fmul_cong(s1, tv3);
    lemma_cong_mul(s1 as int, t3 * t3 + a * (t4 * t4), t3, t3);
    lemma_fmul_cong(iso_b(), den);
    lemma_cong_mul(b, b, den as int, t4 * t4 * t4);
    lemma_fadd_cong(s2, s3);
    let poly = (t3 * t3 + a * (t4 * t4)) * t3 + b * (t4 * t4 * t4);
    lemma_cong_add(s2 as int, (t3 * t3 + a * (t4 * t4)) * t3, s3 as int, b * (t4 * t4 * t4));
    assert(cong(num as int, poly));
    // num w^3 = (tv3 w)^3 + a (tv3 w) e^2 + b e^3
    let x = t3 * wi;
    lemma_fmul_cong(num, w3);
    lemma_cong_mul(num as int, poly, w3 as int, wi * wi * wi);
    lemma_num_identity(t3, t4, wi, a, b);
    lemma_cong_mul(e, 1, e, 1);
    lemma_cong_mul(a * x, a * x, e * e, 1);
    lemma_cong_mul(b, b, e * e * e, 1);
    lemma_cong_add(x * x * x, x * x * x, a * x * (e * e), a * x * 1);
    lemma_cong_add(x * x * x + a * x * (e * e), x * x * x + a * x * 1, b * (e * e * e), b * 1);
    assert(x * x * x + a * x * 1 + b * 1 == cubic(x));
    // and (tv3 w) is x1
    let x1 = fmul(tv3, w);
    lemma_fmul_cong(tv3, w);
    lemma_rhs_poly_cong(x1 as int, x);
    lemma_rhs_cong(x1);
    lemma_cong_canonical(fmul(num, w3), iso_curve_rhs(x1));
    // the Z variant
    let g = iso_curve_rhs(x1);
    let nz = fmul(num, swu_z());
    lemma_fmul_cong(num, swu_z());
    lemma_fmul_cong(nz, w3);
    lemma_fmul_cong(swu_z(), g);
    lemma_cong_mul(nz as int, (num * 11) as int, w3 as int, w3 as int);
    lemma_cong_mul(11, 11, (num * w3) as int, g as int);
    assert(num * 11 * w3 == 11 * (num * w3)) by (nonlinear_arith);
    lemma_cong_canonical(fmul(nz, w3), fmul(swu_z(), g));
}

/// The first steps of the straight-line map, shared by the map and by the
/// test of whether it is defined.
struct SwuPrefix {
    tv1: Fe,
    tv3: Fe,
    tv4_inv: Fe,
    num: Fe,
    den: Fe,
}

spec fn swu_prefix_ok(u: nat, p: SwuPrefix) -> bool {
    &&& p.tv1@ == swu_t(u)
    &&& swu_x1(u) == fmul(p.tv3@, p.tv4_inv@)
    &&& p.den@ != 0
    &&& is_inverse(p.den@, finv(p.den@))
    &&& fmul(p.num@, finv(p.den@)) == swu_gx1(u)
    &&& fmul(fmul(p.num@, swu_z()), finv(p.den@)) == fmul(swu_z(), swu_gx1(u))
    &&& swu_den(u) == 0 ==> swu_x1(u) == x0_value()
    &&& swu_den(u) != 0 ==> cong(
        (iso_a() * swu_x1(u) * swu_den(u)) as int,
        -(iso_b() * (swu_den(u) + 1)),
    )
}

/// Steps 1 to 16 of the straight-line map, and the inverse of `tv4` that
/// step 25 divides by.
fn swu_prefix(u: &Fe) -> (p: SwuPrefix)
    ensures
        swu_prefix_ok(u@, p),
{
    proof {
        lemma_constants();
    }
    let z = swu_z_fe();
    let a = iso_a_fe();
    let b = iso_b_fe();
    // 1.  tv1 = u^2
    let mut tv1 = fe_square(u);
    // 2.  tv1 = Z * tv1
    tv1 = fe_mul(&z, &tv1);
    // 3.  tv2 = tv1^2
    let mut tv2 = fe_square(&tv1);
    // 4.  tv2 = tv2 + tv1
    tv2 = fe_add(&tv2, &tv1);
    // 5.  tv3 = tv2 + 1
    let mut tv3 = fe_add(&tv2, &Fe::one());
    // 6.  tv3 = B * tv3
    tv3 = fe_mul(&b, &tv3);
    // 7.  tv4 = CMOV(Z, -tv2, tv2 != 0)
    let mut tv4 = if !tv2.is_zero() {
        fe_neg(&tv2)
    } else {
        z
    };
    // 8.  tv4 = A * tv4
    tv4 = fe_mul(&tv4, &a);
    proof {
        let d = swu_den(u@);
        lemma_fadd_cong(fsq(swu_t(u@)), swu_t(u@));
        if d != 0 {
            lemma_fneg_nonzero(d);
            lemma_small_mod(fneg(d), modulus());
            lemma_product_nonzero(fneg(d) as int, iso_a(), a_inv_value());
            lemma_fmul_cong(fneg(d), iso_a());
        }
    }
    let tv4_inv = fe_inverse(&tv4).unwrap();
    proof {
        use_type_invariant(&tv4_inv);
        use_type_invariant(&tv3);
        lemma_x1_quotient(u@, tv3@, tv4@, tv4_inv@);
    }
    // 9.  tv2 = tv3^2
    tv2 = fe_square(&tv3);
    // 10. tv6 = tv4^2
    let mut tv6 = fe_square(&tv4);
    // 11. tv5 = A * tv6
    let tv5 = fe_mul(&a, &tv6);
    // 12. tv2 = tv2 + tv5
    tv2 = fe_add(&tv2, &tv5);
    // 13. tv2 = tv2 * tv3
    tv2 = fe_mul(&tv2, &tv3);
    // 14. tv6 = tv6 * tv4
    tv6 = fe_mul(&tv6, &tv4);
    // 15. tv5 = B * tv6
    let tv5 = fe_mul(&b, &tv6);
    // 16. tv2 = tv2 + tv5
    tv2 = fe_add(&tv2, &tv5);
    proof {
        lemma_num_quotient(tv3@, tv4@, tv4_inv@, tv2@, tv6@);
    }
    SwuPrefix { tv1, tv3, tv4_inv, num: tv2, den: tv6 }
}


proof fn lemma_isogeny_identity(t: int, x: int, a: int, b: int)
    ensures
        (t * x) * (t * x) * (t * x) + a * (t * x) + b - t * t * t * (x * x * x + a * x + b) == (1
            - t) * (a * x * (t * t + t) + b * (t * t + t + 1)),
{
    assert((t * x) * (t * x) * (t * x) == t * t * t * (x * x * x)) by (nonlinear_arith);
    assert(t * t * t * (x * x * x + a * x + b) == t * t * t * (x * x * x) + t * t * t * (a * x) + t
        * t * t * b) by (nonlinear_arith);
    assert((1 - t) * (a * x * (t * t + t)) == a * (t * x) - t * t * t * (a * x))
        by (nonlinear_arith);
    assert((1 - t) * (b * (t * t + t + 1)) == b - t * t * t * b) by (nonlinear_arith);
    assert((1 - t) * (a * x * (t * t + t) + b * (t * t + t + 1)) == (1 - t) * (a * x * (t * t
        + t)) + (1 - t) * (b * (t * t + t + 1))) by (nonlinear_arith);
}

/// In the non-square case the map's y squares to `g(Z u^2 x1)`: that value
/// is `(Z u^2)^3 g(x1)` because `A' x1 d = -B' (d + 1)`.
proof fn lemma_nonsquare_on_curve(u: nat, y1: nat)
    requires
        u < modulus(),
        swu_den(u) != 0,
        cong((iso_a() * swu_x1(u) * swu_den(u)) as int, -(iso_b() * (swu_den(u) + 1))),
        cong((y1 * y1) as int, (swu_z() * swu_gx1(u)) as int),
    ensures
        fsq(fmul(fmul(swu_t(u), u), y1)) == iso_curve_rhs(fmul(swu_t(u), swu_x1(u))),
{
    let a = iso_a() as int;
    let b = iso_b() as int;
    let ui = u as int;
    let t = swu_t(u);
    let ti = t as int;
    let x1 = swu_x1(u);
    let xi = x1 as int;
    let dn = swu_den(u);
    let d = dn as int;
    let g = swu_gx1(u) as int;
    // t = Z u^2 and d = t^2 + t
    lemma_fsq_cong(u);
    lemma_fmul_cong(11, fsq(u));
    lemma_cong_mul(11, 11, fsq(u) as int, ui * ui);
    assert(cong(ti, 11 * (ui * ui)));
    lemma_fsq_cong(t);
    lemma_fadd_cong(fsq(t), t);
    lemma_cong_add(fsq(t) as int, ti * ti, ti, ti);
    assert(cong(d, ti * ti + ti));
    // y0^2 = t^2 u^2 y1^2 = t^2 u^2 Z g = t^3 g
    let tu = fmul(t, u);
    let y0 = fmul(tu, y1);
    lemma_fmul_cong(t, u);
    lemma_fmul_cong(tu, y1);
    lemma_fsq_cong(y0);
    lemma_cong_mul(y0 as int, (tu * y1) as int, y0 as int, (tu * y1) as int);
    lemma_cong_mul(tu as int, ti * ui, y1 as int, y1 as int);
    lemma_cong_mul((tu * y1) as int, ti * ui * y1, (tu * y1) as int, ti * ui * y1);
    assert((ti * ui * y1) * (ti * ui * y1) == (ti * ti) * (ui * ui) * (y1 * y1))
        by (nonlinear_arith);
    lemma_cong_mul((ti * ti) * (ui * ui), (ti * ti) * (ui * ui), (y1 * y1) as int, 11 * g);
    assert((ti * ti) * (ui * ui) * (11 * g) == (ti * ti) * (11 * (ui * ui)) * g)
        by (nonlinear_arith);
    lemma_cong_mul(ti * ti, ti * ti, 11 * (ui * ui), ti);
    lemma_cong_mul((ti * ti) * (11 * (ui * ui)), ti * ti * ti, g, g);
    assert(cong(fsq(y0) as int, ti * ti * ti * g));
    // g = x1^3 + a x1 + b
    lemma_rhs_cong(x1);
    lemma_cong_mul(ti * ti * ti, ti * ti * ti, g, cubic(xi));
    // the rhs at t x1 is the cubic at t x1
    let x = fmul(t, x1);
    lemma_fmul_cong(t, x1);
    lemma_rhs_cong(x);
    lemma_rhs_poly_cong(x as int, ti * xi);
    // cubic(t x1) - t^3 cubic(x1) = (1 - t)(a x1 (t^2 + t) + b (t^2 + t + 1)) = 0
    lemma_isogeny_identity(ti, xi, a, b);
    lemma_cong_mul(a * xi, a * xi, d, ti * ti + ti);
    lemma_cong_add(d, ti * ti + ti, 1, 1);
    lemma_cong_mul(b, b, d + 1, ti * ti + ti + 1);
    lemma_cong_add(a * xi * d, a * xi * (ti * ti + ti), b * (d + 1), b * (ti * ti + ti + 1));
    assert(a * xi * d == (iso_a() * swu_x1(u) * swu_den(u)) as int);
    lemma_cong_add(a * xi * d, -(b * (d + 1)), b * (d + 1), b * (d + 1));
    assert(cong(a * xi * (ti * ti + ti) + b * (ti * ti + ti + 1), 0));
    lemma_cong_mul(1 - ti, 1 - ti, a * xi * (ti * ti + ti) + b * (ti * ti + ti + 1), 0);
    assert((1 - ti) * 0 == 0);
    lemma_cong_add(
        cubic(ti * xi) - ti * ti * ti * cubic(xi),
        0,
        ti * ti * ti * cubic(xi),
        ti * ti * ti * cubic(xi),
    );
    lemma_cong_canonical(fsq(y0), iso_curve_rhs(x));
}

/// Law: a nonzero y-coordinate of the map has the sign of `u`.
pub proof fn lemma_swu_sign(u: nat)
    ensures
        swu_y(u) != 0 ==> sgn0_spec(swu_y(u)) == sgn0_spec(u),
{
    let y0 = swu_y_unsigned(u);
    if sgn0_spec(u) != sgn0_spec(y0) {
        let m = modulus() as int;
        if is_square(swu_gx1(u)) {
            vstd::arithmetic::div_mod::lemma_mod_bound(
                vstd::arithmetic::power::pow(swu_gx1(u) as int, crate::field::sqrt_exponent()),
                m,
            );
        } else {
            lemma_fmul_cong(fmul(swu_t(u), u), sqrt_candidate(fmul(swu_z(), swu_gx1(u))));
        }
        if y0 == 0 {
            lemma_fneg_zero();
        } else {
            lemma_fneg_nonzero(y0);
        }
    }
}

/// Law: `-u` is mapped to the mirror image of the point `u` is mapped to:
/// the same x, the opposite y.
pub proof fn lemma_swu_odd(u: nat)
    requires
        0 < u < modulus(),
    ensures
        swu_x(fneg(u)) == swu_x(u),
        swu_y(fneg(u)) == fneg(swu_y(u)),
{
    let nu = fneg(u);
    lemma_fsq_fneg(u);
    lemma_fneg_nonzero(u);
    assert(swu_t(nu) == swu_t(u));
    let c = swu_y_unsigned(u);
    if is_square(swu_gx1(u)) {
        vstd::arithmetic::div_mod::lemma_mod_bound(
            vstd::arithmetic::power::pow(swu_gx1(u) as int, crate::field::sqrt_exponent()),
            modulus() as int,
        );
        assert(swu_y_unsigned(nu) == c);
    } else {
        let k = sqrt_candidate(fmul(swu_z(), swu_gx1(u)));
        lemma_fmul_fneg(swu_t(u), u);
        lemma_fmul_fneg(fmul(swu_t(u), u), k);
        lemma_fmul_cong(fmul(swu_t(u), u), k);
        assert(swu_y_unsigned(nu) == fneg(c));
    }
    assert(c < modulus()) by {
        if is_square(swu_gx1(u)) {
        } else {
            lemma_fmul_cong(fmul(swu_t(u), u), sqrt_candidate(fmul(swu_z(), swu_gx1(u))));
        }
    }
    if c == 0 {
        lemma_fneg_zero();
    } else {
        lemma_fneg_nonzero(c);
        lemma_fneg_involutive(c);
    }
}

/// A point of E' with `y = 0` has a root `x` of `g`, which is not 0.
proof fn lemma_y_zero_root(x: nat)
    requires
        x < modulus(),
        iso_curve_rhs(x) == 0,
    ensures
        x != 0,
        cong(crate::cubic::iso_cubic(x as int), 0),
{
    lemma_rhs_cong(x);
    lemma_constants();
    if x == 0 {
        assert(fsq(0) == 0);
        assert(fmul(0, 0) == 0);
        assert(fmul(iso_a(), 0) == 0);
        lemma_small_mod(iso_b(), modulus());
    }
}

/// Where `y = 0` on E', `x` is nonzero and `x^2` is a square.
proof fn lemma_y_zero_root_square(x: nat, y: nat, x_sq: nat)
    requires
        x < modulus(),
        y == 0,
        fsq(y) == iso_curve_rhs(x),
        x_sq == fsq(x),
    ensures
        x != 0,
        iso_curve_rhs(x) == 0,
        is_square(x_sq),
{
    lemma_small_mod(0, modulus());
    assert(fsq(0) == 0);
    lemma_y_zero_root(x);
    lemma_fsq_cong(x);
    lemma_small_mod(x_sq, modulus());
    assert(fsq(x) == x_sq % modulus());
}

/// No `x` of Fq is a root of `g`: given the witnesses of Fermat's theorem
/// for such an `x`, a contradiction follows.
proof fn lemma_no_curve_root(x: nat, s: nat, xi: nat)
    requires
        x < modulus(),
        iso_curve_rhs(x) == 0,
        s == sqrt_candidate(fsq(x)),
        fsq(s) == fsq(x),
        fmul(x, xi) == 1,
    ensures
        x == x + 1,
{
    lemma_y_zero_root(x);
    lemma_fermat(x, s, xi);
    crate::cubic_certificate::lemma_cubic_no_root(x as int);
}

/// What the two branches of the map owe: with a square `g(x1)`, `y1`
/// squares to it; otherwise `Z u^3 y1` squares to `g(Z u^2 x1)`, and
/// `tv1 tv3 / tv4` is `Z u^2 x1`.
proof fn lemma_map_branches(u: nat, p: SwuPrefix, is_sq: bool, y1: nat)
    requires
        u < modulus(),
        swu_prefix_ok(u, p),
        is_sq == is_square(fmul(p.num@, finv(p.den@))),
        is_sq ==> fmul(fsq(y1), p.den@) == p.num@,
        !is_sq ==> fmul(fsq(y1), p.den@) == fmul(swu_z(), p.num@),
    ensures
        is_sq ==> fsq(y1) == swu_gx1(u),
        !is_sq ==> fsq(fmul(fmul(swu_t(u), u), y1)) == iso_curve_rhs(fmul(swu_t(u), swu_x1(u))),
        !is_sq ==> fmul(fmul(p.tv1@, p.tv3@), p.tv4_inv@) == fmul(swu_t(u), swu_x1(u)),
{
    lemma_constants();
    let g = swu_gx1(u);
    let den = p.den@;
    let num = p.num@;
    let di = finv(den);
    lemma_fmul_cong(fsq(y1), den);
    lemma_fsq_cong(y1);
    lemma_fmul_cong(den, di);
    lemma_small_mod(1, modulus());
    if is_sq {
        // y1^2 = num / den = g
        lemma_fmul_cong(num, di);
        lemma_cong_mul((fsq(y1) * den) as int, num as int, di as int, di as int);
        lemma_cong_mul(fsq(y1) as int, fsq(y1) as int, (den * di) as int, 1);
        assert(fsq(y1) * den * di == fsq(y1) * (den * di)) by (nonlinear_arith);
        lemma_cong_canonical(fsq(y1), g);
    } else {
        // y1^2 = Z num / den = Z g
        let nz = fmul(num, swu_z());
        lemma_fmul_cong(num, swu_z());
        lemma_fmul_cong(nz, di);
        lemma_fmul_cong(swu_z(), num);
        lemma_fmul_cong(swu_z(), g);
        lemma_cong_mul((fsq(y1) * den) as int, (swu_z() * num) as int, di as int, di as int);
        lemma_cong_mul(fsq(y1) as int, fsq(y1) as int, (den * di) as int, 1);
        assert(fsq(y1) * den * di == fsq(y1) * (den * di)) by (nonlinear_arith);
        lemma_cong_mul(nz as int, (num * swu_z()) as int, di as int, di as int);
        assert(swu_z() * num * di == num * swu_z() * di) by (nonlinear_arith);
        assert(cong(fsq(y1) as int, (swu_z() * g) as int));
        assert(cong((y1 * y1) as int, (swu_z() * g) as int));
        if swu_den(u) == 0 {
            lemma_x0_square();
        }
        lemma_nonsquare_on_curve(u, y1);
        // x = (tv1 tv3) / tv4 = t x1
        let w = p.tv4_inv@;
        let t3 = p.tv3@;
        let t = p.tv1@;
        lemma_fmul_cong(t, t3);
        lemma_fmul_cong(fmul(t, t3), w);
        lemma_fmul_cong(t3, w);
        lemma_fmul_cong(t, fmul(t3, w));
        lemma_cong_mul(fmul(t, t3) as int, (t * t3) as int, w as int, w as int);
        lemma_cong_mul(t as int, t as int, fmul(t3, w) as int, (t3 * w) as int);
        assert(t * t3 * w == t * (t3 * w)) by (nonlinear_arith);
        lemma_cong_canonical(fmul(fmul(t, t3), w), fmul(t, fmul(t3, w)));
    }
}

/// The simplified SWU map of RFC 9380 onto E' (straight-line form), with
/// `sqrt_ratio` computed naively. It is defined at every `u`: one of
/// `g(x1)` and `Z g(x1)` is square. The result is the point `(x, y)` of E'
/// whose x is `x1` when `g(x1)` is square and `Z u^2 x1` otherwise, whose y
/// squares to `g(x)` and, when nonzero, has the sign of `u`.
pub fn map_to_curve_simple_swu(u: &Fe) -> (r: (Fe, Fe))
    ensures
        swu_defined(u@),
        r.0@ == swu_x(u@),
        r.1@ == swu_y(u@),
        fsq(r.1@) == iso_curve_rhs(r.0@),
        r.1@ != 0,
        sgn0_spec(r.1@) == sgn0_spec(u@),
{
    proof {
        use_type_invariant(u);
        lemma_constants();
    }
    let p = swu_prefix(u);
    let tv1 = p.tv1;
    let tv3 = p.tv3;
    // 17.   x = tv1 * tv3
    let mut x = fe_mul(&tv1, &tv3);
    // 18. (is_gx1_square, y1) = sqrt_ratio(tv2, tv6)
    let (is_gx1_square, y1) = sqrt_ratio(&p.num, &p.den);
    // 19.   y = tv1 * u
    let mut y = fe_mul(&tv1, u);
    // 20.   y = y * y1
    y = fe_mul(&y, &y1);
    proof {
        lemma_map_branches(u@, p, is_gx1_square, y1@);
    }
    // 21.   x = CMOV(x, tv3, is_gx1_square)
    x = if !is_gx1_square {
        x
    } else {
        tv3
    };
    // 22.   y = CMOV(y, y1, is_gx1_square)
    y = if !is_gx1_square {
        y
    } else {
        y1
    };
    // 23.  e1 = sgn0(u) == sgn0(y)
    let e1 = sgn0(u) == sgn0(&y);
    // 24.   y = CMOV(-y, y, e1)
    let ghost y_unsigned = y@;
    if !e1 {
        y = fe_neg(&y);
    }
    proof {
        lemma_fsq_fneg(y_unsigned);
        lemma_swu_sign(u@);
    }
    // 25.   x = x / tv4
    x = fe_mul(&x, &p.tv4_inv);
    if y.is_zero() {
        // Unreachable, as g has no root in Fq (see `cubic`). The calls
        // below only gather the witnesses of Fermat's theorem for x.
        let x_sq = fe_square(&x);
        proof {
            lemma_y_zero_root_square(x@, y@, x_sq@);
        }
        let s = fe_sqrt(&x_sq).unwrap();
        let xi = fe_inverse(&x).unwrap();
        proof {
            lemma_no_curve_root(x@, s@, xi@);
        }
    }
    // 26. return (x, y)
    (x, y)
}


} // verus!
