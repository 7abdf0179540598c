//! The 11-isogeny from E' to BLS12-381 G1, `(x, y) -> (xn(x) / xd(x),
//! y yn(x) / yd(x))`, with the coefficients that arkworks holds.

use crate::field::{fadd, fe_add, fe_inverse, fe_mul, finv0, fmul, fneg, fsq, is_inverse, modulus, Fe};
use crate::field_lemmas::{
    cong, lemma_cong_add, lemma_cong_canonical, lemma_cong_mul, lemma_fadd_cong, lemma_finv_is,
    lemma_fmul_cong, lemma_fmul_fneg, lemma_fsq_cong, lemma_is_inverse_from_cong,
};
use crate::horner::{congruent, times};
use crate::isogeny_certificate::{
    curve_0, den_cube_0_0, den_root_0, den_sixth_0_0, den_sq_0_0, lemma_curve_identity,
    lemma_curve_y_num_sq_step_0, lemma_den_cube_step_0, lemma_den_sixth_step_0,
    lemma_den_sq_step_0, lemma_eval_x_den, lemma_eval_x_num, lemma_eval_y_den, lemma_eval_y_num,
    lemma_x_num_cube_step_0, lemma_x_num_sq_step_0, lemma_y_num_sq_step_0, x_num_0,
    x_num_cube_0_0, x_num_sq_0_0, y_num_0, y_num_sq_0_0, curve_y_num_sq_0_0,
};
use crate::swu::{cubic, iso_a, iso_b, iso_curve_rhs, lemma_rhs_cong};
use vstd::arithmetic::div_mod::lemma_small_mod;
use ark_bls12_381::{Config, Fq};
use ark_ec::bls12::Bls12Config;
use ark_ec::hashing::curve_maps::wb::WBConfig;
use ark_ff::PrimeField;
use vstd::prelude::*;

verus! {

/// The coefficients of `x_map_numerator`, lowest degree first.
pub open spec fn iso_x_num() -> Seq<nat> {
    seq![
        2712959285290305970661081772124144179193819192423276218370281158706191519995889425075952244140278856085036081760695nat,
        3564859427549639835253027846704205725951033235539816243131874237388832081954622352624080767121604606753339903542203nat,
        2051387046688339481714726479723076305756384619135044672831882917686431912682625619320120082313093891743187631791280nat,
        3612713941521031012780325893181011392520079402153354595775735142359240110423346445050803899623018402874731133626465nat,
        2247053637822768981792833880270996398470828564809439728372634811976089874056583714987807553397615562273407692740057nat,
        3415427104483187489859740871640064348492611444552862448295571438270821994900526625562705192993481400731539293415811nat,
        2067521456483432583860405634125513059912765526223015704616050604591207046392807563217109432457129564962571408764292nat,
        3650721292069012982822225637849018828271936405382082649291891245623305084633066170122780668657208923883092359301262nat,
        1239271775787030039269460763652455868148971086016832054354147730155061349388626624328773377658494412538595239256855nat,
        3479374185711034293956731583912244564891370843071137483962415222733470401948838363051960066766720884717833231600798nat,
        2492756312273161536685660027440158956721981129429869601638362407515627529461742974364729223659746272460004902959995nat,
        1058488477413994682556770863004536636444795456512795473806825292198091015005841418695586811009326456605062948114985nat,
    ]
}

/// The coefficients of `x_map_denominator`, lowest degree first.
pub open spec fn iso_x_den() -> Seq<nat> {
    seq![
        1353092447850172218905095041059784486169131709710991428415161466575141675351394082965234118340787683181925558786844nat,
        2822220997908397120956501031591772354860004534930174057793539372552395729721474912921980407622851861692773516917759nat,
        1717937747208385987946072944131378949849282930538642983149296304709633281382731764122371874602115081850953846504985nat,
        501624051089734157816582944025690868317536915684467868346388760435016044027032505306995281054569109955275640941784nat,
        3025903087998593826923738290305187197829899948335370692927241015584233559365859980023579293766193297662657497834014nat,
        2224140216975189437834161136818943039444741035168992629437640302964164227138031844090123490881551522278632040105125nat,
        1146414465848284837484508420047674663876992808692209238763293935905506532411661921697047880549716175045414621825594nat,
        3179090966864399634396993677377903383656908036827452986467581478509513058347781039562481806409014718357094150199902nat,
        1549317016540628014674302140786462938410429359529923207442151939696344988707002602944342203885692366490121021806145nat,
        1442797143427491432630626390066422021593505165588630398337491100088557278058060064930663878153124164818522816175370nat,
        1nat,
    ]
}

/// The coefficients of `y_map_numerator`, lowest degree first.
pub open spec fn iso_y_num() -> Seq<nat> {
    seq![
        1393399195776646641963150658816615410692049723305861307490980409834842911816308830479576739332720113414154429643571nat,
        2968610969752762946134106091152102846225411740689724909058016729455736597929366401532929068084731548131227395540630nat,
        122933100683284845219599644396874530871261396084070222155796123161881094323788483360414289333111221370374027338230nat,
        303251954782077855462083823228569901064301365507057490567314302006681283228886645653148231378803311079384246777035nat,
        1353972356724735644398279028378555627591260676383150667237975415318226973994509601413730187583692624416197017403099nat,
        3443977503653895028417260979421240655844034880950251104724609885224259484262346958661845148165419691583810082940400nat,
        718493410301850496156792713845282235942975872282052335612908458061560958159410402177452633054233549648465863759602nat,
        1466864076415884313141727877156167508644960317046160398342634861648153052436926062434809922037623519108138661903145nat,
        1536886493137106337339531461344158973554574987550750910027365237255347020572858445054025958480906372033954157667719nat,
        2171468288973248519912068884667133903101171670397991979582205855298465414047741472281361964966463442016062407908400nat,
        3915937073730221072189646057898966011292434045388986394373682715266664498392389619761133407846638689998746172899634nat,
        3802409194827407598156407709510350851173404795262202653149767739163117554648574333789388883640862266596657730112910nat,
        1707589313757812493102695021134258021969283151093981498394095062397393499601961942449581422761005023512037430861560nat,
        349697005987545415860583335313370109325490073856352967581197273584891698473628451945217286148025358795756956811571nat,
        885704436476567581377743161796735879083481447641210566405057346859953524538988296201011389016649354976986251207243nat,
        3370924952219000111210625390420697640496067348723987858345031683392215988129398381698161406651860675722373763741188nat,
    ]
}

/// The coefficients of `y_map_denominator`, lowest degree first.
pub open spec fn iso_y_den() -> Seq<nat> {
    seq![
        3396434800020507717552209507749485772788165484415495716688989613875369612529138640646200921379825018840894888371137nat,
        3907278185868397906991868466757978732688957419873771881240086730384895060595583602347317992689443299391009456758845nat,
        854914566454823955479427412036002165304466268547334760894270240966182605542146252771872707010378658178126128834546nat,
        3496628876382137961119423566187258795236027183112131017519536056628828830323846696121917502443333849318934945158166nat,
        1828256966233331991927609917644344011503610008134915752990581590799656305331275863706710232159635159092657073225757nat,
        1362317127649143894542621413133849052553333099883364300946623208643344298804722863920546222860227051989127113848748nat,
        3443845896188810583748698342858554856823966611538932245284665132724280883115455093457486044009395063504744802318172nat,
        3484671274283470572728732863557945897902920439975203610275006103818288159899345245633896492713412187296754791689945nat,
        3755735109429418587065437067067640634211015783636675372165599470771975919172394156249639331555277748466603540045130nat,
        3459661102222301807083870307127272890283709299202626530836335779816726101522661683404130556379097384249447658110805nat,
        742483168411032072323733249644347333168432665415341249073150659015707795549260947228694495111018381111866512337576nat,
        1662231279858095762833829698537304807741442669992646287950513237989158777254081548205552083108208170765474149568658nat,
        1668238650112823419388205992952852912407572045257706138925379268508860023191233729074751042562151098884528280913356nat,
        369162719928976119195087327055926326601627748362769544198813069133429557026740823593067700396825489145575282378487nat,
        2164195715141237148945939585099633032390257748382945597506236650132835917087090097395995817229686247227784224263055nat,
        1nat,
    ]
}

/// The values of a sequence of field elements.
pub open spec fn fe_values(s: Seq<Fe>) -> Seq<nat> {
    s.map_values(|f: Fe| f@)
}

/// The polynomial with coefficients `c` (lowest degree first) at `x`.
pub open spec fn poly_eval(c: Seq<nat>, x: nat) -> nat
    decreases c.len(),
{
    if c.len() == 0 {
        0
    } else {
        fadd(c[0], fmul(x, poly_eval(c.drop_first(), x)))
    }
}

/// The image of `(x, y)` under the isogeny; a vanishing denominator counts
/// as having the inverse 0.
pub open spec fn iso_map_spec(x: nat, y: nat) -> (nat, nat) {
    (
        fmul(poly_eval(iso_x_num(), x), finv0(poly_eval(iso_x_den(), x))),
        fmul(fmul(poly_eval(iso_y_num(), x), y), finv0(poly_eval(iso_y_den(), x))),
    )
}

/// The x-denominator of the isogeny has an inverse at `x`.
pub open spec fn iso_denominator_invertible(x: nat) -> bool {
    exists|w: nat| is_inverse(poly_eval(iso_x_den(), x), w)
}

/// The four coefficient lists of an isogeny map.
pub struct IsogenyCoefficients {
    pub x_num: Vec<Fe>,
    pub x_den: Vec<Fe>,
    pub y_num: Vec<Fe>,
    pub y_den: Vec<Fe>,
}

/// arkworks' `WBConfig::ISOGENY_MAP` of BLS12-381 G1, the isogeny from the
/// curve of the SWU map; its coefficient lists are as written in
/// ark-bls12-381's source.
#[verifier::external_body]
pub fn g1_isogeny_map() -> (r: IsogenyCoefficients)
    ensures
        fe_values(r.x_num@) == iso_x_num(),
        fe_values(r.x_den@) == iso_x_den(),
        fe_values(r.y_num@) == iso_y_num(),
        fe_values(r.y_den@) == iso_y_den(),
{
    let m = <Config as Bls12Config>::G1Config::ISOGENY_MAP;
    let f = |s: &[Fq]| s.iter().map(|c| Fe { limbs: c.into_bigint().0 }).collect();
    IsogenyCoefficients {
        x_num: f(m.x_map_numerator),
        x_den: f(m.x_map_denominator),
        y_num: f(m.y_map_numerator),
        y_den: f(m.y_map_denominator),
    }
}

/// The polynomial with coefficients `coeffs` at `x`, by Horner's rule.
pub fn evaluate(coeffs: &Vec<Fe>, x: &Fe) -> (r: Fe)
    ensures
        r@ == poly_eval(fe_values(coeffs@), x@),
{
    let ghost c = fe_values(coeffs@);
    let n = coeffs.len();
    let mut acc = Fe::zero();
    let mut i = n;
    proof {
        assert(c.subrange(n as int, n as int).len() == 0);
    }
    while i > 0
        invariant
            i <= n,
            n == coeffs.len(),
            c == fe_values(coeffs@),
            acc@ == poly_eval(c.subrange(i as int, n as int), x@),
        decreases i,
    {
        i = i - 1;
        let ghost old_acc = acc@;
        acc = fe_add(&fe_mul(&acc, x), &coeffs[i]);
        proof {
            let s = c.subrange(i as int, n as int);
            assert(s.drop_first() =~= c.subrange(i + 1, n as int));
            assert(s[0] == coeffs@[i as int]@);
            assert(old_acc * x@ == x@ * old_acc) by (nonlinear_arith);
        }
    }
    proof {
        assert(c.subrange(0, n as int) =~= c);
    }
    acc
}

/// Replaces every nonzero element by its inverse and leaves zeros alone.
pub fn batch_inversion(v: &mut Vec<Fe>)
    ensures
        final(v)@.len() == old(v)@.len(),
        forall|i: int| 0 <= i < old(v)@.len() ==> #[trigger] final(v)@[i]@ == finv0(old(v)@[i]@),
{
    let n = v.len();
    let mut i: usize = 0;
    while i < n
        invariant
            i <= n,
            n == old(v)@.len(),
            v@.len() == n,
            forall|j: int| 0 <= j < i ==> #[trigger] v@[j]@ == finv0(old(v)@[j]@),
            forall|j: int| i <= j < n ==> #[trigger] v@[j] == old(v)@[j],
        decreases n - i,
    {
        let e = v[i];
        proof {
            use_type_invariant(&e);
        }
        let inv = match fe_inverse(&e) {
            Some(w) => {
                proof {
                    use_type_invariant(&w);
                    lemma_finv_is(e@, w@);
                }
                w
            },
            None => {
                proof {
                    vstd::arithmetic::div_mod::lemma_small_mod(0, modulus());
                }
                Fe::zero()
            },
        };
        v.set(i, inv);
        i = i + 1;
    }
}

/// The image of a point of E' on BLS12-381 G1 under the 11-isogeny.
/// The identity point is not handled: a vanishing denominator gives 0.
pub fn iso_map_swu(x: &Fe, y: &Fe) -> (r: (Fe, Fe))
    ensures
        (r.0@, r.1@) == iso_map_spec(x@, y@),
{
    let iso = g1_isogeny_map();
    let x_num = evaluate(&iso.x_num, x);
    let mut v = vec![evaluate(&iso.x_den, x), evaluate(&iso.y_den, x)];
    let ghost dens = v@;
    batch_inversion(&mut v);
    proof {
        assert(v@[0]@ == finv0(dens[0]@));
        assert(v@[1]@ == finv0(dens[1]@));
    }
    let img_x = fe_mul(&x_num, &v[0]);
    let img_y = fe_mul(&fe_mul(&evaluate(&iso.y_num, x), y), &v[1]);
    (img_x, img_y)
}


/// The cubic of E' in Horner form.
proof fn lemma_cubic_horner(x: int, a: int, b: int)
    ensures
        b + x * (a + x * (0 + x * (1 + x * 0))) == x * x * x + a * x + b,
{
    assert(b + x * (a + x * (0 + x * (1 + x * 0))) == x * x * x + a * x + b) by (nonlinear_arith);
}

/// The polynomial facts behind the isogeny's law at `x`, over the
/// integers modulo p, with `l` the root of the denominators.
proof fn lemma_isogeny_polynomials(x: nat)
    ensures
        ({
            let xi = x as int;
            let l = den_root_0(xi);
            let l3 = l * (l * l);
            let xn = poly_eval(iso_x_num(), x) as int;
            let yn = poly_eval(iso_y_num(), x) as int;
            &&& cong(poly_eval(iso_x_den(), x) as int, l * l)
            &&& cong(poly_eval(iso_y_den(), x) as int, l3)
            &&& cong(cubic(xi) * (yn * yn), 4 * (l3 * l3) + xn * (xn * xn))
        }),
{
    let xi = x as int;
    lemma_eval_x_den(x);
    lemma_eval_y_den(x);
    lemma_eval_x_num(x);
    lemma_eval_y_num(x);
    lemma_den_sq_step_0(xi);
    lemma_den_cube_step_0(xi);
    lemma_den_sixth_step_0(xi);
    lemma_y_num_sq_step_0(xi);
    lemma_curve_y_num_sq_step_0(xi);
    lemma_x_num_sq_step_0(xi);
    lemma_x_num_cube_step_0(xi);
    lemma_curve_identity(xi);
    reveal(congruent);
    reveal(times);
    let l = den_root_0(xi);
    let l2 = den_sq_0_0(xi);
    let l3 = den_cube_0_0(xi);
    let l6 = den_sixth_0_0(xi);
    let yn = y_num_0(xi);
    let xn = x_num_0(xi);
    let g = curve_0(xi);
    let xd = poly_eval(iso_x_den(), x) as int;
    let yd = poly_eval(iso_y_den(), x) as int;
    let pxn = poly_eval(iso_x_num(), x) as int;
    let pyn = poly_eval(iso_y_num(), x) as int;
    // l3 = l^3, l6 = (l^3)^2
    lemma_cong_mul(l, l, l2, l * l);
    lemma_cong_mul(l3, l * (l * l), l3, l * (l * l));
    // g = cubic(x)
    lemma_cubic_horner(xi, iso_a() as int, iso_b() as int);
    assert(g == cubic(xi));
    // g yn^2 = 4 l6 + xn^3
    lemma_cong_mul(yn, pyn, yn, pyn);
    lemma_cong_mul(g, g, y_num_sq_0_0(xi), pyn * pyn);
    lemma_cong_mul(xn, pxn, xn, pxn);
    lemma_cong_mul(xn, pxn, x_num_sq_0_0(xi), pxn * pxn);
    lemma_cong_mul(4, 4, l6, (l * (l * l)) * (l * (l * l)));
    lemma_cong_add(4 * l6, 4 * ((l * (l * l)) * (l * (l * l))), x_num_cube_0_0(xi), pxn * (pxn * pxn));
}

/// Law: the isogeny maps a point `(x, y)` of E' to a point of E,
/// `Y^2 = X^3 + 4`, wherever its x-denominator has an inverse (in Fq,
/// wherever it is not 0; where it is 0, the image is the identity, which
/// the map does not handle).
pub proof fn lemma_iso_map_on_curve(x: nat, y: nat)
    requires
        x < modulus(),
        y < modulus(),
        fsq(y) == iso_curve_rhs(x),
        iso_denominator_invertible(x),
    ensures
        fsq(iso_map_spec(x, y).1) == fadd(fmul(fsq(iso_map_spec(x, y).0), iso_map_spec(x, y).0), 4),
{
    lemma_isogeny_polynomials(x);
    let xi = x as int;
    let l = den_root_0(xi);
    let l3 = l * (l * l);
    let xd = poly_eval(iso_x_den(), x);
    let yd = poly_eval(iso_y_den(), x);
    let xn = poly_eval(iso_x_num(), x);
    let yn = poly_eval(iso_y_num(), x);
    let m = modulus() as int;
    lemma_small_mod(1, modulus());
    // the inverse w of the x-denominator, and u = l w, the inverse of l
    let w = choose|w: nat| is_inverse(xd, w);
    lemma_finv_is(xd, w);
    assert(cong((xd * w) as int, 1));
    let u = l * w;
    lemma_cong_mul(l * l, xd as int, w as int, w as int);
    assert(l * u == (l * l) * w) by (nonlinear_arith)
        requires
            u == l * w,
    ;
    assert(cong(l * u, 1));
    // s = u^2 = w
    let s = u * u;
    assert(s == ((l * l) * w) * w) by (nonlinear_arith)
        requires
            u == l * w,
            s == u * u,
    ;
    lemma_cong_mul((l * l) * w, 1, w as int, w as int);
    assert(cong(s, w as int));
    // t = u^3 inverts the y-denominator
    let t = u * s;
    assert(l3 * t == (l * u) * ((l * u) * (l * u))) by (nonlinear_arith)
        requires
            l3 == l * (l * l),
            t == u * s,
            s == u * u,
    ;
    lemma_cong_mul(l * u, 1, l * u, 1);
    lemma_cong_mul(l * u, 1, (l * u) * (l * u), 1);
    assert(cong(l3 * t, 1));
    let w3 = (t % m) as nat;
    vstd::arithmetic::div_mod::lemma_mod_bound(t, m);
    lemma_small_mod(w3, modulus());
    vstd::arithmetic::div_mod::lemma_mod_twice(t, m);
    lemma_cong_mul(yd as int, l3, w3 as int, t);
    lemma_is_inverse_from_cong(yd, w3);
    lemma_finv_is(yd, w3);
    // X = xn s and Y = yn y t, modulo p
    let img = iso_map_spec(x, y);
    let bx = img.0;
    let by = img.1;
    lemma_fmul_cong(xn, w);
    lemma_cong_mul(xn as int, xn as int, w as int, s);
    assert(cong(bx as int, xn * s));
    let yny = fmul(yn, y);
    lemma_fmul_cong(yn, y);
    lemma_fmul_cong(yny, w3);
    lemma_cong_mul(yny as int, (yn * y) as int, w3 as int, t);
    assert(cong(by as int, (yn * y) * t));
    // Y^2 = y^2 yn^2 t^2 = (4 l3^2 + xn^3) t^2 = 4 (l3 t)^2 + (xn s)^3
    let yy = (yn * y) * t;
    lemma_fsq_cong(by);
    lemma_cong_mul(by as int, yy, by as int, yy);
    assert(yy * yy == ((y * y) * (yn * yn)) * (t * t)) by (nonlinear_arith)
        requires
            yy == (yn * y) * t,
    ;
    lemma_fsq_cong(y);
    lemma_rhs_cong(x);
    lemma_cong_mul((y * y) as int, cubic(xi), (yn * yn) as int, (yn * yn) as int);
    lemma_cong_mul(
        ((y * y) * (yn * yn)) as int,
        4 * (l3 * l3) + xn * (xn * xn),
        t * t,
        t * t,
    );
    let xs = xn * s;
    assert((4 * (l3 * l3) + xn * (xn * xn)) * (t * t) == 4 * ((l3 * t) * (l3 * t)) + xs * (xs
        * xs)) by (nonlinear_arith)
        requires
            t == u * s,
            s == u * u,
            xs == xn * s,
    ;
    lemma_cong_mul(l3 * t, 1, l3 * t, 1);
    lemma_cong_mul(4, 4, (l3 * t) * (l3 * t), 1);
    lemma_cong_add(4 * ((l3 * t) * (l3 * t)), 4, xs * (xs * xs), xs * (xs * xs));
    assert(cong(fsq(by) as int, 4 + xs * (xs * xs)));
    // X^3 + 4
    lemma_cong_mul(bx as int, xs, bx as int, xs);
    lemma_cong_mul(bx as int, xs, (bx * bx) as int, xs * xs);
    lemma_fsq_cong(bx);
    lemma_fmul_cong(fsq(bx), bx);
    lemma_cong_mul(fsq(bx) as int, (bx * bx) as int, bx as int, bx as int);
    assert((bx * bx) * bx == bx * (bx * bx)) by (nonlinear_arith);
    assert(xs * (xs * xs) == xs * (xs * xs));
    lemma_fadd_cong(fmul(fsq(bx), bx), 4);
    lemma_cong_add(fmul(fsq(bx), bx) as int, xs * (xs * xs), 4, 4);
    lemma_cong_canonical(fsq(by), fadd(fmul(fsq(bx), bx), 4));
}


/// `poly_eval` gives a value of Fq.
proof fn lemma_poly_eval_bound(c: Seq<nat>, x: nat)
    ensures
        poly_eval(c, x) < modulus(),
{
    if c.len() > 0 {
        lemma_fadd_cong(c[0], fmul(x, poly_eval(c.drop_first(), x)));
    }
}

/// Where the x-denominator is invertible, so is the y-denominator.
proof fn lemma_y_den_invertible(x: nat)
    requires
        iso_denominator_invertible(x),
    ensures
        is_inverse(poly_eval(iso_x_den(), x), finv0(poly_eval(iso_x_den(), x))),
        is_inverse(poly_eval(iso_y_den(), x), finv0(poly_eval(iso_y_den(), x))),
{
    lemma_isogeny_polynomials(x);
    let l = den_root_0(x as int);
    let l3 = l * (l * l);
    let xd = poly_eval(iso_x_den(), x);
    let yd = poly_eval(iso_y_den(), x);
    let m = modulus() as int;
    lemma_small_mod(1, modulus());
    let w = choose|w: nat| is_inverse(xd, w);
    lemma_finv_is(xd, w);
    lemma_cong_mul(l * l, xd as int, w as int, w as int);
    let u = l * w;
    assert(l * u == (l * l) * w) by (nonlinear_arith)
        requires
            u == l * w,
    ;
    let t = u * (u * u);
    assert(l3 * t == (l * u) * ((l * u) * (l * u))) by (nonlinear_arith)
        requires
            l3 == l * (l * l),
            t == u * (u * u),
    ;
    lemma_cong_mul(l * u, 1, l * u, 1);
    lemma_cong_mul(l * u, 1, (l * u) * (l * u), 1);
    let w3 = (t % m) as nat;
    vstd::arithmetic::div_mod::lemma_mod_bound(t, m);
    vstd::arithmetic::div_mod::lemma_mod_twice(t, m);
    lemma_cong_mul(yd as int, l3, w3 as int, t);
    lemma_is_inverse_from_cong(yd, w3);
    lemma_finv_is(yd, w3);
}

/// Law: where the x-denominator is invertible, the image `(X, Y)` of
/// `(x, y)` solves `X x_den(x) = x_num(x)` and `Y y_den(x) = y y_num(x)`.
pub proof fn lemma_iso_map_equations(x: nat, y: nat)
    requires
        iso_denominator_invertible(x),
    ensures
        fmul(iso_map_spec(x, y).0, poly_eval(iso_x_den(), x)) == poly_eval(iso_x_num(), x),
        fmul(iso_map_spec(x, y).1, poly_eval(iso_y_den(), x)) == fmul(y, poly_eval(iso_y_num(), x)),
{
    lemma_y_den_invertible(x);
    let xd = poly_eval(iso_x_den(), x);
    let yd = poly_eval(iso_y_den(), x);
    let xn = poly_eval(iso_x_num(), x);
    let yn = poly_eval(iso_y_num(), x);
    let ix = finv0(xd);
    let iy = finv0(yd);
    lemma_poly_eval_bound(iso_x_num(), x);
    lemma_small_mod(1, modulus());
    lemma_small_mod(xn, modulus());
    // X xd = xn ix xd = xn
    let bx = fmul(xn, ix);
    lemma_fmul_cong(xn, ix);
    lemma_fmul_cong(bx, xd);
    lemma_fmul_cong(xd, ix);
    lemma_cong_mul(bx as int, (xn * ix) as int, xd as int, xd as int);
    assert((xn * ix) * xd == xn * (xd * ix)) by (nonlinear_arith);
    lemma_cong_mul(xn as int, xn as int, (xd * ix) as int, 1);
    lemma_cong_canonical(fmul(bx, xd), xn);
    // Y yd = yn y iy yd = y yn
    let yny = fmul(yn, y);
    let by = fmul(yny, iy);
    lemma_fmul_cong(yn, y);
    lemma_fmul_cong(yny, iy);
    lemma_fmul_cong(by, yd);
    lemma_fmul_cong(yd, iy);
    lemma_fmul_cong(y, yn);
    lemma_cong_mul(by as int, (yny * iy) as int, yd as int, yd as int);
    assert((yny * iy) * yd == yny * (yd * iy)) by (nonlinear_arith);
    lemma_cong_mul(yny as int, (yn * y) as int, (yd * iy) as int, 1);
    assert(yn * y == y * yn) by (nonlinear_arith);
    lemma_cong_canonical(fmul(by, yd), fmul(y, yn));
}

/// Law: where the x-denominator vanishes, so does the y-denominator, and
/// the image is `(0, 0)` (the identity, which the map does not handle).
pub proof fn lemma_iso_map_at_pole(x: nat, y: nat)
    requires
        poly_eval(iso_x_den(), x) == 0,
    ensures
        iso_map_spec(x, y) == (0nat, 0nat),
{
    lemma_isogeny_polynomials(x);
    let l = den_root_0(x as int);
    let yd = poly_eval(iso_y_den(), x);
    lemma_small_mod(0, modulus());
    lemma_cong_mul(l, l, l * l, 0);
    assert(l * 0 == 0);
    lemma_poly_eval_bound(iso_y_den(), x);
    lemma_small_mod(yd, modulus());
    assert(yd == 0);
    assert(finv0(0) == 0);
    assert(fmul(poly_eval(iso_x_num(), x), 0) == 0);
    assert(fmul(fmul(poly_eval(iso_y_num(), x), y), 0) == 0);
}

/// Law: the isogeny is odd in `y`: `(x, -y)` goes to `(X, -Y)`.
pub proof fn lemma_iso_map_odd(x: nat, y: nat)
    ensures
        iso_map_spec(x, fneg(y)) == (iso_map_spec(x, y).0, fneg(iso_map_spec(x, y).1)),
{
    let yn = poly_eval(iso_y_num(), x);
    let iy = finv0(poly_eval(iso_y_den(), x));
    lemma_fmul_fneg(yn, y);
    lemma_fmul_fneg(fmul(yn, y), iy);
}

} // verus!
