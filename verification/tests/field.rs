use drand_bench::field::{fe_add, fe_inverse, fe_mul, fe_neg, fe_sqrt, fe_square, Fe};
use drand_bench::isogeny::{batch_inversion, evaluate, iso_map_swu};
use drand_bench::swu::{map_to_curve_simple_swu, sgn0, sqrt_ratio};

const P_LIMBS: [u64; 6] = [
    0xb9feffffffffaaab,
    0x1eabfffeb153ffff,
    0x6730d2a0f6b0f624,
    0x64774b84f38512bf,
    0x4b1ba7b6434bacd7,
    0x1a0111ea397fe69a,
];

fn limbs_of_hex(s: &str) -> [u64; 6] {
    let digits = s.trim_start_matches("0x");
    let padded = format!("{:0>96}", digits);
    let mut limbs = [0u64; 6];
    for i in 0..6 {
        let start = 96 - 16 * (i + 1);
        limbs[i] = u64::from_str_radix(&padded[start..start + 16], 16).unwrap();
    }
    limbs
}

fn p_minus(k: u64) -> [u64; 6] {
    let mut l = P_LIMBS;
    l[0] -= k;
    l
}

#[test]
fn from_limbs_accepts_exactly_canonical_values() {
    assert!(Fe::from_limbs(P_LIMBS).is_none());
    assert!(Fe::from_limbs([u64::MAX; 6]).is_none());
    let mut above = P_LIMBS;
    above[0] += 1;
    assert!(Fe::from_limbs(above).is_none());
    assert_eq!(Fe::from_limbs(p_minus(1)).unwrap().limbs(), p_minus(1));
    assert_eq!(Fe::from_limbs([5, 0, 0, 0, 0, 0]).unwrap().limbs(), [5, 0, 0, 0, 0, 0]);
    let mut below = P_LIMBS;
    below[5] -= 1;
    assert!(Fe::from_limbs(below).is_some());
}

#[test]
fn field_operations() {
    let two = Fe::from_u64(2);
    let three = Fe::from_u64(3);
    assert_eq!(fe_add(&two, &three).limbs(), [5, 0, 0, 0, 0, 0]);
    assert_eq!(fe_mul(&two, &three).limbs(), [6, 0, 0, 0, 0, 0]);
    assert_eq!(fe_square(&three).limbs(), [9, 0, 0, 0, 0, 0]);
    assert_eq!(fe_neg(&Fe::one()).limbs(), p_minus(1));
    assert_eq!(fe_neg(&Fe::zero()).limbs(), [0; 6]);
    let p_minus_one = Fe::from_limbs(p_minus(1)).unwrap();
    assert_eq!(fe_add(&p_minus_one, &two).limbs(), [1, 0, 0, 0, 0, 0]);
    assert_eq!(fe_mul(&p_minus_one, &p_minus_one).limbs(), [1, 0, 0, 0, 0, 0]);
}

#[test]
fn inverse_of_nonzero_and_zero() {
    assert!(fe_inverse(&Fe::zero()).is_none());
    let inv2 = fe_inverse(&Fe::from_u64(2)).unwrap();
    assert_eq!(
        inv2.limbs(),
        limbs_of_hex("0xd0088f51cbff34d258dd3db21a5d66bb23ba5c279c2895fb39869507b587b120f55ffff58a9ffffdcff7fffffffd556")
    );
    assert_eq!(fe_mul(&inv2, &Fe::from_u64(2)).limbs(), [1, 0, 0, 0, 0, 0]);
}

#[test]
fn sqrt_of_squares_and_non_squares() {
    // 4 has the roots 2 and p - 2; a^((p + 1) / 4) is p - 2
    assert_eq!(fe_sqrt(&Fe::from_u64(4)).unwrap().limbs(), p_minus(2));
    assert!(fe_sqrt(&Fe::from_u64(2)).is_none());
    assert!(fe_sqrt(&Fe::from_u64(3)).is_none());
    assert_eq!(fe_sqrt(&Fe::zero()).unwrap().limbs(), [0; 6]);
}

#[test]
fn sgn0_is_parity() {
    assert!(sgn0(&Fe::one()));
    assert!(!sgn0(&Fe::zero()));
    assert!(!sgn0(&Fe::from_limbs(p_minus(1)).unwrap()));
    assert!(sgn0(&Fe::from_limbs(p_minus(2)).unwrap()));
}

#[test]
fn sqrt_ratio_square_case() {
    let (is_qr, root) = sqrt_ratio(&Fe::from_u64(4), &Fe::one());
    assert!(is_qr);
    assert_eq!(root.limbs(), p_minus(2));
}

#[test]
fn sqrt_ratio_non_square_case() {
    // 1 / 11 is not a square, 11 * 1 / 11 = 1 is
    let (is_qr, root) = sqrt_ratio(&Fe::one(), &Fe::from_u64(11));
    assert!(!is_qr);
    assert_eq!(root.limbs(), [1, 0, 0, 0, 0, 0]);
}

#[test]
fn map_to_curve_exceptional_zero() {
    // u = 0 makes the denominator vanish: x = B' / (Z A')
    let u = Fe::zero();
    let (x, y) = map_to_curve_simple_swu(&u);
    assert_eq!(
        x.limbs(),
        limbs_of_hex("0x123939a31626a32de772bc7a591ea140683bca0c62efb105310d5ce1d27d1aadf79a5d5cbe8e2c4ff7d4816af76d2814")
    );
    assert_eq!(
        y.limbs(),
        limbs_of_hex("0x5be3446f07e910e291153e84f1dabd3dfe5c2b1080d8b6a640425c3826f2a429373f9bab7e8308f6dd10ffa11124dbc")
    );
}

#[test]
fn map_to_curve_lands_on_the_curve_with_the_sign_of_u() {
    let a = Fe::from_limbs([
        0x5cf428082d584c1d,
        0x98936f8da0e0f97f,
        0xd8e8981aefd881ac,
        0xb0ea985383ee66a8,
        0x3d693a02c96d4982,
        0x00144698a3b8e943,
    ])
    .unwrap();
    let b = Fe::from_limbs([
        0xd1cc48e98e172be0,
        0x5a23215a316ceaa5,
        0xa0b9c14fcef35ef5,
        0x2016c1f0f24f4070,
        0x018b12e8753eee3b,
        0x12e2908d11688030,
    ])
    .unwrap();
    let mut inputs: Vec<Fe> = (0u64..40).map(Fe::from_u64).collect();
    inputs.push(Fe::from_limbs(p_minus(1)).unwrap());
    inputs.push(Fe::from_limbs(p_minus(2)).unwrap());
    for u in inputs {
        let (x, y) = map_to_curve_simple_swu(&u);
        let rhs = fe_add(&fe_add(&fe_mul(&fe_square(&x), &x), &fe_mul(&a, &x)), &b);
        assert_eq!(fe_square(&y).limbs(), rhs.limbs());
        assert!(!y.is_zero());
        assert_eq!(sgn0(&y), sgn0(&u));
    }
}

#[test]
fn horner_evaluation() {
    let c = vec![Fe::from_u64(1), Fe::from_u64(2), Fe::from_u64(3)];
    assert_eq!(evaluate(&c, &Fe::from_u64(2)).limbs(), [17, 0, 0, 0, 0, 0]);
    assert_eq!(evaluate(&Vec::new(), &Fe::from_u64(2)).limbs(), [0; 6]);
}

#[test]
fn batch_inversion_skips_zeros() {
    let mut v = vec![Fe::from_u64(2), Fe::zero(), Fe::from_u64(3)];
    batch_inversion(&mut v);
    assert_eq!(
        v[0].limbs(),
        limbs_of_hex("0xd0088f51cbff34d258dd3db21a5d66bb23ba5c279c2895fb39869507b587b120f55ffff58a9ffffdcff7fffffffd556")
    );
    assert_eq!(v[1].limbs(), [0; 6]);
    assert_eq!(
        v[2].limbs(),
        limbs_of_hex("0x11560bf17baa99bc32126fced787c88f984f87adf7ae0c7f9a208c6b4f20a4181472aaa9cb8d555526a9ffffffffc71d")
    );
}

#[test]
fn map_to_curve_of_negation_mirrors_the_point() {
    for k in 1u64..20 {
        let u = Fe::from_u64(k);
        let (x, y) = map_to_curve_simple_swu(&u);
        let (nx, ny) = map_to_curve_simple_swu(&fe_neg(&u));
        assert_eq!(nx.limbs(), x.limbs());
        assert_eq!(ny.limbs(), fe_neg(&y).limbs());
    }
}

#[test]
fn sqrt_ratio_of_zero_numerator() {
    let (is_qr, root) = sqrt_ratio(&Fe::zero(), &Fe::from_u64(5));
    assert!(is_qr);
    assert_eq!(root.limbs(), [0; 6]);
}

#[test]
fn isogeny_image_lies_on_g1_curve() {
    let four = Fe::from_u64(4);
    for k in 0u64..30 {
        let u = Fe::from_u64(k);
        let (x, y) = map_to_curve_simple_swu(&u);
        let (bx, by) = iso_map_swu(&x, &y);
        let rhs = fe_add(&fe_mul(&fe_square(&bx), &bx), &four);
        assert_eq!(fe_square(&by).limbs(), rhs.limbs());
        assert!(!by.is_zero());
    }
}
