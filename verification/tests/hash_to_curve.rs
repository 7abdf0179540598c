use drand_bench::field::{fe_add, fe_mul, fe_square, Fe};
use drand_bench::hash_to_curve::{bls12_381_hash_to_g1, hash_field_elements_to_g1, hash_to_field_pair, G1Point};
use drand_bench::isogeny::iso_map_swu;
use drand_bench::swu::map_to_curve_simple_swu;

const DST: &str = "QUUX-V01-CS02-with-BLS12381G1_XMD:SHA-256_SSWU_RO_";

struct Vector {
    msg: String,
    u: [&'static str; 2],
    q0: [&'static str; 2],
    q1: [&'static str; 2],
    p: [&'static str; 2],
}

fn limbs_of_hex(s: &str) -> [u64; 6] {
    let digits = s.trim_start_matches("0x");
    let padded = format!("{:0>96}", digits);
    let mut limbs = [0u64; 6];
    for i in 0..6 {
        let start = 96 - 16 * (i + 1);
        limbs[i] = u64::from_str_radix(&padded[start..start + 16], 16).unwrap();
    }
    limbs
}

fn fe(s: &str) -> Fe {
    Fe::from_limbs(limbs_of_hex(s)).unwrap()
}

fn assert_point(p: &G1Point, xy: [&str; 2]) {
    assert!(!p.infinity);
    assert_eq!(p.x.limbs(), limbs_of_hex(xy[0]));
    assert_eq!(p.y.limbs(), limbs_of_hex(xy[1]));
}

fn vector_empty() -> Vector {
    Vector {
        msg: String::new(),
        u: ["0x0ba14bd907ad64a016293ee7c2d276b8eae71f25a4b941eece7b0d89f17f75cb3ae5438a614fb61d6835ad59f29c564f", "0x019b9bd7979f12657976de2884c7cce192b82c177c80e0ec604436a7f538d231552f0d96d9f7babe5fa3b19b3ff25ac9"],
        q0: ["0x11a3cce7e1d90975990066b2f2643b9540fa40d6137780df4e753a8054d07580db3b7f1f03396333d4a359d1fe3766fe", "0x0eeaf6d794e479e270da10fdaf768db4c96b650a74518fc67b04b03927754bac66f3ac720404f339ecdcc028afa091b7"],
        q1: ["0x160003aaf1632b13396dbad518effa00fff532f604de1a7fc2082ff4cb0afa2d63b2c32da1bef2bf6c5ca62dc6b72f9c", "0x0d8bb2d14e20cf9f6036152ed386d79189415b6d015a20133acb4e019139b94e9c146aaad5817f866c95d609a361735e"],
        p: ["0x052926add2207b76ca4fa57a8734416c8dc95e24501772c814278700eed6d1e4e8cf62d9c09db0fac349612b759e79a1", "0x08ba738453bfed09cb546dbb0783dbb3a5f1f566ed67bb6be0e8c67e2e81a4cc68ee29813bb7994998f3eae0c9c6a265"],
    }
}

fn vector_abc() -> Vector {
    Vector {
        msg: String::from("abc"),
        u: ["0x0d921c33f2bad966478a03ca35d05719bdf92d347557ea166e5bba579eea9b83e9afa5c088573c2281410369fbd32951", "0x003574a00b109ada2f26a37a91f9d1e740dffd8d69ec0c35e1e9f4652c7dba61123e9dd2e76c655d956e2b3462611139"],
        q0: ["0x125435adce8e1cbd1c803e7123f45392dc6e326d292499c2c45c5865985fd74fe8f042ecdeeec5ecac80680d04317d80", "0x0e8828948c989126595ee30e4f7c931cbd6f4570735624fd25aef2fa41d3f79cfb4b4ee7b7e55a8ce013af2a5ba20bf2"],
        q1: ["0x11def93719829ecda3b46aa8c31fc3ac9c34b428982b898369608e4f042babee6c77ab9218aad5c87ba785481eff8ae4", "0x0007c9cef122ccf2efd233d6eb9bfc680aa276652b0661f4f820a653cec1db7ff69899f8e52b8e92b025a12c822a6ce6"],
        p: ["0x03567bc5ef9c690c2ab2ecdf6a96ef1c139cc0b2f284dca0a9a7943388a49a3aee664ba5379a7655d3c68900be2f6903", "0x0b9c15f3fe6e5cf4211f346271d7b01c8f3b28be689c8429c85b67af215533311f0b8dfaaa154fa6b88176c229f2885d"],
    }
}

fn vector_abcdef() -> Vector {
    Vector {
        msg: String::from("abcdef0123456789"),
        u: ["0x062d1865eb80ebfa73dcfc45db1ad4266b9f3a93219976a3790ab8d52d3e5f1e62f3b01795e36834b17b70e7b76246d4", "0x0cdc3e2f271f29c4ff75020857ce6c5d36008c9b48385ea2f2bf6f96f428a3deb798aa033cd482d1cdc8b30178b08e3a"],
        q0: ["0x08834484878c217682f6d09a4b51444802fdba3d7f2df9903a0ddadb92130ebbfa807fffa0eabf257d7b48272410afff", "0x0b318f7ecf77f45a0f038e62d7098221d2dbbca2a394164e2e3fe953dc714ac2cde412d8f2d7f0c03b259e6795a2508e"],
        q1: ["0x158418ed6b27e2549f05531a8281b5822b31c3bf3144277fbb977f8d6e2694fedceb7011b3c2b192f23e2a44b2bd106e", "0x1879074f344471fac5f839e2b4920789643c075792bec5af4282c73f7941cda5aa77b00085eb10e206171b9787c4169f"],
        p: ["0x11e0b079dea29a68f0383ee94fed1b940995272407e3bb916bbf268c263ddd57a6a27200a784cbc248e84f357ce82d98", "0x03a87ae2caf14e8ee52e51fa2ed8eefe80f02457004ba4d486d6aa1f517c0889501dc7413753f9599b099ebcbbd2d709"],
    }
}

fn vector_q128() -> Vector {
    Vector {
        msg: format!("q128_{}", "q".repeat(128)),
        u: ["0x010476f6a060453c0b1ad0b628f3e57c23039ee16eea5e71bb87c3b5419b1255dc0e5883322e563b84a29543823c0e86", "0x0b1a912064fb0554b180e07af7e787f1f883a0470759c03c1b6509eb8ce980d1670305ae7b928226bb58fdc0a419f46e"],
        q0: ["0x0cbd7f84ad2c99643fea7a7ac8f52d63d66cefa06d9a56148e58b984b3dd25e1f41ff47154543343949c64f88d48a710", "0x052c00e4ed52d000d94881a5638ae9274d3efc8bc77bc0e5c650de04a000b2c334a9e80b85282a00f3148dfdface0865"],
        q1: ["0x06493fb68f0d513af08be0372f849436a787e7b701ae31cb964d968021d6ba6bd7d26a38aaa5a68e8c21a6b17dc8b579", "0x02e98f2ccf5802b05ffaac7c20018bc0c0b2fd580216c4aa2275d2909dc0c92d0d0bdc979226adeb57a29933536b6bb4"],
        p: ["0x15f68eaa693b95ccb85215dc65fa81038d69629f70aeee0d0f677cf22285e7bf58d7cb86eefe8f2e9bc3f8cb84fac488", "0x1807a1d50c29f430b8cafc4f8638dfeeadf51211e1602a5f184443076715f91bb90a48ba1e370edce6ae1062f5e6dd38"],
    }
}

fn vector_a512() -> Vector {
    Vector {
        msg: format!("a512_{}", "a".repeat(512)),
        u: ["0x0a8ffa7447f6be1c5a2ea4b959c9454b431e29ccc0802bc052413a9c5b4f9aac67a93431bd480d15be1e057c8a08e8c6", "0x05d487032f602c90fa7625dbafe0f4a49ef4a6b0b33d7bb349ff4cf5410d297fd6241876e3e77b651cfc8191e40a68b7"],
        q0: ["0x0cf97e6dbd0947857f3e578231d07b309c622ade08f2c08b32ff372bd90db19467b2563cc997d4407968d4ac80e154f8", "0x127f0cddf2613058101a5701f4cb9d0861fd6c2a1b8e0afe194fccf586a3201a53874a2761a9ab6d7220c68661a35ab3"],
        q1: ["0x092f1acfa62b05f95884c6791fba989bbe58044ee6355d100973bf9553ade52b47929264e6ae770fb264582d8dce512a", "0x028e6d0169a72cfedb737be45db6c401d3adfb12c58c619c82b93a5dfcccef12290de530b0480575ddc8397cda0bbebf"],
        p: ["0x082aabae8b7dedb0e78aeb619ad3bfd9277a2f77ba7fad20ef6aabdc6c31d19ba5a6d12283553294c1825c4b3ca2dcfe", "0x05b84ae5a942248eea39e1d91030458c40153f3b654ab7872d779ad1e942856a20c438e8d99bc8abfbf74729ce1f7ac8"],
    }
}

fn check_hash_to_field(v: &Vector) {
    let (u0, u1) = hash_to_field_pair(v.msg.as_bytes(), DST);
    assert_eq!(u0.limbs(), limbs_of_hex(v.u[0]));
    assert_eq!(u1.limbs(), limbs_of_hex(v.u[1]));
}

fn check_map_to_curve(u: &str, q: [&str; 2]) {
    let u = fe(u);
    let (x, y) = map_to_curve_simple_swu(&u);
    let (x, y) = iso_map_swu(&x, &y);
    assert_eq!(x.limbs(), limbs_of_hex(q[0]));
    assert_eq!(y.limbs(), limbs_of_hex(q[1]));
}

fn check_hash(v: &Vector) {
    let p = bls12_381_hash_to_g1(v.msg.as_bytes(), DST);
    assert_point(&p, v.p);
    let q = hash_field_elements_to_g1(&fe(v.u[0]), &fe(v.u[1]));
    assert_point(&q, v.p);
}

#[test]
fn hash_to_field_empty() {
    check_hash_to_field(&vector_empty());
}

#[test]
fn map_to_curve_empty() {
    let v = vector_empty();
    check_map_to_curve(v.u[0], v.q0);
    check_map_to_curve(v.u[1], v.q1);
}

#[test]
fn hash_to_g1_empty() {
    check_hash(&vector_empty());
}

#[test]
fn hash_to_field_abc() {
    check_hash_to_field(&vector_abc());
}

#[test]
fn map_to_curve_abc() {
    let v = vector_abc();
    check_map_to_curve(v.u[0], v.q0);
    check_map_to_curve(v.u[1], v.q1);
}

#[test]
fn hash_to_g1_abc() {
    check_hash(&vector_abc());
}

#[test]
fn hash_to_field_abcdef() {
    check_hash_to_field(&vector_abcdef());
}

#[test]
fn map_to_curve_abcdef() {
    let v = vector_abcdef();
    check_map_to_curve(v.u[0], v.q0);
    check_map_to_curve(v.u[1], v.q1);
}

#[test]
fn hash_to_g1_abcdef() {
    check_hash(&vector_abcdef());
}

#[test]
fn hash_to_field_q128() {
    check_hash_to_field(&vector_q128());
}

#[test]
fn map_to_curve_q128() {
    let v = vector_q128();
    check_map_to_curve(v.u[0], v.q0);
    check_map_to_curve(v.u[1], v.q1);
}

#[test]
fn hash_to_g1_q128() {
    check_hash(&vector_q128());
}

#[test]
fn hash_to_field_a512() {
    check_hash_to_field(&vector_a512());
}

#[test]
fn map_to_curve_a512() {
    let v = vector_a512();
    check_map_to_curve(v.u[0], v.q0);
    check_map_to_curve(v.u[1], v.q1);
}

#[test]
fn hash_to_g1_a512() {
    check_hash(&vector_a512());
}


#[test]
fn hashed_points_lie_on_the_curve() {
    let four = Fe::from_u64(4);
    for msg in ["", "abc", "abcdef0123456789", "drand"] {
        let p = bls12_381_hash_to_g1(msg.as_bytes(), DST);
        assert!(!p.infinity);
        let rhs = fe_add(&fe_mul(&fe_square(&p.x), &p.x), &four);
        assert_eq!(fe_square(&p.y).limbs(), rhs.limbs());
    }
}
