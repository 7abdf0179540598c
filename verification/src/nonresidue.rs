//! A certificate that 11, the Z of the SWU map, is a quadratic non-residue
//! in Fq: `11^((p - 1) / 2) = -1 (mod p)`, checked by square-and-multiply
//! along the binary digits of `(p - 1) / 2`.

use crate::field::modulus;
use vstd::arithmetic::power::{lemma_pow1, lemma_pow_adds, pow};
use vstd::prelude::*;

verus! {

/// `(p - 1) / 2`.
pub open spec fn half_order() -> nat {
    0xd0088f51cbff34d258dd3db21a5d66bb23ba5c279c2895fb39869507b587b120f55ffff58a9ffffdcff7fffffffd555nat
}

/// One step of square-and-multiply: from `b^m = r` to `b^(2m + bit) = r2`,
/// where `r r f = q p + r2` with `f = b^bit`.
proof fn lemma_pow_step(b: int, m: nat, bit: nat, r: int, r2: int, q: int)
    requires
        bit <= 1,
        pow(b, m) % (modulus() as int) == r,
        0 <= r2 < modulus(),
        r * r * (if bit == 1 { b } else { 1 }) == q * (modulus() as int) + r2,
    ensures
        pow(b, 2 * m + bit) % (modulus() as int) == r2,
{
    let pm = modulus() as int;
    let f: int = if bit == 1 { b } else { 1 };
    lemma_pow_adds(b, m, m);
    lemma_pow_adds(b, m + m, bit);
    vstd::arithmetic::power::lemma_pow0(b);
    lemma_pow1(b);
    assert(pow(b, bit) == f);
    assert(2 * m + bit == (m + m) + bit);
    let x = pow(b, m);
    assert(pow(b, 2 * m + bit) == x * x * f);
    vstd::arithmetic::div_mod::lemma_mul_mod_noop(x * x, f, pm);
    vstd::arithmetic::div_mod::lemma_mul_mod_noop(x, x, pm);
    vstd::arithmetic::div_mod::lemma_mul_mod_noop(r * r, f, pm);
    vstd::arithmetic::div_mod::lemma_mod_twice(r * r, pm);
    vstd::arithmetic::div_mod::lemma_small_mod(r as nat, modulus());
    vstd::arithmetic::div_mod::lemma_fundamental_div_mod_converse_mod(r * r * f, pm, q, r2);
}

proof fn lemma_z_pow_part_0()
    ensures
        pow(11, 0x680nat) % (modulus() as int) == 0xdf8c982a5e5690a01c11209b3efa83a6726fed48907043f9b30d424b4c9c90ed49895acdeae452c849c93bec6ebcf5bint,
{
    lemma_pow1(11);
    vstd::arithmetic::div_mod::lemma_small_mod(11, modulus());
    assert(pow(11, 0x3nat) % (modulus() as int) == 0x533int) by {
        lemma_pow_step(11, 0x1nat, 1, 0xbint, 0x533int, 0x0int);
    }
    assert(pow(11, 0x6nat) % (modulus() as int) == 0x1b0829int) by {
        lemma_pow_step(11, 0x3nat, 0, 0x533int, 0x1b0829int, 0x0int);
    }
    assert(pow(11, 0xdnat) % (modulus() as int) == 0x1f65f1fe783bint) by {
        lemma_pow_step(11, 0x6nat, 1, 0x1b0829int, 0x1f65f1fe783bint, 0x0int);
    }
    assert(pow(11, 0x1anat) % (modulus() as int) == 0x3d9d93478aa43dfe38b5d99int) by {
        lemma_pow_step(11, 0xdnat, 0, 0x1f65f1fe783bint, 0x3d9d93478aa43dfe38b5d99int, 0x0int);
    }
    assert(pow(11, 0x34nat) % (modulus() as int) == 0xed4792e128d9036023a0d155939e8e93f9a6a1c5e8571int) by {
        lemma_pow_step(11, 0x1anat, 0, 0x3d9d93478aa43dfe38b5d99int, 0xed4792e128d9036023a0d155939e8e93f9a6a1c5e8571int, 0x0int);
    }
    assert(pow(11, 0x68nat) % (modulus() as int) == 0xdbed99f7b2cc11403d21a773646b17bd8d5a9a19330c9d84c6a096d7dc28d3f4ef5a520a5a999545aafc8a9be1int) by {
        lemma_pow_step(11, 0x34nat, 0, 0xed4792e128d9036023a0d155939e8e93f9a6a1c5e8571int, 0xdbed99f7b2cc11403d21a773646b17bd8d5a9a19330c9d84c6a096d7dc28d3f4ef5a520a5a999545aafc8a9be1int, 0x0int);
    }
    assert(pow(11, 0xd0nat) % (modulus() as int) == 0x774d6a9b0499ebae454ec4a597a11c3e45ad5926f3ec5afd9e6b5d93ec71126cb68c8848581a8b9e3dca0159152fff6int) by {
        lemma_pow_step(11, 0x68nat, 0, 0xdbed99f7b2cc11403d21a773646b17bd8d5a9a19330c9d84c6a096d7dc28d3f4ef5a520a5a999545aafc8a9be1int, 0x774d6a9b0499ebae454ec4a597a11c3e45ad5926f3ec5afd9e6b5d93ec71126cb68c8848581a8b9e3dca0159152fff6int, 0x74405fdb1a0f8d64e3756b996e23b565325f1c320cef0ceec727f2ad4f9370a35333c49f5cbec2fe2b361int);
    }
    assert(pow(11, 0x1a0nat) % (modulus() as int) == 0x160d64cdd2aa03c2424566a4950d086e4946af41e57978fcf5377428293b0334d4fce7762f08bd9a1cc88c343deb59f2int) by {
        lemma_pow_step(11, 0xd0nat, 0, 0x774d6a9b0499ebae454ec4a597a11c3e45ad5926f3ec5afd9e6b5d93ec71126cb68c8848581a8b9e3dca0159152fff6int, 0x160d64cdd2aa03c2424566a4950d086e4946af41e57978fcf5377428293b0334d4fce7762f08bd9a1cc88c343deb59f2int, 0x223566b224c48eb8047d82f62612455710e6b30ad86adfad25734464b029077f930ea00bc068979c97a63302a1ff356int);
    }
    assert(pow(11, 0x340nat) % (modulus() as int) == 0x6e373e8afd758ab4956b38b21043f95c21d69759cf65bdaa0bdd081219fabb4164ca4e0dbaf6176dea25817ec889cf6int) by {
        lemma_pow_step(11, 0x1a0nat, 0, 0x160d64cdd2aa03c2424566a4950d086e4946af41e57978fcf5377428293b0334d4fce7762f08bd9a1cc88c343deb59f2int, 0x6e373e8afd758ab4956b38b21043f95c21d69759cf65bdaa0bdd081219fabb4164ca4e0dbaf6176dea25817ec889cf6int, 0x12b3765183d57c9eed8e8a9920c2d57298bf72fd3687cdd3836a40f9f05be89c984266b5d8b9a086dd7a49dd9f82a36aint);
    }
    assert(pow(11, 0x680nat) % (modulus() as int) == 0xdf8c982a5e5690a01c11209b3efa83a6726fed48907043f9b30d424b4c9c90ed49895acdeae452c849c93bec6ebcf5bint) by {
        lemma_pow_step(11, 0x340nat, 0, 0x6e373e8afd758ab4956b38b21043f95c21d69759cf65bdaa0bdd081219fabb4164ca4e0dbaf6176dea25817ec889cf6int, 0xdf8c982a5e5690a01c11209b3efa83a6726fed48907043f9b30d424b4c9c90ed49895acdeae452c849c93bec6ebcf5bint, 0x1d32325d3a1c58d0de90c2fec96ddb6b86d3bc385eb5a278c57f533e35a79bac4c200c8cf391d9e03fb5373932dc71bint);
    }
}

proof fn lemma_z_pow_part_1()
    ensures
        pow(11, 0x1a0111nat) % (modulus() as int) == 0x120cdf3e2bbfb4e5cd15c86cb8421186315a45d3c4c98f3831a1aad654c1b1c8c416b29474abc127a2f80b76b9683e7cint,
{
    lemma_z_pow_part_0();
    assert(pow(11, 0xd00nat) % (modulus() as int) == 0x846696aec841cea0c4f12cb0c275471d28d34ccbc959d8306f7abc52ec16f0464062e9bcd499fc2ca22b62eda5a7179int) by {
        lemma_pow_step(11, 0x680nat, 0, 0xdf8c982a5e5690a01c11209b3efa83a6726fed48907043f9b30d424b4c9c90ed49895acdeae452c849c93bec6ebcf5bint, 0x846696aec841cea0c4f12cb0c275471d28d34ccbc959d8306f7abc52ec16f0464062e9bcd499fc2ca22b62eda5a7179int, 0x781c70080b1d08e77309d85e212f1ba1c92e0f18628af2c842205594de50ae958b4732087cd3d59319bf13852a38aa0int);
    }
    assert(pow(11, 0x1a01nat) % (modulus() as int) == 0x194a037c32860a82e4c694cf715a19115f8bcb74c1cf8c8e3f6754a4f83d388fe03d95281b5c49135a3a58c5891911e7int) by {
        lemma_pow_step(11, 0xd00nat, 1, 0x846696aec841cea0c4f12cb0c275471d28d34ccbc959d8306f7abc52ec16f0464062e9bcd499fc2ca22b62eda5a7179int, 0x194a037c32860a82e4c694cf715a19115f8bcb74c1cf8c8e3f6754a4f83d388fe03d95281b5c49135a3a58c5891911e7int, 0x1cf753d179b9481ec0ac4061a5e8ebc0bc5ce3e1754418644150cbf6370d394a484cdc876180757d2c1524559bb23b9cint);
    }
    assert(pow(11, 0x3402nat) % (modulus() as int) == 0x20d1cacbf894439228563baed3077af856faf3c016690dfc7a90805115a28def33e33da76d8e32efde535dd998fcd4fint) by {
        lemma_pow_step(11, 0x1a01nat, 0, 0x194a037c32860a82e4c694cf715a19115f8bcb74c1cf8c8e3f6754a4f83d388fe03d95281b5c49135a3a58c5891911e7int, 0x20d1cacbf894439228563baed3077af856faf3c016690dfc7a90805115a28def33e33da76d8e32efde535dd998fcd4fint, 0x1897fdae24ccfb4a30937403f042b8d450b489d5e3f88cc04e32889eb682349716cd9d8e42196fac991b7fa481d21366int);
    }
    assert(pow(11, 0x6804nat) % (modulus() as int) == 0x14fa1e79e0138bde4fa40807056c0643c7fd95b1999f983c9594e2d4893bad3e25dd6a655e29ec62cf4cb442dc169c57int) by {
        lemma_pow_step(11, 0x3402nat, 0, 0x20d1cacbf894439228563baed3077af856faf3c016690dfc7a90805115a28def33e33da76d8e32efde535dd998fcd4fint, 0x14fa1e79e0138bde4fa40807056c0643c7fd95b1999f983c9594e2d4893bad3e25dd6a655e29ec62cf4cb442dc169c57int, 0x296bc7eb746bd9c6cc0b523a37927aa5536f2d000199c17720d7a59fb9f1d15a58c52211a10e7d923dd58ec497061eint);
    }
    assert(pow(11, 0xd008nat) % (modulus() as int) == 0x1347b0ab8fbbd003f47397f5d95a06e5b9775534cdf3263d44832ca9b1150a17b1786f6fa0bf87256e53e9db7a1fe6f9int) by {
        lemma_pow_step(11, 0x6804nat, 0, 0x14fa1e79e0138bde4fa40807056c0643c7fd95b1999f983c9594e2d4893bad3e25dd6a655e29ec62cf4cb442dc169c57int, 0x1347b0ab8fbbd003f47397f5d95a06e5b9775534cdf3263d44832ca9b1150a17b1786f6fa0bf87256e53e9db7a1fe6f9int, 0x10ebf670e6435ef7de55b640d7f7cce2aa8b1704d5b1b2f5a95dbe387e6a36924055fa0ced9f2f80f5545dd2a0b2bbc8int);
    }
    assert(pow(11, 0x1a011nat) % (modulus() as int) == 0x29abd8feceffda6e9586e2a10ce69ccb929353e38dd66e3ab1e44ba9ea16f6a18a284dc0fe615d4c0448a22eaa03bb1int) by {
        lemma_pow_step(11, 0xd008nat, 1, 0x1347b0ab8fbbd003f47397f5d95a06e5b9775534cdf3263d44832ca9b1150a17b1786f6fa0bf87256e53e9db7a1fe6f9int, 0x29abd8feceffda6e9586e2a10ce69ccb929353e38dd66e3ab1e44ba9ea16f6a18a284dc0fe615d4c0448a22eaa03bb1int, 0x9d3da7fd2f72862dbbf4eec281214f923df377b3d657b8d3f30b8ab7c4240bc879af64c901c0ee5a26411eba5c5b713eint);
    }
    assert(pow(11, 0x34022nat) % (modulus() as int) == 0xd97b262f0db7b50d083ea44a1d7bc87472bd3f24d3aa8c21984b6cd9c6533aefb4f1c4894b30d522d03b61268a4ae0fint) by {
        lemma_pow_step(11, 0x1a011nat, 0, 0x29abd8feceffda6e9586e2a10ce69ccb929353e38dd66e3ab1e44ba9ea16f6a18a284dc0fe615d4c0448a22eaa03bb1int, 0xd97b262f0db7b50d083ea44a1d7bc87472bd3f24d3aa8c21984b6cd9c6533aefb4f1c4894b30d522d03b61268a4ae0fint, 0x42c70deaeae7dd3c565994a346970a43133422da8dec7ef433ee6bfeb5ad3158d6051242d8ab9da367899caa8926f6int);
    }
    assert(pow(11, 0x68044nat) % (modulus() as int) == 0x1603525ec741f26dfb8c1420c4ef7f5bc83d03565b37eb58b93927ff060b68e9266c372a0c359ff97269a7af711ee08bint) by {
        lemma_pow_step(11, 0x34022nat, 0, 0xd97b262f0db7b50d083ea44a1d7bc87472bd3f24d3aa8c21984b6cd9c6533aefb4f1c4894b30d522d03b61268a4ae0fint, 0x1603525ec741f26dfb8c1420c4ef7f5bc83d03565b37eb58b93927ff060b68e9266c372a0c359ff97269a7af711ee08bint, 0x71adc9bd9605da90efed19b31a952cacc869c381b00263f08a6ccae0a8c85663b0cdf87b780dde06eca4faf36568d02int);
    }
    assert(pow(11, 0xd0088nat) % (modulus() as int) == 0x1626084f0d4609e9e801d46b77d9f082c8e0d6ba79169c01797493c520b6e9f9b85cbf965b94417ffac6449d40bea36aint) by {
        lemma_pow_step(11, 0x68044nat, 0, 0x1603525ec741f26dfb8c1420c4ef7f5bc83d03565b37eb58b93927ff060b68e9266c372a0c359ff97269a7af711ee08bint, 0x1626084f0d4609e9e801d46b77d9f082c8e0d6ba79169c01797493c520b6e9f9b85cbf965b94417ffac6449d40bea36aint, 0x12a2650acaca138c4b3a39bd257791dde60b5bb2b670145b4f7ae999b8bf936f832026c295c8a92eda6a54aa4887b82dint);
    }
    assert(pow(11, 0x1a0111nat) % (modulus() as int) == 0x120cdf3e2bbfb4e5cd15c86cb8421186315a45d3c4c98f3831a1aad654c1b1c8c416b29474abc127a2f80b76b9683e7cint) by {
        lemma_pow_step(11, 0xd0088nat, 1, 0x1626084f0d4609e9e801d46b77d9f082c8e0d6ba79169c01797493c520b6e9f9b85cbf965b94417ffac6449d40bea36aint, 0x120cdf3e2bbfb4e5cd15c86cb8421186315a45d3c4c98f3831a1aad654c1b1c8c416b29474abc127a2f80b76b9683e7cint, 0xcf82c33dfec2e75859582d3a258ffba230cc4a2fdfb0cf17903ca782719610b154b1b37e9958855ec127deaf6b6468f0int);
    }
}

proof fn lemma_z_pow_part_2()
    ensures
        pow(11, 0x680447a8nat) % (modulus() as int) == 0xec7e203fb194a3e66d42a6069754ee5ab1de02840dda412790f12ca1a0da15a9d4fee59283a1f6a4da0b6a9a2022769int,
{
    lemma_z_pow_part_1();
    assert(pow(11, 0x340223nat) % (modulus() as int) == 0x186aa4a0b0d6aabfc44e062b1b14c97a14d4b4cf13e2962fdf9b5a91e193530119f95e231e9bfb661609d053f00d0cbbint) by {
        lemma_pow_step(11, 0x1a0111nat, 1, 0x120cdf3e2bbfb4e5cd15c86cb8421186315a45d3c4c98f3831a1aad654c1b1c8c416b29474abc127a2f80b76b9683e7cint, 0x186aa4a0b0d6aabfc44e062b1b14c97a14d4b4cf13e2962fdf9b5a91e193530119f95e231e9bfb661609d053f00d0cbbint, 0x89d2586fae5012393eb5fc86024d83f35ed11613f4d70722c4343384c2042dad6530dc49a5f55cc4f79bec1963c1a7dfint);
    }
    assert(pow(11, 0x680447nat) % (modulus() as int) == 0x7a8e1ff91629754ce004530f3d428e8818240d0b0c02282c476a0af53d5b378dd7c55d92f98c38bce82e3f95b1a0eabint) by {
        lemma_pow_step(11, 0x340223nat, 1, 0x186aa4a0b0d6aabfc44e062b1b14c97a14d4b4cf13e2962fdf9b5a91e193530119f95e231e9bfb661609d053f00d0cbbint, 0x7a8e1ff91629754ce004530f3d428e8818240d0b0c02282c476a0af53d5b378dd7c55d92f98c38bce82e3f95b1a0eabint, 0xfc2f528e150bd03d75d71b2b0417c02895505b9841f2f534f9c7ff3e97c3d40fe694477b427b54878cdf6d48460bf7b8int);
    }
    assert(pow(11, 0xd0088fnat) % (modulus() as int) == 0x15d35d8c188d0f53a213ff5f21f5c5b26e0137f7dcaf9f38bd9b11710804ad4607dc346d677a2f77e3b9395561141f1aint) by {
        lemma_pow_step(11, 0x680447nat, 1, 0x7a8e1ff91629754ce004530f3d428e8818240d0b0c02282c476a0af53d5b378dd7c55d92f98c38bce82e3f95b1a0eabint, 0x15d35d8c188d0f53a213ff5f21f5c5b26e0137f7dcaf9f38bd9b11710804ad4607dc346d677a2f77e3b9395561141f1aint, 0x18d17f456322dbee19e940bf6156b939f185fb58cb26c5e1474ef222117c4b51cc5b42def8880a1e98fdcbd2acc6900bint);
    }
    assert(pow(11, 0x1a0111enat) % (modulus() as int) == 0x17cea6a519a7436146e42d33024be7e6e1ef186f8b7846dea68cf8af122af3d9393535e9f1a5da2ea89d1f1211ca01e9int) by {
        lemma_pow_step(11, 0xd0088fnat, 0, 0x15d35d8c188d0f53a213ff5f21f5c5b26e0137f7dcaf9f38bd9b11710804ad4607dc346d677a2f77e3b9395561141f1aint, 0x17cea6a519a7436146e42d33024be7e6e1ef186f8b7846dea68cf8af122af3d9393535e9f1a5da2ea89d1f1211ca01e9int, 0x12518c686024dc7f72829b9035344aa097b93383894eac0289c35d91ac8fbeaa466b5f608f62b99953ed84626c58e631int);
    }
    assert(pow(11, 0x340223dnat) % (modulus() as int) == 0x67b1f34cb8c21eef4cccc2bf452b2fc55f4f3b9a72926a33a6424ecc675cf83cdbd055d08c451a723bf690eabb77abaint) by {
        lemma_pow_step(11, 0x1a0111enat, 1, 0x17cea6a519a7436146e42d33024be7e6e1ef186f8b7846dea68cf8af122af3d9393535e9f1a5da2ea89d1f1211ca01e9int, 0x67b1f34cb8c21eef4cccc2bf452b2fc55f4f3b9a72926a33a6424ecc675cf83cdbd055d08c451a723bf690eabb77abaint, 0xefc1394215f5cf72d732c54a0bd5533cad52991e801ca1268c2f761901f604232d5bbd9cb18ff7809f9c5a47a188f803int);
    }
    assert(pow(11, 0x680447anat) % (modulus() as int) == 0x79d7cb53606b7edb7d9fc5f6f77a7ca29c36d7942f55811fad82111d56424c1fa467badc78939945ab1fdf6c1b7e15dint) by {
        lemma_pow_step(11, 0x340223dnat, 0, 0x67b1f34cb8c21eef4cccc2bf452b2fc55f4f3b9a72926a33a6424ecc675cf83cdbd055d08c451a723bf690eabb77abaint, 0x79d7cb53606b7edb7d9fc5f6f77a7ca29c36d7942f55811fad82111d56424c1fa467badc78939945ab1fdf6c1b7e15dint, 0x19d7f806a2d9c0a6b147146c5c1c26c5aaae5bae1dcb3988041498646aa37e4a6b5f10a61d395332e48f5f60a72c955int);
    }
    assert(pow(11, 0xd0088f5nat) % (modulus() as int) == 0x1107ec71038ff3d7f5a10979f82c8a75487c1d0acfe8054a134cb261806c1402dffd87bf07051284af1e074aff3b084dint) by {
        lemma_pow_step(11, 0x680447anat, 1, 0x79d7cb53606b7edb7d9fc5f6f77a7ca29c36d7942f55811fad82111d56424c1fa467badc78939945ab1fdf6c1b7e15dint, 0x1107ec71038ff3d7f5a10979f82c8a75487c1d0acfe8054a134cb261806c1402dffd87bf07051284af1e074aff3b084dint, 0x1887dd74e0ba86e240f39e39ff551a3a48dfbf91b23776bf73fac2f97e18c9934a29bf5310c6f282372d11829cfefc02int);
    }
    assert(pow(11, 0x1a0111eanat) % (modulus() as int) == 0x9954c32c4e15c98f17b7140e6f6633a06921ff790b177b9ecb9319eabb1154199a0d0f5d8cd8ba9b74b4dd5b8db207eint) by {
        lemma_pow_step(11, 0xd0088f5nat, 0, 0x1107ec71038ff3d7f5a10979f82c8a75487c1d0acfe8054a134cb261806c1402dffd87bf07051284af1e074aff3b084dint, 0x9954c32c4e15c98f17b7140e6f6633a06921ff790b177b9ecb9319eabb1154199a0d0f5d8cd8ba9b74b4dd5b8db207eint, 0xb277353dd555fd066b975e2698fe17f881fcc3e7798a3b75524a7b04df27d99703c5a0778fcf841929ded35d6b85401int);
    }
    assert(pow(11, 0x340223d4nat) % (modulus() as int) == 0x19ae0cf1a75a8ff587426229d21071181b18c08e7ae003e09b67a9f4f9a2e0c9ee8a8aea0b2dc3d95721fb4df9426af8int) by {
        lemma_pow_step(11, 0x1a0111eanat, 0, 0x9954c32c4e15c98f17b7140e6f6633a06921ff790b177b9ecb9319eabb1154199a0d0f5d8cd8ba9b74b4dd5b8db207eint, 0x19ae0cf1a75a8ff587426229d21071181b18c08e7ae003e09b67a9f4f9a2e0c9ee8a8aea0b2dc3d95721fb4df9426af8int, 0x3881a138fe6d84941fb05e00ecfdb2b03a7c8e93e3f5d96260aee34e93d9e711e4c2aab03738da5e8e816634077f924int);
    }
    assert(pow(11, 0x680447a8nat) % (modulus() as int) == 0xec7e203fb194a3e66d42a6069754ee5ab1de02840dda412790f12ca1a0da15a9d4fee59283a1f6a4da0b6a9a2022769int) by {
        lemma_pow_step(11, 0x340223d4nat, 0, 0x19ae0cf1a75a8ff587426229d21071181b18c08e7ae003e09b67a9f4f9a2e0c9ee8a8aea0b2dc3d95721fb4df9426af8int, 0xec7e203fb194a3e66d42a6069754ee5ab1de02840dda412790f12ca1a0da15a9d4fee59283a1f6a4da0b6a9a2022769int, 0x195c110412241a1fd455ce02d6852512e4f314b96f4967a1001116327e4f5c21f26602f385cfd0bcfd7589bde2357a85int);
    }
}

proof fn lemma_z_pow_part_3()
    ensures
        pow(11, 0x1a0111ea397nat) % (modulus() as int) == 0x4d9aee1bc7b3e1aff86a165ac481db7d93ece2b825a9571d1b7bf5fbc08aa5d3328ae5d75f6a72c24e1f55d65dcfa0int,
{
    lemma_z_pow_part_2();
    assert(pow(11, 0xd0088f51nat) % (modulus() as int) == 0x23a932d929b07c85b2d35e9da5ef7e18c5daf7a31d18b33ae341fb6080b63df2aaf9eb4fce4c53ee263730f3a90e13int) by {
        lemma_pow_step(11, 0x680447a8nat, 1, 0xec7e203fb194a3e66d42a6069754ee5ab1de02840dda412790f12ca1a0da15a9d4fee59283a1f6a4da0b6a9a2022769int, 0x23a932d929b07c85b2d35e9da5ef7e18c5daf7a31d18b33ae341fb6080b63df2aaf9eb4fce4c53ee263730f3a90e13int, 0x5c6a604ab5f00f33fd516c35d2639dda5977bb451d1493485a4671fe6117a49754852a6aa9cfcd27265bfe3cc45720f8int);
    }
    assert(pow(11, 0x1a0111ea3nat) % (modulus() as int) == 0x5df7eae2b16956ca0b0224dc2f24abf37a3719ec42ef5691692d88dc7c474467a1095232b6e997514a53c1cb5bf18fbint) by {
        lemma_pow_step(11, 0xd0088f51nat, 1, 0x23a932d929b07c85b2d35e9da5ef7e18c5daf7a31d18b33ae341fb6080b63df2aaf9eb4fce4c53ee263730f3a90e13int, 0x5df7eae2b16956ca0b0224dc2f24abf37a3719ec42ef5691692d88dc7c474467a1095232b6e997514a53c1cb5bf18fbint, 0x219f0face39f3c4cbe7dc836649e26f6fc2a7e69823d16138360a8c297274b18acc0356b26f582c264653f9b97798int);
    }
    assert(pow(11, 0x340223d47nat) % (modulus() as int) == 0xf8077d379f298524399d5edb07b513b4c440d9010e1cc8385fc72244ea29c7288d399a486a17eb8d48b9cd0c3a3811bint) by {
        lemma_pow_step(11, 0x1a0111ea3nat, 1, 0x5df7eae2b16956ca0b0224dc2f24abf37a3719ec42ef5691692d88dc7c474467a1095232b6e997514a53c1cb5bf18fbint, 0xf8077d379f298524399d5edb07b513b4c440d9010e1cc8385fc72244ea29c7288d399a486a17eb8d48b9cd0c3a3811bint, 0xe97324b5fd040d27c42dac90f691b043388d1a028658c5fbe0e84bb5aa89cad90ac9d53000482ad2718fdce113845e8int);
    }
    assert(pow(11, 0x680447a8enat) % (modulus() as int) == 0x131034dd05ff4876cb9c7b2886a55851380c74d1c55362a310727dddd19f9d4650472d207f3a0a7ff03ff38244d53daeint) by {
        lemma_pow_step(11, 0x340223d47nat, 0, 0xf8077d379f298524399d5edb07b513b4c440d9010e1cc8385fc72244ea29c7288d399a486a17eb8d48b9cd0c3a3811bint, 0x131034dd05ff4876cb9c7b2886a55851380c74d1c55362a310727dddd19f9d4650472d207f3a0a7ff03ff38244d53daeint, 0x93db75e1bc845e0e9e65342c1d4d4c27f220002a3a297c3ccca263133f5f9d58b4eb464d737d4fe294c43eb857bf181int);
    }
    assert(pow(11, 0xd0088f51cnat) % (modulus() as int) == 0x2a3276c5008b58e34268d058fcb126ba62141f2e1f56dd5aff9bd881335219acb5e967ec62c3b6a6ec261be20f5f7abint) by {
        lemma_pow_step(11, 0x680447a8enat, 0, 0x131034dd05ff4876cb9c7b2886a55851380c74d1c55362a310727dddd19f9d4650472d207f3a0a7ff03ff38244d53daeint, 0x2a3276c5008b58e34268d058fcb126ba62141f2e1f56dd5aff9bd881335219acb5e967ec62c3b6a6ec261be20f5f7abint, 0xdf99cbfd8600ed279c4df1543e66adc94a9f2d57516d90f9773287bddffefb54f49c204654691e52ec8f83c44223fcbint);
    }
    assert(pow(11, 0x1a0111ea39nat) % (modulus() as int) == 0x15fce4fb0d47d257e8dbd69b9e00ed1a8f2210d1708db56fe05edc8f666caa242385045f09f76423d42869404a973f0fint) by {
        lemma_pow_step(11, 0xd0088f51cnat, 1, 0x2a3276c5008b58e34268d058fcb126ba62141f2e1f56dd5aff9bd881335219acb5e967ec62c3b6a6ec261be20f5f7abint, 0x15fce4fb0d47d257e8dbd69b9e00ed1a8f2210d1708db56fe05edc8f666caa242385045f09f76423d42869404a973f0fint, 0x2f13564557c22129cfa2cf4a68c808154ea1dcfae591ac29e726838493b6012cf641e86964c74ba881b5926b07d362cint);
    }
    assert(pow(11, 0x340223d472nat) % (modulus() as int) == 0x927aa437d40a0b8e6b788efc4fb796c3da027602af953f8a4ef1dcb3855cfab07d592945a323060fc638b0b48903bb4int) by {
        lemma_pow_step(11, 0x1a0111ea39nat, 0, 0x15fce4fb0d47d257e8dbd69b9e00ed1a8f2210d1708db56fe05edc8f666caa242385045f09f76423d42869404a973f0fint, 0x927aa437d40a0b8e6b788efc4fb796c3da027602af953f8a4ef1dcb3855cfab07d592945a323060fc638b0b48903bb4int, 0x129784ee4cfa4844026c1e444eedf8dabd6be900b73c861b1fbe8ec3435fcb76e3c1cbe132ebee515f0f3653f9857587int);
    }
    assert(pow(11, 0x680447a8e5nat) % (modulus() as int) == 0x1121c0da4a9e9d741886526d1d8454989b59c2b5e6ee06e966fb358cab7fc97aef1ae9e12cfd65c7c7b0c806239742a0int) by {
        lemma_pow_step(11, 0x340223d472nat, 1, 0x927aa437d40a0b8e6b788efc4fb796c3da027602af953f8a4ef1dcb3855cfab07d592945a323060fc638b0b48903bb4int, 0x1121c0da4a9e9d741886526d1d8454989b59c2b5e6ee06e966fb358cab7fc97aef1ae9e12cfd65c7c7b0c806239742a0int, 0x2374210e21106673436a7356e8037cf3684a81623aabd2caf6e1418621b4c257120f46c87444f493c4b5da329be580b0int);
    }
    assert(pow(11, 0xd0088f51cbnat) % (modulus() as int) == 0xf7388d4aa9460293015502bd1262863521d2e83567af89770752a876e02b8a55379db13b2820890c6695e797e4c9f32int) by {
        lemma_pow_step(11, 0x680447a8e5nat, 1, 0x1121c0da4a9e9d741886526d1d8454989b59c2b5e6ee06e966fb358cab7fc97aef1ae9e12cfd65c7c7b0c806239742a0int, 0xf7388d4aa9460293015502bd1262863521d2e83567af89770752a876e02b8a55379db13b2820890c6695e797e4c9f32int, 0x7c2739adc434c8a8fef2893b6c3cd400f52102eb32c6e087e3992be22ba99a389deef1e80625960631b0150fb877866aint);
    }
    assert(pow(11, 0x1a0111ea397nat) % (modulus() as int) == 0x4d9aee1bc7b3e1aff86a165ac481db7d93ece2b825a9571d1b7bf5fbc08aa5d3328ae5d75f6a72c24e1f55d65dcfa0int) by {
        lemma_pow_step(11, 0xd0088f51cbnat, 1, 0xf7388d4aa9460293015502bd1262863521d2e83567af89770752a876e02b8a55379db13b2820890c6695e797e4c9f32int, 0x4d9aee1bc7b3e1aff86a165ac481db7d93ece2b825a9571d1b7bf5fbc08aa5d3328ae5d75f6a72c24e1f55d65dcfa0int, 0x64fd88af1cd4d20469200ebd5c753e2793c480b67e9431dd60726474e664bc3c6bf736d134c43b0f560c9ac922de6f64int);
    }
}

proof fn lemma_z_pow_part_4()
    ensures
        pow(11, 0x680447a8e5ff9nat) % (modulus() as int) == 0x711dfacb132bf603391a1cb395776f478df62fba4b7b2b7cb1d6232269f9cdb201dabaa6026d1c8083f35bcec76bf83int,
{
    lemma_z_pow_part_3();
    assert(pow(11, 0x340223d472fnat) % (modulus() as int) == 0x8ff480268d046d96fd7e0c52e588f7e11f06b5db7a897a4f50be4c8d811f51cf270b1f78bd755c4657116a766a49556int) by {
        lemma_pow_step(11, 0x1a0111ea397nat, 1, 0x4d9aee1bc7b3e1aff86a165ac481db7d93ece2b825a9571d1b7bf5fbc08aa5d3328ae5d75f6a72c24e1f55d65dcfa0int, 0x8ff480268d046d96fd7e0c52e588f7e11f06b5db7a897a4f50be4c8d811f51cf270b1f78bd755c4657116a766a49556int, 0x9f3996d806caccfd4e33e1350c4452c06ed61a06de2a6add87b00a4ee0eb96fe7ce4ace8facdbaaf295030738e3feint);
    }
    assert(pow(11, 0x680447a8e5fnat) % (modulus() as int) == 0x16eab65f193f6b76be7307fb9ca30e7530dc8821545138b73afcc904dd9085a5deff190dd150cb7c30a6f6ef8cd2f390int) by {
        lemma_pow_step(11, 0x340223d472fnat, 1, 0x8ff480268d046d96fd7e0c52e588f7e11f06b5db7a897a4f50be4c8d811f51cf270b1f78bd755c4657116a766a49556int, 0x16eab65f193f6b76be7307fb9ca30e7530dc8821545138b73afcc904dd9085a5deff190dd150cb7c30a6f6ef8cd2f390int, 0x223e0a9e13255684e3119e5474311b51782b4b3146050dcc2fcc75dd5a1034d714dc5808b17a400262b1ddebb32f7ab4int);
    }
    assert(pow(11, 0xd0088f51cbfnat) % (modulus() as int) == 0x11a8e8554c5fcc0c105e91ccf1ee0e9964e9cff1de7ca53b2d2b3f6534e67e9d0606c66fd642030d9560b6a4727a271bint) by {
        lemma_pow_step(11, 0x680447a8e5fnat, 1, 0x16eab65f193f6b76be7307fb9ca30e7530dc8821545138b73afcc904dd9085a5deff190dd150cb7c30a6f6ef8cd2f390int, 0x11a8e8554c5fcc0c105e91ccf1ee0e9964e9cff1de7ca53b2d2b3f6534e67e9d0606c66fd642030d9560b6a4727a271bint, 0xde2816075a7c7eb880c4ef34ca6b1a143e5338de4ee01f5e8611ca26c3296ec681e91d2a31385c636379b1fe03915bafint);
    }
    assert(pow(11, 0x1a0111ea397fnat) % (modulus() as int) == 0x84d9967c9e336a2731ad4184f9828b810f1edb51c3ee9f6f9aff6116ca62b46d19d74a8c7b80403aa41ee5ba0bdf1b5int) by {
        lemma_pow_step(11, 0xd0088f51cbfnat, 1, 0x11a8e8554c5fcc0c105e91ccf1ee0e9964e9cff1de7ca53b2d2b3f6534e67e9d0606c66fd642030d9560b6a4727a271bint, 0x84d9967c9e336a2731ad4184f9828b810f1edb51c3ee9f6f9aff6116ca62b46d19d74a8c7b80403aa41ee5ba0bdf1b5int, 0x83ec505181cad523a3be45772875bc4e58b66ced712f3e5aac0f4afbba1522b8fb47e80c4af33a06ff509e4a6efd02daint);
    }
    assert(pow(11, 0x340223d472ffnat) % (modulus() as int) == 0x17240d749e3a437d2032ccb5f9782c805e5b0a7881e365b809ace0bac6e622852e596a38f7654c1ff992674bed077074int) by {
        lemma_pow_step(11, 0x1a0111ea397fnat, 1, 0x84d9967c9e336a2731ad4184f9828b810f1edb51c3ee9f6f9aff6116ca62b46d19d74a8c7b80403aa41ee5ba0bdf1b5int, 0x17240d749e3a437d2032ccb5f9782c805e5b0a7881e365b809ace0bac6e622852e596a38f7654c1ff992674bed077074int, 0x1d29bb1fd4077243543fb3d1507454c8d8f622ce7a655944e4be27d52e49efa75487dad9fa036b33b27e88e4a92837bdint);
    }
    assert(pow(11, 0x680447a8e5ffnat) % (modulus() as int) == 0xaeef1ae2efbb9e83a727d570400b217eddda876e07feeb306f1cbede4a2c6606e68edbfedefeb5cc164cb5b391fcb01int) by {
        lemma_pow_step(11, 0x340223d472ffnat, 1, 0x17240d749e3a437d2032ccb5f9782c805e5b0a7881e365b809ace0bac6e622852e596a38f7654c1ff992674bed077074int, 0xaeef1ae2efbb9e83a727d570400b217eddda876e07feeb306f1cbede4a2c6606e68edbfedefeb5cc164cb5b391fcb01int, 0xe2853bcd12808b46c9ff84c1e003771de878ddadef5b27b5d3e2d96df13264803d6817ed24c5045bcfd33eba51a1e58dint);
    }
    assert(pow(11, 0xd0088f51cbffnat) % (modulus() as int) == 0xd020bfa04328edafb6f414666c568cb99bdfbfd4a927c0b54ffe3a20173cf1e88fdb256784695785f67aebfd352b041int) by {
        lemma_pow_step(11, 0x680447a8e5ffnat, 1, 0xaeef1ae2efbb9e83a727d570400b217eddda876e07feeb306f1cbede4a2c6606e68edbfedefeb5cc164cb5b391fcb01int, 0xd020bfa04328edafb6f414666c568cb99bdfbfd4a927c0b54ffe3a20173cf1e88fdb256784695785f67aebfd352b041int, 0x3290e11230bd581901c455edda1a914e5d2f1da3840bc4dd59698e71afd6ef94281bb1227938c95b5b035a68afb1455eint);
    }
    assert(pow(11, 0x1a0111ea397fenat) % (modulus() as int) == 0x51de6983d80d36ccf951d7dc4419c15a8959a91d33127892bdccc5972a4b6690273e457f63980d2199457e542260950int) by {
        lemma_pow_step(11, 0xd0088f51cbffnat, 0, 0xd020bfa04328edafb6f414666c568cb99bdfbfd4a927c0b54ffe3a20173cf1e88fdb256784695785f67aebfd352b041int, 0x51de6983d80d36ccf951d7dc4419c15a8959a91d33127892bdccc5972a4b6690273e457f63980d2199457e542260950int, 0x681c795f5d026c9276b60e2dd0a22c264b83ddc31c459de198751680f23cb596164e4b83f7ff1fbb85155250a193593int);
    }
    assert(pow(11, 0x340223d472ffcnat) % (modulus() as int) == 0x3ff7e16be993e449e53f529636cef38d6ad49524911f04817436df99d0bfb98e1b3ea53ee191a82b339a6172f765bc3int) by {
        lemma_pow_step(11, 0x1a0111ea397fenat, 0, 0x51de6983d80d36ccf951d7dc4419c15a8959a91d33127892bdccc5972a4b6690273e457f63980d2199457e542260950int, 0x3ff7e16be993e449e53f529636cef38d6ad49524911f04817436df99d0bfb98e1b3ea53ee191a82b339a6172f765bc3int, 0x101bf3d3988c32d6b9973f26c0b88f5be0cdf2916dce80755e1d6d7554f9dc793b968e2b61b9219e970a60e959817b7int);
    }
    assert(pow(11, 0x680447a8e5ff9nat) % (modulus() as int) == 0x711dfacb132bf603391a1cb395776f478df62fba4b7b2b7cb1d6232269f9cdb201dabaa6026d1c8083f35bcec76bf83int) by {
        lemma_pow_step(11, 0x340223d472ffcnat, 1, 0x3ff7e16be993e449e53f529636cef38d6ad49524911f04817436df99d0bfb98e1b3ea53ee191a82b339a6172f765bc3int, 0x711dfacb132bf603391a1cb395776f478df62fba4b7b2b7cb1d6232269f9cdb201dabaa6026d1c8083f35bcec76bf83int, 0x6c2ed7bfd85c43152b65f89644ff969236723049e5eb3a4e0ba95bf710964de6367e47f0ac769b1a3bec632ab6ac920int);
    }
}

proof fn lemma_z_pow_part_5()
    ensures
        pow(11, 0x1a0111ea397fe69anat) % (modulus() as int) == 0x151363e0dab4efba8bab0f8572d92e47b81634cd14a9c4fd4092398e7d397fa8da5e073fa068fdf7a229beceb4ac1ce0int,
{
    lemma_z_pow_part_4();
    assert(pow(11, 0xd0088f51cbff3nat) % (modulus() as int) == 0x133ebf45c65a7386061b8dc4b025f135a03553b12edacff7b2fbf7daaad138041814c358790813de27c276e2b98b0819int) by {
        lemma_pow_step(11, 0x680447a8e5ff9nat, 1, 0x711dfacb132bf603391a1cb395776f478df62fba4b7b2b7cb1d6232269f9cdb201dabaa6026d1c8083f35bcec76bf83int, 0x133ebf45c65a7386061b8dc4b025f135a03553b12edacff7b2fbf7daaad138041814c358790813de27c276e2b98b0819int, 0x15249a2e13bc2fb4e78ce66cf0ba3039cf955a4e693a04e2a9a9792836c7c13c7c550f3b5787f2996b635b203e5d45deint);
    }
    assert(pow(11, 0x1a0111ea397fe6nat) % (modulus() as int) == 0x190cebbed2c495cf2f6fd2a187a3bf9407b3186588c627846088c584a853d6813dea5083af3def4ea96cf1c6745f0a3dint) by {
        lemma_pow_step(11, 0xd0088f51cbff3nat, 0, 0x133ebf45c65a7386061b8dc4b025f135a03553b12edacff7b2fbf7daaad138041814c358790813de27c276e2b98b0819int, 0x190cebbed2c495cf2f6fd2a187a3bf9407b3186588c627846088c584a853d6813dea5083af3def4ea96cf1c6745f0a3dint, 0xe3e2c9fca2cc1df14120005b8d348967317bb9ab4928bc3e2b775ed14099f696e638642d85dd77d41ebee7003b5989cint);
    }
    assert(pow(11, 0x340223d472ffcdnat) % (modulus() as int) == 0x1750a86d606544d29e71b476ba3c6e45e990058b32051ed4da2537c046072eb15c87f58ed09520d2d22d372b0f84a646int) by {
        lemma_pow_step(11, 0x1a0111ea397fe6nat, 1, 0x190cebbed2c495cf2f6fd2a187a3bf9407b3186588c627846088c584a853d6813dea5083af3def4ea96cf1c6745f0a3dint, 0x1750a86d606544d29e71b476ba3c6e45e990058b32051ed4da2537c046072eb15c87f58ed09520d2d22d372b0f84a646int, 0x10972fc61aef0e7e7ec09da70476bbbc3d005def1476bafbcbae6669acffcabc5524f1ce9ff8d0debac7e06b919d230d7int);
    }
    assert(pow(11, 0x680447a8e5ff9anat) % (modulus() as int) == 0x42dbe9f60387fd3f93686a70fe1576146a7d607260b70b0dade22ab822d5ce12112f7a38b0b79ecee2e78efa7afa4e5int) by {
        lemma_pow_step(11, 0x340223d472ffcdnat, 0, 0x1750a86d606544d29e71b476ba3c6e45e990058b32051ed4da2537c046072eb15c87f58ed09520d2d22d372b0f84a646int, 0x42dbe9f60387fd3f93686a70fe1576146a7d607260b70b0dade22ab822d5ce12112f7a38b0b79ecee2e78efa7afa4e5int, 0x14e76f5cc9c9849fbacb61dcaf7e48f643dac1886061c44668b92ee5664d13000b2bb7087b75bbeb7af7c89ff43aa2bdint);
    }
    assert(pow(11, 0xd0088f51cbff34nat) % (modulus() as int) == 0xe46be2df08169360f1ee26a7388798975c3ac20b458c63f223c5a1ebbce6a25af8b75d52fba5122f98461d347100bfaint) by {
        lemma_pow_step(11, 0x680447a8e5ff9anat, 0, 0x42dbe9f60387fd3f93686a70fe1576146a7d607260b70b0dade22ab822d5ce12112f7a38b0b79ecee2e78efa7afa4e5int, 0xe46be2df08169360f1ee26a7388798975c3ac20b458c63f223c5a1ebbce6a25af8b75d52fba5122f98461d347100bfaint, 0xabe6861c3d3130d375487a20b4dfa108a67c3f3302e7783c876c315c0707a546bc0cf91e65488312e2038a89517a9dint);
    }
    assert(pow(11, 0x1a0111ea397fe69nat) % (modulus() as int) == 0x13b95ee6c19b06b525f708b7354b3e7c6bfe7a6e208e48143a3c2f234d730a38901a8f76dd3308d9b3f0fd5c30f60205int) by {
        lemma_pow_step(11, 0xd0088f51cbff34nat, 1, 0xe46be2df08169360f1ee26a7388798975c3ac20b458c63f223c5a1ebbce6a25af8b75d52fba5122f98461d347100bfaint, 0x13b95ee6c19b06b525f708b7354b3e7c6bfe7a6e208e48143a3c2f234d730a38901a8f76dd3308d9b3f0fd5c30f60205int, 0x56370fc2dbb54389f934d27c6daa37aec79aae0b3fe600794a0338098460432aa8c6faef5e4216993683db6381706e95int);
    }
    assert(pow(11, 0x340223d472ffcd3nat) % (modulus() as int) == 0x44265ec030be3783497a67be94ec8f5bea5653f7daf9bc3edd7848bfa791f03ba9861fcbb1e6bf52134f30fc5d26a8aint) by {
        lemma_pow_step(11, 0x1a0111ea397fe69nat, 1, 0x13b95ee6c19b06b525f708b7354b3e7c6bfe7a6e208e48143a3c2f234d730a38901a8f76dd3308d9b3f0fd5c30f60205int, 0x44265ec030be3783497a67be94ec8f5bea5653f7daf9bc3edd7848bfa791f03ba9861fcbb1e6bf52134f30fc5d26a8aint, 0xa49148a336a8e8de6da4649cbd0264bc1c9ffe6513498b665364ff9bbc584a1b8e6f8a013eadd90339dffd90fbc6579bint);
    }
    assert(pow(11, 0x680447a8e5ff9a6nat) % (modulus() as int) == 0x163ce7f07582332b6fceecc9c74face18600edd7cc950c4b3629d2a7b5e8c0bf0ef6e4447a22e00d93a53b99b3d1e47fint) by {
        lemma_pow_step(11, 0x340223d472ffcd3nat, 0, 0x44265ec030be3783497a67be94ec8f5bea5653f7daf9bc3edd7848bfa791f03ba9861fcbb1e6bf52134f30fc5d26a8aint, 0x163ce7f07582332b6fceecc9c74face18600edd7cc950c4b3629d2a7b5e8c0bf0ef6e4447a22e00d93a53b99b3d1e47fint, 0xb29a3118de964b29fce94a14b33cd88753509977c6973a74808f1e48e207d93301308af1706492809342edfe7509afint);
    }
    assert(pow(11, 0xd0088f51cbff34dnat) % (modulus() as int) == 0x67c05977c81e887e76eece42893e36230f1642be45aedd8db5b60b46e6f8e32d400d53f48a31e2721ae5077df8bd3f3int) by {
        lemma_pow_step(11, 0x680447a8e5ff9a6nat, 1, 0x163ce7f07582332b6fceecc9c74face18600edd7cc950c4b3629d2a7b5e8c0bf0ef6e4447a22e00d93a53b99b3d1e47fint, 0x67c05977c81e887e76eece42893e36230f1642be45aedd8db5b60b46e6f8e32d400d53f48a31e2721ae5077df8bd3f3int, 0xd1303bd62e26725e80ab9c6bb2b7a037b52bef7672aa37b71b1db8b3b11952e870fde6c3e684f433143dbbda6403db48int);
    }
    assert(pow(11, 0x1a0111ea397fe69anat) % (modulus() as int) == 0x151363e0dab4efba8bab0f8572d92e47b81634cd14a9c4fd4092398e7d397fa8da5e073fa068fdf7a229beceb4ac1ce0int) by {
        lemma_pow_step(11, 0xd0088f51cbff34dnat, 0, 0x67c05977c81e887e76eece42893e36230f1642be45aedd8db5b60b46e6f8e32d400d53f48a31e2721ae5077df8bd3f3int, 0x151363e0dab4efba8bab0f8572d92e47b81634cd14a9c4fd4092398e7d397fa8da5e073fa068fdf7a229beceb4ac1ce0int, 0x19df25e8edeb7fb9a1d525ce99abd1c8e7bf2e9c8e3bb4e9684589bb14cbde27fdd8cb30cd233460734cda18f6c135bint);
    }
}

proof fn lemma_z_pow_part_6()
    ensures
        pow(11, 0x680447a8e5ff9a692cnat) % (modulus() as int) == 0x2aeaba5cf613581acde6a2d03de21c6dbe4d22ab15f8e752a6c95637aa8f73c61f9920aaaa3c72a562d283d6578f6f7int,
{
    lemma_z_pow_part_5();
    assert(pow(11, 0x340223d472ffcd34nat) % (modulus() as int) == 0x120c9a26b58e9e0c5666fa96b1adfc697dfc4dcc343bce92401fc5dad4dd1fe8546f380a1ebe0bed4cd16af16bff8392int) by {
        lemma_pow_step(11, 0x1a0111ea397fe69anat, 0, 0x151363e0dab4efba8bab0f8572d92e47b81634cd14a9c4fd4092398e7d397fa8da5e073fa068fdf7a229beceb4ac1ce0int, 0x120c9a26b58e9e0c5666fa96b1adfc697dfc4dcc343bce92401fc5dad4dd1fe8546f380a1ebe0bed4cd16af16bff8392int, 0x1114d4766a1f48f0d1f6548df95e1715afc317e7ffa3d1fa9907c668560fb6c9c6488532aaa1f4779a740bb1ee10c14aint);
    }
    assert(pow(11, 0x680447a8e5ff9a69nat) % (modulus() as int) == 0x11bd8c6267ee9dc1ae641a96f0c0c2ce50c012a254db26194fd195e296d6092d9e7a26e516d23b5e6bd4b7c3a778ecdfint) by {
        lemma_pow_step(11, 0x340223d472ffcd34nat, 1, 0x120c9a26b58e9e0c5666fa96b1adfc697dfc4dcc343bce92401fc5dad4dd1fe8546f380a1ebe0bed4cd16af16bff8392int, 0x11bd8c6267ee9dc1ae641a96f0c0c2ce50c012a254db26194fd195e296d6092d9e7a26e516d23b5e6bd4b7c3a778ecdfint, 0x89ce3960d075736a5af92171fabb2611c6c8ecb3076c78363c5d5d51ebbbadfe19f59d9edee1495033d4f418e68ee127int);
    }
    assert(pow(11, 0xd0088f51cbff34d2nat) % (modulus() as int) == 0x2fecb0abf12bc510db2c6728e6dc8bfc6a85e6bfb4f7bfc14f7b21a26e18c31f05430ce06377b48ec7d643be824b3e1int) by {
        lemma_pow_step(11, 0x680447a8e5ff9a69nat, 0, 0x11bd8c6267ee9dc1ae641a96f0c0c2ce50c012a254db26194fd195e296d6092d9e7a26e516d23b5e6bd4b7c3a778ecdfint, 0x2fecb0abf12bc510db2c6728e6dc8bfc6a85e6bfb4f7bfc14f7b21a26e18c31f05430ce06377b48ec7d643be824b3e1int, 0xc1a4f2c929ec5f54f7fb58189d1718269f59096f721e8b360bcd997e13ebb35be03b00c649d50d249995c5d8565a320int);
    }
    assert(pow(11, 0x1a0111ea397fe69a4nat) % (modulus() as int) == 0x4b58b70efcd6cf80bc3d00a01a60a69f1679ed6c048917bde6b696238aaa051786aee6f5a3b43ed1055ce8aeefd0ac3int) by {
        lemma_pow_step(11, 0xd0088f51cbff34d2nat, 0, 0x2fecb0abf12bc510db2c6728e6dc8bfc6a85e6bfb4f7bfc14f7b21a26e18c31f05430ce06377b48ec7d643be824b3e1int, 0x4b58b70efcd6cf80bc3d00a01a60a69f1679ed6c048917bde6b696238aaa051786aee6f5a3b43ed1055ce8aeefd0ac3int, 0x5852a9664963ed60ccc395b11583bf9bd19319df32778b75a202b6692854e2a5117d75e7c177b6a364526a070822faint);
    }
    assert(pow(11, 0x340223d472ffcd349nat) % (modulus() as int) == 0x180637bc3b177b51eef71aa9fd6ec793cc233ef17acf5e602c084b9f2dcb1a54885b751e2c8f7aba8c4e91eaabf14b59int) by {
        lemma_pow_step(11, 0x1a0111ea397fe69a4nat, 1, 0x4b58b70efcd6cf80bc3d00a01a60a69f1679ed6c048917bde6b696238aaa051786aee6f5a3b43ed1055ce8aeefd0ac3int, 0x180637bc3b177b51eef71aa9fd6ec793cc233ef17acf5e602c084b9f2dcb1a54885b751e2c8f7aba8c4e91eaabf14b59int, 0x96176f18595afc63bae1263b5b652f2386202b9aa48c211f6712a57bd1e39ce9a969b60e91ea074e824501e11e5ff9eint);
    }
    assert(pow(11, 0x680447a8e5ff9a692nat) % (modulus() as int) == 0xb3f23ba274031c6c12875b52657adf6fee857a5492807f583fcf2d54e8bd16fbd01d3f54ff79453a4e4268b00f2e35fint) by {
        lemma_pow_step(11, 0x340223d472ffcd349nat, 0, 0x180637bc3b177b51eef71aa9fd6ec793cc233ef17acf5e602c084b9f2dcb1a54885b751e2c8f7aba8c4e91eaabf14b59int, 0xb3f23ba274031c6c12875b52657adf6fee857a5492807f583fcf2d54e8bd16fbd01d3f54ff79453a4e4268b00f2e35fint, 0x1631f4b4e6b9037f79f77e5f69126bf1719360bb4bf25c1fe03b752a860e0bcc33b74f9d0ee6406199e5a7ddaf1b24b6int);
    }
    assert(pow(11, 0xd0088f51cbff34d25nat) % (modulus() as int) == 0x29b22c8837e37b2d2bd8f0d54bba3199ba11829bb0c5a363b65a26389876f07c026b4daac6e1d1c0357c4af0c1cb67aint) by {
        lemma_pow_step(11, 0x680447a8e5ff9a692nat, 1, 0xb3f23ba274031c6c12875b52657adf6fee857a5492807f583fcf2d54e8bd16fbd01d3f54ff79453a4e4268b00f2e35fint, 0x29b22c8837e37b2d2bd8f0d54bba3199ba11829bb0c5a363b65a26389876f07c026b4daac6e1d1c0357c4af0c1cb67aint, 0x35814d07a1ead3efe76f31f7f779e93be009e6766a1bd2f18591021659d6ebed77d87a06fc1cb09f1fd10202d8de21f3int);
    }
    assert(pow(11, 0x1a0111ea397fe69a4bnat) % (modulus() as int) == 0x96182a5e9fdd11e9475583d172514fc0182aae0784f5ed768795547ec4fdaed05451b06c1e3ed2dc8b63d87ad94fdf1int) by {
        lemma_pow_step(11, 0xd0088f51cbff34d25nat, 1, 0x29b22c8837e37b2d2bd8f0d54bba3199ba11829bb0c5a363b65a26389876f07c026b4daac6e1d1c0357c4af0c1cb67aint, 0x96182a5e9fdd11e9475583d172514fc0182aae0784f5ed768795547ec4fdaed05451b06c1e3ed2dc8b63d87ad94fdf1int, 0x2df6cb23833bca52708ee02340a44b23985dc761c47301e39d96c3b71f5a2021473bc38504b06275169938e6909fcd1int);
    }
    assert(pow(11, 0x340223d472ffcd3496nat) % (modulus() as int) == 0x1932252e6de2b439e25123ad9d385b5242cc58dc1a1c8cff4bbcb61bd52747539432e2fd72e8b3d8132869939e095846int) by {
        lemma_pow_step(11, 0x1a0111ea397fe69a4bnat, 0, 0x96182a5e9fdd11e9475583d172514fc0182aae0784f5ed768795547ec4fdaed05451b06c1e3ed2dc8b63d87ad94fdf1int, 0x1932252e6de2b439e25123ad9d385b5242cc58dc1a1c8cff4bbcb61bd52747539432e2fd72e8b3d8132869939e095846int, 0x36255baccba82520b9e9a9a2c3d5f9efb7cc2ddc3c65ba4ad5be8c7a7b14d2e629ab7e1439487ad8889c0f9d15fadd1int);
    }
    assert(pow(11, 0x680447a8e5ff9a692cnat) % (modulus() as int) == 0x2aeaba5cf613581acde6a2d03de21c6dbe4d22ab15f8e752a6c95637aa8f73c61f9920aaaa3c72a562d283d6578f6f7int) by {
        lemma_pow_step(11, 0x340223d472ffcd3496nat, 0, 0x1932252e6de2b439e25123ad9d385b5242cc58dc1a1c8cff4bbcb61bd52747539432e2fd72e8b3d8132869939e095846int, 0x2aeaba5cf613581acde6a2d03de21c6dbe4d22ab15f8e752a6c95637aa8f73c61f9920aaaa3c72a562d283d6578f6f7int, 0x1869a705fe4d86b0d56c96827b56fa70e5916577c8f51385168ffe7b65a91e1fe634266850318d3ba5583e8db630b487int);
    }
}

proof fn lemma_z_pow_part_7()
    ensures
        pow(11, 0x1a0111ea397fe69a4b1banat) % (modulus() as int) == 0xea3bacb9c35b5aa37b86e51cc4f3fff31813684b5b21d7a693b697e5a3a4a3d027ddca35293006c982d9b1d6ada52a8int,
{
    lemma_z_pow_part_6();
    assert(pow(11, 0xd0088f51cbff34d258nat) % (modulus() as int) == 0x95857e4e84a590e429d9518f7f921c50c8758ef97153c8f85776692fa67721b45fe7b07a81a5aa7e3cda0823a2b7f4aint) by {
        lemma_pow_step(11, 0x680447a8e5ff9a692cnat, 0, 0x2aeaba5cf613581acde6a2d03de21c6dbe4d22ab15f8e752a6c95637aa8f73c61f9920aaaa3c72a562d283d6578f6f7int, 0x95857e4e84a590e429d9518f7f921c50c8758ef97153c8f85776692fa67721b45fe7b07a81a5aa7e3cda0823a2b7f4aint, 0x46d4548eb3206447f959d74cb6fe1800db6224f47a7b98a40ffa7a7c60c56a2678be454a27dd3da72d95b2ce016915int);
    }
    assert(pow(11, 0x1a0111ea397fe69a4b1nat) % (modulus() as int) == 0x936a609c0c9c783eab550d8845d1d197f5a87538c34df7c049241604c48175c98a5a0db799466124ed1fa89e7f4efe8int) by {
        lemma_pow_step(11, 0xd0088f51cbff34d258nat, 1, 0x95857e4e84a590e429d9518f7f921c50c8758ef97153c8f85776692fa67721b45fe7b07a81a5aa7e3cda0823a2b7f4aint, 0x936a609c0c9c783eab550d8845d1d197f5a87538c34df7c049241604c48175c98a5a0db799466124ed1fa89e7f4efe8int, 0x24f111c68b033949d089da72d6d6037c60dd9b9fa9e19167c96e4d38538953ee011174900550baa590d51110f543de2cint);
    }
    assert(pow(11, 0x340223d472ffcd34963nat) % (modulus() as int) == 0x46599ed28edec53122f38d97d206eee989fdeda96cd62e1cc4bc0bce10e0532eb129a28c662420d4a3e94f167000ec7int) by {
        lemma_pow_step(11, 0x1a0111ea397fe69a4b1nat, 1, 0x936a609c0c9c783eab550d8845d1d197f5a87538c34df7c049241604c48175c98a5a0db799466124ed1fa89e7f4efe8int, 0x46599ed28edec53122f38d97d206eee989fdeda96cd62e1cc4bc0bce10e0532eb129a28c662420d4a3e94f167000ec7int, 0x23e88d084e177693671d21ea21b1826d317abe49922a703591a0aa108081f23b5d463355ccbd04c0c87b7d052e5e1debint);
    }
    assert(pow(11, 0x680447a8e5ff9a692c6nat) % (modulus() as int) == 0x15ceb241c32bfad744dca80160859250a77c4a96f6ef4f3571641530c2f41c37651aedf879f44a509d33b2e76d7ce2fcint) by {
        lemma_pow_step(11, 0x340223d472ffcd34963nat, 0, 0x46599ed28edec53122f38d97d206eee989fdeda96cd62e1cc4bc0bce10e0532eb129a28c662420d4a3e94f167000ec7int, 0x15ceb241c32bfad744dca80160859250a77c4a96f6ef4f3571641530c2f41c37651aedf879f44a509d33b2e76d7ce2fcint, 0xbe521982c5a38b17593740277859b21307ee6ef8aa193969d4839525d39a3288cbf9658a1fdebc650e5e379337731fint);
    }
    assert(pow(11, 0xd0088f51cbff34d258dnat) % (modulus() as int) == 0x2f5b7a9233297799ebc7998cc41f04a60d03380a73af7b506b3e7d99c36c82e290227612cd9b09be0f8c00c76ded7dint) by {
        lemma_pow_step(11, 0x680447a8e5ff9a692c6nat, 1, 0x15ceb241c32bfad744dca80160859250a77c4a96f6ef4f3571641530c2f41c37651aedf879f44a509d33b2e76d7ce2fcint, 0x2f5b7a9233297799ebc7998cc41f04a60d03380a73af7b506b3e7d99c36c82e290227612cd9b09be0f8c00c76ded7dint, 0xc92adace634f612fc1695b7eca6c17da2bc12130456566f619f2d27be0efb1d7837a3597f589b408d128e1d3bcee2199int);
    }
    assert(pow(11, 0x1a0111ea397fe69a4b1bnat) % (modulus() as int) == 0x6c64e481d5b0dc8096587e682b80d57cc381c8f21e4ea92e0079775b05d25aae1008464c9ce08d375c2590073e5c65int) by {
        lemma_pow_step(11, 0xd0088f51cbff34d258dnat, 1, 0x2f5b7a9233297799ebc7998cc41f04a60d03380a73af7b506b3e7d99c36c82e290227612cd9b09be0f8c00c76ded7dint, 0x6c64e481d5b0dc8096587e682b80d57cc381c8f21e4ea92e0079775b05d25aae1008464c9ce08d375c2590073e5c65int, 0x3b4b085a0de629e8bdeb14f150c3efc4d96b63bccef25e1b334a94c6ab7353ce614a6a6274d70e697d7a1ac577afaint);
    }
    assert(pow(11, 0x340223d472ffcd349637nat) % (modulus() as int) == 0x13a26c537659cafd6d4fcc7cc6e925e9e2054c0a91f3da5298f25d02b53707983a816398dc65293766a27dccec552beeint) by {
        lemma_pow_step(11, 0x1a0111ea397fe69a4b1bnat, 1, 0x6c64e481d5b0dc8096587e682b80d57cc381c8f21e4ea92e0079775b05d25aae1008464c9ce08d375c2590073e5c65int, 0x13a26c537659cafd6d4fcc7cc6e925e9e2054c0a91f3da5298f25d02b53707983a816398dc65293766a27dccec552beeint, 0x136a0d3eb23f6ea4475258d76aff233fcb8cf1a6223efad192771ad17797ba21f5917d01cbfc7df1d38150e30c372fint);
    }
    assert(pow(11, 0x680447a8e5ff9a692c6enat) % (modulus() as int) == 0x636c6afc7dad796eb147dbea711f93fc1ad50249a4a3d84435f3ea672a5b9d2aa21f06b9a3b56fa9000b479d9cbb16cint) by {
        lemma_pow_step(11, 0x340223d472ffcd349637nat, 0, 0x13a26c537659cafd6d4fcc7cc6e925e9e2054c0a91f3da5298f25d02b53707983a816398dc65293766a27dccec552beeint, 0x636c6afc7dad796eb147dbea711f93fc1ad50249a4a3d84435f3ea672a5b9d2aa21f06b9a3b56fa9000b479d9cbb16cint, 0xed333e13e5491c9f3f755688c284a0f2981d7d01b3aeb5d66c4abb7c6e106e2f658e84a10af65ed4c1a7d67dce65f88int);
    }
    assert(pow(11, 0xd0088f51cbff34d258ddnat) % (modulus() as int) == 0x3c4d7d57065cd648fab43e0daf8d04bfa471d8019b9838a0a8598b2ea4acd096c0fc1537635dc78cd240f0b49cb42fint) by {
        lemma_pow_step(11, 0x680447a8e5ff9a692c6enat, 1, 0x636c6afc7dad796eb147dbea711f93fc1ad50249a4a3d84435f3ea672a5b9d2aa21f06b9a3b56fa9000b479d9cbb16cint, 0x3c4d7d57065cd648fab43e0daf8d04bfa471d8019b9838a0a8598b2ea4acd096c0fc1537635dc78cd240f0b49cb42fint, 0x1055751faad37db039ce298ed27250a3cd434a6641888579f2b75e4779ef2a779b880fb9be9908203ad8e1dc793c1b03int);
    }
    assert(pow(11, 0x1a0111ea397fe69a4b1banat) % (modulus() as int) == 0xea3bacb9c35b5aa37b86e51cc4f3fff31813684b5b21d7a693b697e5a3a4a3d027ddca35293006c982d9b1d6ada52a8int) by {
        lemma_pow_step(11, 0xd0088f51cbff34d258ddnat, 0, 0x3c4d7d57065cd648fab43e0daf8d04bfa471d8019b9838a0a8598b2ea4acd096c0fc1537635dc78cd240f0b49cb42fint, 0xea3bacb9c35b5aa37b86e51cc4f3fff31813684b5b21d7a693b697e5a3a4a3d027ddca35293006c982d9b1d6ada52a8int, 0x8bd6f20c7d01889d00464b6a7b1db9e3377e5978820fab47ce7b7d4189626e91ea5f34ed9562f12b289cb9aa69ebint);
    }
}

proof fn lemma_z_pow_part_8()
    ensures
        pow(11, 0x680447a8e5ff9a692c6e9ednat) % (modulus() as int) == 0x193a4c88e3f61e7fde4e293984111d5b072f0359934f2eca5ce7a7b33ec40adf344cabfb4abcd0c518d086c08c833643int,
{
    lemma_z_pow_part_7();
    assert(pow(11, 0x340223d472ffcd3496374nat) % (modulus() as int) == 0x712c1f1c776697b14bbeed764743f9bd716a81e370d539c134da96922b392971685bc71b5d5c1cf6cc9626ff2a6f7edint) by {
        lemma_pow_step(11, 0x1a0111ea397fe69a4b1banat, 0, 0xea3bacb9c35b5aa37b86e51cc4f3fff31813684b5b21d7a693b697e5a3a4a3d027ddca35293006c982d9b1d6ada52a8int, 0x712c1f1c776697b14bbeed764743f9bd716a81e370d539c134da96922b392971685bc71b5d5c1cf6cc9626ff2a6f7edint, 0x83ddbda432e3af81b99c762152300390784872da7b07118c62c3e50c013c00a9c08b5dc04a50ca0107658406d7442f9int);
    }
    assert(pow(11, 0x680447a8e5ff9a692c6e9nat) % (modulus() as int) == 0x86406421a11a07b0bedae313cb0f55e4daff60f7fe4caebee6b9dbd993e0ab70aa04dc155e5189da33f703f1f0159int) by {
        lemma_pow_step(11, 0x340223d472ffcd3496374nat, 1, 0x712c1f1c776697b14bbeed764743f9bd716a81e370d539c134da96922b392971685bc71b5d5c1cf6cc9626ff2a6f7edint, 0x86406421a11a07b0bedae313cb0f55e4daff60f7fe4caebee6b9dbd993e0ab70aa04dc155e5189da33f703f1f0159int, 0x1529e3dfd09c14ac75e9e4ef465d1f37a9f63603775302c1f72b7fb186a8601ca9950ceffb60f0ce69900b67977e5a7eint);
    }
    assert(pow(11, 0xd0088f51cbff34d258dd3nat) % (modulus() as int) == 0xe44064ccd5a17feb24e4d91a04da37ee9634c094a1ca45385325d6f18d99647045aece3f1d512c76ae393a12c2e1a25int) by {
        lemma_pow_step(11, 0x680447a8e5ff9a692c6e9nat, 1, 0x86406421a11a07b0bedae313cb0f55e4daff60f7fe4caebee6b9dbd993e0ab70aa04dc155e5189da33f703f1f0159int, 0xe44064ccd5a17feb24e4d91a04da37ee9634c094a1ca45385325d6f18d99647045aece3f1d512c76ae393a12c2e1a25int, 0x1dc816fc232db93740c4b2f94931648d20e137671281b9c4cdb1fa449dfa9febda7572b58e5f0a82406d6fa1a0a2int);
    }
    assert(pow(11, 0x1a0111ea397fe69a4b1ba7nat) % (modulus() as int) == 0x143418d8138b32a895efd4749bd77e986161e95912fb43d99fe766ce8eab77d39c1e8c7194c283ce60cc7dc122f685cint) by {
        lemma_pow_step(11, 0xd0088f51cbff34d258dd3nat, 1, 0xe44064ccd5a17feb24e4d91a04da37ee9634c094a1ca45385325d6f18d99647045aece3f1d512c76ae393a12c2e1a25int, 0x143418d8138b32a895efd4749bd77e986161e95912fb43d99fe766ce8eab77d39c1e8c7194c283ce60cc7dc122f685cint, 0x56163e074c7bbbbdaacc325b18de96e57538cfa151e5d2d965637e07ec31105c31f8f68a840de16c57f5888363bf7b65int);
    }
    assert(pow(11, 0x340223d472ffcd3496374fnat) % (modulus() as int) == 0xffee3852e4a40c8cddd2c670fa667039f5bf409ad3de206d7ad018ed9e95e65c738f0880ecbfeb717902c9975413c22int) by {
        lemma_pow_step(11, 0x1a0111ea397fe69a4b1ba7nat, 1, 0x143418d8138b32a895efd4749bd77e986161e95912fb43d99fe766ce8eab77d39c1e8c7194c283ce60cc7dc122f685cint, 0xffee3852e4a40c8cddd2c670fa667039f5bf409ad3de206d7ad018ed9e95e65c738f0880ecbfeb717902c9975413c22int, 0xacaa1959f04d5435dd21edbfdd0d162c3bbc89ff616ab79eed55ecd7ca2f0c42bcdb98dd647ab0c980abeae5954eaaint);
    }
    assert(pow(11, 0x680447a8e5ff9a692c6e9enat) % (modulus() as int) == 0xba739217eba09caafd26ba4e23da723fa2e27fb834d6cd69c2eccd8125adcbc79a50f3cd2feddcfdf9a9a7170474b3fint) by {
        lemma_pow_step(11, 0x340223d472ffcd3496374fnat, 0, 0xffee3852e4a40c8cddd2c670fa667039f5bf409ad3de206d7ad018ed9e95e65c738f0880ecbfeb717902c9975413c22int, 0xba739217eba09caafd26ba4e23da723fa2e27fb834d6cd69c2eccd8125adcbc79a50f3cd2feddcfdf9a9a7170474b3fint, 0x9d6d7cc81eb8d354234312a7dc2df05c0e67488e04dc237d996891a301ad0cb4f6a1107608cbec86ceca480ad24fbcfint);
    }
    assert(pow(11, 0xd0088f51cbff34d258dd3dnat) % (modulus() as int) == 0x16ad9123bc198cdb33310a91cfa4d88ce8e4df1e3269786013855260b337a8e4c8e387a49c728822d56fd2c2675cb222int) by {
        lemma_pow_step(11, 0x680447a8e5ff9a692c6e9enat, 1, 0xba739217eba09caafd26ba4e23da723fa2e27fb834d6cd69c2eccd8125adcbc79a50f3cd2feddcfdf9a9a7170474b3fint, 0x16ad9123bc198cdb33310a91cfa4d88ce8e4df1e3269786013855260b337a8e4c8e387a49c728822d56fd2c2675cb222int, 0x39718add6c11dde0ff4d0acfb1e6119dce404518d394e66a5ab0eeb578ca8ae6190ca5234696cad5e375533b3234133bint);
    }
    assert(pow(11, 0x1a0111ea397fe69a4b1ba7bnat) % (modulus() as int) == 0xea564952c1110ea4bd64c2d124fd3599aa66646f9a866bc1d470719459a047f9557c4a303a09dc16750a04d99eed4c6int) by {
        lemma_pow_step(11, 0xd0088f51cbff34d258dd3dnat, 1, 0x16ad9123bc198cdb33310a91cfa4d88ce8e4df1e3269786013855260b337a8e4c8e387a49c728822d56fd2c2675cb222int, 0xea564952c1110ea4bd64c2d124fd3599aa66646f9a866bc1d470719459a047f9557c4a303a09dc16750a04d99eed4c6int, 0xd98cc5c27281a00769b6a1ffbc412fa6a6d00c57dca637c2da87a5045f32c7d9ed566cf2918cf00a03fea7357db25eb2int);
    }
    assert(pow(11, 0x340223d472ffcd3496374f6nat) % (modulus() as int) == 0x578ecb2d97a1614acc595e763b178b3c0aa8f8c329db89079723f4629eadcabf8f35a412d213abe0d6d632c3faf7e91int) by {
        lemma_pow_step(11, 0x1a0111ea397fe69a4b1ba7bnat, 0, 0xea564952c1110ea4bd64c2d124fd3599aa66646f9a866bc1d470719459a047f9557c4a303a09dc16750a04d99eed4c6int, 0x578ecb2d97a1614acc595e763b178b3c0aa8f8c329db89079723f4629eadcabf8f35a412d213abe0d6d632c3faf7e91int, 0x83fbb5eae627f3ee5fc619b56e7a01d62a440d64f29a43c2bf84810111760f4cb67d280159029601fa5b6ea57ac1fb9int);
    }
    assert(pow(11, 0x680447a8e5ff9a692c6e9ednat) % (modulus() as int) == 0x193a4c88e3f61e7fde4e293984111d5b072f0359934f2eca5ce7a7b33ec40adf344cabfb4abcd0c518d086c08c833643int) by {
        lemma_pow_step(11, 0x340223d472ffcd3496374f6nat, 1, 0x578ecb2d97a1614acc595e763b178b3c0aa8f8c329db89079723f4629eadcabf8f35a412d213abe0d6d632c3faf7e91int, 0x193a4c88e3f61e7fde4e293984111d5b072f0359934f2eca5ce7a7b33ec40adf344cabfb4abcd0c518d086c08c833643int, 0xcaaf0f959f8f551b259116b64e140697109653b9be565f8abce575c557a2f0549d69f67b182b3b11bf605460ae12f78int);
    }
}

proof fn lemma_z_pow_part_9()
    ensures
        pow(11, 0x1a0111ea397fe69a4b1ba7b643nat) % (modulus() as int) == 0x19bd420764d2f92ac26ba4560ab73c7578d38bc66b58eb2134e6ad21273227455600f1f8fc9d4abe88b45af5b3749062int,
{
    lemma_z_pow_part_8();
    assert(pow(11, 0xd0088f51cbff34d258dd3dbnat) % (modulus() as int) == 0x134d51fc12d91265e1c69cf31d5ea520f7167c092fc8bcca5857d67df3826e93c526d119e46714a626ed82638c309f1int) by {
        lemma_pow_step(11, 0x680447a8e5ff9a692c6e9ednat, 1, 0x193a4c88e3f61e7fde4e293984111d5b072f0359934f2eca5ce7a7b33ec40adf344cabfb4abcd0c518d086c08c833643int, 0x134d51fc12d91265e1c69cf31d5ea520f7167c092fc8bcca5857d67df3826e93c526d119e46714a626ed82638c309f1int, 0x10d3817bf41fbc04911a64947d7801d7dc16823618e9781254e1bfaa44a2c2defbfff387e0440adbe058b46cc9ce9e8d6int);
    }
    assert(pow(11, 0x1a0111ea397fe69a4b1ba7b6nat) % (modulus() as int) == 0xa7dc13a806190e7bb019b4032a0abffc4fd50ec653dd50bf2a2ea403c6dec5713a2393ceafc61add5b7a61ad577b225int) by {
        lemma_pow_step(11, 0xd0088f51cbff34d258dd3dbnat, 0, 0x134d51fc12d91265e1c69cf31d5ea520f7167c092fc8bcca5857d67df3826e93c526d119e46714a626ed82638c309f1int, 0xa7dc13a806190e7bb019b4032a0abffc4fd50ec653dd50bf2a2ea403c6dec5713a2393ceafc61add5b7a61ad577b225int, 0xe53c6d29c43f1ce384c1fe3a912ba4251ba56d88a1a0db07732bdf9c747134daa8101b9040bebfe235b8fa8676834int);
    }
    assert(pow(11, 0x340223d472ffcd3496374f6cnat) % (modulus() as int) == 0x139b9173923ec1d0e5faa8764387180ab637e2a9a8e0c7e5190962e70ce8338c76313873e39d0b15af11a21345d0620int) by {
        lemma_pow_step(11, 0x1a0111ea397fe69a4b1ba7b6nat, 0, 0xa7dc13a806190e7bb019b4032a0abffc4fd50ec653dd50bf2a2ea403c6dec5713a2393ceafc61add5b7a61ad577b225int, 0x139b9173923ec1d0e5faa8764387180ab637e2a9a8e0c7e5190962e70ce8338c76313873e39d0b15af11a21345d0620int, 0x43b8d35c549820d40bc3cbb77fd587861a0bd63562b7a973b3e93f10c1734ec112f1d169128422a0ff8290ec1ac59abint);
    }
    assert(pow(11, 0x680447a8e5ff9a692c6e9ed9nat) % (modulus() as int) == 0x50c3b1a74befb0a363e3e7424caf0223ebceaf20c298fad3dc04e56ff8001c30ea3940fc071fc9c620913b15cd585d1int) by {
        lemma_pow_step(11, 0x340223d472ffcd3496374f6cnat, 1, 0x139b9173923ec1d0e5faa8764387180ab637e2a9a8e0c7e5190962e70ce8338c76313873e39d0b15af11a21345d0620int, 0x50c3b1a74befb0a363e3e7424caf0223ebceaf20c298fad3dc04e56ff8001c30ea3940fc071fc9c620913b15cd585d1int, 0xa2a1702505f3094659ed47eda9de8e83c7b4d7c36cdbf44eb01c4e28aa9e3e388161b11f27fc816ca312e73c22728dint);
    }
    assert(pow(11, 0xd0088f51cbff34d258dd3db2nat) % (modulus() as int) == 0x3201871edd01015567e24b1ddcbc3bd07b81d4045a859f60f7f0a15d87c80fa6a0b56b0bdc4d90ef79ccdf689254684int) by {
        lemma_pow_step(11, 0x680447a8e5ff9a692c6e9ed9nat, 0, 0x50c3b1a74befb0a363e3e7424caf0223ebceaf20c298fad3dc04e56ff8001c30ea3940fc071fc9c620913b15cd585d1int, 0x3201871edd01015567e24b1ddcbc3bd07b81d4045a859f60f7f0a15d87c80fa6a0b56b0bdc4d90ef79ccdf689254684int, 0xfad715fe297f077b1a7c9c33ccdb0e1003764cbd288dfc94c5f5fa471b49632b8eb1a23a09cc272eb5da12921daa57int);
    }
    assert(pow(11, 0x1a0111ea397fe69a4b1ba7b64nat) % (modulus() as int) == 0x12bc4259c393208f34b54a304d7cb9f3e3c4726025b0d0c0a4c05ed0677e6cd12ea0325db08c6c7fdb4eebe186cd8492int) by {
        lemma_pow_step(11, 0xd0088f51cbff34d258dd3db2nat, 0, 0x3201871edd01015567e24b1ddcbc3bd07b81d4045a859f60f7f0a15d87c80fa6a0b56b0bdc4d90ef79ccdf689254684int, 0x12bc4259c393208f34b54a304d7cb9f3e3c4726025b0d0c0a4c05ed0677e6cd12ea0325db08c6c7fdb4eebe186cd8492int, 0x60294dc87bf1b5f27d2e7966b08be536ee517ff51b9279d365728c92d835c4797806a5e3768e86d13338ee72cece7aint);
    }
    assert(pow(11, 0x340223d472ffcd3496374f6c8nat) % (modulus() as int) == 0x1cdd8c7a30a47c7c8844a2d136325bf2283ef74a7e4c8ec6a9a2fa5f4dda4f74ce56b15d70e6a45b403b6e38f006964int) by {
        lemma_pow_step(11, 0x1a0111ea397fe69a4b1ba7b64nat, 0, 0x12bc4259c393208f34b54a304d7cb9f3e3c4726025b0d0c0a4c05ed0677e6cd12ea0325db08c6c7fdb4eebe186cd8492int, 0x1cdd8c7a30a47c7c8844a2d136325bf2283ef74a7e4c8ec6a9a2fa5f4dda4f74ce56b15d70e6a45b403b6e38f006964int, 0xd7f96f37f191bb6dbac03d522035837d7924bbf4600ff19ad6ec8662fa24107535b2a23d196e3d65d4988a40c0f6da0int);
    }
    assert(pow(11, 0x680447a8e5ff9a692c6e9ed90nat) % (modulus() as int) == 0x150ebff5ba403482fa2acf90b96ea563951a2f8119e8ed9e7044193ba3376c3406b45ac0920f15d4d2f48a1dfd042189int) by {
        lemma_pow_step(11, 0x340223d472ffcd3496374f6c8nat, 0, 0x1cdd8c7a30a47c7c8844a2d136325bf2283ef74a7e4c8ec6a9a2fa5f4dda4f74ce56b15d70e6a45b403b6e38f006964int, 0x150ebff5ba403482fa2acf90b96ea563951a2f8119e8ed9e7044193ba3376c3406b45ac0920f15d4d2f48a1dfd042189int, 0x200a9f4e12c0ea349e512fc56deb382de5c0692b442e29a275383c3347ec960107190d70b717f8e9e6e499dbb22895int);
    }
    assert(pow(11, 0xd0088f51cbff34d258dd3db21nat) % (modulus() as int) == 0x12e8cd01d8cf7863b704f4a5effaf4ae88874b82684570b781403f0a0698cc9a273039c3e2feca83546d7056685e18dbint) by {
        lemma_pow_step(11, 0x680447a8e5ff9a692c6e9ed90nat, 1, 0x150ebff5ba403482fa2acf90b96ea563951a2f8119e8ed9e7044193ba3376c3406b45ac0920f15d4d2f48a1dfd042189int, 0x12e8cd01d8cf7863b704f4a5effaf4ae88874b82684570b781403f0a0698cc9a273039c3e2feca83546d7056685e18dbint, 0xbb926d12080c24c18c004c66df350110e9e80bdf60ec6caf736389c2069bc146fab963d065e1d5927498c4e1b205bae0int);
    }
    assert(pow(11, 0x1a0111ea397fe69a4b1ba7b643nat) % (modulus() as int) == 0x19bd420764d2f92ac26ba4560ab73c7578d38bc66b58eb2134e6ad21273227455600f1f8fc9d4abe88b45af5b3749062int) by {
        lemma_pow_step(11, 0xd0088f51cbff34d258dd3db21nat, 1, 0x12e8cd01d8cf7863b704f4a5effaf4ae88874b82684570b781403f0a0698cc9a273039c3e2feca83546d7056685e18dbint, 0x19bd420764d2f92ac26ba4560ab73c7578d38bc66b58eb2134e6ad21273227455600f1f8fc9d4abe88b45af5b3749062int, 0x9740c52f19f2e655533e2252caf04645258d25208c2716d06ad527b87a08bc72f2874b870f1228a1eaba1c7e05ec8553int);
    }
}

proof fn lemma_z_pow_part_10()
    ensures
        pow(11, 0x680447a8e5ff9a692c6e9ed90d2enat) % (modulus() as int) == 0xbb55095d52cea922e47505409663b97c81bea39f28fdbd3d2bc7146ad1214ae7cbff7826432f2be04fb1065c8d2be54int,
{
    lemma_z_pow_part_9();
    assert(pow(11, 0x340223d472ffcd3496374f6c86nat) % (modulus() as int) == 0x181df29773cfde449919175e5a72330773ceea6d5d6378f21716faeca32ec029a52c0aed2a147f1ddc382b99397189e4int) by {
        lemma_pow_step(11, 0x1a0111ea397fe69a4b1ba7b643nat, 0, 0x19bd420764d2f92ac26ba4560ab73c7578d38bc66b58eb2134e6ad21273227455600f1f8fc9d4abe88b45af5b3749062int, 0x181df29773cfde449919175e5a72330773ceea6d5d6378f21716faeca32ec029a52c0aed2a147f1ddc382b99397189e4int, 0x197a22fa9373fdb14c5ed486525d419529459a172a0178f017f89a3248baeb7d53f247d9582f422fa8db762b894692e0int);
    }
    assert(pow(11, 0x680447a8e5ff9a692c6e9ed90dnat) % (modulus() as int) == 0x17b6e5cb7b75ef203d537aab315464f0872dbc5beccc1dfde715604bb84f8d8d9ef3d6640c7221a1af0277c1c1c03253int) by {
        lemma_pow_step(11, 0x340223d472ffcd3496374f6c86nat, 1, 0x181df29773cfde449919175e5a72330773ceea6d5d6378f21716faeca32ec029a52c0aed2a147f1ddc382b99397189e4int, 0x17b6e5cb7b75ef203d537aab315464f0872dbc5beccc1dfde715604bb84f8d8d9ef3d6640c7221a1af0277c1c1c03253int, 0xf608c148c1a57c07e351aa8609e3c423b4d1134809a927b06d351a09b8518f3fe55d933a4b1fb3437605e675981e9e17int);
    }
    assert(pow(11, 0xd0088f51cbff34d258dd3db21anat) % (modulus() as int) == 0x148dec45f6a65dd14655d463d427d200e355856d7d49d9a2db1fc34dfb2c71bb2713af3c508de426d0a2b5692082f66aint) by {
        lemma_pow_step(11, 0x680447a8e5ff9a692c6e9ed90dnat, 0, 0x17b6e5cb7b75ef203d537aab315464f0872dbc5beccc1dfde715604bb84f8d8d9ef3d6640c7221a1af0277c1c1c03253int, 0x148dec45f6a65dd14655d463d427d200e355856d7d49d9a2db1fc34dfb2c71bb2713af3c508de426d0a2b5692082f66aint, 0x15a056dbe9bb0654994df5078052bec7aee3d266d3a67255a3fed6739878bb5ea3fac0e75cf1207390fa6ade5521b17dint);
    }
    assert(pow(11, 0x1a0111ea397fe69a4b1ba7b6434nat) % (modulus() as int) == 0x56ac992cd5e8bae7ad4fb91de8fe5cf448930e9799453f3993aa41574e466f005cb471255332ff79abba74485dd011fint) by {
        lemma_pow_step(11, 0xd0088f51cbff34d258dd3db21anat, 0, 0x148dec45f6a65dd14655d463d427d200e355856d7d49d9a2db1fc34dfb2c71bb2713af3c508de426d0a2b5692082f66aint, 0x56ac992cd5e8bae7ad4fb91de8fe5cf448930e9799453f3993aa41574e466f005cb471255332ff79abba74485dd011fint, 0x103f297e59090b66436d118edcee49ceedc175c8bf76a2a3978fdd2bc90e6a5e6eabf4d8e463a1943b504a1b293fa84fint);
    }
    assert(pow(11, 0x340223d472ffcd3496374f6c869nat) % (modulus() as int) == 0x19189917df36a7c6bebbc4ac82af2b53251b26443d23e260f5bd4ac415062978282d366801159f9fc79e88f7cb8a4212int) by {
        lemma_pow_step(11, 0x1a0111ea397fe69a4b1ba7b6434nat, 1, 0x56ac992cd5e8bae7ad4fb91de8fe5cf448930e9799453f3993aa41574e466f005cb471255332ff79abba74485dd011fint, 0x19189917df36a7c6bebbc4ac82af2b53251b26443d23e260f5bd4ac415062978282d366801159f9fc79e88f7cb8a4212int, 0xc69d1ff098131837fe4acd6678c41bde175e72812cfd612746070003f4185d302c9aa75ee756d15800186a6277bb3abint);
    }
    assert(pow(11, 0x680447a8e5ff9a692c6e9ed90d2nat) % (modulus() as int) == 0x15b41700e11583e2d21d675ca5a3454cc483c946b7f3d946f47db051947cdec31135d7cdab5238f93dce1a8a89d0bde2int) by {
        lemma_pow_step(11, 0x340223d472ffcd3496374f6c869nat, 0, 0x19189917df36a7c6bebbc4ac82af2b53251b26443d23e260f5bd4ac415062978282d366801159f9fc79e88f7cb8a4212int, 0x15b41700e11583e2d21d675ca5a3454cc483c946b7f3d946f47db051947cdec31135d7cdab5238f93dce1a8a89d0bde2int, 0x18383e85c5e8c5bf20b09bbabdc8c4108ae3bfd4a435294f7f462c00aa2063bc6c3ea25e965e490fa72cc9038e13a226int);
    }
    assert(pow(11, 0xd0088f51cbff34d258dd3db21a5nat) % (modulus() as int) == 0x1293f0f525ae063e3bdce6707c54d196b120a11bdbe98f33334cacd59a9945163c4a843fb2bd4500a0084b4d69fe4050int) by {
        lemma_pow_step(11, 0x680447a8e5ff9a692c6e9ed90d2nat, 1, 0x15b41700e11583e2d21d675ca5a3454cc483c946b7f3d946f47db051947cdec31135d7cdab5238f93dce1a8a89d0bde2int, 0x1293f0f525ae063e3bdce6707c54d196b120a11bdbe98f33334cacd59a9945163c4a843fb2bd4500a0084b4d69fe4050int, 0xc7412655efd49e8757964509614548cdc485b7815ec3cda57a304ad3c40864df0e19eebd70d86f2432126670f0202b14int);
    }
    assert(pow(11, 0x1a0111ea397fe69a4b1ba7b6434bnat) % (modulus() as int) == 0x141462e7016e939c5898c2474bc6e707f08dea3ded988c95a6d59df74c6fa580507aaa22e328b76eaf9548fadb89575int) by {
        lemma_pow_step(11, 0xd0088f51cbff34d258dd3db21a5nat, 1, 0x1293f0f525ae063e3bdce6707c54d196b120a11bdbe98f33334cacd59a9945163c4a843fb2bd4500a0084b4d69fe4050int, 0x141462e7016e939c5898c2474bc6e707f08dea3ded988c95a6d59df74c6fa580507aaa22e328b76eaf9548fadb89575int, 0x91ff1d20757ab1574abf0b71160a5a0adb7e6ac685cdd5aa6adc27c9069ed699df7d84ad307334c1c0c167c29b6278a1int);
    }
    assert(pow(11, 0x340223d472ffcd3496374f6c8697nat) % (modulus() as int) == 0x1915516bced3ae43429c15d00ef7b579650eb80ae6fdf17db77a1cfecd52c4e0389d42bdbbdcb5f9da41187857695b8dint) by {
        lemma_pow_step(11, 0x1a0111ea397fe69a4b1ba7b6434bnat, 1, 0x141462e7016e939c5898c2474bc6e707f08dea3ded988c95a6d59df74c6fa580507aaa22e328b76eaf9548fadb89575int, 0x1915516bced3ae43429c15d00ef7b579650eb80ae6fdf17db77a1cfecd52c4e0389d42bdbbdcb5f9da41187857695b8dint, 0xaa8dbe984bad0ea54aeec697d013b0a1f44e054f0f3e847d077588a2c57e1c794684ee844b5798f5562d62bd5443f2int);
    }
    assert(pow(11, 0x680447a8e5ff9a692c6e9ed90d2enat) % (modulus() as int) == 0xbb55095d52cea922e47505409663b97c81bea39f28fdbd3d2bc7146ad1214ae7cbff7826432f2be04fb1065c8d2be54int) by {
        lemma_pow_step(11, 0x340223d472ffcd3496374f6c8697nat, 0, 0x1915516bced3ae43429c15d00ef7b579650eb80ae6fdf17db77a1cfecd52c4e0389d42bdbbdcb5f9da41187857695b8dint, 0xbb55095d52cea922e47505409663b97c81bea39f28fdbd3d2bc7146ad1214ae7cbff7826432f2be04fb1065c8d2be54int, 0x1831ea3c8b1b9a18e4ba306f6d1529439530896e62ebf82149b55d1271313aabe339a5961c176965e21330de3ebd67ffint);
    }
}

proof fn lemma_z_pow_part_11()
    ensures
        pow(11, 0x1a0111ea397fe69a4b1ba7b6434bacdnat) % (modulus() as int) == 0x17f57786dd95ca8c83d6fbc02f774622d7382df22b890b54c00eb7b265d783ef084816c8be62f5f4e94974de8d02557aint,
{
    lemma_z_pow_part_10();
    assert(pow(11, 0xd0088f51cbff34d258dd3db21a5dnat) % (modulus() as int) == 0x193717d6244d6df5b7900aa2bbd50dff7735a548ed2e07e2f68006db56c8f01a3c0da885832c0d380bd971a9680db36aint) by {
        lemma_pow_step(11, 0x680447a8e5ff9a692c6e9ed90d2enat, 1, 0xbb55095d52cea922e47505409663b97c81bea39f28fdbd3d2bc7146ad1214ae7cbff7826432f2be04fb1065c8d2be54int, 0x193717d6244d6df5b7900aa2bbd50dff7735a548ed2e07e2f68006db56c8f01a3c0da885832c0d380bd971a9680db36aint, 0x39fccc2321264f688a104281f8f0e6faf78812aa7337869848b1051206ccfd45be0578717e1e349f3355d9c0e4932352int);
    }
    assert(pow(11, 0x1a0111ea397fe69a4b1ba7b6434banat) % (modulus() as int) == 0x1c8d833d185aba8fd70f081c3cd636ce0138de496ee08c0f62750ae86e1fde874d1312556e144b11f8e65badd14b3c8int) by {
        lemma_pow_step(11, 0xd0088f51cbff34d258dd3db21a5dnat, 0, 0x193717d6244d6df5b7900aa2bbd50dff7735a548ed2e07e2f68006db56c8f01a3c0da885832c0d380bd971a9680db36aint, 0x1c8d833d185aba8fd70f081c3cd636ce0138de496ee08c0f62750ae86e1fde874d1312556e144b11f8e65badd14b3c8int, 0x18733e87f443ca11120526b828f182da449ec906a4dfc3e12f93dcd7263205ddcfda1ec0505574743e88a0cb089a1c54int);
    }
    assert(pow(11, 0x340223d472ffcd3496374f6c86975nat) % (modulus() as int) == 0x153f169b8c3b98b48c4c14e588c1d8f56c1308fc8cf9e80856ee184bc08f0f2ef0aac2ba0e27894dcc96d8646acc1d8cint) by {
        lemma_pow_step(11, 0x1a0111ea397fe69a4b1ba7b6434banat, 1, 0x1c8d833d185aba8fd70f081c3cd636ce0138de496ee08c0f62750ae86e1fde874d1312556e144b11f8e65badd14b3c8int, 0x153f169b8c3b98b48c4c14e588c1d8f56c1308fc8cf9e80856ee184bc08f0f2ef0aac2ba0e27894dcc96d8646acc1d8cint, 0x158dce53b95341d99fe19a59c0a7d6f3ea6e37886f1ba2d0ff2236bceb6fdd88c92981cdbc27bc2426cece5d0e27b9cint);
    }
    assert(pow(11, 0x680447a8e5ff9a692c6e9ed90d2ebnat) % (modulus() as int) == 0x1127f9876aaa1535b585d4b0fb6f6a652f7f70a086ca53c1f201acb9d2b2e97ebe22171b043c0585410310071da31bdbint) by {
        lemma_pow_step(11, 0x340223d472ffcd3496374f6c86975nat, 1, 0x153f169b8c3b98b48c4c14e588c1d8f56c1308fc8cf9e80856ee184bc08f0f2ef0aac2ba0e27894dcc96d8646acc1d8cint, 0x1127f9876aaa1535b585d4b0fb6f6a652f7f70a086ca53c1f201acb9d2b2e97ebe22171b043c0585410310071da31bdbint, 0xbef3714d9cffded713957f6138f506a2538052be4e3aee3b57a259ef90186ddfea95dfbc081b42a1e927292245bf42ffint);
    }
    assert(pow(11, 0xd0088f51cbff34d258dd3db21a5d6nat) % (modulus() as int) == 0x71abf40fd151c0b92c9da8b8eb0073b5b1f36f872891ebaf641c4eb64e01bb8c22d7a53fd03b66c02fbee682e1c3e6aint) by {
        lemma_pow_step(11, 0x680447a8e5ff9a692c6e9ed90d2ebnat, 0, 0x1127f9876aaa1535b585d4b0fb6f6a652f7f70a086ca53c1f201acb9d2b2e97ebe22171b043c0585410310071da31bdbint, 0x71abf40fd151c0b92c9da8b8eb0073b5b1f36f872891ebaf641c4eb64e01bb8c22d7a53fd03b66c02fbee682e1c3e6aint, 0xb51965e8b90c879ff88a2ce8f576bd15dac9d201260ae7a9530b74977e4f6753e6b320bfe481c1dbbf8cb9fd0360ccdint);
    }
    assert(pow(11, 0x1a0111ea397fe69a4b1ba7b6434bacnat) % (modulus() as int) == 0x69f1a71d97393d3afa6eb17daaf09c84f7970abfdc6aa4d55acfaf1d6c3efc4531013ab003a9663d19adbe621de91faint) by {
        lemma_pow_step(11, 0xd0088f51cbff34d258dd3db21a5d6nat, 0, 0x71abf40fd151c0b92c9da8b8eb0073b5b1f36f872891ebaf641c4eb64e01bb8c22d7a53fd03b66c02fbee682e1c3e6aint, 0x69f1a71d97393d3afa6eb17daaf09c84f7970abfdc6aa4d55acfaf1d6c3efc4531013ab003a9663d19adbe621de91faint, 0x1f0e43426ccafd097625c76cec8d3883477be4e0e506fd02b3868733f1e965998b81752cb0d4c9044912ea9db58d5beint);
    }
    assert(pow(11, 0x340223d472ffcd3496374f6c869759nat) % (modulus() as int) == 0x35864f973e4817a1bf87311181e6b21c456f48cbe20eacf1a1fd8dd13b8e23a9628e042a652d0c3811600eaa427cd94int) by {
        lemma_pow_step(11, 0x1a0111ea397fe69a4b1ba7b6434bacnat, 1, 0x69f1a71d97393d3afa6eb17daaf09c84f7970abfdc6aa4d55acfaf1d6c3efc4531013ab003a9663d19adbe621de91faint, 0x35864f973e4817a1bf87311181e6b21c456f48cbe20eacf1a1fd8dd13b8e23a9628e042a652d0c3811600eaa427cd94int, 0x128be7589e27c50f529114e760890616ad30ea56092ecd0ae2aaa014387f0e3632ae4b1c3a26cd8015d41c0566eac3e8int);
    }
    assert(pow(11, 0x680447a8e5ff9a692c6e9ed90d2eb3nat) % (modulus() as int) == 0xdb16c4bf55b89f0d0508ead54228710e90ab3e1a50958be749aa7b97a96ef89a638ed165336f203fcf76fcf37202a62int) by {
        lemma_pow_step(11, 0x340223d472ffcd3496374f6c869759nat, 1, 0x35864f973e4817a1bf87311181e6b21c456f48cbe20eacf1a1fd8dd13b8e23a9628e042a652d0c3811600eaa427cd94int, 0xdb16c4bf55b89f0d0508ead54228710e90ab3e1a50958be749aa7b97a96ef89a638ed165336f203fcf76fcf37202a62int, 0x4bbdf935143a3e03c12ce78b34a35325aeb5f917655d9cc9488b302ad74157c7c71855316ddd10703226678d903906aint);
    }
    assert(pow(11, 0xd0088f51cbff34d258dd3db21a5d66nat) % (modulus() as int) == 0x164b9923fd8cdccbe0588c335407d009712d4a48dfa7fcd6d9a4fdafe334ec537df2738250595f9f84aee99a8b5eb4a6int) by {
        lemma_pow_step(11, 0x680447a8e5ff9a692c6e9ed90d2eb3nat, 0, 0xdb16c4bf55b89f0d0508ead54228710e90ab3e1a50958be749aa7b97a96ef89a638ed165336f203fcf76fcf37202a62int, 0x164b9923fd8cdccbe0588c335407d009712d4a48dfa7fcd6d9a4fdafe334ec537df2738250595f9f84aee99a8b5eb4a6int, 0x735db0fef61d1e2de37555dcfe8acc0ec5687c14586dfe36108257791bc1841f138c504a9a50fec4973b4715b0aca9aint);
    }
    assert(pow(11, 0x1a0111ea397fe69a4b1ba7b6434bacdnat) % (modulus() as int) == 0x17f57786dd95ca8c83d6fbc02f774622d7382df22b890b54c00eb7b265d783ef084816c8be62f5f4e94974de8d02557aint) by {
        lemma_pow_step(11, 0xd0088f51cbff34d258dd3db21a5d66nat, 1, 0x164b9923fd8cdccbe0588c335407d009712d4a48dfa7fcd6d9a4fdafe334ec537df2738250595f9f84aee99a8b5eb4a6int, 0x17f57786dd95ca8c83d6fbc02f774622d7382df22b890b54c00eb7b265d783ef084816c8be62f5f4e94974de8d02557aint, 0xd2450127dd9d4ffbff4dbbf4e0a69c7c10a9d0b1f3ac57e1439212b82686dbbe713572fb9598d7d969d0c04bc24c4fb6int);
    }
}

proof fn lemma_z_pow_part_12()
    ensures
        pow(11, 0x680447a8e5ff9a692c6e9ed90d2eb35d9nat) % (modulus() as int) == 0x4d207f59239d82a3ee7f2e2f34c1908cd72a4ddf35d2b71ea1cd391357cc5f5f732d18f7e15ac3839654fe2bf7d4e24int,
{
    lemma_z_pow_part_11();
    assert(pow(11, 0x340223d472ffcd3496374f6c869759anat) % (modulus() as int) == 0x98095523d660c613bb94fe683dbc10fdff14d905880069ec12ce33e7be97f7461c24694264348fb20aa12834b180887int) by {
        lemma_pow_step(11, 0x1a0111ea397fe69a4b1ba7b6434bacdnat, 0, 0x17f57786dd95ca8c83d6fbc02f774622d7382df22b890b54c00eb7b265d783ef084816c8be62f5f4e94974de8d02557aint, 0x98095523d660c613bb94fe683dbc10fdff14d905880069ec12ce33e7be97f7461c24694264348fb20aa12834b180887int, 0x16130c10fb5b85976f049b14a5530a0d6688e869def61331d78b9385736e4326dfce92e8c427796a7b7b30ad42e5a0d7int);
    }
    assert(pow(11, 0x680447a8e5ff9a692c6e9ed90d2eb35nat) % (modulus() as int) == 0x5c7120026dbb482cbbdaf09aa03b7829073875c17491400e44f27a1076b2b8173b11ffd854d38d9cd2be9b8880f12e6int) by {
        lemma_pow_step(11, 0x340223d472ffcd3496374f6c869759anat, 1, 0x98095523d660c613bb94fe683dbc10fdff14d905880069ec12ce33e7be97f7461c24694264348fb20aa12834b180887int, 0x5c7120026dbb482cbbdaf09aa03b7829073875c17491400e44f27a1076b2b8173b11ffd854d38d9cd2be9b8880f12e6int, 0x2631e2fd6bd47be5e3f70bb15d47ad4fe9f1e65825ad3ba54e6f73b50e3748fd930d36ad354cb7a4ee0ab0b8f321649fint);
    }
    assert(pow(11, 0xd0088f51cbff34d258dd3db21a5d66bnat) % (modulus() as int) == 0x137ab2c4faa07483a8a48bc5594aa1c1a6b458b0d2cf0ea880af070be7712a428e9015cceee54e898de383ff8caac70fint) by {
        lemma_pow_step(11, 0x680447a8e5ff9a692c6e9ed90d2eb35nat, 1, 0x5c7120026dbb482cbbdaf09aa03b7829073875c17491400e44f27a1076b2b8173b11ffd854d38d9cd2be9b8880f12e6int, 0x137ab2c4faa07483a8a48bc5594aa1c1a6b458b0d2cf0ea880af070be7712a428e9015cceee54e898de383ff8caac70fint, 0xe1ed30b7e1e75e37e503e069d49cdd32fbe3602817f95c9bdf01a8038f3e20c7523bc3406ea6172c49c6600a374a5f7int);
    }
    assert(pow(11, 0x1a0111ea397fe69a4b1ba7b6434bacd7nat) % (modulus() as int) == 0x891722d5850792d68216c95a15f5530047a4591e11b99366b425875b676c0414fdf4f6b3995f5dc531e41610cdfde56int) by {
        lemma_pow_step(11, 0xd0088f51cbff34d258dd3db21a5d66bnat, 1, 0x137ab2c4faa07483a8a48bc5594aa1c1a6b458b0d2cf0ea880af070be7712a428e9015cceee54e898de383ff8caac70fint, 0x891722d5850792d68216c95a15f5530047a4591e11b99366b425875b676c0414fdf4f6b3995f5dc531e41610cdfde56int, 0xa081f69be0a30f2a2a8ed1f38a6c8f0138af760999d44b9a2f60a889da7598b09a19f94c04b7b876804cb8eea69e13ffint);
    }
    assert(pow(11, 0x340223d472ffcd3496374f6c869759aenat) % (modulus() as int) == 0x122742afba8bee29bd7a53810321a0f0dc7440c26de963c6407afe49ef8bbc4183f243992abc4ee0c5b7cffa12b58f70int) by {
        lemma_pow_step(11, 0x1a0111ea397fe69a4b1ba7b6434bacd7nat, 0, 0x891722d5850792d68216c95a15f5530047a4591e11b99366b425875b676c0414fdf4f6b3995f5dc531e41610cdfde56int, 0x122742afba8bee29bd7a53810321a0f0dc7440c26de963c6407afe49ef8bbc4183f243992abc4ee0c5b7cffa12b58f70int, 0x2d2b89e4bad4d324f572f83a6ae8e4ac4ee9ae2268617dfd597c7cc137df6b2db02c6077a2524bc3270b6706903205cint);
    }
    assert(pow(11, 0x680447a8e5ff9a692c6e9ed90d2eb35dnat) % (modulus() as int) == 0xd79d570a45f3891b169b536f3d550a9914bbe97fb65246add3cc3a1c969d8c6d930fe01a55ca3f4383d95603fcf5ddaint) by {
        lemma_pow_step(11, 0x340223d472ffcd3496374f6c869759aenat, 1, 0x122742afba8bee29bd7a53810321a0f0dc7440c26de963c6407afe49ef8bbc4183f243992abc4ee0c5b7cffa12b58f70int, 0xd79d570a45f3891b169b536f3d550a9914bbe97fb65246add3cc3a1c969d8c6d930fe01a55ca3f4383d95603fcf5ddaint, 0x8b66786ee487946a38285982892b1a28496e1c34da1162c39f340a1d8c161e63020300269982f84799f09a18148c5772int);
    }
    assert(pow(11, 0xd0088f51cbff34d258dd3db21a5d66bbnat) % (modulus() as int) == 0x684de3c86fd456cbe509143e3e1f84bfd30109486d262bac134bae09ff2ad6721e244c54d7d74ca8cea8c4191e891cint) by {
        lemma_pow_step(11, 0x680447a8e5ff9a692c6e9ed90d2eb35dnat, 1, 0xd79d570a45f3891b169b536f3d550a9914bbe97fb65246add3cc3a1c969d8c6d930fe01a55ca3f4383d95603fcf5ddaint, 0x684de3c86fd456cbe509143e3e1f84bfd30109486d262bac134bae09ff2ad6721e244c54d7d74ca8cea8c4191e891cint, 0x4cd18a7809ce9f20a588274127e36becd16330b401e1b302a96291731d989e16f5a507812fe22b4e5e629990beec36d0int);
    }
    assert(pow(11, 0x1a0111ea397fe69a4b1ba7b6434bacd76nat) % (modulus() as int) == 0x173e67b31d55fe71ac1ae909c147ba0a310569be72dd5b5329ee674c56e5038f1f5f4fd1662379fb3c75ec6ba8ed72b2int) by {
        lemma_pow_step(11, 0xd0088f51cbff34d258dd3db21a5d66bbnat, 0, 0x684de3c86fd456cbe509143e3e1f84bfd30109486d262bac134bae09ff2ad6721e244c54d7d74ca8cea8c4191e891cint, 0x173e67b31d55fe71ac1ae909c147ba0a310569be72dd5b5329ee674c56e5038f1f5f4fd1662379fb3c75ec6ba8ed72b2int, 0x1a25ecffdd56ba45354815be2b741619f7e28772062db244c2f7743d0ffa9ff29619982787eddd9948cef4a4e991aint);
    }
    assert(pow(11, 0x340223d472ffcd3496374f6c869759aecnat) % (modulus() as int) == 0x744fb0596e53c0cd1e523e04e6549c9894f9518a81da2fdbc0efb9f400a2b6733b09420e2b77332601d1fd6dcb2dcc0int) by {
        lemma_pow_step(11, 0x1a0111ea397fe69a4b1ba7b6434bacd76nat, 0, 0x173e67b31d55fe71ac1ae909c147ba0a310569be72dd5b5329ee674c56e5038f1f5f4fd1662379fb3c75ec6ba8ed72b2int, 0x744fb0596e53c0cd1e523e04e6549c9894f9518a81da2fdbc0efb9f400a2b6733b09420e2b77332601d1fd6dcb2dcc0int, 0x14c6c1239ae3d1542ccc8812da6a90a39054b322a32a627a5ee0e599ec2d7d4288b84e42fe8249fc0c41cd0d71d8750cint);
    }
    assert(pow(11, 0x680447a8e5ff9a692c6e9ed90d2eb35d9nat) % (modulus() as int) == 0x4d207f59239d82a3ee7f2e2f34c1908cd72a4ddf35d2b71ea1cd391357cc5f5f732d18f7e15ac3839654fe2bf7d4e24int) by {
        lemma_pow_step(11, 0x340223d472ffcd3496374f6c869759aecnat, 1, 0x744fb0596e53c0cd1e523e04e6549c9894f9518a81da2fdbc0efb9f400a2b6733b09420e2b77332601d1fd6dcb2dcc0int, 0x4d207f59239d82a3ee7f2e2f34c1908cd72a4ddf35d2b71ea1cd391357cc5f5f732d18f7e15ac3839654fe2bf7d4e24int, 0x165a991189030fe9b916c3d063c2e990ecb74f53c0bae4f055b98c7aae2e1dfce89621794613763d84f801b94bc8a594int);
    }
}

proof fn lemma_z_pow_part_13()
    ensures
        pow(11, 0x1a0111ea397fe69a4b1ba7b6434bacd76477nat) % (modulus() as int) == 0xf484adc4323256a72dc8ebbb50a872c1938fc41058d82e6bb1271f0b48396bf95e7da249fee4d9abe359ff7e39039bfint,
{
    lemma_z_pow_part_12();
    assert(pow(11, 0xd0088f51cbff34d258dd3db21a5d66bb2nat) % (modulus() as int) == 0xf5789c3f9f61d63a02834c3885fd568bd2d3127471c7c58ab15235c5e751988d8c5825c0cc461a24e2c4d4fec1bdb1dint) by {
        lemma_pow_step(11, 0x680447a8e5ff9a692c6e9ed90d2eb35d9nat, 0, 0x4d207f59239d82a3ee7f2e2f34c1908cd72a4ddf35d2b71ea1cd391357cc5f5f732d18f7e15ac3839654fe2bf7d4e24int, 0xf5789c3f9f61d63a02834c3885fd568bd2d3127471c7c58ab15235c5e751988d8c5825c0cc461a24e2c4d4fec1bdb1dint, 0xe4c1136784f44c82b135ac8d4c58aa35b7f1b5080a027383cbb70af1f3905e45552d63616ba96043743518e68b4dd9int);
    }
    assert(pow(11, 0x1a0111ea397fe69a4b1ba7b6434bacd764nat) % (modulus() as int) == 0x75f3ee386072d16961a07877993887104f5ac6eae16aef1dfd295caa3e0bf281b50338204f4fd4da81fae9c160da120int) by {
        lemma_pow_step(11, 0xd0088f51cbff34d258dd3db21a5d66bb2nat, 0, 0xf5789c3f9f61d63a02834c3885fd568bd2d3127471c7c58ab15235c5e751988d8c5825c0cc461a24e2c4d4fec1bdb1dint, 0x75f3ee386072d16961a07877993887104f5ac6eae16aef1dfd295caa3e0bf281b50338204f4fd4da81fae9c160da120int, 0x90d2b40abb273c9372b2a025a7b9cd12c726ae28129af667f00c9ff656c042a879051261841383c03801c3a014c007bint);
    }
    assert(pow(11, 0x340223d472ffcd3496374f6c869759aec8nat) % (modulus() as int) == 0x17fc7492385adf4bf9bc02bd64932280680bbb64652852f311580a360d5f8047bd0b9eec32bd8c16a64baf872a126768int) by {
        lemma_pow_step(11, 0x1a0111ea397fe69a4b1ba7b6434bacd764nat, 0, 0x75f3ee386072d16961a07877993887104f5ac6eae16aef1dfd295caa3e0bf281b50338204f4fd4da81fae9c160da120int, 0x17fc7492385adf4bf9bc02bd64932280680bbb64652852f311580a360d5f8047bd0b9eec32bd8c16a64baf872a126768int, 0x217064bf0620488f5c4b7fcd9f285f2ba5ecef477bc305e97335d46dea8b3f1877c0a67e2d0d051a38c7738df8c95c8int);
    }
    assert(pow(11, 0x680447a8e5ff9a692c6e9ed90d2eb35d91nat) % (modulus() as int) == 0x1437dd81cfa1c19c8e12ce61c4721c1956c8124fed8a3a548c328dc14bd050200f42380b106d227f2673f47c7d6febf6int) by {
        lemma_pow_step(11, 0x340223d472ffcd3496374f6c869759aec8nat, 1, 0x17fc7492385adf4bf9bc02bd64932280680bbb64652852f311580a360d5f8047bd0b9eec32bd8c16a64baf872a126768int, 0x1437dd81cfa1c19c8e12ce61c4721c1956c8124fed8a3a548c328dc14bd050200f42380b106d227f2673f47c7d6febf6int, 0xf35f40a2daa4a652d34cf2fe2b103a5c45604b71d1ef99abeb7de3d93fce2856415d542deb47baecb16f12a4470e5e5eint);
    }
    assert(pow(11, 0xd0088f51cbff34d258dd3db21a5d66bb23nat) % (modulus() as int) == 0x75bfa74824355a9ed6d54e87e899713b8969de68b13fb5b7f419ed09135a2000611f5c47fce8361044628f8e218e0eint) by {
        lemma_pow_step(11, 0x680447a8e5ff9a692c6e9ed90d2eb35d91nat, 1, 0x1437dd81cfa1c19c8e12ce61c4721c1956c8124fed8a3a548c328dc14bd050200f42380b106d227f2673f47c7d6febf6int, 0x75bfa74824355a9ed6d54e87e899713b8969de68b13fb5b7f419ed09135a2000611f5c47fce8361044628f8e218e0eint, 0xacea87e27be5477447c49df48065cebb7f943c9e7bfacac76f321e1011c00e0a72d510f585ea5b229d82e8ed9758f2baint);
    }
    assert(pow(11, 0x1a0111ea397fe69a4b1ba7b6434bacd7647nat) % (modulus() as int) == 0x1eb1b9ca8cc1ff996197413fd08fbfd0f632bd8718c424d7601fc3ad5c474682e656ba0054e7043c3ab90aba1aa16beint) by {
        lemma_pow_step(11, 0xd0088f51cbff34d258dd3db21a5d66bb23nat, 1, 0x75bfa74824355a9ed6d54e87e899713b8969de68b13fb5b7f419ed09135a2000611f5c47fce8361044628f8e218e0eint, 0x1eb1b9ca8cc1ff996197413fd08fbfd0f632bd8718c424d7601fc3ad5c474682e656ba0054e7043c3ab90aba1aa16beint, 0x16e8e90902c1c2839a5ef3edc85db7f021081dd965283f7b24814f3f2ef88251f0a54c1b8b597dfc02e839bc6c5d0aint);
    }
    assert(pow(11, 0x340223d472ffcd3496374f6c869759aec8enat) % (modulus() as int) == 0x12b93d032af854dab92c53320bd63efd53203408968b1893a590fc27c000ea680ecf47335dd161228a41a2705f771779int) by {
        lemma_pow_step(11, 0x1a0111ea397fe69a4b1ba7b6434bacd7647nat, 0, 0x1eb1b9ca8cc1ff996197413fd08fbfd0f632bd8718c424d7601fc3ad5c474682e656ba0054e7043c3ab90aba1aa16beint, 0x12b93d032af854dab92c53320bd63efd53203408968b1893a590fc27c000ea680ecf47335dd161228a41a2705f771779int, 0x243aedeb8bc0fce68a30ed08a73af08224201867910e0e52fa80e0f556933e0477976d7ba2a5ba9da67455d15358a1int);
    }
    assert(pow(11, 0x680447a8e5ff9a692c6e9ed90d2eb35d91dnat) % (modulus() as int) == 0x13fa716dda66184ecf6fbd786782eb0fb546621a38b416e539c0916d7f16621c75085eb54993764db5fc7c32bf82cf8eint) by {
        lemma_pow_step(11, 0x340223d472ffcd3496374f6c869759aec8enat, 1, 0x12b93d032af854dab92c53320bd63efd53203408968b1893a590fc27c000ea680ecf47335dd161228a41a2705f771779int, 0x13fa716dda66184ecf6fbd786782eb0fb546621a38b416e539c0916d7f16621c75085eb54993764db5fc7c32bf82cf8eint, 0x944b9e8bdb61922647988ea694cbc208931fc4121184622b7d4e26f51e60fb211272673ca935a9dd9d6f11d127626ea7int);
    }
    assert(pow(11, 0xd0088f51cbff34d258dd3db21a5d66bb23bnat) % (modulus() as int) == 0x4fd817c92c73e7e50301e5a4f08f6651243da9b4832d336ab1a3771fecdf89805f3e6e64110cd9fe758bda036e7671int) by {
        lemma_pow_step(11, 0x680447a8e5ff9a692c6e9ed90d2eb35d91dnat, 1, 0x13fa716dda66184ecf6fbd786782eb0fb546621a38b416e539c0916d7f16621c75085eb54993764db5fc7c32bf82cf8eint, 0x4fd817c92c73e7e50301e5a4f08f6651243da9b4832d336ab1a3771fecdf89805f3e6e64110cd9fe758bda036e7671int, 0xa8d623c17406693dfa7fc77580c455568a371280791de682573d2de63825d3e0aff91cbf649555720c79bb254602e7f1int);
    }
    assert(pow(11, 0x1a0111ea397fe69a4b1ba7b6434bacd76477nat) % (modulus() as int) == 0xf484adc4323256a72dc8ebbb50a872c1938fc41058d82e6bb1271f0b48396bf95e7da249fee4d9abe359ff7e39039bfint) by {
        lemma_pow_step(11, 0xd0088f51cbff34d258dd3db21a5d66bb23bnat, 1, 0x4fd817c92c73e7e50301e5a4f08f6651243da9b4832d336ab1a3771fecdf89805f3e6e64110cd9fe758bda036e7671int, 0xf484adc4323256a72dc8ebbb50a872c1938fc41058d82e6bb1271f0b48396bf95e7da249fee4d9abe359ff7e39039bfint, 0xa88b77b52b5becaf86d3971a010ebb0f57044c6d837482a4bf9ffd7112de68953ac9a3b74e85fb921169925076cc4int);
    }
}

proof fn lemma_z_pow_part_14()
    ensures
        pow(11, 0x680447a8e5ff9a692c6e9ed90d2eb35d91dd2enat) % (modulus() as int) == 0xd609dc1901456cb751016fd77209c4c1023b20d46b22d6e54f01bedcbbeb2f5c081c74f531b3040ab2cf1cfaf8051e5int,
{
    lemma_z_pow_part_13();
    assert(pow(11, 0x340223d472ffcd3496374f6c869759aec8eenat) % (modulus() as int) == 0x9a1a542b02d29a353338e9e8d0685a73320f4cec4095f3b43c77ef6b2d2c9509fa0001c3cdd417a56e5ed1a934b7120int) by {
        lemma_pow_step(11, 0x1a0111ea397fe69a4b1ba7b6434bacd76477nat, 0, 0xf484adc4323256a72dc8ebbb50a872c1938fc41058d82e6bb1271f0b48396bf95e7da249fee4d9abe359ff7e39039bfint, 0x9a1a542b02d29a353338e9e8d0685a73320f4cec4095f3b43c77ef6b2d2c9509fa0001c3cdd417a56e5ed1a934b7120int, 0x8fb36eb3f7acce83409e50212ae247ee1824b7fdb8e6cd58ef8cf122b8f98740cc1533b8e46c150494c935801f48223int);
    }
    assert(pow(11, 0x680447a8e5ff9a692c6e9ed90d2eb35d91ddnat) % (modulus() as int) == 0xd0ff3b7a92e68b1ef66da367549e3b5c0e4f82ae6315d272ed7f90d470c2bf8c24f1212b807d473cbe0b07e5aa2b2f5int) by {
        lemma_pow_step(11, 0x340223d472ffcd3496374f6c869759aec8eenat, 1, 0x9a1a542b02d29a353338e9e8d0685a73320f4cec4095f3b43c77ef6b2d2c9509fa0001c3cdd417a56e5ed1a934b7120int, 0xd0ff3b7a92e68b1ef66da367549e3b5c0e4f82ae6315d272ed7f90d470c2bf8c24f1212b807d473cbe0b07e5aa2b2f5int, 0x273d7bd1042c3ebf4142c4030ec69536f092eaa7e504bb3876c410796de59a41be1b8a968ebd12aa8118a5912d9eab21int);
    }
    assert(pow(11, 0xd0088f51cbff34d258dd3db21a5d66bb23banat) % (modulus() as int) == 0x90026eda4fc33f363621fcd9226c081ff223478323a35aa6b95bbc191e98f68536a6388cd28bdb77fb550cd056fa72aint) by {
        lemma_pow_step(11, 0x680447a8e5ff9a692c6e9ed90d2eb35d91ddnat, 0, 0xd0ff3b7a92e68b1ef66da367549e3b5c0e4f82ae6315d272ed7f90d470c2bf8c24f1212b807d473cbe0b07e5aa2b2f5int, 0x90026eda4fc33f363621fcd9226c081ff223478323a35aa6b95bbc191e98f68536a6388cd28bdb77fb550cd056fa72aint, 0x68fb8610298344e0e291d4b3189a34fef9d602f24af262cf73be75ab8d6e606a67522b16dff13a51bcc23f59326e5edint);
    }
    assert(pow(11, 0x1a0111ea397fe69a4b1ba7b6434bacd764774nat) % (modulus() as int) == 0x150f0e8361ebb23ff18abb3e68ef30d722b5eebc30c9955c794dff2aa1414e6228bb807318a90c9c884c89f514a72590int) by {
        lemma_pow_step(11, 0xd0088f51cbff34d258dd3db21a5d66bb23banat, 0, 0x90026eda4fc33f363621fcd9226c081ff223478323a35aa6b95bbc191e98f68536a6388cd28bdb77fb550cd056fa72aint, 0x150f0e8361ebb23ff18abb3e68ef30d722b5eebc30c9955c794dff2aa1414e6228bb807318a90c9c884c89f514a72590int, 0x31d83fa285ea45d683ec2648ef49fe24bbe8153ca540475dfcf9f8c0b153990683642cab18d18f5add3d65ce0c207fcint);
    }
    assert(pow(11, 0x340223d472ffcd3496374f6c869759aec8ee9nat) % (modulus() as int) == 0x40af80767848609c3c625071166fe86b3cd8e0892e56fbc9fb949ee6a87b5948ead71c14bfe55801d5edc96cc324f29int) by {
        lemma_pow_step(11, 0x1a0111ea397fe69a4b1ba7b6434bacd764774nat, 1, 0x150f0e8361ebb23ff18abb3e68ef30d722b5eebc30c9955c794dff2aa1414e6228bb807318a90c9c884c89f514a72590int, 0x40af80767848609c3c625071166fe86b3cd8e0892e56fbc9fb949ee6a87b5948ead71c14bfe55801d5edc96cc324f29int, 0xbb97e48c21c19ab42c43d12d77f8159e74ed1de310238c2d68fe56a9bfa0ff2b4a43f7017c2e2157d4ed419c32af2385int);
    }
    assert(pow(11, 0x680447a8e5ff9a692c6e9ed90d2eb35d91dd2nat) % (modulus() as int) == 0xc46565534a3c51c15a3646144acfc0cceccfd9a7e8e4e4e4b2231c725b3280aa79eccaf18d95b36409a6594cf9ce069int) by {
        lemma_pow_step(11, 0x340223d472ffcd3496374f6c869759aec8ee9nat, 0, 0x40af80767848609c3c625071166fe86b3cd8e0892e56fbc9fb949ee6a87b5948ead71c14bfe55801d5edc96cc324f29int, 0xc46565534a3c51c15a3646144acfc0cceccfd9a7e8e4e4e4b2231c725b3280aa79eccaf18d95b36409a6594cf9ce069int, 0xa0e7dc5ef12d8d57a56f6ecdc0ad0b02279d9f214129ab1f92929779e398a121978351a09874ce683e2ea7031c5c78int);
    }
    assert(pow(11, 0xd0088f51cbff34d258dd3db21a5d66bb23ba5nat) % (modulus() as int) == 0x18d78271341c64afc8a197ef0e72b85f9f172579ada728c1badb851b8ee7effed032979ff6a5fe910d071d524dc4c7f4int) by {
        lemma_pow_step(11, 0x680447a8e5ff9a692c6e9ed90d2eb35d91dd2nat, 1, 0xc46565534a3c51c15a3646144acfc0cceccfd9a7e8e4e4e4b2231c725b3280aa79eccaf18d95b36409a6594cf9ce069int, 0x18d78271341c64afc8a197ef0e72b85f9f172579ada728c1badb851b8ee7effed032979ff6a5fe910d071d524dc4c7f4int, 0x3fbc0df24f10083591ba32b78cb6257747e194aefcec497840f78a01219186e36b8a1f89c3b0684c66f351b374b3f555int);
    }
    assert(pow(11, 0x1a0111ea397fe69a4b1ba7b6434bacd764774bnat) % (modulus() as int) == 0x172e2302b67b440fba2e1502d211ee2e49e3f1406a74db3a6059d076ab6159a7c2f624acb78560854c921be03ce342aeint) by {
        lemma_pow_step(11, 0xd0088f51cbff34d258dd3db21a5d66bb23ba5nat, 1, 0x18d78271341c64afc8a197ef0e72b85f9f172579ada728c1badb851b8ee7effed032979ff6a5fe910d071d524dc4c7f4int, 0x172e2302b67b440fba2e1502d211ee2e49e3f1406a74db3a6059d076ab6159a7c2f624acb78560854c921be03ce342aeint, 0x1050bbecfb4c7c4e7b119bad975ca29d969221b97266b9fbccf381c996118a882c108750e0dfd873645da9efe9f518a86int);
    }
    assert(pow(11, 0x340223d472ffcd3496374f6c869759aec8ee97nat) % (modulus() as int) == 0xfbf0ac3af3fb38fcba0f99e81604492a4f219dbfcbeb127858a148b4244023dd9d9b7c2db170177604873021396e766int) by {
        lemma_pow_step(11, 0x1a0111ea397fe69a4b1ba7b6434bacd764774bnat, 1, 0x172e2302b67b440fba2e1502d211ee2e49e3f1406a74db3a6059d076ab6159a7c2f624acb78560854c921be03ce342aeint, 0xfbf0ac3af3fb38fcba0f99e81604492a4f219dbfcbeb127858a148b4244023dd9d9b7c2db170177604873021396e766int, 0xe34ad35abd762848da2d9805458b89ae1d7a2dcc98fa6b3a90dc6e6354f54588ad9354fa995b6e84d948329c26054092int);
    }
    assert(pow(11, 0x680447a8e5ff9a692c6e9ed90d2eb35d91dd2enat) % (modulus() as int) == 0xd609dc1901456cb751016fd77209c4c1023b20d46b22d6e54f01bedcbbeb2f5c081c74f531b3040ab2cf1cfaf8051e5int) by {
        lemma_pow_step(11, 0x340223d472ffcd3496374f6c869759aec8ee97nat, 0, 0xfbf0ac3af3fb38fcba0f99e81604492a4f219dbfcbeb127858a148b4244023dd9d9b7c2db170177604873021396e766int, 0xd609dc1901456cb751016fd77209c4c1023b20d46b22d6e54f01bedcbbeb2f5c081c74f531b3040ab2cf1cfaf8051e5int, 0x988e8a0376d53c64725250814f35a01d518d10e76626ac63fd2c1e9227cc647e914548145963ea431a3411013cfc03dint);
    }
}

proof fn lemma_z_pow_part_15()
    ensures
        pow(11, 0x1a0111ea397fe69a4b1ba7b6434bacd764774b84fnat) % (modulus() as int) == 0xa59f49660e450f36ab77d6cbe7b52f4916b892361a6088ba3dc07ac0bbb24aa382f9070eb08c9d896ed6dec6c82a629int,
{
    lemma_z_pow_part_14();
    assert(pow(11, 0xd0088f51cbff34d258dd3db21a5d66bb23ba5cnat) % (modulus() as int) == 0x18da195d70c8aca79b3757bae831ab8383738417ab40a766c9e3403bd549a4ba5699f717ca8b359d8af61ef3d3b06a66int) by {
        lemma_pow_step(11, 0x680447a8e5ff9a692c6e9ed90d2eb35d91dd2enat, 0, 0xd609dc1901456cb751016fd77209c4c1023b20d46b22d6e54f01bedcbbeb2f5c081c74f531b3040ab2cf1cfaf8051e5int, 0x18da195d70c8aca79b3757bae831ab8383738417ab40a766c9e3403bd549a4ba5699f717ca8b359d8af61ef3d3b06a66int, 0x6e1bc4834b44d21460476b62610c802412df5c8cb8abffd1ad3dcf059c543db62e03fae3610fe0228452ce1a9dfe559int);
    }
    assert(pow(11, 0x1a0111ea397fe69a4b1ba7b6434bacd764774b8nat) % (modulus() as int) == 0x13d11b2ccdb5cbd1444295b9114613daf297c31f33fd903a38fc1881836aca9954712bf88966ad48106ac6e9a7c9448cint) by {
        lemma_pow_step(11, 0xd0088f51cbff34d258dd3db21a5d66bb23ba5cnat, 0, 0x18da195d70c8aca79b3757bae831ab8383738417ab40a766c9e3403bd549a4ba5699f717ca8b359d8af61ef3d3b06a66int, 0x13d11b2ccdb5cbd1444295b9114613daf297c31f33fd903a38fc1881836aca9954712bf88966ad48106ac6e9a7c9448cint, 0x17c032bb730b784a15fd4bfacc03210baa8e0169d306cf623cc4fae701c2dc6146d492f0af0745be5bcb2968f2561448int);
    }
    assert(pow(11, 0x340223d472ffcd3496374f6c869759aec8ee970nat) % (modulus() as int) == 0x14297b91b1801357faa98483167228f021288475672b6edd3c62deaf848ad4bc11fb8810ce7cbb6cfb6325d2442e4cb5int) by {
        lemma_pow_step(11, 0x1a0111ea397fe69a4b1ba7b6434bacd764774b8nat, 0, 0x13d11b2ccdb5cbd1444295b9114613daf297c31f33fd903a38fc1881836aca9954712bf88966ad48106ac6e9a7c9448cint, 0x14297b91b1801357faa98483167228f021288475672b6edd3c62deaf848ad4bc11fb8810ce7cbb6cfb6325d2442e4cb5int, 0xf1a06abef0f64c08eb14286c1ca48b886b7028e56bcf6f8f43871bb200ee27b371b0d31072b9e075d29a1b16d9e1f91int);
    }
    assert(pow(11, 0x680447a8e5ff9a692c6e9ed90d2eb35d91dd2e1nat) % (modulus() as int) == 0x7ea628072b66df6bf21d376f5b48becd9af80c0f281778e1c8ff9c6e1eabbff3c1ec3f8528e6a5d4d8f14e4f4d1dffint) by {
        lemma_pow_step(11, 0x340223d472ffcd3496374f6c869759aec8ee970nat, 1, 0x14297b91b1801357faa98483167228f021288475672b6edd3c62deaf848ad4bc11fb8810ce7cbb6cfb6325d2442e4cb5int, 0x7ea628072b66df6bf21d376f5b48becd9af80c0f281778e1c8ff9c6e1eabbff3c1ec3f8528e6a5d4d8f14e4f4d1dffint, 0xabf4dbeb71d4a647eaaf72b7aa1ca13da6b09a7fd8e28b6993df99b0fb5a8de7c0e49d347d03277a2709fade803b9d1cint);
    }
    assert(pow(11, 0xd0088f51cbff34d258dd3db21a5d66bb23ba5c2nat) % (modulus() as int) == 0xe8687c4919c5354fa31b516d931673e50b92097bed7c25758d45e79067e201a445952b9064c05f022ca6e9f49cfbb47int) by {
        lemma_pow_step(11, 0x680447a8e5ff9a692c6e9ed90d2eb35d91dd2e1nat, 0, 0x7ea628072b66df6bf21d376f5b48becd9af80c0f281778e1c8ff9c6e1eabbff3c1ec3f8528e6a5d4d8f14e4f4d1dffint, 0xe8687c4919c5354fa31b516d931673e50b92097bed7c25758d45e79067e201a445952b9064c05f022ca6e9f49cfbb47int, 0x268d2bd9c92bf1e8f9792b1484cfb31b7eba4bea9f675e17386a69b0e99aaf8411bedc22427b8e23b83058f7c1a2eint);
    }
    assert(pow(11, 0x1a0111ea397fe69a4b1ba7b6434bacd764774b84nat) % (modulus() as int) == 0x11131e25c47924d25f310d2e69bba2a4b8ee21740d1171ba44bbeef0f3feb89884c59382b37ebe4d5a18bde91264a724int) by {
        lemma_pow_step(11, 0xd0088f51cbff34d258dd3db21a5d66bb23ba5c2nat, 0, 0xe8687c4919c5354fa31b516d931673e50b92097bed7c25758d45e79067e201a445952b9064c05f022ca6e9f49cfbb47int, 0x11131e25c47924d25f310d2e69bba2a4b8ee21740d1171ba44bbeef0f3feb89884c59382b37ebe4d5a18bde91264a724int, 0x81d1c359f7f63d963cde1bace6dbd9bf98cffc1de0d10143f3c902b5325d9b02d3c68039e688607668304e8e7f173a7int);
    }
    assert(pow(11, 0x340223d472ffcd3496374f6c869759aec8ee9709nat) % (modulus() as int) == 0xcc7ec602cb3de5d8a15d72bc597529d9859d3d2e546d4bab25f9587bb5706af56ec6b84adfff653680556ce5f0dba98int) by {
        lemma_pow_step(11, 0x1a0111ea397fe69a4b1ba7b6434bacd764774b84nat, 1, 0x11131e25c47924d25f310d2e69bba2a4b8ee21740d1171ba44bbeef0f3feb89884c59382b37ebe4d5a18bde91264a724int, 0xcc7ec602cb3de5d8a15d72bc597529d9859d3d2e546d4bab25f9587bb5706af56ec6b84adfff653680556ce5f0dba98int, 0x7b53741ace5d6774f35c2cf180d8ca5b25c0c9661e3454b25034a3be6a1a56bccca2ad008bf84c703ba611118b5e6f48int);
    }
    assert(pow(11, 0x680447a8e5ff9a692c6e9ed90d2eb35d91dd2e13nat) % (modulus() as int) == 0x2c02c670f4389fd8ba45ea026a34241eff60e68fc52ca48546702de57f7652b09563992e6befe5933e7d10518de0b53int) by {
        lemma_pow_step(11, 0x340223d472ffcd3496374f6c869759aec8ee9709nat, 1, 0xcc7ec602cb3de5d8a15d72bc597529d9859d3d2e546d4bab25f9587bb5706af56ec6b84adfff653680556ce5f0dba98int, 0x2c02c670f4389fd8ba45ea026a34241eff60e68fc52ca48546702de57f7652b09563992e6befe5933e7d10518de0b53int, 0x4519828f05bb2379c1a19aa2c80e699e12f26cbdd19653648f03c51c04561a127eb132beef14b3cdaf3bb538cf456047int);
    }
    assert(pow(11, 0xd0088f51cbff34d258dd3db21a5d66bb23ba5c27nat) % (modulus() as int) == 0xe8d443a0f7ae0ead09c6c08afdcf0d82d26df30eb794f304512af509046bcdd576dc8a7a8cfee797e4566260d04786fint) by {
        lemma_pow_step(11, 0x680447a8e5ff9a692c6e9ed90d2eb35d91dd2e13nat, 1, 0x2c02c670f4389fd8ba45ea026a34241eff60e68fc52ca48546702de57f7652b09563992e6befe5933e7d10518de0b53int, 0xe8d443a0f7ae0ead09c6c08afdcf0d82d26df30eb794f304512af509046bcdd576dc8a7a8cfee797e4566260d04786fint, 0x333594ec43dcbcc7ab11784f17c21342780291aee5baa604a397b7d3fa571ade2bee32b3cb358d5f96172d40caa70bcint);
    }
    assert(pow(11, 0x1a0111ea397fe69a4b1ba7b6434bacd764774b84fnat) % (modulus() as int) == 0xa59f49660e450f36ab77d6cbe7b52f4916b892361a6088ba3dc07ac0bbb24aa382f9070eb08c9d896ed6dec6c82a629int) by {
        lemma_pow_step(11, 0xd0088f51cbff34d258dd3db21a5d66bb23ba5c27nat, 1, 0xe8d443a0f7ae0ead09c6c08afdcf0d82d26df30eb794f304512af509046bcdd576dc8a7a8cfee797e4566260d04786fint, 0xa59f49660e450f36ab77d6cbe7b52f4916b892361a6088ba3dc07ac0bbb24aa382f9070eb08c9d896ed6dec6c82a629int, 0x599311193ee4a0100ad7e652f9302f25e024e1da09b5fcb5b5ce89a9720552c38c825c8338ef54340e171a4c926651c6int);
    }
}

proof fn lemma_z_pow_part_16()
    ensures
        pow(11, 0x680447a8e5ff9a692c6e9ed90d2eb35d91dd2e13ce1nat) % (modulus() as int) == 0x128307f1e4d925a9356d17a7adf6212b1e75b8bea121bd192b80e091cb70a83ad52045b0282ca2a57f346283e10c09d4int,
{
    lemma_z_pow_part_15();
    assert(pow(11, 0x340223d472ffcd3496374f6c869759aec8ee9709enat) % (modulus() as int) == 0x9fa602f29ffc7b357b482901afe2c25ba1f7584bd6f8e832cd126d97cb6bdc7a6073eaefdb5e1658cf6319f580f738bint) by {
        lemma_pow_step(11, 0x1a0111ea397fe69a4b1ba7b6434bacd764774b84fnat, 0, 0xa59f49660e450f36ab77d6cbe7b52f4916b892361a6088ba3dc07ac0bbb24aa382f9070eb08c9d896ed6dec6c82a629int, 0x9fa602f29ffc7b357b482901afe2c25ba1f7584bd6f8e832cd126d97cb6bdc7a6073eaefdb5e1658cf6319f580f738bint, 0x41edba7dcf128acae976b4232a38e4540fa3d0200b8f8bf56c23ee1ce9c0866c23bf286412b62bcaf153de4855b3d12int);
    }
    assert(pow(11, 0x680447a8e5ff9a692c6e9ed90d2eb35d91dd2e13cnat) % (modulus() as int) == 0x1273cc54fb65508d60a3decbbc37551238549e5b61b1d18d1cad867e4535fbd9aebb918094434aa6b2559edb5d8fd258int) by {
        lemma_pow_step(11, 0x340223d472ffcd3496374f6c869759aec8ee9709enat, 0, 0x9fa602f29ffc7b357b482901afe2c25ba1f7584bd6f8e832cd126d97cb6bdc7a6073eaefdb5e1658cf6319f580f738bint, 0x1273cc54fb65508d60a3decbbc37551238549e5b61b1d18d1cad867e4535fbd9aebb918094434aa6b2559edb5d8fd258int, 0x3d422de6eda91e07bec1eee1c850f485c52140408b2c21855e9bb4967a5c3dfd4b5dbe5b00e368dfa451e8ae4041163int);
    }
    assert(pow(11, 0xd0088f51cbff34d258dd3db21a5d66bb23ba5c279nat) % (modulus() as int) == 0x20b60e7bd3b32a84580398622ae1c2c54dccdb705706340a3e5ae38df843bbf4c160586f95e3132d31b5b9978b88cd9int) by {
        lemma_pow_step(11, 0x680447a8e5ff9a692c6e9ed90d2eb35d91dd2e13cnat, 1, 0x1273cc54fb65508d60a3decbbc37551238549e5b61b1d18d1cad867e4535fbd9aebb918094434aa6b2559edb5d8fd258int, 0x20b60e7bd3b32a84580398622ae1c2c54dccdb705706340a3e5ae38df843bbf4c160586f95e3132d31b5b9978b88cd9int, 0x90079ef57f3653ba63e46f87dcf0dd63838fe11c9544a3d258aae11cd1130680dd57fa8f30867203f1e6bab7353f9fb5int);
    }
    assert(pow(11, 0x1a0111ea397fe69a4b1ba7b6434bacd764774b84f3nat) % (modulus() as int) == 0x12a41050628ca87098f4cdc77df4564993c7f7e6c91abf1db29a2be6f32501ba2c02e46374d1795551e2c9a9108450b8int) by {
        lemma_pow_step(11, 0xd0088f51cbff34d258dd3db21a5d66bb23ba5c279nat, 1, 0x20b60e7bd3b32a84580398622ae1c2c54dccdb705706340a3e5ae38df843bbf4c160586f95e3132d31b5b9978b88cd9int, 0x12a41050628ca87098f4cdc77df4564993c7f7e6c91abf1db29a2be6f32501ba2c02e46374d1795551e2c9a9108450b8int, 0x1c4a0c20f174e7a265a52e766da5e3518ee929abbcfb6392072834ca8a484c9e7363b3f6f201d183d55ea0fcd8c1be9int);
    }
    assert(pow(11, 0x340223d472ffcd3496374f6c869759aec8ee9709e7nat) % (modulus() as int) == 0x166d7299bdfeab447552d34f25a508ca51049c94642b29a83c7b31a3cfd2b63452a9f8404e299060dba604a456113b5bint) by {
        lemma_pow_step(11, 0x1a0111ea397fe69a4b1ba7b6434bacd764774b84f3nat, 1, 0x12a41050628ca87098f4cdc77df4564993c7f7e6c91abf1db29a2be6f32501ba2c02e46374d1795551e2c9a9108450b8int, 0x166d7299bdfeab447552d34f25a508ca51049c94642b29a83c7b31a3cfd2b63452a9f8404e299060dba604a456113b5bint, 0x92fcf1b21bf14cdcb0721c977afa7f3b024f0cc73d8c6db3b2e73b6d80c0f6bfbaad2f0ee75b795207f10667959f5a2fint);
    }
    assert(pow(11, 0x680447a8e5ff9a692c6e9ed90d2eb35d91dd2e13cenat) % (modulus() as int) == 0x12c8396da0f2d9cfa75703923e574ce9de215028c4a1b5f0c04ba204ef7166a8a9ed645ce39b440b44d182fea462cc4int) by {
        lemma_pow_step(11, 0x340223d472ffcd3496374f6c869759aec8ee9709e7nat, 0, 0x166d7299bdfeab447552d34f25a508ca51049c94642b29a83c7b31a3cfd2b63452a9f8404e299060dba604a456113b5bint, 0x12c8396da0f2d9cfa75703923e574ce9de215028c4a1b5f0c04ba204ef7166a8a9ed645ce39b440b44d182fea462cc4int, 0x1357c2e1bfea0ea385b069c9c6b75b1eb8d1c1182297e7c0a15b519a256d34ff3d2b8fb84261f96dbfcb51ce2d77b0bfint);
    }
    assert(pow(11, 0xd0088f51cbff34d258dd3db21a5d66bb23ba5c279cnat) % (modulus() as int) == 0x99e1bba5d2a01170d06b85d91d27c477f9b6055db437966e0878b1d6bd9b95af9f3bcfe3093babc6ede4a80e564774dint) by {
        lemma_pow_step(11, 0x680447a8e5ff9a692c6e9ed90d2eb35d91dd2e13cenat, 0, 0x12c8396da0f2d9cfa75703923e574ce9de215028c4a1b5f0c04ba204ef7166a8a9ed645ce39b440b44d182fea462cc4int, 0x99e1bba5d2a01170d06b85d91d27c477f9b6055db437966e0878b1d6bd9b95af9f3bcfe3093babc6ede4a80e564774dint, 0xd90da3455522982faf31c5d05ec9aa63eaafbd276a511deac6a860ffd6959baedd15ec7debdc9ce660cc545277c49int);
    }
    assert(pow(11, 0x1a0111ea397fe69a4b1ba7b6434bacd764774b84f38nat) % (modulus() as int) == 0x138e8b2913131b545900a7916440325c4380fc8de06bdba42f4767696c406452976146a52831a9e21bbea9b8a2ca15b3int) by {
        lemma_pow_step(11, 0xd0088f51cbff34d258dd3db21a5d66bb23ba5c279cnat, 0, 0x99e1bba5d2a01170d06b85d91d27c477f9b6055db437966e0878b1d6bd9b95af9f3bcfe3093babc6ede4a80e564774dint, 0x138e8b2913131b545900a7916440325c4380fc8de06bdba42f4767696c406452976146a52831a9e21bbea9b8a2ca15b3int, 0x38e9b8019ca0aa13816e4ee89caae9ef01d9274d9da7eb6b92206df781759f33b6e8776142fb44305378bb36745c662int);
    }
    assert(pow(11, 0x340223d472ffcd3496374f6c869759aec8ee9709e70nat) % (modulus() as int) == 0x2d6a9cc269ce234fab87d8a75f7046c1a2f247d66b052963e8b2940c2384feace1239e6815a39b6f42757c73690a76aint) by {
        lemma_pow_step(11, 0x1a0111ea397fe69a4b1ba7b6434bacd764774b84f38nat, 0, 0x138e8b2913131b545900a7916440325c4380fc8de06bdba42f4767696c406452976146a52831a9e21bbea9b8a2ca15b3int, 0x2d6a9cc269ce234fab87d8a75f7046c1a2f247d66b052963e8b2940c2384feace1239e6815a39b6f42757c73690a76aint, 0xeb53decb19ca5e4448d988d3133b660066b9a327630acd61d71e52dd4fa3720683ed1cd27ffac40aa6f14145c839b3dint);
    }
    assert(pow(11, 0x680447a8e5ff9a692c6e9ed90d2eb35d91dd2e13ce1nat) % (modulus() as int) == 0x128307f1e4d925a9356d17a7adf6212b1e75b8bea121bd192b80e091cb70a83ad52045b0282ca2a57f346283e10c09d4int) by {
        lemma_pow_step(11, 0x340223d472ffcd3496374f6c869759aec8ee9709e70nat, 1, 0x2d6a9cc269ce234fab87d8a75f7046c1a2f247d66b052963e8b2940c2384feace1239e6815a39b6f42757c73690a76aint, 0x128307f1e4d925a9356d17a7adf6212b1e75b8bea121bd192b80e091cb70a83ad52045b0282ca2a57f346283e10c09d4int, 0x368856c972099fc5751d096a980e8b9dd07f1d1d359e959743804cd74c2c90a1458d9fced73f43e5fe7b0bbc7ee56e8int);
    }
}

proof fn lemma_z_pow_part_17()
    ensures
        pow(11, 0x1a0111ea397fe69a4b1ba7b6434bacd764774b84f38512nat) % (modulus() as int) == 0x4b3bc845bc483b2882d70819530e2ca360368b8ff660acee065c5eacaca2bdc65e7f23e641abe9373f57b34b4b6c666int,
{
    lemma_z_pow_part_16();
    assert(pow(11, 0xd0088f51cbff34d258dd3db21a5d66bb23ba5c279c2nat) % (modulus() as int) == 0xba06538c16a2952f6b32210f1e04ebc749c2276f393f3f12080de8bedb2705170213c9dbcbe745f3f67a1454b582e4cint) by {
        lemma_pow_step(11, 0x680447a8e5ff9a692c6e9ed90d2eb35d91dd2e13ce1nat, 0, 0x128307f1e4d925a9356d17a7adf6212b1e75b8bea121bd192b80e091cb70a83ad52045b0282ca2a57f346283e10c09d4int, 0xba06538c16a2952f6b32210f1e04ebc749c2276f393f3f12080de8bedb2705170213c9dbcbe745f3f67a1454b582e4cint, 0xd2d9e5cfa9fb7168df4395101b46726a9ed1dacd191f72bc3abecccd25ae8f3b1886da3bd65ffb90bbccd2416853bccint);
    }
    assert(pow(11, 0x1a0111ea397fe69a4b1ba7b6434bacd764774b84f385nat) % (modulus() as int) == 0x90f58c667ac5f60f4482aa3d3fd05db78176f86082f236e6bbf87e2cddc3997b8cf5d0ecb897b9a6ed00174c3f5cdb0int) by {
        lemma_pow_step(11, 0xd0088f51cbff34d258dd3db21a5d66bb23ba5c279c2nat, 1, 0xba06538c16a2952f6b32210f1e04ebc749c2276f393f3f12080de8bedb2705170213c9dbcbe745f3f67a1454b582e4cint, 0x90f58c667ac5f60f4482aa3d3fd05db78176f86082f236e6bbf87e2cddc3997b8cf5d0ecb897b9a6ed00174c3f5cdb0int, 0x392e4e3fb9b738d81d4bae3db283fef14fcaefc43522c9e2add1607c67970414287a7cc913ae7ee3e9a59d517c2acf80int);
    }
    assert(pow(11, 0x340223d472ffcd3496374f6c869759aec8ee9709e70anat) % (modulus() as int) == 0x981b2d23ff8b3b436cb64245be176f7d9748a76adc5ba097bdef714f9b66772bce03a0484b614f4ac17cd90b28dd019int) by {
        lemma_pow_step(11, 0x1a0111ea397fe69a4b1ba7b6434bacd764774b84f385nat, 0, 0x90f58c667ac5f60f4482aa3d3fd05db78176f86082f236e6bbf87e2cddc3997b8cf5d0ecb897b9a6ed00174c3f5cdb0int, 0x981b2d23ff8b3b436cb64245be176f7d9748a76adc5ba097bdef714f9b66772bce03a0484b614f4ac17cd90b28dd019int, 0x328119247698e4ed0ce082497364e0a2db7290783d8b34f46950508d94c1ea4f6d98391369730ec0c4e035beb759ab5int);
    }
    assert(pow(11, 0x680447a8e5ff9a692c6e9ed90d2eb35d91dd2e13ce14nat) % (modulus() as int) == 0x178d57f0618652d0b4634165f9abc22ed74cac8783900d1a3b1cf8f894fb576084590d11cf729edfd23bad79d9b475f7int) by {
        lemma_pow_step(11, 0x340223d472ffcd3496374f6c869759aec8ee9709e70anat, 0, 0x981b2d23ff8b3b436cb64245be176f7d9748a76adc5ba097bdef714f9b66772bce03a0484b614f4ac17cd90b28dd019int, 0x178d57f0618652d0b4634165f9abc22ed74cac8783900d1a3b1cf8f894fb576084590d11cf729edfd23bad79d9b475f7int, 0x379b6c9f97d1dd9586df59864d822247f5e6f3de0ac52fbf4f8abddcee55e174f6699a805e942f2a553e82ff268856eint);
    }
    assert(pow(11, 0xd0088f51cbff34d258dd3db21a5d66bb23ba5c279c28nat) % (modulus() as int) == 0xcd869e0d33cb8d11732b7785db5fd04cf379746c8d6eeaef89b64ee7e6f12da7ba9820df497600192a252e7c297fdd7int) by {
        lemma_pow_step(11, 0x680447a8e5ff9a692c6e9ed90d2eb35d91dd2e13ce14nat, 0, 0x178d57f0618652d0b4634165f9abc22ed74cac8783900d1a3b1cf8f894fb576084590d11cf729edfd23bad79d9b475f7int, 0xcd869e0d33cb8d11732b7785db5fd04cf379746c8d6eeaef89b64ee7e6f12da7ba9820df497600192a252e7c297fdd7int, 0x1554ceee855678cff1824509bf432ecfb1b49ee0fae789f52ab8faf679186fd5d8553d7bcca37cb1cd8dc41c62c1236eint);
    }
    assert(pow(11, 0x1a0111ea397fe69a4b1ba7b6434bacd764774b84f3851nat) % (modulus() as int) == 0x195dfcf34235e9ea2d480406e12240b9125913444459c391865ab737bb5e80ecac794718afba963aa48fb75b7e98c500int) by {
        lemma_pow_step(11, 0xd0088f51cbff34d258dd3db21a5d66bb23ba5c279c28nat, 1, 0xcd869e0d33cb8d11732b7785db5fd04cf379746c8d6eeaef89b64ee7e6f12da7ba9820df497600192a252e7c297fdd7int, 0x195dfcf34235e9ea2d480406e12240b9125913444459c391865ab737bb5e80ecac794718afba963aa48fb75b7e98c500int, 0x45cc4452c0eab0bfe5768d50d3c374060c8ed3acede93f1e46ce0c3440975df0a61e908d42a0cb66fa46ede0e7d0adb1int);
    }
    assert(pow(11, 0x340223d472ffcd3496374f6c869759aec8ee9709e70a2nat) % (modulus() as int) == 0x199eeab10d97895c839d5390453660c967e37a2de6d4141ef7aa90567a98a0942c9c9457de01069159ce5f46c978c37eint) by {
        lemma_pow_step(11, 0x1a0111ea397fe69a4b1ba7b6434bacd764774b84f3851nat, 0, 0x195dfcf34235e9ea2d480406e12240b9125913444459c391865ab737bb5e80ecac794718afba963aa48fb75b7e98c500int, 0x199eeab10d97895c839d5390453660c967e37a2de6d4141ef7aa90567a98a0942c9c9457de01069159ce5f46c978c37eint, 0x18bee6bb98a3b88814a76db94e939d4df4ee160374781bc20e53cb25a039d77f10388cbf1eab884c6f133355efe6b586int);
    }
    assert(pow(11, 0x680447a8e5ff9a692c6e9ed90d2eb35d91dd2e13ce144nat) % (modulus() as int) == 0x13538673ade5be6bac75f9e6f3d53b1aa4848d16b1a0830b699da201fc81c7885f6b0f31b9b44643e0b8c0b98ee53492int) by {
        lemma_pow_step(11, 0x340223d472ffcd3496374f6c869759aec8ee9709e70a2nat, 0, 0x199eeab10d97895c839d5390453660c967e37a2de6d4141ef7aa90567a98a0942c9c9457de01069159ce5f46c978c37eint, 0x13538673ade5be6bac75f9e6f3d53b1aa4848d16b1a0830b699da201fc81c7885f6b0f31b9b44643e0b8c0b98ee53492int, 0x193e35f302e865ce9b7321b43b63704dc7c247bf9a04b84c2f57e74e03dc4106c7abe2d9bd3a4778d68c0a4871e1f856int);
    }
    assert(pow(11, 0xd0088f51cbff34d258dd3db21a5d66bb23ba5c279c289nat) % (modulus() as int) == 0xaa126c265dd153d5b54c000cd2bee82b242847f8e04f758e71487f9a9fa0af9df80ad57d0cb825eb48c39b8339f5540int) by {
        lemma_pow_step(11, 0x680447a8e5ff9a692c6e9ed90d2eb35d91dd2e13ce144nat, 1, 0x13538673ade5be6bac75f9e6f3d53b1aa4848d16b1a0830b699da201fc81c7885f6b0f31b9b44643e0b8c0b98ee53492int, 0xaa126c265dd153d5b54c000cd2bee82b242847f8e04f758e71487f9a9fa0af9df80ad57d0cb825eb48c39b8339f5540int, 0x9dfeeeca06848fbe4e3c07a25fdcbdb1c1d1288547874dfabc0b5c9f5574cbb868582318c12da370b2cdb420811a0c04int);
    }
    assert(pow(11, 0x1a0111ea397fe69a4b1ba7b6434bacd764774b84f38512nat) % (modulus() as int) == 0x4b3bc845bc483b2882d70819530e2ca360368b8ff660acee065c5eacaca2bdc65e7f23e641abe9373f57b34b4b6c666int) by {
        lemma_pow_step(11, 0xd0088f51cbff34d258dd3db21a5d66bb23ba5c279c289nat, 0, 0xaa126c265dd153d5b54c000cd2bee82b242847f8e04f758e71487f9a9fa0af9df80ad57d0cb825eb48c39b8339f5540int, 0x4b3bc845bc483b2882d70819530e2ca360368b8ff660acee065c5eacaca2bdc65e7f23e641abe9373f57b34b4b6c666int, 0x4584d0818af58a902d483cd2339da6ada70b3e1d0a0528afe64be830a89030def57a218b3256a541ee5141dc4545cceint);
    }
}

proof fn lemma_z_pow_part_18()
    ensures
        pow(11, 0x680447a8e5ff9a692c6e9ed90d2eb35d91dd2e13ce144afdnat) % (modulus() as int) == 0x16fe4596fd3e5874f784382ceffba727779dc5edac705392dc369195805fc5d19ad7d04df7ca56d793a65e3a9c85fb5dint,
{
    lemma_z_pow_part_17();
    assert(pow(11, 0x340223d472ffcd3496374f6c869759aec8ee9709e70a25nat) % (modulus() as int) == 0x1575174dac3e3214ddc2f9d0f970e4d2f989b588123eee9079e03f5e8e9e5708f0da7a9c56de15ce3bea852668e01890int) by {
        lemma_pow_step(11, 0x1a0111ea397fe69a4b1ba7b6434bacd764774b84f38512nat, 1, 0x4b3bc845bc483b2882d70819530e2ca360368b8ff660acee065c5eacaca2bdc65e7f23e641abe9373f57b34b4b6c666int, 0x1575174dac3e3214ddc2f9d0f970e4d2f989b588123eee9079e03f5e8e9e5708f0da7a9c56de15ce3bea852668e01890int, 0x95a4405989021d5b33b9159c8631a6913413eaf07638c97e7c59753c14f3024423bb133fef6b938fef0721afcdbbb74int);
    }
    assert(pow(11, 0x680447a8e5ff9a692c6e9ed90d2eb35d91dd2e13ce144anat) % (modulus() as int) == 0x175c491d95ffe6b6bfe2e02c028247da6fa43da425db59ac70dd715ab96ffb7b8ae354fed016f1be90dae8a55641261cint) by {
        lemma_pow_step(11, 0x340223d472ffcd3496374f6c869759aec8ee9709e70a25nat, 0, 0x1575174dac3e3214ddc2f9d0f970e4d2f989b588123eee9079e03f5e8e9e5708f0da7a9c56de15ce3bea852668e01890int, 0x175c491d95ffe6b6bfe2e02c028247da6fa43da425db59ac70dd715ab96ffb7b8ae354fed016f1be90dae8a55641261cint, 0x11b4a1d0fd57256e087c5305a1a3cec7f23a0849f08ad6df624258768f7b586252e43e4f8f019f9c39e907aa78fa80acint);
    }
    assert(pow(11, 0xd0088f51cbff34d258dd3db21a5d66bb23ba5c279c2895nat) % (modulus() as int) == 0x49c24829f40a7357bee84aa9db6b06fc907487fc973c8583f564c8338a6170acccf266e3699c7f37c9d8e80d26dbdb2int) by {
        lemma_pow_step(11, 0x680447a8e5ff9a692c6e9ed90d2eb35d91dd2e13ce144anat, 1, 0x175c491d95ffe6b6bfe2e02c028247da6fa43da425db59ac70dd715ab96ffb7b8ae354fed016f1be90dae8a55641261cint, 0x49c24829f40a7357bee84aa9db6b06fc907487fc973c8583f564c8338a6170acccf266e3699c7f37c9d8e80d26dbdb2int, 0xe6d75d40ba9cf79db9039b43aaaf9cfd014042d7b9f0c39f72ec1bedbf5dfa9bd9341a6d32c00c771a6404ca311f7bfaint);
    }
    assert(pow(11, 0x1a0111ea397fe69a4b1ba7b6434bacd764774b84f38512bnat) % (modulus() as int) == 0x19871e5c696135f2285dd73f1187f6d61cdf4931cc3066f7f94c447a0d5351291af6105a679db50cf34c255297547bd1int) by {
        lemma_pow_step(11, 0xd0088f51cbff34d258dd3db21a5d66bb23ba5c279c2895nat, 1, 0x49c24829f40a7357bee84aa9db6b06fc907487fc973c8583f564c8338a6170acccf266e3699c7f37c9d8e80d26dbdb2int, 0x19871e5c696135f2285dd73f1187f6d61cdf4931cc3066f7f94c447a0d5351291af6105a679db50cf34c255297547bd1int, 0x8fd54021d9fe306fbbcfd3ef5ac0e74b1e7efb01e662d0deef6cafb3ea2096838a70fbc9704e22829a76e30f181d4d1int);
    }
    assert(pow(11, 0x340223d472ffcd3496374f6c869759aec8ee9709e70a257nat) % (modulus() as int) == 0x13a171ba5f1e09eb84528e1e4d54010b8279e39347f921d7dd3c43e61cf86e5587c38cd1e424a4aa62dae152f5fddfadint) by {
        lemma_pow_step(11, 0x1a0111ea397fe69a4b1ba7b6434bacd764774b84f38512bnat, 1, 0x19871e5c696135f2285dd73f1187f6d61cdf4931cc3066f7f94c447a0d5351291af6105a679db50cf34c255297547bd1int, 0x13a171ba5f1e09eb84528e1e4d54010b8279e39347f921d7dd3c43e61cf86e5587c38cd1e424a4aa62dae152f5fddfadint, 0x113a969ecd2b40bfb64ce458b8e6bd65fe8876f09e2e19b31d7c595cf703f7e226789f5b3b21ec936159d98b9801af5baint);
    }
    assert(pow(11, 0x680447a8e5ff9a692c6e9ed90d2eb35d91dd2e13ce144afnat) % (modulus() as int) == 0xfffca92afee02eeef350ce8867085c88d3186096cdb497eb0b3ea273533e918aa5baac46c4be0bdf99d6bf1868b508int) by {
        lemma_pow_step(11, 0x340223d472ffcd3496374f6c869759aec8ee9709e70a257nat, 1, 0x13a171ba5f1e09eb84528e1e4d54010b8279e39347f921d7dd3c43e61cf86e5587c38cd1e424a4aa62dae152f5fddfadint, 0xfffca92afee02eeef350ce8867085c88d3186096cdb497eb0b3ea273533e918aa5baac46c4be0bdf99d6bf1868b508int, 0xa302f85f84e9f9451834e58a3f327a76474c6c40a1db11725fbf8a6f5b6b91112c11b41786c9fef4c4539ecefd3318f1int);
    }
    assert(pow(11, 0xd0088f51cbff34d258dd3db21a5d66bb23ba5c279c2895fnat) % (modulus() as int) == 0x47d2a23227ffcc8dabccc31fe0da62940c6c5f032685717bd9ed8a47b2c61f0f32d4bc0c248ee9ea87a454e82cb43d9int) by {
        lemma_pow_step(11, 0x680447a8e5ff9a692c6e9ed90d2eb35d91dd2e13ce144afnat, 1, 0xfffca92afee02eeef350ce8867085c88d3186096cdb497eb0b3ea273533e918aa5baac46c4be0bdf99d6bf1868b508int, 0x47d2a23227ffcc8dabccc31fe0da62940c6c5f032685717bd9ed8a47b2c61f0f32d4bc0c248ee9ea87a454e82cb43d9int, 0x6c477ce12e74c4e291e49ebce220b98081b99b863e9b95cc0fa4249c33fd3f8766c415f85bb63351b340cdeb618cb5int);
    }
    assert(pow(11, 0x1a0111ea397fe69a4b1ba7b6434bacd764774b84f38512bfnat) % (modulus() as int) == 0x6cad9d894ccfedfe8fa2a6d4cf4906a79e6b0a846cb61398b017fc5ee8dd5f859b7519d1fda5d199da1667afc1d951cint) by {
        lemma_pow_step(11, 0xd0088f51cbff34d258dd3db21a5d66bb23ba5c279c2895fnat, 1, 0x47d2a23227ffcc8dabccc31fe0da62940c6c5f032685717bd9ed8a47b2c61f0f32d4bc0c248ee9ea87a454e82cb43d9int, 0x6cad9d894ccfedfe8fa2a6d4cf4906a79e6b0a846cb61398b017fc5ee8dd5f859b7519d1fda5d199da1667afc1d951cint, 0x88618d0f27627d23872140d58aac8d2ea87fc6c53376d18bc95b92a596d3b4a1a62ad2ccd7e098fcd402ee96caf4cbdint);
    }
    assert(pow(11, 0x340223d472ffcd3496374f6c869759aec8ee9709e70a257enat) % (modulus() as int) == 0xab93142b9ccda004b86cd48c220a57b7ef12550ff8725c1d857f6816bc0dc55dac1e149f8a22e0de1be1eeb12bc7ad8int) by {
        lemma_pow_step(11, 0x1a0111ea397fe69a4b1ba7b6434bacd764774b84f38512bfnat, 0, 0x6cad9d894ccfedfe8fa2a6d4cf4906a79e6b0a846cb61398b017fc5ee8dd5f859b7519d1fda5d199da1667afc1d951cint, 0xab93142b9ccda004b86cd48c220a57b7ef12550ff8725c1d857f6816bc0dc55dac1e149f8a22e0de1be1eeb12bc7ad8int, 0x1c631b7fbb7be92a626a91300c599005df7b603262738610a3a5f2d59f3eff757b1f17084f69c791a969844e60760a8int);
    }
    assert(pow(11, 0x680447a8e5ff9a692c6e9ed90d2eb35d91dd2e13ce144afdnat) % (modulus() as int) == 0x16fe4596fd3e5874f784382ceffba727779dc5edac705392dc369195805fc5d19ad7d04df7ca56d793a65e3a9c85fb5dint) by {
        lemma_pow_step(11, 0x340223d472ffcd3496374f6c869759aec8ee9709e70a257enat, 1, 0xab93142b9ccda004b86cd48c220a57b7ef12550ff8725c1d857f6816bc0dc55dac1e149f8a22e0de1be1eeb12bc7ad8int, 0x16fe4596fd3e5874f784382ceffba727779dc5edac705392dc369195805fc5d19ad7d04df7ca56d793a65e3a9c85fb5dint, 0x30a475b189fec32328978f59faf52cf0e6420bd0f277628a1d1c4fa09173a1d1c9a0b1740026574bb52a5268a51c6c29int);
    }
}

proof fn lemma_z_pow_part_19()
    ensures
        pow(11, 0x1a0111ea397fe69a4b1ba7b6434bacd764774b84f38512bf673nat) % (modulus() as int) == 0x2f6666569880ccca90ae9ed52ce1b423192598363c4bd3b96dee53f2b9b87a245093f3143b860fe6e7bbc63d8de3703int,
{
    lemma_z_pow_part_18();
    assert(pow(11, 0xd0088f51cbff34d258dd3db21a5d66bb23ba5c279c2895fbnat) % (modulus() as int) == 0x166a1790ea9a67f3d12654eae6c36fb1a1a12ecaf862c1d3648b6ec3707cc1518f479d143e8adcf02db8226a47c27e14int) by {
        lemma_pow_step(11, 0x680447a8e5ff9a692c6e9ed90d2eb35d91dd2e13ce144afdnat, 1, 0x16fe4596fd3e5874f784382ceffba727779dc5edac705392dc369195805fc5d19ad7d04df7ca56d793a65e3a9c85fb5dint, 0x166a1790ea9a67f3d12654eae6c36fb1a1a12ecaf862c1d3648b6ec3707cc1518f479d143e8adcf02db8226a47c27e14int, 0xdfa3f01c0f470baeaaa3d6d33a9d95f93521caa2ca69ceaa5e949608db95f7538e28862dffb0f4a94e2901f45306feadint);
    }
    assert(pow(11, 0x1a0111ea397fe69a4b1ba7b6434bacd764774b84f38512bf6nat) % (modulus() as int) == 0x1413df610c087edd6a2a2dbb031a19f8125dc52b48d478ac7d0423127ead10d641fb638a28ead732388929bb514137bdint) by {
        lemma_pow_step(11, 0xd0088f51cbff34d258dd3db21a5d66bb23ba5c279c2895fbnat, 0, 0x166a1790ea9a67f3d12654eae6c36fb1a1a12ecaf862c1d3648b6ec3707cc1518f479d143e8adcf02db8226a47c27e14int, 0x1413df610c087edd6a2a2dbb031a19f8125dc52b48d478ac7d0423127ead10d641fb638a28ead732388929bb514137bdint, 0x1351f98d287294f45cea828352894d8cb6af9ca44206586ddf290e7028740c2f20bf764e464dc254fb92cc81beec6d79int);
    }
    assert(pow(11, 0x340223d472ffcd3496374f6c869759aec8ee9709e70a257ecnat) % (modulus() as int) == 0x146849f973b7aa30bb8936e8cb8a3219e2b98b18c2522ecc07a775db20dad55c68b51e48082b89ce7864dffb6eb07514int) by {
        lemma_pow_step(11, 0x1a0111ea397fe69a4b1ba7b6434bacd764774b84f38512bf6nat, 0, 0x1413df610c087edd6a2a2dbb031a19f8125dc52b48d478ac7d0423127ead10d641fb638a28ead732388929bb514137bdint, 0x146849f973b7aa30bb8936e8cb8a3219e2b98b18c2522ecc07a775db20dad55c68b51e48082b89ce7864dffb6eb07514int, 0xf8074c4118b78512f1db3f55bd8c84472d1b3e9b4c2bfc7f41b40ab8cf08f2803af24fe1e331b3f1645bfb475a3e55fint);
    }
    assert(pow(11, 0x680447a8e5ff9a692c6e9ed90d2eb35d91dd2e13ce144afd9nat) % (modulus() as int) == 0xfcaaac5450743c8d69c74bdfbed0f939774ef118c76831f1d026707908e3c8f4cc37dd5f74af0494f922047beb361c9int) by {
        lemma_pow_step(11, 0x340223d472ffcd3496374f6c869759aec8ee9709e70a257ecnat, 1, 0x146849f973b7aa30bb8936e8cb8a3219e2b98b18c2522ecc07a775db20dad55c68b51e48082b89ce7864dffb6eb07514int, 0xfcaaac5450743c8d69c74bdfbed0f939774ef118c76831f1d026707908e3c8f4cc37dd5f74af0494f922047beb361c9int, 0xb02ab114b1ea74433581df1ca32b7e57f68c878c4f9c7e103d81d106d52460d4bb1fb6823844deccd4af35fa9c8f5635int);
    }
    assert(pow(11, 0xd0088f51cbff34d258dd3db21a5d66bb23ba5c279c2895fb3nat) % (modulus() as int) == 0x10f8906cfc91a0b061fe5205c2099ce5da967cfe13dc3d02b9146f4d1815394ca023b6eedcd7e90a893677bfa0d26808int) by {
        lemma_pow_step(11, 0x680447a8e5ff9a692c6e9ed90d2eb35d91dd2e13ce144afd9nat, 1, 0xfcaaac5450743c8d69c74bdfbed0f939774ef118c76831f1d026707908e3c8f4cc37dd5f74af0494f922047beb361c9int, 0x10f8906cfc91a0b061fe5205c2099ce5da967cfe13dc3d02b9146f4d1815394ca023b6eedcd7e90a893677bfa0d26808int, 0x697d15427e6f06a62841e8dbfb9f49b1c12e0f7acdb149cf1ea16fa901ae623f9f5d8a226d7f390feb8401af1dcfb1d9int);
    }
    assert(pow(11, 0x1a0111ea397fe69a4b1ba7b6434bacd764774b84f38512bf67nat) % (modulus() as int) == 0x120b18270285822531f5e493cff7185e575eeaa2e0462c041f55728ba0be99482749253ce171967fcd4479c2f474b83aint) by {
        lemma_pow_step(11, 0xd0088f51cbff34d258dd3db21a5d66bb23ba5c279c2895fb3nat, 1, 0x10f8906cfc91a0b061fe5205c2099ce5da967cfe13dc3d02b9146f4d1815394ca023b6eedcd7e90a893677bfa0d26808int, 0x120b18270285822531f5e493cff7185e575eeaa2e0462c041f55728ba0be99482749253ce171967fcd4479c2f474b83aint, 0x79d509fdcaae9b66ea87c9e34eff58b4b82a24d46f4483a949d85bafe88771c0e8e5a33600c499f45def9125466a5f92int);
    }
    assert(pow(11, 0x340223d472ffcd3496374f6c869759aec8ee9709e70a257ecenat) % (modulus() as int) == 0xfbf481045c4c41c17cf51d8993c60bfaede22fa1d64eac75b464d600fcaaed1b2779e31902bad836276d078cdea04e3int) by {
        lemma_pow_step(11, 0x1a0111ea397fe69a4b1ba7b6434bacd764774b84f38512bf67nat, 0, 0x120b18270285822531f5e493cff7185e575eeaa2e0462c041f55728ba0be99482749253ce171967fcd4479c2f474b83aint, 0xfbf481045c4c41c17cf51d8993c60bfaede22fa1d64eac75b464d600fcaaed1b2779e31902bad836276d078cdea04e3int, 0xc8504bdac9c17dbfd49a659bd1f3ca1a704d3dc8f571c5bc2534522c8d2b67fee8b35354adbfa86bcb9b9eeea6f38c3int);
    }
    assert(pow(11, 0x680447a8e5ff9a692c6e9ed90d2eb35d91dd2e13ce144afd9cnat) % (modulus() as int) == 0x384e634c74c1972b692351611438673f89690570c93981e6ccaea9f71edb87aee9e169f5672559523f4d297d982371cint) by {
        lemma_pow_step(11, 0x340223d472ffcd3496374f6c869759aec8ee9709e70a257ecenat, 0, 0xfbf481045c4c41c17cf51d8993c60bfaede22fa1d64eac75b464d600fcaaed1b2779e31902bad836276d078cdea04e3int, 0x384e634c74c1972b692351611438673f89690570c93981e6ccaea9f71edb87aee9e169f5672559523f4d297d982371cint, 0x98932dd61fa6cd13b326dbd52c2f0ea8bbb64bf7192ffb5380e9e9327268beb67ad8a2d9488c788d58ab525e93bfe87int);
    }
    assert(pow(11, 0xd0088f51cbff34d258dd3db21a5d66bb23ba5c279c2895fb39nat) % (modulus() as int) == 0x12fb88b0a8196256716ca305134f221c1d3ea3fd9763d8ae3dde3da81e95e60110079f1289e25f1f5addf35656bbd1eaint) by {
        lemma_pow_step(11, 0x680447a8e5ff9a692c6e9ed90d2eb35d91dd2e13ce144afd9cnat, 1, 0x384e634c74c1972b692351611438673f89690570c93981e6ccaea9f71edb87aee9e169f5672559523f4d297d982371cint, 0x12fb88b0a8196256716ca305134f221c1d3ea3fd9763d8ae3dde3da81e95e60110079f1289e25f1f5addf35656bbd1eaint, 0x53d1a446dfe9daa43fb5cb1e559a8e1ac72de34b1eb41a50c80669e42ac212da94ea5932bb03368b41aebeaf90cf752int);
    }
    assert(pow(11, 0x1a0111ea397fe69a4b1ba7b6434bacd764774b84f38512bf673nat) % (modulus() as int) == 0x2f6666569880ccca90ae9ed52ce1b423192598363c4bd3b96dee53f2b9b87a245093f3143b860fe6e7bbc63d8de3703int) by {
        lemma_pow_step(11, 0xd0088f51cbff34d258dd3db21a5d66bb23ba5c279c2895fb39nat, 1, 0x12fb88b0a8196256716ca305134f221c1d3ea3fd9763d8ae3dde3da81e95e60110079f1289e25f1f5addf35656bbd1eaint, 0x2f6666569880ccca90ae9ed52ce1b423192598363c4bd3b96dee53f2b9b87a245093f3143b860fe6e7bbc63d8de3703int, 0x986d09638ea6df11d08f7d544bb2216ea8907c3c250f2901220335d66adc72aaa86b8c8ac1615d645ec552cd8639815bint);
    }
}

proof fn lemma_z_pow_part_20()
    ensures
        pow(11, 0x680447a8e5ff9a692c6e9ed90d2eb35d91dd2e13ce144afd9cc34nat) % (modulus() as int) == 0x143fc5ccea75c6bf093e9566f06733222ad7e469c69ce1cb30da00f768f2b0a3bcccbd5e9da59044238d235b3dcac78aint,
{
    lemma_z_pow_part_19();
    assert(pow(11, 0x340223d472ffcd3496374f6c869759aec8ee9709e70a257ece6nat) % (modulus() as int) == 0x7c6c2f6e42fc0650d31628695879121539a47dc41741179c860f1893f45d05a3388f86d540e35313f2a16f579aae764int) by {
        lemma_pow_step(11, 0x1a0111ea397fe69a4b1ba7b6434bacd764774b84f38512bf673nat, 0, 0x2f6666569880ccca90ae9ed52ce1b423192598363c4bd3b96dee53f2b9b87a245093f3143b860fe6e7bbc63d8de3703int, 0x7c6c2f6e42fc0650d31628695879121539a47dc41741179c860f1893f45d05a3388f86d540e35313f2a16f579aae764int, 0x5666635b44920389815013eed806583d1322481b961ce2da6a26ff111b94f7a2a9b120c3baa140b35d1b404a0127efint);
    }
    assert(pow(11, 0x680447a8e5ff9a692c6e9ed90d2eb35d91dd2e13ce144afd9ccnat) % (modulus() as int) == 0x16fdf70d1b782494deae21bcebaae5f74d9d3e2933e0677043dfe2fd0b69fbe53dd56c6913804bf86dadf5c207f59a2eint) by {
        lemma_pow_step(11, 0x340223d472ffcd3496374f6c869759aec8ee9709e70a257ece6nat, 0, 0x7c6c2f6e42fc0650d31628695879121539a47dc41741179c860f1893f45d05a3388f86d540e35313f2a16f579aae764int, 0x16fdf70d1b782494deae21bcebaae5f74d9d3e2933e0677043dfe2fd0b69fbe53dd56c6913804bf86dadf5c207f59a2eint, 0x25353a43af051dc47bc1aecaf0c406294b0484ebaa85bb47d6d8c1bc5168b45d626933ad244dd4043935615f4a60ea6int);
    }
    assert(pow(11, 0xd0088f51cbff34d258dd3db21a5d66bb23ba5c279c2895fb398nat) % (modulus() as int) == 0x7be4a2a1811674b2c38767d1661def1d7f1510b32e86d20402b9acbb29d561a1dde2490853122f2d019c7008a693dfeint) by {
        lemma_pow_step(11, 0x680447a8e5ff9a692c6e9ed90d2eb35d91dd2e13ce144afd9ccnat, 0, 0x16fdf70d1b782494deae21bcebaae5f74d9d3e2933e0677043dfe2fd0b69fbe53dd56c6913804bf86dadf5c207f59a2eint, 0x7be4a2a1811674b2c38767d1661def1d7f1510b32e86d20402b9acbb29d561a1dde2490853122f2d019c7008a693dfeint, 0x14542dd9dee35bbd14b89bb806baaa4c0ec560a2888634f1233344371365ef0aae0100967d95f279d417a49fbe4c66d2int);
    }
    assert(pow(11, 0x1a0111ea397fe69a4b1ba7b6434bacd764774b84f38512bf6730nat) % (modulus() as int) == 0x2fb531658d883bde91cf805fe4552b0294b2013e682e10e69d44a77eef5b15307ab98668a5487aff93ce02165e2284cint) by {
        lemma_pow_step(11, 0xd0088f51cbff34d258dd3db21a5d66bb23ba5c279c2895fb398nat, 0, 0x7be4a2a1811674b2c38767d1661def1d7f1510b32e86d20402b9acbb29d561a1dde2490853122f2d019c7008a693dfeint, 0x2fb531658d883bde91cf805fe4552b0294b2013e682e10e69d44a77eef5b15307ab98668a5487aff93ce02165e2284cint, 0x24e4543e5fd72d5c1c56e5f30624c18f6ed004f0098c1ad7f85a4635b0d84c2ed6882d1e74f0233b3c0a387b19e9f28int);
    }
    assert(pow(11, 0x340223d472ffcd3496374f6c869759aec8ee9709e70a257ece61nat) % (modulus() as int) == 0x13c2fc04b3c48e4a38ec02c420589b9c0c9ae678abfb3a7ee63546eef8228d4cf0a6c7dd909df39285bda2debce2d9b6int) by {
        lemma_pow_step(11, 0x1a0111ea397fe69a4b1ba7b6434bacd764774b84f38512bf6730nat, 1, 0x2fb531658d883bde91cf805fe4552b0294b2013e682e10e69d44a77eef5b15307ab98668a5487aff93ce02165e2284cint, 0x13c2fc04b3c48e4a38ec02c420589b9c0c9ae678abfb3a7ee63546eef8228d4cf0a6c7dd909df39285bda2debce2d9b6int, 0x3c2c83bac821d86bc185d6f7a0a2e11d775108953bcb83dcebadf3db0db7165c92c994fd059e71902c436bf9a481b6eint);
    }
    assert(pow(11, 0x680447a8e5ff9a692c6e9ed90d2eb35d91dd2e13ce144afd9cc3nat) % (modulus() as int) == 0xf193f5419411d80609ac1b8354c11b7e972cefcef007961acf0b34719cb8ab4dd2887304c9fd0595db4b68946679470int) by {
        lemma_pow_step(11, 0x340223d472ffcd3496374f6c869759aec8ee9709e70a257ece61nat, 1, 0x13c2fc04b3c48e4a38ec02c420589b9c0c9ae678abfb3a7ee63546eef8228d4cf0a6c7dd909df39285bda2debce2d9b6int, 0xf193f5419411d80609ac1b8354c11b7e972cefcef007961acf0b34719cb8ab4dd2887304c9fd0595db4b68946679470int, 0xa531dc4166d9ef2476ec14abdd27c0e513ba0c4f96f3e8bd1ac3c4bd9753e0a763c691183ea91386b4f03a7f679cfc94int);
    }
    assert(pow(11, 0xd0088f51cbff34d258dd3db21a5d66bb23ba5c279c2895fb3986nat) % (modulus() as int) == 0x9a3086a55f38032c8b39ae43d575b9573d7c45203b00843a94c8ab0f67ccda36baaf87f8094710b9db370e0d65b5ee9int) by {
        lemma_pow_step(11, 0x680447a8e5ff9a692c6e9ed90d2eb35d91dd2e13ce144afd9cc3nat, 0, 0xf193f5419411d80609ac1b8354c11b7e972cefcef007961acf0b34719cb8ab4dd2887304c9fd0595db4b68946679470int, 0x9a3086a55f38032c8b39ae43d575b9573d7c45203b00843a94c8ab0f67ccda36baaf87f8094710b9db370e0d65b5ee9int, 0x8c4404e94dc9e599479b96470dc8757af10ad088428522c3e9ef3e0be968b168400370ed3d4539e221706078bc7f645int);
    }
    assert(pow(11, 0x1a0111ea397fe69a4b1ba7b6434bacd764774b84f38512bf6730dnat) % (modulus() as int) == 0x8ab08c035a44fd746d8be5fe205fcdbae5f5fc6fc487ecd05f45b157c212274f2de248ab9ed60e533dfa6902eb00179int) by {
        lemma_pow_step(11, 0xd0088f51cbff34d258dd3db21a5d66bb23ba5c279c2895fb3986nat, 1, 0x9a3086a55f38032c8b39ae43d575b9573d7c45203b00843a94c8ab0f67ccda36baaf87f8094710b9db370e0d65b5ee9int, 0x8ab08c035a44fd746d8be5fe205fcdbae5f5fc6fc487ecd05f45b157c212274f2de248ab9ed60e533dfa6902eb00179int, 0x2748ca8f730390338207b58ee29306876e9f5a03ef20cddc6e99ca29701e527ad8b1ffb203ade5be1a7bede8a549edc6int);
    }
    assert(pow(11, 0x340223d472ffcd3496374f6c869759aec8ee9709e70a257ece61anat) % (modulus() as int) == 0x615cd2d8313fe3098367f446cd759e04eeb12c10964114279c35981b3b9457f3c79073f962178a71b8d0162452a5fd3int) by {
        lemma_pow_step(11, 0x1a0111ea397fe69a4b1ba7b6434bacd764774b84f38512bf6730dnat, 0, 0x8ab08c035a44fd746d8be5fe205fcdbae5f5fc6fc487ecd05f45b157c212274f2de248ab9ed60e533dfa6902eb00179int, 0x615cd2d8313fe3098367f446cd759e04eeb12c10964114279c35981b3b9457f3c79073f962178a71b8d0162452a5fd3int, 0x2e3ae828f727a8763853a344ddb3721d5f3e3132a7f7ccbffa3f9eb5f2fc0aba54d5bdc2b95e815ebf2fe9719c1621aint);
    }
    assert(pow(11, 0x680447a8e5ff9a692c6e9ed90d2eb35d91dd2e13ce144afd9cc34nat) % (modulus() as int) == 0x143fc5ccea75c6bf093e9566f06733222ad7e469c69ce1cb30da00f768f2b0a3bcccbd5e9da59044238d235b3dcac78aint) by {
        lemma_pow_step(11, 0x340223d472ffcd3496374f6c869759aec8ee9709e70a257ece61anat, 0, 0x615cd2d8313fe3098367f446cd759e04eeb12c10964114279c35981b3b9457f3c79073f962178a71b8d0162452a5fd3int, 0x143fc5ccea75c6bf093e9566f06733222ad7e469c69ce1cb30da00f768f2b0a3bcccbd5e9da59044238d235b3dcac78aint, 0x16c895c7696e79cbb5b159be69fba1526a57b7c276257495c4c29345f018903d9595b1846a7c8d0253bfd9fc10b811dint);
    }
}

proof fn lemma_z_pow_part_21()
    ensures
        pow(11, 0x1a0111ea397fe69a4b1ba7b6434bacd764774b84f38512bf6730d2a0nat) % (modulus() as int) == 0x74b65ab799f6dfd3444db0a108ca8aa26f6e131e16cc093f0b3ec1f6754f677ddf079c82870fc48125a5b9ca2b8e63int,
{
    lemma_z_pow_part_20();
    assert(pow(11, 0xd0088f51cbff34d258dd3db21a5d66bb23ba5c279c2895fb39869nat) % (modulus() as int) == 0xdf49ada748857feb4136f42aa118cca5c73dc9d2a17f8ecdb8b23e6e81f5104d94b2c2083c924b82feafdae5d0f35eaint) by {
        lemma_pow_step(11, 0x680447a8e5ff9a692c6e9ed90d2eb35d91dd2e13ce144afd9cc34nat, 1, 0x143fc5ccea75c6bf093e9566f06733222ad7e469c69ce1cb30da00f768f2b0a3bcccbd5e9da59044238d235b3dcac78aint, 0xdf49ada748857feb4136f42aa118cca5c73dc9d2a17f8ecdb8b23e6e81f5104d94b2c2083c924b82feafdae5d0f35eaint, 0xad71e3d3f1a4ce81d6b5855cf26db8b7bb1b378e9ceb013da79d529509f3208336f4ee80dad2074304c83673d9430126int);
    }
    assert(pow(11, 0x1a0111ea397fe69a4b1ba7b6434bacd764774b84f38512bf6730d2nat) % (modulus() as int) == 0x58a2cfbc26d5e2d6bf8a85a1cc24c80574272d2a8405a50e141acc15393310993868f5f6ed4315cd28c04f32900fbb7int) by {
        lemma_pow_step(11, 0xd0088f51cbff34d258dd3db21a5d66bb23ba5c279c2895fb39869nat, 0, 0xdf49ada748857feb4136f42aa118cca5c73dc9d2a17f8ecdb8b23e6e81f5104d94b2c2083c924b82feafdae5d0f35eaint, 0x58a2cfbc26d5e2d6bf8a85a1cc24c80574272d2a8405a50e141acc15393310993868f5f6ed4315cd28c04f32900fbb7int, 0x77d492a2e62eec18d47c23d797c41ebd2eb61d4b1dc6a07f4ad8caad97c8221b5f51caba342bd7be9ff6780e1d83a87int);
    }
    assert(pow(11, 0x340223d472ffcd3496374f6c869759aec8ee9709e70a257ece61a5nat) % (modulus() as int) == 0x197f4b922a0490e03f00e79ce2d9f7a725f5ec3e4a96b4c9770bef633578b1fc4f0f7db356e88c5581509ad1b67c4c53int) by {
        lemma_pow_step(11, 0x1a0111ea397fe69a4b1ba7b6434bacd764774b84f38512bf6730d2nat, 1, 0x58a2cfbc26d5e2d6bf8a85a1cc24c80574272d2a8405a50e141acc15393310993868f5f6ed4315cd28c04f32900fbb7int, 0x197f4b922a0490e03f00e79ce2d9f7a725f5ec3e4a96b4c9770bef633578b1fc4f0f7db356e88c5581509ad1b67c4c53int, 0xcfb4d013f9fc199151e320315bba53406cc5b423c6f22edba6f05a5d08d25f00af42a5918482c2aee200b18340f11f8int);
    }
    assert(pow(11, 0x680447a8e5ff9a692c6e9ed90d2eb35d91dd2e13ce144afd9cc34anat) % (modulus() as int) == 0x14ae35fbd236fa968ea5c668a2c77425f3cc95df6aa4c82290c2fbf726b6aa15d791e04c57d42d2fae744f8bdc76a3a4int) by {
        lemma_pow_step(11, 0x340223d472ffcd3496374f6c869759aec8ee9709e70a257ece61a5nat, 0, 0x197f4b922a0490e03f00e79ce2d9f7a725f5ec3e4a96b4c9770bef633578b1fc4f0f7db356e88c5581509ad1b67c4c53int, 0x14ae35fbd236fa968ea5c668a2c77425f3cc95df6aa4c82290c2fbf726b6aa15d791e04c57d42d2fae744f8bdc76a3a4int, 0x19000cdf63ecdfd8858853628c562fd55513bea53df60bbc44e2ca06398d3da7837f7b27d8c5a6cfd0be3875c9e73dcfint);
    }
    assert(pow(11, 0xd0088f51cbff34d258dd3db21a5d66bb23ba5c279c2895fb398695nat) % (modulus() as int) == 0x802fbe17c6a524d07eb1304fe3267bbf862481aa1ea1283f7ea65190c38077f8d9b4017521c26760715144debe99d5bint) by {
        lemma_pow_step(11, 0x680447a8e5ff9a692c6e9ed90d2eb35d91dd2e13ce144afd9cc34anat, 1, 0x14ae35fbd236fa968ea5c668a2c77425f3cc95df6aa4c82290c2fbf726b6aa15d791e04c57d42d2fae744f8bdc76a3a4int, 0x802fbe17c6a524d07eb1304fe3267bbf862481aa1ea1283f7ea65190c38077f8d9b4017521c26760715144debe99d5bint, 0xb4e9f8fb0a1a8d74c5fb0fb29e58e96d178a0974d0da812e99c8416de2f9ffd438e08c1a4922f6129e94be6464548affint);
    }
    assert(pow(11, 0x1a0111ea397fe69a4b1ba7b6434bacd764774b84f38512bf6730d2anat) % (modulus() as int) == 0x16f9bb4e2625b422c433cdc0dbf9e46bc53abb919153807381ef272764e25331bca09a965ce61d1bdf3e42767e2673feint) by {
        lemma_pow_step(11, 0xd0088f51cbff34d258dd3db21a5d66bb23ba5c279c2895fb398695nat, 0, 0x802fbe17c6a524d07eb1304fe3267bbf862481aa1ea1283f7ea65190c38077f8d9b4017521c26760715144debe99d5bint, 0x16f9bb4e2625b422c433cdc0dbf9e46bc53abb919153807381ef272764e25331bca09a965ce61d1bdf3e42767e2673feint, 0x277e3cda7eceb5c4e75012206269b5ff0f290378f59ae5ee4aa77f860336c17de30cfefa921f9ad3aa21acf0bb9df11int);
    }
    assert(pow(11, 0x340223d472ffcd3496374f6c869759aec8ee9709e70a257ece61a54nat) % (modulus() as int) == 0x12f82c1eaea7e439361dc2d8c305115f50b1967d2c8237b998ebf91f928b9364fe3d507f98149d14861fc41afb4bd131int) by {
        lemma_pow_step(11, 0x1a0111ea397fe69a4b1ba7b6434bacd764774b84f38512bf6730d2anat, 0, 0x16f9bb4e2625b422c433cdc0dbf9e46bc53abb919153807381ef272764e25331bca09a965ce61d1bdf3e42767e2673feint, 0x12f82c1eaea7e439361dc2d8c305115f50b1967d2c8237b998ebf91f928b9364fe3d507f98149d14861fc41afb4bd131int, 0x144cb21d451ab5b1ffcff173df3f0df9c88030db253c123de00672661a68485c2b566d8471d9eaf16ae4347d2e781c79int);
    }
    assert(pow(11, 0x680447a8e5ff9a692c6e9ed90d2eb35d91dd2e13ce144afd9cc34a8nat) % (modulus() as int) == 0x1598cd1d181a2b36adaffa9d149645f9fed64516250ec8a4671a8fdf4fd0b6b169996c92897d25befe7c52e8a8b6d05fint) by {
        lemma_pow_step(11, 0x340223d472ffcd3496374f6c869759aec8ee9709e70a257ece61a54nat, 0, 0x12f82c1eaea7e439361dc2d8c305115f50b1967d2c8237b998ebf91f928b9364fe3d507f98149d14861fc41afb4bd131int, 0x1598cd1d181a2b36adaffa9d149645f9fed64516250ec8a4671a8fdf4fd0b6b169996c92897d25befe7c52e8a8b6d05fint, 0xdd675fab7b812874f44550a5291e3110573e0017ac817c83f09d1eaa94d4d1dab19595e8d0992dac76492f7b1d6b106int);
    }
    assert(pow(11, 0xd0088f51cbff34d258dd3db21a5d66bb23ba5c279c2895fb3986950nat) % (modulus() as int) == 0x8ff0735a01ebc0b5aa9c51a65e109d1f7b7364ae7dcb036f5713762c9432934fcb0744f0d276b379c87a08d325d5d61int) by {
        lemma_pow_step(11, 0x680447a8e5ff9a692c6e9ed90d2eb35d91dd2e13ce144afd9cc34a8nat, 0, 0x1598cd1d181a2b36adaffa9d149645f9fed64516250ec8a4671a8fdf4fd0b6b169996c92897d25befe7c52e8a8b6d05fint, 0x8ff0735a01ebc0b5aa9c51a65e109d1f7b7364ae7dcb036f5713762c9432934fcb0744f0d276b379c87a08d325d5d61int, 0x11efc19c8bc78700029cd95a8149d88fe7095adf0224acc84172fd6460b135feb7fa5bb9aa7629bcb70ecf98bc9371a0int);
    }
    assert(pow(11, 0x1a0111ea397fe69a4b1ba7b6434bacd764774b84f38512bf6730d2a0nat) % (modulus() as int) == 0x74b65ab799f6dfd3444db0a108ca8aa26f6e131e16cc093f0b3ec1f6754f677ddf079c82870fc48125a5b9ca2b8e63int) by {
        lemma_pow_step(11, 0xd0088f51cbff34d258dd3db21a5d66bb23ba5c279c2895fb3986950nat, 0, 0x8ff0735a01ebc0b5aa9c51a65e109d1f7b7364ae7dcb036f5713762c9432934fcb0744f0d276b379c87a08d325d5d61int, 0x74b65ab799f6dfd3444db0a108ca8aa26f6e131e16cc093f0b3ec1f6754f677ddf079c82870fc48125a5b9ca2b8e63int, 0x31cbcdacb9d5fd5416daff8f55fe61cc76daeccb34150863e4b2b0c3d15c1f45fa8e906fd357c54d060a3296e34311aint);
    }
}

proof fn lemma_z_pow_part_22()
    ensures
        pow(11, 0x680447a8e5ff9a692c6e9ed90d2eb35d91dd2e13ce144afd9cc34a83danat) % (modulus() as int) == 0x8a46266fae2d2d8c8364604edee4a5e46ac5a9c9a11819bcbe0da95673f5ce09fdeaa2cc84e0e10fd3abeb6f37e1bb1int,
{
    lemma_z_pow_part_21();
    assert(pow(11, 0x340223d472ffcd3496374f6c869759aec8ee9709e70a257ece61a541nat) % (modulus() as int) == 0x48daf9cdd60ba90f4a2b7fe205130e1f10f74b68a60b9e557f347d290a3051426338f4dd05646747d4a418d1add736bint) by {
        lemma_pow_step(11, 0x1a0111ea397fe69a4b1ba7b6434bacd764774b84f38512bf6730d2a0nat, 1, 0x74b65ab799f6dfd3444db0a108ca8aa26f6e131e16cc093f0b3ec1f6754f677ddf079c82870fc48125a5b9ca2b8e63int, 0x48daf9cdd60ba90f4a2b7fe205130e1f10f74b68a60b9e557f347d290a3051426338f4dd05646747d4a418d1add736bint, 0x168220ea84380cda0d9dfba383fe6ba2824db1c81d3ebb3ada2b9c07af060d93df4e393c2c314be9a0167b0782e928int);
    }
    assert(pow(11, 0x680447a8e5ff9a692c6e9ed90d2eb35d91dd2e13ce144afd9cc34a83nat) % (modulus() as int) == 0xa3bb5551b8022784de6e605190e5c6e9f2a14cbae532eb731ed3dd35efdc99c67917908dfb2043648466063683c4b48int) by {
        lemma_pow_step(11, 0x340223d472ffcd3496374f6c869759aec8ee9709e70a257ece61a541nat, 1, 0x48daf9cdd60ba90f4a2b7fe205130e1f10f74b68a60b9e557f347d290a3051426338f4dd05646747d4a418d1add736bint, 0xa3bb5551b8022784de6e605190e5c6e9f2a14cbae532eb731ed3dd35efdc99c67917908dfb2043648466063683c4b48int, 0x8c54a99bc8508c7e6b0b8692a0d64bfff5e70a4dc96ca0c9e1fae25ffc7ff490e2a6fc198da45d2be8bcaba1afd4401int);
    }
    assert(pow(11, 0xd0088f51cbff34d258dd3db21a5d66bb23ba5c279c2895fb39869507nat) % (modulus() as int) == 0x18a8f7a3e66aa1624b869671a543e26b002d487b92acb09e0f41f8feb9277ded2a063c106d32ee324fa9d722fd802a80int) by {
        lemma_pow_step(11, 0x680447a8e5ff9a692c6e9ed90d2eb35d91dd2e13ce144afd9cc34a83nat, 1, 0xa3bb5551b8022784de6e605190e5c6e9f2a14cbae532eb731ed3dd35efdc99c67917908dfb2043648466063683c4b48int, 0x18a8f7a3e66aa1624b869671a543e26b002d487b92acb09e0f41f8feb9277ded2a063c106d32ee324fa9d722fd802a80int, 0x2c4c0ffa5db07990faa2049f93144ff9a565a94a491c236fbd69730a35b53c2735b26482997550cf534091ec308b4cc0int);
    }
    assert(pow(11, 0x1a0111ea397fe69a4b1ba7b6434bacd764774b84f38512bf6730d2a0fnat) % (modulus() as int) == 0xd3bfef6fcc5273c3857119eba64f64d8c1b3c5321938ea508d44fd6664608f0c0a2e825da37ca6777d2bdce8375fe14int) by {
        lemma_pow_step(11, 0xd0088f51cbff34d258dd3db21a5d66bb23ba5c279c2895fb39869507nat, 1, 0x18a8f7a3e66aa1624b869671a543e26b002d487b92acb09e0f41f8feb9277ded2a063c106d32ee324fa9d722fd802a80int, 0xd3bfef6fcc5273c3857119eba64f64d8c1b3c5321938ea508d44fd6664608f0c0a2e825da37ca6777d2bdce8375fe14int, 0x1013d2a14459c6fea8506281bac99d9af2ec39f1616b113e0ef578342250c50cc251d8f514b44ce1a244d8e69243845c4int);
    }
    assert(pow(11, 0x340223d472ffcd3496374f6c869759aec8ee9709e70a257ece61a541enat) % (modulus() as int) == 0x10ae7a9c4e2ecf56203c7fe86b6845f3bfdd154b37a8ffddf1f324e28fe942b992b56846bcb9300a5b9e2a2cf30bd566int) by {
        lemma_pow_step(11, 0x1a0111ea397fe69a4b1ba7b6434bacd764774b84f38512bf6730d2a0fnat, 0, 0xd3bfef6fcc5273c3857119eba64f64d8c1b3c5321938ea508d44fd6664608f0c0a2e825da37ca6777d2bdce8375fe14int, 0x10ae7a9c4e2ecf56203c7fe86b6845f3bfdd154b37a8ffddf1f324e28fe942b992b56846bcb9300a5b9e2a2cf30bd566int, 0x6bc4272f61d30b4980fe2215c738bfd5af38baac81dc88b682250dece05f24e073a054053c4d85712bf8dfed2b5947eint);
    }
    assert(pow(11, 0x680447a8e5ff9a692c6e9ed90d2eb35d91dd2e13ce144afd9cc34a83dnat) % (modulus() as int) == 0x102f8e6128fb13cbaa0b44a7d664ad197f425971d1b61d994d025ce02f31d823e4e706e55897e6081f3e2505cfbf69d8int) by {
        lemma_pow_step(11, 0x340223d472ffcd3496374f6c869759aec8ee9709e70a257ece61a541enat, 1, 0x10ae7a9c4e2ecf56203c7fe86b6845f3bfdd154b37a8ffddf1f324e28fe942b992b56846bcb9300a5b9e2a2cf30bd566int, 0x102f8e6128fb13cbaa0b44a7d664ad197f425971d1b61d994d025ce02f31d823e4e706e55897e6081f3e2505cfbf69d8int, 0x75b669ad923312c1cade278dbbbd513d930e1f480fc2f6d57732326b0644b67afc34566d3e7480ca28a241010de13b9cint);
    }
    assert(pow(11, 0xd0088f51cbff34d258dd3db21a5d66bb23ba5c279c2895fb39869507bnat) % (modulus() as int) == 0xc73e5e7802532009e33dba472f6e95d1a4c7af6ac0c9d1df46b6750f38bbde3a1274d02e453bd9ad75fdaa5861faf4aint) by {
        lemma_pow_step(11, 0x680447a8e5ff9a692c6e9ed90d2eb35d91dd2e13ce144afd9cc34a83dnat, 1, 0x102f8e6128fb13cbaa0b44a7d664ad197f425971d1b61d994d025ce02f31d823e4e706e55897e6081f3e2505cfbf69d8int, 0xc73e5e7802532009e33dba472f6e95d1a4c7af6ac0c9d1df46b6750f38bbde3a1274d02e453bd9ad75fdaa5861faf4aint, 0x6ed1c89d3da60a0fba706e77e57a4ff3b9ead34e9a8d4a125552ea112beb74e9ac2dab1c424677464a0ff289fc72a062int);
    }
    assert(pow(11, 0x1a0111ea397fe69a4b1ba7b6434bacd764774b84f38512bf6730d2a0f6nat) % (modulus() as int) == 0x338c168381d6251b63f7e7ea63b3019c5d7160e0df80df211c14ea1347f8a22a73adf861ed9342079f1d0fa0331b071int) by {
        lemma_pow_step(11, 0xd0088f51cbff34d258dd3db21a5d66bb23ba5c279c2895fb39869507bnat, 0, 0xc73e5e7802532009e33dba472f6e95d1a4c7af6ac0c9d1df46b6750f38bbde3a1274d02e453bd9ad75fdaa5861faf4aint, 0x338c168381d6251b63f7e7ea63b3019c5d7160e0df80df211c14ea1347f8a22a73adf861ed9342079f1d0fa0331b071int, 0x5f69a0635dba368ca41e9e911640cea74a7acb6722fdf1713ed37d6aa811089623c9b10d4f8b400290fe8a0d51ab2d9int);
    }
    assert(pow(11, 0x340223d472ffcd3496374f6c869759aec8ee9709e70a257ece61a541ednat) % (modulus() as int) == 0x167c36149f0cc3bcdcedf106fd1c22f826f578e548156bc7d6931492098201e4db43a47c481075b5224e96292914c1e2int) by {
        lemma_pow_step(11, 0x1a0111ea397fe69a4b1ba7b6434bacd764774b84f38512bf6730d2a0f6nat, 1, 0x338c168381d6251b63f7e7ea63b3019c5d7160e0df80df211c14ea1347f8a22a73adf861ed9342079f1d0fa0331b071int, 0x167c36149f0cc3bcdcedf106fd1c22f826f578e548156bc7d6931492098201e4db43a47c481075b5224e96292914c1e2int, 0x463fbd183ffa05bee2c32804e0df521bc70c8096fad6f39f8f874ffd10fdcf20baae9147d28d81afde5d12213ac885bint);
    }
    assert(pow(11, 0x680447a8e5ff9a692c6e9ed90d2eb35d91dd2e13ce144afd9cc34a83danat) % (modulus() as int) == 0x8a46266fae2d2d8c8364604edee4a5e46ac5a9c9a11819bcbe0da95673f5ce09fdeaa2cc84e0e10fd3abeb6f37e1bb1int) by {
        lemma_pow_step(11, 0x340223d472ffcd3496374f6c869759aec8ee9709e70a257ece61a541ednat, 0, 0x167c36149f0cc3bcdcedf106fd1c22f826f578e548156bc7d6931492098201e4db43a47c481075b5224e96292914c1e2int, 0x8a46266fae2d2d8c8364604edee4a5e46ac5a9c9a11819bcbe0da95673f5ce09fdeaa2cc84e0e10fd3abeb6f37e1bb1int, 0x1371428de1305cbd27f8f0566be43374e3527e1235d9e3169a4d6672262854c2857149d46dc909db170fcdd53b724f79int);
    }
}

proof fn lemma_z_pow_part_23()
    ensures
        pow(11, 0x1a0111ea397fe69a4b1ba7b6434bacd764774b84f38512bf6730d2a0f6b0fnat) % (modulus() as int) == 0x123faba477ee5b379ed31397dae20c3d3faa481593a28390cb559ee5f7d7d34ccd6a19ea6a24550a2245929a1f599dabint,
{
    lemma_z_pow_part_22();
    assert(pow(11, 0xd0088f51cbff34d258dd3db21a5d66bb23ba5c279c2895fb39869507b5nat) % (modulus() as int) == 0x87e434679f1017676d39e34a16ba645ed6805e15329fb9ac280fe0132b7d5d4c9726cca81e2457b938199eca7613bd0int) by {
        lemma_pow_step(11, 0x680447a8e5ff9a692c6e9ed90d2eb35d91dd2e13ce144afd9cc34a83danat, 1, 0x8a46266fae2d2d8c8364604edee4a5e46ac5a9c9a11819bcbe0da95673f5ce09fdeaa2cc84e0e10fd3abeb6f37e1bb1int, 0x87e434679f1017676d39e34a16ba645ed6805e15329fb9ac280fe0132b7d5d4c9726cca81e2457b938199eca7613bd0int, 0x1f97ce5d6c4fa4e3c8fd19ae5d65451e0b26f5cbad07ea35dfc63032e0e8fe52b376c74cb96c3f49558025c2e5822911int);
    }
    assert(pow(11, 0x1a0111ea397fe69a4b1ba7b6434bacd764774b84f38512bf6730d2a0f6bnat) % (modulus() as int) == 0x814f990d4ca365e73ace2aeb62f6b3756d6c564d742c63024b1206cb939d589c18ebd380d06091cdba87ec9331fb2a1int) by {
        lemma_pow_step(11, 0xd0088f51cbff34d258dd3db21a5d66bb23ba5c279c2895fb39869507b5nat, 1, 0x87e434679f1017676d39e34a16ba645ed6805e15329fb9ac280fe0132b7d5d4c9726cca81e2457b938199eca7613bd0int, 0x814f990d4ca365e73ace2aeb62f6b3756d6c564d742c63024b1206cb939d589c18ebd380d06091cdba87ec9331fb2a1int, 0x1e837c4a4379f5b698a3b6986028e39dee3f7c3eaad43d45268defa38373392dd9e0c06716f843ecf66c679cec88911dint);
    }
    assert(pow(11, 0x340223d472ffcd3496374f6c869759aec8ee9709e70a257ece61a541ed6nat) % (modulus() as int) == 0x16b5f4e7b314ec9552d77f5abfaa79347667b788bca204391ad800f7f56bec4e0f423688438309cf9f87a74a91847934int) by {
        lemma_pow_step(11, 0x1a0111ea397fe69a4b1ba7b6434bacd764774b84f38512bf6730d2a0f6bnat, 0, 0x814f990d4ca365e73ace2aeb62f6b3756d6c564d742c63024b1206cb939d589c18ebd380d06091cdba87ec9331fb2a1int, 0x16b5f4e7b314ec9552d77f5abfaa79347667b788bca204391ad800f7f56bec4e0f423688438309cf9f87a74a91847934int, 0x2830630f906440344e5ecd607e9e955de49a3add1c12dbf9379aae32bb3242f52927643d2c6d26d19a75c616c807027int);
    }
    assert(pow(11, 0x680447a8e5ff9a692c6e9ed90d2eb35d91dd2e13ce144afd9cc34a83dacnat) % (modulus() as int) == 0xefbb859749b91fc809bf3cefc5770eca498d778e60b2cec8218e3a08f4f6ff1b1792514ae4446d07c8d8658bc40ddf4int) by {
        lemma_pow_step(11, 0x340223d472ffcd3496374f6c869759aec8ee9709e70a257ece61a541ed6nat, 0, 0x16b5f4e7b314ec9552d77f5abfaa79347667b788bca204391ad800f7f56bec4e0f423688438309cf9f87a74a91847934int, 0xefbb859749b91fc809bf3cefc5770eca498d778e60b2cec8218e3a08f4f6ff1b1792514ae4446d07c8d8658bc40ddf4int, 0x13d59f80eb40bd9d593e281ca051fce16a791ef05a6afb287b07f8fdb5232467b9ec32de639c6358e17552cc2617fdd4int);
    }
    assert(pow(11, 0xd0088f51cbff34d258dd3db21a5d66bb23ba5c279c2895fb39869507b58nat) % (modulus() as int) == 0xe67dd62f2d9e6cf476a59b6fc04163b1d5ee62e22934801ca461e5f55344a63d2ac77f4f90378f27f9aebfbeeaf0b55int) by {
        lemma_pow_step(11, 0x680447a8e5ff9a692c6e9ed90d2eb35d91dd2e13ce144afd9cc34a83dacnat, 0, 0xefbb859749b91fc809bf3cefc5770eca498d778e60b2cec8218e3a08f4f6ff1b1792514ae4446d07c8d8658bc40ddf4int, 0xe67dd62f2d9e6cf476a59b6fc04163b1d5ee62e22934801ca461e5f55344a63d2ac77f4f90378f27f9aebfbeeaf0b55int, 0x8a218006e85c6205c2394bef7eaf53b060a3dc279afeabe7f2f207a942b223993226bb60d0c0654864c4987f2f16fb1int);
    }
    assert(pow(11, 0x1a0111ea397fe69a4b1ba7b6434bacd764774b84f38512bf6730d2a0f6b0nat) % (modulus() as int) == 0xf533bfe3ecb9ab6eef8859a463284752e9a4b0430f29b7c628ad127274176a5e8c09588dc15389563ec04eb88c5eaecint) by {
        lemma_pow_step(11, 0xd0088f51cbff34d258dd3db21a5d66bb23ba5c279c2895fb39869507b58nat, 0, 0xe67dd62f2d9e6cf476a59b6fc04163b1d5ee62e22934801ca461e5f55344a63d2ac77f4f90378f27f9aebfbeeaf0b55int, 0xf533bfe3ecb9ab6eef8859a463284752e9a4b0430f29b7c628ad127274176a5e8c09588dc15389563ec04eb88c5eaecint, 0x7fafe2ed24fc283338bf7ef32444091455d85ff9297270fd6df77f74b2e326a1b114b1fb8d9408ba9cd1b4783b87de7int);
    }
    assert(pow(11, 0x340223d472ffcd3496374f6c869759aec8ee9709e70a257ece61a541ed61nat) % (modulus() as int) == 0x13469ba348733b196d339b6465231ebd87c783b6364c72fcd9536875a63e740875c2da37dd3d62750e211e25416c252aint) by {
        lemma_pow_step(11, 0x1a0111ea397fe69a4b1ba7b6434bacd764774b84f38512bf6730d2a0f6b0nat, 1, 0xf533bfe3ecb9ab6eef8859a463284752e9a4b0430f29b7c628ad127274176a5e8c09588dc15389563ec04eb88c5eaecint, 0x13469ba348733b196d339b6465231ebd87c783b6364c72fcd9536875a63e740875c2da37dd3d62750e211e25416c252aint, 0x63590717e0c412746e411d7d624f211543ad3028c5e20ab3d8d9195e71bd53e6545a6a4268f67b11540a7a5e48230c12int);
    }
    assert(pow(11, 0x680447a8e5ff9a692c6e9ed90d2eb35d91dd2e13ce144afd9cc34a83dac3nat) % (modulus() as int) == 0x10747887181f956662062cd207ba9ee912954539c6ff27fb1ee861ae948da690026e0c85ed8b7e4a52679c5e9dc4d5b6int) by {
        lemma_pow_step(11, 0x340223d472ffcd3496374f6c869759aec8ee9709e70a257ece61a541ed61nat, 1, 0x13469ba348733b196d339b6465231ebd87c783b6364c72fcd9536875a63e740875c2da37dd3d62750e211e25416c252aint, 0x10747887181f956662062cd207ba9ee912954539c6ff27fb1ee861ae948da690026e0c85ed8b7e4a52679c5e9dc4d5b6int, 0x9d2c01bd13ba06bba3731d5bbfc660e8d0ca3bd5b894e73c8abb12556ef389ed9dd756cb6af80d99dc052c5b7c6e0642int);
    }
    assert(pow(11, 0xd0088f51cbff34d258dd3db21a5d66bb23ba5c279c2895fb39869507b587nat) % (modulus() as int) == 0x16c23cb8094e5ed7be84a4c17235cba83ba5cf5e089ffdc4c306d16d9e6110219f2db4067a933f30031a108b3eb95d6cint) by {
        lemma_pow_step(11, 0x680447a8e5ff9a692c6e9ed90d2eb35d91dd2e13ce144afd9cc34a83dac3nat, 1, 0x10747887181f956662062cd207ba9ee912954539c6ff27fb1ee861ae948da690026e0c85ed8b7e4a52679c5e9dc4d5b6int, 0x16c23cb8094e5ed7be84a4c17235cba83ba5cf5e089ffdc4c306d16d9e6110219f2db4067a933f30031a108b3eb95d6cint, 0x72894f673306e7a776e08cdd40a4cb6b9549211530064f4667d1e1f551a8388e243edda2c603798193b97f3d0597f1a0int);
    }
    assert(pow(11, 0x1a0111ea397fe69a4b1ba7b6434bacd764774b84f38512bf6730d2a0f6b0fnat) % (modulus() as int) == 0x123faba477ee5b379ed31397dae20c3d3faa481593a28390cb559ee5f7d7d34ccd6a19ea6a24550a2245929a1f599dabint) by {
        lemma_pow_step(11, 0xd0088f51cbff34d258dd3db21a5d66bb23ba5c279c2895fb39869507b587nat, 1, 0x16c23cb8094e5ed7be84a4c17235cba83ba5cf5e089ffdc4c306d16d9e6110219f2db4067a933f30031a108b3eb95d6cint, 0x123faba477ee5b379ed31397dae20c3d3faa481593a28390cb559ee5f7d7d34ccd6a19ea6a24550a2245929a1f599dabint, 0xdb1a0ead5e2142e76e266da6a6cb1fcfb62b93ed7a12c3b7816fe32bfaefbd8931259f9e6c23afc107b381a79ea67e8fint);
    }
}

proof fn lemma_z_pow_part_24()
    ensures
        pow(11, 0x680447a8e5ff9a692c6e9ed90d2eb35d91dd2e13ce144afd9cc34a83dac3d89nat) % (modulus() as int) == 0x533bb365bb685d0229c1e0a15aa25f52ad3f2b332784705fb556f10aa195aac25fe43f802fe3af5b4dd08b307e9d754int,
{
    lemma_z_pow_part_23();
    assert(pow(11, 0x340223d472ffcd3496374f6c869759aec8ee9709e70a257ece61a541ed61enat) % (modulus() as int) == 0x191c50f5345b2696eeab20a74bfbedae0bcfdc3fecad0c9a11cd2ad78c6155d4ca7eebf0fc3c078ab257637fe010d435int) by {
        lemma_pow_step(11, 0x1a0111ea397fe69a4b1ba7b6434bacd764774b84f38512bf6730d2a0f6b0fnat, 0, 0x123faba477ee5b379ed31397dae20c3d3faa481593a28390cb559ee5f7d7d34ccd6a19ea6a24550a2245929a1f599dabint, 0x191c50f5345b2696eeab20a74bfbedae0bcfdc3fecad0c9a11cd2ad78c6155d4ca7eebf0fc3c078ab257637fe010d435int, 0xcce651fe79c3f517c730953481302f8c3bf15c41672357a50207bcde2093f43d1d63bc89494f7155763413cb7dd140cint);
    }
    assert(pow(11, 0x680447a8e5ff9a692c6e9ed90d2eb35d91dd2e13ce144afd9cc34a83dac3dnat) % (modulus() as int) == 0x46b47d4a345be84ed3260858c415d9a47264cc4b526eab129d419c74ee253ae30c5b89a71acd12840ae8d68b891bd38int) by {
        lemma_pow_step(11, 0x340223d472ffcd3496374f6c869759aec8ee9709e70a257ece61a541ed61enat, 1, 0x191c50f5345b2696eeab20a74bfbedae0bcfdc3fecad0c9a11cd2ad78c6155d4ca7eebf0fc3c078ab257637fe010d435int, 0x46b47d4a345be84ed3260858c415d9a47264cc4b526eab129d419c74ee253ae30c5b89a71acd12840ae8d68b891bd38int, 0x10ab9a7559474e7ad3fc3b067f45a97f8b4aafa8299538574a3b8b427c0faba42ec7f82d31b65a8dcd7eed0d0983dfa71int);
    }
    assert(pow(11, 0xd0088f51cbff34d258dd3db21a5d66bb23ba5c279c2895fb39869507b587bnat) % (modulus() as int) == 0xf3a8287083b88e8d9392e41f498ec52954cbd7e62432c302c150e05f97a76b7314a471c9d95bdd5dbb0b3655bf45b3dint) by {
        lemma_pow_step(11, 0x680447a8e5ff9a692c6e9ed90d2eb35d91dd2e13ce144afd9cc34a83dac3dnat, 1, 0x46b47d4a345be84ed3260858c415d9a47264cc4b526eab129d419c74ee253ae30c5b89a71acd12840ae8d68b891bd38int, 0xf3a8287083b88e8d9392e41f498ec52954cbd7e62432c302c150e05f97a76b7314a471c9d95bdd5dbb0b3655bf45b3dint, 0x842b50795d682d98e8428d821e0471be23480b8b402b40bc67e19f53992f466d589bf31d6f9b768c8c062c42d6f3289int);
    }
    assert(pow(11, 0x1a0111ea397fe69a4b1ba7b6434bacd764774b84f38512bf6730d2a0f6b0f6nat) % (modulus() as int) == 0x16ee8abe7a62877517e4d5726c542e3fffe7839345b1081b42576ac3cb1ab0547b05fbbbabbc3d11962272462e592e66int) by {
        lemma_pow_step(11, 0xd0088f51cbff34d258dd3db21a5d66bb23ba5c279c2895fb39869507b587bnat, 0, 0xf3a8287083b88e8d9392e41f498ec52954cbd7e62432c302c150e05f97a76b7314a471c9d95bdd5dbb0b3655bf45b3dint, 0x16ee8abe7a62877517e4d5726c542e3fffe7839345b1081b42576ac3cb1ab0547b05fbbbabbc3d11962272462e592e66int, 0x8eb0b17cf07f5bef49f1a0fbc445f3b25ae5791715f97bc98b0afacd722c99c38c8bfc939c064601e68e3a86fc2ba69int);
    }
    assert(pow(11, 0x340223d472ffcd3496374f6c869759aec8ee9709e70a257ece61a541ed61ecnat) % (modulus() as int) == 0x974a36442fc8b432d360208293fc4e995a8ef90effefaddef3c32fdea95d1d8b561e7ec9f4af32398d33b471a947394int) by {
        lemma_pow_step(11, 0x1a0111ea397fe69a4b1ba7b6434bacd764774b84f38512bf6730d2a0f6b0f6nat, 0, 0x16ee8abe7a62877517e4d5726c542e3fffe7839345b1081b42576ac3cb1ab0547b05fbbbabbc3d11962272462e592e66int, 0x974a36442fc8b432d360208293fc4e995a8ef90effefaddef3c32fdea95d1d8b561e7ec9f4af32398d33b471a947394int, 0x1438f111910f2a04e42c482365ef6c902206316e6b18b79a30a0d072b324a7ed800f7f9d5b5c4650f2011a2da1711730int);
    }
    assert(pow(11, 0x680447a8e5ff9a692c6e9ed90d2eb35d91dd2e13ce144afd9cc34a83dac3d8nat) % (modulus() as int) == 0x10b3eaa6c11d572a7244d3ea35310d0773b61f05d4d80ec09c3f3e91dcd7a76a06ebc3ef9fa34181d58ed9f83374de3dint) by {
        lemma_pow_step(11, 0x340223d472ffcd3496374f6c869759aec8ee9709e70a257ece61a541ed61ecnat, 0, 0x974a36442fc8b432d360208293fc4e995a8ef90effefaddef3c32fdea95d1d8b561e7ec9f4af32398d33b471a947394int, 0x10b3eaa6c11d572a7244d3ea35310d0773b61f05d4d80ec09c3f3e91dcd7a76a06ebc3ef9fa34181d58ed9f83374de3dint, 0x37030c267c21660324855f0fae8260a879ee338cad8f9d82617a6385303bbf34029fafd35a7be2958dd509469854df9int);
    }
    assert(pow(11, 0xd0088f51cbff34d258dd3db21a5d66bb23ba5c279c2895fb39869507b587b1nat) % (modulus() as int) == 0x99a09f0ab71e55b76eb9e52926f2b1e0ce3a1572450fe36871f5fe7c8f5e6d081b4d829e184b90ac7bbfe5b0dd6c399int) by {
        lemma_pow_step(11, 0x680447a8e5ff9a692c6e9ed90d2eb35d91dd2e13ce144afd9cc34a83dac3d8nat, 1, 0x10b3eaa6c11d572a7244d3ea35310d0773b61f05d4d80ec09c3f3e91dcd7a76a06ebc3ef9fa34181d58ed9f83374de3dint, 0x99a09f0ab71e55b76eb9e52926f2b1e0ce3a1572450fe36871f5fe7c8f5e6d081b4d829e184b90ac7bbfe5b0dd6c399int, 0x760333e9b92392dce6a50c3e677416e7f31b2106dbe73912f77fb0b5f266d26c16ae7007476deeb93b73821ef44ae0deint);
    }
    assert(pow(11, 0x1a0111ea397fe69a4b1ba7b6434bacd764774b84f38512bf6730d2a0f6b0f62nat) % (modulus() as int) == 0x459eb352d92d03c9271224d3c2a75ed3ecd1b55ffe91100b1255bd6b15c3f28c23dd9ea8351321191a30625d05a43ddint) by {
        lemma_pow_step(11, 0xd0088f51cbff34d258dd3db21a5d66bb23ba5c279c2895fb39869507b587b1nat, 0, 0x99a09f0ab71e55b76eb9e52926f2b1e0ce3a1572450fe36871f5fe7c8f5e6d081b4d829e184b90ac7bbfe5b0dd6c399int, 0x459eb352d92d03c9271224d3c2a75ed3ecd1b55ffe91100b1255bd6b15c3f28c23dd9ea8351321191a30625d05a43ddint, 0x38b9987926f73c1c2a8b795413be051459adfbff865c44961deb6f7957dd334f68b7502d7fcb11b01f7fb64816888bcint);
    }
    assert(pow(11, 0x340223d472ffcd3496374f6c869759aec8ee9709e70a257ece61a541ed61ec4nat) % (modulus() as int) == 0x69208b13ad49a1834533c66609c49f8f5a94bb189d0ed294f6379f31efc7e56db33c5f834b6b1e2c32880d30d4a1946int) by {
        lemma_pow_step(11, 0x1a0111ea397fe69a4b1ba7b6434bacd764774b84f38512bf6730d2a0f6b0f62nat, 0, 0x459eb352d92d03c9271224d3c2a75ed3ecd1b55ffe91100b1255bd6b15c3f28c23dd9ea8351321191a30625d05a43ddint, 0x69208b13ad49a1834533c66609c49f8f5a94bb189d0ed294f6379f31efc7e56db33c5f834b6b1e2c32880d30d4a1946int, 0xba63fc349af9012e60e09553e1e730b0fe33a5841869cbb37d25e3e0590dc45e78a27b59319d201942644c8ecefa89int);
    }
    assert(pow(11, 0x680447a8e5ff9a692c6e9ed90d2eb35d91dd2e13ce144afd9cc34a83dac3d89nat) % (modulus() as int) == 0x533bb365bb685d0229c1e0a15aa25f52ad3f2b332784705fb556f10aa195aac25fe43f802fe3af5b4dd08b307e9d754int) by {
        lemma_pow_step(11, 0x340223d472ffcd3496374f6c869759aec8ee9709e70a257ece61a541ed61ec4nat, 1, 0x69208b13ad49a1834533c66609c49f8f5a94bb189d0ed294f6379f31efc7e56db33c5f834b6b1e2c32880d30d4a1946int, 0x533bb365bb685d0229c1e0a15aa25f52ad3f2b332784705fb556f10aa195aac25fe43f802fe3af5b4dd08b307e9d754int, 0x1242f9033ef3e0dd04d0bcbc889409cdc60669545df02394e24eb6c28c158341150e40257702d83e0de4f7ff1fb91da8int);
    }
}

proof fn lemma_z_pow_part_25()
    ensures
        pow(11, 0x1a0111ea397fe69a4b1ba7b6434bacd764774b84f38512bf6730d2a0f6b0f6241enat) % (modulus() as int) == 0x4f76a6b6be93e5fca1cffe0df715cc0f59cff31a7c29d92aed975be8976302d2104b70336327066209e47e1041a56c8int,
{
    lemma_z_pow_part_24();
    assert(pow(11, 0xd0088f51cbff34d258dd3db21a5d66bb23ba5c279c2895fb39869507b587b12nat) % (modulus() as int) == 0x3bded80a76b7de63b9bb1d54f7bd2b7496501332afe401d92958f1c9fb51f252af0c2e36bad9acbd573430c0088e1f8int) by {
        lemma_pow_step(11, 0x680447a8e5ff9a692c6e9ed90d2eb35d91dd2e13ce144afd9cc34a83dac3d89nat, 0, 0x533bb365bb685d0229c1e0a15aa25f52ad3f2b332784705fb556f10aa195aac25fe43f802fe3af5b4dd08b307e9d754int, 0x3bded80a76b7de63b9bb1d54f7bd2b7496501332afe401d92958f1c9fb51f252af0c2e36bad9acbd573430c0088e1f8int, 0x10a68e467cd36aa98e3c3d3826b07568cb980c32e69e0b60f0092fa454b91c2e457de989d25351c21dff2a4bf3ff4c8int);
    }
    assert(pow(11, 0x1a0111ea397fe69a4b1ba7b6434bacd764774b84f38512bf6730d2a0f6b0f624nat) % (modulus() as int) == 0x7794dc5e6ed78ae260ab6e37955b497902309a9ff119ae98f5d4b767a36a43b76102cf5087c5b7882fda8d29b22df74int) by {
        lemma_pow_step(11, 0xd0088f51cbff34d258dd3db21a5d66bb23ba5c279c2895fb39869507b587b12nat, 0, 0x3bded80a76b7de63b9bb1d54f7bd2b7496501332afe401d92958f1c9fb51f252af0c2e36bad9acbd573430c0088e1f8int, 0x7794dc5e6ed78ae260ab6e37955b497902309a9ff119ae98f5d4b767a36a43b76102cf5087c5b7882fda8d29b22df74int, 0x89d79e46aadc939d6a2d7aff8fa9e8c243c4240f03c08be305873b1c967f7e09e560e37894ef526ab2acb7cddd0264int);
    }
    assert(pow(11, 0x340223d472ffcd3496374f6c869759aec8ee9709e70a257ece61a541ed61ec48nat) % (modulus() as int) == 0xce732564c8615cf26377a2b72e7a49443845e6ae09e3bd84e7257c716fcf6d23577c7d5f2d92c9e010c9cab16cb8026int) by {
        lemma_pow_step(11, 0x1a0111ea397fe69a4b1ba7b6434bacd764774b84f38512bf6730d2a0f6b0f624nat, 0, 0x7794dc5e6ed78ae260ab6e37955b497902309a9ff119ae98f5d4b767a36a43b76102cf5087c5b7882fda8d29b22df74int, 0xce732564c8615cf26377a2b72e7a49443845e6ae09e3bd84e7257c716fcf6d23577c7d5f2d92c9e010c9cab16cb8026int, 0x225e6bb9535ef3d1059bb025479662448bb7269aa27d920d65c444fec39df5820c4a56081e2fe4dcd52595fe26d653eint);
    }
    assert(pow(11, 0x680447a8e5ff9a692c6e9ed90d2eb35d91dd2e13ce144afd9cc34a83dac3d890nat) % (modulus() as int) == 0xd2740eff733bbad837cc52e5ada8db3a84fd1b7a66f36698e62e9369d4b34b698fc36848242176ee100dad1b6598594int) by {
        lemma_pow_step(11, 0x340223d472ffcd3496374f6c869759aec8ee9709e70a257ece61a541ed61ec48nat, 0, 0xce732564c8615cf26377a2b72e7a49443845e6ae09e3bd84e7257c716fcf6d23577c7d5f2d92c9e010c9cab16cb8026int, 0xd2740eff733bbad837cc52e5ada8db3a84fd1b7a66f36698e62e9369d4b34b698fc36848242176ee100dad1b6598594int, 0x667068c471b5ec0b7ef23b89ccf03420237e11aeaacf4379b54848ef64ad84a95c6b5ba86b89162d01035996a618030int);
    }
    assert(pow(11, 0xd0088f51cbff34d258dd3db21a5d66bb23ba5c279c2895fb39869507b587b120nat) % (modulus() as int) == 0xf12eeae270953ef77f7684ed467db5e8f98c62611860804b353679045deb6576e7c6e427882d0605dedfd10f3f2c3b9int) by {
        lemma_pow_step(11, 0x680447a8e5ff9a692c6e9ed90d2eb35d91dd2e13ce144afd9cc34a83dac3d890nat, 0, 0xd2740eff733bbad837cc52e5ada8db3a84fd1b7a66f36698e62e9369d4b34b698fc36848242176ee100dad1b6598594int, 0xf12eeae270953ef77f7684ed467db5e8f98c62611860804b353679045deb6576e7c6e427882d0605dedfd10f3f2c3b9int, 0x6a7361bc18819b9dda30e74af6637383337e2ed435b588069f9b7d7d6ffc9127d14c3fb013a1dea846cbcf8f57e0d85int);
    }
    assert(pow(11, 0x1a0111ea397fe69a4b1ba7b6434bacd764774b84f38512bf6730d2a0f6b0f6241nat) % (modulus() as int) == 0xfd02bb4788a70d65d94432d66d47e4869050e22140f710f91e5593cb29aa62617cde5ddbb46933e4d78949728dc51a7int) by {
        lemma_pow_step(11, 0xd0088f51cbff34d258dd3db21a5d66bb23ba5c279c2895fb39869507b587b120nat, 1, 0xf12eeae270953ef77f7684ed467db5e8f98c62611860804b353679045deb6576e7c6e427882d0605dedfd10f3f2c3b9int, 0xfd02bb4788a70d65d94432d66d47e4869050e22140f710f91e5593cb29aa62617cde5ddbb46933e4d78949728dc51a7int, 0x601e29a8ec228203492ca24f17f592b065c23417a5442b99c8526c9ac6b46de942fad8ea42cac6b3a3b2eab6e499dcdcint);
    }
    assert(pow(11, 0x340223d472ffcd3496374f6c869759aec8ee9709e70a257ece61a541ed61ec483nat) % (modulus() as int) == 0x888f404be69256ec1a43b8ee0fb5c3cf76117e4b2f4ce5fd0320264ba67dab7bcc770f97dd29056bb49e2a1f12220b8int) by {
        lemma_pow_step(11, 0x1a0111ea397fe69a4b1ba7b6434bacd764774b84f38512bf6730d2a0f6b0f6241nat, 1, 0xfd02bb4788a70d65d94432d66d47e4869050e22140f710f91e5593cb29aa62617cde5ddbb46933e4d78949728dc51a7int, 0x888f404be69256ec1a43b8ee0fb5c3cf76117e4b2f4ce5fd0320264ba67dab7bcc770f97dd29056bb49e2a1f12220b8int, 0x69c6a97b9690b032fa5c687632cdd6f3b726f8dc996b998919a3d8a4dbe00a1bd70d29b094972c4f42aea58a06f916e9int);
    }
    assert(pow(11, 0x680447a8e5ff9a692c6e9ed90d2eb35d91dd2e13ce144afd9cc34a83dac3d8907nat) % (modulus() as int) == 0x111e4e41df86ea8d155f1548181ae30d290f28566a38d7d0e0fdfae53b5ee80565a29d8706f8d075256b6ffee8f29166int) by {
        lemma_pow_step(11, 0x340223d472ffcd3496374f6c869759aec8ee9709e70a257ece61a541ed61ec483nat, 1, 0x888f404be69256ec1a43b8ee0fb5c3cf76117e4b2f4ce5fd0320264ba67dab7bcc770f97dd29056bb49e2a1f12220b8int, 0x111e4e41df86ea8d155f1548181ae30d290f28566a38d7d0e0fdfae53b5ee80565a29d8706f8d075256b6ffee8f29166int, 0x1ed07d41eae83588f81255ef6d80cf3bb749dd05c5bbe6e2fcf4edc196fad68545842856a8d47c776ba914946415580eint);
    }
    assert(pow(11, 0xd0088f51cbff34d258dd3db21a5d66bb23ba5c279c2895fb39869507b587b120fnat) % (modulus() as int) == 0xd5f5e665bdbf5113adc9d564162659f5771711100f0e5f8d85d45cffc1df4c97552ff946978f034944d57bbfaf000e6int) by {
        lemma_pow_step(11, 0x680447a8e5ff9a692c6e9ed90d2eb35d91dd2e13ce144afd9cc34a83dac3d8907nat, 1, 0x111e4e41df86ea8d155f1548181ae30d290f28566a38d7d0e0fdfae53b5ee80565a29d8706f8d075256b6ffee8f29166int, 0xd5f5e665bdbf5113adc9d564162659f5771711100f0e5f8d85d45cffc1df4c97552ff946978f034944d57bbfaf000e6int, 0x7bf546806f698a28bc61ef67477582ded27d90298885946164ed440e3b18dae3fe5e54498259958fbac6d43c5aa54672int);
    }
    assert(pow(11, 0x1a0111ea397fe69a4b1ba7b6434bacd764774b84f38512bf6730d2a0f6b0f6241enat) % (modulus() as int) == 0x4f76a6b6be93e5fca1cffe0df715cc0f59cff31a7c29d92aed975be8976302d2104b70336327066209e47e1041a56c8int) by {
        lemma_pow_step(11, 0xd0088f51cbff34d258dd3db21a5d66bb23ba5c279c2895fb39869507b587b120fnat, 0, 0xd5f5e665bdbf5113adc9d564162659f5771711100f0e5f8d85d45cffc1df4c97552ff946978f034944d57bbfaf000e6int, 0x4f76a6b6be93e5fca1cffe0df715cc0f59cff31a7c29d92aed975be8976302d2104b70336327066209e47e1041a56c8int, 0x6e073c461ee33d8a436746088425c8ef69fd023dbfa450184a441c9f9809a65a84af0546db3e685cd540db911076794int);
    }
}

proof fn lemma_z_pow_part_26()
    ensures
        pow(11, 0x680447a8e5ff9a692c6e9ed90d2eb35d91dd2e13ce144afd9cc34a83dac3d8907aafnat) % (modulus() as int) == 0x10d4777436c1f1307765fecd189826524f08dd1533dd9126a7d7da9116c943903d1f617f62aee598b8e39600b1bcb175int,
{
    lemma_z_pow_part_25();
    assert(pow(11, 0x340223d472ffcd3496374f6c869759aec8ee9709e70a257ece61a541ed61ec483dnat) % (modulus() as int) == 0x1c4a49a394fa49a6e72e2a1dee86efd0e00385d70569943fbf81fdc20d6c5264fb1eee62f324ca08934cc929514bd28int) by {
        lemma_pow_step(11, 0x1a0111ea397fe69a4b1ba7b6434bacd764774b84f38512bf6730d2a0f6b0f6241enat, 1, 0x4f76a6b6be93e5fca1cffe0df715cc0f59cff31a7c29d92aed975be8976302d2104b70336327066209e47e1041a56c8int, 0x1c4a49a394fa49a6e72e2a1dee86efd0e00385d70569943fbf81fdc20d6c5264fb1eee62f324ca08934cc929514bd28int, 0xa6f11077edfe0759cb27583b6a3e436cfe95e640f9d2ae85c2dd31ef937013cbedcfe66b2170ff5cfdc57b84cf44cc8int);
    }
    assert(pow(11, 0x680447a8e5ff9a692c6e9ed90d2eb35d91dd2e13ce144afd9cc34a83dac3d8907anat) % (modulus() as int) == 0xff91ba21caea783bc8df304c98cc921cb8d4a31d694cb8a011bdee75fe133dd3a62a865467238dc4c3de3192786f0bbint) by {
        lemma_pow_step(11, 0x340223d472ffcd3496374f6c869759aec8ee9709e70a257ece61a541ed61ec483dnat, 0, 0x1c4a49a394fa49a6e72e2a1dee86efd0e00385d70569943fbf81fdc20d6c5264fb1eee62f324ca08934cc929514bd28int, 0xff91ba21caea783bc8df304c98cc921cb8d4a31d694cb8a011bdee75fe133dd3a62a865467238dc4c3de3192786f0bbint, 0x1ec6f38afe9e31f9f083386b701533dbadeb4a3225797afd57f49aafc15fc256a8818bcd2381cb48bc4536f806708fint);
    }
    assert(pow(11, 0xd0088f51cbff34d258dd3db21a5d66bb23ba5c279c2895fb39869507b587b120f5nat) % (modulus() as int) == 0x4087c14dc84107bb06472160aa2a2939893a59b0ac547ab1b53acc9e2d6353316b1f5eac37c72127214f8a1a9be1b74int) by {
        lemma_pow_step(11, 0x680447a8e5ff9a692c6e9ed90d2eb35d91dd2e13ce144afd9cc34a83dac3d8907anat, 1, 0xff91ba21caea783bc8df304c98cc921cb8d4a31d694cb8a011bdee75fe133dd3a62a865467238dc4c3de3192786f0bbint, 0x4087c14dc84107bb06472160aa2a2939893a59b0ac547ab1b53acc9e2d6353316b1f5eac37c72127214f8a1a9be1b74int, 0x6bed192f753c3336f9a779d11274842354fe9ef1f3f07b57d268f8cabf68319ddf1d51fc324ebb639ffa51c1d0aae95dint);
    }
    assert(pow(11, 0x1a0111ea397fe69a4b1ba7b6434bacd764774b84f38512bf6730d2a0f6b0f6241eanat) % (modulus() as int) == 0x2f682dd667fc0239a1fce5bd6e36f4ec4cdb6ccf733542e295bb38f20edfa711d96f60b92b534acf1f8c22408b62edint) by {
        lemma_pow_step(11, 0xd0088f51cbff34d258dd3db21a5d66bb23ba5c279c2895fb39869507b587b120f5nat, 0, 0x4087c14dc84107bb06472160aa2a2939893a59b0ac547ab1b53acc9e2d6353316b1f5eac37c72127214f8a1a9be1b74int, 0x2f682dd667fc0239a1fce5bd6e36f4ec4cdb6ccf733542e295bb38f20edfa711d96f60b92b534acf1f8c22408b62edint, 0xa0225b9580db82b94e7e4ff1a51a1aa4034829f2ef59b872a94db059d1c1174efeefac648b2237a690b840dcabdce9int);
    }
    assert(pow(11, 0x340223d472ffcd3496374f6c869759aec8ee9709e70a257ece61a541ed61ec483d5nat) % (modulus() as int) == 0x89374195dda5f9016e61714b7ed94fc4c99c86b6bffe6102e10edf0239b06c35120ed6627b24ea63f4c2f8896e85fc1int) by {
        lemma_pow_step(11, 0x1a0111ea397fe69a4b1ba7b6434bacd764774b84f38512bf6730d2a0f6b0f6241eanat, 1, 0x2f682dd667fc0239a1fce5bd6e36f4ec4cdb6ccf733542e295bb38f20edfa711d96f60b92b534acf1f8c22408b62edint, 0x89374195dda5f9016e61714b7ed94fc4c99c86b6bffe6102e10edf0239b06c35120ed6627b24ea63f4c2f8896e85fc1int, 0x3b6ada0592a60af77d48ec58a29cde5096f4f4eca82b2e3db42241c9fda83cc5e6c64584559b2de4956c6df2f1d46int);
    }
    assert(pow(11, 0x680447a8e5ff9a692c6e9ed90d2eb35d91dd2e13ce144afd9cc34a83dac3d8907aanat) % (modulus() as int) == 0x17801b9ee2697d58937084159607ac0e0409e199e0dcb48e90c1c92fbd0781514e1715b15edffccadc19b497e5ee0947int) by {
        lemma_pow_step(11, 0x340223d472ffcd3496374f6c869759aec8ee9709e70a257ece61a541ed61ec483d5nat, 0, 0x89374195dda5f9016e61714b7ed94fc4c99c86b6bffe6102e10edf0239b06c35120ed6627b24ea63f4c2f8896e85fc1int, 0x17801b9ee2697d58937084159607ac0e0409e199e0dcb48e90c1c92fbd0781514e1715b15edffccadc19b497e5ee0947int, 0x2d40b70588f305462c5c80054f2cb5b025fbc572d87b278dc36296386512f1a7c900ddd6f320aff092a569a39c652aeint);
    }
    assert(pow(11, 0xd0088f51cbff34d258dd3db21a5d66bb23ba5c279c2895fb39869507b587b120f55nat) % (modulus() as int) == 0xd7662234abd02fa90ab1f2785aafc2c621fee4e6103df2cd3a9b22ae8874a97bd45eef45405e8c08bf79fec0adba438int) by {
        lemma_pow_step(11, 0x680447a8e5ff9a692c6e9ed90d2eb35d91dd2e13ce144afd9cc34a83dac3d8907aanat, 1, 0x17801b9ee2697d58937084159607ac0e0409e199e0dcb48e90c1c92fbd0781514e1715b15edffccadc19b497e5ee0947int, 0xd7662234abd02fa90ab1f2785aafc2c621fee4e6103df2cd3a9b22ae8874a97bd45eef45405e8c08bf79fec0adba438int, 0xe99d745c055f3a1944c92d5f7ff7c78f64829a58d6caa416bb8790876738036716a9ad1d4c42810d5f8866274c325b29int);
    }
    assert(pow(11, 0x1a0111ea397fe69a4b1ba7b6434bacd764774b84f38512bf6730d2a0f6b0f6241eabnat) % (modulus() as int) == 0x9da1afcf1110738a51291fa9a08a602d5d1bea34b22cb309cf51f1a04239ef597b202e64697fd2fe4253471458381a9int) by {
        lemma_pow_step(11, 0xd0088f51cbff34d258dd3db21a5d66bb23ba5c279c2895fb39869507b587b120f55nat, 1, 0xd7662234abd02fa90ab1f2785aafc2c621fee4e6103df2cd3a9b22ae8874a97bd45eef45405e8c08bf79fec0adba438int, 0x9da1afcf1110738a51291fa9a08a602d5d1bea34b22cb309cf51f1a04239ef597b202e64697fd2fe4253471458381a9int, 0x4caa3919228cb0a7a540d374bb84c0046b4cf8992d256e8790709734deb13e579c2867541473baf0ef0814e6e4dbcf45int);
    }
    assert(pow(11, 0x340223d472ffcd3496374f6c869759aec8ee9709e70a257ece61a541ed61ec483d57nat) % (modulus() as int) == 0x1065252b04f18405e4f66eb7d5fbf6b811b7d0dda024bede64f69431692ac1efc32833f556332c7004a094efcea81e67int) by {
        lemma_pow_step(11, 0x1a0111ea397fe69a4b1ba7b6434bacd764774b84f38512bf6730d2a0f6b0f6241eabnat, 1, 0x9da1afcf1110738a51291fa9a08a602d5d1bea34b22cb309cf51f1a04239ef597b202e64697fd2fe4253471458381a9int, 0x1065252b04f18405e4f66eb7d5fbf6b811b7d0dda024bede64f69431692ac1efc32833f556332c7004a094efcea81e67int, 0x290ece6c5e29d48c25539a3caa2fe7879163e170e725547092637b850bf5adb5e8ebc3b18dd15f5c4fcf6bd50f5d987cint);
    }
    assert(pow(11, 0x680447a8e5ff9a692c6e9ed90d2eb35d91dd2e13ce144afd9cc34a83dac3d8907aafnat) % (modulus() as int) == 0x10d4777436c1f1307765fecd189826524f08dd1533dd9126a7d7da9116c943903d1f617f62aee598b8e39600b1bcb175int) by {
        lemma_pow_step(11, 0x340223d472ffcd3496374f6c869759aec8ee9709e70a257ece61a541ed61ec483d57nat, 1, 0x1065252b04f18405e4f66eb7d5fbf6b811b7d0dda024bede64f69431692ac1efc32833f556332c7004a094efcea81e67int, 0x10d4777436c1f1307765fecd189826524f08dd1533dd9126a7d7da9116c943903d1f617f62aee598b8e39600b1bcb175int, 0x71b458e8b4ae44aee60ba6c0cbe1c003646c143a7ce3bf03cca054d1104a9bf4e5cf030b6b24915cacd6e8ed5a51e732int);
    }
}

proof fn lemma_z_pow_part_27()
    ensures
        pow(11, 0x1a0111ea397fe69a4b1ba7b6434bacd764774b84f38512bf6730d2a0f6b0f6241eabfffnat) % (modulus() as int) == 0x915a426ee0c47b9231c099e92228356c9b9b0413ae9ddc971e1a23b4b7e79f41f76891fc75fea2bb9b1c16147c70817int,
{
    lemma_z_pow_part_26();
    assert(pow(11, 0xd0088f51cbff34d258dd3db21a5d66bb23ba5c279c2895fb39869507b587b120f55fnat) % (modulus() as int) == 0x422e5ac773634ff60975dd7fa113949e5eec3a7cbc287dabad318ef475473f52ddd1409ffdd39126a1c86e0b544eb9fint) by {
        lemma_pow_step(11, 0x680447a8e5ff9a692c6e9ed90d2eb35d91dd2e13ce144afd9cc34a83dac3d8907aafnat, 1, 0x10d4777436c1f1307765fecd189826524f08dd1533dd9126a7d7da9116c943903d1f617f62aee598b8e39600b1bcb175int, 0x422e5ac773634ff60975dd7fa113949e5eec3a7cbc287dabad318ef475473f52ddd1409ffdd39126a1c86e0b544eb9fint, 0x77d0e9cf8ea34d6b496f1958f8e09bea3e21077d1deb65e8daf9f80cf9819302680ce9d07afda0acb8069f1c10282bbcint);
    }
    assert(pow(11, 0x1a0111ea397fe69a4b1ba7b6434bacd764774b84f38512bf6730d2a0f6b0f6241eabfnat) % (modulus() as int) == 0x3072379c8121ed06f4caca359eb05bf57b09e2eed6182a44529b1d25ea8a1b258ce0812352a911aaeb282407679f0adint) by {
        lemma_pow_step(11, 0xd0088f51cbff34d258dd3db21a5d66bb23ba5c279c2895fb39869507b587b120f55fnat, 1, 0x422e5ac773634ff60975dd7fa113949e5eec3a7cbc287dabad318ef475473f52ddd1409ffdd39126a1c86e0b544eb9fint, 0x3072379c8121ed06f4caca359eb05bf57b09e2eed6182a44529b1d25ea8a1b258ce0812352a911aaeb282407679f0adint, 0x73cc056bd6809a8da624b0381232cd625261ae74f57708271abbfbdb29d87bd8143f8ee94f64667e44c0041f56b12daint);
    }
    assert(pow(11, 0x340223d472ffcd3496374f6c869759aec8ee9709e70a257ece61a541ed61ec483d57fnat) % (modulus() as int) == 0x17417c1d8a02b2855f17c412fd5c58b2adbb53fcbf2b290fcb8ea9459122ea57d536e095fbf0261567c34714c86a38c9int) by {
        lemma_pow_step(11, 0x1a0111ea397fe69a4b1ba7b6434bacd764774b84f38512bf6730d2a0f6b0f6241eabfnat, 1, 0x3072379c8121ed06f4caca359eb05bf57b09e2eed6182a44529b1d25ea8a1b258ce0812352a911aaeb282407679f0adint, 0x17417c1d8a02b2855f17c412fd5c58b2adbb53fcbf2b290fcb8ea9459122ea57d536e095fbf0261567c34714c86a38c9int, 0x3e0d09a2856224f6831ed7445cb99b07259552012573bbdb8146939068aaacbc79bb6ada0b408ff509231eb8a18c7aeint);
    }
    assert(pow(11, 0x680447a8e5ff9a692c6e9ed90d2eb35d91dd2e13ce144afd9cc34a83dac3d8907aaffnat) % (modulus() as int) == 0x1137601e893851214804aa945123b3e87423637fddbdd6704666b15774f2e2c6c076ba705b80b9b8b735a842dd522ec4int) by {
        lemma_pow_step(11, 0x340223d472ffcd3496374f6c869759aec8ee9709e70a257ece61a541ed61ec483d57fnat, 1, 0x17417c1d8a02b2855f17c412fd5c58b2adbb53fcbf2b290fcb8ea9459122ea57d536e095fbf0261567c34714c86a38c9int, 0x1137601e893851214804aa945123b3e87423637fddbdd6704666b15774f2e2c6c076ba705b80b9b8b735a842dd522ec4int, 0xe4c6e074e42ef80aea6ebb7f2ce0cbae4355cb6329215997279031a76e414458ee20577ca92e59961f70785da84cbba5int);
    }
    assert(pow(11, 0xd0088f51cbff34d258dd3db21a5d66bb23ba5c279c2895fb39869507b587b120f55ffnat) % (modulus() as int) == 0x58f1b839f766f257761b509d48643cac43c7a93154bbdfb3281f5f9792e17c32de1a4e46f42e07711f9d5ab37d66354int) by {
        lemma_pow_step(11, 0x680447a8e5ff9a692c6e9ed90d2eb35d91dd2e13ce144afd9cc34a83dac3d8907aaffnat, 1, 0x1137601e893851214804aa945123b3e87423637fddbdd6704666b15774f2e2c6c076ba705b80b9b8b735a842dd522ec4int, 0x58f1b839f766f257761b509d48643cac43c7a93154bbdfb3281f5f9792e17c32de1a4e46f42e07711f9d5ab37d66354int, 0x7d6162c402c7e70bec9ee3232ef99047e9de9ca722d68633dfa1bef286fce3f0cb0681da1c7689afe5e28148200c9e14int);
    }
    assert(pow(11, 0x1a0111ea397fe69a4b1ba7b6434bacd764774b84f38512bf6730d2a0f6b0f6241eabffnat) % (modulus() as int) == 0x1470750bf22a3fe57004a145632044dc310940f9566d02191bb3210ec9bce0aa42fd329dcdccb9873751e464ef586ddcint) by {
        lemma_pow_step(11, 0xd0088f51cbff34d258dd3db21a5d66bb23ba5c279c2895fb39869507b587b120f55ffnat, 1, 0x58f1b839f766f257761b509d48643cac43c7a93154bbdfb3281f5f9792e17c32de1a4e46f42e07711f9d5ab37d66354int, 0x1470750bf22a3fe57004a145632044dc310940f9566d02191bb3210ec9bce0aa42fd329dcdccb9873751e464ef586ddcint, 0xd12746df24061c983e7389c5cc26f718909b703902ff3fea2af509511de0a9b8cd02365da8e2d553fcac97a9c2f3bfcint);
    }
    assert(pow(11, 0x340223d472ffcd3496374f6c869759aec8ee9709e70a257ece61a541ed61ec483d57ffnat) % (modulus() as int) == 0xe4eb948eefe287d7f4154f5419dc41649969d9fc08a8aad148a45abd58ea8a6e8c8f83bd4845b0d0636b63b1f11b417int) by {
        lemma_pow_step(11, 0x1a0111ea397fe69a4b1ba7b6434bacd764774b84f38512bf6730d2a0f6b0f6241eabffnat, 1, 0x1470750bf22a3fe57004a145632044dc310940f9566d02191bb3210ec9bce0aa42fd329dcdccb9873751e464ef586ddcint, 0xe4eb948eefe287d7f4154f5419dc41649969d9fc08a8aad148a45abd58ea8a6e8c8f83bd4845b0d0636b63b1f11b417int, 0xb0b7d3ae219589e56b58e59b7824a6a0d24976ea7f7070a71db16d5cbed76da31fc9371c954d6a74b1074708889d9acbint);
    }
    assert(pow(11, 0x680447a8e5ff9a692c6e9ed90d2eb35d91dd2e13ce144afd9cc34a83dac3d8907aafffnat) % (modulus() as int) == 0x56c48c8cbd279cfb043a14a0a359667e00cb068141f95110e5726bace7ff5d3b46e4174a7a1fda34a98c9fa394e5cedint) by {
        lemma_pow_step(11, 0x340223d472ffcd3496374f6c869759aec8ee9709e70a257ece61a541ed61ec483d57ffnat, 1, 0xe4eb948eefe287d7f4154f5419dc41649969d9fc08a8aad148a45abd58ea8a6e8c8f83bd4845b0d0636b63b1f11b417int, 0x56c48c8cbd279cfb043a14a0a359667e00cb068141f95110e5726bace7ff5d3b46e4174a7a1fda34a98c9fa394e5cedint, 0x56978f68d516d253d7a5f22b418ed103e6018d40fac40092a739d7b4419dab45d58e40317a4a295749311eaa4d08856aint);
    }
    assert(pow(11, 0xd0088f51cbff34d258dd3db21a5d66bb23ba5c279c2895fb39869507b587b120f55fffnat) % (modulus() as int) == 0x191364aa2c074135f11ab4897fa7c80ee71b06191c0490295f4e8e13233eb50f978b913941b12985f6e5ca8aee9dd3eaint) by {
        lemma_pow_step(11, 0x680447a8e5ff9a692c6e9ed90d2eb35d91dd2e13ce144afd9cc34a83dac3d8907aafffnat, 1, 0x56c48c8cbd279cfb043a14a0a359667e00cb068141f95110e5726bace7ff5d3b46e4174a7a1fda34a98c9fa394e5cedint, 0x191364aa2c074135f11ab4897fa7c80ee71b06191c0490295f4e8e13233eb50f978b913941b12985f6e5ca8aee9dd3eaint, 0xc70af32b36ac15d9334b3a495268833592f9140437834d81f502af1db972fe33c9988befdb54d19558c38ea29ff24cbint);
    }
    assert(pow(11, 0x1a0111ea397fe69a4b1ba7b6434bacd764774b84f38512bf6730d2a0f6b0f6241eabfffnat) % (modulus() as int) == 0x915a426ee0c47b9231c099e92228356c9b9b0413ae9ddc971e1a23b4b7e79f41f76891fc75fea2bb9b1c16147c70817int) by {
        lemma_pow_step(11, 0xd0088f51cbff34d258dd3db21a5d66bb23ba5c279c2895fb39869507b587b120f55fffnat, 1, 0x191364aa2c074135f11ab4897fa7c80ee71b06191c0490295f4e8e13233eb50f978b913941b12985f6e5ca8aee9dd3eaint, 0x915a426ee0c47b9231c099e92228356c9b9b0413ae9ddc971e1a23b4b7e79f41f76891fc75fea2bb9b1c16147c70817int, 0x109fc396fa0c6862aa433378e7f57326b5de32a7107bff7a2e31953e33450e6517464e52294b80e7e4b99683b212bb61fint);
    }
}

proof fn lemma_z_pow_part_28()
    ensures
        pow(11, 0x680447a8e5ff9a692c6e9ed90d2eb35d91dd2e13ce144afd9cc34a83dac3d8907aaffffacnat) % (modulus() as int) == 0xde386bd31dd280872b8c88f16e6a143f450bb30e38bb670e70be7b54bd8bb57140d64794d89c15e3ed3f932fecb899int,
{
    lemma_z_pow_part_27();
    assert(pow(11, 0x340223d472ffcd3496374f6c869759aec8ee9709e70a257ece61a541ed61ec483d57fffnat) % (modulus() as int) == 0xb00fd81a8baef7d3967c7ff979dd123197b24a37964128c6c8ef7c420a17592cbb104222ac1d4679e7f133b6b9165b6int) by {
        lemma_pow_step(11, 0x1a0111ea397fe69a4b1ba7b6434bacd764774b84f38512bf6730d2a0f6b0f6241eabfffnat, 1, 0x915a426ee0c47b9231c099e92228356c9b9b0413ae9ddc971e1a23b4b7e79f41f76891fc75fea2bb9b1c16147c70817int, 0xb00fd81a8baef7d3967c7ff979dd123197b24a37964128c6c8ef7c420a17592cbb104222ac1d4679e7f133b6b9165b6int, 0x22e9110db29888dfd2c28c64c8b85b41cd357f005020bed9aa34e26745b326f707c295b92fe525531e0c02cd56cc830fint);
    }
    assert(pow(11, 0x680447a8e5ff9a692c6e9ed90d2eb35d91dd2e13ce144afd9cc34a83dac3d8907aaffffnat) % (modulus() as int) == 0xa26c730deb67e21d81127768b2fee7fefe29fba19718da1b911dd7f4fa271781d4dca68c2075976af4993e2f621a9daint) by {
        lemma_pow_step(11, 0x340223d472ffcd3496374f6c869759aec8ee9709e70a257ece61a541ed61ec483d57fffnat, 1, 0xb00fd81a8baef7d3967c7ff979dd123197b24a37964128c6c8ef7c420a17592cbb104222ac1d4679e7f133b6b9165b6int, 0xa26c730deb67e21d81127768b2fee7fefe29fba19718da1b911dd7f4fa271781d4dca68c2075976af4993e2f621a9daint, 0x33385770554c59d6b2d3c9014d17d8499bccc49d7dc59a9123f643fb374af8a07f6ef649238e9fed827278d00129cc56int);
    }
    assert(pow(11, 0xd0088f51cbff34d258dd3db21a5d66bb23ba5c279c2895fb39869507b587b120f55ffffnat) % (modulus() as int) == 0x94f72c798ad8d9c85b467de491d4174519a197a9f38818aea415af6792f2ef76e8baf030d908c338cd02a6fef4dcd35int) by {
        lemma_pow_step(11, 0x680447a8e5ff9a692c6e9ed90d2eb35d91dd2e13ce144afd9cc34a83dac3d8907aaffffnat, 1, 0xa26c730deb67e21d81127768b2fee7fefe29fba19718da1b911dd7f4fa271781d4dca68c2075976af4993e2f621a9daint, 0x94f72c798ad8d9c85b467de491d4174519a197a9f38818aea415af6792f2ef76e8baf030d908c338cd02a6fef4dcd35int, 0x2b97952d5ccef21bccff711af050df1fa32eef8bfd2867e1fd7361f1fbe58c23c36bb1fef866410a92e40d2d9c32da85int);
    }
    assert(pow(11, 0x1a0111ea397fe69a4b1ba7b6434bacd764774b84f38512bf6730d2a0f6b0f6241eabfffenat) % (modulus() as int) == 0x78df219877df6b6b76748590d447835269a8b2dd8d7e4e9f4872eff779eff6b2340b90e94659327fc5cf786e9954d69int) by {
        lemma_pow_step(11, 0xd0088f51cbff34d258dd3db21a5d66bb23ba5c279c2895fb39869507b587b120f55ffffnat, 0, 0x94f72c798ad8d9c85b467de491d4174519a197a9f38818aea415af6792f2ef76e8baf030d908c338cd02a6fef4dcd35int, 0x78df219877df6b6b76748590d447835269a8b2dd8d7e4e9f4872eff779eff6b2340b90e94659327fc5cf786e9954d69int, 0x3555a31493c6d3a29252277ae8f7eb78c3e104635d74286f93cc68f0fee1882c212c7f8cdc68e60959f7ec7470fdeb0int);
    }
    assert(pow(11, 0x340223d472ffcd3496374f6c869759aec8ee9709e70a257ece61a541ed61ec483d57fffdnat) % (modulus() as int) == 0x9a5f44c2fbfd50d7b16f708d8544b247e02fee3fe8d3de62d05cdbd05ae06aa5b06ba2622d929e2b28f21ec517903d3int) by {
        lemma_pow_step(11, 0x1a0111ea397fe69a4b1ba7b6434bacd764774b84f38512bf6730d2a0f6b0f6241eabfffenat, 1, 0x78df219877df6b6b76748590d447835269a8b2dd8d7e4e9f4872eff779eff6b2340b90e94659327fc5cf786e9954d69int, 0x9a5f44c2fbfd50d7b16f708d8544b247e02fee3fe8d3de62d05cdbd05ae06aa5b06ba2622d929e2b28f21ec517903d3int, 0x1824231ee6c92e52c7ac3daee54aae269c5a432e04c7b8de68291d033a5de9b804799a6902966f6b17021e680139ebb8int);
    }
    assert(pow(11, 0x680447a8e5ff9a692c6e9ed90d2eb35d91dd2e13ce144afd9cc34a83dac3d8907aaffffanat) % (modulus() as int) == 0xd71af0f965787f69e4708b1f9a95895cbbe31ca6e85994ec8da2eed427dbfc9f299786c8cc9d2c641cdaf58b08300faint) by {
        lemma_pow_step(11, 0x340223d472ffcd3496374f6c869759aec8ee9709e70a257ece61a541ed61ec483d57fffdnat, 0, 0x9a5f44c2fbfd50d7b16f708d8544b247e02fee3fe8d3de62d05cdbd05ae06aa5b06ba2622d929e2b28f21ec517903d3int, 0xd71af0f965787f69e4708b1f9a95895cbbe31ca6e85994ec8da2eed427dbfc9f299786c8cc9d2c641cdaf58b08300faint, 0x3946b99e731b077fb5e8ad9aebeae3859e05beca5274d7d3a0ec616b8e5b3803f76ca4a5e671af08607e9c035d1dccdint);
    }
    assert(pow(11, 0xd0088f51cbff34d258dd3db21a5d66bb23ba5c279c2895fb39869507b587b120f55ffff5nat) % (modulus() as int) == 0xff4e28522af4f108d9b7e84108edc47db750847bf0216816af6249059cb0c6069fe1ca1e258c8f357d05a7ea1f1b40fint) by {
        lemma_pow_step(11, 0x680447a8e5ff9a692c6e9ed90d2eb35d91dd2e13ce144afd9cc34a83dac3d8907aaffffanat, 1, 0xd71af0f965787f69e4708b1f9a95895cbbe31ca6e85994ec8da2eed427dbfc9f299786c8cc9d2c641cdaf58b08300faint, 0xff4e28522af4f108d9b7e84108edc47db750847bf0216816af6249059cb0c6069fe1ca1e258c8f357d05a7ea1f1b40fint, 0x4c74bc0b114832b47b46bf3a18712d1ceb1c2d6fc4033ffccd5f1fd1cff3b28fbadc92608a860d431669871b321d5c77int);
    }
    assert(pow(11, 0x1a0111ea397fe69a4b1ba7b6434bacd764774b84f38512bf6730d2a0f6b0f6241eabfffebnat) % (modulus() as int) == 0x1014f4dc8782022387e96baab555ab362a26ef9e9cad6aef4ff43c85249d345945db232d0587fb387b650eb5dd31db20int) by {
        lemma_pow_step(11, 0xd0088f51cbff34d258dd3db21a5d66bb23ba5c279c2895fb39869507b587b120f55ffff5nat, 1, 0xff4e28522af4f108d9b7e84108edc47db750847bf0216816af6249059cb0c6069fe1ca1e258c8f357d05a7ea1f1b40fint, 0x1014f4dc8782022387e96baab555ab362a26ef9e9cad6aef4ff43c85249d345945db232d0587fb387b650eb5dd31db20int, 0x6bb40f18c7eb0654f3f35c3c68888f8ee5f29686461b796da64a87b4fb015b03a9bee22578a6a74d42537f0f8951a3a1int);
    }
    assert(pow(11, 0x340223d472ffcd3496374f6c869759aec8ee9709e70a257ece61a541ed61ec483d57fffd6nat) % (modulus() as int) == 0xec2566aa7be9301ea24284024f008d3e714bef60a900073786541e10d42ddfe55b6d7d89cbf2a6708d0fbd61f391e76int) by {
        lemma_pow_step(11, 0x1a0111ea397fe69a4b1ba7b6434bacd764774b84f38512bf6730d2a0f6b0f6241eabfffebnat, 0, 0x1014f4dc8782022387e96baab555ab362a26ef9e9cad6aef4ff43c85249d345945db232d0587fb387b650eb5dd31db20int, 0xec2566aa7be9301ea24284024f008d3e714bef60a900073786541e10d42ddfe55b6d7d89cbf2a6708d0fbd61f391e76int, 0x9f2108ec95b61608d4273b8df8970b4186a88d0a387575d95d5606779d5128b6428813d91399ddfe0aaa4c02c61f09eint);
    }
    assert(pow(11, 0x680447a8e5ff9a692c6e9ed90d2eb35d91dd2e13ce144afd9cc34a83dac3d8907aaffffacnat) % (modulus() as int) == 0xde386bd31dd280872b8c88f16e6a143f450bb30e38bb670e70be7b54bd8bb57140d64794d89c15e3ed3f932fecb899int) by {
        lemma_pow_step(11, 0x340223d472ffcd3496374f6c869759aec8ee9709e70a257ece61a541ed61ec483d57fffd6nat, 0, 0xec2566aa7be9301ea24284024f008d3e714bef60a900073786541e10d42ddfe55b6d7d89cbf2a6708d0fbd61f391e76int, 0xde386bd31dd280872b8c88f16e6a143f450bb30e38bb670e70be7b54bd8bb57140d64794d89c15e3ed3f932fecb899int, 0x8607650f59166bf754b9db4b4d6052c0c3ce136b2c59c998fd23026c7c8f2eb82228e7b20274769ba51359a5a1e7161int);
    }
}

proof fn lemma_z_pow_part_29()
    ensures
        pow(11, 0x1a0111ea397fe69a4b1ba7b6434bacd764774b84f38512bf6730d2a0f6b0f6241eabfffeb153nat) % (modulus() as int) == 0x1812b4b9dd22263466595a21ca0ee2895a4c69fac0024cc6318fcca1aa1dd1949ccbbaa94b7f5a2ac3796536d932618fint,
{
    lemma_z_pow_part_28();
    assert(pow(11, 0xd0088f51cbff34d258dd3db21a5d66bb23ba5c279c2895fb39869507b587b120f55ffff58nat) % (modulus() as int) == 0xaf43c905cfb2900f3cf86b083517f3caa3f4bde093c573c95d458d59a03f62a870fd07bf38b91a6f049531f46d2a825int) by {
        lemma_pow_step(11, 0x680447a8e5ff9a692c6e9ed90d2eb35d91dd2e13ce144afd9cc34a83dac3d8907aaffffacnat, 0, 0xde386bd31dd280872b8c88f16e6a143f450bb30e38bb670e70be7b54bd8bb57140d64794d89c15e3ed3f932fecb899int, 0xaf43c905cfb2900f3cf86b083517f3caa3f4bde093c573c95d458d59a03f62a870fd07bf38b91a6f049531f46d2a825int, 0x76affacd2898affffe4c2d5c97c7e483ed767e98a9160179a18a1aac13a88b944872e7ef7258e9a9280d43d08e9e4int);
    }
    assert(pow(11, 0x1a0111ea397fe69a4b1ba7b6434bacd764774b84f38512bf6730d2a0f6b0f6241eabfffeb1nat) % (modulus() as int) == 0x7520e8a622ecad05d48c152d3c93b4a10490d8eca469aed24cce6959b04c2f0965907c7e6644f59aa6034c472801180int) by {
        lemma_pow_step(11, 0xd0088f51cbff34d258dd3db21a5d66bb23ba5c279c2895fb39869507b587b120f55ffff58nat, 1, 0xaf43c905cfb2900f3cf86b083517f3caa3f4bde093c573c95d458d59a03f62a870fd07bf38b91a6f049531f46d2a825int, 0x7520e8a622ecad05d48c152d3c93b4a10490d8eca469aed24cce6959b04c2f0965907c7e6644f59aa6034c472801180int, 0x32c1e15cdf5719048e01e5bb1640e8a9fb5a0c22695fdf76315b24a99b8c0999c890fdb0dedcdfceb9d2227620300bf9int);
    }
    assert(pow(11, 0x340223d472ffcd3496374f6c869759aec8ee9709e70a257ece61a541ed61ec483d57fffd62nat) % (modulus() as int) == 0x12b8f9ffb3fcdfd2610734f0fb258ebfe5c42448f2c9092939e19584a78fc87bf7220ea82e6b25393003f49a2e4637aeint) by {
        lemma_pow_step(11, 0x1a0111ea397fe69a4b1ba7b6434bacd764774b84f38512bf6730d2a0f6b0f6241eabfffeb1nat, 0, 0x7520e8a622ecad05d48c152d3c93b4a10490d8eca469aed24cce6959b04c2f0965907c7e6644f59aa6034c472801180int, 0x12b8f9ffb3fcdfd2610734f0fb258ebfe5c42448f2c9092939e19584a78fc87bf7220ea82e6b25393003f49a2e4637aeint, 0x20f92a16a2999d9d23cee9736c312ab7bc8b324bc009dcb2833ba57ddd5e5f668f8164953d41da818ff86e211ba18f6int);
    }
    assert(pow(11, 0x680447a8e5ff9a692c6e9ed90d2eb35d91dd2e13ce144afd9cc34a83dac3d8907aaffffac5nat) % (modulus() as int) == 0xb1a4c7cb88bc11105f1f09354548a3b6d58489502b33dae79aa346bb7a95a386cfd52f71eb9d11be5cbde90a85f8ec2int) by {
        lemma_pow_step(11, 0x340223d472ffcd3496374f6c869759aec8ee9709e70a257ece61a541ed61ec483d57fffd62nat, 1, 0x12b8f9ffb3fcdfd2610734f0fb258ebfe5c42448f2c9092939e19584a78fc87bf7220ea82e6b25393003f49a2e4637aeint, 0xb1a4c7cb88bc11105f1f09354548a3b6d58489502b33dae79aa346bb7a95a386cfd52f71eb9d11be5cbde90a85f8ec2int, 0x9447790c53ecd873d17728ad6c06d8aa741628bb6fb69c961c5b1be1b028861cdb4bef7871287094aedcc1b6cd2ad67eint);
    }
    assert(pow(11, 0xd0088f51cbff34d258dd3db21a5d66bb23ba5c279c2895fb39869507b587b120f55ffff58anat) % (modulus() as int) == 0x14e0963a94954811e5d334bcc3bd6d2fffc643ec38e0a73c916d830d83bb25d1e8ea4ea2cbb3822d8ee44e2bfda9ef18int) by {
        lemma_pow_step(11, 0x680447a8e5ff9a692c6e9ed90d2eb35d91dd2e13ce144afd9cc34a83dac3d8907aaffffac5nat, 0, 0xb1a4c7cb88bc11105f1f09354548a3b6d58489502b33dae79aa346bb7a95a386cfd52f71eb9d11be5cbde90a85f8ec2int, 0x14e0963a94954811e5d334bcc3bd6d2fffc643ec38e0a73c916d830d83bb25d1e8ea4ea2cbb3822d8ee44e2bfda9ef18int, 0x4bd8bd75e7d3d8f4492510c5b0683cd7d0ca686357f85b54e1a7d59f607edcc6a86aab1a165f24e4a0e3ee7458d93c4int);
    }
    assert(pow(11, 0x1a0111ea397fe69a4b1ba7b6434bacd764774b84f38512bf6730d2a0f6b0f6241eabfffeb15nat) % (modulus() as int) == 0x1243bf40ac9773f9020defab8f491cd330c62a514eb2bacb03849feb5ad42bdd1126a604e8c822de954f6e9b60554f90int) by {
        lemma_pow_step(11, 0xd0088f51cbff34d258dd3db21a5d66bb23ba5c279c2895fb39869507b587b120f55ffff58anat, 1, 0x14e0963a94954811e5d334bcc3bd6d2fffc643ec38e0a73c916d830d83bb25d1e8ea4ea2cbb3822d8ee44e2bfda9ef18int, 0x1243bf40ac9773f9020defab8f491cd330c62a514eb2bacb03849feb5ad42bdd1126a604e8c822de954f6e9b60554f90int, 0xb85f8c390eed5dfd57728b7276fb6a5325fd76ab99c72ff424cb0a670910814ea60c35cd4a8e4319d1354f48a7482b90int);
    }
    assert(pow(11, 0x340223d472ffcd3496374f6c869759aec8ee9709e70a257ece61a541ed61ec483d57fffd62anat) % (modulus() as int) == 0x1740fa176a42ba92415ca64cadecc90bc811e994185c0b556f7efff63ebeac0ecb4c105f79453487bc778985666cbc62int) by {
        lemma_pow_step(11, 0x1a0111ea397fe69a4b1ba7b6434bacd764774b84f38512bf6730d2a0f6b0f6241eabfffeb15nat, 0, 0x1243bf40ac9773f9020defab8f491cd330c62a514eb2bacb03849feb5ad42bdd1126a604e8c822de954f6e9b60554f90int, 0x1740fa176a42ba92415ca64cadecc90bc811e994185c0b556f7efff63ebeac0ecb4c105f79453487bc778985666cbc62int, 0xcd41e7e3845dd9390ccddb2228c8dfbc8f205479e2bcb691de4b41f74d5d7fdf455e287280a4db22711ea7ff5a25ddaint);
    }
    assert(pow(11, 0x680447a8e5ff9a692c6e9ed90d2eb35d91dd2e13ce144afd9cc34a83dac3d8907aaffffac54nat) % (modulus() as int) == 0x54b80be71a54066ee306208b728f5af408b5942c8b16d701d2bf48120bfc345097d4fed7ad80e915c9a789e5beb4b9aint) by {
        lemma_pow_step(11, 0x340223d472ffcd3496374f6c869759aec8ee9709e70a257ece61a541ed61ec483d57fffd62anat, 0, 0x1740fa176a42ba92415ca64cadecc90bc811e994185c0b556f7efff63ebeac0ecb4c105f79453487bc778985666cbc62int, 0x54b80be71a54066ee306208b728f5af408b5942c8b16d701d2bf48120bfc345097d4fed7ad80e915c9a789e5beb4b9aint, 0x14cb5a65a91537165d8eab896a10a37026900ed9fb58e7deeef9faec6835110454db20fbb4db47c701fb027609ec5dbeint);
    }
    assert(pow(11, 0xd0088f51cbff34d258dd3db21a5d66bb23ba5c279c2895fb39869507b587b120f55ffff58a9nat) % (modulus() as int) == 0xe463b473eb3b4211c4cd23f607e5f2df701d391f3a1aefd3c4bd6b40b1f6eb5e8e191da5672afb4fcfb82fe04422222int) by {
        lemma_pow_step(11, 0x680447a8e5ff9a692c6e9ed90d2eb35d91dd2e13ce144afd9cc34a83dac3d8907aaffffac54nat, 1, 0x54b80be71a54066ee306208b728f5af408b5942c8b16d701d2bf48120bfc345097d4fed7ad80e915c9a789e5beb4b9aint, 0xe463b473eb3b4211c4cd23f607e5f2df701d391f3a1aefd3c4bd6b40b1f6eb5e8e191da5672afb4fcfb82fe04422222int, 0xbdc0f928abb5976be03f779ab13b034a6b8b69e166ff4c5a481ac3caf8e0eb8596bbf3c20f0021a07c407877afa46beint);
    }
    assert(pow(11, 0x1a0111ea397fe69a4b1ba7b6434bacd764774b84f38512bf6730d2a0f6b0f6241eabfffeb153nat) % (modulus() as int) == 0x1812b4b9dd22263466595a21ca0ee2895a4c69fac0024cc6318fcca1aa1dd1949ccbbaa94b7f5a2ac3796536d932618fint) by {
        lemma_pow_step(11, 0xd0088f51cbff34d258dd3db21a5d66bb23ba5c279c2895fb39869507b587b120f55ffff58a9nat, 1, 0xe463b473eb3b4211c4cd23f607e5f2df701d391f3a1aefd3c4bd6b40b1f6eb5e8e191da5672afb4fcfb82fe04422222int, 0x1812b4b9dd22263466595a21ca0ee2895a4c69fac0024cc6318fcca1aa1dd1949ccbbaa94b7f5a2ac3796536d932618fint, 0x5630e2d7bba8a7ec3f0f162c96712bdfa3ccb8d5ccb5e22b3f3eedf0d52e9180eeedf87bc0c030ebd51047465d767857int);
    }
}

proof fn lemma_z_pow_part_30()
    ensures
        pow(11, 0x680447a8e5ff9a692c6e9ed90d2eb35d91dd2e13ce144afd9cc34a83dac3d8907aaffffac54fffnat) % (modulus() as int) == 0x13b3e6d0a2db8b43954a449cc6ea15f907810644ddebc01ab078575fb9ca073d18a1ef80e9dd37d511ad35e52a27aeaeint,
{
    lemma_z_pow_part_29();
    assert(pow(11, 0x340223d472ffcd3496374f6c869759aec8ee9709e70a257ece61a541ed61ec483d57fffd62a7nat) % (modulus() as int) == 0x1907086f7b3624131df007f204ff06820d0e7aad8078cc5da3b8d8fdff9f62b6d6f5d00afe884fbb8b394ae83601fe10int) by {
        lemma_pow_step(11, 0x1a0111ea397fe69a4b1ba7b6434bacd764774b84f38512bf6730d2a0f6b0f6241eabfffeb153nat, 1, 0x1812b4b9dd22263466595a21ca0ee2895a4c69fac0024cc6318fcca1aa1dd1949ccbbaa94b7f5a2ac3796536d932618fint, 0x1907086f7b3624131df007f204ff06820d0e7aad8078cc5da3b8d8fdff9f62b6d6f5d00afe884fbb8b394ae83601fe10int, 0xf5239881608fd870b9faa31aba66e216b90d7cd73552df770087f067efdbfb95ec3124715e5a5f8a26d0234a5e0a6fd1int);
    }
    assert(pow(11, 0x680447a8e5ff9a692c6e9ed90d2eb35d91dd2e13ce144afd9cc34a83dac3d8907aaffffac54fnat) % (modulus() as int) == 0xcdc3ddb3347da56455340ffc032dccbdf7d61893d6c1a3f583b66965941b39a9d738bb82199924e6c06d1d026436b4fint) by {
        lemma_pow_step(11, 0x340223d472ffcd3496374f6c869759aec8ee9709e70a257ece61a541ed61ec483d57fffd62a7nat, 1, 0x1907086f7b3624131df007f204ff06820d0e7aad8078cc5da3b8d8fdff9f62b6d6f5d00afe884fbb8b394ae83601fe10int, 0xcdc3ddb3347da56455340ffc032dccbdf7d61893d6c1a3f583b66965941b39a9d738bb82199924e6c06d1d026436b4fint, 0x108f64267fa2b171f8eed71dfc0d74fc33ce3f22c491b0941a3150db376f52787efbcffee4cb029ae7a97921ded049f13int);
    }
    assert(pow(11, 0xd0088f51cbff34d258dd3db21a5d66bb23ba5c279c2895fb39869507b587b120f55ffff58a9fnat) % (modulus() as int) == 0x852009d1ef6e4c6fbd094c92181e6b26611a5fadd4ef3936d9ba389fa8af2a3e71bd2acb4ce0497acd9563f269ff457int) by {
        lemma_pow_step(11, 0x680447a8e5ff9a692c6e9ed90d2eb35d91dd2e13ce144afd9cc34a83dac3d8907aaffffac54fnat, 1, 0xcdc3ddb3347da56455340ffc032dccbdf7d61893d6c1a3f583b66965941b39a9d738bb82199924e6c06d1d026436b4fint, 0x852009d1ef6e4c6fbd094c92181e6b26611a5fadd4ef3936d9ba389fa8af2a3e71bd2acb4ce0497acd9563f269ff457int, 0x45f5e457f1de39ed706db098e4e60dd8208904a134a68e7e9f6f07ad660d6c250c213e47ef2b3296c9b6656e7495917cint);
    }
    assert(pow(11, 0x1a0111ea397fe69a4b1ba7b6434bacd764774b84f38512bf6730d2a0f6b0f6241eabfffeb153fnat) % (modulus() as int) == 0x162e01309b7a797ac9c3f223ce7ea1dd419bdc2c93dccd3139811e2f690d624ecde3144e98638be1f301677dc571bf8dint) by {
        lemma_pow_step(11, 0xd0088f51cbff34d258dd3db21a5d66bb23ba5c279c2895fb39869507b587b120f55ffff58a9fnat, 1, 0x852009d1ef6e4c6fbd094c92181e6b26611a5fadd4ef3936d9ba389fa8af2a3e71bd2acb4ce0497acd9563f269ff457int, 0x162e01309b7a797ac9c3f223ce7ea1dd419bdc2c93dccd3139811e2f690d624ecde3144e98638be1f301677dc571bf8dint, 0x1d48b18050c6bfe7ba3afb88e715f5d3b5225ca1c147bb9621db9fe996034182538fc8e8ea0085108e9acd7782fb690aint);
    }
    assert(pow(11, 0x340223d472ffcd3496374f6c869759aec8ee9709e70a257ece61a541ed61ec483d57fffd62a7fnat) % (modulus() as int) == 0x39ea81c73373bffbe85b6ae5775c2dabef6d830c7c662ab1fdfa1c6f1372cec42b248fd781a276ea3c1394e4ed40eeint) by {
        lemma_pow_step(11, 0x1a0111ea397fe69a4b1ba7b6434bacd764774b84f38512bf6730d2a0f6b0f6241eabfffeb153fnat, 1, 0x162e01309b7a797ac9c3f223ce7ea1dd419bdc2c93dccd3139811e2f690d624ecde3144e98638be1f301677dc571bf8dint, 0x39ea81c73373bffbe85b6ae5775c2dabef6d830c7c662ab1fdfa1c6f1372cec42b248fd781a276ea3c1394e4ed40eeint, 0xd01840522debe0b4de13341ebab853c02dea956cdee8ba4daf02611f2c62c2e8387bf932394cad261fba8c7ddcbb65ffint);
    }
    assert(pow(11, 0x680447a8e5ff9a692c6e9ed90d2eb35d91dd2e13ce144afd9cc34a83dac3d8907aaffffac54ffnat) % (modulus() as int) == 0x13ea5f4d727991c03398c40787400e6563e891ca396120d5af23548c3d233ee7249e5f70455191ee8a491feb2e60345aint) by {
        lemma_pow_step(11, 0x340223d472ffcd3496374f6c869759aec8ee9709e70a257ece61a541ed61ec483d57fffd62a7fnat, 1, 0x39ea81c73373bffbe85b6ae5775c2dabef6d830c7c662ab1fdfa1c6f1372cec42b248fd781a276ea3c1394e4ed40eeint, 0x13ea5f4d727991c03398c40787400e6563e891ca396120d5af23548c3d233ee7249e5f70455191ee8a491feb2e60345aint, 0x58ae2a2c99e6753c298efdc7afe8a43dfd88a077a7a6e8f6858ac48d24ad9af07d739e2a9abfa7e941153bb34e8b6int);
    }
    assert(pow(11, 0xd0088f51cbff34d258dd3db21a5d66bb23ba5c279c2895fb39869507b587b120f55ffff58a9ffnat) % (modulus() as int) == 0xf1a4a1f1d3d39dd885dbacd113d2ab7fb6924a7e08fa5cc27ff882287d6dc6caba9ff3fd8f2caedaa8792dec194f589int) by {
        lemma_pow_step(11, 0x680447a8e5ff9a692c6e9ed90d2eb35d91dd2e13ce144afd9cc34a83dac3d8907aaffffac54ffnat, 1, 0x13ea5f4d727991c03398c40787400e6563e891ca396120d5af23548c3d233ee7249e5f70455191ee8a491feb2e60345aint, 0xf1a4a1f1d3d39dd885dbacd113d2ab7fb6924a7e08fa5cc27ff882287d6dc6caba9ff3fd8f2caedaa8792dec194f589int, 0xa7c6f011bbaabea21fb218533cebc31917c91e48f3d650e923bd2403ab254a88dd0fe7f8d78eb11984c1d9a0eb94c389int);
    }
    assert(pow(11, 0x1a0111ea397fe69a4b1ba7b6434bacd764774b84f38512bf6730d2a0f6b0f6241eabfffeb153ffnat) % (modulus() as int) == 0x13b42efb3937ef572687c2c54cefeebae0c443164f556c7311cc7f90d9688590eb200e66d8ccac42b58138d408b15fbfint) by {
        lemma_pow_step(11, 0xd0088f51cbff34d258dd3db21a5d66bb23ba5c279c2895fb39869507b587b120f55ffff58a9ffnat, 1, 0xf1a4a1f1d3d39dd885dbacd113d2ab7fb6924a7e08fa5cc27ff882287d6dc6caba9ff3fd8f2caedaa8792dec194f589int, 0x13b42efb3937ef572687c2c54cefeebae0c443164f556c7311cc7f90d9688590eb200e66d8ccac42b58138d408b15fbfint, 0x607c13c56d6ac42756d240777b3878877059f20e7d8b58a6eda9aced0c6cbd0c92b731430ae464b947cdc92994f7ce34int);
    }
    assert(pow(11, 0x340223d472ffcd3496374f6c869759aec8ee9709e70a257ece61a541ed61ec483d57fffd62a7ffnat) % (modulus() as int) == 0xe99e531e17c6a9544fba28644ebfb34a8c4ab4af1fa29c3b9af95f62189a92afd8821055d3d53492067d8f6103b92f3int) by {
        lemma_pow_step(11, 0x1a0111ea397fe69a4b1ba7b6434bacd764774b84f38512bf6730d2a0f6b0f6241eabfffeb153ffnat, 1, 0x13b42efb3937ef572687c2c54cefeebae0c443164f556c7311cc7f90d9688590eb200e66d8ccac42b58138d408b15fbfint, 0xe99e531e17c6a9544fba28644ebfb34a8c4ab4af1fa29c3b9af95f62189a92afd8821055d3d53492067d8f6103b92f3int, 0xa43ac517722fbaa1cf525501a612293fccf410b4462540f5299b6c54341b9ec1b7b35ccef837ccebc93e00332eaca7c8int);
    }
    assert(pow(11, 0x680447a8e5ff9a692c6e9ed90d2eb35d91dd2e13ce144afd9cc34a83dac3d8907aaffffac54fffnat) % (modulus() as int) == 0x13b3e6d0a2db8b43954a449cc6ea15f907810644ddebc01ab078575fb9ca073d18a1ef80e9dd37d511ad35e52a27aeaeint) by {
        lemma_pow_step(11, 0x340223d472ffcd3496374f6c869759aec8ee9709e70a257ece61a541ed61ec483d57fffd62a7ffnat, 1, 0xe99e531e17c6a9544fba28644ebfb34a8c4ab4af1fa29c3b9af95f62189a92afd8821055d3d53492067d8f6103b92f3int, 0x13b3e6d0a2db8b43954a449cc6ea15f907810644ddebc01ab078575fb9ca073d18a1ef80e9dd37d511ad35e52a27aeaeint, 0x5a2ecdf5c1422c139a850b04db1d828329f8fb806ccb25c8a8a859a151a74f3d8220bd95527fc0dbc3231aa459265bbfint);
    }
}

proof fn lemma_z_pow_part_31()
    ensures
        pow(11, 0x1a0111ea397fe69a4b1ba7b6434bacd764774b84f38512bf6730d2a0f6b0f6241eabfffeb153ffffbnat) % (modulus() as int) == 0x19960e10a531169f8d81aa393a95f86dd425d1fa3a5e2f56ebd17276d3807cac2325f89c9802e892ceb0374a0c52394int,
{
    lemma_z_pow_part_30();
    assert(pow(11, 0xd0088f51cbff34d258dd3db21a5d66bb23ba5c279c2895fb39869507b587b120f55ffff58a9fffnat) % (modulus() as int) == 0x348926e3bb3059144b8ada517b22af0f3b32e97d59774a5849cb0aacb1b9649d4506df05b36df6acc954af9fcd34529int) by {
        lemma_pow_step(11, 0x680447a8e5ff9a692c6e9ed90d2eb35d91dd2e13ce144afd9cc34a83dac3d8907aaffffac54fffnat, 1, 0x13b3e6d0a2db8b43954a449cc6ea15f907810644ddebc01ab078575fb9ca073d18a1ef80e9dd37d511ad35e52a27aeaeint, 0x348926e3bb3059144b8ada517b22af0f3b32e97d59774a5849cb0aacb1b9649d4506df05b36df6acc954af9fcd34529int, 0xa4361220575f3f83e9a4193a7cfc5ae9cb097ab61aac7cf9c7761b7c174635080b594d1fa31b9732c570e1f2cfa3f749int);
    }
    assert(pow(11, 0x1a0111ea397fe69a4b1ba7b6434bacd764774b84f38512bf6730d2a0f6b0f6241eabfffeb153fffnat) % (modulus() as int) == 0x21e80f6501b9da69c44f82cb27a2edef52598f9a99511708090c56c120f2f617091befeb16f894d7f804f6823d2d8a7int) by {
        lemma_pow_step(11, 0xd0088f51cbff34d258dd3db21a5d66bb23ba5c279c2895fb39869507b587b120f55ffff58a9fffnat, 1, 0x348926e3bb3059144b8ada517b22af0f3b32e97d59774a5849cb0aacb1b9649d4506df05b36df6acc954af9fcd34529int, 0x21e80f6501b9da69c44f82cb27a2edef52598f9a99511708090c56c120f2f617091befeb16f894d7f804f6823d2d8a7int, 0x48f81b99630b452f96e7a332f1d0a12b75f379744da4e5c8ce6d8f6abd471f32dffc342f7fa0f49d36508f3922ca8bcint);
    }
    assert(pow(11, 0x340223d472ffcd3496374f6c869759aec8ee9709e70a257ece61a541ed61ec483d57fffd62a7fffnat) % (modulus() as int) == 0xd5a26c233fa281b08760eedef5e3f2acde66dbe8764fdb15bf00a641a01aea7912009c3ecc96f4f20f32aa314c34af5int) by {
        lemma_pow_step(11, 0x1a0111ea397fe69a4b1ba7b6434bacd764774b84f38512bf6730d2a0f6b0f6241eabfffeb153fffnat, 1, 0x21e80f6501b9da69c44f82cb27a2edef52598f9a99511708090c56c120f2f617091befeb16f894d7f804f6823d2d8a7int, 0xd5a26c233fa281b08760eedef5e3f2acde66dbe8764fdb15bf00a641a01aea7912009c3ecc96f4f20f32aa314c34af5int, 0x1e64fe50c83c4392892914238b32e681054761802736a277222711cda97ed9bd5778dbd986c6f544781bb6cfa05fa32int);
    }
    assert(pow(11, 0x680447a8e5ff9a692c6e9ed90d2eb35d91dd2e13ce144afd9cc34a83dac3d8907aaffffac54ffffnat) % (modulus() as int) == 0x74ad5304b221400be24f12ce996b39497f001fc36130745946f710d42c334242790472fb1ef0cd5aa274c31eb18ee1cint) by {
        lemma_pow_step(11, 0x340223d472ffcd3496374f6c869759aec8ee9709e70a257ece61a541ed61ec483d57fffd62a7fffnat, 1, 0xd5a26c233fa281b08760eedef5e3f2acde66dbe8764fdb15bf00a641a01aea7912009c3ecc96f4f20f32aa314c34af5int, 0x74ad5304b221400be24f12ce996b39497f001fc36130745946f710d42c334242790472fb1ef0cd5aa274c31eb18ee1cint, 0x4b69fe4e55112bd854390334e3836e6e27684d8b03542faac4369606ea285c6392c0c7ff3875c3e355966948473c9345int);
    }
    assert(pow(11, 0xd0088f51cbff34d258dd3db21a5d66bb23ba5c279c2895fb39869507b587b120f55ffff58a9ffffnat) % (modulus() as int) == 0x3371a5a47552ca94c74b3f0af4f0cde1e8430999fd7abf5368851947834a715995bff66f511582a2be145cd29b655b9int) by {
        lemma_pow_step(11, 0x680447a8e5ff9a692c6e9ed90d2eb35d91dd2e13ce144afd9cc34a83dac3d8907aaffffac54ffffnat, 1, 0x74ad5304b221400be24f12ce996b39497f001fc36130745946f710d42c334242790472fb1ef0cd5aa274c31eb18ee1cint, 0x3371a5a47552ca94c74b3f0af4f0cde1e8430999fd7abf5368851947834a715995bff66f511582a2be145cd29b655b9int, 0x167ea56a3b1b3d01d06a5739135a12e7e48e0146e4797f0446e99e5e1873c37c071eda90d85fb38bfdb6beff387c73e5int);
    }
    assert(pow(11, 0x1a0111ea397fe69a4b1ba7b6434bacd764774b84f38512bf6730d2a0f6b0f6241eabfffeb153ffffnat) % (modulus() as int) == 0x14ba27cbf04485681b30096db8b41f733e852610bd1e4fe07d736e99cfd5ae1c9549722a9a542fae21c982a88c9e7c2cint) by {
        lemma_pow_step(11, 0xd0088f51cbff34d258dd3db21a5d66bb23ba5c279c2895fb39869507b587b120f55ffff58a9ffffnat, 1, 0x3371a5a47552ca94c74b3f0af4f0cde1e8430999fd7abf5368851947834a715995bff66f511582a2be145cd29b655b9int, 0x14ba27cbf04485681b30096db8b41f733e852610bd1e4fe07d736e99cfd5ae1c9549722a9a542fae21c982a88c9e7c2cint, 0x45f7be3ace98cb094eafb5c3e889230978b18d4b991190963f9ff0765235e620b9f5109b23e4434b26ace89b53de14dint);
    }
    assert(pow(11, 0x340223d472ffcd3496374f6c869759aec8ee9709e70a257ece61a541ed61ec483d57fffd62a7ffffnat) % (modulus() as int) == 0xd97a1b653dde0458988e189e93c95fcd54c9cf13c6036488a2f46b1436c475c9d849b44297fbd0e03bac4a9d535d7c4int) by {
        lemma_pow_step(11, 0x1a0111ea397fe69a4b1ba7b6434bacd764774b84f38512bf6730d2a0f6b0f6241eabfffeb153ffffnat, 1, 0x14ba27cbf04485681b30096db8b41f733e852610bd1e4fe07d736e99cfd5ae1c9549722a9a542fae21c982a88c9e7c2cint, 0xd97a1b653dde0458988e189e93c95fcd54c9cf13c6036488a2f46b1436c475c9d849b44297fbd0e03bac4a9d535d7c4int, 0xb5bb3113d48310b89da5c458b1ed2e569590c32715627bd635b212e1e06b32d2670a88fb00e659fd3ca411e686821244int);
    }
    assert(pow(11, 0x680447a8e5ff9a692c6e9ed90d2eb35d91dd2e13ce144afd9cc34a83dac3d8907aaffffac54ffffenat) % (modulus() as int) == 0xdcafee36b79f23cc703cbc0ff159a36de21489ac3a0ecfa91b53a379cbe0c0154de5bc12238bfb78666a49cfe6fef41int) by {
        lemma_pow_step(11, 0x340223d472ffcd3496374f6c869759aec8ee9709e70a257ece61a541ed61ec483d57fffd62a7ffffnat, 0, 0xd97a1b653dde0458988e189e93c95fcd54c9cf13c6036488a2f46b1436c475c9d849b44297fbd0e03bac4a9d535d7c4int, 0xdcafee36b79f23cc703cbc0ff159a36de21489ac3a0ecfa91b53a379cbe0c0154de5bc12238bfb78666a49cfe6fef41int, 0x71acb2d6c55129e1dda237c8bced9c8f2312ca71078e24acbe77f999fb77ab7b268d8eebd185cb13f7041c440259c6dint);
    }
    assert(pow(11, 0xd0088f51cbff34d258dd3db21a5d66bb23ba5c279c2895fb39869507b587b120f55ffff58a9ffffdnat) % (modulus() as int) == 0x122c042839fb2a04ba0a8305f0ebd175b4ece7b38ff1a4e591e8b0db4f3376b3d234a3bb529cb080bcf2a78e187e2752int) by {
        lemma_pow_step(11, 0x680447a8e5ff9a692c6e9ed90d2eb35d91dd2e13ce144afd9cc34a83dac3d8907aaffffac54ffffenat, 1, 0xdcafee36b79f23cc703cbc0ff159a36de21489ac3a0ecfa91b53a379cbe0c0154de5bc12238bfb78666a49cfe6fef41int, 0x122c042839fb2a04ba0a8305f0ebd175b4ece7b38ff1a4e591e8b0db4f3376b3d234a3bb529cb080bcf2a78e187e2752int, 0x5079bdc71b90835ffdbe24c240c2cfee740555200ab3403f28681a99977cfe746293dfd05dd6363dbbb9aa459436c8abint);
    }
    assert(pow(11, 0x1a0111ea397fe69a4b1ba7b6434bacd764774b84f38512bf6730d2a0f6b0f6241eabfffeb153ffffbnat) % (modulus() as int) == 0x19960e10a531169f8d81aa393a95f86dd425d1fa3a5e2f56ebd17276d3807cac2325f89c9802e892ceb0374a0c52394int) by {
        lemma_pow_step(11, 0xd0088f51cbff34d258dd3db21a5d66bb23ba5c279c2895fb39869507b587b120f55ffff58a9ffffdnat, 1, 0x122c042839fb2a04ba0a8305f0ebd175b4ece7b38ff1a4e591e8b0db4f3376b3d234a3bb529cb080bcf2a78e187e2752int, 0x19960e10a531169f8d81aa393a95f86dd425d1fa3a5e2f56ebd17276d3807cac2325f89c9802e892ceb0374a0c52394int, 0x8baf8bff667ca0e85400a4836d63eb1677d494dc255af561a0fdbee39e30137819da7dc8708ffce0112c8b2504bd7408int);
    }
}

proof fn lemma_z_pow_part_32()
    ensures
        pow(11, 0x680447a8e5ff9a692c6e9ed90d2eb35d91dd2e13ce144afd9cc34a83dac3d8907aaffffac54ffffee7fnat) % (modulus() as int) == 0x8379659f821d24c72c488aa68be4072a7d77073cb272c1a25be2e3ea2483f11803cc1b59572e09f931765ffaf45e298int,
{
    lemma_z_pow_part_31();
    assert(pow(11, 0x340223d472ffcd3496374f6c869759aec8ee9709e70a257ece61a541ed61ec483d57fffd62a7ffff7nat) % (modulus() as int) == 0x19757f456c6d8171dc6a8224ff0956188432a42f24e8c6a1babceebda4a211b0a1bc65938fef6036d926737ddfa8ef53int) by {
        lemma_pow_step(11, 0x1a0111ea397fe69a4b1ba7b6434bacd764774b84f38512bf6730d2a0f6b0f6241eabfffeb153ffffbnat, 1, 0x19960e10a531169f8d81aa393a95f86dd425d1fa3a5e2f56ebd17276d3807cac2325f89c9802e892ceb0374a0c52394int, 0x19757f456c6d8171dc6a8224ff0956188432a42f24e8c6a1babceebda4a211b0a1bc65938fef6036d926737ddfa8ef53int, 0x114ec5cc1b92d59da2da1ed762b141aca2c14cfc1d32739bf5b3491d81614917e5f32b1266315fbb2ad5d97b08fb197int);
    }
    assert(pow(11, 0x680447a8e5ff9a692c6e9ed90d2eb35d91dd2e13ce144afd9cc34a83dac3d8907aaffffac54ffffeenat) % (modulus() as int) == 0x14f7942304ab29c7456442ad989b53298911a6b1922182b070d2c00b9b9d19150b15b5b2b8619ecfa81524f9ca65c8fint) by {
        lemma_pow_step(11, 0x340223d472ffcd3496374f6c869759aec8ee9709e70a257ece61a541ed61ec483d57fffd62a7ffff7nat, 0, 0x19757f456c6d8171dc6a8224ff0956188432a42f24e8c6a1babceebda4a211b0a1bc65938fef6036d926737ddfa8ef53int, 0x14f7942304ab29c7456442ad989b53298911a6b1922182b070d2c00b9b9d19150b15b5b2b8619ecfa81524f9ca65c8fint, 0x18ecd9c285d66a7cee8a6b233e34a20e0f77bfd395203629b1de3416e1f575597f19a48d1c8bfade6c673ca3171f290eint);
    }
    assert(pow(11, 0xd0088f51cbff34d258dd3db21a5d66bb23ba5c279c2895fb39869507b587b120f55ffff58a9ffffdcnat) % (modulus() as int) == 0x257cdaf31fa867c3704c19b49075499ad129451a98c58e4c030c69ae4d9f0e8b7d238e1e4c15ceda9aee6c8533f8bdeint) by {
        lemma_pow_step(11, 0x680447a8e5ff9a692c6e9ed90d2eb35d91dd2e13ce144afd9cc34a83dac3d8907aaffffac54ffffeenat, 0, 0x14f7942304ab29c7456442ad989b53298911a6b1922182b070d2c00b9b9d19150b15b5b2b8619ecfa81524f9ca65c8fint, 0x257cdaf31fa867c3704c19b49075499ad129451a98c58e4c030c69ae4d9f0e8b7d238e1e4c15ceda9aee6c8533f8bdeint, 0x10e7dd758135b3a7b567af1c24b097f5e293ec2e9fee48054311c67e413dda15f90fe9942beda4fd1c0a38030ba409int);
    }
    assert(pow(11, 0x1a0111ea397fe69a4b1ba7b6434bacd764774b84f38512bf6730d2a0f6b0f6241eabfffeb153ffffb9nat) % (modulus() as int) == 0x129ece45a051e9881ced0f10608b32d4d22b28f44dc6253d15a9594b4607c1363a33967730b52b3942131407f2225d99int) by {
        lemma_pow_step(11, 0xd0088f51cbff34d258dd3db21a5d66bb23ba5c279c2895fb39869507b587b120f55ffff58a9ffffdcnat, 1, 0x257cdaf31fa867c3704c19b49075499ad129451a98c58e4c030c69ae4d9f0e8b7d238e1e4c15ceda9aee6c8533f8bdeint, 0x129ece45a051e9881ced0f10608b32d4d22b28f44dc6253d15a9594b4607c1363a33967730b52b3942131407f2225d99int, 0x2527775bb009c6b34f886aad253a6498d21702f19f86f5e1bea4e9cddba61b2248395cbfd2b7c10d47ee99e835b4c39int);
    }
    assert(pow(11, 0x340223d472ffcd3496374f6c869759aec8ee9709e70a257ece61a541ed61ec483d57fffd62a7ffff73nat) % (modulus() as int) == 0x17c6ad07ccb56ed839fcaaa68101a503d28508629c2ccfb7f2e6336f2009728b753ab97052fd6be566faa3cb45841b33int) by {
        lemma_pow_step(11, 0x1a0111ea397fe69a4b1ba7b6434bacd764774b84f38512bf6730d2a0f6b0f6241eabfffeb153ffffb9nat, 1, 0x129ece45a051e9881ced0f10608b32d4d22b28f44dc6253d15a9594b4607c1363a33967730b52b3942131407f2225d99int, 0x17c6ad07ccb56ed839fcaaa68101a503d28508629c2ccfb7f2e6336f2009728b753ab97052fd6be566faa3cb45841b33int, 0x92aa119e53263c5e4216ac43c9fd046936a4466c0d8044b6bd24ddddda7e780675c02ef73fc0dc58b924466fafd8e1f8int);
    }
    assert(pow(11, 0x680447a8e5ff9a692c6e9ed90d2eb35d91dd2e13ce144afd9cc34a83dac3d8907aaffffac54ffffee7nat) % (modulus() as int) == 0x14a182b53f446cf1a73c8212a97a5622467ece0d26892e214a4a16a7c46b854023ae8e9e8b01a4687270bf05d45764c0int) by {
        lemma_pow_step(11, 0x340223d472ffcd3496374f6c869759aec8ee9709e70a257ece61a541ed61ec483d57fffd62a7ffff73nat, 1, 0x17c6ad07ccb56ed839fcaaa68101a503d28508629c2ccfb7f2e6336f2009728b753ab97052fd6be566faa3cb45841b33int, 0x14a182b53f446cf1a73c8212a97a5622467ece0d26892e214a4a16a7c46b854023ae8e9e8b01a4687270bf05d45764c0int, 0xef20b34ece9ee6910df959a8434a28ade177d629d35638b3f09ce7649ec53207b3ada1a0ed727c41054d2c8fe2f82309int);
    }
    assert(pow(11, 0xd0088f51cbff34d258dd3db21a5d66bb23ba5c279c2895fb39869507b587b120f55ffff58a9ffffdcfnat) % (modulus() as int) == 0x14f8b66911922f422af2ab92b8f6b40f9fb9ba17d4047784c7be3ff7934e8ef5defb8acd14d8746ecbae578967967baeint) by {
        lemma_pow_step(11, 0x680447a8e5ff9a692c6e9ed90d2eb35d91dd2e13ce144afd9cc34a83dac3d8907aaffffac54ffffee7nat, 1, 0x14a182b53f446cf1a73c8212a97a5622467ece0d26892e214a4a16a7c46b854023ae8e9e8b01a4687270bf05d45764c0int, 0x14f8b66911922f422af2ab92b8f6b40f9fb9ba17d4047784c7be3ff7934e8ef5defb8acd14d8746ecbae578967967baeint, 0xb40c08a061c2fa34294438b9efb7e2a084312d855bf39928d1aa745f104fc90e7a243d0556f0203061189936cd2b1cf6int);
    }
    assert(pow(11, 0x1a0111ea397fe69a4b1ba7b6434bacd764774b84f38512bf6730d2a0f6b0f6241eabfffeb153ffffb9fnat) % (modulus() as int) == 0x17e9fb9f857aa0ed0b46568649d5fa6e83d7b5a7aad9a19a23f4190f953de8ada96b49b3f95d9fd37feab4e219809b42int) by {
        lemma_pow_step(11, 0xd0088f51cbff34d258dd3db21a5d66bb23ba5c279c2895fb39869507b587b120f55ffff58a9ffffdcfnat, 1, 0x14f8b66911922f422af2ab92b8f6b40f9fb9ba17d4047784c7be3ff7934e8ef5defb8acd14d8746ecbae578967967baeint, 0x17e9fb9f857aa0ed0b46568649d5fa6e83d7b5a7aad9a19a23f4190f953de8ada96b49b3f95d9fd37feab4e219809b42int, 0xba0aa19fe5c87f23c4ea84324718b3ce5165b00c8b671437301264ad6a3478ecaf3d402395c7b557cce075b0f93a20feint);
    }
    assert(pow(11, 0x340223d472ffcd3496374f6c869759aec8ee9709e70a257ece61a541ed61ec483d57fffd62a7ffff73fnat) % (modulus() as int) == 0xea85a6b489b6ee44559d2bbf5dee54abccae76900482466f99a3854233fb874aa838aa7e4570db907ec30b2b0a14f2int) by {
        lemma_pow_step(11, 0x1a0111ea397fe69a4b1ba7b6434bacd764774b84f38512bf6730d2a0f6b0f6241eabfffeb153ffffb9fnat, 1, 0x17e9fb9f857aa0ed0b46568649d5fa6e83d7b5a7aad9a19a23f4190f953de8ada96b49b3f95d9fd37feab4e219809b42int, 0xea85a6b489b6ee44559d2bbf5dee54abccae76900482466f99a3854233fb874aa838aa7e4570db907ec30b2b0a14f2int, 0xf1e8f5ca1eefbcf49756df7236e06953683f52f251104c083e881c01ff981b314622c92b24757997ca4edbfde6d85eaeint);
    }
    assert(pow(11, 0x680447a8e5ff9a692c6e9ed90d2eb35d91dd2e13ce144afd9cc34a83dac3d8907aaffffac54ffffee7fnat) % (modulus() as int) == 0x8379659f821d24c72c488aa68be4072a7d77073cb272c1a25be2e3ea2483f11803cc1b59572e09f931765ffaf45e298int) by {
        lemma_pow_step(11, 0x340223d472ffcd3496374f6c869759aec8ee9709e70a257ece61a541ed61ec483d57fffd62a7ffff73fnat, 1, 0xea85a6b489b6ee44559d2bbf5dee54abccae76900482466f99a3854233fb874aa838aa7e4570db907ec30b2b0a14f2int, 0x8379659f821d24c72c488aa68be4072a7d77073cb272c1a25be2e3ea2483f11803cc1b59572e09f931765ffaf45e298int, 0x5ae1beffd9c3bc78956dac6aa1c5ecacb80fb502a8206eda8063439d3136841d7629e9117ea333387dcdb99c1fa57cint);
    }
}

proof fn lemma_z_pow_part_33()
    ensures
        pow(11, 0x1a0111ea397fe69a4b1ba7b6434bacd764774b84f38512bf6730d2a0f6b0f6241eabfffeb153ffffb9feffnat) % (modulus() as int) == 0x110c6c06f243472d209faaa81e855931bd12c47271f8f13e9a8e89a11e189cdaece07a27ef181a6b303a80691bc19451int,
{
    lemma_z_pow_part_32();
    assert(pow(11, 0xd0088f51cbff34d258dd3db21a5d66bb23ba5c279c2895fb39869507b587b120f55ffff58a9ffffdcffnat) % (modulus() as int) == 0x53d7991ff3ea6e6eee9059ba84de094c3c46136d2aa2f416c582520957cd66c27c9356dadebc75fb08c23bac4bf1ffcint) by {
        lemma_pow_step(11, 0x680447a8e5ff9a692c6e9ed90d2eb35d91dd2e13ce144afd9cc34a83dac3d8907aaffffac54ffffee7fnat, 1, 0x8379659f821d24c72c488aa68be4072a7d77073cb272c1a25be2e3ea2483f11803cc1b59572e09f931765ffaf45e298int, 0x53d7991ff3ea6e6eee9059ba84de094c3c46136d2aa2f416c582520957cd66c27c9356dadebc75fb08c23bac4bf1ffcint, 0x1c8fe82468ead72d0308aa6e836ad7f920388d1e2c1c1981836772043a524551c53f4b8ab5bc35511072a71de2a6a24cint);
    }
    assert(pow(11, 0x1a0111ea397fe69a4b1ba7b6434bacd764774b84f38512bf6730d2a0f6b0f6241eabfffeb153ffffb9fenat) % (modulus() as int) == 0x6e6817bddb779021a548347e0f2ab7955c05cebacd08452f049d6b350cb281f066889a1e801503faeb0ea37e8330a4dint) by {
        lemma_pow_step(11, 0xd0088f51cbff34d258dd3db21a5d66bb23ba5c279c2895fb39869507b587b120f55ffff58a9ffffdcffnat, 0, 0x53d7991ff3ea6e6eee9059ba84de094c3c46136d2aa2f416c582520957cd66c27c9356dadebc75fb08c23bac4bf1ffcint, 0x6e6817bddb779021a548347e0f2ab7955c05cebacd08452f049d6b350cb281f066889a1e801503faeb0ea37e8330a4dint, 0x10e528626dabf60b45f5f61eeee808fc4b75bb3a3590c9e505ad1ee66f171bdf3636c188a922a133d6111ad02c4e149int);
    }
    assert(pow(11, 0x340223d472ffcd3496374f6c869759aec8ee9709e70a257ece61a541ed61ec483d57fffd62a7ffff73fdnat) % (modulus() as int) == 0x17badb7bc1ab6590d723830636a95bd935c2ace8c3c5464aa51b92ce8607c7063a9a3a2dfffe5b00a545be7d36332c4cint) by {
        lemma_pow_step(11, 0x1a0111ea397fe69a4b1ba7b6434bacd764774b84f38512bf6730d2a0f6b0f6241eabfffeb153ffffb9fenat, 1, 0x6e6817bddb779021a548347e0f2ab7955c05cebacd08452f049d6b350cb281f066889a1e801503faeb0ea37e8330a4dint, 0x17badb7bc1ab6590d723830636a95bd935c2ace8c3c5464aa51b92ce8607c7063a9a3a2dfffe5b00a545be7d36332c4cint, 0x1424516add644e97f1b8cdd3a58e15df5f4364ae94bb733f7f6514342353ecf787c8269dba0bfa73e8c8a73366e6fb65int);
    }
    assert(pow(11, 0x680447a8e5ff9a692c6e9ed90d2eb35d91dd2e13ce144afd9cc34a83dac3d8907aaffffac54ffffee7fbnat) % (modulus() as int) == 0x868f97aa9ac8b0f401f4c64c529a061e0bfd88ffc5758e6b0eb80687376c1324db6db0900d621860b21aeef0507e100int) by {
        lemma_pow_step(11, 0x340223d472ffcd3496374f6c869759aec8ee9709e70a257ece61a541ed61ec483d57fffd62a7ffff73fdnat, 1, 0x17badb7bc1ab6590d723830636a95bd935c2ace8c3c5464aa51b92ce8607c7063a9a3a2dfffe5b00a545be7d36332c4cint, 0x868f97aa9ac8b0f401f4c64c529a061e0bfd88ffc5758e6b0eb80687376c1324db6db0900d621860b21aeef0507e100int, 0xee33338e68916f52cbef0ba6aba218ec4d113a6aa80306226affc2c1546b7ad0931b7a3686fbcfb8da4bdd5ed2b16590int);
    }
    assert(pow(11, 0xd0088f51cbff34d258dd3db21a5d66bb23ba5c279c2895fb39869507b587b120f55ffff58a9ffffdcff7nat) % (modulus() as int) == 0x172d7c25c96e48dac2877df98080cc04e966812a8b2c5fc27f6a4feab00d98162bff80532594c3588afc1ba6a06930f1int) by {
        lemma_pow_step(11, 0x680447a8e5ff9a692c6e9ed90d2eb35d91dd2e13ce144afd9cc34a83dac3d8907aaffffac54ffffee7fbnat, 1, 0x868f97aa9ac8b0f401f4c64c529a061e0bfd88ffc5758e6b0eb80687376c1324db6db0900d621860b21aeef0507e100int, 0x172d7c25c96e48dac2877df98080cc04e966812a8b2c5fc27f6a4feab00d98162bff80532594c3588afc1ba6a06930f1int, 0x1deb44f86c45fa4bf212c28aabbf005121d40713cf07fa4c5132f9d8046cbfbfe9318c8c6912ebd41594d2e917d26d2dint);
    }
    assert(pow(11, 0x1a0111ea397fe69a4b1ba7b6434bacd764774b84f38512bf6730d2a0f6b0f6241eabfffeb153ffffb9fefnat) % (modulus() as int) == 0x69437fe1c901eca8fdbb3a9e45a0c603798e3d23ac8b7bed7efccd11d04e629768061088b9dc7ab5e37c86a0ca3663int) by {
        lemma_pow_step(11, 0xd0088f51cbff34d258dd3db21a5d66bb23ba5c279c2895fb39869507b587b120f55ffff58a9ffffdcff7nat, 1, 0x172d7c25c96e48dac2877df98080cc04e966812a8b2c5fc27f6a4feab00d98162bff80532594c3588afc1ba6a06930f1int, 0x69437fe1c901eca8fdbb3a9e45a0c603798e3d23ac8b7bed7efccd11d04e629768061088b9dc7ab5e37c86a0ca3663int, 0xe33e0b342f8ff5a52fd137b01fb0b84b320243baca48814d54575ebec6d87c577b3273e074ca93160eb1c9db6a2efbd8int);
    }
    assert(pow(11, 0x340223d472ffcd3496374f6c869759aec8ee9709e70a257ece61a541ed61ec483d57fffd62a7ffff73fdfnat) % (modulus() as int) == 0x1137623a22f7c1ad952ad7bb0896bd84a4d1fb54e8562500b44265014fb5e5d400d33dea31ba1fe784b59c5e9464d987int) by {
        lemma_pow_step(11, 0x1a0111ea397fe69a4b1ba7b6434bacd764774b84f38512bf6730d2a0f6b0f6241eabfffeb153ffffb9fefnat, 1, 0x69437fe1c901eca8fdbb3a9e45a0c603798e3d23ac8b7bed7efccd11d04e629768061088b9dc7ab5e37c86a0ca3663int, 0x1137623a22f7c1ad952ad7bb0896bd84a4d1fb54e8562500b44265014fb5e5d400d33dea31ba1fe784b59c5e9464d987int, 0x124f2005afa1952eca1c8456ab20505b3d3960f525c9423270d60edce854846fc6ef1a34932f2d8f71541e82aca6d4int);
    }
    assert(pow(11, 0x680447a8e5ff9a692c6e9ed90d2eb35d91dd2e13ce144afd9cc34a83dac3d8907aaffffac54ffffee7fbfnat) % (modulus() as int) == 0xb5869f2c9c6103249d3ede44c66d2ebcc8b1cc45f3cacbe701c18cb59106012f8c4966911b265427da572c87367ce1eint) by {
        lemma_pow_step(11, 0x340223d472ffcd3496374f6c869759aec8ee9709e70a257ece61a541ed61ec483d57fffd62a7ffff73fdfnat, 1, 0x1137623a22f7c1ad952ad7bb0896bd84a4d1fb54e8562500b44265014fb5e5d400d33dea31ba1fe784b59c5e9464d987int, 0xb5869f2c9c6103249d3ede44c66d2ebcc8b1cc45f3cacbe701c18cb59106012f8c4966911b265427da572c87367ce1eint, 0x7d6181777734789f569b7a0b83f8407db20f874b68a7537125b27c6e1958bc31b13926cde9e01059a621113412d260f7int);
    }
    assert(pow(11, 0xd0088f51cbff34d258dd3db21a5d66bb23ba5c279c2895fb39869507b587b120f55ffff58a9ffffdcff7fnat) % (modulus() as int) == 0x12e26d3a97a7cda205846c7a7c6f167d8c244a38be5193460fc789f5d08b6b58a5e8b02b479e7f8af5dc718043ccae85int) by {
        lemma_pow_step(11, 0x680447a8e5ff9a692c6e9ed90d2eb35d91dd2e13ce144afd9cc34a83dac3d8907aaffffac54ffffee7fbfnat, 1, 0xb5869f2c9c6103249d3ede44c66d2ebcc8b1cc45f3cacbe701c18cb59106012f8c4966911b265427da572c87367ce1eint, 0x12e26d3a97a7cda205846c7a7c6f167d8c244a38be5193460fc789f5d08b6b58a5e8b02b479e7f8af5dc718043ccae85int, 0x3672d67996036a772d249d89b186f37fa3d693af61f12b7ebfed4f8d29841b49ef7a545106cf048ab3cc82a51e30b075int);
    }
    assert(pow(11, 0x1a0111ea397fe69a4b1ba7b6434bacd764774b84f38512bf6730d2a0f6b0f6241eabfffeb153ffffb9feffnat) % (modulus() as int) == 0x110c6c06f243472d209faaa81e855931bd12c47271f8f13e9a8e89a11e189cdaece07a27ef181a6b303a80691bc19451int) by {
        lemma_pow_step(11, 0xd0088f51cbff34d258dd3db21a5d66bb23ba5c279c2895fb39869507b587b120f55ffff58a9ffffdcff7fnat, 1, 0x12e26d3a97a7cda205846c7a7c6f167d8c244a38be5193460fc789f5d08b6b58a5e8b02b479e7f8af5dc718043ccae85int, 0x110c6c06f243472d209faaa81e855931bd12c47271f8f13e9a8e89a11e189cdaece07a27ef181a6b303a80691bc19451int, 0x96daddb7922669ecaacdad0ef6768944dcd95b52da08dd1a39df14313f724073a058f92ab6c77035b1e66fe07b147746int);
    }
}

proof fn lemma_z_pow_part_34()
    ensures
        pow(11, 0x680447a8e5ff9a692c6e9ed90d2eb35d91dd2e13ce144afd9cc34a83dac3d8907aaffffac54ffffee7fbffffnat) % (modulus() as int) == 0xdf8f0b862eb26654098b0ce333bac83307ec952d2a9962774b5199aebdc39dee44bc562090b65d24c65df404ab28348int,
{
    lemma_z_pow_part_33();
    assert(pow(11, 0x340223d472ffcd3496374f6c869759aec8ee9709e70a257ece61a541ed61ec483d57fffd62a7ffff73fdffnat) % (modulus() as int) == 0x12a7def27206c86fedec9c40c47679f508cbee33826fa69738eeeb19077b117fc2fb832fbff18154286eb65c963ba8aint) by {
        lemma_pow_step(11, 0x1a0111ea397fe69a4b1ba7b6434bacd764774b84f38512bf6730d2a0f6b0f6241eabfffeb153ffffb9feffnat, 1, 0x110c6c06f243472d209faaa81e855931bd12c47271f8f13e9a8e89a11e189cdaece07a27ef181a6b303a80691bc19451int, 0x12a7def27206c86fedec9c40c47679f508cbee33826fa69738eeeb19077b117fc2fb832fbff18154286eb65c963ba8aint, 0x7af2cdc5d41e1c6dbcb61cd8e9078b98c3bc53030832c0b4dc4cbf750449268a11300d2228e970511975cd6c39ffc623int);
    }
    assert(pow(11, 0x680447a8e5ff9a692c6e9ed90d2eb35d91dd2e13ce144afd9cc34a83dac3d8907aaffffac54ffffee7fbffnat) % (modulus() as int) == 0xa0aea21d9d95fc331bdbe7a00b8d8b8c37c38812a1f6f648d933cdcc807f60fae864ec26a08e879a7842a97224fd17eint) by {
        lemma_pow_step(11, 0x340223d472ffcd3496374f6c869759aec8ee9709e70a257ece61a541ed61ec483d57fffd62a7ffff73fdffnat, 1, 0x12a7def27206c86fedec9c40c47679f508cbee33826fa69738eeeb19077b117fc2fb832fbff18154286eb65c963ba8aint, 0xa0aea21d9d95fc331bdbe7a00b8d8b8c37c38812a1f6f648d933cdcc807f60fae864ec26a08e879a7842a97224fd17eint, 0x9339024a09ff4287c8450bf8b5d3facaef07d9e1f6a3f2aedcd45a37466b834cfcd1151abc2dc7ce3ebf731b3daa6aint);
    }
    assert(pow(11, 0xd0088f51cbff34d258dd3db21a5d66bb23ba5c279c2895fb39869507b587b120f55ffff58a9ffffdcff7ffnat) % (modulus() as int) == 0x128edec15b6091c33e54a91d47dba5e5965dd80b5694eb31a367e1f6da70b7e700b27879578bf557840480f9e956a942int) by {
        lemma_pow_step(11, 0x680447a8e5ff9a692c6e9ed90d2eb35d91dd2e13ce144afd9cc34a83dac3d8907aaffffac54ffffee7fbffnat, 1, 0xa0aea21d9d95fc331bdbe7a00b8d8b8c37c38812a1f6f648d933cdcc807f60fae864ec26a08e879a7842a97224fd17eint, 0x128edec15b6091c33e54a91d47dba5e5965dd80b5694eb31a367e1f6da70b7e700b27879578bf557840480f9e956a942int, 0x2aa990864f67b0f8a4932568dc9a462aae90856d2de0172f8ab7540db0c6f2693c4e1da49d08d481d9ae0218d84c3ebeint);
    }
    assert(pow(11, 0x1a0111ea397fe69a4b1ba7b6434bacd764774b84f38512bf6730d2a0f6b0f6241eabfffeb153ffffb9fefffnat) % (modulus() as int) == 0x1a00da89ed9c69ed7f1d2feb3e24a641079ad52486e2b7ba00dc9a9b50916e87fd5313e7442dd4b412ebaeec005bf67cint) by {
        lemma_pow_step(11, 0xd0088f51cbff34d258dd3db21a5d66bb23ba5c279c2895fb39869507b587b120f55ffff58a9ffffdcff7ffnat, 1, 0x128edec15b6091c33e54a91d47dba5e5965dd80b5694eb31a367e1f6da70b7e700b27879578bf557840480f9e956a942int, 0x1a00da89ed9c69ed7f1d2feb3e24a641079ad52486e2b7ba00dc9a9b50916e87fd5313e7442dd4b412ebaeec005bf67cint, 0x91af73dbf9bdf86fd53976750903cbc2dd3e8439a09da19eeedc9b40b7deb889c092d709e5b6f4c5a5a3d2dcc542f210int);
    }
    assert(pow(11, 0x340223d472ffcd3496374f6c869759aec8ee9709e70a257ece61a541ed61ec483d57fffd62a7ffff73fdfffnat) % (modulus() as int) == 0x1228432bef081d3b1d2733933c162855ae0eee321624418200fe27c6e6f51e23890bfce1ce5e5b7d81d4c4570697ba8bint) by {
        lemma_pow_step(11, 0x1a0111ea397fe69a4b1ba7b6434bacd764774b84f38512bf6730d2a0f6b0f6241eabfffeb153ffffb9fefffnat, 1, 0x1a00da89ed9c69ed7f1d2feb3e24a641079ad52486e2b7ba00dc9a9b50916e87fd5313e7442dd4b412ebaeec005bf67cint, 0x1228432bef081d3b1d2733933c162855ae0eee321624418200fe27c6e6f51e23890bfce1ce5e5b7d81d4c4570697ba8bint, 0x11e0702cf041c64fd59767bef832009530a9fa6424ea78b9b5e6a8189ecc0d0072375161d280ca4340237b13d2373de6fint);
    }
    assert(pow(11, 0x680447a8e5ff9a692c6e9ed90d2eb35d91dd2e13ce144afd9cc34a83dac3d8907aaffffac54ffffee7fbfffnat) % (modulus() as int) == 0x1995bddef8d6dff908600697666d6d42301aa92e98af9ca5658d17da5916faa35e7c9f6494ae5c58c134f375b1dd0323int) by {
        lemma_pow_step(11, 0x340223d472ffcd3496374f6c869759aec8ee9709e70a257ece61a541ed61ec483d57fffd62a7ffff73fdfffnat, 1, 0x1228432bef081d3b1d2733933c162855ae0eee321624418200fe27c6e6f51e23890bfce1ce5e5b7d81d4c4570697ba8bint, 0x1995bddef8d6dff908600697666d6d42301aa92e98af9ca5658d17da5916faa35e7c9f6494ae5c58c134f375b1dd0323int, 0x8b75dbf97649c5f75462dfb266e35748b4ac129527d1b122635396f54652da2a4ba7afd1e54b19ca3a501412b08a2d30int);
    }
    assert(pow(11, 0xd0088f51cbff34d258dd3db21a5d66bb23ba5c279c2895fb39869507b587b120f55ffff58a9ffffdcff7fffnat) % (modulus() as int) == 0x87b0ee03f329efc07a4fd41bf525cbee75bfef62667ff1aaebe82b902ebb6c77472021adebb6a380e11fb1bb1beef3bint) by {
        lemma_pow_step(11, 0x680447a8e5ff9a692c6e9ed90d2eb35d91dd2e13ce144afd9cc34a83dac3d8907aaffffac54ffffee7fbfffnat, 1, 0x1995bddef8d6dff908600697666d6d42301aa92e98af9ca5658d17da5916faa35e7c9f6494ae5c58c134f375b1dd0323int, 0x87b0ee03f329efc07a4fd41bf525cbee75bfef62667ff1aaebe82b902ebb6c77472021adebb6a380e11fb1bb1beef3bint, 0x114e594e4094ff346cd2e8086062c0975cf4c2a1252d37f2949234e9255ffd3d3db17b040f84c4d2721640c97ac6de238int);
    }
    assert(pow(11, 0x1a0111ea397fe69a4b1ba7b6434bacd764774b84f38512bf6730d2a0f6b0f6241eabfffeb153ffffb9feffffnat) % (modulus() as int) == 0xb87db56fa489e78681b94439a8fc535c98bee44ea38a8f1d8bcfdbfbf8a1ba94edcbc2bdcbd0ec637f847c2ea9ea9bdint) by {
        lemma_pow_step(11, 0xd0088f51cbff34d258dd3db21a5d66bb23ba5c279c2895fb39869507b587b120f55ffff58a9ffffdcff7fffnat, 1, 0x87b0ee03f329efc07a4fd41bf525cbee75bfef62667ff1aaebe82b902ebb6c77472021adebb6a380e11fb1bb1beef3bint, 0xb87db56fa489e78681b94439a8fc535c98bee44ea38a8f1d8bcfdbfbf8a1ba94edcbc2bdcbd0ec637f847c2ea9ea9bdint, 0x1e6c79ba716884cfbcd9ff84ee26723fe96e13d2b18e0b2a5f6c00710609f55bbf44e7d5250b2823747bbec323302d82int);
    }
    assert(pow(11, 0x340223d472ffcd3496374f6c869759aec8ee9709e70a257ece61a541ed61ec483d57fffd62a7ffff73fdffffnat) % (modulus() as int) == 0x2696ea053462f4c2e1b638ffc0b95db351c6b95cf88207701bb51b6f0ca829dd17de40071a025cef6cb6ddce7786b72int) by {
        lemma_pow_step(11, 0x1a0111ea397fe69a4b1ba7b6434bacd764774b84f38512bf6730d2a0f6b0f6241eabfffeb153ffffb9feffffnat, 1, 0xb87db56fa489e78681b94439a8fc535c98bee44ea38a8f1d8bcfdbfbf8a1ba94edcbc2bdcbd0ec637f847c2ea9ea9bdint, 0x2696ea053462f4c2e1b638ffc0b95db351c6b95cf88207701bb51b6f0ca829dd17de40071a025cef6cb6ddce7786b72int, 0x383deeb5ed35b11b1c7185166548b0b77d2e2e6fe9c7e8a45088e078e0bfe540840dba5d39d8b4ace451e51382a38453int);
    }
    assert(pow(11, 0x680447a8e5ff9a692c6e9ed90d2eb35d91dd2e13ce144afd9cc34a83dac3d8907aaffffac54ffffee7fbffffnat) % (modulus() as int) == 0xdf8f0b862eb26654098b0ce333bac83307ec952d2a9962774b5199aebdc39dee44bc562090b65d24c65df404ab28348int) by {
        lemma_pow_step(11, 0x340223d472ffcd3496374f6c869759aec8ee9709e70a257ece61a541ed61ec483d57fffd62a7ffff73fdffffnat, 1, 0x2696ea053462f4c2e1b638ffc0b95db351c6b95cf88207701bb51b6f0ca829dd17de40071a025cef6cb6ddce7786b72int, 0xdf8f0b862eb26654098b0ce333bac83307ec952d2a9962774b5199aebdc39dee44bc562090b65d24c65df404ab28348int, 0x275ec7e5bbabf379988ed14aec36fb31b667d201d059b2224b169d4b660c27764c64237e2b9e47c2c170cad105ccd6cint);
    }
}

proof fn lemma_z_pow_part_35()
    ensures
        pow(11, 0x1a0111ea397fe69a4b1ba7b6434bacd764774b84f38512bf6730d2a0f6b0f6241eabfffeb153ffffb9fefffffffnat) % (modulus() as int) == 0x1b31c0c4a0f623b0df94282ae2f8dbc30ed91d4fdc4dda01309074c27492eff7b4e6462a1b2e0ae2b73d76fec5ab89dint,
{
    lemma_z_pow_part_34();
    assert(pow(11, 0xd0088f51cbff34d258dd3db21a5d66bb23ba5c279c2895fb39869507b587b120f55ffff58a9ffffdcff7ffffnat) % (modulus() as int) == 0x54271eb491aaf61f7e308286723a1a85782fb5a3aa71040f7ec55aeab3a10b7003f0c5391b4262147abc15a0bc80eebint) by {
        lemma_pow_step(11, 0x680447a8e5ff9a692c6e9ed90d2eb35d91dd2e13ce144afd9cc34a83dac3d8907aaffffac54ffffee7fbffffnat, 1, 0xdf8f0b862eb26654098b0ce333bac83307ec952d2a9962774b5199aebdc39dee44bc562090b65d24c65df404ab28348int, 0x54271eb491aaf61f7e308286723a1a85782fb5a3aa71040f7ec55aeab3a10b7003f0c5391b4262147abc15a0bc80eebint, 0x52955c8248d469dad57b27cf917b3e5b5156224c1eeed2a2064a94fae69645761915bf98142d985238f9ea52ddf21f7fint);
    }
    assert(pow(11, 0x1a0111ea397fe69a4b1ba7b6434bacd764774b84f38512bf6730d2a0f6b0f6241eabfffeb153ffffb9fefffffnat) % (modulus() as int) == 0x4c70f354dd0f80dbaf3da39308d34cf9244c28fd68ac971fbfd6abcdcbf924172ac38b70de2739a00501d793e3f69ceint) by {
        lemma_pow_step(11, 0xd0088f51cbff34d258dd3db21a5d66bb23ba5c279c2895fb39869507b587b120f55ffff58a9ffffdcff7ffffnat, 1, 0x54271eb491aaf61f7e308286723a1a85782fb5a3aa71040f7ec55aeab3a10b7003f0c5391b4262147abc15a0bc80eebint, 0x4c70f354dd0f80dbaf3da39308d34cf9244c28fd68ac971fbfd6abcdcbf924172ac38b70de2739a00501d793e3f69ceint, 0xbb39eda2ab69737d62a0332fb69f68629341aa11d914ea5fcda0bc3127e6036dabb15b0b5afb897bc273270ce90c56fint);
    }
    assert(pow(11, 0x340223d472ffcd3496374f6c869759aec8ee9709e70a257ece61a541ed61ec483d57fffd62a7ffff73fdfffffnat) % (modulus() as int) == 0xb491763949e5ef2f14c5590e51ab7cef5f22015d8743af4862b553e1c157153fa9ba9cb720ed82cdfd4d57624177959int) by {
        lemma_pow_step(11, 0x1a0111ea397fe69a4b1ba7b6434bacd764774b84f38512bf6730d2a0f6b0f6241eabfffeb153ffffb9fefffffnat, 1, 0x4c70f354dd0f80dbaf3da39308d34cf9244c28fd68ac971fbfd6abcdcbf924172ac38b70de2739a00501d793e3f69ceint, 0xb491763949e5ef2f14c5590e51ab7cef5f22015d8743af4862b553e1c157153fa9ba9cb720ed82cdfd4d57624177959int, 0x9a7c02e7e3ed3f6601d1b9ebc85a85ad566bda781b4364082f8989b9a89840684269c4e2aa6f29f66fdda54ece56e39int);
    }
    assert(pow(11, 0x680447a8e5ff9a692c6e9ed90d2eb35d91dd2e13ce144afd9cc34a83dac3d8907aaffffac54ffffee7fbfffffnat) % (modulus() as int) == 0x6aea3e05ec1be2e0f3c9eb4f24426288643886522b3db30c4565e0601ccdea16af418a8d799a7b69504de3283d12efcint) by {
        lemma_pow_step(11, 0x340223d472ffcd3496374f6c869759aec8ee9709e70a257ece61a541ed61ec483d57fffd62a7ffff73fdfffffnat, 1, 0xb491763949e5ef2f14c5590e51ab7cef5f22015d8743af4862b553e1c157153fa9ba9cb720ed82cdfd4d57624177959int, 0x6aea3e05ec1be2e0f3c9eb4f24426288643886522b3db30c4565e0601ccdea16af418a8d799a7b69504de3283d12efcint, 0x35e0278ffb58ce35e8ef8372df2160283a802ac08582456246261c109df4a48e222e44a26469b378323ecad34694d21dint);
    }
    assert(pow(11, 0xd0088f51cbff34d258dd3db21a5d66bb23ba5c279c2895fb39869507b587b120f55ffff58a9ffffdcff7fffffnat) % (modulus() as int) == 0xa87e1a887b11138090f9c114d8155da948d78333977387b8101c456caa1c9c3ea321d05bbc9bc2ab4aa12b72611f16bint) by {
        lemma_pow_step(11, 0x680447a8e5ff9a692c6e9ed90d2eb35d91dd2e13ce144afd9cc34a83dac3d8907aaffffac54ffffee7fbfffffnat, 1, 0x6aea3e05ec1be2e0f3c9eb4f24426288643886522b3db30c4565e0601ccdea16af418a8d799a7b69504de3283d12efcint, 0xa87e1a887b11138090f9c114d8155da948d78333977387b8101c456caa1c9c3ea321d05bbc9bc2ab4aa12b72611f16bint, 0x12e356a6dc76127e3df3c713f98b83f6b0c8bddda6c69f7009519e0a0acb674919a269c1b740fe025f2c5064eea1b5cfint);
    }
    assert(pow(11, 0x1a0111ea397fe69a4b1ba7b6434bacd764774b84f38512bf6730d2a0f6b0f6241eabfffeb153ffffb9feffffffnat) % (modulus() as int) == 0x13aeb07e458e27920444b9bcaff96c23b29323b267bf67bcc0765bbf46b3acaeb881458ad2b02dc3aa0471ec9204f6baint) by {
        lemma_pow_step(11, 0xd0088f51cbff34d258dd3db21a5d66bb23ba5c279c2895fb39869507b587b120f55ffff58a9ffffdcff7fffffnat, 1, 0xa87e1a887b11138090f9c114d8155da948d78333977387b8101c456caa1c9c3ea321d05bbc9bc2ab4aa12b72611f16bint, 0x13aeb07e458e27920444b9bcaff96c23b29323b267bf67bcc0765bbf46b3acaeb881458ad2b02dc3aa0471ec9204f6baint, 0x2ee91e7e7d427921c9010d090e3a631cfbecde5dd2b7af71e9a448d9699333355cd623369ae949104aee42aa139115abint);
    }
    assert(pow(11, 0x340223d472ffcd3496374f6c869759aec8ee9709e70a257ece61a541ed61ec483d57fffd62a7ffff73fdffffffnat) % (modulus() as int) == 0x108e664ac56e2bb0c12abadaae2c6f7e03f7f02037ac978fad10ab54b55f5b42ce0d03bb98c88e89bfb9d3bc9eda7f03int) by {
        lemma_pow_step(11, 0x1a0111ea397fe69a4b1ba7b6434bacd764774b84f38512bf6730d2a0f6b0f6241eabfffeb153ffffb9feffffffnat, 1, 0x13aeb07e458e27920444b9bcaff96c23b29323b267bf67bcc0765bbf46b3acaeb881458ad2b02dc3aa0471ec9204f6baint, 0x108e664ac56e2bb0c12abadaae2c6f7e03f7f02037ac978fad10ab54b55f5b42ce0d03bb98c88e89bfb9d3bc9eda7f03int, 0xa3df3bfb79d9f502c896d06fb2a16ba7d23ee4a0def530b8c265da65b2b31210d97e87005225bc96e98aa0bdc8e5669bint);
    }
    assert(pow(11, 0x680447a8e5ff9a692c6e9ed90d2eb35d91dd2e13ce144afd9cc34a83dac3d8907aaffffac54ffffee7fbffffffnat) % (modulus() as int) == 0x160cc7d697d326e008fd6b841cf8d801e87204f378dac6bf9912c83750a10005d86d620e09cebd28d2f215a95f4bba28int) by {
        lemma_pow_step(11, 0x340223d472ffcd3496374f6c869759aec8ee9709e70a257ece61a541ed61ec483d57fffd62a7ffff73fdffffffnat, 1, 0x108e664ac56e2bb0c12abadaae2c6f7e03f7f02037ac978fad10ab54b55f5b42ce0d03bb98c88e89bfb9d3bc9eda7f03int, 0x160cc7d697d326e008fd6b841cf8d801e87204f378dac6bf9912c83750a10005d86d620e09cebd28d2f215a95f4bba28int, 0x73f361649f067efa706d4e75917083a206fbac09598ba636c426582805ed5b3b8117a60c972238a38bd21925b6ed0cb1int);
    }
    assert(pow(11, 0xd0088f51cbff34d258dd3db21a5d66bb23ba5c279c2895fb39869507b587b120f55ffff58a9ffffdcff7ffffffnat) % (modulus() as int) == 0x8cb3ec6c6444e1c500d8125d2d86db5f1bac15da87a06b1b8d5b57bfa85d51d2ff192b616e51a2d3ea7e1d07afaa98eint) by {
        lemma_pow_step(11, 0x680447a8e5ff9a692c6e9ed90d2eb35d91dd2e13ce144afd9cc34a83dac3d8907aaffffac54ffffee7fbffffffnat, 1, 0x160cc7d697d326e008fd6b841cf8d801e87204f378dac6bf9912c83750a10005d86d620e09cebd28d2f215a95f4bba28int, 0x8cb3ec6c6444e1c500d8125d2d86db5f1bac15da87a06b1b8d5b57bfa85d51d2ff192b616e51a2d3ea7e1d07afaa98eint, 0xcdaaa534b0dcebac348c7ae8dd48ad442093ded8c8ac83b7ad85364554a3b5456572495f7574ec855d8f8f312538f196int);
    }
    assert(pow(11, 0x1a0111ea397fe69a4b1ba7b6434bacd764774b84f38512bf6730d2a0f6b0f6241eabfffeb153ffffb9fefffffffnat) % (modulus() as int) == 0x1b31c0c4a0f623b0df94282ae2f8dbc30ed91d4fdc4dda01309074c27492eff7b4e6462a1b2e0ae2b73d76fec5ab89dint) by {
        lemma_pow_step(11, 0xd0088f51cbff34d258dd3db21a5d66bb23ba5c279c2895fb39869507b587b120f55ffff58a9ffffdcff7ffffffnat, 1, 0x8cb3ec6c6444e1c500d8125d2d86db5f1bac15da87a06b1b8d5b57bfa85d51d2ff192b616e51a2d3ea7e1d07afaa98eint, 0x1b31c0c4a0f623b0df94282ae2f8dbc30ed91d4fdc4dda01309074c27492eff7b4e6462a1b2e0ae2b73d76fec5ab89dint, 0x20b66da76556baeb3f291a4de07beebf37e4a827bd54df6025190ef59c465a973b4398683d31ecb989f70f745a9af96dint);
    }
}

proof fn lemma_z_pow_part_36()
    ensures
        pow(11, 0x680447a8e5ff9a692c6e9ed90d2eb35d91dd2e13ce144afd9cc34a83dac3d8907aaffffac54ffffee7fbfffffffeanat) % (modulus() as int) == 0x1242bcbc4e4bfcd632d9c10aa0968b764b3a155df1d1ac06e79fff23ac2433c228b404b86e7c774210fb6088a260061cint,
{
    lemma_z_pow_part_35();
    assert(pow(11, 0x340223d472ffcd3496374f6c869759aec8ee9709e70a257ece61a541ed61ec483d57fffd62a7ffff73fdfffffffnat) % (modulus() as int) == 0xab39aac697ce2018f2aa98cbff498ee9c099f84c5336d6b40efdeee50aa0527da08ec9b9f9eb368028910fd7a65883dint) by {
        lemma_pow_step(11, 0x1a0111ea397fe69a4b1ba7b6434bacd764774b84f38512bf6730d2a0f6b0f6241eabfffeb153ffffb9fefffffffnat, 1, 0x1b31c0c4a0f623b0df94282ae2f8dbc30ed91d4fdc4dda01309074c27492eff7b4e6462a1b2e0ae2b73d76fec5ab89dint, 0xab39aac697ce2018f2aa98cbff498ee9c099f84c5336d6b40efdeee50aa0527da08ec9b9f9eb368028910fd7a65883dint, 0x138d4307d29c954f190317c21fb67566137037e5fabe78cbc8463319ff62c91a8cecf6a158ba0b4b0e2a3384dc980b2int);
    }
    assert(pow(11, 0x680447a8e5ff9a692c6e9ed90d2eb35d91dd2e13ce144afd9cc34a83dac3d8907aaffffac54ffffee7fbfffffffnat) % (modulus() as int) == 0xa74e925ae98f743aeb48d251b7f8f78a26b3cce6ab6a4231ef5b2c68e4f07006d786f9a4f94eeb30287d08ed84321c4int) by {
        lemma_pow_step(11, 0x340223d472ffcd3496374f6c869759aec8ee9709e70a257ece61a541ed61ec483d57fffd62a7ffff73fdfffffffnat, 1, 0xab39aac697ce2018f2aa98cbff498ee9c099f84c5336d6b40efdeee50aa0527da08ec9b9f9eb368028910fd7a65883dint, 0xa74e925ae98f743aeb48d251b7f8f78a26b3cce6ab6a4231ef5b2c68e4f07006d786f9a4f94eeb30287d08ed84321c4int, 0x3071d056a4b52a447f82a22664c6076cd4e2ef3309f6e0f61339ff7b5ada65bbe30c7965e9483f4aed747db442924a5dint);
    }
    assert(pow(11, 0xd0088f51cbff34d258dd3db21a5d66bb23ba5c279c2895fb39869507b587b120f55ffff58a9ffffdcff7fffffffnat) % (modulus() as int) == 0x698bf79f7758ad3984c848204429ed5d54405ef06092eedc3c7770e31043fe3631863d0a430577b5946c97496f94e3bint) by {
        lemma_pow_step(11, 0x680447a8e5ff9a692c6e9ed90d2eb35d91dd2e13ce144afd9cc34a83dac3d8907aaffffac54ffffee7fbfffffffnat, 1, 0xa74e925ae98f743aeb48d251b7f8f78a26b3cce6ab6a4231ef5b2c68e4f07006d786f9a4f94eeb30287d08ed84321c4int, 0x698bf79f7758ad3984c848204429ed5d54405ef06092eedc3c7770e31043fe3631863d0a430577b5946c97496f94e3bint, 0x2e40b2f00a06b855cdc25a54e53b56589d402ce2cc4e5c5a16d25e89ab68f927004ce5672c56b2c6768cb758c302f55fint);
    }
    assert(pow(11, 0x1a0111ea397fe69a4b1ba7b6434bacd764774b84f38512bf6730d2a0f6b0f6241eabfffeb153ffffb9feffffffffnat) % (modulus() as int) == 0x1286eb338c78554a0b954e5ffd3097cf865d9cc4457372d7bc2c34c6d63fda2387eaef7976f4bc17f7104335a60f7470int) by {
        lemma_pow_step(11, 0xd0088f51cbff34d258dd3db21a5d66bb23ba5c279c2895fb39869507b587b120f55ffff58a9ffffdcff7fffffffnat, 1, 0x698bf79f7758ad3984c848204429ed5d54405ef06092eedc3c7770e31043fe3631863d0a430577b5946c97496f94e3bint, 0x1286eb338c78554a0b954e5ffd3097cf865d9cc4457372d7bc2c34c6d63fda2387eaef7976f4bc17f7104335a60f7470int, 0x12685e4f62f8366104b8a82ab36cee99ed00709533fe893f10d50baaedee80fd3f7c5e577c0d25c73b773fc3a5a8d769int);
    }
    assert(pow(11, 0x340223d472ffcd3496374f6c869759aec8ee9709e70a257ece61a541ed61ec483d57fffd62a7ffff73fdffffffffnat) % (modulus() as int) == 0x298c835be5f41e7ce4e5d6f67d4e91991626f0ebb145e99a2e20fdee927f142a50c15eb13fd63133af968d3b06d3937int) by {
        lemma_pow_step(11, 0x1a0111ea397fe69a4b1ba7b6434bacd764774b84f38512bf6730d2a0f6b0f6241eabfffeb153ffffb9feffffffffnat, 1, 0x1286eb338c78554a0b954e5ffd3097cf865d9cc4457372d7bc2c34c6d63fda2387eaef7976f4bc17f7104335a60f7470int, 0x298c835be5f41e7ce4e5d6f67d4e91991626f0ebb145e99a2e20fdee927f142a50c15eb13fd63133af968d3b06d3937int, 0x9132b7720d0ab8275f81adf8ee93bc5b92fdc8ae52fc0a61dfef4de0d40ca660347303c1f24591191d0962b770df255bint);
    }
    assert(pow(11, 0x680447a8e5ff9a692c6e9ed90d2eb35d91dd2e13ce144afd9cc34a83dac3d8907aaffffac54ffffee7fbfffffffenat) % (modulus() as int) == 0x45c2b01e3d10ec24fa67be521db49a1fb2d18f969248436d6a4b48bfa42d9c77bd3ad22423503720ca036cbe66a46e1int) by {
        lemma_pow_step(11, 0x340223d472ffcd3496374f6c869759aec8ee9709e70a257ece61a541ed61ec483d57fffd62a7ffff73fdffffffffnat, 0, 0x298c835be5f41e7ce4e5d6f67d4e91991626f0ebb145e99a2e20fdee927f142a50c15eb13fd63133af968d3b06d3937int, 0x45c2b01e3d10ec24fa67be521db49a1fb2d18f969248436d6a4b48bfa42d9c77bd3ad22423503720ca036cbe66a46e1int, 0x4262c696a371d98873b57699fc6be00208a1fff7aad60a47eeebb512bc5008b4d582473dd616555fc1bbda466fc8d0int);
    }
    assert(pow(11, 0xd0088f51cbff34d258dd3db21a5d66bb23ba5c279c2895fb39869507b587b120f55ffff58a9ffffdcff7fffffffdnat) % (modulus() as int) == 0x45e167825d4b345b4cf3903d7d02a01ce722f8bdae80e8734fc50573e14365c6599100895c3d2951cabc60badca52c4int) by {
        lemma_pow_step(11, 0x680447a8e5ff9a692c6e9ed90d2eb35d91dd2e13ce144afd9cc34a83dac3d8907aaffffac54ffffee7fbfffffffenat, 1, 0x45c2b01e3d10ec24fa67be521db49a1fb2d18f969248436d6a4b48bfa42d9c77bd3ad22423503720ca036cbe66a46e1int, 0x45e167825d4b345b4cf3903d7d02a01ce722f8bdae80e8734fc50573e14365c6599100895c3d2951cabc60badca52c4int, 0x80a95a0e934038c6c76ad4c8de22efcb0dab8d07be29652b1e005ef1ca08f2b4b27e5e505912964c79588f458a41195int);
    }
    assert(pow(11, 0x1a0111ea397fe69a4b1ba7b6434bacd764774b84f38512bf6730d2a0f6b0f6241eabfffeb153ffffb9feffffffffanat) % (modulus() as int) == 0x682ed9b7fd411bd0ebfed91c1a1c2edc9ece465d6cce857083f5486f226ee79a76817d3537ef7ec6ee031c7a578cfecint) by {
        lemma_pow_step(11, 0xd0088f51cbff34d258dd3db21a5d66bb23ba5c279c2895fb39869507b587b120f55ffff58a9ffffdcff7fffffffdnat, 0, 0x45e167825d4b345b4cf3903d7d02a01ce722f8bdae80e8734fc50573e14365c6599100895c3d2951cabc60badca52c4int, 0x682ed9b7fd411bd0ebfed91c1a1c2edc9ece465d6cce857083f5486f226ee79a76817d3537ef7ec6ee031c7a578cfecint, 0xbbc9d20d4b428df841b6a34d9fd753b2b73f6c4e14b7f66f4517134096c3fcc23f5640b3df57af3f0f7eb3f238026cint);
    }
    assert(pow(11, 0x340223d472ffcd3496374f6c869759aec8ee9709e70a257ece61a541ed61ec483d57fffd62a7ffff73fdffffffff5nat) % (modulus() as int) == 0x60589dd741bbefb8c57b5edb039fcb83f777eb5bf8ac2dbb2349f49eafe3dcbfaead2c0d11846b291793accd64e1e63int) by {
        lemma_pow_step(11, 0x1a0111ea397fe69a4b1ba7b6434bacd764774b84f38512bf6730d2a0f6b0f6241eabfffeb153ffffb9feffffffffanat, 1, 0x682ed9b7fd411bd0ebfed91c1a1c2edc9ece465d6cce857083f5486f226ee79a76817d3537ef7ec6ee031c7a578cfecint, 0x60589dd741bbefb8c57b5edb039fcb83f777eb5bf8ac2dbb2349f49eafe3dcbfaead2c0d11846b291793accd64e1e63int, 0x11ef6184d0b68c4fa9a9b08cc55e5057c699f1fc57d000c86340f1e60bdf246590ceb708a3e299979b8d0351678c5867int);
    }
    assert(pow(11, 0x680447a8e5ff9a692c6e9ed90d2eb35d91dd2e13ce144afd9cc34a83dac3d8907aaffffac54ffffee7fbfffffffeanat) % (modulus() as int) == 0x1242bcbc4e4bfcd632d9c10aa0968b764b3a155df1d1ac06e79fff23ac2433c228b404b86e7c774210fb6088a260061cint) by {
        lemma_pow_step(11, 0x340223d472ffcd3496374f6c869759aec8ee9709e70a257ece61a541ed61ec483d57fffd62a7ffff73fdffffffff5nat, 0, 0x60589dd741bbefb8c57b5edb039fcb83f777eb5bf8ac2dbb2349f49eafe3dcbfaead2c0d11846b291793accd64e1e63int, 0x1242bcbc4e4bfcd632d9c10aa0968b764b3a155df1d1ac06e79fff23ac2433c228b404b86e7c774210fb6088a260061cint, 0x164f70aef26fb12d11087d658ee9d779994b2446f5d5e7cb550e0aaa324d9a4a8b0a66d507ba71f1d480cdf3934fc87int);
    }
}

proof fn lemma_z_pow_part_37()
    ensures
        pow(11, 0xd0088f51cbff34d258dd3db21a5d66bb23ba5c279c2895fb39869507b587b120f55ffff58a9ffffdcff7fffffffd555nat) % (modulus() as int) == 0x1a0111ea397fe69a4b1ba7b6434bacd764774b84f38512bf6730d2a0f6b0f6241eabfffeb153ffffb9feffffffffaaaaint,
{
    lemma_z_pow_part_36();
    assert(pow(11, 0xd0088f51cbff34d258dd3db21a5d66bb23ba5c279c2895fb39869507b587b120f55ffff58a9ffffdcff7fffffffd5nat) % (modulus() as int) == 0x1560004949f0cc91d191cdf656a7f1e70134731d260ee2f6ccf7f32046a9c51331a41bbdb48f23607824d5248842f99cint) by {
        lemma_pow_step(11, 0x680447a8e5ff9a692c6e9ed90d2eb35d91dd2e13ce144afd9cc34a83dac3d8907aaffffac54ffffee7fbfffffffeanat, 1, 0x1242bcbc4e4bfcd632d9c10aa0968b764b3a155df1d1ac06e79fff23ac2433c228b404b86e7c774210fb6088a260061cint, 0x1560004949f0cc91d191cdf656a7f1e70134731d260ee2f6ccf7f32046a9c51331a41bbdb48f23607824d5248842f99cint, 0x8d0db531f949760f1b6b80668eb7dac8193d3f2c73796a24fa6ea98a9c5982d407d6084b99a662ebd841b355d942c83cint);
    }
    assert(pow(11, 0x1a0111ea397fe69a4b1ba7b6434bacd764774b84f38512bf6730d2a0f6b0f6241eabfffeb153ffffb9feffffffffaanat) % (modulus() as int) == 0x4bd56e5c6f6017d66233b91488c06d7157a2a63bd254c462fd71f821d294643e43479c36c25f55cc73a4489b5684758int) by {
        lemma_pow_step(11, 0xd0088f51cbff34d258dd3db21a5d66bb23ba5c279c2895fb39869507b587b120f55ffff58a9ffffdcff7fffffffd5nat, 0, 0x1560004949f0cc91d191cdf656a7f1e70134731d260ee2f6ccf7f32046a9c51331a41bbdb48f23607824d5248842f99cint, 0x4bd56e5c6f6017d66233b91488c06d7157a2a63bd254c462fd71f821d294643e43479c36c25f55cc73a4489b5684758int, 0x1191e4e82e26ddcf3e5607e5d31389c7e374d4233f9c6a5c6b7febe48d84006e637a51ba21c50e5a1c310c96c661af28int);
    }
    assert(pow(11, 0x340223d472ffcd3496374f6c869759aec8ee9709e70a257ece61a541ed61ec483d57fffd62a7ffff73fdffffffff55nat) % (modulus() as int) == 0x23396197f6df2ac86b12349bb0b99775e1550d31f4c358cdb67d960536b6abc46c27a6fdc9a4cec5089f589f80b307aint) by {
        lemma_pow_step(11, 0x1a0111ea397fe69a4b1ba7b6434bacd764774b84f38512bf6730d2a0f6b0f6241eabfffeb153ffffb9feffffffffaanat, 1, 0x4bd56e5c6f6017d66233b91488c06d7157a2a63bd254c462fd71f821d294643e43479c36c25f55cc73a4489b5684758int, 0x23396197f6df2ac86b12349bb0b99775e1550d31f4c358cdb67d960536b6abc46c27a6fdc9a4cec5089f589f80b307aint, 0x9809e9b9e888cab9ef2d30844cbf7d61d53dd684bc61773c67832e26c67da932d35a5a0ac281f91e38d70ce245024d2int);
    }
    assert(pow(11, 0x680447a8e5ff9a692c6e9ed90d2eb35d91dd2e13ce144afd9cc34a83dac3d8907aaffffac54ffffee7fbfffffffeaanat) % (modulus() as int) == 0x17762acd221373640843e0150445e7435189a717c98827b11443364a0d0c17de9e215eaf89d681cb87cab2679f8f0c26int) by {
        lemma_pow_step(11, 0x340223d472ffcd3496374f6c869759aec8ee9709e70a257ece61a541ed61ec483d57fffd62a7ffff73fdffffffff55nat, 0, 0x23396197f6df2ac86b12349bb0b99775e1550d31f4c358cdb67d960536b6abc46c27a6fdc9a4cec5089f589f80b307aint, 0x17762acd221373640843e0150445e7435189a717c98827b11443364a0d0c17de9e215eaf89d681cb87cab2679f8f0c26int, 0x2fb68eb9549c7059d52af58fa877547d898e3d25faecc7ceb1101c1178e682496ca341f9f85bd395a1ce0ca64ac9faint);
    }
    assert(pow(11, 0xd0088f51cbff34d258dd3db21a5d66bb23ba5c279c2895fb39869507b587b120f55ffff58a9ffffdcff7fffffffd55nat) % (modulus() as int) == 0x13d1225910f7d5957891eed3abcbe67962b2d8a44ea4d1fa85c974714e2a348f674c5d6e902891ccc934649222a6dd55int) by {
        lemma_pow_step(11, 0x680447a8e5ff9a692c6e9ed90d2eb35d91dd2e13ce144afd9cc34a83dac3d8907aaffffac54ffffee7fbfffffffeaanat, 1, 0x17762acd221373640843e0150445e7435189a717c98827b11443364a0d0c17de9e215eaf89d681cb87cab2679f8f0c26int, 0x13d1225910f7d5957891eed3abcbe67962b2d8a44ea4d1fa85c974714e2a348f674c5d6e902891ccc934649222a6dd55int, 0xe8d7faa1db20ed48f77a4e926fbaeff27e9fae12880a829a735badd8668bdfbd3428c4ed5649cbdb0ef85746f22ab225int);
    }
    assert(pow(11, 0x1a0111ea397fe69a4b1ba7b6434bacd764774b84f38512bf6730d2a0f6b0f6241eabfffeb153ffffb9feffffffffaaanat) % (modulus() as int) == 0x157810d2a104ec2518d5a383d78e3c6dbbb678d8d105f2df562ad5df75f5fbaeb74731ec779d62dc4d0135e108bf006dint) by {
        lemma_pow_step(11, 0xd0088f51cbff34d258dd3db21a5d66bb23ba5c279c2895fb39869507b587b120f55ffff58a9ffffdcff7fffffffd55nat, 0, 0x13d1225910f7d5957891eed3abcbe67962b2d8a44ea4d1fa85c974714e2a348f674c5d6e902891ccc934649222a6dd55int, 0x157810d2a104ec2518d5a383d78e3c6dbbb678d8d105f2df562ad5df75f5fbaeb74731ec779d62dc4d0135e108bf006dint, 0xf1a119aa312f7b706b2936ec46438cfed91a55f533c717c7ef18e75adca4e67e90a689ccdbce15a9e61cbd297ee9964int);
    }
    assert(pow(11, 0x340223d472ffcd3496374f6c869759aec8ee9709e70a257ece61a541ed61ec483d57fffd62a7ffff73fdffffffff555nat) % (modulus() as int) == 0x705cfaaa3e460ab0ff57199eeef08c9d48db67767da4d98ee02784447ad9c498da9cc4229534a78c8ea6aae3417361cint) by {
        lemma_pow_step(11, 0x1a0111ea397fe69a4b1ba7b6434bacd764774b84f38512bf6730d2a0f6b0f6241eabfffeb153ffffb9feffffffffaaanat, 1, 0x157810d2a104ec2518d5a383d78e3c6dbbb678d8d105f2df562ad5df75f5fbaeb74731ec779d62dc4d0135e108bf006dint, 0x705cfaaa3e460ab0ff57199eeef08c9d48db67767da4d98ee02784447ad9c498da9cc4229534a78c8ea6aae3417361cint, 0xc2f8f7d646e80814acad0a558434c99220a17c00ad3dc81bf5fe40f9a628e35a599e555350dc073cfeffa8c1845b5935int);
    }
    assert(pow(11, 0x680447a8e5ff9a692c6e9ed90d2eb35d91dd2e13ce144afd9cc34a83dac3d8907aaffffac54ffffee7fbfffffffeaaanat) % (modulus() as int) == 0x1f7462c8b6cbf74db38f4a9a3d71bda12f01df4948d09ff046edbdd403fc31088b69520ee5c57fb7cc51062bde821b8int) by {
        lemma_pow_step(11, 0x340223d472ffcd3496374f6c869759aec8ee9709e70a257ece61a541ed61ec483d57fffd62a7ffff73fdffffffff555nat, 0, 0x705cfaaa3e460ab0ff57199eeef08c9d48db67767da4d98ee02784447ad9c498da9cc4229534a78c8ea6aae3417361cint, 0x1f7462c8b6cbf74db38f4a9a3d71bda12f01df4948d09ff046edbdd403fc31088b69520ee5c57fb7cc51062bde821b8int, 0x1e58485fb823d6aa1b67226dce8bbd19df0afe13770ef8b55053feeb3f181f225a1f39d87049798313ca10147b71408int);
    }
    assert(pow(11, 0xd0088f51cbff34d258dd3db21a5d66bb23ba5c279c2895fb39869507b587b120f55ffff58a9ffffdcff7fffffffd555nat) % (modulus() as int) == 0x1a0111ea397fe69a4b1ba7b6434bacd764774b84f38512bf6730d2a0f6b0f6241eabfffeb153ffffb9feffffffffaaaaint) by {
        lemma_pow_step(11, 0x680447a8e5ff9a692c6e9ed90d2eb35d91dd2e13ce144afd9cc34a83dac3d8907aaffffac54ffffee7fbfffffffeaaanat, 1, 0x1f7462c8b6cbf74db38f4a9a3d71bda12f01df4948d09ff046edbdd403fc31088b69520ee5c57fb7cc51062bde821b8int, 0x1a0111ea397fe69a4b1ba7b6434bacd764774b84f38512bf6730d2a0f6b0f6241eabfffeb153ffffb9feffffffffaaaaint, 0x1a285befb9fcec8739ede622fe2a7fc21be41584b992f045b6bf03924f754686dc6546be8bd52e59d4a96538c527c42int);
    }
}

/// `11^((p - 1) / 2) = p - 1`: Euler's criterion calls 11 a non-residue.
pub proof fn lemma_z_euler()
    ensures
        pow(11, half_order()) % (modulus() as int) == modulus() - 1,
{
    lemma_z_pow_part_37();
}

} // verus!
