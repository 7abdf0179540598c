//! The certificate of the isogeny's law: the coefficient lists of the
//! products it rests on, each built by Horner's rule on its left factor,
//! and the steps that carry them over to values.

use crate::horner::{congruent, times, lemma_times_zero, lemma_congruent_refl, lemma_eval_ends, lemma_eval_level, lemma_horner_level, lemma_product_level};
use crate::isogeny::{iso_x_den, iso_x_num, iso_y_den, iso_y_num, poly_eval};
use vstd::prelude::*;

verus! {

pub(crate) open spec fn den_root_0(x: int) -> int {
    0x133341fb0962a34cb0504a9c4fada0a5090d38679b4c040d5d1c3afb023a3409fcc0815fea66d8b02bbef9c8b5a66e07int + times(x, den_root_1(x))
}

pub(crate) open spec fn den_root_1(x: int) -> int {
    0x264908af037bcede00d054cf5d4775e83eb6cf63c76b969f8ed174fb59fcff78d201f46f6cfc4ed6552e59ce75177b0int + times(x, den_root_2(x))
}

pub(crate) open spec fn den_root_2(x: int) -> int {
    0x1335c502c1f54c49aceea65e87fd7203ba0f626f305fc0cfd606a5dae9f3c8e81a4b3b69600129fabd307c69bf319d39int + times(x, den_root_3(x))
}

pub(crate) open spec fn den_root_3(x: int) -> int {
    0x94440f65f408a6e930e16e3e92dd17bf60d6e9679a8d3d58593de55ac23703042d609537eb3549aac234d896ca82944int + times(x, den_root_4(x))
}

pub(crate) open spec fn den_root_4(x: int) -> int {
    0x4afe09d5cf4956a23b6b71f59d2b3407b415a774b7be81bbb6fa99cbc798e0ac98ba725a5bc328016b1c268b4766e85int + times(x, den_root_5(x))
}

pub(crate) open spec fn den_root_5(x: int) -> int {
    0x1int + times(x, 0int)
}

pub(crate) open spec fn curve_0(x: int) -> int {
    0x12e2908d11688030018b12e8753eee3b2016c1f0f24f4070a0b9c14fcef35ef55a23215a316ceaa5d1cc48e98e172be0int + times(x, curve_1(x))
}

pub(crate) open spec fn curve_1(x: int) -> int {
    0x144698a3b8e9433d693a02c96d4982b0ea985383ee66a8d8e8981aefd881ac98936f8da0e0f97f5cf428082d584c1dint + times(x, curve_2(x))
}

pub(crate) open spec fn curve_2(x: int) -> int {
    0x0int + times(x, curve_3(x))
}

pub(crate) open spec fn curve_3(x: int) -> int {
    0x1int + times(x, 0int)
}

pub(crate) open spec fn y_num_0(x: int) -> int {
    0x90d97c81ba24ee0259d1f094980dcfa11ad138e48a869522b52af6c956543d3cd0c7aee9b3ba3c2be9845719707bb33int + times(x, y_num_1(x))
}

pub(crate) open spec fn y_num_1(x: int) -> int {
    0x134996a104ee5811d51036d776fb46831223e96c254f383d0f906343eb67ad34d6c56711962fa8bfe097e75a2e41c696int + times(x, y_num_2(x))
}

pub(crate) open spec fn y_num_2(x: int) -> int {
    0xcc786baa966e66f4a384c86a3b49942552e2d658a31ce2c344be4b91400da7d26d521628b00523b8dfe240c72de1f6int + times(x, y_num_3(x))
}

pub(crate) open spec fn y_num_3(x: int) -> int {
    0x1f86376e8981c217898751ad8746757d42aa7b90eeb791c09e4a3ec03251cf9de405aba9ec61deca6355c77b0e5f4cbint + times(x, y_num_4(x))
}

pub(crate) open spec fn y_num_4(x: int) -> int {
    0x8cc03fdefe0ff135caf4fe2a21529c4195536fbe3ce50b879833fd221351adc2ee7f8dc099040a841b6daecf2e8fedbint + times(x, y_num_5(x))
}

pub(crate) open spec fn y_num_5(x: int) -> int {
    0x16603fca40634b6a2211e11db8f0a6a074a7d0d4afadb7bd76505c3d3ad5544e203f6326c95a807299b23ab13633a5f0int + times(x, y_num_6(x))
}

pub(crate) open spec fn y_num_6(x: int) -> int {
    0x4ab0b9bcfac1bbcb2c977d027796b3ce75bb8ca2be184cb5231413c4d634f3747a87ac2460f415ec961f8855fe9d6f2int + times(x, y_num_7(x))
}

pub(crate) open spec fn y_num_7(x: int) -> int {
    0x987c8d5333ab86fde9926bd2ca6c674170a05bfe3bdd81ffd038da6c26c842642f64550fedfe935a15e4ca31870fb29int + times(x, y_num_8(x))
}

pub(crate) open spec fn y_num_8(x: int) -> int {
    0x9fc4018bd96684be88c9e221e4da1bb8f3abd16679dc26c1e8b6e6a1f20cabe69d65201c78607a360370e577bdba587int + times(x, y_num_9(x))
}

pub(crate) open spec fn y_num_9(x: int) -> int {
    0xe1bba7a1186bdb5223abde7ada14a23c42a0ca7915af6fe06985e7ed1e4d43b9b3f7055dd4eba6f2bafaaebca731c30int + times(x, y_num_10(x))
}

pub(crate) open spec fn y_num_10(x: int) -> int {
    0x19713e47937cd1be0dfd0b8f1d43fb93cd2fcbcb6caf493fd1183e416389e61031bf3a5cce3fbafce813711ad011c132int + times(x, y_num_11(x))
}

pub(crate) open spec fn y_num_11(x: int) -> int {
    0x18b46a908f36f6deb918c143fed2edcc523559b8aaf0c2462e6bfe7f911f643249d9cdf41b44d606ce07c8a4d0074d8eint + times(x, y_num_12(x))
}

pub(crate) open spec fn y_num_12(x: int) -> int {
    0xb182cac101b9399d155096004f53f447aa7b12a3426b08ec02710e807b4633f06c851c1919211f20d4c04f00b971ef8int + times(x, y_num_13(x))
}

pub(crate) open spec fn y_num_13(x: int) -> int {
    0x245a394ad1eca9b72fc00ae7be315dc757b3b080d4c158013e6632d3c40659cc6cf90ad1c232a6442d9d3f5db980133int + times(x, y_num_14(x))
}

pub(crate) open spec fn y_num_14(x: int) -> int {
    0x5c129645e44cf1102a159f748c4a3fc5e673d81d7e86568d9ab0f5d396a7ce46ba1049b6579afb7866b1e715475224bint + times(x, y_num_15(x))
}

pub(crate) open spec fn y_num_15(x: int) -> int {
    0x15e6be4e990f03ce4ea50b3b42df2eb5cb181d8f84965a3957add4fa95af01b2b665027efec01c7704b456be69c8b604int + times(x, 0int)
}

pub(crate) open spec fn x_num_0(x: int) -> int {
    0x11a05f2b1e833340b809101dd99815856b303e88a2d7005ff2627b56cdb4e2c85610c2d5f2e62d6eaeac1662734649b7int + times(x, x_num_1(x))
}

pub(crate) open spec fn x_num_1(x: int) -> int {
    0x17294ed3e943ab2f0588bab22147a81c7c17e75b2f6a8417f565e33c70d1e86b4838f2a6f318c356e834eef1b3cb83bbint + times(x, x_num_2(x))
}

pub(crate) open spec fn x_num_2(x: int) -> int {
    0xd54005db97678ec1d1048c5d10a9a1bce032473295983e56878e501ec68e25c958c3e3d2a09729fe0179f9dac9edcb0int + times(x, x_num_3(x))
}

pub(crate) open spec fn x_num_3(x: int) -> int {
    0x1778e7166fcc6db74e0609d307e55412d7f5e4656a8dbf25f1b33289f1b330835336e25ce3107193c5b388641d9b6861int + times(x, x_num_4(x))
}

pub(crate) open spec fn x_num_4(x: int) -> int {
    0xe99726a3199f4436642b4b3e4118e5499db995a1257fb3f086eeb65982fac18985a286f301e77c451154ce9ac8895d9int + times(x, x_num_5(x))
}

pub(crate) open spec fn x_num_5(x: int) -> int {
    0x1630c3250d7313ff01d1201bf7a74ab5db3cb17dd952799b9ed3ab9097e68f90a0870d2dcae73d19cd13c1c66f652983int + times(x, x_num_6(x))
}

pub(crate) open spec fn x_num_6(x: int) -> int {
    0xd6ed6553fe44d296a3726c38ae652bfb11586264f0f8ce19008e218f9c86b2a8da25128c1052ecaddd7f225a139ed84int + times(x, x_num_7(x))
}

pub(crate) open spec fn x_num_7(x: int) -> int {
    0x17b81e7701abdbe2e8743884d1117e53356de5ab275b4db1a682c62ef0f2753339b7c8f8c8f475af9ccb5618e3f0c88eint + times(x, x_num_8(x))
}

pub(crate) open spec fn x_num_8(x: int) -> int {
    0x80d3cf1f9a78fc47b90b33563be990dc43b756ce79f5574a2c596c928c5d1de4fa295f296b74e956d71986a8497e317int + times(x, x_num_9(x))
}

pub(crate) open spec fn x_num_9(x: int) -> int {
    0x169b1f8e1bcfa7c42e0c37515d138f22dd2ecb803a0c5c99676314baf4bb1b7fa3190b2edc0327797f241067be390c9eint + times(x, x_num_10(x))
}

pub(crate) open spec fn x_num_10(x: int) -> int {
    0x10321da079ce07e272d8ec09d2565b0dfa7dccdde6787f96d50af36003b14866f69b771f8c285decca67df3f1605fb7bint + times(x, x_num_11(x))
}

pub(crate) open spec fn x_num_11(x: int) -> int {
    0x6e08c248e260e70bd1e962381edee3d31d79d7e22c837bc23c0bf1bc24c6b68c24b1b80b64d391fa9c8ba2e8ba2d229int + times(x, 0int)
}

pub(crate) open spec fn den_sq_0_0(x: int) -> int {
    0x8ca8d548cff19ae18b2e62f4bd3fa6f01d5ef4ba35b48ba9c9588617fc8ac62b558d681be343df8993cf9fa40d21b1cint + times(x, den_sq_0_1(x))
}

pub(crate) open spec fn den_sq_0_1(x: int) -> int {
    0x12561a5deb559c4348b4711298e536367041e8ca0cf0800c0126c2588c48bf5713daa8846cb026e9e5c8276ec82b3bffint + times(x, den_sq_0_2(x))
}

pub(crate) open spec fn den_sq_0_2(x: int) -> int {
    0xb2962fe57a3225e8137e629bff2991f6f89416f5a718cd1fca64e00b11aceacd6a3d0967c94fedcfcc239ba5cb83e19int + times(x, den_sq_0_3(x))
}

pub(crate) open spec fn den_sq_0_3(x: int) -> int {
    0x3425581a58ae2fec83aafef7c40eb545b08243f16b1655154cca8abc28d6fd04976d5243eecf5c4130de8938dc62cd8int + times(x, den_sq_0_4(x))
}

pub(crate) open spec fn den_sq_0_4(x: int) -> int {
    0x13a8e162022914a80a6f1d5f43e7a07dffdfc759a12062bb8d6b44e833b306da9bd29ba81f35781d539d395b3532a21eint + times(x, den_sq_0_5(x))
}

pub(crate) open spec fn den_sq_0_5(x: int) -> int {
    0xe7355f8e4e667b955390f7f0506c6e9395735e9ce9cad4d0a43bcef24b8982f7400d24bc4228f11c02df9a29f6304a5int + times(x, den_sq_1_5(x))
}

pub(crate) open spec fn den_sq_1_0(x: int) -> int {
    0x162b9624126ac16ec9e80c646e187186ea5c9a27803ac965b42bca7cc17cdabd994354418f021374cfe393b764157355int + times(x, den_sq_1_1(x))
}

pub(crate) open spec fn den_sq_1_1(x: int) -> int {
    0x3ab4ba59fe2d2a5508a718b046f0243c63f3b45d2fd7a53eaedfb57caf9a05371f817145eec60c64a2e1cf52836159cint + times(x, den_sq_1_2(x))
}

pub(crate) open spec fn den_sq_1_2(x: int) -> int {
    0xabc04396da4cedb51c91bafb800565336ad46e5a41752147fcfafd5d37cb1dc6e123e355f57b63b915cc0207ab534ccint + times(x, den_sq_1_3(x))
}

pub(crate) open spec fn den_sq_1_3(x: int) -> int {
    0x1536b84223c19cbae0f34fe78dff8bb1b4969bf08448254db789aa26ca0fa76ca50b538ff8ca38526b9157da579141f0int + times(x, den_sq_1_4(x))
}

pub(crate) open spec fn den_sq_1_4(x: int) -> int {
    0x154125e81503ab06f0046c98f8a4d31b94c1490726d5bbff14585495192f5a4995ec50ea8b0fb6614e6dffd9e9bc4149int + times(x, den_sq_1_5(x))
}

pub(crate) open spec fn den_sq_1_5(x: int) -> int {
    0x772caacf16936190f3e0c63e0596721570f5799af53a1894e2e073062aede9cea73b3538f0de06cec2574496ee84a3aint + times(x, den_sq_2_5(x))
}

pub(crate) open spec fn den_sq_2_0(x: int) -> int {
    0x77e1758b7c04fb930ad749ebb8396dba94a06298774127e11b852a8e6212e5964abb9821da89e16b2941cc53482287dint + times(x, den_sq_2_1(x))
}

pub(crate) open spec fn den_sq_2_1(x: int) -> int {
    0x1a12ac0d2c5717f641d57f7be2075aa2d84121f8b58b2a8aa665455e146b7e824bb6a921f767ae20986f449c6e3166cint + times(x, den_sq_2_2(x))
}

pub(crate) open spec fn den_sq_2_2(x: int) -> int {
    0xfa4d4f6feb310e6fc408eecea274146d0b0271c147f1556a0e07ec1622842bb5f55af21e0c1ee91d546ec5dd574bcd2int + times(x, den_sq_2_3(x))
}

pub(crate) open spec fn den_sq_2_3(x: int) -> int {
    0x961b6f0bb3ba0fb7065850249ffab44e02431aaac9f7de75bf5be9884e26fd2c675f0935619fdb586b5b3c5f0623c48int + times(x, den_sq_2_4(x))
}

pub(crate) open spec fn den_sq_2_4(x: int) -> int {
    0x50e3a220131792b2f310716ea84efc2d323eaa372dce81f5540efe0ad0f0ea55d53940c983e1b7f86d28eac8796d28aint + times(x, den_sq_2_5(x))
}

pub(crate) open spec fn den_sq_2_5(x: int) -> int {
    0x14a7ac2a9d64a8b230b3f5b074cf01996e7f63c21bca68a81996e1cdf9822c580fa5b9489d11e2d311f7d99bbdcc5a5eint + times(x, den_sq_3_5(x))
}

pub(crate) open spec fn den_sq_3_0(x: int) -> int {
    0x128763327165fabdc18d3bf6078c41d888d228de661f25fc3c2dcb76e5c1b417fa1096ed90e93f883bb028731310a2b7int + times(x, den_sq_3_1(x))
}

pub(crate) open spec fn den_sq_3_1(x: int) -> int {
    0x4040c6b037603c10e2e8e7259c05f372f2fa03d8ca14d64ec8ac626d18ac41f3c7cec863e73898b7e564cfd5fbde54cint + times(x, den_sq_3_2(x))
}

pub(crate) open spec fn den_sq_3_2(x: int) -> int {
    0x143a33f18f332729d02a5b9aa42939e04ee740b76110e00638ba47c80db4c729c95669253abb4788bd167cd14fb157a8int + times(x, den_sq_3_3(x))
}

pub(crate) open spec fn den_sq_3_3(x: int) -> int {
    0x199de7dfaa9fbe3c1a04abbf77ada7ec9e5e3cf4fb69297b3d49c3b3c92a7e88b1d9b39e94b860a016a5502f6a3cda6cint + times(x, den_sq_3_4(x))
}

pub(crate) open spec fn den_sq_3_4(x: int) -> int {
    0x171e727db6f5c6883c54f51ecd18f95b4700152eb6aa7d843903bf30f8e636ff55a7ddf3d10b8d854c75d31fe9abd25int + times(x, den_sq_3_5(x))
}

pub(crate) open spec fn den_sq_3_5(x: int) -> int {
    0xa10ecf6ada54f825e920b3dafc7a3cce07f8d1d7161366b74100da67f39883503826692abba43704776ec3a79a1d641int + times(x, den_sq_4_5(x))
}

pub(crate) open spec fn den_sq_4_0(x: int) -> int {
    0x18733b0a17e75e877497752df933c1a3afc076ee105d502d3d126d626054559215734816d7bf3fcaa20ae180dda10ad9int + times(x, den_sq_4_1(x))
}

pub(crate) open spec fn den_sq_4_1(x: int) -> int {
    0x5119f0829aac6bde4d38a7cbb071ba45933043f21fd2f65ae4dfe569fd6285cad8ae1b86e08915c397845dcaf00c85dint + times(x, den_sq_4_2(x))
}

pub(crate) open spec fn den_sq_4_2(x: int) -> int {
    0x7d5f4b780495e774055085aabf76c0c1d286629a76f8acd7815161d903556385745ffb3aba97fcc8f7f241a04ab1a79int + times(x, den_sq_4_3(x))
}

pub(crate) open spec fn den_sq_4_3(x: int) -> int {
    0xa53d6154eb254591859fad83a6780ccb73fb1e10de534540ccb70e6fcc1162c07d2dca44e88f16988fbeccddee62d2fint + times(x, den_sq_4_4(x))
}

pub(crate) open spec fn den_sq_4_4(x: int) -> int {
    0xccac004e64c513cb83f459c699d250ea721e86f7b86295ee7c2f50d3161804c0ac5d3f2d06eed59b539eb10cf9acfdint + times(x, den_sq_4_5(x))
}

pub(crate) open spec fn den_sq_4_5(x: int) -> int {
    0x95fc13ab9e92ad4476d6e3eb3a56680f682b4ee96f7d03776df533978f31c1593174e4b4b7865002d6384d168ecdd0aint + times(x, den_sq_5_5(x))
}

pub(crate) open spec fn den_sq_5_0(x: int) -> int {
    0x133341fb0962a34cb0504a9c4fada0a5090d38679b4c040d5d1c3afb023a3409fcc0815fea66d8b02bbef9c8b5a66e07int + times(x, den_sq_5_1(x))
}

pub(crate) open spec fn den_sq_5_1(x: int) -> int {
    0x264908af037bcede00d054cf5d4775e83eb6cf63c76b969f8ed174fb59fcff78d201f46f6cfc4ed6552e59ce75177b0int + times(x, den_sq_5_2(x))
}

pub(crate) open spec fn den_sq_5_2(x: int) -> int {
    0x1335c502c1f54c49aceea65e87fd7203ba0f626f305fc0cfd606a5dae9f3c8e81a4b3b69600129fabd307c69bf319d39int + times(x, den_sq_5_3(x))
}

pub(crate) open spec fn den_sq_5_3(x: int) -> int {
    0x94440f65f408a6e930e16e3e92dd17bf60d6e9679a8d3d58593de55ac23703042d609537eb3549aac234d896ca82944int + times(x, den_sq_5_4(x))
}

pub(crate) open spec fn den_sq_5_4(x: int) -> int {
    0x4afe09d5cf4956a23b6b71f59d2b3407b415a774b7be81bbb6fa99cbc798e0ac98ba725a5bc328016b1c268b4766e85int + times(x, den_sq_5_5(x))
}

pub(crate) open spec fn den_sq_5_5(x: int) -> int {
    0x1int + times(x, 0int)
}

pub(crate) open spec fn den_cube_0_0(x: int) -> int {
    0x16112c4c3a9c98b252181140fad0eae9601a6de578980be6eec3232b5be72e7a07f3688ef60c206d01479253b03663c1int + times(x, den_cube_0_1(x))
}

pub(crate) open spec fn den_cube_0_1(x: int) -> int {
    0x1962d75c2381201e1a0cbd6c43c348b885c84ff731c4d59ca4a10356f453e01f78a4260763529e3532f6102c2e49a03dint + times(x, den_cube_0_2(x))
}

pub(crate) open spec fn den_cube_0_2(x: int) -> int {
    0x58df3306640da276faaae7d6e8eb15778c4855551ae7f310c35a5dd279cd2eca6757cd636f96f891e2538b53dbf67f2int + times(x, den_cube_0_3(x))
}

pub(crate) open spec fn den_cube_0_3(x: int) -> int {
    0x16b7d288798e5395f20d23bf89edb4d1d115c5dbddbcd30e123da489e726af41727364f2c28297ada8d26d98445f5416int + times(x, den_cube_0_4(x))
}

pub(crate) open spec fn den_cube_0_4(x: int) -> int {
    0xbe0e079545f43e4b00cc912f8228ddcc6d19c9f0f69bbb0542eda0fc9dec916a20b15dc0fd2ededda39142311a5001dint + times(x, den_cube_0_5(x))
}

pub(crate) open spec fn den_cube_0_5(x: int) -> int {
    0x8d9e5297186db2d9fb266eaac783182b70152c65550d881c5ecd87b6f0f5a6449f38db9dfa9cce202c6477faaf9b7acint + times(x, den_cube_0_6(x))
}

pub(crate) open spec fn den_cube_0_6(x: int) -> int {
    0x166007c08a99db2fc3ba8734ace9824b5eecfdfa8d0cf8ef5dd365bc400a0051d5fa9c01a58b1fb93d1a1399126a775cint + times(x, den_cube_0_7(x))
}

pub(crate) open spec fn den_cube_0_7(x: int) -> int {
    0x16a3ef08be3ea7ea03bcddfabba6ff6ee5a4375efa1f4fd7feb34fd206357132b920f5b00801dee460ee415a15812ed9int + times(x, den_cube_0_8(x))
}

pub(crate) open spec fn den_cube_0_8(x: int) -> int {
    0x1866c8ed336c61231a1be54fd1d74cc4f9fb0ce4c6af5920abc5750c4bf39b4852cfe2f7bb9248836b233d9d55535d4aint + times(x, den_cube_0_9(x))
}

pub(crate) open spec fn den_cube_0_9(x: int) -> int {
    0x167a55cda70a6e1cea820597d94a84903216f763e13d87bb5308592e7ea7d4fbc7385ea3d529b35e346ef48bb8913f55int + times(x, den_cube_0_10(x))
}

pub(crate) open spec fn den_cube_0_10(x: int) -> int {
    0x4d2f259eea405bd48f010a01ad2911d9c6dd039bb61a6290e591b36e636a5c871a5c29f4f83060400f8b49cba8f6aa8int + times(x, den_cube_1_10(x))
}

pub(crate) open spec fn den_cube_1_0(x: int) -> int {
    0x11214dc21f005792cc62cc60d7afa72ff8bfde7eb718a2c95945f1fd4e56f21687c5620206e234bc4efc5ab964c318f8int + times(x, den_cube_1_1(x))
}

pub(crate) open spec fn den_cube_1_1(x: int) -> int {
    0xa2faec923eb371cfec7a98556fc028d61d2cd2a8d7e4f3e186863a4aaf64b65b2c9d918c4e6becacad70aa5b29d51ccint + times(x, den_cube_1_2(x))
}

pub(crate) open spec fn den_cube_1_2(x: int) -> int {
    0x109d0f6ac6d5dea666c0f7227e55db90805bb0ef27f9938136e9d8b9f7ca07e8c5d3d10a5b6dff73d83d841575c0f391int + times(x, den_cube_1_3(x))
}

pub(crate) open spec fn den_cube_1_3(x: int) -> int {
    0xa6db535155d5b60e6dc08c8f83df5ab615e61b488787150b678329c7c64029451169e4824a8ddd84634e35324536678int + times(x, den_cube_1_4(x))
}

pub(crate) open spec fn den_cube_1_4(x: int) -> int {
    0x1055fd83e239c68f7bef6534716efa7c92435e5ed68c7252be171641bd02e66bb04df527d2d0e98c16994abb376984c7int + times(x, den_cube_1_5(x))
}

pub(crate) open spec fn den_cube_1_5(x: int) -> int {
    0x41125c963573b647e36b0cbf14b997fe54a173f7502273d1626358e3a9bbca006f67bb379feab6e294d10a9b63430e7int + times(x, den_cube_1_6(x))
}

pub(crate) open spec fn den_cube_1_6(x: int) -> int {
    0xdedbefd6d1d6cfad6184fa7436f450a0df5b237d4b24a3d212343576c0c21f6d2239342ce9e3f2e0b0c8091ed1a1634int + times(x, den_cube_1_7(x))
}

pub(crate) open spec fn den_cube_1_7(x: int) -> int {
    0x17c9c7e4ca8fe4823cc4704628978e4ba350360eec297dfc0d0e66f106c918596e5bbd5355d158edd5f6303d27e4938dint + times(x, den_cube_1_8(x))
}

pub(crate) open spec fn den_cube_1_8(x: int) -> int {
    0x1996038dea3b7e42978a6aa86d7a5af79b84a091a78d0cdfa74523abab61161fd9a9ce73885333c864573189fd4e7ef9int + times(x, den_cube_1_9(x))
}

pub(crate) open spec fn den_cube_1_9(x: int) -> int {
    0xba0c2491ec1490ae3bb6dba0e709d4ff7d7e357139ab4db186db2dcdaad67e29391413e16702d538f38bad404e8a74cint + times(x, den_cube_1_10(x))
}

pub(crate) open spec fn den_cube_1_10(x: int) -> int {
    0xaccbb67481d033ff5852c1e48c50c477f94ff8aefce42d28c0f9a88cea7913516f968986f7ebbea9684b529e2561092int + times(x, den_cube_2_10(x))
}

pub(crate) open spec fn den_cube_2_0(x: int) -> int {
    0xada549df13ff40ed311e547ca403c3c86ffbe11a0a4120cdf314204be92e55025f724ca80a2363b1a96707dcbe20ff2int + times(x, den_cube_2_1(x))
}

pub(crate) open spec fn den_cube_2_1(x: int) -> int {
    0x18d944c43aab286867baa74277d1dc00c51f61f1ff172ef123a52142bdb786614a749219fff113b2413e0d44a85031e1int + times(x, den_cube_2_2(x))
}

pub(crate) open spec fn den_cube_2_2(x: int) -> int {
    0x82545bd4edb6ea57ec483a1d68cb52bee4b7f91890500c7b28d8cf12d34c622c004802de2a38e33bf8b7afe2203c5dfint + times(x, den_cube_2_3(x))
}

pub(crate) open spec fn den_cube_2_3(x: int) -> int {
    0x5c407a474e563a381ea7a5ee5bed000b3f86347089b7352928927a57800f43154e8ffe1f057a9b319727ebc32f54d09int + times(x, den_cube_2_4(x))
}

pub(crate) open spec fn den_cube_2_4(x: int) -> int {
    0x18e1ac0af5a41d006b9d20b91ef970e3b1d26a783ac064f0750797898c4fca9c7c0d40dfc9c16b149a3153a2992116abint + times(x, den_cube_2_5(x))
}

pub(crate) open spec fn den_cube_2_5(x: int) -> int {
    0x1847977c370c97b6c3ddf34dc4242feff9b24591f96aae7d44d7993b38af78e27fd8680ea29ccec7e12cd39fde4512b0int + times(x, den_cube_2_6(x))
}

pub(crate) open spec fn den_cube_2_6(x: int) -> int {
    0x6c38a281e4c2cf9c85d6201dc9aca764391564e4dba50d8f441c9a7c315d700f660f48e45945f9c1f4d2f4800af221int + times(x, den_cube_2_7(x))
}

pub(crate) open spec fn den_cube_2_7(x: int) -> int {
    0x3ab849d844b2066927c4d6f08db3ff77a003ef1e56d4af0c47cd317eb1814b057cd234a5f58b139c21dba041c7c4b15int + times(x, den_cube_2_8(x))
}

pub(crate) open spec fn den_cube_2_8(x: int) -> int {
    0xde2f644a4b11b8e2f994642f471fa79f315002312b34b6b0ed95984a8c489191350808e5dd8bbfbb9c722ac123447f5int + times(x, den_cube_2_9(x))
}

pub(crate) open spec fn den_cube_2_9(x: int) -> int {
    0x8682adc57e54652157826d152f094e8fba99294b3578968932283391907c13d89d9495178aef6fd3131cf8cfb0498e2int + times(x, den_cube_2_10(x))
}

pub(crate) open spec fn den_cube_2_10(x: int) -> int {
    0xad6b9514c767fe3c3613144b45f1496543346d98adf02267d5ceef9a00d9b8693000763e3b90ac11e99b138573345ccint + times(x, den_cube_3_10(x))
}

pub(crate) open spec fn den_cube_3_0(x: int) -> int {
    0x7429043b18d33216ead2d10d711aa17f011fe7faa31235b1edf7d2e2856171b80d701cd187784874955dc3e264dd94fint + times(x, den_cube_3_1(x))
}

pub(crate) open spec fn den_cube_3_1(x: int) -> int {
    0x4f3b7e3470be4f0e10064247cf157bd01c7546925ee5384dc7ab539fb18b5528e1130a2bfb5651a1f1ebb5a98b381f8int + times(x, den_cube_3_2(x))
}

pub(crate) open spec fn den_cube_3_2(x: int) -> int {
    0x10d9b0ab523f98630bfab7ed2fecb60408cc3e7d38a68e5910b8f54a1bc4049b9fc2d65c005e0f51c7c156b84642bb23int + times(x, den_cube_3_3(x))
}

pub(crate) open spec fn den_cube_3_3(x: int) -> int {
    0xf26cb1a8031e955b03b92224b53870210ec3bfcbc5532e25cd54182b7e8941eeddb21ae74618bd4901c58ffdaf4f2b8int + times(x, den_cube_3_4(x))
}

pub(crate) open spec fn den_cube_3_4(x: int) -> int {
    0x120bf878f0a0e896d0d669d51db13f1c64f3839a6c2d4f67184abdd231ba9569c460fdc4dfca6723fe7d6824508f39fbint + times(x, den_cube_3_5(x))
}

pub(crate) open spec fn den_cube_3_5(x: int) -> int {
    0x1077dd1b32a15b4c58d72afa94e2dab25bfc089558d1f6e29f5f4754b14c65f29bec95dea83a88f63fa3825974f559aint + times(x, den_cube_3_6(x))
}

pub(crate) open spec fn den_cube_3_6(x: int) -> int {
    0x11516da70acbbe22c1e33df6bef7f11f386a25fc1617a872ad9fe79e04011442e0ef10adbd83b808fdbcdeeadff1310dint + times(x, den_cube_3_7(x))
}

pub(crate) open spec fn den_cube_3_7(x: int) -> int {
    0xf0ee41457c4d90cc13e6360fcf237b1a3ae3f06b5e95fec804b55698faebd525e95e4d670b32278941be4ee5c3bbf56int + times(x, den_cube_3_8(x))
}

pub(crate) open spec fn den_cube_3_8(x: int) -> int {
    0x1786746d7141e9d9a003c86c29f658652da6ebb2d0eaf960fc03583e5a8daae014398876c04f813e96d85292c050fdfbint + times(x, den_cube_3_9(x))
}

pub(crate) open spec fn den_cube_3_9(x: int) -> int {
    0x11a20638c4011a34618e329c6fad4f69fe9b2fef4e0454160e871bbfaccac8c29760cbf9350be0c61b6834ce9801533eint + times(x, den_cube_3_10(x))
}

pub(crate) open spec fn den_cube_3_10(x: int) -> int {
    0x2660400eb2e4f3b628bdd0d53cd76f2bf565b94e72927c1cb748df27942480e420517bd8714cc80d1fadc1326ed06f7int + times(x, den_cube_4_10(x))
}

pub(crate) open spec fn den_cube_4_0(x: int) -> int {
    0xfad3c4d864f86d127953716ae09ed9d9235efbd8f83ae2f7ce49831007e0209871236189336c16e6c2012d8dd13566int + times(x, den_cube_4_1(x))
}

pub(crate) open spec fn den_cube_4_1(x: int) -> int {
    0xa5958a33c02bc090f7a9ab1bcad4cfb32406db968e57608f7ed619c83affa9d540c9fa16fec1f99543eb25580d6a682int + times(x, den_cube_4_2(x))
}

pub(crate) open spec fn den_cube_4_2(x: int) -> int {
    0x8516a1e8a30befbefcce165a8a0e9d20a06a0fb9496c58239adcd266ba81c1545e7b13bd7987630fad04277325f231aint + times(x, den_cube_4_3(x))
}

pub(crate) open spec fn den_cube_4_3(x: int) -> int {
    0xb6a386308f95ec0127a700b6944b3a44ad1ba8efbbcf8193e91f9d0284754aa8c4d73974bbde9730a074d170edbcc58int + times(x, den_cube_4_4(x))
}

pub(crate) open spec fn den_cube_4_4(x: int) -> int {
    0xa913208ffccd1bde8c6fd6e80577698add4fbf636603323f27344d3433bfbf92286f2223496d978ff6bd5b8c12ef0a5int + times(x, den_cube_4_5(x))
}

pub(crate) open spec fn den_cube_4_5(x: int) -> int {
    0x1332a3479a3d8e2c92cfd5a12aa6124487619525f863433524be841adca3905a7707dd7bb1804f2257dd9cefac520c6int + times(x, den_cube_4_6(x))
}

pub(crate) open spec fn den_cube_4_6(x: int) -> int {
    0xd10ae653904e5a1b4e0b54fdb2451acb514f4b5022641dd4c5f36940a3ece66e95d6521c29379332f469df95b21b04aint + times(x, den_cube_4_7(x))
}

pub(crate) open spec fn den_cube_4_7(x: int) -> int {
    0x18174c54fd122b338378aef7be875d6e59cc8d97e5ebfc3321c17cf0ef112b58884d3c78f860471dd530f75bdbfc83fdint + times(x, den_cube_4_8(x))
}

pub(crate) open spec fn den_cube_4_8(x: int) -> int {
    0x964d2297107237b3f9be1f2c78d85009fc345869f745a4e39ccb306907f38169da58984a6a851e8c9d25406589888a7int + times(x, den_cube_4_9(x))
}

pub(crate) open spec fn den_cube_4_9(x: int) -> int {
    0x1322d4f4c56dab671a996ddfadeb524e2dc03883610566abad11823dc3cfce021ddb0e68b9b577e5dfd68e89ba44885eint + times(x, den_cube_4_10(x))
}

pub(crate) open spec fn den_cube_4_10(x: int) -> int {
    0xe0fa1d816ddc03e6b24255e0d7819c171c40f65e273b853324efcd6356caa205ca2f570f13497804415473a1d634b8fint + times(x, den_cube_5_10(x))
}

pub(crate) open spec fn den_cube_5_0(x: int) -> int {
    0x8ca8d548cff19ae18b2e62f4bd3fa6f01d5ef4ba35b48ba9c9588617fc8ac62b558d681be343df8993cf9fa40d21b1cint + times(x, den_cube_5_1(x))
}

pub(crate) open spec fn den_cube_5_1(x: int) -> int {
    0x12561a5deb559c4348b4711298e536367041e8ca0cf0800c0126c2588c48bf5713daa8846cb026e9e5c8276ec82b3bffint + times(x, den_cube_5_2(x))
}

pub(crate) open spec fn den_cube_5_2(x: int) -> int {
    0xb2962fe57a3225e8137e629bff2991f6f89416f5a718cd1fca64e00b11aceacd6a3d0967c94fedcfcc239ba5cb83e19int + times(x, den_cube_5_3(x))
}

pub(crate) open spec fn den_cube_5_3(x: int) -> int {
    0x3425581a58ae2fec83aafef7c40eb545b08243f16b1655154cca8abc28d6fd04976d5243eecf5c4130de8938dc62cd8int + times(x, den_cube_5_4(x))
}

pub(crate) open spec fn den_cube_5_4(x: int) -> int {
    0x13a8e162022914a80a6f1d5f43e7a07dffdfc759a12062bb8d6b44e833b306da9bd29ba81f35781d539d395b3532a21eint + times(x, den_cube_5_5(x))
}

pub(crate) open spec fn den_cube_5_5(x: int) -> int {
    0xe7355f8e4e667b955390f7f0506c6e9395735e9ce9cad4d0a43bcef24b8982f7400d24bc4228f11c02df9a29f6304a5int + times(x, den_cube_5_6(x))
}

pub(crate) open spec fn den_cube_5_6(x: int) -> int {
    0x772caacf16936190f3e0c63e0596721570f5799af53a1894e2e073062aede9cea73b3538f0de06cec2574496ee84a3aint + times(x, den_cube_5_7(x))
}

pub(crate) open spec fn den_cube_5_7(x: int) -> int {
    0x14a7ac2a9d64a8b230b3f5b074cf01996e7f63c21bca68a81996e1cdf9822c580fa5b9489d11e2d311f7d99bbdcc5a5eint + times(x, den_cube_5_8(x))
}

pub(crate) open spec fn den_cube_5_8(x: int) -> int {
    0xa10ecf6ada54f825e920b3dafc7a3cce07f8d1d7161366b74100da67f39883503826692abba43704776ec3a79a1d641int + times(x, den_cube_5_9(x))
}

pub(crate) open spec fn den_cube_5_9(x: int) -> int {
    0x95fc13ab9e92ad4476d6e3eb3a56680f682b4ee96f7d03776df533978f31c1593174e4b4b7865002d6384d168ecdd0aint + times(x, den_cube_5_10(x))
}

pub(crate) open spec fn den_cube_5_10(x: int) -> int {
    0x1int + times(x, 0int)
}

pub(crate) open spec fn den_sixth_0_0(x: int) -> int {
    0x197858f664441423a78a763d910a639b2232676c96c2951765d6eccbca1857786a2679b74ffab99f150b8d405c6a4235int + times(x, den_sixth_0_1(x))
}

pub(crate) open spec fn den_sixth_0_1(x: int) -> int {
    0x56ef69a68c08d0a87350b155e3022bb472313122c80682c102d27adf71e33674bac9ecd177953e3081405ca1f899ce6int + times(x, den_sixth_0_2(x))
}

pub(crate) open spec fn den_sixth_0_2(x: int) -> int {
    0x2b1afb287e66a5f6d46ab637d5ec44cbb0de0103751ad85715cd5d3df893e73eac00f23b22b73320d49fa811a8d4740int + times(x, den_sixth_0_3(x))
}

pub(crate) open spec fn den_sixth_0_3(x: int) -> int {
    0x19b15b073bcd0bb85c44dda81baf00611e61d04477e1be2e337d08c06054ded8764b3e216d1cfca3db8834989c0936f5int + times(x, den_sixth_0_4(x))
}

pub(crate) open spec fn den_sixth_0_4(x: int) -> int {
    0x9cf3e3f69ad59e14c389752fa2fc463a36686f66305f3b864752677812a29b296242158608176e2e8e9623c59057ca2int + times(x, den_sixth_0_5(x))
}

pub(crate) open spec fn den_sixth_0_5(x: int) -> int {
    0x11f2123be5a19eddac6dec47afe6fb64f0a6f3df0228fea27e8f114d522697424e4ef9c1f4cc690ab54676a3423ab6c4int + times(x, den_sixth_0_6(x))
}

pub(crate) open spec fn den_sixth_0_6(x: int) -> int {
    0x176a9998dc306c14d0247aac5266b66e441d4020e9bcf8ba220b1bde586b097628399b8bd782b0e9adf72e64aaddf7bcint + times(x, den_sixth_0_7(x))
}

pub(crate) open spec fn den_sixth_0_7(x: int) -> int {
    0x1d878c239ef267b162e38bfd04ef30fc9a11aa2103934faa3b847008fb9491e2b6f71dd8d4d8b79ad90b7e861984129int + times(x, den_sixth_0_8(x))
}

pub(crate) open spec fn den_sixth_0_8(x: int) -> int {
    0xc96885e8f4fef0a29be82ea7f1862fa9638a10c54ad66b36fa0f6de6a13005549ca0e645c7fd6c2720e8c5a5440e6c6int + times(x, den_sixth_0_9(x))
}

pub(crate) open spec fn den_sixth_0_9(x: int) -> int {
    0x1105edd804967778470defa273d6b1b04132ab6eb4eb6b3e54d3115c60019b7d922c4d986b5556b311585a68bcc3e002int + times(x, den_sixth_0_10(x))
}

pub(crate) open spec fn den_sixth_0_10(x: int) -> int {
    0x148af3c4cd265234c8a371fc1f5a4ee90a2afeb5a12dad7ea02cf8084d759f06f6b34c1c9c56532c78186989d598dd2aint + times(x, den_sixth_0_11(x))
}

pub(crate) open spec fn den_sixth_0_11(x: int) -> int {
    0x15eff65baf739dfbcc6b45bf841ce74e9d625a8e94576370d9d4e16786483d5a39260eee318be8132c5c3bff5d48fbe6int + times(x, den_sixth_0_12(x))
}

pub(crate) open spec fn den_sixth_0_12(x: int) -> int {
    0x964e9f2c47ea4f01fb77225e48c733b5551821ea94f4ca7c80f9ef8440a33bd6818556045dd38fb25ea18ba41f974d9int + times(x, den_sixth_0_13(x))
}

pub(crate) open spec fn den_sixth_0_13(x: int) -> int {
    0x8ae50e1e80f817c29443efc5b18ad8f95cd6fe1bb7cdcefeada5c9df744daad2b9c8a7f1f67c00800534edaf8282e65int + times(x, den_sixth_0_14(x))
}

pub(crate) open spec fn den_sixth_0_14(x: int) -> int {
    0x6024fabbbaad93c219a74679db8b1b0c11ecf8bf9230a2a26ef45e0f394ce0b4be78a0b81b26620f3fbce84b3455f4dint + times(x, den_sixth_0_15(x))
}

pub(crate) open spec fn den_sixth_0_15(x: int) -> int {
    0x1664e7b3e8d2584711b26c41033ca3972c9d261f320e767ddf02090fe3aa0ae658bd9eb0066d58adfd80cdcb5ef94649int + times(x, den_sixth_1_15(x))
}

pub(crate) open spec fn den_sixth_1_0(x: int) -> int {
    0x2b77b4d34604685439a858aaf18115da391898916403416081693d6fb8f19b3a5d64f668bbca9f1840a02e50fc4ce73int + times(x, den_sixth_1_1(x))
}

pub(crate) open spec fn den_sixth_1_1(x: int) -> int {
    0x6922e7a500ace8197071dbb2911897c754db814bbf8c06ad20b1f2fbc3d5829d4d2399d61b2cc0cc34420e8ce2e3eedint + times(x, den_sixth_1_2(x))
}

pub(crate) open spec fn den_sixth_1_2(x: int) -> int {
    0x1314be58ae036b02f9a9268f7eaf64ac301fb5e3ae6e8ae95936cae590475f268181c5892413f6d77e15205da0a8a76bint + times(x, den_sixth_1_3(x))
}

pub(crate) open spec fn den_sixth_1_3(x: int) -> int {
    0x18433e93bf563c97a071c67b4e2111bbfb39dd3b51a1bc91c18b3bf182723ffc03ae879328e69d687cdf511ae373d3f2int + times(x, den_sixth_1_4(x))
}

pub(crate) open spec fn den_sixth_1_4(x: int) -> int {
    0x18c320d7c571b2ed3e4443700edf1dcf6b8927c704c2f089e53e45122b43d64be1bcb0efdcb178ae128dfb2e4681030int + times(x, den_sixth_1_5(x))
}

pub(crate) open spec fn den_sixth_1_5(x: int) -> int {
    0xa3b358b0981088fc16a2280f54d294fdd4e70c8e9a9dcb46e70c91b490ef2e6cf3436b46999a37613cdc58c5bc7ed68int + times(x, den_sixth_1_6(x))
}

pub(crate) open spec fn den_sixth_1_6(x: int) -> int {
    0x96350ef1b85aca47753bb06c030b21057f302ec421ba27867ca86f05d2f25c1c089b7811513de39ad65995ffe4ff951int + times(x, den_sixth_1_7(x))
}

pub(crate) open spec fn den_sixth_1_7(x: int) -> int {
    0x71867d09d9852c9e7fab865d97f5df605cb3a6b0489342e1604882c36bab4c92687009ff4f375cf7700f5e5aa320da3int + times(x, den_sixth_1_8(x))
}

pub(crate) open spec fn den_sixth_1_8(x: int) -> int {
    0x16a1eba7a3c3c3833d1e4b07e0ddd182cd996abc7f34141e644e31e4614c106c98d37a34dd9c2fda7397b2c9b166e42fint + times(x, den_sixth_1_9(x))
}

pub(crate) open spec fn den_sixth_1_9(x: int) -> int {
    0x36968fb7641625fb8a72a4b48ff7e4e8a8de907d7ccec67445007c1cdeb78922aff39574828c4bf9680f32d845d3f22int + times(x, den_sixth_1_10(x))
}

pub(crate) open spec fn den_sixth_1_10(x: int) -> int {
    0x17625fa034ad9f3709be046c15f3db86c421b94b2837fdd31961315bdb44bf478b6be86f4358d8c7d51ff9f237fe6d4aint + times(x, den_sixth_1_11(x))
}

pub(crate) open spec fn den_sixth_1_11(x: int) -> int {
    0x1806a9a82d48692aa8767abd0f91562336b49a711c06a03a763412c1a438b28745554b4c6acfefecece98036fb526a1int + times(x, den_sixth_1_12(x))
}

pub(crate) open spec fn den_sixth_1_12(x: int) -> int {
    0x73b19e693c20e650b58d3b94c7ff3c1bc6690444440b4eca2c489cda2a608d2597e3430584cbce6f6625a334f267a25int + times(x, den_sixth_1_13(x))
}

pub(crate) open spec fn den_sixth_1_13(x: int) -> int {
    0x157818bea107f58f3c2aae98f288dfcc7516999d61d3901f1ba5af6ca62430a7d33be411e6d1beb893e0eed2f2c1ae4eint + times(x, den_sixth_1_14(x))
}

pub(crate) open spec fn den_sixth_1_14(x: int) -> int {
    0x53bb67ae35bf94bf9a5b00086bb8adcc82b839b9766a96f03ee5e487c2dc6c50ca362110613840fc393b77aec2e288int + times(x, den_sixth_1_15(x))
}

pub(crate) open spec fn den_sixth_1_15(x: int) -> int {
    0xf8c96df0c8ca132daa05254f72c0444630663ee8bb1bc58e970fe48d4cdc37beb6323d3e14a27669e0d63a9f33922efint + times(x, den_sixth_2_15(x))
}

pub(crate) open spec fn den_sixth_2_0(x: int) -> int {
    0x16209322715b8278215b355e9798e7a7aa3773806eddffda0682894519fcdc6e3499d58501cca7250404d9984c5eb2feint + times(x, den_sixth_2_1(x))
}

pub(crate) open spec fn den_sixth_2_1(x: int) -> int {
    0x19d93678baa6792953b042af2f7d569c416c8de4b5b36876cd56edb0ab82ea7e4a7b9f100f387e51cac39a4c4e0470d0int + times(x, den_sixth_2_2(x))
}

pub(crate) open spec fn den_sixth_2_2(x: int) -> int {
    0x183831cb8f6d843164f47dcd72db64245689b6cb27d30e9002c131d27826a94791c9c68f1548f539f133e5e5c0023a0bint + times(x, den_sixth_2_3(x))
}

pub(crate) open spec fn den_sixth_2_3(x: int) -> int {
    0xb30241bed0bdaf55b9b4d03e9194b04f499f2fcd2b00604ae745832cb21dc0c79bb7a7a7385589976ec0a69c1389d5eint + times(x, den_sixth_2_4(x))
}

pub(crate) open spec fn den_sixth_2_4(x: int) -> int {
    0x15dea2866e6116140cc954fedb80d1bf946d53bb11caf6ce7e57ee7f1cd7d7da88fa66b52bb88e40e0a9eded251df803int + times(x, den_sixth_2_5(x))
}

pub(crate) open spec fn den_sixth_2_5(x: int) -> int {
    0x1585f2d4a374f87885adc102d85920261c65d87504d87f299eff835211e6a1639ae0ffef3a7d2bec24fd5ed1ad2d9b12int + times(x, den_sixth_2_6(x))
}

pub(crate) open spec fn den_sixth_2_6(x: int) -> int {
    0x171870ed2e5c99e9add568603229df13fc6e8ef5b99c4a836edaaf6540d4a9946d3164b3bce7a2e1130932a5bbfc4272int + times(x, den_sixth_2_7(x))
}

pub(crate) open spec fn den_sixth_2_7(x: int) -> int {
    0xc4c8df17baa7880d21e61705cfb11e0f8a66e8f9a82ab3a37425fa938f8976b318aa822dbeff0de4e657fef36e77366int + times(x, den_sixth_2_8(x))
}

pub(crate) open spec fn den_sixth_2_8(x: int) -> int {
    0x11cfa53efed5ce2d322de4e11f9b453570d055bfd0d449972137145e2fc13dd01a50cca5b98f5bec19e3f4f0ccacc5dbint + times(x, den_sixth_2_9(x))
}

pub(crate) open spec fn den_sixth_2_9(x: int) -> int {
    0x15931e0c2958ef58d6dcce8bd6ad46b9883718e5d008b30539c3dda898930e917a8ed3dbe9ec03adcf0dd8e13a9714acint + times(x, den_sixth_2_10(x))
}

pub(crate) open spec fn den_sixth_2_10(x: int) -> int {
    0x10dbc11a21057bdef93fdf1ae191da7384b3b20256588d6fa721713ab1f3fa8f8aa5f7f1d74995d06a4894a8d53977f6int + times(x, den_sixth_2_11(x))
}

pub(crate) open spec fn den_sixth_2_11(x: int) -> int {
    0x609e5536257ae85ce3216a47f819f6e6471132a6da479c219935b3a578aa224b54171f322e65c6d8070664a3727dda3int + times(x, den_sixth_2_12(x))
}

pub(crate) open spec fn den_sixth_2_12(x: int) -> int {
    0x12c023fbd3b2c03e7c43b556e616190334e85cede5d09a2c72aab6d56bec092949b1b164871a9cd757ca169552a1ef6aint + times(x, den_sixth_2_13(x))
}

pub(crate) open spec fn den_sixth_2_13(x: int) -> int {
    0xb050de0079ae9ff7c5a5efbf83be7f4a353c0bfb069c22acc6b0745c84d51ff94fda8b25da076d6cbafda03ac0b7379int + times(x, den_sixth_2_14(x))
}

pub(crate) open spec fn den_sixth_2_14(x: int) -> int {
    0x102ad16d228b67af0baf3c9ef6b4686341b55f7c4d71f97bac00cd92d72ad980916afdcb2f4b89312516537dc4ef2d5dint + times(x, den_sixth_2_15(x))
}

pub(crate) open spec fn den_sixth_2_15(x: int) -> int {
    0x8ec4ffb17f22f996d099e866bc30d7a01e8156bb7e20fde484a1ff7543457d82d5712fd04becd73c4741c47df7b5974int + times(x, den_sixth_3_15(x))
}

pub(crate) open spec fn den_sixth_3_0(x: int) -> int {
    0x69c9cae8dc9a0b5629bb7189cff9bb4ee421a60c9733344da463ddad00d7fb1f4c97898490905cc5d73143afb608f8aint + times(x, den_sixth_3_1(x))
}

pub(crate) open spec fn den_sixth_3_1(x: int) -> int {
    0xb981e5e13bfbc4a325fc13bcaa00d16b1541bb02eb7f7e7c8e4c745ffb4768f23065ac7fc8c81a8b1b47c569902ed42int + times(x, den_sixth_3_2(x))
}

pub(crate) open spec fn den_sixth_3_2(x: int) -> int {
    0x8f9091df2d0cf6ed636f623d7f37db2785379ef81147f513f4788a6a9134ba127277ce0fa6634855aa33b51a11d5b62int + times(x, den_sixth_3_3(x))
}

pub(crate) open spec fn den_sixth_3_3(x: int) -> int {
    0x25d546680e114f0079aa6d212452c71ab4e9d50516ebbd6de4c3319e57d14d10df191d13523e23cfd4afa7656f2c4adint + times(x, den_sixth_3_4(x))
}

pub(crate) open spec fn den_sixth_3_4(x: int) -> int {
    0x48fa03b9298ad77a872e07e4dec4ce2764b6790c41124a5a36b927cf4d41348bd0c84665689653e4e01e5c5b99c303bint + times(x, den_sixth_3_5(x))
}

pub(crate) open spec fn den_sixth_3_5(x: int) -> int {
    0x6f4fff5480d1c0cd3515c9690bd659522a595c4c9863a97881e3d7d1ebed24aefad31a9064bd1d9424088da11aac223int + times(x, den_sixth_3_6(x))
}

pub(crate) open spec fn den_sixth_3_6(x: int) -> int {
    0x656adb70bb822ac247d8ac8ac44df990286ac210cda8f940a86bc447bcccf2fad513231c38b8e77d32fc68f468f6a0cint + times(x, den_sixth_3_7(x))
}

pub(crate) open spec fn den_sixth_3_7(x: int) -> int {
    0x180ce9082e125a2f7217650d2ac29f239a5fc1e407779c6244ec7efc9d9ea3d6cfed6fcc6012a6e5e86ca9ca84588c51int + times(x, den_sixth_3_8(x))
}

pub(crate) open spec fn den_sixth_3_8(x: int) -> int {
    0x36ca2729bcb7f6da80e318e45923e9ea149a86ba8565d20f691074ae814196a231e4cc3c478bdeb0b29c280de26cd5cint + times(x, den_sixth_3_9(x))
}

pub(crate) open spec fn den_sixth_3_9(x: int) -> int {
    0xfaef5e9956abae3ba7bd065a6f91073646766329243c0160775c8c0aed3b8630815571dc5e0a1e6c5eff3c8e4c3508aint + times(x, den_sixth_3_10(x))
}

pub(crate) open spec fn den_sixth_3_10(x: int) -> int {
    0x12f874d09c7f86aed868bf59dc4cdfafbb66a9aa7dc46f3763523e525bfbde0ab632eb06e1521897406c6a6c49d40ee0int + times(x, den_sixth_3_11(x))
}

pub(crate) open spec fn den_sixth_3_11(x: int) -> int {
    0x51a796b24fa139b5ba6823a4c6602882fc8dfc13635c05ac1eaab6b10705b76cb63f610ec42b8f00834312de9336984int + times(x, den_sixth_3_12(x))
}

pub(crate) open spec fn den_sixth_3_12(x: int) -> int {
    0x19998e5681a4e448bf8dee825f4aaed3c2009343e8e34397da1f0e47d11a1beb25db988dbb386fc07f6b581e94c494fint + times(x, den_sixth_3_13(x))
}

pub(crate) open spec fn den_sixth_3_13(x: int) -> int {
    0xdc8bae38101faded6a6c6a084add8c6b7034a3112065cd8ebc1bddac52c08f461ba314470673891b03651f73626ad3dint + times(x, den_sixth_3_14(x))
}

pub(crate) open spec fn den_sixth_3_14(x: int) -> int {
    0x35e5ccab1b15571fd5ef008fd345c2289239016663390ad3c147a1a2c9784eb86e19626cdc55deaa64ee392a1bbf182int + times(x, den_sixth_3_15(x))
}

pub(crate) open spec fn den_sixth_3_15(x: int) -> int {
    0x6978f581f3012c2f4378dc2b247aceb472e9e4076ca829a6122ba89e2582a707e1286ec7adf36dfff5257bab8ca4045int + times(x, den_sixth_4_15(x))
}

pub(crate) open spec fn den_sixth_4_0(x: int) -> int {
    0xb8d1195e3d703e3f6e2788def5a5f7f0ca3f54004e949e60a1abd26f568dfdab12199c3e8eed97a260911217591535bint + times(x, den_sixth_4_1(x))
}

pub(crate) open spec fn den_sixth_4_1(x: int) -> int {
    0x6c1ee1ff895c3e850d29f43c6cdb05ffc0d00e22f78f89dd01ab91a8704bb35d4937f47814710713e5a6c3981021966int + times(x, den_sixth_4_2(x))
}

pub(crate) open spec fn den_sixth_4_2(x: int) -> int {
    0x150d45325b4f5724c889d3da402189fc98cea2d0984e3ce343bee8c472edf4a51a4809baa25eceacb0ac33ee53eb330fint + times(x, den_sixth_4_3(x))
}

pub(crate) open spec fn den_sixth_4_3(x: int) -> int {
    0xdecc55639b7868ab0a4f03b09cd4ff3970c331381df23dd05748cd0c3351fa1250db8ee1f50c5bcb3c7dbf430cbf5eaint + times(x, den_sixth_4_4(x))
}

pub(crate) open spec fn den_sixth_4_4(x: int) -> int {
    0xe6c1904239afd56e182c91d6110f2ad6e4002d507fcd2b8e5c6ab8ef91178b8437c237a798dbd05891da1be1cdf9957int + times(x, den_sixth_4_5(x))
}

pub(crate) open spec fn den_sixth_4_5(x: int) -> int {
    0x8a24c2255cf2b40be63db8e5fcb994528f7ef072da4df77aee6ff7001402a6f6abeb0f1408f61f8fb3aef487926a685int + times(x, den_sixth_4_6(x))
}

pub(crate) open spec fn den_sixth_4_6(x: int) -> int {
    0xb2d98c48bd916967290927e5a42728f9f8c62f9dd2e824941aadac5a8cd4f76786e3abbfccc47e766262f22caecd7d6int + times(x, den_sixth_4_7(x))
}

pub(crate) open spec fn den_sixth_4_7(x: int) -> int {
    0x1703fdd2986e65efd0668c0289c201182e648ebec85bbf9678aa601fc861c5951939f9f1069b6da0d1527043d5a9b80eint + times(x, den_sixth_4_8(x))
}

pub(crate) open spec fn den_sixth_4_8(x: int) -> int {
    0x10cd9955e1b9a8a6dbf8e75aed53fc9fb0408d773f48abdcbca9ddf9bc8ca1243f3692d58bbd6f9c3150ba0b23c7d1edint + times(x, den_sixth_4_9(x))
}

pub(crate) open spec fn den_sixth_4_9(x: int) -> int {
    0x7b12725d579198c47751899fef57b19af97072cf988dec75201ac8e225e95a147c0159336ad93e90ede9ca367a3763aint + times(x, den_sixth_4_10(x))
}

pub(crate) open spec fn den_sixth_4_10(x: int) -> int {
    0x12fb06fa2a0106bc4ba705da9c1b30abf3f8f6108fe33158fe18c7041985779fdc188c8253987681f1dbbc34c061f5f8int + times(x, den_sixth_4_11(x))
}

pub(crate) open spec fn den_sixth_4_11(x: int) -> int {
    0xd74155140c29b322047be2be7f9bc341ce09ffab9de343fcd7ca35bdce852371e53950bd47e808a966ecdea3f74dbebint + times(x, den_sixth_4_12(x))
}

pub(crate) open spec fn den_sixth_4_12(x: int) -> int {
    0x11f8ebd8a570a03de686f7d2f09d8be18d594d3968a04a008f1cf3d5ea94f927e5d2a122fc295e8634bb220b43930db5int + times(x, den_sixth_4_13(x))
}

pub(crate) open spec fn den_sixth_4_13(x: int) -> int {
    0x13dba8f96e35c50f2fa6779e4fd92410211de59a44769780143c62d9a85c64fa4bbc72a4ae896f19f550e33013eeeb3eint + times(x, den_sixth_4_14(x))
}

pub(crate) open spec fn den_sixth_4_14(x: int) -> int {
    0x9e0ceb9df21a5c74d4611b96ba5a4f0da9023e98c92c24bb615e8a0f1e271532a4b21f869b09f32107eea22746a96daint + times(x, den_sixth_4_15(x))
}

pub(crate) open spec fn den_sixth_4_15(x: int) -> int {
    0x18c94e6461744909419b9389704af86529c6d6fa05e97c386716f2459faab678cbe89cee7a598336e92c69786552da3aint + times(x, den_sixth_5_15(x))
}

pub(crate) open spec fn den_sixth_5_0(x: int) -> int {
    0x1065e02e694a83aed889a810aef90987f9ee616291dccf99e03b2cfc2f7259dd90332eb2f701517fd41d96f05dd2a694int + times(x, den_sixth_5_1(x))
}

pub(crate) open spec fn den_sixth_5_1(x: int) -> int {
    0x18bf7126dcf5600c35b25ad76e5e4aeafafec65d7f201eba3b32d5f3b93319b9f3f34d6abca22a8cd4d407785bfffb9int + times(x, den_sixth_5_2(x))
}

pub(crate) open spec fn den_sixth_5_2(x: int) -> int {
    0x1749ea70e0d65f9db8d6fff7c5ae5304b7ccfe963fad2314677d872491962bf98d0eed75e818263b198dd222a7fbbb99int + times(x, den_sixth_5_3(x))
}

pub(crate) open spec fn den_sixth_5_3(x: int) -> int {
    0x182b8144a534d84d9357618361531d248c6fe9bc4035a6b9f10b1df067b27dc124f9eae8944619bca2efea9c3760f81aint + times(x, den_sixth_5_4(x))
}

pub(crate) open spec fn den_sixth_5_4(x: int) -> int {
    0x882f6ec024b3bbc2386f7d139eb58d8209955b75a75b59f2a6988ae3000cdbec91626cc35aaab5988ac2d345e61f001int + times(x, den_sixth_5_5(x))
}

pub(crate) open spec fn den_sixth_5_5(x: int) -> int {
    0x19a78e1d48e9fca89c195337958f9467b925e3c85064d8402e160d19be8da1884a67045511962256ee87c6c64612aee5int + times(x, den_sixth_5_6(x))
}

pub(crate) open spec fn den_sixth_5_6(x: int) -> int {
    0x49890f7ad48a7b78fa5687f5ba4ee74c8e6865b044b0ea94c132d90d9d759f919729b1e7236150455028b3b357498d3int + times(x, den_sixth_5_7(x))
}

pub(crate) open spec fn den_sixth_5_7(x: int) -> int {
    0xb2b024fd2542ba2cb8593eaa58c7856fa7665897213eb3b2876ae6fff976508b56150d72b2ad997139bdbe74fa3af84int + times(x, den_sixth_5_8(x))
}

pub(crate) open spec fn den_sixth_5_8(x: int) -> int {
    0xe5a1ecaf3d9f187bc9985a850bc62e6e3907e6474e47abaeec0b953ca1eeb5e508c8da45bb4904a6fe31a6a325703faint + times(x, den_sixth_5_9(x))
}

pub(crate) open spec fn den_sixth_5_9(x: int) -> int {
    0xc8cced1876963d93da3c63c257d891d728df705df94f2d97689fc23fc69158936c7c1248c9a4311376a2bf85f00af1int + times(x, den_sixth_5_10(x))
}

pub(crate) open spec fn den_sixth_5_10(x: int) -> int {
    0x15120d609b50eacdfc6d2389ffa57dbb53ceca81fa83b6a998fbadfae447c10b6a6f48f07f51a70194ff7c145733ce7cint + times(x, den_sixth_5_11(x))
}

pub(crate) open spec fn den_sixth_5_11(x: int) -> int {
    0xdc13441f9013ad37f2718d0a6fa2516581ec60d3b80a4ca693d353f017a575c5d319685888ac98486da1e8b205c87daint + times(x, den_sixth_5_12(x))
}

pub(crate) open spec fn den_sixth_5_12(x: int) -> int {
    0x1789ce0735a6beb07865273b4dda1d3f3a7fc6d3b7346c63a18070816fab237c8b2eb061db37da97c2f61242bd1e9278int + times(x, den_sixth_5_13(x))
}

pub(crate) open spec fn den_sixth_5_13(x: int) -> int {
    0xaf17eee28e066b447f3586c86db8d8dfe58ee2b52575e3174c80c0b764f6aea1675658336ce0013b2ca14ff4239ecd5int + times(x, den_sixth_5_14(x))
}

pub(crate) open spec fn den_sixth_5_14(x: int) -> int {
    0xce86deb0d150524918eca7678286a8862f53a5af67fc08812e81835d5cbed6229dd87126a8695490ef3555553adda1dint + times(x, den_sixth_5_15(x))
}

pub(crate) open spec fn den_sixth_5_15(x: int) -> int {
    0x4cf6f4e363d19f5a8bc2c2140cc8ffd67825e47df148aff84d72826d6badd0701257bbd3006c4a40127de92078ff6b0int + times(x, den_sixth_6_15(x))
}

pub(crate) open spec fn den_sixth_6_0(x: int) -> int {
    0xd2f640dd2af63850eba582b5d198d1e66cecf5800131c05b39a52c30f5c168f590564d76de90d739a2968d84f160a54int + times(x, den_sixth_6_1(x))
}

pub(crate) open spec fn den_sixth_6_1(x: int) -> int {
    0x65397d7cffa149cdb9c1f733b417fc111b28db1fee5c8906be9964f74839ddeaf3a71ed04245f8d42925916b46a50c2int + times(x, den_sixth_6_2(x))
}

pub(crate) open spec fn den_sixth_6_2(x: int) -> int {
    0x5a188694742d2fd566d2653ee5afd6573930b478b272c1be782b9614b542e0a5a1cdcbb563404e92fce0380429624a3int + times(x, den_sixth_6_3(x))
}

pub(crate) open spec fn den_sixth_6_3(x: int) -> int {
    0x863a1b5aec74c3788aa1414140b186b183abc6787468bc6a5ec11ec5ec1710e276d9ca72ac5f4ba161d6b20439d397dint + times(x, den_sixth_6_4(x))
}

pub(crate) open spec fn den_sixth_6_4(x: int) -> int {
    0x14e47791bdbc3c2677a5c67acd166758b57c6672444de7fdd947bd8f8598f3a2caf847c63c1430d5438fa2c38f85d8f0int + times(x, den_sixth_6_5(x))
}

pub(crate) open spec fn den_sixth_6_5(x: int) -> int {
    0xaf7fb2dd7b9cefde635a2dfc20e73a74eb12d474a2bb1b86cea70b3c3241ead1c93077718c5f409962e1dffaea47df3int + times(x, den_sixth_6_6(x))
}

pub(crate) open spec fn den_sixth_6_6(x: int) -> int {
    0xfa8b2cf74223394434c2f0d78add2061b815f71dbf1ae9bb3b5c3e52c85db255816f493963827bf6ab5746852d3fa27int + times(x, den_sixth_6_7(x))
}

pub(crate) open spec fn den_sixth_6_7(x: int) -> int {
    0xf7a4235b74cb88b54894c9fd8e6df4b92ee99d5ccaf7d04305e01c7473742d5403ca2839af60d2833f3e1a0249b1166int + times(x, den_sixth_6_8(x))
}

pub(crate) open spec fn den_sixth_6_8(x: int) -> int {
    0xd2f184415306ed14cadb1844f0bcf051704368b7963982c1f153b37dca072dee80afed5e01d7ff7a798999f8133caf6int + times(x, den_sixth_6_9(x))
}

pub(crate) open spec fn den_sixth_6_9(x: int) -> int {
    0x15cb39b2f428d8119e10ec1e9a23ac63404bb0f6ff22bf830b918bd9762b99a7ef4e23bc1abfbf72f98f862816401410int + times(x, den_sixth_6_10(x))
}

pub(crate) open spec fn den_sixth_6_10(x: int) -> int {
    0xd371d1902d0b22f3102baf36d4f834684ae8b7af46d5816eaa55a31cf4560266e720c778f6877029a30bd98667c0175int + times(x, den_sixth_6_11(x))
}

pub(crate) open spec fn den_sixth_6_11(x: int) -> int {
    0x11cc3107f9c3e23982a1ffddbf89ad9d2713a71ab5d540e47457f39a373659666f96a3bb78848ae8549b20252e3fcf1eint + times(x, den_sixth_6_12(x))
}

pub(crate) open spec fn den_sixth_6_12(x: int) -> int {
    0x18afe316a696d84d2ba9bab885705c053d291563b7051b23144d58a14636e26d9719996af4560fe61d6e39b19af4a440int + times(x, den_sixth_6_13(x))
}

pub(crate) open spec fn den_sixth_6_13(x: int) -> int {
    0x14ed9d55bbd2384087f21625cfe75791ea25425081d09615365a176d8559cd50737ab56c56a0f4040e8d64cbd6809d1dint + times(x, den_sixth_6_14(x))
}

pub(crate) open spec fn den_sixth_6_14(x: int) -> int {
    0x15f69c0efe36256254256cecd7a00b5214f857067d48c53d261b224c5e5c78c6d5ddee0201b0f7c1b86097125c95e9afint + times(x, den_sixth_6_15(x))
}

pub(crate) open spec fn den_sixth_6_15(x: int) -> int {
    0x30355d5729590aa089068587e8f8c6d9f1369dde02648bd9634b9ed79d18944c4f1885a742a7f8a7e35adfb741ccfbfint + times(x, den_sixth_7_15(x))
}

pub(crate) open spec fn den_sixth_7_0(x: int) -> int {
    0x127639bd57e96070e9f6256f5369edd6d625633ac1a2a541a31e92b1293b19808991ba5b298dad3fba2a1e886347f283int + times(x, den_sixth_7_1(x))
}

pub(crate) open spec fn den_sixth_7_1(x: int) -> int {
    0xf7f295b9a733bbac704c240903a30bdfe415d9b8e962eef67f71a1a1fef4ce4fb44a9af50ec33e1190459b498444effint + times(x, den_sixth_7_2(x))
}

pub(crate) open spec fn den_sixth_7_2(x: int) -> int {
    0xaaf4020f8de54cc229064d9c791d2173eabff4da810dbaa4a4c5517e434cc4de4db1b66a7c9c83b3e2893d9763475f6int + times(x, den_sixth_7_3(x))
}

pub(crate) open spec fn den_sixth_7_3(x: int) -> int {
    0x95d5b00414d3b9e5612df7dc517dc596a9e9bbbc3ff2b355e821d42a4a84f907e4511609f8a0b4511f23a670aac0554int + times(x, den_sixth_7_4(x))
}

pub(crate) open spec fn den_sixth_7_4(x: int) -> int {
    0x11576564022af6443cc5dd402877f8d9d47bd433900c54c78dc1b3d6ac70e3611fb373cfbf55d30ed759b0c427d46313int + times(x, den_sixth_7_5(x))
}

pub(crate) open spec fn den_sixth_7_5(x: int) -> int {
    0x13bd490d89dc57f62786eaceaf2a4e0c9e476e31c0e2b0cb7b8aadb40e354ebc2ead60cb60f9113b7533a451ef25255dint + times(x, den_sixth_7_6(x))
}

pub(crate) open spec fn den_sixth_7_6(x: int) -> int {
    0x1157b16610c7b40b3a2ff3594f322d337d225db35780f7d7a905979f76fae868a524453ee85de003dd29276d7c13ec88int + times(x, den_sixth_7_7(x))
}

pub(crate) open spec fn den_sixth_7_7(x: int) -> int {
    0xadc8d1672b5efaa0c6e6278ff727a8e107f4070fc94cdac3906452cd166c91a6f1d7f511bfb7897516b0225817520f7int + times(x, den_sixth_7_8(x))
}

pub(crate) open spec fn den_sixth_7_8(x: int) -> int {
    0xcde95cea4759edafed8c5e57752c00746110a590fec597c7333e7455aa915a4d7a49aebf28427c541770df310f113f4int + times(x, den_sixth_7_9(x))
}

pub(crate) open spec fn den_sixth_7_9(x: int) -> int {
    0x46057ac56bd9038b045585e1736dab60fa7b1acb5ec9a8be1a9ca8fbfc8c9a6d3958be8964d034945bb046748b33983int + times(x, den_sixth_7_10(x))
}

pub(crate) open spec fn den_sixth_7_10(x: int) -> int {
    0x72766c30af0eb2a1cd63dfd4017fe7ce4b62bed0ca218c2d168ad9373fedf6fbebe3843081416b8f44f7982be117bfcint + times(x, den_sixth_7_11(x))
}

pub(crate) open spec fn den_sixth_7_11(x: int) -> int {
    0x117783257bcf677aa9a0cb3ac2bd445fd3f5826d00c8fc344fda5ad7c456ee2f95fa124e7c459522d6e43552eb23faf1int + times(x, den_sixth_7_12(x))
}

pub(crate) open spec fn den_sixth_7_12(x: int) -> int {
    0x1129712b39f9ade1f00f6d4f8c2e6035115281f6efa2e016eea84ba4620707b6ddb9ec456f76224841239e9b5e55b3b4int + times(x, den_sixth_7_13(x))
}

pub(crate) open spec fn den_sixth_7_13(x: int) -> int {
    0xf108c7d486bb86d21497a6fdfb430794d66f11893e6c9aa685f2c786a85546784f72261b60002a33075cd6bf4087716int + times(x, den_sixth_7_14(x))
}

pub(crate) open spec fn den_sixth_7_14(x: int) -> int {
    0x6a45fff217b9c148ff188da14f1b6f9a49db768469e628d9f9226d230787f170da2ec577ff35fd0fb1a9a6261b2030eint + times(x, den_sixth_7_15(x))
}

pub(crate) open spec fn den_sixth_7_15(x: int) -> int {
    0x2acb58221b02046d29499ce50759538c7ea8df35aeb2314edf443660f207f6487c06a64c862a2f450bb3496cb6397e0int + times(x, den_sixth_8_15(x))
}

pub(crate) open spec fn den_sixth_8_0(x: int) -> int {
    0x57e208df1b79c4041c3ca84a5990504906d66a150243285599c6eb233584b8c23430dc4678c60f2fb0d9674aa0ed923int + times(x, den_sixth_8_1(x))
}

pub(crate) open spec fn den_sixth_8_1(x: int) -> int {
    0x4b95fe688ebfef774ef8e3216db9fcf488c3cdf1a68c0041d90b1b32709041260a1a5758f6565d4c2f2da7985dc6c9cint + times(x, den_sixth_8_2(x))
}

pub(crate) open spec fn den_sixth_8_2(x: int) -> int {
    0x167f1ca6d893de9fa1a7b4a537e35c9cd44288568d3b23dbc2714baca687f1544571dc4eed97ac4649aabfbf513ffb84int + times(x, den_sixth_8_3(x))
}

pub(crate) open spec fn den_sixth_8_3(x: int) -> int {
    0x18ed0a7350851ea6472061733da6930dd3751754bf80b699c85b53e8b4976de93e9814fbdc447a721508cbbb879eee83int + times(x, den_sixth_8_4(x))
}

pub(crate) open spec fn den_sixth_8_4(x: int) -> int {
    0x183af98d2baa5fe79f4d85f1824ba7bbbf52681a2ac0742c06c9c3293b23c4d8d1630487cc065f63cc4d3cd2f2557000int + times(x, den_sixth_8_5(x))
}

pub(crate) open spec fn den_sixth_8_5(x: int) -> int {
    0x133520966a42af8b1fd69a12c57d7b1b67562190e25272ab21ad2d77a6be8dfc0a0be7fa35c5b2df865e6d3ad38cc7aaint + times(x, den_sixth_8_6(x))
}

pub(crate) open spec fn den_sixth_8_6(x: int) -> int {
    0x1526d47f8274d02c6047b9a4e191e3fa1516da9ff0134f3d5519d35518defb14fb760ab9170aed895c8fcc5f31cfe901int + times(x, den_sixth_8_7(x))
}

pub(crate) open spec fn den_sixth_8_7(x: int) -> int {
    0x1832fccf11291f70ae6709fba3442837488a38d212c9c49ea3196dd86d2d80853bb4cf575be0ac56dbbfe6e5af7c787aint + times(x, den_sixth_8_8(x))
}

pub(crate) open spec fn den_sixth_8_8(x: int) -> int {
    0xc01559b5be0e964780abc4e09a7c1323800a53f3e61e8d7a12cecf39a65ae9a356ad49e9df416e3f58ac01c5cec0282int + times(x, den_sixth_8_9(x))
}

pub(crate) open spec fn den_sixth_8_9(x: int) -> int {
    0xdfda0f0008ce2701f03d80cba02e27d0555109290e87485b08c25d60a9193ceacd8721a19fe46523b046c63702aa7c3int + times(x, den_sixth_8_10(x))
}

pub(crate) open spec fn den_sixth_8_10(x: int) -> int {
    0x21207fd3350c1f27fb11349f7fbc22f331bb46db1ff5325237606b283f0d835b86dc63dfb8380f60dacf770dc235156int + times(x, den_sixth_8_11(x))
}

pub(crate) open spec fn den_sixth_8_11(x: int) -> int {
    0x588438a3087ecef844af4a2340a35707d62a3b5a43cbaf0eb769fe6897d8eea0774db3b3d5759fe28c6de3a4ec76cc5int + times(x, den_sixth_8_12(x))
}

pub(crate) open spec fn den_sixth_8_12(x: int) -> int {
    0x16c38a882853067c88b7cb802fe2839f1f90d7613fae7b540bcb9a38c7227d3ce87b5276fbf44ca52fc603aab7731b3fint + times(x, den_sixth_8_13(x))
}

pub(crate) open spec fn den_sixth_8_13(x: int) -> int {
    0x1913b38886ba9c00bb017f22b11ce4c886537fc6ca1cdc3e360e17bf519d17f05134ae77603d20e8974aa7ad16422f4eint + times(x, den_sixth_8_14(x))
}

pub(crate) open spec fn den_sixth_8_14(x: int) -> int {
    0x609d8639cf15ef719f36389d81a42a146bda2195450e5fc5671c634ff9c0455ed4b74b371b4c40fa9cbf33cb5e213b2int + times(x, den_sixth_8_15(x))
}

pub(crate) open spec fn den_sixth_8_15(x: int) -> int {
    0xf54cb78178bfb44ae3e639bfd71fadba39c96c394627b142772935f65bb35d1d2406eb9658dc0844a4815ecbc8a68b3int + times(x, den_sixth_9_15(x))
}

pub(crate) open spec fn den_sixth_9_0(x: int) -> int {
    0x1465141a9a529a8f550b4c50d6448d04d8108c37293c69df57b5b218f56681351804d3623f0d26d857bfa79f0b5ca67eint + times(x, den_sixth_9_1(x))
}

pub(crate) open spec fn den_sixth_9_1(x: int) -> int {
    0x2bb4e85ce50840796758d1affbf09b3995aa8f5d05963e77ef5e3aa1db46136dc627f76e2c6f7405e34749908ec174fint + times(x, den_sixth_9_2(x))
}

pub(crate) open spec fn den_sixth_9_2(x: int) -> int {
    0x128353e913a81e8e245d14313e8aa8affc18b222ec01064fe343da1c9e3423f01607c22a6d132a282132797e7f222e8aint + times(x, den_sixth_9_3(x))
}

pub(crate) open spec fn den_sixth_9_3(x: int) -> int {
    0x129862871c44e2e38eda32813a8423730988402c5d8bb38a7296939f7e2e88bd478dc2896b73c95eae985eaf1e314d97int + times(x, den_sixth_9_4(x))
}

pub(crate) open spec fn den_sixth_9_4(x: int) -> int {
    0x145544012db5768eb7c6610a4da7f78016b43d023a1d74f4634a75eb23d6e572f9bbfcd975072fbd4a6f3470c5d0d516int + times(x, den_sixth_9_5(x))
}

pub(crate) open spec fn den_sixth_9_5(x: int) -> int {
    0x12d44951dffa510520086a9991f88f830e91e485734484bd6f0add4a0da5515082888b3452e8e629066234e532113f02int + times(x, den_sixth_9_6(x))
}

pub(crate) open spec fn den_sixth_9_6(x: int) -> int {
    0x98651e5445cb96c12d9a65b8be9e38fe68c1bc622221d016bce21ca8900f541811903c413e930e8bc09bfd84e083255int + times(x, den_sixth_9_7(x))
}

pub(crate) open spec fn den_sixth_9_7(x: int) -> int {
    0x38b4143b0abb7ce62959606ed8443122b05beaf4d4fd381484411553a6814e1b5f84f3543561082a882a38d964d206dint + times(x, den_sixth_9_8(x))
}

pub(crate) open spec fn den_sixth_9_8(x: int) -> int {
    0x47627fd8bf917ccb684cf4335e186bd00f40ab5dbf107ef24250ffbaa1a2bec16ab897e825f66b9e23a0e23efbdacbaint + times(x, den_sixth_9_9(x))
}

pub(crate) open spec fn den_sixth_9_9(x: int) -> int {
    0x14c669edaffda72f3ce911dc5d8dca09a439f5745a76742502a6f3d65dcf1c0275f391733da65f50f180a37007ebcaf5int + times(x, den_sixth_9_10(x))
}

pub(crate) open spec fn den_sixth_9_10(x: int) -> int {
    0x58707661d6f16350dc65eb815c5227716a6d854ed41ba5ab1eb7b35db18d9d95526c935e844933932c9909aa002d6a6int + times(x, den_sixth_9_11(x))
}

pub(crate) open spec fn den_sixth_9_11(x: int) -> int {
    0x1c7b6d784a1eebc579d483c3ffcf1c6028df33da732c527c75ab2dfb88c660f1aba085ea11ed45bf3f99ec7c2cd37b0int + times(x, den_sixth_9_12(x))
}

pub(crate) open spec fn den_sixth_9_12(x: int) -> int {
    0x142a8115870519a1bee52956e319220a19a63f24423c44cbf469ec476895b291f8d76df5f93d5a87f7c4fd2580d96e08int + times(x, den_sixth_9_13(x))
}

pub(crate) open spec fn den_sixth_9_13(x: int) -> int {
    0x2ac75798c0e86e197836c732249fc6d235fc66f29b117e2bbfcf8273b5e62cdb4c74f1c9bd046d86accaa2bdf521f8dint + times(x, den_sixth_9_14(x))
}

pub(crate) open spec fn den_sixth_9_14(x: int) -> int {
    0x10ef14751d9f80bbdf3e26026ee65aee0e18d563c13834b2e2ddf0f4107890ad9e1c8bc05b4f78009923d84f6736b614int + times(x, den_sixth_9_15(x))
}

pub(crate) open spec fn den_sixth_9_15(x: int) -> int {
    0x17b5d8c77eed629f1bd11ec5a062d2d3d8eeeb747f71c598f7f1f0ed114a9a85f8352056a48ab6cb28816bb2314b9b05int + times(x, den_sixth_10_15(x))
}

pub(crate) open spec fn den_sixth_10_0(x: int) -> int {
    0x11218ac956e4efd50ffc47b0d65ad09a7f9d15adc960c1175bdcf0467f8a2674cbb412c5542d8e6ce197765c513b9e08int + times(x, den_sixth_10_1(x))
}

pub(crate) open spec fn den_sixth_10_1(x: int) -> int {
    0x5cd84f861aaea2f58e7733ad6fa095152b41a8c44eb06ba01103beedb52ec8be973b12479fe4655d4e631e22b1e73aint + times(x, den_sixth_10_2(x))
}

pub(crate) open spec fn den_sixth_10_2(x: int) -> int {
    0x13b705f36893d0a6b057497680df0f9f556167710a909f5127caa8d88be7717e7eaefe413150971419f924f15d35cefaint + times(x, den_sixth_10_3(x))
}

pub(crate) open spec fn den_sixth_10_3(x: int) -> int {
    0xfd29bc129667efe1cf26625c233275e63668b4c1f3fe2898d8b00fd4e6450be3dc74ebe8ba2c1ef174b2379084b82bint + times(x, den_sixth_10_4(x))
}

pub(crate) open spec fn den_sixth_10_4(x: int) -> int {
    0x53982bea33442fe8dc03803db60d91ee9f5f01b9b29bafc8f86a61eb3ce3cb2b87b0df938e8c1efe0852bc52d55545cint + times(x, den_sixth_10_5(x))
}

pub(crate) open spec fn den_sixth_10_5(x: int) -> int {
    0x99ae00f4a9803573a180226918f733ec51752832ebb6fad3707d366d7e713e696f7af3ebad993b03f147a348b93239int + times(x, den_sixth_10_6(x))
}

pub(crate) open spec fn den_sixth_10_6(x: int) -> int {
    0xb2c3f32b5cf10fa2a5af9f6dff5298e535eb241d5c521cd07c733b91504f9d517cd97eb4afd241d58525f42aa85e96cint + times(x, den_sixth_10_7(x))
}

pub(crate) open spec fn den_sixth_10_7(x: int) -> int {
    0x14efc0f550e533c399216e2ff50bd7d4610a505e1a7eae17feeeccc24053ba2d9f2aa0e19c148721436eafe46f505c5cint + times(x, den_sixth_10_8(x))
}

pub(crate) open spec fn den_sixth_10_8(x: int) -> int {
    0xbd23754a8b2522e026a239c98058fb9076bf4510fd92134c5ac99547b3a049226caf577ee8cd78ec7d0b44ab0de1ffbint + times(x, den_sixth_10_9(x))
}

pub(crate) open spec fn den_sixth_10_9(x: int) -> int {
    0xc64a73230ba2484a0cdc9c4b8257c3294e36b7d02f4be1c338b7922cfd55b3c65f44e773d2cc19b749634bc32a96d1dint + times(x, den_sixth_10_10(x))
}

pub(crate) open spec fn den_sixth_10_10(x: int) -> int {
    0x25e1a107025e37c40a6875d505d53794438506d78ff05159ea766d931666e694bf42410fdfc6372b5e1f30d5f6f7c65int + times(x, den_sixth_10_11(x))
}

pub(crate) open spec fn den_sixth_10_11(x: int) -> int {
    0x167e92919f2c742ec5ea79075643493bc330b4b34a4dac161b2088db453f656d0672435858d68df2b1569ae37be02d66int + times(x, den_sixth_10_12(x))
}

pub(crate) open spec fn den_sixth_10_12(x: int) -> int {
    0x27f99116e5ea51760e6443ed44c423510479bb63bbef07e9075698019a3a74e6866005da97a872045c6ee690d0b4af8int + times(x, den_sixth_10_13(x))
}

pub(crate) open spec fn den_sixth_10_13(x: int) -> int {
    0x1665879231b38fb50555330071c0fbba05caad0b50b73d695d1ae8326a3479eac84d0c2f7cd0d6aad3a9a7882b7928d1int + times(x, den_sixth_10_14(x))
}

pub(crate) open spec fn den_sixth_10_14(x: int) -> int {
    0x13b82f9d7e2f482314f192dc7184e43a6d7f4109e343ddda4e997be92a2c58a30fcc1b2cf61036cf412772678ba5bb0int + times(x, den_sixth_10_15(x))
}

pub(crate) open spec fn den_sixth_10_15(x: int) -> int {
    0x7e0fa5c9e70d6ff471f114592f149978d5f92baa0f75b43e97f762fb12097773473e2d14291059084446e730d3d9497int + times(x, den_sixth_11_15(x))
}

pub(crate) open spec fn den_sixth_11_0(x: int) -> int {
    0x188ea8a5b445e55f0dc8e909b174b89f3db7ecc85fa4785d27a482aca1b47436cc66267d9f870f4b113b420d254a3947int + times(x, den_sixth_11_1(x))
}

pub(crate) open spec fn den_sixth_11_1(x: int) -> int {
    0x128a3ac2dcf90fab71933ac14646459f35151ba1467bd1f7881f005e88c72f51fc1e5d6d1fe7a32a75a084116cbfa78eint + times(x, den_sixth_11_2(x))
}

pub(crate) open spec fn den_sixth_11_2(x: int) -> int {
    0xfb6edfb850fe1679bf72758c2177ab73ede11bc313d8077eeb8f0ec91f9f2c694159f76ef69a77079e5e46eae53ca30int + times(x, den_sixth_11_3(x))
}

pub(crate) open spec fn den_sixth_11_3(x: int) -> int {
    0xd085a9bcb29b91a210f164344e92ddc319d25005cc4eb909007517dd0c04c8f8e7afd87df6def9ebc1f124ff2e31400int + times(x, den_sixth_11_4(x))
}

pub(crate) open spec fn den_sixth_11_4(x: int) -> int {
    0x152da534d816d79154548b7039725dbd8ce5b9d378abfd446065b14ff6249daee4e55bf871bb1ac688151b707c577cdint + times(x, den_sixth_11_5(x))
}

pub(crate) open spec fn den_sixth_11_5(x: int) -> int {
    0x25579c609bbef03a99d976189dc80fdde57d87397446441fecba417058863557cf1175c51e1b06403dca6118cbd217aint + times(x, den_sixth_11_6(x))
}

pub(crate) open spec fn den_sixth_11_6(x: int) -> int {
    0x1c4e9380d01446f503360892bab0efd1d31e97eab3ff71b76e17263e03578686e98dab9fcaab6bad024a2c52169dd78int + times(x, den_sixth_11_7(x))
}

pub(crate) open spec fn den_sixth_11_7(x: int) -> int {
    0x485875aebdf50d074867a78ba4beabc1412e9d2c4cb2f753dacb3d75e67523ac5a4c0ae7f5bb5e9f1a56049dca6eeefint + times(x, den_sixth_11_8(x))
}

pub(crate) open spec fn den_sixth_11_8(x: int) -> int {
    0x134246fe440532d433d534d15a85d5ee131ffea518a7c1ddb52b770fc491dc9f76c1d3b89214effdb662d8ddc5500394int + times(x, den_sixth_11_9(x))
}

pub(crate) open spec fn den_sixth_11_9(x: int) -> int {
    0x271553dc61736796815a4c3f06f3c84234a0dda661585e9e62fc14da5546e9db53157ac320a61314b45eb84a8207a4bint + times(x, den_sixth_11_10(x))
}

pub(crate) open spec fn den_sixth_11_10(x: int) -> int {
    0xe8233dfd60abba229d6080760ed9ca281c55ab169d5adbe7eb2c64738413fb471cec42c92bf3fc51c1a56fdba0e3d35int + times(x, den_sixth_11_11(x))
}

pub(crate) open spec fn den_sixth_11_11(x: int) -> int {
    0x18f03118ff5d8d760453089ae2f5852e3d165a60351287a2ccf36ccee858d6f173e05d6dac590edd88f9acce9bd8044bint + times(x, den_sixth_11_12(x))
}

pub(crate) open spec fn den_sixth_11_12(x: int) -> int {
    0xf00c34f1e5db037d04e9eb6072418389291275cf02035ff6a961e1ece9ef7427cebe0ec685b8d37a89f30a8ea7da31fint + times(x, den_sixth_11_13(x))
}

pub(crate) open spec fn den_sixth_11_13(x: int) -> int {
    0x16ef77175c196bb6d6bbfc768cdd93bbb3fce2015423b4c880c4f799680cc14d78ea064652f7eb1ea512abea1463e4a5int + times(x, den_sixth_11_14(x))
}

pub(crate) open spec fn den_sixth_11_14(x: int) -> int {
    0x30e0802afccd141fe2f00a5781eb879f0f1c280e595b51adb265af8cae9f1aec2ce2031f30dff8c834bb9d652ae29efint + times(x, den_sixth_11_15(x))
}

pub(crate) open spec fn den_sixth_11_15(x: int) -> int {
    0x13764c6e4c41d649b67b02a4b1f9dbdb7d290f4f19150ad63d790206ffc78eb12495572834ff619984b1a0eb877c66ddint + times(x, den_sixth_12_15(x))
}

pub(crate) open spec fn den_sixth_12_0(x: int) -> int {
    0x7e47f5841aa1e5d75300a7a13935dd921e63877978ee2a420ac5dcc29c6a894f3c300ab7f3039fc571b80b6d2444e38int + times(x, den_sixth_12_1(x))
}

pub(crate) open spec fn den_sixth_12_1(x: int) -> int {
    0x2a46b8e85b7d2f65b122857db970e21315c5cb74dd8632dd14701639fba3888765b188bfc81639a7fe2e890c10050c2int + times(x, den_sixth_12_2(x))
}

pub(crate) open spec fn den_sixth_12_2(x: int) -> int {
    0xe7d64096b0c5a0c5f3f22d5152af289155efcac2ed49cf65049a75e3247294808393fa956fad30ebc79d56ca11f5c9int + times(x, den_sixth_12_3(x))
}

pub(crate) open spec fn den_sixth_12_3(x: int) -> int {
    0x8f0d262a80fbd14f16aae151b42e7630fbc86247830423e118565b406c1b8af3a6a09a431eed8236711ffe11f846a5eint + times(x, den_sixth_12_4(x))
}

pub(crate) open spec fn den_sixth_12_4(x: int) -> int {
    0x1cb629d138b665f5b7939845031df2e0ae79de15031178e8033c909d3536c1f8e318d4e58bf5de21733451ed2dc9b15int + times(x, den_sixth_12_5(x))
}

pub(crate) open spec fn den_sixth_12_5(x: int) -> int {
    0x112130dd57ae33fa3583465eef850cb43f4bb9d5f591e1b93b22fefe13aef495dc6c6f403d8e428b29d7fc22b13b3501int + times(x, den_sixth_12_6(x))
}

pub(crate) open spec fn den_sixth_12_6(x: int) -> int {
    0xf211e1cdce091e295b26a3e32d61562d7b06758698699257879325314b2326506c4749cafeda1bce26d2267cda5efffint + times(x, den_sixth_12_7(x))
}

pub(crate) open spec fn den_sixth_12_7(x: int) -> int {
    0x13410ada30ec5c19bd509ee73c40c2f4ac64334461acc1477ba0525f162d278ec473c1b33d022938c0658b3e168b6d75int + times(x, den_sixth_12_8(x))
}

pub(crate) open spec fn den_sixth_12_8(x: int) -> int {
    0x307b876b19b2b39511ee3e500cf9e3764f46b0a37e1c5d7bd7c75471e2e76f7e66b735e8ee7f0480d2e3fca44c2bf00int + times(x, den_sixth_12_9(x))
}

pub(crate) open spec fn den_sixth_12_9(x: int) -> int {
    0x685d52e0ce903158dc197076b97f009405a00af895daf66e24503b32b4319fbdd2b4500cca7f19786de1317f83c4d04int + times(x, den_sixth_12_10(x))
}

pub(crate) open spec fn den_sixth_12_10(x: int) -> int {
    0x3bd96535bd2796b195d38e9b0cbbce1ef4b7f18195dae318831a9381d789e97328c0cf5cd5d941681c087c82f8b3e40int + times(x, den_sixth_12_11(x))
}

pub(crate) open spec fn den_sixth_12_11(x: int) -> int {
    0x14aaeeb12885f0ef7cad05a9205ed3d98409f12443f3c6e9c751b3002e3615faf876375c0b70e04202238af65e4509afint + times(x, den_sixth_12_12(x))
}

pub(crate) open spec fn den_sixth_12_12(x: int) -> int {
    0xcd1e2059473b6ad1f3315e574f68b26c624bb9ffd29cf12811f8c178da117e198581b5a0b45f5e5cdad4671e88b4dc0int + times(x, den_sixth_12_13(x))
}

pub(crate) open spec fn den_sixth_12_13(x: int) -> int {
    0x2badcd247416cdbdda7313abd2e294138c2d85e4d51560cfc7e0402db38958ad21934aff6996325c84c959e87d7e392int + times(x, den_sixth_12_14(x))
}

pub(crate) open spec fn den_sixth_12_14(x: int) -> int {
    0x8a991070424d309c0f5d6866934cf93fd940fc42946c803b169677e311ffd7c0d9bee8fc580a5aeee2cebc1a526564bint + times(x, den_sixth_12_15(x))
}

pub(crate) open spec fn den_sixth_12_15(x: int) -> int {
    0x4ddfd29ce8ef76f50a0b65af1fa0923b63e2307b7d3f56ecbdd1fb5822791d08d1f5cda5fcddf3e904116e5560f5819int + times(x, den_sixth_13_15(x))
}

pub(crate) open spec fn den_sixth_13_0(x: int) -> int {
    0x17336fb544d73171deb6b430e98b9cdd966df9d773c28034815d2d0549ed1dad21e564ec71b032109f0f4a7a901b440int + times(x, den_sixth_13_1(x))
}

pub(crate) open spec fn den_sixth_13_1(x: int) -> int {
    0xd433d9a2177ff97f07266c6faee4584f0adbe2306d782bd1b7561ac7e59bb0620e1d8a5abebc9495630b7ef60a31a8eint + times(x, den_sixth_13_2(x))
}

pub(crate) open spec fn den_sixth_13_2(x: int) -> int {
    0x14cb4ece80b80a0285b98d58dd47f8a9f07d1ceaf38042446160182b66986927a65fe5272ab9d1b1f58a184975acfcfaint + times(x, den_sixth_13_3(x))
}

pub(crate) open spec fn den_sixth_13_3(x: int) -> int {
    0x1794bcf0a09be78f3f35023849da253a3a24623a16968517c184dd13e0e9c078243c82af9674c8e02351419eafa5bfe5int + times(x, den_sixth_13_4(x))
}

pub(crate) open spec fn den_sixth_13_4(x: int) -> int {
    0xb6393de1bcb57833fc01f0161349d122bdf9a1cf432b63a0dfa8216db3a2a7fc0d46299dadaf2dbbb7d0a05225c71a7int + times(x, den_sixth_13_5(x))
}

pub(crate) open spec fn den_sixth_13_5(x: int) -> int {
    0x7e8be2bb219211013a97ac07022fdbd6e7cd461b34a7a36b406348992d23e2705a4ed8037dd26f99be31e091dd546b0int + times(x, den_sixth_13_6(x))
}

pub(crate) open spec fn den_sixth_13_6(x: int) -> int {
    0x79fdd39277a9b27518c2639e41c98301874550316469c21786ea6a13da3aec1ee2eb0a90ae360eea808cadd06fd2686int + times(x, den_sixth_13_7(x))
}

pub(crate) open spec fn den_sixth_13_7(x: int) -> int {
    0x80cf6b04769fa136b2008575435b935ac68d26b92eb226ae03c608f064955ee37562944e56677fe8b60dae7501c861cint + times(x, den_sixth_13_8(x))
}

pub(crate) open spec fn den_sixth_13_8(x: int) -> int {
    0x8d9e6aa25105da294c6e6b7dec2173ae9e4763e916f16b108fba04707ecccd6eac61a632c412502406fb0d5f3430c62int + times(x, den_sixth_13_9(x))
}

pub(crate) open spec fn den_sixth_13_9(x: int) -> int {
    0x2d1c70b3517b2f71ae558f7c295303b7a2f23d1f2c32965d7ed9e5f57cd8161f5a6a071ee81bd40af4462dbe584ce8int + times(x, den_sixth_13_10(x))
}

pub(crate) open spec fn den_sixth_13_10(x: int) -> int {
    0x540828f92e4b0cddefc4e5f64de2a3110b6f66a4424514bcdc7540971c3e8f55548dccfd32334ca1a8e543d20cc594int + times(x, den_sixth_13_11(x))
}

pub(crate) open spec fn den_sixth_13_11(x: int) -> int {
    0xae3f6c1ea79abf1fc9e08e02b6c47ad12ca2fd48247f68676d264d583a982a45fdd04fc9944c0e55ad4254048c04d45int + times(x, den_sixth_13_12(x))
}

pub(crate) open spec fn den_sixth_13_12(x: int) -> int {
    0x10f106236bf85eccc91d5c7deb1e7b3778eb6f1fca3e3701a858246853e8c6cda98ff167f9f282c81f21b739869e9fa1int + times(x, den_sixth_13_13(x))
}

pub(crate) open spec fn den_sixth_13_13(x: int) -> int {
    0x162f463baf7e1afb51eb2cd2e3c12571b5e2818fa1f7e0ce73f2c9a6d5a7352e3e225773c3c583e5b40e959be127f6eeint + times(x, den_sixth_13_14(x))
}

pub(crate) open spec fn den_sixth_13_14(x: int) -> int {
    0x140855c2bb985e25d85b2ccc80e6a164c68227b3207a0607b5b1035cd8caec6e18cb55752d68d47d2ba665acfedbbcf8int + times(x, den_sixth_13_15(x))
}

pub(crate) open spec fn den_sixth_13_15(x: int) -> int {
    0x69b0119eb226214a28f7a623a49fbe8439cc92d176d8c857ca66c9c351f59014c9722c0431605133aa5928af0b6af70int + times(x, den_sixth_14_15(x))
}

pub(crate) open spec fn den_sixth_14_0(x: int) -> int {
    0xa8b48d75422ca47308b6d84ee7b7ebbb07f81738ad48cca727a6915442193879757a5f84c34a7681a19dfb1c0835baaint + times(x, den_sixth_14_1(x))
}

pub(crate) open spec fn den_sixth_14_1(x: int) -> int {
    0xb5fd9d3e1376e4795580d450b00bba28949655f81a4b453129701ca1b5cb8e6c3bff5fda8cce1d731d0f3c7b2edd2d0int + times(x, den_sixth_14_2(x))
}

pub(crate) open spec fn den_sixth_14_2(x: int) -> int {
    0x1c3dbfb8b8aa65403f98bb4727e2b7dac0319bd79ab5f7ffdaf406e0fa1ba8789a8f28f70e2eed4edd711b2bd1275b2int + times(x, den_sixth_14_3(x))
}

pub(crate) open spec fn den_sixth_14_3(x: int) -> int {
    0xf11b8ebe33c5124887ece9e5f35964145417b5666f08b1d9b3e8fbea288e9020046a05707895e5989223917cb8c18e1int + times(x, den_sixth_14_4(x))
}

pub(crate) open spec fn den_sixth_14_4(x: int) -> int {
    0x15a722542fcf92a8f75fdd0c6eb7cc34ad4cfb9a17f83728538b811f62b9b5aa86492167f56536cc068742bb768ffe1bint + times(x, den_sixth_14_5(x))
}

pub(crate) open spec fn den_sixth_14_5(x: int) -> int {
    0x3dbb10ea5a210c8b9a97d63a063a0d33fa194a98418e62330bcdad81a50e928586de78223b88f32da9f04ac8ed23d1dint + times(x, den_sixth_14_6(x))
}

pub(crate) open spec fn den_sixth_14_6(x: int) -> int {
    0xfbff4bb27514822d28e5967a4640c5b7e92b8b43eb2d41483a8ce4f62e67ec39ada595a2b5ac2008ab1112613872a45int + times(x, den_sixth_14_7(x))
}

pub(crate) open spec fn den_sixth_14_7(x: int) -> int {
    0x3f0b437255adb4398aa90ec10be547c7d37359c098e7f3ec75774cf1ee567789268d9e1c5415ea1a0ea064e5dda4b1cint + times(x, den_sixth_14_8(x))
}

pub(crate) open spec fn den_sixth_14_8(x: int) -> int {
    0x400895a199653b112d5b2e2b98cba48ac784313a0b3231f74b3ed3c21c96d2f91b482c925c1be5ee8a6aec117853int + times(x, den_sixth_14_9(x))
}

pub(crate) open spec fn den_sixth_14_9(x: int) -> int {
    0x12f055d01f585229f404d851cefcabf90249353d3730506a31887dcdf237b20b289f62889a10e9d9309d6e649110ea8dint + times(x, den_sixth_14_10(x))
}

pub(crate) open spec fn den_sixth_14_10(x: int) -> int {
    0xc661b022d3f6e84515224f13853f1824f209732b4e10d0772cf953a93dd9387f4b1a105192cbac836ebfc81ce7b660int + times(x, den_sixth_14_11(x))
}

pub(crate) open spec fn den_sixth_14_11(x: int) -> int {
    0x5261d8a572f6a236977e00ad5c32056549cba5c53a60536ed01722cd5e801ec625aae214bf7a26abbf7d8d48565b105int + times(x, den_sixth_14_12(x))
}

pub(crate) open spec fn den_sixth_14_12(x: int) -> int {
    0x1748181cd643a1e8afab7d88118463412bbdd9446aa23cc730b70b0120d14fa7051effb3228dddb38aa20b4fa6541a9aint + times(x, den_sixth_14_13(x))
}

pub(crate) open spec fn den_sixth_14_13(x: int) -> int {
    0xf6f878a04076f04cdde2f089aa2dafd8d5ab74655ac84171986f92b3c6c43fa55e5ae6c8890ef9f25200b72ab078162int + times(x, den_sixth_14_14(x))
}

pub(crate) open spec fn den_sixth_14_14(x: int) -> int {
    0x434fd18fff412d940039d54e67c84f584466d98304464c3b131dea9bbdd10f30a920b02bc01389268aab677c9c9a879int + times(x, den_sixth_14_15(x))
}

pub(crate) open spec fn den_sixth_14_15(x: int) -> int {
    0x21e31c5f43b99e28b2ca305d7a486ab7f10d346d1625de6fd6d270b74285e1c9a99eae331152f00ce2b8e743ac6ec73int + times(x, den_sixth_15_15(x))
}

pub(crate) open spec fn den_sixth_15_0(x: int) -> int {
    0x16112c4c3a9c98b252181140fad0eae9601a6de578980be6eec3232b5be72e7a07f3688ef60c206d01479253b03663c1int + times(x, den_sixth_15_1(x))
}

pub(crate) open spec fn den_sixth_15_1(x: int) -> int {
    0x1962d75c2381201e1a0cbd6c43c348b885c84ff731c4d59ca4a10356f453e01f78a4260763529e3532f6102c2e49a03dint + times(x, den_sixth_15_2(x))
}

pub(crate) open spec fn den_sixth_15_2(x: int) -> int {
    0x58df3306640da276faaae7d6e8eb15778c4855551ae7f310c35a5dd279cd2eca6757cd636f96f891e2538b53dbf67f2int + times(x, den_sixth_15_3(x))
}

pub(crate) open spec fn den_sixth_15_3(x: int) -> int {
    0x16b7d288798e5395f20d23bf89edb4d1d115c5dbddbcd30e123da489e726af41727364f2c28297ada8d26d98445f5416int + times(x, den_sixth_15_4(x))
}

pub(crate) open spec fn den_sixth_15_4(x: int) -> int {
    0xbe0e079545f43e4b00cc912f8228ddcc6d19c9f0f69bbb0542eda0fc9dec916a20b15dc0fd2ededda39142311a5001dint + times(x, den_sixth_15_5(x))
}

pub(crate) open spec fn den_sixth_15_5(x: int) -> int {
    0x8d9e5297186db2d9fb266eaac783182b70152c65550d881c5ecd87b6f0f5a6449f38db9dfa9cce202c6477faaf9b7acint + times(x, den_sixth_15_6(x))
}

pub(crate) open spec fn den_sixth_15_6(x: int) -> int {
    0x166007c08a99db2fc3ba8734ace9824b5eecfdfa8d0cf8ef5dd365bc400a0051d5fa9c01a58b1fb93d1a1399126a775cint + times(x, den_sixth_15_7(x))
}

pub(crate) open spec fn den_sixth_15_7(x: int) -> int {
    0x16a3ef08be3ea7ea03bcddfabba6ff6ee5a4375efa1f4fd7feb34fd206357132b920f5b00801dee460ee415a15812ed9int + times(x, den_sixth_15_8(x))
}

pub(crate) open spec fn den_sixth_15_8(x: int) -> int {
    0x1866c8ed336c61231a1be54fd1d74cc4f9fb0ce4c6af5920abc5750c4bf39b4852cfe2f7bb9248836b233d9d55535d4aint + times(x, den_sixth_15_9(x))
}

pub(crate) open spec fn den_sixth_15_9(x: int) -> int {
    0x167a55cda70a6e1cea820597d94a84903216f763e13d87bb5308592e7ea7d4fbc7385ea3d529b35e346ef48bb8913f55int + times(x, den_sixth_15_10(x))
}

pub(crate) open spec fn den_sixth_15_10(x: int) -> int {
    0x4d2f259eea405bd48f010a01ad2911d9c6dd039bb61a6290e591b36e636a5c871a5c29f4f83060400f8b49cba8f6aa8int + times(x, den_sixth_15_11(x))
}

pub(crate) open spec fn den_sixth_15_11(x: int) -> int {
    0xaccbb67481d033ff5852c1e48c50c477f94ff8aefce42d28c0f9a88cea7913516f968986f7ebbea9684b529e2561092int + times(x, den_sixth_15_12(x))
}

pub(crate) open spec fn den_sixth_15_12(x: int) -> int {
    0xad6b9514c767fe3c3613144b45f1496543346d98adf02267d5ceef9a00d9b8693000763e3b90ac11e99b138573345ccint + times(x, den_sixth_15_13(x))
}

pub(crate) open spec fn den_sixth_15_13(x: int) -> int {
    0x2660400eb2e4f3b628bdd0d53cd76f2bf565b94e72927c1cb748df27942480e420517bd8714cc80d1fadc1326ed06f7int + times(x, den_sixth_15_14(x))
}

pub(crate) open spec fn den_sixth_15_14(x: int) -> int {
    0xe0fa1d816ddc03e6b24255e0d7819c171c40f65e273b853324efcd6356caa205ca2f570f13497804415473a1d634b8fint + times(x, den_sixth_15_15(x))
}

pub(crate) open spec fn den_sixth_15_15(x: int) -> int {
    0x1int + times(x, 0int)
}

pub(crate) open spec fn y_num_sq_0_0(x: int) -> int {
    0x364612fe1011542e6e51ab814b205ea71230349fc2bed82999ca5c4bba637cfbdc1cd1822808b0a87382ad5ddb73d90int + times(x, y_num_sq_0_1(x))
}

pub(crate) open spec fn y_num_sq_0_1(x: int) -> int {
    0xc32d61473827ae54e633e0cb9dea5bdfbbc71d7a4b116d7f5da84a4066b0ac5af2f7757f47b76d9df5ef9b36e372069int + times(x, y_num_sq_0_2(x))
}

pub(crate) open spec fn y_num_sq_0_2(x: int) -> int {
    0xe197f78676c63cf22f5595ca27fd4347cd967c12e0a0a9126b1ed8b3a846c1c76fcfec9f7ced5b295764ea86f670c67int + times(x, y_num_sq_0_3(x))
}

pub(crate) open spec fn y_num_sq_0_3(x: int) -> int {
    0x7c27bc7963a43fff956e2b54daad283448e72bc32e4f2b72dd2e081b9dfbd8782ba346d057d8950573ced16e2bfcf1dint + times(x, y_num_sq_0_4(x))
}

pub(crate) open spec fn y_num_sq_0_4(x: int) -> int {
    0x14443ebc394c83fe5ad5e34808a27429a9d33d357acf3b74cce49d871ab286ddc98dbbab785c3849dc864e718f7cc111int + times(x, y_num_sq_0_5(x))
}

pub(crate) open spec fn y_num_sq_0_5(x: int) -> int {
    0xcc3ebf1f16ef9957f5aa9c267db7437b85c20040e9c87b7ff704690dcc397e4c537aa404dd7d41265ea3f5376f8124int + times(x, y_num_sq_0_6(x))
}

pub(crate) open spec fn y_num_sq_0_6(x: int) -> int {
    0x174f49c5c03bc60c00fa767b810882f1a405fabeb8730de687fd55637980ae30410f7bc86964d4ae46fbf38de5d92b28int + times(x, y_num_sq_0_7(x))
}

pub(crate) open spec fn y_num_sq_0_7(x: int) -> int {
    0xbc4d85751f1a6c7dce52364b1abae31719edd3551efc790a654258f8fdb24a6d7a57684bafdd216a17b018fd646438bint + times(x, y_num_sq_0_8(x))
}

pub(crate) open spec fn y_num_sq_0_8(x: int) -> int {
    0x6a893aa5e4bb7101f357f06190781d929fd6e1dd2bb260350bcde4d70c040150cde57048b00bb2f88dc25ae6bc8e8c8int + times(x, y_num_sq_0_9(x))
}

pub(crate) open spec fn y_num_sq_0_9(x: int) -> int {
    0x188774a40dc81db608744c72f78b203a072111e7e56a0becf281611cc3f0b8344f9c46c0d78bc6df54dd94ae219d5fd6int + times(x, y_num_sq_0_10(x))
}

pub(crate) open spec fn y_num_sq_0_10(x: int) -> int {
    0xb0e5f187b546d370ed10134dd51a9ea5afe2ce950c6d621277285c8e1a5b32d287d1fa0de82e9d1695cdf420d233161int + times(x, y_num_sq_0_11(x))
}

pub(crate) open spec fn y_num_sq_0_11(x: int) -> int {
    0x1592da97f942047e0b3ba97e63e1a61a9cdeff56994e7e168ac2fc4573c2673bdaa471e537bb86b0cf17cce071833f54int + times(x, y_num_sq_0_12(x))
}

pub(crate) open spec fn y_num_sq_0_12(x: int) -> int {
    0xbd52f5b450d872fdd3fc45634980fb499a56a968d4baf2f1eaf42c943b8c3424fe99030f75c1c9c381b9ca11322aa17int + times(x, y_num_sq_0_13(x))
}

pub(crate) open spec fn y_num_sq_0_13(x: int) -> int {
    0xb541ebd62ce60936d8af9751a1b1eb83500aa20113736ab3bdf5e369c657a277de36b3c5ba05dcc0bda3fdf93fb41abint + times(x, y_num_sq_0_14(x))
}

pub(crate) open spec fn y_num_sq_0_14(x: int) -> int {
    0x5943ca2c3bac41f048b4e499a88e3fd39e64771852ed2ed6c750c461378eb091b17d266a502bbd115fc4aae47ef405dint + times(x, y_num_sq_0_15(x))
}

pub(crate) open spec fn y_num_sq_0_15(x: int) -> int {
    0x114e816775c39902e2986ad37457f700e1d59f0c160f02a1554c843afdbf5091f02905b01f0070a51b73df874dea6e4fint + times(x, y_num_sq_1_15(x))
}

pub(crate) open spec fn y_num_sq_1_0(x: int) -> int {
    0x1319f3ff568130bfccbf72e17e95294ab019deae4c1b14cbae85aba27e8e0074e6edbbab52e7bb6cccaefcd9b71b658aint + times(x, y_num_sq_1_1(x))
}

pub(crate) open spec fn y_num_sq_1_1(x: int) -> int {
    0x54921add626d218ad59986cb384379ff6daea70568144fe786e650a902fb2786e5fb1fc716c9a419f4112ed4b3384d7int + times(x, y_num_sq_1_2(x))
}

pub(crate) open spec fn y_num_sq_1_2(x: int) -> int {
    0x163037217d31bb030d0cae2fa5a9d8b5c797eca262e9bdb04087850a5d17d4710254292b5d88da6ce5c9ddd7c0686b9bint + times(x, y_num_sq_1_3(x))
}

pub(crate) open spec fn y_num_sq_1_3(x: int) -> int {
    0x15330e85c01c21c887a99589558f2c605f1a6c12f38c1cf589e53c3717e74ba9fa678c7edfcd467ce5097b2679111565int + times(x, y_num_sq_1_4(x))
}

pub(crate) open spec fn y_num_sq_1_4(x: int) -> int {
    0x398dbf5e16160cb656c887e5ca34a07337c72526d552bd2c6abfd37d2ff90020ca2d679782a0ca4d520ddb23da89230int + times(x, y_num_sq_1_5(x))
}

pub(crate) open spec fn y_num_sq_1_5(x: int) -> int {
    0x193b972196e42e31bf889edbac1d410a62572025cf8327c0f8df6aaf4863abbc98ff8ac969dbae758b93f424b343def3int + times(x, y_num_sq_1_6(x))
}

pub(crate) open spec fn y_num_sq_1_6(x: int) -> int {
    0x10ef811e34af3ed88d615e93cd6820b1fa6ad7a61e243b0884c5c85d7505ca62a093beb4a85e7f7164a7673ee8072e5eint + times(x, y_num_sq_1_7(x))
}

pub(crate) open spec fn y_num_sq_1_7(x: int) -> int {
    0x19598f11b4f2b1b284f927dcf3a9d0dc5fe0feb9dd211cddae1ecffb3ea26d6fac8439ddc9a87b00e27d54690f4c442bint + times(x, y_num_sq_1_8(x))
}

pub(crate) open spec fn y_num_sq_1_8(x: int) -> int {
    0xf96588024364e1054496809293dddcd9503d16ec5fdf4dfaf26bde6b9c261dc40b4d2d39355c7726e111353257bb034int + times(x, y_num_sq_1_9(x))
}

pub(crate) open spec fn y_num_sq_1_9(x: int) -> int {
    0x1667f8f3641562f94d9f26ceaa30b5d89881519fa1dff34a07549074b27111a9c0870d46b1ad75eab9906ed561b1ddd6int + times(x, y_num_sq_1_10(x))
}

pub(crate) open spec fn y_num_sq_1_10(x: int) -> int {
    0xe97fdd11c68d24c9659a48cbadb3bb33dc1af82ea1ec2c5aeb25dc4cc250c81bb1c779ced68dabfdb78553d7e94e0d9int + times(x, y_num_sq_1_11(x))
}

pub(crate) open spec fn y_num_sq_1_11(x: int) -> int {
    0x46fb56aa6cd70f7814f2f9a8632c10f89f6621213ad44d645ffd44dfa7dd2cf38518478999983a0cb02d9fdaa8203a4int + times(x, y_num_sq_1_12(x))
}

pub(crate) open spec fn y_num_sq_1_12(x: int) -> int {
    0x1ad7e6f52dd3af01a3168e1860cf13c3eba1a0be0bdf093a87dda70df8d34460bf062fa578723f612937276fd9742c3int + times(x, y_num_sq_1_13(x))
}

pub(crate) open spec fn y_num_sq_1_13(x: int) -> int {
    0x10b46130f1b8233799e63f40f1e428f3dfadb9af5c201beb880739fa30d87201d4c9d6d15582f0fa6aeb79f0ef35f67bint + times(x, y_num_sq_1_14(x))
}

pub(crate) open spec fn y_num_sq_1_14(x: int) -> int {
    0x10b6b7b3c5ff7cac88c8b8c3fdd4b8476d804a3daecee9e4e4279450dcc35402d400c8d13edaeb6cce077eec63581080int + times(x, y_num_sq_1_15(x))
}

pub(crate) open spec fn y_num_sq_1_15(x: int) -> int {
    0xc825a8ba33fcbcd0deeb39d01431da76ff878e23b168d050ec136e96b7fa4db98ad56ff21bc0e1cac95b8f52e2d10f6int + times(x, y_num_sq_2_15(x))
}

pub(crate) open spec fn y_num_sq_2_0(x: int) -> int {
    0x8d05dca914591b6759bc0efeefb9c9485fe7d50d788c592ae438880aa54b9a4089d4ccd86623b70f6353bbb24338790int + times(x, y_num_sq_2_1(x))
}

pub(crate) open spec fn y_num_sq_2_1(x: int) -> int {
    0x10e1c6d8e7dd154d22394535c87b3fad5482df20933502bb4a81d991584859d5d0b31a35db68c4a8089df68b715fbce4int + times(x, y_num_sq_2_2(x))
}

pub(crate) open spec fn y_num_sq_2_2(x: int) -> int {
    0x9b068956eb1c7218b09189c1b21c6c2f4ea9d56dc57c17630bd9d3b5865f6ee6a5ea9301022cecf8c424de400bd1125int + times(x, y_num_sq_2_3(x))
}

pub(crate) open spec fn y_num_sq_2_3(x: int) -> int {
    0x196a5e0173c473000e0127ef1b27d8cbc615fe0f4d249d1518dbe8594fbcedc9fbce923ebdbfc3aa3c5e41c25373b751int + times(x, y_num_sq_2_4(x))
}

pub(crate) open spec fn y_num_sq_2_4(x: int) -> int {
    0x4fe751d269e87701c6646afaa8876388b671ff68b163974e8a50ebebd903e49805f7bbc98b9cdf925ac59032d839f17int + times(x, y_num_sq_2_5(x))
}

pub(crate) open spec fn y_num_sq_2_5(x: int) -> int {
    0x12a175e212fec38cca216a6c2b4f52b5b294d78b5aecc405bd2b9e05eaa0fac4aa355d3047189def140c40860c87ce53int + times(x, y_num_sq_2_6(x))
}

pub(crate) open spec fn y_num_sq_2_6(x: int) -> int {
    0x1597788f3b7ab92d58765faa023ac5053b6e453a2531d8a814241c96d349d36a61d1b4b655116f48230e7d063626c6f4int + times(x, y_num_sq_2_7(x))
}

pub(crate) open spec fn y_num_sq_2_7(x: int) -> int {
    0x8bad1c104e438bd26492e236eb9b2b74c0a63982ae5b7bd8aedd9fd4723b80c91aef597385204407b0f1633e52e49f5int + times(x, y_num_sq_2_8(x))
}

pub(crate) open spec fn y_num_sq_2_8(x: int) -> int {
    0x1b76f932a4de393fe3ba0b352788521a1f589179508b3fecf4ad25a4643eb0e9c46e1308eb27d9e396aba8c2822312cint + times(x, y_num_sq_2_9(x))
}

pub(crate) open spec fn y_num_sq_2_9(x: int) -> int {
    0x256f8d1629cdc6c57451adb3a36031d147dc1547f531351d5b424fca0f74e4ad07cba9b30cb8d2fa3c89e0fa038dd93int + times(x, y_num_sq_2_10(x))
}

pub(crate) open spec fn y_num_sq_2_10(x: int) -> int {
    0x17627a95214e1a5dd5ed7661439367742c6e2b457472e210b0736052ba957c8d75907fbf71fec9fd761b732dc9ce7f58int + times(x, y_num_sq_2_11(x))
}

pub(crate) open spec fn y_num_sq_2_11(x: int) -> int {
    0x1c76c658e3f28b358d5c6e37c1d3d137f432c4f5e869349539e46805f9776b348e1ae11afa4037c1f4675a8ecb55d9int + times(x, y_num_sq_2_12(x))
}

pub(crate) open spec fn y_num_sq_2_12(x: int) -> int {
    0x2244d017dcc7596ef2907b55b67d7c1cf20810aad5931d604d5ee8b31e8367e1fb60ab9ff22521919030ae2519fa632int + times(x, y_num_sq_2_13(x))
}

pub(crate) open spec fn y_num_sq_2_13(x: int) -> int {
    0xd1f0c999ebde6b41658193cb19db6714126b090df6e9b8e5c0b2c39dcdb4aeb52908947fd950840be7de20559e41898int + times(x, y_num_sq_2_14(x))
}

pub(crate) open spec fn y_num_sq_2_14(x: int) -> int {
    0x670297201c11529023dd68f6f7ac638f894eb412a27f7659b8aa6c4125280f0f4cf5f9354732d87572ab5b4df48993eint + times(x, y_num_sq_2_15(x))
}

pub(crate) open spec fn y_num_sq_2_15(x: int) -> int {
    0x193066e443bbff29dd489657eb1a552af4c01d47c6997b7b7a5f1c3bb3cb0b11bc0d6544cf6c806c4a8b6284f7f46d24int + times(x, y_num_sq_3_15(x))
}

pub(crate) open spec fn y_num_sq_3_0(x: int) -> int {
    0xb93569052886f973765dc3beb4ca6a4e16dd19ec38047c6547c2e185378df3a9f120b405948aee32b720f3f22570e2dint + times(x, y_num_sq_3_1(x))
}

pub(crate) open spec fn y_num_sq_3_1(x: int) -> int {
    0xa93d626ca9abcdccfcccaabed80ad66b4e89fde9e7779fe9c27004bc24c8fef5f2f127b6839697a5044008d8ebfafecint + times(x, y_num_sq_3_2(x))
}

pub(crate) open spec fn y_num_sq_3_2(x: int) -> int {
    0x661f5f8f8b77ccabfad54e133edba1bdc2e1002074e43dbffb823486e61cbf2629bd52026ebea0932f51fa9bb7c092int + times(x, y_num_sq_3_3(x))
}

pub(crate) open spec fn y_num_sq_3_3(x: int) -> int {
    0x1871055650da887a6e90bf8fcfabc877bc5b423c12404cc3f08ae3ec26ae9a7af340f73092c59967406403a107e5416fint + times(x, y_num_sq_3_4(x))
}

pub(crate) open spec fn y_num_sq_3_4(x: int) -> int {
    0x12d8dea2004a8251719a8961b692291095a747f23d1a86388731d529d75cf9556bc4e91fb264604df9f4cd846d5d7321int + times(x, y_num_sq_3_5(x))
}

pub(crate) open spec fn y_num_sq_3_5(x: int) -> int {
    0x3402a2d1c204cfe789296602503db4b95129710f25e66c6dae736560def18e0a93a1135299dc0d5f5ba0fbf0990a1bint + times(x, y_num_sq_3_6(x))
}

pub(crate) open spec fn y_num_sq_3_6(x: int) -> int {
    0x184c7d81b7ec914a38d87c984bd904185a5e2a63b9888aebfeb9fdd54650503ec1ef80a7a64e03a8caf832aac94f554cint + times(x, y_num_sq_3_7(x))
}

pub(crate) open spec fn y_num_sq_3_7(x: int) -> int {
    0x19eee2f76f00189d41e22006be785a05f85c0418107f2bd3c79056c8866b11596f8b52871e09ff62a5c33e4c7430a958int + times(x, y_num_sq_3_8(x))
}

pub(crate) open spec fn y_num_sq_3_8(x: int) -> int {
    0x69a18d05e59384605dd30bb0ed0931506850f0306536ba201c0af3e2802e0e85e36544c9d209a8ba946fd47e180a4b9int + times(x, y_num_sq_3_9(x))
}

pub(crate) open spec fn y_num_sq_3_9(x: int) -> int {
    0xddd8c9066566ac69976983ec5d1b2512e2082e33bde284fe7d84f3927f7384341e215130ffdd4ba7a9c46c6d27c0d71int + times(x, y_num_sq_3_10(x))
}

pub(crate) open spec fn y_num_sq_3_10(x: int) -> int {
    0x11af6324bc88ce073ad69b01c3d847a52cd39c73d0fc8199417409ddf4142eb516f27bf1f5b365e58bb5654b25f25ec1int + times(x, y_num_sq_3_11(x))
}

pub(crate) open spec fn y_num_sq_3_11(x: int) -> int {
    0x142011ddb013cb80a61d31b44ce51d25e8bf6958501eae9c65ee5eda20fe773cf91fa51c1a32807f26b00494e8aa1cffint + times(x, y_num_sq_3_12(x))
}

pub(crate) open spec fn y_num_sq_3_12(x: int) -> int {
    0x72d4534556442a0722d02c231456213e17332e2020e28dc8d6ad6f950bf113e9b277a41841742987e3f8c8cd5545866int + times(x, y_num_sq_3_13(x))
}

pub(crate) open spec fn y_num_sq_3_13(x: int) -> int {
    0x19ad96e7e178dc379a3aec243f579a8eb005298371a989c0af0f3708f962173db6843a388d484f0af080b8453a5f087bint + times(x, y_num_sq_3_14(x))
}

pub(crate) open spec fn y_num_sq_3_14(x: int) -> int {
    0xccd4325f2f0a195db8f266dcff7f8f9237f26562e91c00ac95c30bd8aeb4225b77a5fd2f9de3a06438d6c8b131e1868int + times(x, y_num_sq_3_15(x))
}

pub(crate) open spec fn y_num_sq_3_15(x: int) -> int {
    0x26a20e4e09a560027ee895f66015e228aaf6fcb1e9562ece6d64c84cd347a0e593ab3b3be6151d0a26cc3fa4509a9bint + times(x, y_num_sq_4_15(x))
}

pub(crate) open spec fn y_num_sq_4_0(x: int) -> int {
    0x19124220b2b048d01e47f574f65ef4a0af301ca77ac8313eaa3033f0f97c3157edd22f2b49e2f1ccb17bd34b166b5657int + times(x, y_num_sq_4_1(x))
}

pub(crate) open spec fn y_num_sq_4_1(x: int) -> int {
    0x162f2a7e4d2633395102a634ea18b4f19e70f75e74a3e25ce4beeb0b4c041d86f30e863f871b996a3ff6232e3fb747eint + times(x, y_num_sq_4_2(x))
}

pub(crate) open spec fn y_num_sq_4_2(x: int) -> int {
    0x18df5659a8e1242bdd855ea1f4a867514c22040799b7d3e1fea34418498309d96c7a849687f33b46c096efecddf39464int + times(x, y_num_sq_4_3(x))
}

pub(crate) open spec fn y_num_sq_4_3(x: int) -> int {
    0x12e2f520c5b8c6b11400658d7a7bad846b0b145d22ba6d2806c27c1843460d657b28bb41b628e90b2dbd00c7eb22f71bint + times(x, y_num_sq_4_4(x))
}

pub(crate) open spec fn y_num_sq_4_4(x: int) -> int {
    0x10038756e8425c2e2641b2159f26eab8bcdcedfcae095d1f154cbdfdb0a4715fa98222152a91215923d17219fba07f76int + times(x, y_num_sq_4_5(x))
}

pub(crate) open spec fn y_num_sq_4_5(x: int) -> int {
    0x12f9f5355d112e28cef6977c0408d054b7e3a8068dd7c6d8e07001c4331208ae5e395338fe72cd1441c2337d5278e89aint + times(x, y_num_sq_4_6(x))
}

pub(crate) open spec fn y_num_sq_4_6(x: int) -> int {
    0x16a5e740e786b4ec64b30c0149b8cfc5c61bfd383bfc369f3f6d9907517a4ef944db6f53bfde5a47993faba2cf185881int + times(x, y_num_sq_4_7(x))
}

pub(crate) open spec fn y_num_sq_4_7(x: int) -> int {
    0x2fdc7452b03481d757911c7ad75ed6db52943abf9962abd46286082d7c5aca1d40d766a010a81dbeb57442d3365dfa6int + times(x, y_num_sq_4_8(x))
}

pub(crate) open spec fn y_num_sq_4_8(x: int) -> int {
    0x11869c0c590973a41e25b6ee29be38cfb01eadd0308e2414803f210fe00a97f271f9f09c0734f1e97d5390e5d64c87e1int + times(x, y_num_sq_4_9(x))
}

pub(crate) open spec fn y_num_sq_4_9(x: int) -> int {
    0x824a11f13f14c0cdc2850aeb3104ad9f26c059becdec77f24d2aacedc3643b4a4b939cf1460a226a0f13b67ddd2d6e3int + times(x, y_num_sq_4_10(x))
}

pub(crate) open spec fn y_num_sq_4_10(x: int) -> int {
    0x6ab6fa3f56a5d2ebc2b9c1821a56688b6c6f6bcc946e0f81586370cbd0466790964b007f9d8f3986153fbf99a5a52dcint + times(x, y_num_sq_4_11(x))
}

pub(crate) open spec fn y_num_sq_4_11(x: int) -> int {
    0x1202d38c4bc93569e3e7dd142671fcc01e50c7c84f238001a50a54808d8b1f2387f640a2bd4e6fa555e95714c64b1374int + times(x, y_num_sq_4_12(x))
}

pub(crate) open spec fn y_num_sq_4_12(x: int) -> int {
    0x39f905eae5d156faf308ae08791ed24084b1fc49250feb9eda87d50f0d933a3eb27351fe9f8ccfce4662ff2e095180bint + times(x, y_num_sq_4_13(x))
}

pub(crate) open spec fn y_num_sq_4_13(x: int) -> int {
    0x46792f1d442060f4f60a28024363bd38d794d26ed31db7d50d57b6baee6e86eab65ba4342c0665fa16b026f091ce0f8int + times(x, y_num_sq_4_14(x))
}

pub(crate) open spec fn y_num_sq_4_14(x: int) -> int {
    0xc0c3381a7d5d80ce79b9a988e2d0891635cff109ccd9299c9b438d1b945e1324b2636cc182af30c00e267c788ad5e9bint + times(x, y_num_sq_4_15(x))
}

pub(crate) open spec fn y_num_sq_4_15(x: int) -> int {
    0xd10ecda5f4561453854c85db048213e036ec0a826c6e562abfe2b7fb552cf75df73f854ae50ae6097c748f686ccdb3bint + times(x, y_num_sq_5_15(x))
}

pub(crate) open spec fn y_num_sq_5_0(x: int) -> int {
    0x173474b3773575683da4c9d40d261a13ac809b32c719af68207bd9d2317d9fa05e5ca4293e07709c0b3cc642f9c6999fint + times(x, y_num_sq_5_1(x))
}

pub(crate) open spec fn y_num_sq_5_1(x: int) -> int {
    0x1250d4a8999d3e9be4942fcbd6800cb9189edac82d5cd4719f5846a4bbf06fe6c0b0000bd0ab06b5214f9a8ab8558c11int + times(x, y_num_sq_5_2(x))
}

pub(crate) open spec fn y_num_sq_5_2(x: int) -> int {
    0x12ed0b9f8b270b10b66641b93e6531f8406ee0c8085a541786532306af2f21758a8c8d63b9ed71c86185340b68e87b15int + times(x, y_num_sq_5_3(x))
}

pub(crate) open spec fn y_num_sq_5_3(x: int) -> int {
    0x10a61e3daf89417c440f74a6bd2c43f7d197cba61836dba3a2a0f2f0b6ccc4d9820834ee11c399d61f09b394702813fdint + times(x, y_num_sq_5_4(x))
}

pub(crate) open spec fn y_num_sq_5_4(x: int) -> int {
    0xc43ba5206e40edb043a26397bc5901d039088f3f2b505f67940b08e61f85c1a27ce23606bc5e36faa6eca5710ceafebint + times(x, y_num_sq_5_5(x))
}

pub(crate) open spec fn y_num_sq_5_5(x: int) -> int {
    0xcfe1081ffa6b2e37d44d9721d9a743f1a8f97a5dbf8fa77c6afb1d60bd4ed3f77ecf0afd552005bcec316adc284fdadint + times(x, y_num_sq_5_6(x))
}

pub(crate) open spec fn y_num_sq_5_6(x: int) -> int {
    0x109d7cac82e037a886aa66ebf9fa38d05637a51c8fbaa2a758d61a03a67b86e0f1a39c7ab7a0311c12a9c1fedfda9b3dint + times(x, y_num_sq_5_7(x))
}

pub(crate) open spec fn y_num_sq_5_7(x: int) -> int {
    0x11a7c05c1b845d54304b4b55eac8f929c068ff0135b40daa2e6c712f4402cf325c7efff26c206026e4b3420cf731fccbint + times(x, y_num_sq_5_8(x))
}

pub(crate) open spec fn y_num_sq_5_8(x: int) -> int {
    0x174e6f542e03fc9d55b3bc2c7006f535778ec6b2e5ca7af881bdec5832cfc7f015b4c81401b7dadd53b57dc5a8d0c916int + times(x, y_num_sq_5_9(x))
}

pub(crate) open spec fn y_num_sq_5_9(x: int) -> int {
    0x840c2b74d13195b617b129fa278058646d912f709f1233d0e24369ad10b6d8d7a464e4a7bb187fb0601046358ed82e6int + times(x, y_num_sq_5_10(x))
}

pub(crate) open spec fn y_num_sq_5_10(x: int) -> int {
    0x1489e1e27877aa4be4e64371bb1924cbd5130c1e931b2a9ec54c2350f0a08456e993876bfaec8f7a0c3c6fb10d20c0e1int + times(x, y_num_sq_5_11(x))
}

pub(crate) open spec fn y_num_sq_5_11(x: int) -> int {
    0xf1cb8fe0d1e69487f221841a802cd8427338faeac54ca138bda0660f2461439ae8ccba71916c1e2224e39b0676f3763int + times(x, y_num_sq_5_12(x))
}

pub(crate) open spec fn y_num_sq_5_12(x: int) -> int {
    0x257c1a86c184c43631b89509d430cdd488da79b6e8d7d84f7087b3c2b0599241f459fd6974b7727b5ca61efc24769c1int + times(x, y_num_sq_5_13(x))
}

pub(crate) open spec fn y_num_sq_5_13(x: int) -> int {
    0xd0914e4d2383b76cbe72f0a5184d1cbe06fa5e4d7e3175077bf3e99e6288c04e94cb19433e14f5aeb73c91ef8dc5bf8int + times(x, y_num_sq_5_14(x))
}

pub(crate) open spec fn y_num_sq_5_14(x: int) -> int {
    0xdeb4d39d2785e82156e60691f0e0792e1ff9d6a004d8b5aa0b1fb36972dbaba06e626e1a5beac67c427172cf8dd988eint + times(x, y_num_sq_5_15(x))
}

pub(crate) open spec fn y_num_sq_5_15(x: int) -> int {
    0x1425d2c8e1a26a0531e2b9507105b0f56e1eb51f7e6d119be1aa608f108c70a2e77a1016a266891a12d4fbe611a0935int + times(x, y_num_sq_6_15(x))
}

pub(crate) open spec fn y_num_sq_6_0(x: int) -> int {
    0x1814c48e62d77e748c8d7f561836eebea626261ddc74f8e4f64ebd5527cdf897c6bbf0fdb0dd26387566ff693294f6e0int + times(x, y_num_sq_6_1(x))
}

pub(crate) open spec fn y_num_sq_6_1(x: int) -> int {
    0x1324745f7872c9d55ddf60aec9a808532381512eea88164a50595a2a9beb20064c1c195325393427476dc109c9be1fe3int + times(x, y_num_sq_6_2(x))
}

pub(crate) open spec fn y_num_sq_6_2(x: int) -> int {
    0x67491078c89b24037ac55a016b7442470ac44acc3953f96e30e6ae80fe14e87024ab5f13866df22298084b27b2fdeadint + times(x, y_num_sq_6_3(x))
}

pub(crate) open spec fn y_num_sq_6_3(x: int) -> int {
    0x58d7f6eb0b6ef8d397db4f6f3824fe54f3d69e15792451412115f5890deaf85f162f387d918f9cb131b6130cf24773cint + times(x, y_num_sq_6_4(x))
}

pub(crate) open spec fn y_num_sq_6_4(x: int) -> int {
    0x18116080b52da0eddca7cf790302e282a4e5e0c86852ee68c7f3a693cc81bc11cf3c2eefba84e9755498c8944a9dde5fint + times(x, y_num_sq_6_5(x))
}

pub(crate) open spec fn y_num_sq_6_5(x: int) -> int {
    0xac96d4bfca1023f059dd4bf31f0d30d4e6f7fab4ca73f0b45617e22b9e1339ded5238f29bddc358678be67038c19faaint + times(x, y_num_sq_6_6(x))
}

pub(crate) open spec fn y_num_sq_6_6(x: int) -> int {
    0x12dbc1ed6ec7d3708c877ccce2dd95de593e93966146a1520733bf2af2ee18b2c71115c0e3e6120555a739a51b257ea6int + times(x, y_num_sq_6_7(x))
}

pub(crate) open spec fn y_num_sq_6_7(x: int) -> int {
    0x1672e1ee73d95f6c984217b2bbd5398aef841f55bd1fafefd2aa7e9fc554464148cf567bbcdc8482ee22bc0a67448a3eint + times(x, y_num_sq_6_8(x))
}

pub(crate) open spec fn y_num_sq_6_8(x: int) -> int {
    0x8988c4bc79c2737e7f5f461d9d6e7092ddac31047744c1ab00ec72af6da3143313d2d56efea86b07fd003ae6d9453faint + times(x, y_num_sq_6_9(x))
}

pub(crate) open spec fn y_num_sq_6_9(x: int) -> int {
    0x11026e7315761435d780470ec78bb57bb31b8a9bce9b33f5f489474a7df6b359b9135f0d5232a085970e3460a3435d46int + times(x, y_num_sq_6_10(x))
}

pub(crate) open spec fn y_num_sq_6_10(x: int) -> int {
    0x151114deba53d31dcea016d16f31029fe4b806bbcfcedcc9983fc156c117ba2403a6d7f9ef6b94f7d05e3e3bb1779c79int + times(x, y_num_sq_6_11(x))
}

pub(crate) open spec fn y_num_sq_6_11(x: int) -> int {
    0x8cc66e970cf4bb22df80e2c88f1a675ce0e6c2b0f2fcd28b8029cc586f6914f64c69a56c09d4994ddc20ed2d2e0c52eint + times(x, y_num_sq_6_12(x))
}

pub(crate) open spec fn y_num_sq_6_12(x: int) -> int {
    0x248a63500bcf1ffcf06241cd8b7a0ae915cd5b58941601186445751d1c35f5b6fe191c2aa311e75229d923b8761918int + times(x, y_num_sq_6_13(x))
}

pub(crate) open spec fn y_num_sq_6_13(x: int) -> int {
    0xf60214f71333d0bd44fa6a4e29643a42cba89509ba3550870242747db264603f6c06a441499d71913aa2b85117f9fdint + times(x, y_num_sq_6_14(x))
}

pub(crate) open spec fn y_num_sq_6_14(x: int) -> int {
    0x1390f0624feab1bcd2b6841f8a4379b767474d1ce0abede68bb8988adade4cbc753deabcbf50a08fc16de075585523cint + times(x, y_num_sq_6_15(x))
}

pub(crate) open spec fn y_num_sq_6_15(x: int) -> int {
    0xf8942051dda9f78a9b392da80b697037300641e1863f9d611b15d9a11332ae7129ddc56c327e23b6f2a034cfca92392int + times(x, y_num_sq_7_15(x))
}

pub(crate) open spec fn y_num_sq_7_0(x: int) -> int {
    0x14d6692356c24e899a9f6c87278f3a56dbab511427509f4788bf2fd31186506855bdb7cec3f352a4f6d29a50ee3ebfd8int + times(x, y_num_sq_7_1(x))
}

pub(crate) open spec fn y_num_sq_7_1(x: int) -> int {
    0xb122d055c50e47d11dac7125a1869ab53067468a10e601aa3c99457942762cec9b8a24ce7434be71fcca8a835a1cc7fint + times(x, y_num_sq_7_2(x))
}

pub(crate) open spec fn y_num_sq_7_2(x: int) -> int {
    0x3af72255db8c6bcf9bcfdaabb21c21acc2e7842be18100f3c763477da067f58dacc619313dc33689e56203584e0a8aint + times(x, y_num_sq_7_3(x))
}

pub(crate) open spec fn y_num_sq_7_3(x: int) -> int {
    0xe6989c1cd4d9ee4f5399ce9d6e486fbf9597b36084fb2414f35bf6286dc5a58024db04bcff88f898a1c339f3e0a838bint + times(x, y_num_sq_7_4(x))
}

pub(crate) open spec fn y_num_sq_7_4(x: int) -> int {
    0x4f55deb7661ccd58491429269e76d4a46a75a3a0993db6f31ece241cd46e05ae900d56a801b5594bc6e0ae191a8a417int + times(x, y_num_sq_7_5(x))
}

pub(crate) open spec fn y_num_sq_7_5(x: int) -> int {
    0x12fa7f580fc59a599bd3ef3f950626ada4de22851f8a209c7eac563f477ba0b3a7847a6ec4ca0a969c7362fbf7fcd61cint + times(x, y_num_sq_7_6(x))
}

pub(crate) open spec fn y_num_sq_7_6(x: int) -> int {
    0x12aa9853ce272396dc535095aeb365c7ccbbfad2825e24b55188186bc98b3825ce47b59d867a2ee5e2ec9fefc9fd762bint + times(x, y_num_sq_7_7(x))
}

pub(crate) open spec fn y_num_sq_7_7(x: int) -> int {
    0x48757cafcac0f0c5dcf91d62ca9d1abfba3813ecc94f2beedfafb24ea9d547e06c02431bae9293e12722d7075ba27f6int + times(x, y_num_sq_7_8(x))
}

pub(crate) open spec fn y_num_sq_7_8(x: int) -> int {
    0x1944fd08db46a6f8ea50e6c8797246607e97649760a42998309b4840053a0f1d9ca843743b895c3a65b9002fb443264dint + times(x, y_num_sq_7_9(x))
}

pub(crate) open spec fn y_num_sq_7_9(x: int) -> int {
    0x246d0cb69b8a03972f21fbfb2d887e38bbbf1b285e0f43b205dd43ab7e1adef01a51485959998b2a21a4da98b65be83int + times(x, y_num_sq_7_10(x))
}

pub(crate) open spec fn y_num_sq_7_10(x: int) -> int {
    0xe28e72904c5315144f6b84cbf1ee6b0faa899f5517def25bf2b45a79dddf3067e79df16d39de8ed43e98dc705ee2cc5int + times(x, y_num_sq_7_11(x))
}

pub(crate) open spec fn y_num_sq_7_11(x: int) -> int {
    0x51c74209617250e8b69bddc664baad4668d776d8ec1da879b96bd3297500c08024f1e7afd33d5c1e94b3512ae4f2942int + times(x, y_num_sq_7_12(x))
}

pub(crate) open spec fn y_num_sq_7_12(x: int) -> int {
    0x2abe5ad65e7274ff803ae26c788c984e891c3890e496dacf03e7522701187f0e4b4625cfc98e1b60d9584415e2a1db4int + times(x, y_num_sq_7_13(x))
}

pub(crate) open spec fn y_num_sq_7_13(x: int) -> int {
    0x73d997e572dc1d8f514384e539f83fe412403bb955ee49c18a60a2c48588b8bf5ef4cddded72f69dd010e08bc8f4bf6int + times(x, y_num_sq_7_14(x))
}

pub(crate) open spec fn y_num_sq_7_14(x: int) -> int {
    0x13a2afc6e6b8d1aead56d913c2e2f17b5c98a02b9c7274852310edf49ec57e1ba9003a7da59299dd446cb6f2df8baceeint + times(x, y_num_sq_7_15(x))
}

pub(crate) open spec fn y_num_sq_7_15(x: int) -> int {
    0x1880fe0904b5cdebd70e429445b351892de665ce521867363ded3361df57eb7abe77f324f00d4fac01a522cc8b8b288bint + times(x, y_num_sq_8_15(x))
}

pub(crate) open spec fn y_num_sq_8_0(x: int) -> int {
    0x7501682e2d8ebf7e557fedf68a95dd42e93bae8e91f1be509cee0f328cec8c97f061d2572ac402e605dd1455c7c4f48int + times(x, y_num_sq_8_1(x))
}

pub(crate) open spec fn y_num_sq_8_1(x: int) -> int {
    0xfcca2e308e3e4f8e22b1e4f88d16d82bb16ae4fba84542f6793871f7ccd0027bded51299f39c29ed9ce7e7a3c6f15e1int + times(x, y_num_sq_8_2(x))
}

pub(crate) open spec fn y_num_sq_8_2(x: int) -> int {
    0xb208e0b45d43b34180a88e46224fcbbc719745633ccbd0cc71301a151eb97f7d79dcd1871ccea6e7d98a0f598f232b4int + times(x, y_num_sq_8_3(x))
}

pub(crate) open spec fn y_num_sq_8_3(x: int) -> int {
    0x12951352ce3ebc6095c297b6b66bb8ace7b5bbaa9fb85359449a9bc29bfcba9a0696fb7b36b104d4e3c088b33e1d5faeint + times(x, y_num_sq_8_4(x))
}

pub(crate) open spec fn y_num_sq_8_4(x: int) -> int {
    0x142e80e963091075f81020b68d1ac3623db3b71a4b1cb4445773a43af666ea341216903d3c8fbc750d675a941bf057f7int + times(x, y_num_sq_8_5(x))
}

pub(crate) open spec fn y_num_sq_8_5(x: int) -> int {
    0xee24eb92874e7c120648978a1919204a9f3d64f479c997ad065b237cdc22a0a53c014bf5017d948d7b683d52cb66218int + times(x, y_num_sq_8_6(x))
}

pub(crate) open spec fn y_num_sq_8_6(x: int) -> int {
    0x10ce4d7c70eb512a6bbbc736ddf12513e42c632b899e02e7e7a112128db968b1457ae34ea199293038a1d3dd2351867int + times(x, y_num_sq_8_7(x))
}

pub(crate) open spec fn y_num_sq_8_7(x: int) -> int {
    0x15a7c9a8d7a1bfce96da0944dbd1d1ec2326754884ca0ab05e3eab6dfa38235b076a82d7682a38526ab96fc3a6f50c7dint + times(x, y_num_sq_8_8(x))
}

pub(crate) open spec fn y_num_sq_8_8(x: int) -> int {
    0x16f7f8ac81ff7b3fe9482a5cdc5d68e9a8890bc0f9d27868e500b8f49faddd93cb61ac5c4b3b150617e182840f821244int + times(x, y_num_sq_8_9(x))
}

pub(crate) open spec fn y_num_sq_8_9(x: int) -> int {
    0x491c928401ba4c11966a77850c09cc4b3bbc21681fa0d5246de9ce1c72d3ffb1a4e0146ffe349182f1c21e1422d2b73int + times(x, y_num_sq_8_10(x))
}

pub(crate) open spec fn y_num_sq_8_10(x: int) -> int {
    0xbfb9d5ee7615a9fd8866c95d3757ca657744d47c67892ebe88c52da48949eca820659b049ffe51d35eb22a838787d02int + times(x, y_num_sq_8_11(x))
}

pub(crate) open spec fn y_num_sq_8_11(x: int) -> int {
    0x19a2721823b320799b1e40c105f306c5f99ed5c157ebd19434feb82b03b78998c953007e10eee509b790c7ef9b02c2c5int + times(x, y_num_sq_8_12(x))
}

pub(crate) open spec fn y_num_sq_8_12(x: int) -> int {
    0x8d83e012edefc7c75f374947ab1a37a0a098e878b917338be05753d755c2922c1652fbd6cdc3c79a57133d102238e13int + times(x, y_num_sq_8_13(x))
}

pub(crate) open spec fn y_num_sq_8_13(x: int) -> int {
    0x1514f6f91bcd3282b8c73de6ea5f51749ee271a4feb8a84cecceee11b6a08900090a200d0fe5c532acdac44317bece7cint + times(x, y_num_sq_8_14(x))
}

pub(crate) open spec fn y_num_sq_8_14(x: int) -> int {
    0x108185f06418bf77df28d832c54780dde38aea9496c4dcc4c7488ebac470203991cba99f0712dfbfdc5f5ca27e412057int + times(x, y_num_sq_8_15(x))
}

pub(crate) open spec fn y_num_sq_8_15(x: int) -> int {
    0x11f232fd5ca7e8408d3a410b1aed129917243a3c92c76833ab38678178682b463f6272c1c42868c4990d753ff784a37dint + times(x, y_num_sq_9_15(x))
}

pub(crate) open spec fn y_num_sq_9_0(x: int) -> int {
    0x8f11c23e991cfa5b42ae469ce4d426c721d40791f6c170d435aa3360a2e56580ee773ed4435ff6ce6cc815afc21afa2int + times(x, y_num_sq_9_1(x))
}

pub(crate) open spec fn y_num_sq_9_1(x: int) -> int {
    0x956ef85510689a3109560818ad924c8b908a3d1bbbe22225827b36e9b61c81e8c363e704fd06c332ff224b5e5010035int + times(x, y_num_sq_9_2(x))
}

pub(crate) open spec fn y_num_sq_9_2(x: int) -> int {
    0xef8c1c79ae8cc38055e78c3551113059659f05392fb127489024d074bbf86537c6e1d989a9aec2525d0cf9890029a9bint + times(x, y_num_sq_9_3(x))
}

pub(crate) open spec fn y_num_sq_9_3(x: int) -> int {
    0x144fa5392583fa260a35b51e4e2583bc4dfe084b50429dda05a0f45a5a5f2173fc9b9f93a17b2ab274c70bbb3cd5cce1int + times(x, y_num_sq_9_4(x))
}

pub(crate) open spec fn y_num_sq_9_4(x: int) -> int {
    0xe06c1536e4a4a9062f2e4feed5fd65a21e92ef21ef1ce722152447f6046a85b86daa3270b3c82ee7223c219eb2a2340int + times(x, y_num_sq_9_5(x))
}

pub(crate) open spec fn y_num_sq_9_5(x: int) -> int {
    0x16fcc241359e838167b1019e03fda9cb7082cfe6313f9992239717bc134fafea0886a50e666c3520502b46ffda5a970eint + times(x, y_num_sq_9_6(x))
}

pub(crate) open spec fn y_num_sq_9_6(x: int) -> int {
    0x120a9648d3fcd8a443632bc13e315d77c7b585f9a8efebc88be20e9bef363798722cc23a94cb146a6fb9df5799a6f2adint + times(x, y_num_sq_9_7(x))
}

pub(crate) open spec fn y_num_sq_9_7(x: int) -> int {
    0xf8b73c95ac037276fc230f6683161952be6b8a634c9275b90f15095c282bd6bebf7aaa187d4f9164eb336711eaaa95dint + times(x, y_num_sq_9_8(x))
}

pub(crate) open spec fn y_num_sq_9_8(x: int) -> int {
    0xc98337221ddff94eea44b2bf58d2a957a600ea3e34cbdbdbd2f8e1dd9e58588de06b2a267b640362545b1427bfa3692int + times(x, y_num_sq_9_9(x))
}

pub(crate) open spec fn y_num_sq_9_9(x: int) -> int {
    0x819dec8af9780e8b7e3b99892980c8f4890b1c46417f3744dfa5a477a2a4f550427e2a21d47d2225c19ed93e5301816int + times(x, y_num_sq_9_10(x))
}

pub(crate) open spec fn y_num_sq_9_10(x: int) -> int {
    0x1964102ebc8dd151336ee570425440ee0bb5fa527c0c4bde952b11dd0d411620f045274d64d77dff1e7c90c1db123714int + times(x, y_num_sq_9_11(x))
}

pub(crate) open spec fn y_num_sq_9_11(x: int) -> int {
    0x62e301adc1c1c61860a501d99c7727ec1660c919e2735aa600ff384ad9d3fb2dff9a3a2f61bd75eb52ff9cf6bbb8ba1int + times(x, y_num_sq_9_12(x))
}

pub(crate) open spec fn y_num_sq_9_12(x: int) -> int {
    0xcff5c68ebb5a9f247df4b95b2e23cba7e3124e0fe29e4e182e3b29d105c3de9c670ed402b9442ceb001217afa41e376int + times(x, y_num_sq_9_13(x))
}

pub(crate) open spec fn y_num_sq_9_13(x: int) -> int {
    0x124a2b3af31607dd0d5cfa79fbd6aadad45a880d0cd7cb6d681444cfaf16ba19d25aa82754f2c89dc12e4b0254392c56int + times(x, y_num_sq_9_14(x))
}

pub(crate) open spec fn y_num_sq_9_14(x: int) -> int {
    0xdadf08946c946ec8f8fa1e5b9e81ef157eff27c5ee413d1b09b6f3d18f874abb46a46756dd70a533bd09c1751705536int + times(x, y_num_sq_9_15(x))
}

pub(crate) open spec fn y_num_sq_9_15(x: int) -> int {
    0x4b636b168654548b500d9db6a986af9a32938291ee834b1a9319620f414a096ed4e5d37b43f8f7fce5145e757786fb2int + times(x, y_num_sq_10_15(x))
}

pub(crate) open spec fn y_num_sq_10_0(x: int) -> int {
    0xea7780f50bef0d80c4d821c766ca0e926f426cea26bf596874ec7f525e597a786a21258de2973e669cb706cab70fe36int + times(x, y_num_sq_10_1(x))
}

pub(crate) open spec fn y_num_sq_10_1(x: int) -> int {
    0x133be1c696a52811b3f68ea329aba2fd88613e0219fb6ac4b50ed748d2cb18f10a27b74a06eff9812b4f2ed0d14a61c1int + times(x, y_num_sq_10_2(x))
}

pub(crate) open spec fn y_num_sq_10_2(x: int) -> int {
    0x17f8b4b5183703038ee4d3cdb2120a3acffc333844f2999e9e07c631127281232cb37b1c98b247e1777e55da40a64751int + times(x, y_num_sq_10_3(x))
}

pub(crate) open spec fn y_num_sq_10_3(x: int) -> int {
    0x32f7d9e4edd14869162a8c6670ad3de4294a48424586f2c170cb367c02f3672d92a316d473fbba56ae90477b6286ac8int + times(x, y_num_sq_10_4(x))
}

pub(crate) open spec fn y_num_sq_10_4(x: int) -> int {
    0x17548bd5b027915dee2be3603b5c8b4e57847fff6ec2c26fc581a84c391e739fbf7d841adaa533d5c9fa464aef016822int + times(x, y_num_sq_10_5(x))
}

pub(crate) open spec fn y_num_sq_10_5(x: int) -> int {
    0x4c12f4604d84cd0b1823c4accc41852eba14704773ceab60c33cf07fc89d383715a6a2cccdd01f8465ab26aaa71109int + times(x, y_num_sq_10_6(x))
}

pub(crate) open spec fn y_num_sq_10_6(x: int) -> int {
    0xa3b89c039872b939afc93dd4e6a95c3e43c872fb53598c9ee6362aeb39df6ec970842798c22756a0a7b6b4ba2c75273int + times(x, y_num_sq_10_7(x))
}

pub(crate) open spec fn y_num_sq_10_7(x: int) -> int {
    0x149e9dbc03a05a68c3e1eedf9a59b86641045b31449f6e2933807f59ec9dcb16a1bf63fdcf8937541b6f40a3b5c741b1int + times(x, y_num_sq_10_8(x))
}

pub(crate) open spec fn y_num_sq_10_8(x: int) -> int {
    0x120dd52fd7f20b1195b6d6b3a713b62a449190bd41567579e7a3dd21c959ee700017c897cff242fa680bdeabbf202d30int + times(x, y_num_sq_10_9(x))
}

pub(crate) open spec fn y_num_sq_10_9(x: int) -> int {
    0x1388ff624c62a3efc1b83809f9c9e70ab3f306168d25fc1109977f105601e2ccff0ffc29afd2573028e3247b436642f3int + times(x, y_num_sq_10_10(x))
}

pub(crate) open spec fn y_num_sq_10_10(x: int) -> int {
    0x2d3b8e073d5f2fbe247189c51171b491cfe515415ddf140e53c111429e94043163470acfd73256309053534ace69314int + times(x, y_num_sq_10_11(x))
}

pub(crate) open spec fn y_num_sq_10_11(x: int) -> int {
    0x1801ff4586fa4bd934b0a2b3f574c9b1640925d541d0265ef1067cd8b9450c3fbd7836d601cdfab5efbb11e1102bd7c4int + times(x, y_num_sq_10_12(x))
}

pub(crate) open spec fn y_num_sq_10_12(x: int) -> int {
    0x21d36c33a11d9e79237d9dc75d6e7f0f3520a8ec275d4ad8a1951311c6887f4d09ad4f29522576d5f44a7b319f4b67fint + times(x, y_num_sq_10_13(x))
}

pub(crate) open spec fn y_num_sq_10_13(x: int) -> int {
    0x19e649d16229e8f0ceb528b45efafc5c0c638636c47ebc1ce836b2f8a093a3f792f706828659e5fa784547f0f33c964bint + times(x, y_num_sq_10_14(x))
}

pub(crate) open spec fn y_num_sq_10_14(x: int) -> int {
    0x18380dc2a1948183a37e6322121b87abd12f408e83a3b90f1f6a4fd82e549caf4cb8b7b84b10b97ae6ad4a01b4fc3c21int + times(x, y_num_sq_10_15(x))
}

pub(crate) open spec fn y_num_sq_10_15(x: int) -> int {
    0x10346fa175d204b4d667f29c35af11b661a82de95f72f823866ba17e9b7b82aeebfc991e6b3f0f6d71d0cea0fdef78deint + times(x, y_num_sq_11_15(x))
}

pub(crate) open spec fn y_num_sq_11_0(x: int) -> int {
    0x6fadcc6dcd9323174e204f1a9066a675f1d4fd3af2fbb50dc109e80a79d5aba1f87fa484a52abf0f39f77a2f2ee5e7bint + times(x, y_num_sq_11_1(x))
}

pub(crate) open spec fn y_num_sq_11_1(x: int) -> int {
    0xe73c6b05d3f536c526df5ab34505517d1ae8ad60c5ddfddd56cb5177fd43cd8f905107036b1529e7bff29734953d56aint + times(x, y_num_sq_11_2(x))
}

pub(crate) open spec fn y_num_sq_11_2(x: int) -> int {
    0x13a5cd82dfc579267dd00629998e83ea6ca4593133bfc7d1619c26f99f024196859cef491740f7e63a23da946e088d95int + times(x, y_num_sq_11_3(x))
}

pub(crate) open spec fn y_num_sq_11_3(x: int) -> int {
    0x18e9dee907d04d8a937b59e7bc2f2a4be7969c39af6d04b4be1fa7da4d257ab4305f225d5c7dc8386ea74eb4ad94982cint + times(x, y_num_sq_11_4(x))
}

pub(crate) open spec fn y_num_sq_11_4(x: int) -> int {
    0x16c5b16f36cbd55148cdcf17fc8a7f0c7139de727678eac1f731338b03cfc25f25417e42d567e12ac9366fd640c95819int + times(x, y_num_sq_11_5(x))
}

pub(crate) open spec fn y_num_sq_11_5(x: int) -> int {
    0x11725797226bdf498a6a4481d55dc7deefb7bdab5eccc2faddb24833a118e0dbb3b27f03e3a4792496367ab97cb51f28int + times(x, y_num_sq_11_6(x))
}

pub(crate) open spec fn y_num_sq_11_6(x: int) -> int {
    0xb077fbb3ef6cdd89851de0b2bfb6e79fa178352751b8c55bb33d69415ed180b3d93862dfbce977f06a1d4bdf206405fint + times(x, y_num_sq_11_7(x))
}

pub(crate) open spec fn y_num_sq_11_7(x: int) -> int {
    0xe2c1699a028315a751423b66636461335adf539def5d6024d11e48efaef9efa82395189a33a2fff8e3aa9976bd7c844int + times(x, y_num_sq_11_8(x))
}

pub(crate) open spec fn y_num_sq_11_8(x: int) -> int {
    0xdadee95dc37768e50018aa3b13f8d275c3011da9e3fac437e03ec439ec2af790ddad105facd30613349b834abba4ed2int + times(x, y_num_sq_11_9(x))
}

pub(crate) open spec fn y_num_sq_11_9(x: int) -> int {
    0x186fb63653c41a3ebbf2baaef944ec9d9e5ae582d58df298400f6795bdd07ceb36ef30531e07432e52271a89b43320ccint + times(x, y_num_sq_11_10(x))
}

pub(crate) open spec fn y_num_sq_11_10(x: int) -> int {
    0x7c4a1028eed4fbc54d9c96d405b4b81b980320f0c31fceb08d8aecd08999573894eee2b6193f11db79501a67e5491c9int + times(x, y_num_sq_11_11(x))
}

pub(crate) open spec fn y_num_sq_11_11(x: int) -> int {
    0x2d49f69e81883b6c3994010799bc09a15ebe114ffe1ea9edb725f824cd6d4d7f4a7dd080bb86cddb242e54992c35e33int + times(x, y_num_sq_11_12(x))
}

pub(crate) open spec fn y_num_sq_11_12(x: int) -> int {
    0xe12d15f854e80a72f8e0e975b360862246b55802103dfbe741bc0abcfdc3c87617479cfc675dbf1b36f2060f7eb85b7int + times(x, y_num_sq_11_13(x))
}

pub(crate) open spec fn y_num_sq_11_13(x: int) -> int {
    0x198481413e21ad530899d4150e4e076e1cf42026b478d6965d17f22aa9075850b1ddacbb549173a71e2dde16aca1cd71int + times(x, y_num_sq_11_14(x))
}

pub(crate) open spec fn y_num_sq_11_14(x: int) -> int {
    0x1318c637af1d9913181eb02bcb23c66f5e53058d2a0a19eb01f28549cc2e4783722bfb8cfd1d8657dfe638e7f1a96935int + times(x, y_num_sq_11_15(x))
}

pub(crate) open spec fn y_num_sq_11_15(x: int) -> int {
    0xd1cf4024ae082cc5bac9172754516115f19bb26984b72bcb460115f92cabc86565f0fdeb8a1aba5a9022ffba6b9fc56int + times(x, y_num_sq_12_15(x))
}

pub(crate) open spec fn y_num_sq_12_0(x: int) -> int {
    0x76579f09e4016385bf094bbae654ea50faf0884799e6a58d8af6e7b493af07317980bb85dc298fb6d18c2a368a0a673int + times(x, y_num_sq_12_1(x))
}

pub(crate) open spec fn y_num_sq_12_1(x: int) -> int {
    0xb37a7f709ea6e0837fd9d06e2594ae6fd0c775b1b4ecd76a6a579ce966c02bc4955505b40a61d9449e5d885052febd2int + times(x, y_num_sq_12_2(x))
}

pub(crate) open spec fn y_num_sq_12_2(x: int) -> int {
    0xb753caf4d26df38a989c44b90ef73aeb59e299e289537106db7800ce92b69f040a42d493c243b51a94b46195f44ce09int + times(x, y_num_sq_12_3(x))
}

pub(crate) open spec fn y_num_sq_12_3(x: int) -> int {
    0x194cbfc5637a4a3349cc35759131a71827fc22c8ba70955f1773025b66e5279286dec50c130600ff7f898872879f0586int + times(x, y_num_sq_12_4(x))
}

pub(crate) open spec fn y_num_sq_12_4(x: int) -> int {
    0x1766b377cfa1491ed9e843119c8bfcfaad3c34b88246d5b0ea1803296fea86c608cc8b56b9f94c3a44467f44c6bd843eint + times(x, y_num_sq_12_5(x))
}

pub(crate) open spec fn y_num_sq_12_5(x: int) -> int {
    0x1063fffad2ecb377af50882b6228aeb526b1b11cb769ae52c25c7f762cd479c25746caee0ecf36d76cc953b22513a7f6int + times(x, y_num_sq_12_6(x))
}

pub(crate) open spec fn y_num_sq_12_6(x: int) -> int {
    0x150b3fd7f17266ebc230d26fd36017e52694cb1416ac8e669a077a36ac3431bd01f08cbef0063f5adada972cf6011c04int + times(x, y_num_sq_12_7(x))
}

pub(crate) open spec fn y_num_sq_12_7(x: int) -> int {
    0xd6f8cac75122765e8522f52eda0c74f6e47366bc260268dde3045f5a84c3c0134ccf7d54eb5c9569a358106ebc9c321int + times(x, y_num_sq_12_8(x))
}

pub(crate) open spec fn y_num_sq_12_8(x: int) -> int {
    0x15153efbeb7df0d9182f832db0949567f9f32a454d44ae2ec53b85253a1c7d7b6d29fd5d255e9132a5fc55eef55e283fint + times(x, y_num_sq_12_9(x))
}

pub(crate) open spec fn y_num_sq_12_9(x: int) -> int {
    0x118854a9d0603a39c01e97dcce8d7a29736e89cdca18e63687dbb3624e9f14cb73d1a57f72ade785396df16bec7cf679int + times(x, y_num_sq_12_10(x))
}

pub(crate) open spec fn y_num_sq_12_10(x: int) -> int {
    0x15ac5e9f1c9d4a3513750283cc1790ef17fa84b952367c97627ad3df928116a2c9d0161ce454e2ce4f623d82f8c7ca58int + times(x, y_num_sq_12_11(x))
}

pub(crate) open spec fn y_num_sq_12_11(x: int) -> int {
    0x15f9a273cb13e76d6c2af460af1c5fb83dcdc2e0c3263d7989349d11378c90b52f0739603abe346229863a9ffbc22714int + times(x, y_num_sq_12_12(x))
}

pub(crate) open spec fn y_num_sq_12_12(x: int) -> int {
    0xd5536f3dd3078838966b2fdd917f851a916b97b5dab48548295368e07b9598827383244250819c10478fa926706a304int + times(x, y_num_sq_12_13(x))
}

pub(crate) open spec fn y_num_sq_12_13(x: int) -> int {
    0x143931a3d4a09e660bcc12f53f86f8a471655ee67c2febc03cf4299ecc8b29050bfbc9b850f9be5a593b53283ab0dfa4int + times(x, y_num_sq_12_14(x))
}

pub(crate) open spec fn y_num_sq_12_14(x: int) -> int {
    0xcdc2ed090a56c56a0de4ec7b32c654dfa4f6e6df5f25cb027c60fdc32fbb3b0dd71bc3dc1973e9fb1f29c809fd6a430int + times(x, y_num_sq_12_15(x))
}

pub(crate) open spec fn y_num_sq_12_15(x: int) -> int {
    0xe69b89f793ca86ed2915e4dc93922fc810bc818fa7f4686367792d04d28e36b3c4849ef598ea4b92a5eab6bc7b61ab5int + times(x, y_num_sq_13_15(x))
}

pub(crate) open spec fn y_num_sq_13_0(x: int) -> int {
    0x9a6a04e0ff125a353599093940e2d7bf646901430794617936183c5bcd845e171f30842041939d5f946cd689663fee8int + times(x, y_num_sq_13_1(x))
}

pub(crate) open spec fn y_num_sq_13_1(x: int) -> int {
    0x36fefa145ee4e88156246943f210c3b6ac5c666d7d5a117679f1dbae190b48afb61c7aca5e069b7fcf93fcbf64f9a2bint + times(x, y_num_sq_13_2(x))
}

pub(crate) open spec fn y_num_sq_13_2(x: int) -> int {
    0xa213c33205f5662706b6811431294ed00626c2a1400d9c4c7e1ad41ad003f5355018b6e9ae92e0c9d3452fa789615e9int + times(x, y_num_sq_13_3(x))
}

pub(crate) open spec fn y_num_sq_13_3(x: int) -> int {
    0x8e2ca2cf4e2b65d5ebe28bc79b1308367ad591da8c58e4b2118b9987aa67137ad8621df37c3411fc82f89024d97f8ebint + times(x, y_num_sq_13_4(x))
}

pub(crate) open spec fn y_num_sq_13_4(x: int) -> int {
    0x16d8a53bd7a3b2e67a2d0d074dd7484dac3275ac580bfdf68356a0ff88c571ed9cc7c56e3821094494c1009535ad0363int + times(x, y_num_sq_13_5(x))
}

pub(crate) open spec fn y_num_sq_13_5(x: int) -> int {
    0x217aafdfdd640058e865428d49bd73f9529a15955402db6091f532fb711ab2e95921f11430335b7fcf31bebda8183int + times(x, y_num_sq_13_6(x))
}

pub(crate) open spec fn y_num_sq_13_6(x: int) -> int {
    0xa65072cf95e39f540511a36e8bf57b91adcfd1f187d77b5bbbfb65d45414784fabf95f7b1b7ccaa8a31c4b528a2bd87int + times(x, y_num_sq_13_7(x))
}

pub(crate) open spec fn y_num_sq_13_7(x: int) -> int {
    0x126b311598bb10be28465eb6cfaa646cb14fa84f5fda70a06746036c725d940b8bbe7142ae9e2c17b5bb1bed5ef625cdint + times(x, y_num_sq_13_8(x))
}

pub(crate) open spec fn y_num_sq_13_8(x: int) -> int {
    0x289e59c3224f58661d44744cdd45a48f4cf3f3d1a3a14f48ecdaafd00d6ecfd4c2cef1697939f6cbf28e1d20267401cint + times(x, y_num_sq_13_9(x))
}

pub(crate) open spec fn y_num_sq_13_9(x: int) -> int {
    0x1663c745caa3f40444d668b7cfdc69983a945b3f8fa29288b3d3e230c2ef6385eddd1e325aeaf83ea2607b197196720cint + times(x, y_num_sq_13_10(x))
}

pub(crate) open spec fn y_num_sq_13_10(x: int) -> int {
    0x3df619dd75967995dac3273bfb70a36f2b8e4bc71c38875371ca6d5a88beebeddedf8f1fdb28cd2e59e54deff991dc6int + times(x, y_num_sq_13_11(x))
}

pub(crate) open spec fn y_num_sq_13_11(x: int) -> int {
    0x116211a7c4b4b35f76b5ce93d4cc1f7f5e89ca32b4c1ff1c8dcd3233e30c3d32e4c22af2408b75be83d74b54f0717759int + times(x, y_num_sq_13_12(x))
}

pub(crate) open spec fn y_num_sq_13_12(x: int) -> int {
    0x81a37d0bae9025a6b33f94e1ad788db30d416f4afb97c11c335d0bf4dbdc15775fe4c8f359f87b6b8e867507ef7bc6fint + times(x, y_num_sq_13_13(x))
}

pub(crate) open spec fn y_num_sq_13_13(x: int) -> int {
    0x187989c3dd265ec2e629f286f4eeb69ccb4fd89784da5691f94111adb17b51079001482b1311e9d205eb11d6715c164cint + times(x, y_num_sq_13_14(x))
}

pub(crate) open spec fn y_num_sq_13_14(x: int) -> int {
    0x15201f4faab4d26b4f07d09d53350bb71a3f11563c4802b9e1d27188713723583ff91cac516ca88e68163a52c9d168a5int + times(x, y_num_sq_13_15(x))
}

pub(crate) open spec fn y_num_sq_13_15(x: int) -> int {
    0x19650c15e0c5fbbddc37605966c49f7501966c94078b5b31bbdfe212d595731812931f5e967a56346432e6a45d3f1fe4int + times(x, y_num_sq_14_15(x))
}

pub(crate) open spec fn y_num_sq_14_0(x: int) -> int {
    0xee0ed5c0b828781b5c0b6beebf067e0beafd9471c93c9c14b9ea4ecd9516f2b64f9fb9400d3cad6650fd0bd58b8f48dint + times(x, y_num_sq_14_1(x))
}

pub(crate) open spec fn y_num_sq_14_1(x: int) -> int {
    0x42f74cdd705b24ecc405196c2ba408fa0aeee7b36a06712f941580120e405a69d987c68216b68645cf5fd81f40655b7int + times(x, y_num_sq_14_2(x))
}

pub(crate) open spec fn y_num_sq_14_2(x: int) -> int {
    0xcd5d58dfb46d62fbecf6f2f05372ff0246a9ae3bcf21603c6e2d28168ce83c200d51cc545c7bf11761400aff3cdb326int + times(x, y_num_sq_14_3(x))
}

pub(crate) open spec fn y_num_sq_14_3(x: int) -> int {
    0x14c8d3f26f79f91a8de7f3d7c6e419576746d020d9679ffe2989a0d004e422a310a7ab018cac1a0ca9206015eed78c2cint + times(x, y_num_sq_14_4(x))
}

pub(crate) open spec fn y_num_sq_14_4(x: int) -> int {
    0xd1e9f13b551508381b36141e826f0edacb29c9ccd8b519dbddef8cf5d5bb1c01af2f9a5b958c5c1d8b20320ab73e94eint + times(x, y_num_sq_14_5(x))
}

pub(crate) open spec fn y_num_sq_14_5(x: int) -> int {
    0xc1aeac568322d747b0fcdf3621ebd03c0a318131d0cb01224fbe90b37a06b15a007f1b06d0710ef068ca63e35b4e13eint + times(x, y_num_sq_14_6(x))
}

pub(crate) open spec fn y_num_sq_14_6(x: int) -> int {
    0x1405d598706c4b61a9259afcf6bc83e87a35331b560cff3d0ca56e7d9f6131a2573454223ca339277e2b41b5a48a67eaint + times(x, y_num_sq_14_7(x))
}

pub(crate) open spec fn y_num_sq_14_7(x: int) -> int {
    0x14755cf63b8d53903c07fca9d9a2f26638953dfe0d3064488c1342295143980b283fbc4864961d087c4e3f09e4e9ffc1int + times(x, y_num_sq_14_8(x))
}

pub(crate) open spec fn y_num_sq_14_8(x: int) -> int {
    0x636d2ce119fc60ec9b1481a49dca6ae598bddc145409bc8d5d8ee9230413160ec1d4afd9b1a870e4076d7ca3751fc35int + times(x, y_num_sq_14_9(x))
}

pub(crate) open spec fn y_num_sq_14_9(x: int) -> int {
    0x120cfb1633fde5ea09a0c00cff3dc3146f37ff8ac1cdbed62a328729ce857d72cb176c3def2282c9dac72d4f0447b7ddint + times(x, y_num_sq_14_10(x))
}

pub(crate) open spec fn y_num_sq_14_10(x: int) -> int {
    0x532c75a63c37e8ff782ad7c9f961062eaac63875df470dab34a769741be3e6a5a1cb07b11021bd86a2267d0aad64cecint + times(x, y_num_sq_14_11(x))
}

pub(crate) open spec fn y_num_sq_14_11(x: int) -> int {
    0x15fc4fe7dab14ce915b7875d3973c5e954ba1a87d6c81f22b0a84a80c5a14fcdfeaccf64cb995112d2947b78c33e43e5int + times(x, y_num_sq_14_12(x))
}

pub(crate) open spec fn y_num_sq_14_12(x: int) -> int {
    0xea47c28a73a0aa3c09e46a1c3a20c4bf8412e1406f62eea224fd252d80061a2e509c7b256e3c1d35d161e25355d90b5int + times(x, y_num_sq_14_13(x))
}

pub(crate) open spec fn y_num_sq_14_13(x: int) -> int {
    0x14356544d95e47848ed68302064267e9f2c189cef7022ca2ced432b8a1ececc7ad7a24f70571525c722ed5b5e3dae2b0int + times(x, y_num_sq_14_14(x))
}

pub(crate) open spec fn y_num_sq_14_14(x: int) -> int {
    0x106ce578d3ee49f93e7a6471edf40534c16cfffa775ab73072f5eae9e8b66d91f126fd9a886d4e7ace399f203c93c0e0int + times(x, y_num_sq_14_15(x))
}

pub(crate) open spec fn y_num_sq_14_15(x: int) -> int {
    0x15651c2428ce3826d3ddb4fe2d9a7c1243da48d3d0acd5f242e382ce856852a630d118260eae4c28591b56b4d40f9f6int + times(x, y_num_sq_15_15(x))
}

pub(crate) open spec fn y_num_sq_15_0(x: int) -> int {
    0x97c9b3afc41c5659cfb20f76833eb9745554ce674018bc7124efea20fbfc8f1c283cdee02585384d6c609aea925dcfint + times(x, y_num_sq_15_1(x))
}

pub(crate) open spec fn y_num_sq_15_1(x: int) -> int {
    0x6123119a17eb6a40bb0dd0d91c8576e77638da110ee959f73369025592d23eaa3ddf76bcd48e095556b03404ee477b8int + times(x, y_num_sq_15_2(x))
}

pub(crate) open spec fn y_num_sq_15_2(x: int) -> int {
    0xc6323be50cb5d9401b96fea1b225c31d140f6f19807bb70b102eb7e28dfc8ec04930571d58e466606fdf5f9e4d654bcint + times(x, y_num_sq_15_3(x))
}

pub(crate) open spec fn y_num_sq_15_3(x: int) -> int {
    0xe1b8076dfb3b3ed65fef5b3ab7eba2829c5437108a0d6546be9fe978a3e5c92b919746dd50f2210c34364781ba2e6abint + times(x, y_num_sq_15_4(x))
}

pub(crate) open spec fn y_num_sq_15_4(x: int) -> int {
    0x1926b18ac64ce95d6e020faad485c68285e66ec319fe6cc7727d02ea14d60adff739d171b9e601f88d9f31c98deeed58int + times(x, y_num_sq_15_5(x))
}

pub(crate) open spec fn y_num_sq_15_5(x: int) -> int {
    0x94e26691b7b8485f2c3530e6c2373e06d768029dc123b555f1c80435ae23e6723c2559e315e88a51671b70b94b6f9int + times(x, y_num_sq_15_6(x))
}

pub(crate) open spec fn y_num_sq_15_6(x: int) -> int {
    0x15e7a42870a1b4644778617d011f525f7adf0f776f76981055d14246691ea2ef8849a1d7cee9485de4bc4c5a1d1d214fint + times(x, y_num_sq_15_7(x))
}

pub(crate) open spec fn y_num_sq_15_7(x: int) -> int {
    0x7ff7818a09d0e73f7e56a61806bd0ab4a5b7b39bb538a7176a4a4a71ae7cb412cac4985e8fa6fec2545c62a0d4a0834int + times(x, y_num_sq_15_8(x))
}

pub(crate) open spec fn y_num_sq_15_8(x: int) -> int {
    0x444427415dea153fdaa9f256104f3a7bf3447c033e35461fa9cf8445f6fb69a8af82c4c56515e715d3cd928a6144e47int + times(x, y_num_sq_15_9(x))
}

pub(crate) open spec fn y_num_sq_15_9(x: int) -> int {
    0x67f3ad90050aa5f5c9e1e6f9bc890253671431f8ec98e61f0f818e9bc70fa0bbf41a57e1a82d604a1a2fbe5a27bde3cint + times(x, y_num_sq_15_10(x))
}

pub(crate) open spec fn y_num_sq_15_10(x: int) -> int {
    0x171cbb540034523c0964ea26add6f81e67cc73e128edf0f7eba9eed5c5fe314f987c9d901f7589154be995b90c45ba54int + times(x, y_num_sq_15_11(x))
}

pub(crate) open spec fn y_num_sq_15_11(x: int) -> int {
    0x40c531ba3b1675bace42aac218b0c364ca4cb8a259160c8c9a01835fcf08d578ed53a0f70a6d05f70f937b06e35826int + times(x, y_num_sq_15_12(x))
}

pub(crate) open spec fn y_num_sq_15_12(x: int) -> int {
    0x134aab3a0807bc9dcea53566b94fc41ccb440247b1bc568bbbd5f3e8d2a2b6371afb2d41b975fc2a7c477118fde45cbbint + times(x, y_num_sq_15_13(x))
}

pub(crate) open spec fn y_num_sq_15_13(x: int) -> int {
    0x8f8269d0cd7b1c49dbcfbe778d09a4040296c999030a40148e9f728ecdf0586216c21c40e0d07b995f9478420ab5f04int + times(x, y_num_sq_15_14(x))
}

pub(crate) open spec fn y_num_sq_15_14(x: int) -> int {
    0xab28e1214671c1369eeda7f16cd3e0921ed2469e8566af92171c16742b4295318688c13075726142c8dab5a6a07cfbint + times(x, y_num_sq_15_15(x))
}

pub(crate) open spec fn y_num_sq_15_15(x: int) -> int {
    0x30673b1c24bc7c97f094944729554461095cd85335b191fff80dffbbb553b41177f1bb29ff5dc3f24e921b95cfa5796int + times(x, 0int)
}

pub(crate) open spec fn curve_y_num_sq_0_0(x: int) -> int {
    0xc53a9dc10894709f6735d507e3c47cd4e60db447e0e943d7e2bb4c2c007bdd6181af8bf1355b9fd54e4f56077aba26dint + times(x, curve_y_num_sq_0_1(x))
}

pub(crate) open spec fn curve_y_num_sq_0_1(x: int) -> int {
    0x1602caadb41644720f82a2a12028d866f7d6136c361fa474d91e3128c894ba92715d7433e245a435fff110f246196c51int + times(x, curve_y_num_sq_0_2(x))
}

pub(crate) open spec fn curve_y_num_sq_0_2(x: int) -> int {
    0x19b9767ccb4bedc35cad693834cece07e203975278aecbb480b4e785640b8cf474ed720821c698f8ad7d76749a4bd494int + times(x, curve_y_num_sq_0_3(x))
}

pub(crate) open spec fn curve_y_num_sq_0_3(x: int) -> int {
    0x18a55bb318acff0cc4dc57625dc5ae607e7654950d579cc8c6df500d0a963fbb17e8d5d5310fd82bfe98125dbe7a84a3int + times(x, curve_y_num_sq_0_4(x))
}

pub(crate) open spec fn curve_y_num_sq_0_4(x: int) -> int {
    0xca5c44029f210e27662ee1e6b08d45cfa9a939ddc88716aa8b3692c78eda4316f05350e8b2446c3bf59ffa8cadfcff1int + times(x, curve_y_num_sq_0_5(x))
}

pub(crate) open spec fn curve_y_num_sq_0_5(x: int) -> int {
    0xa75ac56218952cee58b4eeb89a49af330079ea312790233482edddddbae624ef520cf67687e08ea86c105bfea9fc799int + times(x, curve_y_num_sq_0_6(x))
}

pub(crate) open spec fn curve_y_num_sq_0_6(x: int) -> int {
    0x18f41fe342f5050b81401f771ed2240cdfcb8ec4044ef8410687c44d5ca62b3cd38f2172bc317218d3d448156947058cint + times(x, curve_y_num_sq_0_7(x))
}

pub(crate) open spec fn curve_y_num_sq_0_7(x: int) -> int {
    0x4dc46f932bdf1570c66e5faa23626279f38a2fde06bc157731f7fa4378841c11a3b1ae1acddebf8b99a31fc8fba6f8eint + times(x, curve_y_num_sq_0_8(x))
}

pub(crate) open spec fn curve_y_num_sq_0_8(x: int) -> int {
    0xb46bc3da6825259d378040f44f0c8dd11a92e5f1a1391b11740778e27e98c9bc887facc5c56d76af3d2256903698365int + times(x, curve_y_num_sq_0_9(x))
}

pub(crate) open spec fn curve_y_num_sq_0_9(x: int) -> int {
    0xa505ff3c306ea2ef1a655a2951af8ee966615ecba1010c540b2f840023cc775dd344e64ec0274bd56ce6eeff02aff0bint + times(x, curve_y_num_sq_0_10(x))
}

pub(crate) open spec fn curve_y_num_sq_0_10(x: int) -> int {
    0x140d18a77257ecb37ad34c1a8cc0cf817d9de5b7ed88e14426ff058ef6b762c8004691d36947caf49e74b4f94c8be386int + times(x, curve_y_num_sq_0_11(x))
}

pub(crate) open spec fn curve_y_num_sq_0_11(x: int) -> int {
    0xcc218493850267c9b8bec72223f6d2f7df57ca663dcb0093955385de344c4d567bb0fc87cb61b1372f85b7e3e6c6beint + times(x, curve_y_num_sq_0_12(x))
}

pub(crate) open spec fn curve_y_num_sq_0_12(x: int) -> int {
    0x20eddf5a8bcbd755b14e1ab5bb784012637d0a7490ce53a960b95cbeba186428f181fe80f1051a109c9954040cb35c4int + times(x, curve_y_num_sq_0_13(x))
}

pub(crate) open spec fn curve_y_num_sq_0_13(x: int) -> int {
    0x1fd49cf502f7f4b8d0bb1d393612a09ab5758fe6e85d5ce3e8ffb21e71d9dd7479798856e8d2371f22fe52912e4ad8eint + times(x, curve_y_num_sq_0_14(x))
}

pub(crate) open spec fn curve_y_num_sq_0_14(x: int) -> int {
    0x139dfbe6aed7d5c5107242d9fa6bf775606d1f64b0f0e5d3d8deeb739f43ade0e81f30dc6263c9dfa63c0b03b5026652int + times(x, curve_y_num_sq_0_15(x))
}

pub(crate) open spec fn curve_y_num_sq_0_15(x: int) -> int {
    0x39a53636686c8bd523ee17198194e5ec8d8a963a8467e772c732c95ce8489fc264e70693e9c213b6c23dbaa46193e8dint + times(x, curve_y_num_sq_0_16(x))
}

pub(crate) open spec fn curve_y_num_sq_0_16(x: int) -> int {
    0x37955252fabe47da612690b91a275c82d6a10697591c8f80ab77bc36e0b98d8208fa8184b30050f1a690048c02678cfint + times(x, curve_y_num_sq_0_17(x))
}

pub(crate) open spec fn curve_y_num_sq_0_17(x: int) -> int {
    0x175fd0d7b944f80056944cd4c4e7862a2c14e626304cc35d05a07c7a1b211a505a0118a2680812e4af9a78141e23f69int + times(x, curve_y_num_sq_0_18(x))
}

pub(crate) open spec fn curve_y_num_sq_0_18(x: int) -> int {
    0x180bdb25625456a5a3be3b99c9d38626c250e718e0e0e4cde02fb5c9286bf84a337b58a5358679d66e4fe8e9ff0c8981int + times(x, curve_y_num_sq_0_19(x))
}

pub(crate) open spec fn curve_y_num_sq_0_19(x: int) -> int {
    0x103b3d1c58d5f53123c8be600ec3d38e990e84c813c095029b2c305eea2e270ec6588b6a63ad82d8d0ff61b7aae17cd7int + times(x, curve_y_num_sq_0_20(x))
}

pub(crate) open spec fn curve_y_num_sq_0_20(x: int) -> int {
    0x1234617d82c6133b36873c0ac2daf45dbf7a5f6567c08d5e820d366cc80b0e550c4d928ccaf08612264936004fbdddaaint + times(x, curve_y_num_sq_0_21(x))
}

pub(crate) open spec fn curve_y_num_sq_0_21(x: int) -> int {
    0xbee71e1128fcc90de63e9d2938f1a911b8f8b4e4aa4894acc39d603074772649be3c21e9d42c89ad474620d6dc20d19int + times(x, curve_y_num_sq_0_22(x))
}

pub(crate) open spec fn curve_y_num_sq_0_22(x: int) -> int {
    0x104f20b79c89b2fd6c8add012bd2a90aa6237535c873a3485d47c1c345389486e8b8368f1af79f3afadc2f6711bf855aint + times(x, curve_y_num_sq_0_23(x))
}

pub(crate) open spec fn curve_y_num_sq_0_23(x: int) -> int {
    0x11d98c5173f300d646fafd65ecc228d7362e5535ae0aeff800063f5ff205fe93df01272b7dfce2def4d625fb41342c4dint + times(x, curve_y_num_sq_0_24(x))
}

pub(crate) open spec fn curve_y_num_sq_0_24(x: int) -> int {
    0x6bced99bd2334d28a321fd2efb81d6dc028091f2022225f46a78fd234f3c2a4a4c5a763b62d4627fccc54704855097eint + times(x, curve_y_num_sq_0_25(x))
}

pub(crate) open spec fn curve_y_num_sq_0_25(x: int) -> int {
    0x36597af9b63cbdf8f44aa3ba633c44e7c0b0205bd7fe3309e704c5a292c465079816226359952261f2697bd428ca731int + times(x, curve_y_num_sq_0_26(x))
}

pub(crate) open spec fn curve_y_num_sq_0_26(x: int) -> int {
    0xc5310f4e13eb48ee052a0a40a5e9e58e47f1e422f4ea0387c963c7ca6a47aac269b5c35162be5800a3304973729b142int + times(x, curve_y_num_sq_0_27(x))
}

pub(crate) open spec fn curve_y_num_sq_0_27(x: int) -> int {
    0xf90535d9bece2c9bb7e0a213572c5deab5dc97507ad08fb9f59799f35fd192dbd09f9410dcbc3e59529eadb15cdbaceint + times(x, curve_y_num_sq_0_28(x))
}

pub(crate) open spec fn curve_y_num_sq_0_28(x: int) -> int {
    0x1513d11d2049b1516e53f19c6c43e75abd125de249fbc3949ce73d0c88340908577bd78d25c76c6992fdfcbf51380d3aint + times(x, curve_y_num_sq_0_29(x))
}

pub(crate) open spec fn curve_y_num_sq_0_29(x: int) -> int {
    0x924536df2fa0c075687cf6c65fbe7d73464390fad3860a024cf40f2400daa5cdac75477865d2f24f3e30e6ce6fec5cint + times(x, curve_y_num_sq_0_30(x))
}

pub(crate) open spec fn curve_y_num_sq_0_30(x: int) -> int {
    0x214448820023217a545fe30bdde05f79baed78a489393deace3bd9bb679ea8c20117c8160f6397ac0da0c0cb0eeda0aint + times(x, curve_y_num_sq_1_30(x))
}

pub(crate) open spec fn curve_y_num_sq_1_0(x: int) -> int {
    0xa49ac71836045290bbb0830a0f029ea0cbfc8fb60fcb19bce4e08609d9e083db1b0c4521ce1838d2f77c6a36e4e4150int + times(x, curve_y_num_sq_1_1(x))
}

pub(crate) open spec fn curve_y_num_sq_1_1(x: int) -> int {
    0xe05b7ba8b875506ecf0366bc5db9c0e39c5db2ff63c2894da4ed005f84cc4ff95a96136fa05fe0fe0c3b1816eaec910int + times(x, curve_y_num_sq_1_2(x))
}

pub(crate) open spec fn curve_y_num_sq_1_2(x: int) -> int {
    0xd10144368c681952a646afb268949a8320be500ab4c964ac451d7b685cda93612acc7b5ea8e2ede33730a715eb5e465int + times(x, curve_y_num_sq_1_3(x))
}

pub(crate) open spec fn curve_y_num_sq_1_3(x: int) -> int {
    0x174cc54a3535986eb36242a55064ee8e4fe4fe858d103a7a3c6ced7c1d8218d5ac33a88d13a93d88c574ebf5db4845e6int + times(x, curve_y_num_sq_1_4(x))
}

pub(crate) open spec fn curve_y_num_sq_1_4(x: int) -> int {
    0x12caffc659152821249306b15ddf607f3e04b3b00630241e20b195b563ea78ffcb294b31624f53cea7ca6be40eec4d37int + times(x, curve_y_num_sq_1_5(x))
}

pub(crate) open spec fn curve_y_num_sq_1_5(x: int) -> int {
    0x943b6f1a8799f1b6e5534425fd7b4d16fc0fa03481090b11af92e043d09769185d88acf4f906a883e6832587eb3fe47int + times(x, curve_y_num_sq_1_6(x))
}

pub(crate) open spec fn curve_y_num_sq_1_6(x: int) -> int {
    0x1406cbb9f26b04e5bfcb3e43355a240e41620b0bf5d66d0bff002375f123f21a49f51b70f37d719d1a3ed1a3c8235ff7int + times(x, curve_y_num_sq_1_7(x))
}

pub(crate) open spec fn curve_y_num_sq_1_7(x: int) -> int {
    0x10a2103c4d69db9e40d4ff577b4bdd6f655ae2183d7af1e063b7b376dc0f9cc09bc91be7cb940587fc2f7b57be1d33f8int + times(x, curve_y_num_sq_1_8(x))
}

pub(crate) open spec fn curve_y_num_sq_1_8(x: int) -> int {
    0x151dd5c4412566929cf3440b8f644c57c9d8cd72470432acaafd78bd456880e1a11e510f8486ce18ccdeaacba71be76cint + times(x, curve_y_num_sq_1_9(x))
}

pub(crate) open spec fn curve_y_num_sq_1_9(x: int) -> int {
    0xbe2f618400c57a99a1c6d18afdd5487b591295c27a4dbdbe24943812109f2629df96c4da0ef97ee261b6cef13c51bb0int + times(x, curve_y_num_sq_1_10(x))
}

pub(crate) open spec fn curve_y_num_sq_1_10(x: int) -> int {
    0x9ab978a6e3e34bb02d5e6a708ac2c1e7e8314912c6d2be8522129d8d8119d47d0139a549612a4f921469c5984178210int + times(x, curve_y_num_sq_1_11(x))
}

pub(crate) open spec fn curve_y_num_sq_1_11(x: int) -> int {
    0x10133f75c39d4db191149b0134ff461499385a0f29a3411c7a45bd6cfc84fa3f21f980b3df778e266b2270ef522ae602int + times(x, curve_y_num_sq_1_12(x))
}

pub(crate) open spec fn curve_y_num_sq_1_12(x: int) -> int {
    0x102305fb49d604ca596e6d80d22e1a7022dacce3523950a2cdfccad5bfdbb202eb87454ad89987cdfa57759cba8bddd8int + times(x, curve_y_num_sq_1_13(x))
}

pub(crate) open spec fn curve_y_num_sq_1_13(x: int) -> int {
    0x137cae9b076a344af2ca8b9efa44505cee984406817a65f7be95144e0899143b87ef4af94eae5facd6bf46b17771f72aint + times(x, curve_y_num_sq_1_14(x))
}

pub(crate) open spec fn curve_y_num_sq_1_14(x: int) -> int {
    0xc1ea6360607f4b69b6454544e9c67655126b31ba4268e039753fe8e63da53fda8d25da74924c5dca48da7d5c9486db8int + times(x, curve_y_num_sq_1_15(x))
}

pub(crate) open spec fn curve_y_num_sq_1_15(x: int) -> int {
    0x18e22d66a09913878359d7b0fa1dd55dcd5c0181ad5b7433c9a7ca7a5384d7c8def9e666b84398ec2b83c703b70170f0int + times(x, curve_y_num_sq_1_16(x))
}

pub(crate) open spec fn curve_y_num_sq_1_16(x: int) -> int {
    0x11a17200b5a31d83d9e6b425af5bda90da26942267c34ee4034ab40616dd13a503b1a51297f72f9d1d1115707a324101int + times(x, curve_y_num_sq_1_17(x))
}

pub(crate) open spec fn curve_y_num_sq_1_17(x: int) -> int {
    0xf0bdf114fd46d41d34c3f1c6abd7b9647ebb01e768e36ca043dec415eddf50b17bb3e91b8eec7a06599018a9ccb88int + times(x, curve_y_num_sq_1_18(x))
}

pub(crate) open spec fn curve_y_num_sq_1_18(x: int) -> int {
    0x1477b15840c542b3f1a38d8e57f0422c932548a1e677cede53414b25e9532230aefedc49634e9067f9f4381d1d5c74c1int + times(x, curve_y_num_sq_1_19(x))
}

pub(crate) open spec fn curve_y_num_sq_1_19(x: int) -> int {
    0x9ed537f279bed5d6a93b5360e32993a316d7fb21df206d3bd5a158a18106da1dfc29a7cc941e218c60aa52c1c9a8c07int + times(x, curve_y_num_sq_1_20(x))
}

pub(crate) open spec fn curve_y_num_sq_1_20(x: int) -> int {
    0x14f9ae4ec4d62a22bf42171268e79531e4f0ef71b26c5b65660781755cf5664602cd0ac6e8563a5c577265ca0a05395bint + times(x, curve_y_num_sq_1_21(x))
}

pub(crate) open spec fn curve_y_num_sq_1_21(x: int) -> int {
    0xd1e304a4829c29d5e9e9d4ac3beddffb32f5a0c7aced7499412f3a1f52d5eaf99206b24f97d34cc1ba1207dad329333int + times(x, curve_y_num_sq_1_22(x))
}

pub(crate) open spec fn curve_y_num_sq_1_22(x: int) -> int {
    0x155b39a1eaa11b3a056cb6de45f4ae46891a8b16bea85ea4ef3ddd1c70ebe36c7e04f17177dd49081c63658ae2852f76int + times(x, curve_y_num_sq_1_23(x))
}

pub(crate) open spec fn curve_y_num_sq_1_23(x: int) -> int {
    0x1512a5c7cfd4ffb8bbcb5b0041abb023bba3d72ab6c56bfb63d1da852cbf82aa9b84fd7a1c8873a76728158090175045int + times(x, curve_y_num_sq_1_24(x))
}

pub(crate) open spec fn curve_y_num_sq_1_24(x: int) -> int {
    0x3bebf0c7d4026520426c8faeab30bf325081c7c89958bbefd5943624d82ce6fca5fb9e28d8c5f0268c9688ffe4d5ec3int + times(x, curve_y_num_sq_1_25(x))
}

pub(crate) open spec fn curve_y_num_sq_1_25(x: int) -> int {
    0xf65f551969e8991ab7111b1e94a5c6dbbafa49c6c4d6340bd3f1151585b7d520626e014c41b4def3758ea42e1f45dd3int + times(x, curve_y_num_sq_1_26(x))
}

pub(crate) open spec fn curve_y_num_sq_1_26(x: int) -> int {
    0x2b05dd3b0f032ca91236ff3639a20b14c88eaa9d28de4ccfd65887b49a33b734dc9ff9769376996d6dae3341aa5be7cint + times(x, curve_y_num_sq_1_27(x))
}

pub(crate) open spec fn curve_y_num_sq_1_27(x: int) -> int {
    0x187f179cd77b76fd7fbc9af88631a5035782a8d79562a06e874032800a446a6ef328c1fca9d1b4c202c84ba778f0e138int + times(x, curve_y_num_sq_1_28(x))
}

pub(crate) open spec fn curve_y_num_sq_1_28(x: int) -> int {
    0x32aa14b5df1e765a2fa37f86b24ccdf1f6dd841452791f5c86a411e4c2891268aeed7a14289642bb313864d0893c5c7int + times(x, curve_y_num_sq_1_29(x))
}

pub(crate) open spec fn curve_y_num_sq_1_29(x: int) -> int {
    0xe561c878fede6df9bd28910c621618185c5846d0c4b5ee404998ca9f1806cfb585496b4520646dda7dd2cdb9471f34bint + times(x, curve_y_num_sq_1_30(x))
}

pub(crate) open spec fn curve_y_num_sq_1_30(x: int) -> int {
    0x49bff5aa392b14782f35ce30db9c0d4a813556902e872b693a809322b9d2e4d6639a831e3e72d789fb0ba11bae62ae4int + times(x, curve_y_num_sq_2_30(x))
}

pub(crate) open spec fn curve_y_num_sq_2_0(x: int) -> int {
    0x0int + times(x, curve_y_num_sq_2_1(x))
}

pub(crate) open spec fn curve_y_num_sq_2_1(x: int) -> int {
    0x364612fe1011542e6e51ab814b205ea71230349fc2bed82999ca5c4bba637cfbdc1cd1822808b0a87382ad5ddb73d90int + times(x, curve_y_num_sq_2_2(x))
}

pub(crate) open spec fn curve_y_num_sq_2_2(x: int) -> int {
    0xc32d61473827ae54e633e0cb9dea5bdfbbc71d7a4b116d7f5da84a4066b0ac5af2f7757f47b76d9df5ef9b36e372069int + times(x, curve_y_num_sq_2_3(x))
}

pub(crate) open spec fn curve_y_num_sq_2_3(x: int) -> int {
    0xe197f78676c63cf22f5595ca27fd4347cd967c12e0a0a9126b1ed8b3a846c1c76fcfec9f7ced5b295764ea86f670c67int + times(x, curve_y_num_sq_2_4(x))
}

pub(crate) open spec fn curve_y_num_sq_2_4(x: int) -> int {
    0x7c27bc7963a43fff956e2b54daad283448e72bc32e4f2b72dd2e081b9dfbd8782ba346d057d8950573ced16e2bfcf1dint + times(x, curve_y_num_sq_2_5(x))
}

pub(crate) open spec fn curve_y_num_sq_2_5(x: int) -> int {
    0x14443ebc394c83fe5ad5e34808a27429a9d33d357acf3b74cce49d871ab286ddc98dbbab785c3849dc864e718f7cc111int + times(x, curve_y_num_sq_2_6(x))
}

pub(crate) open spec fn curve_y_num_sq_2_6(x: int) -> int {
    0xcc3ebf1f16ef9957f5aa9c267db7437b85c20040e9c87b7ff704690dcc397e4c537aa404dd7d41265ea3f5376f8124int + times(x, curve_y_num_sq_2_7(x))
}

pub(crate) open spec fn curve_y_num_sq_2_7(x: int) -> int {
    0x174f49c5c03bc60c00fa767b810882f1a405fabeb8730de687fd55637980ae30410f7bc86964d4ae46fbf38de5d92b28int + times(x, curve_y_num_sq_2_8(x))
}

pub(crate) open spec fn curve_y_num_sq_2_8(x: int) -> int {
    0xbc4d85751f1a6c7dce52364b1abae31719edd3551efc790a654258f8fdb24a6d7a57684bafdd216a17b018fd646438bint + times(x, curve_y_num_sq_2_9(x))
}

pub(crate) open spec fn curve_y_num_sq_2_9(x: int) -> int {
    0x6a893aa5e4bb7101f357f06190781d929fd6e1dd2bb260350bcde4d70c040150cde57048b00bb2f88dc25ae6bc8e8c8int + times(x, curve_y_num_sq_2_10(x))
}

pub(crate) open spec fn curve_y_num_sq_2_10(x: int) -> int {
    0x188774a40dc81db608744c72f78b203a072111e7e56a0becf281611cc3f0b8344f9c46c0d78bc6df54dd94ae219d5fd6int + times(x, curve_y_num_sq_2_11(x))
}

pub(crate) open spec fn curve_y_num_sq_2_11(x: int) -> int {
    0xb0e5f187b546d370ed10134dd51a9ea5afe2ce950c6d621277285c8e1a5b32d287d1fa0de82e9d1695cdf420d233161int + times(x, curve_y_num_sq_2_12(x))
}

pub(crate) open spec fn curve_y_num_sq_2_12(x: int) -> int {
    0x1592da97f942047e0b3ba97e63e1a61a9cdeff56994e7e168ac2fc4573c2673bdaa471e537bb86b0cf17cce071833f54int + times(x, curve_y_num_sq_2_13(x))
}

pub(crate) open spec fn curve_y_num_sq_2_13(x: int) -> int {
    0xbd52f5b450d872fdd3fc45634980fb499a56a968d4baf2f1eaf42c943b8c3424fe99030f75c1c9c381b9ca11322aa17int + times(x, curve_y_num_sq_2_14(x))
}

pub(crate) open spec fn curve_y_num_sq_2_14(x: int) -> int {
    0xb541ebd62ce60936d8af9751a1b1eb83500aa20113736ab3bdf5e369c657a277de36b3c5ba05dcc0bda3fdf93fb41abint + times(x, curve_y_num_sq_2_15(x))
}

pub(crate) open spec fn curve_y_num_sq_2_15(x: int) -> int {
    0x5943ca2c3bac41f048b4e499a88e3fd39e64771852ed2ed6c750c461378eb091b17d266a502bbd115fc4aae47ef405dint + times(x, curve_y_num_sq_2_16(x))
}

pub(crate) open spec fn curve_y_num_sq_2_16(x: int) -> int {
    0x114e816775c39902e2986ad37457f700e1d59f0c160f02a1554c843afdbf5091f02905b01f0070a51b73df874dea6e4fint + times(x, curve_y_num_sq_2_17(x))
}

pub(crate) open spec fn curve_y_num_sq_2_17(x: int) -> int {
    0xc825a8ba33fcbcd0deeb39d01431da76ff878e23b168d050ec136e96b7fa4db98ad56ff21bc0e1cac95b8f52e2d10f6int + times(x, curve_y_num_sq_2_18(x))
}

pub(crate) open spec fn curve_y_num_sq_2_18(x: int) -> int {
    0x193066e443bbff29dd489657eb1a552af4c01d47c6997b7b7a5f1c3bb3cb0b11bc0d6544cf6c806c4a8b6284f7f46d24int + times(x, curve_y_num_sq_2_19(x))
}

pub(crate) open spec fn curve_y_num_sq_2_19(x: int) -> int {
    0x26a20e4e09a560027ee895f66015e228aaf6fcb1e9562ece6d64c84cd347a0e593ab3b3be6151d0a26cc3fa4509a9bint + times(x, curve_y_num_sq_2_20(x))
}

pub(crate) open spec fn curve_y_num_sq_2_20(x: int) -> int {
    0xd10ecda5f4561453854c85db048213e036ec0a826c6e562abfe2b7fb552cf75df73f854ae50ae6097c748f686ccdb3bint + times(x, curve_y_num_sq_2_21(x))
}

pub(crate) open spec fn curve_y_num_sq_2_21(x: int) -> int {
    0x1425d2c8e1a26a0531e2b9507105b0f56e1eb51f7e6d119be1aa608f108c70a2e77a1016a266891a12d4fbe611a0935int + times(x, curve_y_num_sq_2_22(x))
}

pub(crate) open spec fn curve_y_num_sq_2_22(x: int) -> int {
    0xf8942051dda9f78a9b392da80b697037300641e1863f9d611b15d9a11332ae7129ddc56c327e23b6f2a034cfca92392int + times(x, curve_y_num_sq_2_23(x))
}

pub(crate) open spec fn curve_y_num_sq_2_23(x: int) -> int {
    0x1880fe0904b5cdebd70e429445b351892de665ce521867363ded3361df57eb7abe77f324f00d4fac01a522cc8b8b288bint + times(x, curve_y_num_sq_2_24(x))
}

pub(crate) open spec fn curve_y_num_sq_2_24(x: int) -> int {
    0x11f232fd5ca7e8408d3a410b1aed129917243a3c92c76833ab38678178682b463f6272c1c42868c4990d753ff784a37dint + times(x, curve_y_num_sq_2_25(x))
}

pub(crate) open spec fn curve_y_num_sq_2_25(x: int) -> int {
    0x4b636b168654548b500d9db6a986af9a32938291ee834b1a9319620f414a096ed4e5d37b43f8f7fce5145e757786fb2int + times(x, curve_y_num_sq_2_26(x))
}

pub(crate) open spec fn curve_y_num_sq_2_26(x: int) -> int {
    0x10346fa175d204b4d667f29c35af11b661a82de95f72f823866ba17e9b7b82aeebfc991e6b3f0f6d71d0cea0fdef78deint + times(x, curve_y_num_sq_2_27(x))
}

pub(crate) open spec fn curve_y_num_sq_2_27(x: int) -> int {
    0xd1cf4024ae082cc5bac9172754516115f19bb26984b72bcb460115f92cabc86565f0fdeb8a1aba5a9022ffba6b9fc56int + times(x, curve_y_num_sq_2_28(x))
}

pub(crate) open spec fn curve_y_num_sq_2_28(x: int) -> int {
    0xe69b89f793ca86ed2915e4dc93922fc810bc818fa7f4686367792d04d28e36b3c4849ef598ea4b92a5eab6bc7b61ab5int + times(x, curve_y_num_sq_2_29(x))
}

pub(crate) open spec fn curve_y_num_sq_2_29(x: int) -> int {
    0x19650c15e0c5fbbddc37605966c49f7501966c94078b5b31bbdfe212d595731812931f5e967a56346432e6a45d3f1fe4int + times(x, curve_y_num_sq_2_30(x))
}

pub(crate) open spec fn curve_y_num_sq_2_30(x: int) -> int {
    0x15651c2428ce3826d3ddb4fe2d9a7c1243da48d3d0acd5f242e382ce856852a630d118260eae4c28591b56b4d40f9f6int + times(x, curve_y_num_sq_3_30(x))
}

pub(crate) open spec fn curve_y_num_sq_3_0(x: int) -> int {
    0x364612fe1011542e6e51ab814b205ea71230349fc2bed82999ca5c4bba637cfbdc1cd1822808b0a87382ad5ddb73d90int + times(x, curve_y_num_sq_3_1(x))
}

pub(crate) open spec fn curve_y_num_sq_3_1(x: int) -> int {
    0xc32d61473827ae54e633e0cb9dea5bdfbbc71d7a4b116d7f5da84a4066b0ac5af2f7757f47b76d9df5ef9b36e372069int + times(x, curve_y_num_sq_3_2(x))
}

pub(crate) open spec fn curve_y_num_sq_3_2(x: int) -> int {
    0xe197f78676c63cf22f5595ca27fd4347cd967c12e0a0a9126b1ed8b3a846c1c76fcfec9f7ced5b295764ea86f670c67int + times(x, curve_y_num_sq_3_3(x))
}

pub(crate) open spec fn curve_y_num_sq_3_3(x: int) -> int {
    0x7c27bc7963a43fff956e2b54daad283448e72bc32e4f2b72dd2e081b9dfbd8782ba346d057d8950573ced16e2bfcf1dint + times(x, curve_y_num_sq_3_4(x))
}

pub(crate) open spec fn curve_y_num_sq_3_4(x: int) -> int {
    0x14443ebc394c83fe5ad5e34808a27429a9d33d357acf3b74cce49d871ab286ddc98dbbab785c3849dc864e718f7cc111int + times(x, curve_y_num_sq_3_5(x))
}

pub(crate) open spec fn curve_y_num_sq_3_5(x: int) -> int {
    0xcc3ebf1f16ef9957f5aa9c267db7437b85c20040e9c87b7ff704690dcc397e4c537aa404dd7d41265ea3f5376f8124int + times(x, curve_y_num_sq_3_6(x))
}

pub(crate) open spec fn curve_y_num_sq_3_6(x: int) -> int {
    0x174f49c5c03bc60c00fa767b810882f1a405fabeb8730de687fd55637980ae30410f7bc86964d4ae46fbf38de5d92b28int + times(x, curve_y_num_sq_3_7(x))
}

pub(crate) open spec fn curve_y_num_sq_3_7(x: int) -> int {
    0xbc4d85751f1a6c7dce52364b1abae31719edd3551efc790a654258f8fdb24a6d7a57684bafdd216a17b018fd646438bint + times(x, curve_y_num_sq_3_8(x))
}

pub(crate) open spec fn curve_y_num_sq_3_8(x: int) -> int {
    0x6a893aa5e4bb7101f357f06190781d929fd6e1dd2bb260350bcde4d70c040150cde57048b00bb2f88dc25ae6bc8e8c8int + times(x, curve_y_num_sq_3_9(x))
}

pub(crate) open spec fn curve_y_num_sq_3_9(x: int) -> int {
    0x188774a40dc81db608744c72f78b203a072111e7e56a0becf281611cc3f0b8344f9c46c0d78bc6df54dd94ae219d5fd6int + times(x, curve_y_num_sq_3_10(x))
}

pub(crate) open spec fn curve_y_num_sq_3_10(x: int) -> int {
    0xb0e5f187b546d370ed10134dd51a9ea5afe2ce950c6d621277285c8e1a5b32d287d1fa0de82e9d1695cdf420d233161int + times(x, curve_y_num_sq_3_11(x))
}

pub(crate) open spec fn curve_y_num_sq_3_11(x: int) -> int {
    0x1592da97f942047e0b3ba97e63e1a61a9cdeff56994e7e168ac2fc4573c2673bdaa471e537bb86b0cf17cce071833f54int + times(x, curve_y_num_sq_3_12(x))
}

pub(crate) open spec fn curve_y_num_sq_3_12(x: int) -> int {
    0xbd52f5b450d872fdd3fc45634980fb499a56a968d4baf2f1eaf42c943b8c3424fe99030f75c1c9c381b9ca11322aa17int + times(x, curve_y_num_sq_3_13(x))
}

pub(crate) open spec fn curve_y_num_sq_3_13(x: int) -> int {
    0xb541ebd62ce60936d8af9751a1b1eb83500aa20113736ab3bdf5e369c657a277de36b3c5ba05dcc0bda3fdf93fb41abint + times(x, curve_y_num_sq_3_14(x))
}

pub(crate) open spec fn curve_y_num_sq_3_14(x: int) -> int {
    0x5943ca2c3bac41f048b4e499a88e3fd39e64771852ed2ed6c750c461378eb091b17d266a502bbd115fc4aae47ef405dint + times(x, curve_y_num_sq_3_15(x))
}

pub(crate) open spec fn curve_y_num_sq_3_15(x: int) -> int {
    0x114e816775c39902e2986ad37457f700e1d59f0c160f02a1554c843afdbf5091f02905b01f0070a51b73df874dea6e4fint + times(x, curve_y_num_sq_3_16(x))
}

pub(crate) open spec fn curve_y_num_sq_3_16(x: int) -> int {
    0xc825a8ba33fcbcd0deeb39d01431da76ff878e23b168d050ec136e96b7fa4db98ad56ff21bc0e1cac95b8f52e2d10f6int + times(x, curve_y_num_sq_3_17(x))
}

pub(crate) open spec fn curve_y_num_sq_3_17(x: int) -> int {
    0x193066e443bbff29dd489657eb1a552af4c01d47c6997b7b7a5f1c3bb3cb0b11bc0d6544cf6c806c4a8b6284f7f46d24int + times(x, curve_y_num_sq_3_18(x))
}

pub(crate) open spec fn curve_y_num_sq_3_18(x: int) -> int {
    0x26a20e4e09a560027ee895f66015e228aaf6fcb1e9562ece6d64c84cd347a0e593ab3b3be6151d0a26cc3fa4509a9bint + times(x, curve_y_num_sq_3_19(x))
}

pub(crate) open spec fn curve_y_num_sq_3_19(x: int) -> int {
    0xd10ecda5f4561453854c85db048213e036ec0a826c6e562abfe2b7fb552cf75df73f854ae50ae6097c748f686ccdb3bint + times(x, curve_y_num_sq_3_20(x))
}

pub(crate) open spec fn curve_y_num_sq_3_20(x: int) -> int {
    0x1425d2c8e1a26a0531e2b9507105b0f56e1eb51f7e6d119be1aa608f108c70a2e77a1016a266891a12d4fbe611a0935int + times(x, curve_y_num_sq_3_21(x))
}

pub(crate) open spec fn curve_y_num_sq_3_21(x: int) -> int {
    0xf8942051dda9f78a9b392da80b697037300641e1863f9d611b15d9a11332ae7129ddc56c327e23b6f2a034cfca92392int + times(x, curve_y_num_sq_3_22(x))
}

pub(crate) open spec fn curve_y_num_sq_3_22(x: int) -> int {
    0x1880fe0904b5cdebd70e429445b351892de665ce521867363ded3361df57eb7abe77f324f00d4fac01a522cc8b8b288bint + times(x, curve_y_num_sq_3_23(x))
}

pub(crate) open spec fn curve_y_num_sq_3_23(x: int) -> int {
    0x11f232fd5ca7e8408d3a410b1aed129917243a3c92c76833ab38678178682b463f6272c1c42868c4990d753ff784a37dint + times(x, curve_y_num_sq_3_24(x))
}

pub(crate) open spec fn curve_y_num_sq_3_24(x: int) -> int {
    0x4b636b168654548b500d9db6a986af9a32938291ee834b1a9319620f414a096ed4e5d37b43f8f7fce5145e757786fb2int + times(x, curve_y_num_sq_3_25(x))
}

pub(crate) open spec fn curve_y_num_sq_3_25(x: int) -> int {
    0x10346fa175d204b4d667f29c35af11b661a82de95f72f823866ba17e9b7b82aeebfc991e6b3f0f6d71d0cea0fdef78deint + times(x, curve_y_num_sq_3_26(x))
}

pub(crate) open spec fn curve_y_num_sq_3_26(x: int) -> int {
    0xd1cf4024ae082cc5bac9172754516115f19bb26984b72bcb460115f92cabc86565f0fdeb8a1aba5a9022ffba6b9fc56int + times(x, curve_y_num_sq_3_27(x))
}

pub(crate) open spec fn curve_y_num_sq_3_27(x: int) -> int {
    0xe69b89f793ca86ed2915e4dc93922fc810bc818fa7f4686367792d04d28e36b3c4849ef598ea4b92a5eab6bc7b61ab5int + times(x, curve_y_num_sq_3_28(x))
}

pub(crate) open spec fn curve_y_num_sq_3_28(x: int) -> int {
    0x19650c15e0c5fbbddc37605966c49f7501966c94078b5b31bbdfe212d595731812931f5e967a56346432e6a45d3f1fe4int + times(x, curve_y_num_sq_3_29(x))
}

pub(crate) open spec fn curve_y_num_sq_3_29(x: int) -> int {
    0x15651c2428ce3826d3ddb4fe2d9a7c1243da48d3d0acd5f242e382ce856852a630d118260eae4c28591b56b4d40f9f6int + times(x, curve_y_num_sq_3_30(x))
}

pub(crate) open spec fn curve_y_num_sq_3_30(x: int) -> int {
    0x30673b1c24bc7c97f094944729554461095cd85335b191fff80dffbbb553b41177f1bb29ff5dc3f24e921b95cfa5796int + times(x, 0int)
}

pub(crate) open spec fn x_num_sq_0_0(x: int) -> int {
    0x853ba4ee724d0738e345eb00520059a21e98b19f025e906d2d3db32e37dcef6fc62267726aabd6492c0d61bc9d30141int + times(x, x_num_sq_0_1(x))
}

pub(crate) open spec fn x_num_sq_0_1(x: int) -> int {
    0x1350edf8796a4b8239c507c1d3709ae33e8b533da811c47b1acccc1aae68adaa56ba8d29e9c9e175677fd655a0dd3d78int + times(x, x_num_sq_0_2(x))
}

pub(crate) open spec fn x_num_sq_0_2(x: int) -> int {
    0x2af191986cf1ecb974c106351594d92ba89fbe04bf566979537d690a02490afc5ad54a8dfcf9c9639641b56d8fcfee1int + times(x, x_num_sq_0_3(x))
}

pub(crate) open spec fn x_num_sq_0_3(x: int) -> int {
    0x15758cea31f0ae2751d9d8fa15f00e06030ac121c8cd2d6085234da1a2fdb049ad4b535eae28e78bc11ad91546ccc12bint + times(x, x_num_sq_0_4(x))
}

pub(crate) open spec fn x_num_sq_0_4(x: int) -> int {
    0xcc27d2f0a264472b9d11f9a7b7d9851e25a861a2d59254abcc8855e6d620ac395c13557908663da454742b9ef4c7169int + times(x, x_num_sq_0_5(x))
}

pub(crate) open spec fn x_num_sq_0_5(x: int) -> int {
    0x124c09bb2b761cfda20498068762a7832d996f5f8f59cc47aee059e559bc80ec0dff7c1f4464c67d317405a4c92808aint + times(x, x_num_sq_0_6(x))
}

pub(crate) open spec fn x_num_sq_0_6(x: int) -> int {
    0x12326f9f1ae44948f01f5eabee78ad267fe65a9fb292184a625332769998136c41db98982f200dd18d174589a338d9deint + times(x, x_num_sq_0_7(x))
}

pub(crate) open spec fn x_num_sq_0_7(x: int) -> int {
    0x149f4b619d0a81e9cf4ce7a020d03bef796a6d558eabad29b9066ec12eb90a855c95a75b09985c4a2d7ed472afeb2084int + times(x, x_num_sq_0_8(x))
}

pub(crate) open spec fn x_num_sq_0_8(x: int) -> int {
    0x8c786ff5da0738d3f01d50b6490dbc835386e9fed6c9a80ecc84237e150849abbaee37465700f082e770f6e47404d84int + times(x, x_num_sq_0_9(x))
}

pub(crate) open spec fn x_num_sq_0_9(x: int) -> int {
    0xb0a23e320bd5e88429929fd9ed5c85b2671dbe78f37e44959f13413ed4fefc9662be41c98d347f1a86d8b235b5c7286int + times(x, x_num_sq_0_10(x))
}

pub(crate) open spec fn x_num_sq_0_10(x: int) -> int {
    0x14c7ef9b6c7705c27b79dc22364097f1497fbd3d95a3e8fb69397369d557cd3a81a2731ad62819b5965881b96c2062e1int + times(x, x_num_sq_0_11(x))
}

pub(crate) open spec fn x_num_sq_0_11(x: int) -> int {
    0xb925b75f70f5beab04e8221bf2d29576e649863584a66360747d82c50b409eec94c08a0d8c1f9491deea10fd6daa73fint + times(x, x_num_sq_1_11(x))
}

pub(crate) open spec fn x_num_sq_1_0(x: int) -> int {
    0x9a876fc3cb525c11ce283e0e9b84d719f45a99ed408e23d8d66660d573456d52b5d4694f4e4f0bab3bfeb2ad06e9ebcint + times(x, x_num_sq_1_1(x))
}

pub(crate) open spec fn x_num_sq_1_1(x: int) -> int {
    0x18318d2b1d0bd57098d4184f5f264f1e4b9946521a954cd27525faff051ccf03437530cf2aee274e1dccf3091b63a1c8int + times(x, x_num_sq_1_2(x))
}

pub(crate) open spec fn x_num_sq_1_2(x: int) -> int {
    0x1299eee9d5def2bd3fb53af73d6f32f05b5cd80b8547d71b8abff287decbeeaf7e713ec7e481e97e73f8f93c68526e50int + times(x, x_num_sq_1_3(x))
}

pub(crate) open spec fn x_num_sq_1_3(x: int) -> int {
    0x32b0e0002d4541b4de57e5b917549a9109cfbafda87c04314e574c7a540ba459e8a95b25f4e6344967ba6e0221b12f1int + times(x, x_num_sq_1_4(x))
}

pub(crate) open spec fn x_num_sq_1_4(x: int) -> int {
    0x11c88a7a3c819852d48f3d429ce19fd90d4c2bf49ddf84e6efd97d19de0ff598dbe1b23dabba4013a08df03f7ee4d89int + times(x, x_num_sq_1_5(x))
}

pub(crate) open spec fn x_num_sq_1_5(x: int) -> int {
    0x4e8cc96cf515df709e53744ab79d4370f24d36a16f806a2b26999e975881460243820fd35e9a4053a5b2203b8d97263int + times(x, x_num_sq_1_6(x))
}

pub(crate) open spec fn x_num_sq_1_6(x: int) -> int {
    0x3e585a609ef11606c93e1d4dff097fbaeb3a3244aae57f6586ca7f2fbf945250010779d608ad406c2b76b91de3310efint + times(x, x_num_sq_1_7(x))
}

pub(crate) open spec fn x_num_sq_1_7(x: int) -> int {
    0xb1cb33452a9a7b905c0a22e4e6cf956b3d1c1a630b3f347d95e41e9d25e656aac35192c0a3cec242d817d778e2aaa44int + times(x, x_num_sq_1_8(x))
}

pub(crate) open spec fn x_num_sq_1_8(x: int) -> int {
    0x13a8326f22bb8297d5c7c6dd048c5d06decdfe203c4fc80784b8ba54d6756d1a60a09e61971877d4a087e4230f94e2baint + times(x, x_num_sq_1_9(x))
}

pub(crate) open spec fn x_num_sq_1_9(x: int) -> int {
    0x13a9dcee982da96c77092d788b917e6d7492286fe906c91d4c9acc8d60fd5223f34e352996a75d2a85310610c3bbcc7bint + times(x, x_num_sq_1_10(x))
}

pub(crate) open spec fn x_num_sq_1_10(x: int) -> int {
    0x22f544ecd3790f2cb1a4aa142066eea0c72ed2a81766c3d61aa0b3e8faaaa3d62b5e9666b4d97969492964c6189cb4fint + times(x, x_num_sq_1_11(x))
}

pub(crate) open spec fn x_num_sq_1_11(x: int) -> int {
    0x647957b19c6cb99e00db2e721b130af87729e34641618620732bcd05d875930fe05268bfc3363381013f92e2eafaddeint + times(x, x_num_sq_2_11(x))
}

pub(crate) open spec fn x_num_sq_2_0(x: int) -> int {
    0x47e9dd8a3432ff549939fca357eab4bd368011324e52c848742ae3291b8b7d0a0e423d866357547d596284dbd9907c4int + times(x, x_num_sq_2_1(x))
}

pub(crate) open spec fn x_num_sq_2_1(x: int) -> int {
    0x17bb4f6a35b84a60ce7ac0582c9ddd6eb3c106535e29200ff62a10214cd75336e5fba9aeafbe73c5bd8cec8aa36635ebint + times(x, x_num_sq_2_2(x))
}

pub(crate) open spec fn x_num_sq_2_2(x: int) -> int {
    0xb98df88f486a12b9e129abdb50df3d8edb6fd1b8b03852fed40a9c259326f1a7437ab7b81894ecc251ab650c5ba9d0aint + times(x, x_num_sq_2_3(x))
}

pub(crate) open spec fn x_num_sq_2_3(x: int) -> int {
    0xe46949caedc1789706ce05d14e6041bdb9dd89bc57b3ddc728c69535a74b533120343e984d8ed9e03f8011f0543d8int + times(x, x_num_sq_2_4(x))
}

pub(crate) open spec fn x_num_sq_2_4(x: int) -> int {
    0x17412793a3823603d28ecd95e0719219e3780091ae0b817dfd4916cc42adbfd786dfd879c61b7b811f5d69b000bb2b10int + times(x, x_num_sq_2_5(x))
}

pub(crate) open spec fn x_num_sq_2_5(x: int) -> int {
    0x114bcd0e7aac26ef9855f8c99495d7075779882098cbc13a4f41232832c4159ba349df38a410728437e47001d1fc3d90int + times(x, x_num_sq_2_6(x))
}

pub(crate) open spec fn x_num_sq_2_6(x: int) -> int {
    0xd65aad56539a412371b47bc835cd7893422d1d1f0dddba9db694a38314135193daee3bfec79fa6683499e6225dfce70int + times(x, x_num_sq_2_7(x))
}

pub(crate) open spec fn x_num_sq_2_7(x: int) -> int {
    0x7449d6edf47779f6a897bf28f7ec068089fc57c8d4d335e1a7a5876bfbcf2862971650b9dfcafc2dc0ad4615e7cc45cint + times(x, x_num_sq_2_8(x))
}

pub(crate) open spec fn x_num_sq_2_8(x: int) -> int {
    0x55aac0d1c2b784b9c7799c2dd81431c6652133599906ad30909cd19b16abc9633225c0af6ee0df2e9ad43f6facbea59int + times(x, x_num_sq_2_9(x))
}

pub(crate) open spec fn x_num_sq_2_9(x: int) -> int {
    0x19aaa07137a4eecc2f87f7aeb60ac2b94cc85ad0e2649832cc88f40eb2cc4c957304b852ed8a45c2e59a5bdf4e77fd3fint + times(x, x_num_sq_2_10(x))
}

pub(crate) open spec fn x_num_sq_2_10(x: int) -> int {
    0x182404b4483a87e4dd23ffb495f3f155bf79124e58ea310017ea00fe05bcc2ac9e5a3bcf841afc0cd736cf01deeb1f07int + times(x, x_num_sq_2_11(x))
}

pub(crate) open spec fn x_num_sq_2_11(x: int) -> int {
    0x127a2434337c5508327e85269ddc90cf31c12aa4feb11567f20f9ad1e4bd0b9a83a3783682aa81bdd98f65c9ad56e9b7int + times(x, x_num_sq_3_11(x))
}

pub(crate) open spec fn x_num_sq_3_0(x: int) -> int {
    0x2db9e005c11bb6a12249e02d880db15a7ade91643855644fa635b19c431c19a2eda1496c9a6fe0d4d21dfd8de7a52dbint + times(x, x_num_sq_3_1(x))
}

pub(crate) open spec fn x_num_sq_3_1(x: int) -> int {
    0x1299da6159fa3471bbe84dcc66fa478f4a388fea255a01acf87db9c142f9ba9218989dc0efd150e202c8c692991d45fint + times(x, x_num_sq_3_2(x))
}

pub(crate) open spec fn x_num_sq_3_2(x: int) -> int {
    0x92604dd95bb0e7ed1024c0343b153c196ccb7afc7ace623d7702cf2acde407606ffbe0fa232633e98ba02d26494045int + times(x, x_num_sq_3_3(x))
}

pub(crate) open spec fn x_num_sq_3_3(x: int) -> int {
    0xdd68ce37d9769e3003002e5b988fadaf2d673b4113f10d8f128046b01349cb14d79da10f82db97e568afa01870dea56int + times(x, x_num_sq_3_4(x))
}

pub(crate) open spec fn x_num_sq_3_4(x: int) -> int {
    0xa68999a99a9a3682ead6c48f0f3df0ce31fc7219120d46f910492a3900ef84b630f15b8aaeeb14bdad636f839d43c13int + times(x, x_num_sq_3_5(x))
}

pub(crate) open spec fn x_num_sq_3_5(x: int) -> int {
    0x19ce1069392959c23383ccc6ac8fb59fa7f2c04b831db186fd4e5ef2fc788762d293f7ec7f1a03a455f00013f2544097int + times(x, x_num_sq_3_6(x))
}

pub(crate) open spec fn x_num_sq_3_6(x: int) -> int {
    0xdec9a52cc294b829c1ef07cc47b4927c8b25f4847516f6c1ecbff5191e3ac8777d84062eca84ae406acf97cc157f356int + times(x, x_num_sq_3_7(x))
}

pub(crate) open spec fn x_num_sq_3_7(x: int) -> int {
    0xab42588abef156a8c8610f4ab9e886c75f694ce2770bed0b0bab0fa4d76a107951c2dea50955cd21db1b54d6efcff5fint + times(x, x_num_sq_3_8(x))
}

pub(crate) open spec fn x_num_sq_3_8(x: int) -> int {
    0x1b4f09d85a25e14b8ded2251937a732e01cda6674a3eddac064e6be8dc3e6a23463db4d31d413a76658ce005268eed2int + times(x, x_num_sq_3_9(x))
}

pub(crate) open spec fn x_num_sq_3_9(x: int) -> int {
    0x8ccbab80f3367a0d2c0c5aee6d87930213e0bbb255ee3cd0a6003acd132a77816fccc985faa3e8ccf3c71ae12bc9b46int + times(x, x_num_sq_3_10(x))
}

pub(crate) open spec fn x_num_sq_3_10(x: int) -> int {
    0x50818c97c9b3f1e07e3a6f71a5d3d81d1576f977256abd353287c374e21f630de733ffe77ab174c8d5b6fb269fe18bint + times(x, x_num_sq_3_11(x))
}

pub(crate) open spec fn x_num_sq_3_11(x: int) -> int {
    0x1f05d5da5c280835062eaaa81175bcbe0725e1e7a9bc9f0898562ab66a5f949ff1dbf28b4885c6abe20f658149c0ed7int + times(x, x_num_sq_4_11(x))
}

pub(crate) open spec fn x_num_sq_4_0(x: int) -> int {
    0x9976f2f0751f0576beba13eea084ea8d1bd8a6a52d16507a7e31096c821507df7369fa531380095aecb9bd9cd315e78int + times(x, x_num_sq_4_1(x))
}

pub(crate) open spec fn x_num_sq_4_1(x: int) -> int {
    0x1167a07160885b850afdca00b61447416fdf91d5d3021869e7b7935024153598dcdf47e0ac1737a351348592d8d3cb2int + times(x, x_num_sq_4_2(x))
}

pub(crate) open spec fn x_num_sq_4_2(x: int) -> int {
    0x45be2bb9d4cdf65efef5bc634efb24b8d0fe6eba1530771712b2e0b986376baf461be8736f25453368c4b881c2aef88int + times(x, x_num_sq_4_3(x))
}

pub(crate) open spec fn x_num_sq_4_3(x: int) -> int {
    0xa4fa5b0ce8540f4e7a673d010681df7bcb536aac755d694dc833760975c8542ae4ad3ad84cc2e2516bf6a3957f59042int + times(x, x_num_sq_4_4(x))
}

pub(crate) open spec fn x_num_sq_4_4(x: int) -> int {
    0x1751c5939b2e7f75e20828b189a7e2129604a07b1cc169b7fe9984328dd7a38d9ac9e8ef10c102b71bd28bca2b78b16bint + times(x, x_num_sq_4_5(x))
}

pub(crate) open spec fn x_num_sq_4_5(x: int) -> int {
    0x9fab046c56103dd13e6705845af1c5915a44ba068581ca02b873fd5c4ff3fd6cabe65cd96b02d12d9bfecdd2e8a8d5fint + times(x, x_num_sq_4_6(x))
}

pub(crate) open spec fn x_num_sq_4_6(x: int) -> int {
    0xae09ac1a3bfecc4a411cf8cf0a77ed3e8b7b2601cf7a8c8b1bc2ae5cee6869936bc4acdea0ee0df32e40a88f86c7efeint + times(x, x_num_sq_4_7(x))
}

pub(crate) open spec fn x_num_sq_4_7(x: int) -> int {
    0xcd94b73d0c4e6fed0f33744f1b51a54aa58f565f2af42c62869ab0bd3246d3f40cfd5d6512b43cd3e0a04b88c127cc1int + times(x, x_num_sq_4_8(x))
}

pub(crate) open spec fn x_num_sq_4_8(x: int) -> int {
    0xce316bef0a2ae9a5a8136865dcba2a35e2b43b0c963909712491c137316df730d6e42f51140a0ba42aef976229d2e7eint + times(x, x_num_sq_4_9(x))
}

pub(crate) open spec fn x_num_sq_4_9(x: int) -> int {
    0x1999667efbdbe12dfa3cad3efed94d7b58ea4bb3219d35f5b4677e647834114f1e98511d5813ba839f17cb961265fca1int + times(x, x_num_sq_4_10(x))
}

pub(crate) open spec fn x_num_sq_4_10(x: int) -> int {
    0x263c17431e5d5b866c2c250302e9cbe051eaa44e76f5f0a204bfdb05e12aa5cd91b35e216425fb5ae10a4d1f6bebb77int + times(x, x_num_sq_4_11(x))
}

pub(crate) open spec fn x_num_sq_4_11(x: int) -> int {
    0x11492744d209645aa9e1023fe063d9fa5fce16ce7e9f739772098fffae3c96f0b1a2b6ac4c0eaaed7d92fefae39dedd1int + times(x, x_num_sq_5_11(x))
}

pub(crate) open spec fn x_num_sq_5_0(x: int) -> int {
    0x837f40eef484aacd755ac3ea8107aa204d436af17a4760bf06dccb7bac8b53321dc9e198aa866990e615654a43301int + times(x, x_num_sq_5_1(x))
}

pub(crate) open spec fn x_num_sq_5_1(x: int) -> int {
    0x14f259f5b0e1f9df68ac38cc5152c7e400e5a592f80ba98bcc3aee4b4d9b49b8d9a7c01d1a58925027b8dbd9a27d5979int + times(x, x_num_sq_5_2(x))
}

pub(crate) open spec fn x_num_sq_5_2(x: int) -> int {
    0xa36b1c70360de81a09f7b572fdc5ce2964aa633fd8ad8ba2801dc1d9eaa1239f98691a25ea9aafe52a89d7a7616e471int + times(x, x_num_sq_5_3(x))
}

pub(crate) open spec fn x_num_sq_5_3(x: int) -> int {
    0xb76d355fbf1dab1a81554101e34a68d03ab19a9c4304388555f90a64a29d7313f90fa8406030c50cca383a41bc746c4int + times(x, x_num_sq_5_4(x))
}

pub(crate) open spec fn x_num_sq_5_4(x: int) -> int {
    0x58511f1905eaf44214c94fecf6ae42d9338edf3c79bf224acf89a09f6a7f7e4b315f20e4c69a3f8d436c591adae3943int + times(x, x_num_sq_5_5(x))
}

pub(crate) open spec fn x_num_sq_5_5(x: int) -> int {
    0xb65eabb2c62210cae72123b1ea13f3eba5eacdd3b9c9dfbca50123453f51b5278179255675a60178dc2bc02dd79c9a3int + times(x, x_num_sq_5_6(x))
}

pub(crate) open spec fn x_num_sq_5_6(x: int) -> int {
    0x222db0bd3a37aa9dd863d6a4cba24766ba2e9e97a152153ae7429dda7515cbf7619475c2206eab779387b02189f1447int + times(x, x_num_sq_5_7(x))
}

pub(crate) open spec fn x_num_sq_5_7(x: int) -> int {
    0x180363bd423162b47908df5eacb18c6b7d49c9d47ea1ccf66d8b2a42ef55b82636c43d32d30a74342a8bd6093834cfb3int + times(x, x_num_sq_5_8(x))
}

pub(crate) open spec fn x_num_sq_5_8(x: int) -> int {
    0xa12837e94a37806eec83cce8a3bd155d3a2470b4b86d2a516f1d7c52c7f873a1c3ccbb07af3157ff7d29160dc07400int + times(x, x_num_sq_5_9(x))
}

pub(crate) open spec fn x_num_sq_5_9(x: int) -> int {
    0x162130a847f4295e46731752f65e65e4366bd5fa768ca2125ae0f33b8366756c62abff4b7cccdc06b354ad230d5a5355int + times(x, x_num_sq_5_10(x))
}

pub(crate) open spec fn x_num_sq_5_10(x: int) -> int {
    0x180ad015fc565fd9a7bd750b274f857439a1c612c31ac6deb35724f6a20de789e9263329f97f9b20b03576f07ec0add0int + times(x, x_num_sq_5_11(x))
}

pub(crate) open spec fn x_num_sq_5_11(x: int) -> int {
    0x5a27730e0a74277ecd9acaa24f6a0020e193ff17b068685fca07d585e3a278a6a96206ce2f07c79f3efb780cdc7c9cdint + times(x, x_num_sq_6_11(x))
}

pub(crate) open spec fn x_num_sq_6_0(x: int) -> int {
    0xd49a3084b92eb51e63a276742fed8ef70c187359b9a11a7afe9988d240fff0c1da3779af93669cc52bc2385ea5f677bint + times(x, x_num_sq_6_1(x))
}

pub(crate) open spec fn x_num_sq_6_1(x: int) -> int {
    0x3537e53225e5afa36f6eed68c3a64e821f0e534f5dfebef69c54b98fbf4f4e9b94bc8226587e9c5f59a6470ddeee2f4int + times(x, x_num_sq_6_2(x))
}

pub(crate) open spec fn x_num_sq_6_2(x: int) -> int {
    0x8fa88805df700655699affafb4cd2fff1bcf9d95dd3fbb956aab5e5db88f35c07c6eb8697aa0b6392860f5a54ebb798int + times(x, x_num_sq_6_3(x))
}

pub(crate) open spec fn x_num_sq_6_3(x: int) -> int {
    0x10f739c5b5c5aab2eb2b9a55926ac0210cd904726dfc7a92e69f43e2850aff29b6d7e4f02231adecead9e462cd1e527int + times(x, x_num_sq_6_4(x))
}

pub(crate) open spec fn x_num_sq_6_4(x: int) -> int {
    0x96204e04014e4b5cd07c9e7179f58b28f2110605a074aff9ee961358162b1e8098ae0c56ecdb99e0895c5b68ea6993eint + times(x, x_num_sq_6_5(x))
}

pub(crate) open spec fn x_num_sq_6_5(x: int) -> int {
    0x12c9b6b01847a1427db514ec013c6b17696df1f425e7bc7ab73c5566a3b2800973fc044fc50afca46bf6d087eb6d28f5int + times(x, x_num_sq_6_6(x))
}

pub(crate) open spec fn x_num_sq_6_6(x: int) -> int {
    0x138e97db6ce3e08ce8273a63b77b3387de38e86a57266e2b20aab391018cadb322ba320521d09e1adf960a68c03339a7int + times(x, x_num_sq_6_7(x))
}

pub(crate) open spec fn x_num_sq_6_7(x: int) -> int {
    0x14bc311259f50868220183dbed826ff8d288fda3f3564b8fe0b242b08214ad6ea5317376db4af7314167771587cca812int + times(x, x_num_sq_6_8(x))
}

pub(crate) open spec fn x_num_sq_6_8(x: int) -> int {
    0x56baf9f093c25e48ea652475ce949ac556d7ddb943f478ed5ece5b5581f8078bb238a71cf6adf272705ef50812c3b8eint + times(x, x_num_sq_6_9(x))
}

pub(crate) open spec fn x_num_sq_6_9(x: int) -> int {
    0x10ebe139f58b6cf43919f466f0e4f9663ff4a446c96ad03cb9aa96ae26bf139153ca3786ece54d4cf8d5ce6412db5570int + times(x, x_num_sq_6_10(x))
}

pub(crate) open spec fn x_num_sq_6_10(x: int) -> int {
    0x6f4a30b583b75b9fbc245f828eced1797635a1e36ebb0eabfb27d88aef216f953c2ed8a0d5f55e3824a788bdbab6dc7int + times(x, x_num_sq_6_11(x))
}

pub(crate) open spec fn x_num_sq_6_11(x: int) -> int {
    0x7093daf78e450be77c82e5f63de46763661d878ffe65ec4f83653fa40f6339077bf8e994a27e30a85f7b447976040edint + times(x, x_num_sq_7_11(x))
}

pub(crate) open spec fn x_num_sq_7_0(x: int) -> int {
    0x10b9c5bb931b708962b905cb40dfa3f3cab6ca3143fd55336099c6ce32bfc5605c852fbda90d88436ac768e0d1b80f95int + times(x, x_num_sq_7_1(x))
}

pub(crate) open spec fn x_num_sq_7_1(x: int) -> int {
    0x1562ee1431e6b61553023505247fb116658ce852f013d196788fcaa0a6c045a59cabffb32a4a14a1652c710c216029bfint + times(x, x_num_sq_7_2(x))
}

pub(crate) open spec fn x_num_sq_7_2(x: int) -> int {
    0x171e9b7a8e13f99ff195e1371da62c0ac236c8243b6b879ca2560763521d39660cffa3b85d7efd0d5bbf91a69a0429dbint + times(x, x_num_sq_7_3(x))
}

pub(crate) open spec fn x_num_sq_7_3(x: int) -> int {
    0x9e754d9c8b718fdd7680c954599191d60c80add78ac4032b77d4884067146a14ae6284cec1938d66374773073b3e3e3int + times(x, x_num_sq_7_4(x))
}

pub(crate) open spec fn x_num_sq_7_4(x: int) -> int {
    0x96f806a236be140d2c844b7727304e102c1ae79de3544e258d3ae4ea962ad2f5332c144b6bb0e91a4b6260dbe3b92f8int + times(x, x_num_sq_7_5(x))
}

pub(crate) open spec fn x_num_sq_7_5(x: int) -> int {
    0xcba0f89e662d1a743022039ad81a9ff0db1014f0074bcf64db8dbe052aba1a1f9f6f4858bb6c51cea7ceec56e7c1ee2int + times(x, x_num_sq_7_6(x))
}

pub(crate) open spec fn x_num_sq_7_6(x: int) -> int {
    0x163d9b0f367e1dd13ecd166e70941ed34b1c3b14f91b1413aca036b96db700df5127bc1a99ff40dec9c732e4d6ab4a31int + times(x, x_num_sq_7_7(x))
}

pub(crate) open spec fn x_num_sq_7_7(x: int) -> int {
    0x10bfa49449dfb9eaf5e9ebcf1c216a9ad3a8984c6ce7f3429af11da14365608f35c006eccf8c830840a59fa2c7d42dc5int + times(x, x_num_sq_7_8(x))
}

pub(crate) open spec fn x_num_sq_7_8(x: int) -> int {
    0x134d506fc2b95af8b59c313f8d2f58ab52147aa08ffac28b4358c4e9063cc2330d3a891fb305b8eaf8991aa6c65eb8a3int + times(x, x_num_sq_7_9(x))
}

pub(crate) open spec fn x_num_sq_7_9(x: int) -> int {
    0x8141a14992673e72b708ab6a32699ad9bdd29fd7fd7cac2e32241f648cf0a81dd6fb64d3011c35b41fdd1bf00d2e9d8int + times(x, x_num_sq_7_10(x))
}

pub(crate) open spec fn x_num_sq_7_10(x: int) -> int {
    0xf17788c6ccd3d8d4253957fbdac341ff10830aae62b8993508d85726a84fab09dd47f1dd4e0e6e2ad9edc97ad50dc3bint + times(x, x_num_sq_7_11(x))
}

pub(crate) open spec fn x_num_sq_7_11(x: int) -> int {
    0x10e50bca7606a80778007aa8810dbd635d0e26f78b4cfbb4784cf9d949c1bcdc6edcc5418eb0893aeca6510e05caab5bint + times(x, x_num_sq_8_11(x))
}

pub(crate) open spec fn x_num_sq_8_0(x: int) -> int {
    0x17abe5b54476b26e845cda93596f8f48e5ddf87eb03db9f87a9ad2ef05a315542e25ca470c8722e3baf491f6b9154debint + times(x, x_num_sq_8_1(x))
}

pub(crate) open spec fn x_num_sq_8_1(x: int) -> int {
    0x3c586744175e6e8d80fae0b0f5707f31dd2166b01eab0eb3f76db9d2d92fd433cba7f10fad6982ecc62b6c1fcdfae2aint + times(x, x_num_sq_8_2(x))
}

pub(crate) open spec fn x_num_sq_8_2(x: int) -> int {
    0xa13ca12c087f057eef3cb2d8aa20f84d389286f6e332a2ab87ec26f87e12c32ec8645308592bce378a6cc6bfd236382int + times(x, x_num_sq_8_3(x))
}

pub(crate) open spec fn x_num_sq_8_3(x: int) -> int {
    0x18ba21ec5fca5b862a76f29310c3bbda2882ee825920362f460effc1744092d3a72832c938eab57b99e39c574ac7d529int + times(x, x_num_sq_8_4(x))
}

pub(crate) open spec fn x_num_sq_8_4(x: int) -> int {
    0x84543a811154f7fb2207b3eb84b511b6ea01fe4d8f95e2b00d8652e64e2972ee5ece957da7cef039f872324f67a88d6int + times(x, x_num_sq_8_5(x))
}

pub(crate) open spec fn x_num_sq_8_5(x: int) -> int {
    0x17bf050c1307333a5b98a900f3a5cdadc3af7885fedfdc97788e2ac25959544ffd1e04be58b38a8c5226eeb42589ec50int + times(x, x_num_sq_8_6(x))
}

pub(crate) open spec fn x_num_sq_8_6(x: int) -> int {
    0xb31cab39562ad32a594a691a8419e08714111570138e96d55c517ab19f18edee809b83a964fd962377a56b54cc78bbdint + times(x, x_num_sq_8_7(x))
}

pub(crate) open spec fn x_num_sq_8_7(x: int) -> int {
    0x15a51c9785c4a57a7a7e54fb11d7c368e222b129b912432b6c9d31505276c68a68275b557eb155769bc8ff7d71cecc3eint + times(x, x_num_sq_8_8(x))
}

pub(crate) open spec fn x_num_sq_8_8(x: int) -> int {
    0x1990a9462bfd52062765f20f87202cd9ac80f4d153bc527910dc166dd45bb8ed352b669ca6c6817754b47de6e4d72d5bint + times(x, x_num_sq_8_9(x))
}

pub(crate) open spec fn x_num_sq_8_9(x: int) -> int {
    0x89be36334ab8247312e38d54b4810600cedd1eec6390680ba6168ac13ad563c7f86dc28f3d3470abec4d75e8b330ec2int + times(x, x_num_sq_8_10(x))
}

pub(crate) open spec fn x_num_sq_8_10(x: int) -> int {
    0x1120e5c0a79fae41448b9cb2e1c2ae4680202433911dc45d4e50eeff87152bdc9b52755067c2f20aec4ffdd4b1653c63int + times(x, x_num_sq_8_11(x))
}

pub(crate) open spec fn x_num_sq_8_11(x: int) -> int {
    0x77ca8155129d2bbd927c0937c3d717ec0f2e9faab2fc21e221bed4a2605e77eb8ec93d339b46ee0138bd886b2b6a083int + times(x, x_num_sq_9_11(x))
}

pub(crate) open spec fn x_num_sq_9_0(x: int) -> int {
    0x1163035e3781c28ab7ed0ad6dd95182bac1b294c466d2f013c694c600d8b78d3243745b9b30ed01cc1e4a7004bc73a77int + times(x, x_num_sq_9_1(x))
}

pub(crate) open spec fn x_num_sq_9_1(x: int) -> int {
    0xf6d438e504b8d76df02425f58bf54d4e32daa07fc137e28602fa65023ed10a44e80170fdf3a0bc2acab3dc271547888int + times(x, x_num_sq_9_2(x))
}

pub(crate) open spec fn x_num_sq_9_2(x: int) -> int {
    0x9dd6ad8716cfdd5f76faffca5f582248e47bdfce3a6785b46e2f16dc2f0234c94e82d53a6ede5a1b795d30f8471b86dint + times(x, x_num_sq_9_3(x))
}

pub(crate) open spec fn x_num_sq_9_3(x: int) -> int {
    0x136590a662a40399d0a8241707313ae38dbea6088e379a8a5c1a735de1216fe20f42e3959c46c27d8763ffb80c122a0bint + times(x, x_num_sq_9_4(x))
}

pub(crate) open spec fn x_num_sq_9_4(x: int) -> int {
    0x11d8fbfc4a321d87c3920159b538d3b9d487063449f8a83da0a07d5591f51326e1dfab7b7afb5065da123cb39f9675b7int + times(x, x_num_sq_9_5(x))
}

pub(crate) open spec fn x_num_sq_9_5(x: int) -> int {
    0x1685bfa8d60641390cd840196779bef6ef7c2bc7d9e195211ac94f9705376ef562a634b596717d43511a0707936f7df4int + times(x, x_num_sq_9_6(x))
}

pub(crate) open spec fn x_num_sq_9_6(x: int) -> int {
    0x17fce8bf48cfeffc3f6078b696802e267230e7b2e229c3cb95e19db79eb0cae1c3142d8b4a5cf2023ef8e4541d3edfd9int + times(x, x_num_sq_9_7(x))
}

pub(crate) open spec fn x_num_sq_9_7(x: int) -> int {
    0x612dfd4ee29d70c108f6250e1221fffc60f96a51acf46cc52f5398b808f64c15416b9ceed7dfb02593a3999e8f0471dint + times(x, x_num_sq_9_8(x))
}

pub(crate) open spec fn x_num_sq_9_8(x: int) -> int {
    0x108527ccd9321bac6171eb0ad394f9a6cd6c91fef9b5b8c22fb3934d9bd394da4b35c74bfdbdf1851ffb5a23cbaff5ccint + times(x, x_num_sq_9_9(x))
}

pub(crate) open spec fn x_num_sq_9_9(x: int) -> int {
    0x7fa7fe0da497abe11689d020f57caf57eed36c435d247acec0720a027a33764b71a84210a31a9cc21cbfe2404caec53int + times(x, x_num_sq_9_10(x))
}

pub(crate) open spec fn x_num_sq_9_10(x: int) -> int {
    0xe4c2b427376b170c807c998ee890160dc03296918383ef6edc5e229015f7fb7193cb03450154c5fd3b2d7443b234cd4int + times(x, x_num_sq_9_11(x))
}

pub(crate) open spec fn x_num_sq_9_11(x: int) -> int {
    0x2a2c9d7fea4a7c5303fff70ed905757495ade9712ee51341372eb97cb585a4d6311b4e19e773e15b947013cced1e239int + times(x, x_num_sq_10_11(x))
}

pub(crate) open spec fn x_num_sq_10_0(x: int) -> int {
    0x11e12acd4495c560470aea9aaaf1983d4ed94cdac9d1fde1c9ea6dc745a7b168e543df13f80bc8b11277ba8a8649666int + times(x, x_num_sq_10_1(x))
}

pub(crate) open spec fn x_num_sq_10_1(x: int) -> int {
    0xbe8cceef8ea53b8cbe232294c6e137586138917696ae0c2a1efb6be9498b37d74f3504c9c8bb385f2534530886254abint + times(x, x_num_sq_10_2(x))
}

pub(crate) open spec fn x_num_sq_10_2(x: int) -> int {
    0x177becad44134a93586894ee7e246456caabddfe323c475464038bc48305a7dd05b459f24ddd24aafad687801bf2bd43int + times(x, x_num_sq_10_3(x))
}

pub(crate) open spec fn x_num_sq_10_3(x: int) -> int {
    0x12e1cf9f71205a74835d7f9de24ef02b3d4e2a76d098f231a4d8ef0e6339f06f83b72717dbeac739f4769a339af097c1int + times(x, x_num_sq_10_4(x))
}

pub(crate) open spec fn x_num_sq_10_4(x: int) -> int {
    0x5d03e9f974e3dbf550b7b0dce04a2bf0e7dd3a8f7943a9d95d54210d9f07a01bb1dbfdbe90f8063c4cb49350741662dint + times(x, x_num_sq_10_5(x))
}

pub(crate) open spec fn x_num_sq_10_5(x: int) -> int {
    0x5d460adc7df76670c70dd8ef7ee0941fd97287b534a35ab85ef951877d835f5dd87f255f295da084bd3096d0c29861int + times(x, x_num_sq_10_6(x))
}

pub(crate) open spec fn x_num_sq_10_6(x: int) -> int {
    0x178f6f068100b52b0c84c9a9c51bb32bd6b36178eeb3ce8280af0e030c1c132cabd26a1e6432b91e6bf0e5c1ccf48aa0int + times(x, x_num_sq_10_7(x))
}

pub(crate) open spec fn x_num_sq_10_7(x: int) -> int {
    0x186e6c367db8b51191b59d405be1e2ed8deb520f2d326b03a505bdef23f9d37816e4b26f07a89bff8131dce90c2cdcd6int + times(x, x_num_sq_10_8(x))
}

pub(crate) open spec fn x_num_sq_10_8(x: int) -> int {
    0x8ea8be99bbd2d496697dda671b5f26dde20f033557ab4078c45d939221e8577b7c24120847edf6ecada52ea00ffbf08int + times(x, x_num_sq_10_9(x))
}

pub(crate) open spec fn x_num_sq_10_9(x: int) -> int {
    0x10bedcffc554dcab1221b424dfc48f2b12b51abfcf5a6a6ec4a65ff58e5b6ed16bcc49e8f584376fe6c56c43595b2597int + times(x, x_num_sq_10_10(x))
}

pub(crate) open spec fn x_num_sq_10_10(x: int) -> int {
    0xc8cc3d8f0c7ecea579f445c13a0e13a87f07d6a7328407293894c0bc7d28d40f9457fe4f4917f5850dea6207245a578int + times(x, x_num_sq_10_11(x))
}

pub(crate) open spec fn x_num_sq_10_11(x: int) -> int {
    0xc84818625900d8e036db43a84800d1ba5b71a4469d4c73cec32af2dad651a2c1afcd9c4aa7abff71742d525027aa711int + times(x, x_num_sq_11_11(x))
}

pub(crate) open spec fn x_num_sq_11_0(x: int) -> int {
    0x963072729d7caf7e53437807d26ba6d61f1ab38d6d3f9f8a59dccedc1095fb166961f3a6d7461b2895c0ac37550dbf0int + times(x, x_num_sq_11_1(x))
}

pub(crate) open spec fn x_num_sq_11_1(x: int) -> int {
    0x824a2b10b0c2a4f4e055ae8cf08ec312c70d76afeb0fa2156798e734e7b8ca87e56eabb296c672af2dc2a2c4fc43982int + times(x, x_num_sq_11_2(x))
}

pub(crate) open spec fn x_num_sq_11_2(x: int) -> int {
    0x1229a2a79bb2a11652004ab72c36bcf714abb3ab878baaaabcdd130e6fdaec3775bc44369b2fd04910b9aece86b7082cint + times(x, x_num_sq_11_3(x))
}

pub(crate) open spec fn x_num_sq_11_3(x: int) -> int {
    0x198dadd3ad5c916534bbd01094346be53fcaff5e86b17da5d06a379bff44451144ae89454f99fcb4ca0f51861ddcfe0bint + times(x, x_num_sq_11_4(x))
}

pub(crate) open spec fn x_num_sq_11_4(x: int) -> int {
    0x133f69190f32eb1b4d3f34eafc60015d8aa39c40af09bf7825e33daa02dfa58ae728838103e30fcc875c880a64dceaacint + times(x, x_num_sq_11_5(x))
}

pub(crate) open spec fn x_num_sq_11_5(x: int) -> int {
    0x18aee60fc1ebb3583c330e683f555fc1db2d3158379fe85aa41ed270a5f906b5357f32e186e526962ba43ef4f21c06b1int + times(x, x_num_sq_11_6(x))
}

pub(crate) open spec fn x_num_sq_11_6(x: int) -> int {
    0x11f2d70d4596f9cb80904095e97dbf2da9d0f3530d3fe7f10ed9a128cd222f03f8970f7a269afc279257d7afea0f0f5dint + times(x, x_num_sq_11_7(x))
}

pub(crate) open spec fn x_num_sq_11_7(x: int) -> int {
    0x19c537f407e6e0607e9085abe296bbf441654e48edb44a16912cdd7ab95d8723f2364fefd841972fba555339546519a3int + times(x, x_num_sq_11_8(x))
}

pub(crate) open spec fn x_num_sq_11_8(x: int) -> int {
    0x13318ebd173307e55c3b9eb0d1001cf549670c16867c95e69b86ddc21b575debbe5be39d9af3227ff9d801427792fe5aint + times(x, x_num_sq_11_9(x))
}

pub(crate) open spec fn x_num_sq_11_9(x: int) -> int {
    0x101717e9475ca17523bc62cb1d3b22f425e1acb1934b2380e71a722cfa36c330887834fb5b39bebd22675b1c5c8be76cint + times(x, x_num_sq_11_10(x))
}

pub(crate) open spec fn x_num_sq_11_10(x: int) -> int {
    0x1342c9b82f87fa142744adf863e5dcf9851732e4aeacecfe29b1c0e7520b08281cd46ce1ade75ffb68a0ea92813d28deint + times(x, x_num_sq_11_11(x))
}

pub(crate) open spec fn x_num_sq_11_11(x: int) -> int {
    0x1fdb435b0d2d1ccefe075627a716156584802aff4c7d9a81f3e592e0d9b8bca6dac177fe89d19dc463ef09cf258108cint + times(x, 0int)
}

pub(crate) open spec fn x_num_cube_0_0(x: int) -> int {
    0xe768dab657890e484b8233347416cbe57746ba5f1188add83934c17726a3884ea3111dc98bad37fe8b2c05f06014445int + times(x, x_num_cube_0_1(x))
}

pub(crate) open spec fn x_num_cube_0_1(x: int) -> int {
    0x46f04411141047f2ae764ba7684d79db49c723841e03c498699270ec1becf542aaf8ff846054a9dfa0f9c9c7f2f8b9int + times(x, x_num_cube_0_2(x))
}

pub(crate) open spec fn x_num_cube_0_2(x: int) -> int {
    0xef2b7b2abb24445a792bbaa3f53bcd4f5cc17119b68159ebb419035e5e69324c9ed35795918cc3078558c703016b794int + times(x, x_num_cube_0_3(x))
}

pub(crate) open spec fn x_num_cube_0_3(x: int) -> int {
    0x19e4373f0f786a9480377f9afc38603996cc4196fbe4ef0d95ae778f64069ce9b96bdd4a41ebe59b78733ffb4e54537bint + times(x, x_num_cube_0_4(x))
}

pub(crate) open spec fn x_num_cube_0_4(x: int) -> int {
    0x196aef16f63c7691dbb7e03f08e11c7d35ef0ece377ac807e540749061a6e9af53ccafaa6bc66b378fb276b766c932bfint + times(x, x_num_cube_0_5(x))
}

pub(crate) open spec fn x_num_cube_0_5(x: int) -> int {
    0x10b0992537828b27152694ef93ebb3e59ad1b1b5e4643fe78385108b7726e7b217e8e85ba94864bedfa42b32e1b3ec8aint + times(x, x_num_cube_0_6(x))
}

pub(crate) open spec fn x_num_cube_0_6(x: int) -> int {
    0x94cef3e7eb3088722012be89f1a50d9fcbc70cf37ea4d96b3edccb6df0ce7d08eacb33f7222ae7149f48e82bdce269dint + times(x, x_num_cube_0_7(x))
}

pub(crate) open spec fn x_num_cube_0_7(x: int) -> int {
    0x177b75da84813e04fec9aab1a44606bfdd2b83fa930c002c4b6f3642ef54136c8b29536a28fbbe11bd56525b09591595int + times(x, x_num_cube_0_8(x))
}

pub(crate) open spec fn x_num_cube_0_8(x: int) -> int {
    0xceebe97dc426365c2b547d1cf2696a181b54137ae681c62271e41566cff778edeb7c1384cff7c609f95f3ffb2653da3int + times(x, x_num_cube_0_9(x))
}

pub(crate) open spec fn x_num_cube_0_9(x: int) -> int {
    0x143bde525d2cc01cb6c18e3b8fa338b3bf014ac0c0f19c0a22f92ab166493bebf08717ff52a919f03f6a054cfd1a7f04int + times(x, x_num_cube_0_10(x))
}

pub(crate) open spec fn x_num_cube_0_10(x: int) -> int {
    0xfe47f52ea3e57af39987b4cd93a9a638257cd7043616387dbdd9d50a4f3c918817d615d0bea7e41ec100ed1f6276edfint + times(x, x_num_cube_0_11(x))
}

pub(crate) open spec fn x_num_cube_0_11(x: int) -> int {
    0x11108fbebbb624e1c47a46a21edf0cf614331ba3e2f4883ac905186b9fd72f74ec93753e86ebc1636dba95ba6ec181d2int + times(x, x_num_cube_0_12(x))
}

pub(crate) open spec fn x_num_cube_0_12(x: int) -> int {
    0x107d59ff09c1f6e9726e6880501d10c299e05f368ad9d81a442ebf2cc8daa3952c0eca645a436db3e61f325738e4b7b6int + times(x, x_num_cube_0_13(x))
}

pub(crate) open spec fn x_num_cube_0_13(x: int) -> int {
    0x13462a1c22f1468f7e32054ead95cd7a1d103081679c878d61882debf76c1f6ad67d6e865396235164e0a9bd32434950int + times(x, x_num_cube_0_14(x))
}

pub(crate) open spec fn x_num_cube_0_14(x: int) -> int {
    0x1595cf21f9ac576ed52418f1c6d4dd89c0692cb9bfe9cfeaa452a690c7a16bd7d72d08ad0cee315b904bd0f0e7ec93c9int + times(x, x_num_cube_0_15(x))
}

pub(crate) open spec fn x_num_cube_0_15(x: int) -> int {
    0x120afc3ca93d020a37e3cf469855735fa8413efaae20ef7d4d2e52da1aa036f33e07f5a3ea36be825e1ca47cca32d015int + times(x, x_num_cube_0_16(x))
}

pub(crate) open spec fn x_num_cube_0_16(x: int) -> int {
    0x134a2f67a9f913811ce416da7ed56b3cceb6633e215a0fd29a85fa82fee76d54cf0718c4da036773d03071a0f340ed14int + times(x, x_num_cube_0_17(x))
}

pub(crate) open spec fn x_num_cube_0_17(x: int) -> int {
    0x11c6e0f58ecb5e4ee77a1a2023d99c29640f8fbd6a86b23b7d932d2c3e429e8c8d9bc593762d4b5ead273661c3f42eefint + times(x, x_num_cube_0_18(x))
}

pub(crate) open spec fn x_num_cube_0_18(x: int) -> int {
    0x17aeafaf1f13f2341dfbac4544007f510a0db99bf93bed23c2d59e4295bc44ac59dd3cf1fb5d9e562b0589ff1be33318int + times(x, x_num_cube_0_19(x))
}

pub(crate) open spec fn x_num_cube_0_19(x: int) -> int {
    0x151a4b33b9046b7549c90f135ac6a55783d056f3ca2eef1e9b93b1cc464725bc116617ab3f9775fc1449bbd61594be9bint + times(x, x_num_cube_0_20(x))
}

pub(crate) open spec fn x_num_cube_0_20(x: int) -> int {
    0x18f7b62ee35191fedeb2333c02f4613f85e831cadef3741fd5e1687263d0905d2663a396bc297381dba8bbb8317dad95int + times(x, x_num_cube_0_21(x))
}

pub(crate) open spec fn x_num_cube_0_21(x: int) -> int {
    0x19e22c7581b97083073df026dc9c95b203b92f5bbd907913da97c0ee16b24375a6c9a0b37decca70959caa1f9d4e78c8int + times(x, x_num_cube_0_22(x))
}

pub(crate) open spec fn x_num_cube_0_22(x: int) -> int {
    0x59c4aaf15c931e2223875c7e9fc542786793d685cc716f4a576b42b08b696f4c9b68cfbf96d1369b7ef5d0be43125daint + times(x, x_num_cube_1_22(x))
}

pub(crate) open spec fn x_num_cube_1_0(x: int) -> int {
    0x8c2ab64c386a7a0bf435f55f8e6a8c5bfeb063827e1078155337705f6444bb3207252ff673c1c38888aa89897fb8bccint + times(x, x_num_cube_1_1(x))
}

pub(crate) open spec fn x_num_cube_1_1(x: int) -> int {
    0x3c8215d8938095813503bf57a6cfff4e7cd5dfcf0a1538584b1a7cda18294427f12712948c2bfd9304db1ae17f4ed9cint + times(x, x_num_cube_1_2(x))
}

pub(crate) open spec fn x_num_cube_1_2(x: int) -> int {
    0x2ea77fdc493f87e5f2149a5f5b1a40a0d688bf7a47c894db608e698035729ab250fbb5ad9ba9cfe127dea35e73fe752int + times(x, x_num_cube_1_3(x))
}

pub(crate) open spec fn x_num_cube_1_3(x: int) -> int {
    0x12db8f93ec405e8b584b583da5d6d48ca7ebec0546ccae70528e2cbe1c0932d14a01bdc8918d4429498dddfe947b831int + times(x, x_num_cube_1_4(x))
}

pub(crate) open spec fn x_num_cube_1_4(x: int) -> int {
    0xc0cf64584e79fcbae44a6753129405496236f6ad36f3b1e990a7b23e16e15456c726e7fc5df44453dbba86b4a402d68int + times(x, x_num_cube_1_5(x))
}

pub(crate) open spec fn x_num_cube_1_5(x: int) -> int {
    0x271a1857576dcce64fc42c49afc135f954c75f0086f0c3aff8abcb33db72be31dbaab8218499e15dfebed0ae85cb1baint + times(x, x_num_cube_1_6(x))
}

pub(crate) open spec fn x_num_cube_1_6(x: int) -> int {
    0x15c5cab86a351fe4b96f474b82cc87b8f88a87c8e2ca8f0c645765a092da453471c346489b3a2f9aa9aced900836189int + times(x, x_num_cube_1_7(x))
}

pub(crate) open spec fn x_num_cube_1_7(x: int) -> int {
    0x4a0a66d7b94f8e7d46f53e2c2abcb7c1d1891a80e92e8ac2fd01f5ca13675f35a58b612342c77f907ad8bef9664516dint + times(x, x_num_cube_1_8(x))
}

pub(crate) open spec fn x_num_cube_1_8(x: int) -> int {
    0xf083a967a8a3cfb7612a0a875e2d127da171a2ff0b99827054e155bcbe5ebe808f53f7b6ed3d7a6b89d9cb7a01b826fint + times(x, x_num_cube_1_9(x))
}

pub(crate) open spec fn x_num_cube_1_9(x: int) -> int {
    0x264a7b712ba151a10a0d7918e19f2c7539137db3c7553cdbb3779b458cc923e22137d10c9d9fdf8dc85316c2140f0efint + times(x, x_num_cube_1_10(x))
}

pub(crate) open spec fn x_num_cube_1_10(x: int) -> int {
    0xfc6edf8d25465d916e3ac0a8043dce8ed9428730a3a208b0202138f9ece78d53dd6694cf98e989a1f4f895b34910d35int + times(x, x_num_cube_1_11(x))
}

pub(crate) open spec fn x_num_cube_1_11(x: int) -> int {
    0x11cb56eb8c6e37edbaf15c38acbe58c6b353461b5d156dbe01b56a337a431a20aaa852f83a497fdd2aca160f930b0c1fint + times(x, x_num_cube_1_12(x))
}

pub(crate) open spec fn x_num_cube_1_12(x: int) -> int {
    0x9c932fd9d4b80943dd983541836555690ce4b5bf3b8120590e93c03812ceba8d9367add37979f789516acfb1b0bff4fint + times(x, x_num_cube_1_13(x))
}

pub(crate) open spec fn x_num_cube_1_13(x: int) -> int {
    0x6eb5702e1f4b3c16403cf607aa39582244db7bac85bb778d5a6d691585d6f1b8d6515e382130923afa5716c1be5d8beint + times(x, x_num_cube_1_14(x))
}

pub(crate) open spec fn x_num_cube_1_14(x: int) -> int {
    0x80bce0af20bbab8788f9da10177aa4dc32c950e77f3a6ca751c27b828056e82650da6b0164b9dfcbbe2ca34c704eaf1int + times(x, x_num_cube_1_15(x))
}

pub(crate) open spec fn x_num_cube_1_15(x: int) -> int {
    0xe250b6648cc03851b4aa4fa9b806c40a47b789d9eeba9edfb9951163dc32e7b2d88fc574a93f598145241ddd436e543int + times(x, x_num_cube_1_16(x))
}

pub(crate) open spec fn x_num_cube_1_16(x: int) -> int {
    0x53d607b501b4a8a70f6b471f4388b0abf8da61a3097a5f33b034931e3330c565b88e9d988f471d79132c90c884b65e4int + times(x, x_num_cube_1_17(x))
}

pub(crate) open spec fn x_num_cube_1_17(x: int) -> int {
    0x134e779e5548a1a7b8d8a6f5a006030e3b3475b9dc971e409f844a453010165d47fa0fcb259649fa5ac2c0cf8a138567int + times(x, x_num_cube_1_18(x))
}

pub(crate) open spec fn x_num_cube_1_18(x: int) -> int {
    0x16928513a774986fc40d68c9f0e3005a9e08a35b268acabd8e5eb1ccc99037a140f67bdfcfc65b4d7c387334039e36eint + times(x, x_num_cube_1_19(x))
}

pub(crate) open spec fn x_num_cube_1_19(x: int) -> int {
    0x29906d6d0d2ed5f39db493bca41ec608d36b99c2bfd6863b7e07f41bfdd5c77a3948709e43097dbad371af18cc1b804int + times(x, x_num_cube_1_20(x))
}

pub(crate) open spec fn x_num_cube_1_20(x: int) -> int {
    0x496c066d8b0e73407126846ffd240fb5fb934edada64979ed5c428022bc8b14060cf66cdf182efe60967ba658effdb3int + times(x, x_num_cube_1_21(x))
}

pub(crate) open spec fn x_num_cube_1_21(x: int) -> int {
    0x4074fef7e03b6f6e4f912c2a7b3eda3ae65c34294d924bb16b864b3db3a06de30e0408faa8f73ed8c4dde03edcd0f95int + times(x, x_num_cube_1_22(x))
}

pub(crate) open spec fn x_num_cube_1_22(x: int) -> int {
    0x888824588c2e0f82438be627d91971770aa9131438b2926309d9724487b1394d3576c434a6de0cd3fb3ce484f09ded7int + times(x, x_num_cube_2_22(x))
}

pub(crate) open spec fn x_num_cube_2_0(x: int) -> int {
    0xeda09bcfc697109cac5790e1b8eb78b8837ca9072d06bcec534fe8bf4a77537671a5d272dbf1d9c5deb01475d6f7055int + times(x, x_num_cube_2_1(x))
}

pub(crate) open spec fn x_num_cube_2_1(x: int) -> int {
    0x10e76c0e90515f2a783f759763ef6ef52fee0fef615c070d0680876cf4a5553ec9f2696e93183cba1314081477f1523eint + times(x, x_num_cube_2_2(x))
}

pub(crate) open spec fn x_num_cube_2_2(x: int) -> int {
    0x817f9888856a89e68000e58027352e336d5e10fa34ca781f29afec8f2647dcee2cdc496cd281e3cfc70c23a7f7749b0int + times(x, x_num_cube_2_3(x))
}

pub(crate) open spec fn x_num_cube_2_3(x: int) -> int {
    0x8e725865eb934160b7de0e64c85cb082d2e281f67e4b995ebdaabf179198da60160e665ae1678459982920389169e62int + times(x, x_num_cube_2_4(x))
}

pub(crate) open spec fn x_num_cube_2_4(x: int) -> int {
    0x6920e001595fd7f7413295a241cc479fe1efc70d2bac4c11b7141a16755af7632cd250742a3636864f6648d38391afint + times(x, x_num_cube_2_5(x))
}

pub(crate) open spec fn x_num_cube_2_5(x: int) -> int {
    0xc686797ec6b755377666163640437e77181ba8e3e64b5e94cfd0470c13bfa47488b7766c5b3e3ba9965cc07b94ac078int + times(x, x_num_cube_2_6(x))
}

pub(crate) open spec fn x_num_cube_2_6(x: int) -> int {
    0xb7e5014744af8ac7a616e95f9c3b6990ddeb1989a95cb3977ae0a9f19050e480c62199be87176b77906d8ea57b746a9int + times(x, x_num_cube_2_7(x))
}

pub(crate) open spec fn x_num_cube_2_7(x: int) -> int {
    0x13c76a814f7392996b867833fb4aacccba1c02b7993c70b6e02304ede59f773d5a023197a79d2fa1bd733739ee7141e3int + times(x, x_num_cube_2_8(x))
}

pub(crate) open spec fn x_num_cube_2_8(x: int) -> int {
    0x86c1dd5ff868f439838e2dedf071f1b80bef280f2f3e7f35cc4a9b3fac3f2bdf21f28af797fa015081be17bddded32cint + times(x, x_num_cube_2_9(x))
}

pub(crate) open spec fn x_num_cube_2_9(x: int) -> int {
    0x17facc48b1c7d11660c2fb503541999fce5f0d0b4ce05e40859b365e099e9bbb4013665a80fa588a09ab1240c769e225int + times(x, x_num_cube_2_10(x))
}

pub(crate) open spec fn x_num_cube_2_10(x: int) -> int {
    0xeb782f9f8ce3f06fea31f84a69922310c99a3676ae42ee42aa81d5983ea7cb6db42616173d91dd73875e3d196d41895int + times(x, x_num_cube_2_11(x))
}

pub(crate) open spec fn x_num_cube_2_11(x: int) -> int {
    0xf4140be6a8ad609b4253858e942d2e4be15ce16255b9312f2c2845cedcd2085a16fc99cfc975e1c47779bd4c086954fint + times(x, x_num_cube_2_12(x))
}

pub(crate) open spec fn x_num_cube_2_12(x: int) -> int {
    0x185589165e2105e35f2f4ea55b1b3882f19188b082f92224f529ea9451e93fc5057447fd59e51858e54e5a89eac431e5int + times(x, x_num_cube_2_13(x))
}

pub(crate) open spec fn x_num_cube_2_13(x: int) -> int {
    0x25c874749469944ad26b7a3ad36fd1d7003aca85fb5086b46c5f643133927ee7bbea7a1de410794164d813fe43a69e2int + times(x, x_num_cube_2_14(x))
}

pub(crate) open spec fn x_num_cube_2_14(x: int) -> int {
    0xfd27f3eb9d136c92b35f3c9f0e14dbf8254e85822973e1543a97059815ea4dcc9eed83093b03115d02f99b91d7ec09fint + times(x, x_num_cube_2_15(x))
}

pub(crate) open spec fn x_num_cube_2_15(x: int) -> int {
    0xba4ad0523e3e3e84ff593d2a8c51ba17bb1c7b5acfec73c5e037078b6a6c97dc0579782dbaadb6d4b9bff1d71b17020int + times(x, x_num_cube_2_16(x))
}

pub(crate) open spec fn x_num_cube_2_16(x: int) -> int {
    0x1988d051de0c43d5906070d15aa51ecfb050bbb3c3c5254f78b82940bcb952c3173ed5ec10a6d28ca09e2548989674e7int + times(x, x_num_cube_2_17(x))
}

pub(crate) open spec fn x_num_cube_2_17(x: int) -> int {
    0x1684e4d0b95de04b68fb799772179b856dbc18628294269cca22054e4abfa77fc59390d6c9feabb4523e819be2848522int + times(x, x_num_cube_2_18(x))
}

pub(crate) open spec fn x_num_cube_2_18(x: int) -> int {
    0xc50b369b23c5ed9aea69064d1129f686dd7ae38c7748a0e4a142a0d2bce0bcd1fb9341cdd035660952bf2f4bcdcff4eint + times(x, x_num_cube_2_19(x))
}

pub(crate) open spec fn x_num_cube_2_19(x: int) -> int {
    0x1363263577f8d9539b43c16c77c19cbb586d4cd0c66e28e6451e302d18b049364bbc9b8ceef9ac5e909ceac863483ee8int + times(x, x_num_cube_2_20(x))
}

pub(crate) open spec fn x_num_cube_2_20(x: int) -> int {
    0x114fb2efd78687f47c024095d9ccd49951693491d6147d08e61a1b0b583fd1e2bf4c0046c30ebc9fdd2dc3a9443a9e29int + times(x, x_num_cube_2_21(x))
}

pub(crate) open spec fn x_num_cube_2_21(x: int) -> int {
    0x15ca57546ae49422941c8e477a5f6ec2c165b3fe0626be70b749b39be3db13b6ddc839a8be566fd0fc34a5bc4e60efffint + times(x, x_num_cube_2_22(x))
}

pub(crate) open spec fn x_num_cube_2_22(x: int) -> int {
    0xfe9d224a76d44bf475c43957b5b857bee498960f06f56f903a316a1ca8d311d3ea12603e9526afa42c2a5a783254816int + times(x, x_num_cube_3_22(x))
}

pub(crate) open spec fn x_num_cube_3_0(x: int) -> int {
    0x6125332ba9312eba8d6c05da2974d3a5975a5aff60c5eb2d925098a6c0a1dffca69b880d5190be352e14db0ef2319ebint + times(x, x_num_cube_3_1(x))
}

pub(crate) open spec fn x_num_cube_3_1(x: int) -> int {
    0x3b80bb79ddadd66b6923a34c11fff5503b633a30cab902d54f177209a530cc878ccac929bb18ee0166ead3a65728d8dint + times(x, x_num_cube_3_2(x))
}

pub(crate) open spec fn x_num_cube_3_2(x: int) -> int {
    0x16e9c919127c5d74a2346d99cd056ad5635467318c899d32cd69342067ad762b7c0beeb8eeea441773777d008af5f25int + times(x, x_num_cube_3_3(x))
}

pub(crate) open spec fn x_num_cube_3_3(x: int) -> int {
    0x16581fec23d9556c30139c8aa738198c5457ebb27b7746459afd459bcd1651d920d6de12254f05bc7b19a3be977e3929int + times(x, x_num_cube_3_4(x))
}

pub(crate) open spec fn x_num_cube_3_4(x: int) -> int {
    0xf212026fbcfdb7c310b2e7e8b2b3ce9ab8e02b75a2763fdd3f27094bd7ed0c2c0137f61dddbf3e1be47bca5f1debb23int + times(x, x_num_cube_3_5(x))
}

pub(crate) open spec fn x_num_cube_3_5(x: int) -> int {
    0x47695f2cc35cecbdc9caacb1c4648f52a8029eadcc84c853f4308d2956066a8e458f58652904718cfc0bc3b06720cc8int + times(x, x_num_cube_3_6(x))
}

pub(crate) open spec fn x_num_cube_3_6(x: int) -> int {
    0x955e27b857e2f55a22a96f8f2ad20ea8eab6016a4be7398efb6013bdc9eeb7b55ec8e39323a50891de097cd417b208aint + times(x, x_num_cube_3_7(x))
}

pub(crate) open spec fn x_num_cube_3_7(x: int) -> int {
    0x41beb780d38d10342bf0a860d5ac25174b7e8196c945110296148963e34368b987102d146bea0ce1938b98fb456e113int + times(x, x_num_cube_3_8(x))
}

pub(crate) open spec fn x_num_cube_3_8(x: int) -> int {
    0xc674163ff7874ee5eede988d01457a2499472a062c7de7d6ac6f07fdd8e68ba3ead28f776f0df1f620fddea21a02059int + times(x, x_num_cube_3_9(x))
}

pub(crate) open spec fn x_num_cube_3_9(x: int) -> int {
    0x46f67d5e39bf1ff9560e4c2df86357ac64fb79c08fffd1b475adcb370d47b650c339297d600eb79ff46f281d650305fint + times(x, x_num_cube_3_10(x))
}

pub(crate) open spec fn x_num_cube_3_10(x: int) -> int {
    0x2a55d87ef8db6604f971adba8b45926a9741b3eba748e18b73019530db45714e3d94b517653563c2914bce20a684942int + times(x, x_num_cube_3_11(x))
}

pub(crate) open spec fn x_num_cube_3_11(x: int) -> int {
    0x43e6c33c307af1ba0312cbe8ca94aefb731dae4c0db2052aac7bec1c2e1ae95011e4b383689d9f441fc704dc36bd596int + times(x, x_num_cube_3_12(x))
}

pub(crate) open spec fn x_num_cube_3_12(x: int) -> int {
    0x16329f0afe1b6368d3dc181f4b83f34ccdfaa32922e6e3209b6ab3ce9425cf779788d6617b6bd78f64efa125e1b82e5int + times(x, x_num_cube_3_13(x))
}

pub(crate) open spec fn x_num_cube_3_13(x: int) -> int {
    0xae62ba897680680226b859d0a0988e4dc3ee188093bd4e6375f3b088a8c5d9697628bbf6f553ad218ccdd2c9f915f8dint + times(x, x_num_cube_3_14(x))
}

pub(crate) open spec fn x_num_cube_3_14(x: int) -> int {
    0x3476a6ad0a329bea6ec15ff7fa97aabb7c94a91ac7d5ea7f461763f1cb897701aca33c5b00007d38dc356c68c46dd9cint + times(x, x_num_cube_3_15(x))
}

pub(crate) open spec fn x_num_cube_3_15(x: int) -> int {
    0x618a38d83a97eb45dfe83c95045ae329f9525fa48c3655fb0cd83398278a593165c132c335313124ca9e59719e3fd46int + times(x, x_num_cube_3_16(x))
}

pub(crate) open spec fn x_num_cube_3_16(x: int) -> int {
    0xe3cec397cf5f69c70be8414c75cfed3cc2366649e617bb39a5fd8ea31bf9b2f4d52e11044b4f7f07d3ed8df9a803979int + times(x, x_num_cube_3_17(x))
}

pub(crate) open spec fn x_num_cube_3_17(x: int) -> int {
    0x191ba7194ca7c704698d529f355b7b38db1b810872f2ed809f2e56f716bc6ab486bff9ffee5fee5998aad25ceb186f9aint + times(x, x_num_cube_3_18(x))
}

pub(crate) open spec fn x_num_cube_3_18(x: int) -> int {
    0x12e3b9d8e2f458bfa8cae7c1aef207b8795f275ec1eef404054588f63b1423dfdffc5197074957952d9e4cfd7ea5e1d2int + times(x, x_num_cube_3_19(x))
}

pub(crate) open spec fn x_num_cube_3_19(x: int) -> int {
    0x9fe9434b23f1a9bc029c9979b18d1f29425a7d26868f4bf5c16cd24a9ca23c00d135d0a5aea56d9d6a64438a58f8139int + times(x, x_num_cube_3_20(x))
}

pub(crate) open spec fn x_num_cube_3_20(x: int) -> int {
    0x1741906a5021cf4728c60013f6a373f892a5bd1ba76221d78088010cdc06586e562ae98a20340b5c9a5ac1d013fed305int + times(x, x_num_cube_3_21(x))
}

pub(crate) open spec fn x_num_cube_3_21(x: int) -> int {
    0xb4008edec8eb7f4b679502c66d9925ada9081225d61ab2b03355996a964351abfbcfb236c2c2be6a9bf2b9d57b7ed0bint + times(x, x_num_cube_3_22(x))
}

pub(crate) open spec fn x_num_cube_3_22(x: int) -> int {
    0x17e3d21194a03d1708ffb491e105f79f0f7b4e2520ac9b9fc6d418dd520bd4bbe509d6de8dfd3be38212ddf10d95aa2bint + times(x, x_num_cube_4_22(x))
}

pub(crate) open spec fn x_num_cube_4_0(x: int) -> int {
    0xc3b2541d0306ff68d2a4a5c02222cde21617c739f1257346d3afc8016d61d194a9d07ddb7fa0d952f75fb9fbadad0adint + times(x, x_num_cube_4_1(x))
}

pub(crate) open spec fn x_num_cube_4_1(x: int) -> int {
    0xf2a0ddfc325f164c955785c6c755cd96dd18c3620abbbfc07fca721692492fec95db6e85f6879bfb0bf66dbaff11487int + times(x, x_num_cube_4_2(x))
}

pub(crate) open spec fn x_num_cube_4_2(x: int) -> int {
    0x9ff3bb85fa4b6d7783e70dd21b7202b8725a30dcca4c3e2efb361cdfc8bd9f56065e447cc31b8ba132d0db15d5e0b9aint + times(x, x_num_cube_4_3(x))
}

pub(crate) open spec fn x_num_cube_4_3(x: int) -> int {
    0xe2de2278f1d47910df87a170253389be51ef3cdee958468d02fb49b1439554543127c8375ac542e6f5d1b132efc31f8int + times(x, x_num_cube_4_4(x))
}

pub(crate) open spec fn x_num_cube_4_4(x: int) -> int {
    0x403da8e673105005f1c6ac82340a7040888d5e52b86215820a79e000f74172bf3194a2d0e45c760b0dadf746e815d25int + times(x, x_num_cube_4_5(x))
}

pub(crate) open spec fn x_num_cube_4_5(x: int) -> int {
    0x8a81099281418e72aa1f02e2b2ce0413842363af46fe9e138420a0e4a114a585573b927928057a0f299571fb3d4c5c0int + times(x, x_num_cube_4_6(x))
}

pub(crate) open spec fn x_num_cube_4_6(x: int) -> int {
    0x1751b13bf5a67c1da62961acf40553265eb7b304cf0eacb2b25aeff8b934d123fdba2c97a5badc744830161261a4e63aint + times(x, x_num_cube_4_7(x))
}

pub(crate) open spec fn x_num_cube_4_7(x: int) -> int {
    0x1816c01c69fa3cd4fab313b9e8921ac23883695f0fbd0722adf5b1841a7eefc54ea9a70f7e166123a26e8b71b66d941dint + times(x, x_num_cube_4_8(x))
}

pub(crate) open spec fn x_num_cube_4_8(x: int) -> int {
    0x13ac219307ee668e4218c7a1be374fb81bbed9b19f90c79f1edc6a997d6a2fc17e14fe7008ddbb7c33ccb80f91d872adint + times(x, x_num_cube_4_9(x))
}

pub(crate) open spec fn x_num_cube_4_9(x: int) -> int {
    0xcadf150e50ae1177507992b66df976daa841ae1447c1fb7eee4361562b7cf66e76a36959fa70d08f00a3dfa16ebd292int + times(x, x_num_cube_4_10(x))
}

pub(crate) open spec fn x_num_cube_4_10(x: int) -> int {
    0x835b72318ddc50134ab0d8b20e247c3440bf57d717a2bd7fb27a94035de2b3cddc74374b80a682d7b47d3c28bd1c323int + times(x, x_num_cube_4_11(x))
}

pub(crate) open spec fn x_num_cube_4_11(x: int) -> int {
    0x9cb939fc05892136ba4860877ff83c4dd2accad6ea8695f25494bd988ed0898f90c0b00e928a2540c869b12a2804c14int + times(x, x_num_cube_4_12(x))
}

pub(crate) open spec fn x_num_cube_4_12(x: int) -> int {
    0x10b6df395c6564485f14911fd7e4b091ed2b4e3d9a9a068c34e3afe4221ee59737eedf92255f6f79f2f91206d6fe6ecint + times(x, x_num_cube_4_13(x))
}

pub(crate) open spec fn x_num_cube_4_13(x: int) -> int {
    0x16b9c80a5b8f0b9524e9e48c74b338665a0b48964837fbf46f488abc137ed040f1464854d81cbb7ea8e5e8c79e573ea9int + times(x, x_num_cube_4_14(x))
}

pub(crate) open spec fn x_num_cube_4_14(x: int) -> int {
    0x21f6aaa6288e9c46154a6cf9a023c904d7e7f95ca3dbcd85db1f5e2a0b0319fd9db7d2d5b2ef5389f36875d876e3f7bint + times(x, x_num_cube_4_15(x))
}

pub(crate) open spec fn x_num_cube_4_15(x: int) -> int {
    0x1639993386d41804293024c196323186d2a8e53536cf263933e20fe99a3792bf2cd60614e663a681b55e0c1c7012b6d2int + times(x, x_num_cube_4_16(x))
}

pub(crate) open spec fn x_num_cube_4_16(x: int) -> int {
    0x4eb1ecada4dd9102959a149a984be3e28112b5ae744c7f737665d50fddd7e0e782ebb47413c94f02a8f3dcb00918ddbint + times(x, x_num_cube_4_17(x))
}

pub(crate) open spec fn x_num_cube_4_17(x: int) -> int {
    0x750285b023ef067f84fd279de47636e759522408ba8b2a3d986a8f2374f74c33ca56c9f65061a8bfa5b2c4c548adcbdint + times(x, x_num_cube_4_18(x))
}

pub(crate) open spec fn x_num_cube_4_18(x: int) -> int {
    0x116c4b7cebb4c96d6e9c0f82011a582b0de38096a562e7de6b5413ebf5e074a19db53544dc5a5666f780473a9863b06cint + times(x, x_num_cube_4_19(x))
}

pub(crate) open spec fn x_num_cube_4_19(x: int) -> int {
    0x18e9e392fff6c820aeb34589df6cba9eae0614d17ba36c21d6181d0039d2679e2d58d06e01a0c3e8cbba3998b19077dbint + times(x, x_num_cube_4_20(x))
}

pub(crate) open spec fn x_num_cube_4_20(x: int) -> int {
    0x75eaec6fbfaefada85e80665599058c7651c237a81487761838bbe880abc005a3abf10abc9fc2440b5f1b07929fc05bint + times(x, x_num_cube_4_21(x))
}

pub(crate) open spec fn x_num_cube_4_21(x: int) -> int {
    0x53249303bc7be12521f63d93106c1b3ae291220d3cd9e2fc19503c27ca2a6471ad61535a7a085f75d87d092da8fd806int + times(x, x_num_cube_4_22(x))
}

pub(crate) open spec fn x_num_cube_4_22(x: int) -> int {
    0xc7d14fa5cb70f36e7b98d340c5a35711d40c394a589ad1dbc44ac438b992253f049ff90562a5f19256980e9193715cfint + times(x, x_num_cube_5_22(x))
}

pub(crate) open spec fn x_num_cube_5_0(x: int) -> int {
    0x18f050e3c695904664d491461ea3a8ba55f978024c9038fd55bbd2f0f005bd0c0c77b8884ef122b1c2db2ee4ec342e54int + times(x, x_num_cube_5_1(x))
}

pub(crate) open spec fn x_num_cube_5_1(x: int) -> int {
    0x8f41437ca84c204c2c27d1bb74785abde156d79379f333ac8f98d89fb8caa8e582075ed343787c4838a4b2cc8522634int + times(x, x_num_cube_5_2(x))
}

pub(crate) open spec fn x_num_cube_5_2(x: int) -> int {
    0x81582d532546a01d3798d0ecb5000c3133e10ace2d5fc705e7f5f113b1d85a9c75f43f4feb0c3bb942ee73c28f77fedint + times(x, x_num_cube_5_3(x))
}

pub(crate) open spec fn x_num_cube_5_3(x: int) -> int {
    0x75d6de4a915fd79b549590719a5f46cf0b5883f591e10cd493188d4c7a96b6d0b0b2db92781830b4cb136c2c368fcc4int + times(x, x_num_cube_5_4(x))
}

pub(crate) open spec fn x_num_cube_5_4(x: int) -> int {
    0x974d4c302f294c2528621735f75126bd5f949669e5fb7478a539de4fe9eb6bdbe07cf23823402618ccc340cc238ac01int + times(x, x_num_cube_5_5(x))
}

pub(crate) open spec fn x_num_cube_5_5(x: int) -> int {
    0xdfb86277464118a8d9d78196a816ff2733a35d7537120a9f599d2f719cc43a7ae487c6f5a58f4af85165cf208ac7bf2int + times(x, x_num_cube_5_6(x))
}

pub(crate) open spec fn x_num_cube_5_6(x: int) -> int {
    0x17c6c5930cb90719d48aebfebec21193c4d3960256300a287dc6a851f615d69aff3116b7cae4cba3c58dae3dfe65c2c5int + times(x, x_num_cube_5_7(x))
}

pub(crate) open spec fn x_num_cube_5_7(x: int) -> int {
    0xfad5412c77e089abe17115b3b195ae9519db9dde2f3cf6d7c56c163edac3d2a21f111f872bbadde0ba53b462a617684int + times(x, x_num_cube_5_8(x))
}

pub(crate) open spec fn x_num_cube_5_8(x: int) -> int {
    0x4dddc3d0cbfce8a3f0ab6ffc000d89c9d7f21830082a327f3522615186a8b116f0528a69bdb705b9b2b5b7f266a1234int + times(x, x_num_cube_5_9(x))
}

pub(crate) open spec fn x_num_cube_5_9(x: int) -> int {
    0x7fa5185b4b231fe5aabfdae6085cc581f3f5802fe5ebe00f687b5c115c5c405c92d6a6c032871fc9c379600db36da45int + times(x, x_num_cube_5_10(x))
}

pub(crate) open spec fn x_num_cube_5_10(x: int) -> int {
    0x1035372821c25bf2dc6dd18c4af4440855140372bb82fb4738b08c0fe8beeabee462da937e10ed962a8903dddaee9de9int + times(x, x_num_cube_5_11(x))
}

pub(crate) open spec fn x_num_cube_5_11(x: int) -> int {
    0x159ef3822f0a2e629212cea9668dbd7933a11bf6c27228e693033bf671473ed7d6d616247f651f414e325407adabfddcint + times(x, x_num_cube_5_12(x))
}

pub(crate) open spec fn x_num_cube_5_12(x: int) -> int {
    0xbf5264ae1b40667e91e0f882bd2e54c7629ddb809d83c784b9024b557d09c57e3d73467280ed0560be2ef80b1344cb5int + times(x, x_num_cube_5_13(x))
}

pub(crate) open spec fn x_num_cube_5_13(x: int) -> int {
    0x7d0ad6606f752d195acdf8b3af49f08697dbb42ce2918d70b707cc27c5471f5852c5215b88556b11f31ada92fddafe7int + times(x, x_num_cube_5_14(x))
}

pub(crate) open spec fn x_num_cube_5_14(x: int) -> int {
    0x985c0ec35280bace3e18b41d1511725a3879006776adbbdc73cfd8b63ae30af31491520e36ec5b6324afe713bf73fc3int + times(x, x_num_cube_5_15(x))
}

pub(crate) open spec fn x_num_cube_5_15(x: int) -> int {
    0x10b273e7135844eee69899be7411cb1973fdfc6298986cc1fd6a6c5052ddf105dabe45ac89846fba87cc14afb2615206int + times(x, x_num_cube_5_16(x))
}

pub(crate) open spec fn x_num_cube_5_16(x: int) -> int {
    0x55203dcf051d782ac47e61cacd815df5c07a3fbcbf8ebae0a92b7284584f92fc13ad8a3913f0b02a06aed07aea996dint + times(x, x_num_cube_5_17(x))
}

pub(crate) open spec fn x_num_cube_5_17(x: int) -> int {
    0xf691c3af847676e018e8d0db01074784f2563e16212743b4dc5f07f5c43215faaafadac80a086a36d26252f10a5502cint + times(x, x_num_cube_5_18(x))
}

pub(crate) open spec fn x_num_cube_5_18(x: int) -> int {
    0x771407b2bcd1c7d0931211af966e04bb30a65c772ca8a36ad977839fbac0ff165849565e124819e438565ac59d946c0int + times(x, x_num_cube_5_19(x))
}

pub(crate) open spec fn x_num_cube_5_19(x: int) -> int {
    0xb231e0a9fb64c17308311854788e509ba422744eb61e2a70bdb6ab245f0e089bb8ff0dcd3302ffeaa4a65f08555e9aint + times(x, x_num_cube_5_20(x))
}

pub(crate) open spec fn x_num_cube_5_20(x: int) -> int {
    0x12a1db7683723e497556543fb351a9e9e3bd3b09c32eced4164ec483f3452e2f41bad2b7cbb5e2fee9edfd240fd3d599int + times(x, x_num_cube_5_21(x))
}

pub(crate) open spec fn x_num_cube_5_21(x: int) -> int {
    0x2df9b58d133804abcf6e81c423133ef3d646db429aff2ff56f5cd2db0cf87fb9b4a96cf37806dc72897a5de6f20393fint + times(x, x_num_cube_5_22(x))
}

pub(crate) open spec fn x_num_cube_5_22(x: int) -> int {
    0x161970a09b30eba6c416d86bb0d64e2736dc88db1be245ffd715cd6a240fc80fa73885d63fe846eb0e248f45bd900515int + times(x, x_num_cube_6_22(x))
}

pub(crate) open spec fn x_num_cube_6_0(x: int) -> int {
    0x74be257212ecb9c7cbffa9c40baf806f2ecb32ce03b8026a20664d9b6f688de1c0b063e36d425ad5dbcd15028d4985int + times(x, x_num_cube_6_1(x))
}

pub(crate) open spec fn x_num_cube_6_1(x: int) -> int {
    0x3afa94a2f4e6e4968fd098182bbafe56e157592721d739b32db5b672241996e85e0c1e8457d7d5e65421e866fdc0e1dint + times(x, x_num_cube_6_2(x))
}

pub(crate) open spec fn x_num_cube_6_2(x: int) -> int {
    0x12df9613473c2cdcc95905dbbce9683c0e0dcb62bcc4d716dd99b333b4fdacfb903d1ba485d8d63f25f25413e68e809eint + times(x, x_num_cube_6_3(x))
}

pub(crate) open spec fn x_num_cube_6_3(x: int) -> int {
    0x15447533691b041d4a14b22b94f9b109da7c83fb2491979e7679f706c951979e10a1217baf5bec37bfcf14365d3f1b8cint + times(x, x_num_cube_6_4(x))
}

pub(crate) open spec fn x_num_cube_6_4(x: int) -> int {
    0x980df0b76139429dc4eaef62210eddc0e321f0452562b690c7cfe54c08ee4202301f0209bf9894ed5ae2675a0aaea24int + times(x, x_num_cube_6_5(x))
}

pub(crate) open spec fn x_num_cube_6_5(x: int) -> int {
    0x5b1703ab830d80a1ad09aa28198ffe0e4561f19c360599366df142832e595d4ffa571aa5d8cb24bcfbfb0315c21ab41int + times(x, x_num_cube_6_6(x))
}

pub(crate) open spec fn x_num_cube_6_6(x: int) -> int {
    0x29f66e97be23a205ed1e8a56d780ecd6e04a42f5ac11fcec4eda49d258758e22cb87c002993c95b0b8e6a6a2d68ffa0int + times(x, x_num_cube_6_7(x))
}

pub(crate) open spec fn x_num_cube_6_7(x: int) -> int {
    0x1681f8a7cc5a616b1e07ed93d5a69fec8d2d681c9c185ff6e0541f780b5582da0ca85d820e27381589e1d3afb9b00525int + times(x, x_num_cube_6_8(x))
}

pub(crate) open spec fn x_num_cube_6_8(x: int) -> int {
    0x15a4fabf15e25fb0e4ed1de6f345a1b3c3fc61dc726e2ea386acb3145a6a3d59a591a49cc50e2f413c3070a0ef7eec65int + times(x, x_num_cube_6_9(x))
}

pub(crate) open spec fn x_num_cube_6_9(x: int) -> int {
    0x11551ac653c0bd39961dcab3fbe0df97ecf3aa8016debfac0d1294468a62a5cc927719a62279e1a3e615bc0bcc86c96int + times(x, x_num_cube_6_10(x))
}

pub(crate) open spec fn x_num_cube_6_10(x: int) -> int {
    0x43f618f512bb9a32784f169340c607a05a6b269789cb7aa547955847dc9320d3a74e760789782dd01163867be7f614eint + times(x, x_num_cube_6_11(x))
}

pub(crate) open spec fn x_num_cube_6_11(x: int) -> int {
    0x7d856ff01513143b2abe7c69d3a15fe14cb9be3f75a367b478fad2850228800aa5bd7e8423326ab6ca362a912292ba2int + times(x, x_num_cube_6_12(x))
}

pub(crate) open spec fn x_num_cube_6_12(x: int) -> int {
    0x148c493c7c686d393f897adc88350ad5a1ecf15e2d8bcfbb2fbd46c3d7b155b58997d4e66b66ed1af55feaeb2055b3bcint + times(x, x_num_cube_6_13(x))
}

pub(crate) open spec fn x_num_cube_6_13(x: int) -> int {
    0xe51b48aef5fd0382c845cdbaea0c7f8b08cfdaa9560ad9541632eb029c7b1367e751268345a7ea0111061093d77150eint + times(x, x_num_cube_6_14(x))
}

pub(crate) open spec fn x_num_cube_6_14(x: int) -> int {
    0x3e17e39603a56b271e9d86cd642583c9de8110b522c40ec2a0d1239d93e2224ab62583974c034d920a14fc3b7588fbdint + times(x, x_num_cube_6_15(x))
}

pub(crate) open spec fn x_num_cube_6_15(x: int) -> int {
    0x145da6d981bd4e723d36913c7a0740c7d9376cbfc99bdfb8e6764cd3f300036e7c78878768a266dd0df1d4c015eb1d85int + times(x, x_num_cube_6_16(x))
}

pub(crate) open spec fn x_num_cube_6_16(x: int) -> int {
    0xcbf4f36d4446e418305ac99865e41e8e1e0b20cb3a50e40374f58885eb3f87ceb90836ba0973a290bbeb8daec050c78int + times(x, x_num_cube_6_17(x))
}

pub(crate) open spec fn x_num_cube_6_17(x: int) -> int {
    0x17620b4b36b5227b44774bf9dbfd8b4d0a5f6e9f2ffca82a850a03c63b9580201b1bfbb19b9d593bf5bed3b8bc8e1df1int + times(x, x_num_cube_6_18(x))
}

pub(crate) open spec fn x_num_cube_6_18(x: int) -> int {
    0x59046bf27b109399401c150d4fe4bec2afdcb5c1afb2f1b9b74411502d910bd76feed59281c8ef0e79a1fc6ee51a567int + times(x, x_num_cube_6_19(x))
}

pub(crate) open spec fn x_num_cube_6_19(x: int) -> int {
    0x21709d81ac7ee1aff83a0bfc9b313682ee04b6d0bf51733b1df4a5672521902f3785a4d9e8e1e58207844e143cf1758int + times(x, x_num_cube_6_20(x))
}

pub(crate) open spec fn x_num_cube_6_20(x: int) -> int {
    0x17631e351818cb90b305e9fca9760f60c6545033a96921c3109abe1a37413d2fa8b1cbc52330a7bafab71fe8cea9eb9fint + times(x, x_num_cube_6_21(x))
}

pub(crate) open spec fn x_num_cube_6_21(x: int) -> int {
    0x1085ca3b309e11449238e86d5eb509ea4cb8ef53027fa3a4c4a3ca789d35539036a808974cee6a9102db7998581fb991int + times(x, x_num_cube_6_22(x))
}

pub(crate) open spec fn x_num_cube_6_22(x: int) -> int {
    0x14a8de9fad400f992f31afc9c667a491131684b2dfcaa43e117e5d3caa679b2743cb4c8acac3581c6266b2938e5cfa25int + times(x, x_num_cube_7_22(x))
}

pub(crate) open spec fn x_num_cube_7_0(x: int) -> int {
    0x89cd0efe8b9703f826831329e01782112826d503e06a4b034546a5edc7e464e6ee16a695e49564ae207f277f7a878c4int + times(x, x_num_cube_7_1(x))
}

pub(crate) open spec fn x_num_cube_7_1(x: int) -> int {
    0x1118b6cd68fb75f25c6e44dc42907c9113ec5e802d00f75a8dc07979676829db429833a67e9787f59a3865e7a5b324b9int + times(x, x_num_cube_7_2(x))
}

pub(crate) open spec fn x_num_cube_7_2(x: int) -> int {
    0x12fa1e42d8609b9bd03c0bd4db34398a3eb9c68f24033bda686968f12458b88868df51dfd989bd08549f373763240ffbint + times(x, x_num_cube_7_3(x))
}

pub(crate) open spec fn x_num_cube_7_3(x: int) -> int {
    0xacf747c362e87053015b1ab35b211e22f7050e909e7b34500506e9d448a540fe2598af32911c5119e09f9fa00e856c1int + times(x, x_num_cube_7_4(x))
}

pub(crate) open spec fn x_num_cube_7_4(x: int) -> int {
    0x112dcd4b53be0a0524db90076cf4238979bfa09ca6198fc7040e59d377e11f926bf2c1548c290e7b19acaba76410af5int + times(x, x_num_cube_7_5(x))
}

pub(crate) open spec fn x_num_cube_7_5(x: int) -> int {
    0xf65a258e8b6c0326e7ed0e6f8cf9fadfa71d3a41b4ced13e8047da036d833533b41e694e95075d638c3800c57bec28dint + times(x, x_num_cube_7_6(x))
}

pub(crate) open spec fn x_num_cube_7_6(x: int) -> int {
    0x38ecd485998c612efd4494ebae7a6e94227d6aa19a6894b54c9039a649edd063e371ad96cf415c28889fc60467b8c2bint + times(x, x_num_cube_7_7(x))
}

pub(crate) open spec fn x_num_cube_7_7(x: int) -> int {
    0xe4cf5f159daee8ecef7d43245ee8b4b616a8f0434481b858c8c9113a23e43b3a0e5c11f355872e4d7687e98383d14bint + times(x, x_num_cube_7_8(x))
}

pub(crate) open spec fn x_num_cube_7_8(x: int) -> int {
    0x15508ce58ac8c7a3b769c04ac8710a270fe06f27f3e3ba5d4dc346bec7c9840b747759cf36b04c41cce5b2c97ecc556bint + times(x, x_num_cube_7_9(x))
}

pub(crate) open spec fn x_num_cube_7_9(x: int) -> int {
    0xdd05565dd405845ff944405cc8fad1033e4f2765b810d86ce62abfa94ce1a5fb91976a964938f46c6f72b35320dca07int + times(x, x_num_cube_7_10(x))
}

pub(crate) open spec fn x_num_cube_7_10(x: int) -> int {
    0x12c8ce2dcf9f1a3dbf04999ed5a7cd7ab55f9d09286b52420f3d4511dde94b961d62cd82b8aafa27da90493d931b12a9int + times(x, x_num_cube_7_11(x))
}

pub(crate) open spec fn x_num_cube_7_11(x: int) -> int {
    0x2c5a927fa5bce2c0f0622a77a855ed4bbd71f60d024cc56229b371f4ee43ada27b37f8610ed84ff731f0fad58749363int + times(x, x_num_cube_7_12(x))
}

pub(crate) open spec fn x_num_cube_7_12(x: int) -> int {
    0xa4d4bf7f5e68034dd2950f53877e4812491325c85fabde3c58217a2b444b0ad47492dd90bb595a643e2007f74f0825fint + times(x, x_num_cube_7_13(x))
}

pub(crate) open spec fn x_num_cube_7_13(x: int) -> int {
    0xe6500541b9cbe01e13c1b3e245c106ee09545cccf7fc3680ff30bf9c7b866be1ff20610c9d5e46aa598116b4181932bint + times(x, x_num_cube_7_14(x))
}

pub(crate) open spec fn x_num_cube_7_14(x: int) -> int {
    0x1cd2496e13b5eab56c09fb0b64e010371a39aeebbb753054a59111700442367ade3d8c080ac8fe3ee2e3798602bde60int + times(x, x_num_cube_7_15(x))
}

pub(crate) open spec fn x_num_cube_7_15(x: int) -> int {
    0x11a281d3c976af6c9900048d347ede23d4ec50c2352c79caa2873c098202f3ee1a6fd1834157cd71700a682cbed02c58int + times(x, x_num_cube_7_16(x))
}

pub(crate) open spec fn x_num_cube_7_16(x: int) -> int {
    0x53b7360a084999054993ab799c1cffc8356fec636dbd558507278c7d5e7f0082da7a07d226b35e0460c06cf02fa5dint + times(x, x_num_cube_7_17(x))
}

pub(crate) open spec fn x_num_cube_7_17(x: int) -> int {
    0xd2ed74664e8503ba1259e33ce4e54a885cb07c8cc1701a2a69c0cc0d6929027e92ef67e0bab439fa422e50530bc9caeint + times(x, x_num_cube_7_18(x))
}

pub(crate) open spec fn x_num_cube_7_18(x: int) -> int {
    0x124c9a90819608829847a3f71691b89b4138dd6bddfac626562855028940790dc6608d4f865c1a5eb0088ef39dd8ac6cint + times(x, x_num_cube_7_19(x))
}

pub(crate) open spec fn x_num_cube_7_19(x: int) -> int {
    0x1672f6672324eae7db6d42f1790eee40ede37e4343421a4422c3e3b06ad29a220b7b3396a0d473610785c5647c446146int + times(x, x_num_cube_7_20(x))
}

pub(crate) open spec fn x_num_cube_7_20(x: int) -> int {
    0xb9925e2641dbd34af0c37b36d52fab942298fc6f308ecac28171194f4088802157b62a777f68e3a2ed62aac3b1e533eint + times(x, x_num_cube_7_21(x))
}

pub(crate) open spec fn x_num_cube_7_21(x: int) -> int {
    0xeb56f1053ade8e317065b491f3e71d71d1e238e2c843896a7d51bfaca85a78b12b27af5f99e64d64cd87152a1960d0fint + times(x, x_num_cube_7_22(x))
}

pub(crate) open spec fn x_num_cube_7_22(x: int) -> int {
    0x121a900947c11fd093d19895ab1950a6db7a41faa8cf212d73c92a824a10585781f0c9b9656516eed08ef715e353e53bint + times(x, x_num_cube_8_22(x))
}

pub(crate) open spec fn x_num_cube_8_0(x: int) -> int {
    0x128fa8f641c71b4537d593264492a01507774fc0c3c4c582d0132282ccebe6c6733476d8869617ec64b7440cd3a90040int + times(x, x_num_cube_8_1(x))
}

pub(crate) open spec fn x_num_cube_8_1(x: int) -> int {
    0x122f007c3151fbe11a202aa786257e1eca7b01303a369b1eaf6d7c27acb160fdb32b5578a01434002aebc6e51296ed6dint + times(x, x_num_cube_8_2(x))
}

pub(crate) open spec fn x_num_cube_8_2(x: int) -> int {
    0x535ba82423db012f53edfc68288576d67cd5173195915ca10078e4e55126837e893d6da24675246ba16f2c2d14d40dfint + times(x, x_num_cube_8_3(x))
}

pub(crate) open spec fn x_num_cube_8_3(x: int) -> int {
    0x2083f9b23ea4b33c29e58b880f603001210110fbb482dc2b047db2a5b505e45d7b877fee50a40ca71c834cbefe28c1eint + times(x, x_num_cube_8_4(x))
}

pub(crate) open spec fn x_num_cube_8_4(x: int) -> int {
    0x7a65a8ae269004239e51734a524fb96519b38d338055885c55ac5dbc2f3f7dd16ae1d5087876a523d54492a28f61df2int + times(x, x_num_cube_8_5(x))
}

pub(crate) open spec fn x_num_cube_8_5(x: int) -> int {
    0x19b022c67a8d109133d905c786cb2ef201390c4cd54371846b51b27fe7afd1a1e70ef4367f0786504838c6bd09a96b00int + times(x, x_num_cube_8_6(x))
}

pub(crate) open spec fn x_num_cube_8_6(x: int) -> int {
    0x16de706a7f41f202ca2add5249a8831bff4db288491ca609c47f64e338a0f3202de8af69ad8ee8b279e921e42ef378f3int + times(x, x_num_cube_8_7(x))
}

pub(crate) open spec fn x_num_cube_8_7(x: int) -> int {
    0x313cc5b0080bf9e36b0fbbba47422a499d6402a84837ec913bfea78b5513f4e20cf61c07c0a7fd8b89ed3699b2cb4f3int + times(x, x_num_cube_8_8(x))
}

pub(crate) open spec fn x_num_cube_8_8(x: int) -> int {
    0x68afec6628eeaacfe86ec88a30478947eb1bfacba2d88c2b9634f197d52265ee69389e64d6b3cc781e160ef90c95409int + times(x, x_num_cube_8_9(x))
}

pub(crate) open spec fn x_num_cube_8_9(x: int) -> int {
    0x193df4b32a27fb583b85d5277b19515df65af7db08db2260832a079d8942246e7a351b4ce9054f5122eb519eb6736ee6int + times(x, x_num_cube_8_10(x))
}

pub(crate) open spec fn x_num_cube_8_10(x: int) -> int {
    0x12b3272cdbf827ec81d221f43a72e1cd2ebedecdf14154b472e32a9547b54a7c5f80fdedb06805493b8efe5b22f476b9int + times(x, x_num_cube_8_11(x))
}

pub(crate) open spec fn x_num_cube_8_11(x: int) -> int {
    0xa59f078d575f6c948a05a992d9bff004ac421a61a2f15cd120898abe82e7671a136cec97f4da949fc416b54cf452d77int + times(x, x_num_cube_8_12(x))
}

pub(crate) open spec fn x_num_cube_8_12(x: int) -> int {
    0xbbcf98c7d6d9b887ac091571cef06c698d741b42a3eff3aa3233b0e44bd62e05759cf1e473c33d56222982d33776b2bint + times(x, x_num_cube_8_13(x))
}

pub(crate) open spec fn x_num_cube_8_13(x: int) -> int {
    0x14fd4ac11f9e0eb46dbbeefdffe41168c3487c02c28d356d0e6153b176321cbf4d7208becfbd4b1e474f54595c2eb139int + times(x, x_num_cube_8_14(x))
}

pub(crate) open spec fn x_num_cube_8_14(x: int) -> int {
    0x38cf7125686311e955d0b84cc8cb12eeec208e2365e82852046289b33d014b5629fbbe782f7f8f421418b8eec64eef1int + times(x, x_num_cube_8_15(x))
}

pub(crate) open spec fn x_num_cube_8_15(x: int) -> int {
    0xa57828ba5a36fc12150d0ee667da96522c81072c2d73458930956146732d76e57db40fcdcae6460dbb477c43aadb470int + times(x, x_num_cube_8_16(x))
}

pub(crate) open spec fn x_num_cube_8_16(x: int) -> int {
    0x55cc74e7fe34352f307ae9070d426f76b4bf8fd37180cfdd9088a39594bb5031ea105db3b4d1250752791f08e08ed3aint + times(x, x_num_cube_8_17(x))
}

pub(crate) open spec fn x_num_cube_8_17(x: int) -> int {
    0x11865e0e61c14a5c941a77ab61c5d2b590a9f24ff2da86388ebcb4e0db833ee35abbbf7599524eedfb979343ff5cef9dint + times(x, x_num_cube_8_18(x))
}

pub(crate) open spec fn x_num_cube_8_18(x: int) -> int {
    0xfbb6cf6113d3738ff8a26c5266d8d6b7b7d6b12c84530d73c27b41feb1fe275a121849c50657af88897944a14d7888bint + times(x, x_num_cube_8_19(x))
}

pub(crate) open spec fn x_num_cube_8_19(x: int) -> int {
    0x19a4ae8c7695462dfc8f3746b4edcd135b61ed694f8074ea94728040142b0e01953334045651090325a5278d8f5d2ef8int + times(x, x_num_cube_8_20(x))
}

pub(crate) open spec fn x_num_cube_8_20(x: int) -> int {
    0x131d5caa8b46b92f7ca2de87c9d371a076f2efa005db02aadf752f22422e8df4f9e6522f0e53e340b33a381ccb56078cint + times(x, x_num_cube_8_21(x))
}

pub(crate) open spec fn x_num_cube_8_21(x: int) -> int {
    0x177a7c268d2b1880cd39c8361f5b1b60df9966b76b09f829f6c697863e11a1459556e2736e3502a44fd8183fba6e7e0eint + times(x, x_num_cube_8_22(x))
}

pub(crate) open spec fn x_num_cube_8_22(x: int) -> int {
    0x214448820023217a545fe30bdde05f79baed78a489393deace3bd9bb679ea8c20117c8160f6397ac0da0c0cb0eeda06int + times(x, x_num_cube_9_22(x))
}

pub(crate) open spec fn x_num_cube_9_0(x: int) -> int {
    0x1206cfd3d6b5abf6d03af7b693fcb662559e7a76d91480257870585ea5be9555348df78e859dbebb998a06a8de3f0d7cint + times(x, x_num_cube_9_1(x))
}

pub(crate) open spec fn x_num_cube_9_1(x: int) -> int {
    0xae1ad02c9e1089990ada5ce11290190316d7c44f2e5a5142e9652f917ea819d071d710d06fa4ca0d59f7fcabf27a96bint + times(x, x_num_cube_9_2(x))
}

pub(crate) open spec fn x_num_cube_9_2(x: int) -> int {
    0x71d4ff932ce6ee87396c5c5370a40053b31d89fb1d90f33f05dc2edd8f7dd5fe6ea2748f2954acf29f57f2f33a305baint + times(x, x_num_cube_9_3(x))
}

pub(crate) open spec fn x_num_cube_9_3(x: int) -> int {
    0x183aedfc1fce79f78dd9a3b1d93746982da222c6285cce875197397f90d3adfd7927cac23d611b79f821491a249e5f3dint + times(x, x_num_cube_9_4(x))
}

pub(crate) open spec fn x_num_cube_9_4(x: int) -> int {
    0xa8ab956c59011718633cc723d7e9168d6759eff03ffbcb8f19f7c0fa429dc28f3aa7aa931608e79c9d9af1be5fd14f1int + times(x, x_num_cube_9_5(x))
}

pub(crate) open spec fn x_num_cube_9_5(x: int) -> int {
    0x1728a55f98f344026ec1da88ce8c3ef19ff9b160da8b38102a5e0129a3f02b50dc930183e23b32c8429773aba2c44ce4int + times(x, x_num_cube_9_6(x))
}

pub(crate) open spec fn x_num_cube_9_6(x: int) -> int {
    0x133801164e960bfb3f43dcf3e13f818846c1a536018d8b4f103abc653aa7b456d7757973d262eb175137616466223aeaint + times(x, x_num_cube_9_7(x))
}

pub(crate) open spec fn x_num_cube_9_7(x: int) -> int {
    0x10cba781a0180d4363551267f6b5b610d6c0639f82eb72c73dc08c83e87100cec3c8ab7a8037ee2e05c9445498c32c1eint + times(x, x_num_cube_9_8(x))
}

pub(crate) open spec fn x_num_cube_9_8(x: int) -> int {
    0xef45bf4184e8686b28ee63e387b0816c5ecb76705aab6b35c88666ad65ce2264334697edff7bbcff2e7e2c8bbc14b3dint + times(x, x_num_cube_9_9(x))
}

pub(crate) open spec fn x_num_cube_9_9(x: int) -> int {
    0x10d4b64375b977b3c329db991c35981818341d3f2a0b574b327fda26fba469df007279229df04b97894c0ceb3cd28a1eint + times(x, x_num_cube_9_10(x))
}

pub(crate) open spec fn x_num_cube_9_10(x: int) -> int {
    0xde8ce93b663182b9c9a5a63382950cd7472dcd50b7eaa076a0fc26638ce884ae98d5b95c071b67909c23e3fe3cbdf4dint + times(x, x_num_cube_9_11(x))
}

pub(crate) open spec fn x_num_cube_9_11(x: int) -> int {
    0x15d344ce7696a531df17c097a2e4dcfc26defefceeed08260f1345968c7be994b3e584cb87e9c52558b922513c66a0b8int + times(x, x_num_cube_9_12(x))
}

pub(crate) open spec fn x_num_cube_9_12(x: int) -> int {
    0x18552da1c346a6d83e8de9b061767327a60857d5b5a7839952015b939d126b59637a1c9f910c14959ec45c71d8ccb9fcint + times(x, x_num_cube_9_13(x))
}

pub(crate) open spec fn x_num_cube_9_13(x: int) -> int {
    0x820f4232520a4faa24e9d2fb379c9994b35e8a77f4b0b28877d90b31b5aea39ad5d31f7fdcfe5448779d7e37f147729int + times(x, x_num_cube_9_14(x))
}

pub(crate) open spec fn x_num_cube_9_14(x: int) -> int {
    0x7c6842055f633bd96ea4fc1822d95b6f3271815625869a76766fd1c29fc0c19bbc2004d09593ea943be383d50174d9fint + times(x, x_num_cube_9_15(x))
}

pub(crate) open spec fn x_num_cube_9_15(x: int) -> int {
    0x1e4a9ea3afe82c011a99a87d9e7ca61a108cd5440788076bb1234acee2225e15792651e98d3db4637dfbf289c6f7823int + times(x, x_num_cube_9_16(x))
}

pub(crate) open spec fn x_num_cube_9_16(x: int) -> int {
    0x7a0ed70f3e86addcd36ac9662518214817a80405dd0bf4040a962c9bac993a428255100d19889cf07bb544d92e03b6eint + times(x, x_num_cube_9_17(x))
}

pub(crate) open spec fn x_num_cube_9_17(x: int) -> int {
    0x12aead86d02ac8bbe3ff58f79d151806174db7556fe55d0f65a3279d6c261e3b5e8d0d14ed9e5ee356365d39d89a9eebint + times(x, x_num_cube_9_18(x))
}

pub(crate) open spec fn x_num_cube_9_18(x: int) -> int {
    0x31db5e520f1fc5ab1531dd752b0991267746b9cddcd1799bfe06ecea10caa95757137273d7fe62ceb75c1438d0c0473int + times(x, x_num_cube_9_19(x))
}

pub(crate) open spec fn x_num_cube_9_19(x: int) -> int {
    0x6f3758389f15ef1b0eecc446315968ee9cff2d830c9ff14bcac6868110ebc81ebd8df2cb430aaa60e3e5c1e77adae42int + times(x, x_num_cube_9_20(x))
}

pub(crate) open spec fn x_num_cube_9_20(x: int) -> int {
    0x15649d19e4b441bd34cf7a27c23e8df04e96088bf3fa979e19e7d2ba47c31ce80e3a5b4a8be68af7ec26624dbbcf6793int + times(x, x_num_cube_9_21(x))
}

pub(crate) open spec fn x_num_cube_9_21(x: int) -> int {
    0xfe3c5922333708c9a14e29bc4c951a6a49dad7f014a2a744020d1f2b13fecf017b2f119d1fb41a8181fa899e4d62f5fint + times(x, x_num_cube_9_22(x))
}

pub(crate) open spec fn x_num_cube_9_22(x: int) -> int {
    0x49bff5aa392b14782f35ce30db9c0d4a813556902e872b693a809322b9d2e4d6639a831e3e72d789fb0ba11bae62ae4int + times(x, x_num_cube_10_22(x))
}

pub(crate) open spec fn x_num_cube_10_0(x: int) -> int {
    0x7af22d02ac0230f362482e7d51fdd54681447074f7dcc9efecbee4694ccf0e03fb82ff5d4ab523e24fa5eed3a080626int + times(x, x_num_cube_10_1(x))
}

pub(crate) open spec fn x_num_cube_10_1(x: int) -> int {
    0xb403935c08f99b5256ddbe8aee0aeeab175fe8cfa9150bfd3a653c53875efd342c543a83387c7b91473515790dafe1dint + times(x, x_num_cube_10_2(x))
}

pub(crate) open spec fn x_num_cube_10_2(x: int) -> int {
    0x130982028f1011e8f1b1b24ed7b5ae0be1e637da9c68e00c3a7d92c8b19d94c35d7984437ef0b57c9dc5298da59b3eddint + times(x, x_num_cube_10_3(x))
}

pub(crate) open spec fn x_num_cube_10_3(x: int) -> int {
    0xaa48a76516e669b92934ec6ad95cb0a1f366fdc7b21fa4bec78cba0dd003cdb39a5ea5a24f053af9767ca468d293b04int + times(x, x_num_cube_10_4(x))
}

pub(crate) open spec fn x_num_cube_10_4(x: int) -> int {
    0x214917c5819d0f3a302d9ef179cc817d9e3f48d25da78fc9d7ef8a863259aa415ae2c9b9860a6afa385d7e634b757efint + times(x, x_num_cube_10_5(x))
}

pub(crate) open spec fn x_num_cube_10_5(x: int) -> int {
    0x144bfa996c89c96565b7ea05e5c03e50c3c346294eac0f6c62e0479e703e1b445dafe2c8eaac2de22695d0b8095ea0d6int + times(x, x_num_cube_10_6(x))
}

pub(crate) open spec fn x_num_cube_10_6(x: int) -> int {
    0x17ded791a9a96b8994e1371959a5d9a898d6e8371bca5305c7fd7efe3ca8ae4b5db58e7807179e0454068af6aa24c89dint + times(x, x_num_cube_10_7(x))
}

pub(crate) open spec fn x_num_cube_10_7(x: int) -> int {
    0x167816651465a2147f59540952bae85a0124ac458b3b03f5987aaf313ad800bc1c7e1059de20e064131001164dad9f9bint + times(x, x_num_cube_10_8(x))
}

pub(crate) open spec fn x_num_cube_10_8(x: int) -> int {
    0x8038841d4d170f9e96eab8a8bb9db20b60bc5672b3ecd6b24d2ac7c33cd5bd8ad5a59b60f04b2010d867b9373e640baint + times(x, x_num_cube_10_9(x))
}

pub(crate) open spec fn x_num_cube_10_9(x: int) -> int {
    0x1301e19a0b2424a6865686a7f26eedee1b17fea1000b3785c5a77249f8fa8b3cd8af74031010fc91f60caaa00bd92f33int + times(x, x_num_cube_10_10(x))
}

pub(crate) open spec fn x_num_cube_10_10(x: int) -> int {
    0x74065c19aa6c43ab40048335bf20c9016bc193ca6735b545c2bfb2305be0e45713539bb39a6a867d89926953dea8481int + times(x, x_num_cube_10_11(x))
}

pub(crate) open spec fn x_num_cube_10_11(x: int) -> int {
    0x2683fec460e154d9f45d9cf383feef80ef2155c3abfc784e4dc33667c3a88690bc2027123af42831f6c79da6ea88e50int + times(x, x_num_cube_10_12(x))
}

pub(crate) open spec fn x_num_cube_10_12(x: int) -> int {
    0x908d58af9ac73a092b16a1ef778d73fe36b947e00def739824d4589a8761af5a6ac1a727bcf801722f20aa40ce7b0b0int + times(x, x_num_cube_10_13(x))
}

pub(crate) open spec fn x_num_cube_10_13(x: int) -> int {
    0x17bbec4a4467de8838ea8d8cf52c50cb7d7cdc282af93c929ad08f0a6a6504d5164f1b245f46102a95ab2cd7f9d64c28int + times(x, x_num_cube_10_14(x))
}

pub(crate) open spec fn x_num_cube_10_14(x: int) -> int {
    0x1397a5257fb8e942e9f6de6e059aef0e307652800e0ad2e2d3fb25565f23b31c6d76feedbe069ebfc35bde8c88c28faint + times(x, x_num_cube_10_15(x))
}

pub(crate) open spec fn x_num_cube_10_15(x: int) -> int {
    0x15fdfe06905fff366311adc38348bf02707a99871d9ca9c8491e46e6fa62f7c7dfe69157416b0b7552bae10e4ed9011cint + times(x, x_num_cube_10_16(x))
}

pub(crate) open spec fn x_num_cube_10_16(x: int) -> int {
    0x125a7855f3c8a2203faf02a1806eb93f7da06fa293724202d6f00172cab33bec84bbafe9f107b29b359760c899820d30int + times(x, x_num_cube_10_17(x))
}

pub(crate) open spec fn x_num_cube_10_17(x: int) -> int {
    0x17bbe4762730fb594eb7a612387648aef1017e59c1a4b93c37da5b81c02448df11c83833f592de08e49debd8034f57b9int + times(x, x_num_cube_10_18(x))
}

pub(crate) open spec fn x_num_cube_10_18(x: int) -> int {
    0x81e2c1d7dba3d4c4e2a3f2cc0e8ced5d5adf4ccf265a51ab84f8ca3cb83541fa609a863f4d506c65a7209eb1f01e19eint + times(x, x_num_cube_10_19(x))
}

pub(crate) open spec fn x_num_cube_10_19(x: int) -> int {
    0x13028aa875fe5600c160cfd505a57813c9b6558602a25bb283dff7f36a37dba888e13aeead6ced9cae522f4b95f4b57int + times(x, x_num_cube_10_20(x))
}

pub(crate) open spec fn x_num_cube_10_20(x: int) -> int {
    0xe6d02b643143560ac1e4acca9605f270b9bd5508c7193df85a4e13b0adcc2ea34e8b866ee6c980dedf17a671a3a90c0int + times(x, x_num_cube_10_21(x))
}

pub(crate) open spec fn x_num_cube_10_21(x: int) -> int {
    0x9ba5bf636bdbebe3620e3aa008fb753dd7861aa4573464254e0ac539bda4a299a898f2a6eb215104cb868a1739b062int + times(x, x_num_cube_10_22(x))
}

pub(crate) open spec fn x_num_cube_10_22(x: int) -> int {
    0x15651c2428ce3826d3ddb4fe2d9a7c1243da48d3d0acd5f242e382ce856852a630d118260eae4c28591b56b4d40f9f6int + times(x, x_num_cube_11_22(x))
}

pub(crate) open spec fn x_num_cube_11_0(x: int) -> int {
    0xd64ada0ddc93ec2432a1b7a59885cd74f4349b25acbe790ad18a6dc6b20797c37e276cb6c1b86da9bc19c373ce82f43int + times(x, x_num_cube_11_1(x))
}

pub(crate) open spec fn x_num_cube_11_1(x: int) -> int {
    0x2bd128da56230e1d52638e521cf4fc6d7b41f733f9f53e139002ff6cba02ac584d10348268f49cc0cf4435baed1225cint + times(x, x_num_cube_11_2(x))
}

pub(crate) open spec fn x_num_cube_11_2(x: int) -> int {
    0x5adb1ee12a329e183cd5bcbc79d33fd4f6bdde3020731e9f5e209a876c81260d71e51cad766d90b0d8583e42c67a9int + times(x, x_num_cube_11_3(x))
}

pub(crate) open spec fn x_num_cube_11_3(x: int) -> int {
    0xd126d7c6d52562afb9b266923aaaeae8eef14009e614d5fb553bdb6b4cc18128501489ecfd99820c1436db1e5149177int + times(x, x_num_cube_11_4(x))
}

pub(crate) open spec fn x_num_cube_11_4(x: int) -> int {
    0xd6e0e720ebc901d3b0fe61062f944aa4863f506fc187e473016714254fe64d2898c817efef74269554c3de825f1a6abint + times(x, x_num_cube_11_5(x))
}

pub(crate) open spec fn x_num_cube_11_5(x: int) -> int {
    0x116ace1d061e02d92327efd1d0d25016789120c2b3e28453352b1ce9e3340bfaae74fdd0110e7f92a8918196f60dae8dint + times(x, x_num_cube_11_6(x))
}

pub(crate) open spec fn x_num_cube_11_6(x: int) -> int {
    0x19f08d666e23a3b73da970199d91dd814d6b84c4a4b3b9ef18de982e5d975e0d71799dd16a6f13278b145b8cc61ba4b6int + times(x, x_num_cube_11_7(x))
}

pub(crate) open spec fn x_num_cube_11_7(x: int) -> int {
    0xe5ac275fcb1c07198b2a11892fe918c9f78f53411a4fabb42471d0f586648fd87f980528d3bc585c0cdb9d26701c2eaint + times(x, x_num_cube_11_8(x))
}

pub(crate) open spec fn x_num_cube_11_8(x: int) -> int {
    0xd2e9e3f111124d0026b0c42971ee278d1c40304e02a987af246b2aa77e1484a7f07c267f8e9afba1c9058fcae13679bint + times(x, x_num_cube_11_9(x))
}

pub(crate) open spec fn x_num_cube_11_9(x: int) -> int {
    0xb0d3a9fd6eb4eefa57f2b880aa2b885da4425e1176d71753f473b9685715491f244a08f8d976625d94ec3cb664ee78fint + times(x, x_num_cube_11_10(x))
}

pub(crate) open spec fn x_num_cube_11_10(x: int) -> int {
    0x8c4a6948844a7414ebdfbe7e8263e9ff1287df79135ceffc3c690a1fc91f81700a1df192d94b1ee5e76e15629176e21int + times(x, x_num_cube_11_11(x))
}

pub(crate) open spec fn x_num_cube_11_11(x: int) -> int {
    0xc8f7979b5ef275cd2f2669f9415d65d63d8b11859f43c9baa1e57f06e73eea9807f8120702e195519ee73943ae624a5int + times(x, x_num_cube_11_12(x))
}

pub(crate) open spec fn x_num_cube_11_12(x: int) -> int {
    0xe95aafe69c16000673467e6a2c2a1543e96302b65d70f418a0b602cfcdd8367dd2f39fca974cfc390ef1223ba01e5aint + times(x, x_num_cube_11_13(x))
}

pub(crate) open spec fn x_num_cube_11_13(x: int) -> int {
    0x16eee7cb8113fb6126b5d59bc18c0cf9a4968853fb673aea1f0b29edf3637666bcc03a1cecd266a001d3e11b0e20296dint + times(x, x_num_cube_11_14(x))
}

pub(crate) open spec fn x_num_cube_11_14(x: int) -> int {
    0x12b6972c5b5faf5484f2d9bb774569fde04e41a7c760f7e03c8587556a4999a637e5b34b8fcd64337660e02f45fcd194int + times(x, x_num_cube_11_15(x))
}

pub(crate) open spec fn x_num_cube_11_15(x: int) -> int {
    0x24924ed9899928f298130f567b8934d897eb080dbd9d846cd7e1745c6a492e6b40d0d939c0a66ffab0d17234a87219int + times(x, x_num_cube_11_16(x))
}

pub(crate) open spec fn x_num_cube_11_16(x: int) -> int {
    0x7c8897d194fa23fd27c465db73c852498b7ccf28b0e41ede36f0f0a89a54336345208bab15855a81127c42943497c61int + times(x, x_num_cube_11_17(x))
}

pub(crate) open spec fn x_num_cube_11_17(x: int) -> int {
    0x2a3177189e0069c83263f8fb0c16877a91737d2f2113788f93e6a35ff9d1af3d9b7aa6f275b2c30b893ee72d6efd639int + times(x, x_num_cube_11_18(x))
}

pub(crate) open spec fn x_num_cube_11_18(x: int) -> int {
    0xae2997bd943b76c3fc37f70acbe0fdcfff849d7a97b53e07391a326b09901b7e346c8810f373606b8994ab82e97c089int + times(x, x_num_cube_11_19(x))
}

pub(crate) open spec fn x_num_cube_11_19(x: int) -> int {
    0x19d9e49c4cbc8b769a901e659429b4d05012c34eea758ee862636d4b9e39118630df4f7f642c993eefa0f51862cc4943int + times(x, x_num_cube_11_20(x))
}

pub(crate) open spec fn x_num_cube_11_20(x: int) -> int {
    0xe34b4b234825d518eeba586335d3f436e6a04f3060b1579c1f79d08a7f995d0a388474f6eba70a50e1fc6e2e1f91707int + times(x, x_num_cube_11_21(x))
}

pub(crate) open spec fn x_num_cube_11_21(x: int) -> int {
    0x98f3c7a3f888f350c87ca1cadaa541de450dc352488e47f3a846ba8ed1f557da19761012663432c41b6239cde2b34ddint + times(x, x_num_cube_11_22(x))
}

pub(crate) open spec fn x_num_cube_11_22(x: int) -> int {
    0x30673b1c24bc7c97f094944729554461095cd85335b191fff80dffbbb553b41177f1bb29ff5dc3f24e921b95cfa5796int + times(x, 0int)
}

pub(crate) proof fn lemma_den_sq_step_5(x: int)
    ensures
        congruent(den_sq_5_0(x), times(den_root_5(x), den_root_0(x))),
{
    lemma_times_zero(x);
    lemma_congruent_refl(0int, 0x1int * 0int + 0int);
    lemma_horner_level(x, 0x1int, 0x1int, 0x1int, 0x0int, 0x0int, den_sq_5_5(x), den_root_5(x), 0int, 0int, 0int, 0int);
    lemma_horner_level(x, 0x1int, 0x4afe09d5cf4956a23b6b71f59d2b3407b415a774b7be81bbb6fa99cbc798e0ac98ba725a5bc328016b1c268b4766e85int, 0x4afe09d5cf4956a23b6b71f59d2b3407b415a774b7be81bbb6fa99cbc798e0ac98ba725a5bc328016b1c268b4766e85int, 0x0int, 0x0int, den_sq_5_4(x), den_root_4(x), 0int, den_sq_5_5(x), den_root_5(x), 0int);
    lemma_horner_level(x, 0x1int, 0x94440f65f408a6e930e16e3e92dd17bf60d6e9679a8d3d58593de55ac23703042d609537eb3549aac234d896ca82944int, 0x94440f65f408a6e930e16e3e92dd17bf60d6e9679a8d3d58593de55ac23703042d609537eb3549aac234d896ca82944int, 0x0int, 0x0int, den_sq_5_3(x), den_root_3(x), 0int, den_sq_5_4(x), den_root_4(x), 0int);
    lemma_horner_level(x, 0x1int, 0x1335c502c1f54c49aceea65e87fd7203ba0f626f305fc0cfd606a5dae9f3c8e81a4b3b69600129fabd307c69bf319d39int, 0x1335c502c1f54c49aceea65e87fd7203ba0f626f305fc0cfd606a5dae9f3c8e81a4b3b69600129fabd307c69bf319d39int, 0x0int, 0x0int, den_sq_5_2(x), den_root_2(x), 0int, den_sq_5_3(x), den_root_3(x), 0int);
    lemma_horner_level(x, 0x1int, 0x264908af037bcede00d054cf5d4775e83eb6cf63c76b969f8ed174fb59fcff78d201f46f6cfc4ed6552e59ce75177b0int, 0x264908af037bcede00d054cf5d4775e83eb6cf63c76b969f8ed174fb59fcff78d201f46f6cfc4ed6552e59ce75177b0int, 0x0int, 0x0int, den_sq_5_1(x), den_root_1(x), 0int, den_sq_5_2(x), den_root_2(x), 0int);
    lemma_horner_level(x, 0x1int, 0x133341fb0962a34cb0504a9c4fada0a5090d38679b4c040d5d1c3afb023a3409fcc0815fea66d8b02bbef9c8b5a66e07int, 0x133341fb0962a34cb0504a9c4fada0a5090d38679b4c040d5d1c3afb023a3409fcc0815fea66d8b02bbef9c8b5a66e07int, 0x0int, 0x0int, den_sq_5_0(x), den_root_0(x), times(x, 0int), den_sq_5_1(x), den_root_1(x), 0int);
    lemma_times_zero(den_root_0(x));
    lemma_congruent_refl(0int, times(0int, den_root_0(x)));
    lemma_product_level(x, 0x1int, den_root_5(x), 0int, den_root_0(x), den_sq_5_0(x), 0int);
}

pub(crate) proof fn lemma_den_sq_step_4(x: int)
    ensures
        congruent(den_sq_4_0(x), times(den_root_4(x), den_root_0(x))),
{
    lemma_times_zero(x);
    lemma_den_sq_step_5(x);
    lemma_congruent_refl(den_sq_5_5(x), 0x4afe09d5cf4956a23b6b71f59d2b3407b415a774b7be81bbb6fa99cbc798e0ac98ba725a5bc328016b1c268b4766e85int * 0int + den_sq_5_5(x));
    lemma_horner_level(x, 0x4afe09d5cf4956a23b6b71f59d2b3407b415a774b7be81bbb6fa99cbc798e0ac98ba725a5bc328016b1c268b4766e85int, 0x95fc13ab9e92ad4476d6e3eb3a56680f682b4ee96f7d03776df533978f31c1593174e4b4b7865002d6384d168ecdd0aint, 0x1int, 0x4afe09d5cf4956a23b6b71f59d2b3407b415a774b7be81bbb6fa99cbc798e0ac98ba725a5bc328016b1c268b4766e85int, 0x0int, den_sq_4_5(x), den_root_5(x), den_sq_5_4(x), den_sq_5_5(x), 0int, den_sq_5_5(x));
    lemma_horner_level(x, 0x4afe09d5cf4956a23b6b71f59d2b3407b415a774b7be81bbb6fa99cbc798e0ac98ba725a5bc328016b1c268b4766e85int, 0xccac004e64c513cb83f459c699d250ea721e86f7b86295ee7c2f50d3161804c0ac5d3f2d06eed59b539eb10cf9acfdint, 0x4afe09d5cf4956a23b6b71f59d2b3407b415a774b7be81bbb6fa99cbc798e0ac98ba725a5bc328016b1c268b4766e85int, 0x94440f65f408a6e930e16e3e92dd17bf60d6e9679a8d3d58593de55ac23703042d609537eb3549aac234d896ca82944int, 0xd844662a7a8ec26ec1af9d1fa51c2918a22796b59de4cf9b06197858bafb5064f5175ba61b5fd0e0df097b96232820int, den_sq_4_4(x), den_root_4(x), den_sq_5_3(x), den_sq_4_5(x), den_root_5(x), den_sq_5_4(x));
    lemma_horner_level(x, 0x4afe09d5cf4956a23b6b71f59d2b3407b415a774b7be81bbb6fa99cbc798e0ac98ba725a5bc328016b1c268b4766e85int, 0xa53d6154eb254591859fad83a6780ccb73fb1e10de534540ccb70e6fcc1162c07d2dca44e88f16988fbeccddee62d2fint, 0x94440f65f408a6e930e16e3e92dd17bf60d6e9679a8d3d58593de55ac23703042d609537eb3549aac234d896ca82944int, 0x1335c502c1f54c49aceea65e87fd7203ba0f626f305fc0cfd606a5dae9f3c8e81a4b3b69600129fabd307c69bf319d39int, 0x1ab93da5988ba53b685fa940165ed5f4007d35e009308bcde03f18e19c8b92597ac377bb5c541a69ec611d7894e491aint, den_sq_4_3(x), den_root_3(x), den_sq_5_2(x), den_sq_4_4(x), den_root_4(x), den_sq_5_3(x));
    lemma_horner_level(x, 0x4afe09d5cf4956a23b6b71f59d2b3407b415a774b7be81bbb6fa99cbc798e0ac98ba725a5bc328016b1c268b4766e85int, 0x7d5f4b780495e774055085aabf76c0c1d286629a76f8acd7815161d903556385745ffb3aba97fcc8f7f241a04ab1a79int, 0x1335c502c1f54c49aceea65e87fd7203ba0f626f305fc0cfd606a5dae9f3c8e81a4b3b69600129fabd307c69bf319d39int, 0x264908af037bcede00d054cf5d4775e83eb6cf63c76b969f8ed174fb59fcff78d201f46f6cfc4ed6552e59ce75177b0int, 0x37662505cc1c92af0d0f7cc4724263454effacc9ea5af05e898caf345f0530a9dace7c767f1574cc25298c7dd409d7cint, den_sq_4_2(x), den_root_2(x), den_sq_5_1(x), den_sq_4_3(x), den_root_3(x), den_sq_5_2(x));
    lemma_horner_level(x, 0x4afe09d5cf4956a23b6b71f59d2b3407b415a774b7be81bbb6fa99cbc798e0ac98ba725a5bc328016b1c268b4766e85int, 0x5119f0829aac6bde4d38a7cbb071ba45933043f21fd2f65ae4dfe569fd6285cad8ae1b86e08915c397845dcaf00c85dint, 0x264908af037bcede00d054cf5d4775e83eb6cf63c76b969f8ed174fb59fcff78d201f46f6cfc4ed6552e59ce75177b0int, 0x133341fb0962a34cb0504a9c4fada0a5090d38679b4c040d5d1c3afb023a3409fcc0815fea66d8b02bbef9c8b5a66e07int, 0x6e68c7f612ce64d3b15924287926f76c9cd4cdf755e01b67d2e8a1db80e79a9d07f8181c257c2b9f49b0ffbde15c4eint, den_sq_4_1(x), den_root_1(x), den_sq_5_0(x), den_sq_4_2(x), den_root_2(x), den_sq_5_1(x));
    lemma_horner_level(x, 0x4afe09d5cf4956a23b6b71f59d2b3407b415a774b7be81bbb6fa99cbc798e0ac98ba725a5bc328016b1c268b4766e85int, 0x18733b0a17e75e877497752df933c1a3afc076ee105d502d3d126d626054559215734816d7bf3fcaa20ae180dda10ad9int, 0x133341fb0962a34cb0504a9c4fada0a5090d38679b4c040d5d1c3afb023a3409fcc0815fea66d8b02bbef9c8b5a66e07int, 0x0int, 0x375ee69d959243cd1e717f988194c7dc739d8e9df579ab5cf6583a175cc4152bc9f1d5cb867db884b72039f5b63625eint, den_sq_4_0(x), den_root_0(x), times(x, den_sq_5_0(x)), den_sq_4_1(x), den_root_1(x), den_sq_5_0(x));
    lemma_product_level(x, 0x4afe09d5cf4956a23b6b71f59d2b3407b415a774b7be81bbb6fa99cbc798e0ac98ba725a5bc328016b1c268b4766e85int, den_root_4(x), den_root_5(x), den_root_0(x), den_sq_4_0(x), den_sq_5_0(x));
}

pub(crate) proof fn lemma_den_sq_step_3(x: int)
    ensures
        congruent(den_sq_3_0(x), times(den_root_3(x), den_root_0(x))),
{
    lemma_times_zero(x);
    lemma_den_sq_step_4(x);
    lemma_congruent_refl(den_sq_4_5(x), 0x94440f65f408a6e930e16e3e92dd17bf60d6e9679a8d3d58593de55ac23703042d609537eb3549aac234d896ca82944int * 0int + den_sq_4_5(x));
    lemma_horner_level(x, 0x94440f65f408a6e930e16e3e92dd17bf60d6e9679a8d3d58593de55ac23703042d609537eb3549aac234d896ca82944int, 0xa10ecf6ada54f825e920b3dafc7a3cce07f8d1d7161366b74100da67f39883503826692abba43704776ec3a79a1d641int, 0x1int, 0xccac004e64c513cb83f459c699d250ea721e86f7b86295ee7c2f50d3161804c0ac5d3f2d06eed59b539eb10cf9acfdint, 0x0int, den_sq_3_5(x), den_root_5(x), den_sq_4_4(x), den_sq_4_5(x), 0int, den_sq_4_5(x));
    lemma_horner_level(x, 0x94440f65f408a6e930e16e3e92dd17bf60d6e9679a8d3d58593de55ac23703042d609537eb3549aac234d896ca82944int, 0x171e727db6f5c6883c54f51ecd18f95b4700152eb6aa7d843903bf30f8e636ff55a7ddf3d10b8d854c75d31fe9abd25int, 0x4afe09d5cf4956a23b6b71f59d2b3407b415a774b7be81bbb6fa99cbc798e0ac98ba725a5bc328016b1c268b4766e85int, 0xa53d6154eb254591859fad83a6780ccb73fb1e10de534540ccb70e6fcc1162c07d2dca44e88f16988fbeccddee62d2fint, 0x1ab93da5988ba53b685fa940165ed5f4007d35e009308bcde03f18e19c8b92597ac377bb5c541a69ec611d7894e491aint, den_sq_3_4(x), den_root_4(x), den_sq_4_3(x), den_sq_3_5(x), den_root_5(x), den_sq_4_4(x));
    lemma_horner_level(x, 0x94440f65f408a6e930e16e3e92dd17bf60d6e9679a8d3d58593de55ac23703042d609537eb3549aac234d896ca82944int, 0x199de7dfaa9fbe3c1a04abbf77ada7ec9e5e3cf4fb69297b3d49c3b3c92a7e88b1d9b39e94b860a016a5502f6a3cda6cint, 0x94440f65f408a6e930e16e3e92dd17bf60d6e9679a8d3d58593de55ac23703042d609537eb3549aac234d896ca82944int, 0x7d5f4b780495e774055085aabf76c0c1d286629a76f8acd7815161d903556385745ffb3aba97fcc8f7f241a04ab1a79int, 0x34d5ae641cc4044b61a9cc97df3b9084020d2bf8983ef217f0c90c1005264ac2abc5771e77556570b677544cd564e57int, den_sq_3_3(x), den_root_3(x), den_sq_4_2(x), den_sq_3_4(x), den_root_4(x), den_sq_4_3(x));
    lemma_horner_level(x, 0x94440f65f408a6e930e16e3e92dd17bf60d6e9679a8d3d58593de55ac23703042d609537eb3549aac234d896ca82944int, 0x143a33f18f332729d02a5b9aa42939e04ee740b76110e00638ba47c80db4c729c95669253abb4788bd167cd14fb157a8int, 0x1335c502c1f54c49aceea65e87fd7203ba0f626f305fc0cfd606a5dae9f3c8e81a4b3b69600129fabd307c69bf319d39int, 0x5119f0829aac6bde4d38a7cbb071ba45933043f21fd2f65ae4dfe569fd6285cad8ae1b86e08915c397845dcaf00c85dint, 0x6d873c7915f503c5a0ec6bdafc29de72fedc438322de00b665467e17ba6b23da3826a9716695318bc775734fac4fe8bint, den_sq_3_2(x), den_root_2(x), den_sq_4_1(x), den_sq_3_3(x), den_root_3(x), den_sq_4_2(x));
    lemma_horner_level(x, 0x94440f65f408a6e930e16e3e92dd17bf60d6e9679a8d3d58593de55ac23703042d609537eb3549aac234d896ca82944int, 0x4040c6b037603c10e2e8e7259c05f372f2fa03d8ca14d64ec8ac626d18ac41f3c7cec863e73898b7e564cfd5fbde54cint, 0x264908af037bcede00d054cf5d4775e83eb6cf63c76b969f8ed174fb59fcff78d201f46f6cfc4ed6552e59ce75177b0int, 0x18733b0a17e75e877497752df933c1a3afc076ee105d502d3d126d626054559215734816d7bf3fcaa20ae180dda10ad9int, 0xda49bca4072018b6ed0803a5eceaf6a18b31b1e393a302a208a53dd33f8cca092cc53b1d9354c4457c4ba2b67d60e7int, den_sq_3_1(x), den_root_1(x), den_sq_4_0(x), den_sq_3_2(x), den_root_2(x), den_sq_4_1(x));
    lemma_horner_level(x, 0x94440f65f408a6e930e16e3e92dd17bf60d6e9679a8d3d58593de55ac23703042d609537eb3549aac234d896ca82944int, 0x128763327165fabdc18d3bf6078c41d888d228de661f25fc3c2dcb76e5c1b417fa1096ed90e93f883bb028731310a2b7int, 0x133341fb0962a34cb0504a9c4fada0a5090d38679b4c040d5d1c3afb023a3409fcc0815fea66d8b02bbef9c8b5a66e07int, 0x0int, 0x6d78ea295f44cf607cac7661ba6dc0cc8e8380c2ceee4227225a05f0e0706498821861cae458ede8b5c55871a82226fint, den_sq_3_0(x), den_root_0(x), times(x, den_sq_4_0(x)), den_sq_3_1(x), den_root_1(x), den_sq_4_0(x));
    lemma_product_level(x, 0x94440f65f408a6e930e16e3e92dd17bf60d6e9679a8d3d58593de55ac23703042d609537eb3549aac234d896ca82944int, den_root_3(x), den_root_4(x), den_root_0(x), den_sq_3_0(x), den_sq_4_0(x));
}

pub(crate) proof fn lemma_den_sq_step_2(x: int)
    ensures
        congruent(den_sq_2_0(x), times(den_root_2(x), den_root_0(x))),
{
    lemma_times_zero(x);
    lemma_den_sq_step_3(x);
    lemma_congruent_refl(den_sq_3_5(x), 0x1335c502c1f54c49aceea65e87fd7203ba0f626f305fc0cfd606a5dae9f3c8e81a4b3b69600129fabd307c69bf319d39int * 0int + den_sq_3_5(x));
    lemma_horner_level(x, 0x1335c502c1f54c49aceea65e87fd7203ba0f626f305fc0cfd606a5dae9f3c8e81a4b3b69600129fabd307c69bf319d39int, 0x14a7ac2a9d64a8b230b3f5b074cf01996e7f63c21bca68a81996e1cdf9822c580fa5b9489d11e2d311f7d99bbdcc5a5eint, 0x1int, 0x171e727db6f5c6883c54f51ecd18f95b4700152eb6aa7d843903bf30f8e636ff55a7ddf3d10b8d854c75d31fe9abd25int, 0x0int, den_sq_2_5(x), den_root_5(x), den_sq_3_4(x), den_sq_3_5(x), 0int, den_sq_3_5(x));
    lemma_horner_level(x, 0x1335c502c1f54c49aceea65e87fd7203ba0f626f305fc0cfd606a5dae9f3c8e81a4b3b69600129fabd307c69bf319d39int, 0x50e3a220131792b2f310716ea84efc2d323eaa372dce81f5540efe0ad0f0ea55d53940c983e1b7f86d28eac8796d28aint, 0x4afe09d5cf4956a23b6b71f59d2b3407b415a774b7be81bbb6fa99cbc798e0ac98ba725a5bc328016b1c268b4766e85int, 0x199de7dfaa9fbe3c1a04abbf77ada7ec9e5e3cf4fb69297b3d49c3b3c92a7e88b1d9b39e94b860a016a5502f6a3cda6cint, 0x37662505cc1c92af0d0f7cc4724263454effacc9ea5af05e898caf345f0530a9dace7c767f1574cc25298c7dd409d7dint, den_sq_2_4(x), den_root_4(x), den_sq_3_3(x), den_sq_2_5(x), den_root_5(x), den_sq_3_4(x));
    lemma_horner_level(x, 0x1335c502c1f54c49aceea65e87fd7203ba0f626f305fc0cfd606a5dae9f3c8e81a4b3b69600129fabd307c69bf319d39int, 0x961b6f0bb3ba0fb7065850249ffab44e02431aaac9f7de75bf5be9884e26fd2c675f0935619fdb586b5b3c5f0623c48int, 0x94440f65f408a6e930e16e3e92dd17bf60d6e9679a8d3d58593de55ac23703042d609537eb3549aac234d896ca82944int, 0x143a33f18f332729d02a5b9aa42939e04ee740b76110e00638ba47c80db4c729c95669253abb4788bd167cd14fb157a8int, 0x6d873c7915f503c5a0ec6bdafc29de72fedc438322de00b665467e17ba6b23da3826a9716695318bc775734fac4fe8cint, den_sq_2_3(x), den_root_3(x), den_sq_3_2(x), den_sq_2_4(x), den_root_4(x), den_sq_3_3(x));
    lemma_horner_level(x, 0x1335c502c1f54c49aceea65e87fd7203ba0f626f305fc0cfd606a5dae9f3c8e81a4b3b69600129fabd307c69bf319d39int, 0xfa4d4f6feb310e6fc408eecea274146d0b0271c147f1556a0e07ec1622842bb5f55af21e0c1ee91d546ec5dd574bcd2int, 0x1335c502c1f54c49aceea65e87fd7203ba0f626f305fc0cfd606a5dae9f3c8e81a4b3b69600129fabd307c69bf319d39int, 0x4040c6b037603c10e2e8e7259c05f372f2fa03d8ca14d64ec8ac626d18ac41f3c7cec863e73898b7e564cfd5fbde54cint, 0xe30e5f0b5b25ca984cb0d3cacfe71cc22116a2dc1fbf04777898112db218664f5ce37d187c9ee986786c24dd77f5d81int, den_sq_2_2(x), den_root_2(x), den_sq_3_1(x), den_sq_2_3(x), den_root_3(x), den_sq_3_2(x));
    lemma_horner_level(x, 0x1335c502c1f54c49aceea65e87fd7203ba0f626f305fc0cfd606a5dae9f3c8e81a4b3b69600129fabd307c69bf319d39int, 0x1a12ac0d2c5717f641d57f7be2075aa2d84121f8b58b2a8aa665455e146b7e824bb6a921f767ae20986f449c6e3166cint, 0x264908af037bcede00d054cf5d4775e83eb6cf63c76b969f8ed174fb59fcff78d201f46f6cfc4ed6552e59ce75177b0int, 0x128763327165fabdc18d3bf6078c41d888d228de661f25fc3c2dcb76e5c1b417fa1096ed90e93f883bb028731310a2b7int, 0x1c484e7068f2353eec38d1c838bb48f7584558a2530a599dac392a8c57b8836bc987fffbaa4cc7c1b6d38c75ca96771int, den_sq_2_1(x), den_root_1(x), den_sq_3_0(x), den_sq_2_2(x), den_root_2(x), den_sq_3_1(x));
    lemma_horner_level(x, 0x1335c502c1f54c49aceea65e87fd7203ba0f626f305fc0cfd606a5dae9f3c8e81a4b3b69600129fabd307c69bf319d39int, 0x77e1758b7c04fb930ad749ebb8396dba94a06298774127e11b852a8e6212e5964abb9821da89e16b2941cc53482287dint, 0x133341fb0962a34cb0504a9c4fada0a5090d38679b4c040d5d1c3afb023a3409fcc0815fea66d8b02bbef9c8b5a66e07int, 0x0int, 0xe2f0aea54546828a13d0e5122ccbc0dfafd85a81d307e5c953a2a3437504a3c1a967f3bafe8995ac131d6b9ac4ee636int, den_sq_2_0(x), den_root_0(x), times(x, den_sq_3_0(x)), den_sq_2_1(x), den_root_1(x), den_sq_3_0(x));
    lemma_product_level(x, 0x1335c502c1f54c49aceea65e87fd7203ba0f626f305fc0cfd606a5dae9f3c8e81a4b3b69600129fabd307c69bf319d39int, den_root_2(x), den_root_3(x), den_root_0(x), den_sq_2_0(x), den_sq_3_0(x));
}

pub(crate) proof fn lemma_den_sq_step_1(x: int)
    ensures
        congruent(den_sq_1_0(x), times(den_root_1(x), den_root_0(x))),
{
    lemma_times_zero(x);
    lemma_den_sq_step_2(x);
    lemma_congruent_refl(den_sq_2_5(x), 0x264908af037bcede00d054cf5d4775e83eb6cf63c76b969f8ed174fb59fcff78d201f46f6cfc4ed6552e59ce75177b0int * 0int + den_sq_2_5(x));
    lemma_horner_level(x, 0x264908af037bcede00d054cf5d4775e83eb6cf63c76b969f8ed174fb59fcff78d201f46f6cfc4ed6552e59ce75177b0int, 0x772caacf16936190f3e0c63e0596721570f5799af53a1894e2e073062aede9cea73b3538f0de06cec2574496ee84a3aint, 0x1int, 0x50e3a220131792b2f310716ea84efc2d323eaa372dce81f5540efe0ad0f0ea55d53940c983e1b7f86d28eac8796d28aint, 0x0int, den_sq_1_5(x), den_root_5(x), den_sq_2_4(x), den_sq_2_5(x), 0int, den_sq_2_5(x));
    lemma_horner_level(x, 0x264908af037bcede00d054cf5d4775e83eb6cf63c76b969f8ed174fb59fcff78d201f46f6cfc4ed6552e59ce75177b0int, 0x154125e81503ab06f0046c98f8a4d31b94c1490726d5bbff14585495192f5a4995ec50ea8b0fb6614e6dffd9e9bc4149int, 0x4afe09d5cf4956a23b6b71f59d2b3407b415a774b7be81bbb6fa99cbc798e0ac98ba725a5bc328016b1c268b4766e85int, 0x961b6f0bb3ba0fb7065850249ffab44e02431aaac9f7de75bf5be9884e26fd2c675f0935619fdb586b5b3c5f0623c48int, 0x6e68c7f612ce64d3b15924287926f76c9cd4cdf755e01b67d2e8a1db80e79a9d07f8181c257c2b9f49b0ffbde15c4dint, den_sq_1_4(x), den_root_4(x), den_sq_2_3(x), den_sq_1_5(x), den_root_5(x), den_sq_2_4(x));
    lemma_horner_level(x, 0x264908af037bcede00d054cf5d4775e83eb6cf63c76b969f8ed174fb59fcff78d201f46f6cfc4ed6552e59ce75177b0int, 0x1536b84223c19cbae0f34fe78dff8bb1b4969bf08448254db789aa26ca0fa76ca50b538ff8ca38526b9157da579141f0int, 0x94440f65f408a6e930e16e3e92dd17bf60d6e9679a8d3d58593de55ac23703042d609537eb3549aac234d896ca82944int, 0xfa4d4f6feb310e6fc408eecea274146d0b0271c147f1556a0e07ec1622842bb5f55af21e0c1ee91d546ec5dd574bcd2int, 0xda49bca4072018b6ed0803a5eceaf6a18b31b1e393a302a208a53dd33f8cca092cc53b1d9354c4457c4ba2b67d60e6int, den_sq_1_3(x), den_root_3(x), den_sq_2_2(x), den_sq_1_4(x), den_root_4(x), den_sq_2_3(x));
    lemma_horner_level(x, 0x264908af037bcede00d054cf5d4775e83eb6cf63c76b969f8ed174fb59fcff78d201f46f6cfc4ed6552e59ce75177b0int, 0xabc04396da4cedb51c91bafb800565336ad46e5a41752147fcfafd5d37cb1dc6e123e355f57b63b915cc0207ab534ccint, 0x1335c502c1f54c49aceea65e87fd7203ba0f626f305fc0cfd606a5dae9f3c8e81a4b3b69600129fabd307c69bf319d39int, 0x1a12ac0d2c5717f641d57f7be2075aa2d84121f8b58b2a8aa665455e146b7e824bb6a921f767ae20986f449c6e3166cint, 0x1c484e7068f2353eec38d1c838bb48f7584558a2530a599dac392a8c57b8836bc987fffbaa4cc7c1b6d38c75ca96770int, den_sq_1_2(x), den_root_2(x), den_sq_2_1(x), den_sq_1_3(x), den_root_3(x), den_sq_2_2(x));
    lemma_horner_level(x, 0x264908af037bcede00d054cf5d4775e83eb6cf63c76b969f8ed174fb59fcff78d201f46f6cfc4ed6552e59ce75177b0int, 0x3ab4ba59fe2d2a5508a718b046f0243c63f3b45d2fd7a53eaedfb57caf9a05371f817145eec60c64a2e1cf52836159cint, 0x264908af037bcede00d054cf5d4775e83eb6cf63c76b969f8ed174fb59fcff78d201f46f6cfc4ed6552e59ce75177b0int, 0x77e1758b7c04fb930ad749ebb8396dba94a06298774127e11b852a8e6212e5964abb9821da89e16b2941cc53482287dint, 0x385dcfc7da1e0a28d32a738cbbbd38b806d0efa4fc44580b22d968ff589dbf97609699b751e1f098e4033c688683a3int, den_sq_1_1(x), den_root_1(x), den_sq_2_0(x), den_sq_1_2(x), den_root_2(x), den_sq_2_1(x));
    lemma_horner_level(x, 0x264908af037bcede00d054cf5d4775e83eb6cf63c76b969f8ed174fb59fcff78d201f46f6cfc4ed6552e59ce75177b0int, 0x162b9624126ac16ec9e80c646e187186ea5c9a27803ac965b42bca7cc17cdabd994354418f021374cfe393b764157355int, 0x133341fb0962a34cb0504a9c4fada0a5090d38679b4c040d5d1c3afb023a3409fcc0815fea66d8b02bbef9c8b5a66e07int, 0x0int, 0x1c449bb8e4961612a83042160888561c0477d43f2b25d1af5f797220eb17937a3198fbf8fd1986c83a988494d885771int, den_sq_1_0(x), den_root_0(x), times(x, den_sq_2_0(x)), den_sq_1_1(x), den_root_1(x), den_sq_2_0(x));
    lemma_product_level(x, 0x264908af037bcede00d054cf5d4775e83eb6cf63c76b969f8ed174fb59fcff78d201f46f6cfc4ed6552e59ce75177b0int, den_root_1(x), den_root_2(x), den_root_0(x), den_sq_1_0(x), den_sq_2_0(x));
}

pub(crate) proof fn lemma_den_sq_step_0(x: int)
    ensures
        congruent(den_sq_0_0(x), times(den_root_0(x), den_root_0(x))),
{
    lemma_times_zero(x);
    lemma_den_sq_step_1(x);
    lemma_congruent_refl(den_sq_1_5(x), 0x133341fb0962a34cb0504a9c4fada0a5090d38679b4c040d5d1c3afb023a3409fcc0815fea66d8b02bbef9c8b5a66e07int * 0int + den_sq_1_5(x));
    lemma_horner_level(x, 0x133341fb0962a34cb0504a9c4fada0a5090d38679b4c040d5d1c3afb023a3409fcc0815fea66d8b02bbef9c8b5a66e07int, 0xe7355f8e4e667b955390f7f0506c6e9395735e9ce9cad4d0a43bcef24b8982f7400d24bc4228f11c02df9a29f6304a5int, 0x1int, 0x154125e81503ab06f0046c98f8a4d31b94c1490726d5bbff14585495192f5a4995ec50ea8b0fb6614e6dffd9e9bc4149int, 0x1int, den_sq_0_5(x), den_root_5(x), den_sq_1_4(x), den_sq_1_5(x), 0int, den_sq_1_5(x));
    lemma_horner_level(x, 0x133341fb0962a34cb0504a9c4fada0a5090d38679b4c040d5d1c3afb023a3409fcc0815fea66d8b02bbef9c8b5a66e07int, 0x13a8e162022914a80a6f1d5f43e7a07dffdfc759a12062bb8d6b44e833b306da9bd29ba81f35781d539d395b3532a21eint, 0x4afe09d5cf4956a23b6b71f59d2b3407b415a774b7be81bbb6fa99cbc798e0ac98ba725a5bc328016b1c268b4766e85int, 0x1536b84223c19cbae0f34fe78dff8bb1b4969bf08448254db789aa26ca0fa76ca50b538ff8ca38526b9157da579141f0int, 0x375ee69d959243cd1e717f988194c7dc739d8e9df579ab5cf6583a175cc4152bc9f1d5cb867db884b72039f5b63625fint, den_sq_0_4(x), den_root_4(x), den_sq_1_3(x), den_sq_0_5(x), den_root_5(x), den_sq_1_4(x));
    lemma_horner_level(x, 0x133341fb0962a34cb0504a9c4fada0a5090d38679b4c040d5d1c3afb023a3409fcc0815fea66d8b02bbef9c8b5a66e07int, 0x3425581a58ae2fec83aafef7c40eb545b08243f16b1655154cca8abc28d6fd04976d5243eecf5c4130de8938dc62cd8int, 0x94440f65f408a6e930e16e3e92dd17bf60d6e9679a8d3d58593de55ac23703042d609537eb3549aac234d896ca82944int, 0xabc04396da4cedb51c91bafb800565336ad46e5a41752147fcfafd5d37cb1dc6e123e355f57b63b915cc0207ab534ccint, 0x6d78ea295f44cf607cac7661ba6dc0cc8e8380c2ceee4227225a05f0e0706498821861cae458ede8b5c55871a822270int, den_sq_0_3(x), den_root_3(x), den_sq_1_2(x), den_sq_0_4(x), den_root_4(x), den_sq_1_3(x));
    lemma_horner_level(x, 0x133341fb0962a34cb0504a9c4fada0a5090d38679b4c040d5d1c3afb023a3409fcc0815fea66d8b02bbef9c8b5a66e07int, 0xb2962fe57a3225e8137e629bff2991f6f89416f5a718cd1fca64e00b11aceacd6a3d0967c94fedcfcc239ba5cb83e19int, 0x1335c502c1f54c49aceea65e87fd7203ba0f626f305fc0cfd606a5dae9f3c8e81a4b3b69600129fabd307c69bf319d39int, 0x3ab4ba59fe2d2a5508a718b046f0243c63f3b45d2fd7a53eaedfb57caf9a05371f817145eec60c64a2e1cf52836159cint, 0xe2f0aea54546828a13d0e5122ccbc0dfafd85a81d307e5c953a2a3437504a3c1a967f3bafe8995ac131d6b9ac4ee636int, den_sq_0_2(x), den_root_2(x), den_sq_1_1(x), den_sq_0_3(x), den_root_3(x), den_sq_1_2(x));
    lemma_horner_level(x, 0x133341fb0962a34cb0504a9c4fada0a5090d38679b4c040d5d1c3afb023a3409fcc0815fea66d8b02bbef9c8b5a66e07int, 0x12561a5deb559c4348b4711298e536367041e8ca0cf0800c0126c2588c48bf5713daa8846cb026e9e5c8276ec82b3bffint, 0x264908af037bcede00d054cf5d4775e83eb6cf63c76b969f8ed174fb59fcff78d201f46f6cfc4ed6552e59ce75177b0int, 0x162b9624126ac16ec9e80c646e187186ea5c9a27803ac965b42bca7cc17cdabd994354418f021374cfe393b764157355int, 0x1c449bb8e4961612a83042160888561c0477d43f2b25d1af5f797220eb17937a3198fbf8fd1986c83a988494d885772int, den_sq_0_1(x), den_root_1(x), den_sq_1_0(x), den_sq_0_2(x), den_root_2(x), den_sq_1_1(x));
    lemma_horner_level(x, 0x133341fb0962a34cb0504a9c4fada0a5090d38679b4c040d5d1c3afb023a3409fcc0815fea66d8b02bbef9c8b5a66e07int, 0x8ca8d548cff19ae18b2e62f4bd3fa6f01d5ef4ba35b48ba9c9588617fc8ac62b558d681be343df8993cf9fa40d21b1cint, 0x133341fb0962a34cb0504a9c4fada0a5090d38679b4c040d5d1c3afb023a3409fcc0815fea66d8b02bbef9c8b5a66e07int, 0x0int, 0xe2d30220fc872466f9e20f671646303392e81ca6bf37f3c022316950c3d00b5be27807b0fece6aaa23f441e4be2bb3fint, den_sq_0_0(x), den_root_0(x), times(x, den_sq_1_0(x)), den_sq_0_1(x), den_root_1(x), den_sq_1_0(x));
    lemma_product_level(x, 0x133341fb0962a34cb0504a9c4fada0a5090d38679b4c040d5d1c3afb023a3409fcc0815fea66d8b02bbef9c8b5a66e07int, den_root_0(x), den_root_1(x), den_root_0(x), den_sq_0_0(x), den_sq_1_0(x));
}

pub(crate) proof fn lemma_den_cube_step_5(x: int)
    ensures
        congruent(den_cube_5_0(x), times(den_root_5(x), den_sq_0_0(x))),
{
    lemma_times_zero(x);
    lemma_congruent_refl(0int, 0x1int * 0int + 0int);
    lemma_horner_level(x, 0x1int, 0x1int, 0x1int, 0x0int, 0x0int, den_cube_5_10(x), den_sq_5_5(x), 0int, 0int, 0int, 0int);
    lemma_horner_level(x, 0x1int, 0x95fc13ab9e92ad4476d6e3eb3a56680f682b4ee96f7d03776df533978f31c1593174e4b4b7865002d6384d168ecdd0aint, 0x95fc13ab9e92ad4476d6e3eb3a56680f682b4ee96f7d03776df533978f31c1593174e4b4b7865002d6384d168ecdd0aint, 0x0int, 0x0int, den_cube_5_9(x), den_sq_4_5(x), 0int, den_cube_5_10(x), den_sq_5_5(x), 0int);
    lemma_horner_level(x, 0x1int, 0xa10ecf6ada54f825e920b3dafc7a3cce07f8d1d7161366b74100da67f39883503826692abba43704776ec3a79a1d641int, 0xa10ecf6ada54f825e920b3dafc7a3cce07f8d1d7161366b74100da67f39883503826692abba43704776ec3a79a1d641int, 0x0int, 0x0int, den_cube_5_8(x), den_sq_3_5(x), 0int, den_cube_5_9(x), den_sq_4_5(x), 0int);
    lemma_horner_level(x, 0x1int, 0x14a7ac2a9d64a8b230b3f5b074cf01996e7f63c21bca68a81996e1cdf9822c580fa5b9489d11e2d311f7d99bbdcc5a5eint, 0x14a7ac2a9d64a8b230b3f5b074cf01996e7f63c21bca68a81996e1cdf9822c580fa5b9489d11e2d311f7d99bbdcc5a5eint, 0x0int, 0x0int, den_cube_5_7(x), den_sq_2_5(x), 0int, den_cube_5_8(x), den_sq_3_5(x), 0int);
    lemma_horner_level(x, 0x1int, 0x772caacf16936190f3e0c63e0596721570f5799af53a1894e2e073062aede9cea73b3538f0de06cec2574496ee84a3aint, 0x772caacf16936190f3e0c63e0596721570f5799af53a1894e2e073062aede9cea73b3538f0de06cec2574496ee84a3aint, 0x0int, 0x0int, den_cube_5_6(x), den_sq_1_5(x), 0int, den_cube_5_7(x), den_sq_2_5(x), 0int);
    lemma_horner_level(x, 0x1int, 0xe7355f8e4e667b955390f7f0506c6e9395735e9ce9cad4d0a43bcef24b8982f7400d24bc4228f11c02df9a29f6304a5int, 0xe7355f8e4e667b955390f7f0506c6e9395735e9ce9cad4d0a43bcef24b8982f7400d24bc4228f11c02df9a29f6304a5int, 0x0int, 0x0int, den_cube_5_5(x), den_sq_0_5(x), 0int, den_cube_5_6(x), den_sq_1_5(x), 0int);
    lemma_horner_level(x, 0x1int, 0x13a8e162022914a80a6f1d5f43e7a07dffdfc759a12062bb8d6b44e833b306da9bd29ba81f35781d539d395b3532a21eint, 0x13a8e162022914a80a6f1d5f43e7a07dffdfc759a12062bb8d6b44e833b306da9bd29ba81f35781d539d395b3532a21eint, 0x0int, 0x0int, den_cube_5_4(x), den_sq_0_4(x), 0int, den_cube_5_5(x), den_sq_0_5(x), 0int);
    lemma_horner_level(x, 0x1int, 0x3425581a58ae2fec83aafef7c40eb545b08243f16b1655154cca8abc28d6fd04976d5243eecf5c4130de8938dc62cd8int, 0x3425581a58ae2fec83aafef7c40eb545b08243f16b1655154cca8abc28d6fd04976d5243eecf5c4130de8938dc62cd8int, 0x0int, 0x0int, den_cube_5_3(x), den_sq_0_3(x), 0int, den_cube_5_4(x), den_sq_0_4(x), 0int);
    lemma_horner_level(x, 0x1int, 0xb2962fe57a3225e8137e629bff2991f6f89416f5a718cd1fca64e00b11aceacd6a3d0967c94fedcfcc239ba5cb83e19int, 0xb2962fe57a3225e8137e629bff2991f6f89416f5a718cd1fca64e00b11aceacd6a3d0967c94fedcfcc239ba5cb83e19int, 0x0int, 0x0int, den_cube_5_2(x), den_sq_0_2(x), 0int, den_cube_5_3(x), den_sq_0_3(x), 0int);
    lemma_horner_level(x, 0x1int, 0x12561a5deb559c4348b4711298e536367041e8ca0cf0800c0126c2588c48bf5713daa8846cb026e9e5c8276ec82b3bffint, 0x12561a5deb559c4348b4711298e536367041e8ca0cf0800c0126c2588c48bf5713daa8846cb026e9e5c8276ec82b3bffint, 0x0int, 0x0int, den_cube_5_1(x), den_sq_0_1(x), 0int, den_cube_5_2(x), den_sq_0_2(x), 0int);
    lemma_horner_level(x, 0x1int, 0x8ca8d548cff19ae18b2e62f4bd3fa6f01d5ef4ba35b48ba9c9588617fc8ac62b558d681be343df8993cf9fa40d21b1cint, 0x8ca8d548cff19ae18b2e62f4bd3fa6f01d5ef4ba35b48ba9c9588617fc8ac62b558d681be343df8993cf9fa40d21b1cint, 0x0int, 0x0int, den_cube_5_0(x), den_sq_0_0(x), times(x, 0int), den_cube_5_1(x), den_sq_0_1(x), 0int);
    lemma_times_zero(den_sq_0_0(x));
    lemma_congruent_refl(0int, times(0int, den_sq_0_0(x)));
    lemma_product_level(x, 0x1int, den_root_5(x), 0int, den_sq_0_0(x), den_cube_5_0(x), 0int);
}

pub(crate) proof fn lemma_den_cube_step_4(x: int)
    ensures
        congruent(den_cube_4_0(x), times(den_root_4(x), den_sq_0_0(x))),
{
    lemma_times_zero(x);
    lemma_den_cube_step_5(x);
    lemma_congruent_refl(den_cube_5_10(x), 0x4afe09d5cf4956a23b6b71f59d2b3407b415a774b7be81bbb6fa99cbc798e0ac98ba725a5bc328016b1c268b4766e85int * 0int + den_cube_5_10(x));
    lemma_horner_level(x, 0x4afe09d5cf4956a23b6b71f59d2b3407b415a774b7be81bbb6fa99cbc798e0ac98ba725a5bc328016b1c268b4766e85int, 0xe0fa1d816ddc03e6b24255e0d7819c171c40f65e273b853324efcd6356caa205ca2f570f13497804415473a1d634b8fint, 0x1int, 0x95fc13ab9e92ad4476d6e3eb3a56680f682b4ee96f7d03776df533978f31c1593174e4b4b7865002d6384d168ecdd0aint, 0x0int, den_cube_4_10(x), den_sq_5_5(x), den_cube_5_9(x), den_cube_5_10(x), 0int, den_cube_5_10(x));
    lemma_horner_level(x, 0x4afe09d5cf4956a23b6b71f59d2b3407b415a774b7be81bbb6fa99cbc798e0ac98ba725a5bc328016b1c268b4766e85int, 0x1322d4f4c56dab671a996ddfadeb524e2dc03883610566abad11823dc3cfce021ddb0e68b9b577e5dfd68e89ba44885eint, 0x95fc13ab9e92ad4476d6e3eb3a56680f682b4ee96f7d03776df533978f31c1593174e4b4b7865002d6384d168ecdd0aint, 0xa10ecf6ada54f825e920b3dafc7a3cce07f8d1d7161366b74100da67f39883503826692abba43704776ec3a79a1d641int, 0x1b088cc54f51d84dd835f3a3f4a385231444f2d6b3bc99f360c32f0b175f6a0c9ea2eb74c36bfa1c1be12f72c46503fint, den_cube_4_9(x), den_sq_4_5(x), den_cube_5_8(x), den_cube_4_10(x), den_sq_5_5(x), den_cube_5_9(x));
    lemma_horner_level(x, 0x4afe09d5cf4956a23b6b71f59d2b3407b415a774b7be81bbb6fa99cbc798e0ac98ba725a5bc328016b1c268b4766e85int, 0x964d2297107237b3f9be1f2c78d85009fc345869f745a4e39ccb306907f38169da58984a6a851e8c9d25406589888a7int, 0xa10ecf6ada54f825e920b3dafc7a3cce07f8d1d7161366b74100da67f39883503826692abba43704776ec3a79a1d641int, 0x14a7ac2a9d64a8b230b3f5b074cf01996e7f63c21bca68a81996e1cdf9822c580fa5b9489d11e2d311f7d99bbdcc5a5eint, 0x1d077c39df3b7d2eac72faa9e53aa4199307a671272ede76aebccdcc619ffbe43f2967334b4bb471a3f88fff15e2e74int, den_cube_4_8(x), den_sq_3_5(x), den_cube_5_7(x), den_cube_4_9(x), den_sq_4_5(x), den_cube_5_8(x));
    lemma_horner_level(x, 0x4afe09d5cf4956a23b6b71f59d2b3407b415a774b7be81bbb6fa99cbc798e0ac98ba725a5bc328016b1c268b4766e85int, 0x18174c54fd122b338378aef7be875d6e59cc8d97e5ebfc3321c17cf0ef112b58884d3c78f860471dd530f75bdbfc83fdint, 0x14a7ac2a9d64a8b230b3f5b074cf01996e7f63c21bca68a81996e1cdf9822c580fa5b9489d11e2d311f7d99bbdcc5a5eint, 0x772caacf16936190f3e0c63e0596721570f5799af53a1894e2e073062aede9cea73b3538f0de06cec2574496ee84a3aint, 0x3b90e45173d7db60675426cd6a38399b3f075f2a948373e98bc9ce2fc59343387871d4719ffe429d67148e88bf65739int, den_cube_4_7(x), den_sq_2_5(x), den_cube_5_6(x), den_cube_4_8(x), den_sq_3_5(x), den_cube_5_7(x));
    lemma_horner_level(x, 0x4afe09d5cf4956a23b6b71f59d2b3407b415a774b7be81bbb6fa99cbc798e0ac98ba725a5bc328016b1c268b4766e85int, 0xd10ae653904e5a1b4e0b54fdb2451acb514f4b5022641dd4c5f36940a3ece66e95d6521c29379332f469df95b21b04aint, 0x772caacf16936190f3e0c63e0596721570f5799af53a1894e2e073062aede9cea73b3538f0de06cec2574496ee84a3aint, 0xe7355f8e4e667b955390f7f0506c6e9395735e9ce9cad4d0a43bcef24b8982f7400d24bc4228f11c02df9a29f6304a5int, 0x157aea2d63cf3c8edb983c8fadc9cffba65ae24db5984ffe2bf015cc830230fbe193e748f188a170a112d0986297177int, den_cube_4_6(x), den_sq_1_5(x), den_cube_5_5(x), den_cube_4_7(x), den_sq_2_5(x), den_cube_5_6(x));
    lemma_horner_level(x, 0x4afe09d5cf4956a23b6b71f59d2b3407b415a774b7be81bbb6fa99cbc798e0ac98ba725a5bc328016b1c268b4766e85int, 0x1332a3479a3d8e2c92cfd5a12aa6124487619525f863433524be841adca3905a7707dd7bb1804f2257dd9cefac520c6int, 0xe7355f8e4e667b955390f7f0506c6e9395735e9ce9cad4d0a43bcef24b8982f7400d24bc4228f11c02df9a29f6304a5int, 0x13a8e162022914a80a6f1d5f43e7a07dffdfc759a12062bb8d6b44e833b306da9bd29ba81f35781d539d395b3532a21eint, 0x29ac5b18076f56a42de2264d6e815cb35b3dc7c5d2665df14833c0e53a981775a04233f8cf0aa66d4538a57a9f67333int, den_cube_4_5(x), den_sq_0_5(x), den_cube_5_4(x), den_cube_4_6(x), den_sq_1_5(x), den_cube_5_5(x));
    lemma_horner_level(x, 0x4afe09d5cf4956a23b6b71f59d2b3407b415a774b7be81bbb6fa99cbc798e0ac98ba725a5bc328016b1c268b4766e85int, 0xa913208ffccd1bde8c6fd6e80577698add4fbf636603323f27344d3433bfbf92286f2223496d978ff6bd5b8c12ef0a5int, 0x13a8e162022914a80a6f1d5f43e7a07dffdfc759a12062bb8d6b44e833b306da9bd29ba81f35781d539d395b3532a21eint, 0x3425581a58ae2fec83aafef7c40eb545b08243f16b1655154cca8abc28d6fd04976d5243eecf5c4130de8938dc62cd8int, 0x38b21b98a015c11011a997bb4c797d4684d758e824f69b00b8dc1ec32352da6ebef35c8ad1c174e1c226e5917820d5bint, den_cube_4_4(x), den_sq_0_4(x), den_cube_5_3(x), den_cube_4_5(x), den_sq_0_5(x), den_cube_5_4(x));
    lemma_horner_level(x, 0x4afe09d5cf4956a23b6b71f59d2b3407b415a774b7be81bbb6fa99cbc798e0ac98ba725a5bc328016b1c268b4766e85int, 0xb6a386308f95ec0127a700b6944b3a44ad1ba8efbbcf8193e91f9d0284754aa8c4d73974bbde9730a074d170edbcc58int, 0x3425581a58ae2fec83aafef7c40eb545b08243f16b1655154cca8abc28d6fd04976d5243eecf5c4130de8938dc62cd8int, 0xb2962fe57a3225e8137e629bff2991f6f89416f5a718cd1fca64e00b11aceacd6a3d0967c94fedcfcc239ba5cb83e19int, 0x966199c71f61cb61afc32b865f4580862bf76e6a577bc2bf187f6c4476da9700d82eb3ae673b6a056ce665a3dea9ebint, den_cube_4_3(x), den_sq_0_3(x), den_cube_5_2(x), den_cube_4_4(x), den_sq_0_4(x), den_cube_5_3(x));
    lemma_horner_level(x, 0x4afe09d5cf4956a23b6b71f59d2b3407b415a774b7be81bbb6fa99cbc798e0ac98ba725a5bc328016b1c268b4766e85int, 0x8516a1e8a30befbefcce165a8a0e9d20a06a0fb9496c58239adcd266ba81c1545e7b13bd7987630fad04277325f231aint, 0xb2962fe57a3225e8137e629bff2991f6f89416f5a718cd1fca64e00b11aceacd6a3d0967c94fedcfcc239ba5cb83e19int, 0x12561a5deb559c4348b4711298e536367041e8ca0cf0800c0126c2588c48bf5713daa8846cb026e9e5c8276ec82b3bffint, 0x20304b7bb8d1d0849892b8b2b8cc6536708ddb7cc9e826abe3d90ec13b443c04c89179ddb75e34822c6eeeeacd14da6int, den_cube_4_2(x), den_sq_0_2(x), den_cube_5_1(x), den_cube_4_3(x), den_sq_0_3(x), den_cube_5_2(x));
    lemma_horner_level(x, 0x4afe09d5cf4956a23b6b71f59d2b3407b415a774b7be81bbb6fa99cbc798e0ac98ba725a5bc328016b1c268b4766e85int, 0xa5958a33c02bc090f7a9ab1bcad4cfb32406db968e57608f7ed619c83affa9d540c9fa16fec1f99543eb25580d6a682int, 0x12561a5deb559c4348b4711298e536367041e8ca0cf0800c0126c2588c48bf5713daa8846cb026e9e5c8276ec82b3bffint, 0x8ca8d548cff19ae18b2e62f4bd3fa6f01d5ef4ba35b48ba9c9588617fc8ac62b558d681be343df8993cf9fa40d21b1cint, 0x34e11f46deb79df13c377ae7a660f940ce1571d2197ffbe0b97a8eb5a1116ee574e2202a8d9c4a1633959476788963fint, den_cube_4_1(x), den_sq_0_1(x), den_cube_5_0(x), den_cube_4_2(x), den_sq_0_2(x), den_cube_5_1(x));
    lemma_horner_level(x, 0x4afe09d5cf4956a23b6b71f59d2b3407b415a774b7be81bbb6fa99cbc798e0ac98ba725a5bc328016b1c268b4766e85int, 0xfad3c4d864f86d127953716ae09ed9d9235efbd8f83ae2f7ce49831007e0209871236189336c16e6c2012d8dd13566int, 0x8ca8d548cff19ae18b2e62f4bd3fa6f01d5ef4ba35b48ba9c9588617fc8ac62b558d681be343df8993cf9fa40d21b1cint, 0x0int, 0x195a4541a95c9f53004c7c03c5e23b032de15fa94b77d235e8f3b17c08c416e6e20154e2811202043f0310a7a20b872int, den_cube_4_0(x), den_sq_0_0(x), times(x, den_cube_5_0(x)), den_cube_4_1(x), den_sq_0_1(x), den_cube_5_0(x));
    lemma_product_level(x, 0x4afe09d5cf4956a23b6b71f59d2b3407b415a774b7be81bbb6fa99cbc798e0ac98ba725a5bc328016b1c268b4766e85int, den_root_4(x), den_root_5(x), den_sq_0_0(x), den_cube_4_0(x), den_cube_5_0(x));
}

pub(crate) proof fn lemma_den_cube_step_3(x: int)
    ensures
        congruent(den_cube_3_0(x), times(den_root_3(x), den_sq_0_0(x))),
{
    lemma_times_zero(x);
    lemma_den_cube_step_4(x);
    lemma_congruent_refl(den_cube_4_10(x), 0x94440f65f408a6e930e16e3e92dd17bf60d6e9679a8d3d58593de55ac23703042d609537eb3549aac234d896ca82944int * 0int + den_cube_4_10(x));
    lemma_horner_level(x, 0x94440f65f408a6e930e16e3e92dd17bf60d6e9679a8d3d58593de55ac23703042d609537eb3549aac234d896ca82944int, 0x2660400eb2e4f3b628bdd0d53cd76f2bf565b94e72927c1cb748df27942480e420517bd8714cc80d1fadc1326ed06f7int, 0x1int, 0x1322d4f4c56dab671a996ddfadeb524e2dc03883610566abad11823dc3cfce021ddb0e68b9b577e5dfd68e89ba44885eint, 0x1int, den_cube_3_10(x), den_sq_5_5(x), den_cube_4_9(x), den_cube_4_10(x), 0int, den_cube_4_10(x));
    lemma_horner_level(x, 0x94440f65f408a6e930e16e3e92dd17bf60d6e9679a8d3d58593de55ac23703042d609537eb3549aac234d896ca82944int, 0x11a20638c4011a34618e329c6fad4f69fe9b2fef4e0454160e871bbfaccac8c29760cbf9350be0c61b6834ce9801533eint, 0x95fc13ab9e92ad4476d6e3eb3a56680f682b4ee96f7d03776df533978f31c1593174e4b4b7865002d6384d168ecdd0aint, 0x964d2297107237b3f9be1f2c78d85009fc345869f745a4e39ccb306907f38169da58984a6a851e8c9d25406589888a7int, 0x35727b4b31174a76d0bf52802cbdabe800fa6bc01261179bc07e31c3391724b2f586ef76b8a834d3d8c23af129c9233int, den_cube_3_9(x), den_sq_4_5(x), den_cube_4_8(x), den_cube_3_10(x), den_sq_5_5(x), den_cube_4_9(x));
    lemma_horner_level(x, 0x94440f65f408a6e930e16e3e92dd17bf60d6e9679a8d3d58593de55ac23703042d609537eb3549aac234d896ca82944int, 0x1786746d7141e9d9a003c86c29f658652da6ebb2d0eaf960fc03583e5a8daae014398876c04f813e96d85292c050fdfbint, 0xa10ecf6ada54f825e920b3dafc7a3cce07f8d1d7161366b74100da67f39883503826692abba43704776ec3a79a1d641int, 0x18174c54fd122b338378aef7be875d6e59cc8d97e5ebfc3321c17cf0ef112b58884d3c78f860471dd530f75bdbfc83fdint, 0x3964a44bffccd7379d6139e2d875306db9831f47ef54e1a8747614fa49648f6bd878eb77c31b4efc7e1cf3c9eb488d2int, den_cube_3_8(x), den_sq_3_5(x), den_cube_4_7(x), den_cube_3_9(x), den_sq_4_5(x), den_cube_4_8(x));
    lemma_horner_level(x, 0x94440f65f408a6e930e16e3e92dd17bf60d6e9679a8d3d58593de55ac23703042d609537eb3549aac234d896ca82944int, 0xf0ee41457c4d90cc13e6360fcf237b1a3ae3f06b5e95fec804b55698faebd525e95e4d670b32278941be4ee5c3bbf56int, 0x14a7ac2a9d64a8b230b3f5b074cf01996e7f63c21bca68a81996e1cdf9822c580fa5b9489d11e2d311f7d99bbdcc5a5eint, 0xd10ae653904e5a1b4e0b54fdb2451acb514f4b5022641dd4c5f36940a3ece66e95d6521c29379332f469df95b21b04aint, 0x75c447efcb755d432b08ecfa5f74156ba0dec478dca651acb3b565020483f1a5c78e17f899b572212aee6d14bc8ffc4int, den_cube_3_7(x), den_sq_2_5(x), den_cube_4_6(x), den_cube_3_8(x), den_sq_3_5(x), den_cube_4_7(x));
    lemma_horner_level(x, 0x94440f65f408a6e930e16e3e92dd17bf60d6e9679a8d3d58593de55ac23703042d609537eb3549aac234d896ca82944int, 0x11516da70acbbe22c1e33df6bef7f11f386a25fc1617a872ad9fe79e04011442e0ef10adbd83b808fdbcdeeadff1310dint, 0x772caacf16936190f3e0c63e0596721570f5799af53a1894e2e073062aede9cea73b3538f0de06cec2574496ee84a3aint, 0x1332a3479a3d8e2c92cfd5a12aa6124487619525f863433524be841adca3905a7707dd7bb1804f2257dd9cefac520c6int, 0x2a77cb88e92521e51a3a00908c63aca93c28264403d6c35245e1ee8b0a59bc1e84447f779227bc99f7766afaad3d363int, den_cube_3_6(x), den_sq_1_5(x), den_cube_4_5(x), den_cube_3_7(x), den_sq_2_5(x), den_cube_4_6(x));
    lemma_horner_level(x, 0x94440f65f408a6e930e16e3e92dd17bf60d6e9679a8d3d58593de55ac23703042d609537eb3549aac234d896ca82944int, 0x1077dd1b32a15b4c58d72afa94e2dab25bfc089558d1f6e29f5f4754b14c65f29bec95dea83a88f63fa3825974f559aint, 0xe7355f8e4e667b955390f7f0506c6e9395735e9ce9cad4d0a43bcef24b8982f7400d24bc4228f11c02df9a29f6304a5int, 0xa913208ffccd1bde8c6fd6e80577698add4fbf636603323f27344d3433bfbf92286f2223496d978ff6bd5b8c12ef0a5int, 0x526431bb2dab30c55b3b1b0efb630bf02f09ad915794a0b682e60fe7591042eb959fe949ab5de4e734e35d4d836cb9dint, den_cube_3_5(x), den_sq_0_5(x), den_cube_4_4(x), den_cube_3_6(x), den_sq_1_5(x), den_cube_4_5(x));
    lemma_horner_level(x, 0x94440f65f408a6e930e16e3e92dd17bf60d6e9679a8d3d58593de55ac23703042d609537eb3549aac234d896ca82944int, 0x120bf878f0a0e896d0d669d51db13f1c64f3839a6c2d4f67184abdd231ba9569c460fdc4dfca6723fe7d6824508f39fbint, 0x13a8e162022914a80a6f1d5f43e7a07dffdfc759a12062bb8d6b44e833b306da9bd29ba81f35781d539d395b3532a21eint, 0xb6a386308f95ec0127a700b6944b3a44ad1ba8efbbcf8193e91f9d0284754aa8c4d73974bbde9730a074d170edbcc58int, 0x70178dd47532d031e624897b232b0709f825d702ef8fcd1f0509a6e3d5853b5bc10a314504668459f88c64f673250ffint, den_cube_3_4(x), den_sq_0_4(x), den_cube_4_3(x), den_cube_3_5(x), den_sq_0_5(x), den_cube_4_4(x));
    lemma_horner_level(x, 0x94440f65f408a6e930e16e3e92dd17bf60d6e9679a8d3d58593de55ac23703042d609537eb3549aac234d896ca82944int, 0xf26cb1a8031e955b03b92224b53870210ec3bfcbc5532e25cd54182b7e8941eeddb21ae74618bd4901c58ffdaf4f2b8int, 0x3425581a58ae2fec83aafef7c40eb545b08243f16b1655154cca8abc28d6fd04976d5243eecf5c4130de8938dc62cd8int, 0x8516a1e8a30befbefcce165a8a0e9d20a06a0fb9496c58239adcd266ba81c1545e7b13bd7987630fad04277325f231aint, 0x12950d75240c35e69bc0694a490f25a610d93eb4d81b60e90acc1ed5b728c224dbeddab13d5299e62efc306f63c1546int, den_cube_3_3(x), den_sq_0_3(x), den_cube_4_2(x), den_cube_3_4(x), den_sq_0_4(x), den_cube_4_3(x));
    lemma_horner_level(x, 0x94440f65f408a6e930e16e3e92dd17bf60d6e9679a8d3d58593de55ac23703042d609537eb3549aac234d896ca82944int, 0x10d9b0ab523f98630bfab7ed2fecb60408cc3e7d38a68e5910b8f54a1bc4049b9fc2d65c005e0f51c7c156b84642bb23int, 0xb2962fe57a3225e8137e629bff2991f6f89416f5a718cd1fca64e00b11aceacd6a3d0967c94fedcfcc239ba5cb83e19int, 0xa5958a33c02bc090f7a9ab1bcad4cfb32406db968e57608f7ed619c83affa9d540c9fa16fec1f99543eb25580d6a682int, 0x3fa3b92154e5fe60d0f96d0f66392ce886cbfb46cd5e77923cc8dd3d0c8bbb020656b8d34de2339da69d6ff3ea44109int, den_cube_3_2(x), den_sq_0_2(x), den_cube_4_1(x), den_cube_3_3(x), den_sq_0_3(x), den_cube_4_2(x));
    lemma_horner_level(x, 0x94440f65f408a6e930e16e3e92dd17bf60d6e9679a8d3d58593de55ac23703042d609537eb3549aac234d896ca82944int, 0x4f3b7e3470be4f0e10064247cf157bd01c7546925ee5384dc7ab539fb18b5528e1130a2bfb5651a1f1ebb5a98b381f8int, 0x12561a5deb559c4348b4711298e536367041e8ca0cf0800c0126c2588c48bf5713daa8846cb026e9e5c8276ec82b3bffint, 0xfad3c4d864f86d127953716ae09ed9d9235efbd8f83ae2f7ce49831007e0209871236189336c16e6c2012d8dd13566int, 0x688bf9a4aac8eae758a7f0aa2abd22cf0dfc20f46835f37eb48f2f8690b6fda82787e6b2843071234ef208570266e7eint, den_cube_3_1(x), den_sq_0_1(x), den_cube_4_0(x), den_cube_3_2(x), den_sq_0_2(x), den_cube_4_1(x));
    lemma_horner_level(x, 0x94440f65f408a6e930e16e3e92dd17bf60d6e9679a8d3d58593de55ac23703042d609537eb3549aac234d896ca82944int, 0x7429043b18d33216ead2d10d711aa17f011fe7faa31235b1edf7d2e2856171b80d701cd187784874955dc3e264dd94fint, 0x8ca8d548cff19ae18b2e62f4bd3fa6f01d5ef4ba35b48ba9c9588617fc8ac62b558d681be343df8993cf9fa40d21b1cint, 0x0int, 0x321fc8eca7124380b8a686c5acf60c4d69ab45d94c0f4fbe6c67c07b2371fbd65bff99361e95ef005a3a6cc790d8263int, den_cube_3_0(x), den_sq_0_0(x), times(x, den_cube_4_0(x)), den_cube_3_1(x), den_sq_0_1(x), den_cube_4_0(x));
    lemma_product_level(x, 0x94440f65f408a6e930e16e3e92dd17bf60d6e9679a8d3d58593de55ac23703042d609537eb3549aac234d896ca82944int, den_root_3(x), den_root_4(x), den_sq_0_0(x), den_cube_3_0(x), den_cube_4_0(x));
}

pub(crate) proof fn lemma_den_cube_step_2(x: int)
    ensures
        congruent(den_cube_2_0(x), times(den_root_2(x), den_sq_0_0(x))),
{
    lemma_times_zero(x);
    lemma_den_cube_step_3(x);
    lemma_congruent_refl(den_cube_3_10(x), 0x1335c502c1f54c49aceea65e87fd7203ba0f626f305fc0cfd606a5dae9f3c8e81a4b3b69600129fabd307c69bf319d39int * 0int + den_cube_3_10(x));
    lemma_horner_level(x, 0x1335c502c1f54c49aceea65e87fd7203ba0f626f305fc0cfd606a5dae9f3c8e81a4b3b69600129fabd307c69bf319d39int, 0xad6b9514c767fe3c3613144b45f1496543346d98adf02267d5ceef9a00d9b8693000763e3b90ac11e99b138573345ccint, 0x1int, 0x11a20638c4011a34618e329c6fad4f69fe9b2fef4e0454160e871bbfaccac8c29760cbf9350be0c61b6834ce9801533eint, 0x1int, den_cube_2_10(x), den_sq_5_5(x), den_cube_3_9(x), den_cube_3_10(x), 0int, den_cube_3_10(x));
    lemma_horner_level(x, 0x1335c502c1f54c49aceea65e87fd7203ba0f626f305fc0cfd606a5dae9f3c8e81a4b3b69600129fabd307c69bf319d39int, 0x8682adc57e54652157826d152f094e8fba99294b3578968932283391907c13d89d9495178aef6fd3131cf8cfb0498e2int, 0x95fc13ab9e92ad4476d6e3eb3a56680f682b4ee96f7d03776df533978f31c1593174e4b4b7865002d6384d168ecdd0aint, 0x1786746d7141e9d9a003c86c29f658652da6ebb2d0eaf960fc03583e5a8daae014398876c04f813e96d85292c050fdfbint, 0x6ecc4a0b9839255e1a1ef988e484c68a9dff5993d4b5e0bd13195e68be0a6153b59cf8ecfe2ae9984a5318fba813af9int, den_cube_2_9(x), den_sq_4_5(x), den_cube_3_8(x), den_cube_2_10(x), den_sq_5_5(x), den_cube_3_9(x));
    lemma_horner_level(x, 0x1335c502c1f54c49aceea65e87fd7203ba0f626f305fc0cfd606a5dae9f3c8e81a4b3b69600129fabd307c69bf319d39int, 0xde2f644a4b11b8e2f994642f471fa79f315002312b34b6b0ed95984a8c489191350808e5dd8bbfbb9c722ac123447f5int, 0xa10ecf6ada54f825e920b3dafc7a3cce07f8d1d7161366b74100da67f39883503826692abba43704776ec3a79a1d641int, 0xf0ee41457c4d90cc13e6360fcf237b1a3ae3f06b5e95fec804b55698faebd525e95e4d670b32278941be4ee5c3bbf56int, 0x76fa63777066081cedb7e858fcb850064ad2ddbfab4d117121a0be81d52d1880d6ad6f20d6c092e0bee4f5a7d431a8eint, den_cube_2_8(x), den_sq_3_5(x), den_cube_3_7(x), den_cube_2_9(x), den_sq_4_5(x), den_cube_3_8(x));
    lemma_horner_level(x, 0x1335c502c1f54c49aceea65e87fd7203ba0f626f305fc0cfd606a5dae9f3c8e81a4b3b69600129fabd307c69bf319d39int, 0x3ab849d844b2066927c4d6f08db3ff77a003ef1e56d4af0c47cd317eb1814b057cd234a5f58b139c21dba041c7c4b15int, 0x14a7ac2a9d64a8b230b3f5b074cf01996e7f63c21bca68a81996e1cdf9822c580fa5b9489d11e2d311f7d99bbdcc5a5eint, 0x11516da70acbbe22c1e33df6bef7f11f386a25fc1617a872ad9fe79e04011442e0ef10adbd83b808fdbcdeeadff1310dint, 0xf4227fb8deea22ee9edbeabcc42f01e8044a3e5c8c28f77ed76f6059df7bf0742a7d1cfa123ff8ca2c6d70356ce00b2int, den_cube_2_7(x), den_sq_2_5(x), den_cube_3_6(x), den_cube_2_8(x), den_sq_3_5(x), den_cube_3_7(x));
    lemma_horner_level(x, 0x1335c502c1f54c49aceea65e87fd7203ba0f626f305fc0cfd606a5dae9f3c8e81a4b3b69600129fabd307c69bf319d39int, 0x6c38a281e4c2cf9c85d6201dc9aca764391564e4dba50d8f441c9a7c315d700f660f48e45945f9c1f4d2f4800af221int, 0x772caacf16936190f3e0c63e0596721570f5799af53a1894e2e073062aede9cea73b3538f0de06cec2574496ee84a3aint, 0x1077dd1b32a15b4c58d72afa94e2dab25bfc089558d1f6e29f5f4754b14c65f29bec95dea83a88f63fa3825974f559aint, 0x5809a1de358b0e3ad8b9b32e4db5992d97c77b1098be189ac33221fa1e21294f4b1a5a7910f4629bfcbd490a1fe7529int, den_cube_2_6(x), den_sq_1_5(x), den_cube_3_5(x), den_cube_2_7(x), den_sq_2_5(x), den_cube_3_6(x));
    lemma_horner_level(x, 0x1335c502c1f54c49aceea65e87fd7203ba0f626f305fc0cfd606a5dae9f3c8e81a4b3b69600129fabd307c69bf319d39int, 0x1847977c370c97b6c3ddf34dc4242feff9b24591f96aae7d44d7993b38af78e27fd8680ea29ccec7e12cd39fde4512b0int, 0xe7355f8e4e667b955390f7f0506c6e9395735e9ce9cad4d0a43bcef24b8982f7400d24bc4228f11c02df9a29f6304a5int, 0x120bf878f0a0e896d0d669d51db13f1c64f3839a6c2d4f67184abdd231ba9569c460fdc4dfca6723fe7d6824508f39fbint, 0xaacce59ed77c7878a1708b428cd9d9faba0898521a1161340061d96a019215a95743f74c1311a993bdc6d1a1a652318int, den_cube_2_5(x), den_sq_0_5(x), den_cube_3_4(x), den_cube_2_6(x), den_sq_1_5(x), den_cube_3_5(x));
    lemma_horner_level(x, 0x1335c502c1f54c49aceea65e87fd7203ba0f626f305fc0cfd606a5dae9f3c8e81a4b3b69600129fabd307c69bf319d39int, 0x18e1ac0af5a41d006b9d20b91ef970e3b1d26a783ac064f0750797898c4fca9c7c0d40dfc9c16b149a3153a2992116abint, 0x13a8e162022914a80a6f1d5f43e7a07dffdfc759a12062bb8d6b44e833b306da9bd29ba81f35781d539d395b3532a21eint, 0xf26cb1a8031e955b03b92224b53870210ec3bfcbc5532e25cd54182b7e8941eeddb21ae74618bd4901c58ffdaf4f2b8int, 0xe85ef1398482f4a302649297e1bc8dd1373128eb156fb57fc078dd57b9dc9725f660fd20f38cb600acfe6bcc3fe1031int, den_cube_2_4(x), den_sq_0_4(x), den_cube_3_3(x), den_cube_2_5(x), den_sq_0_5(x), den_cube_3_4(x));
    lemma_horner_level(x, 0x1335c502c1f54c49aceea65e87fd7203ba0f626f305fc0cfd606a5dae9f3c8e81a4b3b69600129fabd307c69bf319d39int, 0x5c407a474e563a381ea7a5ee5bed000b3f86347089b7352928927a57800f43154e8ffe1f057a9b319727ebc32f54d09int, 0x3425581a58ae2fec83aafef7c40eb545b08243f16b1655154cca8abc28d6fd04976d5243eecf5c4130de8938dc62cd8int, 0x10d9b0ab523f98630bfab7ed2fecb60408cc3e7d38a68e5910b8f54a1bc4049b9fc2d65c005e0f51c7c156b84642bb23int, 0x26858ba5c4d847b669c579c516406d9ede9a37921f996e1c5ef64ad26c8ee1f4ae16be7604ce1a80828cdb66867a696int, den_cube_2_3(x), den_sq_0_3(x), den_cube_3_2(x), den_cube_2_4(x), den_sq_0_4(x), den_cube_3_3(x));
    lemma_horner_level(x, 0x1335c502c1f54c49aceea65e87fd7203ba0f626f305fc0cfd606a5dae9f3c8e81a4b3b69600129fabd307c69bf319d39int, 0x82545bd4edb6ea57ec483a1d68cb52bee4b7f91890500c7b28d8cf12d34c622c004802de2a38e33bf8b7afe2203c5dfint, 0xb2962fe57a3225e8137e629bff2991f6f89416f5a718cd1fca64e00b11aceacd6a3d0967c94fedcfcc239ba5cb83e19int, 0x4f3b7e3470be4f0e10064247cf157bd01c7546925ee5384dc7ab539fb18b5528e1130a2bfb5651a1f1ebb5a98b381f8int, 0x83ed57deded485d057c4d5d0d41ee79f2ec950487a63d296f66db782cb46e7c6794ae2209e091153fa1276e98b9adfeint, den_cube_2_2(x), den_sq_0_2(x), den_cube_3_1(x), den_cube_2_3(x), den_sq_0_3(x), den_cube_3_2(x));
    lemma_horner_level(x, 0x1335c502c1f54c49aceea65e87fd7203ba0f626f305fc0cfd606a5dae9f3c8e81a4b3b69600129fabd307c69bf319d39int, 0x18d944c43aab286867baa74277d1dc00c51f61f1ff172ef123a52142bdb786614a749219fff113b2413e0d44a85031e1int, 0x12561a5deb559c4348b4711298e536367041e8ca0cf0800c0126c2588c48bf5713daa8846cb026e9e5c8276ec82b3bffint, 0x7429043b18d33216ead2d10d711aa17f011fe7faa31235b1edf7d2e2856171b80d701cd187784874955dc3e264dd94fint, 0xd8bab542ad6c166408fb5bb9634cdc63deb3425767f4a11fabdf962b3142779051e8ff615724dbced38ce5e2348329fint, den_cube_2_1(x), den_sq_0_1(x), den_cube_3_0(x), den_cube_2_2(x), den_sq_0_2(x), den_cube_3_1(x));
    lemma_horner_level(x, 0x1335c502c1f54c49aceea65e87fd7203ba0f626f305fc0cfd606a5dae9f3c8e81a4b3b69600129fabd307c69bf319d39int, 0xada549df13ff40ed311e547ca403c3c86ffbe11a0a4120cdf314204be92e55025f724ca80a2363b1a96707dcbe20ff2int, 0x8ca8d548cff19ae18b2e62f4bd3fa6f01d5ef4ba35b48ba9c9588617fc8ac62b558d681be343df8993cf9fa40d21b1cint, 0x0int, 0x67e8c37344e6a7065337df8f420b57568dae58c162bba2395633d411f892f3a682f64242af510b87130c63e25846fdeint, den_cube_2_0(x), den_sq_0_0(x), times(x, den_cube_3_0(x)), den_cube_2_1(x), den_sq_0_1(x), den_cube_3_0(x));
    lemma_product_level(x, 0x1335c502c1f54c49aceea65e87fd7203ba0f626f305fc0cfd606a5dae9f3c8e81a4b3b69600129fabd307c69bf319d39int, den_root_2(x), den_root_3(x), den_sq_0_0(x), den_cube_2_0(x), den_cube_3_0(x));
}

pub(crate) proof fn lemma_den_cube_step_1(x: int)
    ensures
        congruent(den_cube_1_0(x), times(den_root_1(x), den_sq_0_0(x))),
{
    lemma_times_zero(x);
    lemma_den_cube_step_2(x);
    lemma_congruent_refl(den_cube_2_10(x), 0x264908af037bcede00d054cf5d4775e83eb6cf63c76b969f8ed174fb59fcff78d201f46f6cfc4ed6552e59ce75177b0int * 0int + den_cube_2_10(x));
    lemma_horner_level(x, 0x264908af037bcede00d054cf5d4775e83eb6cf63c76b969f8ed174fb59fcff78d201f46f6cfc4ed6552e59ce75177b0int, 0xaccbb67481d033ff5852c1e48c50c477f94ff8aefce42d28c0f9a88cea7913516f968986f7ebbea9684b529e2561092int, 0x1int, 0x8682adc57e54652157826d152f094e8fba99294b3578968932283391907c13d89d9495178aef6fd3131cf8cfb0498e2int, 0x0int, den_cube_1_10(x), den_sq_5_5(x), den_cube_2_9(x), den_cube_2_10(x), 0int, den_cube_2_10(x));
    lemma_horner_level(x, 0x264908af037bcede00d054cf5d4775e83eb6cf63c76b969f8ed174fb59fcff78d201f46f6cfc4ed6552e59ce75177b0int, 0xba0c2491ec1490ae3bb6dba0e709d4ff7d7e357139ab4db186db2dcdaad67e29391413e16702d538f38bad404e8a74cint, 0x95fc13ab9e92ad4476d6e3eb3a56680f682b4ee96f7d03776df533978f31c1593174e4b4b7865002d6384d168ecdd0aint, 0xde2f644a4b11b8e2f994642f471fa79f315002312b34b6b0ed95984a8c489191350808e5dd8bbfbb9c722ac123447f5int, 0xdcd18fec259cc9a762b24850f24deed939a99beeabc036cfa5d143b701cf353a0ff030384af8573e9361ff7bc2b89bint, den_cube_1_9(x), den_sq_4_5(x), den_cube_2_8(x), den_cube_1_10(x), den_sq_5_5(x), den_cube_2_9(x));
    lemma_horner_level(x, 0x264908af037bcede00d054cf5d4775e83eb6cf63c76b969f8ed174fb59fcff78d201f46f6cfc4ed6552e59ce75177b0int, 0x1996038dea3b7e42978a6aa86d7a5af79b84a091a78d0cdfa74523abab61161fd9a9ce73885333c864573189fd4e7ef9int, 0xa10ecf6ada54f825e920b3dafc7a3cce07f8d1d7161366b74100da67f39883503826692abba43704776ec3a79a1d641int, 0x3ab849d844b2066927c4d6f08db3ff77a003ef1e56d4af0c47cd317eb1814b057cd234a5f58b139c21dba041c7c4b15int, 0xed1f1153a2df061de6e9d6677817eb2ad7ea5954caab00f94deb9db46803cb7819994286a33365668e384b2f32ef64int, den_cube_1_8(x), den_sq_3_5(x), den_cube_2_7(x), den_cube_1_9(x), den_sq_4_5(x), den_cube_2_8(x));
    lemma_horner_level(x, 0x264908af037bcede00d054cf5d4775e83eb6cf63c76b969f8ed174fb59fcff78d201f46f6cfc4ed6552e59ce75177b0int, 0x17c9c7e4ca8fe4823cc4704628978e4ba350360eec297dfc0d0e66f106c918596e5bbd5355d158edd5f6303d27e4938dint, 0x14a7ac2a9d64a8b230b3f5b074cf01996e7f63c21bca68a81996e1cdf9822c580fa5b9489d11e2d311f7d99bbdcc5a5eint, 0x6c38a281e4c2cf9c85d6201dc9aca764391564e4dba50d8f441c9a7c315d700f660f48e45945f9c1f4d2f4800af221int, 0x1e68e7b213a316e58085adf541e49b8795d451debfa56c32353f5714b7e34f81092de8f2ed00589c9c8014648c8939cint, den_cube_1_7(x), den_sq_2_5(x), den_cube_2_6(x), den_cube_1_8(x), den_sq_3_5(x), den_cube_2_7(x));
    lemma_horner_level(x, 0x264908af037bcede00d054cf5d4775e83eb6cf63c76b969f8ed174fb59fcff78d201f46f6cfc4ed6552e59ce75177b0int, 0xdedbefd6d1d6cfad6184fa7436f450a0df5b237d4b24a3d212343576c0c21f6d2239342ce9e3f2e0b0c8091ed1a1634int, 0x772caacf16936190f3e0c63e0596721570f5799af53a1894e2e073062aede9cea73b3538f0de06cec2574496ee84a3aint, 0x1847977c370c97b6c3ddf34dc4242feff9b24591f96aae7d44d7993b38af78e27fd8680ea29ccec7e12cd39fde4512b0int, 0xaf752174e9cbe9d29c34441bde48b8f268eb0208204721830fdc6d3643c3f6cd93d2b5833fb688d4888ffce83eef14int, den_cube_1_6(x), den_sq_1_5(x), den_cube_2_5(x), den_cube_1_7(x), den_sq_2_5(x), den_cube_2_6(x));
    lemma_horner_level(x, 0x264908af037bcede00d054cf5d4775e83eb6cf63c76b969f8ed174fb59fcff78d201f46f6cfc4ed6552e59ce75177b0int, 0x41125c963573b647e36b0cbf14b997fe54a173f7502273d1626358e3a9bbca006f67bb379feab6e294d10a9b63430e7int, 0xe7355f8e4e667b955390f7f0506c6e9395735e9ce9cad4d0a43bcef24b8982f7400d24bc4228f11c02df9a29f6304a5int, 0x18e1ac0af5a41d006b9d20b91ef970e3b1d26a783ac064f0750797898c4fca9c7c0d40dfc9c16b149a3153a2992116abint, 0x15467003944d3b4e261c8200186a01e6b4fed250b99de3476ec5f003a43affcbee6fab2d3ef6976e7d2fa81eab55e9cint, den_cube_1_5(x), den_sq_0_5(x), den_cube_2_4(x), den_cube_1_6(x), den_sq_1_5(x), den_cube_2_5(x));
    lemma_horner_level(x, 0x264908af037bcede00d054cf5d4775e83eb6cf63c76b969f8ed174fb59fcff78d201f46f6cfc4ed6552e59ce75177b0int, 0x1055fd83e239c68f7bef6534716efa7c92435e5ed68c7252be171641bd02e66bb04df527d2d0e98c16994abb376984c7int, 0x13a8e162022914a80a6f1d5f43e7a07dffdfc759a12062bb8d6b44e833b306da9bd29ba81f35781d539d395b3532a21eint, 0x5c407a474e563a381ea7a5ee5bed000b3f86347089b7352928927a57800f43154e8ffe1f057a9b319727ebc32f54d09int, 0x1cf1c7f847987cd64e6ea72fa0b3cf84c1c43d2e1b38c3c370956cdcb11602b22bce03c31724ebacb217658ec458ca6int, den_cube_1_4(x), den_sq_0_4(x), den_cube_2_3(x), den_cube_1_5(x), den_sq_0_5(x), den_cube_2_4(x));
    lemma_horner_level(x, 0x264908af037bcede00d054cf5d4775e83eb6cf63c76b969f8ed174fb59fcff78d201f46f6cfc4ed6552e59ce75177b0int, 0xa6db535155d5b60e6dc08c8f83df5ab615e61b488787150b678329c7c64029451169e4824a8ddd84634e35324536678int, 0x3425581a58ae2fec83aafef7c40eb545b08243f16b1655154cca8abc28d6fd04976d5243eecf5c4130de8938dc62cd8int, 0x82545bd4edb6ea57ec483a1d68cb52bee4b7f91890500c7b28d8cf12d34c622c004802de2a38e33bf8b7afe2203c5dfint, 0x4cc5e5e80d60af0ffa36098b31790fd2afa8e8a9c0269feddb98cbda745866549db5e5f2ba5f10cab2c47fdb13d3b5int, den_cube_1_3(x), den_sq_0_3(x), den_cube_2_2(x), den_cube_1_4(x), den_sq_0_4(x), den_cube_2_3(x));
    lemma_horner_level(x, 0x264908af037bcede00d054cf5d4775e83eb6cf63c76b969f8ed174fb59fcff78d201f46f6cfc4ed6552e59ce75177b0int, 0x109d0f6ac6d5dea666c0f7227e55db90805bb0ef27f9938136e9d8b9f7ca07e8c5d3d10a5b6dff73d83d841575c0f391int, 0xb2962fe57a3225e8137e629bff2991f6f89416f5a718cd1fca64e00b11aceacd6a3d0967c94fedcfcc239ba5cb83e19int, 0x18d944c43aab286867baa74277d1dc00c51f61f1ff172ef123a52142bdb786614a749219fff113b2413e0d44a85031e1int, 0x106edb7c93970d64e0a0bab9b950a31c9143d5524802d12143cb22f224694969b849f4aab4adcbadf66fb6c0c81ab80int, den_cube_1_2(x), den_sq_0_2(x), den_cube_2_1(x), den_cube_1_3(x), den_sq_0_3(x), den_cube_2_2(x));
    lemma_horner_level(x, 0x264908af037bcede00d054cf5d4775e83eb6cf63c76b969f8ed174fb59fcff78d201f46f6cfc4ed6552e59ce75177b0int, 0xa2faec923eb371cfec7a98556fc028d61d2cd2a8d7e4f3e186863a4aaf64b65b2c9d918c4e6becacad70aa5b29d51ccint, 0x12561a5deb559c4348b4711298e536367041e8ca0cf0800c0126c2588c48bf5713daa8846cb026e9e5c8276ec82b3bffint, 0xada549df13ff40ed311e547ca403c3c86ffbe11a0a4120cdf314204be92e55025f724ca80a2363b1a96707dcbe20ff2int, 0x1aff02006fcfa4f5a01fd2e3f8233c14163f224d407d3b7d3b82ea90a5e5d991a72453e738afaab26294ddc41139362int, den_cube_1_1(x), den_sq_0_1(x), den_cube_2_0(x), den_cube_1_2(x), den_sq_0_2(x), den_cube_2_1(x));
    lemma_horner_level(x, 0x264908af037bcede00d054cf5d4775e83eb6cf63c76b969f8ed174fb59fcff78d201f46f6cfc4ed6552e59ce75177b0int, 0x11214dc21f005792cc62cc60d7afa72ff8bfde7eb718a2c95945f1fd4e56f21687c5620206e234bc4efc5ab964c318f8int, 0x8ca8d548cff19ae18b2e62f4bd3fa6f01d5ef4ba35b48ba9c9588617fc8ac62b558d681be343df8993cf9fa40d21b1cint, 0x0int, 0xcf16e2644c74091c3efcb6ea82d402a3b1944766d578ce1a04ca3b7c17f546d37d72b4d5fe155ecf6033a9b548aad8int, den_cube_1_0(x), den_sq_0_0(x), times(x, den_cube_2_0(x)), den_cube_1_1(x), den_sq_0_1(x), den_cube_2_0(x));
    lemma_product_level(x, 0x264908af037bcede00d054cf5d4775e83eb6cf63c76b969f8ed174fb59fcff78d201f46f6cfc4ed6552e59ce75177b0int, den_root_1(x), den_root_2(x), den_sq_0_0(x), den_cube_1_0(x), den_cube_2_0(x));
}

pub(crate) proof fn lemma_den_cube_step_0(x: int)
    ensures
        congruent(den_cube_0_0(x), times(den_root_0(x), den_sq_0_0(x))),
{
    lemma_times_zero(x);
    lemma_den_cube_step_1(x);
    lemma_congruent_refl(den_cube_1_10(x), 0x133341fb0962a34cb0504a9c4fada0a5090d38679b4c040d5d1c3afb023a3409fcc0815fea66d8b02bbef9c8b5a66e07int * 0int + den_cube_1_10(x));
    lemma_horner_level(x, 0x133341fb0962a34cb0504a9c4fada0a5090d38679b4c040d5d1c3afb023a3409fcc0815fea66d8b02bbef9c8b5a66e07int, 0x4d2f259eea405bd48f010a01ad2911d9c6dd039bb61a6290e591b36e636a5c871a5c29f4f83060400f8b49cba8f6aa8int, 0x1int, 0xba0c2491ec1490ae3bb6dba0e709d4ff7d7e357139ab4db186db2dcdaad67e29391413e16702d538f38bad404e8a74cint, 0x1int, den_cube_0_10(x), den_sq_5_5(x), den_cube_1_9(x), den_cube_1_10(x), 0int, den_cube_1_10(x));
    lemma_horner_level(x, 0x133341fb0962a34cb0504a9c4fada0a5090d38679b4c040d5d1c3afb023a3409fcc0815fea66d8b02bbef9c8b5a66e07int, 0x167a55cda70a6e1cea820597d94a84903216f763e13d87bb5308592e7ea7d4fbc7385ea3d529b35e346ef48bb8913f55int, 0x95fc13ab9e92ad4476d6e3eb3a56680f682b4ee96f7d03776df533978f31c1593174e4b4b7865002d6384d168ecdd0aint, 0x1996038dea3b7e42978a6aa86d7a5af79b84a091a78d0cdfa74523abab61161fd9a9ce73885333c864573189fd4e7ef9int, 0x6ebdcd3b2b24879a3ce2ff3103298fb8e73b1d3beaf356b9ecb0742eb9882a5793e3ab970cfb71096e4073eb6c6c4beint, den_cube_0_9(x), den_sq_4_5(x), den_cube_1_8(x), den_cube_0_10(x), den_sq_5_5(x), den_cube_1_9(x));
    lemma_horner_level(x, 0x133341fb0962a34cb0504a9c4fada0a5090d38679b4c040d5d1c3afb023a3409fcc0815fea66d8b02bbef9c8b5a66e07int, 0x1866c8ed336c61231a1be54fd1d74cc4f9fb0ce4c6af5920abc5750c4bf39b4852cfe2f7bb9248836b233d9d55535d4aint, 0xa10ecf6ada54f825e920b3dafc7a3cce07f8d1d7161366b74100da67f39883503826692abba43704776ec3a79a1d641int, 0x17c9c7e4ca8fe4823cc4704628978e4ba350360eec297dfc0d0e66f106c918596e5bbd5355d158edd5f6303d27e4938dint, 0x76ead4d5db1959b6cf36d1189e37fe7706fc155b8a2144594fe42dee3a9656ec619d75ccefe5075bddd08ceb9ba001eint, den_cube_0_8(x), den_sq_3_5(x), den_cube_1_7(x), den_cube_0_9(x), den_sq_4_5(x), den_cube_1_8(x));
    lemma_horner_level(x, 0x133341fb0962a34cb0504a9c4fada0a5090d38679b4c040d5d1c3afb023a3409fcc0815fea66d8b02bbef9c8b5a66e07int, 0x16a3ef08be3ea7ea03bcddfabba6ff6ee5a4375efa1f4fd7feb34fd206357132b920f5b00801dee460ee415a15812ed9int, 0x14a7ac2a9d64a8b230b3f5b074cf01996e7f63c21bca68a81996e1cdf9822c580fa5b9489d11e2d311f7d99bbdcc5a5eint, 0xdedbefd6d1d6cfad6184fa7436f450a0df5b237d4b24a3d212343576c0c21f6d2239342ce9e3f2e0b0c8091ed1a1634int, 0xf40293a3b19c251e4443118ad07599ceaa25d6cdf5d891d381132380c0b22a165b8abccdb2b5ad28f4e194afdae4bc7int, den_cube_0_7(x), den_sq_2_5(x), den_cube_1_6(x), den_cube_0_8(x), den_sq_3_5(x), den_cube_1_7(x));
    lemma_horner_level(x, 0x133341fb0962a34cb0504a9c4fada0a5090d38679b4c040d5d1c3afb023a3409fcc0815fea66d8b02bbef9c8b5a66e07int, 0x166007c08a99db2fc3ba8734ace9824b5eecfdfa8d0cf8ef5dd365bc400a0051d5fa9c01a58b1fb93d1a1399126a775cint, 0x772caacf16936190f3e0c63e0596721570f5799af53a1894e2e073062aede9cea73b3538f0de06cec2574496ee84a3aint, 0x41125c963573b647e36b0cbf14b997fe54a173f7502273d1626358e3a9bbca006f67bb379feab6e294d10a9b63430e7int, 0x57fe1eed493c47cceed40de854e94b58c67844d9a54dd309f8aa25656c44a173fdf1afe63d3d7b3acbebbc1e6510763int, den_cube_0_6(x), den_sq_1_5(x), den_cube_1_5(x), den_cube_0_7(x), den_sq_2_5(x), den_cube_1_6(x));
    lemma_horner_level(x, 0x133341fb0962a34cb0504a9c4fada0a5090d38679b4c040d5d1c3afb023a3409fcc0815fea66d8b02bbef9c8b5a66e07int, 0x8d9e5297186db2d9fb266eaac783182b70152c65550d881c5ecd87b6f0f5a6449f38db9dfa9cce202c6477faaf9b7acint, 0xe7355f8e4e667b955390f7f0506c6e9395735e9ce9cad4d0a43bcef24b8982f7400d24bc4228f11c02df9a29f6304a5int, 0x1055fd83e239c68f7bef6534716efa7c92435e5ed68c7252be171641bd02e66bb04df527d2d0e98c16994abb376984c7int, 0xaab6904ebc5a9399e4957857e2d4835e36b960ef7eccb9ebe0b9848c1cb9486cd6e6e6e3db417f580f76fefdb3f7adaint, den_cube_0_5(x), den_sq_0_5(x), den_cube_1_4(x), den_cube_0_6(x), den_sq_1_5(x), den_cube_1_5(x));
    lemma_horner_level(x, 0x133341fb0962a34cb0504a9c4fada0a5090d38679b4c040d5d1c3afb023a3409fcc0815fea66d8b02bbef9c8b5a66e07int, 0xbe0e079545f43e4b00cc912f8228ddcc6d19c9f0f69bbb0542eda0fc9dec916a20b15dc0fd2ededda39142311a5001dint, 0x13a8e162022914a80a6f1d5f43e7a07dffdfc759a12062bb8d6b44e833b306da9bd29ba81f35781d539d395b3532a21eint, 0xa6db535155d5b60e6dc08c8f83df5ab615e61b488787150b678329c7c64029451169e4824a8ddd84634e35324536678int, 0xe8408eec25cd2adf2392caa74fc333c007e19bc04423e6f280316cfca0af11447c2ba7065d77e27b5831d5c06102b87int, den_cube_0_4(x), den_sq_0_4(x), den_cube_1_3(x), den_cube_0_5(x), den_sq_0_5(x), den_cube_1_4(x));
    lemma_horner_level(x, 0x133341fb0962a34cb0504a9c4fada0a5090d38679b4c040d5d1c3afb023a3409fcc0815fea66d8b02bbef9c8b5a66e07int, 0x16b7d288798e5395f20d23bf89edb4d1d115c5dbddbcd30e123da489e726af41727364f2c28297ada8d26d98445f5416int, 0x3425581a58ae2fec83aafef7c40eb545b08243f16b1655154cca8abc28d6fd04976d5243eecf5c4130de8938dc62cd8int, 0x109d0f6ac6d5dea666c0f7227e55db90805bb0ef27f9938136e9d8b9f7ca07e8c5d3d10a5b6dff73d83d841575c0f391int, 0x2680822fcc9fff60422e5989eb992a5385904ec0280466b84efa32ce302cf9fd08bcc530719242f68761ec30b8dfc29int, den_cube_0_3(x), den_sq_0_3(x), den_cube_1_2(x), den_cube_0_4(x), den_sq_0_4(x), den_cube_1_3(x));
    lemma_horner_level(x, 0x133341fb0962a34cb0504a9c4fada0a5090d38679b4c040d5d1c3afb023a3409fcc0815fea66d8b02bbef9c8b5a66e07int, 0x58df3306640da276faaae7d6e8eb15778c4855551ae7f310c35a5dd279cd2eca6757cd636f96f891e2538b53dbf67f2int, 0xb2962fe57a3225e8137e629bff2991f6f89416f5a718cd1fca64e00b11aceacd6a3d0967c94fedcfcc239ba5cb83e19int, 0xa2faec923eb371cfec7a98556fc028d61d2cd2a8d7e4f3e186863a4aaf64b65b2c9d918c4e6becacad70aa5b29d51ccint, 0x83dc17c9a34c15c059aac281d0f25d27b3a05fee2dfa2a4e14b64c60b2a1fe46e334367ef6488b1487972585d000f9bint, den_cube_0_2(x), den_sq_0_2(x), den_cube_1_1(x), den_cube_0_3(x), den_sq_0_3(x), den_cube_1_2(x));
    lemma_horner_level(x, 0x133341fb0962a34cb0504a9c4fada0a5090d38679b4c040d5d1c3afb023a3409fcc0815fea66d8b02bbef9c8b5a66e07int, 0x1962d75c2381201e1a0cbd6c43c348b885c84ff731c4d59ca4a10356f453e01f78a4260763529e3532f6102c2e49a03dint, 0x12561a5deb559c4348b4711298e536367041e8ca0cf0800c0126c2588c48bf5713daa8846cb026e9e5c8276ec82b3bffint, 0x11214dc21f005792cc62cc60d7afa72ff8bfde7eb718a2c95945f1fd4e56f21687c5620206e234bc4efc5ab964c318f8int, 0xd89e5e89a97392fa87885b250c6ec23693aa9ca6245fa77adab8331e4fb6f8f889e0b815dec74a9812b22436d790c1cint, den_cube_0_1(x), den_sq_0_1(x), den_cube_1_0(x), den_cube_0_2(x), den_sq_0_2(x), den_cube_1_1(x));
    lemma_horner_level(x, 0x133341fb0962a34cb0504a9c4fada0a5090d38679b4c040d5d1c3afb023a3409fcc0815fea66d8b02bbef9c8b5a66e07int, 0x16112c4c3a9c98b252181140fad0eae9601a6de578980be6eec3232b5be72e7a07f3688ef60c206d01479253b03663c1int, 0x8ca8d548cff19ae18b2e62f4bd3fa6f01d5ef4ba35b48ba9c9588617fc8ac62b558d681be343df8993cf9fa40d21b1cint, 0x0int, 0x67db2d3a7edf5e05256bf0e61b3286a1e2cd6e59ed7a05d6a6064683b1482f59a0484fee30911704cb3be005e0c2609int, den_cube_0_0(x), den_sq_0_0(x), times(x, den_cube_1_0(x)), den_cube_0_1(x), den_sq_0_1(x), den_cube_1_0(x));
    lemma_product_level(x, 0x133341fb0962a34cb0504a9c4fada0a5090d38679b4c040d5d1c3afb023a3409fcc0815fea66d8b02bbef9c8b5a66e07int, den_root_0(x), den_root_1(x), den_sq_0_0(x), den_cube_0_0(x), den_cube_1_0(x));
}

pub(crate) proof fn lemma_den_sixth_step_15(x: int)
    ensures
        congruent(den_sixth_15_0(x), times(den_cube_5_10(x), den_cube_0_0(x))),
{
    lemma_times_zero(x);
    lemma_congruent_refl(0int, 0x1int * 0int + 0int);
    lemma_horner_level(x, 0x1int, 0x1int, 0x1int, 0x0int, 0x0int, den_sixth_15_15(x), den_cube_5_10(x), 0int, 0int, 0int, 0int);
    lemma_horner_level(x, 0x1int, 0xe0fa1d816ddc03e6b24255e0d7819c171c40f65e273b853324efcd6356caa205ca2f570f13497804415473a1d634b8fint, 0xe0fa1d816ddc03e6b24255e0d7819c171c40f65e273b853324efcd6356caa205ca2f570f13497804415473a1d634b8fint, 0x0int, 0x0int, den_sixth_15_14(x), den_cube_4_10(x), 0int, den_sixth_15_15(x), den_cube_5_10(x), 0int);
    lemma_horner_level(x, 0x1int, 0x2660400eb2e4f3b628bdd0d53cd76f2bf565b94e72927c1cb748df27942480e420517bd8714cc80d1fadc1326ed06f7int, 0x2660400eb2e4f3b628bdd0d53cd76f2bf565b94e72927c1cb748df27942480e420517bd8714cc80d1fadc1326ed06f7int, 0x0int, 0x0int, den_sixth_15_13(x), den_cube_3_10(x), 0int, den_sixth_15_14(x), den_cube_4_10(x), 0int);
    lemma_horner_level(x, 0x1int, 0xad6b9514c767fe3c3613144b45f1496543346d98adf02267d5ceef9a00d9b8693000763e3b90ac11e99b138573345ccint, 0xad6b9514c767fe3c3613144b45f1496543346d98adf02267d5ceef9a00d9b8693000763e3b90ac11e99b138573345ccint, 0x0int, 0x0int, den_sixth_15_12(x), den_cube_2_10(x), 0int, den_sixth_15_13(x), den_cube_3_10(x), 0int);
    lemma_horner_level(x, 0x1int, 0xaccbb67481d033ff5852c1e48c50c477f94ff8aefce42d28c0f9a88cea7913516f968986f7ebbea9684b529e2561092int, 0xaccbb67481d033ff5852c1e48c50c477f94ff8aefce42d28c0f9a88cea7913516f968986f7ebbea9684b529e2561092int, 0x0int, 0x0int, den_sixth_15_11(x), den_cube_1_10(x), 0int, den_sixth_15_12(x), den_cube_2_10(x), 0int);
    lemma_horner_level(x, 0x1int, 0x4d2f259eea405bd48f010a01ad2911d9c6dd039bb61a6290e591b36e636a5c871a5c29f4f83060400f8b49cba8f6aa8int, 0x4d2f259eea405bd48f010a01ad2911d9c6dd039bb61a6290e591b36e636a5c871a5c29f4f83060400f8b49cba8f6aa8int, 0x0int, 0x0int, den_sixth_15_10(x), den_cube_0_10(x), 0int, den_sixth_15_11(x), den_cube_1_10(x), 0int);
    lemma_horner_level(x, 0x1int, 0x167a55cda70a6e1cea820597d94a84903216f763e13d87bb5308592e7ea7d4fbc7385ea3d529b35e346ef48bb8913f55int, 0x167a55cda70a6e1cea820597d94a84903216f763e13d87bb5308592e7ea7d4fbc7385ea3d529b35e346ef48bb8913f55int, 0x0int, 0x0int, den_sixth_15_9(x), den_cube_0_9(x), 0int, den_sixth_15_10(x), den_cube_0_10(x), 0int);
    lemma_horner_level(x, 0x1int, 0x1866c8ed336c61231a1be54fd1d74cc4f9fb0ce4c6af5920abc5750c4bf39b4852cfe2f7bb9248836b233d9d55535d4aint, 0x1866c8ed336c61231a1be54fd1d74cc4f9fb0ce4c6af5920abc5750c4bf39b4852cfe2f7bb9248836b233d9d55535d4aint, 0x0int, 0x0int, den_sixth_15_8(x), den_cube_0_8(x), 0int, den_sixth_15_9(x), den_cube_0_9(x), 0int);
    lemma_horner_level(x, 0x1int, 0x16a3ef08be3ea7ea03bcddfabba6ff6ee5a4375efa1f4fd7feb34fd206357132b920f5b00801dee460ee415a15812ed9int, 0x16a3ef08be3ea7ea03bcddfabba6ff6ee5a4375efa1f4fd7feb34fd206357132b920f5b00801dee460ee415a15812ed9int, 0x0int, 0x0int, den_sixth_15_7(x), den_cube_0_7(x), 0int, den_sixth_15_8(x), den_cube_0_8(x), 0int);
    lemma_horner_level(x, 0x1int, 0x166007c08a99db2fc3ba8734ace9824b5eecfdfa8d0cf8ef5dd365bc400a0051d5fa9c01a58b1fb93d1a1399126a775cint, 0x166007c08a99db2fc3ba8734ace9824b5eecfdfa8d0cf8ef5dd365bc400a0051d5fa9c01a58b1fb93d1a1399126a775cint, 0x0int, 0x0int, den_sixth_15_6(x), den_cube_0_6(x), 0int, den_sixth_15_7(x), den_cube_0_7(x), 0int);
    lemma_horner_level(x, 0x1int, 0x8d9e5297186db2d9fb266eaac783182b70152c65550d881c5ecd87b6f0f5a6449f38db9dfa9cce202c6477faaf9b7acint, 0x8d9e5297186db2d9fb266eaac783182b70152c65550d881c5ecd87b6f0f5a6449f38db9dfa9cce202c6477faaf9b7acint, 0x0int, 0x0int, den_sixth_15_5(x), den_cube_0_5(x), 0int, den_sixth_15_6(x), den_cube_0_6(x), 0int);
    lemma_horner_level(x, 0x1int, 0xbe0e079545f43e4b00cc912f8228ddcc6d19c9f0f69bbb0542eda0fc9dec916a20b15dc0fd2ededda39142311a5001dint, 0xbe0e079545f43e4b00cc912f8228ddcc6d19c9f0f69bbb0542eda0fc9dec916a20b15dc0fd2ededda39142311a5001dint, 0x0int, 0x0int, den_sixth_15_4(x), den_cube_0_4(x), 0int, den_sixth_15_5(x), den_cube_0_5(x), 0int);
    lemma_horner_level(x, 0x1int, 0x16b7d288798e5395f20d23bf89edb4d1d115c5dbddbcd30e123da489e726af41727364f2c28297ada8d26d98445f5416int, 0x16b7d288798e5395f20d23bf89edb4d1d115c5dbddbcd30e123da489e726af41727364f2c28297ada8d26d98445f5416int, 0x0int, 0x0int, den_sixth_15_3(x), den_cube_0_3(x), 0int, den_sixth_15_4(x), den_cube_0_4(x), 0int);
    lemma_horner_level(x, 0x1int, 0x58df3306640da276faaae7d6e8eb15778c4855551ae7f310c35a5dd279cd2eca6757cd636f96f891e2538b53dbf67f2int, 0x58df3306640da276faaae7d6e8eb15778c4855551ae7f310c35a5dd279cd2eca6757cd636f96f891e2538b53dbf67f2int, 0x0int, 0x0int, den_sixth_15_2(x), den_cube_0_2(x), 0int, den_sixth_15_3(x), den_cube_0_3(x), 0int);
    lemma_horner_level(x, 0x1int, 0x1962d75c2381201e1a0cbd6c43c348b885c84ff731c4d59ca4a10356f453e01f78a4260763529e3532f6102c2e49a03dint, 0x1962d75c2381201e1a0cbd6c43c348b885c84ff731c4d59ca4a10356f453e01f78a4260763529e3532f6102c2e49a03dint, 0x0int, 0x0int, den_sixth_15_1(x), den_cube_0_1(x), 0int, den_sixth_15_2(x), den_cube_0_2(x), 0int);
    lemma_horner_level(x, 0x1int, 0x16112c4c3a9c98b252181140fad0eae9601a6de578980be6eec3232b5be72e7a07f3688ef60c206d01479253b03663c1int, 0x16112c4c3a9c98b252181140fad0eae9601a6de578980be6eec3232b5be72e7a07f3688ef60c206d01479253b03663c1int, 0x0int, 0x0int, den_sixth_15_0(x), den_cube_0_0(x), times(x, 0int), den_sixth_15_1(x), den_cube_0_1(x), 0int);
    lemma_times_zero(den_cube_0_0(x));
    lemma_congruent_refl(0int, times(0int, den_cube_0_0(x)));
    lemma_product_level(x, 0x1int, den_cube_5_10(x), 0int, den_cube_0_0(x), den_sixth_15_0(x), 0int);
}

pub(crate) proof fn lemma_den_sixth_step_14(x: int)
    ensures
        congruent(den_sixth_14_0(x), times(den_cube_4_10(x), den_cube_0_0(x))),
{
    lemma_times_zero(x);
    lemma_den_sixth_step_15(x);
    lemma_congruent_refl(den_sixth_15_15(x), 0xe0fa1d816ddc03e6b24255e0d7819c171c40f65e273b853324efcd6356caa205ca2f570f13497804415473a1d634b8fint * 0int + den_sixth_15_15(x));
    lemma_horner_level(x, 0xe0fa1d816ddc03e6b24255e0d7819c171c40f65e273b853324efcd6356caa205ca2f570f13497804415473a1d634b8fint, 0x21e31c5f43b99e28b2ca305d7a486ab7f10d346d1625de6fd6d270b74285e1c9a99eae331152f00ce2b8e743ac6ec73int, 0x1int, 0xe0fa1d816ddc03e6b24255e0d7819c171c40f65e273b853324efcd6356caa205ca2f570f13497804415473a1d634b8fint, 0x1int, den_sixth_14_15(x), den_cube_5_10(x), den_sixth_15_14(x), den_sixth_15_15(x), 0int, den_sixth_15_15(x));
    lemma_horner_level(x, 0xe0fa1d816ddc03e6b24255e0d7819c171c40f65e273b853324efcd6356caa205ca2f570f13497804415473a1d634b8fint, 0x434fd18fff412d940039d54e67c84f584466d98304464c3b131dea9bbdd10f30a920b02bc01389268aab677c9c9a879int, 0xe0fa1d816ddc03e6b24255e0d7819c171c40f65e273b853324efcd6356caa205ca2f570f13497804415473a1d634b8fint, 0x2660400eb2e4f3b628bdd0d53cd76f2bf565b94e72927c1cb748df27942480e420517bd8714cc80d1fadc1326ed06f7int, 0x79a67977e4f04d5e4cf2c861ccdfd71ddb3644c628d0b4c7336e53b1e92d5d38c9dd238d6f65e57e7d75558473c691dint, den_sixth_14_14(x), den_cube_4_10(x), den_sixth_15_13(x), den_sixth_14_15(x), den_cube_5_10(x), den_sixth_15_14(x));
    lemma_horner_level(x, 0xe0fa1d816ddc03e6b24255e0d7819c171c40f65e273b853324efcd6356caa205ca2f570f13497804415473a1d634b8fint, 0xf6f878a04076f04cdde2f089aa2dafd8d5ab74655ac84171986f92b3c6c43fa55e5ae6c8890ef9f25200b72ab078162int, 0x2660400eb2e4f3b628bdd0d53cd76f2bf565b94e72927c1cb748df27942480e420517bd8714cc80d1fadc1326ed06f7int, 0xad6b9514c767fe3c3613144b45f1496543346d98adf02267d5ceef9a00d9b8693000763e3b90ac11e99b138573345ccint, 0x14c033367c2e978d64addcb845ba3f5226ddf51a0df0e7ef426b5c40edb7b5e0e7956b3766b46a45745306ba88f1029int, den_sixth_14_13(x), den_cube_3_10(x), den_sixth_15_12(x), den_sixth_14_14(x), den_cube_4_10(x), den_sixth_15_13(x));
    lemma_horner_level(x, 0xe0fa1d816ddc03e6b24255e0d7819c171c40f65e273b853324efcd6356caa205ca2f570f13497804415473a1d634b8fint, 0x1748181cd643a1e8afab7d88118463412bbdd9446aa23cc730b70b0120d14fa7051effb3228dddb38aa20b4fa6541a9aint, 0xad6b9514c767fe3c3613144b45f1496543346d98adf02267d5ceef9a00d9b8693000763e3b90ac11e99b138573345ccint, 0xaccbb67481d033ff5852c1e48c50c477f94ff8aefce42d28c0f9a88cea7913516f968986f7ebbea9684b529e2561092int, 0x5dc5b8b3dc644259855b60f64d13e8bf99191b424d8bef7cae1a66d429a10db6eb0e6f5b127dfb7ba97993357ba24c4int, den_sixth_14_12(x), den_cube_2_10(x), den_sixth_15_11(x), den_sixth_14_13(x), den_cube_3_10(x), den_sixth_15_12(x));
    lemma_horner_level(x, 0xe0fa1d816ddc03e6b24255e0d7819c171c40f65e273b853324efcd6356caa205ca2f570f13497804415473a1d634b8fint, 0x5261d8a572f6a236977e00ad5c32056549cba5c53a60536ed01722cd5e801ec625aae214bf7a26abbf7d8d48565b105int, 0xaccbb67481d033ff5852c1e48c50c477f94ff8aefce42d28c0f9a88cea7913516f968986f7ebbea9684b529e2561092int, 0x4d2f259eea405bd48f010a01ad2911d9c6dd039bb61a6290e591b36e636a5c871a5c29f4f83060400f8b49cba8f6aa8int, 0x5d6f46b9eb00413bc65812d4b8a529c4f1cdf221f36faa2db7539890e009f57c39f2b233a5d6c878d7c3669a93c4393int, den_sixth_14_11(x), den_cube_1_10(x), den_sixth_15_10(x), den_sixth_14_12(x), den_cube_2_10(x), den_sixth_15_11(x));
    lemma_horner_level(x, 0xe0fa1d816ddc03e6b24255e0d7819c171c40f65e273b853324efcd6356caa205ca2f570f13497804415473a1d634b8fint, 0xc661b022d3f6e84515224f13853f1824f209732b4e10d0772cf953a93dd9387f4b1a105192cbac836ebfc81ce7b660int, 0x4d2f259eea405bd48f010a01ad2911d9c6dd039bb61a6290e591b36e636a5c871a5c29f4f83060400f8b49cba8f6aa8int, 0x167a55cda70a6e1cea820597d94a84903216f763e13d87bb5308592e7ea7d4fbc7385ea3d529b35e346ef48bb8913f55int, 0x29bc3aaf181abe0f0a2a722483919c5e9a4e3216897c328140fb689600602f411f0f75ccd532704a39dd218555efe67int, den_sixth_14_10(x), den_cube_0_10(x), den_sixth_15_9(x), den_sixth_14_11(x), den_cube_1_10(x), den_sixth_15_10(x));
    lemma_horner_level(x, 0xe0fa1d816ddc03e6b24255e0d7819c171c40f65e273b853324efcd6356caa205ca2f570f13497804415473a1d634b8fint, 0x12f055d01f585229f404d851cefcabf90249353d3730506a31887dcdf237b20b289f62889a10e9d9309d6e649110ea8dint, 0x167a55cda70a6e1cea820597d94a84903216f763e13d87bb5308592e7ea7d4fbc7385ea3d529b35e346ef48bb8913f55int, 0x1866c8ed336c61231a1be54fd1d74cc4f9fb0ce4c6af5920abc5750c4bf39b4852cfe2f7bb9248836b233d9d55535d4aint, 0xc2780a6c84c56eeb257628657a8ddc38a06414feaf11fe1df9154d5887481800a77c48c5247bb25558216f1cc1d2ea8int, den_sixth_14_9(x), den_cube_0_9(x), den_sixth_15_8(x), den_sixth_14_10(x), den_cube_0_10(x), den_sixth_15_9(x));
    lemma_horner_level(x, 0xe0fa1d816ddc03e6b24255e0d7819c171c40f65e273b853324efcd6356caa205ca2f570f13497804415473a1d634b8fint, 0x400895a199653b112d5b2e2b98cba48ac784313a0b3231f74b3ed3c21c96d2f91b482c925c1be5ee8a6aec117853int, 0x1866c8ed336c61231a1be54fd1d74cc4f9fb0ce4c6af5920abc5750c4bf39b4852cfe2f7bb9248836b233d9d55535d4aint, 0x16a3ef08be3ea7ea03bcddfabba6ff6ee5a4375efa1f4fd7feb34fd206357132b920f5b00801dee460ee415a15812ed9int, 0xd31c811f7b04c90b6f45c7b9667f9d478e22347a1ba64d237b115e1ed853d5fc4e2f26ace103252bb8f9b99a16e8294int, den_sixth_14_8(x), den_cube_0_8(x), den_sixth_15_7(x), den_sixth_14_9(x), den_cube_0_9(x), den_sixth_15_8(x));
    lemma_horner_level(x, 0xe0fa1d816ddc03e6b24255e0d7819c171c40f65e273b853324efcd6356caa205ca2f570f13497804415473a1d634b8fint, 0x3f0b437255adb4398aa90ec10be547c7d37359c098e7f3ec75774cf1ee567789268d9e1c5415ea1a0ea064e5dda4b1cint, 0x16a3ef08be3ea7ea03bcddfabba6ff6ee5a4375efa1f4fd7feb34fd206357132b920f5b00801dee460ee415a15812ed9int, 0x166007c08a99db2fc3ba8734ace9824b5eecfdfa8d0cf8ef5dd365bc400a0051d5fa9c01a58b1fb93d1a1399126a775cint, 0xc3dfef00cd3db84c608b9fe8419a764825b8a6e0012271893bf1fa7267075fad485a95f9740c1025ff8a084897ebf65int, den_sixth_14_7(x), den_cube_0_7(x), den_sixth_15_6(x), den_sixth_14_8(x), den_cube_0_8(x), den_sixth_15_7(x));
    lemma_horner_level(x, 0xe0fa1d816ddc03e6b24255e0d7819c171c40f65e273b853324efcd6356caa205ca2f570f13497804415473a1d634b8fint, 0xfbff4bb27514822d28e5967a4640c5b7e92b8b43eb2d41483a8ce4f62e67ec39ada595a2b5ac2008ab1112613872a45int, 0x166007c08a99db2fc3ba8734ace9824b5eecfdfa8d0cf8ef5dd365bc400a0051d5fa9c01a58b1fb93d1a1399126a775cint, 0x8d9e5297186db2d9fb266eaac783182b70152c65550d881c5ecd87b6f0f5a6449f38db9dfa9cce202c6477faaf9b7acint, 0xc194764ccd27720fe0d1b771dc9e8e027f5c71eda3358db1aed849c5f30f745ca5460153f3d39fc2a9bb9237cc68961int, den_sixth_14_6(x), den_cube_0_6(x), den_sixth_15_5(x), den_sixth_14_7(x), den_cube_0_7(x), den_sixth_15_6(x));
    lemma_horner_level(x, 0xe0fa1d816ddc03e6b24255e0d7819c171c40f65e273b853324efcd6356caa205ca2f570f13497804415473a1d634b8fint, 0x3dbb10ea5a210c8b9a97d63a063a0d33fa194a98418e62330bcdad81a50e928586de78223b88f32da9f04ac8ed23d1dint, 0x8d9e5297186db2d9fb266eaac783182b70152c65550d881c5ecd87b6f0f5a6449f38db9dfa9cce202c6477faaf9b7acint, 0xbe0e079545f43e4b00cc912f8228ddcc6d19c9f0f69bbb0542eda0fc9dec916a20b15dc0fd2ededda39142311a5001dint, 0x4c938daf3d09158a5bbc2c933c905392c79c69596cb94450bff3d6418256cd324575f378656c7392a83b2cb5227403cint, den_sixth_14_5(x), den_cube_0_5(x), den_sixth_15_4(x), den_sixth_14_6(x), den_cube_0_6(x), den_sixth_15_5(x));
    lemma_horner_level(x, 0xe0fa1d816ddc03e6b24255e0d7819c171c40f65e273b853324efcd6356caa205ca2f570f13497804415473a1d634b8fint, 0x15a722542fcf92a8f75fdd0c6eb7cc34ad4cfb9a17f83728538b811f62b9b5aa86492167f56536cc068742bb768ffe1bint, 0xbe0e079545f43e4b00cc912f8228ddcc6d19c9f0f69bbb0542eda0fc9dec916a20b15dc0fd2ededda39142311a5001dint, 0x16b7d288798e5395f20d23bf89edb4d1d115c5dbddbcd30e123da489e726af41727364f2c28297ada8d26d98445f5416int, 0x66c45cdcd43c51c1f9b77560b9e72610063b05bb8e891d36de783f55026db95ea86dbd12d798f9f362a7e41ac37af8aint, den_sixth_14_4(x), den_cube_0_4(x), den_sixth_15_3(x), den_sixth_14_5(x), den_cube_0_5(x), den_sixth_15_4(x));
    lemma_horner_level(x, 0xe0fa1d816ddc03e6b24255e0d7819c171c40f65e273b853324efcd6356caa205ca2f570f13497804415473a1d634b8fint, 0xf11b8ebe33c5124887ece9e5f35964145417b5666f08b1d9b3e8fbea288e9020046a05707895e5989223917cb8c18e1int, 0x16b7d288798e5395f20d23bf89edb4d1d115c5dbddbcd30e123da489e726af41727364f2c28297ada8d26d98445f5416int, 0x58df3306640da276faaae7d6e8eb15778c4855551ae7f310c35a5dd279cd2eca6757cd636f96f891e2538b53dbf67f2int, 0xc48c00781624adb42a8024ed7c3c010ea2b8ffb59cacb6975f1852b9f899eb3e54b7eff8db3fa2d87528f12e6d82c11int, den_sixth_14_3(x), den_cube_0_3(x), den_sixth_15_2(x), den_sixth_14_4(x), den_cube_0_4(x), den_sixth_15_3(x));
    lemma_horner_level(x, 0xe0fa1d816ddc03e6b24255e0d7819c171c40f65e273b853324efcd6356caa205ca2f570f13497804415473a1d634b8fint, 0x1c3dbfb8b8aa65403f98bb4727e2b7dac0319bd79ab5f7ffdaf406e0fa1ba8789a8f28f70e2eed4edd711b2bd1275b2int, 0x58df3306640da276faaae7d6e8eb15778c4855551ae7f310c35a5dd279cd2eca6757cd636f96f891e2538b53dbf67f2int, 0x1962d75c2381201e1a0cbd6c43c348b885c84ff731c4d59ca4a10356f453e01f78a4260763529e3532f6102c2e49a03dint, 0x300e19f36abef0606960ed1783c6cb3c2191e5e526069201460d0dac2d77438759c1d245daaaa61bd713df83faf622bint, den_sixth_14_2(x), den_cube_0_2(x), den_sixth_15_1(x), den_sixth_14_3(x), den_cube_0_3(x), den_sixth_15_2(x));
    lemma_horner_level(x, 0xe0fa1d816ddc03e6b24255e0d7819c171c40f65e273b853324efcd6356caa205ca2f570f13497804415473a1d634b8fint, 0xb5fd9d3e1376e4795580d450b00bba28949655f81a4b453129701ca1b5cb8e6c3bff5fda8cce1d731d0f3c7b2edd2d0int, 0x1962d75c2381201e1a0cbd6c43c348b885c84ff731c4d59ca4a10356f453e01f78a4260763529e3532f6102c2e49a03dint, 0x16112c4c3a9c98b252181140fad0eae9601a6de578980be6eec3232b5be72e7a07f3688ef60c206d01479253b03663c1int, 0xdba130289eb6c2a221ba06d670a4010e038401f394a5efa7289124fb63c68a51cc59cdeca9dc0c7e208e493b6e1d60cint, den_sixth_14_1(x), den_cube_0_1(x), den_sixth_15_0(x), den_sixth_14_2(x), den_cube_0_2(x), den_sixth_15_1(x));
    lemma_horner_level(x, 0xe0fa1d816ddc03e6b24255e0d7819c171c40f65e273b853324efcd6356caa205ca2f570f13497804415473a1d634b8fint, 0xa8b48d75422ca47308b6d84ee7b7ebbb07f81738ad48cca727a6915442193879757a5f84c34a7681a19dfb1c0835baaint, 0x16112c4c3a9c98b252181140fad0eae9601a6de578980be6eec3232b5be72e7a07f3688ef60c206d01479253b03663c1int, 0x0int, 0xbeea3919b13eb2caf1d2417beb7d1361329226ce55c12232405aedac2ce0b8f848f72b736c07531dbd253d6e19fb86fint, den_sixth_14_0(x), den_cube_0_0(x), times(x, den_sixth_15_0(x)), den_sixth_14_1(x), den_cube_0_1(x), den_sixth_15_0(x));
    lemma_product_level(x, 0xe0fa1d816ddc03e6b24255e0d7819c171c40f65e273b853324efcd6356caa205ca2f570f13497804415473a1d634b8fint, den_cube_4_10(x), den_cube_5_10(x), den_cube_0_0(x), den_sixth_14_0(x), den_sixth_15_0(x));
}

pub(crate) proof fn lemma_den_sixth_step_13(x: int)
    ensures
        congruent(den_sixth_13_0(x), times(den_cube_3_10(x), den_cube_0_0(x))),
{
    lemma_times_zero(x);
    lemma_den_sixth_step_14(x);
    lemma_congruent_refl(den_sixth_14_15(x), 0x2660400eb2e4f3b628bdd0d53cd76f2bf565b94e72927c1cb748df27942480e420517bd8714cc80d1fadc1326ed06f7int * 0int + den_sixth_14_15(x));
    lemma_horner_level(x, 0x2660400eb2e4f3b628bdd0d53cd76f2bf565b94e72927c1cb748df27942480e420517bd8714cc80d1fadc1326ed06f7int, 0x69b0119eb226214a28f7a623a49fbe8439cc92d176d8c857ca66c9c351f59014c9722c0431605133aa5928af0b6af70int, 0x1int, 0x434fd18fff412d940039d54e67c84f584466d98304464c3b131dea9bbdd10f30a920b02bc01389268aab677c9c9a879int, 0x0int, den_sixth_13_15(x), den_cube_5_10(x), den_sixth_14_14(x), den_sixth_14_15(x), 0int, den_sixth_14_15(x));
    lemma_horner_level(x, 0x2660400eb2e4f3b628bdd0d53cd76f2bf565b94e72927c1cb748df27942480e420517bd8714cc80d1fadc1326ed06f7int, 0x140855c2bb985e25d85b2ccc80e6a164c68227b3207a0607b5b1035cd8caec6e18cb55752d68d47d2ba665acfedbbcf8int, 0xe0fa1d816ddc03e6b24255e0d7819c171c40f65e273b853324efcd6356caa205ca2f570f13497804415473a1d634b8fint, 0xf6f878a04076f04cdde2f089aa2dafd8d5ab74655ac84171986f92b3c6c43fa55e5ae6c8890ef9f25200b72ab078162int, 0x14c033367c2e978d64addcb845ba3f5226ddf51a0df0e7ef426b5c40edb7b5e0e7956b3766b46a45745306ba88f1029int, den_sixth_13_14(x), den_cube_4_10(x), den_sixth_14_13(x), den_sixth_13_15(x), den_cube_5_10(x), den_sixth_14_14(x));
    lemma_horner_level(x, 0x2660400eb2e4f3b628bdd0d53cd76f2bf565b94e72927c1cb748df27942480e420517bd8714cc80d1fadc1326ed06f7int, 0x162f463baf7e1afb51eb2cd2e3c12571b5e2818fa1f7e0ce73f2c9a6d5a7352e3e225773c3c583e5b40e959be127f6eeint, 0x2660400eb2e4f3b628bdd0d53cd76f2bf565b94e72927c1cb748df27942480e420517bd8714cc80d1fadc1326ed06f7int, 0x1748181cd643a1e8afab7d88118463412bbdd9446aa23cc730b70b0120d14fa7051effb3228dddb38aa20b4fa6541a9aint, 0x38a2410ffd85664b5df954a9bb2b819176eed0e9e011e6dab4c919ecdc95e57da00e92a43ad2e1f1d9adbdee0ef1f7int, den_sixth_13_13(x), den_cube_3_10(x), den_sixth_14_12(x), den_sixth_13_14(x), den_cube_4_10(x), den_sixth_14_13(x));
    lemma_horner_level(x, 0x2660400eb2e4f3b628bdd0d53cd76f2bf565b94e72927c1cb748df27942480e420517bd8714cc80d1fadc1326ed06f7int, 0x10f106236bf85eccc91d5c7deb1e7b3778eb6f1fca3e3701a858246853e8c6cda98ff167f9f282c81f21b739869e9fa1int, 0xad6b9514c767fe3c3613144b45f1496543346d98adf02267d5ceef9a00d9b8693000763e3b90ac11e99b138573345ccint, 0x5261d8a572f6a236977e00ad5c32056549cba5c53a60536ed01722cd5e801ec625aae214bf7a26abbf7d8d48565b105int, 0xffed4f0fec8506551bc05780a54a1fd251431ece439510938b0571bc95160c6aee206ef8932c11dcf315d143e293a8int, den_sixth_13_12(x), den_cube_2_10(x), den_sixth_14_11(x), den_sixth_13_13(x), den_cube_3_10(x), den_sixth_14_12(x));
    lemma_horner_level(x, 0x2660400eb2e4f3b628bdd0d53cd76f2bf565b94e72927c1cb748df27942480e420517bd8714cc80d1fadc1326ed06f7int, 0xae3f6c1ea79abf1fc9e08e02b6c47ad12ca2fd48247f68676d264d583a982a45fdd04fc9944c0e55ad4254048c04d45int, 0xaccbb67481d033ff5852c1e48c50c477f94ff8aefce42d28c0f9a88cea7913516f968986f7ebbea9684b529e2561092int, 0xc661b022d3f6e84515224f13853f1824f209732b4e10d0772cf953a93dd9387f4b1a105192cbac836ebfc81ce7b660int, 0xff01611b5c471d6c48e06a7b5fae435bd99c29b70f561d2839f9d8ef7304b7678d74aa6f61dfef34fa58d02c2775ebint, den_sixth_13_11(x), den_cube_1_10(x), den_sixth_14_10(x), den_sixth_13_12(x), den_cube_2_10(x), den_sixth_14_11(x));
    lemma_horner_level(x, 0x2660400eb2e4f3b628bdd0d53cd76f2bf565b94e72927c1cb748df27942480e420517bd8714cc80d1fadc1326ed06f7int, 0x540828f92e4b0cddefc4e5f64de2a3110b6f66a4424514bcdc7540971c3e8f55548dccfd32334ca1a8e543d20cc594int, 0x4d2f259eea405bd48f010a01ad2911d9c6dd039bb61a6290e591b36e636a5c871a5c29f4f83060400f8b49cba8f6aa8int, 0x12f055d01f585229f404d851cefcabf90249353d3730506a31887dcdf237b20b289f62889a10e9d9309d6e649110ea8dint, 0x71e7cbd3c9793d4e1fcfd9586bb425f508e82aff473966ca5015b4a6ff1499782257927a788742f7599ed75376f733int, den_sixth_13_10(x), den_cube_0_10(x), den_sixth_14_9(x), den_sixth_13_11(x), den_cube_1_10(x), den_sixth_14_10(x));
    lemma_horner_level(x, 0x2660400eb2e4f3b628bdd0d53cd76f2bf565b94e72927c1cb748df27942480e420517bd8714cc80d1fadc1326ed06f7int, 0x2d1c70b3517b2f71ae558f7c295303b7a2f23d1f2c32965d7ed9e5f57cd8161f5a6a071ee81bd40af4462dbe584ce8int, 0x167a55cda70a6e1cea820597d94a84903216f763e13d87bb5308592e7ea7d4fbc7385ea3d529b35e346ef48bb8913f55int, 0x400895a199653b112d5b2e2b98cba48ac784313a0b3231f74b3ed3c21c96d2f91b482c925c1be5ee8a6aec117853int, 0x212c075178c01a6f469cbd99a50b9af0bb6246de9c70fd22a44bd761c4727933c2c7132bc61fa17791a880f8868cd4aint, den_sixth_13_9(x), den_cube_0_9(x), den_sixth_14_8(x), den_sixth_13_10(x), den_cube_0_10(x), den_sixth_14_9(x));
    lemma_horner_level(x, 0x2660400eb2e4f3b628bdd0d53cd76f2bf565b94e72927c1cb748df27942480e420517bd8714cc80d1fadc1326ed06f7int, 0x8d9e6aa25105da294c6e6b7dec2173ae9e4763e916f16b108fba04707ecccd6eac61a632c412502406fb0d5f3430c62int, 0x1866c8ed336c61231a1be54fd1d74cc4f9fb0ce4c6af5920abc5750c4bf39b4852cfe2f7bb9248836b233d9d55535d4aint, 0x3f0b437255adb4398aa90ec10be547c7d37359c098e7f3ec75774cf1ee567789268d9e1c5415ea1a0ea064e5dda4b1cint, 0x2402c4600e52cc621b95cdc82fb5f3dcd2408295e813565685656bd9bddbaf4af661984c63270fc32a12ae61a87f760int, den_sixth_13_8(x), den_cube_0_8(x), den_sixth_14_7(x), den_sixth_13_9(x), den_cube_0_9(x), den_sixth_14_8(x));
    lemma_horner_level(x, 0x2660400eb2e4f3b628bdd0d53cd76f2bf565b94e72927c1cb748df27942480e420517bd8714cc80d1fadc1326ed06f7int, 0x80cf6b04769fa136b2008575435b935ac68d26b92eb226ae03c608f064955ee37562944e56677fe8b60dae7501c861cint, 0x16a3ef08be3ea7ea03bcddfabba6ff6ee5a4375efa1f4fd7feb34fd206357132b920f5b00801dee460ee415a15812ed9int, 0xfbff4bb27514822d28e5967a4640c5b7e92b8b43eb2d41483a8ce4f62e67ec39ada595a2b5ac2008ab1112613872a45int, 0x21696b0c1df81d1bcdf267941ebd932d14bc3f6af542d684b9580044a49ec33dd7a1a8ed1068969f4b76ab525bec898int, den_sixth_13_7(x), den_cube_0_7(x), den_sixth_14_6(x), den_sixth_13_8(x), den_cube_0_8(x), den_sixth_14_7(x));
    lemma_horner_level(x, 0x2660400eb2e4f3b628bdd0d53cd76f2bf565b94e72927c1cb748df27942480e420517bd8714cc80d1fadc1326ed06f7int, 0x79fdd39277a9b27518c2639e41c98301874550316469c21786ea6a13da3aec1ee2eb0a90ae360eea808cadd06fd2686int, 0x166007c08a99db2fc3ba8734ace9824b5eecfdfa8d0cf8ef5dd365bc400a0051d5fa9c01a58b1fb93d1a1399126a775cint, 0x3dbb10ea5a210c8b9a97d63a063a0d33fa194a98418e62330bcdad81a50e928586de78223b88f32da9f04ac8ed23d1dint, 0x2105357648fafa9787cf2d3740c1c2816820a32c4eff9734f68842af6d65ba71c88c4bd9624ffdaa8e190c513a43911int, den_sixth_13_6(x), den_cube_0_6(x), den_sixth_14_5(x), den_sixth_13_7(x), den_cube_0_7(x), den_sixth_14_6(x));
    lemma_horner_level(x, 0x2660400eb2e4f3b628bdd0d53cd76f2bf565b94e72927c1cb748df27942480e420517bd8714cc80d1fadc1326ed06f7int, 0x7e8be2bb219211013a97ac07022fdbd6e7cd461b34a7a36b406348992d23e2705a4ed8037dd26f99be31e091dd546b0int, 0x8d9e5297186db2d9fb266eaac783182b70152c65550d881c5ecd87b6f0f5a6449f38db9dfa9cce202c6477faaf9b7acint, 0x15a722542fcf92a8f75fdd0c6eb7cc34ad4cfb9a17f83728538b811f62b9b5aa86492167f56536cc068742bb768ffe1bint, 0xd0febf78681cba97cf1da9d3d973e56552b0f759f5dfbad726968678b5c9ca64c62bf29c39fc8d2ffdd90617bbe31dint, den_sixth_13_5(x), den_cube_0_5(x), den_sixth_14_4(x), den_sixth_13_6(x), den_cube_0_6(x), den_sixth_14_5(x));
    lemma_horner_level(x, 0x2660400eb2e4f3b628bdd0d53cd76f2bf565b94e72927c1cb748df27942480e420517bd8714cc80d1fadc1326ed06f7int, 0xb6393de1bcb57833fc01f0161349d122bdf9a1cf432b63a0dfa8216db3a2a7fc0d46299dadaf2dbbb7d0a05225c71a7int, 0xbe0e079545f43e4b00cc912f8228ddcc6d19c9f0f69bbb0542eda0fc9dec916a20b15dc0fd2ededda39142311a5001dint, 0xf11b8ebe33c5124887ece9e5f35964145417b5666f08b1d9b3e8fbea288e9020046a05707895e5989223917cb8c18e1int, 0x11879c358299506fbb5eaaea75ea3138411d5582b5b39bd5b05151c43bab6cadbc3ec666914b1967fbeca113654539fint, den_sixth_13_4(x), den_cube_0_4(x), den_sixth_14_3(x), den_sixth_13_5(x), den_cube_0_5(x), den_sixth_14_4(x));
    lemma_horner_level(x, 0x2660400eb2e4f3b628bdd0d53cd76f2bf565b94e72927c1cb748df27942480e420517bd8714cc80d1fadc1326ed06f7int, 0x1794bcf0a09be78f3f35023849da253a3a24623a16968517c184dd13e0e9c078243c82af9674c8e02351419eafa5bfe5int, 0x16b7d288798e5395f20d23bf89edb4d1d115c5dbddbcd30e123da489e726af41727364f2c28297ada8d26d98445f5416int, 0x1c3dbfb8b8aa65403f98bb4727e2b7dac0319bd79ab5f7ffdaf406e0fa1ba8789a8f28f70e2eed4edd711b2bd1275b2int, 0x2186c4e3323fa9715d33a1366d51f4735254978f089969754849e8d6413ab56a1921927fcba748ffc9b52302a4d1115int, den_sixth_13_3(x), den_cube_0_3(x), den_sixth_14_2(x), den_sixth_13_4(x), den_cube_0_4(x), den_sixth_14_3(x));
    lemma_horner_level(x, 0x2660400eb2e4f3b628bdd0d53cd76f2bf565b94e72927c1cb748df27942480e420517bd8714cc80d1fadc1326ed06f7int, 0x14cb4ece80b80a0285b98d58dd47f8a9f07d1ceaf38042446160182b66986927a65fe5272ab9d1b1f58a184975acfcfaint, 0x58df3306640da276faaae7d6e8eb15778c4855551ae7f310c35a5dd279cd2eca6757cd636f96f891e2538b53dbf67f2int, 0xb5fd9d3e1376e4795580d450b00bba28949655f81a4b453129701ca1b5cb8e6c3bff5fda8cce1d731d0f3c7b2edd2d0int, 0x83275a62ac499b165267f17adcb4c8cc7bd6f4e389e44b1ba60ec35be24f02dc056dd5dc8e95c6245cff66c23364fcint, den_sixth_13_2(x), den_cube_0_2(x), den_sixth_14_1(x), den_sixth_13_3(x), den_cube_0_3(x), den_sixth_14_2(x));
    lemma_horner_level(x, 0x2660400eb2e4f3b628bdd0d53cd76f2bf565b94e72927c1cb748df27942480e420517bd8714cc80d1fadc1326ed06f7int, 0xd433d9a2177ff97f07266c6faee4584f0adbe2306d782bd1b7561ac7e59bb0620e1d8a5abebc9495630b7ef60a31a8eint, 0x1962d75c2381201e1a0cbd6c43c348b885c84ff731c4d59ca4a10356f453e01f78a4260763529e3532f6102c2e49a03dint, 0xa8b48d75422ca47308b6d84ee7b7ebbb07f81738ad48cca727a6915442193879757a5f84c34a7681a19dfb1c0835baaint, 0x2576be06e4851e5e5ab5b0ba12ff727d456cc63e71579e88bdbd486b4097a5f199e5ac82fcf5cd5247c05285951dde5int, den_sixth_13_1(x), den_cube_0_1(x), den_sixth_14_0(x), den_sixth_13_2(x), den_cube_0_2(x), den_sixth_14_1(x));
    lemma_horner_level(x, 0x2660400eb2e4f3b628bdd0d53cd76f2bf565b94e72927c1cb748df27942480e420517bd8714cc80d1fadc1326ed06f7int, 0x17336fb544d73171deb6b430e98b9cdd966df9d773c28034815d2d0549ed1dad21e564ec71b032109f0f4a7a901b440int, 0x16112c4c3a9c98b252181140fad0eae9601a6de578980be6eec3232b5be72e7a07f3688ef60c206d01479253b03663c1int, 0x0int, 0x2090d5960c4b030bc16b5df144d9ae59ef376c27b5da794ce2856fe2a72956996a62a790532627335661177175932e5int, den_sixth_13_0(x), den_cube_0_0(x), times(x, den_sixth_14_0(x)), den_sixth_13_1(x), den_cube_0_1(x), den_sixth_14_0(x));
    lemma_product_level(x, 0x2660400eb2e4f3b628bdd0d53cd76f2bf565b94e72927c1cb748df27942480e420517bd8714cc80d1fadc1326ed06f7int, den_cube_3_10(x), den_cube_4_10(x), den_cube_0_0(x), den_sixth_13_0(x), den_sixth_14_0(x));
}

pub(crate) proof fn lemma_den_sixth_step_12(x: int)
    ensures
        congruent(den_sixth_12_0(x), times(den_cube_2_10(x), den_cube_0_0(x))),
{
    lemma_times_zero(x);
    lemma_den_sixth_step_13(x);
    lemma_congruent_refl(den_sixth_13_15(x), 0xad6b9514c767fe3c3613144b45f1496543346d98adf02267d5ceef9a00d9b8693000763e3b90ac11e99b138573345ccint * 0int + den_sixth_13_15(x));
    lemma_horner_level(x, 0xad6b9514c767fe3c3613144b45f1496543346d98adf02267d5ceef9a00d9b8693000763e3b90ac11e99b138573345ccint, 0x4ddfd29ce8ef76f50a0b65af1fa0923b63e2307b7d3f56ecbdd1fb5822791d08d1f5cda5fcddf3e904116e5560f5819int, 0x1int, 0x140855c2bb985e25d85b2ccc80e6a164c68227b3207a0607b5b1035cd8caec6e18cb55752d68d47d2ba665acfedbbcf8int, 0x1int, den_sixth_12_15(x), den_cube_5_10(x), den_sixth_13_14(x), den_sixth_13_15(x), 0int, den_sixth_13_15(x));
    lemma_horner_level(x, 0xad6b9514c767fe3c3613144b45f1496543346d98adf02267d5ceef9a00d9b8693000763e3b90ac11e99b138573345ccint, 0x8a991070424d309c0f5d6866934cf93fd940fc42946c803b169677e311ffd7c0d9bee8fc580a5aeee2cebc1a526564bint, 0xe0fa1d816ddc03e6b24255e0d7819c171c40f65e273b853324efcd6356caa205ca2f570f13497804415473a1d634b8fint, 0x162f463baf7e1afb51eb2cd2e3c12571b5e2818fa1f7e0ce73f2c9a6d5a7352e3e225773c3c583e5b40e959be127f6eeint, 0x5dc5b8b3dc644259855b60f64d13e8bf99191b424d8bef7cae1a66d429a10db6eb0e6f5b127dfb7ba97993357ba24c5int, den_sixth_12_14(x), den_cube_4_10(x), den_sixth_13_13(x), den_sixth_12_15(x), den_cube_5_10(x), den_sixth_13_14(x));
    lemma_horner_level(x, 0xad6b9514c767fe3c3613144b45f1496543346d98adf02267d5ceef9a00d9b8693000763e3b90ac11e99b138573345ccint, 0x2badcd247416cdbdda7313abd2e294138c2d85e4d51560cfc7e0402db38958ad21934aff6996325c84c959e87d7e392int, 0x2660400eb2e4f3b628bdd0d53cd76f2bf565b94e72927c1cb748df27942480e420517bd8714cc80d1fadc1326ed06f7int, 0x10f106236bf85eccc91d5c7deb1e7b3778eb6f1fca3e3701a858246853e8c6cda98ff167f9f282c81f21b739869e9fa1int, 0xffed4f0fec8506551bc05780a54a1fd251431ece439510938b0571bc95160c6aee206ef8932c11dcf315d143e293a9int, den_sixth_12_13(x), den_cube_3_10(x), den_sixth_13_12(x), den_sixth_12_14(x), den_cube_4_10(x), den_sixth_13_13(x));
    lemma_horner_level(x, 0xad6b9514c767fe3c3613144b45f1496543346d98adf02267d5ceef9a00d9b8693000763e3b90ac11e99b138573345ccint, 0xcd1e2059473b6ad1f3315e574f68b26c624bb9ffd29cf12811f8c178da117e198581b5a0b45f5e5cdad4671e88b4dc0int, 0xad6b9514c767fe3c3613144b45f1496543346d98adf02267d5ceef9a00d9b8693000763e3b90ac11e99b138573345ccint, 0xae3f6c1ea79abf1fc9e08e02b6c47ad12ca2fd48247f68676d264d583a982a45fdd04fc9944c0e55ad4254048c04d45int, 0x484875afb8ba8169daf5682f2c0ebc290033e3885f5df59147288db70ce89288ac9eca629cee503b2c5b9188dccce3fint, den_sixth_12_12(x), den_cube_2_10(x), den_sixth_13_11(x), den_sixth_12_13(x), den_cube_3_10(x), den_sixth_13_12(x));
    lemma_horner_level(x, 0xad6b9514c767fe3c3613144b45f1496543346d98adf02267d5ceef9a00d9b8693000763e3b90ac11e99b138573345ccint, 0x14aaeeb12885f0ef7cad05a9205ed3d98409f12443f3c6e9c751b3002e3615faf876375c0b70e04202238af65e4509afint, 0xaccbb67481d033ff5852c1e48c50c477f94ff8aefce42d28c0f9a88cea7913516f968986f7ebbea9684b529e2561092int, 0x540828f92e4b0cddefc4e5f64de2a3110b6f66a4424514bcdc7540971c3e8f55548dccfd32334ca1a8e543d20cc594int, 0x4805d31e112e71d04c4a0fc8eba184aba2797b41c802381eebc328b0ab431a7e69ed1449912728f348467a7a875deb7int, den_sixth_12_11(x), den_cube_1_10(x), den_sixth_13_10(x), den_sixth_12_12(x), den_cube_2_10(x), den_sixth_13_11(x));
    lemma_horner_level(x, 0xad6b9514c767fe3c3613144b45f1496543346d98adf02267d5ceef9a00d9b8693000763e3b90ac11e99b138573345ccint, 0x3bd96535bd2796b195d38e9b0cbbce1ef4b7f18195dae318831a9381d789e97328c0cf5cd5d941681c087c82f8b3e40int, 0x4d2f259eea405bd48f010a01ad2911d9c6dd039bb61a6290e591b36e636a5c871a5c29f4f83060400f8b49cba8f6aa8int, 0x2d1c70b3517b2f71ae558f7c295303b7a2f23d1f2c32965d7ed9e5f57cd8161f5a6a071ee81bd40af4462dbe584ce8int, 0x202bc8325cb402659b9ef3152ff6d64cdcc58524875effdab79fe19d903c27d5b3e5443d604efaa315a90eca67ffd98int, den_sixth_12_10(x), den_cube_0_10(x), den_sixth_13_9(x), den_sixth_12_11(x), den_cube_1_10(x), den_sixth_13_10(x));
    lemma_horner_level(x, 0xad6b9514c767fe3c3613144b45f1496543346d98adf02267d5ceef9a00d9b8693000763e3b90ac11e99b138573345ccint, 0x685d52e0ce903158dc197076b97f009405a00af895daf66e24503b32b4319fbdd2b4500cca7f19786de1317f83c4d04int, 0x167a55cda70a6e1cea820597d94a84903216f763e13d87bb5308592e7ea7d4fbc7385ea3d529b35e346ef48bb8913f55int, 0x8d9e6aa25105da294c6e6b7dec2173ae9e4763e916f16b108fba04707ecccd6eac61a632c412502406fb0d5f3430c62int, 0x95e74cecd5dacd613d8a00572a24f69362bcac786967f1b446e437f1c8efe09fb0796875aca997a00a5364581a0604eint, den_sixth_12_9(x), den_cube_0_9(x), den_sixth_13_8(x), den_sixth_12_10(x), den_cube_0_10(x), den_sixth_13_9(x));
    lemma_horner_level(x, 0xad6b9514c767fe3c3613144b45f1496543346d98adf02267d5ceef9a00d9b8693000763e3b90ac11e99b138573345ccint, 0x307b876b19b2b39511ee3e500cf9e3764f46b0a37e1c5d7bd7c75471e2e76f7e66b735e8ee7f0480d2e3fca44c2bf00int, 0x1866c8ed336c61231a1be54fd1d74cc4f9fb0ce4c6af5920abc5750c4bf39b4852cfe2f7bb9248836b233d9d55535d4aint, 0x80cf6b04769fa136b2008575435b935ac68d26b92eb226ae03c608f064955ee37562944e56677fe8b60dae7501c861cint, 0xa2bb6aaaa0258b0f8ac716a8b2b69da3e0100ad5e32a2baafc9a5fa799394e0655460e901d315724078f231e93d303cint, den_sixth_12_8(x), den_cube_0_8(x), den_sixth_13_7(x), den_sixth_12_9(x), den_cube_0_9(x), den_sixth_13_8(x));
    lemma_horner_level(x, 0xad6b9514c767fe3c3613144b45f1496543346d98adf02267d5ceef9a00d9b8693000763e3b90ac11e99b138573345ccint, 0x13410ada30ec5c19bd509ee73c40c2f4ac64334461acc1477ba0525f162d278ec473c1b33d022938c0658b3e168b6d75int, 0x16a3ef08be3ea7ea03bcddfabba6ff6ee5a4375efa1f4fd7feb34fd206357132b920f5b00801dee460ee415a15812ed9int, 0x79fdd39277a9b27518c2639e41c98301874550316469c21786ea6a13da3aec1ee2eb0a90ae360eea808cadd06fd2686int, 0x96fcb7fa557076a2998f1cc646a69c0e5c8b5d4d85d731526bae87aac44ac9136ddc9820204e9f09fb2c6ae8cb2a0f7int, den_sixth_12_7(x), den_cube_0_7(x), den_sixth_13_6(x), den_sixth_12_8(x), den_cube_0_8(x), den_sixth_13_7(x));
    lemma_horner_level(x, 0xad6b9514c767fe3c3613144b45f1496543346d98adf02267d5ceef9a00d9b8693000763e3b90ac11e99b138573345ccint, 0xf211e1cdce091e295b26a3e32d61562d7b06758698699257879325314b2326506c4749cafeda1bce26d2267cda5efffint, 0x166007c08a99db2fc3ba8734ace9824b5eecfdfa8d0cf8ef5dd365bc400a0051d5fa9c01a58b1fb93d1a1399126a775cint, 0x7e8be2bb219211013a97ac07022fdbd6e7cd461b34a7a36b406348992d23e2705a4ed8037dd26f99be31e091dd546b0int, 0x9537dff5b2d49af0ed211a162cef1852f76b7decdf1aecc02df460a23da348e70155da19731cba14e4337ffef95c003int, den_sixth_12_6(x), den_cube_0_6(x), den_sixth_13_5(x), den_sixth_12_7(x), den_cube_0_7(x), den_sixth_13_6(x));
    lemma_horner_level(x, 0xad6b9514c767fe3c3613144b45f1496543346d98adf02267d5ceef9a00d9b8693000763e3b90ac11e99b138573345ccint, 0x112130dd57ae33fa3583465eef850cb43f4bb9d5f591e1b93b22fefe13aef495dc6c6f403d8e428b29d7fc22b13b3501int, 0x8d9e5297186db2d9fb266eaac783182b70152c65550d881c5ecd87b6f0f5a6449f38db9dfa9cce202c6477faaf9b7acint, 0xb6393de1bcb57833fc01f0161349d122bdf9a1cf432b63a0dfa8216db3a2a7fc0d46299dadaf2dbbb7d0a05225c71a7int, 0x3b071cdfe05c488880a9ea3b033dd356d37e17c7f9c1a220267c4c815641db16fcc1387779ad9167152654dfed0e122int, den_sixth_12_5(x), den_cube_0_5(x), den_sixth_13_4(x), den_sixth_12_6(x), den_cube_0_6(x), den_sixth_13_5(x));
    lemma_horner_level(x, 0xad6b9514c767fe3c3613144b45f1496543346d98adf02267d5ceef9a00d9b8693000763e3b90ac11e99b138573345ccint, 0x1cb629d138b665f5b7939845031df2e0ae79de15031178e8033c909d3536c1f8e318d4e58bf5de21733451ed2dc9b15int, 0xbe0e079545f43e4b00cc912f8228ddcc6d19c9f0f69bbb0542eda0fc9dec916a20b15dc0fd2ededda39142311a5001dint, 0x1794bcf0a09be78f3f35023849da253a3a24623a16968517c184dd13e0e9c078243c82af9674c8e02351419eafa5bfe5int, 0x4f376ac5cdb102b2fd70558f85ff7f1172a22d3ee368fd649dc4647d69432c0d1994a6340f9f2c8a8356c5cf90026c4int, den_sixth_12_4(x), den_cube_0_4(x), den_sixth_13_3(x), den_sixth_12_5(x), den_cube_0_5(x), den_sixth_13_4(x));
    lemma_horner_level(x, 0xad6b9514c767fe3c3613144b45f1496543346d98adf02267d5ceef9a00d9b8693000763e3b90ac11e99b138573345ccint, 0x8f0d262a80fbd14f16aae151b42e7630fbc86247830423e118565b406c1b8af3a6a09a431eed8236711ffe11f846a5eint, 0x16b7d288798e5395f20d23bf89edb4d1d115c5dbddbcd30e123da489e726af41727364f2c28297ada8d26d98445f5416int, 0x14cb4ece80b80a0285b98d58dd47f8a9f07d1ceaf38042446160182b66986927a65fe5272ab9d1b1f58a184975acfcfaint, 0x97815add7c33a540f947581e2643c9031d6cff77807ddc8b0c29b923e96d83a907a73d9c16d60f273110797c0ee866cint, den_sixth_12_3(x), den_cube_0_3(x), den_sixth_13_2(x), den_sixth_12_4(x), den_cube_0_4(x), den_sixth_13_3(x));
    lemma_horner_level(x, 0xad6b9514c767fe3c3613144b45f1496543346d98adf02267d5ceef9a00d9b8693000763e3b90ac11e99b138573345ccint, 0xe7d64096b0c5a0c5f3f22d5152af289155efcac2ed49cf65049a75e3247294808393fa956fad30ebc79d56ca11f5c9int, 0x58df3306640da276faaae7d6e8eb15778c4855551ae7f310c35a5dd279cd2eca6757cd636f96f891e2538b53dbf67f2int, 0xd433d9a2177ff97f07266c6faee4584f0adbe2306d782bd1b7561ac7e59bb0620e1d8a5abebc9495630b7ef60a31a8eint, 0x250ae52686573d4e95f9d8306ff20640e0b1d116155ccc1e77c8f2c2dea01902fec6fc4995e65fc82f541fb9acd9ad7int, den_sixth_12_2(x), den_cube_0_2(x), den_sixth_13_1(x), den_sixth_12_3(x), den_cube_0_3(x), den_sixth_13_2(x));
    lemma_horner_level(x, 0xad6b9514c767fe3c3613144b45f1496543346d98adf02267d5ceef9a00d9b8693000763e3b90ac11e99b138573345ccint, 0x2a46b8e85b7d2f65b122857db970e21315c5cb74dd8632dd14701639fba3888765b188bfc81639a7fe2e890c10050c2int, 0x1962d75c2381201e1a0cbd6c43c348b885c84ff731c4d59ca4a10356f453e01f78a4260763529e3532f6102c2e49a03dint, 0x17336fb544d73171deb6b430e98b9cdd966df9d773c28034815d2d0549ed1dad21e564ec71b032109f0f4a7a901b440int, 0xa94c5d67ba3266138e8a1af3506803e64dc21dc9877c409d43f06c988263f72b719b43570c78094fe215e136d5b8f4eint, den_sixth_12_1(x), den_cube_0_1(x), den_sixth_13_0(x), den_sixth_12_2(x), den_cube_0_2(x), den_sixth_13_1(x));
    lemma_horner_level(x, 0xad6b9514c767fe3c3613144b45f1496543346d98adf02267d5ceef9a00d9b8693000763e3b90ac11e99b138573345ccint, 0x7e47f5841aa1e5d75300a7a13935dd921e63877978ee2a420ac5dcc29c6a894f3c300ab7f3039fc571b80b6d2444e38int, 0x16112c4c3a9c98b252181140fad0eae9601a6de578980be6eec3232b5be72e7a07f3688ef60c206d01479253b03663c1int, 0x0int, 0x9329fb17a357576911ec1f905dd78f99e868f62535bd7508b03cf20f522520d2b2fd1385fe24d4e38dc4e3dc6f79dbcint, den_sixth_12_0(x), den_cube_0_0(x), times(x, den_sixth_13_0(x)), den_sixth_12_1(x), den_cube_0_1(x), den_sixth_13_0(x));
    lemma_product_level(x, 0xad6b9514c767fe3c3613144b45f1496543346d98adf02267d5ceef9a00d9b8693000763e3b90ac11e99b138573345ccint, den_cube_2_10(x), den_cube_3_10(x), den_cube_0_0(x), den_sixth_12_0(x), den_sixth_13_0(x));
}

pub(crate) proof fn lemma_den_sixth_step_11(x: int)
    ensures
        congruent(den_sixth_11_0(x), times(den_cube_1_10(x), den_cube_0_0(x))),
{
    lemma_times_zero(x);
    lemma_den_sixth_step_12(x);
    lemma_congruent_refl(den_sixth_12_15(x), 0xaccbb67481d033ff5852c1e48c50c477f94ff8aefce42d28c0f9a88cea7913516f968986f7ebbea9684b529e2561092int * 0int + den_sixth_12_15(x));
    lemma_horner_level(x, 0xaccbb67481d033ff5852c1e48c50c477f94ff8aefce42d28c0f9a88cea7913516f968986f7ebbea9684b529e2561092int, 0x13764c6e4c41d649b67b02a4b1f9dbdb7d290f4f19150ad63d790206ffc78eb12495572834ff619984b1a0eb877c66ddint, 0x1int, 0x8a991070424d309c0f5d6866934cf93fd940fc42946c803b169677e311ffd7c0d9bee8fc580a5aeee2cebc1a526564bint, 0x0int, den_sixth_11_15(x), den_cube_5_10(x), den_sixth_12_14(x), den_sixth_12_15(x), 0int, den_sixth_12_15(x));
    lemma_horner_level(x, 0xaccbb67481d033ff5852c1e48c50c477f94ff8aefce42d28c0f9a88cea7913516f968986f7ebbea9684b529e2561092int, 0x30e0802afccd141fe2f00a5781eb879f0f1c280e595b51adb265af8cae9f1aec2ce2031f30dff8c834bb9d652ae29efint, 0xe0fa1d816ddc03e6b24255e0d7819c171c40f65e273b853324efcd6356caa205ca2f570f13497804415473a1d634b8fint, 0x2badcd247416cdbdda7313abd2e294138c2d85e4d51560cfc7e0402db38958ad21934aff6996325c84c959e87d7e392int, 0x5d6f46b9eb00413bc65812d4b8a529c4f1cdf221f36faa2db7539890e009f57c39f2b233a5d6c878d7c3669a93c4393int, den_sixth_11_14(x), den_cube_4_10(x), den_sixth_12_13(x), den_sixth_11_15(x), den_cube_5_10(x), den_sixth_12_14(x));
    lemma_horner_level(x, 0xaccbb67481d033ff5852c1e48c50c477f94ff8aefce42d28c0f9a88cea7913516f968986f7ebbea9684b529e2561092int, 0x16ef77175c196bb6d6bbfc768cdd93bbb3fce2015423b4c880c4f799680cc14d78ea064652f7eb1ea512abea1463e4a5int, 0x2660400eb2e4f3b628bdd0d53cd76f2bf565b94e72927c1cb748df27942480e420517bd8714cc80d1fadc1326ed06f7int, 0xcd1e2059473b6ad1f3315e574f68b26c624bb9ffd29cf12811f8c178da117e198581b5a0b45f5e5cdad4671e88b4dc0int, 0xff01611b5c471d6c48e06a7b5fae435bd99c29b70f561d2839f9d8ef7304b7678d74aa6f61dfef34fa58d02c2775ebint, den_sixth_11_13(x), den_cube_3_10(x), den_sixth_12_12(x), den_sixth_11_14(x), den_cube_4_10(x), den_sixth_12_13(x));
    lemma_horner_level(x, 0xaccbb67481d033ff5852c1e48c50c477f94ff8aefce42d28c0f9a88cea7913516f968986f7ebbea9684b529e2561092int, 0xf00c34f1e5db037d04e9eb6072418389291275cf02035ff6a961e1ece9ef7427cebe0ec685b8d37a89f30a8ea7da31fint, 0xad6b9514c767fe3c3613144b45f1496543346d98adf02267d5ceef9a00d9b8693000763e3b90ac11e99b138573345ccint, 0x14aaeeb12885f0ef7cad05a9205ed3d98409f12443f3c6e9c751b3002e3615faf876375c0b70e04202238af65e4509afint, 0x4805d31e112e71d04c4a0fc8eba184aba2797b41c802381eebc328b0ab431a7e69ed1449912728f348467a7a875deb8int, den_sixth_11_12(x), den_cube_2_10(x), den_sixth_12_11(x), den_sixth_11_13(x), den_cube_3_10(x), den_sixth_12_12(x));
    lemma_horner_level(x, 0xaccbb67481d033ff5852c1e48c50c477f94ff8aefce42d28c0f9a88cea7913516f968986f7ebbea9684b529e2561092int, 0x18f03118ff5d8d760453089ae2f5852e3d165a60351287a2ccf36ccee858d6f173e05d6dac590edd88f9acce9bd8044bint, 0xaccbb67481d033ff5852c1e48c50c477f94ff8aefce42d28c0f9a88cea7913516f968986f7ebbea9684b529e2561092int, 0x3bd96535bd2796b195d38e9b0cbbce1ef4b7f18195dae318831a9381d789e97328c0cf5cd5d941681c087c82f8b3e40int, 0x47c36dfa11ab55ea2e97d289d93d302a0db653043e3ae9c416caded0dcf7bd585a2cec892bb85dfd868f40fe44467abint, den_sixth_11_11(x), den_cube_1_10(x), den_sixth_12_10(x), den_sixth_11_12(x), den_cube_2_10(x), den_sixth_12_11(x));
    lemma_horner_level(x, 0xaccbb67481d033ff5852c1e48c50c477f94ff8aefce42d28c0f9a88cea7913516f968986f7ebbea9684b529e2561092int, 0xe8233dfd60abba229d6080760ed9ca281c55ab169d5adbe7eb2c64738413fb471cec42c92bf3fc51c1a56fdba0e3d35int, 0x4d2f259eea405bd48f010a01ad2911d9c6dd039bb61a6290e591b36e636a5c871a5c29f4f83060400f8b49cba8f6aa8int, 0x685d52e0ce903158dc197076b97f009405a00af895daf66e24503b32b4319fbdd2b4500cca7f19786de1317f83c4d04int, 0x200e1feffe1ec98b235b70562546774822c9518b071874a3895e9fb37fc9b9b2b33bc1382d291890795734268172addint, den_sixth_11_10(x), den_cube_0_10(x), den_sixth_12_9(x), den_sixth_11_11(x), den_cube_1_10(x), den_sixth_12_10(x));
    lemma_horner_level(x, 0xaccbb67481d033ff5852c1e48c50c477f94ff8aefce42d28c0f9a88cea7913516f968986f7ebbea9684b529e2561092int, 0x271553dc61736796815a4c3f06f3c84234a0dda661585e9e62fc14da5546e9db53157ac320a61314b45eb84a8207a4bint, 0x167a55cda70a6e1cea820597d94a84903216f763e13d87bb5308592e7ea7d4fbc7385ea3d529b35e346ef48bb8913f55int, 0x307b876b19b2b39511ee3e500cf9e3764f46b0a37e1c5d7bd7c75471e2e76f7e66b735e8ee7f0480d2e3fca44c2bf00int, 0x955d1c2bf0a299a953457ac724a4cb5271bc4721889efb5ca32da9bfa58c016c970f6ea9df69a284939e4ede580198dint, den_sixth_11_9(x), den_cube_0_9(x), den_sixth_12_8(x), den_sixth_11_10(x), den_cube_0_10(x), den_sixth_12_9(x));
    lemma_horner_level(x, 0xaccbb67481d033ff5852c1e48c50c477f94ff8aefce42d28c0f9a88cea7913516f968986f7ebbea9684b529e2561092int, 0x134246fe440532d433d534d15a85d5ee131ffea518a7c1ddb52b770fc491dc9f76c1d3b89214effdb662d8ddc5500394int, 0x1866c8ed336c61231a1be54fd1d74cc4f9fb0ce4c6af5920abc5750c4bf39b4852cfe2f7bb9248836b233d9d55535d4aint, 0x13410ada30ec5c19bd509ee73c40c2f4ac64334461acc1477ba0525f162d278ec473c1b33d022938c0658b3e168b6d75int, 0xa2256668c133c296b27907f9dfb1a6a1a87395109e07ea87508a93f0e461d1426e2e8d0e56b4aa1c027de994ca4ba3fint, den_sixth_11_8(x), den_cube_0_8(x), den_sixth_12_7(x), den_sixth_11_9(x), den_cube_0_9(x), den_sixth_12_8(x));
    lemma_horner_level(x, 0xaccbb67481d033ff5852c1e48c50c477f94ff8aefce42d28c0f9a88cea7913516f968986f7ebbea9684b529e2561092int, 0x485875aebdf50d074867a78ba4beabc1412e9d2c4cb2f753dacb3d75e67523ac5a4c0ae7f5bb5e9f1a56049dca6eeefint, 0x16a3ef08be3ea7ea03bcddfabba6ff6ee5a4375efa1f4fd7feb34fd206357132b920f5b00801dee460ee415a15812ed9int, 0xf211e1cdce091e295b26a3e32d61562d7b06758698699257879325314b2326506c4749cafeda1bce26d2267cda5efffint, 0x9671877ba1977279ca711337d56d6f1ca0ee1924aac0a55356188b245b1ed020bb079e3b3c3eb3c94752ffd9df3da76int, den_sixth_11_7(x), den_cube_0_7(x), den_sixth_12_6(x), den_sixth_11_8(x), den_cube_0_8(x), den_sixth_12_7(x));
    lemma_horner_level(x, 0xaccbb67481d033ff5852c1e48c50c477f94ff8aefce42d28c0f9a88cea7913516f968986f7ebbea9684b529e2561092int, 0x1c4e9380d01446f503360892bab0efd1d31e97eab3ff71b76e17263e03578686e98dab9fcaab6bad024a2c52169dd78int, 0x166007c08a99db2fc3ba8734ace9824b5eecfdfa8d0cf8ef5dd365bc400a0051d5fa9c01a58b1fb93d1a1399126a775cint, 0x112130dd57ae33fa3583465eef850cb43f4bb9d5f591e1b93b22fefe13aef495dc6c6f403d8e428b29d7fc22b13b3501int, 0x94ae50ecb2a53d65336fb50ce65b105077c2fa0054d90816d2e4b197321cfddafa8ae32f3458ed37de3e4c898b87e03int, den_sixth_11_6(x), den_cube_0_6(x), den_sixth_12_5(x), den_sixth_11_7(x), den_cube_0_7(x), den_sixth_12_6(x));
    lemma_horner_level(x, 0xaccbb67481d033ff5852c1e48c50c477f94ff8aefce42d28c0f9a88cea7913516f968986f7ebbea9684b529e2561092int, 0x25579c609bbef03a99d976189dc80fdde57d87397446441fecba417058863557cf1175c51e1b06403dca6118cbd217aint, 0x8d9e5297186db2d9fb266eaac783182b70152c65550d881c5ecd87b6f0f5a6449f38db9dfa9cce202c6477faaf9b7acint, 0x1cb629d138b665f5b7939845031df2e0ae79de15031178e8033c909d3536c1f8e318d4e58bf5de21733451ed2dc9b15int, 0x3ad0b2814e451e5411597cd25219bac12295fc016d51381a5549541711794dcc38514ac5a30b5a183f79de5bc7fed19int, den_sixth_11_5(x), den_cube_0_5(x), den_sixth_12_4(x), den_sixth_11_6(x), den_cube_0_6(x), den_sixth_12_5(x));
    lemma_horner_level(x, 0xaccbb67481d033ff5852c1e48c50c477f94ff8aefce42d28c0f9a88cea7913516f968986f7ebbea9684b529e2561092int, 0x152da534d816d79154548b7039725dbd8ce5b9d378abfd446065b14ff6249daee4e55bf871bb1ac688151b707c577cdint, 0xbe0e079545f43e4b00cc912f8228ddcc6d19c9f0f69bbb0542eda0fc9dec916a20b15dc0fd2ededda39142311a5001dint, 0x8f0d262a80fbd14f16aae151b42e7630fbc86247830423e118565b406c1b8af3a6a09a431eed8236711ffe11f846a5eint, 0x4eee63efda95d2b4480d91e868f89ffcc054e6fbf815aae0f927f3d1239e569f6ce54a252b65226e8f6356ecc1b7951int, den_sixth_11_4(x), den_cube_0_4(x), den_sixth_12_3(x), den_sixth_11_5(x), den_cube_0_5(x), den_sixth_12_4(x));
    lemma_horner_level(x, 0xaccbb67481d033ff5852c1e48c50c477f94ff8aefce42d28c0f9a88cea7913516f968986f7ebbea9684b529e2561092int, 0xd085a9bcb29b91a210f164344e92ddc319d25005cc4eb909007517dd0c04c8f8e7afd87df6def9ebc1f124ff2e31400int, 0x16b7d288798e5395f20d23bf89edb4d1d115c5dbddbcd30e123da489e726af41727364f2c28297ada8d26d98445f5416int, 0xe7d64096b0c5a0c5f3f22d5152af289155efcac2ed49cf65049a75e3247294808393fa956fad30ebc79d56ca11f5c9int, 0x96f5b0190ae9d5fa215ed5ab362476b7dbea43ee2709c66d0326cfa7484cf88aa72064b39bcecaa9d9c27580595a2ffint, den_sixth_11_3(x), den_cube_0_3(x), den_sixth_12_2(x), den_sixth_11_4(x), den_cube_0_4(x), den_sixth_12_3(x));
    lemma_horner_level(x, 0xaccbb67481d033ff5852c1e48c50c477f94ff8aefce42d28c0f9a88cea7913516f968986f7ebbea9684b529e2561092int, 0xfb6edfb850fe1679bf72758c2177ab73ede11bc313d8077eeb8f0ec91f9f2c694159f76ef69a77079e5e46eae53ca30int, 0x58df3306640da276faaae7d6e8eb15778c4855551ae7f310c35a5dd279cd2eca6757cd636f96f891e2538b53dbf67f2int, 0x2a46b8e85b7d2f65b122857db970e21315c5cb74dd8632dd14701639fba3888765b188bfc81639a7fe2e890c10050c2int, 0x24e8bf396dcedffd60ece164a71f4e66b9741884417aebdb34152017b9f1f299e13f4e4c1696bb1d6b6b02e3aa4cbc2int, den_sixth_11_2(x), den_cube_0_2(x), den_sixth_12_1(x), den_sixth_11_3(x), den_cube_0_3(x), den_sixth_12_2(x));
    lemma_horner_level(x, 0xaccbb67481d033ff5852c1e48c50c477f94ff8aefce42d28c0f9a88cea7913516f968986f7ebbea9684b529e2561092int, 0x128a3ac2dcf90fab71933ac14646459f35151ba1467bd1f7881f005e88c72f51fc1e5d6d1fe7a32a75a084116cbfa78eint, 0x1962d75c2381201e1a0cbd6c43c348b885c84ff731c4d59ca4a10356f453e01f78a4260763529e3532f6102c2e49a03dint, 0x7e47f5841aa1e5d75300a7a13935dd921e63877978ee2a420ac5dcc29c6a894f3c300ab7f3039fc571b80b6d2444e38int, 0xa8b04b8b6d3308158424537840266f099f82ba9a46030814c270185b89ceb24d02834b4f15ef43a9cc8b780c8678c5cint, den_sixth_11_1(x), den_cube_0_1(x), den_sixth_12_0(x), den_sixth_11_2(x), den_cube_0_2(x), den_sixth_12_1(x));
    lemma_horner_level(x, 0xaccbb67481d033ff5852c1e48c50c477f94ff8aefce42d28c0f9a88cea7913516f968986f7ebbea9684b529e2561092int, 0x188ea8a5b445e55f0dc8e909b174b89f3db7ecc85fa4785d27a482aca1b47436cc66267d9f870f4b113b420d254a3947int, 0x16112c4c3a9c98b252181140fad0eae9601a6de578980be6eec3232b5be72e7a07f3688ef60c206d01479253b03663c1int, 0x0int, 0x92a250dbf3cbb21633f33f80f37e7bd3125ff00a8e7a2e708d36e18ada6051019a24fea182a6876953754961ec73061int, den_sixth_11_0(x), den_cube_0_0(x), times(x, den_sixth_12_0(x)), den_sixth_11_1(x), den_cube_0_1(x), den_sixth_12_0(x));
    lemma_product_level(x, 0xaccbb67481d033ff5852c1e48c50c477f94ff8aefce42d28c0f9a88cea7913516f968986f7ebbea9684b529e2561092int, den_cube_1_10(x), den_cube_2_10(x), den_cube_0_0(x), den_sixth_11_0(x), den_sixth_12_0(x));
}

pub(crate) proof fn lemma_den_sixth_step_10(x: int)
    ensures
        congruent(den_sixth_10_0(x), times(den_cube_0_10(x), den_cube_0_0(x))),
{
    lemma_times_zero(x);
    lemma_den_sixth_step_11(x);
    lemma_congruent_refl(den_sixth_11_15(x), 0x4d2f259eea405bd48f010a01ad2911d9c6dd039bb61a6290e591b36e636a5c871a5c29f4f83060400f8b49cba8f6aa8int * 0int + den_sixth_11_15(x));
    lemma_horner_level(x, 0x4d2f259eea405bd48f010a01ad2911d9c6dd039bb61a6290e591b36e636a5c871a5c29f4f83060400f8b49cba8f6aa8int, 0x7e0fa5c9e70d6ff471f114592f149978d5f92baa0f75b43e97f762fb12097773473e2d14291059084446e730d3d9497int, 0x1int, 0x30e0802afccd141fe2f00a5781eb879f0f1c280e595b51adb265af8cae9f1aec2ce2031f30dff8c834bb9d652ae29efint, 0x0int, den_sixth_10_15(x), den_cube_5_10(x), den_sixth_11_14(x), den_sixth_11_15(x), 0int, den_sixth_11_15(x));
    lemma_horner_level(x, 0x4d2f259eea405bd48f010a01ad2911d9c6dd039bb61a6290e591b36e636a5c871a5c29f4f83060400f8b49cba8f6aa8int, 0x13b82f9d7e2f482314f192dc7184e43a6d7f4109e343ddda4e997be92a2c58a30fcc1b2cf61036cf412772678ba5bb0int, 0xe0fa1d816ddc03e6b24255e0d7819c171c40f65e273b853324efcd6356caa205ca2f570f13497804415473a1d634b8fint, 0x16ef77175c196bb6d6bbfc768cdd93bbb3fce2015423b4c880c4f799680cc14d78ea064652f7eb1ea512abea1463e4a5int, 0x29bc3aaf181abe0f0a2a722483919c5e9a4e3216897c328140fb689600602f411f0f75ccd532704a39dd218555efe67int, den_sixth_10_14(x), den_cube_4_10(x), den_sixth_11_13(x), den_sixth_10_15(x), den_cube_5_10(x), den_sixth_11_14(x));
    lemma_horner_level(x, 0x4d2f259eea405bd48f010a01ad2911d9c6dd039bb61a6290e591b36e636a5c871a5c29f4f83060400f8b49cba8f6aa8int, 0x1665879231b38fb50555330071c0fbba05caad0b50b73d695d1ae8326a3479eac84d0c2f7cd0d6aad3a9a7882b7928d1int, 0x2660400eb2e4f3b628bdd0d53cd76f2bf565b94e72927c1cb748df27942480e420517bd8714cc80d1fadc1326ed06f7int, 0xf00c34f1e5db037d04e9eb6072418389291275cf02035ff6a961e1ece9ef7427cebe0ec685b8d37a89f30a8ea7da31fint, 0x71e7cbd3c9793d4e1fcfd9586bb425f508e82aff473966ca5015b4a6ff1499782257927a788742f7599ed75376f732int, den_sixth_10_13(x), den_cube_3_10(x), den_sixth_11_12(x), den_sixth_10_14(x), den_cube_4_10(x), den_sixth_11_13(x));
    lemma_horner_level(x, 0x4d2f259eea405bd48f010a01ad2911d9c6dd039bb61a6290e591b36e636a5c871a5c29f4f83060400f8b49cba8f6aa8int, 0x27f99116e5ea51760e6443ed44c423510479bb63bbef07e9075698019a3a74e6866005da97a872045c6ee690d0b4af8int, 0xad6b9514c767fe3c3613144b45f1496543346d98adf02267d5ceef9a00d9b8693000763e3b90ac11e99b138573345ccint, 0x18f03118ff5d8d760453089ae2f5852e3d165a60351287a2ccf36ccee858d6f173e05d6dac590edd88f9acce9bd8044bint, 0x202bc8325cb402659b9ef3152ff6d64cdcc58524875effdab79fe19d903c27d5b3e5443d604efaa315a90eca67ffd99int, den_sixth_10_12(x), den_cube_2_10(x), den_sixth_11_11(x), den_sixth_10_13(x), den_cube_3_10(x), den_sixth_11_12(x));
    lemma_horner_level(x, 0x4d2f259eea405bd48f010a01ad2911d9c6dd039bb61a6290e591b36e636a5c871a5c29f4f83060400f8b49cba8f6aa8int, 0x167e92919f2c742ec5ea79075643493bc330b4b34a4dac161b2088db453f656d0672435858d68df2b1569ae37be02d66int, 0xaccbb67481d033ff5852c1e48c50c477f94ff8aefce42d28c0f9a88cea7913516f968986f7ebbea9684b529e2561092int, 0xe8233dfd60abba229d6080760ed9ca281c55ab169d5adbe7eb2c64738413fb471cec42c92bf3fc51c1a56fdba0e3d35int, 0x200e1feffe1ec98b235b70562546774822c9518b071874a3895e9fb37fc9b9b2b33bc1382d291890795734268172addint, den_sixth_10_11(x), den_cube_1_10(x), den_sixth_11_10(x), den_sixth_10_12(x), den_cube_2_10(x), den_sixth_11_11(x));
    lemma_horner_level(x, 0x4d2f259eea405bd48f010a01ad2911d9c6dd039bb61a6290e591b36e636a5c871a5c29f4f83060400f8b49cba8f6aa8int, 0x25e1a107025e37c40a6875d505d53794438506d78ff05159ea766d931666e694bf42410fdfc6372b5e1f30d5f6f7c65int, 0x4d2f259eea405bd48f010a01ad2911d9c6dd039bb61a6290e591b36e636a5c871a5c29f4f83060400f8b49cba8f6aa8int, 0x271553dc61736796815a4c3f06f3c84234a0dda661585e9e62fc14da5546e9db53157ac320a61314b45eb84a8207a4bint, 0xe51801dad2e468acc69b058733dec8f8cf7252a79b403f6e77a45a01542eb37f23733860641bca80b9a086dae3a472int, den_sixth_10_10(x), den_cube_0_10(x), den_sixth_11_9(x), den_sixth_10_11(x), den_cube_1_10(x), den_sixth_11_10(x));
    lemma_horner_level(x, 0x4d2f259eea405bd48f010a01ad2911d9c6dd039bb61a6290e591b36e636a5c871a5c29f4f83060400f8b49cba8f6aa8int, 0xc64a73230ba2484a0cdc9c4b8257c3294e36b7d02f4be1c338b7922cfd55b3c65f44e773d2cc19b749634bc32a96d1dint, 0x167a55cda70a6e1cea820597d94a84903216f763e13d87bb5308592e7ea7d4fbc7385ea3d529b35e346ef48bb8913f55int, 0x134246fe440532d433d534d15a85d5ee131ffea518a7c1ddb52b770fc491dc9f76c1d3b89214effdb662d8ddc5500394int, 0x42b7b30cd503b32284feaf15ae28c32b6ee66ae792e6076a4dc5234bba0166ba6c9cce6ee2291c604c0d854f2c208bdint, den_sixth_10_9(x), den_cube_0_9(x), den_sixth_11_8(x), den_sixth_10_10(x), den_cube_0_10(x), den_sixth_11_9(x));
    lemma_horner_level(x, 0x4d2f259eea405bd48f010a01ad2911d9c6dd039bb61a6290e591b36e636a5c871a5c29f4f83060400f8b49cba8f6aa8int, 0xbd23754a8b2522e026a239c98058fb9076bf4510fd92134c5ac99547b3a049226caf577ee8cd78ec7d0b44ab0de1ffbint, 0x1866c8ed336c61231a1be54fd1d74cc4f9fb0ce4c6af5920abc5750c4bf39b4852cfe2f7bb9248836b233d9d55535d4aint, 0x485875aebdf50d074867a78ba4beabc1412e9d2c4cb2f753dacb3d75e67523ac5a4c0ae7f5bb5e9f1a56049dca6eeefint, 0x486d5c836ba913eaf226f1b41881c93c4695d91cd7cb48a8baf07eee1825306059374b531810f53fde6c7f7b0ea028cint, den_sixth_10_8(x), den_cube_0_8(x), den_sixth_11_7(x), den_sixth_10_9(x), den_cube_0_9(x), den_sixth_11_8(x));
    lemma_horner_level(x, 0x4d2f259eea405bd48f010a01ad2911d9c6dd039bb61a6290e591b36e636a5c871a5c29f4f83060400f8b49cba8f6aa8int, 0x14efc0f550e533c399216e2ff50bd7d4610a505e1a7eae17feeeccc24053ba2d9f2aa0e19c148721436eafe46f505c5cint, 0x16a3ef08be3ea7ea03bcddfabba6ff6ee5a4375efa1f4fd7feb34fd206357132b920f5b00801dee460ee415a15812ed9int, 0x1c4e9380d01446f503360892bab0efd1d31e97eab3ff71b76e17263e03578686e98dab9fcaab6bad024a2c52169dd78int, 0x43332b8213c17f45bec12f503f418b56be416136c32818ba39a34d869dc27336dd9359308f426861a801802b1034c8cint, den_sixth_10_7(x), den_cube_0_7(x), den_sixth_11_6(x), den_sixth_10_8(x), den_cube_0_8(x), den_sixth_11_7(x));
    lemma_horner_level(x, 0x4d2f259eea405bd48f010a01ad2911d9c6dd039bb61a6290e591b36e636a5c871a5c29f4f83060400f8b49cba8f6aa8int, 0xb2c3f32b5cf10fa2a5af9f6dff5298e535eb241d5c521cd07c733b91504f9d517cd97eb4afd241d58525f42aa85e96cint, 0x166007c08a99db2fc3ba8734ace9824b5eecfdfa8d0cf8ef5dd365bc400a0051d5fa9c01a58b1fb93d1a1399126a775cint, 0x25579c609bbef03a99d976189dc80fdde57d87397446441fecba417058863557cf1175c51e1b06403dca6118cbd217aint, 0x42699f6966ce0e74ae39c2c4c1160d116e66174332728a40de71d93effdf12869a044f6bd02aada30046268a2faed4aint, den_sixth_10_6(x), den_cube_0_6(x), den_sixth_11_5(x), den_sixth_10_7(x), den_cube_0_7(x), den_sixth_11_6(x));
    lemma_horner_level(x, 0x4d2f259eea405bd48f010a01ad2911d9c6dd039bb61a6290e591b36e636a5c871a5c29f4f83060400f8b49cba8f6aa8int, 0x99ae00f4a9803573a180226918f733ec51752832ebb6fad3707d366d7e713e696f7af3ebad993b03f147a348b93239int, 0x8d9e5297186db2d9fb266eaac783182b70152c65550d881c5ecd87b6f0f5a6449f38db9dfa9cce202c6477faaf9b7acint, 0x152da534d816d79154548b7039725dbd8ce5b9d378abfd446065b14ff6249daee4e55bf871bb1ac688151b707c577cdint, 0x1a458134daf7b1bba5312f9469430b53ab07e01a207913f7b47ae993f078326a4596427acb0d146891fb2bdd186135cint, den_sixth_10_5(x), den_cube_0_5(x), den_sixth_11_4(x), den_sixth_10_6(x), den_cube_0_6(x), den_sixth_11_5(x));
    lemma_horner_level(x, 0x4d2f259eea405bd48f010a01ad2911d9c6dd039bb61a6290e591b36e636a5c871a5c29f4f83060400f8b49cba8f6aa8int, 0x53982bea33442fe8dc03803db60d91ee9f5f01b9b29bafc8f86a61eb3ce3cb2b87b0df938e8c1efe0852bc52d55545cint, 0xbe0e079545f43e4b00cc912f8228ddcc6d19c9f0f69bbb0542eda0fc9dec916a20b15dc0fd2ededda39142311a5001dint, 0xd085a9bcb29b91a210f164344e92ddc319d25005cc4eb909007517dd0c04c8f8e7afd87df6def9ebc1f124ff2e31400int, 0x2341c3332319101914d96a4bcc164fce932ff6cdde84c963b0b7a1a510902f38241023a309bfd8d173d699ce8427e04int, den_sixth_10_4(x), den_cube_0_4(x), den_sixth_11_3(x), den_sixth_10_5(x), den_cube_0_5(x), den_sixth_11_4(x));
    lemma_horner_level(x, 0x4d2f259eea405bd48f010a01ad2911d9c6dd039bb61a6290e591b36e636a5c871a5c29f4f83060400f8b49cba8f6aa8int, 0xfd29bc129667efe1cf26625c233275e63668b4c1f3fe2898d8b00fd4e6450be3dc74ebe8ba2c1ef174b2379084b82bint, 0x16b7d288798e5395f20d23bf89edb4d1d115c5dbddbcd30e123da489e726af41727364f2c28297ada8d26d98445f5416int, 0xfb6edfb850fe1679bf72758c2177ab73ede11bc313d8077eeb8f0ec91f9f2c694159f76ef69a77079e5e46eae53ca30int, 0x436e33d0504cb75f4bfd379b2eeabb6d488baca55edd531bb05edd5c977d4b178246bd6bf8e7dacd9074e6551cb155fint, den_sixth_10_3(x), den_cube_0_3(x), den_sixth_11_2(x), den_sixth_10_4(x), den_cube_0_4(x), den_sixth_11_3(x));
    lemma_horner_level(x, 0x4d2f259eea405bd48f010a01ad2911d9c6dd039bb61a6290e591b36e636a5c871a5c29f4f83060400f8b49cba8f6aa8int, 0x13b705f36893d0a6b057497680df0f9f556167710a909f5127caa8d88be7717e7eaefe413150971419f924f15d35cefaint, 0x58df3306640da276faaae7d6e8eb15778c4855551ae7f310c35a5dd279cd2eca6757cd636f96f891e2538b53dbf67f2int, 0x128a3ac2dcf90fab71933ac14646459f35151ba1467bd1f7881f005e88c72f51fc1e5d6d1fe7a32a75a084116cbfa78eint, 0x107c8da01c8d449d9d1f7bd86228ab97f406fab1e270aceb89f9000011d3503e97b41e5585af968f6e60ae6f946ca2cint, den_sixth_10_2(x), den_cube_0_2(x), den_sixth_11_1(x), den_sixth_10_3(x), den_cube_0_3(x), den_sixth_11_2(x));
    lemma_horner_level(x, 0x4d2f259eea405bd48f010a01ad2911d9c6dd039bb61a6290e591b36e636a5c871a5c29f4f83060400f8b49cba8f6aa8int, 0x5cd84f861aaea2f58e7733ad6fa095152b41a8c44eb06ba01103beedb52ec8be973b12479fe4655d4e631e22b1e73aint, 0x1962d75c2381201e1a0cbd6c43c348b885c84ff731c4d59ca4a10356f453e01f78a4260763529e3532f6102c2e49a03dint, 0x188ea8a5b445e55f0dc8e909b174b89f3db7ecc85fa4785d27a482aca1b47436cc66267d9f870f4b113b420d254a3947int, 0x4b59804de65c8338b26549d44cc32df3bdbf06fd26cbab8992abbcd4bd27478502dee2b81d22abab38c4bb24e40343fint, den_sixth_10_1(x), den_cube_0_1(x), den_sixth_11_0(x), den_sixth_10_2(x), den_cube_0_2(x), den_sixth_11_1(x));
    lemma_horner_level(x, 0x4d2f259eea405bd48f010a01ad2911d9c6dd039bb61a6290e591b36e636a5c871a5c29f4f83060400f8b49cba8f6aa8int, 0x11218ac956e4efd50ffc47b0d65ad09a7f9d15adc960c1175bdcf0467f8a2674cbb412c5542d8e6ce197765c513b9e08int, 0x16112c4c3a9c98b252181140fad0eae9601a6de578980be6eec3232b5be72e7a07f3688ef60c206d01479253b03663c1int, 0x0int, 0x417f90204ce3f62c4ad154d4dd1d28f6cea0d084b9066f808ccc1ad2ab8aab8ce5ae21743dd6688662d9f91a79847e0int, den_sixth_10_0(x), den_cube_0_0(x), times(x, den_sixth_11_0(x)), den_sixth_10_1(x), den_cube_0_1(x), den_sixth_11_0(x));
    lemma_product_level(x, 0x4d2f259eea405bd48f010a01ad2911d9c6dd039bb61a6290e591b36e636a5c871a5c29f4f83060400f8b49cba8f6aa8int, den_cube_0_10(x), den_cube_1_10(x), den_cube_0_0(x), den_sixth_10_0(x), den_sixth_11_0(x));
}

pub(crate) proof fn lemma_den_sixth_step_9(x: int)
    ensures
        congruent(den_sixth_9_0(x), times(den_cube_0_9(x), den_cube_0_0(x))),
{
    lemma_times_zero(x);
    lemma_den_sixth_step_10(x);
    lemma_congruent_refl(den_sixth_10_15(x), 0x167a55cda70a6e1cea820597d94a84903216f763e13d87bb5308592e7ea7d4fbc7385ea3d529b35e346ef48bb8913f55int * 0int + den_sixth_10_15(x));
    lemma_horner_level(x, 0x167a55cda70a6e1cea820597d94a84903216f763e13d87bb5308592e7ea7d4fbc7385ea3d529b35e346ef48bb8913f55int, 0x17b5d8c77eed629f1bd11ec5a062d2d3d8eeeb747f71c598f7f1f0ed114a9a85f8352056a48ab6cb28816bb2314b9b05int, 0x1int, 0x13b82f9d7e2f482314f192dc7184e43a6d7f4109e343ddda4e997be92a2c58a30fcc1b2cf61036cf412772678ba5bb0int, 0x0int, den_sixth_9_15(x), den_cube_5_10(x), den_sixth_10_14(x), den_sixth_10_15(x), 0int, den_sixth_10_15(x));
    lemma_horner_level(x, 0x167a55cda70a6e1cea820597d94a84903216f763e13d87bb5308592e7ea7d4fbc7385ea3d529b35e346ef48bb8913f55int, 0x10ef14751d9f80bbdf3e26026ee65aee0e18d563c13834b2e2ddf0f4107890ad9e1c8bc05b4f78009923d84f6736b614int, 0xe0fa1d816ddc03e6b24255e0d7819c171c40f65e273b853324efcd6356caa205ca2f570f13497804415473a1d634b8fint, 0x1665879231b38fb50555330071c0fbba05caad0b50b73d695d1ae8326a3479eac84d0c2f7cd0d6aad3a9a7882b7928d1int, 0xc2780a6c84c56eeb257628657a8ddc38a06414feaf11fe1df9154d5887481800a77c48c5247bb25558216f1cc1d2ea8int, den_sixth_9_14(x), den_cube_4_10(x), den_sixth_10_13(x), den_sixth_9_15(x), den_cube_5_10(x), den_sixth_10_14(x));
    lemma_horner_level(x, 0x167a55cda70a6e1cea820597d94a84903216f763e13d87bb5308592e7ea7d4fbc7385ea3d529b35e346ef48bb8913f55int, 0x2ac75798c0e86e197836c732249fc6d235fc66f29b117e2bbfcf8273b5e62cdb4c74f1c9bd046d86accaa2bdf521f8dint, 0x2660400eb2e4f3b628bdd0d53cd76f2bf565b94e72927c1cb748df27942480e420517bd8714cc80d1fadc1326ed06f7int, 0x27f99116e5ea51760e6443ed44c423510479bb63bbef07e9075698019a3a74e6866005da97a872045c6ee690d0b4af8int, 0x212c075178c01a6f469cbd99a50b9af0bb6246de9c70fd22a44bd761c4727933c2c7132bc61fa17791a880f8868cd4aint, den_sixth_9_13(x), den_cube_3_10(x), den_sixth_10_12(x), den_sixth_9_14(x), den_cube_4_10(x), den_sixth_10_13(x));
    lemma_horner_level(x, 0x167a55cda70a6e1cea820597d94a84903216f763e13d87bb5308592e7ea7d4fbc7385ea3d529b35e346ef48bb8913f55int, 0x142a8115870519a1bee52956e319220a19a63f24423c44cbf469ec476895b291f8d76df5f93d5a87f7c4fd2580d96e08int, 0xad6b9514c767fe3c3613144b45f1496543346d98adf02267d5ceef9a00d9b8693000763e3b90ac11e99b138573345ccint, 0x167e92919f2c742ec5ea79075643493bc330b4b34a4dac161b2088db453f656d0672435858d68df2b1569ae37be02d66int, 0x95e74cecd5dacd613d8a00572a24f69362bcac786967f1b446e437f1c8efe09fb0796875aca997a00a5364581a0604eint, den_sixth_9_12(x), den_cube_2_10(x), den_sixth_10_11(x), den_sixth_9_13(x), den_cube_3_10(x), den_sixth_10_12(x));
    lemma_horner_level(x, 0x167a55cda70a6e1cea820597d94a84903216f763e13d87bb5308592e7ea7d4fbc7385ea3d529b35e346ef48bb8913f55int, 0x1c7b6d784a1eebc579d483c3ffcf1c6028df33da732c527c75ab2dfb88c660f1aba085ea11ed45bf3f99ec7c2cd37b0int, 0xaccbb67481d033ff5852c1e48c50c477f94ff8aefce42d28c0f9a88cea7913516f968986f7ebbea9684b529e2561092int, 0x25e1a107025e37c40a6875d505d53794438506d78ff05159ea766d931666e694bf42410fdfc6372b5e1f30d5f6f7c65int, 0x955d1c2bf0a299a953457ac724a4cb5271bc4721889efb5ca32da9bfa58c016c970f6ea9df69a284939e4ede580198dint, den_sixth_9_11(x), den_cube_1_10(x), den_sixth_10_10(x), den_sixth_9_12(x), den_cube_2_10(x), den_sixth_10_11(x));
    lemma_horner_level(x, 0x167a55cda70a6e1cea820597d94a84903216f763e13d87bb5308592e7ea7d4fbc7385ea3d529b35e346ef48bb8913f55int, 0x58707661d6f16350dc65eb815c5227716a6d854ed41ba5ab1eb7b35db18d9d95526c935e844933932c9909aa002d6a6int, 0x4d2f259eea405bd48f010a01ad2911d9c6dd039bb61a6290e591b36e636a5c871a5c29f4f83060400f8b49cba8f6aa8int, 0xc64a73230ba2484a0cdc9c4b8257c3294e36b7d02f4be1c338b7922cfd55b3c65f44e773d2cc19b749634bc32a96d1dint, 0x42b7b30cd503b32284feaf15ae28c32b6ee66ae792e6076a4dc5234bba0166ba6c9cce6ee2291c604c0d854f2c208bdint, den_sixth_9_10(x), den_cube_0_10(x), den_sixth_10_9(x), den_sixth_9_11(x), den_cube_1_10(x), den_sixth_10_10(x));
    lemma_horner_level(x, 0x167a55cda70a6e1cea820597d94a84903216f763e13d87bb5308592e7ea7d4fbc7385ea3d529b35e346ef48bb8913f55int, 0x14c669edaffda72f3ce911dc5d8dca09a439f5745a76742502a6f3d65dcf1c0275f391733da65f50f180a37007ebcaf5int, 0x167a55cda70a6e1cea820597d94a84903216f763e13d87bb5308592e7ea7d4fbc7385ea3d529b35e346ef48bb8913f55int, 0xbd23754a8b2522e026a239c98058fb9076bf4510fd92134c5ac99547b3a049226caf577ee8cd78ec7d0b44ab0de1ffbint, 0x136e041eede50a374a3c367a72202976385c61e404e65271dd3179a3f01009dbd3bff3c3de9d0cb92822c045ca72d5bdint, den_sixth_9_9(x), den_cube_0_9(x), den_sixth_10_8(x), den_sixth_9_10(x), den_cube_0_10(x), den_sixth_10_9(x));
    lemma_horner_level(x, 0x167a55cda70a6e1cea820597d94a84903216f763e13d87bb5308592e7ea7d4fbc7385ea3d529b35e346ef48bb8913f55int, 0x47627fd8bf917ccb684cf4335e186bd00f40ab5dbf107ef24250ffbaa1a2bec16ab897e825f66b9e23a0e23efbdacbaint, 0x1866c8ed336c61231a1be54fd1d74cc4f9fb0ce4c6af5920abc5750c4bf39b4852cfe2f7bb9248836b233d9d55535d4aint, 0x14efc0f550e533c399216e2ff50bd7d4610a505e1a7eae17feeeccc24053ba2d9f2aa0e19c148721436eafe46f505c5cint, 0x1517afdbac1aa12891ec218efb43d3a6ed5cd9707794d38d466b0561e48075acf53818745ac014decb98734cbafb9d9cint, den_sixth_9_8(x), den_cube_0_8(x), den_sixth_10_7(x), den_sixth_9_9(x), den_cube_0_9(x), den_sixth_10_8(x));
    lemma_horner_level(x, 0x167a55cda70a6e1cea820597d94a84903216f763e13d87bb5308592e7ea7d4fbc7385ea3d529b35e346ef48bb8913f55int, 0x38b4143b0abb7ce62959606ed8443122b05beaf4d4fd381484411553a6814e1b5f84f3543561082a882a38d964d206dint, 0x16a3ef08be3ea7ea03bcddfabba6ff6ee5a4375efa1f4fd7feb34fd206357132b920f5b00801dee460ee415a15812ed9int, 0xb2c3f32b5cf10fa2a5af9f6dff5298e535eb241d5c521cd07c733b91504f9d517cd97eb4afd241d58525f42aa85e96cint, 0x1391f9421699f101ca6aa5859c20c307b67366e28ec8ea851f118c0fd6d7d3892f5482f457a3be9282827587c4cd3a24int, den_sixth_9_7(x), den_cube_0_7(x), den_sixth_10_6(x), den_sixth_9_8(x), den_cube_0_8(x), den_sixth_10_7(x));
    lemma_horner_level(x, 0x167a55cda70a6e1cea820597d94a84903216f763e13d87bb5308592e7ea7d4fbc7385ea3d529b35e346ef48bb8913f55int, 0x98651e5445cb96c12d9a65b8be9e38fe68c1bc622221d016bce21ca8900f541811903c413e930e8bc09bfd84e083255int, 0x166007c08a99db2fc3ba8734ace9824b5eecfdfa8d0cf8ef5dd365bc400a0051d5fa9c01a58b1fb93d1a1399126a775cint, 0x99ae00f4a9803573a180226918f733ec51752832ebb6fad3707d366d7e713e696f7af3ebad993b03f147a348b93239int, 0x1357473e5520496a4e73fdc9e8ef320247b574289c326bbd231f15dd8d95f2846e0312c71d0927b418b05c78e3e2d050int, den_sixth_9_6(x), den_cube_0_6(x), den_sixth_10_5(x), den_sixth_9_7(x), den_cube_0_7(x), den_sixth_10_6(x));
    lemma_horner_level(x, 0x167a55cda70a6e1cea820597d94a84903216f763e13d87bb5308592e7ea7d4fbc7385ea3d529b35e346ef48bb8913f55int, 0x12d44951dffa510520086a9991f88f830e91e485734484bd6f0add4a0da5515082888b3452e8e629066234e532113f02int, 0x8d9e5297186db2d9fb266eaac783182b70152c65550d881c5ecd87b6f0f5a6449f38db9dfa9cce202c6477faaf9b7acint, 0x53982bea33442fe8dc03803db60d91ee9f5f01b9b29bafc8f86a61eb3ce3cb2b87b0df938e8c1efe0852bc52d55545cint, 0x7a6a0a2d3f6d4abbc56f28aca71893c1cdec051f256bdb990a974e4ddf987731249ba277084d743ac791e59c6ca3062int, den_sixth_9_5(x), den_cube_0_5(x), den_sixth_10_4(x), den_sixth_9_6(x), den_cube_0_6(x), den_sixth_10_5(x));
    lemma_horner_level(x, 0x167a55cda70a6e1cea820597d94a84903216f763e13d87bb5308592e7ea7d4fbc7385ea3d529b35e346ef48bb8913f55int, 0x145544012db5768eb7c6610a4da7f78016b43d023a1d74f4634a75eb23d6e572f9bbfcd975072fbd4a6f3470c5d0d516int, 0xbe0e079545f43e4b00cc912f8228ddcc6d19c9f0f69bbb0542eda0fc9dec916a20b15dc0fd2ededda39142311a5001dint, 0xfd29bc129667efe1cf26625c233275e63668b4c1f3fe2898d8b00fd4e6450be3dc74ebe8ba2c1ef174b2379084b82bint, 0xa4484779fd4783e319be1439c2b50df5736d8c7050e84b2affaf8dcf33d92e20b818b580b87fecf1265f819acf52f22int, den_sixth_9_4(x), den_cube_0_4(x), den_sixth_10_3(x), den_sixth_9_5(x), den_cube_0_5(x), den_sixth_10_4(x));
    lemma_horner_level(x, 0x167a55cda70a6e1cea820597d94a84903216f763e13d87bb5308592e7ea7d4fbc7385ea3d529b35e346ef48bb8913f55int, 0x129862871c44e2e38eda32813a8423730988402c5d8bb38a7296939f7e2e88bd478dc2896b73c95eae985eaf1e314d97int, 0x16b7d288798e5395f20d23bf89edb4d1d115c5dbddbcd30e123da489e726af41727364f2c28297ada8d26d98445f5416int, 0x13b705f36893d0a6b057497680df0f9f556167710a909f5127caa8d88be7717e7eaefe413150971419f924f15d35cefaint, 0x13a32a527d4fe10fc6f682d6fbd90ed7098d2265fa69cb2ab2ad8246b91a9a092703a1d14b0b9d33c7b6919a0e8b8413int, den_sixth_9_3(x), den_cube_0_3(x), den_sixth_10_2(x), den_sixth_9_4(x), den_cube_0_4(x), den_sixth_10_3(x));
    lemma_horner_level(x, 0x167a55cda70a6e1cea820597d94a84903216f763e13d87bb5308592e7ea7d4fbc7385ea3d529b35e346ef48bb8913f55int, 0x128353e913a81e8e245d14313e8aa8affc18b222ec01064fe343da1c9e3423f01607c22a6d132a282132797e7f222e8aint, 0x58df3306640da276faaae7d6e8eb15778c4855551ae7f310c35a5dd279cd2eca6757cd636f96f891e2538b53dbf67f2int, 0x5cd84f861aaea2f58e7733ad6fa095152b41a8c44eb06ba01103beedb52ec8be973b12479fe4655d4e631e22b1e73aint, 0x4cd20363ac0f0cc7209c616753ac151d11d8ec326844bdacbce3362f5051595aec6d0ddb92ff59deda87ff88a695e1eint, den_sixth_9_2(x), den_cube_0_2(x), den_sixth_10_1(x), den_sixth_9_3(x), den_cube_0_3(x), den_sixth_10_2(x));
    lemma_horner_level(x, 0x167a55cda70a6e1cea820597d94a84903216f763e13d87bb5308592e7ea7d4fbc7385ea3d529b35e346ef48bb8913f55int, 0x2bb4e85ce50840796758d1affbf09b3995aa8f5d05963e77ef5e3aa1db46136dc627f76e2c6f7405e34749908ec174fint, 0x1962d75c2381201e1a0cbd6c43c348b885c84ff731c4d59ca4a10356f453e01f78a4260763529e3532f6102c2e49a03dint, 0x11218ac956e4efd50ffc47b0d65ad09a7f9d15adc960c1175bdcf0467f8a2674cbb412c5542d8e6ce197765c513b9e08int, 0x15f190282e783c902721179ee378aa8ccbd607e2efe177c721bd38228f42adece008246c5566eb653738f09b592739eeint, den_sixth_9_1(x), den_cube_0_1(x), den_sixth_10_0(x), den_sixth_9_2(x), den_cube_0_2(x), den_sixth_10_1(x));
    lemma_horner_level(x, 0x167a55cda70a6e1cea820597d94a84903216f763e13d87bb5308592e7ea7d4fbc7385ea3d529b35e346ef48bb8913f55int, 0x1465141a9a529a8f550b4c50d6448d04d8108c37293c69df57b5b218f56681351804d3623f0d26d857bfa79f0b5ca67eint, 0x16112c4c3a9c98b252181140fad0eae9601a6de578980be6eec3232b5be72e7a07f3688ef60c206d01479253b03663c1int, 0x0int, 0x13131d5146ec78141adb4699cdd231d65f22872816f2903fc30d7050be4ff44ecd9aaa0c8efeaf94f91bbbf11b74e6c5int, den_sixth_9_0(x), den_cube_0_0(x), times(x, den_sixth_10_0(x)), den_sixth_9_1(x), den_cube_0_1(x), den_sixth_10_0(x));
    lemma_product_level(x, 0x167a55cda70a6e1cea820597d94a84903216f763e13d87bb5308592e7ea7d4fbc7385ea3d529b35e346ef48bb8913f55int, den_cube_0_9(x), den_cube_0_10(x), den_cube_0_0(x), den_sixth_9_0(x), den_sixth_10_0(x));
}

pub(crate) proof fn lemma_den_sixth_step_8(x: int)
    ensures
        congruent(den_sixth_8_0(x), times(den_cube_0_8(x), den_cube_0_0(x))),
{
    lemma_times_zero(x);
    lemma_den_sixth_step_9(x);
    lemma_congruent_refl(den_sixth_9_15(x), 0x1866c8ed336c61231a1be54fd1d74cc4f9fb0ce4c6af5920abc5750c4bf39b4852cfe2f7bb9248836b233d9d55535d4aint * 0int + den_sixth_9_15(x));
    lemma_horner_level(x, 0x1866c8ed336c61231a1be54fd1d74cc4f9fb0ce4c6af5920abc5750c4bf39b4852cfe2f7bb9248836b233d9d55535d4aint, 0xf54cb78178bfb44ae3e639bfd71fadba39c96c394627b142772935f65bb35d1d2406eb9658dc0844a4815ecbc8a68b3int, 0x1int, 0x10ef14751d9f80bbdf3e26026ee65aee0e18d563c13834b2e2ddf0f4107890ad9e1c8bc05b4f78009923d84f6736b614int, 0x1int, den_sixth_8_15(x), den_cube_5_10(x), den_sixth_9_14(x), den_sixth_9_15(x), 0int, den_sixth_9_15(x));
    lemma_horner_level(x, 0x1866c8ed336c61231a1be54fd1d74cc4f9fb0ce4c6af5920abc5750c4bf39b4852cfe2f7bb9248836b233d9d55535d4aint, 0x609d8639cf15ef719f36389d81a42a146bda2195450e5fc5671c634ff9c0455ed4b74b371b4c40fa9cbf33cb5e213b2int, 0xe0fa1d816ddc03e6b24255e0d7819c171c40f65e273b853324efcd6356caa205ca2f570f13497804415473a1d634b8fint, 0x2ac75798c0e86e197836c732249fc6d235fc66f29b117e2bbfcf8273b5e62cdb4c74f1c9bd046d86accaa2bdf521f8dint, 0xd31c811f7b04c90b6f45c7b9667f9d478e22347a1ba64d237b115e1ed853d5fc4e2f26ace103252bb8f9b99a16e8293int, den_sixth_8_14(x), den_cube_4_10(x), den_sixth_9_13(x), den_sixth_8_15(x), den_cube_5_10(x), den_sixth_9_14(x));
    lemma_horner_level(x, 0x1866c8ed336c61231a1be54fd1d74cc4f9fb0ce4c6af5920abc5750c4bf39b4852cfe2f7bb9248836b233d9d55535d4aint, 0x1913b38886ba9c00bb017f22b11ce4c886537fc6ca1cdc3e360e17bf519d17f05134ae77603d20e8974aa7ad16422f4eint, 0x2660400eb2e4f3b628bdd0d53cd76f2bf565b94e72927c1cb748df27942480e420517bd8714cc80d1fadc1326ed06f7int, 0x142a8115870519a1bee52956e319220a19a63f24423c44cbf469ec476895b291f8d76df5f93d5a87f7c4fd2580d96e08int, 0x2402c4600e52cc621b95cdc82fb5f3dcd2408295e813565685656bd9bddbaf4af661984c63270fc32a12ae61a87f760int, den_sixth_8_13(x), den_cube_3_10(x), den_sixth_9_12(x), den_sixth_8_14(x), den_cube_4_10(x), den_sixth_9_13(x));
    lemma_horner_level(x, 0x1866c8ed336c61231a1be54fd1d74cc4f9fb0ce4c6af5920abc5750c4bf39b4852cfe2f7bb9248836b233d9d55535d4aint, 0x16c38a882853067c88b7cb802fe2839f1f90d7613fae7b540bcb9a38c7227d3ce87b5276fbf44ca52fc603aab7731b3fint, 0xad6b9514c767fe3c3613144b45f1496543346d98adf02267d5ceef9a00d9b8693000763e3b90ac11e99b138573345ccint, 0x1c7b6d784a1eebc579d483c3ffcf1c6028df33da732c527c75ab2dfb88c660f1aba085ea11ed45bf3f99ec7c2cd37b0int, 0xa2bb6aaaa0258b0f8ac716a8b2b69da3e0100ad5e32a2baafc9a5fa799394e0655460e901d315724078f231e93d303bint, den_sixth_8_12(x), den_cube_2_10(x), den_sixth_9_11(x), den_sixth_8_13(x), den_cube_3_10(x), den_sixth_9_12(x));
    lemma_horner_level(x, 0x1866c8ed336c61231a1be54fd1d74cc4f9fb0ce4c6af5920abc5750c4bf39b4852cfe2f7bb9248836b233d9d55535d4aint, 0x588438a3087ecef844af4a2340a35707d62a3b5a43cbaf0eb769fe6897d8eea0774db3b3d5759fe28c6de3a4ec76cc5int, 0xaccbb67481d033ff5852c1e48c50c477f94ff8aefce42d28c0f9a88cea7913516f968986f7ebbea9684b529e2561092int, 0x58707661d6f16350dc65eb815c5227716a6d854ed41ba5ab1eb7b35db18d9d95526c935e844933932c9909aa002d6a6int, 0xa2256668c133c296b27907f9dfb1a6a1a87395109e07ea87508a93f0e461d1426e2e8d0e56b4aa1c027de994ca4ba3fint, den_sixth_8_11(x), den_cube_1_10(x), den_sixth_9_10(x), den_sixth_8_12(x), den_cube_2_10(x), den_sixth_9_11(x));
    lemma_horner_level(x, 0x1866c8ed336c61231a1be54fd1d74cc4f9fb0ce4c6af5920abc5750c4bf39b4852cfe2f7bb9248836b233d9d55535d4aint, 0x21207fd3350c1f27fb11349f7fbc22f331bb46db1ff5325237606b283f0d835b86dc63dfb8380f60dacf770dc235156int, 0x4d2f259eea405bd48f010a01ad2911d9c6dd039bb61a6290e591b36e636a5c871a5c29f4f83060400f8b49cba8f6aa8int, 0x14c669edaffda72f3ce911dc5d8dca09a439f5745a76742502a6f3d65dcf1c0275f391733da65f50f180a37007ebcaf5int, 0x486d5c836ba913eaf226f1b41881c93c4695d91cd7cb48a8baf07eee1825306059374b531810f53fde6c7f7b0ea028dint, den_sixth_8_10(x), den_cube_0_10(x), den_sixth_9_9(x), den_sixth_8_11(x), den_cube_1_10(x), den_sixth_9_10(x));
    lemma_horner_level(x, 0x1866c8ed336c61231a1be54fd1d74cc4f9fb0ce4c6af5920abc5750c4bf39b4852cfe2f7bb9248836b233d9d55535d4aint, 0xdfda0f0008ce2701f03d80cba02e27d0555109290e87485b08c25d60a9193ceacd8721a19fe46523b046c63702aa7c3int, 0x167a55cda70a6e1cea820597d94a84903216f763e13d87bb5308592e7ea7d4fbc7385ea3d529b35e346ef48bb8913f55int, 0x47627fd8bf917ccb684cf4335e186bd00f40ab5dbf107ef24250ffbaa1a2bec16ab897e825f66b9e23a0e23efbdacbaint, 0x1517afdbac1aa12891ec218efb43d3a6ed5cd9707794d38d466b0561e48075acf53818745ac014decb98734cbafb9d9bint, den_sixth_8_9(x), den_cube_0_9(x), den_sixth_9_8(x), den_sixth_8_10(x), den_cube_0_10(x), den_sixth_9_9(x));
    lemma_horner_level(x, 0x1866c8ed336c61231a1be54fd1d74cc4f9fb0ce4c6af5920abc5750c4bf39b4852cfe2f7bb9248836b233d9d55535d4aint, 0xc01559b5be0e964780abc4e09a7c1323800a53f3e61e8d7a12cecf39a65ae9a356ad49e9df416e3f58ac01c5cec0282int, 0x1866c8ed336c61231a1be54fd1d74cc4f9fb0ce4c6af5920abc5750c4bf39b4852cfe2f7bb9248836b233d9d55535d4aint, 0x38b4143b0abb7ce62959606ed8443122b05beaf4d4fd381484411553a6814e1b5f84f3543561082a882a38d964d206dint, 0x16e5c946fb714762e26061833262eef999d77adebfb74498a40b2971152abefe809a7608a7b07dd7ccbfffeade00e5edint, den_sixth_8_8(x), den_cube_0_8(x), den_sixth_9_7(x), den_sixth_8_9(x), den_cube_0_9(x), den_sixth_9_8(x));
    lemma_horner_level(x, 0x1866c8ed336c61231a1be54fd1d74cc4f9fb0ce4c6af5920abc5750c4bf39b4852cfe2f7bb9248836b233d9d55535d4aint, 0x1832fccf11291f70ae6709fba3442837488a38d212c9c49ea3196dd86d2d80853bb4cf575be0ac56dbbfe6e5af7c787aint, 0x16a3ef08be3ea7ea03bcddfabba6ff6ee5a4375efa1f4fd7feb34fd206357132b920f5b00801dee460ee415a15812ed9int, 0x98651e5445cb96c12d9a65b8be9e38fe68c1bc622221d016bce21ca8900f541811903c413e930e8bc09bfd84e083255int, 0x153eb8c2d12f828674bf4ce6cbb2e6728248e14db982f293a889aa093fed970c0f8f7675e2599b660fa49d7e50884cbfint, den_sixth_8_7(x), den_cube_0_7(x), den_sixth_9_6(x), den_sixth_8_8(x), den_cube_0_8(x), den_sixth_9_7(x));
    lemma_horner_level(x, 0x1866c8ed336c61231a1be54fd1d74cc4f9fb0ce4c6af5920abc5750c4bf39b4852cfe2f7bb9248836b233d9d55535d4aint, 0x1526d47f8274d02c6047b9a4e191e3fa1516da9ff0134f3d5519d35518defb14fb760ab9170aed895c8fcc5f31cfe901int, 0x166007c08a99db2fc3ba8734ace9824b5eecfdfa8d0cf8ef5dd365bc400a0051d5fa9c01a58b1fb93d1a1399126a775cint, 0x12d44951dffa510520086a9991f88f830e91e485734484bd6f0add4a0da5515082888b3452e8e629066234e532113f02int, 0x14ff00d622221f75d25af7d671e7eb81fba8926f6c22e63f8282a5686d1fe782087a777d14b2a420ff88e58c8573c7cbint, den_sixth_8_6(x), den_cube_0_6(x), den_sixth_9_5(x), den_sixth_8_7(x), den_cube_0_7(x), den_sixth_9_6(x));
    lemma_horner_level(x, 0x1866c8ed336c61231a1be54fd1d74cc4f9fb0ce4c6af5920abc5750c4bf39b4852cfe2f7bb9248836b233d9d55535d4aint, 0x133520966a42af8b1fd69a12c57d7b1b67562190e25272ab21ad2d77a6be8dfc0a0be7fa35c5b2df865e6d3ad38cc7aaint, 0x8d9e5297186db2d9fb266eaac783182b70152c65550d881c5ecd87b6f0f5a6449f38db9dfa9cce202c6477faaf9b7acint, 0x145544012db5768eb7c6610a4da7f78016b43d023a1d74f4634a75eb23d6e572f9bbfcd975072fbd4a6f3470c5d0d516int, 0x84e3ea349e86be89e672372ed6f06dd33b1aa7f2387e72a0ba96c13fcc2b6e67168248ad126532e60518638203de36cint, den_sixth_8_5(x), den_cube_0_5(x), den_sixth_9_4(x), den_sixth_8_6(x), den_cube_0_6(x), den_sixth_9_5(x));
    lemma_horner_level(x, 0x1866c8ed336c61231a1be54fd1d74cc4f9fb0ce4c6af5920abc5750c4bf39b4852cfe2f7bb9248836b233d9d55535d4aint, 0x183af98d2baa5fe79f4d85f1824ba7bbbf52681a2ac0742c06c9c3293b23c4d8d1630487cc065f63cc4d3cd2f2557000int, 0xbe0e079545f43e4b00cc912f8228ddcc6d19c9f0f69bbb0542eda0fc9dec916a20b15dc0fd2ededda39142311a5001dint, 0x129862871c44e2e38eda32813a8423730988402c5d8bb38a7296939f7e2e88bd478dc2896b73c95eae985eaf1e314d97int, 0xb25768d58d855954b27fe0df818dd9a455b13fd7e50893f6c71594589dad98c145831d00d36935096677916efe94cebint, den_sixth_8_4(x), den_cube_0_4(x), den_sixth_9_3(x), den_sixth_8_5(x), den_cube_0_5(x), den_sixth_9_4(x));
    lemma_horner_level(x, 0x1866c8ed336c61231a1be54fd1d74cc4f9fb0ce4c6af5920abc5750c4bf39b4852cfe2f7bb9248836b233d9d55535d4aint, 0x18ed0a7350851ea6472061733da6930dd3751754bf80b699c85b53e8b4976de93e9814fbdc447a721508cbbb879eee83int, 0x16b7d288798e5395f20d23bf89edb4d1d115c5dbddbcd30e123da489e726af41727364f2c28297ada8d26d98445f5416int, 0x128353e913a81e8e245d14313e8aa8affc18b222ec01064fe343da1c9e3423f01607c22a6d132a282132797e7f222e8aint, 0x155162769bb409ef77cc5ae59eaa610b0c6a3134933b31b30a561ea5c02254adab3f8da7c6e6c36a12d358346e67a529int, den_sixth_8_3(x), den_cube_0_3(x), den_sixth_9_2(x), den_sixth_8_4(x), den_cube_0_4(x), den_sixth_9_3(x));
    lemma_horner_level(x, 0x1866c8ed336c61231a1be54fd1d74cc4f9fb0ce4c6af5920abc5750c4bf39b4852cfe2f7bb9248836b233d9d55535d4aint, 0x167f1ca6d893de9fa1a7b4a537e35c9cd44288568d3b23dbc2714baca687f1544571dc4eed97ac4649aabfbf513ffb84int, 0x58df3306640da276faaae7d6e8eb15778c4855551ae7f310c35a5dd279cd2eca6757cd636f96f891e2538b53dbf67f2int, 0x2bb4e85ce50840796758d1affbf09b3995aa8f5d05963e77ef5e3aa1db46136dc627f76e2c6f7405e34749908ec174fint, 0x53650254fd541f9740312ffd557bb66cb4a64027a493a53cb0388fb0a1898eb1be9de0a597d288540cc70e0aae8353dint, den_sixth_8_2(x), den_cube_0_2(x), den_sixth_9_1(x), den_sixth_8_3(x), den_cube_0_3(x), den_sixth_9_2(x));
    lemma_horner_level(x, 0x1866c8ed336c61231a1be54fd1d74cc4f9fb0ce4c6af5920abc5750c4bf39b4852cfe2f7bb9248836b233d9d55535d4aint, 0x4b95fe688ebfef774ef8e3216db9fcf488c3cdf1a68c0041d90b1b32709041260a1a5758f6565d4c2f2da7985dc6c9cint, 0x1962d75c2381201e1a0cbd6c43c348b885c84ff731c4d59ca4a10356f453e01f78a4260763529e3532f6102c2e49a03dint, 0x1465141a9a529a8f550b4c50d6448d04d8108c37293c69df57b5b218f56681351804d3623f0d26d857bfa79f0b5ca67eint, 0x17d24ed9c71d9d62949dfefa1f8f0885f56d02128fd1f4e3e74ed3f36043550b636c4758fcbdb4cd13ac0984addd1d8cint, den_sixth_8_1(x), den_cube_0_1(x), den_sixth_9_0(x), den_sixth_8_2(x), den_cube_0_2(x), den_sixth_9_1(x));
    lemma_horner_level(x, 0x1866c8ed336c61231a1be54fd1d74cc4f9fb0ce4c6af5920abc5750c4bf39b4852cfe2f7bb9248836b233d9d55535d4aint, 0x57e208df1b79c4041c3ca84a5990504906d66a150243285599c6eb233584b8c23430dc4678c60f2fb0d9674aa0ed923int, 0x16112c4c3a9c98b252181140fad0eae9601a6de578980be6eec3232b5be72e7a07f3688ef60c206d01479253b03663c1int, 0x0int, 0x14b501909de3153b25017d8c4d5e097594a978d3f262a41300ae58c6201781c0b44fad843c96140eceb511feaa634cf5int, den_sixth_8_0(x), den_cube_0_0(x), times(x, den_sixth_9_0(x)), den_sixth_8_1(x), den_cube_0_1(x), den_sixth_9_0(x));
    lemma_product_level(x, 0x1866c8ed336c61231a1be54fd1d74cc4f9fb0ce4c6af5920abc5750c4bf39b4852cfe2f7bb9248836b233d9d55535d4aint, den_cube_0_8(x), den_cube_0_9(x), den_cube_0_0(x), den_sixth_8_0(x), den_sixth_9_0(x));
}

pub(crate) proof fn lemma_den_sixth_step_7(x: int)
    ensures
        congruent(den_sixth_7_0(x), times(den_cube_0_7(x), den_cube_0_0(x))),
{
    lemma_times_zero(x);
    lemma_den_sixth_step_8(x);
    lemma_congruent_refl(den_sixth_8_15(x), 0x16a3ef08be3ea7ea03bcddfabba6ff6ee5a4375efa1f4fd7feb34fd206357132b920f5b00801dee460ee415a15812ed9int * 0int + den_sixth_8_15(x));
    lemma_horner_level(x, 0x16a3ef08be3ea7ea03bcddfabba6ff6ee5a4375efa1f4fd7feb34fd206357132b920f5b00801dee460ee415a15812ed9int, 0x2acb58221b02046d29499ce50759538c7ea8df35aeb2314edf443660f207f6487c06a64c862a2f450bb3496cb6397e0int, 0x1int, 0x609d8639cf15ef719f36389d81a42a146bda2195450e5fc5671c634ff9c0455ed4b74b371b4c40fa9cbf33cb5e213b2int, 0x1int, den_sixth_7_15(x), den_cube_5_10(x), den_sixth_8_14(x), den_sixth_8_15(x), 0int, den_sixth_8_15(x));
    lemma_horner_level(x, 0x16a3ef08be3ea7ea03bcddfabba6ff6ee5a4375efa1f4fd7feb34fd206357132b920f5b00801dee460ee415a15812ed9int, 0x6a45fff217b9c148ff188da14f1b6f9a49db768469e628d9f9226d230787f170da2ec577ff35fd0fb1a9a6261b2030eint, 0xe0fa1d816ddc03e6b24255e0d7819c171c40f65e273b853324efcd6356caa205ca2f570f13497804415473a1d634b8fint, 0x1913b38886ba9c00bb017f22b11ce4c886537fc6ca1cdc3e360e17bf519d17f05134ae77603d20e8974aa7ad16422f4eint, 0xc3dfef00cd3db84c608b9fe8419a764825b8a6e0012271893bf1fa7267075fad485a95f9740c1025ff8a084897ebf65int, den_sixth_7_14(x), den_cube_4_10(x), den_sixth_8_13(x), den_sixth_7_15(x), den_cube_5_10(x), den_sixth_8_14(x));
    lemma_horner_level(x, 0x16a3ef08be3ea7ea03bcddfabba6ff6ee5a4375efa1f4fd7feb34fd206357132b920f5b00801dee460ee415a15812ed9int, 0xf108c7d486bb86d21497a6fdfb430794d66f11893e6c9aa685f2c786a85546784f72261b60002a33075cd6bf4087716int, 0x2660400eb2e4f3b628bdd0d53cd76f2bf565b94e72927c1cb748df27942480e420517bd8714cc80d1fadc1326ed06f7int, 0x16c38a882853067c88b7cb802fe2839f1f90d7613fae7b540bcb9a38c7227d3ce87b5276fbf44ca52fc603aab7731b3fint, 0x21696b0c1df81d1bcdf267941ebd932d14bc3f6af542d684b9580044a49ec33dd7a1a8ed1068969f4b76ab525bec898int, den_sixth_7_13(x), den_cube_3_10(x), den_sixth_8_12(x), den_sixth_7_14(x), den_cube_4_10(x), den_sixth_8_13(x));
    lemma_horner_level(x, 0x16a3ef08be3ea7ea03bcddfabba6ff6ee5a4375efa1f4fd7feb34fd206357132b920f5b00801dee460ee415a15812ed9int, 0x1129712b39f9ade1f00f6d4f8c2e6035115281f6efa2e016eea84ba4620707b6ddb9ec456f76224841239e9b5e55b3b4int, 0xad6b9514c767fe3c3613144b45f1496543346d98adf02267d5ceef9a00d9b8693000763e3b90ac11e99b138573345ccint, 0x588438a3087ecef844af4a2340a35707d62a3b5a43cbaf0eb769fe6897d8eea0774db3b3d5759fe28c6de3a4ec76cc5int, 0x96fcb7fa557076a2998f1cc646a69c0e5c8b5d4d85d731526bae87aac44ac9136ddc9820204e9f09fb2c6ae8cb2a0f7int, den_sixth_7_12(x), den_cube_2_10(x), den_sixth_8_11(x), den_sixth_7_13(x), den_cube_3_10(x), den_sixth_8_12(x));
    lemma_horner_level(x, 0x16a3ef08be3ea7ea03bcddfabba6ff6ee5a4375efa1f4fd7feb34fd206357132b920f5b00801dee460ee415a15812ed9int, 0x117783257bcf677aa9a0cb3ac2bd445fd3f5826d00c8fc344fda5ad7c456ee2f95fa124e7c459522d6e43552eb23faf1int, 0xaccbb67481d033ff5852c1e48c50c477f94ff8aefce42d28c0f9a88cea7913516f968986f7ebbea9684b529e2561092int, 0x21207fd3350c1f27fb11349f7fbc22f331bb46db1ff5325237606b283f0d835b86dc63dfb8380f60dacf770dc235156int, 0x9671877ba1977279ca711337d56d6f1ca0ee1924aac0a55356188b245b1ed020bb079e3b3c3eb3c94752ffd9df3da75int, den_sixth_7_11(x), den_cube_1_10(x), den_sixth_8_10(x), den_sixth_7_12(x), den_cube_2_10(x), den_sixth_8_11(x));
    lemma_horner_level(x, 0x16a3ef08be3ea7ea03bcddfabba6ff6ee5a4375efa1f4fd7feb34fd206357132b920f5b00801dee460ee415a15812ed9int, 0x72766c30af0eb2a1cd63dfd4017fe7ce4b62bed0ca218c2d168ad9373fedf6fbebe3843081416b8f44f7982be117bfcint, 0x4d2f259eea405bd48f010a01ad2911d9c6dd039bb61a6290e591b36e636a5c871a5c29f4f83060400f8b49cba8f6aa8int, 0xdfda0f0008ce2701f03d80cba02e27d0555109290e87485b08c25d60a9193ceacd8721a19fe46523b046c63702aa7c3int, 0x43332b8213c17f45bec12f503f418b56be416136c32818ba39a34d869dc27336dd9359308f426861a801802b1034c8dint, den_sixth_7_10(x), den_cube_0_10(x), den_sixth_8_9(x), den_sixth_7_11(x), den_cube_1_10(x), den_sixth_8_10(x));
    lemma_horner_level(x, 0x16a3ef08be3ea7ea03bcddfabba6ff6ee5a4375efa1f4fd7feb34fd206357132b920f5b00801dee460ee415a15812ed9int, 0x46057ac56bd9038b045585e1736dab60fa7b1acb5ec9a8be1a9ca8fbfc8c9a6d3958be8964d034945bb046748b33983int, 0x167a55cda70a6e1cea820597d94a84903216f763e13d87bb5308592e7ea7d4fbc7385ea3d529b35e346ef48bb8913f55int, 0xc01559b5be0e964780abc4e09a7c1323800a53f3e61e8d7a12cecf39a65ae9a356ad49e9df416e3f58ac01c5cec0282int, 0x1391f9421699f101ca6aa5859c20c307b67366e28ec8ea851f118c0fd6d7d3892f5482f457a3be9282827587c4cd3a24int, den_sixth_7_9(x), den_cube_0_9(x), den_sixth_8_8(x), den_sixth_7_10(x), den_cube_0_10(x), den_sixth_8_9(x));
    lemma_horner_level(x, 0x16a3ef08be3ea7ea03bcddfabba6ff6ee5a4375efa1f4fd7feb34fd206357132b920f5b00801dee460ee415a15812ed9int, 0xcde95cea4759edafed8c5e57752c00746110a590fec597c7333e7455aa915a4d7a49aebf28427c541770df310f113f4int, 0x1866c8ed336c61231a1be54fd1d74cc4f9fb0ce4c6af5920abc5750c4bf39b4852cfe2f7bb9248836b233d9d55535d4aint, 0x1832fccf11291f70ae6709fba3442837488a38d212c9c49ea3196dd86d2d80853bb4cf575be0ac56dbbfe6e5af7c787aint, 0x153eb8c2d12f828674bf4ce6cbb2e6728248e14db982f293a889aa093fed970c0f8f7675e2599b660fa49d7e50884cc0int, den_sixth_7_8(x), den_cube_0_8(x), den_sixth_8_7(x), den_sixth_7_9(x), den_cube_0_9(x), den_sixth_8_8(x));
    lemma_horner_level(x, 0x16a3ef08be3ea7ea03bcddfabba6ff6ee5a4375efa1f4fd7feb34fd206357132b920f5b00801dee460ee415a15812ed9int, 0xadc8d1672b5efaa0c6e6278ff727a8e107f4070fc94cdac3906452cd166c91a6f1d7f511bfb7897516b0225817520f7int, 0x16a3ef08be3ea7ea03bcddfabba6ff6ee5a4375efa1f4fd7feb34fd206357132b920f5b00801dee460ee415a15812ed9int, 0x1526d47f8274d02c6047b9a4e191e3fa1516da9ff0134f3d5519d35518defb14fb760ab9170aed895c8fcc5f31cfe901int, 0x13b630f0affb7ab14d003384b6a2805eb4fa479e90e7afe18b956f554c7b4022e510c170870984ac20d62fd810cf73f1int, den_sixth_7_7(x), den_cube_0_7(x), den_sixth_8_6(x), den_sixth_7_8(x), den_cube_0_8(x), den_sixth_8_7(x));
    lemma_horner_level(x, 0x16a3ef08be3ea7ea03bcddfabba6ff6ee5a4375efa1f4fd7feb34fd206357132b920f5b00801dee460ee415a15812ed9int, 0x1157b16610c7b40b3a2ff3594f322d337d225db35780f7d7a905979f76fae868a524453ee85de003dd29276d7c13ec88int, 0x166007c08a99db2fc3ba8734ace9824b5eecfdfa8d0cf8ef5dd365bc400a0051d5fa9c01a58b1fb93d1a1399126a775cint, 0x133520966a42af8b1fd69a12c57d7b1b67562190e25272ab21ad2d77a6be8dfc0a0be7fa35c5b2df865e6d3ad38cc7aaint, 0x137b124d1d63a16abc6847285d06d25e2e892cee22212661725119057207e37596a0dce93b7a31ecb92930df03edb05aint, den_sixth_7_6(x), den_cube_0_6(x), den_sixth_8_5(x), den_sixth_7_7(x), den_cube_0_7(x), den_sixth_8_6(x));
    lemma_horner_level(x, 0x16a3ef08be3ea7ea03bcddfabba6ff6ee5a4375efa1f4fd7feb34fd206357132b920f5b00801dee460ee415a15812ed9int, 0x13bd490d89dc57f62786eaceaf2a4e0c9e476e31c0e2b0cb7b8aadb40e354ebc2ead60cb60f9113b7533a451ef25255dint, 0x8d9e5297186db2d9fb266eaac783182b70152c65550d881c5ecd87b6f0f5a6449f38db9dfa9cce202c6477faaf9b7acint, 0x183af98d2baa5fe79f4d85f1824ba7bbbf52681a2ac0742c06c9c3293b23c4d8d1630487cc065f63cc4d3cd2f2557000int, 0x7b4c95c250bb5a352cc1d01eb7458bb059bcd837392a9574318a7aef00104b3ee9d59f6a5574a721b652b5c16eaaa4dint, den_sixth_7_5(x), den_cube_0_5(x), den_sixth_8_4(x), den_sixth_7_6(x), den_cube_0_6(x), den_sixth_8_5(x));
    lemma_horner_level(x, 0x16a3ef08be3ea7ea03bcddfabba6ff6ee5a4375efa1f4fd7feb34fd206357132b920f5b00801dee460ee415a15812ed9int, 0x11576564022af6443cc5dd402877f8d9d47bd433900c54c78dc1b3d6ac70e3611fb373cfbf55d30ed759b0c427d46313int, 0xbe0e079545f43e4b00cc912f8228ddcc6d19c9f0f69bbb0542eda0fc9dec916a20b15dc0fd2ededda39142311a5001dint, 0x18ed0a7350851ea6472061733da6930dd3751754bf80b699c85b53e8b4976de93e9814fbdc447a721508cbbb879eee83int, 0xa5784eb6aea5c5439f66409743b8c38dd39a2ef49dcd97128fbb67dd997234828cf07369a0091936b24b78fccec8e0fint, den_sixth_7_4(x), den_cube_0_4(x), den_sixth_8_3(x), den_sixth_7_5(x), den_cube_0_5(x), den_sixth_8_4(x));
    lemma_horner_level(x, 0x16a3ef08be3ea7ea03bcddfabba6ff6ee5a4375efa1f4fd7feb34fd206357132b920f5b00801dee460ee415a15812ed9int, 0x95d5b00414d3b9e5612df7dc517dc596a9e9bbbc3ff2b355e821d42a4a84f907e4511609f8a0b4511f23a670aac0554int, 0x16b7d288798e5395f20d23bf89edb4d1d115c5dbddbcd30e123da489e726af41727364f2c28297ada8d26d98445f5416int, 0x167f1ca6d893de9fa1a7b4a537e35c9cd44288568d3b23dbc2714baca687f1544571dc4eed97ac4649aabfbf513ffb84int, 0x13c781d1e52f5b495377cc50b9f7ef561d790ef2e6d315dcbc014cf9ab7a4be1f2b22678ae6930beaf30c95a2f3e9282int, den_sixth_7_3(x), den_cube_0_3(x), den_sixth_8_2(x), den_sixth_7_4(x), den_cube_0_4(x), den_sixth_8_3(x));
    lemma_horner_level(x, 0x16a3ef08be3ea7ea03bcddfabba6ff6ee5a4375efa1f4fd7feb34fd206357132b920f5b00801dee460ee415a15812ed9int, 0xaaf4020f8de54cc229064d9c791d2173eabff4da810dbaa4a4c5517e434cc4de4db1b66a7c9c83b3e2893d9763475f6int, 0x58df3306640da276faaae7d6e8eb15778c4855551ae7f310c35a5dd279cd2eca6757cd636f96f891e2538b53dbf67f2int, 0x4b95fe688ebfef774ef8e3216db9fcf488c3cdf1a68c0041d90b1b32709041260a1a5758f6565d4c2f2da7985dc6c9cint, 0x4d602e321b3c30829e43eea3f0a5d9977748a9e17ac19ae7b29682cd895e5eba65b505f6ee0379bcbf2e623bfebac58int, den_sixth_7_2(x), den_cube_0_2(x), den_sixth_8_1(x), den_sixth_7_3(x), den_cube_0_3(x), den_sixth_8_2(x));
    lemma_horner_level(x, 0x16a3ef08be3ea7ea03bcddfabba6ff6ee5a4375efa1f4fd7feb34fd206357132b920f5b00801dee460ee415a15812ed9int, 0xf7f295b9a733bbac704c240903a30bdfe415d9b8e962eef67f71a1a1fef4ce4fb44a9af50ec33e1190459b498444effint, 0x1962d75c2381201e1a0cbd6c43c348b885c84ff731c4d59ca4a10356f453e01f78a4260763529e3532f6102c2e49a03dint, 0x57e208df1b79c4041c3ca84a5990504906d66a150243285599c6eb233584b8c23430dc4678c60f2fb0d9674aa0ed923int, 0x161a2c45728631eb0e3b106724b0704ac5ffc9a8dade4a64ef86e4c19fb3a7dc9511cd0e96c1c881aa920c5cd5bcfb8bint, den_sixth_7_1(x), den_cube_0_1(x), den_sixth_8_0(x), den_sixth_7_2(x), den_cube_0_2(x), den_sixth_8_1(x));
    lemma_horner_level(x, 0x16a3ef08be3ea7ea03bcddfabba6ff6ee5a4375efa1f4fd7feb34fd206357132b920f5b00801dee460ee415a15812ed9int, 0x127639bd57e96070e9f6256f5369edd6d625633ac1a2a541a31e92b1293b19808991ba5b298dad3fba2a1e886347f283int, 0x16112c4c3a9c98b252181140fad0eae9601a6de578980be6eec3232b5be72e7a07f3688ef60c206d01479253b03663c1int, 0x0int, 0x13366a3a71834eef2dc02ea357ae461b89d8a4b0b657e62149848bc17c6adc40153210c09dae5101187945cb6c42de42int, den_sixth_7_0(x), den_cube_0_0(x), times(x, den_sixth_8_0(x)), den_sixth_7_1(x), den_cube_0_1(x), den_sixth_8_0(x));
    lemma_product_level(x, 0x16a3ef08be3ea7ea03bcddfabba6ff6ee5a4375efa1f4fd7feb34fd206357132b920f5b00801dee460ee415a15812ed9int, den_cube_0_7(x), den_cube_0_8(x), den_cube_0_0(x), den_sixth_7_0(x), den_sixth_8_0(x));
}

pub(crate) proof fn lemma_den_sixth_step_6(x: int)
    ensures
        congruent(den_sixth_6_0(x), times(den_cube_0_6(x), den_cube_0_0(x))),
{
    lemma_times_zero(x);
    lemma_den_sixth_step_7(x);
    lemma_congruent_refl(den_sixth_7_15(x), 0x166007c08a99db2fc3ba8734ace9824b5eecfdfa8d0cf8ef5dd365bc400a0051d5fa9c01a58b1fb93d1a1399126a775cint * 0int + den_sixth_7_15(x));
    lemma_horner_level(x, 0x166007c08a99db2fc3ba8734ace9824b5eecfdfa8d0cf8ef5dd365bc400a0051d5fa9c01a58b1fb93d1a1399126a775cint, 0x30355d5729590aa089068587e8f8c6d9f1369dde02648bd9634b9ed79d18944c4f1885a742a7f8a7e35adfb741ccfbfint, 0x1int, 0x6a45fff217b9c148ff188da14f1b6f9a49db768469e628d9f9226d230787f170da2ec577ff35fd0fb1a9a6261b2030eint, 0x1int, den_sixth_6_15(x), den_cube_5_10(x), den_sixth_7_14(x), den_sixth_7_15(x), 0int, den_sixth_7_15(x));
    lemma_horner_level(x, 0x166007c08a99db2fc3ba8734ace9824b5eecfdfa8d0cf8ef5dd365bc400a0051d5fa9c01a58b1fb93d1a1399126a775cint, 0x15f69c0efe36256254256cecd7a00b5214f857067d48c53d261b224c5e5c78c6d5ddee0201b0f7c1b86097125c95e9afint, 0xe0fa1d816ddc03e6b24255e0d7819c171c40f65e273b853324efcd6356caa205ca2f570f13497804415473a1d634b8fint, 0xf108c7d486bb86d21497a6fdfb430794d66f11893e6c9aa685f2c786a85546784f72261b60002a33075cd6bf4087716int, 0xc194764ccd27720fe0d1b771dc9e8e027f5c71eda3358db1aed849c5f30f745ca5460153f3d39fc2a9bb9237cc68961int, den_sixth_6_14(x), den_cube_4_10(x), den_sixth_7_13(x), den_sixth_6_15(x), den_cube_5_10(x), den_sixth_7_14(x));
    lemma_horner_level(x, 0x166007c08a99db2fc3ba8734ace9824b5eecfdfa8d0cf8ef5dd365bc400a0051d5fa9c01a58b1fb93d1a1399126a775cint, 0x14ed9d55bbd2384087f21625cfe75791ea25425081d09615365a176d8559cd50737ab56c56a0f4040e8d64cbd6809d1dint, 0x2660400eb2e4f3b628bdd0d53cd76f2bf565b94e72927c1cb748df27942480e420517bd8714cc80d1fadc1326ed06f7int, 0x1129712b39f9ade1f00f6d4f8c2e6035115281f6efa2e016eea84ba4620707b6ddb9ec456f76224841239e9b5e55b3b4int, 0x2105357648fafa9787cf2d3740c1c2816820a32c4eff9734f68842af6d65ba71c88c4bd9624ffdaa8e190c513a43911int, den_sixth_6_13(x), den_cube_3_10(x), den_sixth_7_12(x), den_sixth_6_14(x), den_cube_4_10(x), den_sixth_7_13(x));
    lemma_horner_level(x, 0x166007c08a99db2fc3ba8734ace9824b5eecfdfa8d0cf8ef5dd365bc400a0051d5fa9c01a58b1fb93d1a1399126a775cint, 0x18afe316a696d84d2ba9bab885705c053d291563b7051b23144d58a14636e26d9719996af4560fe61d6e39b19af4a440int, 0xad6b9514c767fe3c3613144b45f1496543346d98adf02267d5ceef9a00d9b8693000763e3b90ac11e99b138573345ccint, 0x117783257bcf677aa9a0cb3ac2bd445fd3f5826d00c8fc344fda5ad7c456ee2f95fa124e7c459522d6e43552eb23faf1int, 0x9537dff5b2d49af0ed211a162cef1852f76b7decdf1aecc02df460a23da348e70155da19731cba14e4337ffef95c003int, den_sixth_6_12(x), den_cube_2_10(x), den_sixth_7_11(x), den_sixth_6_13(x), den_cube_3_10(x), den_sixth_7_12(x));
    lemma_horner_level(x, 0x166007c08a99db2fc3ba8734ace9824b5eecfdfa8d0cf8ef5dd365bc400a0051d5fa9c01a58b1fb93d1a1399126a775cint, 0x11cc3107f9c3e23982a1ffddbf89ad9d2713a71ab5d540e47457f39a373659666f96a3bb78848ae8549b20252e3fcf1eint, 0xaccbb67481d033ff5852c1e48c50c477f94ff8aefce42d28c0f9a88cea7913516f968986f7ebbea9684b529e2561092int, 0x72766c30af0eb2a1cd63dfd4017fe7ce4b62bed0ca218c2d168ad9373fedf6fbebe3843081416b8f44f7982be117bfcint, 0x94ae50ecb2a53d65336fb50ce65b105077c2fa0054d90816d2e4b197321cfddafa8ae32f3458ed37de3e4c898b87e02int, den_sixth_6_11(x), den_cube_1_10(x), den_sixth_7_10(x), den_sixth_6_12(x), den_cube_2_10(x), den_sixth_7_11(x));
    lemma_horner_level(x, 0x166007c08a99db2fc3ba8734ace9824b5eecfdfa8d0cf8ef5dd365bc400a0051d5fa9c01a58b1fb93d1a1399126a775cint, 0xd371d1902d0b22f3102baf36d4f834684ae8b7af46d5816eaa55a31cf4560266e720c778f6877029a30bd98667c0175int, 0x4d2f259eea405bd48f010a01ad2911d9c6dd039bb61a6290e591b36e636a5c871a5c29f4f83060400f8b49cba8f6aa8int, 0x46057ac56bd9038b045585e1736dab60fa7b1acb5ec9a8be1a9ca8fbfc8c9a6d3958be8964d034945bb046748b33983int, 0x42699f6966ce0e74ae39c2c4c1160d116e66174332728a40de71d93effdf12869a044f6bd02aada30046268a2faed4aint, den_sixth_6_10(x), den_cube_0_10(x), den_sixth_7_9(x), den_sixth_6_11(x), den_cube_1_10(x), den_sixth_7_10(x));
    lemma_horner_level(x, 0x166007c08a99db2fc3ba8734ace9824b5eecfdfa8d0cf8ef5dd365bc400a0051d5fa9c01a58b1fb93d1a1399126a775cint, 0x15cb39b2f428d8119e10ec1e9a23ac63404bb0f6ff22bf830b918bd9762b99a7ef4e23bc1abfbf72f98f862816401410int, 0x167a55cda70a6e1cea820597d94a84903216f763e13d87bb5308592e7ea7d4fbc7385ea3d529b35e346ef48bb8913f55int, 0xcde95cea4759edafed8c5e57752c00746110a590fec597c7333e7455aa915a4d7a49aebf28427c541770df310f113f4int, 0x1357473e5520496a4e73fdc9e8ef320247b574289c326bbd231f15dd8d95f2846e0312c71d0927b418b05c78e3e2d050int, den_sixth_6_9(x), den_cube_0_9(x), den_sixth_7_8(x), den_sixth_6_10(x), den_cube_0_10(x), den_sixth_7_9(x));
    lemma_horner_level(x, 0x166007c08a99db2fc3ba8734ace9824b5eecfdfa8d0cf8ef5dd365bc400a0051d5fa9c01a58b1fb93d1a1399126a775cint, 0xd2f184415306ed14cadb1844f0bcf051704368b7963982c1f153b37dca072dee80afed5e01d7ff7a798999f8133caf6int, 0x1866c8ed336c61231a1be54fd1d74cc4f9fb0ce4c6af5920abc5750c4bf39b4852cfe2f7bb9248836b233d9d55535d4aint, 0xadc8d1672b5efaa0c6e6278ff727a8e107f4070fc94cdac3906452cd166c91a6f1d7f511bfb7897516b0225817520f7int, 0x14ff00d622221f75d25af7d671e7eb81fba8926f6c22e63f8282a5686d1fe782087a777d14b2a420ff88e58c8573c7cbint, den_sixth_6_8(x), den_cube_0_8(x), den_sixth_7_7(x), den_sixth_6_9(x), den_cube_0_9(x), den_sixth_7_8(x));
    lemma_horner_level(x, 0x166007c08a99db2fc3ba8734ace9824b5eecfdfa8d0cf8ef5dd365bc400a0051d5fa9c01a58b1fb93d1a1399126a775cint, 0xf7a4235b74cb88b54894c9fd8e6df4b92ee99d5ccaf7d04305e01c7473742d5403ca2839af60d2833f3e1a0249b1166int, 0x16a3ef08be3ea7ea03bcddfabba6ff6ee5a4375efa1f4fd7feb34fd206357132b920f5b00801dee460ee415a15812ed9int, 0x1157b16610c7b40b3a2ff3594f322d337d225db35780f7d7a905979f76fae868a524453ee85de003dd29276d7c13ec88int, 0x137b124d1d63a16abc6847285d06d25e2e892cee22212661725119057207e37596a0dce93b7a31ecb92930df03edb05aint, den_sixth_6_7(x), den_cube_0_7(x), den_sixth_7_6(x), den_sixth_6_8(x), den_cube_0_8(x), den_sixth_7_7(x));
    lemma_horner_level(x, 0x166007c08a99db2fc3ba8734ace9824b5eecfdfa8d0cf8ef5dd365bc400a0051d5fa9c01a58b1fb93d1a1399126a775cint, 0xfa8b2cf74223394434c2f0d78add2061b815f71dbf1ae9bb3b5c3e52c85db255816f493963827bf6ab5746852d3fa27int, 0x166007c08a99db2fc3ba8734ace9824b5eecfdfa8d0cf8ef5dd365bc400a0051d5fa9c01a58b1fb93d1a1399126a775cint, 0x13bd490d89dc57f62786eaceaf2a4e0c9e476e31c0e2b0cb7b8aadb40e354ebc2ead60cb60f9113b7533a451ef25255dint, 0x1340a4f9a88e34c89c2be9049d098b56dc1f8f87093a1ec0fbfb74081a5a5a3c5457fe3b39b4e6f2e1074c1e51497cd2int, den_sixth_6_6(x), den_cube_0_6(x), den_sixth_7_5(x), den_sixth_6_7(x), den_cube_0_7(x), den_sixth_7_6(x));
    lemma_horner_level(x, 0x166007c08a99db2fc3ba8734ace9824b5eecfdfa8d0cf8ef5dd365bc400a0051d5fa9c01a58b1fb93d1a1399126a775cint, 0xaf7fb2dd7b9cefde635a2dfc20e73a74eb12d474a2bb1b86cea70b3c3241ead1c93077718c5f409962e1dffaea47df3int, 0x8d9e5297186db2d9fb266eaac783182b70152c65550d881c5ecd87b6f0f5a6449f38db9dfa9cce202c6477faaf9b7acint, 0x11576564022af6443cc5dd402877f8d9d47bd433900c54c78dc1b3d6ac70e3611fb373cfbf55d30ed759b0c427d46313int, 0x79dac89d816e26ab8e8a3979bc66353429ce4da248f62d0a65df966040f597699effbcca8423d68e8368218fe6490d0int, den_sixth_6_5(x), den_cube_0_5(x), den_sixth_7_4(x), den_sixth_6_6(x), den_cube_0_6(x), den_sixth_7_5(x));
    lemma_horner_level(x, 0x166007c08a99db2fc3ba8734ace9824b5eecfdfa8d0cf8ef5dd365bc400a0051d5fa9c01a58b1fb93d1a1399126a775cint, 0x14e47791bdbc3c2677a5c67acd166758b57c6672444de7fdd947bd8f8598f3a2caf847c63c1430d5438fa2c38f85d8f0int, 0xbe0e079545f43e4b00cc912f8228ddcc6d19c9f0f69bbb0542eda0fc9dec916a20b15dc0fd2ededda39142311a5001dint, 0x95d5b00414d3b9e5612df7dc517dc596a9e9bbbc3ff2b355e821d42a4a84f907e4511609f8a0b4511f23a670aac0554int, 0xa38806d1e52e7a849efd39a96daf07aad033bc0851a8ddd2a66d055abc8a66875c4e1e63213500ba557ae44e7f51570int, den_sixth_6_4(x), den_cube_0_4(x), den_sixth_7_3(x), den_sixth_6_5(x), den_cube_0_5(x), den_sixth_7_4(x));
    lemma_horner_level(x, 0x166007c08a99db2fc3ba8734ace9824b5eecfdfa8d0cf8ef5dd365bc400a0051d5fa9c01a58b1fb93d1a1399126a775cint, 0x863a1b5aec74c3788aa1414140b186b183abc6787468bc6a5ec11ec5ec1710e276d9ca72ac5f4ba161d6b20439d397dint, 0x16b7d288798e5395f20d23bf89edb4d1d115c5dbddbcd30e123da489e726af41727364f2c28297ada8d26d98445f5416int, 0xaaf4020f8de54cc229064d9c791d2173eabff4da810dbaa4a4c5517e434cc4de4db1b66a7c9c83b3e2893d9763475f6int, 0x138c2f3f23cbbfce4ca9f1033dbce9c607965f5a5359f83a7f610f9ae89a3325ccd8a7e0db1fc96c3eb50e8d61460b23int, den_sixth_6_3(x), den_cube_0_3(x), den_sixth_7_2(x), den_sixth_6_4(x), den_cube_0_4(x), den_sixth_7_3(x));
    lemma_horner_level(x, 0x166007c08a99db2fc3ba8734ace9824b5eecfdfa8d0cf8ef5dd365bc400a0051d5fa9c01a58b1fb93d1a1399126a775cint, 0x5a188694742d2fd566d2653ee5afd6573930b478b272c1be782b9614b542e0a5a1cdcbb563404e92fce0380429624a3int, 0x58df3306640da276faaae7d6e8eb15778c4855551ae7f310c35a5dd279cd2eca6757cd636f96f891e2538b53dbf67f2int, 0xf7f295b9a733bbac704c240903a30bdfe415d9b8e962eef67f71a1a1fef4ce4fb44a9af50ec33e1190459b498444effint, 0x4c781d1957b41d1a991fe0770839820b3281ce0919261995d0b83b41c78863603cc7b5c48274aac91aeeda8b3f309fcint, den_sixth_6_2(x), den_cube_0_2(x), den_sixth_7_1(x), den_sixth_6_3(x), den_cube_0_3(x), den_sixth_7_2(x));
    lemma_horner_level(x, 0x166007c08a99db2fc3ba8734ace9824b5eecfdfa8d0cf8ef5dd365bc400a0051d5fa9c01a58b1fb93d1a1399126a775cint, 0x65397d7cffa149cdb9c1f733b417fc111b28db1fee5c8906be9964f74839ddeaf3a71ed04245f8d42925916b46a50c2int, 0x1962d75c2381201e1a0cbd6c43c348b885c84ff731c4d59ca4a10356f453e01f78a4260763529e3532f6102c2e49a03dint, 0x127639bd57e96070e9f6256f5369edd6d625633ac1a2a541a31e92b1293b19808991ba5b298dad3fba2a1e886347f283int, 0x15d7e22a095337b64888699aa9a4a5a8e1aec25e442b666238686429d5d5dbce1c8d9c77fed7e5fb23fe8860423bb807int, den_sixth_6_1(x), den_cube_0_1(x), den_sixth_7_0(x), den_sixth_6_2(x), den_cube_0_2(x), den_sixth_7_1(x));
    lemma_horner_level(x, 0x166007c08a99db2fc3ba8734ace9824b5eecfdfa8d0cf8ef5dd365bc400a0051d5fa9c01a58b1fb93d1a1399126a775cint, 0xd2f640dd2af63850eba582b5d198d1e66cecf5800131c05b39a52c30f5c168f590564d76de90d739a2968d84f160a54int, 0x16112c4c3a9c98b252181140fad0eae9601a6de578980be6eec3232b5be72e7a07f3688ef60c206d01479253b03663c1int, 0x0int, 0x12fccad18069407da011bee2cbcbe164a8ffb5bfe8c7f943f7bc89d4ecbbf143837ad5bf63de69342213856618539218int, den_sixth_6_0(x), den_cube_0_0(x), times(x, den_sixth_7_0(x)), den_sixth_6_1(x), den_cube_0_1(x), den_sixth_7_0(x));
    lemma_product_level(x, 0x166007c08a99db2fc3ba8734ace9824b5eecfdfa8d0cf8ef5dd365bc400a0051d5fa9c01a58b1fb93d1a1399126a775cint, den_cube_0_6(x), den_cube_0_7(x), den_cube_0_0(x), den_sixth_6_0(x), den_sixth_7_0(x));
}

pub(crate) proof fn lemma_den_sixth_step_5(x: int)
    ensures
        congruent(den_sixth_5_0(x), times(den_cube_0_5(x), den_cube_0_0(x))),
{
    lemma_times_zero(x);
    lemma_den_sixth_step_6(x);
    lemma_congruent_refl(den_sixth_6_15(x), 0x8d9e5297186db2d9fb266eaac783182b70152c65550d881c5ecd87b6f0f5a6449f38db9dfa9cce202c6477faaf9b7acint * 0int + den_sixth_6_15(x));
    lemma_horner_level(x, 0x8d9e5297186db2d9fb266eaac783182b70152c65550d881c5ecd87b6f0f5a6449f38db9dfa9cce202c6477faaf9b7acint, 0x4cf6f4e363d19f5a8bc2c2140cc8ffd67825e47df148aff84d72826d6badd0701257bbd3006c4a40127de92078ff6b0int, 0x1int, 0x15f69c0efe36256254256cecd7a00b5214f857067d48c53d261b224c5e5c78c6d5ddee0201b0f7c1b86097125c95e9afint, 0x1int, den_sixth_5_15(x), den_cube_5_10(x), den_sixth_6_14(x), den_sixth_6_15(x), 0int, den_sixth_6_15(x));
    lemma_horner_level(x, 0x8d9e5297186db2d9fb266eaac783182b70152c65550d881c5ecd87b6f0f5a6449f38db9dfa9cce202c6477faaf9b7acint, 0xce86deb0d150524918eca7678286a8862f53a5af67fc08812e81835d5cbed6229dd87126a8695490ef3555553adda1dint, 0xe0fa1d816ddc03e6b24255e0d7819c171c40f65e273b853324efcd6356caa205ca2f570f13497804415473a1d634b8fint, 0x14ed9d55bbd2384087f21625cfe75791ea25425081d09615365a176d8559cd50737ab56c56a0f4040e8d64cbd6809d1dint, 0x4c938daf3d09158a5bbc2c933c905392c79c69596cb94450bff3d6418256cd324575f378656c7392a83b2cb5227403cint, den_sixth_5_14(x), den_cube_4_10(x), den_sixth_6_13(x), den_sixth_5_15(x), den_cube_5_10(x), den_sixth_6_14(x));
    lemma_horner_level(x, 0x8d9e5297186db2d9fb266eaac783182b70152c65550d881c5ecd87b6f0f5a6449f38db9dfa9cce202c6477faaf9b7acint, 0xaf17eee28e066b447f3586c86db8d8dfe58ee2b52575e3174c80c0b764f6aea1675658336ce0013b2ca14ff4239ecd5int, 0x2660400eb2e4f3b628bdd0d53cd76f2bf565b94e72927c1cb748df27942480e420517bd8714cc80d1fadc1326ed06f7int, 0x18afe316a696d84d2ba9bab885705c053d291563b7051b23144d58a14636e26d9719996af4560fe61d6e39b19af4a440int, 0xd0febf78681cba97cf1da9d3d973e56552b0f759f5dfbad726968678b5c9ca64c62bf29c39fc8d2ffdd90617bbe31dint, den_sixth_5_13(x), den_cube_3_10(x), den_sixth_6_12(x), den_sixth_5_14(x), den_cube_4_10(x), den_sixth_6_13(x));
    lemma_horner_level(x, 0x8d9e5297186db2d9fb266eaac783182b70152c65550d881c5ecd87b6f0f5a6449f38db9dfa9cce202c6477faaf9b7acint, 0x1789ce0735a6beb07865273b4dda1d3f3a7fc6d3b7346c63a18070816fab237c8b2eb061db37da97c2f61242bd1e9278int, 0xad6b9514c767fe3c3613144b45f1496543346d98adf02267d5ceef9a00d9b8693000763e3b90ac11e99b138573345ccint, 0x11cc3107f9c3e23982a1ffddbf89ad9d2713a71ab5d540e47457f39a373659666f96a3bb78848ae8549b20252e3fcf1eint, 0x3b071cdfe05c488880a9ea3b033dd356d37e17c7f9c1a220267c4c815641db16fcc1387779ad9167152654dfed0e122int, den_sixth_5_12(x), den_cube_2_10(x), den_sixth_6_11(x), den_sixth_5_13(x), den_cube_3_10(x), den_sixth_6_12(x));
    lemma_horner_level(x, 0x8d9e5297186db2d9fb266eaac783182b70152c65550d881c5ecd87b6f0f5a6449f38db9dfa9cce202c6477faaf9b7acint, 0xdc13441f9013ad37f2718d0a6fa2516581ec60d3b80a4ca693d353f017a575c5d319685888ac98486da1e8b205c87daint, 0xaccbb67481d033ff5852c1e48c50c477f94ff8aefce42d28c0f9a88cea7913516f968986f7ebbea9684b529e2561092int, 0xd371d1902d0b22f3102baf36d4f834684ae8b7af46d5816eaa55a31cf4560266e720c778f6877029a30bd98667c0175int, 0x3ad0b2814e451e5411597cd25219bac12295fc016d51381a5549541711794dcc38514ac5a30b5a183f79de5bc7fed19int, den_sixth_5_11(x), den_cube_1_10(x), den_sixth_6_10(x), den_sixth_5_12(x), den_cube_2_10(x), den_sixth_6_11(x));
    lemma_horner_level(x, 0x8d9e5297186db2d9fb266eaac783182b70152c65550d881c5ecd87b6f0f5a6449f38db9dfa9cce202c6477faaf9b7acint, 0x15120d609b50eacdfc6d2389ffa57dbb53ceca81fa83b6a998fbadfae447c10b6a6f48f07f51a70194ff7c145733ce7cint, 0x4d2f259eea405bd48f010a01ad2911d9c6dd039bb61a6290e591b36e636a5c871a5c29f4f83060400f8b49cba8f6aa8int, 0x15cb39b2f428d8119e10ec1e9a23ac63404bb0f6ff22bf830b918bd9762b99a7ef4e23bc1abfbf72f98f862816401410int, 0x1a458134daf7b1bba5312f9469430b53ab07e01a207913f7b47ae993f078326a4596427acb0d146891fb2bdd186135cint, den_sixth_5_10(x), den_cube_0_10(x), den_sixth_6_9(x), den_sixth_5_11(x), den_cube_1_10(x), den_sixth_6_10(x));
    lemma_horner_level(x, 0x8d9e5297186db2d9fb266eaac783182b70152c65550d881c5ecd87b6f0f5a6449f38db9dfa9cce202c6477faaf9b7acint, 0xc8cced1876963d93da3c63c257d891d728df705df94f2d97689fc23fc69158936c7c1248c9a4311376a2bf85f00af1int, 0x167a55cda70a6e1cea820597d94a84903216f763e13d87bb5308592e7ea7d4fbc7385ea3d529b35e346ef48bb8913f55int, 0xd2f184415306ed14cadb1844f0bcf051704368b7963982c1f153b37dca072dee80afed5e01d7ff7a798999f8133caf6int, 0x7a6a0a2d3f6d4abbc56f28aca71893c1cdec051f256bdb990a974e4ddf987731249ba277084d743ac791e59c6ca3063int, den_sixth_5_9(x), den_cube_0_9(x), den_sixth_6_8(x), den_sixth_5_10(x), den_cube_0_10(x), den_sixth_6_9(x));
    lemma_horner_level(x, 0x8d9e5297186db2d9fb266eaac783182b70152c65550d881c5ecd87b6f0f5a6449f38db9dfa9cce202c6477faaf9b7acint, 0xe5a1ecaf3d9f187bc9985a850bc62e6e3907e6474e47abaeec0b953ca1eeb5e508c8da45bb4904a6fe31a6a325703faint, 0x1866c8ed336c61231a1be54fd1d74cc4f9fb0ce4c6af5920abc5750c4bf39b4852cfe2f7bb9248836b233d9d55535d4aint, 0xf7a4235b74cb88b54894c9fd8e6df4b92ee99d5ccaf7d04305e01c7473742d5403ca2839af60d2833f3e1a0249b1166int, 0x84e3ea349e86be89e672372ed6f06dd33b1aa7f2387e72a0ba96c13fcc2b6e67168248ad126532e60518638203de36cint, den_sixth_5_8(x), den_cube_0_8(x), den_sixth_6_7(x), den_sixth_5_9(x), den_cube_0_9(x), den_sixth_6_8(x));
    lemma_horner_level(x, 0x8d9e5297186db2d9fb266eaac783182b70152c65550d881c5ecd87b6f0f5a6449f38db9dfa9cce202c6477faaf9b7acint, 0xb2b024fd2542ba2cb8593eaa58c7856fa7665897213eb3b2876ae6fff976508b56150d72b2ad997139bdbe74fa3af84int, 0x16a3ef08be3ea7ea03bcddfabba6ff6ee5a4375efa1f4fd7feb34fd206357132b920f5b00801dee460ee415a15812ed9int, 0xfa8b2cf74223394434c2f0d78add2061b815f71dbf1ae9bb3b5c3e52c85db255816f493963827bf6ab5746852d3fa27int, 0x7b4c95c250bb5a352cc1d01eb7458bb059bcd837392a9574318a7aef00104b3ee9d59f6a5574a721b652b5c16eaaa4dint, den_sixth_5_7(x), den_cube_0_7(x), den_sixth_6_6(x), den_sixth_5_8(x), den_cube_0_8(x), den_sixth_6_7(x));
    lemma_horner_level(x, 0x8d9e5297186db2d9fb266eaac783182b70152c65550d881c5ecd87b6f0f5a6449f38db9dfa9cce202c6477faaf9b7acint, 0x49890f7ad48a7b78fa5687f5ba4ee74c8e6865b044b0ea94c132d90d9d759f919729b1e7236150455028b3b357498d3int, 0x166007c08a99db2fc3ba8734ace9824b5eecfdfa8d0cf8ef5dd365bc400a0051d5fa9c01a58b1fb93d1a1399126a775cint, 0xaf7fb2dd7b9cefde635a2dfc20e73a74eb12d474a2bb1b86cea70b3c3241ead1c93077718c5f409962e1dffaea47df3int, 0x79dac89d816e26ab8e8a3979bc66353429ce4da248f62d0a65df966040f597699effbcca8423d68e8368218fe6490d0int, den_sixth_5_6(x), den_cube_0_6(x), den_sixth_6_5(x), den_sixth_5_7(x), den_cube_0_7(x), den_sixth_6_6(x));
    lemma_horner_level(x, 0x8d9e5297186db2d9fb266eaac783182b70152c65550d881c5ecd87b6f0f5a6449f38db9dfa9cce202c6477faaf9b7acint, 0x19a78e1d48e9fca89c195337958f9467b925e3c85064d8402e160d19be8da1884a67045511962256ee87c6c64612aee5int, 0x8d9e5297186db2d9fb266eaac783182b70152c65550d881c5ecd87b6f0f5a6449f38db9dfa9cce202c6477faaf9b7acint, 0x14e47791bdbc3c2677a5c67acd166758b57c6672444de7fdd947bd8f8598f3a2caf847c63c1430d5438fa2c38f85d8f0int, 0x303409a446efa784cc8fb6e831f3ee30b28e2ee43f084589a397a50ec569720d42d7466e4e5b334de0b82ce2e4890d1int, den_sixth_5_5(x), den_cube_0_5(x), den_sixth_6_4(x), den_sixth_5_6(x), den_cube_0_6(x), den_sixth_6_5(x));
    lemma_horner_level(x, 0x8d9e5297186db2d9fb266eaac783182b70152c65550d881c5ecd87b6f0f5a6449f38db9dfa9cce202c6477faaf9b7acint, 0x882f6ec024b3bbc2386f7d139eb58d8209955b75a75b59f2a6988ae3000cdbec91626cc35aaab5988ac2d345e61f001int, 0xbe0e079545f43e4b00cc912f8228ddcc6d19c9f0f69bbb0542eda0fc9dec916a20b15dc0fd2ededda39142311a5001dint, 0x863a1b5aec74c3788aa1414140b186b183abc6787468bc6a5ec11ec5ec1710e276d9ca72ac5f4ba161d6b20439d397dint, 0x40b0941cbc8cfce5fef3c02161aa1939295657f33a89fff1a00fd8a74bfa243f5c1156faa62f9c1afe5802f7c0b47e8int, den_sixth_5_4(x), den_cube_0_4(x), den_sixth_6_3(x), den_sixth_5_5(x), den_cube_0_5(x), den_sixth_6_4(x));
    lemma_horner_level(x, 0x8d9e5297186db2d9fb266eaac783182b70152c65550d881c5ecd87b6f0f5a6449f38db9dfa9cce202c6477faaf9b7acint, 0x182b8144a534d84d9357618361531d248c6fe9bc4035a6b9f10b1df067b27dc124f9eae8944619bca2efea9c3760f81aint, 0x16b7d288798e5395f20d23bf89edb4d1d115c5dbddbcd30e123da489e726af41727364f2c28297ada8d26d98445f5416int, 0x5a188694742d2fd566d2653ee5afd6573930b478b272c1be782b9614b542e0a5a1cdcbb563404e92fce0380429624a3int, 0x7bb8e600329c104a31774ccb8bffb75be670020d60ab89f3c34f53c21eb3b04bb889d64fb7572d74ae75bdfc13d2ff3int, den_sixth_5_3(x), den_cube_0_3(x), den_sixth_6_2(x), den_sixth_5_4(x), den_cube_0_4(x), den_sixth_6_3(x));
    lemma_horner_level(x, 0x8d9e5297186db2d9fb266eaac783182b70152c65550d881c5ecd87b6f0f5a6449f38db9dfa9cce202c6477faaf9b7acint, 0x1749ea70e0d65f9db8d6fff7c5ae5304b7ccfe963fad2314677d872491962bf98d0eed75e818263b198dd222a7fbbb99int, 0x58df3306640da276faaae7d6e8eb15778c4855551ae7f310c35a5dd279cd2eca6757cd636f96f891e2538b53dbf67f2int, 0x65397d7cffa149cdb9c1f733b417fc111b28db1fee5c8906be9964f74839ddeaf3a71ed04245f8d42925916b46a50c2int, 0x1e3fec1a20e6cfc64c458212ab327fa0e3053a22d9fd82504f907495a6ca98aa3f6e1a39bf595ad23fcd8c6bd6c3d43int, den_sixth_5_2(x), den_cube_0_2(x), den_sixth_6_1(x), den_sixth_5_3(x), den_cube_0_3(x), den_sixth_6_2(x));
    lemma_horner_level(x, 0x8d9e5297186db2d9fb266eaac783182b70152c65550d881c5ecd87b6f0f5a6449f38db9dfa9cce202c6477faaf9b7acint, 0x18bf7126dcf5600c35b25ad76e5e4aeafafec65d7f201eba3b32d5f3b93319b9f3f34d6abca22a8cd4d407785bfffb9int, 0x1962d75c2381201e1a0cbd6c43c348b885c84ff731c4d59ca4a10356f453e01f78a4260763529e3532f6102c2e49a03dint, 0xd2f640dd2af63850eba582b5d198d1e66cecf5800131c05b39a52c30f5c168f590564d76de90d739a2968d84f160a54int, 0x8a409c61a0021215e474f12676eccd0a8986f4db474a8388a19174f093a422b3f86cb88c1dd2d981f395c1c90cfebc5int, den_sixth_5_1(x), den_cube_0_1(x), den_sixth_6_0(x), den_sixth_5_2(x), den_cube_0_2(x), den_sixth_6_1(x));
    lemma_horner_level(x, 0x8d9e5297186db2d9fb266eaac783182b70152c65550d881c5ecd87b6f0f5a6449f38db9dfa9cce202c6477faaf9b7acint, 0x1065e02e694a83aed889a810aef90987f9ee616291dccf99e03b2cfc2f7259dd90332eb2f701517fd41d96f05dd2a694int, 0x16112c4c3a9c98b252181140fad0eae9601a6de578980be6eec3232b5be72e7a07f3688ef60c206d01479253b03663c1int, 0x0int, 0x782d53fba51b60e219753058ab30faf9b978fa5b9491b538b66d36dee44cbb8c894e2c25aed4a30628b85f84c890248int, den_sixth_5_0(x), den_cube_0_0(x), times(x, den_sixth_6_0(x)), den_sixth_5_1(x), den_cube_0_1(x), den_sixth_6_0(x));
    lemma_product_level(x, 0x8d9e5297186db2d9fb266eaac783182b70152c65550d881c5ecd87b6f0f5a6449f38db9dfa9cce202c6477faaf9b7acint, den_cube_0_5(x), den_cube_0_6(x), den_cube_0_0(x), den_sixth_5_0(x), den_sixth_6_0(x));
}

pub(crate) proof fn lemma_den_sixth_step_4(x: int)
    ensures
        congruent(den_sixth_4_0(x), times(den_cube_0_4(x), den_cube_0_0(x))),
{
    lemma_times_zero(x);
    lemma_den_sixth_step_5(x);
    lemma_congruent_refl(den_sixth_5_15(x), 0xbe0e079545f43e4b00cc912f8228ddcc6d19c9f0f69bbb0542eda0fc9dec916a20b15dc0fd2ededda39142311a5001dint * 0int + den_sixth_5_15(x));
    lemma_horner_level(x, 0xbe0e079545f43e4b00cc912f8228ddcc6d19c9f0f69bbb0542eda0fc9dec916a20b15dc0fd2ededda39142311a5001dint, 0x18c94e6461744909419b9389704af86529c6d6fa05e97c386716f2459faab678cbe89cee7a598336e92c69786552da3aint, 0x1int, 0xce86deb0d150524918eca7678286a8862f53a5af67fc08812e81835d5cbed6229dd87126a8695490ef3555553adda1dint, 0x0int, den_sixth_4_15(x), den_cube_5_10(x), den_sixth_5_14(x), den_sixth_5_15(x), 0int, den_sixth_5_15(x));
    lemma_horner_level(x, 0xbe0e079545f43e4b00cc912f8228ddcc6d19c9f0f69bbb0542eda0fc9dec916a20b15dc0fd2ededda39142311a5001dint, 0x9e0ceb9df21a5c74d4611b96ba5a4f0da9023e98c92c24bb615e8a0f1e271532a4b21f869b09f32107eea22746a96daint, 0xe0fa1d816ddc03e6b24255e0d7819c171c40f65e273b853324efcd6356caa205ca2f570f13497804415473a1d634b8fint, 0xaf17eee28e066b447f3586c86db8d8dfe58ee2b52575e3174c80c0b764f6aea1675658336ce0013b2ca14ff4239ecd5int, 0x66c45cdcd43c51c1f9b77560b9e72610063b05bb8e891d36de783f55026db95ea86dbd12d798f9f362a7e41ac37af8aint, den_sixth_4_14(x), den_cube_4_10(x), den_sixth_5_13(x), den_sixth_4_15(x), den_cube_5_10(x), den_sixth_5_14(x));
    lemma_horner_level(x, 0xbe0e079545f43e4b00cc912f8228ddcc6d19c9f0f69bbb0542eda0fc9dec916a20b15dc0fd2ededda39142311a5001dint, 0x13dba8f96e35c50f2fa6779e4fd92410211de59a44769780143c62d9a85c64fa4bbc72a4ae896f19f550e33013eeeb3eint, 0x2660400eb2e4f3b628bdd0d53cd76f2bf565b94e72927c1cb748df27942480e420517bd8714cc80d1fadc1326ed06f7int, 0x1789ce0735a6beb07865273b4dda1d3f3a7fc6d3b7346c63a18070816fab237c8b2eb061db37da97c2f61242bd1e9278int, 0x11879c358299506fbb5eaaea75ea3138411d5582b5b39bd5b05151c43bab6cadbc3ec666914b1967fbeca113654539fint, den_sixth_4_13(x), den_cube_3_10(x), den_sixth_5_12(x), den_sixth_4_14(x), den_cube_4_10(x), den_sixth_5_13(x));
    lemma_horner_level(x, 0xbe0e079545f43e4b00cc912f8228ddcc6d19c9f0f69bbb0542eda0fc9dec916a20b15dc0fd2ededda39142311a5001dint, 0x11f8ebd8a570a03de686f7d2f09d8be18d594d3968a04a008f1cf3d5ea94f927e5d2a122fc295e8634bb220b43930db5int, 0xad6b9514c767fe3c3613144b45f1496543346d98adf02267d5ceef9a00d9b8693000763e3b90ac11e99b138573345ccint, 0xdc13441f9013ad37f2718d0a6fa2516581ec60d3b80a4ca693d353f017a575c5d319685888ac98486da1e8b205c87daint, 0x4f376ac5cdb102b2fd70558f85ff7f1172a22d3ee368fd649dc4647d69432c0d1994a6340f9f2c8a8356c5cf90026c3int, den_sixth_4_12(x), den_cube_2_10(x), den_sixth_5_11(x), den_sixth_4_13(x), den_cube_3_10(x), den_sixth_5_12(x));
    lemma_horner_level(x, 0xbe0e079545f43e4b00cc912f8228ddcc6d19c9f0f69bbb0542eda0fc9dec916a20b15dc0fd2ededda39142311a5001dint, 0xd74155140c29b322047be2be7f9bc341ce09ffab9de343fcd7ca35bdce852371e53950bd47e808a966ecdea3f74dbebint, 0xaccbb67481d033ff5852c1e48c50c477f94ff8aefce42d28c0f9a88cea7913516f968986f7ebbea9684b529e2561092int, 0x15120d609b50eacdfc6d2389ffa57dbb53ceca81fa83b6a998fbadfae447c10b6a6f48f07f51a70194ff7c145733ce7cint, 0x4eee63efda95d2b4480d91e868f89ffcc054e6fbf815aae0f927f3d1239e569f6ce54a252b65226e8f6356ecc1b7951int, den_sixth_4_11(x), den_cube_1_10(x), den_sixth_5_10(x), den_sixth_4_12(x), den_cube_2_10(x), den_sixth_5_11(x));
    lemma_horner_level(x, 0xbe0e079545f43e4b00cc912f8228ddcc6d19c9f0f69bbb0542eda0fc9dec916a20b15dc0fd2ededda39142311a5001dint, 0x12fb06fa2a0106bc4ba705da9c1b30abf3f8f6108fe33158fe18c7041985779fdc188c8253987681f1dbbc34c061f5f8int, 0x4d2f259eea405bd48f010a01ad2911d9c6dd039bb61a6290e591b36e636a5c871a5c29f4f83060400f8b49cba8f6aa8int, 0xc8cced1876963d93da3c63c257d891d728df705df94f2d97689fc23fc69158936c7c1248c9a4311376a2bf85f00af1int, 0x2341c3332319101914d96a4bcc164fce932ff6cdde84c963b0b7a1a510902f38241023a309bfd8d173d699ce8427e03int, den_sixth_4_10(x), den_cube_0_10(x), den_sixth_5_9(x), den_sixth_4_11(x), den_cube_1_10(x), den_sixth_5_10(x));
    lemma_horner_level(x, 0xbe0e079545f43e4b00cc912f8228ddcc6d19c9f0f69bbb0542eda0fc9dec916a20b15dc0fd2ededda39142311a5001dint, 0x7b12725d579198c47751899fef57b19af97072cf988dec75201ac8e225e95a147c0159336ad93e90ede9ca367a3763aint, 0x167a55cda70a6e1cea820597d94a84903216f763e13d87bb5308592e7ea7d4fbc7385ea3d529b35e346ef48bb8913f55int, 0xe5a1ecaf3d9f187bc9985a850bc62e6e3907e6474e47abaeec0b953ca1eeb5e508c8da45bb4904a6fe31a6a325703faint, 0xa4484779fd4783e319be1439c2b50df5736d8c7050e84b2affaf8dcf33d92e20b818b580b87fecf1265f819acf52f23int, den_sixth_4_9(x), den_cube_0_9(x), den_sixth_5_8(x), den_sixth_4_10(x), den_cube_0_10(x), den_sixth_5_9(x));
    lemma_horner_level(x, 0xbe0e079545f43e4b00cc912f8228ddcc6d19c9f0f69bbb0542eda0fc9dec916a20b15dc0fd2ededda39142311a5001dint, 0x10cd9955e1b9a8a6dbf8e75aed53fc9fb0408d773f48abdcbca9ddf9bc8ca1243f3692d58bbd6f9c3150ba0b23c7d1edint, 0x1866c8ed336c61231a1be54fd1d74cc4f9fb0ce4c6af5920abc5750c4bf39b4852cfe2f7bb9248836b233d9d55535d4aint, 0xb2b024fd2542ba2cb8593eaa58c7856fa7665897213eb3b2876ae6fff976508b56150d72b2ad997139bdbe74fa3af84int, 0xb25768d58d855954b27fe0df818dd9a455b13fd7e50893f6c71594589dad98c145831d00d36935096677916efe94cebint, den_sixth_4_8(x), den_cube_0_8(x), den_sixth_5_7(x), den_sixth_4_9(x), den_cube_0_9(x), den_sixth_5_8(x));
    lemma_horner_level(x, 0xbe0e079545f43e4b00cc912f8228ddcc6d19c9f0f69bbb0542eda0fc9dec916a20b15dc0fd2ededda39142311a5001dint, 0x1703fdd2986e65efd0668c0289c201182e648ebec85bbf9678aa601fc861c5951939f9f1069b6da0d1527043d5a9b80eint, 0x16a3ef08be3ea7ea03bcddfabba6ff6ee5a4375efa1f4fd7feb34fd206357132b920f5b00801dee460ee415a15812ed9int, 0x49890f7ad48a7b78fa5687f5ba4ee74c8e6865b044b0ea94c132d90d9d759f919729b1e7236150455028b3b357498d3int, 0xa5784eb6aea5c5439f66409743b8c38dd39a2ef49dcd97128fbb67dd997234828cf07369a0091936b24b78fccec8e0eint, den_sixth_4_7(x), den_cube_0_7(x), den_sixth_5_6(x), den_sixth_4_8(x), den_cube_0_8(x), den_sixth_5_7(x));
    lemma_horner_level(x, 0xbe0e079545f43e4b00cc912f8228ddcc6d19c9f0f69bbb0542eda0fc9dec916a20b15dc0fd2ededda39142311a5001dint, 0xb2d98c48bd916967290927e5a42728f9f8c62f9dd2e824941aadac5a8cd4f76786e3abbfccc47e766262f22caecd7d6int, 0x166007c08a99db2fc3ba8734ace9824b5eecfdfa8d0cf8ef5dd365bc400a0051d5fa9c01a58b1fb93d1a1399126a775cint, 0x19a78e1d48e9fca89c195337958f9467b925e3c85064d8402e160d19be8da1884a67045511962256ee87c6c64612aee5int, 0xa38806d1e52e7a849efd39a96daf07aad033bc0851a8ddd2a66d055abc8a66875c4e1e63213500ba557ae44e7f51571int, den_sixth_4_6(x), den_cube_0_6(x), den_sixth_5_5(x), den_sixth_4_7(x), den_cube_0_7(x), den_sixth_5_6(x));
    lemma_horner_level(x, 0xbe0e079545f43e4b00cc912f8228ddcc6d19c9f0f69bbb0542eda0fc9dec916a20b15dc0fd2ededda39142311a5001dint, 0x8a24c2255cf2b40be63db8e5fcb994528f7ef072da4df77aee6ff7001402a6f6abeb0f1408f61f8fb3aef487926a685int, 0x8d9e5297186db2d9fb266eaac783182b70152c65550d881c5ecd87b6f0f5a6449f38db9dfa9cce202c6477faaf9b7acint, 0x882f6ec024b3bbc2386f7d139eb58d8209955b75a75b59f2a6988ae3000cdbec91626cc35aaab5988ac2d345e61f001int, 0x40b0941cbc8cfce5fef3c02161aa1939295657f33a89fff1a00fd8a74bfa243f5c1156faa62f9c1afe5802f7c0b47e8int, den_sixth_4_5(x), den_cube_0_5(x), den_sixth_5_4(x), den_sixth_4_6(x), den_cube_0_6(x), den_sixth_5_5(x));
    lemma_horner_level(x, 0xbe0e079545f43e4b00cc912f8228ddcc6d19c9f0f69bbb0542eda0fc9dec916a20b15dc0fd2ededda39142311a5001dint, 0xe6c1904239afd56e182c91d6110f2ad6e4002d507fcd2b8e5c6ab8ef91178b8437c237a798dbd05891da1be1cdf9957int, 0xbe0e079545f43e4b00cc912f8228ddcc6d19c9f0f69bbb0542eda0fc9dec916a20b15dc0fd2ededda39142311a5001dint, 0x182b8144a534d84d9357618361531d248c6fe9bc4035a6b9f10b1df067b27dc124f9eae8944619bca2efea9c3760f81aint, 0x56d0a1187b62e9972a5156e602f290e30a289d3b49b538fac963f032c216e9ea45ef1827bd1cc986af7fb4973ce2624int, den_sixth_4_4(x), den_cube_0_4(x), den_sixth_5_3(x), den_sixth_4_5(x), den_cube_0_5(x), den_sixth_5_4(x));
    lemma_horner_level(x, 0xbe0e079545f43e4b00cc912f8228ddcc6d19c9f0f69bbb0542eda0fc9dec916a20b15dc0fd2ededda39142311a5001dint, 0xdecc55639b7868ab0a4f03b09cd4ff3970c331381df23dd05748cd0c3351fa1250db8ee1f50c5bcb3c7dbf430cbf5eaint, 0x16b7d288798e5395f20d23bf89edb4d1d115c5dbddbcd30e123da489e726af41727364f2c28297ada8d26d98445f5416int, 0x1749ea70e0d65f9db8d6fff7c5ae5304b7ccfe963fad2314677d872491962bf98d0eed75e818263b198dd222a7fbbb99int, 0xa609aa924111902728a0ffc7b24dc67b99e6cbc62e008972429b4e44e09c9e00793032d9fb24a317460776a7f05e487int, den_sixth_4_3(x), den_cube_0_3(x), den_sixth_5_2(x), den_sixth_4_4(x), den_cube_0_4(x), den_sixth_5_3(x));
    lemma_horner_level(x, 0xbe0e079545f43e4b00cc912f8228ddcc6d19c9f0f69bbb0542eda0fc9dec916a20b15dc0fd2ededda39142311a5001dint, 0x150d45325b4f5724c889d3da402189fc98cea2d0984e3ce343bee8c472edf4a51a4809baa25eceacb0ac33ee53eb330fint, 0x58df3306640da276faaae7d6e8eb15778c4855551ae7f310c35a5dd279cd2eca6757cd636f96f891e2538b53dbf67f2int, 0x18bf7126dcf5600c35b25ad76e5e4aeafafec65d7f201eba3b32d5f3b93319b9f3f34d6abca22a8cd4d407785bfffb9int, 0x28987fd467544ac2f90106fb9f255aa0b55fa5da9b3afb64e7f2a0775295f74fdd07f3ae30b75b25e7ac9f97db4b93cint, den_sixth_4_2(x), den_cube_0_2(x), den_sixth_5_1(x), den_sixth_4_3(x), den_cube_0_3(x), den_sixth_5_2(x));
    lemma_horner_level(x, 0xbe0e079545f43e4b00cc912f8228ddcc6d19c9f0f69bbb0542eda0fc9dec916a20b15dc0fd2ededda39142311a5001dint, 0x6c1ee1ff895c3e850d29f43c6cdb05ffc0d00e22f78f89dd01ab91a8704bb35d4937f47814710713e5a6c3981021966int, 0x1962d75c2381201e1a0cbd6c43c348b885c84ff731c4d59ca4a10356f453e01f78a4260763529e3532f6102c2e49a03dint, 0x1065e02e694a83aed889a810aef90987f9ee616291dccf99e03b2cfc2f7259dd90332eb2f701517fd41d96f05dd2a694int, 0xb989985a60ca254a996afc0288ed16151ae05a9b4ab96d983f6a54c64fa8c9f0fcda152c3dd3a70cb039a256aaf1c45int, den_sixth_4_1(x), den_cube_0_1(x), den_sixth_5_0(x), den_sixth_4_2(x), den_cube_0_2(x), den_sixth_5_1(x));
    lemma_horner_level(x, 0xbe0e079545f43e4b00cc912f8228ddcc6d19c9f0f69bbb0542eda0fc9dec916a20b15dc0fd2ededda39142311a5001dint, 0xb8d1195e3d703e3f6e2788def5a5f7f0ca3f54004e949e60a1abd26f568dfdab12199c3e8eed97a260911217591535bint, 0x16112c4c3a9c98b252181140fad0eae9601a6de578980be6eec3232b5be72e7a07f3688ef60c206d01479253b03663c1int, 0x0int, 0xa147b0481f2b47b84bccb447bc18fa3ae7b4239e522f41f5a2e322058bccaaedecb0e786b535585000dffbcc37cec86int, den_sixth_4_0(x), den_cube_0_0(x), times(x, den_sixth_5_0(x)), den_sixth_4_1(x), den_cube_0_1(x), den_sixth_5_0(x));
    lemma_product_level(x, 0xbe0e079545f43e4b00cc912f8228ddcc6d19c9f0f69bbb0542eda0fc9dec916a20b15dc0fd2ededda39142311a5001dint, den_cube_0_4(x), den_cube_0_5(x), den_cube_0_0(x), den_sixth_4_0(x), den_sixth_5_0(x));
}

pub(crate) proof fn lemma_den_sixth_step_3(x: int)
    ensures
        congruent(den_sixth_3_0(x), times(den_cube_0_3(x), den_cube_0_0(x))),
{
    lemma_times_zero(x);
    lemma_den_sixth_step_4(x);
    lemma_congruent_refl(den_sixth_4_15(x), 0x16b7d288798e5395f20d23bf89edb4d1d115c5dbddbcd30e123da489e726af41727364f2c28297ada8d26d98445f5416int * 0int + den_sixth_4_15(x));
    lemma_horner_level(x, 0x16b7d288798e5395f20d23bf89edb4d1d115c5dbddbcd30e123da489e726af41727364f2c28297ada8d26d98445f5416int, 0x6978f581f3012c2f4378dc2b247aceb472e9e4076ca829a6122ba89e2582a707e1286ec7adf36dfff5257bab8ca4045int, 0x1int, 0x9e0ceb9df21a5c74d4611b96ba5a4f0da9023e98c92c24bb615e8a0f1e271532a4b21f869b09f32107eea22746a96daint, 0x1int, den_sixth_3_15(x), den_cube_5_10(x), den_sixth_4_14(x), den_sixth_4_15(x), 0int, den_sixth_4_15(x));
    lemma_horner_level(x, 0x16b7d288798e5395f20d23bf89edb4d1d115c5dbddbcd30e123da489e726af41727364f2c28297ada8d26d98445f5416int, 0x35e5ccab1b15571fd5ef008fd345c2289239016663390ad3c147a1a2c9784eb86e19626cdc55deaa64ee392a1bbf182int, 0xe0fa1d816ddc03e6b24255e0d7819c171c40f65e273b853324efcd6356caa205ca2f570f13497804415473a1d634b8fint, 0x13dba8f96e35c50f2fa6779e4fd92410211de59a44769780143c62d9a85c64fa4bbc72a4ae896f19f550e33013eeeb3eint, 0xc48c00781624adb42a8024ed7c3c010ea2b8ffb59cacb6975f1852b9f899eb3e54b7eff8db3fa2d87528f12e6d82c12int, den_sixth_3_14(x), den_cube_4_10(x), den_sixth_4_13(x), den_sixth_3_15(x), den_cube_5_10(x), den_sixth_4_14(x));
    lemma_horner_level(x, 0x16b7d288798e5395f20d23bf89edb4d1d115c5dbddbcd30e123da489e726af41727364f2c28297ada8d26d98445f5416int, 0xdc8bae38101faded6a6c6a084add8c6b7034a3112065cd8ebc1bddac52c08f461ba314470673891b03651f73626ad3dint, 0x2660400eb2e4f3b628bdd0d53cd76f2bf565b94e72927c1cb748df27942480e420517bd8714cc80d1fadc1326ed06f7int, 0x11f8ebd8a570a03de686f7d2f09d8be18d594d3968a04a008f1cf3d5ea94f927e5d2a122fc295e8634bb220b43930db5int, 0x2186c4e3323fa9715d33a1366d51f4735254978f089969754849e8d6413ab56a1921927fcba748ffc9b52302a4d1116int, den_sixth_3_13(x), den_cube_3_10(x), den_sixth_4_12(x), den_sixth_3_14(x), den_cube_4_10(x), den_sixth_4_13(x));
    lemma_horner_level(x, 0x16b7d288798e5395f20d23bf89edb4d1d115c5dbddbcd30e123da489e726af41727364f2c28297ada8d26d98445f5416int, 0x19998e5681a4e448bf8dee825f4aaed3c2009343e8e34397da1f0e47d11a1beb25db988dbb386fc07f6b581e94c494fint, 0xad6b9514c767fe3c3613144b45f1496543346d98adf02267d5ceef9a00d9b8693000763e3b90ac11e99b138573345ccint, 0xd74155140c29b322047be2be7f9bc341ce09ffab9de343fcd7ca35bdce852371e53950bd47e808a966ecdea3f74dbebint, 0x97815add7c33a540f947581e2643c9031d6cff77807ddc8b0c29b923e96d83a907a73d9c16d60f273110797c0ee866cint, den_sixth_3_12(x), den_cube_2_10(x), den_sixth_4_11(x), den_sixth_3_13(x), den_cube_3_10(x), den_sixth_4_12(x));
    lemma_horner_level(x, 0x16b7d288798e5395f20d23bf89edb4d1d115c5dbddbcd30e123da489e726af41727364f2c28297ada8d26d98445f5416int, 0x51a796b24fa139b5ba6823a4c6602882fc8dfc13635c05ac1eaab6b10705b76cb63f610ec42b8f00834312de9336984int, 0xaccbb67481d033ff5852c1e48c50c477f94ff8aefce42d28c0f9a88cea7913516f968986f7ebbea9684b529e2561092int, 0x12fb06fa2a0106bc4ba705da9c1b30abf3f8f6108fe33158fe18c7041985779fdc188c8253987681f1dbbc34c061f5f8int, 0x96f5b0190ae9d5fa215ed5ab362476b7dbea43ee2709c66d0326cfa7484cf88aa72064b39bcecaa9d9c27580595a300int, den_sixth_3_11(x), den_cube_1_10(x), den_sixth_4_10(x), den_sixth_3_12(x), den_cube_2_10(x), den_sixth_4_11(x));
    lemma_horner_level(x, 0x16b7d288798e5395f20d23bf89edb4d1d115c5dbddbcd30e123da489e726af41727364f2c28297ada8d26d98445f5416int, 0x12f874d09c7f86aed868bf59dc4cdfafbb66a9aa7dc46f3763523e525bfbde0ab632eb06e1521897406c6a6c49d40ee0int, 0x4d2f259eea405bd48f010a01ad2911d9c6dd039bb61a6290e591b36e636a5c871a5c29f4f83060400f8b49cba8f6aa8int, 0x7b12725d579198c47751899fef57b19af97072cf988dec75201ac8e225e95a147c0159336ad93e90ede9ca367a3763aint, 0x436e33d0504cb75f4bfd379b2eeabb6d488baca55edd531bb05edd5c977d4b178246bd6bf8e7dacd9074e6551cb155eint, den_sixth_3_10(x), den_cube_0_10(x), den_sixth_4_9(x), den_sixth_3_11(x), den_cube_1_10(x), den_sixth_4_10(x));
    lemma_horner_level(x, 0x16b7d288798e5395f20d23bf89edb4d1d115c5dbddbcd30e123da489e726af41727364f2c28297ada8d26d98445f5416int, 0xfaef5e9956abae3ba7bd065a6f91073646766329243c0160775c8c0aed3b8630815571dc5e0a1e6c5eff3c8e4c3508aint, 0x167a55cda70a6e1cea820597d94a84903216f763e13d87bb5308592e7ea7d4fbc7385ea3d529b35e346ef48bb8913f55int, 0x10cd9955e1b9a8a6dbf8e75aed53fc9fb0408d773f48abdcbca9ddf9bc8ca1243f3692d58bbd6f9c3150ba0b23c7d1edint, 0x13a32a527d4fe10fc6f682d6fbd90ed7098d2265fa69cb2ab2ad8246b91a9a092703a1d14b0b9d33c7b6919a0e8b8413int, den_sixth_3_9(x), den_cube_0_9(x), den_sixth_4_8(x), den_sixth_3_10(x), den_cube_0_10(x), den_sixth_4_9(x));
    lemma_horner_level(x, 0x16b7d288798e5395f20d23bf89edb4d1d115c5dbddbcd30e123da489e726af41727364f2c28297ada8d26d98445f5416int, 0x36ca2729bcb7f6da80e318e45923e9ea149a86ba8565d20f691074ae814196a231e4cc3c478bdeb0b29c280de26cd5cint, 0x1866c8ed336c61231a1be54fd1d74cc4f9fb0ce4c6af5920abc5750c4bf39b4852cfe2f7bb9248836b233d9d55535d4aint, 0x1703fdd2986e65efd0668c0289c201182e648ebec85bbf9678aa601fc861c5951939f9f1069b6da0d1527043d5a9b80eint, 0x155162769bb409ef77cc5ae59eaa610b0c6a3134933b31b30a561ea5c02254adab3f8da7c6e6c36a12d358346e67a52aint, den_sixth_3_8(x), den_cube_0_8(x), den_sixth_4_7(x), den_sixth_3_9(x), den_cube_0_9(x), den_sixth_4_8(x));
    lemma_horner_level(x, 0x16b7d288798e5395f20d23bf89edb4d1d115c5dbddbcd30e123da489e726af41727364f2c28297ada8d26d98445f5416int, 0x180ce9082e125a2f7217650d2ac29f239a5fc1e407779c6244ec7efc9d9ea3d6cfed6fcc6012a6e5e86ca9ca84588c51int, 0x16a3ef08be3ea7ea03bcddfabba6ff6ee5a4375efa1f4fd7feb34fd206357132b920f5b00801dee460ee415a15812ed9int, 0xb2d98c48bd916967290927e5a42728f9f8c62f9dd2e824941aadac5a8cd4f76786e3abbfccc47e766262f22caecd7d6int, 0x13c781d1e52f5b495377cc50b9f7ef561d790ef2e6d315dcbc014cf9ab7a4be1f2b22678ae6930beaf30c95a2f3e9281int, den_sixth_3_7(x), den_cube_0_7(x), den_sixth_4_6(x), den_sixth_3_8(x), den_cube_0_8(x), den_sixth_4_7(x));
    lemma_horner_level(x, 0x16b7d288798e5395f20d23bf89edb4d1d115c5dbddbcd30e123da489e726af41727364f2c28297ada8d26d98445f5416int, 0x656adb70bb822ac247d8ac8ac44df990286ac210cda8f940a86bc447bcccf2fad513231c38b8e77d32fc68f468f6a0cint, 0x166007c08a99db2fc3ba8734ace9824b5eecfdfa8d0cf8ef5dd365bc400a0051d5fa9c01a58b1fb93d1a1399126a775cint, 0x8a24c2255cf2b40be63db8e5fcb994528f7ef072da4df77aee6ff7001402a6f6abeb0f1408f61f8fb3aef487926a685int, 0x138c2f3f23cbbfce4ca9f1033dbce9c607965f5a5359f83a7f610f9ae89a3325ccd8a7e0db1fc96c3eb50e8d61460b23int, den_sixth_3_6(x), den_cube_0_6(x), den_sixth_4_5(x), den_sixth_3_7(x), den_cube_0_7(x), den_sixth_4_6(x));
    lemma_horner_level(x, 0x16b7d288798e5395f20d23bf89edb4d1d115c5dbddbcd30e123da489e726af41727364f2c28297ada8d26d98445f5416int, 0x6f4fff5480d1c0cd3515c9690bd659522a595c4c9863a97881e3d7d1ebed24aefad31a9064bd1d9424088da11aac223int, 0x8d9e5297186db2d9fb266eaac783182b70152c65550d881c5ecd87b6f0f5a6449f38db9dfa9cce202c6477faaf9b7acint, 0xe6c1904239afd56e182c91d6110f2ad6e4002d507fcd2b8e5c6ab8ef91178b8437c237a798dbd05891da1be1cdf9957int, 0x7bb8e600329c104a31774ccb8bffb75be670020d60ab89f3c34f53c21eb3b04bb889d64fb7572d74ae75bdfc13d2ff4int, den_sixth_3_5(x), den_cube_0_5(x), den_sixth_4_4(x), den_sixth_3_6(x), den_cube_0_6(x), den_sixth_4_5(x));
    lemma_horner_level(x, 0x16b7d288798e5395f20d23bf89edb4d1d115c5dbddbcd30e123da489e726af41727364f2c28297ada8d26d98445f5416int, 0x48fa03b9298ad77a872e07e4dec4ce2764b6790c41124a5a36b927cf4d41348bd0c84665689653e4e01e5c5b99c303bint, 0xbe0e079545f43e4b00cc912f8228ddcc6d19c9f0f69bbb0542eda0fc9dec916a20b15dc0fd2ededda39142311a5001dint, 0xdecc55639b7868ab0a4f03b09cd4ff3970c331381df23dd05748cd0c3351fa1250db8ee1f50c5bcb3c7dbf430cbf5eaint, 0xa609aa924111902728a0ffc7b24dc67b99e6cbc62e008972429b4e44e09c9e00793032d9fb24a317460776a7f05e487int, den_sixth_3_4(x), den_cube_0_4(x), den_sixth_4_3(x), den_sixth_3_5(x), den_cube_0_5(x), den_sixth_4_4(x));
    lemma_horner_level(x, 0x16b7d288798e5395f20d23bf89edb4d1d115c5dbddbcd30e123da489e726af41727364f2c28297ada8d26d98445f5416int, 0x25d546680e114f0079aa6d212452c71ab4e9d50516ebbd6de4c3319e57d14d10df191d13523e23cfd4afa7656f2c4adint, 0x16b7d288798e5395f20d23bf89edb4d1d115c5dbddbcd30e123da489e726af41727364f2c28297ada8d26d98445f5416int, 0x150d45325b4f5724c889d3da402189fc98cea2d0984e3ce343bee8c472edf4a51a4809baa25eceacb0ac33ee53eb330fint, 0x13d8e1e93680584b5d6e16f72b87fd01997ce92d230553579e5f4c9107bd91aa8588bbe5bd2a6ec10af1fadc3392a0d2int, den_sixth_3_3(x), den_cube_0_3(x), den_sixth_4_2(x), den_sixth_3_4(x), den_cube_0_4(x), den_sixth_4_3(x));
    lemma_horner_level(x, 0x16b7d288798e5395f20d23bf89edb4d1d115c5dbddbcd30e123da489e726af41727364f2c28297ada8d26d98445f5416int, 0x8f9091df2d0cf6ed636f623d7f37db2785379ef81147f513f4788a6a9134ba127277ce0fa6634855aa33b51a11d5b62int, 0x58df3306640da276faaae7d6e8eb15778c4855551ae7f310c35a5dd279cd2eca6757cd636f96f891e2538b53dbf67f2int, 0x6c1ee1ff895c3e850d29f43c6cdb05ffc0d00e22f78f89dd01ab91a8704bb35d4937f47814710713e5a6c3981021966int, 0x4da426e674790c13c68c6c7ddbf7c435c26c93dbe9cc758a12c10406b5be4e6d45f93fea51400c4df86e868c4333e70int, den_sixth_3_2(x), den_cube_0_2(x), den_sixth_4_1(x), den_sixth_3_3(x), den_cube_0_3(x), den_sixth_4_2(x));
    lemma_horner_level(x, 0x16b7d288798e5395f20d23bf89edb4d1d115c5dbddbcd30e123da489e726af41727364f2c28297ada8d26d98445f5416int, 0xb981e5e13bfbc4a325fc13bcaa00d16b1541bb02eb7f7e7c8e4c745ffb4768f23065ac7fc8c81a8b1b47c569902ed42int, 0x1962d75c2381201e1a0cbd6c43c348b885c84ff731c4d59ca4a10356f453e01f78a4260763529e3532f6102c2e49a03dint, 0xb8d1195e3d703e3f6e2788def5a5f7f0ca3f54004e949e60a1abd26f568dfdab12199c3e8eed97a260911217591535bint, 0x162d96c0b8600ae536346fd9ca9a7316470def89a520528501fe990ad8abbcf6aa428f247ec4bf221e617ef58c508e05int, den_sixth_3_1(x), den_cube_0_1(x), den_sixth_4_0(x), den_sixth_3_2(x), den_cube_0_2(x), den_sixth_4_1(x));
    lemma_horner_level(x, 0x16b7d288798e5395f20d23bf89edb4d1d115c5dbddbcd30e123da489e726af41727364f2c28297ada8d26d98445f5416int, 0x69c9cae8dc9a0b5629bb7189cff9bb4ee421a60c9733344da463ddad00d7fb1f4c97898490905cc5d73143afb608f8aint, 0x16112c4c3a9c98b252181140fad0eae9601a6de578980be6eec3232b5be72e7a07f3688ef60c206d01479253b03663c1int, 0x0int, 0x13474adc95102a8768b683a515798b9546e4d8b0c6b80d77496f84ddfe037cf03e7697ede4bad2152cac7e41e5170524int, den_sixth_3_0(x), den_cube_0_0(x), times(x, den_sixth_4_0(x)), den_sixth_3_1(x), den_cube_0_1(x), den_sixth_4_0(x));
    lemma_product_level(x, 0x16b7d288798e5395f20d23bf89edb4d1d115c5dbddbcd30e123da489e726af41727364f2c28297ada8d26d98445f5416int, den_cube_0_3(x), den_cube_0_4(x), den_cube_0_0(x), den_sixth_3_0(x), den_sixth_4_0(x));
}

pub(crate) proof fn lemma_den_sixth_step_2(x: int)
    ensures
        congruent(den_sixth_2_0(x), times(den_cube_0_2(x), den_cube_0_0(x))),
{
    lemma_times_zero(x);
    lemma_den_sixth_step_3(x);
    lemma_congruent_refl(den_sixth_3_15(x), 0x58df3306640da276faaae7d6e8eb15778c4855551ae7f310c35a5dd279cd2eca6757cd636f96f891e2538b53dbf67f2int * 0int + den_sixth_3_15(x));
    lemma_horner_level(x, 0x58df3306640da276faaae7d6e8eb15778c4855551ae7f310c35a5dd279cd2eca6757cd636f96f891e2538b53dbf67f2int, 0x8ec4ffb17f22f996d099e866bc30d7a01e8156bb7e20fde484a1ff7543457d82d5712fd04becd73c4741c47df7b5974int, 0x1int, 0x35e5ccab1b15571fd5ef008fd345c2289239016663390ad3c147a1a2c9784eb86e19626cdc55deaa64ee392a1bbf182int, 0x0int, den_sixth_2_15(x), den_cube_5_10(x), den_sixth_3_14(x), den_sixth_3_15(x), 0int, den_sixth_3_15(x));
    lemma_horner_level(x, 0x58df3306640da276faaae7d6e8eb15778c4855551ae7f310c35a5dd279cd2eca6757cd636f96f891e2538b53dbf67f2int, 0x102ad16d228b67af0baf3c9ef6b4686341b55f7c4d71f97bac00cd92d72ad980916afdcb2f4b89312516537dc4ef2d5dint, 0xe0fa1d816ddc03e6b24255e0d7819c171c40f65e273b853324efcd6356caa205ca2f570f13497804415473a1d634b8fint, 0xdc8bae38101faded6a6c6a084add8c6b7034a3112065cd8ebc1bddac52c08f461ba314470673891b03651f73626ad3dint, 0x300e19f36abef0606960ed1783c6cb3c2191e5e526069201460d0dac2d77438759c1d245daaaa61bd713df83faf622aint, den_sixth_2_14(x), den_cube_4_10(x), den_sixth_3_13(x), den_sixth_2_15(x), den_cube_5_10(x), den_sixth_3_14(x));
    lemma_horner_level(x, 0x58df3306640da276faaae7d6e8eb15778c4855551ae7f310c35a5dd279cd2eca6757cd636f96f891e2538b53dbf67f2int, 0xb050de0079ae9ff7c5a5efbf83be7f4a353c0bfb069c22acc6b0745c84d51ff94fda8b25da076d6cbafda03ac0b7379int, 0x2660400eb2e4f3b628bdd0d53cd76f2bf565b94e72927c1cb748df27942480e420517bd8714cc80d1fadc1326ed06f7int, 0x19998e5681a4e448bf8dee825f4aaed3c2009343e8e34397da1f0e47d11a1beb25db988dbb386fc07f6b581e94c494fint, 0x83275a62ac499b165267f17adcb4c8cc7bd6f4e389e44b1ba60ec35be24f02dc056dd5dc8e95c6245cff66c23364fcint, den_sixth_2_13(x), den_cube_3_10(x), den_sixth_3_12(x), den_sixth_2_14(x), den_cube_4_10(x), den_sixth_3_13(x));
    lemma_horner_level(x, 0x58df3306640da276faaae7d6e8eb15778c4855551ae7f310c35a5dd279cd2eca6757cd636f96f891e2538b53dbf67f2int, 0x12c023fbd3b2c03e7c43b556e616190334e85cede5d09a2c72aab6d56bec092949b1b164871a9cd757ca169552a1ef6aint, 0xad6b9514c767fe3c3613144b45f1496543346d98adf02267d5ceef9a00d9b8693000763e3b90ac11e99b138573345ccint, 0x51a796b24fa139b5ba6823a4c6602882fc8dfc13635c05ac1eaab6b10705b76cb63f610ec42b8f00834312de9336984int, 0x250ae52686573d4e95f9d8306ff20640e0b1d116155ccc1e77c8f2c2dea01902fec6fc4995e65fc82f541fb9acd9ad6int, den_sixth_2_12(x), den_cube_2_10(x), den_sixth_3_11(x), den_sixth_2_13(x), den_cube_3_10(x), den_sixth_3_12(x));
    lemma_horner_level(x, 0x58df3306640da276faaae7d6e8eb15778c4855551ae7f310c35a5dd279cd2eca6757cd636f96f891e2538b53dbf67f2int, 0x609e5536257ae85ce3216a47f819f6e6471132a6da479c219935b3a578aa224b54171f322e65c6d8070664a3727dda3int, 0xaccbb67481d033ff5852c1e48c50c477f94ff8aefce42d28c0f9a88cea7913516f968986f7ebbea9684b529e2561092int, 0x12f874d09c7f86aed868bf59dc4cdfafbb66a9aa7dc46f3763523e525bfbde0ab632eb06e1521897406c6a6c49d40ee0int, 0x24e8bf396dcedffd60ece164a71f4e66b9741884417aebdb34152017b9f1f299e13f4e4c1696bb1d6b6b02e3aa4cbc3int, den_sixth_2_11(x), den_cube_1_10(x), den_sixth_3_10(x), den_sixth_2_12(x), den_cube_2_10(x), den_sixth_3_11(x));
    lemma_horner_level(x, 0x58df3306640da276faaae7d6e8eb15778c4855551ae7f310c35a5dd279cd2eca6757cd636f96f891e2538b53dbf67f2int, 0x10dbc11a21057bdef93fdf1ae191da7384b3b20256588d6fa721713ab1f3fa8f8aa5f7f1d74995d06a4894a8d53977f6int, 0x4d2f259eea405bd48f010a01ad2911d9c6dd039bb61a6290e591b36e636a5c871a5c29f4f83060400f8b49cba8f6aa8int, 0xfaef5e9956abae3ba7bd065a6f91073646766329243c0160775c8c0aed3b8630815571dc5e0a1e6c5eff3c8e4c3508aint, 0x107c8da01c8d449d9d1f7bd86228ab97f406fab1e270aceb89f9000011d3503e97b41e5585af968f6e60ae6f946ca2cint, den_sixth_2_10(x), den_cube_0_10(x), den_sixth_3_9(x), den_sixth_2_11(x), den_cube_1_10(x), den_sixth_3_10(x));
    lemma_horner_level(x, 0x58df3306640da276faaae7d6e8eb15778c4855551ae7f310c35a5dd279cd2eca6757cd636f96f891e2538b53dbf67f2int, 0x15931e0c2958ef58d6dcce8bd6ad46b9883718e5d008b30539c3dda898930e917a8ed3dbe9ec03adcf0dd8e13a9714acint, 0x167a55cda70a6e1cea820597d94a84903216f763e13d87bb5308592e7ea7d4fbc7385ea3d529b35e346ef48bb8913f55int, 0x36ca2729bcb7f6da80e318e45923e9ea149a86ba8565d20f691074ae814196a231e4cc3c478bdeb0b29c280de26cd5cint, 0x4cd20363ac0f0cc7209c616753ac151d11d8ec326844bdacbce3362f5051595aec6d0ddb92ff59deda87ff88a695e1eint, den_sixth_2_9(x), den_cube_0_9(x), den_sixth_3_8(x), den_sixth_2_10(x), den_cube_0_10(x), den_sixth_3_9(x));
    lemma_horner_level(x, 0x58df3306640da276faaae7d6e8eb15778c4855551ae7f310c35a5dd279cd2eca6757cd636f96f891e2538b53dbf67f2int, 0x11cfa53efed5ce2d322de4e11f9b453570d055bfd0d449972137145e2fc13dd01a50cca5b98f5bec19e3f4f0ccacc5dbint, 0x1866c8ed336c61231a1be54fd1d74cc4f9fb0ce4c6af5920abc5750c4bf39b4852cfe2f7bb9248836b233d9d55535d4aint, 0x180ce9082e125a2f7217650d2ac29f239a5fc1e407779c6244ec7efc9d9ea3d6cfed6fcc6012a6e5e86ca9ca84588c51int, 0x53650254fd541f9740312ffd557bb66cb4a64027a493a53cb0388fb0a1898eb1be9de0a597d288540cc70e0aae8353eint, den_sixth_2_8(x), den_cube_0_8(x), den_sixth_3_7(x), den_sixth_2_9(x), den_cube_0_9(x), den_sixth_3_8(x));
    lemma_horner_level(x, 0x58df3306640da276faaae7d6e8eb15778c4855551ae7f310c35a5dd279cd2eca6757cd636f96f891e2538b53dbf67f2int, 0xc4c8df17baa7880d21e61705cfb11e0f8a66e8f9a82ab3a37425fa938f8976b318aa822dbeff0de4e657fef36e77366int, 0x16a3ef08be3ea7ea03bcddfabba6ff6ee5a4375efa1f4fd7feb34fd206357132b920f5b00801dee460ee415a15812ed9int, 0x656adb70bb822ac247d8ac8ac44df990286ac210cda8f940a86bc447bcccf2fad513231c38b8e77d32fc68f468f6a0cint, 0x4d602e321b3c30829e43eea3f0a5d9977748a9e17ac19ae7b29682cd895e5eba65b505f6ee0379bcbf2e623bfebac58int, den_sixth_2_7(x), den_cube_0_7(x), den_sixth_3_6(x), den_sixth_2_8(x), den_cube_0_8(x), den_sixth_3_7(x));
    lemma_horner_level(x, 0x58df3306640da276faaae7d6e8eb15778c4855551ae7f310c35a5dd279cd2eca6757cd636f96f891e2538b53dbf67f2int, 0x171870ed2e5c99e9add568603229df13fc6e8ef5b99c4a836edaaf6540d4a9946d3164b3bce7a2e1130932a5bbfc4272int, 0x166007c08a99db2fc3ba8734ace9824b5eecfdfa8d0cf8ef5dd365bc400a0051d5fa9c01a58b1fb93d1a1399126a775cint, 0x6f4fff5480d1c0cd3515c9690bd659522a595c4c9863a97881e3d7d1ebed24aefad31a9064bd1d9424088da11aac223int, 0x4c781d1957b41d1a991fe0770839820b3281ce0919261995d0b83b41c78863603cc7b5c48274aac91aeeda8b3f309fbint, den_sixth_2_6(x), den_cube_0_6(x), den_sixth_3_5(x), den_sixth_2_7(x), den_cube_0_7(x), den_sixth_3_6(x));
    lemma_horner_level(x, 0x58df3306640da276faaae7d6e8eb15778c4855551ae7f310c35a5dd279cd2eca6757cd636f96f891e2538b53dbf67f2int, 0x1585f2d4a374f87885adc102d85920261c65d87504d87f299eff835211e6a1639ae0ffef3a7d2bec24fd5ed1ad2d9b12int, 0x8d9e5297186db2d9fb266eaac783182b70152c65550d881c5ecd87b6f0f5a6449f38db9dfa9cce202c6477faaf9b7acint, 0x48fa03b9298ad77a872e07e4dec4ce2764b6790c41124a5a36b927cf4d41348bd0c84665689653e4e01e5c5b99c303bint, 0x1e3fec1a20e6cfc64c458212ab327fa0e3053a22d9fd82504f907495a6ca98aa3f6e1a39bf595ad23fcd8c6bd6c3d43int, den_sixth_2_5(x), den_cube_0_5(x), den_sixth_3_4(x), den_sixth_2_6(x), den_cube_0_6(x), den_sixth_3_5(x));
    lemma_horner_level(x, 0x58df3306640da276faaae7d6e8eb15778c4855551ae7f310c35a5dd279cd2eca6757cd636f96f891e2538b53dbf67f2int, 0x15dea2866e6116140cc954fedb80d1bf946d53bb11caf6ce7e57ee7f1cd7d7da88fa66b52bb88e40e0a9eded251df803int, 0xbe0e079545f43e4b00cc912f8228ddcc6d19c9f0f69bbb0542eda0fc9dec916a20b15dc0fd2ededda39142311a5001dint, 0x25d546680e114f0079aa6d212452c71ab4e9d50516ebbd6de4c3319e57d14d10df191d13523e23cfd4afa7656f2c4adint, 0x28987fd467544ac2f90106fb9f255aa0b55fa5da9b3afb64e7f2a0775295f74fdd07f3ae30b75b25e7ac9f97db4b93cint, den_sixth_2_4(x), den_cube_0_4(x), den_sixth_3_3(x), den_sixth_2_5(x), den_cube_0_5(x), den_sixth_3_4(x));
    lemma_horner_level(x, 0x58df3306640da276faaae7d6e8eb15778c4855551ae7f310c35a5dd279cd2eca6757cd636f96f891e2538b53dbf67f2int, 0xb30241bed0bdaf55b9b4d03e9194b04f499f2fcd2b00604ae745832cb21dc0c79bb7a7a7385589976ec0a69c1389d5eint, 0x16b7d288798e5395f20d23bf89edb4d1d115c5dbddbcd30e123da489e726af41727364f2c28297ada8d26d98445f5416int, 0x8f9091df2d0cf6ed636f623d7f37db2785379ef81147f513f4788a6a9134ba127277ce0fa6634855aa33b51a11d5b62int, 0x4da426e674790c13c68c6c7ddbf7c435c26c93dbe9cc758a12c10406b5be4e6d45f93fea51400c4df86e868c4333e70int, den_sixth_2_3(x), den_cube_0_3(x), den_sixth_3_2(x), den_sixth_2_4(x), den_cube_0_4(x), den_sixth_3_3(x));
    lemma_horner_level(x, 0x58df3306640da276faaae7d6e8eb15778c4855551ae7f310c35a5dd279cd2eca6757cd636f96f891e2538b53dbf67f2int, 0x183831cb8f6d843164f47dcd72db64245689b6cb27d30e9002c131d27826a94791c9c68f1548f539f133e5e5c0023a0bint, 0x58df3306640da276faaae7d6e8eb15778c4855551ae7f310c35a5dd279cd2eca6757cd636f96f891e2538b53dbf67f2int, 0xb981e5e13bfbc4a325fc13bcaa00d16b1541bb02eb7f7e7c8e4c745ffb4768f23065ac7fc8c81a8b1b47c569902ed42int, 0x12fba7d058aaf059226a2c6a524c44a28a70eb04aec0882dd900639d3de3639f7fe32c5933dd7cd890bfec452e4fbf1int, den_sixth_2_2(x), den_cube_0_2(x), den_sixth_3_1(x), den_sixth_2_3(x), den_cube_0_3(x), den_sixth_3_2(x));
    lemma_horner_level(x, 0x58df3306640da276faaae7d6e8eb15778c4855551ae7f310c35a5dd279cd2eca6757cd636f96f891e2538b53dbf67f2int, 0x19d93678baa6792953b042af2f7d569c416c8de4b5b36876cd56edb0ab82ea7e4a7b9f100f387e51cac39a4c4e0470d0int, 0x1962d75c2381201e1a0cbd6c43c348b885c84ff731c4d59ca4a10356f453e01f78a4260763529e3532f6102c2e49a03dint, 0x69c9cae8dc9a0b5629bb7189cff9bb4ee421a60c9733344da463ddad00d7fb1f4c97898490905cc5d73143afb608f8aint, 0x56c26fd75001f9c01f42767e274a242191b7724a1a6d849d54aeafc66afb4bb396fd5aba96ac0da67599dafd8ff6a2cint, den_sixth_2_1(x), den_cube_0_1(x), den_sixth_3_0(x), den_sixth_2_2(x), den_cube_0_2(x), den_sixth_3_1(x));
    lemma_horner_level(x, 0x58df3306640da276faaae7d6e8eb15778c4855551ae7f310c35a5dd279cd2eca6757cd636f96f891e2538b53dbf67f2int, 0x16209322715b8278215b355e9798e7a7aa3773806eddffda0682894519fcdc6e3499d58501cca7250404d9984c5eb2feint, 0x16112c4c3a9c98b252181140fad0eae9601a6de578980be6eec3232b5be72e7a07f3688ef60c206d01479253b03663c1int, 0x0int, 0x4b6a9c76da2f6810ef13079c2e753ad8ea0624c1081a8c617cc5d8297b5b4c1856609b48532f4f210f6748d7ae3c15cint, den_sixth_2_0(x), den_cube_0_0(x), times(x, den_sixth_3_0(x)), den_sixth_2_1(x), den_cube_0_1(x), den_sixth_3_0(x));
    lemma_product_level(x, 0x58df3306640da276faaae7d6e8eb15778c4855551ae7f310c35a5dd279cd2eca6757cd636f96f891e2538b53dbf67f2int, den_cube_0_2(x), den_cube_0_3(x), den_cube_0_0(x), den_sixth_2_0(x), den_sixth_3_0(x));
}

pub(crate) proof fn lemma_den_sixth_step_1(x: int)
    ensures
        congruent(den_sixth_1_0(x), times(den_cube_0_1(x), den_cube_0_0(x))),
{
    lemma_times_zero(x);
    lemma_den_sixth_step_2(x);
    lemma_congruent_refl(den_sixth_2_15(x), 0x1962d75c2381201e1a0cbd6c43c348b885c84ff731c4d59ca4a10356f453e01f78a4260763529e3532f6102c2e49a03dint * 0int + den_sixth_2_15(x));
    lemma_horner_level(x, 0x1962d75c2381201e1a0cbd6c43c348b885c84ff731c4d59ca4a10356f453e01f78a4260763529e3532f6102c2e49a03dint, 0xf8c96df0c8ca132daa05254f72c0444630663ee8bb1bc58e970fe48d4cdc37beb6323d3e14a27669e0d63a9f33922efint, 0x1int, 0x102ad16d228b67af0baf3c9ef6b4686341b55f7c4d71f97bac00cd92d72ad980916afdcb2f4b89312516537dc4ef2d5dint, 0x1int, den_sixth_1_15(x), den_cube_5_10(x), den_sixth_2_14(x), den_sixth_2_15(x), 0int, den_sixth_2_15(x));
    lemma_horner_level(x, 0x1962d75c2381201e1a0cbd6c43c348b885c84ff731c4d59ca4a10356f453e01f78a4260763529e3532f6102c2e49a03dint, 0x53bb67ae35bf94bf9a5b00086bb8adcc82b839b9766a96f03ee5e487c2dc6c50ca362110613840fc393b77aec2e288int, 0xe0fa1d816ddc03e6b24255e0d7819c171c40f65e273b853324efcd6356caa205ca2f570f13497804415473a1d634b8fint, 0xb050de0079ae9ff7c5a5efbf83be7f4a353c0bfb069c22acc6b0745c84d51ff94fda8b25da076d6cbafda03ac0b7379int, 0xdba130289eb6c2a221ba06d670a4010e038401f394a5efa7289124fb63c68a51cc59cdeca9dc0c7e208e493b6e1d60cint, den_sixth_1_14(x), den_cube_4_10(x), den_sixth_2_13(x), den_sixth_1_15(x), den_cube_5_10(x), den_sixth_2_14(x));
    lemma_horner_level(x, 0x1962d75c2381201e1a0cbd6c43c348b885c84ff731c4d59ca4a10356f453e01f78a4260763529e3532f6102c2e49a03dint, 0x157818bea107f58f3c2aae98f288dfcc7516999d61d3901f1ba5af6ca62430a7d33be411e6d1beb893e0eed2f2c1ae4eint, 0x2660400eb2e4f3b628bdd0d53cd76f2bf565b94e72927c1cb748df27942480e420517bd8714cc80d1fadc1326ed06f7int, 0x12c023fbd3b2c03e7c43b556e616190334e85cede5d09a2c72aab6d56bec092949b1b164871a9cd757ca169552a1ef6aint, 0x2576be06e4851e5e5ab5b0ba12ff727d456cc63e71579e88bdbd486b4097a5f199e5ac82fcf5cd5247c05285951dde5int, den_sixth_1_13(x), den_cube_3_10(x), den_sixth_2_12(x), den_sixth_1_14(x), den_cube_4_10(x), den_sixth_2_13(x));
    lemma_horner_level(x, 0x1962d75c2381201e1a0cbd6c43c348b885c84ff731c4d59ca4a10356f453e01f78a4260763529e3532f6102c2e49a03dint, 0x73b19e693c20e650b58d3b94c7ff3c1bc6690444440b4eca2c489cda2a608d2597e3430584cbce6f6625a334f267a25int, 0xad6b9514c767fe3c3613144b45f1496543346d98adf02267d5ceef9a00d9b8693000763e3b90ac11e99b138573345ccint, 0x609e5536257ae85ce3216a47f819f6e6471132a6da479c219935b3a578aa224b54171f322e65c6d8070664a3727dda3int, 0xa94c5d67ba3266138e8a1af3506803e64dc21dc9877c409d43f06c988263f72b719b43570c78094fe215e136d5b8f4eint, den_sixth_1_12(x), den_cube_2_10(x), den_sixth_2_11(x), den_sixth_1_13(x), den_cube_3_10(x), den_sixth_2_12(x));
    lemma_horner_level(x, 0x1962d75c2381201e1a0cbd6c43c348b885c84ff731c4d59ca4a10356f453e01f78a4260763529e3532f6102c2e49a03dint, 0x1806a9a82d48692aa8767abd0f91562336b49a711c06a03a763412c1a438b28745554b4c6acfefecece98036fb526a1int, 0xaccbb67481d033ff5852c1e48c50c477f94ff8aefce42d28c0f9a88cea7913516f968986f7ebbea9684b529e2561092int, 0x10dbc11a21057bdef93fdf1ae191da7384b3b20256588d6fa721713ab1f3fa8f8aa5f7f1d74995d06a4894a8d53977f6int, 0xa8b04b8b6d3308158424537840266f099f82ba9a46030814c270185b89ceb24d02834b4f15ef43a9cc8b780c8678c5dint, den_sixth_1_11(x), den_cube_1_10(x), den_sixth_2_10(x), den_sixth_1_12(x), den_cube_2_10(x), den_sixth_2_11(x));
    lemma_horner_level(x, 0x1962d75c2381201e1a0cbd6c43c348b885c84ff731c4d59ca4a10356f453e01f78a4260763529e3532f6102c2e49a03dint, 0x17625fa034ad9f3709be046c15f3db86c421b94b2837fdd31961315bdb44bf478b6be86f4358d8c7d51ff9f237fe6d4aint, 0x4d2f259eea405bd48f010a01ad2911d9c6dd039bb61a6290e591b36e636a5c871a5c29f4f83060400f8b49cba8f6aa8int, 0x15931e0c2958ef58d6dcce8bd6ad46b9883718e5d008b30539c3dda898930e917a8ed3dbe9ec03adcf0dd8e13a9714acint, 0x4b59804de65c8338b26549d44cc32df3bdbf06fd26cbab8992abbcd4bd27478502dee2b81d22abab38c4bb24e40343eint, den_sixth_1_10(x), den_cube_0_10(x), den_sixth_2_9(x), den_sixth_1_11(x), den_cube_1_10(x), den_sixth_2_10(x));
    lemma_horner_level(x, 0x1962d75c2381201e1a0cbd6c43c348b885c84ff731c4d59ca4a10356f453e01f78a4260763529e3532f6102c2e49a03dint, 0x36968fb7641625fb8a72a4b48ff7e4e8a8de907d7ccec67445007c1cdeb78922aff39574828c4bf9680f32d845d3f22int, 0x167a55cda70a6e1cea820597d94a84903216f763e13d87bb5308592e7ea7d4fbc7385ea3d529b35e346ef48bb8913f55int, 0x11cfa53efed5ce2d322de4e11f9b453570d055bfd0d449972137145e2fc13dd01a50cca5b98f5bec19e3f4f0ccacc5dbint, 0x15f190282e783c902721179ee378aa8ccbd607e2efe177c721bd38228f42adece008246c5566eb653738f09b592739eeint, den_sixth_1_9(x), den_cube_0_9(x), den_sixth_2_8(x), den_sixth_1_10(x), den_cube_0_10(x), den_sixth_2_9(x));
    lemma_horner_level(x, 0x1962d75c2381201e1a0cbd6c43c348b885c84ff731c4d59ca4a10356f453e01f78a4260763529e3532f6102c2e49a03dint, 0x16a1eba7a3c3c3833d1e4b07e0ddd182cd996abc7f34141e644e31e4614c106c98d37a34dd9c2fda7397b2c9b166e42fint, 0x1866c8ed336c61231a1be54fd1d74cc4f9fb0ce4c6af5920abc5750c4bf39b4852cfe2f7bb9248836b233d9d55535d4aint, 0xc4c8df17baa7880d21e61705cfb11e0f8a66e8f9a82ab3a37425fa938f8976b318aa822dbeff0de4e657fef36e77366int, 0x17d24ed9c71d9d62949dfefa1f8f0885f56d02128fd1f4e3e74ed3f36043550b636c4758fcbdb4cd13ac0984addd1d8bint, den_sixth_1_8(x), den_cube_0_8(x), den_sixth_2_7(x), den_sixth_1_9(x), den_cube_0_9(x), den_sixth_2_8(x));
    lemma_horner_level(x, 0x1962d75c2381201e1a0cbd6c43c348b885c84ff731c4d59ca4a10356f453e01f78a4260763529e3532f6102c2e49a03dint, 0x71867d09d9852c9e7fab865d97f5df605cb3a6b0489342e1604882c36bab4c92687009ff4f375cf7700f5e5aa320da3int, 0x16a3ef08be3ea7ea03bcddfabba6ff6ee5a4375efa1f4fd7feb34fd206357132b920f5b00801dee460ee415a15812ed9int, 0x171870ed2e5c99e9add568603229df13fc6e8ef5b99c4a836edaaf6540d4a9946d3164b3bce7a2e1130932a5bbfc4272int, 0x161a2c45728631eb0e3b106724b0704ac5ffc9a8dade4a64ef86e4c19fb3a7dc9511cd0e96c1c881aa920c5cd5bcfb8cint, den_sixth_1_7(x), den_cube_0_7(x), den_sixth_2_6(x), den_sixth_1_8(x), den_cube_0_8(x), den_sixth_2_7(x));
    lemma_horner_level(x, 0x1962d75c2381201e1a0cbd6c43c348b885c84ff731c4d59ca4a10356f453e01f78a4260763529e3532f6102c2e49a03dint, 0x96350ef1b85aca47753bb06c030b21057f302ec421ba27867ca86f05d2f25c1c089b7811513de39ad65995ffe4ff951int, 0x166007c08a99db2fc3ba8734ace9824b5eecfdfa8d0cf8ef5dd365bc400a0051d5fa9c01a58b1fb93d1a1399126a775cint, 0x1585f2d4a374f87885adc102d85920261c65d87504d87f299eff835211e6a1639ae0ffef3a7d2bec24fd5ed1ad2d9b12int, 0x15d7e22a095337b64888699aa9a4a5a8e1aec25e442b666238686429d5d5dbce1c8d9c77fed7e5fb23fe8860423bb807int, den_sixth_1_6(x), den_cube_0_6(x), den_sixth_2_5(x), den_sixth_1_7(x), den_cube_0_7(x), den_sixth_2_6(x));
    lemma_horner_level(x, 0x1962d75c2381201e1a0cbd6c43c348b885c84ff731c4d59ca4a10356f453e01f78a4260763529e3532f6102c2e49a03dint, 0xa3b358b0981088fc16a2280f54d294fdd4e70c8e9a9dcb46e70c91b490ef2e6cf3436b46999a37613cdc58c5bc7ed68int, 0x8d9e5297186db2d9fb266eaac783182b70152c65550d881c5ecd87b6f0f5a6449f38db9dfa9cce202c6477faaf9b7acint, 0x15dea2866e6116140cc954fedb80d1bf946d53bb11caf6ce7e57ee7f1cd7d7da88fa66b52bb88e40e0a9eded251df803int, 0x8a409c61a0021215e474f12676eccd0a8986f4db474a8388a19174f093a422b3f86cb88c1dd2d981f395c1c90cfebc5int, den_sixth_1_5(x), den_cube_0_5(x), den_sixth_2_4(x), den_sixth_1_6(x), den_cube_0_6(x), den_sixth_2_5(x));
    lemma_horner_level(x, 0x1962d75c2381201e1a0cbd6c43c348b885c84ff731c4d59ca4a10356f453e01f78a4260763529e3532f6102c2e49a03dint, 0x18c320d7c571b2ed3e4443700edf1dcf6b8927c704c2f089e53e45122b43d64be1bcb0efdcb178ae128dfb2e4681030int, 0xbe0e079545f43e4b00cc912f8228ddcc6d19c9f0f69bbb0542eda0fc9dec916a20b15dc0fd2ededda39142311a5001dint, 0xb30241bed0bdaf55b9b4d03e9194b04f499f2fcd2b00604ae745832cb21dc0c79bb7a7a7385589976ec0a69c1389d5eint, 0xb989985a60ca254a996afc0288ed16151ae05a9b4ab96d983f6a54c64fa8c9f0fcda152c3dd3a70cb039a256aaf1c45int, den_sixth_1_4(x), den_cube_0_4(x), den_sixth_2_3(x), den_sixth_1_5(x), den_cube_0_5(x), den_sixth_2_4(x));
    lemma_horner_level(x, 0x1962d75c2381201e1a0cbd6c43c348b885c84ff731c4d59ca4a10356f453e01f78a4260763529e3532f6102c2e49a03dint, 0x18433e93bf563c97a071c67b4e2111bbfb39dd3b51a1bc91c18b3bf182723ffc03ae879328e69d687cdf511ae373d3f2int, 0x16b7d288798e5395f20d23bf89edb4d1d115c5dbddbcd30e123da489e726af41727364f2c28297ada8d26d98445f5416int, 0x183831cb8f6d843164f47dcd72db64245689b6cb27d30e9002c131d27826a94791c9c68f1548f539f133e5e5c0023a0bint, 0x162d96c0b8600ae536346fd9ca9a7316470def89a520528501fe990ad8abbcf6aa428f247ec4bf221e617ef58c508e05int, den_sixth_1_3(x), den_cube_0_3(x), den_sixth_2_2(x), den_sixth_1_4(x), den_cube_0_4(x), den_sixth_2_3(x));
    lemma_horner_level(x, 0x1962d75c2381201e1a0cbd6c43c348b885c84ff731c4d59ca4a10356f453e01f78a4260763529e3532f6102c2e49a03dint, 0x1314be58ae036b02f9a9268f7eaf64ac301fb5e3ae6e8ae95936cae590475f268181c5892413f6d77e15205da0a8a76bint, 0x58df3306640da276faaae7d6e8eb15778c4855551ae7f310c35a5dd279cd2eca6757cd636f96f891e2538b53dbf67f2int, 0x19d93678baa6792953b042af2f7d569c416c8de4b5b36876cd56edb0ab82ea7e4a7b9f100f387e51cac39a4c4e0470d0int, 0x56c26fd75001f9c01f42767e274a242191b7724a1a6d849d54aeafc66afb4bb396fd5aba96ac0da67599dafd8ff6a2dint, den_sixth_1_2(x), den_cube_0_2(x), den_sixth_2_1(x), den_sixth_1_3(x), den_cube_0_3(x), den_sixth_2_2(x));
    lemma_horner_level(x, 0x1962d75c2381201e1a0cbd6c43c348b885c84ff731c4d59ca4a10356f453e01f78a4260763529e3532f6102c2e49a03dint, 0x6922e7a500ace8197071dbb2911897c754db814bbf8c06ad20b1f2fbc3d5829d4d2399d61b2cc0cc34420e8ce2e3eedint, 0x1962d75c2381201e1a0cbd6c43c348b885c84ff731c4d59ca4a10356f453e01f78a4260763529e3532f6102c2e49a03dint, 0x16209322715b8278215b355e9798e7a7aa3773806eddffda0682894519fcdc6e3499d58501cca7250404d9984c5eb2feint, 0x18c85f95fff5d73122bcd52fd3f5be5b958ef30f87aea40f073b5297e2acac7e2fe348c581302ac02760c4e0dba247ceint, den_sixth_1_1(x), den_cube_0_1(x), den_sixth_2_0(x), den_sixth_1_2(x), den_cube_0_2(x), den_sixth_2_1(x));
    lemma_horner_level(x, 0x1962d75c2381201e1a0cbd6c43c348b885c84ff731c4d59ca4a10356f453e01f78a4260763529e3532f6102c2e49a03dint, 0x2b77b4d34604685439a858aaf18115da391898916403416081693d6fb8f19b3a5d64f668bbca9f1840a02e50fc4ce73int, 0x16112c4c3a9c98b252181140fad0eae9601a6de578980be6eec3232b5be72e7a07f3688ef60c206d01479253b03663c1int, 0x0int, 0x158ae6892e359a0852e6c87d0f62ab837dd70e3c414dac0a35ad5abbdf7e0f76f1aab0518884260a8aaa11b0e655c39eint, den_sixth_1_0(x), den_cube_0_0(x), times(x, den_sixth_2_0(x)), den_sixth_1_1(x), den_cube_0_1(x), den_sixth_2_0(x));
    lemma_product_level(x, 0x1962d75c2381201e1a0cbd6c43c348b885c84ff731c4d59ca4a10356f453e01f78a4260763529e3532f6102c2e49a03dint, den_cube_0_1(x), den_cube_0_2(x), den_cube_0_0(x), den_sixth_1_0(x), den_sixth_2_0(x));
}

pub(crate) proof fn lemma_den_sixth_step_0(x: int)
    ensures
        congruent(den_sixth_0_0(x), times(den_cube_0_0(x), den_cube_0_0(x))),
{
    lemma_times_zero(x);
    lemma_den_sixth_step_1(x);
    lemma_congruent_refl(den_sixth_1_15(x), 0x16112c4c3a9c98b252181140fad0eae9601a6de578980be6eec3232b5be72e7a07f3688ef60c206d01479253b03663c1int * 0int + den_sixth_1_15(x));
    lemma_horner_level(x, 0x16112c4c3a9c98b252181140fad0eae9601a6de578980be6eec3232b5be72e7a07f3688ef60c206d01479253b03663c1int, 0x1664e7b3e8d2584711b26c41033ca3972c9d261f320e767ddf02090fe3aa0ae658bd9eb0066d58adfd80cdcb5ef94649int, 0x1int, 0x53bb67ae35bf94bf9a5b00086bb8adcc82b839b9766a96f03ee5e487c2dc6c50ca362110613840fc393b77aec2e288int, 0x0int, den_sixth_0_15(x), den_cube_5_10(x), den_sixth_1_14(x), den_sixth_1_15(x), 0int, den_sixth_1_15(x));
    lemma_horner_level(x, 0x16112c4c3a9c98b252181140fad0eae9601a6de578980be6eec3232b5be72e7a07f3688ef60c206d01479253b03663c1int, 0x6024fabbbaad93c219a74679db8b1b0c11ecf8bf9230a2a26ef45e0f394ce0b4be78a0b81b26620f3fbce84b3455f4dint, 0xe0fa1d816ddc03e6b24255e0d7819c171c40f65e273b853324efcd6356caa205ca2f570f13497804415473a1d634b8fint, 0x157818bea107f58f3c2aae98f288dfcc7516999d61d3901f1ba5af6ca62430a7d33be411e6d1beb893e0eed2f2c1ae4eint, 0xbeea3919b13eb2caf1d2417beb7d1361329226ce55c12232405aedac2ce0b8f848f72b736c07531dbd253d6e19fb870int, den_sixth_0_14(x), den_cube_4_10(x), den_sixth_1_13(x), den_sixth_0_15(x), den_cube_5_10(x), den_sixth_1_14(x));
    lemma_horner_level(x, 0x16112c4c3a9c98b252181140fad0eae9601a6de578980be6eec3232b5be72e7a07f3688ef60c206d01479253b03663c1int, 0x8ae50e1e80f817c29443efc5b18ad8f95cd6fe1bb7cdcefeada5c9df744daad2b9c8a7f1f67c00800534edaf8282e65int, 0x2660400eb2e4f3b628bdd0d53cd76f2bf565b94e72927c1cb748df27942480e420517bd8714cc80d1fadc1326ed06f7int, 0x73b19e693c20e650b58d3b94c7ff3c1bc6690444440b4eca2c489cda2a608d2597e3430584cbce6f6625a334f267a25int, 0x2090d5960c4b030bc16b5df144d9ae59ef376c27b5da794ce2856fe2a72956996a62a790532627335661177175932e5int, den_sixth_0_13(x), den_cube_3_10(x), den_sixth_1_12(x), den_sixth_0_14(x), den_cube_4_10(x), den_sixth_1_13(x));
    lemma_horner_level(x, 0x16112c4c3a9c98b252181140fad0eae9601a6de578980be6eec3232b5be72e7a07f3688ef60c206d01479253b03663c1int, 0x964e9f2c47ea4f01fb77225e48c733b5551821ea94f4ca7c80f9ef8440a33bd6818556045dd38fb25ea18ba41f974d9int, 0xad6b9514c767fe3c3613144b45f1496543346d98adf02267d5ceef9a00d9b8693000763e3b90ac11e99b138573345ccint, 0x1806a9a82d48692aa8767abd0f91562336b49a711c06a03a763412c1a438b28745554b4c6acfefecece98036fb526a1int, 0x9329fb17a357576911ec1f905dd78f99e868f62535bd7508b03cf20f522520d2b2fd1385fe24d4e38dc4e3dc6f79dbcint, den_sixth_0_12(x), den_cube_2_10(x), den_sixth_1_11(x), den_sixth_0_13(x), den_cube_3_10(x), den_sixth_1_12(x));
    lemma_horner_level(x, 0x16112c4c3a9c98b252181140fad0eae9601a6de578980be6eec3232b5be72e7a07f3688ef60c206d01479253b03663c1int, 0x15eff65baf739dfbcc6b45bf841ce74e9d625a8e94576370d9d4e16786483d5a39260eee318be8132c5c3bff5d48fbe6int, 0xaccbb67481d033ff5852c1e48c50c477f94ff8aefce42d28c0f9a88cea7913516f968986f7ebbea9684b529e2561092int, 0x17625fa034ad9f3709be046c15f3db86c421b94b2837fdd31961315bdb44bf478b6be86f4358d8c7d51ff9f237fe6d4aint, 0x92a250dbf3cbb21633f33f80f37e7bd3125ff00a8e7a2e708d36e18ada6051019a24fea182a6876953754961ec73062int, den_sixth_0_11(x), den_cube_1_10(x), den_sixth_1_10(x), den_sixth_0_12(x), den_cube_2_10(x), den_sixth_1_11(x));
    lemma_horner_level(x, 0x16112c4c3a9c98b252181140fad0eae9601a6de578980be6eec3232b5be72e7a07f3688ef60c206d01479253b03663c1int, 0x148af3c4cd265234c8a371fc1f5a4ee90a2afeb5a12dad7ea02cf8084d759f06f6b34c1c9c56532c78186989d598dd2aint, 0x4d2f259eea405bd48f010a01ad2911d9c6dd039bb61a6290e591b36e636a5c871a5c29f4f83060400f8b49cba8f6aa8int, 0x36968fb7641625fb8a72a4b48ff7e4e8a8de907d7ccec67445007c1cdeb78922aff39574828c4bf9680f32d845d3f22int, 0x417f90204ce3f62c4ad154d4dd1d28f6cea0d084b9066f808ccc1ad2ab8aab8ce5ae21743dd6688662d9f91a79847e0int, den_sixth_0_10(x), den_cube_0_10(x), den_sixth_1_9(x), den_sixth_0_11(x), den_cube_1_10(x), den_sixth_1_10(x));
    lemma_horner_level(x, 0x16112c4c3a9c98b252181140fad0eae9601a6de578980be6eec3232b5be72e7a07f3688ef60c206d01479253b03663c1int, 0x1105edd804967778470defa273d6b1b04132ab6eb4eb6b3e54d3115c60019b7d922c4d986b5556b311585a68bcc3e002int, 0x167a55cda70a6e1cea820597d94a84903216f763e13d87bb5308592e7ea7d4fbc7385ea3d529b35e346ef48bb8913f55int, 0x16a1eba7a3c3c3833d1e4b07e0ddd182cd996abc7f34141e644e31e4614c106c98d37a34dd9c2fda7397b2c9b166e42fint, 0x13131d5146ec78141adb4699cdd231d65f22872816f2903fc30d7050be4ff44ecd9aaa0c8efeaf94f91bbbf11b74e6c6int, den_sixth_0_9(x), den_cube_0_9(x), den_sixth_1_8(x), den_sixth_0_10(x), den_cube_0_10(x), den_sixth_1_9(x));
    lemma_horner_level(x, 0x16112c4c3a9c98b252181140fad0eae9601a6de578980be6eec3232b5be72e7a07f3688ef60c206d01479253b03663c1int, 0xc96885e8f4fef0a29be82ea7f1862fa9638a10c54ad66b36fa0f6de6a13005549ca0e645c7fd6c2720e8c5a5440e6c6int, 0x1866c8ed336c61231a1be54fd1d74cc4f9fb0ce4c6af5920abc5750c4bf39b4852cfe2f7bb9248836b233d9d55535d4aint, 0x71867d09d9852c9e7fab865d97f5df605cb3a6b0489342e1604882c36bab4c92687009ff4f375cf7700f5e5aa320da3int, 0x14b501909de3153b25017d8c4d5e097594a978d3f262a41300ae58c6201781c0b44fad843c96140eceb511feaa634cf5int, den_sixth_0_8(x), den_cube_0_8(x), den_sixth_1_7(x), den_sixth_0_9(x), den_cube_0_9(x), den_sixth_1_8(x));
    lemma_horner_level(x, 0x16112c4c3a9c98b252181140fad0eae9601a6de578980be6eec3232b5be72e7a07f3688ef60c206d01479253b03663c1int, 0x1d878c239ef267b162e38bfd04ef30fc9a11aa2103934faa3b847008fb9491e2b6f71dd8d4d8b79ad90b7e861984129int, 0x16a3ef08be3ea7ea03bcddfabba6ff6ee5a4375efa1f4fd7feb34fd206357132b920f5b00801dee460ee415a15812ed9int, 0x96350ef1b85aca47753bb06c030b21057f302ec421ba27867ca86f05d2f25c1c089b7811513de39ad65995ffe4ff951int, 0x13366a3a71834eef2dc02ea357ae461b89d8a4b0b657e62149848bc17c6adc40153210c09dae5101187945cb6c42de43int, den_sixth_0_7(x), den_cube_0_7(x), den_sixth_1_6(x), den_sixth_0_8(x), den_cube_0_8(x), den_sixth_1_7(x));
    lemma_horner_level(x, 0x16112c4c3a9c98b252181140fad0eae9601a6de578980be6eec3232b5be72e7a07f3688ef60c206d01479253b03663c1int, 0x176a9998dc306c14d0247aac5266b66e441d4020e9bcf8ba220b1bde586b097628399b8bd782b0e9adf72e64aaddf7bcint, 0x166007c08a99db2fc3ba8734ace9824b5eecfdfa8d0cf8ef5dd365bc400a0051d5fa9c01a58b1fb93d1a1399126a775cint, 0xa3b358b0981088fc16a2280f54d294fdd4e70c8e9a9dcb46e70c91b490ef2e6cf3436b46999a37613cdc58c5bc7ed68int, 0x12fccad18069407da011bee2cbcbe164a8ffb5bfe8c7f943f7bc89d4ecbbf143837ad5bf63de69342213856618539218int, den_sixth_0_6(x), den_cube_0_6(x), den_sixth_1_5(x), den_sixth_0_7(x), den_cube_0_7(x), den_sixth_1_6(x));
    lemma_horner_level(x, 0x16112c4c3a9c98b252181140fad0eae9601a6de578980be6eec3232b5be72e7a07f3688ef60c206d01479253b03663c1int, 0x11f2123be5a19eddac6dec47afe6fb64f0a6f3df0228fea27e8f114d522697424e4ef9c1f4cc690ab54676a3423ab6c4int, 0x8d9e5297186db2d9fb266eaac783182b70152c65550d881c5ecd87b6f0f5a6449f38db9dfa9cce202c6477faaf9b7acint, 0x18c320d7c571b2ed3e4443700edf1dcf6b8927c704c2f089e53e45122b43d64be1bcb0efdcb178ae128dfb2e4681030int, 0x782d53fba51b60e219753058ab30faf9b978fa5b9491b538b66d36dee44cbb8c894e2c25aed4a30628b85f84c890248int, den_sixth_0_5(x), den_cube_0_5(x), den_sixth_1_4(x), den_sixth_0_6(x), den_cube_0_6(x), den_sixth_1_5(x));
    lemma_horner_level(x, 0x16112c4c3a9c98b252181140fad0eae9601a6de578980be6eec3232b5be72e7a07f3688ef60c206d01479253b03663c1int, 0x9cf3e3f69ad59e14c389752fa2fc463a36686f66305f3b864752677812a29b296242158608176e2e8e9623c59057ca2int, 0xbe0e079545f43e4b00cc912f8228ddcc6d19c9f0f69bbb0542eda0fc9dec916a20b15dc0fd2ededda39142311a5001dint, 0x18433e93bf563c97a071c67b4e2111bbfb39dd3b51a1bc91c18b3bf182723ffc03ae879328e69d687cdf511ae373d3f2int, 0xa147b0481f2b47b84bccb447bc18fa3ae7b4239e522f41f5a2e322058bccaaedecb0e786b535585000dffbcc37cec87int, den_sixth_0_4(x), den_cube_0_4(x), den_sixth_1_3(x), den_sixth_0_5(x), den_cube_0_5(x), den_sixth_1_4(x));
    lemma_horner_level(x, 0x16112c4c3a9c98b252181140fad0eae9601a6de578980be6eec3232b5be72e7a07f3688ef60c206d01479253b03663c1int, 0x19b15b073bcd0bb85c44dda81baf00611e61d04477e1be2e337d08c06054ded8764b3e216d1cfca3db8834989c0936f5int, 0x16b7d288798e5395f20d23bf89edb4d1d115c5dbddbcd30e123da489e726af41727364f2c28297ada8d26d98445f5416int, 0x1314be58ae036b02f9a9268f7eaf64ac301fb5e3ae6e8ae95936cae590475f268181c5892413f6d77e15205da0a8a76bint, 0x13474adc95102a8768b683a515798b9546e4d8b0c6b80d77496f84ddfe037cf03e7697ede4bad2152cac7e41e5170524int, den_sixth_0_3(x), den_cube_0_3(x), den_sixth_1_2(x), den_sixth_0_4(x), den_cube_0_4(x), den_sixth_1_3(x));
    lemma_horner_level(x, 0x16112c4c3a9c98b252181140fad0eae9601a6de578980be6eec3232b5be72e7a07f3688ef60c206d01479253b03663c1int, 0x2b1afb287e66a5f6d46ab637d5ec44cbb0de0103751ad85715cd5d3df893e73eac00f23b22b73320d49fa811a8d4740int, 0x58df3306640da276faaae7d6e8eb15778c4855551ae7f310c35a5dd279cd2eca6757cd636f96f891e2538b53dbf67f2int, 0x6922e7a500ace8197071dbb2911897c754db814bbf8c06ad20b1f2fbc3d5829d4d2399d61b2cc0cc34420e8ce2e3eedint, 0x4b6a9c76da2f6810ef13079c2e753ad8ea0624c1081a8c617cc5d8297b5b4c1856609b48532f4f210f6748d7ae3c15dint, den_sixth_0_2(x), den_cube_0_2(x), den_sixth_1_1(x), den_sixth_0_3(x), den_cube_0_3(x), den_sixth_1_2(x));
    lemma_horner_level(x, 0x16112c4c3a9c98b252181140fad0eae9601a6de578980be6eec3232b5be72e7a07f3688ef60c206d01479253b03663c1int, 0x56ef69a68c08d0a87350b155e3022bb472313122c80682c102d27adf71e33674bac9ecd177953e3081405ca1f899ce6int, 0x1962d75c2381201e1a0cbd6c43c348b885c84ff731c4d59ca4a10356f453e01f78a4260763529e3532f6102c2e49a03dint, 0x2b77b4d34604685439a858aaf18115da391898916403416081693d6fb8f19b3a5d64f668bbca9f1840a02e50fc4ce73int, 0x158ae6892e359a0852e6c87d0f62ab837dd70e3c414dac0a35ad5abbdf7e0f76f1aab0518884260a8aaa11b0e655c39eint, den_sixth_0_1(x), den_cube_0_1(x), den_sixth_1_0(x), den_sixth_0_2(x), den_cube_0_2(x), den_sixth_1_1(x));
    lemma_horner_level(x, 0x16112c4c3a9c98b252181140fad0eae9601a6de578980be6eec3232b5be72e7a07f3688ef60c206d01479253b03663c1int, 0x197858f664441423a78a763d910a639b2232676c96c2951765d6eccbca1857786a2679b74ffab99f150b8d405c6a4235int, 0x16112c4c3a9c98b252181140fad0eae9601a6de578980be6eec3232b5be72e7a07f3688ef60c206d01479253b03663c1int, 0x0int, 0x12b9dfcb772489501da9b921301dae9fbce3a7331f3e40f57239543c05920437fce7e4ec1ad78228b017cf5d7f85bfe4int, den_sixth_0_0(x), den_cube_0_0(x), times(x, den_sixth_1_0(x)), den_sixth_0_1(x), den_cube_0_1(x), den_sixth_1_0(x));
    lemma_product_level(x, 0x16112c4c3a9c98b252181140fad0eae9601a6de578980be6eec3232b5be72e7a07f3688ef60c206d01479253b03663c1int, den_cube_0_0(x), den_cube_0_1(x), den_cube_0_0(x), den_sixth_0_0(x), den_sixth_1_0(x));
}

pub(crate) proof fn lemma_y_num_sq_step_15(x: int)
    ensures
        congruent(y_num_sq_15_0(x), times(y_num_15(x), y_num_0(x))),
{
    lemma_times_zero(x);
    lemma_congruent_refl(0int, 0x15e6be4e990f03ce4ea50b3b42df2eb5cb181d8f84965a3957add4fa95af01b2b665027efec01c7704b456be69c8b604int * 0int + 0int);
    lemma_horner_level(x, 0x15e6be4e990f03ce4ea50b3b42df2eb5cb181d8f84965a3957add4fa95af01b2b665027efec01c7704b456be69c8b604int, 0x30673b1c24bc7c97f094944729554461095cd85335b191fff80dffbbb553b41177f1bb29ff5dc3f24e921b95cfa5796int, 0x15e6be4e990f03ce4ea50b3b42df2eb5cb181d8f84965a3957add4fa95af01b2b665027efec01c7704b456be69c8b604int, 0x0int, 0x1272221bbacd8f39f861131385a3ed7273772bf01f76be9f14c2ae9144f172862ad4c8c9340850e7cc607e24817c096eint, y_num_sq_15_15(x), y_num_15(x), 0int, 0int, 0int, 0int);
    lemma_horner_level(x, 0x15e6be4e990f03ce4ea50b3b42df2eb5cb181d8f84965a3957add4fa95af01b2b665027efec01c7704b456be69c8b604int, 0xab28e1214671c1369eeda7f16cd3e0921ed2469e8566af92171c16742b4295318688c13075726142c8dab5a6a07cfbint, 0x5c129645e44cf1102a159f748c4a3fc5e673d81d7e86568d9ab0f5d396a7ce46ba1049b6579afb7866b1e715475224bint, 0x0int, 0x4d8bb6261799da9bc032e894be7963adfc2da2c8a2eab31121bb50ad0305591a4b281175cc61416d1923024981b1a93int, y_num_sq_15_14(x), y_num_14(x), 0int, y_num_sq_15_15(x), y_num_15(x), 0int);
    lemma_horner_level(x, 0x15e6be4e990f03ce4ea50b3b42df2eb5cb181d8f84965a3957add4fa95af01b2b665027efec01c7704b456be69c8b604int, 0x8f8269d0cd7b1c49dbcfbe778d09a4040296c999030a40148e9f728ecdf0586216c21c40e0d07b995f9478420ab5f04int, 0x245a394ad1eca9b72fc00ae7be315dc757b3b080d4c158013e6632d3c40659cc6cf90ad1c232a6442d9d3f5db980133int, 0x0int, 0x1e9dec8ce959b0fb69fed57234ab365d1278c1dab6a64d013d66ceadbcf24eb536461cec49bca44493aa22b638cb758int, y_num_sq_15_13(x), y_num_13(x), 0int, y_num_sq_15_14(x), y_num_14(x), 0int);
    lemma_horner_level(x, 0x15e6be4e990f03ce4ea50b3b42df2eb5cb181d8f84965a3957add4fa95af01b2b665027efec01c7704b456be69c8b604int, 0x134aab3a0807bc9dcea53566b94fc41ccb440247b1bc568bbbd5f3e8d2a2b6371afb2d41b975fc2a7c477118fde45cbbint, 0xb182cac101b9399d155096004f53f447aa7b12a3426b08ec02710e807b4633f06c851c1919211f20d4c04f00b971ef8int, 0x0int, 0x95810150cfd429cab1c8956a3d0ab300ed4039d1a091ecc78acec6340c45b47ee708d2ceef7772b118bce4dec244d6fint, y_num_sq_15_12(x), y_num_12(x), 0int, y_num_sq_15_13(x), y_num_13(x), 0int);
    lemma_horner_level(x, 0x15e6be4e990f03ce4ea50b3b42df2eb5cb181d8f84965a3957add4fa95af01b2b665027efec01c7704b456be69c8b604int, 0x40c531ba3b1675bace42aac218b0c364ca4cb8a259160c8c9a01835fcf08d578ed53a0f70a6d05f70f937b06e35826int, 0x18b46a908f36f6deb918c143fed2edcc523559b8aaf0c2462e6bfe7f911f643249d9cdf41b44d606ce07c8a4d0074d8eint, 0x0int, 0x14ce931150092bdb517566f4cba7d716d4b891c4b10d5243923aa48785619a65fa7f15e5d3a6118aa2c0bccc341c7636int, y_num_sq_15_11(x), y_num_11(x), 0int, y_num_sq_15_12(x), y_num_12(x), 0int);
    lemma_horner_level(x, 0x15e6be4e990f03ce4ea50b3b42df2eb5cb181d8f84965a3957add4fa95af01b2b665027efec01c7704b456be69c8b604int, 0x171cbb540034523c0964ea26add6f81e67cc73e128edf0f7eba9eed5c5fe314f987c9d901f7589154be995b90c45ba54int, 0x19713e47937cd1be0dfd0b8f1d43fb93cd2fcbcb6caf493fd1183e416389e61031bf3a5cce3fbafce813711ad011c132int, 0x0int, 0x156d9bee31c8865604db77c077dad1c4cceef04e0bb798dc1e817918e00c1664934c6dbd86a9d8b9b1301c22509c835cint, y_num_sq_15_10(x), y_num_10(x), 0int, y_num_sq_15_11(x), y_num_11(x), 0int);
    lemma_horner_level(x, 0x15e6be4e990f03ce4ea50b3b42df2eb5cb181d8f84965a3957add4fa95af01b2b665027efec01c7704b456be69c8b604int, 0x67f3ad90050aa5f5c9e1e6f9bc890253671431f8ec98e61f0f818e9bc70fa0bbf41a57e1a82d604a1a2fbe5a27bde3cint, 0xe1bba7a1186bdb5223abde7ada14a23c42a0ca7915af6fe06985e7ed1e4d43b9b3f7055dd4eba6f2bafaaebca731c30int, 0x0int, 0xbe1e24be1c11c069258b5de6fce9f3002b097104d9b788278f4e2880bc0b9abf376707fb5c63fedb0d0899b501c178cint, y_num_sq_15_9(x), y_num_9(x), 0int, y_num_sq_15_10(x), y_num_10(x), 0int);
    lemma_horner_level(x, 0x15e6be4e990f03ce4ea50b3b42df2eb5cb181d8f84965a3957add4fa95af01b2b665027efec01c7704b456be69c8b604int, 0x444427415dea153fdaa9f256104f3a7bf3447c033e35461fa9cf8445f6fb69a8af82c4c56515e715d3cd928a6144e47int, 0x9fc4018bd96684be88c9e221e4da1bb8f3abd16679dc26c1e8b6e6a1f20cabe69d65201c78607a360370e577bdba587int, 0x0int, 0x868ef656d17331acf975236e4a12abd5165046c4e6bac35bf53c6027127288b36b5da210ab6510f45e10cd929ffc57fint, y_num_sq_15_8(x), y_num_8(x), 0int, y_num_sq_15_9(x), y_num_9(x), 0int);
    lemma_horner_level(x, 0x15e6be4e990f03ce4ea50b3b42df2eb5cb181d8f84965a3957add4fa95af01b2b665027efec01c7704b456be69c8b604int, 0x7ff7818a09d0e73f7e56a61806bd0ab4a5b7b39bb538a7176a4a4a71ae7cb412cac4985e8fa6fec2545c62a0d4a0834int, 0x987c8d5333ab86fde9926bd2ca6c674170a05bfe3bdd81ffd038da6c26c842642f64550fedfe935a15e4ca31870fb29int, 0x0int, 0x806d844c6bf3534dde7e345818b1d9f210f5d82749b153b723bbb63ac6751df370cf67c2fb69ee8b26a27ed2f831f50int, y_num_sq_15_7(x), y_num_7(x), 0int, y_num_sq_15_8(x), y_num_8(x), 0int);
    lemma_horner_level(x, 0x15e6be4e990f03ce4ea50b3b42df2eb5cb181d8f84965a3957add4fa95af01b2b665027efec01c7704b456be69c8b604int, 0x15e7a42870a1b4644778617d011f525f7adf0f776f76981055d14246691ea2ef8849a1d7cee9485de4bc4c5a1d1d214fint, 0x4ab0b9bcfac1bbcb2c977d027796b3ce75bb8ca2be184cb5231413c4d634f3747a87ac2460f415ec961f8855fe9d6f2int, 0x0int, 0x3ee7ee8f95740b6956cb5e216dc2a0ab629488b7feeca6ed9219908dbd10b531a1dc3e784493dfb02da7ecc44a9d36bint, y_num_sq_15_6(x), y_num_6(x), 0int, y_num_sq_15_7(x), y_num_7(x), 0int);
    lemma_horner_level(x, 0x15e6be4e990f03ce4ea50b3b42df2eb5cb181d8f84965a3957add4fa95af01b2b665027efec01c7704b456be69c8b604int, 0x94e26691b7b8485f2c3530e6c2373e06d768029dc123b555f1c80435ae23e6723c2559e315e88a51671b70b94b6f9int, 0x16603fca40634b6a2211e11db8f0a6a074a7d0d4afadb7bd76505c3d3ad5544e203f6326c95a807299b23ab13633a5f0int, 0x0int, 0x12d877e3a848db803d644376e4a80fb3f43bc9a7c8157b977dcdf8ac5b49b18eed30f66ab76ed7e3e2939bcb4c6c8255int, y_num_sq_15_5(x), y_num_5(x), 0int, y_num_sq_15_6(x), y_num_6(x), 0int);
    lemma_horner_level(x, 0x15e6be4e990f03ce4ea50b3b42df2eb5cb181d8f84965a3957add4fa95af01b2b665027efec01c7704b456be69c8b604int, 0x1926b18ac64ce95d6e020faad485c68285e66ec319fe6cc7727d02ea14d60adff739d171b9e601f88d9f31c98deeed58int, 0x8cc03fdefe0ff135caf4fe2a21529c4195536fbe3ce50b879833fd221351adc2ee7f8dc099040a841b6daecf2e8fedbint, 0x0int, 0x768b38adc4dbff1574b241f6dc66d9c4fce67d1433abf148a800b3eba7415469e5e968c505f870b7f78ec50b332403cint, y_num_sq_15_4(x), y_num_4(x), 0int, y_num_sq_15_5(x), y_num_5(x), 0int);
    lemma_horner_level(x, 0x15e6be4e990f03ce4ea50b3b42df2eb5cb181d8f84965a3957add4fa95af01b2b665027efec01c7704b456be69c8b604int, 0xe1b8076dfb3b3ed65fef5b3ab7eba2829c5437108a0d6546be9fe978a3e5c92b919746dd50f2210c34364781ba2e6abint, 0x1f86376e8981c217898751ad8746757d42aa7b90eeb791c09e4a3ec03251cf9de405aba9ec61deca6355c77b0e5f4cbint, 0x0int, 0x1a8cedde58e26b1d3f83a9f5c7b6d281ec8f332d84011f343612ada338094761f95cac77d73e3bbc57e4ceaac42bb83int, y_num_sq_15_3(x), y_num_3(x), 0int, y_num_sq_15_4(x), y_num_4(x), 0int);
    lemma_horner_level(x, 0x15e6be4e990f03ce4ea50b3b42df2eb5cb181d8f84965a3957add4fa95af01b2b665027efec01c7704b456be69c8b604int, 0xc6323be50cb5d9401b96fea1b225c31d140f6f19807bb70b102eb7e28dfc8ec04930571d58e466606fdf5f9e4d654bcint, 0xcc786baa966e66f4a384c86a3b49942552e2d658a31ce2c344be4b91400da7d26d521628b00523b8dfe240c72de1f6int, 0x0int, 0xac35b8bb55582cc8453f5d34bc07ec53c0227c5d805673f947beda48849ce851a2a8f53c3bc602f77347b113764554int, y_num_sq_15_2(x), y_num_2(x), 0int, y_num_sq_15_3(x), y_num_3(x), 0int);
    lemma_horner_level(x, 0x15e6be4e990f03ce4ea50b3b42df2eb5cb181d8f84965a3957add4fa95af01b2b665027efec01c7704b456be69c8b604int, 0x6123119a17eb6a40bb0dd0d91c8576e77638da110ee959f73369025592d23eaa3ddf76bcd48e095556b03404ee477b8int, 0x134996a104ee5811d51036d776fb46831223e96c254f383d0f906343eb67ad34d6c56711962fa8bfe097e75a2e41c696int, 0x0int, 0x103e8e0ed3af2883f59c5ea864044a94dbbb628096abedc7556d4c1a3cbe380eb0a769456f7cf5cb573832055d63d3e0int, y_num_sq_15_1(x), y_num_1(x), 0int, y_num_sq_15_2(x), y_num_2(x), 0int);
    lemma_horner_level(x, 0x15e6be4e990f03ce4ea50b3b42df2eb5cb181d8f84965a3957add4fa95af01b2b665027efec01c7704b456be69c8b604int, 0x97c9b3afc41c5659cfb20f76833eb9745554ce674018bc7124efea20fbfc8f1c283cdee02585384d6c609aea925dcfint, 0x90d97c81ba24ee0259d1f094980dcfa11ad138e48a869522b52af6c956543d3cd0c7aee9b3ba3c2be9845719707bb33int, 0x0int, 0x79fee9eb9fda3f20f2364c41e8e30c89cd4e500960dbe732c5f9adce4eabbb8ec5c4111a9c905987a70dc0cc56772f7int, y_num_sq_15_0(x), y_num_0(x), times(x, 0int), y_num_sq_15_1(x), y_num_1(x), 0int);
    lemma_times_zero(y_num_0(x));
    lemma_congruent_refl(0int, times(0int, y_num_0(x)));
    lemma_product_level(x, 0x15e6be4e990f03ce4ea50b3b42df2eb5cb181d8f84965a3957add4fa95af01b2b665027efec01c7704b456be69c8b604int, y_num_15(x), 0int, y_num_0(x), y_num_sq_15_0(x), 0int);
}

pub(crate) proof fn lemma_y_num_sq_step_14(x: int)
    ensures
        congruent(y_num_sq_14_0(x), times(y_num_14(x), y_num_0(x))),
{
    lemma_times_zero(x);
    lemma_y_num_sq_step_15(x);
    lemma_congruent_refl(y_num_sq_15_15(x), 0x5c129645e44cf1102a159f748c4a3fc5e673d81d7e86568d9ab0f5d396a7ce46ba1049b6579afb7866b1e715475224bint * 0int + y_num_sq_15_15(x));
    lemma_horner_level(x, 0x5c129645e44cf1102a159f748c4a3fc5e673d81d7e86568d9ab0f5d396a7ce46ba1049b6579afb7866b1e715475224bint, 0x15651c2428ce3826d3ddb4fe2d9a7c1243da48d3d0acd5f242e382ce856852a630d118260eae4c28591b56b4d40f9f6int, 0x15e6be4e990f03ce4ea50b3b42df2eb5cb181d8f84965a3957add4fa95af01b2b665027efec01c7704b456be69c8b604int, 0xab28e1214671c1369eeda7f16cd3e0921ed2469e8566af92171c16742b4295318688c13075726142c8dab5a6a07cfbint, 0x4d8bb6261799da9bc032e894be7963adfc2da2c8a2eab31121bb50ad0305591a4b281175cc61416d1923024981b1a93int, y_num_sq_14_15(x), y_num_15(x), y_num_sq_15_14(x), y_num_sq_15_15(x), 0int, y_num_sq_15_15(x));
    lemma_horner_level(x, 0x5c129645e44cf1102a159f748c4a3fc5e673d81d7e86568d9ab0f5d396a7ce46ba1049b6579afb7866b1e715475224bint, 0x106ce578d3ee49f93e7a6471edf40534c16cfffa775ab73072f5eae9e8b66d91f126fd9a886d4e7ace399f203c93c0e0int, 0x5c129645e44cf1102a159f748c4a3fc5e673d81d7e86568d9ab0f5d396a7ce46ba1049b6579afb7866b1e715475224bint, 0x8f8269d0cd7b1c49dbcfbe778d09a4040296c999030a40148e9f728ecdf0586216c21c40e0d07b995f9478420ab5f04int, 0x14600055cbcc2118c3fc79681f4033d8484d27b6469ca1320828f1a9e67447a09eb5024fe9b0d6b5071102a4c0fe057int, y_num_sq_14_14(x), y_num_14(x), y_num_sq_15_13(x), y_num_sq_14_15(x), y_num_15(x), y_num_sq_15_14(x));
    lemma_horner_level(x, 0x5c129645e44cf1102a159f748c4a3fc5e673d81d7e86568d9ab0f5d396a7ce46ba1049b6579afb7866b1e715475224bint, 0x14356544d95e47848ed68302064267e9f2c189cef7022ca2ced432b8a1ececc7ad7a24f70571525c722ed5b5e3dae2b0int, 0x245a394ad1eca9b72fc00ae7be315dc757b3b080d4c158013e6632d3c40659cc6cf90ad1c232a6442d9d3f5db980133int, 0x134aab3a0807bc9dcea53566b94fc41ccb440247b1bc568bbbd5f3e8d2a2b6371afb2d41b975fc2a7c477118fde45cbbint, 0x80b667e6a322bfe613ce472bac70bd2da599fb536b2f9ba1ba2e098cbef83f7dc423dcf0b5792683e6d3ef8610cdf4int, y_num_sq_14_13(x), y_num_13(x), y_num_sq_15_12(x), y_num_sq_14_14(x), y_num_14(x), y_num_sq_15_13(x));
    lemma_horner_level(x, 0x5c129645e44cf1102a159f748c4a3fc5e673d81d7e86568d9ab0f5d396a7ce46ba1049b6579afb7866b1e715475224bint, 0xea47c28a73a0aa3c09e46a1c3a20c4bf8412e1406f62eea224fd252d80061a2e509c7b256e3c1d35d161e25355d90b5int, 0xb182cac101b9399d155096004f53f447aa7b12a3426b08ec02710e807b4633f06c851c1919211f20d4c04f00b971ef8int, 0x40c531ba3b1675bace42aac218b0c364ca4cb8a259160c8c9a01835fcf08d578ed53a0f70a6d05f70f937b06e35826int, 0x274829b3ee6d09f2a4e90c83c10d2168a6774cfece53d5f28df29a02d79df5e8dd253bb7307affa3bd603becf0d5e4bint, y_num_sq_14_12(x), y_num_12(x), y_num_sq_15_11(x), y_num_sq_14_13(x), y_num_13(x), y_num_sq_15_12(x));
    lemma_horner_level(x, 0x5c129645e44cf1102a159f748c4a3fc5e673d81d7e86568d9ab0f5d396a7ce46ba1049b6579afb7866b1e715475224bint, 0x15fc4fe7dab14ce915b7875d3973c5e954ba1a87d6c81f22b0a84a80c5a14fcdfeaccf64cb995112d2947b78c33e43e5int, 0x18b46a908f36f6deb918c143fed2edcc523559b8aaf0c2462e6bfe7f911f643249d9cdf41b44d606ce07c8a4d0074d8eint, 0x171cbb540034523c0964ea26add6f81e67cc73e128edf0f7eba9eed5c5fe314f987c9d901f7589154be995b90c45ba54int, 0x5778c3d9749c115a5d80256b3b874e436bc46bbd111eafb79ca0dc3c5e360cbb3db92ea3d7932d8f5f03518d935211bint, y_num_sq_14_11(x), y_num_11(x), y_num_sq_15_10(x), y_num_sq_14_12(x), y_num_12(x), y_num_sq_15_11(x));
    lemma_horner_level(x, 0x5c129645e44cf1102a159f748c4a3fc5e673d81d7e86568d9ab0f5d396a7ce46ba1049b6579afb7866b1e715475224bint, 0x532c75a63c37e8ff782ad7c9f961062eaac63875df470dab34a769741be3e6a5a1cb07b11021bd86a2267d0aad64cecint, 0x19713e47937cd1be0dfd0b8f1d43fb93cd2fcbcb6caf493fd1183e416389e61031bf3a5cce3fbafce813711ad011c132int, 0x67f3ad90050aa5f5c9e1e6f9bc890253671431f8ec98e61f0f818e9bc70fa0bbf41a57e1a82d604a1a2fbe5a27bde3cint, 0x5a15578c0648625c547d2f45f3bce41c09d8c87f3f43f0f8ef0c5a10a5f8495e20b495c4ac45c656c6b616761f56ce2int, y_num_sq_14_10(x), y_num_10(x), y_num_sq_15_9(x), y_num_sq_14_11(x), y_num_11(x), y_num_sq_15_10(x));
    lemma_horner_level(x, 0x5c129645e44cf1102a159f748c4a3fc5e673d81d7e86568d9ab0f5d396a7ce46ba1049b6579afb7866b1e715475224bint, 0x120cfb1633fde5ea09a0c00cff3dc3146f37ff8ac1cdbed62a328729ce857d72cb176c3def2282c9dac72d4f0447b7ddint, 0xe1bba7a1186bdb5223abde7ada14a23c42a0ca7915af6fe06985e7ed1e4d43b9b3f7055dd4eba6f2bafaaebca731c30int, 0x444427415dea153fdaa9f256104f3a7bf3447c033e35461fa9cf8445f6fb69a8af82c4c56515e715d3cd928a6144e47int, 0x31f3fe01c5bb521d19d9f66eb107b855a3bf7e953f729e5409c33b8425b9d9639ee285071922f2565e687a1410aa96eint, y_num_sq_14_9(x), y_num_9(x), y_num_sq_15_8(x), y_num_sq_14_10(x), y_num_10(x), y_num_sq_15_9(x));
    lemma_horner_level(x, 0x5c129645e44cf1102a159f748c4a3fc5e673d81d7e86568d9ab0f5d396a7ce46ba1049b6579afb7866b1e715475224bint, 0x636d2ce119fc60ec9b1481a49dca6ae598bddc145409bc8d5d8ee9230413160ec1d4afd9b1a870e4076d7ca3751fc35int, 0x9fc4018bd96684be88c9e221e4da1bb8f3abd16679dc26c1e8b6e6a1f20cabe69d65201c78607a360370e577bdba587int, 0x7ff7818a09d0e73f7e56a61806bd0ab4a5b7b39bb538a7176a4a4a71ae7cb412cac4985e8fa6fec2545c62a0d4a0834int, 0x235ae0869281c521717036461bfff5f164548eb1a590ebcfb4b926118c12a14c1eb5b7ac82f2981998715e023a569a4int, y_num_sq_14_8(x), y_num_8(x), y_num_sq_15_7(x), y_num_sq_14_9(x), y_num_9(x), y_num_sq_15_8(x));
    lemma_horner_level(x, 0x5c129645e44cf1102a159f748c4a3fc5e673d81d7e86568d9ab0f5d396a7ce46ba1049b6579afb7866b1e715475224bint, 0x14755cf63b8d53903c07fca9d9a2f26638953dfe0d3064488c1342295143980b283fbc4864961d087c4e3f09e4e9ffc1int, 0x987c8d5333ab86fde9926bd2ca6c674170a05bfe3bdd81ffd038da6c26c842642f64550fedfe935a15e4ca31870fb29int, 0x15e7a42870a1b4644778617d011f525f7adf0f776f76981055d14246691ea2ef8849a1d7cee9485de4bc4c5a1d1d214fint, 0x21be821269d62245e6e75968afba1d960a831288c1025313bc6cf185f71c0b70abbf4f4d604d95b7e2595585ae279b3int, y_num_sq_14_7(x), y_num_7(x), y_num_sq_15_6(x), y_num_sq_14_8(x), y_num_8(x), y_num_sq_15_7(x));
    lemma_horner_level(x, 0x5c129645e44cf1102a159f748c4a3fc5e673d81d7e86568d9ab0f5d396a7ce46ba1049b6579afb7866b1e715475224bint, 0x1405d598706c4b61a9259afcf6bc83e87a35331b560cff3d0ca56e7d9f6131a2573454223ca339277e2b41b5a48a67eaint, 0x4ab0b9bcfac1bbcb2c977d027796b3ce75bb8ca2be184cb5231413c4d634f3747a87ac2460f415ec961f8855fe9d6f2int, 0x94e26691b7b8485f2c3530e6c2373e06d768029dc123b555f1c80435ae23e6723c2559e315e88a51671b70b94b6f9int, 0x1087476b8b165fdb03add39b2f044b2b744f55c1a9778b3d90968b2504c060fafcddc5b4d21f3cc69876814def643dfint, y_num_sq_14_6(x), y_num_6(x), y_num_sq_15_5(x), y_num_sq_14_7(x), y_num_7(x), y_num_sq_15_6(x));
    lemma_horner_level(x, 0x5c129645e44cf1102a159f748c4a3fc5e673d81d7e86568d9ab0f5d396a7ce46ba1049b6579afb7866b1e715475224bint, 0xc1aeac568322d747b0fcdf3621ebd03c0a318131d0cb01224fbe90b37a06b15a007f1b06d0710ef068ca63e35b4e13eint, 0x16603fca40634b6a2211e11db8f0a6a074a7d0d4afadb7bd76505c3d3ad5544e203f6326c95a807299b23ab13633a5f0int, 0x1926b18ac64ce95d6e020faad485c68285e66ec319fe6cc7727d02ea14d60adff739d171b9e601f88d9f31c98deeed58int, 0x4f39ecdcb431590cc70c410d70dfda6b51b20aaef3e7f8b0ef0ecd1011e61831c20ef8b8c1a5208e36bb972a07e9c3eint, y_num_sq_14_5(x), y_num_5(x), y_num_sq_15_4(x), y_num_sq_14_6(x), y_num_6(x), y_num_sq_15_5(x));
    lemma_horner_level(x, 0x5c129645e44cf1102a159f748c4a3fc5e673d81d7e86568d9ab0f5d396a7ce46ba1049b6579afb7866b1e715475224bint, 0xd1e9f13b551508381b36141e826f0edacb29c9ccd8b519dbddef8cf5d5bb1c01af2f9a5b958c5c1d8b20320ab73e94eint, 0x8cc03fdefe0ff135caf4fe2a21529c4195536fbe3ce50b879833fd221351adc2ee7f8dc099040a841b6daecf2e8fedbint, 0xe1b8076dfb3b3ed65fef5b3ab7eba2829c5437108a0d6546be9fe978a3e5c92b919746dd50f2210c34364781ba2e6abint, 0x1f25ad74395d811a0f2c4806d5154431d6d91f7f71d7a42226a1c06567bc95fad39732525e04624f834b91ddfb73892int, y_num_sq_14_4(x), y_num_4(x), y_num_sq_15_3(x), y_num_sq_14_5(x), y_num_5(x), y_num_sq_15_4(x));
    lemma_horner_level(x, 0x5c129645e44cf1102a159f748c4a3fc5e673d81d7e86568d9ab0f5d396a7ce46ba1049b6579afb7866b1e715475224bint, 0x14c8d3f26f79f91a8de7f3d7c6e419576746d020d9679ffe2989a0d004e422a310a7ab018cac1a0ca9206015eed78c2cint, 0x1f86376e8981c217898751ad8746757d42aa7b90eeb791c09e4a3ec03251cf9de405aba9ec61deca6355c77b0e5f4cbint, 0xc6323be50cb5d9401b96fea1b225c31d140f6f19807bb70b102eb7e28dfc8ec04930571d58e466606fdf5f9e4d654bcint, 0x6f9e17f7af764805acfa35aec08527572ec863e9951b417326098041c98caf1ff449c1ee1c20692381fa7ed411621bint, y_num_sq_14_3(x), y_num_3(x), y_num_sq_15_2(x), y_num_sq_14_4(x), y_num_4(x), y_num_sq_15_3(x));
    lemma_horner_level(x, 0x5c129645e44cf1102a159f748c4a3fc5e673d81d7e86568d9ab0f5d396a7ce46ba1049b6579afb7866b1e715475224bint, 0xcd5d58dfb46d62fbecf6f2f05372ff0246a9ae3bcf21603c6e2d28168ce83c200d51cc545c7bf11761400aff3cdb326int, 0xcc786baa966e66f4a384c86a3b49942552e2d658a31ce2c344be4b91400da7d26d521628b00523b8dfe240c72de1f6int, 0x6123119a17eb6a40bb0dd0d91c8576e77638da110ee959f73369025592d23eaa3ddf76bcd48e095556b03404ee477b8int, 0x2d3f7192afc660ca3b36e7ff2ced33de7bcb069e99f0a282b495795d0ee0c484e11f144fe6be641c2af4eb4bd5eaecint, y_num_sq_14_2(x), y_num_2(x), y_num_sq_15_1(x), y_num_sq_14_3(x), y_num_3(x), y_num_sq_15_2(x));
    lemma_horner_level(x, 0x5c129645e44cf1102a159f748c4a3fc5e673d81d7e86568d9ab0f5d396a7ce46ba1049b6579afb7866b1e715475224bint, 0x42f74cdd705b24ecc405196c2ba408fa0aeee7b36a06712f941580120e405a69d987c68216b68645cf5fd81f40655b7int, 0x134996a104ee5811d51036d776fb46831223e96c254f383d0f906343eb67ad34d6c56711962fa8bfe097e75a2e41c696int, 0x97c9b3afc41c5659cfb20f76833eb9745554ce674018bc7124efea20fbfc8f1c283cdee02585384d6c609aea925dcfint, 0x444a71ce7c6fe8adb92437bc80e42769bea1350d229d4aebcc949c2f61bae1bcfc0f408c0cf8164d94064a4165b661eint, y_num_sq_14_1(x), y_num_1(x), y_num_sq_15_0(x), y_num_sq_14_2(x), y_num_2(x), y_num_sq_15_1(x));
    lemma_horner_level(x, 0x5c129645e44cf1102a159f748c4a3fc5e673d81d7e86568d9ab0f5d396a7ce46ba1049b6579afb7866b1e715475224bint, 0xee0ed5c0b828781b5c0b6beebf067e0beafd9471c93c9c14b9ea4ecd9516f2b64f9fb9400d3cad6650fd0bd58b8f48dint, 0x90d97c81ba24ee0259d1f094980dcfa11ad138e48a869522b52af6c956543d3cd0c7aee9b3ba3c2be9845719707bb33int, 0x0int, 0x200dddba2ace5588f473b26709384f54fe0f3f2c93315b08e45ab950be80a39a9ddafbec248f2d29ac1fe83a34ffc2cint, y_num_sq_14_0(x), y_num_0(x), times(x, y_num_sq_15_0(x)), y_num_sq_14_1(x), y_num_1(x), y_num_sq_15_0(x));
    lemma_product_level(x, 0x5c129645e44cf1102a159f748c4a3fc5e673d81d7e86568d9ab0f5d396a7ce46ba1049b6579afb7866b1e715475224bint, y_num_14(x), y_num_15(x), y_num_0(x), y_num_sq_14_0(x), y_num_sq_15_0(x));
}

pub(crate) proof fn lemma_y_num_sq_step_13(x: int)
    ensures
        congruent(y_num_sq_13_0(x), times(y_num_13(x), y_num_0(x))),
{
    lemma_times_zero(x);
    lemma_y_num_sq_step_14(x);
    lemma_congruent_refl(y_num_sq_14_15(x), 0x245a394ad1eca9b72fc00ae7be315dc757b3b080d4c158013e6632d3c40659cc6cf90ad1c232a6442d9d3f5db980133int * 0int + y_num_sq_14_15(x));
    lemma_horner_level(x, 0x245a394ad1eca9b72fc00ae7be315dc757b3b080d4c158013e6632d3c40659cc6cf90ad1c232a6442d9d3f5db980133int, 0x19650c15e0c5fbbddc37605966c49f7501966c94078b5b31bbdfe212d595731812931f5e967a56346432e6a45d3f1fe4int, 0x15e6be4e990f03ce4ea50b3b42df2eb5cb181d8f84965a3957add4fa95af01b2b665027efec01c7704b456be69c8b604int, 0x106ce578d3ee49f93e7a6471edf40534c16cfffa775ab73072f5eae9e8b66d91f126fd9a886d4e7ace399f203c93c0e0int, 0x1e9dec8ce959b0fb69fed57234ab365d1278c1dab6a64d013d66ceadbcf24eb536461cec49bca44493aa22b638cb758int, y_num_sq_13_15(x), y_num_15(x), y_num_sq_14_14(x), y_num_sq_14_15(x), 0int, y_num_sq_14_15(x));
    lemma_horner_level(x, 0x245a394ad1eca9b72fc00ae7be315dc757b3b080d4c158013e6632d3c40659cc6cf90ad1c232a6442d9d3f5db980133int, 0x15201f4faab4d26b4f07d09d53350bb71a3f11563c4802b9e1d27188713723583ff91cac516ca88e68163a52c9d168a5int, 0x5c129645e44cf1102a159f748c4a3fc5e673d81d7e86568d9ab0f5d396a7ce46ba1049b6579afb7866b1e715475224bint, 0x14356544d95e47848ed68302064267e9f2c189cef7022ca2ced432b8a1ececc7ad7a24f70571525c722ed5b5e3dae2b0int, 0x80b667e6a322bfe613ce472bac70bd2da599fb536b2f9ba1ba2e098cbef83f7dc423dcf0b5792683e6d3ef8610cdf4int, y_num_sq_13_14(x), y_num_14(x), y_num_sq_14_13(x), y_num_sq_13_15(x), y_num_15(x), y_num_sq_14_14(x));
    lemma_horner_level(x, 0x245a394ad1eca9b72fc00ae7be315dc757b3b080d4c158013e6632d3c40659cc6cf90ad1c232a6442d9d3f5db980133int, 0x187989c3dd265ec2e629f286f4eeb69ccb4fd89784da5691f94111adb17b51079001482b1311e9d205eb11d6715c164cint, 0x245a394ad1eca9b72fc00ae7be315dc757b3b080d4c158013e6632d3c40659cc6cf90ad1c232a6442d9d3f5db980133int, 0xea47c28a73a0aa3c09e46a1c3a20c4bf8412e1406f62eea224fd252d80061a2e509c7b256e3c1d35d161e25355d90b5int, 0x32d198f9be65efb233c4ad7a9c677b37d34c807c3f8e6bb2550f530a2a5750c346f764f028466006039a21176ebfb6int, y_num_sq_13_13(x), y_num_13(x), y_num_sq_14_12(x), y_num_sq_13_14(x), y_num_14(x), y_num_sq_14_13(x));
    lemma_horner_level(x, 0x245a394ad1eca9b72fc00ae7be315dc757b3b080d4c158013e6632d3c40659cc6cf90ad1c232a6442d9d3f5db980133int, 0x81a37d0bae9025a6b33f94e1ad788db30d416f4afb97c11c335d0bf4dbdc15775fe4c8f359f87b6b8e867507ef7bc6fint, 0xb182cac101b9399d155096004f53f447aa7b12a3426b08ec02710e807b4633f06c851c1919211f20d4c04f00b971ef8int, 0x15fc4fe7dab14ce915b7875d3973c5e954ba1a87d6c81f22b0a84a80c5a14fcdfeaccf64cb995112d2947b78c33e43e5int, 0xf82690c76e8f2838d8a08a5e3b0032b7e3002f171a9a918a5807eca6a6215edd94b80236d897279560bfa021dc009aint, y_num_sq_13_12(x), y_num_12(x), y_num_sq_14_11(x), y_num_sq_13_13(x), y_num_13(x), y_num_sq_14_12(x));
    lemma_horner_level(x, 0x245a394ad1eca9b72fc00ae7be315dc757b3b080d4c158013e6632d3c40659cc6cf90ad1c232a6442d9d3f5db980133int, 0x116211a7c4b4b35f76b5ce93d4cc1f7f5e89ca32b4c1ff1c8dcd3233e30c3d32e4c22af2408b75be83d74b54f0717759int, 0x18b46a908f36f6deb918c143fed2edcc523559b8aaf0c2462e6bfe7f911f643249d9cdf41b44d606ce07c8a4d0074d8eint, 0x532c75a63c37e8ff782ad7c9f961062eaac63875df470dab34a769741be3e6a5a1cb07b11021bd86a2267d0aad64cecint, 0x2289312054316c04be85b98cb3cdd978382afd0b5949c75aa75de876287fc3de3f3f6318b235fe40b0ef31cb0fb8497int, y_num_sq_13_11(x), y_num_11(x), y_num_sq_14_10(x), y_num_sq_13_12(x), y_num_12(x), y_num_sq_14_11(x));
    lemma_horner_level(x, 0x245a394ad1eca9b72fc00ae7be315dc757b3b080d4c158013e6632d3c40659cc6cf90ad1c232a6442d9d3f5db980133int, 0x3df619dd75967995dac3273bfb70a36f2b8e4bc71c38875371ca6d5a88beebeddedf8f1fdb28cd2e59e54deff991dc6int, 0x19713e47937cd1be0dfd0b8f1d43fb93cd2fcbcb6caf493fd1183e416389e61031bf3a5cce3fbafce813711ad011c132int, 0x120cfb1633fde5ea09a0c00cff3dc3146f37ff8ac1cdbed62a328729ce857d72cb176c3def2282c9dac72d4f0447b7ddint, 0x2391296ef14f312cf807569479db7d8a68c69c020faefab681fbf92150ff82eab300c56e795e5dac45edfe8ec22db27int, y_num_sq_13_10(x), y_num_10(x), y_num_sq_14_9(x), y_num_sq_13_11(x), y_num_11(x), y_num_sq_14_10(x));
    lemma_horner_level(x, 0x245a394ad1eca9b72fc00ae7be315dc757b3b080d4c158013e6632d3c40659cc6cf90ad1c232a6442d9d3f5db980133int, 0x1663c745caa3f40444d668b7cfdc69983a945b3f8fa29288b3d3e230c2ef6385eddd1e325aeaf83ea2607b197196720cint, 0xe1bba7a1186bdb5223abde7ada14a23c42a0ca7915af6fe06985e7ed1e4d43b9b3f7055dd4eba6f2bafaaebca731c30int, 0x636d2ce119fc60ec9b1481a49dca6ae598bddc145409bc8d5d8ee9230413160ec1d4afd9b1a870e4076d7ca3751fc35int, 0x13b90041df485363484a4d71adc6d39b34ca6d55fa001f8ecb94c475f6b129f5b093133673559466321bc8d15fe072bint, y_num_sq_13_9(x), y_num_9(x), y_num_sq_14_8(x), y_num_sq_13_10(x), y_num_10(x), y_num_sq_14_9(x));
    lemma_horner_level(x, 0x245a394ad1eca9b72fc00ae7be315dc757b3b080d4c158013e6632d3c40659cc6cf90ad1c232a6442d9d3f5db980133int, 0x289e59c3224f58661d44744cdd45a48f4cf3f3d1a3a14f48ecdaafd00d6ecfd4c2cef1697939f6cbf28e1d20267401cint, 0x9fc4018bd96684be88c9e221e4da1bb8f3abd16679dc26c1e8b6e6a1f20cabe69d65201c78607a360370e577bdba587int, 0x14755cf63b8d53903c07fca9d9a2f26638953dfe0d3064488c1342295143980b283fbc4864961d087c4e3f09e4e9ffc1int, 0xdf57ff173c4529f8331465921c9a75967b0d3905063814ae0c06082f1023e36bd2bfd08f96a429c22862e051d4c19eint, y_num_sq_13_8(x), y_num_8(x), y_num_sq_14_7(x), y_num_sq_13_9(x), y_num_9(x), y_num_sq_14_8(x));
    lemma_horner_level(x, 0x245a394ad1eca9b72fc00ae7be315dc757b3b080d4c158013e6632d3c40659cc6cf90ad1c232a6442d9d3f5db980133int, 0x126b311598bb10be28465eb6cfaa646cb14fa84f5fda70a06746036c725d940b8bbe7142ae9e2c17b5bb1bed5ef625cdint, 0x987c8d5333ab86fde9926bd2ca6c674170a05bfe3bdd81ffd038da6c26c842642f64550fedfe935a15e4ca31870fb29int, 0x1405d598706c4b61a9259afcf6bc83e87a35331b560cff3d0ca56e7d9f6131a2573454223ca339277e2b41b5a48a67eaint, 0xd52afd11c4bad2bce79dfdd9154ec0267c7f1157023f6e5240061049008c7dfcba0942fb29d63c08bed7bab6145cd8int, y_num_sq_13_7(x), y_num_7(x), y_num_sq_14_6(x), y_num_sq_13_8(x), y_num_8(x), y_num_sq_14_7(x));
    lemma_horner_level(x, 0x245a394ad1eca9b72fc00ae7be315dc757b3b080d4c158013e6632d3c40659cc6cf90ad1c232a6442d9d3f5db980133int, 0xa65072cf95e39f540511a36e8bf57b91adcfd1f187d77b5bbbfb65d45414784fabf95f7b1b7ccaa8a31c4b528a2bd87int, 0x4ab0b9bcfac1bbcb2c977d027796b3ce75bb8ca2be184cb5231413c4d634f3747a87ac2460f415ec961f8855fe9d6f2int, 0xc1aeac568322d747b0fcdf3621ebd03c0a318131d0cb01224fbe90b37a06b15a007f1b06d0710ef068ca63e35b4e13eint, 0x6869bd7d9f99be3bfbe70758584a01580f5e7f5fb3733b1c59cf4b585e8889b6de6c3a6c134a07c79618bce053b7c7int, y_num_sq_13_6(x), y_num_6(x), y_num_sq_14_5(x), y_num_sq_13_7(x), y_num_7(x), y_num_sq_14_6(x));
    lemma_horner_level(x, 0x245a394ad1eca9b72fc00ae7be315dc757b3b080d4c158013e6632d3c40659cc6cf90ad1c232a6442d9d3f5db980133int, 0x217aafdfdd640058e865428d49bd73f9529a15955402db6091f532fb711ab2e95921f11430335b7fcf31bebda8183int, 0x16603fca40634b6a2211e11db8f0a6a074a7d0d4afadb7bd76505c3d3ad5544e203f6326c95a807299b23ab13633a5f0int, 0xd1e9f13b551508381b36141e826f0edacb29c9ccd8b519dbddef8cf5d5bb1c01af2f9a5b958c5c1d8b20320ab73e94eint, 0x1f47c8555b2348622a216c3355f0b0a149f3d9ae5a6ea7e2c0eba6c926fc491c5fbba22b3cafff6e8e64273f5ed33d1int, y_num_sq_13_5(x), y_num_5(x), y_num_sq_14_4(x), y_num_sq_13_6(x), y_num_6(x), y_num_sq_14_5(x));
    lemma_horner_level(x, 0x245a394ad1eca9b72fc00ae7be315dc757b3b080d4c158013e6632d3c40659cc6cf90ad1c232a6442d9d3f5db980133int, 0x16d8a53bd7a3b2e67a2d0d074dd7484dac3275ac580bfdf68356a0ff88c571ed9cc7c56e3821094494c1009535ad0363int, 0x8cc03fdefe0ff135caf4fe2a21529c4195536fbe3ce50b879833fd221351adc2ee7f8dc099040a841b6daecf2e8fedbint, 0x14c8d3f26f79f91a8de7f3d7c6e419576746d020d9679ffe2989a0d004e422a310a7ab018cac1a0ca9206015eed78c2cint, 0xc4c322d5063114d1bbc5309823e487e4c9ff1dd79f9ac9c10879eacb66ce9270e91f86e5550ca839182ce591127c3eint, y_num_sq_13_4(x), y_num_4(x), y_num_sq_14_3(x), y_num_sq_13_5(x), y_num_5(x), y_num_sq_14_4(x));
    lemma_horner_level(x, 0x245a394ad1eca9b72fc00ae7be315dc757b3b080d4c158013e6632d3c40659cc6cf90ad1c232a6442d9d3f5db980133int, 0x8e2ca2cf4e2b65d5ebe28bc79b1308367ad591da8c58e4b2118b9987aa67137ad8621df37c3411fc82f89024d97f8ebint, 0x1f86376e8981c217898751ad8746757d42aa7b90eeb791c09e4a3ec03251cf9de405aba9ec61deca6355c77b0e5f4cbint, 0xcd5d58dfb46d62fbecf6f2f05372ff0246a9ae3bcf21603c6e2d28168ce83c200d51cc545c7bf11761400aff3cdb326int, 0x2c11b9eb60b1821c62523b6dee824e1ac4206aa61d62baeb71820885d1d5cebcc43215e2fbd30b1b7e59dd3f8add04int, y_num_sq_13_3(x), y_num_3(x), y_num_sq_14_2(x), y_num_sq_13_4(x), y_num_4(x), y_num_sq_14_3(x));
    lemma_horner_level(x, 0x245a394ad1eca9b72fc00ae7be315dc757b3b080d4c158013e6632d3c40659cc6cf90ad1c232a6442d9d3f5db980133int, 0xa213c33205f5662706b6811431294ed00626c2a1400d9c4c7e1ad41ad003f5355018b6e9ae92e0c9d3452fa789615e9int, 0xcc786baa966e66f4a384c86a3b49942552e2d658a31ce2c344be4b91400da7d26d521628b00523b8dfe240c72de1f6int, 0x42f74cdd705b24ecc405196c2ba408fa0aeee7b36a06712f941580120e405a69d987c68216b68645cf5fd81f40655b7int, 0x11dd6ab448ee83ee5b2a5bfa1d4273632bb73b89fbe18085856b719b8266cf33435f43b58749b5cd3314928802ad70int, y_num_sq_13_2(x), y_num_2(x), y_num_sq_14_1(x), y_num_sq_13_3(x), y_num_3(x), y_num_sq_14_2(x));
    lemma_horner_level(x, 0x245a394ad1eca9b72fc00ae7be315dc757b3b080d4c158013e6632d3c40659cc6cf90ad1c232a6442d9d3f5db980133int, 0x36fefa145ee4e88156246943f210c3b6ac5c666d7d5a117679f1dbae190b48afb61c7aca5e069b7fcf93fcbf64f9a2bint, 0x134996a104ee5811d51036d776fb46831223e96c254f383d0f906343eb67ad34d6c56711962fa8bfe097e75a2e41c696int, 0xee0ed5c0b828781b5c0b6beebf067e0beafd9471c93c9c14b9ea4ecd9516f2b64f9fb9400d3cad6650fd0bd58b8f48dint, 0x1af67b45ed6bd1bd776caf11b102c806f9937e0f440b4bce5426f2f2572d67752103ead3d5fe695216f0c9ac3db80ccint, y_num_sq_13_1(x), y_num_1(x), y_num_sq_14_0(x), y_num_sq_13_2(x), y_num_2(x), y_num_sq_14_1(x));
    lemma_horner_level(x, 0x245a394ad1eca9b72fc00ae7be315dc757b3b080d4c158013e6632d3c40659cc6cf90ad1c232a6442d9d3f5db980133int, 0x9a6a04e0ff125a353599093940e2d7bf646901430794617936183c5bcd845e171f30842041939d5f946cd689663fee8int, 0x90d97c81ba24ee0259d1f094980dcfa11ad138e48a869522b52af6c956543d3cd0c7aee9b3ba3c2be9845719707bb33int, 0x0int, 0xca7de995fae59df92ea4083da5fdd5a461fe783090bb34001a21618906aa5f3e04f2cb1d78cd8cee49484e6b3f7dc3int, y_num_sq_13_0(x), y_num_0(x), times(x, y_num_sq_14_0(x)), y_num_sq_13_1(x), y_num_1(x), y_num_sq_14_0(x));
    lemma_product_level(x, 0x245a394ad1eca9b72fc00ae7be315dc757b3b080d4c158013e6632d3c40659cc6cf90ad1c232a6442d9d3f5db980133int, y_num_13(x), y_num_14(x), y_num_0(x), y_num_sq_13_0(x), y_num_sq_14_0(x));
}

pub(crate) proof fn lemma_y_num_sq_step_12(x: int)
    ensures
        congruent(y_num_sq_12_0(x), times(y_num_12(x), y_num_0(x))),
{
    lemma_times_zero(x);
    lemma_y_num_sq_step_13(x);
    lemma_congruent_refl(y_num_sq_13_15(x), 0xb182cac101b9399d155096004f53f447aa7b12a3426b08ec02710e807b4633f06c851c1919211f20d4c04f00b971ef8int * 0int + y_num_sq_13_15(x));
    lemma_horner_level(x, 0xb182cac101b9399d155096004f53f447aa7b12a3426b08ec02710e807b4633f06c851c1919211f20d4c04f00b971ef8int, 0xe69b89f793ca86ed2915e4dc93922fc810bc818fa7f4686367792d04d28e36b3c4849ef598ea4b92a5eab6bc7b61ab5int, 0x15e6be4e990f03ce4ea50b3b42df2eb5cb181d8f84965a3957add4fa95af01b2b665027efec01c7704b456be69c8b604int, 0x15201f4faab4d26b4f07d09d53350bb71a3f11563c4802b9e1d27188713723583ff91cac516ca88e68163a52c9d168a5int, 0x95810150cfd429cab1c8956a3d0ab300ed4039d1a091ecc78acec6340c45b47ee708d2ceef7772b118bce4dec244d70int, y_num_sq_12_15(x), y_num_15(x), y_num_sq_13_14(x), y_num_sq_13_15(x), 0int, y_num_sq_13_15(x));
    lemma_horner_level(x, 0xb182cac101b9399d155096004f53f447aa7b12a3426b08ec02710e807b4633f06c851c1919211f20d4c04f00b971ef8int, 0xcdc2ed090a56c56a0de4ec7b32c654dfa4f6e6df5f25cb027c60fdc32fbb3b0dd71bc3dc1973e9fb1f29c809fd6a430int, 0x5c129645e44cf1102a159f748c4a3fc5e673d81d7e86568d9ab0f5d396a7ce46ba1049b6579afb7866b1e715475224bint, 0x187989c3dd265ec2e629f286f4eeb69ccb4fd89784da5691f94111adb17b51079001482b1311e9d205eb11d6715c164cint, 0x274829b3ee6d09f2a4e90c83c10d2168a6774cfece53d5f28df29a02d79df5e8dd253bb7307affa3bd603becf0d5e4cint, y_num_sq_12_14(x), y_num_14(x), y_num_sq_13_13(x), y_num_sq_12_15(x), y_num_15(x), y_num_sq_13_14(x));
    lemma_horner_level(x, 0xb182cac101b9399d155096004f53f447aa7b12a3426b08ec02710e807b4633f06c851c1919211f20d4c04f00b971ef8int, 0x143931a3d4a09e660bcc12f53f86f8a471655ee67c2febc03cf4299ecc8b29050bfbc9b850f9be5a593b53283ab0dfa4int, 0x245a394ad1eca9b72fc00ae7be315dc757b3b080d4c158013e6632d3c40659cc6cf90ad1c232a6442d9d3f5db980133int, 0x81a37d0bae9025a6b33f94e1ad788db30d416f4afb97c11c335d0bf4dbdc15775fe4c8f359f87b6b8e867507ef7bc6fint, 0xf82690c76e8f2838d8a08a5e3b0032b7e3002f171a9a918a5807eca6a6215edd94b80236d897279560bfa021dc0099int, y_num_sq_12_13(x), y_num_13(x), y_num_sq_13_12(x), y_num_sq_12_14(x), y_num_14(x), y_num_sq_13_13(x));
    lemma_horner_level(x, 0xb182cac101b9399d155096004f53f447aa7b12a3426b08ec02710e807b4633f06c851c1919211f20d4c04f00b971ef8int, 0xd5536f3dd3078838966b2fdd917f851a916b97b5dab48548295368e07b9598827383244250819c10478fa926706a304int, 0xb182cac101b9399d155096004f53f447aa7b12a3426b08ec02710e807b4633f06c851c1919211f20d4c04f00b971ef8int, 0x116211a7c4b4b35f76b5ce93d4cc1f7f5e89ca32b4c1ff1c8dcd3233e30c3d32e4c22af2408b75be83d74b54f0717759int, 0x4bbbba410836f23bb2064f47e01d7e477d555c538d2576fa782688590e5bdb2f5d221e9a7a3b64c937145d0deecadbfint, y_num_sq_12_12(x), y_num_12(x), y_num_sq_13_11(x), y_num_sq_12_13(x), y_num_13(x), y_num_sq_13_12(x));
    lemma_horner_level(x, 0xb182cac101b9399d155096004f53f447aa7b12a3426b08ec02710e807b4633f06c851c1919211f20d4c04f00b971ef8int, 0x15f9a273cb13e76d6c2af460af1c5fb83dcdc2e0c3263d7989349d11378c90b52f0739603abe346229863a9ffbc22714int, 0x18b46a908f36f6deb918c143fed2edcc523559b8aaf0c2462e6bfe7f911f643249d9cdf41b44d606ce07c8a4d0074d8eint, 0x3df619dd75967995dac3273bfb70a36f2b8e4bc71c38875371ca6d5a88beebeddedf8f1fdb28cd2e59e54deff991dc6int, 0xa8a40425dd4c815b097ebdfd7e0e9b1725213c69618cdc191bfd93614a8f885af6218c5e1207a0252132535f10e34c6int, y_num_sq_12_11(x), y_num_11(x), y_num_sq_13_10(x), y_num_sq_12_12(x), y_num_12(x), y_num_sq_13_11(x));
    lemma_horner_level(x, 0xb182cac101b9399d155096004f53f447aa7b12a3426b08ec02710e807b4633f06c851c1919211f20d4c04f00b971ef8int, 0x15ac5e9f1c9d4a3513750283cc1790ef17fa84b952367c97627ad3df928116a2c9d0161ce454e2ce4f623d82f8c7ca58int, 0x19713e47937cd1be0dfd0b8f1d43fb93cd2fcbcb6caf493fd1183e416389e61031bf3a5cce3fbafce813711ad011c132int, 0x1663c745caa3f40444d668b7cfdc69983a945b3f8fa29288b3d3e230c2ef6385eddd1e325aeaf83ea2607b197196720cint, 0xadacfee5143054b2c37868c84fea87490635e9971186b4b28e98f99f0b86823f4ae21237214662cf4ecb99fafd7046cint, y_num_sq_12_10(x), y_num_10(x), y_num_sq_13_9(x), y_num_sq_12_11(x), y_num_11(x), y_num_sq_13_10(x));
    lemma_horner_level(x, 0xb182cac101b9399d155096004f53f447aa7b12a3426b08ec02710e807b4633f06c851c1919211f20d4c04f00b971ef8int, 0x118854a9d0603a39c01e97dcce8d7a29736e89cdca18e63687dbb3624e9f14cb73d1a57f72ade785396df16bec7cf679int, 0xe1bba7a1186bdb5223abde7ada14a23c42a0ca7915af6fe06985e7ed1e4d43b9b3f7055dd4eba6f2bafaaebca731c30int, 0x289e59c3224f58661d44744cdd45a48f4cf3f3d1a3a14f48ecdaafd00d6ecfd4c2cef1697939f6cbf28e1d20267401cint, 0x604e8b3879a951d03d05c2419aa638ce090e3b721c82c4902a122dcde72b3b220ae13a9fea5a41c51b3e080d18aa869int, y_num_sq_12_9(x), y_num_9(x), y_num_sq_13_8(x), y_num_sq_12_10(x), y_num_10(x), y_num_sq_13_9(x));
    lemma_horner_level(x, 0xb182cac101b9399d155096004f53f447aa7b12a3426b08ec02710e807b4633f06c851c1919211f20d4c04f00b971ef8int, 0x15153efbeb7df0d9182f832db0949567f9f32a454d44ae2ec53b85253a1c7d7b6d29fd5d255e9132a5fc55eef55e283fint, 0x9fc4018bd96684be88c9e221e4da1bb8f3abd16679dc26c1e8b6e6a1f20cabe69d65201c78607a360370e577bdba587int, 0x126b311598bb10be28465eb6cfaa646cb14fa84f5fda70a06746036c725d940b8bbe7142ae9e2c17b5bb1bed5ef625cdint, 0x44299784fb9a88c295bccc51b133cdcc6d0daa960b948193f8ec2d1f7e8b59dba2d6f55ec23737dec8456b039377f02int, y_num_sq_12_8(x), y_num_8(x), y_num_sq_13_7(x), y_num_sq_12_9(x), y_num_9(x), y_num_sq_13_8(x));
    lemma_horner_level(x, 0xb182cac101b9399d155096004f53f447aa7b12a3426b08ec02710e807b4633f06c851c1919211f20d4c04f00b971ef8int, 0xd6f8cac75122765e8522f52eda0c74f6e47366bc260268dde3045f5a84c3c0134ccf7d54eb5c9569a358106ebc9c321int, 0x987c8d5333ab86fde9926bd2ca6c674170a05bfe3bdd81ffd038da6c26c842642f64550fedfe935a15e4ca31870fb29int, 0xa65072cf95e39f540511a36e8bf57b91adcfd1f187d77b5bbbfb65d45414784fabf95f7b1b7ccaa8a31c4b528a2bd87int, 0x410e9137c2f37b48edd01809a59c9d61a0455a01a03848764b68a0abc0570bfa2d28f0920e3f91ead2673567818485aint, y_num_sq_12_7(x), y_num_7(x), y_num_sq_13_6(x), y_num_sq_12_8(x), y_num_8(x), y_num_sq_13_7(x));
    lemma_horner_level(x, 0xb182cac101b9399d155096004f53f447aa7b12a3426b08ec02710e807b4633f06c851c1919211f20d4c04f00b971ef8int, 0x150b3fd7f17266ebc230d26fd36017e52694cb1416ac8e669a077a36ac3431bd01f08cbef0063f5adada972cf6011c04int, 0x4ab0b9bcfac1bbcb2c977d027796b3ce75bb8ca2be184cb5231413c4d634f3747a87ac2460f415ec961f8855fe9d6f2int, 0x217aafdfdd640058e865428d49bd73f9529a15955402db6091f532fb711ab2e95921f11430335b7fcf31bebda8183int, 0x1fddac2ce706780a0d1f18bdd8d9504d676507ea21aba82dc808c981e0f25e7791e34eee79842ea9d8e4fff56bcf3cdint, y_num_sq_12_6(x), y_num_6(x), y_num_sq_13_5(x), y_num_sq_12_7(x), y_num_7(x), y_num_sq_13_6(x));
    lemma_horner_level(x, 0xb182cac101b9399d155096004f53f447aa7b12a3426b08ec02710e807b4633f06c851c1919211f20d4c04f00b971ef8int, 0x1063fffad2ecb377af50882b6228aeb526b1b11cb769ae52c25c7f762cd479c25746caee0ecf36d76cc953b22513a7f6int, 0x16603fca40634b6a2211e11db8f0a6a074a7d0d4afadb7bd76505c3d3ad5544e203f6326c95a807299b23ab13633a5f0int, 0x16d8a53bd7a3b2e67a2d0d074dd7484dac3275ac580bfdf68356a0ff88c571ed9cc7c56e3821094494c1009535ad0363int, 0x98be6ef84a690fe33676641de41caba6a3f2c4b45985fb9c1a5dbcfaf0d8bf0104e4f956ce26a2da36d913925b3b3c7int, y_num_sq_12_5(x), y_num_5(x), y_num_sq_13_4(x), y_num_sq_12_6(x), y_num_6(x), y_num_sq_13_5(x));
    lemma_horner_level(x, 0xb182cac101b9399d155096004f53f447aa7b12a3426b08ec02710e807b4633f06c851c1919211f20d4c04f00b971ef8int, 0x1766b377cfa1491ed9e843119c8bfcfaad3c34b88246d5b0ea1803296fea86c608cc8b56b9f94c3a44467f44c6bd843eint, 0x8cc03fdefe0ff135caf4fe2a21529c4195536fbe3ce50b879833fd221351adc2ee7f8dc099040a841b6daecf2e8fedbint, 0x8e2ca2cf4e2b65d5ebe28bc79b1308367ad591da8c58e4b2118b9987aa67137ad8621df37c3411fc82f89024d97f8ebint, 0x3c0ccf86032bf87d39a7ff31929e0adaf168b0c2454c782cb35c088080f5a0b3380a0d537d7c7e4c22946a8b053087fint, y_num_sq_12_4(x), y_num_4(x), y_num_sq_13_3(x), y_num_sq_12_5(x), y_num_5(x), y_num_sq_13_4(x));
    lemma_horner_level(x, 0xb182cac101b9399d155096004f53f447aa7b12a3426b08ec02710e807b4633f06c851c1919211f20d4c04f00b971ef8int, 0x194cbfc5637a4a3349cc35759131a71827fc22c8ba70955f1773025b66e5279286dec50c130600ff7f898872879f0586int, 0x1f86376e8981c217898751ad8746757d42aa7b90eeb791c09e4a3ec03251cf9de405aba9ec61deca6355c77b0e5f4cbint, 0xa213c33205f5662706b6811431294ed00626c2a1400d9c4c7e1ad41ad003f5355018b6e9ae92e0c9d3452fa789615e9int, 0xd73146e097773e74c020ca63a054b77fd3aea2cf67d2d4c384830f335556dc5f05bc5a93c551227240f4a71a9bfd21int, y_num_sq_12_3(x), y_num_3(x), y_num_sq_13_2(x), y_num_sq_12_4(x), y_num_4(x), y_num_sq_13_3(x));
    lemma_horner_level(x, 0xb182cac101b9399d155096004f53f447aa7b12a3426b08ec02710e807b4633f06c851c1919211f20d4c04f00b971ef8int, 0xb753caf4d26df38a989c44b90ef73aeb59e299e289537106db7800ce92b69f040a42d493c243b51a94b46195f44ce09int, 0xcc786baa966e66f4a384c86a3b49942552e2d658a31ce2c344be4b91400da7d26d521628b00523b8dfe240c72de1f6int, 0x36fefa145ee4e88156246943f210c3b6ac5c666d7d5a117679f1dbae190b48afb61c7aca5e069b7fcf93fcbf64f9a2bint, 0x573c3d988db1f4870da693471d90c973a0596b7b44e4c6479ba35e9e066b713b0ff29df8b508ba97688f1fe58d9356int, y_num_sq_12_2(x), y_num_2(x), y_num_sq_13_1(x), y_num_sq_12_3(x), y_num_3(x), y_num_sq_13_2(x));
    lemma_horner_level(x, 0xb182cac101b9399d155096004f53f447aa7b12a3426b08ec02710e807b4633f06c851c1919211f20d4c04f00b971ef8int, 0xb37a7f709ea6e0837fd9d06e2594ae6fd0c775b1b4ecd76a6a579ce966c02bc4955505b40a61d9449e5d885052febd2int, 0x134996a104ee5811d51036d776fb46831223e96c254f383d0f906343eb67ad34d6c56711962fa8bfe097e75a2e41c696int, 0x9a6a04e0ff125a353599093940e2d7bf646901430794617936183c5bcd845e171f30842041939d5f946cd689663fee8int, 0x83a93067cccc737e50779a4958e6a358280c1b652a366339697768aaba7e370bf67abe9d1f86861540eed1819361932int, y_num_sq_12_1(x), y_num_1(x), y_num_sq_13_0(x), y_num_sq_12_2(x), y_num_2(x), y_num_sq_13_1(x));
    lemma_horner_level(x, 0xb182cac101b9399d155096004f53f447aa7b12a3426b08ec02710e807b4633f06c851c1919211f20d4c04f00b971ef8int, 0x76579f09e4016385bf094bbae654ea50faf0884799e6a58d8af6e7b493af07317980bb85dc298fb6d18c2a368a0a673int, 0x90d97c81ba24ee0259d1f094980dcfa11ad138e48a869522b52af6c956543d3cd0c7aee9b3ba3c2be9845719707bb33int, 0x0int, 0x3dcc7517b2d3855f0f6b15353362c0518c470be2f18b8ab2c5750af1c8fb4457f9792e1cc473af639c0e411478406dfint, y_num_sq_12_0(x), y_num_0(x), times(x, y_num_sq_13_0(x)), y_num_sq_12_1(x), y_num_1(x), y_num_sq_13_0(x));
    lemma_product_level(x, 0xb182cac101b9399d155096004f53f447aa7b12a3426b08ec02710e807b4633f06c851c1919211f20d4c04f00b971ef8int, y_num_12(x), y_num_13(x), y_num_0(x), y_num_sq_12_0(x), y_num_sq_13_0(x));
}

pub(crate) proof fn lemma_y_num_sq_step_11(x: int)
    ensures
        congruent(y_num_sq_11_0(x), times(y_num_11(x), y_num_0(x))),
{
    lemma_times_zero(x);
    lemma_y_num_sq_step_12(x);
    lemma_congruent_refl(y_num_sq_12_15(x), 0x18b46a908f36f6deb918c143fed2edcc523559b8aaf0c2462e6bfe7f911f643249d9cdf41b44d606ce07c8a4d0074d8eint * 0int + y_num_sq_12_15(x));
    lemma_horner_level(x, 0x18b46a908f36f6deb918c143fed2edcc523559b8aaf0c2462e6bfe7f911f643249d9cdf41b44d606ce07c8a4d0074d8eint, 0xd1cf4024ae082cc5bac9172754516115f19bb26984b72bcb460115f92cabc86565f0fdeb8a1aba5a9022ffba6b9fc56int, 0x15e6be4e990f03ce4ea50b3b42df2eb5cb181d8f84965a3957add4fa95af01b2b665027efec01c7704b456be69c8b604int, 0xcdc2ed090a56c56a0de4ec7b32c654dfa4f6e6df5f25cb027c60fdc32fbb3b0dd71bc3dc1973e9fb1f29c809fd6a430int, 0x14ce931150092bdb517566f4cba7d716d4b891c4b10d5243923aa48785619a65fa7f15e5d3a6118aa2c0bccc341c7636int, y_num_sq_11_15(x), y_num_15(x), y_num_sq_12_14(x), y_num_sq_12_15(x), 0int, y_num_sq_12_15(x));
    lemma_horner_level(x, 0x18b46a908f36f6deb918c143fed2edcc523559b8aaf0c2462e6bfe7f911f643249d9cdf41b44d606ce07c8a4d0074d8eint, 0x1318c637af1d9913181eb02bcb23c66f5e53058d2a0a19eb01f28549cc2e4783722bfb8cfd1d8657dfe638e7f1a96935int, 0x5c129645e44cf1102a159f748c4a3fc5e673d81d7e86568d9ab0f5d396a7ce46ba1049b6579afb7866b1e715475224bint, 0x143931a3d4a09e660bcc12f53f86f8a471655ee67c2febc03cf4299ecc8b29050bfbc9b850f9be5a593b53283ab0dfa4int, 0x5778c3d9749c115a5d80256b3b874e436bc46bbd111eafb79ca0dc3c5e360cbb3db92ea3d7932d8f5f03518d935211bint, y_num_sq_11_14(x), y_num_14(x), y_num_sq_12_13(x), y_num_sq_11_15(x), y_num_15(x), y_num_sq_12_14(x));
    lemma_horner_level(x, 0x18b46a908f36f6deb918c143fed2edcc523559b8aaf0c2462e6bfe7f911f643249d9cdf41b44d606ce07c8a4d0074d8eint, 0x198481413e21ad530899d4150e4e076e1cf42026b478d6965d17f22aa9075850b1ddacbb549173a71e2dde16aca1cd71int, 0x245a394ad1eca9b72fc00ae7be315dc757b3b080d4c158013e6632d3c40659cc6cf90ad1c232a6442d9d3f5db980133int, 0xd5536f3dd3078838966b2fdd917f851a916b97b5dab48548295368e07b9598827383244250819c10478fa926706a304int, 0x2289312054316c04be85b98cb3cdd978382afd0b5949c75aa75de876287fc3de3f3f6318b235fe40b0ef31cb0fb8497int, y_num_sq_11_13(x), y_num_13(x), y_num_sq_12_12(x), y_num_sq_11_14(x), y_num_14(x), y_num_sq_12_13(x));
    lemma_horner_level(x, 0x18b46a908f36f6deb918c143fed2edcc523559b8aaf0c2462e6bfe7f911f643249d9cdf41b44d606ce07c8a4d0074d8eint, 0xe12d15f854e80a72f8e0e975b360862246b55802103dfbe741bc0abcfdc3c87617479cfc675dbf1b36f2060f7eb85b7int, 0xb182cac101b9399d155096004f53f447aa7b12a3426b08ec02710e807b4633f06c851c1919211f20d4c04f00b971ef8int, 0x15f9a273cb13e76d6c2af460af1c5fb83dcdc2e0c3263d7989349d11378c90b52f0739603abe346229863a9ffbc22714int, 0xa8a40425dd4c815b097ebdfd7e0e9b1725213c69618cdc191bfd93614a8f885af6218c5e1207a0252132535f10e34c7int, y_num_sq_11_12(x), y_num_12(x), y_num_sq_12_11(x), y_num_sq_11_13(x), y_num_13(x), y_num_sq_12_12(x));
    lemma_horner_level(x, 0x18b46a908f36f6deb918c143fed2edcc523559b8aaf0c2462e6bfe7f911f643249d9cdf41b44d606ce07c8a4d0074d8eint, 0x2d49f69e81883b6c3994010799bc09a15ebe114ffe1ea9edb725f824cd6d4d7f4a7dd080bb86cddb242e54992c35e33int, 0x18b46a908f36f6deb918c143fed2edcc523559b8aaf0c2462e6bfe7f911f643249d9cdf41b44d606ce07c8a4d0074d8eint, 0x15ac5e9f1c9d4a3513750283cc1790ef17fa84b952367c97627ad3df928116a2c9d0161ce454e2ce4f623d82f8c7ca58int, 0x177862a04ee36f8cbf7bae4685e7493d8656724c48f2c8bbae0a3981713ead4dff87a41b8a5ce9b0035b43c0e69074bbint, y_num_sq_11_11(x), y_num_11(x), y_num_sq_12_10(x), y_num_sq_11_12(x), y_num_12(x), y_num_sq_12_11(x));
    lemma_horner_level(x, 0x18b46a908f36f6deb918c143fed2edcc523559b8aaf0c2462e6bfe7f911f643249d9cdf41b44d606ce07c8a4d0074d8eint, 0x7c4a1028eed4fbc54d9c96d405b4b81b980320f0c31fceb08d8aecd08999573894eee2b6193f11db79501a67e5491c9int, 0x19713e47937cd1be0dfd0b8f1d43fb93cd2fcbcb6caf493fd1183e416389e61031bf3a5cce3fbafce813711ad011c132int, 0x118854a9d0603a39c01e97dcce8d7a29736e89cdca18e63687dbb3624e9f14cb73d1a57f72ade785396df16bec7cf679int, 0x182bc6ce5cc6b79bc904c8e23c84d5b2da4fe39c40142395103798e7ea19690db0471c4b07251c902f011bdc0fb6c944int, y_num_sq_11_10(x), y_num_10(x), y_num_sq_12_9(x), y_num_sq_11_11(x), y_num_11(x), y_num_sq_12_10(x));
    lemma_horner_level(x, 0x18b46a908f36f6deb918c143fed2edcc523559b8aaf0c2462e6bfe7f911f643249d9cdf41b44d606ce07c8a4d0074d8eint, 0x186fb63653c41a3ebbf2baaef944ec9d9e5ae582d58df298400f6795bdd07ceb36ef30531e07432e52271a89b43320ccint, 0xe1bba7a1186bdb5223abde7ada14a23c42a0ca7915af6fe06985e7ed1e4d43b9b3f7055dd4eba6f2bafaaebca731c30int, 0x15153efbeb7df0d9182f832db0949567f9f32a454d44ae2ec53b85253a1c7d7b6d29fd5d255e9132a5fc55eef55e283fint, 0xd674019fa61c261a71658c0e58625c38e0deda8c90fb53bdca08b5fc98fca2fba84cf522e569f2c920be24923a64e39int, y_num_sq_11_9(x), y_num_9(x), y_num_sq_12_8(x), y_num_sq_11_10(x), y_num_10(x), y_num_sq_12_9(x));
    lemma_horner_level(x, 0x18b46a908f36f6deb918c143fed2edcc523559b8aaf0c2462e6bfe7f911f643249d9cdf41b44d606ce07c8a4d0074d8eint, 0xdadee95dc37768e50018aa3b13f8d275c3011da9e3fac437e03ec439ec2af790ddad105facd30613349b834abba4ed2int, 0x9fc4018bd96684be88c9e221e4da1bb8f3abd16679dc26c1e8b6e6a1f20cabe69d65201c78607a360370e577bdba587int, 0xd6f8cac75122765e8522f52eda0c74f6e47366bc260268dde3045f5a84c3c0134ccf7d54eb5c9569a358106ebc9c321int, 0x97c83bb2ee5121dde87fe907f4b59635ca48064a6a9729afa1e6b434ed307c47a4c652b3ae6771cc0bb8f7252b2a093int, y_num_sq_11_8(x), y_num_8(x), y_num_sq_12_7(x), y_num_sq_11_9(x), y_num_9(x), y_num_sq_12_8(x));
    lemma_horner_level(x, 0x18b46a908f36f6deb918c143fed2edcc523559b8aaf0c2462e6bfe7f911f643249d9cdf41b44d606ce07c8a4d0074d8eint, 0xe2c1699a028315a751423b66636461335adf539def5d6024d11e48efaef9efa82395189a33a2fff8e3aa9976bd7c844int, 0x987c8d5333ab86fde9926bd2ca6c674170a05bfe3bdd81ffd038da6c26c842642f64550fedfe935a15e4ca31870fb29int, 0x150b3fd7f17266ebc230d26fd36017e52694cb1416ac8e669a077a36ac3431bd01f08cbef0063f5adada972cf6011c04int, 0x90dde55f3da40ca260c4b06e8b0b8883fe09b914458be20b55f366b9639fdbb575ba84814321877ebed5f70b3f6ec7aint, y_num_sq_11_7(x), y_num_7(x), y_num_sq_12_6(x), y_num_sq_11_8(x), y_num_8(x), y_num_sq_12_7(x));
    lemma_horner_level(x, 0x18b46a908f36f6deb918c143fed2edcc523559b8aaf0c2462e6bfe7f911f643249d9cdf41b44d606ce07c8a4d0074d8eint, 0xb077fbb3ef6cdd89851de0b2bfb6e79fa178352751b8c55bb33d69415ed180b3d93862dfbce977f06a1d4bdf206405fint, 0x4ab0b9bcfac1bbcb2c977d027796b3ce75bb8ca2be184cb5231413c4d634f3747a87ac2460f415ec961f8855fe9d6f2int, 0x1063fffad2ecb377af50882b6228aeb526b1b11cb769ae52c25c7f762cd479c25746caee0ecf36d76cc953b22513a7f6int, 0x46f5435a8542f1ec745251360e9896b34c3cca21799ce3fdf3a952bb7b674da2e8ac36946f48b94fd0c821dfa8f4379int, y_num_sq_11_6(x), y_num_6(x), y_num_sq_12_5(x), y_num_sq_11_7(x), y_num_7(x), y_num_sq_12_6(x));
    lemma_horner_level(x, 0x18b46a908f36f6deb918c143fed2edcc523559b8aaf0c2462e6bfe7f911f643249d9cdf41b44d606ce07c8a4d0074d8eint, 0x11725797226bdf498a6a4481d55dc7deefb7bdab5eccc2faddb24833a118e0dbb3b27f03e3a4792496367ab97cb51f28int, 0x16603fca40634b6a2211e11db8f0a6a074a7d0d4afadb7bd76505c3d3ad5544e203f6326c95a807299b23ab13633a5f0int, 0x1766b377cfa1491ed9e843119c8bfcfaad3c34b88246d5b0ea1803296fea86c608cc8b56b9f94c3a44467f44c6bd843eint, 0x15420235c36d578c9426b2b47ba9cf729e56994572f886d754004fa97107ab81c9e077ce79c202d5a7a3887d2818e0a2int, y_num_sq_11_5(x), y_num_5(x), y_num_sq_12_4(x), y_num_sq_11_6(x), y_num_6(x), y_num_sq_12_5(x));
    lemma_horner_level(x, 0x18b46a908f36f6deb918c143fed2edcc523559b8aaf0c2462e6bfe7f911f643249d9cdf41b44d606ce07c8a4d0074d8eint, 0x16c5b16f36cbd55148cdcf17fc8a7f0c7139de727678eac1f731338b03cfc25f25417e42d567e12ac9366fd640c95819int, 0x8cc03fdefe0ff135caf4fe2a21529c4195536fbe3ce50b879833fd221351adc2ee7f8dc099040a841b6daecf2e8fedbint, 0x194cbfc5637a4a3349cc35759131a71827fc22c8ba70955f1773025b66e5279286dec50c130600ff7f898872879f0586int, 0x85b7b7e8b99d95babb6438f04055d3f2d7aba9bb1068f5af9825aaf8d9a7acf8c3d4464b50124fd4eeb1664bfdcbdb5int, y_num_sq_11_4(x), y_num_4(x), y_num_sq_12_3(x), y_num_sq_11_5(x), y_num_5(x), y_num_sq_12_4(x));
    lemma_horner_level(x, 0x18b46a908f36f6deb918c143fed2edcc523559b8aaf0c2462e6bfe7f911f643249d9cdf41b44d606ce07c8a4d0074d8eint, 0x18e9dee907d04d8a937b59e7bc2f2a4be7969c39af6d04b4be1fa7da4d257ab4305f225d5c7dc8386ea74eb4ad94982cint, 0x1f86376e8981c217898751ad8746757d42aa7b90eeb791c09e4a3ec03251cf9de405aba9ec61deca6355c77b0e5f4cbint, 0xb753caf4d26df38a989c44b90ef73aeb59e299e289537106db7800ce92b69f040a42d493c243b51a94b46195f44ce09int, 0x1df2f2a9a89b11cb13aa749e873e562879b9e735a7709d92f90325557cf500129dbc608d5ea86ae32010c5300a92865int, y_num_sq_11_3(x), y_num_3(x), y_num_sq_12_2(x), y_num_sq_11_4(x), y_num_4(x), y_num_sq_12_3(x));
    lemma_horner_level(x, 0x18b46a908f36f6deb918c143fed2edcc523559b8aaf0c2462e6bfe7f911f643249d9cdf41b44d606ce07c8a4d0074d8eint, 0x13a5cd82dfc579267dd00629998e83ea6ca4593133bfc7d1619c26f99f024196859cef491740f7e63a23da946e088d95int, 0xcc786baa966e66f4a384c86a3b49942552e2d658a31ce2c344be4b91400da7d26d521628b00523b8dfe240c72de1f6int, 0xb37a7f709ea6e0837fd9d06e2594ae6fd0c775b1b4ecd76a6a579ce966c02bc4955505b40a61d9449e5d885052febd2int, 0xc240c53d36f0adfc678492c6280d269abba895bb6937e42c2a0825fad989e1958d464ba316e344b69bcfa0dff61813int, y_num_sq_11_2(x), y_num_2(x), y_num_sq_12_1(x), y_num_sq_11_3(x), y_num_3(x), y_num_sq_12_2(x));
    lemma_horner_level(x, 0x18b46a908f36f6deb918c143fed2edcc523559b8aaf0c2462e6bfe7f911f643249d9cdf41b44d606ce07c8a4d0074d8eint, 0xe73c6b05d3f536c526df5ab34505517d1ae8ad60c5ddfddd56cb5177fd43cd8f905107036b1529e7bff29734953d56aint, 0x134996a104ee5811d51036d776fb46831223e96c254f383d0f906343eb67ad34d6c56711962fa8bfe097e75a2e41c696int, 0x76579f09e4016385bf094bbae654ea50faf0884799e6a58d8af6e7b493af07317980bb85dc298fb6d18c2a368a0a673int, 0x1252db6eb4ee81191dbf93e5b46dc13b75e9ff3fa8cafd9bbc09a9228d04ef5f5cc8ccc748b116e126f35daade9142b7int, y_num_sq_11_1(x), y_num_1(x), y_num_sq_12_0(x), y_num_sq_11_2(x), y_num_2(x), y_num_sq_12_1(x));
    lemma_horner_level(x, 0x18b46a908f36f6deb918c143fed2edcc523559b8aaf0c2462e6bfe7f911f643249d9cdf41b44d606ce07c8a4d0074d8eint, 0x6fadcc6dcd9323174e204f1a9066a675f1d4fd3af2fbb50dc109e80a79d5aba1f87fa484a52abf0f39f77a2f2ee5e7bint, 0x90d97c81ba24ee0259d1f094980dcfa11ad138e48a869522b52af6c956543d3cd0c7aee9b3ba3c2be9845719707bb33int, 0x0int, 0x899c865fc7f73c2a829f800cb5288e1797070d66bea096e074f755c57ac14ab8d80d8586160ddc88ea4bcf08b996c6dint, y_num_sq_11_0(x), y_num_0(x), times(x, y_num_sq_12_0(x)), y_num_sq_11_1(x), y_num_1(x), y_num_sq_12_0(x));
    lemma_product_level(x, 0x18b46a908f36f6deb918c143fed2edcc523559b8aaf0c2462e6bfe7f911f643249d9cdf41b44d606ce07c8a4d0074d8eint, y_num_11(x), y_num_12(x), y_num_0(x), y_num_sq_11_0(x), y_num_sq_12_0(x));
}

pub(crate) proof fn lemma_y_num_sq_step_10(x: int)
    ensures
        congruent(y_num_sq_10_0(x), times(y_num_10(x), y_num_0(x))),
{
    lemma_times_zero(x);
    lemma_y_num_sq_step_11(x);
    lemma_congruent_refl(y_num_sq_11_15(x), 0x19713e47937cd1be0dfd0b8f1d43fb93cd2fcbcb6caf493fd1183e416389e61031bf3a5cce3fbafce813711ad011c132int * 0int + y_num_sq_11_15(x));
    lemma_horner_level(x, 0x19713e47937cd1be0dfd0b8f1d43fb93cd2fcbcb6caf493fd1183e416389e61031bf3a5cce3fbafce813711ad011c132int, 0x10346fa175d204b4d667f29c35af11b661a82de95f72f823866ba17e9b7b82aeebfc991e6b3f0f6d71d0cea0fdef78deint, 0x15e6be4e990f03ce4ea50b3b42df2eb5cb181d8f84965a3957add4fa95af01b2b665027efec01c7704b456be69c8b604int, 0x1318c637af1d9913181eb02bcb23c66f5e53058d2a0a19eb01f28549cc2e4783722bfb8cfd1d8657dfe638e7f1a96935int, 0x156d9bee31c8865604db77c077dad1c4cceef04e0bb798dc1e817918e00c1664934c6dbd86a9d8b9b1301c22509c835dint, y_num_sq_10_15(x), y_num_15(x), y_num_sq_11_14(x), y_num_sq_11_15(x), 0int, y_num_sq_11_15(x));
    lemma_horner_level(x, 0x19713e47937cd1be0dfd0b8f1d43fb93cd2fcbcb6caf493fd1183e416389e61031bf3a5cce3fbafce813711ad011c132int, 0x18380dc2a1948183a37e6322121b87abd12f408e83a3b90f1f6a4fd82e549caf4cb8b7b84b10b97ae6ad4a01b4fc3c21int, 0x5c129645e44cf1102a159f748c4a3fc5e673d81d7e86568d9ab0f5d396a7ce46ba1049b6579afb7866b1e715475224bint, 0x198481413e21ad530899d4150e4e076e1cf42026b478d6965d17f22aa9075850b1ddacbb549173a71e2dde16aca1cd71int, 0x5a15578c0648625c547d2f45f3bce41c09d8c87f3f43f0f8ef0c5a10a5f8495e20b495c4ac45c656c6b616761f56ce2int, y_num_sq_10_14(x), y_num_14(x), y_num_sq_11_13(x), y_num_sq_10_15(x), y_num_15(x), y_num_sq_11_14(x));
    lemma_horner_level(x, 0x19713e47937cd1be0dfd0b8f1d43fb93cd2fcbcb6caf493fd1183e416389e61031bf3a5cce3fbafce813711ad011c132int, 0x19e649d16229e8f0ceb528b45efafc5c0c638636c47ebc1ce836b2f8a093a3f792f706828659e5fa784547f0f33c964bint, 0x245a394ad1eca9b72fc00ae7be315dc757b3b080d4c158013e6632d3c40659cc6cf90ad1c232a6442d9d3f5db980133int, 0xe12d15f854e80a72f8e0e975b360862246b55802103dfbe741bc0abcfdc3c87617479cfc675dbf1b36f2060f7eb85b7int, 0x2391296ef14f312cf807569479db7d8a68c69c020faefab681fbf92150ff82eab300c56e795e5dac45edfe8ec22db26int, y_num_sq_10_13(x), y_num_13(x), y_num_sq_11_12(x), y_num_sq_10_14(x), y_num_14(x), y_num_sq_11_13(x));
    lemma_horner_level(x, 0x19713e47937cd1be0dfd0b8f1d43fb93cd2fcbcb6caf493fd1183e416389e61031bf3a5cce3fbafce813711ad011c132int, 0x21d36c33a11d9e79237d9dc75d6e7f0f3520a8ec275d4ad8a1951311c6887f4d09ad4f29522576d5f44a7b319f4b67fint, 0xb182cac101b9399d155096004f53f447aa7b12a3426b08ec02710e807b4633f06c851c1919211f20d4c04f00b971ef8int, 0x2d49f69e81883b6c3994010799bc09a15ebe114ffe1ea9edb725f824cd6d4d7f4a7dd080bb86cddb242e54992c35e33int, 0xadacfee5143054b2c37868c84fea87490635e9971186b4b28e98f99f0b86823f4ae21237214662cf4ecb99fafd7046cint, y_num_sq_10_12(x), y_num_12(x), y_num_sq_11_11(x), y_num_sq_10_13(x), y_num_13(x), y_num_sq_11_12(x));
    lemma_horner_level(x, 0x19713e47937cd1be0dfd0b8f1d43fb93cd2fcbcb6caf493fd1183e416389e61031bf3a5cce3fbafce813711ad011c132int, 0x1801ff4586fa4bd934b0a2b3f574c9b1640925d541d0265ef1067cd8b9450c3fbd7836d601cdfab5efbb11e1102bd7c4int, 0x18b46a908f36f6deb918c143fed2edcc523559b8aaf0c2462e6bfe7f911f643249d9cdf41b44d606ce07c8a4d0074d8eint, 0x7c4a1028eed4fbc54d9c96d405b4b81b980320f0c31fceb08d8aecd08999573894eee2b6193f11db79501a67e5491c9int, 0x182bc6ce5cc6b79bc904c8e23c84d5b2da4fe39c40142395103798e7ea19690db0471c4b07251c902f011bdc0fb6c943int, y_num_sq_10_11(x), y_num_11(x), y_num_sq_11_10(x), y_num_sq_10_12(x), y_num_12(x), y_num_sq_11_11(x));
    lemma_horner_level(x, 0x19713e47937cd1be0dfd0b8f1d43fb93cd2fcbcb6caf493fd1183e416389e61031bf3a5cce3fbafce813711ad011c132int, 0x2d3b8e073d5f2fbe247189c51171b491cfe515415ddf140e53c111429e94043163470acfd73256309053534ace69314int, 0x19713e47937cd1be0dfd0b8f1d43fb93cd2fcbcb6caf493fd1183e416389e61031bf3a5cce3fbafce813711ad011c132int, 0x186fb63653c41a3ebbf2baaef944ec9d9e5ae582d58df298400f6795bdd07ceb36ef30531e07432e52271a89b43320ccint, 0x18e48622e89f44a528aa9622645ee5761d94a7576d4fbdfca5c12badcf94eaceaebd64e383c8aef96e7fdfa777aaf274int, y_num_sq_10_10(x), y_num_10(x), y_num_sq_11_9(x), y_num_sq_10_11(x), y_num_11(x), y_num_sq_11_10(x));
    lemma_horner_level(x, 0x19713e47937cd1be0dfd0b8f1d43fb93cd2fcbcb6caf493fd1183e416389e61031bf3a5cce3fbafce813711ad011c132int, 0x1388ff624c62a3efc1b83809f9c9e70ab3f306168d25fc1109977f105601e2ccff0ffc29afd2573028e3247b436642f3int, 0xe1bba7a1186bdb5223abde7ada14a23c42a0ca7915af6fe06985e7ed1e4d43b9b3f7055dd4eba6f2bafaaebca731c30int, 0xdadee95dc37768e50018aa3b13f8d275c3011da9e3fac437e03ec439ec2af790ddad105facd30613349b834abba4ed2int, 0xdcdb257b3dfe26dd5b6faddb42ec6cb9f7a5fcb086fe5fc863041181be9694c8286e2f8b8caf7adaa6b42f7067c37bdint, y_num_sq_10_9(x), y_num_9(x), y_num_sq_11_8(x), y_num_sq_10_10(x), y_num_10(x), y_num_sq_11_9(x));
    lemma_horner_level(x, 0x19713e47937cd1be0dfd0b8f1d43fb93cd2fcbcb6caf493fd1183e416389e61031bf3a5cce3fbafce813711ad011c132int, 0x120dd52fd7f20b1195b6d6b3a713b62a449190bd41567579e7a3dd21c959ee700017c897cff242fa680bdeabbf202d30int, 0x9fc4018bd96684be88c9e221e4da1bb8f3abd16679dc26c1e8b6e6a1f20cabe69d65201c78607a360370e577bdba587int, 0xe2c1699a028315a751423b66636461335adf539def5d6024d11e48efaef9efa82395189a33a2fff8e3aa9976bd7c844int, 0x9c505b6a06d9a8b3e02fd5aa818aab0823abf9e6967dcf6e45b7ae88f3b9b3d99647f9060d245b25abc76f98d752356int, y_num_sq_10_8(x), y_num_8(x), y_num_sq_11_7(x), y_num_sq_10_9(x), y_num_9(x), y_num_sq_11_8(x));
    lemma_horner_level(x, 0x19713e47937cd1be0dfd0b8f1d43fb93cd2fcbcb6caf493fd1183e416389e61031bf3a5cce3fbafce813711ad011c132int, 0x149e9dbc03a05a68c3e1eedf9a59b86641045b31449f6e2933807f59ec9dcb16a1bf63fdcf8937541b6f40a3b5c741b1int, 0x987c8d5333ab86fde9926bd2ca6c674170a05bfe3bdd81ffd038da6c26c842642f64550fedfe935a15e4ca31870fb29int, 0xb077fbb3ef6cdd89851de0b2bfb6e79fa178352751b8c55bb33d69415ed180b3d93862dfbce977f06a1d4bdf206405fint, 0x953129c8a15a038de11f430fd194f07894160d5caf3f01afbcb958bf8701f547dc59840a12f970f9e2701936938e110int, y_num_sq_10_7(x), y_num_7(x), y_num_sq_11_6(x), y_num_sq_10_8(x), y_num_8(x), y_num_sq_11_7(x));
    lemma_horner_level(x, 0x19713e47937cd1be0dfd0b8f1d43fb93cd2fcbcb6caf493fd1183e416389e61031bf3a5cce3fbafce813711ad011c132int, 0xa3b89c039872b939afc93dd4e6a95c3e43c872fb53598c9ee6362aeb39df6ec970842798c22756a0a7b6b4ba2c75273int, 0x4ab0b9bcfac1bbcb2c977d027796b3ce75bb8ca2be184cb5231413c4d634f3747a87ac2460f415ec961f8855fe9d6f2int, 0x11725797226bdf498a6a4481d55dc7deefb7bdab5eccc2faddb24833a118e0dbb3b27f03e3a4792496367ab97cb51f28int, 0x49139ec847780276da3c7381dfb0ca594128d5f412fd6cab5baef1e0d2e2436e7b27e45ee0b5462d24081b10213adebint, y_num_sq_10_6(x), y_num_6(x), y_num_sq_11_5(x), y_num_sq_10_7(x), y_num_7(x), y_num_sq_11_6(x));
    lemma_horner_level(x, 0x19713e47937cd1be0dfd0b8f1d43fb93cd2fcbcb6caf493fd1183e416389e61031bf3a5cce3fbafce813711ad011c132int, 0x4c12f4604d84cd0b1823c4accc41852eba14704773ceab60c33cf07fc89d383715a6a2cccdd01f8465ab26aaa71109int, 0x16603fca40634b6a2211e11db8f0a6a074a7d0d4afadb7bd76505c3d3ad5544e203f6326c95a807299b23ab13633a5f0int, 0x16c5b16f36cbd55148cdcf17fc8a7f0c7139de727678eac1f731338b03cfc25f25417e42d567e12ac9366fd640c95819int, 0x15e47d604ffe81501da5bc5ef1896b2082d4a467ec95ac4be1ce670d9be701f2a85c5904fc00525c0a5ad2f64397dfd0int, y_num_sq_10_5(x), y_num_5(x), y_num_sq_11_4(x), y_num_sq_10_6(x), y_num_6(x), y_num_sq_11_5(x));
    lemma_horner_level(x, 0x19713e47937cd1be0dfd0b8f1d43fb93cd2fcbcb6caf493fd1183e416389e61031bf3a5cce3fbafce813711ad011c132int, 0x17548bd5b027915dee2be3603b5c8b4e57847fff6ec2c26fc581a84c391e739fbf7d841adaa533d5c9fa464aef016822int, 0x8cc03fdefe0ff135caf4fe2a21529c4195536fbe3ce50b879833fd221351adc2ee7f8dc099040a841b6daecf2e8fedbint, 0x18e9dee907d04d8a937b59e7bc2f2a4be7969c39af6d04b4be1fa7da4d257ab4305f225d5c7dc8386ea74eb4ad94982cint, 0x89b5c4d914dfe5dbed4a942c45510f3baa3be3a62759d2efc090b2e062fde8caf183d2e579fd782f7b6968c53b93570int, y_num_sq_10_4(x), y_num_4(x), y_num_sq_11_3(x), y_num_sq_10_5(x), y_num_5(x), y_num_sq_11_4(x));
    lemma_horner_level(x, 0x19713e47937cd1be0dfd0b8f1d43fb93cd2fcbcb6caf493fd1183e416389e61031bf3a5cce3fbafce813711ad011c132int, 0x32f7d9e4edd14869162a8c6670ad3de4294a48424586f2c170cb367c02f3672d92a316d473fbba56ae90477b6286ac8int, 0x1f86376e8981c217898751ad8746757d42aa7b90eeb791c09e4a3ec03251cf9de405aba9ec61deca6355c77b0e5f4cbint, 0x13a5cd82dfc579267dd00629998e83ea6ca4593133bfc7d1619c26f99f024196859cef491740f7e63a23da946e088d95int, 0x1ed7dbd070166c360291339ad6d74d6d734a593991833003e0d4835043937b1901421175c2dd8c06c4f02b773cef859int, y_num_sq_10_3(x), y_num_3(x), y_num_sq_11_2(x), y_num_sq_10_4(x), y_num_4(x), y_num_sq_11_3(x));
    lemma_horner_level(x, 0x19713e47937cd1be0dfd0b8f1d43fb93cd2fcbcb6caf493fd1183e416389e61031bf3a5cce3fbafce813711ad011c132int, 0x17f8b4b5183703038ee4d3cdb2120a3acffc333844f2999e9e07c631127281232cb37b1c98b247e1777e55da40a64751int, 0xcc786baa966e66f4a384c86a3b49942552e2d658a31ce2c344be4b91400da7d26d521628b00523b8dfe240c72de1f6int, 0xe73c6b05d3f536c526df5ab34505517d1ae8ad60c5ddfddd56cb5177fd43cd8f905107036b1529e7bff29734953d56aint, 0xc80d838a86e5367aad3001703c48e74a3c3cbf7da522c4ef72b4bcabae98be041d355c827af5a3079f5a87ab6b726fint, y_num_sq_10_2(x), y_num_2(x), y_num_sq_11_1(x), y_num_sq_10_3(x), y_num_3(x), y_num_sq_11_2(x));
    lemma_horner_level(x, 0x19713e47937cd1be0dfd0b8f1d43fb93cd2fcbcb6caf493fd1183e416389e61031bf3a5cce3fbafce813711ad011c132int, 0x133be1c696a52811b3f68ea329aba2fd88613e0219fb6ac4b50ed748d2cb18f10a27b74a06eff9812b4f2ed0d14a61c1int, 0x134996a104ee5811d51036d776fb46831223e96c254f383d0f906343eb67ad34d6c56711962fa8bfe097e75a2e41c696int, 0x6fadcc6dcd9323174e204f1a9066a675f1d4fd3af2fbb50dc109e80a79d5aba1f87fa484a52abf0f39f77a2f2ee5e7bint, 0x12dee9495683b8e51eddba68fa096be10b2e0f54747cded1f2034d85b357d6823df065a6bb6d7b2b39e21658078f9412int, y_num_sq_10_1(x), y_num_1(x), y_num_sq_11_0(x), y_num_sq_10_2(x), y_num_2(x), y_num_sq_11_1(x));
    lemma_horner_level(x, 0x19713e47937cd1be0dfd0b8f1d43fb93cd2fcbcb6caf493fd1183e416389e61031bf3a5cce3fbafce813711ad011c132int, 0xea7780f50bef0d80c4d821c766ca0e926f426cea26bf596874ec7f525e597a786a21258de2973e669cb706cab70fe36int, 0x90d97c81ba24ee0259d1f094980dcfa11ad138e48a869522b52af6c956543d3cd0c7aee9b3ba3c2be9845719707bb33int, 0x0int, 0x8db856408a69820f0e65f6662ca7688681e71e8b7f911f2181a47dc2b93caa3e18592ed419d32f538466b41a2020e40int, y_num_sq_10_0(x), y_num_0(x), times(x, y_num_sq_11_0(x)), y_num_sq_10_1(x), y_num_1(x), y_num_sq_11_0(x));
    lemma_product_level(x, 0x19713e47937cd1be0dfd0b8f1d43fb93cd2fcbcb6caf493fd1183e416389e61031bf3a5cce3fbafce813711ad011c132int, y_num_10(x), y_num_11(x), y_num_0(x), y_num_sq_10_0(x), y_num_sq_11_0(x));
}

pub(crate) proof fn lemma_y_num_sq_step_9(x: int)
    ensures
        congruent(y_num_sq_9_0(x), times(y_num_9(x), y_num_0(x))),
{
    lemma_times_zero(x);
    lemma_y_num_sq_step_10(x);
    lemma_congruent_refl(y_num_sq_10_15(x), 0xe1bba7a1186bdb5223abde7ada14a23c42a0ca7915af6fe06985e7ed1e4d43b9b3f7055dd4eba6f2bafaaebca731c30int * 0int + y_num_sq_10_15(x));
    lemma_horner_level(x, 0xe1bba7a1186bdb5223abde7ada14a23c42a0ca7915af6fe06985e7ed1e4d43b9b3f7055dd4eba6f2bafaaebca731c30int, 0x4b636b168654548b500d9db6a986af9a32938291ee834b1a9319620f414a096ed4e5d37b43f8f7fce5145e757786fb2int, 0x15e6be4e990f03ce4ea50b3b42df2eb5cb181d8f84965a3957add4fa95af01b2b665027efec01c7704b456be69c8b604int, 0x18380dc2a1948183a37e6322121b87abd12f408e83a3b90f1f6a4fd82e549caf4cb8b7b84b10b97ae6ad4a01b4fc3c21int, 0xbe1e24be1c11c069258b5de6fce9f3002b097104d9b788278f4e2880bc0b9abf376707fb5c63fedb0d0899b501c178dint, y_num_sq_9_15(x), y_num_15(x), y_num_sq_10_14(x), y_num_sq_10_15(x), 0int, y_num_sq_10_15(x));
    lemma_horner_level(x, 0xe1bba7a1186bdb5223abde7ada14a23c42a0ca7915af6fe06985e7ed1e4d43b9b3f7055dd4eba6f2bafaaebca731c30int, 0xdadf08946c946ec8f8fa1e5b9e81ef157eff27c5ee413d1b09b6f3d18f874abb46a46756dd70a533bd09c1751705536int, 0x5c129645e44cf1102a159f748c4a3fc5e673d81d7e86568d9ab0f5d396a7ce46ba1049b6579afb7866b1e715475224bint, 0x19e649d16229e8f0ceb528b45efafc5c0c638636c47ebc1ce836b2f8a093a3f792f706828659e5fa784547f0f33c964bint, 0x31f3fe01c5bb521d19d9f66eb107b855a3bf7e953f729e5409c33b8425b9d9639ee285071922f2565e687a1410aa96fint, y_num_sq_9_14(x), y_num_14(x), y_num_sq_10_13(x), y_num_sq_9_15(x), y_num_15(x), y_num_sq_10_14(x));
    lemma_horner_level(x, 0xe1bba7a1186bdb5223abde7ada14a23c42a0ca7915af6fe06985e7ed1e4d43b9b3f7055dd4eba6f2bafaaebca731c30int, 0x124a2b3af31607dd0d5cfa79fbd6aadad45a880d0cd7cb6d681444cfaf16ba19d25aa82754f2c89dc12e4b0254392c56int, 0x245a394ad1eca9b72fc00ae7be315dc757b3b080d4c158013e6632d3c40659cc6cf90ad1c232a6442d9d3f5db980133int, 0x21d36c33a11d9e79237d9dc75d6e7f0f3520a8ec275d4ad8a1951311c6887f4d09ad4f29522576d5f44a7b319f4b67fint, 0x13b90041df485363484a4d71adc6d39b34ca6d55fa001f8ecb94c475f6b129f5b093133673559466321bc8d15fe072bint, y_num_sq_9_13(x), y_num_13(x), y_num_sq_10_12(x), y_num_sq_9_14(x), y_num_14(x), y_num_sq_10_13(x));
    lemma_horner_level(x, 0xe1bba7a1186bdb5223abde7ada14a23c42a0ca7915af6fe06985e7ed1e4d43b9b3f7055dd4eba6f2bafaaebca731c30int, 0xcff5c68ebb5a9f247df4b95b2e23cba7e3124e0fe29e4e182e3b29d105c3de9c670ed402b9442ceb001217afa41e376int, 0xb182cac101b9399d155096004f53f447aa7b12a3426b08ec02710e807b4633f06c851c1919211f20d4c04f00b971ef8int, 0x1801ff4586fa4bd934b0a2b3f574c9b1640925d541d0265ef1067cd8b9450c3fbd7836d601cdfab5efbb11e1102bd7c4int, 0x604e8b3879a951d03d05c2419aa638ce090e3b721c82c4902a122dcde72b3b220ae13a9fea5a41c51b3e080d18aa86aint, y_num_sq_9_12(x), y_num_12(x), y_num_sq_10_11(x), y_num_sq_9_13(x), y_num_13(x), y_num_sq_10_12(x));
    lemma_horner_level(x, 0xe1bba7a1186bdb5223abde7ada14a23c42a0ca7915af6fe06985e7ed1e4d43b9b3f7055dd4eba6f2bafaaebca731c30int, 0x62e301adc1c1c61860a501d99c7727ec1660c919e2735aa600ff384ad9d3fb2dff9a3a2f61bd75eb52ff9cf6bbb8ba1int, 0x18b46a908f36f6deb918c143fed2edcc523559b8aaf0c2462e6bfe7f911f643249d9cdf41b44d606ce07c8a4d0074d8eint, 0x2d3b8e073d5f2fbe247189c51171b491cfe515415ddf140e53c111429e94043163470acfd73256309053534ace69314int, 0xd674019fa61c261a71658c0e58625c38e0deda8c90fb53bdca08b5fc98fca2fba84cf522e569f2c920be24923a64e39int, y_num_sq_9_11(x), y_num_11(x), y_num_sq_10_10(x), y_num_sq_9_12(x), y_num_12(x), y_num_sq_10_11(x));
    lemma_horner_level(x, 0xe1bba7a1186bdb5223abde7ada14a23c42a0ca7915af6fe06985e7ed1e4d43b9b3f7055dd4eba6f2bafaaebca731c30int, 0x1964102ebc8dd151336ee570425440ee0bb5fa527c0c4bde952b11dd0d411620f045274d64d77dff1e7c90c1db123714int, 0x19713e47937cd1be0dfd0b8f1d43fb93cd2fcbcb6caf493fd1183e416389e61031bf3a5cce3fbafce813711ad011c132int, 0x1388ff624c62a3efc1b83809f9c9e70ab3f306168d25fc1109977f105601e2ccff0ffc29afd2573028e3247b436642f3int, 0xdcdb257b3dfe26dd5b6faddb42ec6cb9f7a5fcb086fe5fc863041181be9694c8286e2f8b8caf7adaa6b42f7067c37bdint, y_num_sq_9_10(x), y_num_10(x), y_num_sq_10_9(x), y_num_sq_9_11(x), y_num_11(x), y_num_sq_10_10(x));
    lemma_horner_level(x, 0xe1bba7a1186bdb5223abde7ada14a23c42a0ca7915af6fe06985e7ed1e4d43b9b3f7055dd4eba6f2bafaaebca731c30int, 0x819dec8af9780e8b7e3b99892980c8f4890b1c46417f3744dfa5a477a2a4f550427e2a21d47d2225c19ed93e5301816int, 0xe1bba7a1186bdb5223abde7ada14a23c42a0ca7915af6fe06985e7ed1e4d43b9b3f7055dd4eba6f2bafaaebca731c30int, 0x120dd52fd7f20b1195b6d6b3a713b62a449190bd41567579e7a3dd21c959ee700017c897cff242fa680bdeabbf202d30int, 0x7a7820f9366abf641092b5ba01bd599e17b476f42d888b0303c63297ac5e1f6562b6bb7e181fb07d16d932faacdda4eint, y_num_sq_9_9(x), y_num_9(x), y_num_sq_10_8(x), y_num_sq_9_10(x), y_num_10(x), y_num_sq_10_9(x));
    lemma_horner_level(x, 0xe1bba7a1186bdb5223abde7ada14a23c42a0ca7915af6fe06985e7ed1e4d43b9b3f7055dd4eba6f2bafaaebca731c30int, 0xc98337221ddff94eea44b2bf58d2a957a600ea3e34cbdbdbd2f8e1dd9e58588de06b2a267b640362545b1427bfa3692int, 0x9fc4018bd96684be88c9e221e4da1bb8f3abd16679dc26c1e8b6e6a1f20cabe69d65201c78607a360370e577bdba587int, 0x149e9dbc03a05a68c3e1eedf9a59b86641045b31449f6e2933807f59ec9dcb16a1bf63fdcf8937541b6f40a3b5c741b1int, 0x56ade64b4fbc82a6e183add82ab97e5a2f8992589ab49602e0fd18983ce41082e6e63bf52b1330220c5b51c9980894dint, y_num_sq_9_8(x), y_num_8(x), y_num_sq_10_7(x), y_num_sq_9_9(x), y_num_9(x), y_num_sq_10_8(x));
    lemma_horner_level(x, 0xe1bba7a1186bdb5223abde7ada14a23c42a0ca7915af6fe06985e7ed1e4d43b9b3f7055dd4eba6f2bafaaebca731c30int, 0xf8b73c95ac037276fc230f6683161952be6b8a634c9275b90f15095c282bd6bebf7aaa187d4f9164eb336711eaaa95dint, 0x987c8d5333ab86fde9926bd2ca6c674170a05bfe3bdd81ffd038da6c26c842642f64550fedfe935a15e4ca31870fb29int, 0xa3b89c039872b939afc93dd4e6a95c3e43c872fb53598c9ee6362aeb39df6ec970842798c22756a0a7b6b4ba2c75273int, 0x52bae69a24d918452a030e41dd3610317a0a305271e905685985e723657192452e70f005a3bc3d963a397e89cdfb652int, y_num_sq_9_7(x), y_num_7(x), y_num_sq_10_6(x), y_num_sq_9_8(x), y_num_8(x), y_num_sq_10_7(x));
    lemma_horner_level(x, 0xe1bba7a1186bdb5223abde7ada14a23c42a0ca7915af6fe06985e7ed1e4d43b9b3f7055dd4eba6f2bafaaebca731c30int, 0x120a9648d3fcd8a443632bc13e315d77c7b585f9a8efebc88be20e9bef363798722cc23a94cb146a6fb9df5799a6f2adint, 0x4ab0b9bcfac1bbcb2c977d027796b3ce75bb8ca2be184cb5231413c4d634f3747a87ac2460f415ec961f8855fe9d6f2int, 0x4c12f4604d84cd0b1823c4accc41852eba14704773ceab60c33cf07fc89d383715a6a2cccdd01f8465ab26aaa71109int, 0x2885c3649f6c11a12131eb4108f8007aa24b3cba7577b927ae8f9ae8c546323a58a3b2b3ea526c79641dfb81466ab34int, y_num_sq_9_6(x), y_num_6(x), y_num_sq_10_5(x), y_num_sq_9_7(x), y_num_7(x), y_num_sq_10_6(x));
    lemma_horner_level(x, 0xe1bba7a1186bdb5223abde7ada14a23c42a0ca7915af6fe06985e7ed1e4d43b9b3f7055dd4eba6f2bafaaebca731c30int, 0x16fcc241359e838167b1019e03fda9cb7082cfe6313f9992239717bc134fafea0886a50e666c3520502b46ffda5a970eint, 0x16603fca40634b6a2211e11db8f0a6a074a7d0d4afadb7bd76505c3d3ad5544e203f6326c95a807299b23ab13633a5f0int, 0x17548bd5b027915dee2be3603b5c8b4e57847fff6ec2c26fc581a84c391e739fbf7d841adaa533d5c9fa464aef016822int, 0xc23ce45e42d812f81dd8e67ea47e8ca1bb51c78551c4dd3ab6d4af216d6d3d9ba19705957e9053db89687d1f8208a3cint, y_num_sq_9_5(x), y_num_5(x), y_num_sq_10_4(x), y_num_sq_9_6(x), y_num_6(x), y_num_sq_10_5(x));
    lemma_horner_level(x, 0xe1bba7a1186bdb5223abde7ada14a23c42a0ca7915af6fe06985e7ed1e4d43b9b3f7055dd4eba6f2bafaaebca731c30int, 0xe06c1536e4a4a9062f2e4feed5fd65a21e92ef21ef1ce722152447f6046a85b86daa3270b3c82ee7223c219eb2a2340int, 0x8cc03fdefe0ff135caf4fe2a21529c4195536fbe3ce50b879833fd221351adc2ee7f8dc099040a841b6daecf2e8fedbint, 0x32f7d9e4edd14869162a8c6670ad3de4294a48424586f2c170cb367c02f3672d92a316d473fbba56ae90477b6286ac8int, 0x4c5cf21afdd9072e20e3aa7c8fcb498bfb903040ac917db26b6a7b9cb1b9680104b06218a36c1e1473d1b1064950dc8int, y_num_sq_9_4(x), y_num_4(x), y_num_sq_10_3(x), y_num_sq_9_5(x), y_num_5(x), y_num_sq_10_4(x));
    lemma_horner_level(x, 0xe1bba7a1186bdb5223abde7ada14a23c42a0ca7915af6fe06985e7ed1e4d43b9b3f7055dd4eba6f2bafaaebca731c30int, 0x144fa5392583fa260a35b51e4e2583bc4dfe084b50429dda05a0f45a5a5f2173fc9b9f93a17b2ab274c70bbb3cd5cce1int, 0x1f86376e8981c217898751ad8746757d42aa7b90eeb791c09e4a3ec03251cf9de405aba9ec61deca6355c77b0e5f4cbint, 0x17f8b4b5183703038ee4d3cdb2120a3acffc333844f2999e9e07c631127281232cb37b1c98b247e1777e55da40a64751int, 0x111a6ad4df1b0d9e7ab80f30a808254e32ece1182e59bb073203c7fb999be581b9d3408a4eab9b76ba8a2572e30bd80int, y_num_sq_9_3(x), y_num_3(x), y_num_sq_10_2(x), y_num_sq_9_4(x), y_num_4(x), y_num_sq_10_3(x));
    lemma_horner_level(x, 0xe1bba7a1186bdb5223abde7ada14a23c42a0ca7915af6fe06985e7ed1e4d43b9b3f7055dd4eba6f2bafaaebca731c30int, 0xef8c1c79ae8cc38055e78c3551113059659f05392fb127489024d074bbf86537c6e1d989a9aec2525d0cf9890029a9bint, 0xcc786baa966e66f4a384c86a3b49942552e2d658a31ce2c344be4b91400da7d26d521628b00523b8dfe240c72de1f6int, 0x133be1c696a52811b3f68ea329aba2fd88613e0219fb6ac4b50ed748d2cb18f10a27b74a06eff9812b4f2ed0d14a61c1int, 0x6eeef4837d7a4b641e626466afd150932106856a49f3f53e1454320b9770ca75f09a9ec748d70cadb0e3c6dc2327d2int, y_num_sq_9_2(x), y_num_2(x), y_num_sq_10_1(x), y_num_sq_9_3(x), y_num_3(x), y_num_sq_10_2(x));
    lemma_horner_level(x, 0xe1bba7a1186bdb5223abde7ada14a23c42a0ca7915af6fe06985e7ed1e4d43b9b3f7055dd4eba6f2bafaaebca731c30int, 0x956ef85510689a3109560818ad924c8b908a3d1bbbe22225827b36e9b61c81e8c363e704fd06c332ff224b5e5010035int, 0x134996a104ee5811d51036d776fb46831223e96c254f383d0f906343eb67ad34d6c56711962fa8bfe097e75a2e41c696int, 0xea7780f50bef0d80c4d821c766ca0e926f426cea26bf596874ec7f525e597a786a21258de2973e669cb706cab70fe36int, 0xa76d727df22666bf19d6292b5900333f991f0cde6bad5806c2b1620dd833bddd21e01be8b3aa2083158e6df8801e663int, y_num_sq_9_1(x), y_num_1(x), y_num_sq_10_0(x), y_num_sq_9_2(x), y_num_2(x), y_num_sq_10_1(x));
    lemma_horner_level(x, 0xe1bba7a1186bdb5223abde7ada14a23c42a0ca7915af6fe06985e7ed1e4d43b9b3f7055dd4eba6f2bafaaebca731c30int, 0x8f11c23e991cfa5b42ae469ce4d426c721d40791f6c170d435aa3360a2e56580ee773ed4435ff6ce6cc815afc21afa2int, 0x90d97c81ba24ee0259d1f094980dcfa11ad138e48a869522b52af6c956543d3cd0c7aee9b3ba3c2be9845719707bb33int, 0x0int, 0x4e9632eea3bccf30222159ce14df9d99d7889e935aa9c6fc67a970c89d7730fb554c430b2172e55cf1c4e4984e5f9caint, y_num_sq_9_0(x), y_num_0(x), times(x, y_num_sq_10_0(x)), y_num_sq_9_1(x), y_num_1(x), y_num_sq_10_0(x));
    lemma_product_level(x, 0xe1bba7a1186bdb5223abde7ada14a23c42a0ca7915af6fe06985e7ed1e4d43b9b3f7055dd4eba6f2bafaaebca731c30int, y_num_9(x), y_num_10(x), y_num_0(x), y_num_sq_9_0(x), y_num_sq_10_0(x));
}

pub(crate) proof fn lemma_y_num_sq_step_8(x: int)
    ensures
        congruent(y_num_sq_8_0(x), times(y_num_8(x), y_num_0(x))),
{
    lemma_times_zero(x);
    lemma_y_num_sq_step_9(x);
    lemma_congruent_refl(y_num_sq_9_15(x), 0x9fc4018bd96684be88c9e221e4da1bb8f3abd16679dc26c1e8b6e6a1f20cabe69d65201c78607a360370e577bdba587int * 0int + y_num_sq_9_15(x));
    lemma_horner_level(x, 0x9fc4018bd96684be88c9e221e4da1bb8f3abd16679dc26c1e8b6e6a1f20cabe69d65201c78607a360370e577bdba587int, 0x11f232fd5ca7e8408d3a410b1aed129917243a3c92c76833ab38678178682b463f6272c1c42868c4990d753ff784a37dint, 0x15e6be4e990f03ce4ea50b3b42df2eb5cb181d8f84965a3957add4fa95af01b2b665027efec01c7704b456be69c8b604int, 0xdadf08946c946ec8f8fa1e5b9e81ef157eff27c5ee413d1b09b6f3d18f874abb46a46756dd70a533bd09c1751705536int, 0x868ef656d17331acf975236e4a12abd5165046c4e6bac35bf53c6027127288b36b5da210ab6510f45e10cd929ffc57fint, y_num_sq_8_15(x), y_num_15(x), y_num_sq_9_14(x), y_num_sq_9_15(x), 0int, y_num_sq_9_15(x));
    lemma_horner_level(x, 0x9fc4018bd96684be88c9e221e4da1bb8f3abd16679dc26c1e8b6e6a1f20cabe69d65201c78607a360370e577bdba587int, 0x108185f06418bf77df28d832c54780dde38aea9496c4dcc4c7488ebac470203991cba99f0712dfbfdc5f5ca27e412057int, 0x5c129645e44cf1102a159f748c4a3fc5e673d81d7e86568d9ab0f5d396a7ce46ba1049b6579afb7866b1e715475224bint, 0x124a2b3af31607dd0d5cfa79fbd6aadad45a880d0cd7cb6d681444cfaf16ba19d25aa82754f2c89dc12e4b0254392c56int, 0x235ae0869281c521717036461bfff5f164548eb1a590ebcfb4b926118c12a14c1eb5b7ac82f2981998715e023a569a4int, y_num_sq_8_14(x), y_num_14(x), y_num_sq_9_13(x), y_num_sq_8_15(x), y_num_15(x), y_num_sq_9_14(x));
    lemma_horner_level(x, 0x9fc4018bd96684be88c9e221e4da1bb8f3abd16679dc26c1e8b6e6a1f20cabe69d65201c78607a360370e577bdba587int, 0x1514f6f91bcd3282b8c73de6ea5f51749ee271a4feb8a84cecceee11b6a08900090a200d0fe5c532acdac44317bece7cint, 0x245a394ad1eca9b72fc00ae7be315dc757b3b080d4c158013e6632d3c40659cc6cf90ad1c232a6442d9d3f5db980133int, 0xcff5c68ebb5a9f247df4b95b2e23cba7e3124e0fe29e4e182e3b29d105c3de9c670ed402b9442ceb001217afa41e376int, 0xdf57ff173c4529f8331465921c9a75967b0d3905063814ae0c06082f1023e36bd2bfd08f96a429c22862e051d4c19dint, y_num_sq_8_13(x), y_num_13(x), y_num_sq_9_12(x), y_num_sq_8_14(x), y_num_14(x), y_num_sq_9_13(x));
    lemma_horner_level(x, 0x9fc4018bd96684be88c9e221e4da1bb8f3abd16679dc26c1e8b6e6a1f20cabe69d65201c78607a360370e577bdba587int, 0x8d83e012edefc7c75f374947ab1a37a0a098e878b917338be05753d755c2922c1652fbd6cdc3c79a57133d102238e13int, 0xb182cac101b9399d155096004f53f447aa7b12a3426b08ec02710e807b4633f06c851c1919211f20d4c04f00b971ef8int, 0x62e301adc1c1c61860a501d99c7727ec1660c919e2735aa600ff384ad9d3fb2dff9a3a2f61bd75eb52ff9cf6bbb8ba1int, 0x44299784fb9a88c295bccc51b133cdcc6d0daa960b948193f8ec2d1f7e8b59dba2d6f55ec23737dec8456b039377f02int, y_num_sq_8_12(x), y_num_12(x), y_num_sq_9_11(x), y_num_sq_8_13(x), y_num_13(x), y_num_sq_9_12(x));
    lemma_horner_level(x, 0x9fc4018bd96684be88c9e221e4da1bb8f3abd16679dc26c1e8b6e6a1f20cabe69d65201c78607a360370e577bdba587int, 0x19a2721823b320799b1e40c105f306c5f99ed5c157ebd19434feb82b03b78998c953007e10eee509b790c7ef9b02c2c5int, 0x18b46a908f36f6deb918c143fed2edcc523559b8aaf0c2462e6bfe7f911f643249d9cdf41b44d606ce07c8a4d0074d8eint, 0x1964102ebc8dd151336ee570425440ee0bb5fa527c0c4bde952b11dd0d411620f045274d64d77dff1e7c90c1db123714int, 0x97c83bb2ee5121dde87fe907f4b59635ca48064a6a9729afa1e6b434ed307c47a4c652b3ae6771cc0bb8f7252b2a093int, y_num_sq_8_11(x), y_num_11(x), y_num_sq_9_10(x), y_num_sq_8_12(x), y_num_12(x), y_num_sq_9_11(x));
    lemma_horner_level(x, 0x9fc4018bd96684be88c9e221e4da1bb8f3abd16679dc26c1e8b6e6a1f20cabe69d65201c78607a360370e577bdba587int, 0xbfb9d5ee7615a9fd8866c95d3757ca657744d47c67892ebe88c52da48949eca820659b049ffe51d35eb22a838787d02int, 0x19713e47937cd1be0dfd0b8f1d43fb93cd2fcbcb6caf493fd1183e416389e61031bf3a5cce3fbafce813711ad011c132int, 0x819dec8af9780e8b7e3b99892980c8f4890b1c46417f3744dfa5a477a2a4f550427e2a21d47d2225c19ed93e5301816int, 0x9c505b6a06d9a8b3e02fd5aa818aab0823abf9e6967dcf6e45b7ae88f3b9b3d99647f9060d245b25abc76f98d752356int, y_num_sq_8_10(x), y_num_10(x), y_num_sq_9_9(x), y_num_sq_8_11(x), y_num_11(x), y_num_sq_9_10(x));
    lemma_horner_level(x, 0x9fc4018bd96684be88c9e221e4da1bb8f3abd16679dc26c1e8b6e6a1f20cabe69d65201c78607a360370e577bdba587int, 0x491c928401ba4c11966a77850c09cc4b3bbc21681fa0d5246de9ce1c72d3ffb1a4e0146ffe349182f1c21e1422d2b73int, 0xe1bba7a1186bdb5223abde7ada14a23c42a0ca7915af6fe06985e7ed1e4d43b9b3f7055dd4eba6f2bafaaebca731c30int, 0xc98337221ddff94eea44b2bf58d2a957a600ea3e34cbdbdbd2f8e1dd9e58588de06b2a267b640362545b1427bfa3692int, 0x56ade64b4fbc82a6e183add82ab97e5a2f8992589ab49602e0fd18983ce41082e6e63bf52b1330220c5b51c9980894dint, y_num_sq_8_9(x), y_num_9(x), y_num_sq_9_8(x), y_num_sq_8_10(x), y_num_10(x), y_num_sq_9_9(x));
    lemma_horner_level(x, 0x9fc4018bd96684be88c9e221e4da1bb8f3abd16679dc26c1e8b6e6a1f20cabe69d65201c78607a360370e577bdba587int, 0x16f7f8ac81ff7b3fe9482a5cdc5d68e9a8890bc0f9d27868e500b8f49faddd93cb61ac5c4b3b150617e182840f821244int, 0x9fc4018bd96684be88c9e221e4da1bb8f3abd16679dc26c1e8b6e6a1f20cabe69d65201c78607a360370e577bdba587int, 0xf8b73c95ac037276fc230f6683161952be6b8a634c9275b90f15095c282bd6bebf7aaa187d4f9164eb336711eaaa95dint, 0x3d5934c12f5df3d60e3074d3d6ea4071df6d388ff03055db290b2582cd7a60a4ed19700139a81b879013df5e85bacdeint, y_num_sq_8_8(x), y_num_8(x), y_num_sq_9_7(x), y_num_sq_8_9(x), y_num_9(x), y_num_sq_9_8(x));
    lemma_horner_level(x, 0x9fc4018bd96684be88c9e221e4da1bb8f3abd16679dc26c1e8b6e6a1f20cabe69d65201c78607a360370e577bdba587int, 0x15a7c9a8d7a1bfce96da0944dbd1d1ec2326754884ca0ab05e3eab6dfa38235b076a82d7682a38526ab96fc3a6f50c7dint, 0x987c8d5333ab86fde9926bd2ca6c674170a05bfe3bdd81ffd038da6c26c842642f64550fedfe935a15e4ca31870fb29int, 0x120a9648d3fcd8a443632bc13e315d77c7b585f9a8efebc88be20e9bef363798722cc23a94cb146a6fb9df5799a6f2adint, 0x3a8da8653592199572bb64fc6b2f8e46d34be1ebba892131b218cea27a5dce59b3a6da6917b9fec872e3ee8f71d516dint, y_num_sq_8_7(x), y_num_7(x), y_num_sq_9_6(x), y_num_sq_8_8(x), y_num_8(x), y_num_sq_9_7(x));
    lemma_horner_level(x, 0x9fc4018bd96684be88c9e221e4da1bb8f3abd16679dc26c1e8b6e6a1f20cabe69d65201c78607a360370e577bdba587int, 0x10ce4d7c70eb512a6bbbc736ddf12513e42c632b899e02e7e7a112128db968b1457ae34ea199293038a1d3dd2351867int, 0x4ab0b9bcfac1bbcb2c977d027796b3ce75bb8ca2be184cb5231413c4d634f3747a87ac2460f415ec961f8855fe9d6f2int, 0x16fcc241359e838167b1019e03fda9cb7082cfe6313f9992239717bc134fafea0886a50e666c3520502b46ffda5a970eint, 0x1cae2c6177f69a59bfc848af80be5b3006f7ea94a6aa45efc95827d570f8442a6225efb9fc4b393a1538349e7e076cfint, y_num_sq_8_6(x), y_num_6(x), y_num_sq_9_5(x), y_num_sq_8_7(x), y_num_7(x), y_num_sq_9_6(x));
    lemma_horner_level(x, 0x9fc4018bd96684be88c9e221e4da1bb8f3abd16679dc26c1e8b6e6a1f20cabe69d65201c78607a360370e577bdba587int, 0xee24eb92874e7c120648978a1919204a9f3d64f479c997ad065b237cdc22a0a53c014bf5017d948d7b683d52cb66218int, 0x16603fca40634b6a2211e11db8f0a6a074a7d0d4afadb7bd76505c3d3ad5544e203f6326c95a807299b23ab13633a5f0int, 0xe06c1536e4a4a9062f2e4feed5fd65a21e92ef21ef1ce722152447f6046a85b86daa3270b3c82ee7223c219eb2a2340int, 0x8979799ae9eadfc55a242330326c97f77eece9cf0499e668254d87dc9557e723dfe699b715be1dc8317d5667e03d828int, y_num_sq_8_5(x), y_num_5(x), y_num_sq_9_4(x), y_num_sq_8_6(x), y_num_6(x), y_num_sq_9_5(x));
    lemma_horner_level(x, 0x9fc4018bd96684be88c9e221e4da1bb8f3abd16679dc26c1e8b6e6a1f20cabe69d65201c78607a360370e577bdba587int, 0x142e80e963091075f81020b68d1ac3623db3b71a4b1cb4445773a43af666ea341216903d3c8fbc750d675a941bf057f7int, 0x8cc03fdefe0ff135caf4fe2a21529c4195536fbe3ce50b879833fd221351adc2ee7f8dc099040a841b6daecf2e8fedbint, 0x144fa5392583fa260a35b51e4e2583bc4dfe084b50429dda05a0f45a5a5f2173fc9b9f93a17b2ab274c70bbb3cd5cce1int, 0x360c08e362f3738f230d7754af37c7a44aef0c1af1dac63e4f504526ec63315fc39680e163af5eab70489edf1550435int, y_num_sq_8_4(x), y_num_4(x), y_num_sq_9_3(x), y_num_sq_8_5(x), y_num_5(x), y_num_sq_9_4(x));
    lemma_horner_level(x, 0x9fc4018bd96684be88c9e221e4da1bb8f3abd16679dc26c1e8b6e6a1f20cabe69d65201c78607a360370e577bdba587int, 0x12951352ce3ebc6095c297b6b66bb8ace7b5bbaa9fb85359449a9bc29bfcba9a0696fb7b36b104d4e3c088b33e1d5faeint, 0x1f86376e8981c217898751ad8746757d42aa7b90eeb791c09e4a3ec03251cf9de405aba9ec61deca6355c77b0e5f4cbint, 0xef8c1c79ae8cc38055e78c3551113059659f05392fb127489024d074bbf86537c6e1d989a9aec2525d0cf9890029a9bint, 0xc1ae28cddf667ef6a838250535450194ee56a9223dd54cda5c1a6112a595c020f1daf80479caf54e96aac9c8b97aeeint, y_num_sq_8_3(x), y_num_3(x), y_num_sq_9_2(x), y_num_sq_8_4(x), y_num_4(x), y_num_sq_9_3(x));
    lemma_horner_level(x, 0x9fc4018bd96684be88c9e221e4da1bb8f3abd16679dc26c1e8b6e6a1f20cabe69d65201c78607a360370e577bdba587int, 0xb208e0b45d43b34180a88e46224fcbbc719745633ccbd0cc71301a151eb97f7d79dcd1871ccea6e7d98a0f598f232b4int, 0xcc786baa966e66f4a384c86a3b49942552e2d658a31ce2c344be4b91400da7d26d521628b00523b8dfe240c72de1f6int, 0x956ef85510689a3109560818ad924c8b908a3d1bbbe22225827b36e9b61c81e8c363e704fd06c332ff224b5e5010035int, 0x4e83c018ba5ac57c02287b422b67c6b8bc7e3411924f26555e143f304c4bb56d61f99d6e8e3f4ade608ad4c2b48cb1int, y_num_sq_8_2(x), y_num_2(x), y_num_sq_9_1(x), y_num_sq_8_3(x), y_num_3(x), y_num_sq_9_2(x));
    lemma_horner_level(x, 0x9fc4018bd96684be88c9e221e4da1bb8f3abd16679dc26c1e8b6e6a1f20cabe69d65201c78607a360370e577bdba587int, 0xfcca2e308e3e4f8e22b1e4f88d16d82bb16ae4fba84542f6793871f7ccd0027bded51299f39c29ed9ce7e7a3c6f15e1int, 0x134996a104ee5811d51036d776fb46831223e96c254f383d0f906343eb67ad34d6c56711962fa8bfe097e75a2e41c696int, 0x8f11c23e991cfa5b42ae469ce4d426c721d40791f6c170d435aa3360a2e56580ee773ed4435ff6ce6cc815afc21afa2int, 0x767fc7185de95ffde729e5361c9ae7bf5af427a395fc05896182b524747cbc59570e8a128d526ad15287e637baa0291int, y_num_sq_8_1(x), y_num_1(x), y_num_sq_9_0(x), y_num_sq_8_2(x), y_num_2(x), y_num_sq_9_1(x));
    lemma_horner_level(x, 0x9fc4018bd96684be88c9e221e4da1bb8f3abd16679dc26c1e8b6e6a1f20cabe69d65201c78607a360370e577bdba587int, 0x7501682e2d8ebf7e557fedf68a95dd42e93bae8e91f1be509cee0f328cec8c97f061d2572ac402e605dd1455c7c4f48int, 0x90d97c81ba24ee0259d1f094980dcfa11ad138e48a869522b52af6c956543d3cd0c7aee9b3ba3c2be9845719707bb33int, 0x0int, 0x379eee774e6b9e221cd75a8f6ad3b6938a546a76f18e2916fb416d2e20886d30ca8ac5b0e5055868a54990e9477d6d7int, y_num_sq_8_0(x), y_num_0(x), times(x, y_num_sq_9_0(x)), y_num_sq_8_1(x), y_num_1(x), y_num_sq_9_0(x));
    lemma_product_level(x, 0x9fc4018bd96684be88c9e221e4da1bb8f3abd16679dc26c1e8b6e6a1f20cabe69d65201c78607a360370e577bdba587int, y_num_8(x), y_num_9(x), y_num_0(x), y_num_sq_8_0(x), y_num_sq_9_0(x));
}

pub(crate) proof fn lemma_y_num_sq_step_7(x: int)
    ensures
        congruent(y_num_sq_7_0(x), times(y_num_7(x), y_num_0(x))),
{
    lemma_times_zero(x);
    lemma_y_num_sq_step_8(x);
    lemma_congruent_refl(y_num_sq_8_15(x), 0x987c8d5333ab86fde9926bd2ca6c674170a05bfe3bdd81ffd038da6c26c842642f64550fedfe935a15e4ca31870fb29int * 0int + y_num_sq_8_15(x));
    lemma_horner_level(x, 0x987c8d5333ab86fde9926bd2ca6c674170a05bfe3bdd81ffd038da6c26c842642f64550fedfe935a15e4ca31870fb29int, 0x1880fe0904b5cdebd70e429445b351892de665ce521867363ded3361df57eb7abe77f324f00d4fac01a522cc8b8b288bint, 0x15e6be4e990f03ce4ea50b3b42df2eb5cb181d8f84965a3957add4fa95af01b2b665027efec01c7704b456be69c8b604int, 0x108185f06418bf77df28d832c54780dde38aea9496c4dcc4c7488ebac470203991cba99f0712dfbfdc5f5ca27e412057int, 0x806d844c6bf3534dde7e345818b1d9f210f5d82749b153b723bbb63ac6751df370cf67c2fb69ee8b26a27ed2f831f50int, y_num_sq_7_15(x), y_num_15(x), y_num_sq_8_14(x), y_num_sq_8_15(x), 0int, y_num_sq_8_15(x));
    lemma_horner_level(x, 0x987c8d5333ab86fde9926bd2ca6c674170a05bfe3bdd81ffd038da6c26c842642f64550fedfe935a15e4ca31870fb29int, 0x13a2afc6e6b8d1aead56d913c2e2f17b5c98a02b9c7274852310edf49ec57e1ba9003a7da59299dd446cb6f2df8baceeint, 0x5c129645e44cf1102a159f748c4a3fc5e673d81d7e86568d9ab0f5d396a7ce46ba1049b6579afb7866b1e715475224bint, 0x1514f6f91bcd3282b8c73de6ea5f51749ee271a4feb8a84cecceee11b6a08900090a200d0fe5c532acdac44317bece7cint, 0x21be821269d62245e6e75968afba1d960a831288c1025313bc6cf185f71c0b70abbf4f4d604d95b7e2595585ae279b3int, y_num_sq_7_14(x), y_num_14(x), y_num_sq_8_13(x), y_num_sq_7_15(x), y_num_15(x), y_num_sq_8_14(x));
    lemma_horner_level(x, 0x987c8d5333ab86fde9926bd2ca6c674170a05bfe3bdd81ffd038da6c26c842642f64550fedfe935a15e4ca31870fb29int, 0x73d997e572dc1d8f514384e539f83fe412403bb955ee49c18a60a2c48588b8bf5ef4cddded72f69dd010e08bc8f4bf6int, 0x245a394ad1eca9b72fc00ae7be315dc757b3b080d4c158013e6632d3c40659cc6cf90ad1c232a6442d9d3f5db980133int, 0x8d83e012edefc7c75f374947ab1a37a0a098e878b917338be05753d755c2922c1652fbd6cdc3c79a57133d102238e13int, 0xd52afd11c4bad2bce79dfdd9154ec0267c7f1157023f6e5240061049008c7dfcba0942fb29d63c08bed7bab6145cd8int, y_num_sq_7_13(x), y_num_13(x), y_num_sq_8_12(x), y_num_sq_7_14(x), y_num_14(x), y_num_sq_8_13(x));
    lemma_horner_level(x, 0x987c8d5333ab86fde9926bd2ca6c674170a05bfe3bdd81ffd038da6c26c842642f64550fedfe935a15e4ca31870fb29int, 0x2abe5ad65e7274ff803ae26c788c984e891c3890e496dacf03e7522701187f0e4b4625cfc98e1b60d9584415e2a1db4int, 0xb182cac101b9399d155096004f53f447aa7b12a3426b08ec02710e807b4633f06c851c1919211f20d4c04f00b971ef8int, 0x19a2721823b320799b1e40c105f306c5f99ed5c157ebd19434feb82b03b78998c953007e10eee509b790c7ef9b02c2c5int, 0x410e9137c2f37b48edd01809a59c9d61a0455a01a03848764b68a0abc0570bfa2d28f0920e3f91ead2673567818485bint, y_num_sq_7_12(x), y_num_12(x), y_num_sq_8_11(x), y_num_sq_7_13(x), y_num_13(x), y_num_sq_8_12(x));
    lemma_horner_level(x, 0x987c8d5333ab86fde9926bd2ca6c674170a05bfe3bdd81ffd038da6c26c842642f64550fedfe935a15e4ca31870fb29int, 0x51c74209617250e8b69bddc664baad4668d776d8ec1da879b96bd3297500c08024f1e7afd33d5c1e94b3512ae4f2942int, 0x18b46a908f36f6deb918c143fed2edcc523559b8aaf0c2462e6bfe7f911f643249d9cdf41b44d606ce07c8a4d0074d8eint, 0xbfb9d5ee7615a9fd8866c95d3757ca657744d47c67892ebe88c52da48949eca820659b049ffe51d35eb22a838787d02int, 0x90dde55f3da40ca260c4b06e8b0b8883fe09b914458be20b55f366b9639fdbb575ba84814321877ebed5f70b3f6ec7aint, y_num_sq_7_11(x), y_num_11(x), y_num_sq_8_10(x), y_num_sq_7_12(x), y_num_12(x), y_num_sq_8_11(x));
    lemma_horner_level(x, 0x987c8d5333ab86fde9926bd2ca6c674170a05bfe3bdd81ffd038da6c26c842642f64550fedfe935a15e4ca31870fb29int, 0xe28e72904c5315144f6b84cbf1ee6b0faa899f5517def25bf2b45a79dddf3067e79df16d39de8ed43e98dc705ee2cc5int, 0x19713e47937cd1be0dfd0b8f1d43fb93cd2fcbcb6caf493fd1183e416389e61031bf3a5cce3fbafce813711ad011c132int, 0x491c928401ba4c11966a77850c09cc4b3bbc21681fa0d5246de9ce1c72d3ffb1a4e0146ffe349182f1c21e1422d2b73int, 0x953129c8a15a038de11f430fd194f07894160d5caf3f01afbcb958bf8701f547dc59840a12f970f9e2701936938e110int, y_num_sq_7_10(x), y_num_10(x), y_num_sq_8_9(x), y_num_sq_7_11(x), y_num_11(x), y_num_sq_8_10(x));
    lemma_horner_level(x, 0x987c8d5333ab86fde9926bd2ca6c674170a05bfe3bdd81ffd038da6c26c842642f64550fedfe935a15e4ca31870fb29int, 0x246d0cb69b8a03972f21fbfb2d887e38bbbf1b285e0f43b205dd43ab7e1adef01a51485959998b2a21a4da98b65be83int, 0xe1bba7a1186bdb5223abde7ada14a23c42a0ca7915af6fe06985e7ed1e4d43b9b3f7055dd4eba6f2bafaaebca731c30int, 0x16f7f8ac81ff7b3fe9482a5cdc5d68e9a8890bc0f9d27868e500b8f49faddd93cb61ac5c4b3b150617e182840f821244int, 0x52bae69a24d918452a030e41dd3610317a0a305271e905685985e723657192452e70f005a3bc3d963a397e89cdfb653int, y_num_sq_7_9(x), y_num_9(x), y_num_sq_8_8(x), y_num_sq_7_10(x), y_num_10(x), y_num_sq_8_9(x));
    lemma_horner_level(x, 0x987c8d5333ab86fde9926bd2ca6c674170a05bfe3bdd81ffd038da6c26c842642f64550fedfe935a15e4ca31870fb29int, 0x1944fd08db46a6f8ea50e6c8797246607e97649760a42998309b4840053a0f1d9ca843743b895c3a65b9002fb443264dint, 0x9fc4018bd96684be88c9e221e4da1bb8f3abd16679dc26c1e8b6e6a1f20cabe69d65201c78607a360370e577bdba587int, 0x15a7c9a8d7a1bfce96da0944dbd1d1ec2326754884ca0ab05e3eab6dfa38235b076a82d7682a38526ab96fc3a6f50c7dint, 0x3a8da8653592199572bb64fc6b2f8e46d34be1ebba892131b218cea27a5dce59b3a6da6917b9fec872e3ee8f71d516dint, y_num_sq_7_8(x), y_num_8(x), y_num_sq_8_7(x), y_num_sq_7_9(x), y_num_9(x), y_num_sq_8_8(x));
    lemma_horner_level(x, 0x987c8d5333ab86fde9926bd2ca6c674170a05bfe3bdd81ffd038da6c26c842642f64550fedfe935a15e4ca31870fb29int, 0x48757cafcac0f0c5dcf91d62ca9d1abfba3813ecc94f2beedfafb24ea9d547e06c02431bae9293e12722d7075ba27f6int, 0x987c8d5333ab86fde9926bd2ca6c674170a05bfe3bdd81ffd038da6c26c842642f64550fedfe935a15e4ca31870fb29int, 0x10ce4d7c70eb512a6bbbc736ddf12513e42c632b899e02e7e7a112128db968b1457ae34ea199293038a1d3dd2351867int, 0x37e2b5f4b575f159974ebd3b19e5a6ec2bce90fd134ef71a097b481f5bf84cc4a3f8e72d19010999ee8e83a6b531706int, y_num_sq_7_7(x), y_num_7(x), y_num_sq_8_6(x), y_num_sq_7_8(x), y_num_8(x), y_num_sq_8_7(x));
    lemma_horner_level(x, 0x987c8d5333ab86fde9926bd2ca6c674170a05bfe3bdd81ffd038da6c26c842642f64550fedfe935a15e4ca31870fb29int, 0x12aa9853ce272396dc535095aeb365c7ccbbfad2825e24b55188186bc98b3825ce47b59d867a2ee5e2ec9fefc9fd762bint, 0x4ab0b9bcfac1bbcb2c977d027796b3ce75bb8ca2be184cb5231413c4d634f3747a87ac2460f415ec961f8855fe9d6f2int, 0xee24eb92874e7c120648978a1919204a9f3d64f479c997ad065b237cdc22a0a53c014bf5017d948d7b683d52cb66218int, 0x1b5fa7af5a3e390a4948e08361a92f9f163dfdcc681f4336cd8a5d38a1ec670f8afc5dfbec3903cd1423ef4186fdc0dint, y_num_sq_7_6(x), y_num_6(x), y_num_sq_8_5(x), y_num_sq_7_7(x), y_num_7(x), y_num_sq_8_6(x));
    lemma_horner_level(x, 0x987c8d5333ab86fde9926bd2ca6c674170a05bfe3bdd81ffd038da6c26c842642f64550fedfe935a15e4ca31870fb29int, 0x12fa7f580fc59a599bd3ef3f950626ada4de22851f8a209c7eac563f477ba0b3a7847a6ec4ca0a969c7362fbf7fcd61cint, 0x16603fca40634b6a2211e11db8f0a6a074a7d0d4afadb7bd76505c3d3ad5544e203f6326c95a807299b23ab13633a5f0int, 0x142e80e963091075f81020b68d1ac3623db3b71a4b1cb4445773a43af666ea341216903d3c8fbc750d675a941bf057f7int, 0x8336047c3564eeb7a6081d8791ba5f66ada97a319b74acb97c609ce92d11e982cfa202fe278cf7e274f98e3dca32fe1int, y_num_sq_7_5(x), y_num_5(x), y_num_sq_8_4(x), y_num_sq_7_6(x), y_num_6(x), y_num_sq_8_5(x));
    lemma_horner_level(x, 0x987c8d5333ab86fde9926bd2ca6c674170a05bfe3bdd81ffd038da6c26c842642f64550fedfe935a15e4ca31870fb29int, 0x4f55deb7661ccd58491429269e76d4a46a75a3a0993db6f31ece241cd46e05ae900d56a801b5594bc6e0ae191a8a417int, 0x8cc03fdefe0ff135caf4fe2a21529c4195536fbe3ce50b879833fd221351adc2ee7f8dc099040a841b6daecf2e8fedbint, 0x12951352ce3ebc6095c297b6b66bb8ace7b5bbaa9fb85359449a9bc29bfcba9a0696fb7b36b104d4e3c088b33e1d5faeint, 0x3395a5edd101108f0ff0f6008129ba2c6dc5537e84f9a078df2b0e705b949d44a77117ebf5fa0d4ec54cefcf960d0feint, y_num_sq_7_4(x), y_num_4(x), y_num_sq_8_3(x), y_num_sq_7_5(x), y_num_5(x), y_num_sq_8_4(x));
    lemma_horner_level(x, 0x987c8d5333ab86fde9926bd2ca6c674170a05bfe3bdd81ffd038da6c26c842642f64550fedfe935a15e4ca31870fb29int, 0xe6989c1cd4d9ee4f5399ce9d6e486fbf9597b36084fb2414f35bf6286dc5a58024db04bcff88f898a1c339f3e0a838bint, 0x1f86376e8981c217898751ad8746757d42aa7b90eeb791c09e4a3ec03251cf9de405aba9ec61deca6355c77b0e5f4cbint, 0xb208e0b45d43b34180a88e46224fcbbc719745633ccbd0cc71301a151eb97f7d79dcd1871ccea6e7d98a0f598f232b4int, 0xb8db22cd1a2e19bdee2442b3af45e0c7ce36abe7f6d043770a531b1315710601e25a62083b181449d49ff79cb0c604int, y_num_sq_7_3(x), y_num_3(x), y_num_sq_8_2(x), y_num_sq_7_4(x), y_num_4(x), y_num_sq_8_3(x));
    lemma_horner_level(x, 0x987c8d5333ab86fde9926bd2ca6c674170a05bfe3bdd81ffd038da6c26c842642f64550fedfe935a15e4ca31870fb29int, 0x3af72255db8c6bcf9bcfdaabb21c21acc2e7842be18100f3c763477da067f58dacc619313dc33689e56203584e0a8aint, 0xcc786baa966e66f4a384c86a3b49942552e2d658a31ce2c344be4b91400da7d26d521628b00523b8dfe240c72de1f6int, 0xfcca2e308e3e4f8e22b1e4f88d16d82bb16ae4fba84542f6793871f7ccd0027bded51299f39c29ed9ce7e7a3c6f15e1int, 0x4aeffb37b500754372336fc18b9da5f17865e28045ebb474b2296b3f31171dc625fd4addfcae94d1950038612a4937int, y_num_sq_7_2(x), y_num_2(x), y_num_sq_8_1(x), y_num_sq_7_3(x), y_num_3(x), y_num_sq_8_2(x));
    lemma_horner_level(x, 0x987c8d5333ab86fde9926bd2ca6c674170a05bfe3bdd81ffd038da6c26c842642f64550fedfe935a15e4ca31870fb29int, 0xb122d055c50e47d11dac7125a1869ab53067468a10e601aa3c99457942762cec9b8a24ce7434be71fcca8a835a1cc7fint, 0x134996a104ee5811d51036d776fb46831223e96c254f383d0f906343eb67ad34d6c56711962fa8bfe097e75a2e41c696int, 0x7501682e2d8ebf7e557fedf68a95dd42e93bae8e91f1be509cee0f328cec8c97f061d2572ac402e605dd1455c7c4f48int, 0x7119a48f2a6968fbbf123f410260c8180a08ce4bcf51389e9b81f3313ab49771f503e830c8be3dd401a2b862496286dint, y_num_sq_7_1(x), y_num_1(x), y_num_sq_8_0(x), y_num_sq_7_2(x), y_num_2(x), y_num_sq_8_1(x));
    lemma_horner_level(x, 0x987c8d5333ab86fde9926bd2ca6c674170a05bfe3bdd81ffd038da6c26c842642f64550fedfe935a15e4ca31870fb29int, 0x14d6692356c24e899a9f6c87278f3a56dbab511427509f4788bf2fd31186506855bdb7cec3f352a4f6d29a50ee3ebfd8int, 0x90d97c81ba24ee0259d1f094980dcfa11ad138e48a869522b52af6c956543d3cd0c7aee9b3ba3c2be9845719707bb33int, 0x0int, 0x3516304049eaa2453c7b6fa1afb2a002571c6a025e2586fb764bfc2e6715711f8f194d76d05a83b31b6569a4384b4f9int, y_num_sq_7_0(x), y_num_0(x), times(x, y_num_sq_8_0(x)), y_num_sq_7_1(x), y_num_1(x), y_num_sq_8_0(x));
    lemma_product_level(x, 0x987c8d5333ab86fde9926bd2ca6c674170a05bfe3bdd81ffd038da6c26c842642f64550fedfe935a15e4ca31870fb29int, y_num_7(x), y_num_8(x), y_num_0(x), y_num_sq_7_0(x), y_num_sq_8_0(x));
}

pub(crate) proof fn lemma_y_num_sq_step_6(x: int)
    ensures
        congruent(y_num_sq_6_0(x), times(y_num_6(x), y_num_0(x))),
{
    lemma_times_zero(x);
    lemma_y_num_sq_step_7(x);
    lemma_congruent_refl(y_num_sq_7_15(x), 0x4ab0b9bcfac1bbcb2c977d027796b3ce75bb8ca2be184cb5231413c4d634f3747a87ac2460f415ec961f8855fe9d6f2int * 0int + y_num_sq_7_15(x));
    lemma_horner_level(x, 0x4ab0b9bcfac1bbcb2c977d027796b3ce75bb8ca2be184cb5231413c4d634f3747a87ac2460f415ec961f8855fe9d6f2int, 0xf8942051dda9f78a9b392da80b697037300641e1863f9d611b15d9a11332ae7129ddc56c327e23b6f2a034cfca92392int, 0x15e6be4e990f03ce4ea50b3b42df2eb5cb181d8f84965a3957add4fa95af01b2b665027efec01c7704b456be69c8b604int, 0x13a2afc6e6b8d1aead56d913c2e2f17b5c98a02b9c7274852310edf49ec57e1ba9003a7da59299dd446cb6f2df8baceeint, 0x3ee7ee8f95740b6956cb5e216dc2a0ab629488b7feeca6ed9219908dbd10b531a1dc3e784493dfb02da7ecc44a9d36cint, y_num_sq_6_15(x), y_num_15(x), y_num_sq_7_14(x), y_num_sq_7_15(x), 0int, y_num_sq_7_15(x));
    lemma_horner_level(x, 0x4ab0b9bcfac1bbcb2c977d027796b3ce75bb8ca2be184cb5231413c4d634f3747a87ac2460f415ec961f8855fe9d6f2int, 0x1390f0624feab1bcd2b6841f8a4379b767474d1ce0abede68bb8988adade4cbc753deabcbf50a08fc16de075585523cint, 0x5c129645e44cf1102a159f748c4a3fc5e673d81d7e86568d9ab0f5d396a7ce46ba1049b6579afb7866b1e715475224bint, 0x73d997e572dc1d8f514384e539f83fe412403bb955ee49c18a60a2c48588b8bf5ef4cddded72f69dd010e08bc8f4bf6int, 0x1087476b8b165fdb03add39b2f044b2b744f55c1a9778b3d90968b2504c060fafcddc5b4d21f3cc69876814def643e0int, y_num_sq_6_14(x), y_num_14(x), y_num_sq_7_13(x), y_num_sq_6_15(x), y_num_15(x), y_num_sq_7_14(x));
    lemma_horner_level(x, 0x4ab0b9bcfac1bbcb2c977d027796b3ce75bb8ca2be184cb5231413c4d634f3747a87ac2460f415ec961f8855fe9d6f2int, 0xf60214f71333d0bd44fa6a4e29643a42cba89509ba3550870242747db264603f6c06a441499d71913aa2b85117f9fdint, 0x245a394ad1eca9b72fc00ae7be315dc757b3b080d4c158013e6632d3c40659cc6cf90ad1c232a6442d9d3f5db980133int, 0x2abe5ad65e7274ff803ae26c788c984e891c3890e496dacf03e7522701187f0e4b4625cfc98e1b60d9584415e2a1db4int, 0x6869bd7d9f99be3bfbe70758584a01580f5e7f5fb3733b1c59cf4b585e8889b6de6c3a6c134a07c79618bce053b7c7int, y_num_sq_6_13(x), y_num_13(x), y_num_sq_7_12(x), y_num_sq_6_14(x), y_num_14(x), y_num_sq_7_13(x));
    lemma_horner_level(x, 0x4ab0b9bcfac1bbcb2c977d027796b3ce75bb8ca2be184cb5231413c4d634f3747a87ac2460f415ec961f8855fe9d6f2int, 0x248a63500bcf1ffcf06241cd8b7a0ae915cd5b58941601186445751d1c35f5b6fe191c2aa311e75229d923b8761918int, 0xb182cac101b9399d155096004f53f447aa7b12a3426b08ec02710e807b4633f06c851c1919211f20d4c04f00b971ef8int, 0x51c74209617250e8b69bddc664baad4668d776d8ec1da879b96bd3297500c08024f1e7afd33d5c1e94b3512ae4f2942int, 0x1fddac2ce706780a0d1f18bdd8d9504d676507ea21aba82dc808c981e0f25e7791e34eee79842ea9d8e4fff56bcf3ceint, y_num_sq_6_12(x), y_num_12(x), y_num_sq_7_11(x), y_num_sq_6_13(x), y_num_13(x), y_num_sq_7_12(x));
    lemma_horner_level(x, 0x4ab0b9bcfac1bbcb2c977d027796b3ce75bb8ca2be184cb5231413c4d634f3747a87ac2460f415ec961f8855fe9d6f2int, 0x8cc66e970cf4bb22df80e2c88f1a675ce0e6c2b0f2fcd28b8029cc586f6914f64c69a56c09d4994ddc20ed2d2e0c52eint, 0x18b46a908f36f6deb918c143fed2edcc523559b8aaf0c2462e6bfe7f911f643249d9cdf41b44d606ce07c8a4d0074d8eint, 0xe28e72904c5315144f6b84cbf1ee6b0faa899f5517def25bf2b45a79dddf3067e79df16d39de8ed43e98dc705ee2cc5int, 0x46f5435a8542f1ec745251360e9896b34c3cca21799ce3fdf3a952bb7b674da2e8ac36946f48b94fd0c821dfa8f4379int, y_num_sq_6_11(x), y_num_11(x), y_num_sq_7_10(x), y_num_sq_6_12(x), y_num_12(x), y_num_sq_7_11(x));
    lemma_horner_level(x, 0x4ab0b9bcfac1bbcb2c977d027796b3ce75bb8ca2be184cb5231413c4d634f3747a87ac2460f415ec961f8855fe9d6f2int, 0x151114deba53d31dcea016d16f31029fe4b806bbcfcedcc9983fc156c117ba2403a6d7f9ef6b94f7d05e3e3bb1779c79int, 0x19713e47937cd1be0dfd0b8f1d43fb93cd2fcbcb6caf493fd1183e416389e61031bf3a5cce3fbafce813711ad011c132int, 0x246d0cb69b8a03972f21fbfb2d887e38bbbf1b285e0f43b205dd43ab7e1adef01a51485959998b2a21a4da98b65be83int, 0x49139ec847780276da3c7381dfb0ca594128d5f412fd6cab5baef1e0d2e2436e7b27e45ee0b5462d24081b10213adeaint, y_num_sq_6_10(x), y_num_10(x), y_num_sq_7_9(x), y_num_sq_6_11(x), y_num_11(x), y_num_sq_7_10(x));
    lemma_horner_level(x, 0x4ab0b9bcfac1bbcb2c977d027796b3ce75bb8ca2be184cb5231413c4d634f3747a87ac2460f415ec961f8855fe9d6f2int, 0x11026e7315761435d780470ec78bb57bb31b8a9bce9b33f5f489474a7df6b359b9135f0d5232a085970e3460a3435d46int, 0xe1bba7a1186bdb5223abde7ada14a23c42a0ca7915af6fe06985e7ed1e4d43b9b3f7055dd4eba6f2bafaaebca731c30int, 0x1944fd08db46a6f8ea50e6c8797246607e97649760a42998309b4840053a0f1d9ca843743b895c3a65b9002fb443264dint, 0x2885c3649f6c11a12131eb4108f8007aa24b3cba7577b927ae8f9ae8c546323a58a3b2b3ea526c79641dfb81466ab35int, y_num_sq_6_9(x), y_num_9(x), y_num_sq_7_8(x), y_num_sq_6_10(x), y_num_10(x), y_num_sq_7_9(x));
    lemma_horner_level(x, 0x4ab0b9bcfac1bbcb2c977d027796b3ce75bb8ca2be184cb5231413c4d634f3747a87ac2460f415ec961f8855fe9d6f2int, 0x8988c4bc79c2737e7f5f461d9d6e7092ddac31047744c1ab00ec72af6da3143313d2d56efea86b07fd003ae6d9453faint, 0x9fc4018bd96684be88c9e221e4da1bb8f3abd16679dc26c1e8b6e6a1f20cabe69d65201c78607a360370e577bdba587int, 0x48757cafcac0f0c5dcf91d62ca9d1abfba3813ecc94f2beedfafb24ea9d547e06c02431bae9293e12722d7075ba27f6int, 0x1cae2c6177f69a59bfc848af80be5b3006f7ea94a6aa45efc95827d570f8442a6225efb9fc4b393a1538349e7e076ceint, y_num_sq_6_8(x), y_num_8(x), y_num_sq_7_7(x), y_num_sq_6_9(x), y_num_9(x), y_num_sq_7_8(x));
    lemma_horner_level(x, 0x4ab0b9bcfac1bbcb2c977d027796b3ce75bb8ca2be184cb5231413c4d634f3747a87ac2460f415ec961f8855fe9d6f2int, 0x1672e1ee73d95f6c984217b2bbd5398aef841f55bd1fafefd2aa7e9fc554464148cf567bbcdc8482ee22bc0a67448a3eint, 0x987c8d5333ab86fde9926bd2ca6c674170a05bfe3bdd81ffd038da6c26c842642f64550fedfe935a15e4ca31870fb29int, 0x12aa9853ce272396dc535095aeb365c7ccbbfad2825e24b55188186bc98b3825ce47b59d867a2ee5e2ec9fefc9fd762bint, 0x1b5fa7af5a3e390a4948e08361a92f9f163dfdcc681f4336cd8a5d38a1ec670f8afc5dfbec3903cd1423ef4186fdc0dint, y_num_sq_6_7(x), y_num_7(x), y_num_sq_7_6(x), y_num_sq_6_8(x), y_num_8(x), y_num_sq_7_7(x));
    lemma_horner_level(x, 0x4ab0b9bcfac1bbcb2c977d027796b3ce75bb8ca2be184cb5231413c4d634f3747a87ac2460f415ec961f8855fe9d6f2int, 0x12dbc1ed6ec7d3708c877ccce2dd95de593e93966146a1520733bf2af2ee18b2c71115c0e3e6120555a739a51b257ea6int, 0x4ab0b9bcfac1bbcb2c977d027796b3ce75bb8ca2be184cb5231413c4d634f3747a87ac2460f415ec961f8855fe9d6f2int, 0x12fa7f580fc59a599bd3ef3f950626ada4de22851f8a209c7eac563f477ba0b3a7847a6ec4ca0a969c7362fbf7fcd61cint, 0xd68760ddbe8159364a29c82cb9388a70587bb5aa6af6253faf3b0a45130cfe53eb672eca9d407672a21deed22c7caeint, y_num_sq_6_6(x), y_num_6(x), y_num_sq_7_5(x), y_num_sq_6_7(x), y_num_7(x), y_num_sq_7_6(x));
    lemma_horner_level(x, 0x4ab0b9bcfac1bbcb2c977d027796b3ce75bb8ca2be184cb5231413c4d634f3747a87ac2460f415ec961f8855fe9d6f2int, 0xac96d4bfca1023f059dd4bf31f0d30d4e6f7fab4ca73f0b45617e22b9e1339ded5238f29bddc358678be67038c19faaint, 0x16603fca40634b6a2211e11db8f0a6a074a7d0d4afadb7bd76505c3d3ad5544e203f6326c95a807299b23ab13633a5f0int, 0x4f55deb7661ccd58491429269e76d4a46a75a3a0993db6f31ece241cd46e05ae900d56a801b5594bc6e0ae191a8a417int, 0x4044ed148acd1ad688c74439cd79b69caa481d1b316d9c23fb5927ec17155eb5c2e31c6c388ef8de9f1fb2c118883e7int, y_num_sq_6_5(x), y_num_5(x), y_num_sq_7_4(x), y_num_sq_6_6(x), y_num_6(x), y_num_sq_7_5(x));
    lemma_horner_level(x, 0x4ab0b9bcfac1bbcb2c977d027796b3ce75bb8ca2be184cb5231413c4d634f3747a87ac2460f415ec961f8855fe9d6f2int, 0x18116080b52da0eddca7cf790302e282a4e5e0c86852ee68c7f3a693cc81bc11cf3c2eefba84e9755498c8944a9dde5fint, 0x8cc03fdefe0ff135caf4fe2a21529c4195536fbe3ce50b879833fd221351adc2ee7f8dc099040a841b6daecf2e8fedbint, 0xe6989c1cd4d9ee4f5399ce9d6e486fbf9597b36084fb2414f35bf6286dc5a58024db04bcff88f898a1c339f3e0a838bint, 0x19445645bc1fbce223df9090159f7f00975c5a4bdfb1501498d8dd9404cf3189f38c2413dca997c724c4b3d9fb8e696int, y_num_sq_6_4(x), y_num_4(x), y_num_sq_7_3(x), y_num_sq_6_5(x), y_num_5(x), y_num_sq_7_4(x));
    lemma_horner_level(x, 0x4ab0b9bcfac1bbcb2c977d027796b3ce75bb8ca2be184cb5231413c4d634f3747a87ac2460f415ec961f8855fe9d6f2int, 0x58d7f6eb0b6ef8d397db4f6f3824fe54f3d69e15792451412115f5890deaf85f162f387d918f9cb131b6130cf24773cint, 0x1f86376e8981c217898751ad8746757d42aa7b90eeb791c09e4a3ec03251cf9de405aba9ec61deca6355c77b0e5f4cbint, 0x3af72255db8c6bcf9bcfdaabb21c21acc2e7842be18100f3c763477da067f58dacc619313dc33689e56203584e0a8aint, 0x5a8ba05e5b3178cfae61c4053415a48aaf3f19c1a97e0ed1d571a72cee8035d01a6a019bd304211e8351c1646b079cint, y_num_sq_6_3(x), y_num_3(x), y_num_sq_7_2(x), y_num_sq_6_4(x), y_num_4(x), y_num_sq_7_3(x));
    lemma_horner_level(x, 0x4ab0b9bcfac1bbcb2c977d027796b3ce75bb8ca2be184cb5231413c4d634f3747a87ac2460f415ec961f8855fe9d6f2int, 0x67491078c89b24037ac55a016b7442470ac44acc3953f96e30e6ae80fe14e87024ab5f13866df22298084b27b2fdeadint, 0xcc786baa966e66f4a384c86a3b49942552e2d658a31ce2c344be4b91400da7d26d521628b00523b8dfe240c72de1f6int, 0xb122d055c50e47d11dac7125a1869ab53067468a10e601aa3c99457942762cec9b8a24ce7434be71fcca8a835a1cc7fint, 0x24b49eb150126010ecb9cf181859052570a2f076b962def06e4ee4bb0ca39ccdcc3886f53e52d58b3e0a4379eb851aint, y_num_sq_6_2(x), y_num_2(x), y_num_sq_7_1(x), y_num_sq_6_3(x), y_num_3(x), y_num_sq_7_2(x));
    lemma_horner_level(x, 0x4ab0b9bcfac1bbcb2c977d027796b3ce75bb8ca2be184cb5231413c4d634f3747a87ac2460f415ec961f8855fe9d6f2int, 0x1324745f7872c9d55ddf60aec9a808532381512eea88164a50595a2a9beb20064c1c195325393427476dc109c9be1fe3int, 0x134996a104ee5811d51036d776fb46831223e96c254f383d0f906343eb67ad34d6c56711962fa8bfe097e75a2e41c696int, 0x14d6692356c24e899a9f6c87278f3a56dbab511427509f4788bf2fd31186506855bdb7cec3f352a4f6d29a50ee3ebfd8int, 0x3765f4b2482ce218c8d0ca09ea5b138ae652510c0d26e405a30e45ed75d12ea82db8c03dfccb061c5c9cbf202e43943int, y_num_sq_6_1(x), y_num_1(x), y_num_sq_7_0(x), y_num_sq_6_2(x), y_num_2(x), y_num_sq_7_1(x));
    lemma_horner_level(x, 0x4ab0b9bcfac1bbcb2c977d027796b3ce75bb8ca2be184cb5231413c4d634f3747a87ac2460f415ec961f8855fe9d6f2int, 0x1814c48e62d77e748c8d7f561836eebea626261ddc74f8e4f64ebd5527cdf897c6bbf0fdb0dd26387566ff693294f6e0int, 0x90d97c81ba24ee0259d1f094980dcfa11ad138e48a869522b52af6c956543d3cd0c7aee9b3ba3c2be9845719707bb33int, 0x0int, 0x1a00b0e42744afc0c64847493e5fc2002afc9073886e78fe66d343a7862f796684c8046f4af9f07e0b9b38feae6e402int, y_num_sq_6_0(x), y_num_0(x), times(x, y_num_sq_7_0(x)), y_num_sq_6_1(x), y_num_1(x), y_num_sq_7_0(x));
    lemma_product_level(x, 0x4ab0b9bcfac1bbcb2c977d027796b3ce75bb8ca2be184cb5231413c4d634f3747a87ac2460f415ec961f8855fe9d6f2int, y_num_6(x), y_num_7(x), y_num_0(x), y_num_sq_6_0(x), y_num_sq_7_0(x));
}

pub(crate) proof fn lemma_y_num_sq_step_5(x: int)
    ensures
        congruent(y_num_sq_5_0(x), times(y_num_5(x), y_num_0(x))),
{
    lemma_times_zero(x);
    lemma_y_num_sq_step_6(x);
    lemma_congruent_refl(y_num_sq_6_15(x), 0x16603fca40634b6a2211e11db8f0a6a074a7d0d4afadb7bd76505c3d3ad5544e203f6326c95a807299b23ab13633a5f0int * 0int + y_num_sq_6_15(x));
    lemma_horner_level(x, 0x16603fca40634b6a2211e11db8f0a6a074a7d0d4afadb7bd76505c3d3ad5544e203f6326c95a807299b23ab13633a5f0int, 0x1425d2c8e1a26a0531e2b9507105b0f56e1eb51f7e6d119be1aa608f108c70a2e77a1016a266891a12d4fbe611a0935int, 0x15e6be4e990f03ce4ea50b3b42df2eb5cb181d8f84965a3957add4fa95af01b2b665027efec01c7704b456be69c8b604int, 0x1390f0624feab1bcd2b6841f8a4379b767474d1ce0abede68bb8988adade4cbc753deabcbf50a08fc16de075585523cint, 0x12d877e3a848db803d644376e4a80fb3f43bc9a7c8157b977dcdf8ac5b49b18eed30f66ab76ed7e3e2939bcb4c6c8255int, y_num_sq_5_15(x), y_num_15(x), y_num_sq_6_14(x), y_num_sq_6_15(x), 0int, y_num_sq_6_15(x));
    lemma_horner_level(x, 0x16603fca40634b6a2211e11db8f0a6a074a7d0d4afadb7bd76505c3d3ad5544e203f6326c95a807299b23ab13633a5f0int, 0xdeb4d39d2785e82156e60691f0e0792e1ff9d6a004d8b5aa0b1fb36972dbaba06e626e1a5beac67c427172cf8dd988eint, 0x5c129645e44cf1102a159f748c4a3fc5e673d81d7e86568d9ab0f5d396a7ce46ba1049b6579afb7866b1e715475224bint, 0xf60214f71333d0bd44fa6a4e29643a42cba89509ba3550870242747db264603f6c06a441499d71913aa2b85117f9fdint, 0x4f39ecdcb431590cc70c410d70dfda6b51b20aaef3e7f8b0ef0ecd1011e61831c20ef8b8c1a5208e36bb972a07e9c3dint, y_num_sq_5_14(x), y_num_14(x), y_num_sq_6_13(x), y_num_sq_5_15(x), y_num_15(x), y_num_sq_6_14(x));
    lemma_horner_level(x, 0x16603fca40634b6a2211e11db8f0a6a074a7d0d4afadb7bd76505c3d3ad5544e203f6326c95a807299b23ab13633a5f0int, 0xd0914e4d2383b76cbe72f0a5184d1cbe06fa5e4d7e3175077bf3e99e6288c04e94cb19433e14f5aeb73c91ef8dc5bf8int, 0x245a394ad1eca9b72fc00ae7be315dc757b3b080d4c158013e6632d3c40659cc6cf90ad1c232a6442d9d3f5db980133int, 0x248a63500bcf1ffcf06241cd8b7a0ae915cd5b58941601186445751d1c35f5b6fe191c2aa311e75229d923b8761918int, 0x1f47c8555b2348622a216c3355f0b0a149f3d9ae5a6ea7e2c0eba6c926fc491c5fbba22b3cafff6e8e64273f5ed33d0int, y_num_sq_5_13(x), y_num_13(x), y_num_sq_6_12(x), y_num_sq_5_14(x), y_num_14(x), y_num_sq_6_13(x));
    lemma_horner_level(x, 0x16603fca40634b6a2211e11db8f0a6a074a7d0d4afadb7bd76505c3d3ad5544e203f6326c95a807299b23ab13633a5f0int, 0x257c1a86c184c43631b89509d430cdd488da79b6e8d7d84f7087b3c2b0599241f459fd6974b7727b5ca61efc24769c1int, 0xb182cac101b9399d155096004f53f447aa7b12a3426b08ec02710e807b4633f06c851c1919211f20d4c04f00b971ef8int, 0x8cc66e970cf4bb22df80e2c88f1a675ce0e6c2b0f2fcd28b8029cc586f6914f64c69a56c09d4994ddc20ed2d2e0c52eint, 0x98be6ef84a690fe33676641de41caba6a3f2c4b45985fb9c1a5dbcfaf0d8bf0104e4f956ce26a2da36d913925b3b3c7int, y_num_sq_5_12(x), y_num_12(x), y_num_sq_6_11(x), y_num_sq_5_13(x), y_num_13(x), y_num_sq_6_12(x));
    lemma_horner_level(x, 0x16603fca40634b6a2211e11db8f0a6a074a7d0d4afadb7bd76505c3d3ad5544e203f6326c95a807299b23ab13633a5f0int, 0xf1cb8fe0d1e69487f221841a802cd8427338faeac54ca138bda0660f2461439ae8ccba71916c1e2224e39b0676f3763int, 0x18b46a908f36f6deb918c143fed2edcc523559b8aaf0c2462e6bfe7f911f643249d9cdf41b44d606ce07c8a4d0074d8eint, 0x151114deba53d31dcea016d16f31029fe4b806bbcfcedcc9983fc156c117ba2403a6d7f9ef6b94f7d05e3e3bb1779c79int, 0x15420235c36d578c9426b2b47ba9cf729e56994572f886d754004fa97107ab81c9e077ce79c202d5a7a3887d2818e0a2int, y_num_sq_5_11(x), y_num_11(x), y_num_sq_6_10(x), y_num_sq_5_12(x), y_num_12(x), y_num_sq_6_11(x));
    lemma_horner_level(x, 0x16603fca40634b6a2211e11db8f0a6a074a7d0d4afadb7bd76505c3d3ad5544e203f6326c95a807299b23ab13633a5f0int, 0x1489e1e27877aa4be4e64371bb1924cbd5130c1e931b2a9ec54c2350f0a08456e993876bfaec8f7a0c3c6fb10d20c0e1int, 0x19713e47937cd1be0dfd0b8f1d43fb93cd2fcbcb6caf493fd1183e416389e61031bf3a5cce3fbafce813711ad011c132int, 0x11026e7315761435d780470ec78bb57bb31b8a9bce9b33f5f489474a7df6b359b9135f0d5232a085970e3460a3435d46int, 0x15e47d604ffe81501da5bc5ef1896b2082d4a467ec95ac4be1ce670d9be701f2a85c5904fc00525c0a5ad2f64397dfcfint, y_num_sq_5_10(x), y_num_10(x), y_num_sq_6_9(x), y_num_sq_5_11(x), y_num_11(x), y_num_sq_6_10(x));
    lemma_horner_level(x, 0x16603fca40634b6a2211e11db8f0a6a074a7d0d4afadb7bd76505c3d3ad5544e203f6326c95a807299b23ab13633a5f0int, 0x840c2b74d13195b617b129fa278058646d912f709f1233d0e24369ad10b6d8d7a464e4a7bb187fb0601046358ed82e6int, 0xe1bba7a1186bdb5223abde7ada14a23c42a0ca7915af6fe06985e7ed1e4d43b9b3f7055dd4eba6f2bafaaebca731c30int, 0x8988c4bc79c2737e7f5f461d9d6e7092ddac31047744c1ab00ec72af6da3143313d2d56efea86b07fd003ae6d9453faint, 0xc23ce45e42d812f81dd8e67ea47e8ca1bb51c78551c4dd3ab6d4af216d6d3d9ba19705957e9053db89687d1f8208a3cint, y_num_sq_5_9(x), y_num_9(x), y_num_sq_6_8(x), y_num_sq_5_10(x), y_num_10(x), y_num_sq_6_9(x));
    lemma_horner_level(x, 0x16603fca40634b6a2211e11db8f0a6a074a7d0d4afadb7bd76505c3d3ad5544e203f6326c95a807299b23ab13633a5f0int, 0x174e6f542e03fc9d55b3bc2c7006f535778ec6b2e5ca7af881bdec5832cfc7f015b4c81401b7dadd53b57dc5a8d0c916int, 0x9fc4018bd96684be88c9e221e4da1bb8f3abd16679dc26c1e8b6e6a1f20cabe69d65201c78607a360370e577bdba587int, 0x1672e1ee73d95f6c984217b2bbd5398aef841f55bd1fafefd2aa7e9fc554464148cf567bbcdc8482ee22bc0a67448a3eint, 0x8979799ae9eadfc55a242330326c97f77eece9cf0499e668254d87dc9557e723dfe699b715be1dc8317d5667e03d828int, y_num_sq_5_8(x), y_num_8(x), y_num_sq_6_7(x), y_num_sq_5_9(x), y_num_9(x), y_num_sq_6_8(x));
    lemma_horner_level(x, 0x16603fca40634b6a2211e11db8f0a6a074a7d0d4afadb7bd76505c3d3ad5544e203f6326c95a807299b23ab13633a5f0int, 0x11a7c05c1b845d54304b4b55eac8f929c068ff0135b40daa2e6c712f4402cf325c7efff26c206026e4b3420cf731fccbint, 0x987c8d5333ab86fde9926bd2ca6c674170a05bfe3bdd81ffd038da6c26c842642f64550fedfe935a15e4ca31870fb29int, 0x12dbc1ed6ec7d3708c877ccce2dd95de593e93966146a1520733bf2af2ee18b2c71115c0e3e6120555a739a51b257ea6int, 0x8336047c3564eeb7a6081d8791ba5f66ada97a319b74acb97c609ce92d11e982cfa202fe278cf7e274f98e3dca32fe1int, y_num_sq_5_7(x), y_num_7(x), y_num_sq_6_6(x), y_num_sq_5_8(x), y_num_8(x), y_num_sq_6_7(x));
    lemma_horner_level(x, 0x16603fca40634b6a2211e11db8f0a6a074a7d0d4afadb7bd76505c3d3ad5544e203f6326c95a807299b23ab13633a5f0int, 0x109d7cac82e037a886aa66ebf9fa38d05637a51c8fbaa2a758d61a03a67b86e0f1a39c7ab7a0311c12a9c1fedfda9b3dint, 0x4ab0b9bcfac1bbcb2c977d027796b3ce75bb8ca2be184cb5231413c4d634f3747a87ac2460f415ec961f8855fe9d6f2int, 0xac96d4bfca1023f059dd4bf31f0d30d4e6f7fab4ca73f0b45617e22b9e1339ded5238f29bddc358678be67038c19faaint, 0x4044ed148acd1ad688c74439cd79b69caa481d1b316d9c23fb5927ec17155eb5c2e31c6c388ef8de9f1fb2c118883e7int, y_num_sq_5_6(x), y_num_6(x), y_num_sq_6_5(x), y_num_sq_5_7(x), y_num_7(x), y_num_sq_6_6(x));
    lemma_horner_level(x, 0x16603fca40634b6a2211e11db8f0a6a074a7d0d4afadb7bd76505c3d3ad5544e203f6326c95a807299b23ab13633a5f0int, 0xcfe1081ffa6b2e37d44d9721d9a743f1a8f97a5dbf8fa77c6afb1d60bd4ed3f77ecf0afd552005bcec316adc284fdadint, 0x16603fca40634b6a2211e11db8f0a6a074a7d0d4afadb7bd76505c3d3ad5544e203f6326c95a807299b23ab13633a5f0int, 0x18116080b52da0eddca7cf790302e282a4e5e0c86852ee68c7f3a693cc81bc11cf3c2eefba84e9755498c8944a9dde5fint, 0x134105697758bf52fe01c9c8cbcefea71b1200e651ed07fb6efd400cddc2f090ffda1d85c1dcce4671cd8d8858ee6516int, y_num_sq_5_5(x), y_num_5(x), y_num_sq_6_4(x), y_num_sq_5_6(x), y_num_6(x), y_num_sq_6_5(x));
    lemma_horner_level(x, 0x16603fca40634b6a2211e11db8f0a6a074a7d0d4afadb7bd76505c3d3ad5544e203f6326c95a807299b23ab13633a5f0int, 0xc43ba5206e40edb043a26397bc5901d039088f3f2b505f67940b08e61f85c1a27ce23606bc5e36faa6eca5710ceafebint, 0x8cc03fdefe0ff135caf4fe2a21529c4195536fbe3ce50b879833fd221351adc2ee7f8dc099040a841b6daecf2e8fedbint, 0x58d7f6eb0b6ef8d397db4f6f3824fe54f3d69e15792451412115f5890deaf85f162f387d918f9cb131b6130cf24773cint, 0x791ce31da221ce94f02461e8174fe72995cc22ff9b81d3af9e24531290e46452bd5c55b535dfba0fc3d2a4e68dd92e3int, y_num_sq_5_4(x), y_num_4(x), y_num_sq_6_3(x), y_num_sq_5_5(x), y_num_5(x), y_num_sq_6_4(x));
    lemma_horner_level(x, 0x16603fca40634b6a2211e11db8f0a6a074a7d0d4afadb7bd76505c3d3ad5544e203f6326c95a807299b23ab13633a5f0int, 0x10a61e3daf89417c440f74a6bd2c43f7d197cba61836dba3a2a0f2f0b6ccc4d9820834ee11c399d61f09b394702813fdint, 0x1f86376e8981c217898751ad8746757d42aa7b90eeb791c09e4a3ec03251cf9de405aba9ec61deca6355c77b0e5f4cbint, 0x67491078c89b24037ac55a016b7442470ac44acc3953f96e30e6ae80fe14e87024ab5f13866df22298084b27b2fdeadint, 0x1b203a58f5dda2b6b2fe78204c0571001a7bf8ab51666675b2d855677bd1217d6a6645925018243127d5bf06f7f6000int, y_num_sq_5_3(x), y_num_3(x), y_num_sq_6_2(x), y_num_sq_5_4(x), y_num_4(x), y_num_sq_6_3(x));
    lemma_horner_level(x, 0x16603fca40634b6a2211e11db8f0a6a074a7d0d4afadb7bd76505c3d3ad5544e203f6326c95a807299b23ab13633a5f0int, 0x12ed0b9f8b270b10b66641b93e6531f8406ee0c8085a541786532306af2f21758a8c8d63b9ed71c86185340b68e87b15int, 0xcc786baa966e66f4a384c86a3b49942552e2d658a31ce2c344be4b91400da7d26d521628b00523b8dfe240c72de1f6int, 0x1324745f7872c9d55ddf60aec9a808532381512eea88164a50595a2a9beb20064c1c195325393427476dc109c9be1fe3int, 0xaff11e94b450049ae5a23386285541a01bc7ef1cdb2142dbe43c4383b01c477bb71e95f4407ef4a12616bfdfc71c4aint, y_num_sq_5_2(x), y_num_2(x), y_num_sq_6_1(x), y_num_sq_5_3(x), y_num_3(x), y_num_sq_6_2(x));
    lemma_horner_level(x, 0x16603fca40634b6a2211e11db8f0a6a074a7d0d4afadb7bd76505c3d3ad5544e203f6326c95a807299b23ab13633a5f0int, 0x1250d4a8999d3e9be4942fcbd6800cb9189edac82d5cd4719f5846a4bbf06fe6c0b0000bd0ab06b5214f9a8ab8558c11int, 0x134996a104ee5811d51036d776fb46831223e96c254f383d0f906343eb67ad34d6c56711962fa8bfe097e75a2e41c696int, 0x1814c48e62d77e748c8d7f561836eebea626261ddc74f8e4f64ebd5527cdf897c6bbf0fdb0dd26387566ff693294f6e0int, 0x1098ad2dfe4f5dc26d97f3bf31f821fb47a5cdadd86679512533acc2821b2e4ef2ffb195c6773d5ea7ae807722abd04dint, y_num_sq_5_1(x), y_num_1(x), y_num_sq_6_0(x), y_num_sq_5_2(x), y_num_2(x), y_num_sq_6_1(x));
    lemma_horner_level(x, 0x16603fca40634b6a2211e11db8f0a6a074a7d0d4afadb7bd76505c3d3ad5544e203f6326c95a807299b23ab13633a5f0int, 0x173474b3773575683da4c9d40d261a13ac809b32c719af68207bd9d2317d9fa05e5ca4293e07709c0b3cc642f9c6999fint, 0x90d97c81ba24ee0259d1f094980dcfa11ad138e48a869522b52af6c956543d3cd0c7aee9b3ba3c2be9845719707bb33int, 0x0int, 0x7ca3baf7b412ea575ea29caea777380dd74f96b5c29ddd895243da6b4c62c5aa2e7328ce1af6cd2b2b0ff0642704f93int, y_num_sq_5_0(x), y_num_0(x), times(x, y_num_sq_6_0(x)), y_num_sq_5_1(x), y_num_1(x), y_num_sq_6_0(x));
    lemma_product_level(x, 0x16603fca40634b6a2211e11db8f0a6a074a7d0d4afadb7bd76505c3d3ad5544e203f6326c95a807299b23ab13633a5f0int, y_num_5(x), y_num_6(x), y_num_0(x), y_num_sq_5_0(x), y_num_sq_6_0(x));
}

pub(crate) proof fn lemma_y_num_sq_step_4(x: int)
    ensures
        congruent(y_num_sq_4_0(x), times(y_num_4(x), y_num_0(x))),
{
    lemma_times_zero(x);
    lemma_y_num_sq_step_5(x);
    lemma_congruent_refl(y_num_sq_5_15(x), 0x8cc03fdefe0ff135caf4fe2a21529c4195536fbe3ce50b879833fd221351adc2ee7f8dc099040a841b6daecf2e8fedbint * 0int + y_num_sq_5_15(x));
    lemma_horner_level(x, 0x8cc03fdefe0ff135caf4fe2a21529c4195536fbe3ce50b879833fd221351adc2ee7f8dc099040a841b6daecf2e8fedbint, 0xd10ecda5f4561453854c85db048213e036ec0a826c6e562abfe2b7fb552cf75df73f854ae50ae6097c748f686ccdb3bint, 0x15e6be4e990f03ce4ea50b3b42df2eb5cb181d8f84965a3957add4fa95af01b2b665027efec01c7704b456be69c8b604int, 0xdeb4d39d2785e82156e60691f0e0792e1ff9d6a004d8b5aa0b1fb36972dbaba06e626e1a5beac67c427172cf8dd988eint, 0x768b38adc4dbff1574b241f6dc66d9c4fce67d1433abf148a800b3eba7415469e5e968c505f870b7f78ec50b332403dint, y_num_sq_4_15(x), y_num_15(x), y_num_sq_5_14(x), y_num_sq_5_15(x), 0int, y_num_sq_5_15(x));
    lemma_horner_level(x, 0x8cc03fdefe0ff135caf4fe2a21529c4195536fbe3ce50b879833fd221351adc2ee7f8dc099040a841b6daecf2e8fedbint, 0xc0c3381a7d5d80ce79b9a988e2d0891635cff109ccd9299c9b438d1b945e1324b2636cc182af30c00e267c788ad5e9bint, 0x5c129645e44cf1102a159f748c4a3fc5e673d81d7e86568d9ab0f5d396a7ce46ba1049b6579afb7866b1e715475224bint, 0xd0914e4d2383b76cbe72f0a5184d1cbe06fa5e4d7e3175077bf3e99e6288c04e94cb19433e14f5aeb73c91ef8dc5bf8int, 0x1f25ad74395d811a0f2c4806d5154431d6d91f7f71d7a42226a1c06567bc95fad39732525e04624f834b91ddfb73892int, y_num_sq_4_14(x), y_num_14(x), y_num_sq_5_13(x), y_num_sq_4_15(x), y_num_15(x), y_num_sq_5_14(x));
    lemma_horner_level(x, 0x8cc03fdefe0ff135caf4fe2a21529c4195536fbe3ce50b879833fd221351adc2ee7f8dc099040a841b6daecf2e8fedbint, 0x46792f1d442060f4f60a28024363bd38d794d26ed31db7d50d57b6baee6e86eab65ba4342c0665fa16b026f091ce0f8int, 0x245a394ad1eca9b72fc00ae7be315dc757b3b080d4c158013e6632d3c40659cc6cf90ad1c232a6442d9d3f5db980133int, 0x257c1a86c184c43631b89509d430cdd488da79b6e8d7d84f7087b3c2b0599241f459fd6974b7727b5ca61efc24769c1int, 0xc4c322d5063114d1bbc5309823e487e4c9ff1dd79f9ac9c10879eacb66ce9270e91f86e5550ca839182ce591127c3eint, y_num_sq_4_13(x), y_num_13(x), y_num_sq_5_12(x), y_num_sq_4_14(x), y_num_14(x), y_num_sq_5_13(x));
    lemma_horner_level(x, 0x8cc03fdefe0ff135caf4fe2a21529c4195536fbe3ce50b879833fd221351adc2ee7f8dc099040a841b6daecf2e8fedbint, 0x39f905eae5d156faf308ae08791ed24084b1fc49250feb9eda87d50f0d933a3eb27351fe9f8ccfce4662ff2e095180bint, 0xb182cac101b9399d155096004f53f447aa7b12a3426b08ec02710e807b4633f06c851c1919211f20d4c04f00b971ef8int, 0xf1cb8fe0d1e69487f221841a802cd8427338faeac54ca138bda0660f2461439ae8ccba71916c1e2224e39b0676f3763int, 0x3c0ccf86032bf87d39a7ff31929e0adaf168b0c2454c782cb35c088080f5a0b3380a0d537d7c7e4c22946a8b0530880int, y_num_sq_4_12(x), y_num_12(x), y_num_sq_5_11(x), y_num_sq_4_13(x), y_num_13(x), y_num_sq_5_12(x));
    lemma_horner_level(x, 0x8cc03fdefe0ff135caf4fe2a21529c4195536fbe3ce50b879833fd221351adc2ee7f8dc099040a841b6daecf2e8fedbint, 0x1202d38c4bc93569e3e7dd142671fcc01e50c7c84f238001a50a54808d8b1f2387f640a2bd4e6fa555e95714c64b1374int, 0x18b46a908f36f6deb918c143fed2edcc523559b8aaf0c2462e6bfe7f911f643249d9cdf41b44d606ce07c8a4d0074d8eint, 0x1489e1e27877aa4be4e64371bb1924cbd5130c1e931b2a9ec54c2350f0a08456e993876bfaec8f7a0c3c6fb10d20c0e1int, 0x85b7b7e8b99d95babb6438f04055d3f2d7aba9bb1068f5af9825aaf8d9a7acf8c3d4464b50124fd4eeb1664bfdcbdb5int, y_num_sq_4_11(x), y_num_11(x), y_num_sq_5_10(x), y_num_sq_4_12(x), y_num_12(x), y_num_sq_5_11(x));
    lemma_horner_level(x, 0x8cc03fdefe0ff135caf4fe2a21529c4195536fbe3ce50b879833fd221351adc2ee7f8dc099040a841b6daecf2e8fedbint, 0x6ab6fa3f56a5d2ebc2b9c1821a56688b6c6f6bcc946e0f81586370cbd0466790964b007f9d8f3986153fbf99a5a52dcint, 0x19713e47937cd1be0dfd0b8f1d43fb93cd2fcbcb6caf493fd1183e416389e61031bf3a5cce3fbafce813711ad011c132int, 0x840c2b74d13195b617b129fa278058646d912f709f1233d0e24369ad10b6d8d7a464e4a7bb187fb0601046358ed82e6int, 0x89b5c4d914dfe5dbed4a942c45510f3baa3be3a62759d2efc090b2e062fde8caf183d2e579fd782f7b6968c53b93570int, y_num_sq_4_10(x), y_num_10(x), y_num_sq_5_9(x), y_num_sq_4_11(x), y_num_11(x), y_num_sq_5_10(x));
    lemma_horner_level(x, 0x8cc03fdefe0ff135caf4fe2a21529c4195536fbe3ce50b879833fd221351adc2ee7f8dc099040a841b6daecf2e8fedbint, 0x824a11f13f14c0cdc2850aeb3104ad9f26c059becdec77f24d2aacedc3643b4a4b939cf1460a226a0f13b67ddd2d6e3int, 0xe1bba7a1186bdb5223abde7ada14a23c42a0ca7915af6fe06985e7ed1e4d43b9b3f7055dd4eba6f2bafaaebca731c30int, 0x174e6f542e03fc9d55b3bc2c7006f535778ec6b2e5ca7af881bdec5832cfc7f015b4c81401b7dadd53b57dc5a8d0c916int, 0x4c5cf21afdd9072e20e3aa7c8fcb498bfb903040ac917db26b6a7b9cb1b9680104b06218a36c1e1473d1b1064950dc9int, y_num_sq_4_9(x), y_num_9(x), y_num_sq_5_8(x), y_num_sq_4_10(x), y_num_10(x), y_num_sq_5_9(x));
    lemma_horner_level(x, 0x8cc03fdefe0ff135caf4fe2a21529c4195536fbe3ce50b879833fd221351adc2ee7f8dc099040a841b6daecf2e8fedbint, 0x11869c0c590973a41e25b6ee29be38cfb01eadd0308e2414803f210fe00a97f271f9f09c0734f1e97d5390e5d64c87e1int, 0x9fc4018bd96684be88c9e221e4da1bb8f3abd16679dc26c1e8b6e6a1f20cabe69d65201c78607a360370e577bdba587int, 0x11a7c05c1b845d54304b4b55eac8f929c068ff0135b40daa2e6c712f4402cf325c7efff26c206026e4b3420cf731fccbint, 0x360c08e362f3738f230d7754af37c7a44aef0c1af1dac63e4f504526ec63315fc39680e163af5eab70489edf1550435int, y_num_sq_4_8(x), y_num_8(x), y_num_sq_5_7(x), y_num_sq_4_9(x), y_num_9(x), y_num_sq_5_8(x));
    lemma_horner_level(x, 0x8cc03fdefe0ff135caf4fe2a21529c4195536fbe3ce50b879833fd221351adc2ee7f8dc099040a841b6daecf2e8fedbint, 0x2fdc7452b03481d757911c7ad75ed6db52943abf9962abd46286082d7c5aca1d40d766a010a81dbeb57442d3365dfa6int, 0x987c8d5333ab86fde9926bd2ca6c674170a05bfe3bdd81ffd038da6c26c842642f64550fedfe935a15e4ca31870fb29int, 0x109d7cac82e037a886aa66ebf9fa38d05637a51c8fbaa2a758d61a03a67b86e0f1a39c7ab7a0311c12a9c1fedfda9b3dint, 0x3395a5edd101108f0ff0f6008129ba2c6dc5537e84f9a078df2b0e705b949d44a77117ebf5fa0d4ec54cefcf960d0feint, y_num_sq_4_7(x), y_num_7(x), y_num_sq_5_6(x), y_num_sq_4_8(x), y_num_8(x), y_num_sq_5_7(x));
    lemma_horner_level(x, 0x8cc03fdefe0ff135caf4fe2a21529c4195536fbe3ce50b879833fd221351adc2ee7f8dc099040a841b6daecf2e8fedbint, 0x16a5e740e786b4ec64b30c0149b8cfc5c61bfd383bfc369f3f6d9907517a4ef944db6f53bfde5a47993faba2cf185881int, 0x4ab0b9bcfac1bbcb2c977d027796b3ce75bb8ca2be184cb5231413c4d634f3747a87ac2460f415ec961f8855fe9d6f2int, 0xcfe1081ffa6b2e37d44d9721d9a743f1a8f97a5dbf8fa77c6afb1d60bd4ed3f77ecf0afd552005bcec316adc284fdadint, 0x19445645bc1fbce223df9090159f7f00975c5a4bdfb1501498d8dd9404cf3189f38c2413dca997c724c4b3d9fb8e696int, y_num_sq_4_6(x), y_num_6(x), y_num_sq_5_5(x), y_num_sq_4_7(x), y_num_7(x), y_num_sq_5_6(x));
    lemma_horner_level(x, 0x8cc03fdefe0ff135caf4fe2a21529c4195536fbe3ce50b879833fd221351adc2ee7f8dc099040a841b6daecf2e8fedbint, 0x12f9f5355d112e28cef6977c0408d054b7e3a8068dd7c6d8e07001c4331208ae5e395338fe72cd1441c2337d5278e89aint, 0x16603fca40634b6a2211e11db8f0a6a074a7d0d4afadb7bd76505c3d3ad5544e203f6326c95a807299b23ab13633a5f0int, 0xc43ba5206e40edb043a26397bc5901d039088f3f2b505f67940b08e61f85c1a27ce23606bc5e36faa6eca5710ceafebint, 0x791ce31da221ce94f02461e8174fe72995cc22ff9b81d3af9e24531290e46452bd5c55b535dfba0fc3d2a4e68dd92e3int, y_num_sq_4_5(x), y_num_5(x), y_num_sq_5_4(x), y_num_sq_4_6(x), y_num_6(x), y_num_sq_5_5(x));
    lemma_horner_level(x, 0x8cc03fdefe0ff135caf4fe2a21529c4195536fbe3ce50b879833fd221351adc2ee7f8dc099040a841b6daecf2e8fedbint, 0x10038756e8425c2e2641b2159f26eab8bcdcedfcae095d1f154cbdfdb0a4715fa98222152a91215923d17219fba07f76int, 0x8cc03fdefe0ff135caf4fe2a21529c4195536fbe3ce50b879833fd221351adc2ee7f8dc099040a841b6daecf2e8fedbint, 0x10a61e3daf89417c440f74a6bd2c43f7d197cba61836dba3a2a0f2f0b6ccc4d9820834ee11c399d61f09b394702813fdint, 0x2f9d532177528dd41b50d629bd886710e7c69298d5146fa7657d41137a6612f1b41042808d7370009b852a2ed2caba0int, y_num_sq_4_4(x), y_num_4(x), y_num_sq_5_3(x), y_num_sq_4_5(x), y_num_5(x), y_num_sq_5_4(x));
    lemma_horner_level(x, 0x8cc03fdefe0ff135caf4fe2a21529c4195536fbe3ce50b879833fd221351adc2ee7f8dc099040a841b6daecf2e8fedbint, 0x12e2f520c5b8c6b11400658d7a7bad846b0b145d22ba6d2806c27c1843460d657b28bb41b628e90b2dbd00c7eb22f71bint, 0x1f86376e8981c217898751ad8746757d42aa7b90eeb791c09e4a3ec03251cf9de405aba9ec61deca6355c77b0e5f4cbint, 0x12ed0b9f8b270b10b66641b93e6531f8406ee0c8085a541786532306af2f21758a8c8d63b9ed71c86185340b68e87b15int, 0xaaa1165ea7588b529603d739e3ef1bb520f17d87ea43711ed169718b9d18ab9da3c429050d5d8089ed114832ef06e9int, y_num_sq_4_3(x), y_num_3(x), y_num_sq_5_2(x), y_num_sq_4_4(x), y_num_4(x), y_num_sq_5_3(x));
    lemma_horner_level(x, 0x8cc03fdefe0ff135caf4fe2a21529c4195536fbe3ce50b879833fd221351adc2ee7f8dc099040a841b6daecf2e8fedbint, 0x18df5659a8e1242bdd855ea1f4a867514c22040799b7d3e1fea34418498309d96c7a849687f33b46c096efecddf39464int, 0xcc786baa966e66f4a384c86a3b49942552e2d658a31ce2c344be4b91400da7d26d521628b00523b8dfe240c72de1f6int, 0x1250d4a8999d3e9be4942fcbd6800cb9189edac82d5cd4719f5846a4bbf06fe6c0b0000bd0ab06b5214f9a8ab8558c11int, 0x452b8ecb127b4ff8b7980baebe80ebe05c3ff405dadaef32a7785ed11b2c64cc43215c7c3db3cc739dcf8752aa0b5dint, y_num_sq_4_2(x), y_num_2(x), y_num_sq_5_1(x), y_num_sq_4_3(x), y_num_3(x), y_num_sq_5_2(x));
    lemma_horner_level(x, 0x8cc03fdefe0ff135caf4fe2a21529c4195536fbe3ce50b879833fd221351adc2ee7f8dc099040a841b6daecf2e8fedbint, 0x162f2a7e4d2633395102a634ea18b4f19e70f75e74a3e25ce4beeb0b4c041d86f30e863f871b996a3ff6232e3fb747eint, 0x134996a104ee5811d51036d776fb46831223e96c254f383d0f906343eb67ad34d6c56711962fa8bfe097e75a2e41c696int, 0x173474b3773575683da4c9d40d261a13ac809b32c719af68207bd9d2317d9fa05e5ca4293e07709c0b3cc642f9c6999fint, 0x6865556fdb97b0c413e4e040c37353a4eb135998d168499db23b0f98ef70ee5a32b2fe3f29a8c54ab60ae9d9f739259int, y_num_sq_4_1(x), y_num_1(x), y_num_sq_5_0(x), y_num_sq_4_2(x), y_num_2(x), y_num_sq_5_1(x));
    lemma_horner_level(x, 0x8cc03fdefe0ff135caf4fe2a21529c4195536fbe3ce50b879833fd221351adc2ee7f8dc099040a841b6daecf2e8fedbint, 0x19124220b2b048d01e47f574f65ef4a0af301ca77ac8313eaa3033f0f97c3157edd22f2b49e2f1ccb17bd34b166b5657int, 0x90d97c81ba24ee0259d1f094980dcfa11ad138e48a869522b52af6c956543d3cd0c7aee9b3ba3c2be9845719707bb33int, 0x0int, 0x31004534f8bc38c2eb6b5c74d045441c255dd0c2f9bce31e81e27aef668f804cd1d69447598675621a08f75285138deint, y_num_sq_4_0(x), y_num_0(x), times(x, y_num_sq_5_0(x)), y_num_sq_4_1(x), y_num_1(x), y_num_sq_5_0(x));
    lemma_product_level(x, 0x8cc03fdefe0ff135caf4fe2a21529c4195536fbe3ce50b879833fd221351adc2ee7f8dc099040a841b6daecf2e8fedbint, y_num_4(x), y_num_5(x), y_num_0(x), y_num_sq_4_0(x), y_num_sq_5_0(x));
}

pub(crate) proof fn lemma_y_num_sq_step_3(x: int)
    ensures
        congruent(y_num_sq_3_0(x), times(y_num_3(x), y_num_0(x))),
{
    lemma_times_zero(x);
    lemma_y_num_sq_step_4(x);
    lemma_congruent_refl(y_num_sq_4_15(x), 0x1f86376e8981c217898751ad8746757d42aa7b90eeb791c09e4a3ec03251cf9de405aba9ec61deca6355c77b0e5f4cbint * 0int + y_num_sq_4_15(x));
    lemma_horner_level(x, 0x1f86376e8981c217898751ad8746757d42aa7b90eeb791c09e4a3ec03251cf9de405aba9ec61deca6355c77b0e5f4cbint, 0x26a20e4e09a560027ee895f66015e228aaf6fcb1e9562ece6d64c84cd347a0e593ab3b3be6151d0a26cc3fa4509a9bint, 0x15e6be4e990f03ce4ea50b3b42df2eb5cb181d8f84965a3957add4fa95af01b2b665027efec01c7704b456be69c8b604int, 0xc0c3381a7d5d80ce79b9a988e2d0891635cff109ccd9299c9b438d1b945e1324b2636cc182af30c00e267c788ad5e9bint, 0x1a8cedde58e26b1d3f83a9f5c7b6d281ec8f332d84011f343612ada338094761f95cac77d73e3bbc57e4ceaac42bb84int, y_num_sq_3_15(x), y_num_15(x), y_num_sq_4_14(x), y_num_sq_4_15(x), 0int, y_num_sq_4_15(x));
    lemma_horner_level(x, 0x1f86376e8981c217898751ad8746757d42aa7b90eeb791c09e4a3ec03251cf9de405aba9ec61deca6355c77b0e5f4cbint, 0xccd4325f2f0a195db8f266dcff7f8f9237f26562e91c00ac95c30bd8aeb4225b77a5fd2f9de3a06438d6c8b131e1868int, 0x5c129645e44cf1102a159f748c4a3fc5e673d81d7e86568d9ab0f5d396a7ce46ba1049b6579afb7866b1e715475224bint, 0x46792f1d442060f4f60a28024363bd38d794d26ed31db7d50d57b6baee6e86eab65ba4342c0665fa16b026f091ce0f8int, 0x6f9e17f7af764805acfa35aec08527572ec863e9951b417326098041c98caf1ff449c1ee1c20692381fa7ed411621bint, y_num_sq_3_14(x), y_num_14(x), y_num_sq_4_13(x), y_num_sq_3_15(x), y_num_15(x), y_num_sq_4_14(x));
    lemma_horner_level(x, 0x1f86376e8981c217898751ad8746757d42aa7b90eeb791c09e4a3ec03251cf9de405aba9ec61deca6355c77b0e5f4cbint, 0x19ad96e7e178dc379a3aec243f579a8eb005298371a989c0af0f3708f962173db6843a388d484f0af080b8453a5f087bint, 0x245a394ad1eca9b72fc00ae7be315dc757b3b080d4c158013e6632d3c40659cc6cf90ad1c232a6442d9d3f5db980133int, 0x39f905eae5d156faf308ae08791ed24084b1fc49250feb9eda87d50f0d933a3eb27351fe9f8ccfce4662ff2e095180bint, 0x2c11b9eb60b1821c62523b6dee824e1ac4206aa61d62baeb71820885d1d5cebcc43215e2fbd30b1b7e59dd3f8add03int, y_num_sq_3_13(x), y_num_13(x), y_num_sq_4_12(x), y_num_sq_3_14(x), y_num_14(x), y_num_sq_4_13(x));
    lemma_horner_level(x, 0x1f86376e8981c217898751ad8746757d42aa7b90eeb791c09e4a3ec03251cf9de405aba9ec61deca6355c77b0e5f4cbint, 0x72d4534556442a0722d02c231456213e17332e2020e28dc8d6ad6f950bf113e9b277a41841742987e3f8c8cd5545866int, 0xb182cac101b9399d155096004f53f447aa7b12a3426b08ec02710e807b4633f06c851c1919211f20d4c04f00b971ef8int, 0x1202d38c4bc93569e3e7dd142671fcc01e50c7c84f238001a50a54808d8b1f2387f640a2bd4e6fa555e95714c64b1374int, 0xd73146e097773e74c020ca63a054b77fd3aea2cf67d2d4c384830f335556dc5f05bc5a93c551227240f4a71a9bfd22int, y_num_sq_3_12(x), y_num_12(x), y_num_sq_4_11(x), y_num_sq_3_13(x), y_num_13(x), y_num_sq_4_12(x));
    lemma_horner_level(x, 0x1f86376e8981c217898751ad8746757d42aa7b90eeb791c09e4a3ec03251cf9de405aba9ec61deca6355c77b0e5f4cbint, 0x142011ddb013cb80a61d31b44ce51d25e8bf6958501eae9c65ee5eda20fe773cf91fa51c1a32807f26b00494e8aa1cffint, 0x18b46a908f36f6deb918c143fed2edcc523559b8aaf0c2462e6bfe7f911f643249d9cdf41b44d606ce07c8a4d0074d8eint, 0x6ab6fa3f56a5d2ebc2b9c1821a56688b6c6f6bcc946e0f81586370cbd0466790964b007f9d8f3986153fbf99a5a52dcint, 0x1df2f2a9a89b11cb13aa749e873e562879b9e735a7709d92f90325557cf500129dbc608d5ea86ae32010c5300a92865int, y_num_sq_3_11(x), y_num_11(x), y_num_sq_4_10(x), y_num_sq_3_12(x), y_num_12(x), y_num_sq_4_11(x));
    lemma_horner_level(x, 0x1f86376e8981c217898751ad8746757d42aa7b90eeb791c09e4a3ec03251cf9de405aba9ec61deca6355c77b0e5f4cbint, 0x11af6324bc88ce073ad69b01c3d847a52cd39c73d0fc8199417409ddf4142eb516f27bf1f5b365e58bb5654b25f25ec1int, 0x19713e47937cd1be0dfd0b8f1d43fb93cd2fcbcb6caf493fd1183e416389e61031bf3a5cce3fbafce813711ad011c132int, 0x824a11f13f14c0cdc2850aeb3104ad9f26c059becdec77f24d2aacedc3643b4a4b939cf1460a226a0f13b67ddd2d6e3int, 0x1ed7dbd070166c360291339ad6d74d6d734a593991833003e0d4835043937b1901421175c2dd8c06c4f02b773cef858int, y_num_sq_3_10(x), y_num_10(x), y_num_sq_4_9(x), y_num_sq_3_11(x), y_num_11(x), y_num_sq_4_10(x));
    lemma_horner_level(x, 0x1f86376e8981c217898751ad8746757d42aa7b90eeb791c09e4a3ec03251cf9de405aba9ec61deca6355c77b0e5f4cbint, 0xddd8c9066566ac69976983ec5d1b2512e2082e33bde284fe7d84f3927f7384341e215130ffdd4ba7a9c46c6d27c0d71int, 0xe1bba7a1186bdb5223abde7ada14a23c42a0ca7915af6fe06985e7ed1e4d43b9b3f7055dd4eba6f2bafaaebca731c30int, 0x11869c0c590973a41e25b6ee29be38cfb01eadd0308e2414803f210fe00a97f271f9f09c0734f1e97d5390e5d64c87e1int, 0x111a6ad4df1b0d9e7ab80f30a808254e32ece1182e59bb073203c7fb999be581b9d3408a4eab9b76ba8a2572e30bd80int, y_num_sq_3_9(x), y_num_9(x), y_num_sq_4_8(x), y_num_sq_3_10(x), y_num_10(x), y_num_sq_4_9(x));
    lemma_horner_level(x, 0x1f86376e8981c217898751ad8746757d42aa7b90eeb791c09e4a3ec03251cf9de405aba9ec61deca6355c77b0e5f4cbint, 0x69a18d05e59384605dd30bb0ed0931506850f0306536ba201c0af3e2802e0e85e36544c9d209a8ba946fd47e180a4b9int, 0x9fc4018bd96684be88c9e221e4da1bb8f3abd16679dc26c1e8b6e6a1f20cabe69d65201c78607a360370e577bdba587int, 0x2fdc7452b03481d757911c7ad75ed6db52943abf9962abd46286082d7c5aca1d40d766a010a81dbeb57442d3365dfa6int, 0xc1ae28cddf667ef6a838250535450194ee56a9223dd54cda5c1a6112a595c020f1daf80479caf54e96aac9c8b97aeeint, y_num_sq_3_8(x), y_num_8(x), y_num_sq_4_7(x), y_num_sq_3_9(x), y_num_9(x), y_num_sq_4_8(x));
    lemma_horner_level(x, 0x1f86376e8981c217898751ad8746757d42aa7b90eeb791c09e4a3ec03251cf9de405aba9ec61deca6355c77b0e5f4cbint, 0x19eee2f76f00189d41e22006be785a05f85c0418107f2bd3c79056c8866b11596f8b52871e09ff62a5c33e4c7430a958int, 0x987c8d5333ab86fde9926bd2ca6c674170a05bfe3bdd81ffd038da6c26c842642f64550fedfe935a15e4ca31870fb29int, 0x16a5e740e786b4ec64b30c0149b8cfc5c61bfd383bfc369f3f6d9907517a4ef944db6f53bfde5a47993faba2cf185881int, 0xb8db22cd1a2e19bdee2442b3af45e0c7ce36abe7f6d043770a531b1315710601e25a62083b181449d49ff79cb0c604int, y_num_sq_3_7(x), y_num_7(x), y_num_sq_4_6(x), y_num_sq_3_8(x), y_num_8(x), y_num_sq_4_7(x));
    lemma_horner_level(x, 0x1f86376e8981c217898751ad8746757d42aa7b90eeb791c09e4a3ec03251cf9de405aba9ec61deca6355c77b0e5f4cbint, 0x184c7d81b7ec914a38d87c984bd904185a5e2a63b9888aebfeb9fdd54650503ec1ef80a7a64e03a8caf832aac94f554cint, 0x4ab0b9bcfac1bbcb2c977d027796b3ce75bb8ca2be184cb5231413c4d634f3747a87ac2460f415ec961f8855fe9d6f2int, 0x12f9f5355d112e28cef6977c0408d054b7e3a8068dd7c6d8e07001c4331208ae5e395338fe72cd1441c2337d5278e89aint, 0x5a8ba05e5b3178cfae61c4053415a48aaf3f19c1a97e0ed1d571a72cee8035d01a6a019bd304211e8351c1646b079cint, y_num_sq_3_6(x), y_num_6(x), y_num_sq_4_5(x), y_num_sq_3_7(x), y_num_7(x), y_num_sq_4_6(x));
    lemma_horner_level(x, 0x1f86376e8981c217898751ad8746757d42aa7b90eeb791c09e4a3ec03251cf9de405aba9ec61deca6355c77b0e5f4cbint, 0x3402a2d1c204cfe789296602503db4b95129710f25e66c6dae736560def18e0a93a1135299dc0d5f5ba0fbf0990a1bint, 0x16603fca40634b6a2211e11db8f0a6a074a7d0d4afadb7bd76505c3d3ad5544e203f6326c95a807299b23ab13633a5f0int, 0x10038756e8425c2e2641b2159f26eab8bcdcedfcae095d1f154cbdfdb0a4715fa98222152a91215923d17219fba07f76int, 0x1b203a58f5dda2b6b2fe78204c0571001a7bf8ab51666675b2d855677bd1217d6a6645925018243127d5bf06f7f6001int, y_num_sq_3_5(x), y_num_5(x), y_num_sq_4_4(x), y_num_sq_3_6(x), y_num_6(x), y_num_sq_4_5(x));
    lemma_horner_level(x, 0x1f86376e8981c217898751ad8746757d42aa7b90eeb791c09e4a3ec03251cf9de405aba9ec61deca6355c77b0e5f4cbint, 0x12d8dea2004a8251719a8961b692291095a747f23d1a86388731d529d75cf9556bc4e91fb264604df9f4cd846d5d7321int, 0x8cc03fdefe0ff135caf4fe2a21529c4195536fbe3ce50b879833fd221351adc2ee7f8dc099040a841b6daecf2e8fedbint, 0x12e2f520c5b8c6b11400658d7a7bad846b0b145d22ba6d2806c27c1843460d657b28bb41b628e90b2dbd00c7eb22f71bint, 0xaaa1165ea7588b529603d739e3ef1bb520f17d87ea43711ed169718b9d18ab9da3c429050d5d8089ed114832ef06e9int, y_num_sq_3_4(x), y_num_4(x), y_num_sq_4_3(x), y_num_sq_3_5(x), y_num_5(x), y_num_sq_4_4(x));
    lemma_horner_level(x, 0x1f86376e8981c217898751ad8746757d42aa7b90eeb791c09e4a3ec03251cf9de405aba9ec61deca6355c77b0e5f4cbint, 0x1871055650da887a6e90bf8fcfabc877bc5b423c12404cc3f08ae3ec26ae9a7af340f73092c59967406403a107e5416fint, 0x1f86376e8981c217898751ad8746757d42aa7b90eeb791c09e4a3ec03251cf9de405aba9ec61deca6355c77b0e5f4cbint, 0x18df5659a8e1242bdd855ea1f4a867514c22040799b7d3e1fea34418498309d96c7a849687f33b46c096efecddf39464int, 0x263757a60da1f59ac5e41dfebec8eb24519f50035ba51bc18002b8a7ed57c8a4cc664e4b7aa3e77e4a76403db9c3caint, y_num_sq_3_3(x), y_num_3(x), y_num_sq_4_2(x), y_num_sq_3_4(x), y_num_4(x), y_num_sq_4_3(x));
    lemma_horner_level(x, 0x1f86376e8981c217898751ad8746757d42aa7b90eeb791c09e4a3ec03251cf9de405aba9ec61deca6355c77b0e5f4cbint, 0x661f5f8f8b77ccabfad54e133edba1bdc2e1002074e43dbffb823486e61cbf2629bd52026ebea0932f51fa9bb7c092int, 0xcc786baa966e66f4a384c86a3b49942552e2d658a31ce2c344be4b91400da7d26d521628b00523b8dfe240c72de1f6int, 0x162f2a7e4d2633395102a634ea18b4f19e70f75e74a3e25ce4beeb0b4c041d86f30e863f871b996a3ff6232e3fb747eint, 0xf7dff75df6634fa85af16459baef777a68d92254be1716aef40fa67538d6ccc869cd40ca5771f1da6d0b5b0310dfaint, y_num_sq_3_2(x), y_num_2(x), y_num_sq_4_1(x), y_num_sq_3_3(x), y_num_3(x), y_num_sq_4_2(x));
    lemma_horner_level(x, 0x1f86376e8981c217898751ad8746757d42aa7b90eeb791c09e4a3ec03251cf9de405aba9ec61deca6355c77b0e5f4cbint, 0xa93d626ca9abcdccfcccaabed80ad66b4e89fde9e7779fe9c27004bc24c8fef5f2f127b6839697a5044008d8ebfafecint, 0x134996a104ee5811d51036d776fb46831223e96c254f383d0f906343eb67ad34d6c56711962fa8bfe097e75a2e41c696int, 0x19124220b2b048d01e47f574f65ef4a0af301ca77ac8313eaa3033f0f97c3157edd22f2b49e2f1ccb17bd34b166b5657int, 0x1761ba43a776ddf6290dcf3d14a58ee749f946cd61f6fb667497855b1a23c0506a93426aeb351dd4d756d3e47f24617int, y_num_sq_3_1(x), y_num_1(x), y_num_sq_4_0(x), y_num_sq_3_2(x), y_num_2(x), y_num_sq_4_1(x));
    lemma_horner_level(x, 0x1f86376e8981c217898751ad8746757d42aa7b90eeb791c09e4a3ec03251cf9de405aba9ec61deca6355c77b0e5f4cbint, 0xb93569052886f973765dc3beb4ca6a4e16dd19ec38047c6547c2e185378df3a9f120b405948aee32b720f3f22570e2dint, 0x90d97c81ba24ee0259d1f094980dcfa11ad138e48a869522b52af6c956543d3cd0c7aee9b3ba3c2be9845719707bb33int, 0x0int, 0xaf990dbdbf8d76a4a9ed4cbfba567cf7bf1f57eae7ed70cad2b62443490aaa406c6fb1d16a06e25412a49a894dfdccint, y_num_sq_3_0(x), y_num_0(x), times(x, y_num_sq_4_0(x)), y_num_sq_3_1(x), y_num_1(x), y_num_sq_4_0(x));
    lemma_product_level(x, 0x1f86376e8981c217898751ad8746757d42aa7b90eeb791c09e4a3ec03251cf9de405aba9ec61deca6355c77b0e5f4cbint, y_num_3(x), y_num_4(x), y_num_0(x), y_num_sq_3_0(x), y_num_sq_4_0(x));
}

pub(crate) proof fn lemma_y_num_sq_step_2(x: int)
    ensures
        congruent(y_num_sq_2_0(x), times(y_num_2(x), y_num_0(x))),
{
    lemma_times_zero(x);
    lemma_y_num_sq_step_3(x);
    lemma_congruent_refl(y_num_sq_3_15(x), 0xcc786baa966e66f4a384c86a3b49942552e2d658a31ce2c344be4b91400da7d26d521628b00523b8dfe240c72de1f6int * 0int + y_num_sq_3_15(x));
    lemma_horner_level(x, 0xcc786baa966e66f4a384c86a3b49942552e2d658a31ce2c344be4b91400da7d26d521628b00523b8dfe240c72de1f6int, 0x193066e443bbff29dd489657eb1a552af4c01d47c6997b7b7a5f1c3bb3cb0b11bc0d6544cf6c806c4a8b6284f7f46d24int, 0x15e6be4e990f03ce4ea50b3b42df2eb5cb181d8f84965a3957add4fa95af01b2b665027efec01c7704b456be69c8b604int, 0xccd4325f2f0a195db8f266dcff7f8f9237f26562e91c00ac95c30bd8aeb4225b77a5fd2f9de3a06438d6c8b131e1868int, 0xac35b8bb55582cc8453f5d34bc07ec53c0227c5d805673f947beda48849ce851a2a8f53c3bc602f77347b113764554int, y_num_sq_2_15(x), y_num_15(x), y_num_sq_3_14(x), y_num_sq_3_15(x), 0int, y_num_sq_3_15(x));
    lemma_horner_level(x, 0xcc786baa966e66f4a384c86a3b49942552e2d658a31ce2c344be4b91400da7d26d521628b00523b8dfe240c72de1f6int, 0x670297201c11529023dd68f6f7ac638f894eb412a27f7659b8aa6c4125280f0f4cf5f9354732d87572ab5b4df48993eint, 0x5c129645e44cf1102a159f748c4a3fc5e673d81d7e86568d9ab0f5d396a7ce46ba1049b6579afb7866b1e715475224bint, 0x19ad96e7e178dc379a3aec243f579a8eb005298371a989c0af0f3708f962173db6843a388d484f0af080b8453a5f087bint, 0x2d3f7192afc660ca3b36e7ff2ced33de7bcb069e99f0a282b495795d0ee0c484e11f144fe6be641c2af4eb4bd5eaedint, y_num_sq_2_14(x), y_num_14(x), y_num_sq_3_13(x), y_num_sq_2_15(x), y_num_15(x), y_num_sq_3_14(x));
    lemma_horner_level(x, 0xcc786baa966e66f4a384c86a3b49942552e2d658a31ce2c344be4b91400da7d26d521628b00523b8dfe240c72de1f6int, 0xd1f0c999ebde6b41658193cb19db6714126b090df6e9b8e5c0b2c39dcdb4aeb52908947fd950840be7de20559e41898int, 0x245a394ad1eca9b72fc00ae7be315dc757b3b080d4c158013e6632d3c40659cc6cf90ad1c232a6442d9d3f5db980133int, 0x72d4534556442a0722d02c231456213e17332e2020e28dc8d6ad6f950bf113e9b277a41841742987e3f8c8cd5545866int, 0x11dd6ab448ee83ee5b2a5bfa1d4273632bb73b89fbe18085856b719b8266cf33435f43b58749b5cd3314928802ad70int, y_num_sq_2_13(x), y_num_13(x), y_num_sq_3_12(x), y_num_sq_2_14(x), y_num_14(x), y_num_sq_3_13(x));
    lemma_horner_level(x, 0xcc786baa966e66f4a384c86a3b49942552e2d658a31ce2c344be4b91400da7d26d521628b00523b8dfe240c72de1f6int, 0x2244d017dcc7596ef2907b55b67d7c1cf20810aad5931d604d5ee8b31e8367e1fb60ab9ff22521919030ae2519fa632int, 0xb182cac101b9399d155096004f53f447aa7b12a3426b08ec02710e807b4633f06c851c1919211f20d4c04f00b971ef8int, 0x142011ddb013cb80a61d31b44ce51d25e8bf6958501eae9c65ee5eda20fe773cf91fa51c1a32807f26b00494e8aa1cffint, 0x573c3d988db1f4870da693471d90c973a0596b7b44e4c6479ba35e9e066b713b0ff29df8b508ba97688f1fe58d9357int, y_num_sq_2_12(x), y_num_12(x), y_num_sq_3_11(x), y_num_sq_2_13(x), y_num_13(x), y_num_sq_3_12(x));
    lemma_horner_level(x, 0xcc786baa966e66f4a384c86a3b49942552e2d658a31ce2c344be4b91400da7d26d521628b00523b8dfe240c72de1f6int, 0x1c76c658e3f28b358d5c6e37c1d3d137f432c4f5e869349539e46805f9776b348e1ae11afa4037c1f4675a8ecb55d9int, 0x18b46a908f36f6deb918c143fed2edcc523559b8aaf0c2462e6bfe7f911f643249d9cdf41b44d606ce07c8a4d0074d8eint, 0x11af6324bc88ce073ad69b01c3d847a52cd39c73d0fc8199417409ddf4142eb516f27bf1f5b365e58bb5654b25f25ec1int, 0xc240c53d36f0adfc678492c6280d269abba895bb6937e42c2a0825fad989e1958d464ba316e344b69bcfa0dff61814int, y_num_sq_2_11(x), y_num_11(x), y_num_sq_3_10(x), y_num_sq_2_12(x), y_num_12(x), y_num_sq_3_11(x));
    lemma_horner_level(x, 0xcc786baa966e66f4a384c86a3b49942552e2d658a31ce2c344be4b91400da7d26d521628b00523b8dfe240c72de1f6int, 0x17627a95214e1a5dd5ed7661439367742c6e2b457472e210b0736052ba957c8d75907fbf71fec9fd761b732dc9ce7f58int, 0x19713e47937cd1be0dfd0b8f1d43fb93cd2fcbcb6caf493fd1183e416389e61031bf3a5cce3fbafce813711ad011c132int, 0xddd8c9066566ac69976983ec5d1b2512e2082e33bde284fe7d84f3927f7384341e215130ffdd4ba7a9c46c6d27c0d71int, 0xc80d838a86e5367aad3001703c48e74a3c3cbf7da522c4ef72b4bcabae98be041d355c827af5a3079f5a87ab6b726fint, y_num_sq_2_10(x), y_num_10(x), y_num_sq_3_9(x), y_num_sq_2_11(x), y_num_11(x), y_num_sq_3_10(x));
    lemma_horner_level(x, 0xcc786baa966e66f4a384c86a3b49942552e2d658a31ce2c344be4b91400da7d26d521628b00523b8dfe240c72de1f6int, 0x256f8d1629cdc6c57451adb3a36031d147dc1547f531351d5b424fca0f74e4ad07cba9b30cb8d2fa3c89e0fa038dd93int, 0xe1bba7a1186bdb5223abde7ada14a23c42a0ca7915af6fe06985e7ed1e4d43b9b3f7055dd4eba6f2bafaaebca731c30int, 0x69a18d05e59384605dd30bb0ed0931506850f0306536ba201c0af3e2802e0e85e36544c9d209a8ba946fd47e180a4b9int, 0x6eeef4837d7a4b641e626466afd150932106856a49f3f53e1454320b9770ca75f09a9ec748d70cadb0e3c6dc2327d2int, y_num_sq_2_9(x), y_num_9(x), y_num_sq_3_8(x), y_num_sq_2_10(x), y_num_10(x), y_num_sq_3_9(x));
    lemma_horner_level(x, 0xcc786baa966e66f4a384c86a3b49942552e2d658a31ce2c344be4b91400da7d26d521628b00523b8dfe240c72de1f6int, 0x1b76f932a4de393fe3ba0b352788521a1f589179508b3fecf4ad25a4643eb0e9c46e1308eb27d9e396aba8c2822312cint, 0x9fc4018bd96684be88c9e221e4da1bb8f3abd16679dc26c1e8b6e6a1f20cabe69d65201c78607a360370e577bdba587int, 0x19eee2f76f00189d41e22006be785a05f85c0418107f2bd3c79056c8866b11596f8b52871e09ff62a5c33e4c7430a958int, 0x4e83c018ba5ac57c02287b422b67c6b8bc7e3411924f26555e143f304c4bb56d61f99d6e8e3f4ade608ad4c2b48cb2int, y_num_sq_2_8(x), y_num_8(x), y_num_sq_3_7(x), y_num_sq_2_9(x), y_num_9(x), y_num_sq_3_8(x));
    lemma_horner_level(x, 0xcc786baa966e66f4a384c86a3b49942552e2d658a31ce2c344be4b91400da7d26d521628b00523b8dfe240c72de1f6int, 0x8bad1c104e438bd26492e236eb9b2b74c0a63982ae5b7bd8aedd9fd4723b80c91aef597385204407b0f1633e52e49f5int, 0x987c8d5333ab86fde9926bd2ca6c674170a05bfe3bdd81ffd038da6c26c842642f64550fedfe935a15e4ca31870fb29int, 0x184c7d81b7ec914a38d87c984bd904185a5e2a63b9888aebfeb9fdd54650503ec1ef80a7a64e03a8caf832aac94f554cint, 0x4aeffb37b500754372336fc18b9da5f17865e28045ebb474b2296b3f31171dc625fd4addfcae94d1950038612a4937int, y_num_sq_2_7(x), y_num_7(x), y_num_sq_3_6(x), y_num_sq_2_8(x), y_num_8(x), y_num_sq_3_7(x));
    lemma_horner_level(x, 0xcc786baa966e66f4a384c86a3b49942552e2d658a31ce2c344be4b91400da7d26d521628b00523b8dfe240c72de1f6int, 0x1597788f3b7ab92d58765faa023ac5053b6e453a2531d8a814241c96d349d36a61d1b4b655116f48230e7d063626c6f4int, 0x4ab0b9bcfac1bbcb2c977d027796b3ce75bb8ca2be184cb5231413c4d634f3747a87ac2460f415ec961f8855fe9d6f2int, 0x3402a2d1c204cfe789296602503db4b95129710f25e66c6dae736560def18e0a93a1135299dc0d5f5ba0fbf0990a1bint, 0x24b49eb150126010ecb9cf181859052570a2f076b962def06e4ee4bb0ca39ccdcc3886f53e52d58b3e0a4379eb8519int, y_num_sq_2_6(x), y_num_6(x), y_num_sq_3_5(x), y_num_sq_2_7(x), y_num_7(x), y_num_sq_3_6(x));
    lemma_horner_level(x, 0xcc786baa966e66f4a384c86a3b49942552e2d658a31ce2c344be4b91400da7d26d521628b00523b8dfe240c72de1f6int, 0x12a175e212fec38cca216a6c2b4f52b5b294d78b5aecc405bd2b9e05eaa0fac4aa355d3047189def140c40860c87ce53int, 0x16603fca40634b6a2211e11db8f0a6a074a7d0d4afadb7bd76505c3d3ad5544e203f6326c95a807299b23ab13633a5f0int, 0x12d8dea2004a8251719a8961b692291095a747f23d1a86388731d529d75cf9556bc4e91fb264604df9f4cd846d5d7321int, 0xaff11e94b450049ae5a23386285541a01bc7ef1cdb2142dbe43c4383b01c477bb71e95f4407ef4a12616bfdfc71c4aint, y_num_sq_2_5(x), y_num_5(x), y_num_sq_3_4(x), y_num_sq_2_6(x), y_num_6(x), y_num_sq_3_5(x));
    lemma_horner_level(x, 0xcc786baa966e66f4a384c86a3b49942552e2d658a31ce2c344be4b91400da7d26d521628b00523b8dfe240c72de1f6int, 0x4fe751d269e87701c6646afaa8876388b671ff68b163974e8a50ebebd903e49805f7bbc98b9cdf925ac59032d839f17int, 0x8cc03fdefe0ff135caf4fe2a21529c4195536fbe3ce50b879833fd221351adc2ee7f8dc099040a841b6daecf2e8fedbint, 0x1871055650da887a6e90bf8fcfabc877bc5b423c12404cc3f08ae3ec26ae9a7af340f73092c59967406403a107e5416fint, 0x452b8ecb127b4ff8b7980baebe80ebe05c3ff405dadaef32a7785ed11b2c64cc43215c7c3db3cc739dcf8752aa0b5eint, y_num_sq_2_4(x), y_num_4(x), y_num_sq_3_3(x), y_num_sq_2_5(x), y_num_5(x), y_num_sq_3_4(x));
    lemma_horner_level(x, 0xcc786baa966e66f4a384c86a3b49942552e2d658a31ce2c344be4b91400da7d26d521628b00523b8dfe240c72de1f6int, 0x196a5e0173c473000e0127ef1b27d8cbc615fe0f4d249d1518dbe8594fbcedc9fbce923ebdbfc3aa3c5e41c25373b751int, 0x1f86376e8981c217898751ad8746757d42aa7b90eeb791c09e4a3ec03251cf9de405aba9ec61deca6355c77b0e5f4cbint, 0x661f5f8f8b77ccabfad54e133edba1bdc2e1002074e43dbffb823486e61cbf2629bd52026ebea0932f51fa9bb7c092int, 0xf7dff75df6634fa85af16459baef777a68d92254be1716aef40fa67538d6ccc869cd40ca5771f1da6d0b5b0310df9int, y_num_sq_2_3(x), y_num_3(x), y_num_sq_3_2(x), y_num_sq_2_4(x), y_num_4(x), y_num_sq_3_3(x));
    lemma_horner_level(x, 0xcc786baa966e66f4a384c86a3b49942552e2d658a31ce2c344be4b91400da7d26d521628b00523b8dfe240c72de1f6int, 0x9b068956eb1c7218b09189c1b21c6c2f4ea9d56dc57c17630bd9d3b5865f6ee6a5ea9301022cecf8c424de400bd1125int, 0xcc786baa966e66f4a384c86a3b49942552e2d658a31ce2c344be4b91400da7d26d521628b00523b8dfe240c72de1f6int, 0xa93d626ca9abcdccfcccaabed80ad66b4e89fde9e7779fe9c27004bc24c8fef5f2f127b6839697a5044008d8ebfafecint, 0x647bf3ae320019e0299cfb41b49ebe63f6421c362f3438eb97e16bc9de350af0843674a57ca4809c4bce19353e581int, y_num_sq_2_2(x), y_num_2(x), y_num_sq_3_1(x), y_num_sq_2_3(x), y_num_3(x), y_num_sq_3_2(x));
    lemma_horner_level(x, 0xcc786baa966e66f4a384c86a3b49942552e2d658a31ce2c344be4b91400da7d26d521628b00523b8dfe240c72de1f6int, 0x10e1c6d8e7dd154d22394535c87b3fad5482df20933502bb4a81d991584859d5d0b31a35db68c4a8089df68b715fbce4int, 0x134996a104ee5811d51036d776fb46831223e96c254f383d0f906343eb67ad34d6c56711962fa8bfe097e75a2e41c696int, 0xb93569052886f973765dc3beb4ca6a4e16dd19ec38047c6547c2e185378df3a9f120b405948aee32b720f3f22570e2dint, 0x97a82b044deb263f515a8edf6a581185ae691986e31c1e5f54875479eb414f3b5141975c6cf37a69c955da5482f247int, y_num_sq_2_1(x), y_num_1(x), y_num_sq_3_0(x), y_num_sq_2_2(x), y_num_2(x), y_num_sq_3_1(x));
    lemma_horner_level(x, 0xcc786baa966e66f4a384c86a3b49942552e2d658a31ce2c344be4b91400da7d26d521628b00523b8dfe240c72de1f6int, 0x8d05dca914591b6759bc0efeefb9c9485fe7d50d788c592ae438880aa54b9a4089d4ccd86623b70f6353bbb24338790int, 0x90d97c81ba24ee0259d1f094980dcfa11ad138e48a869522b52af6c956543d3cd0c7aee9b3ba3c2be9845719707bb33int, 0x0int, 0x472f30e12ae991a0c4544347aeb8663df1879a56d97b45072a7e2149cc4d60b4bf784046e0d0f45e4db0e08c818b56int, y_num_sq_2_0(x), y_num_0(x), times(x, y_num_sq_3_0(x)), y_num_sq_2_1(x), y_num_1(x), y_num_sq_3_0(x));
    lemma_product_level(x, 0xcc786baa966e66f4a384c86a3b49942552e2d658a31ce2c344be4b91400da7d26d521628b00523b8dfe240c72de1f6int, y_num_2(x), y_num_3(x), y_num_0(x), y_num_sq_2_0(x), y_num_sq_3_0(x));
}

pub(crate) proof fn lemma_y_num_sq_step_1(x: int)
    ensures
        congruent(y_num_sq_1_0(x), times(y_num_1(x), y_num_0(x))),
{
    lemma_times_zero(x);
    lemma_y_num_sq_step_2(x);
    lemma_congruent_refl(y_num_sq_2_15(x), 0x134996a104ee5811d51036d776fb46831223e96c254f383d0f906343eb67ad34d6c56711962fa8bfe097e75a2e41c696int * 0int + y_num_sq_2_15(x));
    lemma_horner_level(x, 0x134996a104ee5811d51036d776fb46831223e96c254f383d0f906343eb67ad34d6c56711962fa8bfe097e75a2e41c696int, 0xc825a8ba33fcbcd0deeb39d01431da76ff878e23b168d050ec136e96b7fa4db98ad56ff21bc0e1cac95b8f52e2d10f6int, 0x15e6be4e990f03ce4ea50b3b42df2eb5cb181d8f84965a3957add4fa95af01b2b665027efec01c7704b456be69c8b604int, 0x670297201c11529023dd68f6f7ac638f894eb412a27f7659b8aa6c4125280f0f4cf5f9354732d87572ab5b4df48993eint, 0x103e8e0ed3af2883f59c5ea864044a94dbbb628096abedc7556d4c1a3cbe380eb0a769456f7cf5cb573832055d63d3e0int, y_num_sq_1_15(x), y_num_15(x), y_num_sq_2_14(x), y_num_sq_2_15(x), 0int, y_num_sq_2_15(x));
    lemma_horner_level(x, 0x134996a104ee5811d51036d776fb46831223e96c254f383d0f906343eb67ad34d6c56711962fa8bfe097e75a2e41c696int, 0x10b6b7b3c5ff7cac88c8b8c3fdd4b8476d804a3daecee9e4e4279450dcc35402d400c8d13edaeb6cce077eec63581080int, 0x5c129645e44cf1102a159f748c4a3fc5e673d81d7e86568d9ab0f5d396a7ce46ba1049b6579afb7866b1e715475224bint, 0xd1f0c999ebde6b41658193cb19db6714126b090df6e9b8e5c0b2c39dcdb4aeb52908947fd950840be7de20559e41898int, 0x444a71ce7c6fe8adb92437bc80e42769bea1350d229d4aebcc949c2f61bae1bcfc0f408c0cf8164d94064a4165b661eint, y_num_sq_1_14(x), y_num_14(x), y_num_sq_2_13(x), y_num_sq_1_15(x), y_num_15(x), y_num_sq_2_14(x));
    lemma_horner_level(x, 0x134996a104ee5811d51036d776fb46831223e96c254f383d0f906343eb67ad34d6c56711962fa8bfe097e75a2e41c696int, 0x10b46130f1b8233799e63f40f1e428f3dfadb9af5c201beb880739fa30d87201d4c9d6d15582f0fa6aeb79f0ef35f67bint, 0x245a394ad1eca9b72fc00ae7be315dc757b3b080d4c158013e6632d3c40659cc6cf90ad1c232a6442d9d3f5db980133int, 0x2244d017dcc7596ef2907b55b67d7c1cf20810aad5931d604d5ee8b31e8367e1fb60ab9ff22521919030ae2519fa632int, 0x1af67b45ed6bd1bd776caf11b102c806f9937e0f440b4bce5426f2f2572d67752103ead3d5fe695216f0c9ac3db80cbint, y_num_sq_1_13(x), y_num_13(x), y_num_sq_2_12(x), y_num_sq_1_14(x), y_num_14(x), y_num_sq_2_13(x));
    lemma_horner_level(x, 0x134996a104ee5811d51036d776fb46831223e96c254f383d0f906343eb67ad34d6c56711962fa8bfe097e75a2e41c696int, 0x1ad7e6f52dd3af01a3168e1860cf13c3eba1a0be0bdf093a87dda70df8d34460bf062fa578723f612937276fd9742c3int, 0xb182cac101b9399d155096004f53f447aa7b12a3426b08ec02710e807b4633f06c851c1919211f20d4c04f00b971ef8int, 0x1c76c658e3f28b358d5c6e37c1d3d137f432c4f5e869349539e46805f9776b348e1ae11afa4037c1f4675a8ecb55d9int, 0x83a93067cccc737e50779a4958e6a358280c1b652a366339697768aaba7e370bf67abe9d1f86861540eed1819361932int, y_num_sq_1_12(x), y_num_12(x), y_num_sq_2_11(x), y_num_sq_1_13(x), y_num_13(x), y_num_sq_2_12(x));
    lemma_horner_level(x, 0x134996a104ee5811d51036d776fb46831223e96c254f383d0f906343eb67ad34d6c56711962fa8bfe097e75a2e41c696int, 0x46fb56aa6cd70f7814f2f9a8632c10f89f6621213ad44d645ffd44dfa7dd2cf38518478999983a0cb02d9fdaa8203a4int, 0x18b46a908f36f6deb918c143fed2edcc523559b8aaf0c2462e6bfe7f911f643249d9cdf41b44d606ce07c8a4d0074d8eint, 0x17627a95214e1a5dd5ed7661439367742c6e2b457472e210b0736052ba957c8d75907fbf71fec9fd761b732dc9ce7f58int, 0x1252db6eb4ee81191dbf93e5b46dc13b75e9ff3fa8cafd9bbc09a9228d04ef5f5cc8ccc748b116e126f35daade9142b8int, y_num_sq_1_11(x), y_num_11(x), y_num_sq_2_10(x), y_num_sq_1_12(x), y_num_12(x), y_num_sq_2_11(x));
    lemma_horner_level(x, 0x134996a104ee5811d51036d776fb46831223e96c254f383d0f906343eb67ad34d6c56711962fa8bfe097e75a2e41c696int, 0xe97fdd11c68d24c9659a48cbadb3bb33dc1af82ea1ec2c5aeb25dc4cc250c81bb1c779ced68dabfdb78553d7e94e0d9int, 0x19713e47937cd1be0dfd0b8f1d43fb93cd2fcbcb6caf493fd1183e416389e61031bf3a5cce3fbafce813711ad011c132int, 0x256f8d1629cdc6c57451adb3a36031d147dc1547f531351d5b424fca0f74e4ad07cba9b30cb8d2fa3c89e0fa038dd93int, 0x12dee9495683b8e51eddba68fa096be10b2e0f54747cded1f2034d85b357d6823df065a6bb6d7b2b39e21658078f9412int, y_num_sq_1_10(x), y_num_10(x), y_num_sq_2_9(x), y_num_sq_1_11(x), y_num_11(x), y_num_sq_2_10(x));
    lemma_horner_level(x, 0x134996a104ee5811d51036d776fb46831223e96c254f383d0f906343eb67ad34d6c56711962fa8bfe097e75a2e41c696int, 0x1667f8f3641562f94d9f26ceaa30b5d89881519fa1dff34a07549074b27111a9c0870d46b1ad75eab9906ed561b1ddd6int, 0xe1bba7a1186bdb5223abde7ada14a23c42a0ca7915af6fe06985e7ed1e4d43b9b3f7055dd4eba6f2bafaaebca731c30int, 0x1b76f932a4de393fe3ba0b352788521a1f589179508b3fecf4ad25a4643eb0e9c46e1308eb27d9e396aba8c2822312cint, 0xa76d727df22666bf19d6292b5900333f991f0cde6bad5806c2b1620dd833bddd21e01be8b3aa2083158e6df8801e662int, y_num_sq_1_9(x), y_num_9(x), y_num_sq_2_8(x), y_num_sq_1_10(x), y_num_10(x), y_num_sq_2_9(x));
    lemma_horner_level(x, 0x134996a104ee5811d51036d776fb46831223e96c254f383d0f906343eb67ad34d6c56711962fa8bfe097e75a2e41c696int, 0xf96588024364e1054496809293dddcd9503d16ec5fdf4dfaf26bde6b9c261dc40b4d2d39355c7726e111353257bb034int, 0x9fc4018bd96684be88c9e221e4da1bb8f3abd16679dc26c1e8b6e6a1f20cabe69d65201c78607a360370e577bdba587int, 0x8bad1c104e438bd26492e236eb9b2b74c0a63982ae5b7bd8aedd9fd4723b80c91aef597385204407b0f1633e52e49f5int, 0x767fc7185de95ffde729e5361c9ae7bf5af427a395fc05896182b524747cbc59570e8a128d526ad15287e637baa0291int, y_num_sq_1_8(x), y_num_8(x), y_num_sq_2_7(x), y_num_sq_1_9(x), y_num_9(x), y_num_sq_2_8(x));
    lemma_horner_level(x, 0x134996a104ee5811d51036d776fb46831223e96c254f383d0f906343eb67ad34d6c56711962fa8bfe097e75a2e41c696int, 0x19598f11b4f2b1b284f927dcf3a9d0dc5fe0feb9dd211cddae1ecffb3ea26d6fac8439ddc9a87b00e27d54690f4c442bint, 0x987c8d5333ab86fde9926bd2ca6c674170a05bfe3bdd81ffd038da6c26c842642f64550fedfe935a15e4ca31870fb29int, 0x1597788f3b7ab92d58765faa023ac5053b6e453a2531d8a814241c96d349d36a61d1b4b655116f48230e7d063626c6f4int, 0x7119a48f2a6968fbbf123f410260c8180a08ce4bcf51389e9b81f3313ab49771f503e830c8be3dd401a2b862496286dint, y_num_sq_1_7(x), y_num_7(x), y_num_sq_2_6(x), y_num_sq_1_8(x), y_num_8(x), y_num_sq_2_7(x));
    lemma_horner_level(x, 0x134996a104ee5811d51036d776fb46831223e96c254f383d0f906343eb67ad34d6c56711962fa8bfe097e75a2e41c696int, 0x10ef811e34af3ed88d615e93cd6820b1fa6ad7a61e243b0884c5c85d7505ca62a093beb4a85e7f7164a7673ee8072e5eint, 0x4ab0b9bcfac1bbcb2c977d027796b3ce75bb8ca2be184cb5231413c4d634f3747a87ac2460f415ec961f8855fe9d6f2int, 0x12a175e212fec38cca216a6c2b4f52b5b294d78b5aecc405bd2b9e05eaa0fac4aa355d3047189def140c40860c87ce53int, 0x3765f4b2482ce218c8d0ca09ea5b138ae652510c0d26e405a30e45ed75d12ea82db8c03dfccb061c5c9cbf202e43943int, y_num_sq_1_6(x), y_num_6(x), y_num_sq_2_5(x), y_num_sq_1_7(x), y_num_7(x), y_num_sq_2_6(x));
    lemma_horner_level(x, 0x134996a104ee5811d51036d776fb46831223e96c254f383d0f906343eb67ad34d6c56711962fa8bfe097e75a2e41c696int, 0x193b972196e42e31bf889edbac1d410a62572025cf8327c0f8df6aaf4863abbc98ff8ac969dbae758b93f424b343def3int, 0x16603fca40634b6a2211e11db8f0a6a074a7d0d4afadb7bd76505c3d3ad5544e203f6326c95a807299b23ab13633a5f0int, 0x4fe751d269e87701c6646afaa8876388b671ff68b163974e8a50ebebd903e49805f7bbc98b9cdf925ac59032d839f17int, 0x1098ad2dfe4f5dc26d97f3bf31f821fb47a5cdadd86679512533acc2821b2e4ef2ffb195c6773d5ea7ae807722abd04cint, y_num_sq_1_5(x), y_num_5(x), y_num_sq_2_4(x), y_num_sq_1_6(x), y_num_6(x), y_num_sq_2_5(x));
    lemma_horner_level(x, 0x134996a104ee5811d51036d776fb46831223e96c254f383d0f906343eb67ad34d6c56711962fa8bfe097e75a2e41c696int, 0x398dbf5e16160cb656c887e5ca34a07337c72526d552bd2c6abfd37d2ff90020ca2d679782a0ca4d520ddb23da89230int, 0x8cc03fdefe0ff135caf4fe2a21529c4195536fbe3ce50b879833fd221351adc2ee7f8dc099040a841b6daecf2e8fedbint, 0x196a5e0173c473000e0127ef1b27d8cbc615fe0f4d249d1518dbe8594fbcedc9fbce923ebdbfc3aa3c5e41c25373b751int, 0x6865556fdb97b0c413e4e040c37353a4eb135998d168499db23b0f98ef70ee5a32b2fe3f29a8c54ab60ae9d9f739259int, y_num_sq_1_4(x), y_num_4(x), y_num_sq_2_3(x), y_num_sq_1_5(x), y_num_5(x), y_num_sq_2_4(x));
    lemma_horner_level(x, 0x134996a104ee5811d51036d776fb46831223e96c254f383d0f906343eb67ad34d6c56711962fa8bfe097e75a2e41c696int, 0x15330e85c01c21c887a99589558f2c605f1a6c12f38c1cf589e53c3717e74ba9fa678c7edfcd467ce5097b2679111565int, 0x1f86376e8981c217898751ad8746757d42aa7b90eeb791c09e4a3ec03251cf9de405aba9ec61deca6355c77b0e5f4cbint, 0x9b068956eb1c7218b09189c1b21c6c2f4ea9d56dc57c17630bd9d3b5865f6ee6a5ea9301022cecf8c424de400bd1125int, 0x1761ba43a776ddf6290dcf3d14a58ee749f946cd61f6fb667497855b1a23c0506a93426aeb351dd4d756d3e47f24616int, y_num_sq_1_3(x), y_num_3(x), y_num_sq_2_2(x), y_num_sq_1_4(x), y_num_4(x), y_num_sq_2_3(x));
    lemma_horner_level(x, 0x134996a104ee5811d51036d776fb46831223e96c254f383d0f906343eb67ad34d6c56711962fa8bfe097e75a2e41c696int, 0x163037217d31bb030d0cae2fa5a9d8b5c797eca262e9bdb04087850a5d17d4710254292b5d88da6ce5c9ddd7c0686b9bint, 0xcc786baa966e66f4a384c86a3b49942552e2d658a31ce2c344be4b91400da7d26d521628b00523b8dfe240c72de1f6int, 0x10e1c6d8e7dd154d22394535c87b3fad5482df20933502bb4a81d991584859d5d0b31a35db68c4a8089df68b715fbce4int, 0x97a82b044deb263f515a8edf6a581185ae691986e31c1e5f54875479eb414f3b5141975c6cf37a69c955da5482f247int, y_num_sq_1_2(x), y_num_2(x), y_num_sq_2_1(x), y_num_sq_1_3(x), y_num_3(x), y_num_sq_2_2(x));
    lemma_horner_level(x, 0x134996a104ee5811d51036d776fb46831223e96c254f383d0f906343eb67ad34d6c56711962fa8bfe097e75a2e41c696int, 0x54921add626d218ad59986cb384379ff6daea70568144fe786e650a902fb2786e5fb1fc716c9a419f4112ed4b3384d7int, 0x134996a104ee5811d51036d776fb46831223e96c254f383d0f906343eb67ad34d6c56711962fa8bfe097e75a2e41c696int, 0x8d05dca914591b6759bc0efeefb9c9485fe7d50d788c592ae438880aa54b9a4089d4ccd86623b70f6353bbb24338790int, 0xe4e3d19e5789762e3b032cdd46bf258cd746f29afd324484d88ceca636aeb8d659ce6e101d7d4a94b56591ec18027d7int, y_num_sq_1_1(x), y_num_1(x), y_num_sq_2_0(x), y_num_sq_1_2(x), y_num_2(x), y_num_sq_2_1(x));
    lemma_horner_level(x, 0x134996a104ee5811d51036d776fb46831223e96c254f383d0f906343eb67ad34d6c56711962fa8bfe097e75a2e41c696int, 0x1319f3ff568130bfccbf72e17e95294ab019deae4c1b14cbae85aba27e8e0074e6edbbab52e7bb6cccaefcd9b71b658aint, 0x90d97c81ba24ee0259d1f094980dcfa11ad138e48a869522b52af6c956543d3cd0c7aee9b3ba3c2be9845719707bb33int, 0x0int, 0x6b6f8f17b77418dee157eff948996f9b8ca6686d2bc421331c921d83d8ce4d089f56e4759d08e338d95f1a791823508int, y_num_sq_1_0(x), y_num_0(x), times(x, y_num_sq_2_0(x)), y_num_sq_1_1(x), y_num_1(x), y_num_sq_2_0(x));
    lemma_product_level(x, 0x134996a104ee5811d51036d776fb46831223e96c254f383d0f906343eb67ad34d6c56711962fa8bfe097e75a2e41c696int, y_num_1(x), y_num_2(x), y_num_0(x), y_num_sq_1_0(x), y_num_sq_2_0(x));
}

pub(crate) proof fn lemma_y_num_sq_step_0(x: int)
    ensures
        congruent(y_num_sq_0_0(x), times(y_num_0(x), y_num_0(x))),
{
    lemma_times_zero(x);
    lemma_y_num_sq_step_1(x);
    lemma_congruent_refl(y_num_sq_1_15(x), 0x90d97c81ba24ee0259d1f094980dcfa11ad138e48a869522b52af6c956543d3cd0c7aee9b3ba3c2be9845719707bb33int * 0int + y_num_sq_1_15(x));
    lemma_horner_level(x, 0x90d97c81ba24ee0259d1f094980dcfa11ad138e48a869522b52af6c956543d3cd0c7aee9b3ba3c2be9845719707bb33int, 0x114e816775c39902e2986ad37457f700e1d59f0c160f02a1554c843afdbf5091f02905b01f0070a51b73df874dea6e4fint, 0x15e6be4e990f03ce4ea50b3b42df2eb5cb181d8f84965a3957add4fa95af01b2b665027efec01c7704b456be69c8b604int, 0x10b6b7b3c5ff7cac88c8b8c3fdd4b8476d804a3daecee9e4e4279450dcc35402d400c8d13edaeb6cce077eec63581080int, 0x79fee9eb9fda3f20f2364c41e8e30c89cd4e500960dbe732c5f9adce4eabbb8ec5c4111a9c905987a70dc0cc56772f7int, y_num_sq_0_15(x), y_num_15(x), y_num_sq_1_14(x), y_num_sq_1_15(x), 0int, y_num_sq_1_15(x));
    lemma_horner_level(x, 0x90d97c81ba24ee0259d1f094980dcfa11ad138e48a869522b52af6c956543d3cd0c7aee9b3ba3c2be9845719707bb33int, 0x5943ca2c3bac41f048b4e499a88e3fd39e64771852ed2ed6c750c461378eb091b17d266a502bbd115fc4aae47ef405dint, 0x5c129645e44cf1102a159f748c4a3fc5e673d81d7e86568d9ab0f5d396a7ce46ba1049b6579afb7866b1e715475224bint, 0x10b46130f1b8233799e63f40f1e428f3dfadb9af5c201beb880739fa30d87201d4c9d6d15582f0fa6aeb79f0ef35f67bint, 0x200dddba2ace5588f473b26709384f54fe0f3f2c93315b08e45ab950be80a39a9ddafbec248f2d29ac1fe83a34ffc2dint, y_num_sq_0_14(x), y_num_14(x), y_num_sq_1_13(x), y_num_sq_0_15(x), y_num_15(x), y_num_sq_1_14(x));
    lemma_horner_level(x, 0x90d97c81ba24ee0259d1f094980dcfa11ad138e48a869522b52af6c956543d3cd0c7aee9b3ba3c2be9845719707bb33int, 0xb541ebd62ce60936d8af9751a1b1eb83500aa20113736ab3bdf5e369c657a277de36b3c5ba05dcc0bda3fdf93fb41abint, 0x245a394ad1eca9b72fc00ae7be315dc757b3b080d4c158013e6632d3c40659cc6cf90ad1c232a6442d9d3f5db980133int, 0x1ad7e6f52dd3af01a3168e1860cf13c3eba1a0be0bdf093a87dda70df8d34460bf062fa578723f612937276fd9742c3int, 0xca7de995fae59df92ea4083da5fdd5a461fe783090bb34001a21618906aa5f3e04f2cb1d78cd8cee49484e6b3f7dc3int, y_num_sq_0_13(x), y_num_13(x), y_num_sq_1_12(x), y_num_sq_0_14(x), y_num_14(x), y_num_sq_1_13(x));
    lemma_horner_level(x, 0x90d97c81ba24ee0259d1f094980dcfa11ad138e48a869522b52af6c956543d3cd0c7aee9b3ba3c2be9845719707bb33int, 0xbd52f5b450d872fdd3fc45634980fb499a56a968d4baf2f1eaf42c943b8c3424fe99030f75c1c9c381b9ca11322aa17int, 0xb182cac101b9399d155096004f53f447aa7b12a3426b08ec02710e807b4633f06c851c1919211f20d4c04f00b971ef8int, 0x46fb56aa6cd70f7814f2f9a8632c10f89f6621213ad44d645ffd44dfa7dd2cf38518478999983a0cb02d9fdaa8203a4int, 0x3dcc7517b2d3855f0f6b15353362c0518c470be2f18b8ab2c5750af1c8fb4457f9792e1cc473af639c0e411478406dfint, y_num_sq_0_12(x), y_num_12(x), y_num_sq_1_11(x), y_num_sq_0_13(x), y_num_13(x), y_num_sq_1_12(x));
    lemma_horner_level(x, 0x90d97c81ba24ee0259d1f094980dcfa11ad138e48a869522b52af6c956543d3cd0c7aee9b3ba3c2be9845719707bb33int, 0x1592da97f942047e0b3ba97e63e1a61a9cdeff56994e7e168ac2fc4573c2673bdaa471e537bb86b0cf17cce071833f54int, 0x18b46a908f36f6deb918c143fed2edcc523559b8aaf0c2462e6bfe7f911f643249d9cdf41b44d606ce07c8a4d0074d8eint, 0xe97fdd11c68d24c9659a48cbadb3bb33dc1af82ea1ec2c5aeb25dc4cc250c81bb1c779ced68dabfdb78553d7e94e0d9int, 0x899c865fc7f73c2a829f800cb5288e1797070d66bea096e074f755c57ac14ab8d80d8586160ddc88ea4bcf08b996c6dint, y_num_sq_0_11(x), y_num_11(x), y_num_sq_1_10(x), y_num_sq_0_12(x), y_num_12(x), y_num_sq_1_11(x));
    lemma_horner_level(x, 0x90d97c81ba24ee0259d1f094980dcfa11ad138e48a869522b52af6c956543d3cd0c7aee9b3ba3c2be9845719707bb33int, 0xb0e5f187b546d370ed10134dd51a9ea5afe2ce950c6d621277285c8e1a5b32d287d1fa0de82e9d1695cdf420d233161int, 0x19713e47937cd1be0dfd0b8f1d43fb93cd2fcbcb6caf493fd1183e416389e61031bf3a5cce3fbafce813711ad011c132int, 0x1667f8f3641562f94d9f26ceaa30b5d89881519fa1dff34a07549074b27111a9c0870d46b1ad75eab9906ed561b1ddd6int, 0x8db856408a69820f0e65f6662ca7688681e71e8b7f911f2181a47dc2b93caa3e18592ed419d32f538466b41a2020e41int, y_num_sq_0_10(x), y_num_10(x), y_num_sq_1_9(x), y_num_sq_0_11(x), y_num_11(x), y_num_sq_1_10(x));
    lemma_horner_level(x, 0x90d97c81ba24ee0259d1f094980dcfa11ad138e48a869522b52af6c956543d3cd0c7aee9b3ba3c2be9845719707bb33int, 0x188774a40dc81db608744c72f78b203a072111e7e56a0becf281611cc3f0b8344f9c46c0d78bc6df54dd94ae219d5fd6int, 0xe1bba7a1186bdb5223abde7ada14a23c42a0ca7915af6fe06985e7ed1e4d43b9b3f7055dd4eba6f2bafaaebca731c30int, 0xf96588024364e1054496809293dddcd9503d16ec5fdf4dfaf26bde6b9c261dc40b4d2d39355c7726e111353257bb034int, 0x4e9632eea3bccf30222159ce14df9d99d7889e935aa9c6fc67a970c89d7730fb554c430b2172e55cf1c4e4984e5f9caint, y_num_sq_0_9(x), y_num_9(x), y_num_sq_1_8(x), y_num_sq_0_10(x), y_num_10(x), y_num_sq_1_9(x));
    lemma_horner_level(x, 0x90d97c81ba24ee0259d1f094980dcfa11ad138e48a869522b52af6c956543d3cd0c7aee9b3ba3c2be9845719707bb33int, 0x6a893aa5e4bb7101f357f06190781d929fd6e1dd2bb260350bcde4d70c040150cde57048b00bb2f88dc25ae6bc8e8c8int, 0x9fc4018bd96684be88c9e221e4da1bb8f3abd16679dc26c1e8b6e6a1f20cabe69d65201c78607a360370e577bdba587int, 0x19598f11b4f2b1b284f927dcf3a9d0dc5fe0feb9dd211cddae1ecffb3ea26d6fac8439ddc9a87b00e27d54690f4c442bint, 0x379eee774e6b9e221cd75a8f6ad3b6938a546a76f18e2916fb416d2e20886d30ca8ac5b0e5055868a54990e9477d6d8int, y_num_sq_0_8(x), y_num_8(x), y_num_sq_1_7(x), y_num_sq_0_9(x), y_num_9(x), y_num_sq_1_8(x));
    lemma_horner_level(x, 0x90d97c81ba24ee0259d1f094980dcfa11ad138e48a869522b52af6c956543d3cd0c7aee9b3ba3c2be9845719707bb33int, 0xbc4d85751f1a6c7dce52364b1abae31719edd3551efc790a654258f8fdb24a6d7a57684bafdd216a17b018fd646438bint, 0x987c8d5333ab86fde9926bd2ca6c674170a05bfe3bdd81ffd038da6c26c842642f64550fedfe935a15e4ca31870fb29int, 0x10ef811e34af3ed88d615e93cd6820b1fa6ad7a61e243b0884c5c85d7505ca62a093beb4a85e7f7164a7673ee8072e5eint, 0x3516304049eaa2453c7b6fa1afb2a002571c6a025e2586fb764bfc2e6715711f8f194d76d05a83b31b6569a4384b4faint, y_num_sq_0_7(x), y_num_7(x), y_num_sq_1_6(x), y_num_sq_0_8(x), y_num_8(x), y_num_sq_1_7(x));
    lemma_horner_level(x, 0x90d97c81ba24ee0259d1f094980dcfa11ad138e48a869522b52af6c956543d3cd0c7aee9b3ba3c2be9845719707bb33int, 0x174f49c5c03bc60c00fa767b810882f1a405fabeb8730de687fd55637980ae30410f7bc86964d4ae46fbf38de5d92b28int, 0x4ab0b9bcfac1bbcb2c977d027796b3ce75bb8ca2be184cb5231413c4d634f3747a87ac2460f415ec961f8855fe9d6f2int, 0x193b972196e42e31bf889edbac1d410a62572025cf8327c0f8df6aaf4863abbc98ff8ac969dbae758b93f424b343def3int, 0x1a00b0e42744afc0c64847493e5fc2002afc9073886e78fe66d343a7862f796684c8046f4af9f07e0b9b38feae6e403int, y_num_sq_0_6(x), y_num_6(x), y_num_sq_1_5(x), y_num_sq_0_7(x), y_num_7(x), y_num_sq_1_6(x));
    lemma_horner_level(x, 0x90d97c81ba24ee0259d1f094980dcfa11ad138e48a869522b52af6c956543d3cd0c7aee9b3ba3c2be9845719707bb33int, 0xcc3ebf1f16ef9957f5aa9c267db7437b85c20040e9c87b7ff704690dcc397e4c537aa404dd7d41265ea3f5376f8124int, 0x16603fca40634b6a2211e11db8f0a6a074a7d0d4afadb7bd76505c3d3ad5544e203f6326c95a807299b23ab13633a5f0int, 0x398dbf5e16160cb656c887e5ca34a07337c72526d552bd2c6abfd37d2ff90020ca2d679782a0ca4d520ddb23da89230int, 0x7ca3baf7b412ea575ea29caea777380dd74f96b5c29ddd895243da6b4c62c5aa2e7328ce1af6cd2b2b0ff0642704f94int, y_num_sq_0_5(x), y_num_5(x), y_num_sq_1_4(x), y_num_sq_0_6(x), y_num_6(x), y_num_sq_1_5(x));
    lemma_horner_level(x, 0x90d97c81ba24ee0259d1f094980dcfa11ad138e48a869522b52af6c956543d3cd0c7aee9b3ba3c2be9845719707bb33int, 0x14443ebc394c83fe5ad5e34808a27429a9d33d357acf3b74cce49d871ab286ddc98dbbab785c3849dc864e718f7cc111int, 0x8cc03fdefe0ff135caf4fe2a21529c4195536fbe3ce50b879833fd221351adc2ee7f8dc099040a841b6daecf2e8fedbint, 0x15330e85c01c21c887a99589558f2c605f1a6c12f38c1cf589e53c3717e74ba9fa678c7edfcd467ce5097b2679111565int, 0x31004534f8bc38c2eb6b5c74d045441c255dd0c2f9bce31e81e27aef668f804cd1d69447598675621a08f75285138dfint, y_num_sq_0_4(x), y_num_4(x), y_num_sq_1_3(x), y_num_sq_0_5(x), y_num_5(x), y_num_sq_1_4(x));
    lemma_horner_level(x, 0x90d97c81ba24ee0259d1f094980dcfa11ad138e48a869522b52af6c956543d3cd0c7aee9b3ba3c2be9845719707bb33int, 0x7c27bc7963a43fff956e2b54daad283448e72bc32e4f2b72dd2e081b9dfbd8782ba346d057d8950573ced16e2bfcf1dint, 0x1f86376e8981c217898751ad8746757d42aa7b90eeb791c09e4a3ec03251cf9de405aba9ec61deca6355c77b0e5f4cbint, 0x163037217d31bb030d0cae2fa5a9d8b5c797eca262e9bdb04087850a5d17d4710254292b5d88da6ce5c9ddd7c0686b9bint, 0xaf990dbdbf8d76a4a9ed4cbfba567cf7bf1f57eae7ed70cad2b62443490aaa406c6fb1d16a06e25412a49a894dfdcdint, y_num_sq_0_3(x), y_num_3(x), y_num_sq_1_2(x), y_num_sq_0_4(x), y_num_4(x), y_num_sq_1_3(x));
    lemma_horner_level(x, 0x90d97c81ba24ee0259d1f094980dcfa11ad138e48a869522b52af6c956543d3cd0c7aee9b3ba3c2be9845719707bb33int, 0xe197f78676c63cf22f5595ca27fd4347cd967c12e0a0a9126b1ed8b3a846c1c76fcfec9f7ced5b295764ea86f670c67int, 0xcc786baa966e66f4a384c86a3b49942552e2d658a31ce2c344be4b91400da7d26d521628b00523b8dfe240c72de1f6int, 0x54921add626d218ad59986cb384379ff6daea70568144fe786e650a902fb2786e5fb1fc716c9a419f4112ed4b3384d7int, 0x472f30e12ae991a0c4544347aeb8663df1879a56d97b45072a7e2149cc4d60b4bf784046e0d0f45e4db0e08c818b56int, y_num_sq_0_2(x), y_num_2(x), y_num_sq_1_1(x), y_num_sq_0_3(x), y_num_3(x), y_num_sq_1_2(x));
    lemma_horner_level(x, 0x90d97c81ba24ee0259d1f094980dcfa11ad138e48a869522b52af6c956543d3cd0c7aee9b3ba3c2be9845719707bb33int, 0xc32d61473827ae54e633e0cb9dea5bdfbbc71d7a4b116d7f5da84a4066b0ac5af2f7757f47b76d9df5ef9b36e372069int, 0x134996a104ee5811d51036d776fb46831223e96c254f383d0f906343eb67ad34d6c56711962fa8bfe097e75a2e41c696int, 0x1319f3ff568130bfccbf72e17e95294ab019deae4c1b14cbae85aba27e8e0074e6edbbab52e7bb6cccaefcd9b71b658aint, 0x6b6f8f17b77418dee157eff948996f9b8ca6686d2bc421331c921d83d8ce4d089f56e4759d08e338d95f1a791823509int, y_num_sq_0_1(x), y_num_1(x), y_num_sq_1_0(x), y_num_sq_0_2(x), y_num_2(x), y_num_sq_1_1(x));
    lemma_horner_level(x, 0x90d97c81ba24ee0259d1f094980dcfa11ad138e48a869522b52af6c956543d3cd0c7aee9b3ba3c2be9845719707bb33int, 0x364612fe1011542e6e51ab814b205ea71230349fc2bed82999ca5c4bba637cfbdc1cd1822808b0a87382ad5ddb73d90int, 0x90d97c81ba24ee0259d1f094980dcfa11ad138e48a869522b52af6c956543d3cd0c7aee9b3ba3c2be9845719707bb33int, 0x0int, 0x326d8d3f4532b086740a6efaada978395d6daf17d9918593d10c6b6fee4c3955c34551dfd71b5388161417421adebcbint, y_num_sq_0_0(x), y_num_0(x), times(x, y_num_sq_1_0(x)), y_num_sq_0_1(x), y_num_1(x), y_num_sq_1_0(x));
    lemma_product_level(x, 0x90d97c81ba24ee0259d1f094980dcfa11ad138e48a869522b52af6c956543d3cd0c7aee9b3ba3c2be9845719707bb33int, y_num_0(x), y_num_1(x), y_num_0(x), y_num_sq_0_0(x), y_num_sq_1_0(x));
}

pub(crate) proof fn lemma_curve_y_num_sq_step_3(x: int)
    ensures
        congruent(curve_y_num_sq_3_0(x), times(curve_3(x), y_num_sq_0_0(x))),
{
    lemma_times_zero(x);
    lemma_congruent_refl(0int, 0x1int * 0int + 0int);
    lemma_horner_level(x, 0x1int, 0x30673b1c24bc7c97f094944729554461095cd85335b191fff80dffbbb553b41177f1bb29ff5dc3f24e921b95cfa5796int, 0x30673b1c24bc7c97f094944729554461095cd85335b191fff80dffbbb553b41177f1bb29ff5dc3f24e921b95cfa5796int, 0x0int, 0x0int, curve_y_num_sq_3_30(x), y_num_sq_15_15(x), 0int, 0int, 0int, 0int);
    lemma_horner_level(x, 0x1int, 0x15651c2428ce3826d3ddb4fe2d9a7c1243da48d3d0acd5f242e382ce856852a630d118260eae4c28591b56b4d40f9f6int, 0x15651c2428ce3826d3ddb4fe2d9a7c1243da48d3d0acd5f242e382ce856852a630d118260eae4c28591b56b4d40f9f6int, 0x0int, 0x0int, curve_y_num_sq_3_29(x), y_num_sq_14_15(x), 0int, curve_y_num_sq_3_30(x), y_num_sq_15_15(x), 0int);
    lemma_horner_level(x, 0x1int, 0x19650c15e0c5fbbddc37605966c49f7501966c94078b5b31bbdfe212d595731812931f5e967a56346432e6a45d3f1fe4int, 0x19650c15e0c5fbbddc37605966c49f7501966c94078b5b31bbdfe212d595731812931f5e967a56346432e6a45d3f1fe4int, 0x0int, 0x0int, curve_y_num_sq_3_28(x), y_num_sq_13_15(x), 0int, curve_y_num_sq_3_29(x), y_num_sq_14_15(x), 0int);
    lemma_horner_level(x, 0x1int, 0xe69b89f793ca86ed2915e4dc93922fc810bc818fa7f4686367792d04d28e36b3c4849ef598ea4b92a5eab6bc7b61ab5int, 0xe69b89f793ca86ed2915e4dc93922fc810bc818fa7f4686367792d04d28e36b3c4849ef598ea4b92a5eab6bc7b61ab5int, 0x0int, 0x0int, curve_y_num_sq_3_27(x), y_num_sq_12_15(x), 0int, curve_y_num_sq_3_28(x), y_num_sq_13_15(x), 0int);
    lemma_horner_level(x, 0x1int, 0xd1cf4024ae082cc5bac9172754516115f19bb26984b72bcb460115f92cabc86565f0fdeb8a1aba5a9022ffba6b9fc56int, 0xd1cf4024ae082cc5bac9172754516115f19bb26984b72bcb460115f92cabc86565f0fdeb8a1aba5a9022ffba6b9fc56int, 0x0int, 0x0int, curve_y_num_sq_3_26(x), y_num_sq_11_15(x), 0int, curve_y_num_sq_3_27(x), y_num_sq_12_15(x), 0int);
    lemma_horner_level(x, 0x1int, 0x10346fa175d204b4d667f29c35af11b661a82de95f72f823866ba17e9b7b82aeebfc991e6b3f0f6d71d0cea0fdef78deint, 0x10346fa175d204b4d667f29c35af11b661a82de95f72f823866ba17e9b7b82aeebfc991e6b3f0f6d71d0cea0fdef78deint, 0x0int, 0x0int, curve_y_num_sq_3_25(x), y_num_sq_10_15(x), 0int, curve_y_num_sq_3_26(x), y_num_sq_11_15(x), 0int);
    lemma_horner_level(x, 0x1int, 0x4b636b168654548b500d9db6a986af9a32938291ee834b1a9319620f414a096ed4e5d37b43f8f7fce5145e757786fb2int, 0x4b636b168654548b500d9db6a986af9a32938291ee834b1a9319620f414a096ed4e5d37b43f8f7fce5145e757786fb2int, 0x0int, 0x0int, curve_y_num_sq_3_24(x), y_num_sq_9_15(x), 0int, curve_y_num_sq_3_25(x), y_num_sq_10_15(x), 0int);
    lemma_horner_level(x, 0x1int, 0x11f232fd5ca7e8408d3a410b1aed129917243a3c92c76833ab38678178682b463f6272c1c42868c4990d753ff784a37dint, 0x11f232fd5ca7e8408d3a410b1aed129917243a3c92c76833ab38678178682b463f6272c1c42868c4990d753ff784a37dint, 0x0int, 0x0int, curve_y_num_sq_3_23(x), y_num_sq_8_15(x), 0int, curve_y_num_sq_3_24(x), y_num_sq_9_15(x), 0int);
    lemma_horner_level(x, 0x1int, 0x1880fe0904b5cdebd70e429445b351892de665ce521867363ded3361df57eb7abe77f324f00d4fac01a522cc8b8b288bint, 0x1880fe0904b5cdebd70e429445b351892de665ce521867363ded3361df57eb7abe77f324f00d4fac01a522cc8b8b288bint, 0x0int, 0x0int, curve_y_num_sq_3_22(x), y_num_sq_7_15(x), 0int, curve_y_num_sq_3_23(x), y_num_sq_8_15(x), 0int);
    lemma_horner_level(x, 0x1int, 0xf8942051dda9f78a9b392da80b697037300641e1863f9d611b15d9a11332ae7129ddc56c327e23b6f2a034cfca92392int, 0xf8942051dda9f78a9b392da80b697037300641e1863f9d611b15d9a11332ae7129ddc56c327e23b6f2a034cfca92392int, 0x0int, 0x0int, curve_y_num_sq_3_21(x), y_num_sq_6_15(x), 0int, curve_y_num_sq_3_22(x), y_num_sq_7_15(x), 0int);
    lemma_horner_level(x, 0x1int, 0x1425d2c8e1a26a0531e2b9507105b0f56e1eb51f7e6d119be1aa608f108c70a2e77a1016a266891a12d4fbe611a0935int, 0x1425d2c8e1a26a0531e2b9507105b0f56e1eb51f7e6d119be1aa608f108c70a2e77a1016a266891a12d4fbe611a0935int, 0x0int, 0x0int, curve_y_num_sq_3_20(x), y_num_sq_5_15(x), 0int, curve_y_num_sq_3_21(x), y_num_sq_6_15(x), 0int);
    lemma_horner_level(x, 0x1int, 0xd10ecda5f4561453854c85db048213e036ec0a826c6e562abfe2b7fb552cf75df73f854ae50ae6097c748f686ccdb3bint, 0xd10ecda5f4561453854c85db048213e036ec0a826c6e562abfe2b7fb552cf75df73f854ae50ae6097c748f686ccdb3bint, 0x0int, 0x0int, curve_y_num_sq_3_19(x), y_num_sq_4_15(x), 0int, curve_y_num_sq_3_20(x), y_num_sq_5_15(x), 0int);
    lemma_horner_level(x, 0x1int, 0x26a20e4e09a560027ee895f66015e228aaf6fcb1e9562ece6d64c84cd347a0e593ab3b3be6151d0a26cc3fa4509a9bint, 0x26a20e4e09a560027ee895f66015e228aaf6fcb1e9562ece6d64c84cd347a0e593ab3b3be6151d0a26cc3fa4509a9bint, 0x0int, 0x0int, curve_y_num_sq_3_18(x), y_num_sq_3_15(x), 0int, curve_y_num_sq_3_19(x), y_num_sq_4_15(x), 0int);
    lemma_horner_level(x, 0x1int, 0x193066e443bbff29dd489657eb1a552af4c01d47c6997b7b7a5f1c3bb3cb0b11bc0d6544cf6c806c4a8b6284f7f46d24int, 0x193066e443bbff29dd489657eb1a552af4c01d47c6997b7b7a5f1c3bb3cb0b11bc0d6544cf6c806c4a8b6284f7f46d24int, 0x0int, 0x0int, curve_y_num_sq_3_17(x), y_num_sq_2_15(x), 0int, curve_y_num_sq_3_18(x), y_num_sq_3_15(x), 0int);
    lemma_horner_level(x, 0x1int, 0xc825a8ba33fcbcd0deeb39d01431da76ff878e23b168d050ec136e96b7fa4db98ad56ff21bc0e1cac95b8f52e2d10f6int, 0xc825a8ba33fcbcd0deeb39d01431da76ff878e23b168d050ec136e96b7fa4db98ad56ff21bc0e1cac95b8f52e2d10f6int, 0x0int, 0x0int, curve_y_num_sq_3_16(x), y_num_sq_1_15(x), 0int, curve_y_num_sq_3_17(x), y_num_sq_2_15(x), 0int);
    lemma_horner_level(x, 0x1int, 0x114e816775c39902e2986ad37457f700e1d59f0c160f02a1554c843afdbf5091f02905b01f0070a51b73df874dea6e4fint, 0x114e816775c39902e2986ad37457f700e1d59f0c160f02a1554c843afdbf5091f02905b01f0070a51b73df874dea6e4fint, 0x0int, 0x0int, curve_y_num_sq_3_15(x), y_num_sq_0_15(x), 0int, curve_y_num_sq_3_16(x), y_num_sq_1_15(x), 0int);
    lemma_horner_level(x, 0x1int, 0x5943ca2c3bac41f048b4e499a88e3fd39e64771852ed2ed6c750c461378eb091b17d266a502bbd115fc4aae47ef405dint, 0x5943ca2c3bac41f048b4e499a88e3fd39e64771852ed2ed6c750c461378eb091b17d266a502bbd115fc4aae47ef405dint, 0x0int, 0x0int, curve_y_num_sq_3_14(x), y_num_sq_0_14(x), 0int, curve_y_num_sq_3_15(x), y_num_sq_0_15(x), 0int);
    lemma_horner_level(x, 0x1int, 0xb541ebd62ce60936d8af9751a1b1eb83500aa20113736ab3bdf5e369c657a277de36b3c5ba05dcc0bda3fdf93fb41abint, 0xb541ebd62ce60936d8af9751a1b1eb83500aa20113736ab3bdf5e369c657a277de36b3c5ba05dcc0bda3fdf93fb41abint, 0x0int, 0x0int, curve_y_num_sq_3_13(x), y_num_sq_0_13(x), 0int, curve_y_num_sq_3_14(x), y_num_sq_0_14(x), 0int);
    lemma_horner_level(x, 0x1int, 0xbd52f5b450d872fdd3fc45634980fb499a56a968d4baf2f1eaf42c943b8c3424fe99030f75c1c9c381b9ca11322aa17int, 0xbd52f5b450d872fdd3fc45634980fb499a56a968d4baf2f1eaf42c943b8c3424fe99030f75c1c9c381b9ca11322aa17int, 0x0int, 0x0int, curve_y_num_sq_3_12(x), y_num_sq_0_12(x), 0int, curve_y_num_sq_3_13(x), y_num_sq_0_13(x), 0int);
    lemma_horner_level(x, 0x1int, 0x1592da97f942047e0b3ba97e63e1a61a9cdeff56994e7e168ac2fc4573c2673bdaa471e537bb86b0cf17cce071833f54int, 0x1592da97f942047e0b3ba97e63e1a61a9cdeff56994e7e168ac2fc4573c2673bdaa471e537bb86b0cf17cce071833f54int, 0x0int, 0x0int, curve_y_num_sq_3_11(x), y_num_sq_0_11(x), 0int, curve_y_num_sq_3_12(x), y_num_sq_0_12(x), 0int);
    lemma_horner_level(x, 0x1int, 0xb0e5f187b546d370ed10134dd51a9ea5afe2ce950c6d621277285c8e1a5b32d287d1fa0de82e9d1695cdf420d233161int, 0xb0e5f187b546d370ed10134dd51a9ea5afe2ce950c6d621277285c8e1a5b32d287d1fa0de82e9d1695cdf420d233161int, 0x0int, 0x0int, curve_y_num_sq_3_10(x), y_num_sq_0_10(x), 0int, curve_y_num_sq_3_11(x), y_num_sq_0_11(x), 0int);
    lemma_horner_level(x, 0x1int, 0x188774a40dc81db608744c72f78b203a072111e7e56a0becf281611cc3f0b8344f9c46c0d78bc6df54dd94ae219d5fd6int, 0x188774a40dc81db608744c72f78b203a072111e7e56a0becf281611cc3f0b8344f9c46c0d78bc6df54dd94ae219d5fd6int, 0x0int, 0x0int, curve_y_num_sq_3_9(x), y_num_sq_0_9(x), 0int, curve_y_num_sq_3_10(x), y_num_sq_0_10(x), 0int);
    lemma_horner_level(x, 0x1int, 0x6a893aa5e4bb7101f357f06190781d929fd6e1dd2bb260350bcde4d70c040150cde57048b00bb2f88dc25ae6bc8e8c8int, 0x6a893aa5e4bb7101f357f06190781d929fd6e1dd2bb260350bcde4d70c040150cde57048b00bb2f88dc25ae6bc8e8c8int, 0x0int, 0x0int, curve_y_num_sq_3_8(x), y_num_sq_0_8(x), 0int, curve_y_num_sq_3_9(x), y_num_sq_0_9(x), 0int);
    lemma_horner_level(x, 0x1int, 0xbc4d85751f1a6c7dce52364b1abae31719edd3551efc790a654258f8fdb24a6d7a57684bafdd216a17b018fd646438bint, 0xbc4d85751f1a6c7dce52364b1abae31719edd3551efc790a654258f8fdb24a6d7a57684bafdd216a17b018fd646438bint, 0x0int, 0x0int, curve_y_num_sq_3_7(x), y_num_sq_0_7(x), 0int, curve_y_num_sq_3_8(x), y_num_sq_0_8(x), 0int);
    lemma_horner_level(x, 0x1int, 0x174f49c5c03bc60c00fa767b810882f1a405fabeb8730de687fd55637980ae30410f7bc86964d4ae46fbf38de5d92b28int, 0x174f49c5c03bc60c00fa767b810882f1a405fabeb8730de687fd55637980ae30410f7bc86964d4ae46fbf38de5d92b28int, 0x0int, 0x0int, curve_y_num_sq_3_6(x), y_num_sq_0_6(x), 0int, curve_y_num_sq_3_7(x), y_num_sq_0_7(x), 0int);
    lemma_horner_level(x, 0x1int, 0xcc3ebf1f16ef9957f5aa9c267db7437b85c20040e9c87b7ff704690dcc397e4c537aa404dd7d41265ea3f5376f8124int, 0xcc3ebf1f16ef9957f5aa9c267db7437b85c20040e9c87b7ff704690dcc397e4c537aa404dd7d41265ea3f5376f8124int, 0x0int, 0x0int, curve_y_num_sq_3_5(x), y_num_sq_0_5(x), 0int, curve_y_num_sq_3_6(x), y_num_sq_0_6(x), 0int);
    lemma_horner_level(x, 0x1int, 0x14443ebc394c83fe5ad5e34808a27429a9d33d357acf3b74cce49d871ab286ddc98dbbab785c3849dc864e718f7cc111int, 0x14443ebc394c83fe5ad5e34808a27429a9d33d357acf3b74cce49d871ab286ddc98dbbab785c3849dc864e718f7cc111int, 0x0int, 0x0int, curve_y_num_sq_3_4(x), y_num_sq_0_4(x), 0int, curve_y_num_sq_3_5(x), y_num_sq_0_5(x), 0int);
    lemma_horner_level(x, 0x1int, 0x7c27bc7963a43fff956e2b54daad283448e72bc32e4f2b72dd2e081b9dfbd8782ba346d057d8950573ced16e2bfcf1dint, 0x7c27bc7963a43fff956e2b54daad283448e72bc32e4f2b72dd2e081b9dfbd8782ba346d057d8950573ced16e2bfcf1dint, 0x0int, 0x0int, curve_y_num_sq_3_3(x), y_num_sq_0_3(x), 0int, curve_y_num_sq_3_4(x), y_num_sq_0_4(x), 0int);
    lemma_horner_level(x, 0x1int, 0xe197f78676c63cf22f5595ca27fd4347cd967c12e0a0a9126b1ed8b3a846c1c76fcfec9f7ced5b295764ea86f670c67int, 0xe197f78676c63cf22f5595ca27fd4347cd967c12e0a0a9126b1ed8b3a846c1c76fcfec9f7ced5b295764ea86f670c67int, 0x0int, 0x0int, curve_y_num_sq_3_2(x), y_num_sq_0_2(x), 0int, curve_y_num_sq_3_3(x), y_num_sq_0_3(x), 0int);
    lemma_horner_level(x, 0x1int, 0xc32d61473827ae54e633e0cb9dea5bdfbbc71d7a4b116d7f5da84a4066b0ac5af2f7757f47b76d9df5ef9b36e372069int, 0xc32d61473827ae54e633e0cb9dea5bdfbbc71d7a4b116d7f5da84a4066b0ac5af2f7757f47b76d9df5ef9b36e372069int, 0x0int, 0x0int, curve_y_num_sq_3_1(x), y_num_sq_0_1(x), 0int, curve_y_num_sq_3_2(x), y_num_sq_0_2(x), 0int);
    lemma_horner_level(x, 0x1int, 0x364612fe1011542e6e51ab814b205ea71230349fc2bed82999ca5c4bba637cfbdc1cd1822808b0a87382ad5ddb73d90int, 0x364612fe1011542e6e51ab814b205ea71230349fc2bed82999ca5c4bba637cfbdc1cd1822808b0a87382ad5ddb73d90int, 0x0int, 0x0int, curve_y_num_sq_3_0(x), y_num_sq_0_0(x), times(x, 0int), curve_y_num_sq_3_1(x), y_num_sq_0_1(x), 0int);
    lemma_times_zero(y_num_sq_0_0(x));
    lemma_congruent_refl(0int, times(0int, y_num_sq_0_0(x)));
    lemma_product_level(x, 0x1int, curve_3(x), 0int, y_num_sq_0_0(x), curve_y_num_sq_3_0(x), 0int);
}

pub(crate) proof fn lemma_curve_y_num_sq_step_2(x: int)
    ensures
        congruent(curve_y_num_sq_2_0(x), times(curve_2(x), y_num_sq_0_0(x))),
{
    lemma_times_zero(x);
    lemma_curve_y_num_sq_step_3(x);
    lemma_congruent_refl(curve_y_num_sq_3_30(x), 0x0int * 0int + curve_y_num_sq_3_30(x));
    lemma_horner_level(x, 0x0int, 0x15651c2428ce3826d3ddb4fe2d9a7c1243da48d3d0acd5f242e382ce856852a630d118260eae4c28591b56b4d40f9f6int, 0x30673b1c24bc7c97f094944729554461095cd85335b191fff80dffbbb553b41177f1bb29ff5dc3f24e921b95cfa5796int, 0x15651c2428ce3826d3ddb4fe2d9a7c1243da48d3d0acd5f242e382ce856852a630d118260eae4c28591b56b4d40f9f6int, 0x0int, curve_y_num_sq_2_30(x), y_num_sq_15_15(x), curve_y_num_sq_3_29(x), curve_y_num_sq_3_30(x), 0int, curve_y_num_sq_3_30(x));
    lemma_horner_level(x, 0x0int, 0x19650c15e0c5fbbddc37605966c49f7501966c94078b5b31bbdfe212d595731812931f5e967a56346432e6a45d3f1fe4int, 0x15651c2428ce3826d3ddb4fe2d9a7c1243da48d3d0acd5f242e382ce856852a630d118260eae4c28591b56b4d40f9f6int, 0x19650c15e0c5fbbddc37605966c49f7501966c94078b5b31bbdfe212d595731812931f5e967a56346432e6a45d3f1fe4int, 0x0int, curve_y_num_sq_2_29(x), y_num_sq_14_15(x), curve_y_num_sq_3_28(x), curve_y_num_sq_2_30(x), y_num_sq_15_15(x), curve_y_num_sq_3_29(x));
    lemma_horner_level(x, 0x0int, 0xe69b89f793ca86ed2915e4dc93922fc810bc818fa7f4686367792d04d28e36b3c4849ef598ea4b92a5eab6bc7b61ab5int, 0x19650c15e0c5fbbddc37605966c49f7501966c94078b5b31bbdfe212d595731812931f5e967a56346432e6a45d3f1fe4int, 0xe69b89f793ca86ed2915e4dc93922fc810bc818fa7f4686367792d04d28e36b3c4849ef598ea4b92a5eab6bc7b61ab5int, 0x0int, curve_y_num_sq_2_28(x), y_num_sq_13_15(x), curve_y_num_sq_3_27(x), curve_y_num_sq_2_29(x), y_num_sq_14_15(x), curve_y_num_sq_3_28(x));
    lemma_horner_level(x, 0x0int, 0xd1cf4024ae082cc5bac9172754516115f19bb26984b72bcb460115f92cabc86565f0fdeb8a1aba5a9022ffba6b9fc56int, 0xe69b89f793ca86ed2915e4dc93922fc810bc818fa7f4686367792d04d28e36b3c4849ef598ea4b92a5eab6bc7b61ab5int, 0xd1cf4024ae082cc5bac9172754516115f19bb26984b72bcb460115f92cabc86565f0fdeb8a1aba5a9022ffba6b9fc56int, 0x0int, curve_y_num_sq_2_27(x), y_num_sq_12_15(x), curve_y_num_sq_3_26(x), curve_y_num_sq_2_28(x), y_num_sq_13_15(x), curve_y_num_sq_3_27(x));
    lemma_horner_level(x, 0x0int, 0x10346fa175d204b4d667f29c35af11b661a82de95f72f823866ba17e9b7b82aeebfc991e6b3f0f6d71d0cea0fdef78deint, 0xd1cf4024ae082cc5bac9172754516115f19bb26984b72bcb460115f92cabc86565f0fdeb8a1aba5a9022ffba6b9fc56int, 0x10346fa175d204b4d667f29c35af11b661a82de95f72f823866ba17e9b7b82aeebfc991e6b3f0f6d71d0cea0fdef78deint, 0x0int, curve_y_num_sq_2_26(x), y_num_sq_11_15(x), curve_y_num_sq_3_25(x), curve_y_num_sq_2_27(x), y_num_sq_12_15(x), curve_y_num_sq_3_26(x));
    lemma_horner_level(x, 0x0int, 0x4b636b168654548b500d9db6a986af9a32938291ee834b1a9319620f414a096ed4e5d37b43f8f7fce5145e757786fb2int, 0x10346fa175d204b4d667f29c35af11b661a82de95f72f823866ba17e9b7b82aeebfc991e6b3f0f6d71d0cea0fdef78deint, 0x4b636b168654548b500d9db6a986af9a32938291ee834b1a9319620f414a096ed4e5d37b43f8f7fce5145e757786fb2int, 0x0int, curve_y_num_sq_2_25(x), y_num_sq_10_15(x), curve_y_num_sq_3_24(x), curve_y_num_sq_2_26(x), y_num_sq_11_15(x), curve_y_num_sq_3_25(x));
    lemma_horner_level(x, 0x0int, 0x11f232fd5ca7e8408d3a410b1aed129917243a3c92c76833ab38678178682b463f6272c1c42868c4990d753ff784a37dint, 0x4b636b168654548b500d9db6a986af9a32938291ee834b1a9319620f414a096ed4e5d37b43f8f7fce5145e757786fb2int, 0x11f232fd5ca7e8408d3a410b1aed129917243a3c92c76833ab38678178682b463f6272c1c42868c4990d753ff784a37dint, 0x0int, curve_y_num_sq_2_24(x), y_num_sq_9_15(x), curve_y_num_sq_3_23(x), curve_y_num_sq_2_25(x), y_num_sq_10_15(x), curve_y_num_sq_3_24(x));
    lemma_horner_level(x, 0x0int, 0x1880fe0904b5cdebd70e429445b351892de665ce521867363ded3361df57eb7abe77f324f00d4fac01a522cc8b8b288bint, 0x11f232fd5ca7e8408d3a410b1aed129917243a3c92c76833ab38678178682b463f6272c1c42868c4990d753ff784a37dint, 0x1880fe0904b5cdebd70e429445b351892de665ce521867363ded3361df57eb7abe77f324f00d4fac01a522cc8b8b288bint, 0x0int, curve_y_num_sq_2_23(x), y_num_sq_8_15(x), curve_y_num_sq_3_22(x), curve_y_num_sq_2_24(x), y_num_sq_9_15(x), curve_y_num_sq_3_23(x));
    lemma_horner_level(x, 0x0int, 0xf8942051dda9f78a9b392da80b697037300641e1863f9d611b15d9a11332ae7129ddc56c327e23b6f2a034cfca92392int, 0x1880fe0904b5cdebd70e429445b351892de665ce521867363ded3361df57eb7abe77f324f00d4fac01a522cc8b8b288bint, 0xf8942051dda9f78a9b392da80b697037300641e1863f9d611b15d9a11332ae7129ddc56c327e23b6f2a034cfca92392int, 0x0int, curve_y_num_sq_2_22(x), y_num_sq_7_15(x), curve_y_num_sq_3_21(x), curve_y_num_sq_2_23(x), y_num_sq_8_15(x), curve_y_num_sq_3_22(x));
    lemma_horner_level(x, 0x0int, 0x1425d2c8e1a26a0531e2b9507105b0f56e1eb51f7e6d119be1aa608f108c70a2e77a1016a266891a12d4fbe611a0935int, 0xf8942051dda9f78a9b392da80b697037300641e1863f9d611b15d9a11332ae7129ddc56c327e23b6f2a034cfca92392int, 0x1425d2c8e1a26a0531e2b9507105b0f56e1eb51f7e6d119be1aa608f108c70a2e77a1016a266891a12d4fbe611a0935int, 0x0int, curve_y_num_sq_2_21(x), y_num_sq_6_15(x), curve_y_num_sq_3_20(x), curve_y_num_sq_2_22(x), y_num_sq_7_15(x), curve_y_num_sq_3_21(x));
    lemma_horner_level(x, 0x0int, 0xd10ecda5f4561453854c85db048213e036ec0a826c6e562abfe2b7fb552cf75df73f854ae50ae6097c748f686ccdb3bint, 0x1425d2c8e1a26a0531e2b9507105b0f56e1eb51f7e6d119be1aa608f108c70a2e77a1016a266891a12d4fbe611a0935int, 0xd10ecda5f4561453854c85db048213e036ec0a826c6e562abfe2b7fb552cf75df73f854ae50ae6097c748f686ccdb3bint, 0x0int, curve_y_num_sq_2_20(x), y_num_sq_5_15(x), curve_y_num_sq_3_19(x), curve_y_num_sq_2_21(x), y_num_sq_6_15(x), curve_y_num_sq_3_20(x));
    lemma_horner_level(x, 0x0int, 0x26a20e4e09a560027ee895f66015e228aaf6fcb1e9562ece6d64c84cd347a0e593ab3b3be6151d0a26cc3fa4509a9bint, 0xd10ecda5f4561453854c85db048213e036ec0a826c6e562abfe2b7fb552cf75df73f854ae50ae6097c748f686ccdb3bint, 0x26a20e4e09a560027ee895f66015e228aaf6fcb1e9562ece6d64c84cd347a0e593ab3b3be6151d0a26cc3fa4509a9bint, 0x0int, curve_y_num_sq_2_19(x), y_num_sq_4_15(x), curve_y_num_sq_3_18(x), curve_y_num_sq_2_20(x), y_num_sq_5_15(x), curve_y_num_sq_3_19(x));
    lemma_horner_level(x, 0x0int, 0x193066e443bbff29dd489657eb1a552af4c01d47c6997b7b7a5f1c3bb3cb0b11bc0d6544cf6c806c4a8b6284f7f46d24int, 0x26a20e4e09a560027ee895f66015e228aaf6fcb1e9562ece6d64c84cd347a0e593ab3b3be6151d0a26cc3fa4509a9bint, 0x193066e443bbff29dd489657eb1a552af4c01d47c6997b7b7a5f1c3bb3cb0b11bc0d6544cf6c806c4a8b6284f7f46d24int, 0x0int, curve_y_num_sq_2_18(x), y_num_sq_3_15(x), curve_y_num_sq_3_17(x), curve_y_num_sq_2_19(x), y_num_sq_4_15(x), curve_y_num_sq_3_18(x));
    lemma_horner_level(x, 0x0int, 0xc825a8ba33fcbcd0deeb39d01431da76ff878e23b168d050ec136e96b7fa4db98ad56ff21bc0e1cac95b8f52e2d10f6int, 0x193066e443bbff29dd489657eb1a552af4c01d47c6997b7b7a5f1c3bb3cb0b11bc0d6544cf6c806c4a8b6284f7f46d24int, 0xc825a8ba33fcbcd0deeb39d01431da76ff878e23b168d050ec136e96b7fa4db98ad56ff21bc0e1cac95b8f52e2d10f6int, 0x0int, curve_y_num_sq_2_17(x), y_num_sq_2_15(x), curve_y_num_sq_3_16(x), curve_y_num_sq_2_18(x), y_num_sq_3_15(x), curve_y_num_sq_3_17(x));
    lemma_horner_level(x, 0x0int, 0x114e816775c39902e2986ad37457f700e1d59f0c160f02a1554c843afdbf5091f02905b01f0070a51b73df874dea6e4fint, 0xc825a8ba33fcbcd0deeb39d01431da76ff878e23b168d050ec136e96b7fa4db98ad56ff21bc0e1cac95b8f52e2d10f6int, 0x114e816775c39902e2986ad37457f700e1d59f0c160f02a1554c843afdbf5091f02905b01f0070a51b73df874dea6e4fint, 0x0int, curve_y_num_sq_2_16(x), y_num_sq_1_15(x), curve_y_num_sq_3_15(x), curve_y_num_sq_2_17(x), y_num_sq_2_15(x), curve_y_num_sq_3_16(x));
    lemma_horner_level(x, 0x0int, 0x5943ca2c3bac41f048b4e499a88e3fd39e64771852ed2ed6c750c461378eb091b17d266a502bbd115fc4aae47ef405dint, 0x114e816775c39902e2986ad37457f700e1d59f0c160f02a1554c843afdbf5091f02905b01f0070a51b73df874dea6e4fint, 0x5943ca2c3bac41f048b4e499a88e3fd39e64771852ed2ed6c750c461378eb091b17d266a502bbd115fc4aae47ef405dint, 0x0int, curve_y_num_sq_2_15(x), y_num_sq_0_15(x), curve_y_num_sq_3_14(x), curve_y_num_sq_2_16(x), y_num_sq_1_15(x), curve_y_num_sq_3_15(x));
    lemma_horner_level(x, 0x0int, 0xb541ebd62ce60936d8af9751a1b1eb83500aa20113736ab3bdf5e369c657a277de36b3c5ba05dcc0bda3fdf93fb41abint, 0x5943ca2c3bac41f048b4e499a88e3fd39e64771852ed2ed6c750c461378eb091b17d266a502bbd115fc4aae47ef405dint, 0xb541ebd62ce60936d8af9751a1b1eb83500aa20113736ab3bdf5e369c657a277de36b3c5ba05dcc0bda3fdf93fb41abint, 0x0int, curve_y_num_sq_2_14(x), y_num_sq_0_14(x), curve_y_num_sq_3_13(x), curve_y_num_sq_2_15(x), y_num_sq_0_15(x), curve_y_num_sq_3_14(x));
    lemma_horner_level(x, 0x0int, 0xbd52f5b450d872fdd3fc45634980fb499a56a968d4baf2f1eaf42c943b8c3424fe99030f75c1c9c381b9ca11322aa17int, 0xb541ebd62ce60936d8af9751a1b1eb83500aa20113736ab3bdf5e369c657a277de36b3c5ba05dcc0bda3fdf93fb41abint, 0xbd52f5b450d872fdd3fc45634980fb499a56a968d4baf2f1eaf42c943b8c3424fe99030f75c1c9c381b9ca11322aa17int, 0x0int, curve_y_num_sq_2_13(x), y_num_sq_0_13(x), curve_y_num_sq_3_12(x), curve_y_num_sq_2_14(x), y_num_sq_0_14(x), curve_y_num_sq_3_13(x));
    lemma_horner_level(x, 0x0int, 0x1592da97f942047e0b3ba97e63e1a61a9cdeff56994e7e168ac2fc4573c2673bdaa471e537bb86b0cf17cce071833f54int, 0xbd52f5b450d872fdd3fc45634980fb499a56a968d4baf2f1eaf42c943b8c3424fe99030f75c1c9c381b9ca11322aa17int, 0x1592da97f942047e0b3ba97e63e1a61a9cdeff56994e7e168ac2fc4573c2673bdaa471e537bb86b0cf17cce071833f54int, 0x0int, curve_y_num_sq_2_12(x), y_num_sq_0_12(x), curve_y_num_sq_3_11(x), curve_y_num_sq_2_13(x), y_num_sq_0_13(x), curve_y_num_sq_3_12(x));
    lemma_horner_level(x, 0x0int, 0xb0e5f187b546d370ed10134dd51a9ea5afe2ce950c6d621277285c8e1a5b32d287d1fa0de82e9d1695cdf420d233161int, 0x1592da97f942047e0b3ba97e63e1a61a9cdeff56994e7e168ac2fc4573c2673bdaa471e537bb86b0cf17cce071833f54int, 0xb0e5f187b546d370ed10134dd51a9ea5afe2ce950c6d621277285c8e1a5b32d287d1fa0de82e9d1695cdf420d233161int, 0x0int, curve_y_num_sq_2_11(x), y_num_sq_0_11(x), curve_y_num_sq_3_10(x), curve_y_num_sq_2_12(x), y_num_sq_0_12(x), curve_y_num_sq_3_11(x));
    lemma_horner_level(x, 0x0int, 0x188774a40dc81db608744c72f78b203a072111e7e56a0becf281611cc3f0b8344f9c46c0d78bc6df54dd94ae219d5fd6int, 0xb0e5f187b546d370ed10134dd51a9ea5afe2ce950c6d621277285c8e1a5b32d287d1fa0de82e9d1695cdf420d233161int, 0x188774a40dc81db608744c72f78b203a072111e7e56a0becf281611cc3f0b8344f9c46c0d78bc6df54dd94ae219d5fd6int, 0x0int, curve_y_num_sq_2_10(x), y_num_sq_0_10(x), curve_y_num_sq_3_9(x), curve_y_num_sq_2_11(x), y_num_sq_0_11(x), curve_y_num_sq_3_10(x));
    lemma_horner_level(x, 0x0int, 0x6a893aa5e4bb7101f357f06190781d929fd6e1dd2bb260350bcde4d70c040150cde57048b00bb2f88dc25ae6bc8e8c8int, 0x188774a40dc81db608744c72f78b203a072111e7e56a0becf281611cc3f0b8344f9c46c0d78bc6df54dd94ae219d5fd6int, 0x6a893aa5e4bb7101f357f06190781d929fd6e1dd2bb260350bcde4d70c040150cde57048b00bb2f88dc25ae6bc8e8c8int, 0x0int, curve_y_num_sq_2_9(x), y_num_sq_0_9(x), curve_y_num_sq_3_8(x), curve_y_num_sq_2_10(x), y_num_sq_0_10(x), curve_y_num_sq_3_9(x));
    lemma_horner_level(x, 0x0int, 0xbc4d85751f1a6c7dce52364b1abae31719edd3551efc790a654258f8fdb24a6d7a57684bafdd216a17b018fd646438bint, 0x6a893aa5e4bb7101f357f06190781d929fd6e1dd2bb260350bcde4d70c040150cde57048b00bb2f88dc25ae6bc8e8c8int, 0xbc4d85751f1a6c7dce52364b1abae31719edd3551efc790a654258f8fdb24a6d7a57684bafdd216a17b018fd646438bint, 0x0int, curve_y_num_sq_2_8(x), y_num_sq_0_8(x), curve_y_num_sq_3_7(x), curve_y_num_sq_2_9(x), y_num_sq_0_9(x), curve_y_num_sq_3_8(x));
    lemma_horner_level(x, 0x0int, 0x174f49c5c03bc60c00fa767b810882f1a405fabeb8730de687fd55637980ae30410f7bc86964d4ae46fbf38de5d92b28int, 0xbc4d85751f1a6c7dce52364b1abae31719edd3551efc790a654258f8fdb24a6d7a57684bafdd216a17b018fd646438bint, 0x174f49c5c03bc60c00fa767b810882f1a405fabeb8730de687fd55637980ae30410f7bc86964d4ae46fbf38de5d92b28int, 0x0int, curve_y_num_sq_2_7(x), y_num_sq_0_7(x), curve_y_num_sq_3_6(x), curve_y_num_sq_2_8(x), y_num_sq_0_8(x), curve_y_num_sq_3_7(x));
    lemma_horner_level(x, 0x0int, 0xcc3ebf1f16ef9957f5aa9c267db7437b85c20040e9c87b7ff704690dcc397e4c537aa404dd7d41265ea3f5376f8124int, 0x174f49c5c03bc60c00fa767b810882f1a405fabeb8730de687fd55637980ae30410f7bc86964d4ae46fbf38de5d92b28int, 0xcc3ebf1f16ef9957f5aa9c267db7437b85c20040e9c87b7ff704690dcc397e4c537aa404dd7d41265ea3f5376f8124int, 0x0int, curve_y_num_sq_2_6(x), y_num_sq_0_6(x), curve_y_num_sq_3_5(x), curve_y_num_sq_2_7(x), y_num_sq_0_7(x), curve_y_num_sq_3_6(x));
    lemma_horner_level(x, 0x0int, 0x14443ebc394c83fe5ad5e34808a27429a9d33d357acf3b74cce49d871ab286ddc98dbbab785c3849dc864e718f7cc111int, 0xcc3ebf1f16ef9957f5aa9c267db7437b85c20040e9c87b7ff704690dcc397e4c537aa404dd7d41265ea3f5376f8124int, 0x14443ebc394c83fe5ad5e34808a27429a9d33d357acf3b74cce49d871ab286ddc98dbbab785c3849dc864e718f7cc111int, 0x0int, curve_y_num_sq_2_5(x), y_num_sq_0_5(x), curve_y_num_sq_3_4(x), curve_y_num_sq_2_6(x), y_num_sq_0_6(x), curve_y_num_sq_3_5(x));
    lemma_horner_level(x, 0x0int, 0x7c27bc7963a43fff956e2b54daad283448e72bc32e4f2b72dd2e081b9dfbd8782ba346d057d8950573ced16e2bfcf1dint, 0x14443ebc394c83fe5ad5e34808a27429a9d33d357acf3b74cce49d871ab286ddc98dbbab785c3849dc864e718f7cc111int, 0x7c27bc7963a43fff956e2b54daad283448e72bc32e4f2b72dd2e081b9dfbd8782ba346d057d8950573ced16e2bfcf1dint, 0x0int, curve_y_num_sq_2_4(x), y_num_sq_0_4(x), curve_y_num_sq_3_3(x), curve_y_num_sq_2_5(x), y_num_sq_0_5(x), curve_y_num_sq_3_4(x));
    lemma_horner_level(x, 0x0int, 0xe197f78676c63cf22f5595ca27fd4347cd967c12e0a0a9126b1ed8b3a846c1c76fcfec9f7ced5b295764ea86f670c67int, 0x7c27bc7963a43fff956e2b54daad283448e72bc32e4f2b72dd2e081b9dfbd8782ba346d057d8950573ced16e2bfcf1dint, 0xe197f78676c63cf22f5595ca27fd4347cd967c12e0a0a9126b1ed8b3a846c1c76fcfec9f7ced5b295764ea86f670c67int, 0x0int, curve_y_num_sq_2_3(x), y_num_sq_0_3(x), curve_y_num_sq_3_2(x), curve_y_num_sq_2_4(x), y_num_sq_0_4(x), curve_y_num_sq_3_3(x));
    lemma_horner_level(x, 0x0int, 0xc32d61473827ae54e633e0cb9dea5bdfbbc71d7a4b116d7f5da84a4066b0ac5af2f7757f47b76d9df5ef9b36e372069int, 0xe197f78676c63cf22f5595ca27fd4347cd967c12e0a0a9126b1ed8b3a846c1c76fcfec9f7ced5b295764ea86f670c67int, 0xc32d61473827ae54e633e0cb9dea5bdfbbc71d7a4b116d7f5da84a4066b0ac5af2f7757f47b76d9df5ef9b36e372069int, 0x0int, curve_y_num_sq_2_2(x), y_num_sq_0_2(x), curve_y_num_sq_3_1(x), curve_y_num_sq_2_3(x), y_num_sq_0_3(x), curve_y_num_sq_3_2(x));
    lemma_horner_level(x, 0x0int, 0x364612fe1011542e6e51ab814b205ea71230349fc2bed82999ca5c4bba637cfbdc1cd1822808b0a87382ad5ddb73d90int, 0xc32d61473827ae54e633e0cb9dea5bdfbbc71d7a4b116d7f5da84a4066b0ac5af2f7757f47b76d9df5ef9b36e372069int, 0x364612fe1011542e6e51ab814b205ea71230349fc2bed82999ca5c4bba637cfbdc1cd1822808b0a87382ad5ddb73d90int, 0x0int, curve_y_num_sq_2_1(x), y_num_sq_0_1(x), curve_y_num_sq_3_0(x), curve_y_num_sq_2_2(x), y_num_sq_0_2(x), curve_y_num_sq_3_1(x));
    lemma_horner_level(x, 0x0int, 0x0int, 0x364612fe1011542e6e51ab814b205ea71230349fc2bed82999ca5c4bba637cfbdc1cd1822808b0a87382ad5ddb73d90int, 0x0int, 0x0int, curve_y_num_sq_2_0(x), y_num_sq_0_0(x), times(x, curve_y_num_sq_3_0(x)), curve_y_num_sq_2_1(x), y_num_sq_0_1(x), curve_y_num_sq_3_0(x));
    lemma_product_level(x, 0x0int, curve_2(x), curve_3(x), y_num_sq_0_0(x), curve_y_num_sq_2_0(x), curve_y_num_sq_3_0(x));
}

pub(crate) proof fn lemma_curve_y_num_sq_step_1(x: int)
    ensures
        congruent(curve_y_num_sq_1_0(x), times(curve_1(x), y_num_sq_0_0(x))),
{
    lemma_times_zero(x);
    lemma_curve_y_num_sq_step_2(x);
    lemma_congruent_refl(curve_y_num_sq_2_30(x), 0x144698a3b8e9433d693a02c96d4982b0ea985383ee66a8d8e8981aefd881ac98936f8da0e0f97f5cf428082d584c1dint * 0int + curve_y_num_sq_2_30(x));
    lemma_horner_level(x, 0x144698a3b8e9433d693a02c96d4982b0ea985383ee66a8d8e8981aefd881ac98936f8da0e0f97f5cf428082d584c1dint, 0x49bff5aa392b14782f35ce30db9c0d4a813556902e872b693a809322b9d2e4d6639a831e3e72d789fb0ba11bae62ae4int, 0x30673b1c24bc7c97f094944729554461095cd85335b191fff80dffbbb553b41177f1bb29ff5dc3f24e921b95cfa5796int, 0x19650c15e0c5fbbddc37605966c49f7501966c94078b5b31bbdfe212d595731812931f5e967a56346432e6a45d3f1fe4int, 0x25bd96e17cd85b44263f4ded42745bbbd13bc2134fa7643cfbb537b5121f0caa12692146048009d109cba1dca3afaint, curve_y_num_sq_1_30(x), y_num_sq_15_15(x), curve_y_num_sq_2_29(x), curve_y_num_sq_2_30(x), 0int, curve_y_num_sq_2_30(x));
    lemma_horner_level(x, 0x144698a3b8e9433d693a02c96d4982b0ea985383ee66a8d8e8981aefd881ac98936f8da0e0f97f5cf428082d584c1dint, 0xe561c878fede6df9bd28910c621618185c5846d0c4b5ee404998ca9f1806cfb585496b4520646dda7dd2cdb9471f34bint, 0x15651c2428ce3826d3ddb4fe2d9a7c1243da48d3d0acd5f242e382ce856852a630d118260eae4c28591b56b4d40f9f6int, 0xe69b89f793ca86ed2915e4dc93922fc810bc818fa7f4686367792d04d28e36b3c4849ef598ea4b92a5eab6bc7b61ab5int, 0x10ae9143179698134a18865486199f2f25495837b129e8ce4b18db4474ba4df69e8397d91bd1dd3151be0ba0880d8int, curve_y_num_sq_1_29(x), y_num_sq_14_15(x), curve_y_num_sq_2_28(x), curve_y_num_sq_1_30(x), y_num_sq_15_15(x), curve_y_num_sq_2_29(x));
    lemma_horner_level(x, 0x144698a3b8e9433d693a02c96d4982b0ea985383ee66a8d8e8981aefd881ac98936f8da0e0f97f5cf428082d584c1dint, 0x32aa14b5df1e765a2fa37f86b24ccdf1f6dd841452791f5c86a411e4c2891268aeed7a14289642bb313864d0893c5c7int, 0x19650c15e0c5fbbddc37605966c49f7501966c94078b5b31bbdfe212d595731812931f5e967a56346432e6a45d3f1fe4int, 0xd1cf4024ae082cc5bac9172754516115f19bb26984b72bcb460115f92cabc86565f0fdeb8a1aba5a9022ffba6b9fc56int, 0x13ccf185bbac124dcc8edda9578880bd558d60ad8113e3c0e82ca708abfd0822ba90978cecb650df4c7ed46c968a29int, curve_y_num_sq_1_28(x), y_num_sq_13_15(x), curve_y_num_sq_2_27(x), curve_y_num_sq_1_29(x), y_num_sq_14_15(x), curve_y_num_sq_2_28(x));
    lemma_horner_level(x, 0x144698a3b8e9433d693a02c96d4982b0ea985383ee66a8d8e8981aefd881ac98936f8da0e0f97f5cf428082d584c1dint, 0x187f179cd77b76fd7fbc9af88631a5035782a8d79562a06e874032800a446a6ef328c1fca9d1b4c202c84ba778f0e138int, 0xe69b89f793ca86ed2915e4dc93922fc810bc818fa7f4686367792d04d28e36b3c4849ef598ea4b92a5eab6bc7b61ab5int, 0x10346fa175d204b4d667f29c35af11b661a82de95f72f823866ba17e9b7b82aeebfc991e6b3f0f6d71d0cea0fdef78deint, 0xb3ceb55827dc413e45ef9aca88131b08c67344504abde8eeb06d8cf2328a12cf110a29f303a6b24f4c709a9c50e75int, curve_y_num_sq_1_27(x), y_num_sq_12_15(x), curve_y_num_sq_2_26(x), curve_y_num_sq_1_28(x), y_num_sq_13_15(x), curve_y_num_sq_2_27(x));
    lemma_horner_level(x, 0x144698a3b8e9433d693a02c96d4982b0ea985383ee66a8d8e8981aefd881ac98936f8da0e0f97f5cf428082d584c1dint, 0x2b05dd3b0f032ca91236ff3639a20b14c88eaa9d28de4ccfd65887b49a33b734dc9ff9769376996d6dae3341aa5be7cint, 0xd1cf4024ae082cc5bac9172754516115f19bb26984b72bcb460115f92cabc86565f0fdeb8a1aba5a9022ffba6b9fc56int, 0x4b636b168654548b500d9db6a986af9a32938291ee834b1a9319620f414a096ed4e5d37b43f8f7fce5145e757786fb2int, 0xa3974c3757a62f690de24232ac674ee995f57ca083c872782eb891904eff55341976d53d03261dc81970003f56cdcint, curve_y_num_sq_1_26(x), y_num_sq_11_15(x), curve_y_num_sq_2_25(x), curve_y_num_sq_1_27(x), y_num_sq_12_15(x), curve_y_num_sq_2_26(x));
    lemma_horner_level(x, 0x144698a3b8e9433d693a02c96d4982b0ea985383ee66a8d8e8981aefd881ac98936f8da0e0f97f5cf428082d584c1dint, 0xf65f551969e8991ab7111b1e94a5c6dbbafa49c6c4d6340bd3f1151585b7d520626e014c41b4def3758ea42e1f45dd3int, 0x10346fa175d204b4d667f29c35af11b661a82de95f72f823866ba17e9b7b82aeebfc991e6b3f0f6d71d0cea0fdef78deint, 0x11f232fd5ca7e8408d3a410b1aed129917243a3c92c76833ab38678178682b463f6272c1c42868c4990d753ff784a37dint, 0xca295ae37b04c8763e7fc0b5f5bdf8ee665082660a42513483297bf7918847249781e23ca653b6eaef07128189c70int, curve_y_num_sq_1_25(x), y_num_sq_10_15(x), curve_y_num_sq_2_24(x), curve_y_num_sq_1_26(x), y_num_sq_11_15(x), curve_y_num_sq_2_25(x));
    lemma_horner_level(x, 0x144698a3b8e9433d693a02c96d4982b0ea985383ee66a8d8e8981aefd881ac98936f8da0e0f97f5cf428082d584c1dint, 0x3bebf0c7d4026520426c8faeab30bf325081c7c89958bbefd5943624d82ce6fca5fb9e28d8c5f0268c9688ffe4d5ec3int, 0x4b636b168654548b500d9db6a986af9a32938291ee834b1a9319620f414a096ed4e5d37b43f8f7fce5145e757786fb2int, 0x1880fe0904b5cdebd70e429445b351892de665ce521867363ded3361df57eb7abe77f324f00d4fac01a522cc8b8b288bint, 0x3ac7fc1fe3adf3f0e51beed723872ece5b454206c02cbdf4e327c93a8a49c4b15f8d748664e2e94d4278d8d87dad6int, curve_y_num_sq_1_24(x), y_num_sq_9_15(x), curve_y_num_sq_2_23(x), curve_y_num_sq_1_25(x), y_num_sq_10_15(x), curve_y_num_sq_2_24(x));
    lemma_horner_level(x, 0x144698a3b8e9433d693a02c96d4982b0ea985383ee66a8d8e8981aefd881ac98936f8da0e0f97f5cf428082d584c1dint, 0x1512a5c7cfd4ffb8bbcb5b0041abb023bba3d72ab6c56bfb63d1da852cbf82aa9b84fd7a1c8873a76728158090175045int, 0x11f232fd5ca7e8408d3a410b1aed129917243a3c92c76833ab38678178682b463f6272c1c42868c4990d753ff784a37dint, 0xf8942051dda9f78a9b392da80b697037300641e1863f9d611b15d9a11332ae7129ddc56c327e23b6f2a034cfca92392int, 0xdfe26c6c687bfa6d8c079dc44b37cb3ecfbe7b457b02afbd6f0249ecfcde5a50138fba78debedf8221ffa66ae5d62int, curve_y_num_sq_1_23(x), y_num_sq_8_15(x), curve_y_num_sq_2_22(x), curve_y_num_sq_1_24(x), y_num_sq_9_15(x), curve_y_num_sq_2_23(x));
    lemma_horner_level(x, 0x144698a3b8e9433d693a02c96d4982b0ea985383ee66a8d8e8981aefd881ac98936f8da0e0f97f5cf428082d584c1dint, 0x155b39a1eaa11b3a056cb6de45f4ae46891a8b16bea85ea4ef3ddd1c70ebe36c7e04f17177dd49081c63658ae2852f76int, 0x1880fe0904b5cdebd70e429445b351892de665ce521867363ded3361df57eb7abe77f324f00d4fac01a522cc8b8b288bint, 0x1425d2c8e1a26a0531e2b9507105b0f56e1eb51f7e6d119be1aa608f108c70a2e77a1016a266891a12d4fbe611a0935int, 0x131b2058cdf400eabdf0b935dfbfde15b026bfc9d4382f3d1bba5e618ca6f1d6c2d2caeaf113029238124814f7207aint, curve_y_num_sq_1_22(x), y_num_sq_7_15(x), curve_y_num_sq_2_21(x), curve_y_num_sq_1_23(x), y_num_sq_8_15(x), curve_y_num_sq_2_22(x));
    lemma_horner_level(x, 0x144698a3b8e9433d693a02c96d4982b0ea985383ee66a8d8e8981aefd881ac98936f8da0e0f97f5cf428082d584c1dint, 0xd1e304a4829c29d5e9e9d4ac3beddffb32f5a0c7aced7499412f3a1f52d5eaf99206b24f97d34cc1ba1207dad329333int, 0xf8942051dda9f78a9b392da80b697037300641e1863f9d611b15d9a11332ae7129ddc56c327e23b6f2a034cfca92392int, 0xd10ecda5f4561453854c85db048213e036ec0a826c6e562abfe2b7fb552cf75df73f854ae50ae6097c748f686ccdb3bint, 0xc1d1d73b929fb5c9dd42efea2636357f8ea00facb18acc66222a04323e1bc48690487b8cc692f4e2560b7b13df6b6int, curve_y_num_sq_1_21(x), y_num_sq_6_15(x), curve_y_num_sq_2_20(x), curve_y_num_sq_1_22(x), y_num_sq_7_15(x), curve_y_num_sq_2_21(x));
    lemma_horner_level(x, 0x144698a3b8e9433d693a02c96d4982b0ea985383ee66a8d8e8981aefd881ac98936f8da0e0f97f5cf428082d584c1dint, 0x14f9ae4ec4d62a22bf42171268e79531e4f0ef71b26c5b65660781755cf5664602cd0ac6e8563a5c577265ca0a05395bint, 0x1425d2c8e1a26a0531e2b9507105b0f56e1eb51f7e6d119be1aa608f108c70a2e77a1016a266891a12d4fbe611a0935int, 0x26a20e4e09a560027ee895f66015e228aaf6fcb1e9562ece6d64c84cd347a0e593ab3b3be6151d0a26cc3fa4509a9bint, 0xfb59dad867f83cf222f03378f1b32951047995945c7afdcc40b70c0eea16dca9e5088eb92e0b593d5794e95978c3int, curve_y_num_sq_1_20(x), y_num_sq_5_15(x), curve_y_num_sq_2_19(x), curve_y_num_sq_1_21(x), y_num_sq_6_15(x), curve_y_num_sq_2_20(x));
    lemma_horner_level(x, 0x144698a3b8e9433d693a02c96d4982b0ea985383ee66a8d8e8981aefd881ac98936f8da0e0f97f5cf428082d584c1dint, 0x9ed537f279bed5d6a93b5360e32993a316d7fb21df206d3bd5a158a18106da1dfc29a7cc941e218c60aa52c1c9a8c07int, 0xd10ecda5f4561453854c85db048213e036ec0a826c6e562abfe2b7fb552cf75df73f854ae50ae6097c748f686ccdb3bint, 0x193066e443bbff29dd489657eb1a552af4c01d47c6997b7b7a5f1c3bb3cb0b11bc0d6544cf6c806c4a8b6284f7f46d24int, 0xa3013e8c056ba6891023ea61a4ef835707ad0d6f1831278f50ec44913e364986416c7c5c6122fa5d08b6fb728b064int, curve_y_num_sq_1_19(x), y_num_sq_4_15(x), curve_y_num_sq_2_18(x), curve_y_num_sq_1_20(x), y_num_sq_5_15(x), curve_y_num_sq_2_19(x));
    lemma_horner_level(x, 0x144698a3b8e9433d693a02c96d4982b0ea985383ee66a8d8e8981aefd881ac98936f8da0e0f97f5cf428082d584c1dint, 0x1477b15840c542b3f1a38d8e57f0422c932548a1e677cede53414b25e9532230aefedc49634e9067f9f4381d1d5c74c1int, 0x26a20e4e09a560027ee895f66015e228aaf6fcb1e9562ece6d64c84cd347a0e593ab3b3be6151d0a26cc3fa4509a9bint, 0xc825a8ba33fcbcd0deeb39d01431da76ff878e23b168d050ec136e96b7fa4db98ad56ff21bc0e1cac95b8f52e2d10f6int, 0x1e1f64c3e9e87a127ef60ef7dd91233ae010ce72036b57f8a5e1071da9e324dffe8b2805a25e64c0215c6bac6b4cint, curve_y_num_sq_1_18(x), y_num_sq_3_15(x), curve_y_num_sq_2_17(x), curve_y_num_sq_1_19(x), y_num_sq_4_15(x), curve_y_num_sq_2_18(x));
    lemma_horner_level(x, 0x144698a3b8e9433d693a02c96d4982b0ea985383ee66a8d8e8981aefd881ac98936f8da0e0f97f5cf428082d584c1dint, 0xf0bdf114fd46d41d34c3f1c6abd7b9647ebb01e768e36ca043dec415eddf50b17bb3e91b8eec7a06599018a9ccb88int, 0x193066e443bbff29dd489657eb1a552af4c01d47c6997b7b7a5f1c3bb3cb0b11bc0d6544cf6c806c4a8b6284f7f46d24int, 0x114e816775c39902e2986ad37457f700e1d59f0c160f02a1554c843afdbf5091f02905b01f0070a51b73df874dea6e4fint, 0x13a3e531e4311903b9340555b190dd8d886fed97558f630dd415370b1c7e6407e6db69625bd00ac0544874d7df0f91int, curve_y_num_sq_1_17(x), y_num_sq_2_15(x), curve_y_num_sq_2_16(x), curve_y_num_sq_1_18(x), y_num_sq_3_15(x), curve_y_num_sq_2_17(x));
    lemma_horner_level(x, 0x144698a3b8e9433d693a02c96d4982b0ea985383ee66a8d8e8981aefd881ac98936f8da0e0f97f5cf428082d584c1dint, 0x11a17200b5a31d83d9e6b425af5bda90da26942267c34ee4034ab40616dd13a503b1a51297f72f9d1d1115707a324101int, 0xc825a8ba33fcbcd0deeb39d01431da76ff878e23b168d050ec136e96b7fa4db98ad56ff21bc0e1cac95b8f52e2d10f6int, 0x5943ca2c3bac41f048b4e499a88e3fd39e64771852ed2ed6c750c461378eb091b17d266a502bbd115fc4aae47ef405dint, 0x9c0e9bf309c94794f6a78d7d49b51f9ddc08093a5e701783dfb415bca64ed7d813dfadbe5544ed7d670a84f00d9aeint, curve_y_num_sq_1_16(x), y_num_sq_1_15(x), curve_y_num_sq_2_15(x), curve_y_num_sq_1_17(x), y_num_sq_2_15(x), curve_y_num_sq_2_16(x));
    lemma_horner_level(x, 0x144698a3b8e9433d693a02c96d4982b0ea985383ee66a8d8e8981aefd881ac98936f8da0e0f97f5cf428082d584c1dint, 0x18e22d66a09913878359d7b0fa1dd55dcd5c0181ad5b7433c9a7ca7a5384d7c8def9e666b84398ec2b83c703b70170f0int, 0x114e816775c39902e2986ad37457f700e1d59f0c160f02a1554c843afdbf5091f02905b01f0070a51b73df874dea6e4fint, 0xb541ebd62ce60936d8af9751a1b1eb83500aa20113736ab3bdf5e369c657a277de36b3c5ba05dcc0bda3fdf93fb41abint, 0xd7e847ed70bfb9c9596a56868f051e580881ede5cc7e39913419560c9cffbeea2a77d27e44c9cb06bcda291594b0aint, curve_y_num_sq_1_15(x), y_num_sq_0_15(x), curve_y_num_sq_2_14(x), curve_y_num_sq_1_16(x), y_num_sq_1_15(x), curve_y_num_sq_2_15(x));
    lemma_horner_level(x, 0x144698a3b8e9433d693a02c96d4982b0ea985383ee66a8d8e8981aefd881ac98936f8da0e0f97f5cf428082d584c1dint, 0xc1ea6360607f4b69b6454544e9c67655126b31ba4268e039753fe8e63da53fda8d25da74924c5dca48da7d5c9486db8int, 0x5943ca2c3bac41f048b4e499a88e3fd39e64771852ed2ed6c750c461378eb091b17d266a502bbd115fc4aae47ef405dint, 0xbd52f5b450d872fdd3fc45634980fb499a56a968d4baf2f1eaf42c943b8c3424fe99030f75c1c9c381b9ca11322aa17int, 0x4599cf9756fcb115f035c74314d9f06ca6c3fa2654806c930169d1c2eb0d227b7cdf888a1bde3d922aae138d068b8int, curve_y_num_sq_1_14(x), y_num_sq_0_14(x), curve_y_num_sq_2_13(x), curve_y_num_sq_1_15(x), y_num_sq_0_15(x), curve_y_num_sq_2_14(x));
    lemma_horner_level(x, 0x144698a3b8e9433d693a02c96d4982b0ea985383ee66a8d8e8981aefd881ac98936f8da0e0f97f5cf428082d584c1dint, 0x137cae9b076a344af2ca8b9efa44505cee984406817a65f7be95144e0899143b87ef4af94eae5facd6bf46b17771f72aint, 0xb541ebd62ce60936d8af9751a1b1eb83500aa20113736ab3bdf5e369c657a277de36b3c5ba05dcc0bda3fdf93fb41abint, 0x1592da97f942047e0b3ba97e63e1a61a9cdeff56994e7e168ac2fc4573c2673bdaa471e537bb86b0cf17cce071833f54int, 0x8d54208c68d1a0fdab4e87e20c92ae98a2a32983a01be67f808c31a3d143416f497d24d67d03b90ed2c1f5a06759bint, curve_y_num_sq_1_13(x), y_num_sq_0_13(x), curve_y_num_sq_2_12(x), curve_y_num_sq_1_14(x), y_num_sq_0_14(x), curve_y_num_sq_2_13(x));
    lemma_horner_level(x, 0x144698a3b8e9433d693a02c96d4982b0ea985383ee66a8d8e8981aefd881ac98936f8da0e0f97f5cf428082d584c1dint, 0x102305fb49d604ca596e6d80d22e1a7022dacce3523950a2cdfccad5bfdbb202eb87454ad89987cdfa57759cba8bddd8int, 0xbd52f5b450d872fdd3fc45634980fb499a56a968d4baf2f1eaf42c943b8c3424fe99030f75c1c9c381b9ca11322aa17int, 0xb0e5f187b546d370ed10134dd51a9ea5afe2ce950c6d621277285c8e1a5b32d287d1fa0de82e9d1695cdf420d233161int, 0x939e431b55a927e668122bbd20136413970c537867429f753acca24d931515bdbca355eb02b4bd2a7cf80252e446cint, curve_y_num_sq_1_12(x), y_num_sq_0_12(x), curve_y_num_sq_2_11(x), curve_y_num_sq_1_13(x), y_num_sq_0_13(x), curve_y_num_sq_2_12(x));
    lemma_horner_level(x, 0x144698a3b8e9433d693a02c96d4982b0ea985383ee66a8d8e8981aefd881ac98936f8da0e0f97f5cf428082d584c1dint, 0x10133f75c39d4db191149b0134ff461499385a0f29a3411c7a45bd6cfc84fa3f21f980b3df778e266b2270ef522ae602int, 0x1592da97f942047e0b3ba97e63e1a61a9cdeff56994e7e168ac2fc4573c2673bdaa471e537bb86b0cf17cce071833f54int, 0x188774a40dc81db608744c72f78b203a072111e7e56a0becf281611cc3f0b8344f9c46c0d78bc6df54dd94ae219d5fd6int, 0x10d23c0a57f45410e7d8a4fe0b8b2362de61c8ab947a726e0a95396e97d04e98e19e4c1fc8b1ac6591ca3b4400c308int, curve_y_num_sq_1_11(x), y_num_sq_0_11(x), curve_y_num_sq_2_10(x), curve_y_num_sq_1_12(x), y_num_sq_0_12(x), curve_y_num_sq_2_11(x));
    lemma_horner_level(x, 0x144698a3b8e9433d693a02c96d4982b0ea985383ee66a8d8e8981aefd881ac98936f8da0e0f97f5cf428082d584c1dint, 0x9ab978a6e3e34bb02d5e6a708ac2c1e7e8314912c6d2be8522129d8d8119d47d0139a549612a4f921469c5984178210int, 0xb0e5f187b546d370ed10134dd51a9ea5afe2ce950c6d621277285c8e1a5b32d287d1fa0de82e9d1695cdf420d233161int, 0x6a893aa5e4bb7101f357f06190781d929fd6e1dd2bb260350bcde4d70c040150cde57048b00bb2f88dc25ae6bc8e8c8int, 0x89edfc6f77a19697f535d6e83d85bc7e1a97c5f0fdfe6f6af7dca4073448099bbce7793cea331581a7cbcf92b601fint, curve_y_num_sq_1_10(x), y_num_sq_0_10(x), curve_y_num_sq_2_9(x), curve_y_num_sq_1_11(x), y_num_sq_0_11(x), curve_y_num_sq_2_10(x));
    lemma_horner_level(x, 0x144698a3b8e9433d693a02c96d4982b0ea985383ee66a8d8e8981aefd881ac98936f8da0e0f97f5cf428082d584c1dint, 0xbe2f618400c57a99a1c6d18afdd5487b591295c27a4dbdbe24943812109f2629df96c4da0ef97ee261b6cef13c51bb0int, 0x188774a40dc81db608744c72f78b203a072111e7e56a0becf281611cc3f0b8344f9c46c0d78bc6df54dd94ae219d5fd6int, 0xbc4d85751f1a6c7dce52364b1abae31719edd3551efc790a654258f8fdb24a6d7a57684bafdd216a17b018fd646438bint, 0x13202a7664314066562ccd8393a9863628993c3d87deee726286ab46d6a894748354adf2fe45e25ad37c392d54a14bint, curve_y_num_sq_1_9(x), y_num_sq_0_9(x), curve_y_num_sq_2_8(x), curve_y_num_sq_1_10(x), y_num_sq_0_10(x), curve_y_num_sq_2_9(x));
    lemma_horner_level(x, 0x144698a3b8e9433d693a02c96d4982b0ea985383ee66a8d8e8981aefd881ac98936f8da0e0f97f5cf428082d584c1dint, 0x151dd5c4412566929cf3440b8f644c57c9d8cd72470432acaafd78bd456880e1a11e510f8486ce18ccdeaacba71be76cint, 0x6a893aa5e4bb7101f357f06190781d929fd6e1dd2bb260350bcde4d70c040150cde57048b00bb2f88dc25ae6bc8e8c8int, 0x174f49c5c03bc60c00fa767b810882f1a405fabeb8730de687fd55637980ae30410f7bc86964d4ae46fbf38de5d92b28int, 0x5311426e4fcf17f7fa635439a4c21313bc47522588cf821804407558cb3a66daf0e0352ed14851240877ada3d072cint, curve_y_num_sq_1_8(x), y_num_sq_0_8(x), curve_y_num_sq_2_7(x), curve_y_num_sq_1_9(x), y_num_sq_0_9(x), curve_y_num_sq_2_8(x));
    lemma_horner_level(x, 0x144698a3b8e9433d693a02c96d4982b0ea985383ee66a8d8e8981aefd881ac98936f8da0e0f97f5cf428082d584c1dint, 0x10a2103c4d69db9e40d4ff577b4bdd6f655ae2183d7af1e063b7b376dc0f9cc09bc91be7cb940587fc2f7b57be1d33f8int, 0xbc4d85751f1a6c7dce52364b1abae31719edd3551efc790a654258f8fdb24a6d7a57684bafdd216a17b018fd646438bint, 0xcc3ebf1f16ef9957f5aa9c267db7437b85c20040e9c87b7ff704690dcc397e4c537aa404dd7d41265ea3f5376f8124int, 0x92d26a5c520ed352ef7de5dabfe4a33379e9ec670233a99917e09c44b885bf96e8cc3750dbd96bdcf0dc56e18a7c1int, curve_y_num_sq_1_7(x), y_num_sq_0_7(x), curve_y_num_sq_2_6(x), curve_y_num_sq_1_8(x), y_num_sq_0_8(x), curve_y_num_sq_2_7(x));
    lemma_horner_level(x, 0x144698a3b8e9433d693a02c96d4982b0ea985383ee66a8d8e8981aefd881ac98936f8da0e0f97f5cf428082d584c1dint, 0x1406cbb9f26b04e5bfcb3e43355a240e41620b0bf5d66d0bff002375f123f21a49f51b70f37d719d1a3ed1a3c8235ff7int, 0x174f49c5c03bc60c00fa767b810882f1a405fabeb8730de687fd55637980ae30410f7bc86964d4ae46fbf38de5d92b28int, 0x14443ebc394c83fe5ad5e34808a27429a9d33d357acf3b74cce49d871ab286ddc98dbbab785c3849dc864e718f7cc111int, 0x122cc3e4d1d5ecdc345449a725ba0ff996b3b68c0d1c214caae8075cac645bbb76e14fcab5191478d1da3de46f6de6int, curve_y_num_sq_1_6(x), y_num_sq_0_6(x), curve_y_num_sq_2_5(x), curve_y_num_sq_1_7(x), y_num_sq_0_7(x), curve_y_num_sq_2_6(x));
    lemma_horner_level(x, 0x144698a3b8e9433d693a02c96d4982b0ea985383ee66a8d8e8981aefd881ac98936f8da0e0f97f5cf428082d584c1dint, 0x943b6f1a8799f1b6e5534425fd7b4d16fc0fa03481090b11af92e043d09769185d88acf4f906a883e6832587eb3fe47int, 0xcc3ebf1f16ef9957f5aa9c267db7437b85c20040e9c87b7ff704690dcc397e4c537aa404dd7d41265ea3f5376f8124int, 0x7c27bc7963a43fff956e2b54daad283448e72bc32e4f2b72dd2e081b9dfbd8782ba346d057d8950573ced16e2bfcf1dint, 0x9f409858623a00bfacf87a9bb78690ef0c7a1c1005dc66743e075547f801a80b9eb9c6335ecebd442251e0ea65beint, curve_y_num_sq_1_5(x), y_num_sq_0_5(x), curve_y_num_sq_2_4(x), curve_y_num_sq_1_6(x), y_num_sq_0_6(x), curve_y_num_sq_2_5(x));
    lemma_horner_level(x, 0x144698a3b8e9433d693a02c96d4982b0ea985383ee66a8d8e8981aefd881ac98936f8da0e0f97f5cf428082d584c1dint, 0x12caffc659152821249306b15ddf607f3e04b3b00630241e20b195b563ea78ffcb294b31624f53cea7ca6be40eec4d37int, 0x14443ebc394c83fe5ad5e34808a27429a9d33d357acf3b74cce49d871ab286ddc98dbbab785c3849dc864e718f7cc111int, 0xe197f78676c63cf22f5595ca27fd4347cd967c12e0a0a9126b1ed8b3a846c1c76fcfec9f7ced5b295764ea86f670c67int, 0xfcd5608f914191f735bda536ca519695ee44a96c4a2b4745c79fbde8501326a955cf043851b41208658670fa7fe57int, curve_y_num_sq_1_4(x), y_num_sq_0_4(x), curve_y_num_sq_2_3(x), curve_y_num_sq_1_5(x), y_num_sq_0_5(x), curve_y_num_sq_2_4(x));
    lemma_horner_level(x, 0x144698a3b8e9433d693a02c96d4982b0ea985383ee66a8d8e8981aefd881ac98936f8da0e0f97f5cf428082d584c1dint, 0x174cc54a3535986eb36242a55064ee8e4fe4fe858d103a7a3c6ced7c1d8218d5ac33a88d13a93d88c574ebf5db4845e6int, 0x7c27bc7963a43fff956e2b54daad283448e72bc32e4f2b72dd2e081b9dfbd8782ba346d057d8950573ced16e2bfcf1dint, 0xc32d61473827ae54e633e0cb9dea5bdfbbc71d7a4b116d7f5da84a4066b0ac5af2f7757f47b76d9df5ef9b36e372069int, 0x60ce27c0f8faa147df5b83f997ed273caf0bb1bfc75b0d443e0bfff1370b0f373a40747e1967d295f606e43bdc664int, curve_y_num_sq_1_3(x), y_num_sq_0_3(x), curve_y_num_sq_2_2(x), curve_y_num_sq_1_4(x), y_num_sq_0_4(x), curve_y_num_sq_2_3(x));
    lemma_horner_level(x, 0x144698a3b8e9433d693a02c96d4982b0ea985383ee66a8d8e8981aefd881ac98936f8da0e0f97f5cf428082d584c1dint, 0xd10144368c681952a646afb268949a8320be500ab4c964ac451d7b685cda93612acc7b5ea8e2ede33730a715eb5e465int, 0xe197f78676c63cf22f5595ca27fd4347cd967c12e0a0a9126b1ed8b3a846c1c76fcfec9f7ced5b295764ea86f670c67int, 0x364612fe1011542e6e51ab814b205ea71230349fc2bed82999ca5c4bba637cfbdc1cd1822808b0a87382ad5ddb73d90int, 0xafe5e45e855e54d2183b85619691ba1470c2e0eec59dcbf3704110c4390287ea98cd3b105b6c7fb7104e939cefe82int, curve_y_num_sq_1_2(x), y_num_sq_0_2(x), curve_y_num_sq_2_1(x), curve_y_num_sq_1_3(x), y_num_sq_0_3(x), curve_y_num_sq_2_2(x));
    lemma_horner_level(x, 0x144698a3b8e9433d693a02c96d4982b0ea985383ee66a8d8e8981aefd881ac98936f8da0e0f97f5cf428082d584c1dint, 0xe05b7ba8b875506ecf0366bc5db9c0e39c5db2ff63c2894da4ed005f84cc4ff95a96136fa05fe0fe0c3b1816eaec910int, 0xc32d61473827ae54e633e0cb9dea5bdfbbc71d7a4b116d7f5da84a4066b0ac5af2f7757f47b76d9df5ef9b36e372069int, 0x0int, 0x982e991d8e2011743cd293fe4478c1ab732e16787b7124adff552f26238f414b8649bbf16de948959cbbc39542c7fint, curve_y_num_sq_1_1(x), y_num_sq_0_1(x), curve_y_num_sq_2_0(x), curve_y_num_sq_1_2(x), y_num_sq_0_2(x), curve_y_num_sq_2_1(x));
    lemma_horner_level(x, 0x144698a3b8e9433d693a02c96d4982b0ea985383ee66a8d8e8981aefd881ac98936f8da0e0f97f5cf428082d584c1dint, 0xa49ac71836045290bbb0830a0f029ea0cbfc8fb60fcb19bce4e08609d9e083db1b0c4521ce1838d2f77c6a36e4e4150int, 0x364612fe1011542e6e51ab814b205ea71230349fc2bed82999ca5c4bba637cfbdc1cd1822808b0a87382ad5ddb73d90int, 0x0int, 0x2a515fc391da294ca4cbea60f6bca29d7181db5d96e554e79195796bf095f1cf58fe7a16ac8c9e3f055d915af6800int, curve_y_num_sq_1_0(x), y_num_sq_0_0(x), times(x, curve_y_num_sq_2_0(x)), curve_y_num_sq_1_1(x), y_num_sq_0_1(x), curve_y_num_sq_2_0(x));
    lemma_product_level(x, 0x144698a3b8e9433d693a02c96d4982b0ea985383ee66a8d8e8981aefd881ac98936f8da0e0f97f5cf428082d584c1dint, curve_1(x), curve_2(x), y_num_sq_0_0(x), curve_y_num_sq_1_0(x), curve_y_num_sq_2_0(x));
}

pub(crate) proof fn lemma_curve_y_num_sq_step_0(x: int)
    ensures
        congruent(curve_y_num_sq_0_0(x), times(curve_0(x), y_num_sq_0_0(x))),
{
    lemma_times_zero(x);
    lemma_curve_y_num_sq_step_1(x);
    lemma_congruent_refl(curve_y_num_sq_1_30(x), 0x12e2908d11688030018b12e8753eee3b2016c1f0f24f4070a0b9c14fcef35ef55a23215a316ceaa5d1cc48e98e172be0int * 0int + curve_y_num_sq_1_30(x));
    lemma_horner_level(x, 0x12e2908d11688030018b12e8753eee3b2016c1f0f24f4070a0b9c14fcef35ef55a23215a316ceaa5d1cc48e98e172be0int, 0x214448820023217a545fe30bdde05f79baed78a489393deace3bd9bb679ea8c20117c8160f6397ac0da0c0cb0eeda0aint, 0x30673b1c24bc7c97f094944729554461095cd85335b191fff80dffbbb553b41177f1bb29ff5dc3f24e921b95cfa5796int, 0xe561c878fede6df9bd28910c621618185c5846d0c4b5ee404998ca9f1806cfb585496b4520646dda7dd2cdb9471f34bint, 0x2326e28c87d3e99944ff809ed748f0666275d67f4ce65ed60aa5c35082c788df03e586a13daf9f9e6ac9168e4c2cb83int, curve_y_num_sq_0_30(x), y_num_sq_15_15(x), curve_y_num_sq_1_29(x), curve_y_num_sq_1_30(x), 0int, curve_y_num_sq_1_30(x));
    lemma_horner_level(x, 0x12e2908d11688030018b12e8753eee3b2016c1f0f24f4070a0b9c14fcef35ef55a23215a316ceaa5d1cc48e98e172be0int, 0x924536df2fa0c075687cf6c65fbe7d73464390fad3860a024cf40f2400daa5cdac75477865d2f24f3e30e6ce6fec5cint, 0x15651c2428ce3826d3ddb4fe2d9a7c1243da48d3d0acd5f242e382ce856852a630d118260eae4c28591b56b4d40f9f6int, 0x32aa14b5df1e765a2fa37f86b24ccdf1f6dd841452791f5c86a411e4c2891268aeed7a14289642bb313864d0893c5c7int, 0xf89a462f7b72791e24cffef96c948a75e66cdc4941a0261a7ba4f9b91e82347e8ae4ee006b8b353581eb339a3fa801int, curve_y_num_sq_0_29(x), y_num_sq_14_15(x), curve_y_num_sq_1_28(x), curve_y_num_sq_0_30(x), y_num_sq_15_15(x), curve_y_num_sq_1_29(x));
    lemma_horner_level(x, 0x12e2908d11688030018b12e8753eee3b2016c1f0f24f4070a0b9c14fcef35ef55a23215a316ceaa5d1cc48e98e172be0int, 0x1513d11d2049b1516e53f19c6c43e75abd125de249fbc3949ce73d0c88340908577bd78d25c76c6992fdfcbf51380d3aint, 0x19650c15e0c5fbbddc37605966c49f7501966c94078b5b31bbdfe212d595731812931f5e967a56346432e6a45d3f1fe4int, 0x187f179cd77b76fd7fbc9af88631a5035782a8d79562a06e874032800a446a6ef328c1fca9d1b4c202c84ba778f0e138int, 0x1271419786bf3095b6039839421e5b0c645f75266735d3a6dd61f1493a9372297f4c39405912290e7a18f2a922de167aint, curve_y_num_sq_0_28(x), y_num_sq_13_15(x), curve_y_num_sq_1_27(x), curve_y_num_sq_0_29(x), y_num_sq_14_15(x), curve_y_num_sq_1_28(x));
    lemma_horner_level(x, 0x12e2908d11688030018b12e8753eee3b2016c1f0f24f4070a0b9c14fcef35ef55a23215a316ceaa5d1cc48e98e172be0int, 0xf90535d9bece2c9bb7e0a213572c5deab5dc97507ad08fb9f59799f35fd192dbd09f9410dcbc3e59529eadb15cdbaceint, 0xe69b89f793ca86ed2915e4dc93922fc810bc818fa7f4686367792d04d28e36b3c4849ef598ea4b92a5eab6bc7b61ab5int, 0x2b05dd3b0f032ca91236ff3639a20b14c88eaa9d28de4ccfd65887b49a33b734dc9ff9769376996d6dae3341aa5be7cint, 0xa77962c5e28df69e5c2b51d438d662c293ccedf7d1a0ae6450cd78e406648bfb1c7c8b2a5b4f411669b844dcff65b2aint, curve_y_num_sq_0_27(x), y_num_sq_12_15(x), curve_y_num_sq_1_26(x), curve_y_num_sq_0_28(x), y_num_sq_13_15(x), curve_y_num_sq_1_27(x));
    lemma_horner_level(x, 0x12e2908d11688030018b12e8753eee3b2016c1f0f24f4070a0b9c14fcef35ef55a23215a316ceaa5d1cc48e98e172be0int, 0xc5310f4e13eb48ee052a0a40a5e9e58e47f1e422f4ea0387c963c7ca6a47aac269b5c35162be5800a3304973729b142int, 0xd1cf4024ae082cc5bac9172754516115f19bb26984b72bcb460115f92cabc86565f0fdeb8a1aba5a9022ffba6b9fc56int, 0xf65f551969e8991ab7111b1e94a5c6dbbafa49c6c4d6340bd3f1151585b7d520626e014c41b4def3758ea42e1f45dd3int, 0x985eba30f3b0f2b7ff69dd1add3180945a9971571b5323d99a039e7b2e4f19a70643a81e735592a4125aed53d5ebd73int, curve_y_num_sq_0_26(x), y_num_sq_11_15(x), curve_y_num_sq_1_25(x), curve_y_num_sq_0_27(x), y_num_sq_12_15(x), curve_y_num_sq_1_26(x));
    lemma_horner_level(x, 0x12e2908d11688030018b12e8753eee3b2016c1f0f24f4070a0b9c14fcef35ef55a23215a316ceaa5d1cc48e98e172be0int, 0x36597af9b63cbdf8f44aa3ba633c44e7c0b0205bd7fe3309e704c5a292c465079816226359952261f2697bd428ca731int, 0x10346fa175d204b4d667f29c35af11b661a82de95f72f823866ba17e9b7b82aeebfc991e6b3f0f6d71d0cea0fdef78deint, 0x3bebf0c7d4026520426c8faeab30bf325081c7c89958bbefd5943624d82ce6fca5fb9e28d8c5f0268c9688ffe4d5ec3int, 0xbc4b81b56bbb2405374548d5c233fa624dc2f2989b199ee98db6655317748f6cd399fe55b554f1a3601fef2bf134b76int, curve_y_num_sq_0_25(x), y_num_sq_10_15(x), curve_y_num_sq_1_24(x), curve_y_num_sq_0_26(x), y_num_sq_11_15(x), curve_y_num_sq_1_25(x));
    lemma_horner_level(x, 0x12e2908d11688030018b12e8753eee3b2016c1f0f24f4070a0b9c14fcef35ef55a23215a316ceaa5d1cc48e98e172be0int, 0x6bced99bd2334d28a321fd2efb81d6dc028091f2022225f46a78fd234f3c2a4a4c5a763b62d4627fccc54704855097eint, 0x4b636b168654548b500d9db6a986af9a32938291ee834b1a9319620f414a096ed4e5d37b43f8f7fce5145e757786fb2int, 0x1512a5c7cfd4ffb8bbcb5b0041abb023bba3d72ab6c56bfb63d1da852cbf82aa9b84fd7a1c8873a76728158090175045int, 0x36bfd19316ece81435e52133df6e41c50cf3971e4ef391687f89730a3614ae3c97c3f206b27df6c1813aa282c43b995int, curve_y_num_sq_0_24(x), y_num_sq_9_15(x), curve_y_num_sq_1_23(x), curve_y_num_sq_0_25(x), y_num_sq_10_15(x), curve_y_num_sq_1_24(x));
    lemma_horner_level(x, 0x12e2908d11688030018b12e8753eee3b2016c1f0f24f4070a0b9c14fcef35ef55a23215a316ceaa5d1cc48e98e172be0int, 0x11d98c5173f300d646fafd65ecc228d7362e5535ae0aeff800063f5ff205fe93df01272b7dfce2def4d625fb41342c4dint, 0x11f232fd5ca7e8408d3a410b1aed129917243a3c92c76833ab38678178682b463f6272c1c42868c4990d753ff784a37dint, 0x155b39a1eaa11b3a056cb6de45f4ae46891a8b16bea85ea4ef3ddd1c70ebe36c7e04f17177dd49081c63658ae2852f76int, 0xd08721dc65a30615fe1875891f7df496b315d87951d80ddbd96f7262819d5c2ca197db380de15f5462fc73db7ce2e9bint, curve_y_num_sq_0_23(x), y_num_sq_8_15(x), curve_y_num_sq_1_22(x), curve_y_num_sq_0_24(x), y_num_sq_9_15(x), curve_y_num_sq_1_23(x));
    lemma_horner_level(x, 0x12e2908d11688030018b12e8753eee3b2016c1f0f24f4070a0b9c14fcef35ef55a23215a316ceaa5d1cc48e98e172be0int, 0x104f20b79c89b2fd6c8add012bd2a90aa6237535c873a3485d47c1c345389486e8b8368f1af79f3afadc2f6711bf855aint, 0x1880fe0904b5cdebd70e429445b351892de665ce521867363ded3361df57eb7abe77f324f00d4fac01a522cc8b8b288bint, 0xd1e304a4829c29d5e9e9d4ac3beddffb32f5a0c7aced7499412f3a1f52d5eaf99206b24f97d34cc1ba1207dad329333int, 0x11cba2ca0b8012a388e455b07961b2fe75fc5595d9bf4c587d36145be8d383ac52712cd8f98e3915a65d83f91bf3a16bint, curve_y_num_sq_0_22(x), y_num_sq_7_15(x), curve_y_num_sq_1_21(x), curve_y_num_sq_0_23(x), y_num_sq_8_15(x), curve_y_num_sq_1_22(x));
    lemma_horner_level(x, 0x12e2908d11688030018b12e8753eee3b2016c1f0f24f4070a0b9c14fcef35ef55a23215a316ceaa5d1cc48e98e172be0int, 0xbee71e1128fcc90de63e9d2938f1a911b8f8b4e4aa4894acc39d603074772649be3c21e9d42c89ad474620d6dc20d19int, 0xf8942051dda9f78a9b392da80b697037300641e1863f9d611b15d9a11332ae7129ddc56c327e23b6f2a034cfca92392int, 0x14f9ae4ec4d62a22bf42171268e79531e4f0ef71b26c5b65660781755cf5664602cd0ac6e8563a5c577265ca0a05395bint, 0xb486788a05207873c1720ec96ea88394912bd82962dfe03fe2ab8a80979e4937bb47f30c908f481b32eab1f4c137606int, curve_y_num_sq_0_21(x), y_num_sq_6_15(x), curve_y_num_sq_1_20(x), curve_y_num_sq_0_22(x), y_num_sq_7_15(x), curve_y_num_sq_1_21(x));
    lemma_horner_level(x, 0x12e2908d11688030018b12e8753eee3b2016c1f0f24f4070a0b9c14fcef35ef55a23215a316ceaa5d1cc48e98e172be0int, 0x1234617d82c6133b36873c0ac2daf45dbf7a5f6567c08d5e820d366cc80b0e550c4d928ccaf08612264936004fbdddaaint, 0x1425d2c8e1a26a0531e2b9507105b0f56e1eb51f7e6d119be1aa608f108c70a2e77a1016a266891a12d4fbe611a0935int, 0x9ed537f279bed5d6a93b5360e32993a316d7fb21df206d3bd5a158a18106da1dfc29a7cc941e218c60aa52c1c9a8c07int, 0xea1c441dddd57c735a3249f8e4f8e5d8e927eec41bf89e5d452e5bbceb9f34ae45f48c8286be7acfceed500211eb37int, curve_y_num_sq_0_20(x), y_num_sq_5_15(x), curve_y_num_sq_1_19(x), curve_y_num_sq_0_21(x), y_num_sq_6_15(x), curve_y_num_sq_1_20(x));
    lemma_horner_level(x, 0x12e2908d11688030018b12e8753eee3b2016c1f0f24f4070a0b9c14fcef35ef55a23215a316ceaa5d1cc48e98e172be0int, 0x103b3d1c58d5f53123c8be600ec3d38e990e84c813c095029b2c305eea2e270ec6588b6a63ad82d8d0ff61b7aae17cd7int, 0xd10ecda5f4561453854c85db048213e036ec0a826c6e562abfe2b7fb552cf75df73f854ae50ae6097c748f686ccdb3bint, 0x1477b15840c542b3f1a38d8e57f0422c932548a1e677cede53414b25e9532230aefedc49634e9067f9f4381d1d5c74c1int, 0x97d2f7611395e75704f4133d24a5cb1d69d6e23776c7b3ed7b580989f1a30705d054076a430a49d604dae8dce2e1d9eint, curve_y_num_sq_0_19(x), y_num_sq_4_15(x), curve_y_num_sq_1_18(x), curve_y_num_sq_0_20(x), y_num_sq_5_15(x), curve_y_num_sq_1_19(x));
    lemma_horner_level(x, 0x12e2908d11688030018b12e8753eee3b2016c1f0f24f4070a0b9c14fcef35ef55a23215a316ceaa5d1cc48e98e172be0int, 0x180bdb25625456a5a3be3b99c9d38626c250e718e0e0e4cde02fb5c9286bf84a337b58a5358679d66e4fe8e9ff0c8981int, 0x26a20e4e09a560027ee895f66015e228aaf6fcb1e9562ece6d64c84cd347a0e593ab3b3be6151d0a26cc3fa4509a9bint, 0xf0bdf114fd46d41d34c3f1c6abd7b9647ebb01e768e36ca043dec415eddf50b17bb3e91b8eec7a06599018a9ccb88int, 0x1c0e74d370446ab1787cd829fbc6c40e1702531dfc3d2a0aa05b0c9dc8e89677f3d871d47ade784cd48745e5eab7f5int, curve_y_num_sq_0_18(x), y_num_sq_3_15(x), curve_y_num_sq_1_17(x), curve_y_num_sq_0_19(x), y_num_sq_4_15(x), curve_y_num_sq_1_18(x));
    lemma_horner_level(x, 0x12e2908d11688030018b12e8753eee3b2016c1f0f24f4070a0b9c14fcef35ef55a23215a316ceaa5d1cc48e98e172be0int, 0x175fd0d7b944f80056944cd4c4e7862a2c14e626304cc35d05a07c7a1b211a505a0118a2680812e4af9a78141e23f69int, 0x193066e443bbff29dd489657eb1a552af4c01d47c6997b7b7a5f1c3bb3cb0b11bc0d6544cf6c806c4a8b6284f7f46d24int, 0x11a17200b5a31d83d9e6b425af5bda90da26942267c34ee4034ab40616dd13a503b1a51297f72f9d1d1115707a324101int, 0x124b060c48c5ffa09a63693353856a84829b7b707970751416b864309b8d6a9a47eaa43ffec639c61ec58b1faf89a748int, curve_y_num_sq_0_17(x), y_num_sq_2_15(x), curve_y_num_sq_1_16(x), curve_y_num_sq_0_18(x), y_num_sq_3_15(x), curve_y_num_sq_1_17(x));
    lemma_horner_level(x, 0x12e2908d11688030018b12e8753eee3b2016c1f0f24f4070a0b9c14fcef35ef55a23215a316ceaa5d1cc48e98e172be0int, 0x37955252fabe47da612690b91a275c82d6a10697591c8f80ab77bc36e0b98d8208fa8184b30050f1a690048c02678cfint, 0xc825a8ba33fcbcd0deeb39d01431da76ff878e23b168d050ec136e96b7fa4db98ad56ff21bc0e1cac95b8f52e2d10f6int, 0x18e22d66a09913878359d7b0fa1dd55dcd5c0181ad5b7433c9a7ca7a5384d7c8def9e666b84398ec2b83c703b70170f0int, 0x915a54a9607dfc17d53e15c9c7699683d0e7b97763ebd8f5574397b381c13a978c285615e65e5546a4dd6fa22da6423int, curve_y_num_sq_0_16(x), y_num_sq_1_15(x), curve_y_num_sq_1_15(x), curve_y_num_sq_0_17(x), y_num_sq_2_15(x), curve_y_num_sq_1_16(x));
    lemma_horner_level(x, 0x12e2908d11688030018b12e8753eee3b2016c1f0f24f4070a0b9c14fcef35ef55a23215a316ceaa5d1cc48e98e172be0int, 0x39a53636686c8bd523ee17198194e5ec8d8a963a8467e772c732c95ce8489fc264e70693e9c213b6c23dbaa46193e8dint, 0x114e816775c39902e2986ad37457f700e1d59f0c160f02a1554c843afdbf5091f02905b01f0070a51b73df874dea6e4fint, 0xc1ea6360607f4b69b6454544e9c67655126b31ba4268e039753fe8e63da53fda8d25da74924c5dca48da7d5c9486db8int, 0xc919104b41f85f13b4b7142c03083d4574c2d428e7f295f76d891c2c3f601c6fa778084064a2b6032ef9b174fb0ebe1int, curve_y_num_sq_0_15(x), y_num_sq_0_15(x), curve_y_num_sq_1_14(x), curve_y_num_sq_0_16(x), y_num_sq_1_15(x), curve_y_num_sq_1_15(x));
    lemma_horner_level(x, 0x12e2908d11688030018b12e8753eee3b2016c1f0f24f4070a0b9c14fcef35ef55a23215a316ceaa5d1cc48e98e172be0int, 0x139dfbe6aed7d5c5107242d9fa6bf775606d1f64b0f0e5d3d8deeb739f43ade0e81f30dc6263c9dfa63c0b03b5026652int, 0x5943ca2c3bac41f048b4e499a88e3fd39e64771852ed2ed6c750c461378eb091b17d266a502bbd115fc4aae47ef405dint, 0x137cae9b076a344af2ca8b9efa44505cee984406817a65f7be95144e0899143b87ef4af94eae5facd6bf46b17771f72aint, 0x40d3a861567d6e51e280ed85360722e1928a90be8db0db95a7baa8cd4784340e8229735bb5326de69c792cb497f83a8int, curve_y_num_sq_0_14(x), y_num_sq_0_14(x), curve_y_num_sq_1_13(x), curve_y_num_sq_0_15(x), y_num_sq_0_15(x), curve_y_num_sq_1_14(x));
    lemma_horner_level(x, 0x12e2908d11688030018b12e8753eee3b2016c1f0f24f4070a0b9c14fcef35ef55a23215a316ceaa5d1cc48e98e172be0int, 0x1fd49cf502f7f4b8d0bb1d393612a09ab5758fe6e85d5ce3e8ffb21e71d9dd7479798856e8d2371f22fe52912e4ad8eint, 0xb541ebd62ce60936d8af9751a1b1eb83500aa20113736ab3bdf5e369c657a277de36b3c5ba05dcc0bda3fdf93fb41abint, 0x102305fb49d604ca596e6d80d22e1a7022dacce3523950a2cdfccad5bfdbb202eb87454ad89987cdfa57759cba8bddd8int, 0x83a278e798c60e2b39b6ae1d987756bfc0aa7a0fc02d2710477137329d707845957238e34cdadd37fb2fe27646e1cbeint, curve_y_num_sq_0_13(x), y_num_sq_0_13(x), curve_y_num_sq_1_12(x), curve_y_num_sq_0_14(x), y_num_sq_0_14(x), curve_y_num_sq_1_13(x));
    lemma_horner_level(x, 0x12e2908d11688030018b12e8753eee3b2016c1f0f24f4070a0b9c14fcef35ef55a23215a316ceaa5d1cc48e98e172be0int, 0x20eddf5a8bcbd755b14e1ab5bb784012637d0a7490ce53a960b95cbeba186428f181fe80f1051a109c9954040cb35c4int, 0xbd52f5b450d872fdd3fc45634980fb499a56a968d4baf2f1eaf42c943b8c3424fe99030f75c1c9c381b9ca11322aa17int, 0x10133f75c39d4db191149b0134ff461499385a0f29a3411c7a45bd6cfc84fa3f21f980b3df778e266b2270ef522ae602int, 0x897e2a5af8d4f03535842c7b452ef7b3547ec7b9d7a633c007d34c3573c87609e3a9120e76725da84fbb9d32920241aint, curve_y_num_sq_0_12(x), y_num_sq_0_12(x), curve_y_num_sq_1_11(x), curve_y_num_sq_0_13(x), y_num_sq_0_13(x), curve_y_num_sq_1_12(x));
    lemma_horner_level(x, 0x12e2908d11688030018b12e8753eee3b2016c1f0f24f4070a0b9c14fcef35ef55a23215a316ceaa5d1cc48e98e172be0int, 0xcc218493850267c9b8bec72223f6d2f7df57ca663dcb0093955385de344c4d567bb0fc87cb61b1372f85b7e3e6c6beint, 0x1592da97f942047e0b3ba97e63e1a61a9cdeff56994e7e168ac2fc4573c2673bdaa471e537bb86b0cf17cce071833f54int, 0x9ab978a6e3e34bb02d5e6a708ac2c1e7e8314912c6d2be8522129d8d8119d47d0139a549612a4f921469c5984178210int, 0xfaadcdea5131c64f089e1dbd052b87aa6c59ea250fc7fb4e1045f045a711e5be94c359e78bd52427fd98c7b981bc276int, curve_y_num_sq_0_11(x), y_num_sq_0_11(x), curve_y_num_sq_1_10(x), curve_y_num_sq_0_12(x), y_num_sq_0_12(x), curve_y_num_sq_1_11(x));
    lemma_horner_level(x, 0x12e2908d11688030018b12e8753eee3b2016c1f0f24f4070a0b9c14fcef35ef55a23215a316ceaa5d1cc48e98e172be0int, 0x140d18a77257ecb37ad34c1a8cc0cf817d9de5b7ed88e14426ff058ef6b762c8004691d36947caf49e74b4f94c8be386int, 0xb0e5f187b546d370ed10134dd51a9ea5afe2ce950c6d621277285c8e1a5b32d287d1fa0de82e9d1695cdf420d233161int, 0xbe2f618400c57a99a1c6d18afdd5487b591295c27a4dbdbe24943812109f2629df96c4da0ef97ee261b6cef13c51bb0int, 0x80780400a023b7870fd586be2ad3c82c9663ffa1100a2c02bd5d95e6eb83ae638d66edefc428355057fb3976f32281eint, curve_y_num_sq_0_10(x), y_num_sq_0_10(x), curve_y_num_sq_1_9(x), curve_y_num_sq_0_11(x), y_num_sq_0_11(x), curve_y_num_sq_1_10(x));
    lemma_horner_level(x, 0x12e2908d11688030018b12e8753eee3b2016c1f0f24f4070a0b9c14fcef35ef55a23215a316ceaa5d1cc48e98e172be0int, 0xa505ff3c306ea2ef1a655a2951af8ee966615ecba1010c540b2f840023cc775dd344e64ec0274bd56ce6eeff02aff0bint, 0x188774a40dc81db608744c72f78b203a072111e7e56a0becf281611cc3f0b8344f9c46c0d78bc6df54dd94ae219d5fd6int, 0x151dd5c4412566929cf3440b8f644c57c9d8cd72470432acaafd78bd456880e1a11e510f8486ce18ccdeaacba71be76cint, 0x11d05469e4c8d83272c04415e3b872afd9b480f9ab4fa14dee333c68aff693e1e222c69dced5d82fb910aa9cc0ca20e3int, curve_y_num_sq_0_9(x), y_num_sq_0_9(x), curve_y_num_sq_1_8(x), curve_y_num_sq_0_10(x), y_num_sq_0_10(x), curve_y_num_sq_1_9(x));
    lemma_horner_level(x, 0x12e2908d11688030018b12e8753eee3b2016c1f0f24f4070a0b9c14fcef35ef55a23215a316ceaa5d1cc48e98e172be0int, 0xb46bc3da6825259d378040f44f0c8dd11a92e5f1a1391b11740778e27e98c9bc887facc5c56d76af3d2256903698365int, 0x6a893aa5e4bb7101f357f06190781d929fd6e1dd2bb260350bcde4d70c040150cde57048b00bb2f88dc25ae6bc8e8c8int, 0x10a2103c4d69db9e40d4ff577b4bdd6f655ae2183d7af1e063b7b376dc0f9cc09bc91be7cb940587fc2f7b57be1d33f8int, 0x4d5ea3dec2201a679bd0bf9c9005bf8c7e086102c1f706c002f4e807de72164642aa4faf2970f9cab9d5bfed16be6b9int, curve_y_num_sq_0_8(x), y_num_sq_0_8(x), curve_y_num_sq_1_7(x), curve_y_num_sq_0_9(x), y_num_sq_0_9(x), curve_y_num_sq_1_8(x));
    lemma_horner_level(x, 0x12e2908d11688030018b12e8753eee3b2016c1f0f24f4070a0b9c14fcef35ef55a23215a316ceaa5d1cc48e98e172be0int, 0x4dc46f932bdf1570c66e5faa23626279f38a2fde06bc157731f7fa4378841c11a3b1ae1acddebf8b99a31fc8fba6f8eint, 0xbc4d85751f1a6c7dce52364b1abae31719edd3551efc790a654258f8fdb24a6d7a57684bafdd216a17b018fd646438bint, 0x1406cbb9f26b04e5bfcb3e43355a240e41620b0bf5d66d0bff002375f123f21a49f51b70f37d719d1a3ed1a3c8235ff7int, 0x88c04d0c22783b398df8da34845c2fe606660c2fc1ee7b4a054e19c0ab3e8f07c2c6005d2871cc4b70d0aa73547291bint, curve_y_num_sq_0_7(x), y_num_sq_0_7(x), curve_y_num_sq_1_6(x), curve_y_num_sq_0_8(x), y_num_sq_0_8(x), curve_y_num_sq_1_7(x));
    lemma_horner_level(x, 0x12e2908d11688030018b12e8753eee3b2016c1f0f24f4070a0b9c14fcef35ef55a23215a316ceaa5d1cc48e98e172be0int, 0x18f41fe342f5050b81401f771ed2240cdfcb8ec4044ef8410687c44d5ca62b3cd38f2172bc317218d3d448156947058cint, 0x174f49c5c03bc60c00fa767b810882f1a405fabeb8730de687fd55637980ae30410f7bc86964d4ae46fbf38de5d92b28int, 0x943b6f1a8799f1b6e5534425fd7b4d16fc0fa03481090b11af92e043d09769185d88acf4f906a883e6832587eb3fe47int, 0x10ed9fd483e7129dad6728d3688091fbc4b554b3cdbb6bd4877d0e2bf72c4eb894e7188dffcc7935a1de15b896105b31int, curve_y_num_sq_0_6(x), y_num_sq_0_6(x), curve_y_num_sq_1_5(x), curve_y_num_sq_0_7(x), y_num_sq_0_7(x), curve_y_num_sq_1_6(x));
    lemma_horner_level(x, 0x12e2908d11688030018b12e8753eee3b2016c1f0f24f4070a0b9c14fcef35ef55a23215a316ceaa5d1cc48e98e172be0int, 0xa75ac56218952cee58b4eeb89a49af330079ea312790233482edddddbae624ef520cf67687e08ea86c105bfea9fc799int, 0xcc3ebf1f16ef9957f5aa9c267db7437b85c20040e9c87b7ff704690dcc397e4c537aa404dd7d41265ea3f5376f8124int, 0x12caffc659152821249306b15ddf607f3e04b3b00630241e20b195b563ea78ffcb294b31624f53cea7ca6be40eec4d37int, 0x945435a9bffaacd94f48542c06591e86aa71116fe4cefd774e57ada23e2cf31244174fd6116e8980112e068bb9b35aint, curve_y_num_sq_0_5(x), y_num_sq_0_5(x), curve_y_num_sq_1_4(x), curve_y_num_sq_0_6(x), y_num_sq_0_6(x), curve_y_num_sq_1_5(x));
    lemma_horner_level(x, 0x12e2908d11688030018b12e8753eee3b2016c1f0f24f4070a0b9c14fcef35ef55a23215a316ceaa5d1cc48e98e172be0int, 0xca5c44029f210e27662ee1e6b08d45cfa9a939ddc88716aa8b3692c78eda4316f05350e8b2446c3bf59ffa8cadfcff1int, 0x14443ebc394c83fe5ad5e34808a27429a9d33d357acf3b74cce49d871ab286ddc98dbbab785c3849dc864e718f7cc111int, 0x174cc54a3535986eb36242a55064ee8e4fe4fe858d103a7a3c6ced7c1d8218d5ac33a88d13a93d88c574ebf5db4845e6int, 0xeb7dc19f9c51f6fec5ccd9803d8fbc750802225001cd2a0fc59488a66e822f64990139a79731898df2278b0c911bf7fint, curve_y_num_sq_0_4(x), y_num_sq_0_4(x), curve_y_num_sq_1_3(x), curve_y_num_sq_0_5(x), y_num_sq_0_5(x), curve_y_num_sq_1_4(x));
    lemma_horner_level(x, 0x12e2908d11688030018b12e8753eee3b2016c1f0f24f4070a0b9c14fcef35ef55a23215a316ceaa5d1cc48e98e172be0int, 0x18a55bb318acff0cc4dc57625dc5ae607e7654950d579cc8c6df500d0a963fbb17e8d5d5310fd82bfe98125dbe7a84a3int, 0x7c27bc7963a43fff956e2b54daad283448e72bc32e4f2b72dd2e081b9dfbd8782ba346d057d8950573ced16e2bfcf1dint, 0xd10144368c681952a646afb268949a8320be500ab4c964ac451d7b685cda93612acc7b5ea8e2ede33730a715eb5e465int, 0x5a2a4e633b1388972eb6742477668f4c636fe7d7b63fbedd42115e5351eb99a7862803b6efb7de3a65651df3cc66866int, curve_y_num_sq_0_3(x), y_num_sq_0_3(x), curve_y_num_sq_1_2(x), curve_y_num_sq_0_4(x), y_num_sq_0_4(x), curve_y_num_sq_1_3(x));
    lemma_horner_level(x, 0x12e2908d11688030018b12e8753eee3b2016c1f0f24f4070a0b9c14fcef35ef55a23215a316ceaa5d1cc48e98e172be0int, 0x19b9767ccb4bedc35cad693834cece07e203975278aecbb480b4e785640b8cf474ed720821c698f8ad7d76749a4bd494int, 0xe197f78676c63cf22f5595ca27fd4347cd967c12e0a0a9126b1ed8b3a846c1c76fcfec9f7ced5b295764ea86f670c67int, 0xe05b7ba8b875506ecf0366bc5db9c0e39c5db2ff63c2894da4ed005f84cc4ff95a96136fa05fe0fe0c3b1816eaec910int, 0xa3d537988d4fe6aa654bc3228ff56bf9440d4857b46a296702b0d470c407442d0140fae73ac835132ee3b94e98052d4int, curve_y_num_sq_0_2(x), y_num_sq_0_2(x), curve_y_num_sq_1_1(x), curve_y_num_sq_0_3(x), y_num_sq_0_3(x), curve_y_num_sq_1_2(x));
    lemma_horner_level(x, 0x12e2908d11688030018b12e8753eee3b2016c1f0f24f4070a0b9c14fcef35ef55a23215a316ceaa5d1cc48e98e172be0int, 0x1602caadb41644720f82a2a12028d866f7d6136c361fa474d91e3128c894ba92715d7433e245a435fff110f246196c51int, 0xc32d61473827ae54e633e0cb9dea5bdfbbc71d7a4b116d7f5da84a4066b0ac5af2f7757f47b76d9df5ef9b36e372069int, 0xa49ac71836045290bbb0830a0f029ea0cbfc8fb60fcb19bce4e08609d9e083db1b0c4521ce1838d2f77c6a36e4e4150int, 0x8dbe5d02af0fd6408ae90655e1e3a4fe0d7ecfc6b4b54dbca371f931ef598687b8373c2ecd7a9bc09e30cae82927b9dint, curve_y_num_sq_0_1(x), y_num_sq_0_1(x), curve_y_num_sq_1_0(x), curve_y_num_sq_0_2(x), y_num_sq_0_2(x), curve_y_num_sq_1_1(x));
    lemma_horner_level(x, 0x12e2908d11688030018b12e8753eee3b2016c1f0f24f4070a0b9c14fcef35ef55a23215a316ceaa5d1cc48e98e172be0int, 0xc53a9dc10894709f6735d507e3c47cd4e60db447e0e943d7e2bb4c2c007bdd6181af8bf1355b9fd54e4f56077aba26dint, 0x364612fe1011542e6e51ab814b205ea71230349fc2bed82999ca5c4bba637cfbdc1cd1822808b0a87382ad5ddb73d90int, 0x0int, 0x276a4b854d319c4fe423cca954439120786d8fd6737e324595635d901422c92d8596f7d479f6c1c1e3107906a8d42b9int, curve_y_num_sq_0_0(x), y_num_sq_0_0(x), times(x, curve_y_num_sq_1_0(x)), curve_y_num_sq_0_1(x), y_num_sq_0_1(x), curve_y_num_sq_1_0(x));
    lemma_product_level(x, 0x12e2908d11688030018b12e8753eee3b2016c1f0f24f4070a0b9c14fcef35ef55a23215a316ceaa5d1cc48e98e172be0int, curve_0(x), curve_1(x), y_num_sq_0_0(x), curve_y_num_sq_0_0(x), curve_y_num_sq_1_0(x));
}

pub(crate) proof fn lemma_x_num_sq_step_11(x: int)
    ensures
        congruent(x_num_sq_11_0(x), times(x_num_11(x), x_num_0(x))),
{
    lemma_times_zero(x);
    lemma_congruent_refl(0int, 0x6e08c248e260e70bd1e962381edee3d31d79d7e22c837bc23c0bf1bc24c6b68c24b1b80b64d391fa9c8ba2e8ba2d229int * 0int + 0int);
    lemma_horner_level(x, 0x6e08c248e260e70bd1e962381edee3d31d79d7e22c837bc23c0bf1bc24c6b68c24b1b80b64d391fa9c8ba2e8ba2d229int, 0x1fdb435b0d2d1ccefe075627a716156584802aff4c7d9a81f3e592e0d9b8bca6dac177fe89d19dc463ef09cf258108cint, 0x6e08c248e260e70bd1e962381edee3d31d79d7e22c837bc23c0bf1bc24c6b68c24b1b80b64d391fa9c8ba2e8ba2d229int, 0x0int, 0x1d1996d1b03b7a755fb650fbccecaa4486bcc8f5ff13f66a6046dc7dec1b29ee0def876aaec396bcfcf87fb6248ae0fint, x_num_sq_11_11(x), x_num_11(x), 0int, 0int, 0int, 0int);
    lemma_horner_level(x, 0x6e08c248e260e70bd1e962381edee3d31d79d7e22c837bc23c0bf1bc24c6b68c24b1b80b64d391fa9c8ba2e8ba2d229int, 0x1342c9b82f87fa142744adf863e5dcf9851732e4aeacecfe29b1c0e7520b08281cd46ce1ade75ffb68a0ea92813d28deint, 0x10321da079ce07e272d8ec09d2565b0dfa7dccdde6787f96d50af36003b14866f69b771f8c285decca67df3f1605fb7bint, 0x0int, 0x4487e5085c43d5328f38cb45103cbea4ef09bbbbe023f5cc835ac43b4cfad980e710c765c13236b0d5498219c0a0b7fint, x_num_sq_11_10(x), x_num_10(x), 0int, x_num_sq_11_11(x), x_num_11(x), 0int);
    lemma_horner_level(x, 0x6e08c248e260e70bd1e962381edee3d31d79d7e22c837bc23c0bf1bc24c6b68c24b1b80b64d391fa9c8ba2e8ba2d229int, 0x101717e9475ca17523bc62cb1d3b22f425e1acb1934b2380e71a722cfa36c330887834fb5b39bebd22675b1c5c8be76cint, 0x169b1f8e1bcfa7c42e0c37515d138f22dd2ecb803a0c5c99676314baf4bb1b7fa3190b2edc0327797f241067be390c9eint, 0x0int, 0x5fa7a97d494020dccb4f320189d80d453e20fbc5b8453ba8d9707991cc159c8e550ac36b4e5547d38e59217346c2da6int, x_num_sq_11_9(x), x_num_9(x), 0int, x_num_sq_11_10(x), x_num_10(x), 0int);
    lemma_horner_level(x, 0x6e08c248e260e70bd1e962381edee3d31d79d7e22c837bc23c0bf1bc24c6b68c24b1b80b64d391fa9c8ba2e8ba2d229int, 0x13318ebd173307e55c3b9eb0d1001cf549670c16867c95e69b86ddc21b575debbe5be39d9af3227ff9d801427792fe5aint, 0x80d3cf1f9a78fc47b90b33563be990dc43b756ce79f5574a2c596c928c5d1de4fa295f296b74e956d71986a8497e317int, 0x0int, 0x2211eed7b25f779c7d1a3c1f44bcb62d8ebc1f6b7f75c6b02d9479cde5a660c3f5fe3f3fd8b73fd34376e2066c4baffint, x_num_sq_11_8(x), x_num_8(x), 0int, x_num_sq_11_9(x), x_num_9(x), 0int);
    lemma_horner_level(x, 0x6e08c248e260e70bd1e962381edee3d31d79d7e22c837bc23c0bf1bc24c6b68c24b1b80b64d391fa9c8ba2e8ba2d229int, 0x19c537f407e6e0607e9085abe296bbf441654e48edb44a16912cdd7ab95d8723f2364fefd841972fba555339546519a3int, 0x17b81e7701abdbe2e8743884d1117e53356de5ab275b4db1a682c62ef0f2753339b7c8f8c8f475af9ccb5618e3f0c88eint, 0x0int, 0x645d982e92b55a7e8d8eafaed3dc016016f937b8b775a5d8702d96fda2af6cbf5e035264a4d583f5e5bdb87a3f38351int, x_num_sq_11_7(x), x_num_7(x), 0int, x_num_sq_11_8(x), x_num_8(x), 0int);
    lemma_horner_level(x, 0x6e08c248e260e70bd1e962381edee3d31d79d7e22c837bc23c0bf1bc24c6b68c24b1b80b64d391fa9c8ba2e8ba2d229int, 0x11f2d70d4596f9cb80904095e97dbf2da9d0f3530d3fe7f10ed9a128cd222f03f8970f7a269afc279257d7afea0f0f5dint, 0xd6ed6553fe44d296a3726c38ae652bfb11586264f0f8ce19008e218f9c86b2a8da25128c1052ecaddd7f225a139ed84int, 0x0int, 0x38d71ce9c888ae2c11d653a0f93a7de11365a7c6112ec2243b62f19a57f0d8814880489b855ffae3ee698e5fc17c855int, x_num_sq_11_6(x), x_num_6(x), 0int, x_num_sq_11_7(x), x_num_7(x), 0int);
    lemma_horner_level(x, 0x6e08c248e260e70bd1e962381edee3d31d79d7e22c837bc23c0bf1bc24c6b68c24b1b80b64d391fa9c8ba2e8ba2d229int, 0x18aee60fc1ebb3583c330e683f555fc1db2d3158379fe85aa41ed270a5f906b5357f32e186e526962ba43ef4f21c06b1int, 0x1630c3250d7313ff01d1201bf7a74ab5db3cb17dd952799b9ed3ab9097e68f90a0870d2dcae73d19cd13c1c66f652983int, 0x0int, 0x5de59b0f083fcd34ec2f1380eb7e0fb33a208db76d4398c980533b8391902002a741cdfae4162abd924f5e414ff3fdeint, x_num_sq_11_5(x), x_num_5(x), 0int, x_num_sq_11_6(x), x_num_6(x), 0int);
    lemma_horner_level(x, 0x6e08c248e260e70bd1e962381edee3d31d79d7e22c837bc23c0bf1bc24c6b68c24b1b80b64d391fa9c8ba2e8ba2d229int, 0x133f69190f32eb1b4d3f34eafc60015d8aa39c40af09bf7825e33daa02dfa58ae728838103e30fcc875c880a64dceaacint, 0xe99726a3199f4436642b4b3e4118e5499db995a1257fb3f086eeb65982fac18985a286f301e77c451154ce9ac8895d9int, 0x0int, 0x3dc6a6c7b225e37e8446b076048586b007dc73bc99c8e9c4e654499cf6359f158f3e0611b891d8ee4c8471e1002453fint, x_num_sq_11_4(x), x_num_4(x), 0int, x_num_sq_11_5(x), x_num_5(x), 0int);
    lemma_horner_level(x, 0x6e08c248e260e70bd1e962381edee3d31d79d7e22c837bc23c0bf1bc24c6b68c24b1b80b64d391fa9c8ba2e8ba2d229int, 0x198dadd3ad5c916534bbd01094346be53fcaff5e86b17da5d06a379bff44451144ae89454f99fcb4ca0f51861ddcfe0bint, 0x1778e7166fcc6db74e0609d307e55412d7f5e4656a8dbf25f1b33289f1b330835336e25ce3107193c5b388641d9b6861int, 0x0int, 0x635219c260784af6b60cdb4a2e1ac72fffd53accde60401926edcb4594f1fdf07327b55eba74200ff645f4f5e92e27aint, x_num_sq_11_3(x), x_num_3(x), 0int, x_num_sq_11_4(x), x_num_4(x), 0int);
    lemma_horner_level(x, 0x6e08c248e260e70bd1e962381edee3d31d79d7e22c837bc23c0bf1bc24c6b68c24b1b80b64d391fa9c8ba2e8ba2d229int, 0x1229a2a79bb2a11652004ab72c36bcf714abb3ab878baaaabcdd130e6fdaec3775bc44369b2fd04910b9aece86b7082cint, 0xd54005db97678ec1d1048c5d10a9a1bce032473295983e56878e501ec68e25c958c3e3d2a09729fe0179f9dac9edcb0int, 0x0int, 0x38658f4d1d765cc3200133ee4c572ce3ab6c80d87c30b9be063acb23a4a488ef6e3809794a34abe6158c28b0574100cint, x_num_sq_11_2(x), x_num_2(x), 0int, x_num_sq_11_3(x), x_num_3(x), 0int);
    lemma_horner_level(x, 0x6e08c248e260e70bd1e962381edee3d31d79d7e22c837bc23c0bf1bc24c6b68c24b1b80b64d391fa9c8ba2e8ba2d229int, 0x824a2b10b0c2a4f4e055ae8cf08ec312c70d76afeb0fa2156798e734e7b8ca87e56eabb296c672af2dc2a2c4fc43982int, 0x17294ed3e943ab2f0588bab22147a81c7c17e75b2f6a8417f565e33c70d1e86b4838f2a6f318c356e834eef1b3cb83bbint, 0x0int, 0x62014d8d605339e6b3fa9f819ba174d59f12a24cf2f35f9a4562f66ba660eebb6025dcad463a3cad1825ccfc9fed053int, x_num_sq_11_1(x), x_num_1(x), 0int, x_num_sq_11_2(x), x_num_2(x), 0int);
    lemma_horner_level(x, 0x6e08c248e260e70bd1e962381edee3d31d79d7e22c837bc23c0bf1bc24c6b68c24b1b80b64d391fa9c8ba2e8ba2d229int, 0x963072729d7caf7e53437807d26ba6d61f1ab38d6d3f9f8a59dccedc1095fb166961f3a6d7461b2895c0ac37550dbf0int, 0x11a05f2b1e833340b809101dd99815856b303e88a2d7005ff2627b56cdb4e2c85610c2d5f2e62d6eaeac1662734649b7int, 0x0int, 0x4a95ac15a94f20ce263b818d1e04964defdf2eb02dde27ab259840e7e55eb94302648af0f939dffa6ca129d35c2311dint, x_num_sq_11_0(x), x_num_0(x), times(x, 0int), x_num_sq_11_1(x), x_num_1(x), 0int);
    lemma_times_zero(x_num_0(x));
    lemma_congruent_refl(0int, times(0int, x_num_0(x)));
    lemma_product_level(x, 0x6e08c248e260e70bd1e962381edee3d31d79d7e22c837bc23c0bf1bc24c6b68c24b1b80b64d391fa9c8ba2e8ba2d229int, x_num_11(x), 0int, x_num_0(x), x_num_sq_11_0(x), 0int);
}

pub(crate) proof fn lemma_x_num_sq_step_10(x: int)
    ensures
        congruent(x_num_sq_10_0(x), times(x_num_10(x), x_num_0(x))),
{
    lemma_times_zero(x);
    lemma_x_num_sq_step_11(x);
    lemma_congruent_refl(x_num_sq_11_11(x), 0x10321da079ce07e272d8ec09d2565b0dfa7dccdde6787f96d50af36003b14866f69b771f8c285decca67df3f1605fb7bint * 0int + x_num_sq_11_11(x));
    lemma_horner_level(x, 0x10321da079ce07e272d8ec09d2565b0dfa7dccdde6787f96d50af36003b14866f69b771f8c285decca67df3f1605fb7bint, 0xc84818625900d8e036db43a84800d1ba5b71a4469d4c73cec32af2dad651a2c1afcd9c4aa7abff71742d525027aa711int, 0x6e08c248e260e70bd1e962381edee3d31d79d7e22c837bc23c0bf1bc24c6b68c24b1b80b64d391fa9c8ba2e8ba2d229int, 0x1342c9b82f87fa142744adf863e5dcf9851732e4aeacecfe29b1c0e7520b08281cd46ce1ade75ffb68a0ea92813d28deint, 0x4487e5085c43d5328f38cb45103cbea4ef09bbbbe023f5cc835ac43b4cfad980e710c765c13236b0d5498219c0a0b80int, x_num_sq_10_11(x), x_num_11(x), x_num_sq_11_10(x), x_num_sq_11_11(x), 0int, x_num_sq_11_11(x));
    lemma_horner_level(x, 0x10321da079ce07e272d8ec09d2565b0dfa7dccdde6787f96d50af36003b14866f69b771f8c285decca67df3f1605fb7bint, 0xc8cc3d8f0c7ecea579f445c13a0e13a87f07d6a7328407293894c0bc7d28d40f9457fe4f4917f5850dea6207245a578int, 0x10321da079ce07e272d8ec09d2565b0dfa7dccdde6787f96d50af36003b14866f69b771f8c285decca67df3f1605fb7bint, 0x101717e9475ca17523bc62cb1d3b22f425e1acb1934b2380e71a722cfa36c330887834fb5b39bebd22675b1c5c8be76cint, 0xa16422e1535b1c2457bfbd40f4a126ab602358e906db6895142e4a84881863f25fd75f979984eb1d00dfc2b95830d27int, x_num_sq_10_10(x), x_num_10(x), x_num_sq_11_9(x), x_num_sq_10_11(x), x_num_11(x), x_num_sq_11_10(x));
    lemma_horner_level(x, 0x10321da079ce07e272d8ec09d2565b0dfa7dccdde6787f96d50af36003b14866f69b771f8c285decca67df3f1605fb7bint, 0x10bedcffc554dcab1221b424dfc48f2b12b51abfcf5a6a6ec4a65ff58e5b6ed16bcc49e8f584376fe6c56c43595b2597int, 0x169b1f8e1bcfa7c42e0c37515d138f22dd2ecb803a0c5c99676314baf4bb1b7fa3190b2edc0327797f241067be390c9eint, 0x13318ebd173307e55c3b9eb0d1001cf549670c16867c95e69b86ddc21b575debbe5be39d9af3227ff9d801427792fe5aint, 0xe144d02893226a100940aadd01ec17da6f17da73f1485d4d3b160a79f333ae19babdd42dc98245e1708e6934a487807int, x_num_sq_10_9(x), x_num_9(x), x_num_sq_11_8(x), x_num_sq_10_10(x), x_num_10(x), x_num_sq_11_9(x));
    lemma_horner_level(x, 0x10321da079ce07e272d8ec09d2565b0dfa7dccdde6787f96d50af36003b14866f69b771f8c285decca67df3f1605fb7bint, 0x8ea8be99bbd2d496697dda671b5f26dde20f033557ab4078c45d939221e8577b7c24120847edf6ecada52ea00ffbf08int, 0x80d3cf1f9a78fc47b90b33563be990dc43b756ce79f5574a2c596c928c5d1de4fa295f296b74e956d71986a8497e317int, 0x19c537f407e6e0607e9085abe296bbf441654e48edb44a16912cdd7ab95d8723f2364fefd841972fba555339546519a3int, 0x503c4898708147d095ae33cbe31f147d475189d608b740cb146ee9096da89fbc356c3ed863935d5d979d64d23660af8int, x_num_sq_10_8(x), x_num_8(x), x_num_sq_11_7(x), x_num_sq_10_9(x), x_num_9(x), x_num_sq_11_8(x));
    lemma_horner_level(x, 0x10321da079ce07e272d8ec09d2565b0dfa7dccdde6787f96d50af36003b14866f69b771f8c285decca67df3f1605fb7bint, 0x186e6c367db8b51191b59d405be1e2ed8deb520f2d326b03a505bdef23f9d37816e4b26f07a89bff8131dce90c2cdcd6int, 0x17b81e7701abdbe2e8743884d1117e53356de5ab275b4db1a682c62ef0f2753339b7c8f8c8f475af9ccb5618e3f0c88eint, 0x11f2d70d4596f9cb80904095e97dbf2da9d0f3530d3fe7f10ed9a128cd222f03f8970f7a269afc279257d7afea0f0f5dint, 0xec5ccd54ade794eee187598463bb18ad586c40ded5eb0539c2c5f79bc27190b91132776f1006f557698f2891c365a43int, x_num_sq_10_7(x), x_num_7(x), x_num_sq_11_6(x), x_num_sq_10_8(x), x_num_8(x), x_num_sq_11_7(x));
    lemma_horner_level(x, 0x10321da079ce07e272d8ec09d2565b0dfa7dccdde6787f96d50af36003b14866f69b771f8c285decca67df3f1605fb7bint, 0x178f6f068100b52b0c84c9a9c51bb32bd6b36178eeb3ce8280af0e030c1c132cabd26a1e6432b91e6bf0e5c1ccf48aa0int, 0xd6ed6553fe44d296a3726c38ae652bfb11586264f0f8ce19008e218f9c86b2a8da25128c1052ecaddd7f225a139ed84int, 0x18aee60fc1ebb3583c330e683f555fc1db2d3158379fe85aa41ed270a5f906b5357f32e186e526962ba43ef4f21c06b1int, 0x85dc1718719cd8fcd30e3794237d13a1bfc4f6217e91c03a9178ecbd3d6d24eeecfbecaa782609f3184b0f13dca1377int, x_num_sq_10_6(x), x_num_6(x), x_num_sq_11_5(x), x_num_sq_10_7(x), x_num_7(x), x_num_sq_11_6(x));
    lemma_horner_level(x, 0x10321da079ce07e272d8ec09d2565b0dfa7dccdde6787f96d50af36003b14866f69b771f8c285decca67df3f1605fb7bint, 0x5d460adc7df76670c70dd8ef7ee0941fd97287b534a35ab85ef951877d835f5dd87f255f295da084bd3096d0c29861int, 0x1630c3250d7313ff01d1201bf7a74ab5db3cb17dd952799b9ed3ab9097e68f90a0870d2dcae73d19cd13c1c66f652983int, 0x133f69190f32eb1b4d3f34eafc60015d8aa39c40af09bf7825e33daa02dfa58ae728838103e30fcc875c880a64dceaacint, 0xdd20ec70371005cfd912923fb3ec81d2047b08e7e0e07d7182349b24ef3b460e9163652b00a012fe50ccbfd309b1fb4int, x_num_sq_10_5(x), x_num_5(x), x_num_sq_11_4(x), x_num_sq_10_6(x), x_num_6(x), x_num_sq_11_5(x));
    lemma_horner_level(x, 0x10321da079ce07e272d8ec09d2565b0dfa7dccdde6787f96d50af36003b14866f69b771f8c285decca67df3f1605fb7bint, 0x5d03e9f974e3dbf550b7b0dce04a2bf0e7dd3a8f7943a9d95d54210d9f07a01bb1dbfdbe90f8063c4cb49350741662dint, 0xe99726a3199f4436642b4b3e4118e5499db995a1257fb3f086eeb65982fac18985a286f301e77c451154ce9ac8895d9int, 0x198dadd3ad5c916534bbd01094346be53fcaff5e86b17da5d06a379bff44451144ae89454f99fcb4ca0f51861ddcfe0bint, 0x917bbe15e1fd0547d6c40a78079cbdcac814bc3c12150b21fb1addb34b41004082f7d5824eec1316616d0aa7d900e63int, x_num_sq_10_4(x), x_num_4(x), x_num_sq_11_3(x), x_num_sq_10_5(x), x_num_5(x), x_num_sq_11_4(x));
    lemma_horner_level(x, 0x10321da079ce07e272d8ec09d2565b0dfa7dccdde6787f96d50af36003b14866f69b771f8c285decca67df3f1605fb7bint, 0x12e1cf9f71205a74835d7f9de24ef02b3d4e2a76d098f231a4d8ef0e6339f06f83b72717dbeac739f4769a339af097c1int, 0x1778e7166fcc6db74e0609d307e55412d7f5e4656a8dbf25f1b33289f1b330835336e25ce3107193c5b388641d9b6861int, 0x1229a2a79bb2a11652004ab72c36bcf714abb3ab878baaaabcdd130e6fdaec3775bc44369b2fd04910b9aece86b7082cint, 0xe9e6d99d1c333affd5bc6e1366cce007eb65d54318dff14cf388be11f498b7060a0f244b4226b0239fd6ef1c41b1612int, x_num_sq_10_3(x), x_num_3(x), x_num_sq_11_2(x), x_num_sq_10_4(x), x_num_4(x), x_num_sq_11_3(x));
    lemma_horner_level(x, 0x10321da079ce07e272d8ec09d2565b0dfa7dccdde6787f96d50af36003b14866f69b771f8c285decca67df3f1605fb7bint, 0x177becad44134a93586894ee7e246456caabddfe323c475464038bc48305a7dd05b459f24ddd24aafad687801bf2bd43int, 0xd54005db97678ec1d1048c5d10a9a1bce032473295983e56878e501ec68e25c958c3e3d2a09729fe0179f9dac9edcb0int, 0x824a2b10b0c2a4f4e055ae8cf08ec312c70d76afeb0fa2156798e734e7b8ca87e56eabb296c672af2dc2a2c4fc43982int, 0x84d0abb8a56a1bd936761dfc73449a8bcb687652d056272cac78d45d06e8228f18233928e24c9c0188ff37d404f3e6dint, x_num_sq_10_2(x), x_num_2(x), x_num_sq_11_1(x), x_num_sq_10_3(x), x_num_3(x), x_num_sq_11_2(x));
    lemma_horner_level(x, 0x10321da079ce07e272d8ec09d2565b0dfa7dccdde6787f96d50af36003b14866f69b771f8c285decca67df3f1605fb7bint, 0xbe8cceef8ea53b8cbe232294c6e137586138917696ae0c2a1efb6be9498b37d74f3504c9c8bb385f2534530886254abint, 0x17294ed3e943ab2f0588bab22147a81c7c17e75b2f6a8417f565e33c70d1e86b4838f2a6f318c356e834eef1b3cb83bbint, 0x963072729d7caf7e53437807d26ba6d61f1ab38d6d3f9f8a59dccedc1095fb166961f3a6d7461b2895c0ac37550dbf0int, 0xe6cdafba22a16a51d643cce04ff605be3ed541b0d947b97466b438b4c3ebeeecd69f3a60f721430aed99ad4fcec815aint, x_num_sq_10_1(x), x_num_1(x), x_num_sq_11_0(x), x_num_sq_10_2(x), x_num_2(x), x_num_sq_11_1(x));
    lemma_horner_level(x, 0x10321da079ce07e272d8ec09d2565b0dfa7dccdde6787f96d50af36003b14866f69b771f8c285decca67df3f1605fb7bint, 0x11e12acd4495c560470aea9aaaf1983d4ed94cdac9d1fde1c9ea6dc745a7b168e543df13f80bc8b11277ba8a8649666int, 0x11a05f2b1e833340b809101dd99815856b303e88a2d7005ff2627b56cdb4e2c85610c2d5f2e62d6eaeac1662734649b7int, 0x0int, 0xafa5e2bec2af3a95120cf9ea44a4c3cf92dcc2f16324fcbd84df61b5327b1760d954cbb2fc5508b0e921f7e3243c495int, x_num_sq_10_0(x), x_num_0(x), times(x, x_num_sq_11_0(x)), x_num_sq_10_1(x), x_num_1(x), x_num_sq_11_0(x));
    lemma_product_level(x, 0x10321da079ce07e272d8ec09d2565b0dfa7dccdde6787f96d50af36003b14866f69b771f8c285decca67df3f1605fb7bint, x_num_10(x), x_num_11(x), x_num_0(x), x_num_sq_10_0(x), x_num_sq_11_0(x));
}

pub(crate) proof fn lemma_x_num_sq_step_9(x: int)
    ensures
        congruent(x_num_sq_9_0(x), times(x_num_9(x), x_num_0(x))),
{
    lemma_times_zero(x);
    lemma_x_num_sq_step_10(x);
    lemma_congruent_refl(x_num_sq_10_11(x), 0x169b1f8e1bcfa7c42e0c37515d138f22dd2ecb803a0c5c99676314baf4bb1b7fa3190b2edc0327797f241067be390c9eint * 0int + x_num_sq_10_11(x));
    lemma_horner_level(x, 0x169b1f8e1bcfa7c42e0c37515d138f22dd2ecb803a0c5c99676314baf4bb1b7fa3190b2edc0327797f241067be390c9eint, 0x2a2c9d7fea4a7c5303fff70ed905757495ade9712ee51341372eb97cb585a4d6311b4e19e773e15b947013cced1e239int, 0x6e08c248e260e70bd1e962381edee3d31d79d7e22c837bc23c0bf1bc24c6b68c24b1b80b64d391fa9c8ba2e8ba2d229int, 0xc8cc3d8f0c7ecea579f445c13a0e13a87f07d6a7328407293894c0bc7d28d40f9457fe4f4917f5850dea6207245a578int, 0x5fa7a97d494020dccb4f320189d80d453e20fbc5b8453ba8d9707991cc159c8e550ac36b4e5547d38e59217346c2da7int, x_num_sq_9_11(x), x_num_11(x), x_num_sq_10_10(x), x_num_sq_10_11(x), 0int, x_num_sq_10_11(x));
    lemma_horner_level(x, 0x169b1f8e1bcfa7c42e0c37515d138f22dd2ecb803a0c5c99676314baf4bb1b7fa3190b2edc0327797f241067be390c9eint, 0xe4c2b427376b170c807c998ee890160dc03296918383ef6edc5e229015f7fb7193cb03450154c5fd3b2d7443b234cd4int, 0x10321da079ce07e272d8ec09d2565b0dfa7dccdde6787f96d50af36003b14866f69b771f8c285decca67df3f1605fb7bint, 0x10bedcffc554dcab1221b424dfc48f2b12b51abfcf5a6a6ec4a65ff58e5b6ed16bcc49e8f584376fe6c56c43595b2597int, 0xe144d02893226a100940aadd01ec17da6f17da73f1485d4d3b160a79f333ae19babdd42dc98245e1708e6934a487807int, x_num_sq_9_10(x), x_num_10(x), x_num_sq_10_9(x), x_num_sq_9_11(x), x_num_11(x), x_num_sq_10_10(x));
    lemma_horner_level(x, 0x169b1f8e1bcfa7c42e0c37515d138f22dd2ecb803a0c5c99676314baf4bb1b7fa3190b2edc0327797f241067be390c9eint, 0x7fa7fe0da497abe11689d020f57caf57eed36c435d247acec0720a027a33764b71a84210a31a9cc21cbfe2404caec53int, 0x169b1f8e1bcfa7c42e0c37515d138f22dd2ecb803a0c5c99676314baf4bb1b7fa3190b2edc0327797f241067be390c9eint, 0x8ea8be99bbd2d496697dda671b5f26dde20f033557ab4078c45d939221e8577b7c24120847edf6ecada52ea00ffbf08int, 0x13a6dc7d5589193711ffa1eae94a4173fac99ef7ed96a65720ded8ae2180daa044a621fc3d47547df7465c4c763b0cabint, x_num_sq_9_9(x), x_num_9(x), x_num_sq_10_8(x), x_num_sq_9_10(x), x_num_10(x), x_num_sq_10_9(x));
    lemma_horner_level(x, 0x169b1f8e1bcfa7c42e0c37515d138f22dd2ecb803a0c5c99676314baf4bb1b7fa3190b2edc0327797f241067be390c9eint, 0x108527ccd9321bac6171eb0ad394f9a6cd6c91fef9b5b8c22fb3934d9bd394da4b35c74bfdbdf1851ffb5a23cbaff5ccint, 0x80d3cf1f9a78fc47b90b33563be990dc43b756ce79f5574a2c596c928c5d1de4fa295f296b74e956d71986a8497e317int, 0x186e6c367db8b51191b59d405be1e2ed8deb520f2d326b03a505bdef23f9d37816e4b26f07a89bff8131dce90c2cdcd6int, 0x6ffe00ebcb72f755e92cd2e2b37da7ad08a7f2e203516b3dddcb77c00fb3286894e07ce314455da0239d2b8eeb169b4int, x_num_sq_9_8(x), x_num_8(x), x_num_sq_10_7(x), x_num_sq_9_9(x), x_num_9(x), x_num_sq_10_8(x));
    lemma_horner_level(x, 0x169b1f8e1bcfa7c42e0c37515d138f22dd2ecb803a0c5c99676314baf4bb1b7fa3190b2edc0327797f241067be390c9eint, 0x612dfd4ee29d70c108f6250e1221fffc60f96a51acf46cc52f5398b808f64c15416b9ceed7dfb02593a3999e8f0471dint, 0x17b81e7701abdbe2e8743884d1117e53356de5ab275b4db1a682c62ef0f2753339b7c8f8c8f475af9ccb5618e3f0c88eint, 0x178f6f068100b52b0c84c9a9c51bb32bd6b36178eeb3ce8280af0e030c1c132cabd26a1e6432b91e6bf0e5c1ccf48aa0int, 0x149e9d1ebf4236109f5ac7041abb5479516c87364bdf4a1224ceba9c7b55bff80899fb7f3cafcc7a612dd2c6d0631975int, x_num_sq_9_7(x), x_num_7(x), x_num_sq_10_6(x), x_num_sq_9_8(x), x_num_8(x), x_num_sq_10_7(x));
    lemma_horner_level(x, 0x169b1f8e1bcfa7c42e0c37515d138f22dd2ecb803a0c5c99676314baf4bb1b7fa3190b2edc0327797f241067be390c9eint, 0x17fce8bf48cfeffc3f6078b696802e267230e7b2e229c3cb95e19db79eb0cae1c3142d8b4a5cf2023ef8e4541d3edfd9int, 0xd6ed6553fe44d296a3726c38ae652bfb11586264f0f8ce19008e218f9c86b2a8da25128c1052ecaddd7f225a139ed84int, 0x5d460adc7df76670c70dd8ef7ee0941fd97287b534a35ab85ef951877d835f5dd87f255f295da084bd3096d0c29861int, 0xbad7316e3768c260980edc5f3f2b0b43fbe588200ef5c3a5057ba85a1164cfd1fad8b35674f83c192d07a5dd45f8000int, x_num_sq_9_6(x), x_num_6(x), x_num_sq_10_5(x), x_num_sq_9_7(x), x_num_7(x), x_num_sq_10_6(x));
    lemma_horner_level(x, 0x169b1f8e1bcfa7c42e0c37515d138f22dd2ecb803a0c5c99676314baf4bb1b7fa3190b2edc0327797f241067be390c9eint, 0x1685bfa8d60641390cd840196779bef6ef7c2bc7d9e195211ac94f9705376ef562a634b596717d43511a0707936f7df4int, 0x1630c3250d7313ff01d1201bf7a74ab5db3cb17dd952799b9ed3ab9097e68f90a0870d2dcae73d19cd13c1c66f652983int, 0x5d03e9f974e3dbf550b7b0dce04a2bf0e7dd3a8f7943a9d95d54210d9f07a01bb1dbfdbe90f8063c4cb49350741662dint, 0x134a664a8c5f8c1cb635c43ac4832e967266c694cffae5b01ebccfabc4c5237b898de83c6fa677a1d3600a1140550139int, x_num_sq_9_5(x), x_num_5(x), x_num_sq_10_4(x), x_num_sq_9_6(x), x_num_6(x), x_num_sq_10_5(x));
    lemma_horner_level(x, 0x169b1f8e1bcfa7c42e0c37515d138f22dd2ecb803a0c5c99676314baf4bb1b7fa3190b2edc0327797f241067be390c9eint, 0x11d8fbfc4a321d87c3920159b538d3b9d487063449f8a83da0a07d5591f51326e1dfab7b7afb5065da123cb39f9675b7int, 0xe99726a3199f4436642b4b3e4118e5499db995a1257fb3f086eeb65982fac18985a286f301e77c451154ce9ac8895d9int, 0x12e1cf9f71205a74835d7f9de24ef02b3d4e2a76d098f231a4d8ef0e6339f06f83b72717dbeac739f4769a339af097c1int, 0xcb1097303993ff767e59eb17683638364707cf791fe3b74d171346128ae4877c74503ceec5e5b481202851c3be15de8int, x_num_sq_9_4(x), x_num_4(x), x_num_sq_10_3(x), x_num_sq_9_5(x), x_num_5(x), x_num_sq_10_4(x));
    lemma_horner_level(x, 0x169b1f8e1bcfa7c42e0c37515d138f22dd2ecb803a0c5c99676314baf4bb1b7fa3190b2edc0327797f241067be390c9eint, 0x136590a662a40399d0a8241707313ae38dbea6088e379a8a5c1a735de1216fe20f42e3959c46c27d8763ffb80c122a0bint, 0x1778e7166fcc6db74e0609d307e55412d7f5e4656a8dbf25f1b33289f1b330835336e25ce3107193c5b388641d9b6861int, 0x177becad44134a93586894ee7e246456caabddfe323c475464038bc48305a7dd05b459f24ddd24aafad687801bf2bd43int, 0x1467a896adfee34095c66676ae2ddd423e3a9ff053e88d5b5b37b28ff224680eedf3c3581e571fdd59dd5f48301ba142int, x_num_sq_9_3(x), x_num_3(x), x_num_sq_10_2(x), x_num_sq_9_4(x), x_num_4(x), x_num_sq_10_3(x));
    lemma_horner_level(x, 0x169b1f8e1bcfa7c42e0c37515d138f22dd2ecb803a0c5c99676314baf4bb1b7fa3190b2edc0327797f241067be390c9eint, 0x9dd6ad8716cfdd5f76faffca5f582248e47bdfce3a6785b46e2f16dc2f0234c94e82d53a6ede5a1b795d30f8471b86dint, 0xd54005db97678ec1d1048c5d10a9a1bce032473295983e56878e501ec68e25c958c3e3d2a09729fe0179f9dac9edcb0int, 0xbe8cceef8ea53b8cbe232294c6e137586138917696ae0c2a1efb6be9498b37d74f3504c9c8bb385f2534530886254abint, 0xb961ee40014baea3d830e7108b6e1473ca5c108c16d595795d5c0d46609000c1d7f402fbb96300aa9f4efb17d29329aint, x_num_sq_9_2(x), x_num_2(x), x_num_sq_10_1(x), x_num_sq_9_3(x), x_num_3(x), x_num_sq_10_2(x));
    lemma_horner_level(x, 0x169b1f8e1bcfa7c42e0c37515d138f22dd2ecb803a0c5c99676314baf4bb1b7fa3190b2edc0327797f241067be390c9eint, 0xf6d438e504b8d76df02425f58bf54d4e32daa07fc137e28602fa65023ed10a44e80170fdf3a0bc2acab3dc271547888int, 0x17294ed3e943ab2f0588bab22147a81c7c17e75b2f6a8417f565e33c70d1e86b4838f2a6f318c356e834eef1b3cb83bbint, 0x11e12acd4495c560470aea9aaaf1983d4ed94cdac9d1fde1c9ea6dc745a7b168e543df13f80bc8b11277ba8a8649666int, 0x14227719d1a1f0d6beef48fba2712ebf5d3be1fb8af3d0db4b2e00c3f8404e392b87cb713a870168c35e83c214498dd8int, x_num_sq_9_1(x), x_num_1(x), x_num_sq_10_0(x), x_num_sq_9_2(x), x_num_2(x), x_num_sq_10_1(x));
    lemma_horner_level(x, 0x169b1f8e1bcfa7c42e0c37515d138f22dd2ecb803a0c5c99676314baf4bb1b7fa3190b2edc0327797f241067be390c9eint, 0x1163035e3781c28ab7ed0ad6dd95182bac1b294c466d2f013c694c600d8b78d3243745b9b30ed01cc1e4a7004bc73a77int, 0x11a05f2b1e833340b809101dd99815856b303e88a2d7005ff2627b56cdb4e2c85610c2d5f2e62d6eaeac1662734649b7int, 0x0int, 0xf52b1c82289990450d632a902826e0d2146edd5cc94701bcc388ee9fc90bb01a5d21c6056519f956007cb50abda8971int, x_num_sq_9_0(x), x_num_0(x), times(x, x_num_sq_10_0(x)), x_num_sq_9_1(x), x_num_1(x), x_num_sq_10_0(x));
    lemma_product_level(x, 0x169b1f8e1bcfa7c42e0c37515d138f22dd2ecb803a0c5c99676314baf4bb1b7fa3190b2edc0327797f241067be390c9eint, x_num_9(x), x_num_10(x), x_num_0(x), x_num_sq_9_0(x), x_num_sq_10_0(x));
}

pub(crate) proof fn lemma_x_num_sq_step_8(x: int)
    ensures
        congruent(x_num_sq_8_0(x), times(x_num_8(x), x_num_0(x))),
{
    lemma_times_zero(x);
    lemma_x_num_sq_step_9(x);
    lemma_congruent_refl(x_num_sq_9_11(x), 0x80d3cf1f9a78fc47b90b33563be990dc43b756ce79f5574a2c596c928c5d1de4fa295f296b74e956d71986a8497e317int * 0int + x_num_sq_9_11(x));
    lemma_horner_level(x, 0x80d3cf1f9a78fc47b90b33563be990dc43b756ce79f5574a2c596c928c5d1de4fa295f296b74e956d71986a8497e317int, 0x77ca8155129d2bbd927c0937c3d717ec0f2e9faab2fc21e221bed4a2605e77eb8ec93d339b46ee0138bd886b2b6a083int, 0x6e08c248e260e70bd1e962381edee3d31d79d7e22c837bc23c0bf1bc24c6b68c24b1b80b64d391fa9c8ba2e8ba2d229int, 0xe4c2b427376b170c807c998ee890160dc03296918383ef6edc5e229015f7fb7193cb03450154c5fd3b2d7443b234cd4int, 0x2211eed7b25f779c7d1a3c1f44bcb62d8ebc1f6b7f75c6b02d9479cde5a660c3f5fe3f3fd8b73fd34376e2066c4bb00int, x_num_sq_8_11(x), x_num_11(x), x_num_sq_9_10(x), x_num_sq_9_11(x), 0int, x_num_sq_9_11(x));
    lemma_horner_level(x, 0x80d3cf1f9a78fc47b90b33563be990dc43b756ce79f5574a2c596c928c5d1de4fa295f296b74e956d71986a8497e317int, 0x1120e5c0a79fae41448b9cb2e1c2ae4680202433911dc45d4e50eeff87152bdc9b52755067c2f20aec4ffdd4b1653c63int, 0x10321da079ce07e272d8ec09d2565b0dfa7dccdde6787f96d50af36003b14866f69b771f8c285decca67df3f1605fb7bint, 0x7fa7fe0da497abe11689d020f57caf57eed36c435d247acec0720a027a33764b71a84210a31a9cc21cbfe2404caec53int, 0x503c4898708147d095ae33cbe31f147d475189d608b740cb146ee9096da89fbc356c3ed863935d5d979d64d23660af7int, x_num_sq_8_10(x), x_num_10(x), x_num_sq_9_9(x), x_num_sq_8_11(x), x_num_11(x), x_num_sq_9_10(x));
    lemma_horner_level(x, 0x80d3cf1f9a78fc47b90b33563be990dc43b756ce79f5574a2c596c928c5d1de4fa295f296b74e956d71986a8497e317int, 0x89be36334ab8247312e38d54b4810600cedd1eec6390680ba6168ac13ad563c7f86dc28f3d3470abec4d75e8b330ec2int, 0x169b1f8e1bcfa7c42e0c37515d138f22dd2ecb803a0c5c99676314baf4bb1b7fa3190b2edc0327797f241067be390c9eint, 0x108527ccd9321bac6171eb0ad394f9a6cd6c91fef9b5b8c22fb3934d9bd394da4b35c74bfdbdf1851ffb5a23cbaff5ccint, 0x6ffe00ebcb72f755e92cd2e2b37da7ad08a7f2e203516b3dddcb77c00fb3286894e07ce314455da0239d2b8eeb169b4int, x_num_sq_8_9(x), x_num_9(x), x_num_sq_9_8(x), x_num_sq_8_10(x), x_num_10(x), x_num_sq_9_9(x));
    lemma_horner_level(x, 0x80d3cf1f9a78fc47b90b33563be990dc43b756ce79f5574a2c596c928c5d1de4fa295f296b74e956d71986a8497e317int, 0x1990a9462bfd52062765f20f87202cd9ac80f4d153bc527910dc166dd45bb8ed352b669ca6c6817754b47de6e4d72d5bint, 0x80d3cf1f9a78fc47b90b33563be990dc43b756ce79f5574a2c596c928c5d1de4fa295f296b74e956d71986a8497e317int, 0x612dfd4ee29d70c108f6250e1221fffc60f96a51acf46cc52f5398b808f64c15416b9ceed7dfb02593a3999e8f0471dint, 0x27e395d5e4cbd161ac371b45c90ee4720f917d0a4a33365167e01cdc9f3588cdd96577ee40d60af1bec36a4f17fb179int, x_num_sq_8_8(x), x_num_8(x), x_num_sq_9_7(x), x_num_sq_8_9(x), x_num_9(x), x_num_sq_9_8(x));
    lemma_horner_level(x, 0x80d3cf1f9a78fc47b90b33563be990dc43b756ce79f5574a2c596c928c5d1de4fa295f296b74e956d71986a8497e317int, 0x15a51c9785c4a57a7a7e54fb11d7c368e222b129b912432b6c9d31505276c68a68275b557eb155769bc8ff7d71cecc3eint, 0x17b81e7701abdbe2e8743884d1117e53356de5ab275b4db1a682c62ef0f2753339b7c8f8c8f475af9ccb5618e3f0c88eint, 0x17fce8bf48cfeffc3f6078b696802e267230e7b2e229c3cb95e19db79eb0cae1c3142d8b4a5cf2023ef8e4541d3edfd9int, 0x7581e6dc570f7070bc0e3dea465f6b99cf33c161dca550dff3091e35d0c24a9237d6661b961a413660b835c8a150717int, x_num_sq_8_7(x), x_num_7(x), x_num_sq_9_6(x), x_num_sq_8_8(x), x_num_8(x), x_num_sq_9_7(x));
    lemma_horner_level(x, 0x80d3cf1f9a78fc47b90b33563be990dc43b756ce79f5574a2c596c928c5d1de4fa295f296b74e956d71986a8497e317int, 0xb31cab39562ad32a594a691a8419e08714111570138e96d55c517ab19f18edee809b83a964fd962377a56b54cc78bbdint, 0xd6ed6553fe44d296a3726c38ae652bfb11586264f0f8ce19008e218f9c86b2a8da25128c1052ecaddd7f225a139ed84int, 0x1685bfa8d60641390cd840196779bef6ef7c2bc7d9e195211ac94f9705376ef562a634b596717d43511a0707936f7df4int, 0x428c5a6c52808b7219a32b919130145f2f5d4a5219836a1444c9d09c34d275111db4866097e4771eeca5b15db35ff39int, x_num_sq_8_6(x), x_num_6(x), x_num_sq_9_5(x), x_num_sq_8_7(x), x_num_7(x), x_num_sq_9_6(x));
    lemma_horner_level(x, 0x80d3cf1f9a78fc47b90b33563be990dc43b756ce79f5574a2c596c928c5d1de4fa295f296b74e956d71986a8497e317int, 0x17bf050c1307333a5b98a900f3a5cdadc3af7885fedfdc97788e2ac25959544ffd1e04be58b38a8c5226eeb42589ec50int, 0x1630c3250d7313ff01d1201bf7a74ab5db3cb17dd952799b9ed3ab9097e68f90a0870d2dcae73d19cd13c1c66f652983int, 0x11d8fbfc4a321d87c3920159b538d3b9d487063449f8a83da0a07d5591f51326e1dfab7b7afb5065da123cb39f9675b7int, 0x6def1493a92d55f169bb5f6b3a29115f8e791aff062a37fcb93c20fbc3764f18b30e11a79cf3719b88d75ebf02a4784int, x_num_sq_8_5(x), x_num_5(x), x_num_sq_9_4(x), x_num_sq_8_6(x), x_num_6(x), x_num_sq_9_5(x));
    lemma_horner_level(x, 0x80d3cf1f9a78fc47b90b33563be990dc43b756ce79f5574a2c596c928c5d1de4fa295f296b74e956d71986a8497e317int, 0x84543a811154f7fb2207b3eb84b511b6ea01fe4d8f95e2b00d8652e64e2972ee5ece957da7cef039f872324f67a88d6int, 0xe99726a3199f4436642b4b3e4118e5499db995a1257fb3f086eeb65982fac18985a286f301e77c451154ce9ac8895d9int, 0x136590a662a40399d0a8241707313ae38dbea6088e379a8a5c1a735de1216fe20f42e3959c46c27d8763ffb80c122a0bint, 0x4853b243701540fe345292a56fe7fcf2699d894661e6f4713e3ad5060d07cfdec93c211467726a43998a305754e881cint, x_num_sq_8_4(x), x_num_4(x), x_num_sq_9_3(x), x_num_sq_8_5(x), x_num_5(x), x_num_sq_9_4(x));
    lemma_horner_level(x, 0x80d3cf1f9a78fc47b90b33563be990dc43b756ce79f5574a2c596c928c5d1de4fa295f296b74e956d71986a8497e317int, 0x18ba21ec5fca5b862a76f29310c3bbda2882ee825920362f460effc1744092d3a72832c938eab57b99e39c574ac7d529int, 0x1778e7166fcc6db74e0609d307e55412d7f5e4656a8dbf25f1b33289f1b330835336e25ce3107193c5b388641d9b6861int, 0x9dd6ad8716cfdd5f76faffca5f582248e47bdfce3a6785b46e2f16dc2f0234c94e82d53a6ede5a1b795d30f8471b86dint, 0x7448b8bf0466e2c4c375d3cb2c0d844863b2d4263f59fc64579f3aa6c635132ee527eaa833806fff17b98fba520d4f1int, x_num_sq_8_3(x), x_num_3(x), x_num_sq_9_2(x), x_num_sq_8_4(x), x_num_4(x), x_num_sq_9_3(x));
    lemma_horner_level(x, 0x80d3cf1f9a78fc47b90b33563be990dc43b756ce79f5574a2c596c928c5d1de4fa295f296b74e956d71986a8497e317int, 0xa13ca12c087f057eef3cb2d8aa20f84d389286f6e332a2ab87ec26f87e12c32ec8645308592bce378a6cc6bfd236382int, 0xd54005db97678ec1d1048c5d10a9a1bce032473295983e56878e501ec68e25c958c3e3d2a09729fe0179f9dac9edcb0int, 0xf6d438e504b8d76df02425f58bf54d4e32daa07fc137e28602fa65023ed10a44e80170fdf3a0bc2acab3dc271547888int, 0x420767e69e6e6d6ca32203234883d131e0e077ca5d8d50fd7d465b9de4f40107fe1e749b048cb53d34cc9392a66ea82int, x_num_sq_8_2(x), x_num_2(x), x_num_sq_9_1(x), x_num_sq_8_3(x), x_num_3(x), x_num_sq_9_2(x));
    lemma_horner_level(x, 0x80d3cf1f9a78fc47b90b33563be990dc43b756ce79f5574a2c596c928c5d1de4fa295f296b74e956d71986a8497e317int, 0x3c586744175e6e8d80fae0b0f5707f31dd2166b01eab0eb3f76db9d2d92fd433cba7f10fad6982ecc62b6c1fcdfae2aint, 0x17294ed3e943ab2f0588bab22147a81c7c17e75b2f6a8417f565e33c70d1e86b4838f2a6f318c356e834eef1b3cb83bbint, 0x1163035e3781c28ab7ed0ad6dd95182bac1b294c466d2f013c694c600d8b78d3243745b9b30ed01cc1e4a7004bc73a77int, 0x72be66a8f36cde117e1a7722df356923aea87b3b60d811221f60945d43d8c40b26ceb827559d31b84c59b8abb32994eint, x_num_sq_8_1(x), x_num_1(x), x_num_sq_9_0(x), x_num_sq_8_2(x), x_num_2(x), x_num_sq_9_1(x));
    lemma_horner_level(x, 0x80d3cf1f9a78fc47b90b33563be990dc43b756ce79f5574a2c596c928c5d1de4fa295f296b74e956d71986a8497e317int, 0x17abe5b54476b26e845cda93596f8f48e5ddf87eb03db9f87a9ad2ef05a315542e25ca470c8722e3baf491f6b9154debint, 0x11a05f2b1e833340b809101dd99815856b303e88a2d7005ff2627b56cdb4e2c85610c2d5f2e62d6eaeac1662734649b7int, 0x0int, 0x5752c0e96a99fd843915225129173317d050c6f9090a022f222e8e115091a878d494b83e89efec802729f33292ec392int, x_num_sq_8_0(x), x_num_0(x), times(x, x_num_sq_9_0(x)), x_num_sq_8_1(x), x_num_1(x), x_num_sq_9_0(x));
    lemma_product_level(x, 0x80d3cf1f9a78fc47b90b33563be990dc43b756ce79f5574a2c596c928c5d1de4fa295f296b74e956d71986a8497e317int, x_num_8(x), x_num_9(x), x_num_0(x), x_num_sq_8_0(x), x_num_sq_9_0(x));
}

pub(crate) proof fn lemma_x_num_sq_step_7(x: int)
    ensures
        congruent(x_num_sq_7_0(x), times(x_num_7(x), x_num_0(x))),
{
    lemma_times_zero(x);
    lemma_x_num_sq_step_8(x);
    lemma_congruent_refl(x_num_sq_8_11(x), 0x17b81e7701abdbe2e8743884d1117e53356de5ab275b4db1a682c62ef0f2753339b7c8f8c8f475af9ccb5618e3f0c88eint * 0int + x_num_sq_8_11(x));
    lemma_horner_level(x, 0x17b81e7701abdbe2e8743884d1117e53356de5ab275b4db1a682c62ef0f2753339b7c8f8c8f475af9ccb5618e3f0c88eint, 0x10e50bca7606a80778007aa8810dbd635d0e26f78b4cfbb4784cf9d949c1bcdc6edcc5418eb0893aeca6510e05caab5bint, 0x6e08c248e260e70bd1e962381edee3d31d79d7e22c837bc23c0bf1bc24c6b68c24b1b80b64d391fa9c8ba2e8ba2d229int, 0x1120e5c0a79fae41448b9cb2e1c2ae4680202433911dc45d4e50eeff87152bdc9b52755067c2f20aec4ffdd4b1653c63int, 0x645d982e92b55a7e8d8eafaed3dc016016f937b8b775a5d8702d96fda2af6cbf5e035264a4d583f5e5bdb87a3f38352int, x_num_sq_7_11(x), x_num_11(x), x_num_sq_8_10(x), x_num_sq_8_11(x), 0int, x_num_sq_8_11(x));
    lemma_horner_level(x, 0x17b81e7701abdbe2e8743884d1117e53356de5ab275b4db1a682c62ef0f2753339b7c8f8c8f475af9ccb5618e3f0c88eint, 0xf17788c6ccd3d8d4253957fbdac341ff10830aae62b8993508d85726a84fab09dd47f1dd4e0e6e2ad9edc97ad50dc3bint, 0x10321da079ce07e272d8ec09d2565b0dfa7dccdde6787f96d50af36003b14866f69b771f8c285decca67df3f1605fb7bint, 0x89be36334ab8247312e38d54b4810600cedd1eec6390680ba6168ac13ad563c7f86dc28f3d3470abec4d75e8b330ec2int, 0xec5ccd54ade794eee187598463bb18ad586c40ded5eb0539c2c5f79bc27190b91132776f1006f557698f2891c365a43int, x_num_sq_7_10(x), x_num_10(x), x_num_sq_8_9(x), x_num_sq_7_11(x), x_num_11(x), x_num_sq_8_10(x));
    lemma_horner_level(x, 0x17b81e7701abdbe2e8743884d1117e53356de5ab275b4db1a682c62ef0f2753339b7c8f8c8f475af9ccb5618e3f0c88eint, 0x8141a14992673e72b708ab6a32699ad9bdd29fd7fd7cac2e32241f648cf0a81dd6fb64d3011c35b41fdd1bf00d2e9d8int, 0x169b1f8e1bcfa7c42e0c37515d138f22dd2ecb803a0c5c99676314baf4bb1b7fa3190b2edc0327797f241067be390c9eint, 0x1990a9462bfd52062765f20f87202cd9ac80f4d153bc527910dc166dd45bb8ed352b669ca6c6817754b47de6e4d72d5bint, 0x149e9d1ebf4236109f5ac7041abb5479516c87364bdf4a1224ceba9c7b55bff80899fb7f3cafcc7a612dd2c6d0631975int, x_num_sq_7_9(x), x_num_9(x), x_num_sq_8_8(x), x_num_sq_7_10(x), x_num_10(x), x_num_sq_8_9(x));
    lemma_horner_level(x, 0x17b81e7701abdbe2e8743884d1117e53356de5ab275b4db1a682c62ef0f2753339b7c8f8c8f475af9ccb5618e3f0c88eint, 0x134d506fc2b95af8b59c313f8d2f58ab52147aa08ffac28b4358c4e9063cc2330d3a891fb305b8eaf8991aa6c65eb8a3int, 0x80d3cf1f9a78fc47b90b33563be990dc43b756ce79f5574a2c596c928c5d1de4fa295f296b74e956d71986a8497e317int, 0x15a51c9785c4a57a7a7e54fb11d7c368e222b129b912432b6c9d31505276c68a68275b557eb155769bc8ff7d71cecc3eint, 0x7581e6dc570f7070bc0e3dea465f6b99cf33c161dca550dff3091e35d0c24a9237d6661b961a413660b835c8a150717int, x_num_sq_7_8(x), x_num_8(x), x_num_sq_8_7(x), x_num_sq_7_9(x), x_num_9(x), x_num_sq_8_8(x));
    lemma_horner_level(x, 0x17b81e7701abdbe2e8743884d1117e53356de5ab275b4db1a682c62ef0f2753339b7c8f8c8f475af9ccb5618e3f0c88eint, 0x10bfa49449dfb9eaf5e9ebcf1c216a9ad3a8984c6ce7f3429af11da14365608f35c006eccf8c830840a59fa2c7d42dc5int, 0x17b81e7701abdbe2e8743884d1117e53356de5ab275b4db1a682c62ef0f2753339b7c8f8c8f475af9ccb5618e3f0c88eint, 0xb31cab39562ad32a594a691a8419e08714111570138e96d55c517ab19f18edee809b83a964fd962377a56b54cc78bbdint, 0x15a2913190cced23d528fa94386e13a9e309381de71ae70ec901e9e6c904f318e5fad2fb4b62b0d155f186ada728a634int, x_num_sq_7_7(x), x_num_7(x), x_num_sq_8_6(x), x_num_sq_7_8(x), x_num_8(x), x_num_sq_8_7(x));
    lemma_horner_level(x, 0x17b81e7701abdbe2e8743884d1117e53356de5ab275b4db1a682c62ef0f2753339b7c8f8c8f475af9ccb5618e3f0c88eint, 0x163d9b0f367e1dd13ecd166e70941ed34b1c3b14f91b1413aca036b96db700df5127bc1a99ff40dec9c732e4d6ab4a31int, 0xd6ed6553fe44d296a3726c38ae652bfb11586264f0f8ce19008e218f9c86b2a8da25128c1052ecaddd7f225a139ed84int, 0x17bf050c1307333a5b98a900f3a5cdadc3af7885fedfdc97788e2ac25959544ffd1e04be58b38a8c5226eeb42589ec50int, 0xc40ab6a0a9fb14bfba476bbcf1caa7481ef583b059d77a765d2a4dde0ce06fab28ed69e4082f4341c355fbfa6f38405int, x_num_sq_7_6(x), x_num_6(x), x_num_sq_8_5(x), x_num_sq_7_7(x), x_num_7(x), x_num_sq_8_6(x));
    lemma_horner_level(x, 0x17b81e7701abdbe2e8743884d1117e53356de5ab275b4db1a682c62ef0f2753339b7c8f8c8f475af9ccb5618e3f0c88eint, 0xcba0f89e662d1a743022039ad81a9ff0db1014f0074bcf64db8dbe052aba1a1f9f6f4858bb6c51cea7ceec56e7c1ee2int, 0x1630c3250d7313ff01d1201bf7a74ab5db3cb17dd952799b9ed3ab9097e68f90a0870d2dcae73d19cd13c1c66f652983int, 0x84543a811154f7fb2207b3eb84b511b6ea01fe4d8f95e2b00d8652e64e2972ee5ece957da7cef039f872324f67a88d6int, 0x143d993f1ff56c65da7c2d9608996714d7b727f23d285f31a7b8306487be968e51ea549dd81ab32ed92ae61aa4e759daint, x_num_sq_7_5(x), x_num_5(x), x_num_sq_8_4(x), x_num_sq_7_6(x), x_num_6(x), x_num_sq_8_5(x));
    lemma_horner_level(x, 0x17b81e7701abdbe2e8743884d1117e53356de5ab275b4db1a682c62ef0f2753339b7c8f8c8f475af9ccb5618e3f0c88eint, 0x96f806a236be140d2c844b7727304e102c1ae79de3544e258d3ae4ea962ad2f5332c144b6bb0e91a4b6260dbe3b92f8int, 0xe99726a3199f4436642b4b3e4118e5499db995a1257fb3f086eeb65982fac18985a286f301e77c451154ce9ac8895d9int, 0x18ba21ec5fca5b862a76f29310c3bbda2882ee825920362f460effc1744092d3a72832c938eab57b99e39c574ac7d529int, 0xd510a6bb584384d6a224b2f33e71859ffe71f12202ea0fbc683b3fea2e9a9a03ad1472b70e0fb3edf1ac7014d1fb9adint, x_num_sq_7_4(x), x_num_4(x), x_num_sq_8_3(x), x_num_sq_7_5(x), x_num_5(x), x_num_sq_8_4(x));
    lemma_horner_level(x, 0x17b81e7701abdbe2e8743884d1117e53356de5ab275b4db1a682c62ef0f2753339b7c8f8c8f475af9ccb5618e3f0c88eint, 0x9e754d9c8b718fdd7680c954599191d60c80add78ac4032b77d4884067146a14ae6284cec1938d66374773073b3e3e3int, 0x1778e7166fcc6db74e0609d307e55412d7f5e4656a8dbf25f1b33289f1b330835336e25ce3107193c5b388641d9b6861int, 0xa13ca12c087f057eef3cb2d8aa20f84d389286f6e332a2ab87ec26f87e12c32ec8645308592bce378a6cc6bfd236382int, 0x1568e7d5f2f4f1a5d1bff47615b72afd39af4d14544fa80ff66ce6e396bd4c122027b5cca1db15870331a65c3fa48847int, x_num_sq_7_3(x), x_num_3(x), x_num_sq_8_2(x), x_num_sq_7_4(x), x_num_4(x), x_num_sq_8_3(x));
    lemma_horner_level(x, 0x17b81e7701abdbe2e8743884d1117e53356de5ab275b4db1a682c62ef0f2753339b7c8f8c8f475af9ccb5618e3f0c88eint, 0x171e9b7a8e13f99ff195e1371da62c0ac236c8243b6b879ca2560763521d39660cffa3b85d7efd0d5bbf91a69a0429dbint, 0xd54005db97678ec1d1048c5d10a9a1bce032473295983e56878e501ec68e25c958c3e3d2a09729fe0179f9dac9edcb0int, 0x3c586744175e6e8d80fae0b0f5707f31dd2166b01eab0eb3f76db9d2d92fd433cba7f10fad6982ecc62b6c1fcdfae2aint, 0xc28311af9cbcee2c1c697d1bebe9d45a83ab33cc6e462ec6aad1c2ffc09fadcaa67194dfbfa198468c5089be6f749cdint, x_num_sq_7_2(x), x_num_2(x), x_num_sq_8_1(x), x_num_sq_7_3(x), x_num_3(x), x_num_sq_8_2(x));
    lemma_horner_level(x, 0x17b81e7701abdbe2e8743884d1117e53356de5ab275b4db1a682c62ef0f2753339b7c8f8c8f475af9ccb5618e3f0c88eint, 0x1562ee1431e6b61553023505247fb116658ce852f013d196788fcaa0a6c045a59cabffb32a4a14a1652c710c216029bfint, 0x17294ed3e943ab2f0588bab22147a81c7c17e75b2f6a8417f565e33c70d1e86b4838f2a6f318c356e834eef1b3cb83bbint, 0x17abe5b54476b26e845cda93596f8f48e5ddf87eb03db9f87a9ad2ef05a315542e25ca470c8722e3baf491f6b9154debint, 0x15204e052b2ad35ae9fe528e586758383d7126c6250f82692b45778abfab4f06791efc2f7bb9e554ff60dde9cf28e9b2int, x_num_sq_7_1(x), x_num_1(x), x_num_sq_8_0(x), x_num_sq_7_2(x), x_num_2(x), x_num_sq_8_1(x));
    lemma_horner_level(x, 0x17b81e7701abdbe2e8743884d1117e53356de5ab275b4db1a682c62ef0f2753339b7c8f8c8f475af9ccb5618e3f0c88eint, 0x10b9c5bb931b708962b905cb40dfa3f3cab6ca3143fd55336099c6ce32bfc5605c852fbda90d88436ac768e0d1b80f95int, 0x11a05f2b1e833340b809101dd99815856b303e88a2d7005ff2627b56cdb4e2c85610c2d5f2e62d6eaeac1662734649b7int, 0x0int, 0x1013dfa11691df9fb75cb54695a9dda45d42352b76f61eb983c9e4d6a0a30c6224d0e5b2f8e016d5e86abca7a00a63c7int, x_num_sq_7_0(x), x_num_0(x), times(x, x_num_sq_8_0(x)), x_num_sq_7_1(x), x_num_1(x), x_num_sq_8_0(x));
    lemma_product_level(x, 0x17b81e7701abdbe2e8743884d1117e53356de5ab275b4db1a682c62ef0f2753339b7c8f8c8f475af9ccb5618e3f0c88eint, x_num_7(x), x_num_8(x), x_num_0(x), x_num_sq_7_0(x), x_num_sq_8_0(x));
}

pub(crate) proof fn lemma_x_num_sq_step_6(x: int)
    ensures
        congruent(x_num_sq_6_0(x), times(x_num_6(x), x_num_0(x))),
{
    lemma_times_zero(x);
    lemma_x_num_sq_step_7(x);
    lemma_congruent_refl(x_num_sq_7_11(x), 0xd6ed6553fe44d296a3726c38ae652bfb11586264f0f8ce19008e218f9c86b2a8da25128c1052ecaddd7f225a139ed84int * 0int + x_num_sq_7_11(x));
    lemma_horner_level(x, 0xd6ed6553fe44d296a3726c38ae652bfb11586264f0f8ce19008e218f9c86b2a8da25128c1052ecaddd7f225a139ed84int, 0x7093daf78e450be77c82e5f63de46763661d878ffe65ec4f83653fa40f6339077bf8e994a27e30a85f7b447976040edint, 0x6e08c248e260e70bd1e962381edee3d31d79d7e22c837bc23c0bf1bc24c6b68c24b1b80b64d391fa9c8ba2e8ba2d229int, 0xf17788c6ccd3d8d4253957fbdac341ff10830aae62b8993508d85726a84fab09dd47f1dd4e0e6e2ad9edc97ad50dc3bint, 0x38d71ce9c888ae2c11d653a0f93a7de11365a7c6112ec2243b62f19a57f0d8814880489b855ffae3ee698e5fc17c856int, x_num_sq_6_11(x), x_num_11(x), x_num_sq_7_10(x), x_num_sq_7_11(x), 0int, x_num_sq_7_11(x));
    lemma_horner_level(x, 0xd6ed6553fe44d296a3726c38ae652bfb11586264f0f8ce19008e218f9c86b2a8da25128c1052ecaddd7f225a139ed84int, 0x6f4a30b583b75b9fbc245f828eced1797635a1e36ebb0eabfb27d88aef216f953c2ed8a0d5f55e3824a788bdbab6dc7int, 0x10321da079ce07e272d8ec09d2565b0dfa7dccdde6787f96d50af36003b14866f69b771f8c285decca67df3f1605fb7bint, 0x8141a14992673e72b708ab6a32699ad9bdd29fd7fd7cac2e32241f648cf0a81dd6fb64d3011c35b41fdd1bf00d2e9d8int, 0x85dc1718719cd8fcd30e3794237d13a1bfc4f6217e91c03a9178ecbd3d6d24eeecfbecaa782609f3184b0f13dca1377int, x_num_sq_6_10(x), x_num_10(x), x_num_sq_7_9(x), x_num_sq_6_11(x), x_num_11(x), x_num_sq_7_10(x));
    lemma_horner_level(x, 0xd6ed6553fe44d296a3726c38ae652bfb11586264f0f8ce19008e218f9c86b2a8da25128c1052ecaddd7f225a139ed84int, 0x10ebe139f58b6cf43919f466f0e4f9663ff4a446c96ad03cb9aa96ae26bf139153ca3786ece54d4cf8d5ce6412db5570int, 0x169b1f8e1bcfa7c42e0c37515d138f22dd2ecb803a0c5c99676314baf4bb1b7fa3190b2edc0327797f241067be390c9eint, 0x134d506fc2b95af8b59c313f8d2f58ab52147aa08ffac28b4358c4e9063cc2330d3a891fb305b8eaf8991aa6c65eb8a3int, 0xbad7316e3768c260980edc5f3f2b0b43fbe588200ef5c3a5057ba85a1164cfd1fad8b35674f83c192d07a5dd45f8001int, x_num_sq_6_9(x), x_num_9(x), x_num_sq_7_8(x), x_num_sq_6_10(x), x_num_10(x), x_num_sq_7_9(x));
    lemma_horner_level(x, 0xd6ed6553fe44d296a3726c38ae652bfb11586264f0f8ce19008e218f9c86b2a8da25128c1052ecaddd7f225a139ed84int, 0x56baf9f093c25e48ea652475ce949ac556d7ddb943f478ed5ece5b5581f8078bb238a71cf6adf272705ef50812c3b8eint, 0x80d3cf1f9a78fc47b90b33563be990dc43b756ce79f5574a2c596c928c5d1de4fa295f296b74e956d71986a8497e317int, 0x10bfa49449dfb9eaf5e9ebcf1c216a9ad3a8984c6ce7f3429af11da14365608f35c006eccf8c830840a59fa2c7d42dc5int, 0x428c5a6c52808b7219a32b919130145f2f5d4a5219836a1444c9d09c34d275111db4866097e4771eeca5b15db35ff39int, x_num_sq_6_8(x), x_num_8(x), x_num_sq_7_7(x), x_num_sq_6_9(x), x_num_9(x), x_num_sq_7_8(x));
    lemma_horner_level(x, 0xd6ed6553fe44d296a3726c38ae652bfb11586264f0f8ce19008e218f9c86b2a8da25128c1052ecaddd7f225a139ed84int, 0x14bc311259f50868220183dbed826ff8d288fda3f3564b8fe0b242b08214ad6ea5317376db4af7314167771587cca812int, 0x17b81e7701abdbe2e8743884d1117e53356de5ab275b4db1a682c62ef0f2753339b7c8f8c8f475af9ccb5618e3f0c88eint, 0x163d9b0f367e1dd13ecd166e70941ed34b1c3b14f91b1413aca036b96db700df5127bc1a99ff40dec9c732e4d6ab4a31int, 0xc40ab6a0a9fb14bfba476bbcf1caa7481ef583b059d77a765d2a4dde0ce06fab28ed69e4082f4341c355fbfa6f38405int, x_num_sq_6_7(x), x_num_7(x), x_num_sq_7_6(x), x_num_sq_6_8(x), x_num_8(x), x_num_sq_7_7(x));
    lemma_horner_level(x, 0xd6ed6553fe44d296a3726c38ae652bfb11586264f0f8ce19008e218f9c86b2a8da25128c1052ecaddd7f225a139ed84int, 0x138e97db6ce3e08ce8273a63b77b3387de38e86a57266e2b20aab391018cadb322ba320521d09e1adf960a68c03339a7int, 0xd6ed6553fe44d296a3726c38ae652bfb11586264f0f8ce19008e218f9c86b2a8da25128c1052ecaddd7f225a139ed84int, 0xcba0f89e662d1a743022039ad81a9ff0db1014f0074bcf64db8dbe052aba1a1f9f6f4858bb6c51cea7ceec56e7c1ee2int, 0x6f065b98426996a67deb75e2b94c7a0f2a5fb1df2b06517b3196dff1ac95d0e663cfdaff18cd40fbecfcd4dba2cb3e1int, x_num_sq_6_6(x), x_num_6(x), x_num_sq_7_5(x), x_num_sq_6_7(x), x_num_7(x), x_num_sq_7_6(x));
    lemma_horner_level(x, 0xd6ed6553fe44d296a3726c38ae652bfb11586264f0f8ce19008e218f9c86b2a8da25128c1052ecaddd7f225a139ed84int, 0x12c9b6b01847a1427db514ec013c6b17696df1f425e7bc7ab73c5566a3b2800973fc044fc50afca46bf6d087eb6d28f5int, 0x1630c3250d7313ff01d1201bf7a74ab5db3cb17dd952799b9ed3ab9097e68f90a0870d2dcae73d19cd13c1c66f652983int, 0x96f806a236be140d2c844b7727304e102c1ae79de3544e258d3ae4ea962ad2f5332c144b6bb0e91a4b6260dbe3b92f8int, 0xb7681bb47116e0dbed109a76303b8f4feccb0be28c91ab440922c55041fc6c098cc101c87a6b46afe5a92f9ec6049adint, x_num_sq_6_5(x), x_num_5(x), x_num_sq_7_4(x), x_num_sq_6_6(x), x_num_6(x), x_num_sq_7_5(x));
    lemma_horner_level(x, 0xd6ed6553fe44d296a3726c38ae652bfb11586264f0f8ce19008e218f9c86b2a8da25128c1052ecaddd7f225a139ed84int, 0x96204e04014e4b5cd07c9e7179f58b28f2110605a074aff9ee961358162b1e8098ae0c56ecdb99e0895c5b68ea6993eint, 0xe99726a3199f4436642b4b3e4118e5499db995a1257fb3f086eeb65982fac18985a286f301e77c451154ce9ac8895d9int, 0x9e754d9c8b718fdd7680c954599191d60c80add78ac4032b77d4884067146a14ae6284cec1938d66374773073b3e3e3int, 0x78aa661ca1a449cbffa3ed7822b3c202d5828c86e24e30c7ab6bbab36446c478968b457870a6005f4cf254ac82b5a9bint, x_num_sq_6_4(x), x_num_4(x), x_num_sq_7_3(x), x_num_sq_6_5(x), x_num_5(x), x_num_sq_7_4(x));
    lemma_horner_level(x, 0xd6ed6553fe44d296a3726c38ae652bfb11586264f0f8ce19008e218f9c86b2a8da25128c1052ecaddd7f225a139ed84int, 0x10f739c5b5c5aab2eb2b9a55926ac0210cd904726dfc7a92e69f43e2850aff29b6d7e4f02231adecead9e462cd1e527int, 0x1778e7166fcc6db74e0609d307e55412d7f5e4656a8dbf25f1b33289f1b330835336e25ce3107193c5b388641d9b6861int, 0x171e9b7a8e13f99ff195e1371da62c0ac236c8243b6b879ca2560763521d39660cffa3b85d7efd0d5bbf91a69a0429dbint, 0xc20039486cc3962e0b856185d73238f398eca6b374103747fba8b5ee4b2e59a288faf75d941cdcffe9451db19d4ab28int, x_num_sq_6_3(x), x_num_3(x), x_num_sq_7_2(x), x_num_sq_6_4(x), x_num_4(x), x_num_sq_7_3(x));
    lemma_horner_level(x, 0xd6ed6553fe44d296a3726c38ae652bfb11586264f0f8ce19008e218f9c86b2a8da25128c1052ecaddd7f225a139ed84int, 0x8fa88805df700655699affafb4cd2fff1bcf9d95dd3fbb956aab5e5db88f35c07c6eb8697aa0b6392860f5a54ebb798int, 0xd54005db97678ec1d1048c5d10a9a1bce032473295983e56878e501ec68e25c958c3e3d2a09729fe0179f9dac9edcb0int, 0x1562ee1431e6b61553023505247fb116658ce852f013d196788fcaa0a6c045a59cabffb32a4a14a1652c710c216029bfint, 0x6e288e954a6400b70336b4c9003c7dfddd34658a620aa556f4572fa4e0805ecb72885ed5232ebb28a9e7283a24c86b5int, x_num_sq_6_2(x), x_num_2(x), x_num_sq_7_1(x), x_num_sq_6_3(x), x_num_3(x), x_num_sq_7_2(x));
    lemma_horner_level(x, 0xd6ed6553fe44d296a3726c38ae652bfb11586264f0f8ce19008e218f9c86b2a8da25128c1052ecaddd7f225a139ed84int, 0x3537e53225e5afa36f6eed68c3a64e821f0e534f5dfebef69c54b98fbf4f4e9b94bc8226587e9c5f59a6470ddeee2f4int, 0x17294ed3e943ab2f0588bab22147a81c7c17e75b2f6a8417f565e33c70d1e86b4838f2a6f318c356e834eef1b3cb83bbint, 0x10b9c5bb931b708962b905cb40dfa3f3cab6ca3143fd55336099c6ce32bfc5605c852fbda90d88436ac768e0d1b80f95int, 0xbf6e5d5082d3f2a21476a0576633744af88401ca971b338293bd0de0983ef9d3cd9b79768b32fd5a1582433ac17a827int, x_num_sq_6_1(x), x_num_1(x), x_num_sq_7_0(x), x_num_sq_6_2(x), x_num_2(x), x_num_sq_7_1(x));
    lemma_horner_level(x, 0xd6ed6553fe44d296a3726c38ae652bfb11586264f0f8ce19008e218f9c86b2a8da25128c1052ecaddd7f225a139ed84int, 0xd49a3084b92eb51e63a276742fed8ef70c187359b9a11a7afe9988d240fff0c1da3779af93669cc52bc2385ea5f677bint, 0x11a05f2b1e833340b809101dd99815856b303e88a2d7005ff2627b56cdb4e2c85610c2d5f2e62d6eaeac1662734649b7int, 0x0int, 0x91af3c4551c342104bd988080c538c5122f6c4e49d7d76d4607c872e580af054a060adc37a7e66e53658d785c3711a3int, x_num_sq_6_0(x), x_num_0(x), times(x, x_num_sq_7_0(x)), x_num_sq_6_1(x), x_num_1(x), x_num_sq_7_0(x));
    lemma_product_level(x, 0xd6ed6553fe44d296a3726c38ae652bfb11586264f0f8ce19008e218f9c86b2a8da25128c1052ecaddd7f225a139ed84int, x_num_6(x), x_num_7(x), x_num_0(x), x_num_sq_6_0(x), x_num_sq_7_0(x));
}

pub(crate) proof fn lemma_x_num_sq_step_5(x: int)
    ensures
        congruent(x_num_sq_5_0(x), times(x_num_5(x), x_num_0(x))),
{
    lemma_times_zero(x);
    lemma_x_num_sq_step_6(x);
    lemma_congruent_refl(x_num_sq_6_11(x), 0x1630c3250d7313ff01d1201bf7a74ab5db3cb17dd952799b9ed3ab9097e68f90a0870d2dcae73d19cd13c1c66f652983int * 0int + x_num_sq_6_11(x));
    lemma_horner_level(x, 0x1630c3250d7313ff01d1201bf7a74ab5db3cb17dd952799b9ed3ab9097e68f90a0870d2dcae73d19cd13c1c66f652983int, 0x5a27730e0a74277ecd9acaa24f6a0020e193ff17b068685fca07d585e3a278a6a96206ce2f07c79f3efb780cdc7c9cdint, 0x6e08c248e260e70bd1e962381edee3d31d79d7e22c837bc23c0bf1bc24c6b68c24b1b80b64d391fa9c8ba2e8ba2d229int, 0x6f4a30b583b75b9fbc245f828eced1797635a1e36ebb0eabfb27d88aef216f953c2ed8a0d5f55e3824a788bdbab6dc7int, 0x5de59b0f083fcd34ec2f1380eb7e0fb33a208db76d4398c980533b8391902002a741cdfae4162abd924f5e414ff3fdfint, x_num_sq_5_11(x), x_num_11(x), x_num_sq_6_10(x), x_num_sq_6_11(x), 0int, x_num_sq_6_11(x));
    lemma_horner_level(x, 0x1630c3250d7313ff01d1201bf7a74ab5db3cb17dd952799b9ed3ab9097e68f90a0870d2dcae73d19cd13c1c66f652983int, 0x180ad015fc565fd9a7bd750b274f857439a1c612c31ac6deb35724f6a20de789e9263329f97f9b20b03576f07ec0add0int, 0x10321da079ce07e272d8ec09d2565b0dfa7dccdde6787f96d50af36003b14866f69b771f8c285decca67df3f1605fb7bint, 0x10ebe139f58b6cf43919f466f0e4f9663ff4a446c96ad03cb9aa96ae26bf139153ca3786ece54d4cf8d5ce6412db5570int, 0xdd20ec70371005cfd912923fb3ec81d2047b08e7e0e07d7182349b24ef3b460e9163652b00a012fe50ccbfd309b1fb3int, x_num_sq_5_10(x), x_num_10(x), x_num_sq_6_9(x), x_num_sq_5_11(x), x_num_11(x), x_num_sq_6_10(x));
    lemma_horner_level(x, 0x1630c3250d7313ff01d1201bf7a74ab5db3cb17dd952799b9ed3ab9097e68f90a0870d2dcae73d19cd13c1c66f652983int, 0x162130a847f4295e46731752f65e65e4366bd5fa768ca2125ae0f33b8366756c62abff4b7cccdc06b354ad230d5a5355int, 0x169b1f8e1bcfa7c42e0c37515d138f22dd2ecb803a0c5c99676314baf4bb1b7fa3190b2edc0327797f241067be390c9eint, 0x56baf9f093c25e48ea652475ce949ac556d7ddb943f478ed5ece5b5581f8078bb238a71cf6adf272705ef50812c3b8eint, 0x134a664a8c5f8c1cb635c43ac4832e967266c694cffae5b01ebccfabc4c5237b898de83c6fa677a1d3600a1140550139int, x_num_sq_5_9(x), x_num_9(x), x_num_sq_6_8(x), x_num_sq_5_10(x), x_num_10(x), x_num_sq_6_9(x));
    lemma_horner_level(x, 0x1630c3250d7313ff01d1201bf7a74ab5db3cb17dd952799b9ed3ab9097e68f90a0870d2dcae73d19cd13c1c66f652983int, 0xa12837e94a37806eec83cce8a3bd155d3a2470b4b86d2a516f1d7c52c7f873a1c3ccbb07af3157ff7d29160dc07400int, 0x80d3cf1f9a78fc47b90b33563be990dc43b756ce79f5574a2c596c928c5d1de4fa295f296b74e956d71986a8497e317int, 0x14bc311259f50868220183dbed826ff8d288fda3f3564b8fe0b242b08214ad6ea5317376db4af7314167771587cca812int, 0x6def1493a92d55f169bb5f6b3a29115f8e791aff062a37fcb93c20fbc3764f18b30e11a79cf3719b88d75ebf02a4785int, x_num_sq_5_8(x), x_num_8(x), x_num_sq_6_7(x), x_num_sq_5_9(x), x_num_9(x), x_num_sq_6_8(x));
    lemma_horner_level(x, 0x1630c3250d7313ff01d1201bf7a74ab5db3cb17dd952799b9ed3ab9097e68f90a0870d2dcae73d19cd13c1c66f652983int, 0x180363bd423162b47908df5eacb18c6b7d49c9d47ea1ccf66d8b2a42ef55b82636c43d32d30a74342a8bd6093834cfb3int, 0x17b81e7701abdbe2e8743884d1117e53356de5ab275b4db1a682c62ef0f2753339b7c8f8c8f475af9ccb5618e3f0c88eint, 0x138e97db6ce3e08ce8273a63b77b3387de38e86a57266e2b20aab391018cadb322ba320521d09e1adf960a68c03339a7int, 0x143d993f1ff56c65da7c2d9608996714d7b727f23d285f31a7b8306487be968e51ea549dd81ab32ed92ae61aa4e759daint, x_num_sq_5_7(x), x_num_7(x), x_num_sq_6_6(x), x_num_sq_5_8(x), x_num_8(x), x_num_sq_6_7(x));
    lemma_horner_level(x, 0x1630c3250d7313ff01d1201bf7a74ab5db3cb17dd952799b9ed3ab9097e68f90a0870d2dcae73d19cd13c1c66f652983int, 0x222db0bd3a37aa9dd863d6a4cba24766ba2e9e97a152153ae7429dda7515cbf7619475c2206eab779387b02189f1447int, 0xd6ed6553fe44d296a3726c38ae652bfb11586264f0f8ce19008e218f9c86b2a8da25128c1052ecaddd7f225a139ed84int, 0x12c9b6b01847a1427db514ec013c6b17696df1f425e7bc7ab73c5566a3b2800973fc044fc50afca46bf6d087eb6d28f5int, 0xb7681bb47116e0dbed109a76303b8f4feccb0be28c91ab440922c55041fc6c098cc101c87a6b46afe5a92f9ec6049aeint, x_num_sq_5_6(x), x_num_6(x), x_num_sq_6_5(x), x_num_sq_5_7(x), x_num_7(x), x_num_sq_6_6(x));
    lemma_horner_level(x, 0x1630c3250d7313ff01d1201bf7a74ab5db3cb17dd952799b9ed3ab9097e68f90a0870d2dcae73d19cd13c1c66f652983int, 0xb65eabb2c62210cae72123b1ea13f3eba5eacdd3b9c9dfbca50123453f51b5278179255675a60178dc2bc02dd79c9a3int, 0x1630c3250d7313ff01d1201bf7a74ab5db3cb17dd952799b9ed3ab9097e68f90a0870d2dcae73d19cd13c1c66f652983int, 0x96204e04014e4b5cd07c9e7179f58b28f2110605a074aff9ee961358162b1e8098ae0c56ecdb99e0895c5b68ea6993eint, 0x12efa32006f83fc19150b099a77fd98e40b3d9b4dbf0aec21c6d934766dfa1bc01b3d7fdffdc4d92a5ea4cb153be19ecint, x_num_sq_5_5(x), x_num_5(x), x_num_sq_6_4(x), x_num_sq_5_6(x), x_num_6(x), x_num_sq_6_5(x));
    lemma_horner_level(x, 0x1630c3250d7313ff01d1201bf7a74ab5db3cb17dd952799b9ed3ab9097e68f90a0870d2dcae73d19cd13c1c66f652983int, 0x58511f1905eaf44214c94fecf6ae42d9338edf3c79bf224acf89a09f6a7f7e4b315f20e4c69a3f8d436c591adae3943int, 0xe99726a3199f4436642b4b3e4118e5499db995a1257fb3f086eeb65982fac18985a286f301e77c451154ce9ac8895d9int, 0x10f739c5b5c5aab2eb2b9a55926ac0210cd904726dfc7a92e69f43e2850aff29b6d7e4f02231adecead9e462cd1e527int, 0xc7552bbb146bf229b2d4040af3cc462506ea9c934277fb72070f6b1793aa6f9d5e50c98c830e154d82a2c8fecbc50cdint, x_num_sq_5_4(x), x_num_4(x), x_num_sq_6_3(x), x_num_sq_5_5(x), x_num_5(x), x_num_sq_6_4(x));
    lemma_horner_level(x, 0x1630c3250d7313ff01d1201bf7a74ab5db3cb17dd952799b9ed3ab9097e68f90a0870d2dcae73d19cd13c1c66f652983int, 0xb76d355fbf1dab1a81554101e34a68d03ab19a9c4304388555f90a64a29d7313f90fa8406030c50cca383a41bc746c4int, 0x1778e7166fcc6db74e0609d307e55412d7f5e4656a8dbf25f1b33289f1b330835336e25ce3107193c5b388641d9b6861int, 0x8fa88805df700655699affafb4cd2fff1bcf9d95dd3fbb956aab5e5db88f35c07c6eb8697aa0b6392860f5a54ebb798int, 0x1407a7477cafdef76dfdee22a222eb222d9128055120a94c145305fe2e8e477848cb1f0a35e28d4e1c739131ac5b2a65int, x_num_sq_5_3(x), x_num_3(x), x_num_sq_6_2(x), x_num_sq_5_4(x), x_num_4(x), x_num_sq_6_3(x));
    lemma_horner_level(x, 0x1630c3250d7313ff01d1201bf7a74ab5db3cb17dd952799b9ed3ab9097e68f90a0870d2dcae73d19cd13c1c66f652983int, 0xa36b1c70360de81a09f7b572fdc5ce2964aa633fd8ad8ba2801dc1d9eaa1239f98691a25ea9aafe52a89d7a7616e471int, 0xd54005db97678ec1d1048c5d10a9a1bce032473295983e56878e501ec68e25c958c3e3d2a09729fe0179f9dac9edcb0int, 0x3537e53225e5afa36f6eed68c3a64e821f0e534f5dfebef69c54b98fbf4f4e9b94bc8226587e9c5f59a6470ddeee2f4int, 0xb5f9b4b94778572cd1baec7859cb3b0e0c5fc6c42f83372a48e483f3890c04b0aea5768a92a7d0912e13ad4057a55b9int, x_num_sq_5_2(x), x_num_2(x), x_num_sq_6_1(x), x_num_sq_5_3(x), x_num_3(x), x_num_sq_6_2(x));
    lemma_horner_level(x, 0x1630c3250d7313ff01d1201bf7a74ab5db3cb17dd952799b9ed3ab9097e68f90a0870d2dcae73d19cd13c1c66f652983int, 0x14f259f5b0e1f9df68ac38cc5152c7e400e5a592f80ba98bcc3aee4b4d9b49b8d9a7c01d1a58925027b8dbd9a27d5979int, 0x17294ed3e943ab2f0588bab22147a81c7c17e75b2f6a8417f565e33c70d1e86b4838f2a6f318c356e834eef1b3cb83bbint, 0xd49a3084b92eb51e63a276742fed8ef70c187359b9a11a7afe9988d240fff0c1da3779af93669cc52bc2385ea5f677bint, 0x13c3bb5892735bc8ce1b42b01e314015fd7a8995460fc59e2bbd902bd516319ad6e0f119aceda6f8d885f46209cc3d19int, x_num_sq_5_1(x), x_num_1(x), x_num_sq_6_0(x), x_num_sq_5_2(x), x_num_2(x), x_num_sq_6_1(x));
    lemma_horner_level(x, 0x1630c3250d7313ff01d1201bf7a74ab5db3cb17dd952799b9ed3ab9097e68f90a0870d2dcae73d19cd13c1c66f652983int, 0x837f40eef484aacd755ac3ea8107aa204d436af17a4760bf06dccb7bac8b53321dc9e198aa866990e615654a43301int, 0x11a05f2b1e833340b809101dd99815856b303e88a2d7005ff2627b56cdb4e2c85610c2d5f2e62d6eaeac1662734649b7int, 0x0int, 0xf0a9981e7ba7ede2078d0727a798506d63332b813c7f1e81bbaa3cfec13ea8258721b44ada006ac01afdb1f86ea7decint, x_num_sq_5_0(x), x_num_0(x), times(x, x_num_sq_6_0(x)), x_num_sq_5_1(x), x_num_1(x), x_num_sq_6_0(x));
    lemma_product_level(x, 0x1630c3250d7313ff01d1201bf7a74ab5db3cb17dd952799b9ed3ab9097e68f90a0870d2dcae73d19cd13c1c66f652983int, x_num_5(x), x_num_6(x), x_num_0(x), x_num_sq_5_0(x), x_num_sq_6_0(x));
}

pub(crate) proof fn lemma_x_num_sq_step_4(x: int)
    ensures
        congruent(x_num_sq_4_0(x), times(x_num_4(x), x_num_0(x))),
{
    lemma_times_zero(x);
    lemma_x_num_sq_step_5(x);
    lemma_congruent_refl(x_num_sq_5_11(x), 0xe99726a3199f4436642b4b3e4118e5499db995a1257fb3f086eeb65982fac18985a286f301e77c451154ce9ac8895d9int * 0int + x_num_sq_5_11(x));
    lemma_horner_level(x, 0xe99726a3199f4436642b4b3e4118e5499db995a1257fb3f086eeb65982fac18985a286f301e77c451154ce9ac8895d9int, 0x11492744d209645aa9e1023fe063d9fa5fce16ce7e9f739772098fffae3c96f0b1a2b6ac4c0eaaed7d92fefae39dedd1int, 0x6e08c248e260e70bd1e962381edee3d31d79d7e22c837bc23c0bf1bc24c6b68c24b1b80b64d391fa9c8ba2e8ba2d229int, 0x180ad015fc565fd9a7bd750b274f857439a1c612c31ac6deb35724f6a20de789e9263329f97f9b20b03576f07ec0add0int, 0x3dc6a6c7b225e37e8446b076048586b007dc73bc99c8e9c4e654499cf6359f158f3e0611b891d8ee4c8471e10024540int, x_num_sq_4_11(x), x_num_11(x), x_num_sq_5_10(x), x_num_sq_5_11(x), 0int, x_num_sq_5_11(x));
    lemma_horner_level(x, 0xe99726a3199f4436642b4b3e4118e5499db995a1257fb3f086eeb65982fac18985a286f301e77c451154ce9ac8895d9int, 0x263c17431e5d5b866c2c250302e9cbe051eaa44e76f5f0a204bfdb05e12aa5cd91b35e216425fb5ae10a4d1f6bebb77int, 0x10321da079ce07e272d8ec09d2565b0dfa7dccdde6787f96d50af36003b14866f69b771f8c285decca67df3f1605fb7bint, 0x162130a847f4295e46731752f65e65e4366bd5fa768ca2125ae0f33b8366756c62abff4b7cccdc06b354ad230d5a5355int, 0x917bbe15e1fd0547d6c40a78079cbdcac814bc3c12150b21fb1addb34b41004082f7d5824eec1316616d0aa7d900e63int, x_num_sq_4_10(x), x_num_10(x), x_num_sq_5_9(x), x_num_sq_4_11(x), x_num_11(x), x_num_sq_5_10(x));
    lemma_horner_level(x, 0xe99726a3199f4436642b4b3e4118e5499db995a1257fb3f086eeb65982fac18985a286f301e77c451154ce9ac8895d9int, 0x1999667efbdbe12dfa3cad3efed94d7b58ea4bb3219d35f5b4677e647834114f1e98511d5813ba839f17cb961265fca1int, 0x169b1f8e1bcfa7c42e0c37515d138f22dd2ecb803a0c5c99676314baf4bb1b7fa3190b2edc0327797f241067be390c9eint, 0xa12837e94a37806eec83cce8a3bd155d3a2470b4b86d2a516f1d7c52c7f873a1c3ccbb07af3157ff7d29160dc07400int, 0xcb1097303993ff767e59eb17683638364707cf791fe3b74d171346128ae4877c74503ceec5e5b481202851c3be15de7int, x_num_sq_4_9(x), x_num_9(x), x_num_sq_5_8(x), x_num_sq_4_10(x), x_num_10(x), x_num_sq_5_9(x));
    lemma_horner_level(x, 0xe99726a3199f4436642b4b3e4118e5499db995a1257fb3f086eeb65982fac18985a286f301e77c451154ce9ac8895d9int, 0xce316bef0a2ae9a5a8136865dcba2a35e2b43b0c963909712491c137316df730d6e42f51140a0ba42aef976229d2e7eint, 0x80d3cf1f9a78fc47b90b33563be990dc43b756ce79f5574a2c596c928c5d1de4fa295f296b74e956d71986a8497e317int, 0x180363bd423162b47908df5eacb18c6b7d49c9d47ea1ccf66d8b2a42ef55b82636c43d32d30a74342a8bd6093834cfb3int, 0x4853b243701540fe345292a56fe7fcf2699d894661e6f4713e3ad5060d07cfdec93c211467726a43998a305754e881cint, x_num_sq_4_8(x), x_num_8(x), x_num_sq_5_7(x), x_num_sq_4_9(x), x_num_9(x), x_num_sq_5_8(x));
    lemma_horner_level(x, 0xe99726a3199f4436642b4b3e4118e5499db995a1257fb3f086eeb65982fac18985a286f301e77c451154ce9ac8895d9int, 0xcd94b73d0c4e6fed0f33744f1b51a54aa58f565f2af42c62869ab0bd3246d3f40cfd5d6512b43cd3e0a04b88c127cc1int, 0x17b81e7701abdbe2e8743884d1117e53356de5ab275b4db1a682c62ef0f2753339b7c8f8c8f475af9ccb5618e3f0c88eint, 0x222db0bd3a37aa9dd863d6a4cba24766ba2e9e97a152153ae7429dda7515cbf7619475c2206eab779387b02189f1447int, 0xd510a6bb584384d6a224b2f33e71859ffe71f12202ea0fbc683b3fea2e9a9a03ad1472b70e0fb3edf1ac7014d1fb9acint, x_num_sq_4_7(x), x_num_7(x), x_num_sq_5_6(x), x_num_sq_4_8(x), x_num_8(x), x_num_sq_5_7(x));
    lemma_horner_level(x, 0xe99726a3199f4436642b4b3e4118e5499db995a1257fb3f086eeb65982fac18985a286f301e77c451154ce9ac8895d9int, 0xae09ac1a3bfecc4a411cf8cf0a77ed3e8b7b2601cf7a8c8b1bc2ae5cee6869936bc4acdea0ee0df32e40a88f86c7efeint, 0xd6ed6553fe44d296a3726c38ae652bfb11586264f0f8ce19008e218f9c86b2a8da25128c1052ecaddd7f225a139ed84int, 0xb65eabb2c62210cae72123b1ea13f3eba5eacdd3b9c9dfbca50123453f51b5278179255675a60178dc2bc02dd79c9a3int, 0x78aa661ca1a449cbffa3ed7822b3c202d5828c86e24e30c7ab6bbab36446c478968b457870a6005f4cf254ac82b5a9bint, x_num_sq_4_6(x), x_num_6(x), x_num_sq_5_5(x), x_num_sq_4_7(x), x_num_7(x), x_num_sq_5_6(x));
    lemma_horner_level(x, 0xe99726a3199f4436642b4b3e4118e5499db995a1257fb3f086eeb65982fac18985a286f301e77c451154ce9ac8895d9int, 0x9fab046c56103dd13e6705845af1c5915a44ba068581ca02b873fd5c4ff3fd6cabe65cd96b02d12d9bfecdd2e8a8d5fint, 0x1630c3250d7313ff01d1201bf7a74ab5db3cb17dd952799b9ed3ab9097e68f90a0870d2dcae73d19cd13c1c66f652983int, 0x58511f1905eaf44214c94fecf6ae42d9338edf3c79bf224acf89a09f6a7f7e4b315f20e4c69a3f8d436c591adae3943int, 0xc7552bbb146bf229b2d4040af3cc462506ea9c934277fb72070f6b1793aa6f9d5e50c98c830e154d82a2c8fecbc50cdint, x_num_sq_4_5(x), x_num_5(x), x_num_sq_5_4(x), x_num_sq_4_6(x), x_num_6(x), x_num_sq_5_5(x));
    lemma_horner_level(x, 0xe99726a3199f4436642b4b3e4118e5499db995a1257fb3f086eeb65982fac18985a286f301e77c451154ce9ac8895d9int, 0x1751c5939b2e7f75e20828b189a7e2129604a07b1cc169b7fe9984328dd7a38d9ac9e8ef10c102b71bd28bca2b78b16bint, 0xe99726a3199f4436642b4b3e4118e5499db995a1257fb3f086eeb65982fac18985a286f301e77c451154ce9ac8895d9int, 0xb76d355fbf1dab1a81554101e34a68d03ab19a9c4304388555f90a64a29d7313f90fa8406030c50cca383a41bc746c4int, 0x8324c0454d382d567de082a86a8a63fc24611bfc9cf5eff507d7d92501b1c4e7bd496a03a712ff60f612ee1f99cb5deint, x_num_sq_4_4(x), x_num_4(x), x_num_sq_5_3(x), x_num_sq_4_5(x), x_num_5(x), x_num_sq_5_4(x));
    lemma_horner_level(x, 0xe99726a3199f4436642b4b3e4118e5499db995a1257fb3f086eeb65982fac18985a286f301e77c451154ce9ac8895d9int, 0xa4fa5b0ce8540f4e7a673d010681df7bcb536aac755d694dc833760975c8542ae4ad3ad84cc2e2516bf6a3957f59042int, 0x1778e7166fcc6db74e0609d307e55412d7f5e4656a8dbf25f1b33289f1b330835336e25ce3107193c5b388641d9b6861int, 0xa36b1c70360de81a09f7b572fdc5ce2964aa633fd8ad8ba2801dc1d9eaa1239f98691a25ea9aafe52a89d7a7616e471int, 0xd2d8caa2bb2c6f25900ac73e2e9441aacd03de10579f4802e6108ff28b58814be71dff0de496e66271fbba1a8a7ca38int, x_num_sq_4_3(x), x_num_3(x), x_num_sq_5_2(x), x_num_sq_4_4(x), x_num_4(x), x_num_sq_5_3(x));
    lemma_horner_level(x, 0xe99726a3199f4436642b4b3e4118e5499db995a1257fb3f086eeb65982fac18985a286f301e77c451154ce9ac8895d9int, 0x45be2bb9d4cdf65efef5bc634efb24b8d0fe6eba1530771712b2e0b986376baf461be8736f25453368c4b881c2aef88int, 0xd54005db97678ec1d1048c5d10a9a1bce032473295983e56878e501ec68e25c958c3e3d2a09729fe0179f9dac9edcb0int, 0x14f259f5b0e1f9df68ac38cc5152c7e400e5a592f80ba98bcc3aee4b4d9b49b8d9a7c01d1a58925027b8dbd9a27d5979int, 0x77b9568cbe9961d58cb324ac00ac35ad42137c1142a746afa2c32420f70e32b73c89dfb4c40b1d58465b613282cc163int, x_num_sq_4_2(x), x_num_2(x), x_num_sq_5_1(x), x_num_sq_4_3(x), x_num_3(x), x_num_sq_5_2(x));
    lemma_horner_level(x, 0xe99726a3199f4436642b4b3e4118e5499db995a1257fb3f086eeb65982fac18985a286f301e77c451154ce9ac8895d9int, 0x1167a07160885b850afdca00b61447416fdf91d5d3021869e7b7935024153598dcdf47e0ac1737a351348592d8d3cb2int, 0x17294ed3e943ab2f0588bab22147a81c7c17e75b2f6a8417f565e33c70d1e86b4838f2a6f318c356e834eef1b3cb83bbint, 0x837f40eef484aacd755ac3ea8107aa204d436af17a4760bf06dccb7bac8b53321dc9e198aa866990e615654a43301int, 0xd00dceb2f4a231c61b029e700eb85d0a50d342ae15e92ea97a1933dcec7f4b23ca833393cabea63661e3b52494e6476int, x_num_sq_4_1(x), x_num_1(x), x_num_sq_5_0(x), x_num_sq_4_2(x), x_num_2(x), x_num_sq_5_1(x));
    lemma_horner_level(x, 0xe99726a3199f4436642b4b3e4118e5499db995a1257fb3f086eeb65982fac18985a286f301e77c451154ce9ac8895d9int, 0x9976f2f0751f0576beba13eea084ea8d1bd8a6a52d16507a7e31096c821507df7369fa531380095aecb9bd9cd315e78int, 0x11a05f2b1e833340b809101dd99815856b303e88a2d7005ff2627b56cdb4e2c85610c2d5f2e62d6eaeac1662734649b7int, 0x0int, 0x9e55bf94bab25629c6a99ad14417579bc09291ae263ef5872da0eda06f2d1e8450b2d962b8dd9e0e6e557d9b07ce1f5int, x_num_sq_4_0(x), x_num_0(x), times(x, x_num_sq_5_0(x)), x_num_sq_4_1(x), x_num_1(x), x_num_sq_5_0(x));
    lemma_product_level(x, 0xe99726a3199f4436642b4b3e4118e5499db995a1257fb3f086eeb65982fac18985a286f301e77c451154ce9ac8895d9int, x_num_4(x), x_num_5(x), x_num_0(x), x_num_sq_4_0(x), x_num_sq_5_0(x));
}

pub(crate) proof fn lemma_x_num_sq_step_3(x: int)
    ensures
        congruent(x_num_sq_3_0(x), times(x_num_3(x), x_num_0(x))),
{
    lemma_times_zero(x);
    lemma_x_num_sq_step_4(x);
    lemma_congruent_refl(x_num_sq_4_11(x), 0x1778e7166fcc6db74e0609d307e55412d7f5e4656a8dbf25f1b33289f1b330835336e25ce3107193c5b388641d9b6861int * 0int + x_num_sq_4_11(x));
    lemma_horner_level(x, 0x1778e7166fcc6db74e0609d307e55412d7f5e4656a8dbf25f1b33289f1b330835336e25ce3107193c5b388641d9b6861int, 0x1f05d5da5c280835062eaaa81175bcbe0725e1e7a9bc9f0898562ab66a5f949ff1dbf28b4885c6abe20f658149c0ed7int, 0x6e08c248e260e70bd1e962381edee3d31d79d7e22c837bc23c0bf1bc24c6b68c24b1b80b64d391fa9c8ba2e8ba2d229int, 0x263c17431e5d5b866c2c250302e9cbe051eaa44e76f5f0a204bfdb05e12aa5cd91b35e216425fb5ae10a4d1f6bebb77int, 0x635219c260784af6b60cdb4a2e1ac72fffd53accde60401926edcb4594f1fdf07327b55eba74200ff645f4f5e92e27bint, x_num_sq_3_11(x), x_num_11(x), x_num_sq_4_10(x), x_num_sq_4_11(x), 0int, x_num_sq_4_11(x));
    lemma_horner_level(x, 0x1778e7166fcc6db74e0609d307e55412d7f5e4656a8dbf25f1b33289f1b330835336e25ce3107193c5b388641d9b6861int, 0x50818c97c9b3f1e07e3a6f71a5d3d81d1576f977256abd353287c374e21f630de733ffe77ab174c8d5b6fb269fe18bint, 0x10321da079ce07e272d8ec09d2565b0dfa7dccdde6787f96d50af36003b14866f69b771f8c285decca67df3f1605fb7bint, 0x1999667efbdbe12dfa3cad3efed94d7b58ea4bb3219d35f5b4677e647834114f1e98511d5813ba839f17cb961265fca1int, 0xe9e6d99d1c333affd5bc6e1366cce007eb65d54318dff14cf388be11f498b7060a0f244b4226b0239fd6ef1c41b1613int, x_num_sq_3_10(x), x_num_10(x), x_num_sq_4_9(x), x_num_sq_3_11(x), x_num_11(x), x_num_sq_4_10(x));
    lemma_horner_level(x, 0x1778e7166fcc6db74e0609d307e55412d7f5e4656a8dbf25f1b33289f1b330835336e25ce3107193c5b388641d9b6861int, 0x8ccbab80f3367a0d2c0c5aee6d87930213e0bbb255ee3cd0a6003acd132a77816fccc985faa3e8ccf3c71ae12bc9b46int, 0x169b1f8e1bcfa7c42e0c37515d138f22dd2ecb803a0c5c99676314baf4bb1b7fa3190b2edc0327797f241067be390c9eint, 0xce316bef0a2ae9a5a8136865dcba2a35e2b43b0c963909712491c137316df730d6e42f51140a0ba42aef976229d2e7eint, 0x1467a896adfee34095c66676ae2ddd423e3a9ff053e88d5b5b37b28ff224680eedf3c3581e571fdd59dd5f48301ba142int, x_num_sq_3_9(x), x_num_9(x), x_num_sq_4_8(x), x_num_sq_3_10(x), x_num_10(x), x_num_sq_4_9(x));
    lemma_horner_level(x, 0x1778e7166fcc6db74e0609d307e55412d7f5e4656a8dbf25f1b33289f1b330835336e25ce3107193c5b388641d9b6861int, 0x1b4f09d85a25e14b8ded2251937a732e01cda6674a3eddac064e6be8dc3e6a23463db4d31d413a76658ce005268eed2int, 0x80d3cf1f9a78fc47b90b33563be990dc43b756ce79f5574a2c596c928c5d1de4fa295f296b74e956d71986a8497e317int, 0xcd94b73d0c4e6fed0f33744f1b51a54aa58f565f2af42c62869ab0bd3246d3f40cfd5d6512b43cd3e0a04b88c127cc1int, 0x7448b8bf0466e2c4c375d3cb2c0d844863b2d4263f59fc64579f3aa6c635132ee527eaa833806fff17b98fba520d4f2int, x_num_sq_3_8(x), x_num_8(x), x_num_sq_4_7(x), x_num_sq_3_9(x), x_num_9(x), x_num_sq_4_8(x));
    lemma_horner_level(x, 0x1778e7166fcc6db74e0609d307e55412d7f5e4656a8dbf25f1b33289f1b330835336e25ce3107193c5b388641d9b6861int, 0xab42588abef156a8c8610f4ab9e886c75f694ce2770bed0b0bab0fa4d76a107951c2dea50955cd21db1b54d6efcff5fint, 0x17b81e7701abdbe2e8743884d1117e53356de5ab275b4db1a682c62ef0f2753339b7c8f8c8f475af9ccb5618e3f0c88eint, 0xae09ac1a3bfecc4a411cf8cf0a77ed3e8b7b2601cf7a8c8b1bc2ae5cee6869936bc4acdea0ee0df32e40a88f86c7efeint, 0x1568e7d5f2f4f1a5d1bff47615b72afd39af4d14544fa80ff66ce6e396bd4c122027b5cca1db15870331a65c3fa48847int, x_num_sq_3_7(x), x_num_7(x), x_num_sq_4_6(x), x_num_sq_3_8(x), x_num_8(x), x_num_sq_4_7(x));
    lemma_horner_level(x, 0x1778e7166fcc6db74e0609d307e55412d7f5e4656a8dbf25f1b33289f1b330835336e25ce3107193c5b388641d9b6861int, 0xdec9a52cc294b829c1ef07cc47b4927c8b25f4847516f6c1ecbff5191e3ac8777d84062eca84ae406acf97cc157f356int, 0xd6ed6553fe44d296a3726c38ae652bfb11586264f0f8ce19008e218f9c86b2a8da25128c1052ecaddd7f225a139ed84int, 0x9fab046c56103dd13e6705845af1c5915a44ba068581ca02b873fd5c4ff3fd6cabe65cd96b02d12d9bfecdd2e8a8d5fint, 0xc20039486cc3962e0b856185d73238f398eca6b374103747fba8b5ee4b2e59a288faf75d941cdcffe9451db19d4ab27int, x_num_sq_3_6(x), x_num_6(x), x_num_sq_4_5(x), x_num_sq_3_7(x), x_num_7(x), x_num_sq_4_6(x));
    lemma_horner_level(x, 0x1778e7166fcc6db74e0609d307e55412d7f5e4656a8dbf25f1b33289f1b330835336e25ce3107193c5b388641d9b6861int, 0x19ce1069392959c23383ccc6ac8fb59fa7f2c04b831db186fd4e5ef2fc788762d293f7ec7f1a03a455f00013f2544097int, 0x1630c3250d7313ff01d1201bf7a74ab5db3cb17dd952799b9ed3ab9097e68f90a0870d2dcae73d19cd13c1c66f652983int, 0x1751c5939b2e7f75e20828b189a7e2129604a07b1cc169b7fe9984328dd7a38d9ac9e8ef10c102b71bd28bca2b78b16bint, 0x1407a7477cafdef76dfdee22a222eb222d9128055120a94c145305fe2e8e477848cb1f0a35e28d4e1c739131ac5b2a65int, x_num_sq_3_5(x), x_num_5(x), x_num_sq_4_4(x), x_num_sq_3_6(x), x_num_6(x), x_num_sq_4_5(x));
    lemma_horner_level(x, 0x1778e7166fcc6db74e0609d307e55412d7f5e4656a8dbf25f1b33289f1b330835336e25ce3107193c5b388641d9b6861int, 0xa68999a99a9a3682ead6c48f0f3df0ce31fc7219120d46f910492a3900ef84b630f15b8aaeeb14bdad636f839d43c13int, 0xe99726a3199f4436642b4b3e4118e5499db995a1257fb3f086eeb65982fac18985a286f301e77c451154ce9ac8895d9int, 0xa4fa5b0ce8540f4e7a673d010681df7bcb536aac755d694dc833760975c8542ae4ad3ad84cc2e2516bf6a3957f59042int, 0xd2d8caa2bb2c6f25900ac73e2e9441aacd03de10579f4802e6108ff28b58814be71dff0de496e66271fbba1a8a7ca38int, x_num_sq_3_4(x), x_num_4(x), x_num_sq_4_3(x), x_num_sq_3_5(x), x_num_5(x), x_num_sq_4_4(x));
    lemma_horner_level(x, 0x1778e7166fcc6db74e0609d307e55412d7f5e4656a8dbf25f1b33289f1b330835336e25ce3107193c5b388641d9b6861int, 0xdd68ce37d9769e3003002e5b988fadaf2d673b4113f10d8f128046b01349cb14d79da10f82db97e568afa01870dea56int, 0x1778e7166fcc6db74e0609d307e55412d7f5e4656a8dbf25f1b33289f1b330835336e25ce3107193c5b388641d9b6861int, 0x45be2bb9d4cdf65efef5bc634efb24b8d0fe6eba1530771712b2e0b986376baf461be8736f25453368c4b881c2aef88int, 0x152fd82838520d020c76b459610228cef3cd034add1ac44b31b30803f4ce6f005ea08d2df3f0f625cadbcf234b3eedd9int, x_num_sq_3_3(x), x_num_3(x), x_num_sq_4_2(x), x_num_sq_3_4(x), x_num_4(x), x_num_sq_4_3(x));
    lemma_horner_level(x, 0x1778e7166fcc6db74e0609d307e55412d7f5e4656a8dbf25f1b33289f1b330835336e25ce3107193c5b388641d9b6861int, 0x92604dd95bb0e7ed1024c0343b153c196ccb7afc7ace623d7702cf2acde407606ffbe0fa232633e98ba02d26494045int, 0xd54005db97678ec1d1048c5d10a9a1bce032473295983e56878e501ec68e25c958c3e3d2a09729fe0179f9dac9edcb0int, 0x1167a07160885b850afdca00b61447416fdf91d5d3021869e7b7935024153598dcdf47e0ac1737a351348592d8d3cb2int, 0xc07ca8264485597e63c6e4b3b770899978cff614e8d197b83a44daab4440ceab7e203aaefd9b9e21770234de85e5157int, x_num_sq_3_2(x), x_num_2(x), x_num_sq_4_1(x), x_num_sq_3_3(x), x_num_3(x), x_num_sq_4_2(x));
    lemma_horner_level(x, 0x1778e7166fcc6db74e0609d307e55412d7f5e4656a8dbf25f1b33289f1b330835336e25ce3107193c5b388641d9b6861int, 0x1299da6159fa3471bbe84dcc66fa478f4a388fea255a01acf87db9c142f9ba9218989dc0efd150e202c8c692991d45fint, 0x17294ed3e943ab2f0588bab22147a81c7c17e75b2f6a8417f565e33c70d1e86b4838f2a6f318c356e834eef1b3cb83bbint, 0x9976f2f0751f0576beba13eea084ea8d1bd8a6a52d16507a7e31096c821507df7369fa531380095aecb9bd9cd315e78int, 0x14e7ffd64003d6e43361e3310951f033398989107e41febb32367b2fb598fa360def1bab902f5ee593b4ef0c6b4843dcint, x_num_sq_3_1(x), x_num_1(x), x_num_sq_4_0(x), x_num_sq_3_2(x), x_num_2(x), x_num_sq_4_1(x));
    lemma_horner_level(x, 0x1778e7166fcc6db74e0609d307e55412d7f5e4656a8dbf25f1b33289f1b330835336e25ce3107193c5b388641d9b6861int, 0x2db9e005c11bb6a12249e02d880db15a7ade91643855644fa635b19c431c19a2eda1496c9a6fe0d4d21dfd8de7a52dbint, 0x11a05f2b1e833340b809101dd99815856b303e88a2d7005ff2627b56cdb4e2c85610c2d5f2e62d6eaeac1662734649b7int, 0x0int, 0xfe90606be20116afcfc2ab7101ff09c57852d5f0811e2f15e59f1ba2d99ac44366c9e1dc6af082393c727320828da74int, x_num_sq_3_0(x), x_num_0(x), times(x, x_num_sq_4_0(x)), x_num_sq_3_1(x), x_num_1(x), x_num_sq_4_0(x));
    lemma_product_level(x, 0x1778e7166fcc6db74e0609d307e55412d7f5e4656a8dbf25f1b33289f1b330835336e25ce3107193c5b388641d9b6861int, x_num_3(x), x_num_4(x), x_num_0(x), x_num_sq_3_0(x), x_num_sq_4_0(x));
}

pub(crate) proof fn lemma_x_num_sq_step_2(x: int)
    ensures
        congruent(x_num_sq_2_0(x), times(x_num_2(x), x_num_0(x))),
{
    lemma_times_zero(x);
    lemma_x_num_sq_step_3(x);
    lemma_congruent_refl(x_num_sq_3_11(x), 0xd54005db97678ec1d1048c5d10a9a1bce032473295983e56878e501ec68e25c958c3e3d2a09729fe0179f9dac9edcb0int * 0int + x_num_sq_3_11(x));
    lemma_horner_level(x, 0xd54005db97678ec1d1048c5d10a9a1bce032473295983e56878e501ec68e25c958c3e3d2a09729fe0179f9dac9edcb0int, 0x127a2434337c5508327e85269ddc90cf31c12aa4feb11567f20f9ad1e4bd0b9a83a3783682aa81bdd98f65c9ad56e9b7int, 0x6e08c248e260e70bd1e962381edee3d31d79d7e22c837bc23c0bf1bc24c6b68c24b1b80b64d391fa9c8ba2e8ba2d229int, 0x50818c97c9b3f1e07e3a6f71a5d3d81d1576f977256abd353287c374e21f630de733ffe77ab174c8d5b6fb269fe18bint, 0x38658f4d1d765cc3200133ee4c572ce3ab6c80d87c30b9be063acb23a4a488ef6e3809794a34abe6158c28b0574100cint, x_num_sq_2_11(x), x_num_11(x), x_num_sq_3_10(x), x_num_sq_3_11(x), 0int, x_num_sq_3_11(x));
    lemma_horner_level(x, 0xd54005db97678ec1d1048c5d10a9a1bce032473295983e56878e501ec68e25c958c3e3d2a09729fe0179f9dac9edcb0int, 0x182404b4483a87e4dd23ffb495f3f155bf79124e58ea310017ea00fe05bcc2ac9e5a3bcf841afc0cd736cf01deeb1f07int, 0x10321da079ce07e272d8ec09d2565b0dfa7dccdde6787f96d50af36003b14866f69b771f8c285decca67df3f1605fb7bint, 0x8ccbab80f3367a0d2c0c5aee6d87930213e0bbb255ee3cd0a6003acd132a77816fccc985faa3e8ccf3c71ae12bc9b46int, 0x84d0abb8a56a1bd936761dfc73449a8bcb687652d056272cac78d45d06e8228f18233928e24c9c0188ff37d404f3e6dint, x_num_sq_2_10(x), x_num_10(x), x_num_sq_3_9(x), x_num_sq_2_11(x), x_num_11(x), x_num_sq_3_10(x));
    lemma_horner_level(x, 0xd54005db97678ec1d1048c5d10a9a1bce032473295983e56878e501ec68e25c958c3e3d2a09729fe0179f9dac9edcb0int, 0x19aaa07137a4eecc2f87f7aeb60ac2b94cc85ad0e2649832cc88f40eb2cc4c957304b852ed8a45c2e59a5bdf4e77fd3fint, 0x169b1f8e1bcfa7c42e0c37515d138f22dd2ecb803a0c5c99676314baf4bb1b7fa3190b2edc0327797f241067be390c9eint, 0x1b4f09d85a25e14b8ded2251937a732e01cda6674a3eddac064e6be8dc3e6a23463db4d31d413a76658ce005268eed2int, 0xb961ee40014baea3d830e7108b6e1473ca5c108c16d595795d5c0d46609000c1d7f402fbb96300aa9f4efb17d293299int, x_num_sq_2_9(x), x_num_9(x), x_num_sq_3_8(x), x_num_sq_2_10(x), x_num_10(x), x_num_sq_3_9(x));
    lemma_horner_level(x, 0xd54005db97678ec1d1048c5d10a9a1bce032473295983e56878e501ec68e25c958c3e3d2a09729fe0179f9dac9edcb0int, 0x55aac0d1c2b784b9c7799c2dd81431c6652133599906ad30909cd19b16abc9633225c0af6ee0df2e9ad43f6facbea59int, 0x80d3cf1f9a78fc47b90b33563be990dc43b756ce79f5574a2c596c928c5d1de4fa295f296b74e956d71986a8497e317int, 0xab42588abef156a8c8610f4ab9e886c75f694ce2770bed0b0bab0fa4d76a107951c2dea50955cd21db1b54d6efcff5fint, 0x420767e69e6e6d6ca32203234883d131e0e077ca5d8d50fd7d465b9de4f40107fe1e749b048cb53d34cc9392a66ea82int, x_num_sq_2_8(x), x_num_8(x), x_num_sq_3_7(x), x_num_sq_2_9(x), x_num_9(x), x_num_sq_3_8(x));
    lemma_horner_level(x, 0xd54005db97678ec1d1048c5d10a9a1bce032473295983e56878e501ec68e25c958c3e3d2a09729fe0179f9dac9edcb0int, 0x7449d6edf47779f6a897bf28f7ec068089fc57c8d4d335e1a7a5876bfbcf2862971650b9dfcafc2dc0ad4615e7cc45cint, 0x17b81e7701abdbe2e8743884d1117e53356de5ab275b4db1a682c62ef0f2753339b7c8f8c8f475af9ccb5618e3f0c88eint, 0xdec9a52cc294b829c1ef07cc47b4927c8b25f4847516f6c1ecbff5191e3ac8777d84062eca84ae406acf97cc157f356int, 0xc28311af9cbcee2c1c697d1bebe9d45a83ab33cc6e462ec6aad1c2ffc09fadcaa67194dfbfa198468c5089be6f749ceint, x_num_sq_2_7(x), x_num_7(x), x_num_sq_3_6(x), x_num_sq_2_8(x), x_num_8(x), x_num_sq_3_7(x));
    lemma_horner_level(x, 0xd54005db97678ec1d1048c5d10a9a1bce032473295983e56878e501ec68e25c958c3e3d2a09729fe0179f9dac9edcb0int, 0xd65aad56539a412371b47bc835cd7893422d1d1f0dddba9db694a38314135193daee3bfec79fa6683499e6225dfce70int, 0xd6ed6553fe44d296a3726c38ae652bfb11586264f0f8ce19008e218f9c86b2a8da25128c1052ecaddd7f225a139ed84int, 0x19ce1069392959c23383ccc6ac8fb59fa7f2c04b831db186fd4e5ef2fc788762d293f7ec7f1a03a455f00013f2544097int, 0x6e288e954a6400b70336b4c9003c7dfddd34658a620aa556f4572fa4e0805ecb72885ed5232ebb28a9e7283a24c86b5int, x_num_sq_2_6(x), x_num_6(x), x_num_sq_3_5(x), x_num_sq_2_7(x), x_num_7(x), x_num_sq_3_6(x));
    lemma_horner_level(x, 0xd54005db97678ec1d1048c5d10a9a1bce032473295983e56878e501ec68e25c958c3e3d2a09729fe0179f9dac9edcb0int, 0x114bcd0e7aac26ef9855f8c99495d7075779882098cbc13a4f41232832c4159ba349df38a410728437e47001d1fc3d90int, 0x1630c3250d7313ff01d1201bf7a74ab5db3cb17dd952799b9ed3ab9097e68f90a0870d2dcae73d19cd13c1c66f652983int, 0xa68999a99a9a3682ead6c48f0f3df0ce31fc7219120d46f910492a3900ef84b630f15b8aaeeb14bdad636f839d43c13int, 0xb5f9b4b94778572cd1baec7859cb3b0e0c5fc6c42f83372a48e483f3890c04b0aea5768a92a7d0912e13ad4057a55b9int, x_num_sq_2_5(x), x_num_5(x), x_num_sq_3_4(x), x_num_sq_2_6(x), x_num_6(x), x_num_sq_3_5(x));
    lemma_horner_level(x, 0xd54005db97678ec1d1048c5d10a9a1bce032473295983e56878e501ec68e25c958c3e3d2a09729fe0179f9dac9edcb0int, 0x17412793a3823603d28ecd95e0719219e3780091ae0b817dfd4916cc42adbfd786dfd879c61b7b811f5d69b000bb2b10int, 0xe99726a3199f4436642b4b3e4118e5499db995a1257fb3f086eeb65982fac18985a286f301e77c451154ce9ac8895d9int, 0xdd68ce37d9769e3003002e5b988fadaf2d673b4113f10d8f128046b01349cb14d79da10f82db97e568afa01870dea56int, 0x77b9568cbe9961d58cb324ac00ac35ad42137c1142a746afa2c32420f70e32b73c89dfb4c40b1d58465b613282cc162int, x_num_sq_2_4(x), x_num_4(x), x_num_sq_3_3(x), x_num_sq_2_5(x), x_num_5(x), x_num_sq_3_4(x));
    lemma_horner_level(x, 0xd54005db97678ec1d1048c5d10a9a1bce032473295983e56878e501ec68e25c958c3e3d2a09729fe0179f9dac9edcb0int, 0xe46949caedc1789706ce05d14e6041bdb9dd89bc57b3ddc728c69535a74b533120343e984d8ed9e03f8011f0543d8int, 0x1778e7166fcc6db74e0609d307e55412d7f5e4656a8dbf25f1b33289f1b330835336e25ce3107193c5b388641d9b6861int, 0x92604dd95bb0e7ed1024c0343b153c196ccb7afc7ace623d7702cf2acde407606ffbe0fa232633e98ba02d26494045int, 0xc07ca8264485597e63c6e4b3b770899978cff614e8d197b83a44daab4440ceab7e203aaefd9b9e21770234de85e5157int, x_num_sq_2_3(x), x_num_3(x), x_num_sq_3_2(x), x_num_sq_2_4(x), x_num_4(x), x_num_sq_3_3(x));
    lemma_horner_level(x, 0xd54005db97678ec1d1048c5d10a9a1bce032473295983e56878e501ec68e25c958c3e3d2a09729fe0179f9dac9edcb0int, 0xb98df88f486a12b9e129abdb50df3d8edb6fd1b8b03852fed40a9c259326f1a7437ab7b81894ecc251ab650c5ba9d0aint, 0xd54005db97678ec1d1048c5d10a9a1bce032473295983e56878e501ec68e25c958c3e3d2a09729fe0179f9dac9edcb0int, 0x1299da6159fa3471bbe84dcc66fa478f4a388fea255a01acf87db9c142f9ba9218989dc0efd150e202c8c692991d45fint, 0x6d4c7cad146ad215c77bb6acf5852b8f4267625c2016258702f7d434afa633fcc02d37147bd39060f8bb64fb30190ffint, x_num_sq_2_2(x), x_num_2(x), x_num_sq_3_1(x), x_num_sq_2_3(x), x_num_3(x), x_num_sq_3_2(x));
    lemma_horner_level(x, 0xd54005db97678ec1d1048c5d10a9a1bce032473295983e56878e501ec68e25c958c3e3d2a09729fe0179f9dac9edcb0int, 0x17bb4f6a35b84a60ce7ac0582c9ddd6eb3c106535e29200ff62a10214cd75336e5fba9aeafbe73c5bd8cec8aa36635ebint, 0x17294ed3e943ab2f0588bab22147a81c7c17e75b2f6a8417f565e33c70d1e86b4838f2a6f318c356e834eef1b3cb83bbint, 0x2db9e005c11bb6a12249e02d880db15a7ade91643855644fa635b19c431c19a2eda1496c9a6fe0d4d21dfd8de7a52dbint, 0xbdefee6cd2c138fd10397972abe6b4513862286770fa6f02288ef9fe4b4bd89e398f5bfb8c45c7d625be5b22d582480int, x_num_sq_2_1(x), x_num_1(x), x_num_sq_3_0(x), x_num_sq_2_2(x), x_num_2(x), x_num_sq_3_1(x));
    lemma_horner_level(x, 0xd54005db97678ec1d1048c5d10a9a1bce032473295983e56878e501ec68e25c958c3e3d2a09729fe0179f9dac9edcb0int, 0x47e9dd8a3432ff549939fca357eab4bd368011324e52c848742ae3291b8b7d0a0e423d866357547d596284dbd9907c4int, 0x11a05f2b1e833340b809101dd99815856b303e88a2d7005ff2627b56cdb4e2c85610c2d5f2e62d6eaeac1662734649b7int, 0x0int, 0x908c3164173f8d9844490852f0f24f34112c8503f7879ca5f8ebb6caec20e8d31ff8f3786118a516ce20ff2d532be24int, x_num_sq_2_0(x), x_num_0(x), times(x, x_num_sq_3_0(x)), x_num_sq_2_1(x), x_num_1(x), x_num_sq_3_0(x));
    lemma_product_level(x, 0xd54005db97678ec1d1048c5d10a9a1bce032473295983e56878e501ec68e25c958c3e3d2a09729fe0179f9dac9edcb0int, x_num_2(x), x_num_3(x), x_num_0(x), x_num_sq_2_0(x), x_num_sq_3_0(x));
}

pub(crate) proof fn lemma_x_num_sq_step_1(x: int)
    ensures
        congruent(x_num_sq_1_0(x), times(x_num_1(x), x_num_0(x))),
{
    lemma_times_zero(x);
    lemma_x_num_sq_step_2(x);
    lemma_congruent_refl(x_num_sq_2_11(x), 0x17294ed3e943ab2f0588bab22147a81c7c17e75b2f6a8417f565e33c70d1e86b4838f2a6f318c356e834eef1b3cb83bbint * 0int + x_num_sq_2_11(x));
    lemma_horner_level(x, 0x17294ed3e943ab2f0588bab22147a81c7c17e75b2f6a8417f565e33c70d1e86b4838f2a6f318c356e834eef1b3cb83bbint, 0x647957b19c6cb99e00db2e721b130af87729e34641618620732bcd05d875930fe05268bfc3363381013f92e2eafaddeint, 0x6e08c248e260e70bd1e962381edee3d31d79d7e22c837bc23c0bf1bc24c6b68c24b1b80b64d391fa9c8ba2e8ba2d229int, 0x182404b4483a87e4dd23ffb495f3f155bf79124e58ea310017ea00fe05bcc2ac9e5a3bcf841afc0cd736cf01deeb1f07int, 0x62014d8d605339e6b3fa9f819ba174d59f12a24cf2f35f9a4562f66ba660eebb6025dcad463a3cad1825ccfc9fed054int, x_num_sq_1_11(x), x_num_11(x), x_num_sq_2_10(x), x_num_sq_2_11(x), 0int, x_num_sq_2_11(x));
    lemma_horner_level(x, 0x17294ed3e943ab2f0588bab22147a81c7c17e75b2f6a8417f565e33c70d1e86b4838f2a6f318c356e834eef1b3cb83bbint, 0x22f544ecd3790f2cb1a4aa142066eea0c72ed2a81766c3d61aa0b3e8faaaa3d62b5e9666b4d97969492964c6189cb4fint, 0x10321da079ce07e272d8ec09d2565b0dfa7dccdde6787f96d50af36003b14866f69b771f8c285decca67df3f1605fb7bint, 0x19aaa07137a4eecc2f87f7aeb60ac2b94cc85ad0e2649832cc88f40eb2cc4c957304b852ed8a45c2e59a5bdf4e77fd3fint, 0xe6cdafba22a16a51d643cce04ff605be3ed541b0d947b97466b438b4c3ebeeecd69f3a60f721430aed99ad4fcec815bint, x_num_sq_1_10(x), x_num_10(x), x_num_sq_2_9(x), x_num_sq_1_11(x), x_num_11(x), x_num_sq_2_10(x));
    lemma_horner_level(x, 0x17294ed3e943ab2f0588bab22147a81c7c17e75b2f6a8417f565e33c70d1e86b4838f2a6f318c356e834eef1b3cb83bbint, 0x13a9dcee982da96c77092d788b917e6d7492286fe906c91d4c9acc8d60fd5223f34e352996a75d2a85310610c3bbcc7bint, 0x169b1f8e1bcfa7c42e0c37515d138f22dd2ecb803a0c5c99676314baf4bb1b7fa3190b2edc0327797f241067be390c9eint, 0x55aac0d1c2b784b9c7799c2dd81431c6652133599906ad30909cd19b16abc9633225c0af6ee0df2e9ad43f6facbea59int, 0x14227719d1a1f0d6beef48fba2712ebf5d3be1fb8af3d0db4b2e00c3f8404e392b87cb713a870168c35e83c214498dd8int, x_num_sq_1_9(x), x_num_9(x), x_num_sq_2_8(x), x_num_sq_1_10(x), x_num_10(x), x_num_sq_2_9(x));
    lemma_horner_level(x, 0x17294ed3e943ab2f0588bab22147a81c7c17e75b2f6a8417f565e33c70d1e86b4838f2a6f318c356e834eef1b3cb83bbint, 0x13a8326f22bb8297d5c7c6dd048c5d06decdfe203c4fc80784b8ba54d6756d1a60a09e61971877d4a087e4230f94e2baint, 0x80d3cf1f9a78fc47b90b33563be990dc43b756ce79f5574a2c596c928c5d1de4fa295f296b74e956d71986a8497e317int, 0x7449d6edf47779f6a897bf28f7ec068089fc57c8d4d335e1a7a5876bfbcf2862971650b9dfcafc2dc0ad4615e7cc45cint, 0x72be66a8f36cde117e1a7722df356923aea87b3b60d811221f60945d43d8c40b26ceb827559d31b84c59b8abb32994dint, x_num_sq_1_8(x), x_num_8(x), x_num_sq_2_7(x), x_num_sq_1_9(x), x_num_9(x), x_num_sq_2_8(x));
    lemma_horner_level(x, 0x17294ed3e943ab2f0588bab22147a81c7c17e75b2f6a8417f565e33c70d1e86b4838f2a6f318c356e834eef1b3cb83bbint, 0xb1cb33452a9a7b905c0a22e4e6cf956b3d1c1a630b3f347d95e41e9d25e656aac35192c0a3cec242d817d778e2aaa44int, 0x17b81e7701abdbe2e8743884d1117e53356de5ab275b4db1a682c62ef0f2753339b7c8f8c8f475af9ccb5618e3f0c88eint, 0xd65aad56539a412371b47bc835cd7893422d1d1f0dddba9db694a38314135193daee3bfec79fa6683499e6225dfce70int, 0x15204e052b2ad35ae9fe528e586758383d7126c6250f82692b45778abfab4f06791efc2f7bb9e554ff60dde9cf28e9b2int, x_num_sq_1_7(x), x_num_7(x), x_num_sq_2_6(x), x_num_sq_1_8(x), x_num_8(x), x_num_sq_2_7(x));
    lemma_horner_level(x, 0x17294ed3e943ab2f0588bab22147a81c7c17e75b2f6a8417f565e33c70d1e86b4838f2a6f318c356e834eef1b3cb83bbint, 0x3e585a609ef11606c93e1d4dff097fbaeb3a3244aae57f6586ca7f2fbf945250010779d608ad406c2b76b91de3310efint, 0xd6ed6553fe44d296a3726c38ae652bfb11586264f0f8ce19008e218f9c86b2a8da25128c1052ecaddd7f225a139ed84int, 0x114bcd0e7aac26ef9855f8c99495d7075779882098cbc13a4f41232832c4159ba349df38a410728437e47001d1fc3d90int, 0xbf6e5d5082d3f2a21476a0576633744af88401ca971b338293bd0de0983ef9d3cd9b79768b32fd5a1582433ac17a827int, x_num_sq_1_6(x), x_num_6(x), x_num_sq_2_5(x), x_num_sq_1_7(x), x_num_7(x), x_num_sq_2_6(x));
    lemma_horner_level(x, 0x17294ed3e943ab2f0588bab22147a81c7c17e75b2f6a8417f565e33c70d1e86b4838f2a6f318c356e834eef1b3cb83bbint, 0x4e8cc96cf515df709e53744ab79d4370f24d36a16f806a2b26999e975881460243820fd35e9a4053a5b2203b8d97263int, 0x1630c3250d7313ff01d1201bf7a74ab5db3cb17dd952799b9ed3ab9097e68f90a0870d2dcae73d19cd13c1c66f652983int, 0x17412793a3823603d28ecd95e0719219e3780091ae0b817dfd4916cc42adbfd786dfd879c61b7b811f5d69b000bb2b10int, 0x13c3bb5892735bc8ce1b42b01e314015fd7a8995460fc59e2bbd902bd516319ad6e0f119aceda6f8d885f46209cc3d1aint, x_num_sq_1_5(x), x_num_5(x), x_num_sq_2_4(x), x_num_sq_1_6(x), x_num_6(x), x_num_sq_2_5(x));
    lemma_horner_level(x, 0x17294ed3e943ab2f0588bab22147a81c7c17e75b2f6a8417f565e33c70d1e86b4838f2a6f318c356e834eef1b3cb83bbint, 0x11c88a7a3c819852d48f3d429ce19fd90d4c2bf49ddf84e6efd97d19de0ff598dbe1b23dabba4013a08df03f7ee4d89int, 0xe99726a3199f4436642b4b3e4118e5499db995a1257fb3f086eeb65982fac18985a286f301e77c451154ce9ac8895d9int, 0xe46949caedc1789706ce05d14e6041bdb9dd89bc57b3ddc728c69535a74b533120343e984d8ed9e03f8011f0543d8int, 0xd00dceb2f4a231c61b029e700eb85d0a50d342ae15e92ea97a1933dcec7f4b23ca833393cabea63661e3b52494e6476int, x_num_sq_1_4(x), x_num_4(x), x_num_sq_2_3(x), x_num_sq_1_5(x), x_num_5(x), x_num_sq_2_4(x));
    lemma_horner_level(x, 0x17294ed3e943ab2f0588bab22147a81c7c17e75b2f6a8417f565e33c70d1e86b4838f2a6f318c356e834eef1b3cb83bbint, 0x32b0e0002d4541b4de57e5b917549a9109cfbafda87c04314e574c7a540ba459e8a95b25f4e6344967ba6e0221b12f1int, 0x1778e7166fcc6db74e0609d307e55412d7f5e4656a8dbf25f1b33289f1b330835336e25ce3107193c5b388641d9b6861int, 0xb98df88f486a12b9e129abdb50df3d8edb6fd1b8b03852fed40a9c259326f1a7437ab7b81894ecc251ab650c5ba9d0aint, 0x14e7ffd64003d6e43361e3310951f033398989107e41febb32367b2fb598fa360def1bab902f5ee593b4ef0c6b4843dcint, x_num_sq_1_3(x), x_num_3(x), x_num_sq_2_2(x), x_num_sq_1_4(x), x_num_4(x), x_num_sq_2_3(x));
    lemma_horner_level(x, 0x17294ed3e943ab2f0588bab22147a81c7c17e75b2f6a8417f565e33c70d1e86b4838f2a6f318c356e834eef1b3cb83bbint, 0x1299eee9d5def2bd3fb53af73d6f32f05b5cd80b8547d71b8abff287decbeeaf7e713ec7e481e97e73f8f93c68526e50int, 0xd54005db97678ec1d1048c5d10a9a1bce032473295983e56878e501ec68e25c958c3e3d2a09729fe0179f9dac9edcb0int, 0x17bb4f6a35b84a60ce7ac0582c9ddd6eb3c106535e29200ff62a10214cd75336e5fba9aeafbe73c5bd8cec8aa36635ebint, 0xbdefee6cd2c138fd10397972abe6b4513862286770fa6f02288ef9fe4b4bd89e398f5bfb8c45c7d625be5b22d582481int, x_num_sq_1_2(x), x_num_2(x), x_num_sq_2_1(x), x_num_sq_1_3(x), x_num_3(x), x_num_sq_2_2(x));
    lemma_horner_level(x, 0x17294ed3e943ab2f0588bab22147a81c7c17e75b2f6a8417f565e33c70d1e86b4838f2a6f318c356e834eef1b3cb83bbint, 0x18318d2b1d0bd57098d4184f5f264f1e4b9946521a954cd27525faff051ccf03437530cf2aee274e1dccf3091b63a1c8int, 0x17294ed3e943ab2f0588bab22147a81c7c17e75b2f6a8417f565e33c70d1e86b4838f2a6f318c356e834eef1b3cb83bbint, 0x47e9dd8a3432ff549939fca357eab4bd368011324e52c848742ae3291b8b7d0a0e423d866357547d596284dbd9907c4int, 0x14a11b24dad2bf0c69b3521e635a07460215d30052b52245be42f883c11cc6592bc3661a961b0481b7316b84e96ff1bfint, x_num_sq_1_1(x), x_num_1(x), x_num_sq_2_0(x), x_num_sq_1_2(x), x_num_2(x), x_num_sq_2_1(x));
    lemma_horner_level(x, 0x17294ed3e943ab2f0588bab22147a81c7c17e75b2f6a8417f565e33c70d1e86b4838f2a6f318c356e834eef1b3cb83bbint, 0x9a876fc3cb525c11ce283e0e9b84d719f45a99ed408e23d8d66660d573456d52b5d4694f4e4f0bab3bfeb2ad06e9ebcint, 0x11a05f2b1e833340b809101dd99815856b303e88a2d7005ff2627b56cdb4e2c85610c2d5f2e62d6eaeac1662734649b7int, 0x0int, 0xfb3125b010349dda8b4f3462694929f0959333a7baa5a33bd9d5455002c8964519034bb62e08a2b32449aefeb0f9cd3int, x_num_sq_1_0(x), x_num_0(x), times(x, x_num_sq_2_0(x)), x_num_sq_1_1(x), x_num_1(x), x_num_sq_2_0(x));
    lemma_product_level(x, 0x17294ed3e943ab2f0588bab22147a81c7c17e75b2f6a8417f565e33c70d1e86b4838f2a6f318c356e834eef1b3cb83bbint, x_num_1(x), x_num_2(x), x_num_0(x), x_num_sq_1_0(x), x_num_sq_2_0(x));
}

pub(crate) proof fn lemma_x_num_sq_step_0(x: int)
    ensures
        congruent(x_num_sq_0_0(x), times(x_num_0(x), x_num_0(x))),
{
    lemma_times_zero(x);
    lemma_x_num_sq_step_1(x);
    lemma_congruent_refl(x_num_sq_1_11(x), 0x11a05f2b1e833340b809101dd99815856b303e88a2d7005ff2627b56cdb4e2c85610c2d5f2e62d6eaeac1662734649b7int * 0int + x_num_sq_1_11(x));
    lemma_horner_level(x, 0x11a05f2b1e833340b809101dd99815856b303e88a2d7005ff2627b56cdb4e2c85610c2d5f2e62d6eaeac1662734649b7int, 0xb925b75f70f5beab04e8221bf2d29576e649863584a66360747d82c50b409eec94c08a0d8c1f9491deea10fd6daa73fint, 0x6e08c248e260e70bd1e962381edee3d31d79d7e22c837bc23c0bf1bc24c6b68c24b1b80b64d391fa9c8ba2e8ba2d229int, 0x22f544ecd3790f2cb1a4aa142066eea0c72ed2a81766c3d61aa0b3e8faaaa3d62b5e9666b4d97969492964c6189cb4fint, 0x4a95ac15a94f20ce263b818d1e04964defdf2eb02dde27ab259840e7e55eb94302648af0f939dffa6ca129d35c2311dint, x_num_sq_0_11(x), x_num_11(x), x_num_sq_1_10(x), x_num_sq_1_11(x), 0int, x_num_sq_1_11(x));
    lemma_horner_level(x, 0x11a05f2b1e833340b809101dd99815856b303e88a2d7005ff2627b56cdb4e2c85610c2d5f2e62d6eaeac1662734649b7int, 0x14c7ef9b6c7705c27b79dc22364097f1497fbd3d95a3e8fb69397369d557cd3a81a2731ad62819b5965881b96c2062e1int, 0x10321da079ce07e272d8ec09d2565b0dfa7dccdde6787f96d50af36003b14866f69b771f8c285decca67df3f1605fb7bint, 0x13a9dcee982da96c77092d788b917e6d7492286fe906c91d4c9acc8d60fd5223f34e352996a75d2a85310610c3bbcc7bint, 0xafa5e2bec2af3a95120cf9ea44a4c3cf92dcc2f16324fcbd84df61b5327b1760d954cbb2fc5508b0e921f7e3243c495int, x_num_sq_0_10(x), x_num_10(x), x_num_sq_1_9(x), x_num_sq_0_11(x), x_num_11(x), x_num_sq_1_10(x));
    lemma_horner_level(x, 0x11a05f2b1e833340b809101dd99815856b303e88a2d7005ff2627b56cdb4e2c85610c2d5f2e62d6eaeac1662734649b7int, 0xb0a23e320bd5e88429929fd9ed5c85b2671dbe78f37e44959f13413ed4fefc9662be41c98d347f1a86d8b235b5c7286int, 0x169b1f8e1bcfa7c42e0c37515d138f22dd2ecb803a0c5c99676314baf4bb1b7fa3190b2edc0327797f241067be390c9eint, 0x13a8326f22bb8297d5c7c6dd048c5d06decdfe203c4fc80784b8ba54d6756d1a60a09e61971877d4a087e4230f94e2baint, 0xf52b1c82289990450d632a902826e0d2146edd5cc94701bcc388ee9fc90bb01a5d21c6056519f956007cb50abda8972int, x_num_sq_0_9(x), x_num_9(x), x_num_sq_1_8(x), x_num_sq_0_10(x), x_num_10(x), x_num_sq_1_9(x));
    lemma_horner_level(x, 0x11a05f2b1e833340b809101dd99815856b303e88a2d7005ff2627b56cdb4e2c85610c2d5f2e62d6eaeac1662734649b7int, 0x8c786ff5da0738d3f01d50b6490dbc835386e9fed6c9a80ecc84237e150849abbaee37465700f082e770f6e47404d84int, 0x80d3cf1f9a78fc47b90b33563be990dc43b756ce79f5574a2c596c928c5d1de4fa295f296b74e956d71986a8497e317int, 0xb1cb33452a9a7b905c0a22e4e6cf956b3d1c1a630b3f347d95e41e9d25e656aac35192c0a3cec242d817d778e2aaa44int, 0x5752c0e96a99fd843915225129173317d050c6f9090a022f222e8e115091a878d494b83e89efec802729f33292ec393int, x_num_sq_0_8(x), x_num_8(x), x_num_sq_1_7(x), x_num_sq_0_9(x), x_num_9(x), x_num_sq_1_8(x));
    lemma_horner_level(x, 0x11a05f2b1e833340b809101dd99815856b303e88a2d7005ff2627b56cdb4e2c85610c2d5f2e62d6eaeac1662734649b7int, 0x149f4b619d0a81e9cf4ce7a020d03bef796a6d558eabad29b9066ec12eb90a855c95a75b09985c4a2d7ed472afeb2084int, 0x17b81e7701abdbe2e8743884d1117e53356de5ab275b4db1a682c62ef0f2753339b7c8f8c8f475af9ccb5618e3f0c88eint, 0x3e585a609ef11606c93e1d4dff097fbaeb3a3244aae57f6586ca7f2fbf945250010779d608ad406c2b76b91de3310efint, 0x1013dfa11691df9fb75cb54695a9dda45d42352b76f61eb983c9e4d6a0a30c6224d0e5b2f8e016d5e86abca7a00a63c7int, x_num_sq_0_7(x), x_num_7(x), x_num_sq_1_6(x), x_num_sq_0_8(x), x_num_8(x), x_num_sq_1_7(x));
    lemma_horner_level(x, 0x11a05f2b1e833340b809101dd99815856b303e88a2d7005ff2627b56cdb4e2c85610c2d5f2e62d6eaeac1662734649b7int, 0x12326f9f1ae44948f01f5eabee78ad267fe65a9fb292184a625332769998136c41db98982f200dd18d174589a338d9deint, 0xd6ed6553fe44d296a3726c38ae652bfb11586264f0f8ce19008e218f9c86b2a8da25128c1052ecaddd7f225a139ed84int, 0x4e8cc96cf515df709e53744ab79d4370f24d36a16f806a2b26999e975881460243820fd35e9a4053a5b2203b8d97263int, 0x91af3c4551c342104bd988080c538c5122f6c4e49d7d76d4607c872e580af054a060adc37a7e66e53658d785c3711a3int, x_num_sq_0_6(x), x_num_6(x), x_num_sq_1_5(x), x_num_sq_0_7(x), x_num_7(x), x_num_sq_1_6(x));
    lemma_horner_level(x, 0x11a05f2b1e833340b809101dd99815856b303e88a2d7005ff2627b56cdb4e2c85610c2d5f2e62d6eaeac1662734649b7int, 0x124c09bb2b761cfda20498068762a7832d996f5f8f59cc47aee059e559bc80ec0dff7c1f4464c67d317405a4c92808aint, 0x1630c3250d7313ff01d1201bf7a74ab5db3cb17dd952799b9ed3ab9097e68f90a0870d2dcae73d19cd13c1c66f652983int, 0x11c88a7a3c819852d48f3d429ce19fd90d4c2bf49ddf84e6efd97d19de0ff598dbe1b23dabba4013a08df03f7ee4d89int, 0xf0a9981e7ba7ede2078d0727a798506d63332b813c7f1e81bbaa3cfec13ea8258721b44ada006ac01afdb1f86ea7decint, x_num_sq_0_5(x), x_num_5(x), x_num_sq_1_4(x), x_num_sq_0_6(x), x_num_6(x), x_num_sq_1_5(x));
    lemma_horner_level(x, 0x11a05f2b1e833340b809101dd99815856b303e88a2d7005ff2627b56cdb4e2c85610c2d5f2e62d6eaeac1662734649b7int, 0xcc27d2f0a264472b9d11f9a7b7d9851e25a861a2d59254abcc8855e6d620ac395c13557908663da454742b9ef4c7169int, 0xe99726a3199f4436642b4b3e4118e5499db995a1257fb3f086eeb65982fac18985a286f301e77c451154ce9ac8895d9int, 0x32b0e0002d4541b4de57e5b917549a9109cfbafda87c04314e574c7a540ba459e8a95b25f4e6344967ba6e0221b12f1int, 0x9e55bf94bab25629c6a99ad14417579bc09291ae263ef5872da0eda06f2d1e8450b2d962b8dd9e0e6e557d9b07ce1f5int, x_num_sq_0_4(x), x_num_4(x), x_num_sq_1_3(x), x_num_sq_0_5(x), x_num_5(x), x_num_sq_1_4(x));
    lemma_horner_level(x, 0x11a05f2b1e833340b809101dd99815856b303e88a2d7005ff2627b56cdb4e2c85610c2d5f2e62d6eaeac1662734649b7int, 0x15758cea31f0ae2751d9d8fa15f00e06030ac121c8cd2d6085234da1a2fdb049ad4b535eae28e78bc11ad91546ccc12bint, 0x1778e7166fcc6db74e0609d307e55412d7f5e4656a8dbf25f1b33289f1b330835336e25ce3107193c5b388641d9b6861int, 0x1299eee9d5def2bd3fb53af73d6f32f05b5cd80b8547d71b8abff287decbeeaf7e713ec7e481e97e73f8f93c68526e50int, 0xfe90606be20116afcfc2ab7101ff09c57852d5f0811e2f15e59f1ba2d99ac44366c9e1dc6af082393c727320828da74int, x_num_sq_0_3(x), x_num_3(x), x_num_sq_1_2(x), x_num_sq_0_4(x), x_num_4(x), x_num_sq_1_3(x));
    lemma_horner_level(x, 0x11a05f2b1e833340b809101dd99815856b303e88a2d7005ff2627b56cdb4e2c85610c2d5f2e62d6eaeac1662734649b7int, 0x2af191986cf1ecb974c106351594d92ba89fbe04bf566979537d690a02490afc5ad54a8dfcf9c9639641b56d8fcfee1int, 0xd54005db97678ec1d1048c5d10a9a1bce032473295983e56878e501ec68e25c958c3e3d2a09729fe0179f9dac9edcb0int, 0x18318d2b1d0bd57098d4184f5f264f1e4b9946521a954cd27525faff051ccf03437530cf2aee274e1dccf3091b63a1c8int, 0x908c3164173f8d9844490852f0f24f34112c8503f7879ca5f8ebb6caec20e8d31ff8f3786118a516ce20ff2d532be25int, x_num_sq_0_2(x), x_num_2(x), x_num_sq_1_1(x), x_num_sq_0_3(x), x_num_3(x), x_num_sq_1_2(x));
    lemma_horner_level(x, 0x11a05f2b1e833340b809101dd99815856b303e88a2d7005ff2627b56cdb4e2c85610c2d5f2e62d6eaeac1662734649b7int, 0x1350edf8796a4b8239c507c1d3709ae33e8b533da811c47b1acccc1aae68adaa56ba8d29e9c9e175677fd655a0dd3d78int, 0x17294ed3e943ab2f0588bab22147a81c7c17e75b2f6a8417f565e33c70d1e86b4838f2a6f318c356e834eef1b3cb83bbint, 0x9a876fc3cb525c11ce283e0e9b84d719f45a99ed408e23d8d66660d573456d52b5d4694f4e4f0bab3bfeb2ad06e9ebcint, 0xfb3125b010349dda8b4f3462694929f0959333a7baa5a33bd9d5455002c8964519034bb62e08a2b32449aefeb0f9cd3int, x_num_sq_0_1(x), x_num_1(x), x_num_sq_1_0(x), x_num_sq_0_2(x), x_num_2(x), x_num_sq_1_1(x));
    lemma_horner_level(x, 0x11a05f2b1e833340b809101dd99815856b303e88a2d7005ff2627b56cdb4e2c85610c2d5f2e62d6eaeac1662734649b7int, 0x853ba4ee724d0738e345eb00520059a21e98b19f025e906d2d3db32e37dcef6fc62267726aabd6492c0d61bc9d30141int, 0x11a05f2b1e833340b809101dd99815856b303e88a2d7005ff2627b56cdb4e2c85610c2d5f2e62d6eaeac1662734649b7int, 0x0int, 0xbf2a0b2c000f2d9624af0d104ccdc71d35ff04a5ec6d988095aff6175c2cce4b57eed0d986650911e6785b5af209eb0int, x_num_sq_0_0(x), x_num_0(x), times(x, x_num_sq_1_0(x)), x_num_sq_0_1(x), x_num_1(x), x_num_sq_1_0(x));
    lemma_product_level(x, 0x11a05f2b1e833340b809101dd99815856b303e88a2d7005ff2627b56cdb4e2c85610c2d5f2e62d6eaeac1662734649b7int, x_num_0(x), x_num_1(x), x_num_0(x), x_num_sq_0_0(x), x_num_sq_1_0(x));
}

pub(crate) proof fn lemma_x_num_cube_step_11(x: int)
    ensures
        congruent(x_num_cube_11_0(x), times(x_num_11(x), x_num_sq_0_0(x))),
{
    lemma_times_zero(x);
    lemma_congruent_refl(0int, 0x6e08c248e260e70bd1e962381edee3d31d79d7e22c837bc23c0bf1bc24c6b68c24b1b80b64d391fa9c8ba2e8ba2d229int * 0int + 0int);
    lemma_horner_level(x, 0x6e08c248e260e70bd1e962381edee3d31d79d7e22c837bc23c0bf1bc24c6b68c24b1b80b64d391fa9c8ba2e8ba2d229int, 0x30673b1c24bc7c97f094944729554461095cd85335b191fff80dffbbb553b41177f1bb29ff5dc3f24e921b95cfa5796int, 0x1fdb435b0d2d1ccefe075627a716156584802aff4c7d9a81f3e592e0d9b8bca6dac177fe89d19dc463ef09cf258108cint, 0x0int, 0x86cc3883642f05897cf29d37a7816958ef13c0847017b5fb918bf2ca7988684fc7f54a06826829542a089ffc637482int, x_num_cube_11_22(x), x_num_sq_11_11(x), 0int, 0int, 0int, 0int);
    lemma_horner_level(x, 0x6e08c248e260e70bd1e962381edee3d31d79d7e22c837bc23c0bf1bc24c6b68c24b1b80b64d391fa9c8ba2e8ba2d229int, 0x98f3c7a3f888f350c87ca1cadaa541de450dc352488e47f3a846ba8ed1f557da19761012663432c41b6239cde2b34ddint, 0xc84818625900d8e036db43a84800d1ba5b71a4469d4c73cec32af2dad651a2c1afcd9c4aa7abff71742d525027aa711int, 0x0int, 0x34f78ff82876b410fb7757b60659137f90c74f696b2fb912b6c9c583ec839b2ce036605772294170844739bc56a7c94int, x_num_cube_11_21(x), x_num_sq_10_11(x), 0int, x_num_cube_11_22(x), x_num_sq_11_11(x), 0int);
    lemma_horner_level(x, 0x6e08c248e260e70bd1e962381edee3d31d79d7e22c837bc23c0bf1bc24c6b68c24b1b80b64d391fa9c8ba2e8ba2d229int, 0xe34b4b234825d518eeba586335d3f436e6a04f3060b1579c1f79d08a7f995d0a388474f6eba70a50e1fc6e2e1f91707int, 0x2a2c9d7fea4a7c5303fff70ed905757495ade9712ee51341372eb97cb585a4d6311b4e19e773e15b947013cced1e239int, 0x0int, 0xb274d9ea7bf1211b91fb9eec507ca6f3aa03dbc9c450b707425bece77f091259abd2bed7655a77fe38dc5c3f28b24eint, x_num_cube_11_20(x), x_num_sq_9_11(x), 0int, x_num_cube_11_21(x), x_num_sq_10_11(x), 0int);
    lemma_horner_level(x, 0x6e08c248e260e70bd1e962381edee3d31d79d7e22c837bc23c0bf1bc24c6b68c24b1b80b64d391fa9c8ba2e8ba2d229int, 0x19d9e49c4cbc8b769a901e659429b4d05012c34eea758ee862636d4b9e39118630df4f7f642c993eefa0f51862cc4943int, 0x77ca8155129d2bbd927c0937c3d717ec0f2e9faab2fc21e221bed4a2605e77eb8ec93d339b46ee0138bd886b2b6a083int, 0x0int, 0x1fae266f5baa9faabad6c0d9daeed5aa54696bd00d7bcdb8a141470b34fd7ab08b50b97116061065e075d3ae536a528int, x_num_cube_11_19(x), x_num_sq_8_11(x), 0int, x_num_cube_11_20(x), x_num_sq_9_11(x), 0int);
    lemma_horner_level(x, 0x6e08c248e260e70bd1e962381edee3d31d79d7e22c837bc23c0bf1bc24c6b68c24b1b80b64d391fa9c8ba2e8ba2d229int, 0xae2997bd943b76c3fc37f70acbe0fdcfff849d7a97b53e07391a326b09901b7e346c8810f373606b8994ab82e97c089int, 0x10e50bca7606a80778007aa8810dbd635d0e26f78b4cfbb4784cf9d949c1bcdc6edcc5418eb0893aeca6510e05caab5bint, 0x0int, 0x477d05765081b8308769b26374973ac42ec7852644f994f768f116a20333c86762db0fe4bd198a7e9f4f9ee8d2b051eint, x_num_cube_11_18(x), x_num_sq_7_11(x), 0int, x_num_cube_11_19(x), x_num_sq_8_11(x), 0int);
    lemma_horner_level(x, 0x6e08c248e260e70bd1e962381edee3d31d79d7e22c837bc23c0bf1bc24c6b68c24b1b80b64d391fa9c8ba2e8ba2d229int, 0x2a3177189e0069c83263f8fb0c16877a91737d2f2113788f93e6a35ff9d1af3d9b7aa6f275b2c30b893ee72d6efd639int, 0x7093daf78e450be77c82e5f63de46763661d878ffe65ec4f83653fa40f6339077bf8e994a27e30a85f7b447976040edint, 0x0int, 0x1dc5c7a923826478758e84c0105e416cccb9874a0c4544d7ac45172d80e55921b7003dc5fc6d89b1d15142c5258ed34int, x_num_cube_11_17(x), x_num_sq_6_11(x), 0int, x_num_cube_11_18(x), x_num_sq_7_11(x), 0int);
    lemma_horner_level(x, 0x6e08c248e260e70bd1e962381edee3d31d79d7e22c837bc23c0bf1bc24c6b68c24b1b80b64d391fa9c8ba2e8ba2d229int, 0x7c8897d194fa23fd27c465db73c852498b7ccf28b0e41ede36f0f0a89a54336345208bab15855a81127c42943497c61int, 0x5a27730e0a74277ecd9acaa24f6a0020e193ff17b068685fca07d585e3a278a6a96206ce2f07c79f3efb780cdc7c9cdint, 0x0int, 0x17d7a7f2c9a401fb73baeb8a21b23f814a778947da0674766c70169e1e94c0b37b1393c882eac8e44be569cc649fe5cint, x_num_cube_11_16(x), x_num_sq_5_11(x), 0int, x_num_cube_11_17(x), x_num_sq_6_11(x), 0int);
    lemma_horner_level(x, 0x6e08c248e260e70bd1e962381edee3d31d79d7e22c837bc23c0bf1bc24c6b68c24b1b80b64d391fa9c8ba2e8ba2d229int, 0x24924ed9899928f298130f567b8934d897eb080dbd9d846cd7e1745c6a492e6b40d0d939c0a66ffab0d17234a87219int, 0x11492744d209645aa9e1023fe063d9fa5fce16ce7e9f739772098fffae3c96f0b1a2b6ac4c0eaaed7d92fefae39dedd1int, 0x0int, 0x49249db3133251e530261eacf71269b12fd6101b7b3b08d9afc2e8b8d4925cd681a1b273814cdff561a2e46950e4320int, x_num_cube_11_15(x), x_num_sq_4_11(x), 0int, x_num_cube_11_16(x), x_num_sq_5_11(x), 0int);
    lemma_horner_level(x, 0x6e08c248e260e70bd1e962381edee3d31d79d7e22c837bc23c0bf1bc24c6b68c24b1b80b64d391fa9c8ba2e8ba2d229int, 0x12b6972c5b5faf5484f2d9bb774569fde04e41a7c760f7e03c8587556a4999a637e5b34b8fcd64337660e02f45fcd194int, 0x1f05d5da5c280835062eaaa81175bcbe0725e1e7a9bc9f0898562ab66a5f949ff1dbf28b4885c6abe20f658149c0ed7int, 0x0int, 0x83451f1d07024058f6315dc0d148f01981af1b1a140b176a2ff83e413ab42cf53010b4056e1cac18e4c0174b44c691int, x_num_cube_11_14(x), x_num_sq_3_11(x), 0int, x_num_cube_11_15(x), x_num_sq_4_11(x), 0int);
    lemma_horner_level(x, 0x6e08c248e260e70bd1e962381edee3d31d79d7e22c837bc23c0bf1bc24c6b68c24b1b80b64d391fa9c8ba2e8ba2d229int, 0x16eee7cb8113fb6126b5d59bc18c0cf9a4968853fb673aea1f0b29edf3637666bcc03a1cecd266a001d3e11b0e20296dint, 0x127a2434337c5508327e85269ddc90cf31c12aa4feb11567f20f9ad1e4bd0b9a83a3783682aa81bdd98f65c9ad56e9b7int, 0x0int, 0x4e2f24d46bd7176881088c464fcf9ddef89d4450600495d13961c3ff8ca537724ede0521e532ce3ed5f0c1bf29a28a6int, x_num_cube_11_13(x), x_num_sq_2_11(x), 0int, x_num_cube_11_14(x), x_num_sq_3_11(x), 0int);
    lemma_horner_level(x, 0x6e08c248e260e70bd1e962381edee3d31d79d7e22c837bc23c0bf1bc24c6b68c24b1b80b64d391fa9c8ba2e8ba2d229int, 0xe95aafe69c16000673467e6a2c2a1543e96302b65d70f418a0b602cfcdd8367dd2f39fca974cfc390ef1223ba01e5aint, 0x647957b19c6cb99e00db2e721b130af87729e34641618620732bcd05d875930fe05268bfc3363381013f92e2eafaddeint, 0x0int, 0x1a9256a9aea863dd9ee773f3dcd89b3b5cdea5e408d3f928513c3eaf089592cb13205f679b4bb087abb3b8d4578829cint, x_num_cube_11_12(x), x_num_sq_1_11(x), 0int, x_num_cube_11_13(x), x_num_sq_2_11(x), 0int);
    lemma_horner_level(x, 0x6e08c248e260e70bd1e962381edee3d31d79d7e22c837bc23c0bf1bc24c6b68c24b1b80b64d391fa9c8ba2e8ba2d229int, 0xc8f7979b5ef275cd2f2669f9415d65d63d8b11859f43c9baa1e57f06e73eea9807f8120702e195519ee73943ae624a5int, 0xb925b75f70f5beab04e8221bf2d29576e649863584a66360747d82c50b409eec94c08a0d8c1f9491deea10fd6daa73fint, 0x0int, 0x30f6eee8945a60f855ecfe712d2d1cf303c74775d2af2d52a1fb1c3c92d7f740aebe8e4b8443976c65443fbb9e0f756int, x_num_cube_11_11(x), x_num_sq_0_11(x), 0int, x_num_cube_11_12(x), x_num_sq_1_11(x), 0int);
    lemma_horner_level(x, 0x6e08c248e260e70bd1e962381edee3d31d79d7e22c837bc23c0bf1bc24c6b68c24b1b80b64d391fa9c8ba2e8ba2d229int, 0x8c4a6948844a7414ebdfbe7e8263e9ff1287df79135ceffc3c690a1fc91f81700a1df192d94b1ee5e76e15629176e21int, 0x14c7ef9b6c7705c27b79dc22364097f1497fbd3d95a3e8fb69397369d557cd3a81a2731ad62819b5965881b96c2062e1int, 0x0int, 0x57eecdad2a2a68c4af80770b79a9a6e5b5f233cb7712a92e2b437e9364e3a81b87f9709368550d9477f137f517cedb8int, x_num_cube_11_10(x), x_num_sq_0_10(x), 0int, x_num_cube_11_11(x), x_num_sq_0_11(x), 0int);
    lemma_horner_level(x, 0x6e08c248e260e70bd1e962381edee3d31d79d7e22c837bc23c0bf1bc24c6b68c24b1b80b64d391fa9c8ba2e8ba2d229int, 0xb0d3a9fd6eb4eefa57f2b880aa2b885da4425e1176d71753f473b9685715491f244a08f8d976625d94ec3cb664ee78fint, 0xb0a23e320bd5e88429929fd9ed5c85b2671dbe78f37e44959f13413ed4fefc9662be41c98d347f1a86d8b235b5c7286int, 0x0int, 0x2eb68b28bd4fd7f02cd87ee71f09a8a5a905c01ffcb142cc9816048f8f12c5f939d974d618a636c56db6226f86d13b5int, x_num_cube_11_9(x), x_num_sq_0_9(x), 0int, x_num_cube_11_10(x), x_num_sq_0_10(x), 0int);
    lemma_horner_level(x, 0x6e08c248e260e70bd1e962381edee3d31d79d7e22c837bc23c0bf1bc24c6b68c24b1b80b64d391fa9c8ba2e8ba2d229int, 0xd2e9e3f111124d0026b0c42971ee278d1c40304e02a987af246b2aa77e1484a7f07c267f8e9afba1c9058fcae13679bint, 0x8c786ff5da0738d3f01d50b6490dbc835386e9fed6c9a80ecc84237e150849abbaee37465700f082e770f6e47404d84int, 0x0int, 0x252632c431329233d17c1dcee2a8a85581fd98dbb9dc789c3e8cbb1aff371599512bf53accf5ab81d36c27e7ca0df9bint, x_num_cube_11_8(x), x_num_sq_0_8(x), 0int, x_num_cube_11_9(x), x_num_sq_0_9(x), 0int);
    lemma_horner_level(x, 0x6e08c248e260e70bd1e962381edee3d31d79d7e22c837bc23c0bf1bc24c6b68c24b1b80b64d391fa9c8ba2e8ba2d229int, 0xe5ac275fcb1c07198b2a11892fe918c9f78f53411a4fabb42471d0f586648fd87f980528d3bc585c0cdb9d26701c2eaint, 0x149f4b619d0a81e9cf4ce7a020d03bef796a6d558eabad29b9066ec12eb90a855c95a75b09985c4a2d7ed472afeb2084int, 0x0int, 0x5742d52f068552254716deae07ac5cd15880bfd3d00f8e711325cc2f5156eaee7d2f322a78ff68e53f73a4ce03e2eaeint, x_num_cube_11_7(x), x_num_sq_0_7(x), 0int, x_num_cube_11_8(x), x_num_sq_0_8(x), 0int);
    lemma_horner_level(x, 0x6e08c248e260e70bd1e962381edee3d31d79d7e22c837bc23c0bf1bc24c6b68c24b1b80b64d391fa9c8ba2e8ba2d229int, 0x19f08d666e23a3b73da970199d91dd814d6b84c4a4b3b9ef18de982e5d975e0d71799dd16a6f13278b145b8cc61ba4b6int, 0x12326f9f1ae44948f01f5eabee78ad267fe65a9fb292184a625332769998136c41db98982f200dd18d174589a338d9deint, 0x0int, 0x4cffbab229db20f0ed7a28ecab4037a505ec574489d1db2597970c89f1968931bfed5d7d9af9e19cc742bc74f221388int, x_num_cube_11_6(x), x_num_sq_0_6(x), 0int, x_num_cube_11_7(x), x_num_sq_0_7(x), 0int);
    lemma_horner_level(x, 0x6e08c248e260e70bd1e962381edee3d31d79d7e22c837bc23c0bf1bc24c6b68c24b1b80b64d391fa9c8ba2e8ba2d229int, 0x116ace1d061e02d92327efd1d0d25016789120c2b3e28453352b1ce9e3340bfaae74fdd0110e7f92a8918196f60dae8dint, 0x124c09bb2b761cfda20498068762a7832d996f5f8f59cc47aee059e559bc80ec0dff7c1f4464c67d317405a4c92808aint, 0x0int, 0x4d6c0fc9b5c9788e5078fdfe01a1724ceb436d7af6e7df55672573ec53833054dc06487360df5059ad4a24933152a7int, x_num_cube_11_5(x), x_num_sq_0_5(x), 0int, x_num_cube_11_6(x), x_num_sq_0_6(x), 0int);
    lemma_horner_level(x, 0x6e08c248e260e70bd1e962381edee3d31d79d7e22c837bc23c0bf1bc24c6b68c24b1b80b64d391fa9c8ba2e8ba2d229int, 0xd6e0e720ebc901d3b0fe61062f944aa4863f506fc187e473016714254fe64d2898c817efef74269554c3de825f1a6abint, 0xcc27d2f0a264472b9d11f9a7b7d9851e25a861a2d59254abcc8855e6d620ac395c13557908663da454742b9ef4c7169int, 0x0int, 0x35fdd676a5a845994946572e788e276fa467c53169249555a1fdf91914a96f2235f86b3b834777f8aeaa5beecc5ef72int, x_num_cube_11_4(x), x_num_sq_0_4(x), 0int, x_num_cube_11_5(x), x_num_sq_0_5(x), 0int);
    lemma_horner_level(x, 0x6e08c248e260e70bd1e962381edee3d31d79d7e22c837bc23c0bf1bc24c6b68c24b1b80b64d391fa9c8ba2e8ba2d229int, 0xd126d7c6d52562afb9b266923aaaeae8eef14009e614d5fb553bdb6b4cc18128501489ecfd99820c1436db1e5149177int, 0x15758cea31f0ae2751d9d8fa15f00e06030ac121c8cd2d6085234da1a2fdb049ad4b535eae28e78bc11ad91546ccc12bint, 0x0int, 0x5acd6fc595f62f320399cd20191ff7a2f599683a53c9bde494aec550f99d5c3168ea1af4119a0ac5d621353e868ed44int, x_num_cube_11_3(x), x_num_sq_0_3(x), 0int, x_num_cube_11_4(x), x_num_sq_0_4(x), 0int);
    lemma_horner_level(x, 0x6e08c248e260e70bd1e962381edee3d31d79d7e22c837bc23c0bf1bc24c6b68c24b1b80b64d391fa9c8ba2e8ba2d229int, 0x5adb1ee12a329e183cd5bcbc79d33fd4f6bdde3020731e9f5e209a876c81260d71e51cad766d90b0d8583e42c67a9int, 0x2af191986cf1ecb974c106351594d92ba89fbe04bf566979537d690a02490afc5ad54a8dfcf9c9639641b56d8fcfee1int, 0x0int, 0xb5b63dc254653c3079ab7978f3a67fa9ed7bbc6040e63d3ebc41350ed9024c1ae3ca395aecdb2161b0b07c858cf520int, x_num_cube_11_2(x), x_num_sq_0_2(x), 0int, x_num_cube_11_3(x), x_num_sq_0_3(x), 0int);
    lemma_horner_level(x, 0x6e08c248e260e70bd1e962381edee3d31d79d7e22c837bc23c0bf1bc24c6b68c24b1b80b64d391fa9c8ba2e8ba2d229int, 0x2bd128da56230e1d52638e521cf4fc6d7b41f733f9f53e139002ff6cba02ac584d10348268f49cc0cf4435baed1225cint, 0x1350edf8796a4b8239c507c1d3709ae33e8b533da811c47b1acccc1aae68adaa56ba8d29e9c9e175677fd655a0dd3d78int, 0x0int, 0x51bbffe027d6ef1c75812fa22c2cdfca0688c7e5287df5572fd098c58704fc77e9b1efc464a8c05a91fb1474e827194int, x_num_cube_11_1(x), x_num_sq_0_1(x), 0int, x_num_cube_11_2(x), x_num_sq_0_2(x), 0int);
    lemma_horner_level(x, 0x6e08c248e260e70bd1e962381edee3d31d79d7e22c837bc23c0bf1bc24c6b68c24b1b80b64d391fa9c8ba2e8ba2d229int, 0xd64ada0ddc93ec2432a1b7a59885cd74f4349b25acbe790ad18a6dc6b20797c37e276cb6c1b86da9bc19c373ce82f43int, 0x853ba4ee724d0738e345eb00520059a21e98b19f025e906d2d3db32e37dcef6fc62267726aabd6492c0d61bc9d30141int, 0x0int, 0x233c3414bf058fa97db12b1b96be817d63111beecff7284fa6692d4558d2c27ee1e30415cbd05a859966fa1cb970272int, x_num_cube_11_0(x), x_num_sq_0_0(x), times(x, 0int), x_num_cube_11_1(x), x_num_sq_0_1(x), 0int);
    lemma_times_zero(x_num_sq_0_0(x));
    lemma_congruent_refl(0int, times(0int, x_num_sq_0_0(x)));
    lemma_product_level(x, 0x6e08c248e260e70bd1e962381edee3d31d79d7e22c837bc23c0bf1bc24c6b68c24b1b80b64d391fa9c8ba2e8ba2d229int, x_num_11(x), 0int, x_num_sq_0_0(x), x_num_cube_11_0(x), 0int);
}

pub(crate) proof fn lemma_x_num_cube_step_10(x: int)
    ensures
        congruent(x_num_cube_10_0(x), times(x_num_10(x), x_num_sq_0_0(x))),
{
    lemma_times_zero(x);
    lemma_x_num_cube_step_11(x);
    lemma_congruent_refl(x_num_cube_11_22(x), 0x10321da079ce07e272d8ec09d2565b0dfa7dccdde6787f96d50af36003b14866f69b771f8c285decca67df3f1605fb7bint * 0int + x_num_cube_11_22(x));
    lemma_horner_level(x, 0x10321da079ce07e272d8ec09d2565b0dfa7dccdde6787f96d50af36003b14866f69b771f8c285decca67df3f1605fb7bint, 0x15651c2428ce3826d3ddb4fe2d9a7c1243da48d3d0acd5f242e382ce856852a630d118260eae4c28591b56b4d40f9f6int, 0x1fdb435b0d2d1ccefe075627a716156584802aff4c7d9a81f3e592e0d9b8bca6dac177fe89d19dc463ef09cf258108cint, 0x98f3c7a3f888f350c87ca1cadaa541de450dc352488e47f3a846ba8ed1f557da19761012663432c41b6239cde2b34ddint, 0x13d73613ad3974ee2cc544e62d3ad7b9239e41867574323422974d927da0296aacae93a553c48dd9acd2f7b730f5681int, x_num_cube_10_22(x), x_num_sq_11_11(x), x_num_cube_11_21(x), x_num_cube_11_22(x), 0int, x_num_cube_11_22(x));
    lemma_horner_level(x, 0x10321da079ce07e272d8ec09d2565b0dfa7dccdde6787f96d50af36003b14866f69b771f8c285decca67df3f1605fb7bint, 0x9ba5bf636bdbebe3620e3aa008fb753dd7861aa4573464254e0ac539bda4a299a898f2a6eb215104cb868a1739b062int, 0xc84818625900d8e036db43a84800d1ba5b71a4469d4c73cec32af2dad651a2c1afcd9c4aa7abff71742d525027aa711int, 0xe34b4b234825d518eeba586335d3f436e6a04f3060b1579c1f79d08a7f995d0a388474f6eba70a50e1fc6e2e1f91707int, 0x7cbcf944aa7c2f32cabf02e36e85147d1de34f6863a93bfcd5f1faef420c300e2d09945c2fa0776b76a495de8e10470int, x_num_cube_10_21(x), x_num_sq_10_11(x), x_num_cube_11_20(x), x_num_cube_10_22(x), x_num_sq_11_11(x), x_num_cube_11_21(x));
    lemma_horner_level(x, 0x10321da079ce07e272d8ec09d2565b0dfa7dccdde6787f96d50af36003b14866f69b771f8c285decca67df3f1605fb7bint, 0xe6d02b643143560ac1e4acca9605f270b9bd5508c7193df85a4e13b0adcc2ea34e8b866ee6c980dedf17a671a3a90c0int, 0x2a2c9d7fea4a7c5303fff70ed905757495ade9712ee51341372eb97cb585a4d6311b4e19e773e15b947013cced1e239int, 0x19d9e49c4cbc8b769a901e659429b4d05012c34eea758ee862636d4b9e39118630df4f7f642c993eefa0f51862cc4943int, 0x1a4448352865f7ca754aae9fbaa43179647c3b0fdad3546884cf2b131324034920773dfcc329de6046773742aaee6b2int, x_num_cube_10_20(x), x_num_sq_9_11(x), x_num_cube_11_19(x), x_num_cube_10_21(x), x_num_sq_10_11(x), x_num_cube_11_20(x));
    lemma_horner_level(x, 0x10321da079ce07e272d8ec09d2565b0dfa7dccdde6787f96d50af36003b14866f69b771f8c285decca67df3f1605fb7bint, 0x13028aa875fe5600c160cfd505a57813c9b6558602a25bb283dff7f36a37dba888e13aeead6ced9cae522f4b95f4b57int, 0x77ca8155129d2bbd927c0937c3d717ec0f2e9faab2fc21e221bed4a2605e77eb8ec93d339b46ee0138bd886b2b6a083int, 0xae2997bd943b76c3fc37f70acbe0fdcfff849d7a97b53e07391a326b09901b7e346c8810f373606b8994ab82e97c089int, 0x4a9b86988f2b9dccc0e8cc984c2d0bfb6ae98d7d55855fb1a6f3bdfd3d8b3b9ee04ad4c46e65b66a1378f07641e0f69int, x_num_cube_10_19(x), x_num_sq_8_11(x), x_num_cube_11_18(x), x_num_cube_10_20(x), x_num_sq_9_11(x), x_num_cube_11_19(x));
    lemma_horner_level(x, 0x10321da079ce07e272d8ec09d2565b0dfa7dccdde6787f96d50af36003b14866f69b771f8c285decca67df3f1605fb7bint, 0x81e2c1d7dba3d4c4e2a3f2cc0e8ced5d5adf4ccf265a51ab84f8ca3cb83541fa609a863f4d506c65a7209eb1f01e19eint, 0x10e50bca7606a80778007aa8810dbd635d0e26f78b4cfbb4784cf9d949c1bcdc6edcc5418eb0893aeca6510e05caab5bint, 0x2a3177189e0069c83263f8fb0c16877a91737d2f2113788f93e6a35ff9d1af3d9b7aa6f275b2c30b893ee72d6efd639int, 0xa85b2e54fc06a921081ca45a29e9bd81afd272e031346fb6737d26072f72f9597dd47e61727c13e90695455aa4286fcint, x_num_cube_10_18(x), x_num_sq_7_11(x), x_num_cube_11_17(x), x_num_cube_10_19(x), x_num_sq_8_11(x), x_num_cube_11_18(x));
    lemma_horner_level(x, 0x10321da079ce07e272d8ec09d2565b0dfa7dccdde6787f96d50af36003b14866f69b771f8c285decca67df3f1605fb7bint, 0x17bbe4762730fb594eb7a612387648aef1017e59c1a4b93c37da5b81c02448df11c83833f592de08e49debd8034f57b9int, 0x7093daf78e450be77c82e5f63de46763661d878ffe65ec4f83653fa40f6339077bf8e994a27e30a85f7b447976040edint, 0x7c8897d194fa23fd27c465db73c852498b7ccf28b0e41ede36f0f0a89a54336345208bab15855a81127c42943497c61int, 0x461d68142b5b3f2d9153b96645e0118917f82ea8bb9847efde55d24cd334c439b43f8a56498b07b929108de191d2095int, x_num_cube_10_17(x), x_num_sq_6_11(x), x_num_cube_11_16(x), x_num_cube_10_18(x), x_num_sq_7_11(x), x_num_cube_11_17(x));
    lemma_horner_level(x, 0x10321da079ce07e272d8ec09d2565b0dfa7dccdde6787f96d50af36003b14866f69b771f8c285decca67df3f1605fb7bint, 0x125a7855f3c8a2203faf02a1806eb93f7da06fa293724202d6f00172cab33bec84bbafe9f107b29b359760c899820d30int, 0x5a27730e0a74277ecd9acaa24f6a0020e193ff17b068685fca07d585e3a278a6a96206ce2f07c79f3efb780cdc7c9cdint, 0x24924ed9899928f298130f567b8934d897eb080dbd9d846cd7e1745c6a492e6b40d0d939c0a66ffab0d17234a87219int, 0x382633b365927cd44ce32007357f07bdd6dd587f9d9032442aba81c029beeaea8dd1f0dde026cecb863c63ed03c0c38int, x_num_cube_10_16(x), x_num_sq_5_11(x), x_num_cube_11_15(x), x_num_cube_10_17(x), x_num_sq_6_11(x), x_num_cube_11_16(x));
    lemma_horner_level(x, 0x10321da079ce07e272d8ec09d2565b0dfa7dccdde6787f96d50af36003b14866f69b771f8c285decca67df3f1605fb7bint, 0x15fdfe06905fff366311adc38348bf02707a99871d9ca9c8491e46e6fa62f7c7dfe69157416b0b7552bae10e4ed9011cint, 0x11492744d209645aa9e1023fe063d9fa5fce16ce7e9f739772098fffae3c96f0b1a2b6ac4c0eaaed7d92fefae39dedd1int, 0x12b6972c5b5faf5484f2d9bb774569fde04e41a7c760f7e03c8587556a4999a637e5b34b8fcd64337660e02f45fcd194int, 0xac40c0b989dd7764e15fc03a55a2baca1f06f1070ca0ed5e41ac216ab561a2bbab90fef16c03a082d6a9ce1527afca9int, x_num_cube_10_15(x), x_num_sq_4_11(x), x_num_cube_11_14(x), x_num_cube_10_16(x), x_num_sq_5_11(x), x_num_cube_11_15(x));
    lemma_horner_level(x, 0x10321da079ce07e272d8ec09d2565b0dfa7dccdde6787f96d50af36003b14866f69b771f8c285decca67df3f1605fb7bint, 0x1397a5257fb8e942e9f6de6e059aef0e307652800e0ad2e2d3fb25565f23b31c6d76feedbe069ebfc35bde8c88c28faint, 0x1f05d5da5c280835062eaaa81175bcbe0725e1e7a9bc9f0898562ab66a5f949ff1dbf28b4885c6abe20f658149c0ed7int, 0x16eee7cb8113fb6126b5d59bc18c0cf9a4968853fb673aea1f0b29edf3637666bcc03a1cecd266a001d3e11b0e20296dint, 0x13524914a2fe6a50fc025d9c6908324f0c1ed9db942ba01f9994313e79909a6b5e7d98d6a2aaa767bbd7a0ba62ccc40int, x_num_cube_10_14(x), x_num_sq_3_11(x), x_num_cube_11_13(x), x_num_cube_10_15(x), x_num_sq_4_11(x), x_num_cube_11_14(x));
    lemma_horner_level(x, 0x10321da079ce07e272d8ec09d2565b0dfa7dccdde6787f96d50af36003b14866f69b771f8c285decca67df3f1605fb7bint, 0x17bbec4a4467de8838ea8d8cf52c50cb7d7cdc282af93c929ad08f0a6a6504d5164f1b245f46102a95ab2cd7f9d64c28int, 0x127a2434337c5508327e85269ddc90cf31c12aa4feb11567f20f9ad1e4bd0b9a83a3783682aa81bdd98f65c9ad56e9b7int, 0xe95aafe69c16000673467e6a2c2a1543e96302b65d70f418a0b602cfcdd8367dd2f39fca974cfc390ef1223ba01e5aint, 0xb81ff7225a7ea4a012f1c2db31ca85eec5595a07f2f49d5a8729d9264494636d81ddf4606cbac0122bc560fc32d9e5dint, x_num_cube_10_13(x), x_num_sq_2_11(x), x_num_cube_11_12(x), x_num_cube_10_14(x), x_num_sq_3_11(x), x_num_cube_11_13(x));
    lemma_horner_level(x, 0x10321da079ce07e272d8ec09d2565b0dfa7dccdde6787f96d50af36003b14866f69b771f8c285decca67df3f1605fb7bint, 0x908d58af9ac73a092b16a1ef778d73fe36b947e00def739824d4589a8761af5a6ac1a727bcf801722f20aa40ce7b0b0int, 0x647957b19c6cb99e00db2e721b130af87729e34641618620732bcd05d875930fe05268bfc3363381013f92e2eafaddeint, 0xc8f7979b5ef275cd2f2669f9415d65d63d8b11859f43c9baa1e57f06e73eea9807f8120702e195519ee73943ae624a5int, 0x3e939c168fdec862e65f85e2565e7433544502e3d5e93666713cd9de7b745aa46d794ee0e85e32d3242be36f67df6ddint, x_num_cube_10_12(x), x_num_sq_1_11(x), x_num_cube_11_11(x), x_num_cube_10_13(x), x_num_sq_2_11(x), x_num_cube_11_12(x));
    lemma_horner_level(x, 0x10321da079ce07e272d8ec09d2565b0dfa7dccdde6787f96d50af36003b14866f69b771f8c285decca67df3f1605fb7bint, 0x2683fec460e154d9f45d9cf383feef80ef2155c3abfc784e4dc33667c3a88690bc2027123af42831f6c79da6ea88e50int, 0xb925b75f70f5beab04e8221bf2d29576e649863584a66360747d82c50b409eec94c08a0d8c1f9491deea10fd6daa73fint, 0x8c4a6948844a7414ebdfbe7e8263e9ff1287df79135ceffc3c690a1fc91f81700a1df192d94b1ee5e76e15629176e21int, 0x734ff4e5d88cceb8811405d2b322c3e2374d5419014048ba2b102901a7f6fb61c1b7a3c1f79d5359482190d115b0042int, x_num_cube_10_11(x), x_num_sq_0_11(x), x_num_cube_11_10(x), x_num_cube_10_12(x), x_num_sq_1_11(x), x_num_cube_11_11(x));
    lemma_horner_level(x, 0x10321da079ce07e272d8ec09d2565b0dfa7dccdde6787f96d50af36003b14866f69b771f8c285decca67df3f1605fb7bint, 0x74065c19aa6c43ab40048335bf20c9016bc193ca6735b545c2bfb2305be0e45713539bb39a6a867d89926953dea8481int, 0x14c7ef9b6c7705c27b79dc22364097f1497fbd3d95a3e8fb69397369d557cd3a81a2731ad62819b5965881b96c2062e1int, 0xb0d3a9fd6eb4eefa57f2b880aa2b885da4425e1176d71753f473b9685715491f244a08f8d976625d94ec3cb664ee78fint, 0xcf1547fe78d879e40aafc7374e7901a6adb8aefeb504f4b2483e611e7ad01216bfa0361649eae5c1629cbd0e45d807bint, x_num_cube_10_10(x), x_num_sq_0_10(x), x_num_cube_11_9(x), x_num_cube_10_11(x), x_num_sq_0_11(x), x_num_cube_11_10(x));
    lemma_horner_level(x, 0x10321da079ce07e272d8ec09d2565b0dfa7dccdde6787f96d50af36003b14866f69b771f8c285decca67df3f1605fb7bint, 0x1301e19a0b2424a6865686a7f26eedee1b17fea1000b3785c5a77249f8fa8b3cd8af74031010fc91f60caaa00bd92f33int, 0xb0a23e320bd5e88429929fd9ed5c85b2671dbe78f37e44959f13413ed4fefc9662be41c98d347f1a86d8b235b5c7286int, 0xd2e9e3f111124d0026b0c42971ee278d1c40304e02a987af246b2aa77e1484a7f07c267f8e9afba1c9058fcae13679bint, 0x6e028ce2871f5cea61410e3309fa81ff1738d6d5c5e1458ffdb3e7dec0b76d42b06fa15e50bffbf1d5f2baaa803e25eint, x_num_cube_10_9(x), x_num_sq_0_9(x), x_num_cube_11_8(x), x_num_cube_10_10(x), x_num_sq_0_10(x), x_num_cube_11_9(x));
    lemma_horner_level(x, 0x10321da079ce07e272d8ec09d2565b0dfa7dccdde6787f96d50af36003b14866f69b771f8c285decca67df3f1605fb7bint, 0x8038841d4d170f9e96eab8a8bb9db20b60bc5672b3ecd6b24d2ac7c33cd5bd8ad5a59b60f04b2010d867b9373e640baint, 0x8c786ff5da0738d3f01d50b6490dbc835386e9fed6c9a80ecc84237e150849abbaee37465700f082e770f6e47404d84int, 0xe5ac275fcb1c07198b2a11892fe918c9f78f53411a4fabb42471d0f586648fd87f980528d3bc585c0cdb9d26701c2eaint, 0x577ca90954754ac82e7a960c57a42b418fa0d3b973a29192228b4614147e02ab997b1a21bb6a0d9d594110dc99385d4int, x_num_cube_10_8(x), x_num_sq_0_8(x), x_num_cube_11_7(x), x_num_cube_10_9(x), x_num_sq_0_9(x), x_num_cube_11_8(x));
    lemma_horner_level(x, 0x10321da079ce07e272d8ec09d2565b0dfa7dccdde6787f96d50af36003b14866f69b771f8c285decca67df3f1605fb7bint, 0x167816651465a2147f59540952bae85a0124ac458b3b03f5987aaf313ad800bc1c7e1059de20e064131001164dad9f9bint, 0x149f4b619d0a81e9cf4ce7a020d03bef796a6d558eabad29b9066ec12eb90a855c95a75b09985c4a2d7ed472afeb2084int, 0x19f08d666e23a3b73da970199d91dd814d6b84c4a4b3b9ef18de982e5d975e0d71799dd16a6f13278b145b8cc61ba4b6int, 0xcd8049a67ced6d66b33136ff7c065ca4cc7cca7e690133e8d61b1d40f65c2b608b5b71d61b18504236439ebb7293195int, x_num_cube_10_7(x), x_num_sq_0_7(x), x_num_cube_11_6(x), x_num_cube_10_8(x), x_num_sq_0_8(x), x_num_cube_11_7(x));
    lemma_horner_level(x, 0x10321da079ce07e272d8ec09d2565b0dfa7dccdde6787f96d50af36003b14866f69b771f8c285decca67df3f1605fb7bint, 0x17ded791a9a96b8994e1371959a5d9a898d6e8371bca5305c7fd7efe3ca8ae4b5db58e7807179e0454068af6aa24c89dint, 0x12326f9f1ae44948f01f5eabee78ad267fe65a9fb292184a625332769998136c41db98982f200dd18d174589a338d9deint, 0x116ace1d061e02d92327efd1d0d25016789120c2b3e28453352b1ce9e3340bfaae74fdd0110e7f92a8918196f60dae8dint, 0xb5556b60f5fb039f649619760d8585e6cb143c3b911e2e39c84ad1efa9bb9eef4ad5df8e057d6b55ea54a181a52b8ceint, x_num_cube_10_6(x), x_num_sq_0_6(x), x_num_cube_11_5(x), x_num_cube_10_7(x), x_num_sq_0_7(x), x_num_cube_11_6(x));
    lemma_horner_level(x, 0x10321da079ce07e272d8ec09d2565b0dfa7dccdde6787f96d50af36003b14866f69b771f8c285decca67df3f1605fb7bint, 0x144bfa996c89c96565b7ea05e5c03e50c3c346294eac0f6c62e0479e703e1b445dafe2c8eaac2de22695d0b8095ea0d6int, 0x124c09bb2b761cfda20498068762a7832d996f5f8f59cc47aee059e559bc80ec0dff7c1f4464c67d317405a4c92808aint, 0xd6e0e720ebc901d3b0fe61062f944aa4863f506fc187e473016714254fe64d2898c817efef74269554c3de825f1a6abint, 0xb6548b3a6c0666354fb608737a7b9b46c1060b087a0a884f182cbac3b4d2c70da4ac842ab1fe66cddf6e07ff794269int, x_num_cube_10_5(x), x_num_sq_0_5(x), x_num_cube_11_4(x), x_num_cube_10_6(x), x_num_sq_0_6(x), x_num_cube_11_5(x));
    lemma_horner_level(x, 0x10321da079ce07e272d8ec09d2565b0dfa7dccdde6787f96d50af36003b14866f69b771f8c285decca67df3f1605fb7bint, 0x214917c5819d0f3a302d9ef179cc817d9e3f48d25da78fc9d7ef8a863259aa415ae2c9b9860a6afa385d7e634b757efint, 0xcc27d2f0a264472b9d11f9a7b7d9851e25a861a2d59254abcc8855e6d620ac395c13557908663da454742b9ef4c7169int, 0xd126d7c6d52562afb9b266923aaaeae8eef14009e614d5fb553bdb6b4cc18128501489ecfd99820c1436db1e5149177int, 0x7f26a2da7b5ae8d043da464b70bc5d452253d8ae891e67bb6e0f3e4e6b06b317fe2daf0750955a875a13f768cf4fdf1int, x_num_cube_10_4(x), x_num_sq_0_4(x), x_num_cube_11_3(x), x_num_cube_10_5(x), x_num_sq_0_5(x), x_num_cube_11_4(x));
    lemma_horner_level(x, 0x10321da079ce07e272d8ec09d2565b0dfa7dccdde6787f96d50af36003b14866f69b771f8c285decca67df3f1605fb7bint, 0xaa48a76516e669b92934ec6ad95cb0a1f366fdc7b21fa4bec78cba0dd003cdb39a5ea5a24f053af9767ca468d293b04int, 0x15758cea31f0ae2751d9d8fa15f00e06030ac121c8cd2d6085234da1a2fdb049ad4b535eae28e78bc11ad91546ccc12bint, 0x5adb1ee12a329e183cd5bcbc79d33fd4f6bdde3020731e9f5e209a876c81260d71e51cad766d90b0d8583e42c67a9int, 0xd5d75a7b734a27f13e4ddf5757744829937017e30268c9cdb83b8b9a88f1df6850666697f2a37f63841c7f92dca6feaint, x_num_cube_10_3(x), x_num_sq_0_3(x), x_num_cube_11_2(x), x_num_cube_10_4(x), x_num_sq_0_4(x), x_num_cube_11_3(x));
    lemma_horner_level(x, 0x10321da079ce07e272d8ec09d2565b0dfa7dccdde6787f96d50af36003b14866f69b771f8c285decca67df3f1605fb7bint, 0x130982028f1011e8f1b1b24ed7b5ae0be1e637da9c68e00c3a7d92c8b19d94c35d7984437ef0b57c9dc5298da59b3eddint, 0x2af191986cf1ecb974c106351594d92ba89fbe04bf566979537d690a02490afc5ad54a8dfcf9c9639641b56d8fcfee1int, 0x2bd128da56230e1d52638e521cf4fc6d7b41f733f9f53e139002ff6cba02ac584d10348268f49cc0cf4435baed1225cint, 0x1abef28b51a0097e43a8d52526778c7111c03b3bb65de1243a185d8da77028b866aa0ae62a51ce5c7a11c7cd8fdddceint, x_num_cube_10_2(x), x_num_sq_0_2(x), x_num_cube_11_1(x), x_num_cube_10_3(x), x_num_sq_0_3(x), x_num_cube_11_2(x));
    lemma_horner_level(x, 0x10321da079ce07e272d8ec09d2565b0dfa7dccdde6787f96d50af36003b14866f69b771f8c285decca67df3f1605fb7bint, 0xb403935c08f99b5256ddbe8aee0aeeab175fe8cfa9150bfd3a653c53875efd342c543a83387c7b91473515790dafe1dint, 0x1350edf8796a4b8239c507c1d3709ae33e8b533da811c47b1acccc1aae68adaa56ba8d29e9c9e175677fd655a0dd3d78int, 0xd64ada0ddc93ec2432a1b7a59885cd74f4349b25acbe790ad18a6dc6b20797c37e276cb6c1b86da9bc19c373ce82f43int, 0xc07c55885d3bfa80827afcd3f6836855b35096d372acb9b8c32c5b3b07918cd0ea294fc394bfa85751874eb544d256aint, x_num_cube_10_1(x), x_num_sq_0_1(x), x_num_cube_11_0(x), x_num_cube_10_2(x), x_num_sq_0_2(x), x_num_cube_11_1(x));
    lemma_horner_level(x, 0x10321da079ce07e272d8ec09d2565b0dfa7dccdde6787f96d50af36003b14866f69b771f8c285decca67df3f1605fb7bint, 0x7af22d02ac0230f362482e7d51fdd54681447074f7dcc9efecbee4694ccf0e03fb82ff5d4ab523e24fa5eed3a080626int, 0x853ba4ee724d0738e345eb00520059a21e98b19f025e906d2d3db32e37dcef6fc62267726aabd6492c0d61bc9d30141int, 0x0int, 0x52fab70ae31818d162d26c7fe9d0273e07d0eeaccba81606695c71f59ba12d3014f95255eddd1dc2c1ae563a3caed3fint, x_num_cube_10_0(x), x_num_sq_0_0(x), times(x, x_num_cube_11_0(x)), x_num_cube_10_1(x), x_num_sq_0_1(x), x_num_cube_11_0(x));
    lemma_product_level(x, 0x10321da079ce07e272d8ec09d2565b0dfa7dccdde6787f96d50af36003b14866f69b771f8c285decca67df3f1605fb7bint, x_num_10(x), x_num_11(x), x_num_sq_0_0(x), x_num_cube_10_0(x), x_num_cube_11_0(x));
}

pub(crate) proof fn lemma_x_num_cube_step_9(x: int)
    ensures
        congruent(x_num_cube_9_0(x), times(x_num_9(x), x_num_sq_0_0(x))),
{
    lemma_times_zero(x);
    lemma_x_num_cube_step_10(x);
    lemma_congruent_refl(x_num_cube_10_22(x), 0x169b1f8e1bcfa7c42e0c37515d138f22dd2ecb803a0c5c99676314baf4bb1b7fa3190b2edc0327797f241067be390c9eint * 0int + x_num_cube_10_22(x));
    lemma_horner_level(x, 0x169b1f8e1bcfa7c42e0c37515d138f22dd2ecb803a0c5c99676314baf4bb1b7fa3190b2edc0327797f241067be390c9eint, 0x49bff5aa392b14782f35ce30db9c0d4a813556902e872b693a809322b9d2e4d6639a831e3e72d789fb0ba11bae62ae4int, 0x1fdb435b0d2d1ccefe075627a716156584802aff4c7d9a81f3e592e0d9b8bca6dac177fe89d19dc463ef09cf258108cint, 0x9ba5bf636bdbebe3620e3aa008fb753dd7861aa4573464254e0ac539bda4a299a898f2a6eb215104cb868a1739b062int, 0x1bb18846b7eaf6790c0d13b35ac033f966f224ecbf334025f9a99ef6f881c2d01550ab7c5b1bbb353fa004fd792e3b2int, x_num_cube_9_22(x), x_num_sq_11_11(x), x_num_cube_10_21(x), x_num_cube_10_22(x), 0int, x_num_cube_10_22(x));
    lemma_horner_level(x, 0x169b1f8e1bcfa7c42e0c37515d138f22dd2ecb803a0c5c99676314baf4bb1b7fa3190b2edc0327797f241067be390c9eint, 0xfe3c5922333708c9a14e29bc4c951a6a49dad7f014a2a744020d1f2b13fecf017b2f119d1fb41a8181fa899e4d62f5fint, 0xc84818625900d8e036db43a84800d1ba5b71a4469d4c73cec32af2dad651a2c1afcd9c4aa7abff71742d525027aa711int, 0xe6d02b643143560ac1e4acca9605f270b9bd5508c7193df85a4e13b0adcc2ea34e8b866ee6c980dedf17a671a3a90c0int, 0xae1bda01399a887465cd46ac9bb70f0a6314ee64f2a212395863c0636726070844bfe58c425da12973fae72c6bcdd9dint, x_num_cube_9_21(x), x_num_sq_10_11(x), x_num_cube_10_20(x), x_num_cube_9_22(x), x_num_sq_11_11(x), x_num_cube_10_21(x));
    lemma_horner_level(x, 0x169b1f8e1bcfa7c42e0c37515d138f22dd2ecb803a0c5c99676314baf4bb1b7fa3190b2edc0327797f241067be390c9eint, 0x15649d19e4b441bd34cf7a27c23e8df04e96088bf3fa979e19e7d2ba47c31ce80e3a5b4a8be68af7ec26624dbbcf6793int, 0x2a2c9d7fea4a7c5303fff70ed905757495ade9712ee51341372eb97cb585a4d6311b4e19e773e15b947013cced1e239int, 0x13028aa875fe5600c160cfd505a57813c9b6558602a25bb283dff7f36a37dba888e13aeead6ced9cae522f4b95f4b57int, 0x24a9b655157b4e22ff328847e29e63eb649f5209b00c8a6631c1b80073a82a53bea27fad1c23194a3a6505900058cd6int, x_num_cube_9_20(x), x_num_sq_9_11(x), x_num_cube_10_19(x), x_num_cube_9_21(x), x_num_sq_10_11(x), x_num_cube_10_20(x));
    lemma_horner_level(x, 0x169b1f8e1bcfa7c42e0c37515d138f22dd2ecb803a0c5c99676314baf4bb1b7fa3190b2edc0327797f241067be390c9eint, 0x6f3758389f15ef1b0eecc446315968ee9cff2d830c9ff14bcac6868110ebc81ebd8df2cb430aaa60e3e5c1e77adae42int, 0x77ca8155129d2bbd927c0937c3d717ec0f2e9faab2fc21e221bed4a2605e77eb8ec93d339b46ee0138bd886b2b6a083int, 0x81e2c1d7dba3d4c4e2a3f2cc0e8ced5d5adf4ccf265a51ab84f8ca3cb83541fa609a863f4d506c65a7209eb1f01e19eint, 0x682300a7b180efe213777779f9214daf2ec11eca9dead158cb21aa545a9280e28434cc941ea772558d8dc45a8d738a2int, x_num_cube_9_19(x), x_num_sq_8_11(x), x_num_cube_10_18(x), x_num_cube_9_20(x), x_num_sq_9_11(x), x_num_cube_10_19(x));
    lemma_horner_level(x, 0x169b1f8e1bcfa7c42e0c37515d138f22dd2ecb803a0c5c99676314baf4bb1b7fa3190b2edc0327797f241067be390c9eint, 0x31db5e520f1fc5ab1531dd752b0991267746b9cddcd1799bfe06ecea10caa95757137273d7fe62ceb75c1438d0c0473int, 0x10e50bca7606a80778007aa8810dbd635d0e26f78b4cfbb4784cf9d949c1bcdc6edcc5418eb0893aeca6510e05caab5bint, 0x17bbe4762730fb594eb7a612387648aef1017e59c1a4b93c37da5b81c02448df11c83833f592de08e49debd8034f57b9int, 0xeafd938038b9173b7422d5ac76acfa7ea1f975621f96700acc06f4b2a194eb4bd16347c5fceb095a1ab4d81bc3d0c50int, x_num_cube_9_18(x), x_num_sq_7_11(x), x_num_cube_10_17(x), x_num_cube_9_19(x), x_num_sq_8_11(x), x_num_cube_10_18(x));
    lemma_horner_level(x, 0x169b1f8e1bcfa7c42e0c37515d138f22dd2ecb803a0c5c99676314baf4bb1b7fa3190b2edc0327797f241067be390c9eint, 0x12aead86d02ac8bbe3ff58f79d151806174db7556fe55d0f65a3279d6c261e3b5e8d0d14ed9e5ee356365d39d89a9eebint, 0x7093daf78e450be77c82e5f63de46763661d878ffe65ec4f83653fa40f6339077bf8e994a27e30a85f7b447976040edint, 0x125a7855f3c8a2203faf02a1806eb93f7da06fa293724202d6f00172cab33bec84bbafe9f107b29b359760c899820d30int, 0x61ddac51dd9732deb8ef9e5ec6ea2f3c770bbc05461307bf3b6ce5d2314e9860492d5e1c3571054e4a91e6ff9ffd5a1int, x_num_cube_9_17(x), x_num_sq_6_11(x), x_num_cube_10_16(x), x_num_cube_9_18(x), x_num_sq_7_11(x), x_num_cube_10_17(x));
    lemma_horner_level(x, 0x169b1f8e1bcfa7c42e0c37515d138f22dd2ecb803a0c5c99676314baf4bb1b7fa3190b2edc0327797f241067be390c9eint, 0x7a0ed70f3e86addcd36ac9662518214817a80405dd0bf4040a962c9bac993a428255100d19889cf07bb544d92e03b6eint, 0x5a27730e0a74277ecd9acaa24f6a0020e193ff17b068685fca07d585e3a278a6a96206ce2f07c79f3efb780cdc7c9cdint, 0x15fdfe06905fff366311adc38348bf02707a99871d9ca9c8491e46e6fa62f7c7dfe69157416b0b7552bae10e4ed9011cint, 0x4e5f6c95e64115ce0286413afc043785ffe30c28635fa53c384bd5b5617122e031f3e988f91b46c39d430a858c1ca9cint, x_num_cube_9_16(x), x_num_sq_5_11(x), x_num_cube_10_15(x), x_num_cube_9_17(x), x_num_sq_6_11(x), x_num_cube_10_16(x));
    lemma_horner_level(x, 0x169b1f8e1bcfa7c42e0c37515d138f22dd2ecb803a0c5c99676314baf4bb1b7fa3190b2edc0327797f241067be390c9eint, 0x1e4a9ea3afe82c011a99a87d9e7ca61a108cd5440788076bb1234acee2225e15792651e98d3db4637dfbf289c6f7823int, 0x11492744d209645aa9e1023fe063d9fa5fce16ce7e9f739772098fffae3c96f0b1a2b6ac4c0eaaed7d92fefae39dedd1int, 0x1397a5257fb8e942e9f6de6e059aef0e307652800e0ad2e2d3fb25565f23b31c6d76feedbe069ebfc35bde8c88c28faint, 0xf06dfb1dfb77c50c044dfe4b19c78e6e67f22d163116cd4d646e96efb74fb30d5d65359fefb392a2fab785e2c4bcb7fint, x_num_cube_9_15(x), x_num_sq_4_11(x), x_num_cube_10_14(x), x_num_cube_9_16(x), x_num_sq_5_11(x), x_num_cube_10_15(x));
    lemma_horner_level(x, 0x169b1f8e1bcfa7c42e0c37515d138f22dd2ecb803a0c5c99676314baf4bb1b7fa3190b2edc0327797f241067be390c9eint, 0x7c6842055f633bd96ea4fc1822d95b6f3271815625869a76766fd1c29fc0c19bbc2004d09593ea943be383d50174d9fint, 0x1f05d5da5c280835062eaaa81175bcbe0725e1e7a9bc9f0898562ab66a5f949ff1dbf28b4885c6abe20f658149c0ed7int, 0x17bbec4a4467de8838ea8d8cf52c50cb7d7cdc282af93c929ad08f0a6a6504d5164f1b245f46102a95ab2cd7f9d64c28int, 0x1af7fecf1f23788b44d09c11e6e53e1e62682f6adc6f2343abd342d0eb613f02ccaf42a8b5f82283446402c6994b1b1int, x_num_cube_9_14(x), x_num_sq_3_11(x), x_num_cube_10_13(x), x_num_cube_9_15(x), x_num_sq_4_11(x), x_num_cube_10_14(x));
    lemma_horner_level(x, 0x169b1f8e1bcfa7c42e0c37515d138f22dd2ecb803a0c5c99676314baf4bb1b7fa3190b2edc0327797f241067be390c9eint, 0x820f4232520a4faa24e9d2fb379c9994b35e8a77f4b0b28877d90b31b5aea39ad5d31f7fdcfe5448779d7e37f147729int, 0x127a2434337c5508327e85269ddc90cf31c12aa4feb11567f20f9ad1e4bd0b9a83a3783682aa81bdd98f65c9ad56e9b7int, 0x908d58af9ac73a092b16a1ef778d73fe36b947e00def739824d4589a8761af5a6ac1a727bcf801722f20aa40ce7b0b0int, 0x10100186c7f06570fc8f9f20be16439e79090101387c87cb17cf6422601aa4ec5bed35864ca124c33b60b14b8dec256bint, x_num_cube_9_13(x), x_num_sq_2_11(x), x_num_cube_10_12(x), x_num_cube_9_14(x), x_num_sq_3_11(x), x_num_cube_10_13(x));
    lemma_horner_level(x, 0x169b1f8e1bcfa7c42e0c37515d138f22dd2ecb803a0c5c99676314baf4bb1b7fa3190b2edc0327797f241067be390c9eint, 0x18552da1c346a6d83e8de9b061767327a60857d5b5a7839952015b939d126b59637a1c9f910c14959ec45c71d8ccb9fcint, 0x647957b19c6cb99e00db2e721b130af87729e34641618620732bcd05d875930fe05268bfc3363381013f92e2eafaddeint, 0x2683fec460e154d9f45d9cf383feef80ef2155c3abfc784e4dc33667c3a88690bc2027123af42831f6c79da6ea88e50int, 0x57581309befaaa0e0c995982bb826e98892b0049c0e0bff4b52bb56bf89eb3a5b2a6d93ad1e7c85e08e045cf8a0a208int, x_num_cube_9_12(x), x_num_sq_1_11(x), x_num_cube_10_11(x), x_num_cube_9_13(x), x_num_sq_2_11(x), x_num_cube_10_12(x));
    lemma_horner_level(x, 0x169b1f8e1bcfa7c42e0c37515d138f22dd2ecb803a0c5c99676314baf4bb1b7fa3190b2edc0327797f241067be390c9eint, 0x15d344ce7696a531df17c097a2e4dcfc26defefceeed08260f1345968c7be994b3e584cb87e9c52558b922513c66a0b8int, 0xb925b75f70f5beab04e8221bf2d29576e649863584a66360747d82c50b409eec94c08a0d8c1f9491deea10fd6daa73fint, 0x74065c19aa6c43ab40048335bf20c9016bc193ca6735b545c2bfb2305be0e45713539bb39a6a867d89926953dea8481int, 0xa0f3c6e5df0311f01450b6910e09aa8c16151699bd1a11416e617df30dfd104f107374c57985b0eb0c44dd1c4003201int, x_num_cube_9_11(x), x_num_sq_0_11(x), x_num_cube_10_10(x), x_num_cube_9_12(x), x_num_sq_1_11(x), x_num_cube_10_11(x));
    lemma_horner_level(x, 0x169b1f8e1bcfa7c42e0c37515d138f22dd2ecb803a0c5c99676314baf4bb1b7fa3190b2edc0327797f241067be390c9eint, 0xde8ce93b663182b9c9a5a63382950cd7472dcd50b7eaa076a0fc26638ce884ae98d5b95c071b67909c23e3fe3cbdf4dint, 0x14c7ef9b6c7705c27b79dc22364097f1497fbd3d95a3e8fb69397369d557cd3a81a2731ad62819b5965881b96c2062e1int, 0x1301e19a0b2424a6865686a7f26eedee1b17fea1000b3785c5a77249f8fa8b3cd8af74031010fc91f60caaa00bd92f33int, 0x1210b9e09ddc6acc93c851f285d2c2103cefe5a0ae5db2b5e0988d855e82f8b3b3f2074e8b319a26e4af51a4e89da84cint, x_num_cube_9_10(x), x_num_sq_0_10(x), x_num_cube_10_9(x), x_num_cube_9_11(x), x_num_sq_0_11(x), x_num_cube_10_10(x));
    lemma_horner_level(x, 0x169b1f8e1bcfa7c42e0c37515d138f22dd2ecb803a0c5c99676314baf4bb1b7fa3190b2edc0327797f241067be390c9eint, 0x10d4b64375b977b3c329db991c35981818341d3f2a0b574b327fda26fba469df007279229df04b97894c0ceb3cd28a1eint, 0xb0a23e320bd5e88429929fd9ed5c85b2671dbe78f37e44959f13413ed4fefc9662be41c98d347f1a86d8b235b5c7286int, 0x8038841d4d170f9e96eab8a8bb9db20b60bc5672b3ecd6b24d2ac7c33cd5bd8ad5a59b60f04b2010d867b9373e640baint, 0x998d1e1084db351ff5715ab95f7f13c0928b6f6389040d8df200e788af3d533c960b032b97203369b3ecfb9b1f407f0int, x_num_cube_9_9(x), x_num_sq_0_9(x), x_num_cube_10_8(x), x_num_cube_9_10(x), x_num_sq_0_10(x), x_num_cube_10_9(x));
    lemma_horner_level(x, 0x169b1f8e1bcfa7c42e0c37515d138f22dd2ecb803a0c5c99676314baf4bb1b7fa3190b2edc0327797f241067be390c9eint, 0xef45bf4184e8686b28ee63e387b0816c5ecb76705aab6b35c88666ad65ce2264334697edff7bbcff2e7e2c8bbc14b3dint, 0x8c786ff5da0738d3f01d50b6490dbc835386e9fed6c9a80ecc84237e150849abbaee37465700f082e770f6e47404d84int, 0x167816651465a2147f59540952bae85a0124ac458b3b03f5987aaf313ad800bc1c7e1059de20e064131001164dad9f9bint, 0x7a1d1f7cfbf21c8ddf0d39e6f9fef2f507619c28afd5d9c03a779f042f3df543069156fc2b066d40a27f46670691382int, x_num_cube_9_8(x), x_num_sq_0_8(x), x_num_cube_10_7(x), x_num_cube_9_9(x), x_num_sq_0_9(x), x_num_cube_10_8(x));
    lemma_horner_level(x, 0x169b1f8e1bcfa7c42e0c37515d138f22dd2ecb803a0c5c99676314baf4bb1b7fa3190b2edc0327797f241067be390c9eint, 0x10cba781a0180d4363551267f6b5b610d6c0639f82eb72c73dc08c83e87100cec3c8ab7a8037ee2e05c9445498c32c1eint, 0x149f4b619d0a81e9cf4ce7a020d03bef796a6d558eabad29b9066ec12eb90a855c95a75b09985c4a2d7ed472afeb2084int, 0x17ded791a9a96b8994e1371959a5d9a898d6e8371bca5305c7fd7efe3ca8ae4b5db58e7807179e0454068af6aa24c89dint, 0x11ed6546ef460ea2f731043d2bc056601ba276e6729f1a30760fc26ecb804d80a555d68472a7cabb12e890e8382299e5int, x_num_cube_9_7(x), x_num_sq_0_7(x), x_num_cube_10_6(x), x_num_cube_9_8(x), x_num_sq_0_8(x), x_num_cube_10_7(x));
    lemma_horner_level(x, 0x169b1f8e1bcfa7c42e0c37515d138f22dd2ecb803a0c5c99676314baf4bb1b7fa3190b2edc0327797f241067be390c9eint, 0x133801164e960bfb3f43dcf3e13f818846c1a536018d8b4f103abc653aa7b456d7757973d262eb175137616466223aeaint, 0x12326f9f1ae44948f01f5eabee78ad267fe65a9fb292184a625332769998136c41db98982f200dd18d174589a338d9deint, 0x144bfa996c89c96565b7ea05e5c03e50c3c346294eac0f6c62e0479e703e1b445dafe2c8eaac2de22695d0b8095ea0d6int, 0xfd1abc8d5d283e55936d29acadc65278a0be0a8b90c11d016a9985b1a2501987d03886761a23c8c546b6084c1b5ced0int, x_num_cube_9_6(x), x_num_sq_0_6(x), x_num_cube_10_5(x), x_num_cube_9_7(x), x_num_sq_0_7(x), x_num_cube_10_6(x));
    lemma_horner_level(x, 0x169b1f8e1bcfa7c42e0c37515d138f22dd2ecb803a0c5c99676314baf4bb1b7fa3190b2edc0327797f241067be390c9eint, 0x1728a55f98f344026ec1da88ce8c3ef19ff9b160da8b38102a5e0129a3f02b50dc930183e23b32c8429773aba2c44ce4int, 0x124c09bb2b761cfda20498068762a7832d996f5f8f59cc47aee059e559bc80ec0dff7c1f4464c67d317405a4c92808aint, 0x214917c5819d0f3a302d9ef179cc817d9e3f48d25da78fc9d7ef8a863259aa415ae2c9b9860a6afa385d7e634b757efint, 0xfe7ed66fcbad59e4d92d3d2529abb583315a7102b530b430299787aaa6612394f642f24aeee3c5e6132548c00188a5int, x_num_cube_9_5(x), x_num_sq_0_5(x), x_num_cube_10_4(x), x_num_cube_9_6(x), x_num_sq_0_6(x), x_num_cube_10_5(x));
    lemma_horner_level(x, 0x169b1f8e1bcfa7c42e0c37515d138f22dd2ecb803a0c5c99676314baf4bb1b7fa3190b2edc0327797f241067be390c9eint, 0xa8ab956c59011718633cc723d7e9168d6759eff03ffbcb8f19f7c0fa429dc28f3aa7aa931608e79c9d9af1be5fd14f1int, 0xcc27d2f0a264472b9d11f9a7b7d9851e25a861a2d59254abcc8855e6d620ac395c13557908663da454742b9ef4c7169int, 0xaa48a76516e669b92934ec6ad95cb0a1f366fdc7b21fa4bec78cba0dd003cdb39a5ea5a24f053af9767ca468d293b04int, 0xb179fb283db6dbb04948b058627fca62cce624f3164f3654adc2a3a8054f0b8e22966cf0f51c50907422a8386c732a3int, x_num_cube_9_4(x), x_num_sq_0_4(x), x_num_cube_10_3(x), x_num_cube_9_5(x), x_num_sq_0_5(x), x_num_cube_10_4(x));
    lemma_horner_level(x, 0x169b1f8e1bcfa7c42e0c37515d138f22dd2ecb803a0c5c99676314baf4bb1b7fa3190b2edc0327797f241067be390c9eint, 0x183aedfc1fce79f78dd9a3b1d93746982da222c6285cce875197397f90d3adfd7927cac23d611b79f821491a249e5f3dint, 0x15758cea31f0ae2751d9d8fa15f00e06030ac121c8cd2d6085234da1a2fdb049ad4b535eae28e78bc11ad91546ccc12bint, 0x130982028f1011e8f1b1b24ed7b5ae0be1e637da9c68e00c3a7d92c8b19d94c35d7984437ef0b57c9dc5298da59b3eddint, 0x12a7a7111e728d129d9b7dbbf59a29d4bd306fa853e06e87d6bc3dc0e2b60c1500862b44d8daaaa4cded79ef7f75547eint, x_num_cube_9_3(x), x_num_sq_0_3(x), x_num_cube_10_2(x), x_num_cube_9_4(x), x_num_sq_0_4(x), x_num_cube_10_3(x));
    lemma_horner_level(x, 0x169b1f8e1bcfa7c42e0c37515d138f22dd2ecb803a0c5c99676314baf4bb1b7fa3190b2edc0327797f241067be390c9eint, 0x71d4ff932ce6ee87396c5c5370a40053b31d89fb1d90f33f05dc2edd8f7dd5fe6ea2748f2954acf29f57f2f33a305baint, 0x2af191986cf1ecb974c106351594d92ba89fbe04bf566979537d690a02490afc5ad54a8dfcf9c9639641b56d8fcfee1int, 0xb403935c08f99b5256ddbe8aee0aeeab175fe8cfa9150bfd3a653c53875efd342c543a83387c7b91473515790dafe1dint, 0x2554ed8619e867c7a4bebb2f331699f3a64f812cf2799c682a5fd8b18d8ca8f66ae13208073113a5f0d85dc23fd79c3int, x_num_cube_9_2(x), x_num_sq_0_2(x), x_num_cube_10_1(x), x_num_cube_9_3(x), x_num_sq_0_3(x), x_num_cube_10_2(x));
    lemma_horner_level(x, 0x169b1f8e1bcfa7c42e0c37515d138f22dd2ecb803a0c5c99676314baf4bb1b7fa3190b2edc0327797f241067be390c9eint, 0xae1ad02c9e1089990ada5ce11290190316d7c44f2e5a5142e9652f917ea819d071d710d06fa4ca0d59f7fcabf27a96bint, 0x1350edf8796a4b8239c507c1d3709ae33e8b533da811c47b1acccc1aae68adaa56ba8d29e9c9e175677fd655a0dd3d78int, 0x7af22d02ac0230f362482e7d51fdd54681447074f7dcc9efecbee4694ccf0e03fb82ff5d4ab523e24fa5eed3a080626int, 0x10cab9bf18e0e5882610495dda9b432937427003d1d613d7f4c6bcb8ee4249e299947eb100963f16201daf826c72c661int, x_num_cube_9_1(x), x_num_sq_0_1(x), x_num_cube_10_0(x), x_num_cube_9_2(x), x_num_sq_0_2(x), x_num_cube_10_1(x));
    lemma_horner_level(x, 0x169b1f8e1bcfa7c42e0c37515d138f22dd2ecb803a0c5c99676314baf4bb1b7fa3190b2edc0327797f241067be390c9eint, 0x1206cfd3d6b5abf6d03af7b693fcb662559e7a76d91480257870585ea5be9555348df78e859dbebb998a06a8de3f0d7cint, 0x853ba4ee724d0738e345eb00520059a21e98b19f025e906d2d3db32e37dcef6fc62267726aabd6492c0d61bc9d30141int, 0x0int, 0x73d2740155039c1fb5e5788939976db33a55621b11fa0c53b4b52eccf601d39aebd0a79f07447dd2d02387da0714de6int, x_num_cube_9_0(x), x_num_sq_0_0(x), times(x, x_num_cube_10_0(x)), x_num_cube_9_1(x), x_num_sq_0_1(x), x_num_cube_10_0(x));
    lemma_product_level(x, 0x169b1f8e1bcfa7c42e0c37515d138f22dd2ecb803a0c5c99676314baf4bb1b7fa3190b2edc0327797f241067be390c9eint, x_num_9(x), x_num_10(x), x_num_sq_0_0(x), x_num_cube_9_0(x), x_num_cube_10_0(x));
}

pub(crate) proof fn lemma_x_num_cube_step_8(x: int)
    ensures
        congruent(x_num_cube_8_0(x), times(x_num_8(x), x_num_sq_0_0(x))),
{
    lemma_times_zero(x);
    lemma_x_num_cube_step_9(x);
    lemma_congruent_refl(x_num_cube_9_22(x), 0x80d3cf1f9a78fc47b90b33563be990dc43b756ce79f5574a2c596c928c5d1de4fa295f296b74e956d71986a8497e317int * 0int + x_num_cube_9_22(x));
    lemma_horner_level(x, 0x80d3cf1f9a78fc47b90b33563be990dc43b756ce79f5574a2c596c928c5d1de4fa295f296b74e956d71986a8497e317int, 0x214448820023217a545fe30bdde05f79baed78a489393deace3bd9bb679ea8c20117c8160f6397ac0da0c0cb0eeda06int, 0x1fdb435b0d2d1ccefe075627a716156584802aff4c7d9a81f3e592e0d9b8bca6dac177fe89d19dc463ef09cf258108cint, 0xfe3c5922333708c9a14e29bc4c951a6a49dad7f014a2a744020d1f2b13fecf017b2f119d1fb41a8181fa899e4d62f5fint, 0x9dd203090232d243f7569de79635436d7abc0e5ee9edbb475ec5fd37a5ad03f14a3db2bce8b44a8ffa18f0eaf9e1c7int, x_num_cube_8_22(x), x_num_sq_11_11(x), x_num_cube_9_21(x), x_num_cube_9_22(x), 0int, x_num_cube_9_22(x));
    lemma_horner_level(x, 0x80d3cf1f9a78fc47b90b33563be990dc43b756ce79f5574a2c596c928c5d1de4fa295f296b74e956d71986a8497e317int, 0x177a7c268d2b1880cd39c8361f5b1b60df9966b76b09f829f6c697863e11a1459556e2736e3502a44fd8183fba6e7e0eint, 0xc84818625900d8e036db43a84800d1ba5b71a4469d4c73cec32af2dad651a2c1afcd9c4aa7abff71742d525027aa711int, 0x15649d19e4b441bd34cf7a27c23e8df04e96088bf3fa979e19e7d2ba47c31ce80e3a5b4a8be68af7ec26624dbbcf6793int, 0x3e0373b2335add955ddff5129ab0209c9bc9f6472f045ada21ec7cd0d3cd546cdc480e21aabecc8de4a9128dfd6fd24int, x_num_cube_8_21(x), x_num_sq_10_11(x), x_num_cube_9_20(x), x_num_cube_8_22(x), x_num_sq_11_11(x), x_num_cube_9_21(x));
    lemma_horner_level(x, 0x80d3cf1f9a78fc47b90b33563be990dc43b756ce79f5574a2c596c928c5d1de4fa295f296b74e956d71986a8497e317int, 0x131d5caa8b46b92f7ca2de87c9d371a076f2efa005db02aadf752f22422e8df4f9e6522f0e53e340b33a381ccb56078cint, 0x2a2c9d7fea4a7c5303fff70ed905757495ade9712ee51341372eb97cb585a4d6311b4e19e773e15b947013cced1e239int, 0x6f3758389f15ef1b0eecc446315968ee9cff2d830c9ff14bcac6868110ebc81ebd8df2cb430aaa60e3e5c1e77adae42int, 0xd0ef8ab5937105b53f7299fe87274689345233b65c9f18b124565982143ddd3d68179f2a031d0ff31cd1771fbe8e7fint, x_num_cube_8_20(x), x_num_sq_9_11(x), x_num_cube_9_19(x), x_num_cube_8_21(x), x_num_sq_10_11(x), x_num_cube_9_20(x));
    lemma_horner_level(x, 0x80d3cf1f9a78fc47b90b33563be990dc43b756ce79f5574a2c596c928c5d1de4fa295f296b74e956d71986a8497e317int, 0x19a4ae8c7695462dfc8f3746b4edcd135b61ed694f8074ea94728040142b0e01953334045651090325a5278d8f5d2ef8int, 0x77ca8155129d2bbd927c0937c3d717ec0f2e9faab2fc21e221bed4a2605e77eb8ec93d339b46ee0138bd886b2b6a083int, 0x31db5e520f1fc5ab1531dd752b0991267746b9cddcd1799bfe06ecea10caa95757137273d7fe62ceb75c1438d0c0473int, 0x2517504ff022ebec492744376282229a11bb595f254a1e9f880d304f91621163955c6dc2a51edbb5a43d2d7dfd13ec0int, x_num_cube_8_19(x), x_num_sq_8_11(x), x_num_cube_9_18(x), x_num_cube_8_20(x), x_num_sq_9_11(x), x_num_cube_9_19(x));
    lemma_horner_level(x, 0x80d3cf1f9a78fc47b90b33563be990dc43b756ce79f5574a2c596c928c5d1de4fa295f296b74e956d71986a8497e317int, 0xfbb6cf6113d3738ff8a26c5266d8d6b7b7d6b12c84530d73c27b41feb1fe275a121849c50657af88897944a14d7888bint, 0x10e50bca7606a80778007aa8810dbd635d0e26f78b4cfbb4784cf9d949c1bcdc6edcc5418eb0893aeca6510e05caab5bint, 0x12aead86d02ac8bbe3ff58f79d151806174db7556fe55d0f65a3279d6c261e3b5e8d0d14ed9e5ee356365d39d89a9eebint, 0x53b2b90a88718b8485c1e216fac449b09cbcaae8c0dd0f9d5f6f6bf3d2b0204fcc3bbb39555e25059acb3277e6c85a7int, x_num_cube_8_18(x), x_num_sq_7_11(x), x_num_cube_9_17(x), x_num_cube_8_19(x), x_num_sq_8_11(x), x_num_cube_9_18(x));
    lemma_horner_level(x, 0x80d3cf1f9a78fc47b90b33563be990dc43b756ce79f5574a2c596c928c5d1de4fa295f296b74e956d71986a8497e317int, 0x11865e0e61c14a5c941a77ab61c5d2b590a9f24ff2da86388ebcb4e0db833ee35abbbf7599524eedfb979343ff5cef9dint, 0x7093daf78e450be77c82e5f63de46763661d878ffe65ec4f83653fa40f6339077bf8e994a27e30a85f7b447976040edint, 0x7a0ed70f3e86addcd36ac9662518214817a80405dd0bf4040a962c9bac993a428255100d19889cf07bb544d92e03b6eint, 0x22db886b7984490f94b729b964c7c848d75d9151ec28344a58c0c8869489aef0247acaa761474c55ac8c825ebe6d854int, x_num_cube_8_17(x), x_num_sq_6_11(x), x_num_cube_9_16(x), x_num_cube_8_18(x), x_num_sq_7_11(x), x_num_cube_9_17(x));
    lemma_horner_level(x, 0x80d3cf1f9a78fc47b90b33563be990dc43b756ce79f5574a2c596c928c5d1de4fa295f296b74e956d71986a8497e317int, 0x55cc74e7fe34352f307ae9070d426f76b4bf8fd37180cfdd9088a39594bb5031ea105db3b4d1250752791f08e08ed3aint, 0x5a27730e0a74277ecd9acaa24f6a0020e193ff17b068685fca07d585e3a278a6a96206ce2f07c79f3efb780cdc7c9cdint, 0x1e4a9ea3afe82c011a99a87d9e7ca61a108cd5440788076bb1234acee2225e15792651e98d3db4637dfbf289c6f7823int, 0x1bea1f718c64d176f9f4a2a7ef507c0cb062925f7ff312b074db8dc2ca38c8e81451a002c66241d50f04bbba79c59fcint, x_num_cube_8_16(x), x_num_sq_5_11(x), x_num_cube_9_15(x), x_num_cube_8_17(x), x_num_sq_6_11(x), x_num_cube_9_16(x));
    lemma_horner_level(x, 0x80d3cf1f9a78fc47b90b33563be990dc43b756ce79f5574a2c596c928c5d1de4fa295f296b74e956d71986a8497e317int, 0xa57828ba5a36fc12150d0ee667da96522c81072c2d73458930956146732d76e57db40fcdcae6460dbb477c43aadb470int, 0x11492744d209645aa9e1023fe063d9fa5fce16ce7e9f739772098fffae3c96f0b1a2b6ac4c0eaaed7d92fefae39dedd1int, 0x7c6842055f633bd96ea4fc1822d95b6f3271815625869a76766fd1c29fc0c19bbc2004d09593ea943be383d50174d9fint, 0x55a2aa33a11148529aa499049cf350d4e125d56a5530819d0977fa0fed7be7340e069b83b3363bd2be7daa2b425dde2int, x_num_cube_8_15(x), x_num_sq_4_11(x), x_num_cube_9_14(x), x_num_cube_8_16(x), x_num_sq_5_11(x), x_num_cube_9_15(x));
    lemma_horner_level(x, 0x80d3cf1f9a78fc47b90b33563be990dc43b756ce79f5574a2c596c928c5d1de4fa295f296b74e956d71986a8497e317int, 0x38cf7125686311e955d0b84cc8cb12eeec208e2365e82852046289b33d014b5629fbbe782f7f8f421418b8eec64eef1int, 0x1f05d5da5c280835062eaaa81175bcbe0725e1e7a9bc9f0898562ab66a5f949ff1dbf28b4885c6abe20f658149c0ed7int, 0x820f4232520a4faa24e9d2fb379c9994b35e8a77f4b0b28877d90b31b5aea39ad5d31f7fdcfe5448779d7e37f147729int, 0x99b0ab3accbdae6c8c8c03984cc69d8af79f1c36e98f7e7cc8d1a954a2f0fed97d55c52f4d83008acaa761c7a6879bint, x_num_cube_8_14(x), x_num_sq_3_11(x), x_num_cube_9_13(x), x_num_cube_8_15(x), x_num_sq_4_11(x), x_num_cube_9_14(x));
    lemma_horner_level(x, 0x80d3cf1f9a78fc47b90b33563be990dc43b756ce79f5574a2c596c928c5d1de4fa295f296b74e956d71986a8497e317int, 0x14fd4ac11f9e0eb46dbbeefdffe41168c3487c02c28d356d0e6153b176321cbf4d7208becfbd4b1e474f54595c2eb139int, 0x127a2434337c5508327e85269ddc90cf31c12aa4feb11567f20f9ad1e4bd0b9a83a3783682aa81bdd98f65c9ad56e9b7int, 0x18552da1c346a6d83e8de9b061767327a60857d5b5a7839952015b939d126b59637a1c9f910c14959ec45c71d8ccb9fcint, 0x5b899b5d6be652d6c19e6021f1b452d410f2f1bdc837e93b461f41542f3e708ce3e10774d0c634aaf0e69d3ee6de79cint, x_num_cube_8_13(x), x_num_sq_2_11(x), x_num_cube_9_12(x), x_num_cube_8_14(x), x_num_sq_3_11(x), x_num_cube_9_13(x));
    lemma_horner_level(x, 0x80d3cf1f9a78fc47b90b33563be990dc43b756ce79f5574a2c596c928c5d1de4fa295f296b74e956d71986a8497e317int, 0xbbcf98c7d6d9b887ac091571cef06c698d741b42a3eff3aa3233b0e44bd62e05759cf1e473c33d56222982d33776b2bint, 0x647957b19c6cb99e00db2e721b130af87729e34641618620732bcd05d875930fe05268bfc3363381013f92e2eafaddeint, 0x15d344ce7696a531df17c097a2e4dcfc26defefceeed08260f1345968c7be994b3e584cb87e9c52558b922513c66a0b8int, 0x1f1c22ce39a5211354f4e3cba26ecee10b5dfefdda8318c911d9959bc4e30739d032229148cf0daadf48ca422fe0b7dint, x_num_cube_8_12(x), x_num_sq_1_11(x), x_num_cube_9_11(x), x_num_cube_8_13(x), x_num_sq_2_11(x), x_num_cube_9_12(x));
    lemma_horner_level(x, 0x80d3cf1f9a78fc47b90b33563be990dc43b756ce79f5574a2c596c928c5d1de4fa295f296b74e956d71986a8497e317int, 0xa59f078d575f6c948a05a992d9bff004ac421a61a2f15cd120898abe82e7671a136cec97f4da949fc416b54cf452d77int, 0xb925b75f70f5beab04e8221bf2d29576e649863584a66360747d82c50b409eec94c08a0d8c1f9491deea10fd6daa73fint, 0xde8ce93b663182b9c9a5a63382950cd7472dcd50b7eaa076a0fc26638ce884ae98d5b95c071b67909c23e3fe3cbdf4dint, 0x3953d28cc8c8c2e579d0d91f06c020f6f75bd56c2b70f45c4f3f7aa6d818fee160687b54abcafcafce55cd4f461c07dint, x_num_cube_8_11(x), x_num_sq_0_11(x), x_num_cube_9_10(x), x_num_cube_8_12(x), x_num_sq_1_11(x), x_num_cube_9_11(x));
    lemma_horner_level(x, 0x80d3cf1f9a78fc47b90b33563be990dc43b756ce79f5574a2c596c928c5d1de4fa295f296b74e956d71986a8497e317int, 0x12b3272cdbf827ec81d221f43a72e1cd2ebedecdf14154b472e32a9547b54a7c5f80fdedb06805493b8efe5b22f476b9int, 0x14c7ef9b6c7705c27b79dc22364097f1497fbd3d95a3e8fb69397369d557cd3a81a2731ad62819b5965881b96c2062e1int, 0x10d4b64375b977b3c329db991c35981818341d3f2a0b574b327fda26fba469df007279229df04b97894c0ceb3cd28a1eint, 0x66f3827ba72675e1a94ed77250bd023cb8382dc60384e4ad0e6ef79a8fb939f9f34356949eb369c31b57464075669d4int, x_num_cube_8_10(x), x_num_sq_0_10(x), x_num_cube_9_9(x), x_num_cube_8_11(x), x_num_sq_0_11(x), x_num_cube_9_10(x));
    lemma_horner_level(x, 0x80d3cf1f9a78fc47b90b33563be990dc43b756ce79f5574a2c596c928c5d1de4fa295f296b74e956d71986a8497e317int, 0x193df4b32a27fb583b85d5277b19515df65af7db08db2260832a079d8942246e7a351b4ce9054f5122eb519eb6736ee6int, 0xb0a23e320bd5e88429929fd9ed5c85b2671dbe78f37e44959f13413ed4fefc9662be41c98d347f1a86d8b235b5c7286int, 0xef45bf4184e8686b28ee63e387b0816c5ecb76705aab6b35c88666ad65ce2264334697edff7bbcff2e7e2c8bbc14b3dint, 0x36b0fd307a3c5315e4fd3876a03d2d3ca1334b02d318b21f29a5887fba5020a1dcb8682ea31bdb2e42d54fc74bbe923int, x_num_cube_8_9(x), x_num_sq_0_9(x), x_num_cube_9_8(x), x_num_cube_8_10(x), x_num_sq_0_10(x), x_num_cube_9_9(x));
    lemma_horner_level(x, 0x80d3cf1f9a78fc47b90b33563be990dc43b756ce79f5574a2c596c928c5d1de4fa295f296b74e956d71986a8497e317int, 0x68afec6628eeaacfe86ec88a30478947eb1bfacba2d88c2b9634f197d52265ee69389e64d6b3cc781e160ef90c95409int, 0x8c786ff5da0738d3f01d50b6490dbc835386e9fed6c9a80ecc84237e150849abbaee37465700f082e770f6e47404d84int, 0x10cba781a0180d4363551267f6b5b610d6c0639f82eb72c73dc08c83e87100cec3c8ab7a8037ee2e05c9445498c32c1eint, 0x2b7e7b41ed22e7a7e5dda2ce015bdd0d61b69e166815ee3af5ff143b5c1d1d6b893a86d7c0723eb2f686af945dd90d3int, x_num_cube_8_8(x), x_num_sq_0_8(x), x_num_cube_9_7(x), x_num_cube_8_9(x), x_num_sq_0_9(x), x_num_cube_9_8(x));
    lemma_horner_level(x, 0x80d3cf1f9a78fc47b90b33563be990dc43b756ce79f5574a2c596c928c5d1de4fa295f296b74e956d71986a8497e317int, 0x313cc5b0080bf9e36b0fbbba47422a499d6402a84837ec913bfea78b5513f4e20cf61c07c0a7fd8b89ed3699b2cb4f3int, 0x149f4b619d0a81e9cf4ce7a020d03bef796a6d558eabad29b9066ec12eb90a855c95a75b09985c4a2d7ed472afeb2084int, 0x133801164e960bfb3f43dcf3e13f818846c1a536018d8b4f103abc653aa7b456d7757973d262eb175137616466223aeaint, 0x662a2ae0f0af6c29c96b1ae0a9bce26e1e9b8645692e49d55ea7d5e63cb5b3137fcc2f2e48cab637856fff377cc7979int, x_num_cube_8_7(x), x_num_sq_0_7(x), x_num_cube_9_6(x), x_num_cube_8_8(x), x_num_sq_0_8(x), x_num_cube_9_7(x));
    lemma_horner_level(x, 0x80d3cf1f9a78fc47b90b33563be990dc43b756ce79f5574a2c596c928c5d1de4fa295f296b74e956d71986a8497e317int, 0x16de706a7f41f202ca2add5249a8831bff4db288491ca609c47f64e338a0f3202de8af69ad8ee8b279e921e42ef378f3int, 0x12326f9f1ae44948f01f5eabee78ad267fe65a9fb292184a625332769998136c41db98982f200dd18d174589a338d9deint, 0x1728a55f98f344026ec1da88ce8c3ef19ff9b160da8b38102a5e0129a3f02b50dc930183e23b32c8429773aba2c44ce4int, 0x5a265ef7ef9000748569e9a13e5715f157418235792081fd66c5f0b8cdaba318a4b8b16bda410b632d2f2d645d3c2a9int, x_num_cube_8_6(x), x_num_sq_0_6(x), x_num_cube_9_5(x), x_num_cube_8_7(x), x_num_sq_0_7(x), x_num_cube_9_6(x));
    lemma_horner_level(x, 0x80d3cf1f9a78fc47b90b33563be990dc43b756ce79f5574a2c596c928c5d1de4fa295f296b74e956d71986a8497e317int, 0x19b022c67a8d109133d905c786cb2ef201390c4cd54371846b51b27fe7afd1a1e70ef4367f0786504838c6bd09a96b00int, 0x124c09bb2b761cfda20498068762a7832d996f5f8f59cc47aee059e559bc80ec0dff7c1f4464c67d317405a4c92808aint, 0xa8ab956c59011718633cc723d7e9168d6759eff03ffbcb8f19f7c0fa429dc28f3aa7aa931608e79c9d9af1be5fd14f1int, 0x5aa534b38f3bb0e0f717a678166e4220a547f50c33abbf9a020bf9c06dccc82534484d3c61a5e32d937a41999dbd05int, x_num_cube_8_5(x), x_num_sq_0_5(x), x_num_cube_9_4(x), x_num_cube_8_6(x), x_num_sq_0_6(x), x_num_cube_9_5(x));
    lemma_horner_level(x, 0x80d3cf1f9a78fc47b90b33563be990dc43b756ce79f5574a2c596c928c5d1de4fa295f296b74e956d71986a8497e317int, 0x7a65a8ae269004239e51734a524fb96519b38d338055885c55ac5dbc2f3f7dd16ae1d5087876a523d54492a28f61df2int, 0xcc27d2f0a264472b9d11f9a7b7d9851e25a861a2d59254abcc8855e6d620ac395c13557908663da454742b9ef4c7169int, 0x183aedfc1fce79f78dd9a3b1d93746982da222c6285cce875197397f90d3adfd7927cac23d611b79f821491a249e5f3dint, 0x3f3685b6b8091a61b5902696520e1bcc9928d63907dcb4da2a0d0f4317cedc2774c4b3b47e6605245b7c0df8d3ea62eint, x_num_cube_8_4(x), x_num_sq_0_4(x), x_num_cube_9_3(x), x_num_cube_8_5(x), x_num_sq_0_5(x), x_num_cube_9_4(x));
    lemma_horner_level(x, 0x80d3cf1f9a78fc47b90b33563be990dc43b756ce79f5574a2c596c928c5d1de4fa295f296b74e956d71986a8497e317int, 0x2083f9b23ea4b33c29e58b880f603001210110fbb482dc2b047db2a5b505e45d7b877fee50a40ca71c834cbefe28c1eint, 0x15758cea31f0ae2751d9d8fa15f00e06030ac121c8cd2d6085234da1a2fdb049ad4b535eae28e78bc11ad91546ccc12bint, 0x71d4ff932ce6ee87396c5c5370a40053b31d89fb1d90f33f05dc2edd8f7dd5fe6ea2748f2954acf29f57f2f33a305baint, 0x6a4f9d1b4e1fc1f27553363b76b381255a75a09c4b33b303bda5a133d125177ee76bcef6ff6be5bc49d4d95c3cee06bint, x_num_cube_8_3(x), x_num_sq_0_3(x), x_num_cube_9_2(x), x_num_cube_8_4(x), x_num_sq_0_4(x), x_num_cube_9_3(x));
    lemma_horner_level(x, 0x80d3cf1f9a78fc47b90b33563be990dc43b756ce79f5574a2c596c928c5d1de4fa295f296b74e956d71986a8497e317int, 0x535ba82423db012f53edfc68288576d67cd5173195915ca10078e4e55126837e893d6da24675246ba16f2c2d14d40dfint, 0x2af191986cf1ecb974c106351594d92ba89fbe04bf566979537d690a02490afc5ad54a8dfcf9c9639641b56d8fcfee1int, 0xae1ad02c9e1089990ada5ce11290190316d7c44f2e5a5142e9652f917ea819d071d710d06fa4ca0d59f7fcabf27a96bint, 0xd4bf450c11351559555baa97a0881b034b689a5f33466a9cfcdf76aa1b91e35f2740e7343c9061bc148f5ccd327549int, x_num_cube_8_2(x), x_num_sq_0_2(x), x_num_cube_9_1(x), x_num_cube_8_3(x), x_num_sq_0_3(x), x_num_cube_9_2(x));
    lemma_horner_level(x, 0x80d3cf1f9a78fc47b90b33563be990dc43b756ce79f5574a2c596c928c5d1de4fa295f296b74e956d71986a8497e317int, 0x122f007c3151fbe11a202aa786257e1eca7b01303a369b1eaf6d7c27acb160fdb32b5578a01434002aebc6e51296ed6dint, 0x1350edf8796a4b8239c507c1d3709ae33e8b533da811c47b1acccc1aae68adaa56ba8d29e9c9e175677fd655a0dd3d78int, 0x1206cfd3d6b5abf6d03af7b693fcb662559e7a76d91480257870585ea5be9555348df78e859dbebb998a06a8de3f0d7cint, 0x5fb1b0818c3a1f021e652d65f4912169922216c16b13651c8ddf0a1341d4d73cc141218c5a8d6614a8720ead5fb2985int, x_num_cube_8_1(x), x_num_sq_0_1(x), x_num_cube_9_0(x), x_num_cube_8_2(x), x_num_sq_0_2(x), x_num_cube_9_1(x));
    lemma_horner_level(x, 0x80d3cf1f9a78fc47b90b33563be990dc43b756ce79f5574a2c596c928c5d1de4fa295f296b74e956d71986a8497e317int, 0x128fa8f641c71b4537d593264492a01507774fc0c3c4c582d0132282ccebe6c6733476d8869617ec64b7440cd3a90040int, 0x853ba4ee724d0738e345eb00520059a21e98b19f025e906d2d3db32e37dcef6fc62267726aabd6492c0d61bc9d30141int, 0x0int, 0x2940cc6b44343a9868f0a4b6d9506dda2c1accf0de6126b81eea54fa19aca4672dbbf4096c50c02b9c8f04d3c043ec5int, x_num_cube_8_0(x), x_num_sq_0_0(x), times(x, x_num_cube_9_0(x)), x_num_cube_8_1(x), x_num_sq_0_1(x), x_num_cube_9_0(x));
    lemma_product_level(x, 0x80d3cf1f9a78fc47b90b33563be990dc43b756ce79f5574a2c596c928c5d1de4fa295f296b74e956d71986a8497e317int, x_num_8(x), x_num_9(x), x_num_sq_0_0(x), x_num_cube_8_0(x), x_num_cube_9_0(x));
}

pub(crate) proof fn lemma_x_num_cube_step_7(x: int)
    ensures
        congruent(x_num_cube_7_0(x), times(x_num_7(x), x_num_sq_0_0(x))),
{
    lemma_times_zero(x);
    lemma_x_num_cube_step_8(x);
    lemma_congruent_refl(x_num_cube_8_22(x), 0x17b81e7701abdbe2e8743884d1117e53356de5ab275b4db1a682c62ef0f2753339b7c8f8c8f475af9ccb5618e3f0c88eint * 0int + x_num_cube_8_22(x));
    lemma_horner_level(x, 0x17b81e7701abdbe2e8743884d1117e53356de5ab275b4db1a682c62ef0f2753339b7c8f8c8f475af9ccb5618e3f0c88eint, 0x121a900947c11fd093d19895ab1950a6db7a41faa8cf212d73c92a824a10585781f0c9b9656516eed08ef715e353e53bint, 0x1fdb435b0d2d1ccefe075627a716156584802aff4c7d9a81f3e592e0d9b8bca6dac177fe89d19dc463ef09cf258108cint, 0x177a7c268d2b1880cd39c8361f5b1b60df9966b76b09f829f6c697863e11a1459556e2736e3502a44fd8183fba6e7e0eint, 0x1d0eaacd7bcbe8cf9d36dd0b6893769cf17e7fcd36b372fd67e1d3b6c95900bd7c796cae321a1d03afcd78e9bd47371int, x_num_cube_7_22(x), x_num_sq_11_11(x), x_num_cube_8_21(x), x_num_cube_8_22(x), 0int, x_num_cube_8_22(x));
    lemma_horner_level(x, 0x17b81e7701abdbe2e8743884d1117e53356de5ab275b4db1a682c62ef0f2753339b7c8f8c8f475af9ccb5618e3f0c88eint, 0xeb56f1053ade8e317065b491f3e71d71d1e238e2c843896a7d51bfaca85a78b12b27af5f99e64d64cd87152a1960d0fint, 0xc84818625900d8e036db43a84800d1ba5b71a4469d4c73cec32af2dad651a2c1afcd9c4aa7abff71742d525027aa711int, 0x131d5caa8b46b92f7ca2de87c9d371a076f2efa005db02aadf752f22422e8df4f9e6522f0e53e340b33a381ccb56078cint, 0xb6aedc51b69cae90589aa52025346e7e7ce53ed6b176b3772df2194f38e5db4e259023bec2b3b6510951768f77ac9c1int, x_num_cube_7_21(x), x_num_sq_10_11(x), x_num_cube_8_20(x), x_num_cube_7_22(x), x_num_sq_11_11(x), x_num_cube_8_21(x));
    lemma_horner_level(x, 0x17b81e7701abdbe2e8743884d1117e53356de5ab275b4db1a682c62ef0f2753339b7c8f8c8f475af9ccb5618e3f0c88eint, 0xb9925e2641dbd34af0c37b36d52fab942298fc6f308ecac28171194f4088802157b62a777f68e3a2ed62aac3b1e533eint, 0x2a2c9d7fea4a7c5303fff70ed905757495ade9712ee51341372eb97cb585a4d6311b4e19e773e15b947013cced1e239int, 0x19a4ae8c7695462dfc8f3746b4edcd135b61ed694f8074ea94728040142b0e01953334045651090325a5278d8f5d2ef8int, 0x2677ed0e35317272c95a1b757ddf65f808162fd86a67567dbddabca7a264f32a0e5a6b0550299ee829e2d3a8f8c9e08int, x_num_cube_7_20(x), x_num_sq_9_11(x), x_num_cube_8_19(x), x_num_cube_7_21(x), x_num_sq_10_11(x), x_num_cube_8_20(x));
    lemma_horner_level(x, 0x17b81e7701abdbe2e8743884d1117e53356de5ab275b4db1a682c62ef0f2753339b7c8f8c8f475af9ccb5618e3f0c88eint, 0x1672f6672324eae7db6d42f1790eee40ede37e4343421a4422c3e3b06ad29a220b7b3396a0d473610785c5647c446146int, 0x77ca8155129d2bbd927c0937c3d717ec0f2e9faab2fc21e221bed4a2605e77eb8ec93d339b46ee0138bd886b2b6a083int, 0xfbb6cf6113d3738ff8a26c5266d8d6b7b7d6b12c84530d73c27b41feb1fe275a121849c50657af88897944a14d7888bint, 0x6d43ddae08fec68be9373356e24705b9cddd2c73a4f8890b7146a19aec4649b4bf596ded9ad7112760bc63ab91097cdint, x_num_cube_7_19(x), x_num_sq_8_11(x), x_num_cube_8_18(x), x_num_cube_7_20(x), x_num_sq_9_11(x), x_num_cube_8_19(x));
    lemma_horner_level(x, 0x17b81e7701abdbe2e8743884d1117e53356de5ab275b4db1a682c62ef0f2753339b7c8f8c8f475af9ccb5618e3f0c88eint, 0x124c9a90819608829847a3f71691b89b4138dd6bddfac626562855028940790dc6608d4f865c1a5eb0088ef39dd8ac6cint, 0x10e50bca7606a80778007aa8810dbd635d0e26f78b4cfbb4784cf9d949c1bcdc6edcc5418eb0893aeca6510e05caab5bint, 0x11865e0e61c14a5c941a77ab61c5d2b590a9f24ff2da86388ebcb4e0db833ee35abbbf7599524eedfb979343ff5cef9dint, 0xf69020c982c32c4cf665df24d2dd2a6fa1213c6618921656609c44dcd13c3a7385902d4b84666d83d1622a5035c3701int, x_num_cube_7_18(x), x_num_sq_7_11(x), x_num_cube_8_17(x), x_num_cube_7_19(x), x_num_sq_8_11(x), x_num_cube_8_18(x));
    lemma_horner_level(x, 0x17b81e7701abdbe2e8743884d1117e53356de5ab275b4db1a682c62ef0f2753339b7c8f8c8f475af9ccb5618e3f0c88eint, 0xd2ed74664e8503ba1259e33ce4e54a885cb07c8cc1701a2a69c0cc0d6929027e92ef67e0bab439fa422e50530bc9caeint, 0x7093daf78e450be77c82e5f63de46763661d878ffe65ec4f83653fa40f6339077bf8e994a27e30a85f7b447976040edint, 0x55cc74e7fe34352f307ae9070d426f76b4bf8fd37180cfdd9088a39594bb5031ea105db3b4d1250752791f08e08ed3aint, 0x66af7ac6e6d5a65d8c8e0436c8222f0cf5b2e76bfe114d3a3516e24bac94e85a9547b5d1980659fd1c5d29519d27406int, x_num_cube_7_17(x), x_num_sq_6_11(x), x_num_cube_8_16(x), x_num_cube_7_18(x), x_num_sq_7_11(x), x_num_cube_8_17(x));
    lemma_horner_level(x, 0x17b81e7701abdbe2e8743884d1117e53356de5ab275b4db1a682c62ef0f2753339b7c8f8c8f475af9ccb5618e3f0c88eint, 0x53b7360a084999054993ab799c1cffc8356fec636dbd558507278c7d5e7f0082da7a07d226b35e0460c06cf02fa5dint, 0x5a27730e0a74277ecd9acaa24f6a0020e193ff17b068685fca07d585e3a278a6a96206ce2f07c79f3efb780cdc7c9cdint, 0xa57828ba5a36fc12150d0ee667da96522c81072c2d73458930956146732d76e57db40fcdcae6460dbb477c43aadb470int, 0x523b7a6a9443add5427f9f3712f76ce5ef30e8cf4c1f825d0dac80b7ee05c396788ca1ab38bf6e6ebd964964d59755bint, x_num_cube_7_16(x), x_num_sq_5_11(x), x_num_cube_8_15(x), x_num_cube_7_17(x), x_num_sq_6_11(x), x_num_cube_8_16(x));
    lemma_horner_level(x, 0x17b81e7701abdbe2e8743884d1117e53356de5ab275b4db1a682c62ef0f2753339b7c8f8c8f475af9ccb5618e3f0c88eint, 0x11a281d3c976af6c9900048d347ede23d4ec50c2352c79caa2873c098202f3ee1a6fd1834157cd71700a682cbed02c58int, 0x11492744d209645aa9e1023fe063d9fa5fce16ce7e9f739772098fffae3c96f0b1a2b6ac4c0eaaed7d92fefae39dedd1int, 0x38cf7125686311e955d0b84cc8cb12eeec208e2365e82852046289b33d014b5629fbbe782f7f8f421418b8eec64eef1int, 0xfc451a9b1081938e4a200dc121e67832b0e88455f19ca0246d4f64f438084a349c28a3e7a52d2929d0cb1082552dd95int, x_num_cube_7_15(x), x_num_sq_4_11(x), x_num_cube_8_14(x), x_num_cube_7_16(x), x_num_sq_5_11(x), x_num_cube_8_15(x));
    lemma_horner_level(x, 0x17b81e7701abdbe2e8743884d1117e53356de5ab275b4db1a682c62ef0f2753339b7c8f8c8f475af9ccb5618e3f0c88eint, 0x1cd2496e13b5eab56c09fb0b64e010371a39aeebbb753054a59111700442367ade3d8c080ac8fe3ee2e3798602bde60int, 0x1f05d5da5c280835062eaaa81175bcbe0725e1e7a9bc9f0898562ab66a5f949ff1dbf28b4885c6abe20f658149c0ed7int, 0x14fd4ac11f9e0eb46dbbeefdffe41168c3487c02c28d356d0e6153b176321cbf4d7208becfbd4b1e474f54595c2eb139int, 0x1c4bfe400275c77e36e435525b53841e275da4004499fc61cdecd87646b035e56b8dee46c8c774155ec6a80c0821251int, x_num_cube_7_14(x), x_num_sq_3_11(x), x_num_cube_8_13(x), x_num_cube_7_15(x), x_num_sq_4_11(x), x_num_cube_8_14(x));
    lemma_horner_level(x, 0x17b81e7701abdbe2e8743884d1117e53356de5ab275b4db1a682c62ef0f2753339b7c8f8c8f475af9ccb5618e3f0c88eint, 0xe6500541b9cbe01e13c1b3e245c106ee09545cccf7fc3680ff30bf9c7b866be1ff20610c9d5e46aa598116b4181932bint, 0x127a2434337c5508327e85269ddc90cf31c12aa4feb11567f20f9ad1e4bd0b9a83a3783682aa81bdd98f65c9ad56e9b7int, 0xbbcf98c7d6d9b887ac091571cef06c698d741b42a3eff3aa3233b0e44bd62e05759cf1e473c33d56222982d33776b2bint, 0x10da820b9490dc078732a5b691bc8bb1bfc548eb73ae1ae64f1dcbae86f1e23b8f455754f3d8aae6f44afe42787d5a86int, x_num_cube_7_13(x), x_num_sq_2_11(x), x_num_cube_8_12(x), x_num_cube_7_14(x), x_num_sq_3_11(x), x_num_cube_8_13(x));
    lemma_horner_level(x, 0x17b81e7701abdbe2e8743884d1117e53356de5ab275b4db1a682c62ef0f2753339b7c8f8c8f475af9ccb5618e3f0c88eint, 0xa4d4bf7f5e68034dd2950f53877e4812491325c85fabde3c58217a2b444b0ad47492dd90bb595a643e2007f74f0825fint, 0x647957b19c6cb99e00db2e721b130af87729e34641618620732bcd05d875930fe05268bfc3363381013f92e2eafaddeint, 0xa59f078d575f6c948a05a992d9bff004ac421a61a2f15cd120898abe82e7671a136cec97f4da949fc416b54cf452d77int, 0x5ba53afea2add3dd4dd1ed365f7721a681049d947fda4b61dc26b8a2b92ace9655f85f2c78e5de8bd0c1cbbb1e9a4b4int, x_num_cube_7_12(x), x_num_sq_1_11(x), x_num_cube_8_11(x), x_num_cube_7_13(x), x_num_sq_2_11(x), x_num_cube_8_12(x));
    lemma_horner_level(x, 0x17b81e7701abdbe2e8743884d1117e53356de5ab275b4db1a682c62ef0f2753339b7c8f8c8f475af9ccb5618e3f0c88eint, 0x2c5a927fa5bce2c0f0622a77a855ed4bbd71f60d024cc56229b371f4ee43ada27b37f8610ed84ff731f0fad58749363int, 0xb925b75f70f5beab04e8221bf2d29576e649863584a66360747d82c50b409eec94c08a0d8c1f9491deea10fd6daa73fint, 0x12b3272cdbf827ec81d221f43a72e1cd2ebedecdf14154b472e32a9547b54a7c5f80fdedb06805493b8efe5b22f476b9int, 0xa8e0eb84db8719b08cb4473e0bee7ef6d4a212655f390d266327b91de61495046332539d517afc1d4585de7f85da0d8int, x_num_cube_7_11(x), x_num_sq_0_11(x), x_num_cube_8_10(x), x_num_cube_7_12(x), x_num_sq_1_11(x), x_num_cube_8_11(x));
    lemma_horner_level(x, 0x17b81e7701abdbe2e8743884d1117e53356de5ab275b4db1a682c62ef0f2753339b7c8f8c8f475af9ccb5618e3f0c88eint, 0x12c8ce2dcf9f1a3dbf04999ed5a7cd7ab55f9d09286b52420f3d4511dde94b961d62cd82b8aafa27da90493d931b12a9int, 0x14c7ef9b6c7705c27b79dc22364097f1497fbd3d95a3e8fb69397369d557cd3a81a2731ad62819b5965881b96c2062e1int, 0x193df4b32a27fb583b85d5277b19515df65af7db08db2260832a079d8942246e7a351b4ce9054f5122eb519eb6736ee6int, 0x12f47a50e6d8902b1acc84a11fb42b2563655c0ac81f5a6c764e0b0d2b5c826d1f153efc7d1535065d0e3921d89df721int, x_num_cube_7_10(x), x_num_sq_0_10(x), x_num_cube_8_9(x), x_num_cube_7_11(x), x_num_sq_0_11(x), x_num_cube_8_10(x));
    lemma_horner_level(x, 0x17b81e7701abdbe2e8743884d1117e53356de5ab275b4db1a682c62ef0f2753339b7c8f8c8f475af9ccb5618e3f0c88eint, 0xdd05565dd405845ff944405cc8fad1033e4f2765b810d86ce62abfa94ce1a5fb91976a964938f46c6f72b35320dca07int, 0xb0a23e320bd5e88429929fd9ed5c85b2671dbe78f37e44959f13413ed4fefc9662be41c98d347f1a86d8b235b5c7286int, 0x68afec6628eeaacfe86ec88a30478947eb1bfacba2d88c2b9634f197d52265ee69389e64d6b3cc781e160ef90c95409int, 0xa11cf4805d8db7003c8ef2fcfb4e96717e0c9f8a0fac82e96fb8c23470a114eba97d5791e1cd0b50ea7cad3a0554102int, x_num_cube_7_9(x), x_num_sq_0_9(x), x_num_cube_8_8(x), x_num_cube_7_10(x), x_num_sq_0_10(x), x_num_cube_8_9(x));
    lemma_horner_level(x, 0x17b81e7701abdbe2e8743884d1117e53356de5ab275b4db1a682c62ef0f2753339b7c8f8c8f475af9ccb5618e3f0c88eint, 0x15508ce58ac8c7a3b769c04ac8710a270fe06f27f3e3ba5d4dc346bec7c9840b747759cf36b04c41cce5b2c97ecc556bint, 0x8c786ff5da0738d3f01d50b6490dbc835386e9fed6c9a80ecc84237e150849abbaee37465700f082e770f6e47404d84int, 0x313cc5b0080bf9e36b0fbbba47422a499d6402a84837ec913bfea78b5513f4e20cf61c07c0a7fd8b89ed3699b2cb4f3int, 0x80209ff5b28e8e5409af4ae93f3d011ab7f83d80ceb3157727f3008a1ab32f6d58cd1524967154075000ddf3f4f7c40int, x_num_cube_7_8(x), x_num_sq_0_8(x), x_num_cube_8_7(x), x_num_cube_7_9(x), x_num_sq_0_9(x), x_num_cube_8_8(x));
    lemma_horner_level(x, 0x17b81e7701abdbe2e8743884d1117e53356de5ab275b4db1a682c62ef0f2753339b7c8f8c8f475af9ccb5618e3f0c88eint, 0xe4cf5f159daee8ecef7d43245ee8b4b616a8f0434481b858c8c9113a23e43b3a0e5c11f355872e4d7687e98383d14bint, 0x149f4b619d0a81e9cf4ce7a020d03bef796a6d558eabad29b9066ec12eb90a855c95a75b09985c4a2d7ed472afeb2084int, 0x16de706a7f41f202ca2add5249a8831bff4db288491ca609c47f64e338a0f3202de8af69ad8ee8b279e921e42ef378f3int, 0x12cf684ceec3041504fd66953e1cac906288d5e8d388366ce91bf20c93c5899f801213b83cbc39d1324e6aaadda872a0int, x_num_cube_7_7(x), x_num_sq_0_7(x), x_num_cube_8_6(x), x_num_cube_7_8(x), x_num_sq_0_8(x), x_num_cube_8_7(x));
    lemma_horner_level(x, 0x17b81e7701abdbe2e8743884d1117e53356de5ab275b4db1a682c62ef0f2753339b7c8f8c8f475af9ccb5618e3f0c88eint, 0x38ecd485998c612efd4494ebae7a6e94227d6aa19a6894b54c9039a649edd063e371ad96cf415c28889fc60467b8c2bint, 0x12326f9f1ae44948f01f5eabee78ad267fe65a9fb292184a625332769998136c41db98982f200dd18d174589a338d9deint, 0x19b022c67a8d109133d905c786cb2ef201390c4cd54371846b51b27fe7afd1a1e70ef4367f0786504838c6bd09a96b00int, 0x10991a70991540ad4a644b58d574627842242fc7e765887d9b05afc33aaa356ebfa57eb362b5fb28b11ce5a0eb0f77ebint, x_num_cube_7_6(x), x_num_sq_0_6(x), x_num_cube_8_5(x), x_num_cube_7_7(x), x_num_sq_0_7(x), x_num_cube_8_6(x));
    lemma_horner_level(x, 0x17b81e7701abdbe2e8743884d1117e53356de5ab275b4db1a682c62ef0f2753339b7c8f8c8f475af9ccb5618e3f0c88eint, 0xf65a258e8b6c0326e7ed0e6f8cf9fadfa71d3a41b4ced13e8047da036d833533b41e694e95075d638c3800c57bec28dint, 0x124c09bb2b761cfda20498068762a7832d996f5f8f59cc47aee059e559bc80ec0dff7c1f4464c67d317405a4c92808aint, 0x7a65a8ae269004239e51734a524fb96519b38d338055885c55ac5dbc2f3f7dd16ae1d5087876a523d54492a28f61df2int, 0x10b074a5410de423c6168d942985a9b3c806f39ec12ae0f6cc68e0fd5de9ad646c43aaa18dc4ca437e5a68342a667d3int, x_num_cube_7_5(x), x_num_sq_0_5(x), x_num_cube_8_4(x), x_num_cube_7_6(x), x_num_sq_0_6(x), x_num_cube_8_5(x));
    lemma_horner_level(x, 0x17b81e7701abdbe2e8743884d1117e53356de5ab275b4db1a682c62ef0f2753339b7c8f8c8f475af9ccb5618e3f0c88eint, 0x112dcd4b53be0a0524db90076cf4238979bfa09ca6198fc7040e59d377e11f926bf2c1548c290e7b19acaba76410af5int, 0xcc27d2f0a264472b9d11f9a7b7d9851e25a861a2d59254abcc8855e6d620ac395c13557908663da454742b9ef4c7169int, 0x2083f9b23ea4b33c29e58b880f603001210110fbb482dc2b047db2a5b505e45d7b877fee50a40ca71c834cbefe28c1eint, 0xba37726f40acfd7fe1ad06fffc2d4facc81e5127610f9c9613f31957f5cc80aab11c046fae0f5cff453911b686c5435int, x_num_cube_7_4(x), x_num_sq_0_4(x), x_num_cube_8_3(x), x_num_cube_7_5(x), x_num_sq_0_5(x), x_num_cube_8_4(x));
    lemma_horner_level(x, 0x17b81e7701abdbe2e8743884d1117e53356de5ab275b4db1a682c62ef0f2753339b7c8f8c8f475af9ccb5618e3f0c88eint, 0xacf747c362e87053015b1ab35b211e22f7050e909e7b34500506e9d448a540fe2598af32911c5119e09f9fa00e856c1int, 0x15758cea31f0ae2751d9d8fa15f00e06030ac121c8cd2d6085234da1a2fdb049ad4b535eae28e78bc11ad91546ccc12bint, 0x535ba82423db012f53edfc68288576d67cd5173195915ca10078e4e55126837e893d6da24675246ba16f2c2d14d40dfint, 0x1392d640c5132a69bb3650fd1508d6c7f3d04c345db6c0bcac0356d4ca8a5946fe6fa13b53bfe868a4144801ca7cf7e8int, x_num_cube_7_3(x), x_num_sq_0_3(x), x_num_cube_8_2(x), x_num_cube_7_4(x), x_num_sq_0_4(x), x_num_cube_8_3(x));
    lemma_horner_level(x, 0x17b81e7701abdbe2e8743884d1117e53356de5ab275b4db1a682c62ef0f2753339b7c8f8c8f475af9ccb5618e3f0c88eint, 0x12fa1e42d8609b9bd03c0bd4db34398a3eb9c68f24033bda686968f12458b88868df51dfd989bd08549f373763240ffbint, 0x2af191986cf1ecb974c106351594d92ba89fbe04bf566979537d690a02490afc5ad54a8dfcf9c9639641b56d8fcfee1int, 0x122f007c3151fbe11a202aa786257e1eca7b01303a369b1eaf6d7c27acb160fdb32b5578a01434002aebc6e51296ed6dint, 0x272b92c7f4692d382c1623a36961344cecfa48eb274b0a10f145173ef66239602cf2af219a39b0ef2d202408d4812c0int, x_num_cube_7_2(x), x_num_sq_0_2(x), x_num_cube_8_1(x), x_num_cube_7_3(x), x_num_sq_0_3(x), x_num_cube_8_2(x));
    lemma_horner_level(x, 0x17b81e7701abdbe2e8743884d1117e53356de5ab275b4db1a682c62ef0f2753339b7c8f8c8f475af9ccb5618e3f0c88eint, 0x1118b6cd68fb75f25c6e44dc42907c9113ec5e802d00f75a8dc07979676829db429833a67e9787f59a3865e7a5b324b9int, 0x1350edf8796a4b8239c507c1d3709ae33e8b533da811c47b1acccc1aae68adaa56ba8d29e9c9e175677fd655a0dd3d78int, 0x128fa8f641c71b4537d593264492a01507774fc0c3c4c582d0132282ccebe6c6733476d8869617ec64b7440cd3a90040int, 0x119e6c429cb8cddbd7eceddd6f76e4033a78ba87bd34564f16d392f3cdabdfee21ab53ce5b93ed6fb0191e54f7e01c45int, x_num_cube_7_1(x), x_num_sq_0_1(x), x_num_cube_8_0(x), x_num_cube_7_2(x), x_num_sq_0_2(x), x_num_cube_8_1(x));
    lemma_horner_level(x, 0x17b81e7701abdbe2e8743884d1117e53356de5ab275b4db1a682c62ef0f2753339b7c8f8c8f475af9ccb5618e3f0c88eint, 0x89cd0efe8b9703f826831329e01782112826d503e06a4b034546a5edc7e464e6ee16a695e49564ae207f277f7a878c4int, 0x853ba4ee724d0738e345eb00520059a21e98b19f025e906d2d3db32e37dcef6fc62267726aabd6492c0d61bc9d30141int, 0x0int, 0x7986a294f48bea08fed13005922d18a471e652499e3a464ce8078f52db9925f707ff79915a71ecb513150b2f0c503deint, x_num_cube_7_0(x), x_num_sq_0_0(x), times(x, x_num_cube_8_0(x)), x_num_cube_7_1(x), x_num_sq_0_1(x), x_num_cube_8_0(x));
    lemma_product_level(x, 0x17b81e7701abdbe2e8743884d1117e53356de5ab275b4db1a682c62ef0f2753339b7c8f8c8f475af9ccb5618e3f0c88eint, x_num_7(x), x_num_8(x), x_num_sq_0_0(x), x_num_cube_7_0(x), x_num_cube_8_0(x));
}

pub(crate) proof fn lemma_x_num_cube_step_6(x: int)
    ensures
        congruent(x_num_cube_6_0(x), times(x_num_6(x), x_num_sq_0_0(x))),
{
    lemma_times_zero(x);
    lemma_x_num_cube_step_7(x);
    lemma_congruent_refl(x_num_cube_7_22(x), 0xd6ed6553fe44d296a3726c38ae652bfb11586264f0f8ce19008e218f9c86b2a8da25128c1052ecaddd7f225a139ed84int * 0int + x_num_cube_7_22(x));
    lemma_horner_level(x, 0xd6ed6553fe44d296a3726c38ae652bfb11586264f0f8ce19008e218f9c86b2a8da25128c1052ecaddd7f225a139ed84int, 0x14a8de9fad400f992f31afc9c667a491131684b2dfcaa43e117e5d3caa679b2743cb4c8acac3581c6266b2938e5cfa25int, 0x1fdb435b0d2d1ccefe075627a716156584802aff4c7d9a81f3e592e0d9b8bca6dac177fe89d19dc463ef09cf258108cint, 0xeb56f1053ade8e317065b491f3e71d71d1e238e2c843896a7d51bfaca85a78b12b27af5f99e64d64cd87152a1960d0fint, 0x1074c1f52361394d27cf0adb3b76066d64e3727d8232a0cd443c0cf4af473fbd3b238d9dafcdd65284b178186aba54eint, x_num_cube_6_22(x), x_num_sq_11_11(x), x_num_cube_7_21(x), x_num_cube_7_22(x), 0int, x_num_cube_7_22(x));
    lemma_horner_level(x, 0xd6ed6553fe44d296a3726c38ae652bfb11586264f0f8ce19008e218f9c86b2a8da25128c1052ecaddd7f225a139ed84int, 0x1085ca3b309e11449238e86d5eb509ea4cb8ef53027fa3a4c4a3ca789d35539036a808974cee6a9102db7998581fb991int, 0xc84818625900d8e036db43a84800d1ba5b71a4469d4c73cec32af2dad651a2c1afcd9c4aa7abff71742d525027aa711int, 0xb9925e2641dbd34af0c37b36d52fab942298fc6f308ecac28171194f4088802157b62a777f68e3a2ed62aac3b1e533eint, 0x677595ab2507824b240df0324e821f9f071bf72dfd20def9b46292aa37b59ed26ee932bb4707f4f27bc8c4442647253int, x_num_cube_6_21(x), x_num_sq_10_11(x), x_num_cube_7_20(x), x_num_cube_6_22(x), x_num_sq_11_11(x), x_num_cube_7_21(x));
    lemma_horner_level(x, 0xd6ed6553fe44d296a3726c38ae652bfb11586264f0f8ce19008e218f9c86b2a8da25128c1052ecaddd7f225a139ed84int, 0x17631e351818cb90b305e9fca9760f60c6545033a96921c3109abe1a37413d2fa8b1cbc52330a7bafab71fe8cea9eb9fint, 0x2a2c9d7fea4a7c5303fff70ed905757495ade9712ee51341372eb97cb585a4d6311b4e19e773e15b947013cced1e239int, 0x1672f6672324eae7db6d42f1790eee40ede37e4343421a4422c3e3b06ad29a220b7b3396a0d473610785c5647c446146int, 0x15c932e2a55c546720c8c8b1d0bf8882dcdf8860c01989222250d4575f5c18b2679cd465db75164b7b4c5a027f9a021int, x_num_cube_6_20(x), x_num_sq_9_11(x), x_num_cube_7_19(x), x_num_cube_6_21(x), x_num_sq_10_11(x), x_num_cube_7_20(x));
    lemma_horner_level(x, 0xd6ed6553fe44d296a3726c38ae652bfb11586264f0f8ce19008e218f9c86b2a8da25128c1052ecaddd7f225a139ed84int, 0x21709d81ac7ee1aff83a0bfc9b313682ee04b6d0bf51733b1df4a5672521902f3785a4d9e8e1e58207844e143cf1758int, 0x77ca8155129d2bbd927c0937c3d717ec0f2e9faab2fc21e221bed4a2605e77eb8ec93d339b46ee0138bd886b2b6a083int, 0x124c9a90819608829847a3f71691b89b4138dd6bddfac626562855028940790dc6608d4f865c1a5eb0088ef39dd8ac6cint, 0x3de15f2879c97895f4c22265e610b8d54f46a4f55726c21befcb18b26252e8898b61235df74613976f3ec57f7c9dee0int, x_num_cube_6_19(x), x_num_sq_8_11(x), x_num_cube_7_18(x), x_num_cube_6_20(x), x_num_sq_9_11(x), x_num_cube_7_19(x));
    lemma_horner_level(x, 0xd6ed6553fe44d296a3726c38ae652bfb11586264f0f8ce19008e218f9c86b2a8da25128c1052ecaddd7f225a139ed84int, 0x59046bf27b109399401c150d4fe4bec2afdcb5c1afb2f1b9b74411502d910bd76feed59281c8ef0e79a1fc6ee51a567int, 0x10e50bca7606a80778007aa8810dbd635d0e26f78b4cfbb4784cf9d949c1bcdc6edcc5418eb0893aeca6510e05caab5bint, 0xd2ed74664e8503ba1259e33ce4e54a885cb07c8cc1701a2a69c0cc0d6929027e92ef67e0bab439fa422e50530bc9caeint, 0x8ba2f7f16cda72e9d11716f1906717ae43d6437c700d5cbff15352c3296982b7e8cced23e74762cd0e0bab1790db399int, x_num_cube_6_18(x), x_num_sq_7_11(x), x_num_cube_7_17(x), x_num_cube_6_19(x), x_num_sq_8_11(x), x_num_cube_7_18(x));
    lemma_horner_level(x, 0xd6ed6553fe44d296a3726c38ae652bfb11586264f0f8ce19008e218f9c86b2a8da25128c1052ecaddd7f225a139ed84int, 0x17620b4b36b5227b44774bf9dbfd8b4d0a5f6e9f2ffca82a850a03c63b9580201b1bfbb19b9d593bf5bed3b8bc8e1df1int, 0x7093daf78e450be77c82e5f63de46763661d878ffe65ec4f83653fa40f6339077bf8e994a27e30a85f7b447976040edint, 0x53b7360a084999054993ab799c1cffc8356fec636dbd558507278c7d5e7f0082da7a07d226b35e0460c06cf02fa5dint, 0x3a2773049e0b85a8910c1ff90145e090c62dbb4cfc03439679c118db05df4013d7b2ecbd0ddeba9b8e3d26678c43ee0int, x_num_cube_6_17(x), x_num_sq_6_11(x), x_num_cube_7_16(x), x_num_cube_6_18(x), x_num_sq_7_11(x), x_num_cube_7_17(x));
    lemma_horner_level(x, 0xd6ed6553fe44d296a3726c38ae652bfb11586264f0f8ce19008e218f9c86b2a8da25128c1052ecaddd7f225a139ed84int, 0xcbf4f36d4446e418305ac99865e41e8e1e0b20cb3a50e40374f58885eb3f87ceb90836ba0973a290bbeb8daec050c78int, 0x5a27730e0a74277ecd9acaa24f6a0020e193ff17b068685fca07d585e3a278a6a96206ce2f07c79f3efb780cdc7c9cdint, 0x11a281d3c976af6c9900048d347ede23d4ec50c2352c79caa2873c098202f3ee1a6fd1834157cd71700a682cbed02c58int, 0x2e9221e963dff728232308182de190cf750e303e262c1d2d64fd4822ccfc182613cbe3c4bfc602ffba30a5f2190e3bcint, x_num_cube_6_16(x), x_num_sq_5_11(x), x_num_cube_7_15(x), x_num_cube_6_17(x), x_num_sq_6_11(x), x_num_cube_7_16(x));
    lemma_horner_level(x, 0xd6ed6553fe44d296a3726c38ae652bfb11586264f0f8ce19008e218f9c86b2a8da25128c1052ecaddd7f225a139ed84int, 0x145da6d981bd4e723d36913c7a0740c7d9376cbfc99bdfb8e6764cd3f300036e7c78878768a266dd0df1d4c015eb1d85int, 0x11492744d209645aa9e1023fe063d9fa5fce16ce7e9f739772098fffae3c96f0b1a2b6ac4c0eaaed7d92fefae39dedd1int, 0x1cd2496e13b5eab56c09fb0b64e010371a39aeebbb753054a59111700442367ade3d8c080ac8fe3ee2e3798602bde60int, 0x8ede5dca82fe557f3c6dd096d8463063b627cac2ea063efb9b8e434550b842f4cc25fd8824511c9820095a05d0598ddint, x_num_cube_6_15(x), x_num_sq_4_11(x), x_num_cube_7_14(x), x_num_cube_6_16(x), x_num_sq_5_11(x), x_num_cube_7_15(x));
    lemma_horner_level(x, 0xd6ed6553fe44d296a3726c38ae652bfb11586264f0f8ce19008e218f9c86b2a8da25128c1052ecaddd7f225a139ed84int, 0x3e17e39603a56b271e9d86cd642583c9de8110b522c40ec2a0d1239d93e2224ab62583974c034d920a14fc3b7588fbdint, 0x1f05d5da5c280835062eaaa81175bcbe0725e1e7a9bc9f0898562ab66a5f949ff1dbf28b4885c6abe20f658149c0ed7int, 0xe6500541b9cbe01e13c1b3e245c106ee09545cccf7fc3680ff30bf9c7b866be1ff20610c9d5e46aa598116b4181932bint, 0x100681e839d2fe24d12b188847f9a2f6a53ba9850ab288c5fdf52efdc3a06b8003c957779c4cc171353ef7e9b941fdeint, x_num_cube_6_14(x), x_num_sq_3_11(x), x_num_cube_7_13(x), x_num_cube_6_15(x), x_num_sq_4_11(x), x_num_cube_7_14(x));
    lemma_horner_level(x, 0xd6ed6553fe44d296a3726c38ae652bfb11586264f0f8ce19008e218f9c86b2a8da25128c1052ecaddd7f225a139ed84int, 0xe51b48aef5fd0382c845cdbaea0c7f8b08cfdaa9560ad9541632eb029c7b1367e751268345a7ea0111061093d77150eint, 0x127a2434337c5508327e85269ddc90cf31c12aa4feb11567f20f9ad1e4bd0b9a83a3783682aa81bdd98f65c9ad56e9b7int, 0xa4d4bf7f5e68034dd2950f53877e4812491325c85fabde3c58217a2b444b0ad47492dd90bb595a643e2007f74f0825fint, 0x98b72003e0374cca72c3e270df2353b8eb13500bac507abaec5980821f99b451f04e63470bc43e967bf255f9e3d1007int, x_num_cube_6_13(x), x_num_sq_2_11(x), x_num_cube_7_12(x), x_num_cube_6_14(x), x_num_sq_3_11(x), x_num_cube_7_13(x));
    lemma_horner_level(x, 0xd6ed6553fe44d296a3726c38ae652bfb11586264f0f8ce19008e218f9c86b2a8da25128c1052ecaddd7f225a139ed84int, 0x148c493c7c686d393f897adc88350ad5a1ecf15e2d8bcfbb2fbd46c3d7b155b58997d4e66b66ed1af55feaeb2055b3bcint, 0x647957b19c6cb99e00db2e721b130af87729e34641618620732bcd05d875930fe05268bfc3363381013f92e2eafaddeint, 0x2c5a927fa5bce2c0f0622a77a855ed4bbd71f60d024cc56229b371f4ee43ada27b37f8610ed84ff731f0fad58749363int, 0x33e6da61b4f2ada951b2a45ae0310f0b07afaa61f2f5e2aec11083b8edf9c24d59425baa2b73bab427baeadeda8245dint, x_num_cube_6_12(x), x_num_sq_1_11(x), x_num_cube_7_11(x), x_num_cube_6_13(x), x_num_sq_2_11(x), x_num_cube_7_12(x));
    lemma_horner_level(x, 0xd6ed6553fe44d296a3726c38ae652bfb11586264f0f8ce19008e218f9c86b2a8da25128c1052ecaddd7f225a139ed84int, 0x7d856ff01513143b2abe7c69d3a15fe14cb9be3f75a367b478fad2850228800aa5bd7e8423326ab6ca362a912292ba2int, 0xb925b75f70f5beab04e8221bf2d29576e649863584a66360747d82c50b409eec94c08a0d8c1f9491deea10fd6daa73fint, 0x12c8ce2dcf9f1a3dbf04999ed5a7cd7ab55f9d09286b52420f3d4511dde94b961d62cd82b8aafa27da90493d931b12a9int, 0x5fa433297c69aa84803085b1b91838b6aff0623ba4d0a61d9d24dbb4bfd682408bbd17a13f84f3453af2d101b2e6389int, x_num_cube_6_11(x), x_num_sq_0_11(x), x_num_cube_7_10(x), x_num_cube_6_12(x), x_num_sq_1_11(x), x_num_cube_7_11(x));
    lemma_horner_level(x, 0xd6ed6553fe44d296a3726c38ae652bfb11586264f0f8ce19008e218f9c86b2a8da25128c1052ecaddd7f225a139ed84int, 0x43f618f512bb9a32784f169340c607a05a6b269789cb7aa547955847dc9320d3a74e760789782dd01163867be7f614eint, 0x14c7ef9b6c7705c27b79dc22364097f1497fbd3d95a3e8fb69397369d557cd3a81a2731ad62819b5965881b96c2062e1int, 0xdd05565dd405845ff944405cc8fad1033e4f2765b810d86ce62abfa94ce1a5fb91976a964938f46c6f72b35320dca07int, 0xabc1d70fa1fc96ead9fa21a03975ffb6d093fc9f0a2ba12d3c077870a35b3033b8da0ca78cc0cdc1cdefc2e33e51537int, x_num_cube_6_10(x), x_num_sq_0_10(x), x_num_cube_7_9(x), x_num_cube_6_11(x), x_num_sq_0_11(x), x_num_cube_7_10(x));
    lemma_horner_level(x, 0xd6ed6553fe44d296a3726c38ae652bfb11586264f0f8ce19008e218f9c86b2a8da25128c1052ecaddd7f225a139ed84int, 0x11551ac653c0bd39961dcab3fbe0df97ecf3aa8016debfac0d1294468a62a5cc927719a62279e1a3e615bc0bcc86c96int, 0xb0a23e320bd5e88429929fd9ed5c85b2671dbe78f37e44959f13413ed4fefc9662be41c98d347f1a86d8b235b5c7286int, 0x15508ce58ac8c7a3b769c04ac8710a270fe06f27f3e3ba5d4dc346bec7c9840b747759cf36b04c41cce5b2c97ecc556bint, 0x5b3e59dfdfb661d8d6af867cd39b4428ce92a7e21337c171a5ef0e6dae3389c0f6e10677784dee3231c49deb8680bc7int, x_num_cube_6_9(x), x_num_sq_0_9(x), x_num_cube_7_8(x), x_num_cube_6_10(x), x_num_sq_0_10(x), x_num_cube_7_9(x));
    lemma_horner_level(x, 0xd6ed6553fe44d296a3726c38ae652bfb11586264f0f8ce19008e218f9c86b2a8da25128c1052ecaddd7f225a139ed84int, 0x15a4fabf15e25fb0e4ed1de6f345a1b3c3fc61dc726e2ea386acb3145a6a3d59a591a49cc50e2f413c3070a0ef7eec65int, 0x8c786ff5da0738d3f01d50b6490dbc835386e9fed6c9a80ecc84237e150849abbaee37465700f082e770f6e47404d84int, 0xe4cf5f159daee8ecef7d43245ee8b4b616a8f0434481b858c8c9113a23e43b3a0e5c11f355872e4d7687e98383d14bint, 0x48900dcf23f43f831cbc46a2166cd9955d8ac6ec82c4fac3f0b080487cd6d282a343faf42ea2a186182dba190de32e2int, x_num_cube_6_8(x), x_num_sq_0_8(x), x_num_cube_7_7(x), x_num_cube_6_9(x), x_num_sq_0_9(x), x_num_cube_7_8(x));
    lemma_horner_level(x, 0xd6ed6553fe44d296a3726c38ae652bfb11586264f0f8ce19008e218f9c86b2a8da25128c1052ecaddd7f225a139ed84int, 0x1681f8a7cc5a616b1e07ed93d5a69fec8d2d681c9c185ff6e0541f780b5582da0ca85d820e27381589e1d3afb9b00525int, 0x149f4b619d0a81e9cf4ce7a020d03bef796a6d558eabad29b9066ec12eb90a855c95a75b09985c4a2d7ed472afeb2084int, 0x38ecd485998c612efd4494ebae7a6e94227d6aa19a6894b54c9039a649edd063e371ad96cf415c28889fc60467b8c2bint, 0xaa71ef056e3a4706ba976b67e60cff1c95908653ebf78ee0f09fda21343a563e8a4c633b5e4a867a2c442890ed57d42int, x_num_cube_6_7(x), x_num_sq_0_7(x), x_num_cube_7_6(x), x_num_cube_6_8(x), x_num_sq_0_8(x), x_num_cube_7_7(x));
    lemma_horner_level(x, 0xd6ed6553fe44d296a3726c38ae652bfb11586264f0f8ce19008e218f9c86b2a8da25128c1052ecaddd7f225a139ed84int, 0x29f66e97be23a205ed1e8a56d780ecd6e04a42f5ac11fcec4eda49d258758e22cb87c002993c95b0b8e6a6a2d68ffa0int, 0x12326f9f1ae44948f01f5eabee78ad267fe65a9fb292184a625332769998136c41db98982f200dd18d174589a338d9deint, 0xf65a258e8b6c0326e7ed0e6f8cf9fadfa71d3a41b4ced13e8047da036d833533b41e694e95075d638c3800c57bec28dint, 0x966678e5a616417e48a41b6172a4daa68793b20784a96485f26acca93969290d63edf86ff0fbe841cf78aee1f82de2fint, x_num_cube_6_6(x), x_num_sq_0_6(x), x_num_cube_7_5(x), x_num_cube_6_7(x), x_num_sq_0_7(x), x_num_cube_7_6(x));
    lemma_horner_level(x, 0xd6ed6553fe44d296a3726c38ae652bfb11586264f0f8ce19008e218f9c86b2a8da25128c1052ecaddd7f225a139ed84int, 0x5b1703ab830d80a1ad09aa28198ffe0e4561f19c360599366df142832e595d4ffa571aa5d8cb24bcfbfb0315c21ab41int, 0x124c09bb2b761cfda20498068762a7832d996f5f8f59cc47aee059e559bc80ec0dff7c1f4464c67d317405a4c92808aint, 0x112dcd4b53be0a0524db90076cf4238979bfa09ca6198fc7040e59d377e11f926bf2c1548c290e7b19acaba76410af5int, 0x973a1350862a8cd02274abd537b9db201bb0319e6cdf2ab0fdf9948b77f75da569710cc47be25d867164e918be3a94int, x_num_cube_6_5(x), x_num_sq_0_5(x), x_num_cube_7_4(x), x_num_cube_6_6(x), x_num_sq_0_6(x), x_num_cube_7_5(x));
    lemma_horner_level(x, 0xd6ed6553fe44d296a3726c38ae652bfb11586264f0f8ce19008e218f9c86b2a8da25128c1052ecaddd7f225a139ed84int, 0x980df0b76139429dc4eaef62210eddc0e321f0452562b690c7cfe54c08ee4202301f0209bf9894ed5ae2675a0aaea24int, 0xcc27d2f0a264472b9d11f9a7b7d9851e25a861a2d59254abcc8855e6d620ac395c13557908663da454742b9ef4c7169int, 0xacf747c362e87053015b1ab35b211e22f7050e909e7b34500506e9d448a540fe2598af32911c5119e09f9fa00e856c1int, 0x6975e1930b6c44a39ef32f6bf28914f25750fd91b9c4c84895754f3239a50fe923f24de5644f865de1ce7b0c9585343int, x_num_cube_6_4(x), x_num_sq_0_4(x), x_num_cube_7_3(x), x_num_cube_6_5(x), x_num_sq_0_5(x), x_num_cube_7_4(x));
    lemma_horner_level(x, 0xd6ed6553fe44d296a3726c38ae652bfb11586264f0f8ce19008e218f9c86b2a8da25128c1052ecaddd7f225a139ed84int, 0x15447533691b041d4a14b22b94f9b109da7c83fb2491979e7679f706c951979e10a1217baf5bec37bfcf14365d3f1b8cint, 0x15758cea31f0ae2751d9d8fa15f00e06030ac121c8cd2d6085234da1a2fdb049ad4b535eae28e78bc11ad91546ccc12bint, 0x12fa1e42d8609b9bd03c0bd4db34398a3eb9c68f24033bda686968f12458b88868df51dfd989bd08549f373763240ffbint, 0xb15cc84920fbe58e004cdf483d53de5bad345cb2c41ea846f6c4cb8751ad7b40da2b2c7b1bb960974ee20df847218d1int, x_num_cube_6_3(x), x_num_sq_0_3(x), x_num_cube_7_2(x), x_num_cube_6_4(x), x_num_sq_0_4(x), x_num_cube_7_3(x));
    lemma_horner_level(x, 0xd6ed6553fe44d296a3726c38ae652bfb11586264f0f8ce19008e218f9c86b2a8da25128c1052ecaddd7f225a139ed84int, 0x12df9613473c2cdcc95905dbbce9683c0e0dcb62bcc4d716dd99b333b4fdacfb903d1ba485d8d63f25f25413e68e809eint, 0x2af191986cf1ecb974c106351594d92ba89fbe04bf566979537d690a02490afc5ad54a8dfcf9c9639641b56d8fcfee1int, 0x1118b6cd68fb75f25c6e44dc42907c9113ec5e802d00f75a8dc07979676829db429833a67e9787f59a3865e7a5b324b9int, 0x162ef05a70d7e0592bbf14ee7e602143eeef1b12aab91d1075e592a2326041038327ae3e56d1b6a49bffb3c6753175dint, x_num_cube_6_2(x), x_num_sq_0_2(x), x_num_cube_7_1(x), x_num_cube_6_3(x), x_num_sq_0_3(x), x_num_cube_7_2(x));
    lemma_horner_level(x, 0xd6ed6553fe44d296a3726c38ae652bfb11586264f0f8ce19008e218f9c86b2a8da25128c1052ecaddd7f225a139ed84int, 0x3afa94a2f4e6e4968fd098182bbafe56e157592721d739b32db5b672241996e85e0c1e8457d7d5e65421e866fdc0e1dint, 0x1350edf8796a4b8239c507c1d3709ae33e8b533da811c47b1acccc1aae68adaa56ba8d29e9c9e175677fd655a0dd3d78int, 0x89cd0efe8b9703f826831329e01782112826d503e06a4b034546a5edc7e464e6ee16a695e49564ae207f277f7a878c4int, 0x9fa65f42e59aba60ddd662bfb6562afa36e40d4ea1791cddfdc6f2c8b9c111683ccd6614b277976e452a7eef8159d95int, x_num_cube_6_1(x), x_num_sq_0_1(x), x_num_cube_7_0(x), x_num_cube_6_2(x), x_num_sq_0_2(x), x_num_cube_7_1(x));
    lemma_horner_level(x, 0xd6ed6553fe44d296a3726c38ae652bfb11586264f0f8ce19008e218f9c86b2a8da25128c1052ecaddd7f225a139ed84int, 0x74be257212ecb9c7cbffa9c40baf806f2ecb32ce03b8026a20664d9b6f688de1c0b063e36d425ad5dbcd15028d4985int, 0x853ba4ee724d0738e345eb00520059a21e98b19f025e906d2d3db32e37dcef6fc62267726aabd6492c0d61bc9d30141int, 0x0int, 0x44d2f5478d24eb03d66e821181514d00e3817aad08c8c3a9166ef2cc19a9f30b89232a19242bbf455e60d6647a19afdint, x_num_cube_6_0(x), x_num_sq_0_0(x), times(x, x_num_cube_7_0(x)), x_num_cube_6_1(x), x_num_sq_0_1(x), x_num_cube_7_0(x));
    lemma_product_level(x, 0xd6ed6553fe44d296a3726c38ae652bfb11586264f0f8ce19008e218f9c86b2a8da25128c1052ecaddd7f225a139ed84int, x_num_6(x), x_num_7(x), x_num_sq_0_0(x), x_num_cube_6_0(x), x_num_cube_7_0(x));
}

pub(crate) proof fn lemma_x_num_cube_step_5(x: int)
    ensures
        congruent(x_num_cube_5_0(x), times(x_num_5(x), x_num_sq_0_0(x))),
{
    lemma_times_zero(x);
    lemma_x_num_cube_step_6(x);
    lemma_congruent_refl(x_num_cube_6_22(x), 0x1630c3250d7313ff01d1201bf7a74ab5db3cb17dd952799b9ed3ab9097e68f90a0870d2dcae73d19cd13c1c66f652983int * 0int + x_num_cube_6_22(x));
    lemma_horner_level(x, 0x1630c3250d7313ff01d1201bf7a74ab5db3cb17dd952799b9ed3ab9097e68f90a0870d2dcae73d19cd13c1c66f652983int, 0x161970a09b30eba6c416d86bb0d64e2736dc88db1be245ffd715cd6a240fc80fa73885d63fe846eb0e248f45bd900515int, 0x1fdb435b0d2d1ccefe075627a716156584802aff4c7d9a81f3e592e0d9b8bca6dac177fe89d19dc463ef09cf258108cint, 0x1085ca3b309e11449238e86d5eb509ea4cb8ef53027fa3a4c4a3ca789d35539036a808974cee6a9102db7998581fb991int, 0x1b2f3c0840bc41b0f989222476f4900caea5970ba671854abbf63eea8550eed23904b44b9c9ce5a154797d9a2e7c860int, x_num_cube_5_22(x), x_num_sq_11_11(x), x_num_cube_6_21(x), x_num_cube_6_22(x), 0int, x_num_cube_6_22(x));
    lemma_horner_level(x, 0x1630c3250d7313ff01d1201bf7a74ab5db3cb17dd952799b9ed3ab9097e68f90a0870d2dcae73d19cd13c1c66f652983int, 0x2df9b58d133804abcf6e81c423133ef3d646db429aff2ff56f5cd2db0cf87fb9b4a96cf37806dc72897a5de6f20393fint, 0xc84818625900d8e036db43a84800d1ba5b71a4469d4c73cec32af2dad651a2c1afcd9c4aa7abff71742d525027aa711int, 0x17631e351818cb90b305e9fca9760f60c6545033a96921c3109abe1a37413d2fa8b1cbc52330a7bafab71fe8cea9eb9fint, 0xaae8ab7a72f9d865bca7779ab97c74b921fe44837cc1bcbce644bb0d8bab06577abe323a1f69ddc48e36f947084bb39int, x_num_cube_5_21(x), x_num_sq_10_11(x), x_num_cube_6_20(x), x_num_cube_5_22(x), x_num_sq_11_11(x), x_num_cube_6_21(x));
    lemma_horner_level(x, 0x1630c3250d7313ff01d1201bf7a74ab5db3cb17dd952799b9ed3ab9097e68f90a0870d2dcae73d19cd13c1c66f652983int, 0x12a1db7683723e497556543fb351a9e9e3bd3b09c32eced4164ec483f3452e2f41bad2b7cbb5e2fee9edfd240fd3d599int, 0x2a2c9d7fea4a7c5303fff70ed905757495ade9712ee51341372eb97cb585a4d6311b4e19e773e15b947013cced1e239int, 0x21709d81ac7ee1aff83a0bfc9b313682ee04b6d0bf51733b1df4a5672521902f3785a4d9e8e1e58207844e143cf1758int, 0x23fd36904f100539d71f691d75057c2e1457f1da74f09be7065366baa3fef09c3ed9a3667b397fbb5b5e1ed4c0c71beint, x_num_cube_5_20(x), x_num_sq_9_11(x), x_num_cube_6_19(x), x_num_cube_5_21(x), x_num_sq_10_11(x), x_num_cube_6_20(x));
    lemma_horner_level(x, 0x1630c3250d7313ff01d1201bf7a74ab5db3cb17dd952799b9ed3ab9097e68f90a0870d2dcae73d19cd13c1c66f652983int, 0xb231e0a9fb64c17308311854788e509ba422744eb61e2a70bdb6ab245f0e089bb8ff0dcd3302ffeaa4a65f08555e9aint, 0x77ca8155129d2bbd927c0937c3d717ec0f2e9faab2fc21e221bed4a2605e77eb8ec93d339b46ee0138bd886b2b6a083int, 0x59046bf27b109399401c150d4fe4bec2afdcb5c1afb2f1b9b74411502d910bd76feed59281c8ef0e79a1fc6ee51a567int, 0x66390a11af2f27536f7f856c54fbbf826cccf58ff7df369bb5402666169e854f89fb51d877eeda5b6bcb4c55bff2e82int, x_num_cube_5_19(x), x_num_sq_8_11(x), x_num_cube_6_18(x), x_num_cube_5_20(x), x_num_sq_9_11(x), x_num_cube_6_19(x));
    lemma_horner_level(x, 0x1630c3250d7313ff01d1201bf7a74ab5db3cb17dd952799b9ed3ab9097e68f90a0870d2dcae73d19cd13c1c66f652983int, 0x771407b2bcd1c7d0931211af966e04bb30a65c772ca8a36ad977839fbac0ff165849565e124819e438565ac59d946c0int, 0x10e50bca7606a80778007aa8810dbd635d0e26f78b4cfbb4784cf9d949c1bcdc6edcc5418eb0893aeca6510e05caab5bint, 0x17620b4b36b5227b44774bf9dbfd8b4d0a5f6e9f2ffca82a850a03c63b9580201b1bfbb19b9d593bf5bed3b8bc8e1df1int, 0xe6abf2270a1e8139323fe3db1e2cb294a3929fd97876ac7a764cf9ba5aae9e40fb8278d6d3f1957a6e744efe98f4d46int, x_num_cube_5_18(x), x_num_sq_7_11(x), x_num_cube_6_17(x), x_num_cube_5_19(x), x_num_sq_8_11(x), x_num_cube_6_18(x));
    lemma_horner_level(x, 0x1630c3250d7313ff01d1201bf7a74ab5db3cb17dd952799b9ed3ab9097e68f90a0870d2dcae73d19cd13c1c66f652983int, 0xf691c3af847676e018e8d0db01074784f2563e16212743b4dc5f07f5c43215faaafadac80a086a36d26252f10a5502cint, 0x7093daf78e450be77c82e5f63de46763661d878ffe65ec4f83653fa40f6339077bf8e994a27e30a85f7b447976040edint, 0xcbf4f36d4446e418305ac99865e41e8e1e0b20cb3a50e40374f58885eb3f87ceb90836ba0973a290bbeb8daec050c78int, 0x601136cebaacd9f405bf2e6f1ce827994539e5925667b620a367fe4fb99a34ca1baf5e81d5a6001ceb104421550bfb9int, x_num_cube_5_17(x), x_num_sq_6_11(x), x_num_cube_6_16(x), x_num_cube_5_18(x), x_num_sq_7_11(x), x_num_cube_6_17(x));
    lemma_horner_level(x, 0x1630c3250d7313ff01d1201bf7a74ab5db3cb17dd952799b9ed3ab9097e68f90a0870d2dcae73d19cd13c1c66f652983int, 0x55203dcf051d782ac47e61cacd815df5c07a3fbcbf8ebae0a92b7284584f92fc13ad8a3913f0b02a06aed07aea996dint, 0x5a27730e0a74277ecd9acaa24f6a0020e193ff17b068685fca07d585e3a278a6a96206ce2f07c79f3efb780cdc7c9cdint, 0x145da6d981bd4e723d36913c7a0740c7d9376cbfc99bdfb8e6764cd3f300036e7c78878768a266dd0df1d4c015eb1d85int, 0x4ceeae30d2ba61c46e66a22d14af35ec6963bc1b57e40344e4a733dcd8bd5d58ee0afa0c5e4df3a4ffd6f57104bd6fdint, x_num_cube_5_16(x), x_num_sq_5_11(x), x_num_cube_6_15(x), x_num_cube_5_17(x), x_num_sq_6_11(x), x_num_cube_6_16(x));
    lemma_horner_level(x, 0x1630c3250d7313ff01d1201bf7a74ab5db3cb17dd952799b9ed3ab9097e68f90a0870d2dcae73d19cd13c1c66f652983int, 0x10b273e7135844eee69899be7411cb1973fdfc6298986cc1fd6a6c5052ddf105dabe45ac89846fba87cc14afb2615206int, 0x11492744d209645aa9e1023fe063d9fa5fce16ce7e9f739772098fffae3c96f0b1a2b6ac4c0eaaed7d92fefae39dedd1int, 0x3e17e39603a56b271e9d86cd642583c9de8110b522c40ec2a0d1239d93e2224ab62583974c034d920a14fc3b7588fbdint, 0xec02c281684f0642c667dd9d33a0af64c0556e8c47059509b581f21935ac12fe7186444f69e028ab377f2efeef839feint, x_num_cube_5_15(x), x_num_sq_4_11(x), x_num_cube_6_14(x), x_num_cube_5_16(x), x_num_sq_5_11(x), x_num_cube_6_15(x));
    lemma_horner_level(x, 0x1630c3250d7313ff01d1201bf7a74ab5db3cb17dd952799b9ed3ab9097e68f90a0870d2dcae73d19cd13c1c66f652983int, 0x985c0ec35280bace3e18b41d1511725a3879006776adbbdc73cfd8b63ae30af31491520e36ec5b6324afe713bf73fc3int, 0x1f05d5da5c280835062eaaa81175bcbe0725e1e7a9bc9f0898562ab66a5f949ff1dbf28b4885c6abe20f658149c0ed7int, 0xe51b48aef5fd0382c845cdbaea0c7f8b08cfdaa9560ad9541632eb029c7b1367e751268345a7ea0111061093d77150eint, 0x1a791b84339c4e2e2c89be097c60b04d075bb90e3323f36f80d783ba03bd148cb5ffa0c8ae741dfe0143264739c94f0int, x_num_cube_5_14(x), x_num_sq_3_11(x), x_num_cube_6_13(x), x_num_cube_5_15(x), x_num_sq_4_11(x), x_num_cube_6_14(x));
    lemma_horner_level(x, 0x1630c3250d7313ff01d1201bf7a74ab5db3cb17dd952799b9ed3ab9097e68f90a0870d2dcae73d19cd13c1c66f652983int, 0x7d0ad6606f752d195acdf8b3af49f08697dbb42ce2918d70b707cc27c5471f5852c5215b88556b11f31ada92fddafe7int, 0x127a2434337c5508327e85269ddc90cf31c12aa4feb11567f20f9ad1e4bd0b9a83a3783682aa81bdd98f65c9ad56e9b7int, 0x148c493c7c686d393f897adc88350ad5a1ecf15e2d8bcfbb2fbd46c3d7b155b58997d4e66b66ed1af55feaeb2055b3bcint, 0xfc46e8aabb43f16cebce33fae9a7188c30b1123125c264ec79466501f1e19c8b6a8b0ec5da7d8198d6063501b26c26eint, x_num_cube_5_13(x), x_num_sq_2_11(x), x_num_cube_6_12(x), x_num_cube_5_14(x), x_num_sq_3_11(x), x_num_cube_6_13(x));
    lemma_horner_level(x, 0x1630c3250d7313ff01d1201bf7a74ab5db3cb17dd952799b9ed3ab9097e68f90a0870d2dcae73d19cd13c1c66f652983int, 0xbf5264ae1b40667e91e0f882bd2e54c7629ddb809d83c784b9024b557d09c57e3d73467280ed0560be2ef80b1344cb5int, 0x647957b19c6cb99e00db2e721b130af87729e34641618620732bcd05d875930fe05268bfc3363381013f92e2eafaddeint, 0x7d856ff01513143b2abe7c69d3a15fe14cb9be3f75a367b478fad2850228800aa5bd7e8423326ab6ca362a912292ba2int, 0x55bd1ee7e52c1082d8659ca516ff3800864e613fa94f9b7856e0675d955a177fd77128e4bd7f8db3f865772f7713095int, x_num_cube_5_12(x), x_num_sq_1_11(x), x_num_cube_6_11(x), x_num_cube_5_13(x), x_num_sq_2_11(x), x_num_cube_6_12(x));
    lemma_horner_level(x, 0x1630c3250d7313ff01d1201bf7a74ab5db3cb17dd952799b9ed3ab9097e68f90a0870d2dcae73d19cd13c1c66f652983int, 0x159ef3822f0a2e629212cea9668dbd7933a11bf6c27228e693033bf671473ed7d6d616247f651f414e325407adabfddcint, 0xb925b75f70f5beab04e8221bf2d29576e649863584a66360747d82c50b409eec94c08a0d8c1f9491deea10fd6daa73fint, 0x43f618f512bb9a32784f169340c607a05a6b269789cb7aa547955847dc9320d3a74e760789782dd01163867be7f614eint, 0x9dfe7f28f39eeb5088ba48e1677037b4a2dfed45e444d0def41a2817cd39aa7a1c980e1127492aec8b7fc512c1e2f0dint, x_num_cube_5_11(x), x_num_sq_0_11(x), x_num_cube_6_10(x), x_num_cube_5_12(x), x_num_sq_1_11(x), x_num_cube_6_11(x));
    lemma_horner_level(x, 0x1630c3250d7313ff01d1201bf7a74ab5db3cb17dd952799b9ed3ab9097e68f90a0870d2dcae73d19cd13c1c66f652983int, 0x1035372821c25bf2dc6dd18c4af4440855140372bb82fb4738b08c0fe8beeabee462da937e10ed962a8903dddaee9de9int, 0x14c7ef9b6c7705c27b79dc22364097f1497fbd3d95a3e8fb69397369d557cd3a81a2731ad62819b5965881b96c2062e1int, 0x11551ac653c0bd39961dcab3fbe0df97ecf3aa8016debfac0d1294468a62a5cc927719a62279e1a3e615bc0bcc86c96int, 0x11bbba8b7a9f2d52e2a555577e07bcbc075543ab4d539fbffbb1040a1055a8c4ba7215dd9e79868ebbd9eacf3a865270int, x_num_cube_5_10(x), x_num_sq_0_10(x), x_num_cube_6_9(x), x_num_cube_5_11(x), x_num_sq_0_11(x), x_num_cube_6_10(x));
    lemma_horner_level(x, 0x1630c3250d7313ff01d1201bf7a74ab5db3cb17dd952799b9ed3ab9097e68f90a0870d2dcae73d19cd13c1c66f652983int, 0x7fa5185b4b231fe5aabfdae6085cc581f3f5802fe5ebe00f687b5c115c5c405c92d6a6c032871fc9c379600db36da45int, 0xb0a23e320bd5e88429929fd9ed5c85b2671dbe78f37e44959f13413ed4fefc9662be41c98d347f1a86d8b235b5c7286int, 0x15a4fabf15e25fb0e4ed1de6f345a1b3c3fc61dc726e2ea386acb3145a6a3d59a591a49cc50e2f413c3070a0ef7eec65int, 0x96baa8b2b28718c2e820a26d6e8e573ad2bd5af5d3541d63dd3f3fcb49a2c057053677e830f20e5021581d72b7a6816int, x_num_cube_5_9(x), x_num_sq_0_9(x), x_num_cube_6_8(x), x_num_cube_5_10(x), x_num_sq_0_10(x), x_num_cube_6_9(x));
    lemma_horner_level(x, 0x1630c3250d7313ff01d1201bf7a74ab5db3cb17dd952799b9ed3ab9097e68f90a0870d2dcae73d19cd13c1c66f652983int, 0x4dddc3d0cbfce8a3f0ab6ffc000d89c9d7f21830082a327f3522615186a8b116f0528a69bdb705b9b2b5b7f266a1234int, 0x8c786ff5da0738d3f01d50b6490dbc835386e9fed6c9a80ecc84237e150849abbaee37465700f082e770f6e47404d84int, 0x1681f8a7cc5a616b1e07ed93d5a69fec8d2d681c9c185ff6e0541f780b5582da0ca85d820e27381589e1d3afb9b00525int, 0x77de93ede043b7f3ac6f35aa4e1944a31f2981928baf9501588d0d182894f46ff47d09d79d31686c7a32fcbb87a4477int, x_num_cube_5_8(x), x_num_sq_0_8(x), x_num_cube_6_7(x), x_num_cube_5_9(x), x_num_sq_0_9(x), x_num_cube_6_8(x));
    lemma_horner_level(x, 0x1630c3250d7313ff01d1201bf7a74ab5db3cb17dd952799b9ed3ab9097e68f90a0870d2dcae73d19cd13c1c66f652983int, 0xfad5412c77e089abe17115b3b195ae9519db9dde2f3cf6d7c56c163edac3d2a21f111f872bbadde0ba53b462a617684int, 0x149f4b619d0a81e9cf4ce7a020d03bef796a6d558eabad29b9066ec12eb90a855c95a75b09985c4a2d7ed472afeb2084int, 0x29f66e97be23a205ed1e8a56d780ecd6e04a42f5ac11fcec4eda49d258758e22cb87c002993c95b0b8e6a6a2d68ffa0int, 0x11990c2ca26603d8ca4f9b81d73b5edbcf58eea27436884781f429a376655fb8b5886c20aaf34722123e0ec033def1f8int, x_num_cube_5_7(x), x_num_sq_0_7(x), x_num_cube_6_6(x), x_num_cube_5_8(x), x_num_sq_0_8(x), x_num_cube_6_7(x));
    lemma_horner_level(x, 0x1630c3250d7313ff01d1201bf7a74ab5db3cb17dd952799b9ed3ab9097e68f90a0870d2dcae73d19cd13c1c66f652983int, 0x17c6c5930cb90719d48aebfebec21193c4d3960256300a287dc6a851f615d69aff3116b7cae4cba3c58dae3dfe65c2c5int, 0x12326f9f1ae44948f01f5eabee78ad267fe65a9fb292184a625332769998136c41db98982f200dd18d174589a338d9deint, 0x5b1703ab830d80a1ad09aa28198ffe0e4561f19c360599366df142832e595d4ffa571aa5d8cb24bcfbfb0315c21ab41int, 0xf873e15e369ff0440ee8ecf23473a6b1b7b8539673d1f8103aad444df1d7de9926dcf3142f28b26335a2389792bd942int, x_num_cube_5_6(x), x_num_sq_0_6(x), x_num_cube_6_5(x), x_num_cube_5_7(x), x_num_sq_0_7(x), x_num_cube_6_6(x));
    lemma_horner_level(x, 0x1630c3250d7313ff01d1201bf7a74ab5db3cb17dd952799b9ed3ab9097e68f90a0870d2dcae73d19cd13c1c66f652983int, 0xdfb86277464118a8d9d78196a816ff2733a35d7537120a9f599d2f719cc43a7ae487c6f5a58f4af85165cf208ac7bf2int, 0x124c09bb2b761cfda20498068762a7832d996f5f8f59cc47aee059e559bc80ec0dff7c1f4464c67d317405a4c92808aint, 0x980df0b76139429dc4eaef62210eddc0e321f0452562b690c7cfe54c08ee4202301f0209bf9894ed5ae2675a0aaea24int, 0xf9d16fcc0cf1eb0219fefdb165c408f6abba8c9c9f2182f631bf4b7e9b5125f355c98732a4736700bd652d4a6aec70int, x_num_cube_5_5(x), x_num_sq_0_5(x), x_num_cube_6_4(x), x_num_cube_5_6(x), x_num_sq_0_6(x), x_num_cube_6_5(x));
    lemma_horner_level(x, 0x1630c3250d7313ff01d1201bf7a74ab5db3cb17dd952799b9ed3ab9097e68f90a0870d2dcae73d19cd13c1c66f652983int, 0x974d4c302f294c2528621735f75126bd5f949669e5fb7478a539de4fe9eb6bdbe07cf23823402618ccc340cc238ac01int, 0xcc27d2f0a264472b9d11f9a7b7d9851e25a861a2d59254abcc8855e6d620ac395c13557908663da454742b9ef4c7169int, 0x15447533691b041d4a14b22b94f9b109da7c83fb2491979e7679f706c951979e10a1217baf5bec37bfcf14365d3f1b8cint, 0xae36f44fe5c36f3f7d9c6690373a2c879f8af0f023af70f4b1d4008ca058aa4d86b2125d72bd65dc719458c9403dbd2int, x_num_cube_5_4(x), x_num_sq_0_4(x), x_num_cube_6_3(x), x_num_cube_5_5(x), x_num_sq_0_5(x), x_num_cube_6_4(x));
    lemma_horner_level(x, 0x1630c3250d7313ff01d1201bf7a74ab5db3cb17dd952799b9ed3ab9097e68f90a0870d2dcae73d19cd13c1c66f652983int, 0x75d6de4a915fd79b549590719a5f46cf0b5883f591e10cd493188d4c7a96b6d0b0b2db92781830b4cb136c2c368fcc4int, 0x15758cea31f0ae2751d9d8fa15f00e06030ac121c8cd2d6085234da1a2fdb049ad4b535eae28e78bc11ad91546ccc12bint, 0x12df9613473c2cdcc95905dbbce9683c0e0dcb62bcc4d716dd99b333b4fdacfb903d1ba485d8d63f25f25413e68e809eint, 0x124fe1a0090fa0a30b62943a67ce69536228b249d18133c5a7257546328641e035eadb48f53aaafa99e1380fcb0abf91int, x_num_cube_5_3(x), x_num_sq_0_3(x), x_num_cube_6_2(x), x_num_cube_5_4(x), x_num_sq_0_4(x), x_num_cube_6_3(x));
    lemma_horner_level(x, 0x1630c3250d7313ff01d1201bf7a74ab5db3cb17dd952799b9ed3ab9097e68f90a0870d2dcae73d19cd13c1c66f652983int, 0x81582d532546a01d3798d0ecb5000c3133e10ace2d5fc705e7f5f113b1d85a9c75f43f4feb0c3bb942ee73c28f77fedint, 0x2af191986cf1ecb974c106351594d92ba89fbe04bf566979537d690a02490afc5ad54a8dfcf9c9639641b56d8fcfee1int, 0x3afa94a2f4e6e4968fd098182bbafe56e157592721d739b32db5b672241996e85e0c1e8457d7d5e65421e866fdc0e1dint, 0x24a5482f9ad9650833adce4c382d51988b8a633e74d07c3fe8ea83e501beee240a3d7af5c41b0f6cce97250e5cf0cf9int, x_num_cube_5_2(x), x_num_sq_0_2(x), x_num_cube_6_1(x), x_num_cube_5_3(x), x_num_sq_0_3(x), x_num_cube_6_2(x));
    lemma_horner_level(x, 0x1630c3250d7313ff01d1201bf7a74ab5db3cb17dd952799b9ed3ab9097e68f90a0870d2dcae73d19cd13c1c66f652983int, 0x8f41437ca84c204c2c27d1bb74785abde156d79379f333ac8f98d89fb8caa8e582075ed343787c4838a4b2cc8522634int, 0x1350edf8796a4b8239c507c1d3709ae33e8b533da811c47b1acccc1aae68adaa56ba8d29e9c9e175677fd655a0dd3d78int, 0x74be257212ecb9c7cbffa9c40baf806f2ecb32ce03b8026a20664d9b6f688de1c0b063e36d425ad5dbcd15028d4985int, 0x107bb83efd587dbcc53e25d074de1c7b59c2d3e88f66300c926bcfaedbe2e132ecdcf07e5d225ffaa82921c837106f2bint, x_num_cube_5_1(x), x_num_sq_0_1(x), x_num_cube_6_0(x), x_num_cube_5_2(x), x_num_sq_0_2(x), x_num_cube_6_1(x));
    lemma_horner_level(x, 0x1630c3250d7313ff01d1201bf7a74ab5db3cb17dd952799b9ed3ab9097e68f90a0870d2dcae73d19cd13c1c66f652983int, 0x18f050e3c695904664d491461ea3a8ba55f978024c9038fd55bbd2f0f005bd0c0c77b8884ef122b1c2db2ee4ec342e54int, 0x853ba4ee724d0738e345eb00520059a21e98b19f025e906d2d3db32e37dcef6fc62267726aabd6492c0d61bc9d30141int, 0x0int, 0x71b182a586956a24ec205c5928485fa6524bfe00a7446f0776ca6a9f5c419590223fbfae09882fe09dbdacb17a69ccdint, x_num_cube_5_0(x), x_num_sq_0_0(x), times(x, x_num_cube_6_0(x)), x_num_cube_5_1(x), x_num_sq_0_1(x), x_num_cube_6_0(x));
    lemma_product_level(x, 0x1630c3250d7313ff01d1201bf7a74ab5db3cb17dd952799b9ed3ab9097e68f90a0870d2dcae73d19cd13c1c66f652983int, x_num_5(x), x_num_6(x), x_num_sq_0_0(x), x_num_cube_5_0(x), x_num_cube_6_0(x));
}

pub(crate) proof fn lemma_x_num_cube_step_4(x: int)
    ensures
        congruent(x_num_cube_4_0(x), times(x_num_4(x), x_num_sq_0_0(x))),
{
    lemma_times_zero(x);
    lemma_x_num_cube_step_5(x);
    lemma_congruent_refl(x_num_cube_5_22(x), 0xe99726a3199f4436642b4b3e4118e5499db995a1257fb3f086eeb65982fac18985a286f301e77c451154ce9ac8895d9int * 0int + x_num_cube_5_22(x));
    lemma_horner_level(x, 0xe99726a3199f4436642b4b3e4118e5499db995a1257fb3f086eeb65982fac18985a286f301e77c451154ce9ac8895d9int, 0xc7d14fa5cb70f36e7b98d340c5a35711d40c394a589ad1dbc44ac438b992253f049ff90562a5f19256980e9193715cfint, 0x1fdb435b0d2d1ccefe075627a716156584802aff4c7d9a81f3e592e0d9b8bca6dac177fe89d19dc463ef09cf258108cint, 0x2df9b58d133804abcf6e81c423133ef3d646db429aff2ff56f5cd2db0cf87fb9b4a96cf37806dc72897a5de6f20393fint, 0x11e29201166b5db2942e1e53e3072fc9933397b8eaabf3cfd0b33ed52da0d8b3a9cd215c455e96ac21a83228e05f254int, x_num_cube_4_22(x), x_num_sq_11_11(x), x_num_cube_5_21(x), x_num_cube_5_22(x), 0int, x_num_cube_5_22(x));
    lemma_horner_level(x, 0xe99726a3199f4436642b4b3e4118e5499db995a1257fb3f086eeb65982fac18985a286f301e77c451154ce9ac8895d9int, 0x53249303bc7be12521f63d93106c1b3ae291220d3cd9e2fc19503c27ca2a6471ad61535a7a085f75d87d092da8fd806int, 0xc84818625900d8e036db43a84800d1ba5b71a4469d4c73cec32af2dad651a2c1afcd9c4aa7abff71742d525027aa711int, 0x12a1db7683723e497556543fb351a9e9e3bd3b09c32eced4164ec483f3452e2f41bad2b7cbb5e2fee9edfd240fd3d599int, 0x7071726f0b92e936505b566520e83c5f27864ff1edff26674a0f92b04dc13faba27064f39211be07847c43e1e757ff4int, x_num_cube_4_21(x), x_num_sq_10_11(x), x_num_cube_5_20(x), x_num_cube_4_22(x), x_num_sq_11_11(x), x_num_cube_5_21(x));
    lemma_horner_level(x, 0xe99726a3199f4436642b4b3e4118e5499db995a1257fb3f086eeb65982fac18985a286f301e77c451154ce9ac8895d9int, 0x75eaec6fbfaefada85e80665599058c7651c237a81487761838bbe880abc005a3abf10abc9fc2440b5f1b07929fc05bint, 0x2a2c9d7fea4a7c5303fff70ed905757495ade9712ee51341372eb97cb585a4d6311b4e19e773e15b947013cced1e239int, 0xb231e0a9fb64c17308311854788e509ba422744eb61e2a70bdb6ab245f0e089bb8ff0dcd3302ffeaa4a65f08555e9aint, 0x17ad7df44d0a7da3ca96c4603c204fc4ecc9b70124ee87e2994cbb81b0236fe9c5bd3549a9dfafb0744f74be264a8b0int, x_num_cube_4_20(x), x_num_sq_9_11(x), x_num_cube_5_19(x), x_num_cube_4_21(x), x_num_sq_10_11(x), x_num_cube_5_20(x));
    lemma_horner_level(x, 0xe99726a3199f4436642b4b3e4118e5499db995a1257fb3f086eeb65982fac18985a286f301e77c451154ce9ac8895d9int, 0x18e9e392fff6c820aeb34589df6cba9eae0614d17ba36c21d6181d0039d2679e2d58d06e01a0c3e8cbba3998b19077dbint, 0x77ca8155129d2bbd927c0937c3d717ec0f2e9faab2fc21e221bed4a2605e77eb8ec93d339b46ee0138bd886b2b6a083int, 0x771407b2bcd1c7d0931211af966e04bb30a65c772ca8a36ad977839fbac0ff165849565e124819e438565ac59d946c0int, 0x4340f3003a22cce8578592be671a30336c46fea98cdd78ee2632d7411f96b5fd30b02e2621df8a2b97dba3a852156d0int, x_num_cube_4_19(x), x_num_sq_8_11(x), x_num_cube_5_18(x), x_num_cube_4_20(x), x_num_sq_9_11(x), x_num_cube_5_19(x));
    lemma_horner_level(x, 0xe99726a3199f4436642b4b3e4118e5499db995a1257fb3f086eeb65982fac18985a286f301e77c451154ce9ac8895d9int, 0x116c4b7cebb4c96d6e9c0f82011a582b0de38096a562e7de6b5413ebf5e074a19db53544dc5a5666f780473a9863b06cint, 0x10e50bca7606a80778007aa8810dbd635d0e26f78b4cfbb4784cf9d949c1bcdc6edcc5418eb0893aeca6510e05caab5bint, 0xf691c3af847676e018e8d0db01074784f2563e16212743b4dc5f07f5c43215faaafadac80a086a36d26252f10a5502cint, 0x97c309da0c520acba780bc60993d454cdf0643785982be4c894e72c12f1b8ab2dbbf7b5784d8581ff59ec8c0e0b84a9int, x_num_cube_4_18(x), x_num_sq_7_11(x), x_num_cube_5_17(x), x_num_cube_4_19(x), x_num_sq_8_11(x), x_num_cube_5_18(x));
    lemma_horner_level(x, 0xe99726a3199f4436642b4b3e4118e5499db995a1257fb3f086eeb65982fac18985a286f301e77c451154ce9ac8895d9int, 0x750285b023ef067f84fd279de47636e759522408ba8b2a3d986a8f2374f74c33ca56c9f65061a8bfa5b2c4c548adcbdint, 0x7093daf78e450be77c82e5f63de46763661d878ffe65ec4f83653fa40f6339077bf8e994a27e30a85f7b447976040edint, 0x55203dcf051d782ac47e61cacd815df5c07a3fbcbf8ebae0a92b7284584f92fc13ad8a3913f0b02a06aed07aea996dint, 0x3f34318485930065b036cd3634de5997509fc591d33b45fc332bb458e39a2a8dbd8cd4fe3ca59e0d9276208c7b923bfint, x_num_cube_4_17(x), x_num_sq_6_11(x), x_num_cube_5_16(x), x_num_cube_4_18(x), x_num_sq_7_11(x), x_num_cube_5_17(x));
    lemma_horner_level(x, 0xe99726a3199f4436642b4b3e4118e5499db995a1257fb3f086eeb65982fac18985a286f301e77c451154ce9ac8895d9int, 0x4eb1ecada4dd9102959a149a984be3e28112b5ae744c7f737665d50fddd7e0e782ebb47413c94f02a8f3dcb00918ddbint, 0x5a27730e0a74277ecd9acaa24f6a0020e193ff17b068685fca07d585e3a278a6a96206ce2f07c79f3efb780cdc7c9cdint, 0x10b273e7135844eee69899be7411cb1973fdfc6298986cc1fd6a6c5052ddf105dabe45ac89846fba87cc14afb2615206int, 0x329d6283735f889d818a7c89387d16f403afabe11b0fd1ed213fdbd5b6477709a93e864d6e6623bccbdc8d578626bd0int, x_num_cube_4_16(x), x_num_sq_5_11(x), x_num_cube_5_15(x), x_num_cube_4_17(x), x_num_sq_6_11(x), x_num_cube_5_16(x));
    lemma_horner_level(x, 0xe99726a3199f4436642b4b3e4118e5499db995a1257fb3f086eeb65982fac18985a286f301e77c451154ce9ac8895d9int, 0x1639993386d41804293024c196323186d2a8e53536cf263933e20fe99a3792bf2cd60614e663a681b55e0c1c7012b6d2int, 0x11492744d209645aa9e1023fe063d9fa5fce16ce7e9f739772098fffae3c96f0b1a2b6ac4c0eaaed7d92fefae39dedd1int, 0x985c0ec35280bace3e18b41d1511725a3879006776adbbdc73cfd8b63ae30af31491520e36ec5b6324afe713bf73fc3int, 0x9b464872c02e9e0476fe3b420ef4c4d7bc1a5a64c9510ddd4aac8a2d0d7f2f86ec137644a4950c0f0e875168def4c4eint, x_num_cube_4_15(x), x_num_sq_4_11(x), x_num_cube_5_14(x), x_num_cube_4_16(x), x_num_sq_5_11(x), x_num_cube_5_15(x));
    lemma_horner_level(x, 0xe99726a3199f4436642b4b3e4118e5499db995a1257fb3f086eeb65982fac18985a286f301e77c451154ce9ac8895d9int, 0x21f6aaa6288e9c46154a6cf9a023c904d7e7f95ca3dbcd85db1f5e2a0b0319fd9db7d2d5b2ef5389f36875d876e3f7bint, 0x1f05d5da5c280835062eaaa81175bcbe0725e1e7a9bc9f0898562ab66a5f949ff1dbf28b4885c6abe20f658149c0ed7int, 0x7d0ad6606f752d195acdf8b3af49f08697dbb42ce2918d70b707cc27c5471f5852c5215b88556b11f31ada92fddafe7int, 0x116abf21f5180255bd8d5684fd30a1b888c9ef03a2a9fe370252a3514bb4ace8e6d50a351838e3b5a57724459ba7701int, x_num_cube_4_14(x), x_num_sq_3_11(x), x_num_cube_5_13(x), x_num_cube_4_15(x), x_num_sq_4_11(x), x_num_cube_5_14(x));
    lemma_horner_level(x, 0xe99726a3199f4436642b4b3e4118e5499db995a1257fb3f086eeb65982fac18985a286f301e77c451154ce9ac8895d9int, 0x16b9c80a5b8f0b9524e9e48c74b338665a0b48964837fbf46f488abc137ed040f1464854d81cbb7ea8e5e8c79e573ea9int, 0x127a2434337c5508327e85269ddc90cf31c12aa4feb11567f20f9ad1e4bd0b9a83a3783682aa81bdd98f65c9ad56e9b7int, 0xbf5264ae1b40667e91e0f882bd2e54c7629ddb809d83c784b9024b557d09c57e3d73467280ed0560be2ef80b1344cb5int, 0xa5f9ee34fee1c653c1ab11efa9bcc37b0aa5d7e8ee514c79f93b3a9303fa7d4bbf0417421176e3b27ffcbd325db0781int, x_num_cube_4_13(x), x_num_sq_2_11(x), x_num_cube_5_12(x), x_num_cube_4_14(x), x_num_sq_3_11(x), x_num_cube_5_13(x));
    lemma_horner_level(x, 0xe99726a3199f4436642b4b3e4118e5499db995a1257fb3f086eeb65982fac18985a286f301e77c451154ce9ac8895d9int, 0x10b6df395c6564485f14911fd7e4b091ed2b4e3d9a9a068c34e3afe4221ee59737eedf92255f6f79f2f91206d6fe6ecint, 0x647957b19c6cb99e00db2e721b130af87729e34641618620732bcd05d875930fe05268bfc3363381013f92e2eafaddeint, 0x159ef3822f0a2e629212cea9668dbd7933a11bf6c27228e693033bf671473ed7d6d616247f651f414e325407adabfddcint, 0x38689c37d486b4981f1576b280ce2b87e2daf8c9655431e531589dc92cfbdfb2e38bcb1db7144ded1526279d6340a5aint, x_num_cube_4_12(x), x_num_sq_1_11(x), x_num_cube_5_11(x), x_num_cube_4_13(x), x_num_sq_2_11(x), x_num_cube_5_12(x));
    lemma_horner_level(x, 0xe99726a3199f4436642b4b3e4118e5499db995a1257fb3f086eeb65982fac18985a286f301e77c451154ce9ac8895d9int, 0x9cb939fc05892136ba4860877ff83c4dd2accad6ea8695f25494bd988ed0898f90c0b00e928a2540c869b12a2804c14int, 0xb925b75f70f5beab04e8221bf2d29576e649863584a66360747d82c50b409eec94c08a0d8c1f9491deea10fd6daa73fint, 0x1035372821c25bf2dc6dd18c4af4440855140372bb82fb4738b08c0fe8beeabee462da937e10ed962a8903dddaee9de9int, 0x67f245e1ecbda8014f7c88da9c2528f7f77bd65af64a4353f0ffe0e00b009c3506f6c9d2ec40e928bdcfde09d7543b4int, x_num_cube_4_11(x), x_num_sq_0_11(x), x_num_cube_5_10(x), x_num_cube_4_12(x), x_num_sq_1_11(x), x_num_cube_5_11(x));
    lemma_horner_level(x, 0xe99726a3199f4436642b4b3e4118e5499db995a1257fb3f086eeb65982fac18985a286f301e77c451154ce9ac8895d9int, 0x835b72318ddc50134ab0d8b20e247c3440bf57d717a2bd7fb27a94035de2b3cddc74374b80a682d7b47d3c28bd1c323int, 0x14c7ef9b6c7705c27b79dc22364097f1497fbd3d95a3e8fb69397369d557cd3a81a2731ad62819b5965881b96c2062e1int, 0x7fa5185b4b231fe5aabfdae6085cc581f3f5802fe5ebe00f687b5c115c5c405c92d6a6c032871fc9c379600db36da45int, 0xbaabf05e1ccc890a220b1280fbfdd3175579d401a2c3e679a9d9a40e352bbf454efdde4ef2059217b180aae225a9691int, x_num_cube_4_10(x), x_num_sq_0_10(x), x_num_cube_5_9(x), x_num_cube_4_11(x), x_num_sq_0_11(x), x_num_cube_5_10(x));
    lemma_horner_level(x, 0xe99726a3199f4436642b4b3e4118e5499db995a1257fb3f086eeb65982fac18985a286f301e77c451154ce9ac8895d9int, 0xcadf150e50ae1177507992b66df976daa841ae1447c1fb7eee4361562b7cf66e76a36959fa70d08f00a3dfa16ebd292int, 0xb0a23e320bd5e88429929fd9ed5c85b2671dbe78f37e44959f13413ed4fefc9662be41c98d347f1a86d8b235b5c7286int, 0x4dddc3d0cbfce8a3f0ab6ffc000d89c9d7f21830082a327f3522615186a8b116f0528a69bdb705b9b2b5b7f266a1234int, 0x632aa96473a840e85ba0e423d77cea21f66f60deba013a37d0cfb2a3e14677b2e9b5f354b1b4b7fd79465cf7fc1f3a8int, x_num_cube_4_9(x), x_num_sq_0_9(x), x_num_cube_5_8(x), x_num_cube_4_10(x), x_num_sq_0_10(x), x_num_cube_5_9(x));
    lemma_horner_level(x, 0xe99726a3199f4436642b4b3e4118e5499db995a1257fb3f086eeb65982fac18985a286f301e77c451154ce9ac8895d9int, 0x13ac219307ee668e4218c7a1be374fb81bbed9b19f90c79f1edc6a997d6a2fc17e14fe7008ddbb7c33ccb80f91d872adint, 0x8c786ff5da0738d3f01d50b6490dbc835386e9fed6c9a80ecc84237e150849abbaee37465700f082e770f6e47404d84int, 0xfad5412c77e089abe17115b3b195ae9519db9dde2f3cf6d7c56c163edac3d2a21f111f872bbadde0ba53b462a617684int, 0x4edd18a0c23ff0c399f74f22d51c293b3f0b53c104426c9cabdf7f51cc87667762b284a2d4ab38502f739ac820aa631int, x_num_cube_4_8(x), x_num_sq_0_8(x), x_num_cube_5_7(x), x_num_cube_4_9(x), x_num_sq_0_9(x), x_num_cube_5_8(x));
    lemma_horner_level(x, 0xe99726a3199f4436642b4b3e4118e5499db995a1257fb3f086eeb65982fac18985a286f301e77c451154ce9ac8895d9int, 0x1816c01c69fa3cd4fab313b9e8921ac23883695f0fbd0722adf5b1841a7eefc54ea9a70f7e166123a26e8b71b66d941dint, 0x149f4b619d0a81e9cf4ce7a020d03bef796a6d558eabad29b9066ec12eb90a855c95a75b09985c4a2d7ed472afeb2084int, 0x17c6c5930cb90719d48aebfebec21193c4d3960256300a287dc6a851f615d69aff3116b7cae4cba3c58dae3dfe65c2c5int, 0xb93edd409f3eac34b95eca385a43f9473990407c8d0c5cbf2c0cbc3ea601fe6d3d7e76530384b46f51be8865a9eb7a4int, x_num_cube_4_7(x), x_num_sq_0_7(x), x_num_cube_5_6(x), x_num_cube_4_8(x), x_num_sq_0_8(x), x_num_cube_5_7(x));
    lemma_horner_level(x, 0xe99726a3199f4436642b4b3e4118e5499db995a1257fb3f086eeb65982fac18985a286f301e77c451154ce9ac8895d9int, 0x1751b13bf5a67c1da62961acf40553265eb7b304cf0eacb2b25aeff8b934d123fdba2c97a5badc744830161261a4e63aint, 0x12326f9f1ae44948f01f5eabee78ad267fe65a9fb292184a625332769998136c41db98982f200dd18d174589a338d9deint, 0xdfb86277464118a8d9d78196a816ff2733a35d7537120a9f599d2f719cc43a7ae487c6f5a58f4af85165cf208ac7bf2int, 0xa375d0a2ce17274a68fc7ed7df322eb50f663183552daf1beb80b35226f029465845a49ddce7b1b05c2b81f67956ab2int, x_num_cube_4_6(x), x_num_sq_0_6(x), x_num_cube_5_5(x), x_num_cube_4_7(x), x_num_sq_0_7(x), x_num_cube_5_6(x));
    lemma_horner_level(x, 0xe99726a3199f4436642b4b3e4118e5499db995a1257fb3f086eeb65982fac18985a286f301e77c451154ce9ac8895d9int, 0x8a81099281418e72aa1f02e2b2ce0413842363af46fe9e138420a0e4a114a585573b927928057a0f299571fb3d4c5c0int, 0x124c09bb2b761cfda20498068762a7832d996f5f8f59cc47aee059e559bc80ec0dff7c1f4464c67d317405a4c92808aint, 0x974d4c302f294c2528621735f75126bd5f949669e5fb7478a539de4fe9eb6bdbe07cf23823402618ccc340cc238ac01int, 0xa45bcaea0e2a4dee2802f3c93b184a40c7b50b114f6a5f61d099a10c7600f82ab477fac6c1904319285b473dca87b1int, x_num_cube_4_5(x), x_num_sq_0_5(x), x_num_cube_5_4(x), x_num_cube_4_6(x), x_num_sq_0_6(x), x_num_cube_5_5(x));
    lemma_horner_level(x, 0xe99726a3199f4436642b4b3e4118e5499db995a1257fb3f086eeb65982fac18985a286f301e77c451154ce9ac8895d9int, 0x403da8e673105005f1c6ac82340a7040888d5e52b86215820a79e000f74172bf3194a2d0e45c760b0dadf746e815d25int, 0xcc27d2f0a264472b9d11f9a7b7d9851e25a861a2d59254abcc8855e6d620ac395c13557908663da454742b9ef4c7169int, 0x75d6de4a915fd79b549590719a5f46cf0b5883f591e10cd493188d4c7a96b6d0b0b2db92781830b4cb136c2c368fcc4int, 0x729e3a8075537a85238eee7b898cc17c985dffae50fffa9f4e9fd0b6c49bb4c0d9b385dd89b219c2f28010dff599be0int, x_num_cube_4_4(x), x_num_sq_0_4(x), x_num_cube_5_3(x), x_num_cube_4_5(x), x_num_sq_0_5(x), x_num_cube_5_4(x));
    lemma_horner_level(x, 0xe99726a3199f4436642b4b3e4118e5499db995a1257fb3f086eeb65982fac18985a286f301e77c451154ce9ac8895d9int, 0xe2de2278f1d47910df87a170253389be51ef3cdee958468d02fb49b1439554543127c8375ac542e6f5d1b132efc31f8int, 0x15758cea31f0ae2751d9d8fa15f00e06030ac121c8cd2d6085234da1a2fdb049ad4b535eae28e78bc11ad91546ccc12bint, 0x81582d532546a01d3798d0ecb5000c3133e10ace2d5fc705e7f5f113b1d85a9c75f43f4feb0c3bb942ee73c28f77fedint, 0xc0c37bd4498e0809e4ebd8f159230f311f9b049c9852950d8f3d4d3edc45749714cd70f5dd74241f2b819f83dab3738int, x_num_cube_4_3(x), x_num_sq_0_3(x), x_num_cube_5_2(x), x_num_cube_4_4(x), x_num_sq_0_4(x), x_num_cube_5_3(x));
    lemma_horner_level(x, 0xe99726a3199f4436642b4b3e4118e5499db995a1257fb3f086eeb65982fac18985a286f301e77c451154ce9ac8895d9int, 0x9ff3bb85fa4b6d7783e70dd21b7202b8725a30dcca4c3e2efb361cdfc8bd9f56065e447cc31b8ba132d0db15d5e0b9aint, 0x2af191986cf1ecb974c106351594d92ba89fbe04bf566979537d690a02490afc5ad54a8dfcf9c9639641b56d8fcfee1int, 0x8f41437ca84c204c2c27d1bb74785abde156d79379f333ac8f98d89fb8caa8e582075ed343787c4838a4b2cc8522634int, 0x181c11113abe0560b6cfcec4db050a4baf3ed25699fb40153f2de5abc39ac1915aaee8bf2579027e294d950dcd454f9int, x_num_cube_4_2(x), x_num_sq_0_2(x), x_num_cube_5_1(x), x_num_cube_4_3(x), x_num_sq_0_3(x), x_num_cube_5_2(x));
    lemma_horner_level(x, 0xe99726a3199f4436642b4b3e4118e5499db995a1257fb3f086eeb65982fac18985a286f301e77c451154ce9ac8895d9int, 0xf2a0ddfc325f164c955785c6c755cd96dd18c3620abbbfc07fca721692492fec95db6e85f6879bfb0bf66dbaff11487int, 0x1350edf8796a4b8239c507c1d3709ae33e8b533da811c47b1acccc1aae68adaa56ba8d29e9c9e175677fd655a0dd3d78int, 0x18f050e3c695904664d491461ea3a8ba55f978024c9038fd55bbd2f0f005bd0c0c77b8884ef122b1c2db2ee4ec342e54int, 0xad83548a24468a955457567519b3827481cd147962b0f4780bc2815777a9aa92fe31c9c7480549cdfd8016e1288258fint, x_num_cube_4_1(x), x_num_sq_0_1(x), x_num_cube_5_0(x), x_num_cube_4_2(x), x_num_sq_0_2(x), x_num_cube_5_1(x));
    lemma_horner_level(x, 0xe99726a3199f4436642b4b3e4118e5499db995a1257fb3f086eeb65982fac18985a286f301e77c451154ce9ac8895d9int, 0xc3b2541d0306ff68d2a4a5c02222cde21617c739f1257346d3afc8016d61d194a9d07ddb7fa0d952f75fb9fbadad0adint, 0x853ba4ee724d0738e345eb00520059a21e98b19f025e906d2d3db32e37dcef6fc62267726aabd6492c0d61bc9d30141int, 0x0int, 0x4acce43633da10fe121e9eb2a0f2cb3dedee875a7c5ea52dfcc63fbf54b2717bb25e2163f4c282e268c0d8ebb103d44int, x_num_cube_4_0(x), x_num_sq_0_0(x), times(x, x_num_cube_5_0(x)), x_num_cube_4_1(x), x_num_sq_0_1(x), x_num_cube_5_0(x));
    lemma_product_level(x, 0xe99726a3199f4436642b4b3e4118e5499db995a1257fb3f086eeb65982fac18985a286f301e77c451154ce9ac8895d9int, x_num_4(x), x_num_5(x), x_num_sq_0_0(x), x_num_cube_4_0(x), x_num_cube_5_0(x));
}

pub(crate) proof fn lemma_x_num_cube_step_3(x: int)
    ensures
        congruent(x_num_cube_3_0(x), times(x_num_3(x), x_num_sq_0_0(x))),
{
    lemma_times_zero(x);
    lemma_x_num_cube_step_4(x);
    lemma_congruent_refl(x_num_cube_4_22(x), 0x1778e7166fcc6db74e0609d307e55412d7f5e4656a8dbf25f1b33289f1b330835336e25ce3107193c5b388641d9b6861int * 0int + x_num_cube_4_22(x));
    lemma_horner_level(x, 0x1778e7166fcc6db74e0609d307e55412d7f5e4656a8dbf25f1b33289f1b330835336e25ce3107193c5b388641d9b6861int, 0x17e3d21194a03d1708ffb491e105f79f0f7b4e2520ac9b9fc6d418dd520bd4bbe509d6de8dfd3be38212ddf10d95aa2bint, 0x1fdb435b0d2d1ccefe075627a716156584802aff4c7d9a81f3e592e0d9b8bca6dac177fe89d19dc463ef09cf258108cint, 0x53249303bc7be12521f63d93106c1b3ae291220d3cd9e2fc19503c27ca2a6471ad61535a7a085f75d87d092da8fd806int, 0x1cc1394f15b6ecf9ce7dc591f8da21ff8ca5561d4bc0c22922149491b2db7b4de0cf65a21a583b4417a1582d034f8b5int, x_num_cube_3_22(x), x_num_sq_11_11(x), x_num_cube_4_21(x), x_num_cube_4_22(x), 0int, x_num_cube_4_22(x));
    lemma_horner_level(x, 0x1778e7166fcc6db74e0609d307e55412d7f5e4656a8dbf25f1b33289f1b330835336e25ce3107193c5b388641d9b6861int, 0xb4008edec8eb7f4b679502c66d9925ada9081225d61ab2b03355996a964351abfbcfb236c2c2be6a9bf2b9d57b7ed0bint, 0xc84818625900d8e036db43a84800d1ba5b71a4469d4c73cec32af2dad651a2c1afcd9c4aa7abff71742d525027aa711int, 0x75eaec6fbfaefada85e80665599058c7651c237a81487761838bbe880abc005a3abf10abc9fc2440b5f1b07929fc05bint, 0xb4c7f98bf899c354acb3ccecd9c5fe7089f0bcfd809e16f4f337fac5f55a0901e3804da613f52c6b4d596b654e41a43int, x_num_cube_3_21(x), x_num_sq_10_11(x), x_num_cube_4_20(x), x_num_cube_3_22(x), x_num_sq_11_11(x), x_num_cube_4_21(x));
    lemma_horner_level(x, 0x1778e7166fcc6db74e0609d307e55412d7f5e4656a8dbf25f1b33289f1b330835336e25ce3107193c5b388641d9b6861int, 0x1741906a5021cf4728c60013f6a373f892a5bd1ba76221d78088010cdc06586e562ae98a20340b5c9a5ac1d013fed305int, 0x2a2c9d7fea4a7c5303fff70ed905757495ade9712ee51341372eb97cb585a4d6311b4e19e773e15b947013cced1e239int, 0x18e9e392fff6c820aeb34589df6cba9eae0614d17ba36c21d6181d0039d2679e2d58d06e01a0c3e8cbba3998b19077dbint, 0x2611666b382dc29bf0f34c6433bdd5009caafcbb69946ccb1ced2625419fa57c4e85b85f23fc5d9e452704692d48d4dint, x_num_cube_3_20(x), x_num_sq_9_11(x), x_num_cube_4_19(x), x_num_cube_3_21(x), x_num_sq_10_11(x), x_num_cube_4_20(x));
    lemma_horner_level(x, 0x1778e7166fcc6db74e0609d307e55412d7f5e4656a8dbf25f1b33289f1b330835336e25ce3107193c5b388641d9b6861int, 0x9fe9434b23f1a9bc029c9979b18d1f29425a7d26868f4bf5c16cd24a9ca23c00d135d0a5aea56d9d6a64438a58f8139int, 0x77ca8155129d2bbd927c0937c3d717ec0f2e9faab2fc21e221bed4a2605e77eb8ec93d339b46ee0138bd886b2b6a083int, 0x116c4b7cebb4c96d6e9c0f82011a582b0de38096a562e7de6b5413ebf5e074a19db53544dc5a5666f780473a9863b06cint, 0x6c20a7388edfd4c08c4b2be83f845c2cc22a8220fe096f84537565bcabd472c326799ffb4a9b6fd91db32e54f29aa82int, x_num_cube_3_19(x), x_num_sq_8_11(x), x_num_cube_4_18(x), x_num_cube_3_20(x), x_num_sq_9_11(x), x_num_cube_4_19(x));
    lemma_horner_level(x, 0x1778e7166fcc6db74e0609d307e55412d7f5e4656a8dbf25f1b33289f1b330835336e25ce3107193c5b388641d9b6861int, 0x12e3b9d8e2f458bfa8cae7c1aef207b8795f275ec1eef404054588f63b1423dfdffc5197074957952d9e4cfd7ea5e1d2int, 0x10e50bca7606a80778007aa8810dbd635d0e26f78b4cfbb4784cf9d949c1bcdc6edcc5418eb0893aeca6510e05caab5bint, 0x750285b023ef067f84fd279de47636e759522408ba8b2a3d986a8f2374f74c33ca56c9f65061a8bfa5b2c4c548adcbdint, 0xf3fefd60f8a92a8a4fdf316bbe51c4b5fa7995c77f5b55951aee87107b3c0036cc2b72b3da43e5c4be1fa50e663a132int, x_num_cube_3_18(x), x_num_sq_7_11(x), x_num_cube_4_17(x), x_num_cube_3_19(x), x_num_sq_8_11(x), x_num_cube_4_18(x));
    lemma_horner_level(x, 0x1778e7166fcc6db74e0609d307e55412d7f5e4656a8dbf25f1b33289f1b330835336e25ce3107193c5b388641d9b6861int, 0x191ba7194ca7c704698d529f355b7b38db1b810872f2ed809f2e56f716bc6ab486bff9ffee5fee5998aad25ceb186f9aint, 0x7093daf78e450be77c82e5f63de46763661d878ffe65ec4f83653fa40f6339077bf8e994a27e30a85f7b447976040edint, 0x4eb1ecada4dd9102959a149a984be3e28112b5ae744c7f737665d50fddd7e0e782ebb47413c94f02a8f3dcb00918ddbint, 0x659dcd88f66ee7a06bf96162893b739251d687b6199f0a23d0b097c9f465ebaf16b41feac6a902646c305681b9d002aint, x_num_cube_3_17(x), x_num_sq_6_11(x), x_num_cube_4_16(x), x_num_cube_3_18(x), x_num_sq_7_11(x), x_num_cube_4_17(x));
    lemma_horner_level(x, 0x1778e7166fcc6db74e0609d307e55412d7f5e4656a8dbf25f1b33289f1b330835336e25ce3107193c5b388641d9b6861int, 0xe3cec397cf5f69c70be8414c75cfed3cc2366649e617bb39a5fd8ea31bf9b2f4d52e11044b4f7f07d3ed8df9a803979int, 0x5a27730e0a74277ecd9acaa24f6a0020e193ff17b068685fca07d585e3a278a6a96206ce2f07c79f3efb780cdc7c9cdint, 0x1639993386d41804293024c196323186d2a8e53536cf263933e20fe99a3792bf2cd60614e663a681b55e0c1c7012b6d2int, 0x51605022be54932282c6c73047adb77f15132dd147567c118c7e7d10f54f2a446e645a7c69734ef1533e2d4d532b412int, x_num_cube_3_16(x), x_num_sq_5_11(x), x_num_cube_4_15(x), x_num_cube_3_17(x), x_num_sq_6_11(x), x_num_cube_4_16(x));
    lemma_horner_level(x, 0x1778e7166fcc6db74e0609d307e55412d7f5e4656a8dbf25f1b33289f1b330835336e25ce3107193c5b388641d9b6861int, 0x618a38d83a97eb45dfe83c95045ae329f9525fa48c3655fb0cd83398278a593165c132c335313124ca9e59719e3fd46int, 0x11492744d209645aa9e1023fe063d9fa5fce16ce7e9f739772098fffae3c96f0b1a2b6ac4c0eaaed7d92fefae39dedd1int, 0x21f6aaa6288e9c46154a6cf9a023c904d7e7f95ca3dbcd85db1f5e2a0b0319fd9db7d2d5b2ef5389f36875d876e3f7bint, 0xf9a4c169abfe5fabd55e077000bbd63891100fea3bd31b54245eaf86e98aef10890c42a83efabdf47fdba5551cdd332int, x_num_cube_3_15(x), x_num_sq_4_11(x), x_num_cube_4_14(x), x_num_cube_3_16(x), x_num_sq_5_11(x), x_num_cube_4_15(x));
    lemma_horner_level(x, 0x1778e7166fcc6db74e0609d307e55412d7f5e4656a8dbf25f1b33289f1b330835336e25ce3107193c5b388641d9b6861int, 0x3476a6ad0a329bea6ec15ff7fa97aabb7c94a91ac7d5ea7f461763f1cb897701aca33c5b00007d38dc356c68c46dd9cint, 0x1f05d5da5c280835062eaaa81175bcbe0725e1e7a9bc9f0898562ab66a5f949ff1dbf28b4885c6abe20f658149c0ed7int, 0x16b9c80a5b8f0b9524e9e48c74b338665a0b48964837fbf46f488abc137ed040f1464854d81cbb7ea8e5e8c79e573ea9int, 0x1c009399b585865b737bfb41769a5e7fb4ccff322a87094c320fe29a6cd2e3fadf1ec808f91d680cdba7e75e4bf098cint, x_num_cube_3_14(x), x_num_sq_3_11(x), x_num_cube_4_13(x), x_num_cube_3_15(x), x_num_sq_4_11(x), x_num_cube_4_14(x));
    lemma_horner_level(x, 0x1778e7166fcc6db74e0609d307e55412d7f5e4656a8dbf25f1b33289f1b330835336e25ce3107193c5b388641d9b6861int, 0xae62ba897680680226b859d0a0988e4dc3ee188093bd4e6375f3b088a8c5d9697628bbf6f553ad218ccdd2c9f915f8dint, 0x127a2434337c5508327e85269ddc90cf31c12aa4feb11567f20f9ad1e4bd0b9a83a3783682aa81bdd98f65c9ad56e9b7int, 0x10b6df395c6564485f14911fd7e4b091ed2b4e3d9a9a068c34e3afe4221ee59737eedf92255f6f79f2f91206d6fe6ecint, 0x10ad970afe6706d9e7200d84e0981ef9e57fe64676f225b0050628d8923b36b028dcd58db0f595711bf1e9e45fc74922int, x_num_cube_3_13(x), x_num_sq_2_11(x), x_num_cube_4_12(x), x_num_cube_3_14(x), x_num_sq_3_11(x), x_num_cube_4_13(x));
    lemma_horner_level(x, 0x1778e7166fcc6db74e0609d307e55412d7f5e4656a8dbf25f1b33289f1b330835336e25ce3107193c5b388641d9b6861int, 0x16329f0afe1b6368d3dc181f4b83f34ccdfaa32922e6e3209b6ab3ce9425cf779788d6617b6bd78f64efa125e1b82e5int, 0x647957b19c6cb99e00db2e721b130af87729e34641618620732bcd05d875930fe05268bfc3363381013f92e2eafaddeint, 0x9cb939fc05892136ba4860877ff83c4dd2accad6ea8695f25494bd988ed0898f90c0b00e928a2540c869b12a2804c14int, 0x5ab0fa41873522d4a56746f67c51996939116f94321639d5817284acb17dc69372e295c981963898ed448abcbec8ee7int, x_num_cube_3_12(x), x_num_sq_1_11(x), x_num_cube_4_11(x), x_num_cube_3_13(x), x_num_sq_2_11(x), x_num_cube_4_12(x));
    lemma_horner_level(x, 0x1778e7166fcc6db74e0609d307e55412d7f5e4656a8dbf25f1b33289f1b330835336e25ce3107193c5b388641d9b6861int, 0x43e6c33c307af1ba0312cbe8ca94aefb731dae4c0db2052aac7bec1c2e1ae95011e4b383689d9f441fc704dc36bd596int, 0xb925b75f70f5beab04e8221bf2d29576e649863584a66360747d82c50b409eec94c08a0d8c1f9491deea10fd6daa73fint, 0x835b72318ddc50134ab0d8b20e247c3440bf57d717a2bd7fb27a94035de2b3cddc74374b80a682d7b47d3c28bd1c323int, 0xa71ed36296c8d43c17a350efaaa10d4cecdf993fd3acac38b4d7402c4e3f9fe57f078a3d297d1f341477453ef45ad44int, x_num_cube_3_11(x), x_num_sq_0_11(x), x_num_cube_4_10(x), x_num_cube_3_12(x), x_num_sq_1_11(x), x_num_cube_4_11(x));
    lemma_horner_level(x, 0x1778e7166fcc6db74e0609d307e55412d7f5e4656a8dbf25f1b33289f1b330835336e25ce3107193c5b388641d9b6861int, 0x2a55d87ef8db6604f971adba8b45926a9741b3eba748e18b73019530db45714e3d94b517653563c2914bce20a684942int, 0x14c7ef9b6c7705c27b79dc22364097f1497fbd3d95a3e8fb69397369d557cd3a81a2731ad62819b5965881b96c2062e1int, 0xcadf150e50ae1177507992b66df976daa841ae1447c1fb7eee4361562b7cf66e76a36959fa70d08f00a3dfa16ebd292int, 0x12c1f585074322cee241a24a074eb595745b33f5d9958285ff9362df6f295715e6861df613fa4c5a15efa730d24139b3int, x_num_cube_3_10(x), x_num_sq_0_10(x), x_num_cube_4_9(x), x_num_cube_3_11(x), x_num_sq_0_11(x), x_num_cube_4_10(x));
    lemma_horner_level(x, 0x1778e7166fcc6db74e0609d307e55412d7f5e4656a8dbf25f1b33289f1b330835336e25ce3107193c5b388641d9b6861int, 0x46f67d5e39bf1ff9560e4c2df86357ac64fb79c08fffd1b475adcb370d47b650c339297d600eb79ff46f281d650305fint, 0xb0a23e320bd5e88429929fd9ed5c85b2671dbe78f37e44959f13413ed4fefc9662be41c98d347f1a86d8b235b5c7286int, 0x13ac219307ee668e4218c7a1be374fb81bbed9b19f90c79f1edc6a997d6a2fc17e14fe7008ddbb7c33ccb80f91d872adint, 0x9f6f8eae2f276afd00bf7fd965bb1a611f2469686f022048e9694f21dc3d6728832a538ceb89874978b40f68ce4453cint, x_num_cube_3_9(x), x_num_sq_0_9(x), x_num_cube_4_8(x), x_num_cube_3_10(x), x_num_sq_0_10(x), x_num_cube_4_9(x));
    lemma_horner_level(x, 0x1778e7166fcc6db74e0609d307e55412d7f5e4656a8dbf25f1b33289f1b330835336e25ce3107193c5b388641d9b6861int, 0xc674163ff7874ee5eede988d01457a2499472a062c7de7d6ac6f07fdd8e68ba3ead28f776f0df1f620fddea21a02059int, 0x8c786ff5da0738d3f01d50b6490dbc835386e9fed6c9a80ecc84237e150849abbaee37465700f082e770f6e47404d84int, 0x1816c01c69fa3cd4fab313b9e8921ac23883695f0fbd0722adf5b1841a7eefc54ea9a70f7e166123a26e8b71b66d941dint, 0x7ecb23eb80da219ddcb0a14ebe548ba4f56262772a6960d45a8aeda90f4064fa1065db3c1e7a7834b4a92b21c155858int, x_num_cube_3_8(x), x_num_sq_0_8(x), x_num_cube_4_7(x), x_num_cube_3_9(x), x_num_sq_0_9(x), x_num_cube_4_8(x));
    lemma_horner_level(x, 0x1778e7166fcc6db74e0609d307e55412d7f5e4656a8dbf25f1b33289f1b330835336e25ce3107193c5b388641d9b6861int, 0x41beb780d38d10342bf0a860d5ac25174b7e8196c945110296148963e34368b987102d146bea0ce1938b98fb456e113int, 0x149f4b619d0a81e9cf4ce7a020d03bef796a6d558eabad29b9066ec12eb90a855c95a75b09985c4a2d7ed472afeb2084int, 0x1751b13bf5a67c1da62961acf40553265eb7b304cf0eacb2b25aeff8b934d123fdba2c97a5badc744830161261a4e63aint, 0x129d464dcb811966f8977f1ee29e11c40adc5454a58f3ade7f67fd1fb1e8d7c82a3edfc3432ff050b410a8356115e581int, x_num_cube_3_7(x), x_num_sq_0_7(x), x_num_cube_4_6(x), x_num_cube_3_8(x), x_num_sq_0_8(x), x_num_cube_4_7(x));
    lemma_horner_level(x, 0x1778e7166fcc6db74e0609d307e55412d7f5e4656a8dbf25f1b33289f1b330835336e25ce3107193c5b388641d9b6861int, 0x955e27b857e2f55a22a96f8f2ad20ea8eab6016a4be7398efb6013bdc9eeb7b55ec8e39323a50891de097cd417b208aint, 0x12326f9f1ae44948f01f5eabee78ad267fe65a9fb292184a625332769998136c41db98982f200dd18d174589a338d9deint, 0x8a81099281418e72aa1f02e2b2ce0413842363af46fe9e138420a0e4a114a585573b927928057a0f299571fb3d4c5c0int, 0x106cddc0f94c3ffdc8801b60d6846cd442fe78eabd80fe3a7d4e86b0efd2f72c8385b82269c7843c598f743c7f6d26fcint, x_num_cube_3_6(x), x_num_sq_0_6(x), x_num_cube_4_5(x), x_num_cube_3_7(x), x_num_sq_0_7(x), x_num_cube_4_6(x));
    lemma_horner_level(x, 0x1778e7166fcc6db74e0609d307e55412d7f5e4656a8dbf25f1b33289f1b330835336e25ce3107193c5b388641d9b6861int, 0x47695f2cc35cecbdc9caacb1c4648f52a8029eadcc84c853f4308d2956066a8e458f58652904718cfc0bc3b06720cc8int, 0x124c09bb2b761cfda20498068762a7832d996f5f8f59cc47aee059e559bc80ec0dff7c1f4464c67d317405a4c92808aint, 0x403da8e673105005f1c6ac82340a7040888d5e52b86215820a79e000f74172bf3194a2d0e45c760b0dadf746e815d25int, 0x1083f9b88ccabc7ce2927b4b3dd90228d99bcaf4eb812e4c90d452612108f717ad341faae4fb6e6223c7d236dfd3df5int, x_num_cube_3_5(x), x_num_sq_0_5(x), x_num_cube_4_4(x), x_num_cube_3_6(x), x_num_sq_0_6(x), x_num_cube_4_5(x));
    lemma_horner_level(x, 0x1778e7166fcc6db74e0609d307e55412d7f5e4656a8dbf25f1b33289f1b330835336e25ce3107193c5b388641d9b6861int, 0xf212026fbcfdb7c310b2e7e8b2b3ce9ab8e02b75a2763fdd3f27094bd7ed0c2c0137f61dddbf3e1be47bca5f1debb23int, 0xcc27d2f0a264472b9d11f9a7b7d9851e25a861a2d59254abcc8855e6d620ac395c13557908663da454742b9ef4c7169int, 0xe2de2278f1d47910df87a170253389be51ef3cdee958468d02fb49b1439554543127c8375ac542e6f5d1b132efc31f8int, 0xb84724c37cdf9375ea140390de1f4525319f7b6da08563de8ad8542d6f6679289216e2ca4c1079f96864ec0db0846daint, x_num_cube_3_4(x), x_num_sq_0_4(x), x_num_cube_4_3(x), x_num_cube_3_5(x), x_num_sq_0_5(x), x_num_cube_4_4(x));
    lemma_horner_level(x, 0x1778e7166fcc6db74e0609d307e55412d7f5e4656a8dbf25f1b33289f1b330835336e25ce3107193c5b388641d9b6861int, 0x16581fec23d9556c30139c8aa738198c5457ebb27b7746459afd459bcd1651d920d6de12254f05bc7b19a3be977e3929int, 0x15758cea31f0ae2751d9d8fa15f00e06030ac121c8cd2d6085234da1a2fdb049ad4b535eae28e78bc11ad91546ccc12bint, 0x9ff3bb85fa4b6d7783e70dd21b7202b8725a30dcca4c3e2efb361cdfc8bd9f56065e447cc31b8ba132d0db15d5e0b9aint, 0x135eab6615ef1717778ddee73461899842dedfa26bf6d70373fb35e145779366409caf7d9e09dfd89f044c60471a7334int, x_num_cube_3_3(x), x_num_sq_0_3(x), x_num_cube_4_2(x), x_num_cube_3_4(x), x_num_sq_0_4(x), x_num_cube_4_3(x));
    lemma_horner_level(x, 0x1778e7166fcc6db74e0609d307e55412d7f5e4656a8dbf25f1b33289f1b330835336e25ce3107193c5b388641d9b6861int, 0x16e9c919127c5d74a2346d99cd056ad5635467318c899d32cd69342067ad762b7c0beeb8eeea441773777d008af5f25int, 0x2af191986cf1ecb974c106351594d92ba89fbe04bf566979537d690a02490afc5ad54a8dfcf9c9639641b56d8fcfee1int, 0xf2a0ddfc325f164c955785c6c755cd96dd18c3620abbbfc07fca721692492fec95db6e85f6879bfb0bf66dbaff11487int, 0x26c32d5968eef29f08c97795dd9f5e282bc518fa2e02016fb21720e62ff1683f5d74ad1f13e6969955492bc739711e9int, x_num_cube_3_2(x), x_num_sq_0_2(x), x_num_cube_4_1(x), x_num_cube_3_3(x), x_num_sq_0_3(x), x_num_cube_4_2(x));
    lemma_horner_level(x, 0x1778e7166fcc6db74e0609d307e55412d7f5e4656a8dbf25f1b33289f1b330835336e25ce3107193c5b388641d9b6861int, 0x3b80bb79ddadd66b6923a34c11fff5503b633a30cab902d54f177209a530cc878ccac929bb18ee0166ead3a65728d8dint, 0x1350edf8796a4b8239c507c1d3709ae33e8b533da811c47b1acccc1aae68adaa56ba8d29e9c9e175677fd655a0dd3d78int, 0xc3b2541d0306ff68d2a4a5c02222cde21617c739f1257346d3afc8016d61d194a9d07ddb7fa0d952f75fb9fbadad0adint, 0x116f771b4ba8aa82902ec5a24119b023c4f256b12acdf05355f8b0911654749e2597dba14da192b875726b53d65fe8c8int, x_num_cube_3_1(x), x_num_sq_0_1(x), x_num_cube_4_0(x), x_num_cube_3_2(x), x_num_sq_0_2(x), x_num_cube_4_1(x));
    lemma_horner_level(x, 0x1778e7166fcc6db74e0609d307e55412d7f5e4656a8dbf25f1b33289f1b330835336e25ce3107193c5b388641d9b6861int, 0x6125332ba9312eba8d6c05da2974d3a5975a5aff60c5eb2d925098a6c0a1dffca69b880d5190be352e14db0ef2319ebint, 0x853ba4ee724d0738e345eb00520059a21e98b19f025e906d2d3db32e37dcef6fc62267726aabd6492c0d61bc9d30141int, 0x0int, 0x7842beb1742d4a2b324c0d12303804d42e5c1071c1b40ccb466726757dd3da7e9b2bdfdb4408c58cf1c30867c2b5722int, x_num_cube_3_0(x), x_num_sq_0_0(x), times(x, x_num_cube_4_0(x)), x_num_cube_3_1(x), x_num_sq_0_1(x), x_num_cube_4_0(x));
    lemma_product_level(x, 0x1778e7166fcc6db74e0609d307e55412d7f5e4656a8dbf25f1b33289f1b330835336e25ce3107193c5b388641d9b6861int, x_num_3(x), x_num_4(x), x_num_sq_0_0(x), x_num_cube_3_0(x), x_num_cube_4_0(x));
}

pub(crate) proof fn lemma_x_num_cube_step_2(x: int)
    ensures
        congruent(x_num_cube_2_0(x), times(x_num_2(x), x_num_sq_0_0(x))),
{
    lemma_times_zero(x);
    lemma_x_num_cube_step_3(x);
    lemma_congruent_refl(x_num_cube_3_22(x), 0xd54005db97678ec1d1048c5d10a9a1bce032473295983e56878e501ec68e25c958c3e3d2a09729fe0179f9dac9edcb0int * 0int + x_num_cube_3_22(x));
    lemma_horner_level(x, 0xd54005db97678ec1d1048c5d10a9a1bce032473295983e56878e501ec68e25c958c3e3d2a09729fe0179f9dac9edcb0int, 0xfe9d224a76d44bf475c43957b5b857bee498960f06f56f903a316a1ca8d311d3ea12603e9526afa42c2a5a783254816int, 0x1fdb435b0d2d1ccefe075627a716156584802aff4c7d9a81f3e592e0d9b8bca6dac177fe89d19dc463ef09cf258108cint, 0xb4008edec8eb7f4b679502c66d9925ada9081225d61ab2b03355996a964351abfbcfb236c2c2be6a9bf2b9d57b7ed0bint, 0x1053e1e26cd3c9cc538385948728d7822d98bc4f99e7c2782385c82ac83203f1382ca73d1940924bcd82d3730d9ff9fint, x_num_cube_2_22(x), x_num_sq_11_11(x), x_num_cube_3_21(x), x_num_cube_3_22(x), 0int, x_num_cube_3_22(x));
    lemma_horner_level(x, 0xd54005db97678ec1d1048c5d10a9a1bce032473295983e56878e501ec68e25c958c3e3d2a09729fe0179f9dac9edcb0int, 0x15ca57546ae49422941c8e477a5f6ec2c165b3fe0626be70b749b39be3db13b6ddc839a8be566fd0fc34a5bc4e60efffint, 0xc84818625900d8e036db43a84800d1ba5b71a4469d4c73cec32af2dad651a2c1afcd9c4aa7abff71742d525027aa711int, 0x1741906a5021cf4728c60013f6a373f892a5bd1ba76221d78088010cdc06586e562ae98a20340b5c9a5ac1d013fed305int, 0x66a6e5dcbe6ba943635cf456189083a338152e12d9c8158cf031fef04cb90c063d415b5733e2ec0bc7b86394e261022int, x_num_cube_2_21(x), x_num_sq_10_11(x), x_num_cube_3_20(x), x_num_cube_2_22(x), x_num_sq_11_11(x), x_num_cube_3_21(x));
    lemma_horner_level(x, 0xd54005db97678ec1d1048c5d10a9a1bce032473295983e56878e501ec68e25c958c3e3d2a09729fe0179f9dac9edcb0int, 0x114fb2efd78687f47c024095d9ccd49951693491d6147d08e61a1b0b583fd1e2bf4c0046c30ebc9fdd2dc3a9443a9e29int, 0x2a2c9d7fea4a7c5303fff70ed905757495ade9712ee51341372eb97cb585a4d6311b4e19e773e15b947013cced1e239int, 0x9fe9434b23f1a9bc029c9979b18d1f29425a7d26868f4bf5c16cd24a9ca23c00d135d0a5aea56d9d6a64438a58f8139int, 0x159dacfcf7e0dffd91c63362755c0ea2c6d86923fa2d388ce778f94eef4ef0552f5b421d7275dc242f6012ac46632c0int, x_num_cube_2_20(x), x_num_sq_9_11(x), x_num_cube_3_19(x), x_num_cube_2_21(x), x_num_sq_10_11(x), x_num_cube_3_20(x));
    lemma_horner_level(x, 0xd54005db97678ec1d1048c5d10a9a1bce032473295983e56878e501ec68e25c958c3e3d2a09729fe0179f9dac9edcb0int, 0x1363263577f8d9539b43c16c77c19cbb586d4cd0c66e28e6451e302d18b049364bbc9b8ceef9ac5e909ceac863483ee8int, 0x77ca8155129d2bbd927c0937c3d717ec0f2e9faab2fc21e221bed4a2605e77eb8ec93d339b46ee0138bd886b2b6a083int, 0x12e3b9d8e2f458bfa8cae7c1aef207b8795f275ec1eef404054588f63b1423dfdffc5197074957952d9e4cfd7ea5e1d2int, 0x3d65bfeba4ea5bac1e28be65f458a9884a5261a47ea0280092dc4baf7136dad2883a790c001d772c76e1cf2b211b2eeint, x_num_cube_2_19(x), x_num_sq_8_11(x), x_num_cube_3_18(x), x_num_cube_2_20(x), x_num_sq_9_11(x), x_num_cube_3_19(x));
    lemma_horner_level(x, 0xd54005db97678ec1d1048c5d10a9a1bce032473295983e56878e501ec68e25c958c3e3d2a09729fe0179f9dac9edcb0int, 0xc50b369b23c5ed9aea69064d1129f686dd7ae38c7748a0e4a142a0d2bce0bcd1fb9341cdd035660952bf2f4bcdcff4eint, 0x10e50bca7606a80778007aa8810dbd635d0e26f78b4cfbb4784cf9d949c1bcdc6edcc5418eb0893aeca6510e05caab5bint, 0x191ba7194ca7c704698d529f355b7b38db1b810872f2ed809f2e56f716bc6ab486bff9ffee5fee5998aad25ceb186f9aint, 0x8a8c02207c3b7c07682d3ac0a0ed82dd7f34fb23592f8a3ecda5e4f8e799827036ea08626792403163d09b1098c5894int, x_num_cube_2_18(x), x_num_sq_7_11(x), x_num_cube_3_17(x), x_num_cube_2_19(x), x_num_sq_8_11(x), x_num_cube_3_18(x));
    lemma_horner_level(x, 0xd54005db97678ec1d1048c5d10a9a1bce032473295983e56878e501ec68e25c958c3e3d2a09729fe0179f9dac9edcb0int, 0x1684e4d0b95de04b68fb799772179b856dbc18628294269cca22054e4abfa77fc59390d6c9feabb4523e819be2848522int, 0x7093daf78e450be77c82e5f63de46763661d878ffe65ec4f83653fa40f6339077bf8e994a27e30a85f7b447976040edint, 0xe3cec397cf5f69c70be8414c75cfed3cc2366649e617bb39a5fd8ea31bf9b2f4d52e11044b4f7f07d3ed8df9a803979int, 0x39b3457cb917cea3fc061feea60ba609e33badbf9cf20d509c3b09930f7d35adf9a24ae8ed8c84e17263e5b7a8309d5int, x_num_cube_2_17(x), x_num_sq_6_11(x), x_num_cube_3_16(x), x_num_cube_2_18(x), x_num_sq_7_11(x), x_num_cube_3_17(x));
    lemma_horner_level(x, 0xd54005db97678ec1d1048c5d10a9a1bce032473295983e56878e501ec68e25c958c3e3d2a09729fe0179f9dac9edcb0int, 0x1988d051de0c43d5906070d15aa51ecfb050bbb3c3c5254f78b82940bcb952c3173ed5ec10a6d28ca09e2548989674e7int, 0x5a27730e0a74277ecd9acaa24f6a0020e193ff17b068685fca07d585e3a278a6a96206ce2f07c79f3efb780cdc7c9cdint, 0x618a38d83a97eb45dfe83c95045ae329f9525fa48c3655fb0cd83398278a593165c132c335313124ca9e59719e3fd46int, 0x2e35185e43cb518fc24b132d2e5f002ffef3a79ee9016dfa9c76a69b7d04dd0749c12fb353f7ff14937f6af31bc53edint, x_num_cube_2_16(x), x_num_sq_5_11(x), x_num_cube_3_15(x), x_num_cube_2_17(x), x_num_sq_6_11(x), x_num_cube_3_16(x));
    lemma_horner_level(x, 0xd54005db97678ec1d1048c5d10a9a1bce032473295983e56878e501ec68e25c958c3e3d2a09729fe0179f9dac9edcb0int, 0xba4ad0523e3e3e84ff593d2a8c51ba17bb1c7b5acfec73c5e037078b6a6c97dc0579782dbaadb6d4b9bff1d71b17020int, 0x11492744d209645aa9e1023fe063d9fa5fce16ce7e9f739772098fffae3c96f0b1a2b6ac4c0eaaed7d92fefae39dedd1int, 0x3476a6ad0a329bea6ec15ff7fa97aabb7c94a91ac7d5ea7f461763f1cb897701aca33c5b00007d38dc356c68c46dd9cint, 0x8dc0f3089f0c94175d97819fa8625b89f6d4a9bb370f98a611d5df44488becea67225a8bb7ed0410e8ca0a623179b84int, x_num_cube_2_15(x), x_num_sq_4_11(x), x_num_cube_3_14(x), x_num_cube_2_16(x), x_num_sq_5_11(x), x_num_cube_3_15(x));
    lemma_horner_level(x, 0xd54005db97678ec1d1048c5d10a9a1bce032473295983e56878e501ec68e25c958c3e3d2a09729fe0179f9dac9edcb0int, 0xfd27f3eb9d136c92b35f3c9f0e14dbf8254e85822973e1543a97059815ea4dcc9eed83093b03115d02f99b91d7ec09fint, 0x1f05d5da5c280835062eaaa81175bcbe0725e1e7a9bc9f0898562ab66a5f949ff1dbf28b4885c6abe20f658149c0ed7int, 0xae62ba897680680226b859d0a0988e4dc3ee188093bd4e6375f3b088a8c5d9697628bbf6f553ad218ccdd2c9f915f8dint, 0xfe67e165aa926778153be6322999be1b2494917ab42c99897da2078827288828f215d83308525622348d3df8a8c43aint, x_num_cube_2_14(x), x_num_sq_3_11(x), x_num_cube_3_13(x), x_num_cube_2_15(x), x_num_sq_4_11(x), x_num_cube_3_14(x));
    lemma_horner_level(x, 0xd54005db97678ec1d1048c5d10a9a1bce032473295983e56878e501ec68e25c958c3e3d2a09729fe0179f9dac9edcb0int, 0x25c874749469944ad26b7a3ad36fd1d7003aca85fb5086b46c5f643133927ee7bbea7a1de410794164d813fe43a69e2int, 0x127a2434337c5508327e85269ddc90cf31c12aa4feb11567f20f9ad1e4bd0b9a83a3783682aa81bdd98f65c9ad56e9b7int, 0x16329f0afe1b6368d3dc181f4b83f34ccdfaa32922e6e3209b6ab3ce9425cf779788d6617b6bd78f64efa125e1b82e5int, 0x97860963e6da3851732dc892f5b7f6a4b2e7dacb4957fe764d7c3ca0bf0e59428bbc2ff9a79c38b07e426c3bcc02079int, x_num_cube_2_13(x), x_num_sq_2_11(x), x_num_cube_3_12(x), x_num_cube_2_14(x), x_num_sq_3_11(x), x_num_cube_3_13(x));
    lemma_horner_level(x, 0xd54005db97678ec1d1048c5d10a9a1bce032473295983e56878e501ec68e25c958c3e3d2a09729fe0179f9dac9edcb0int, 0x185589165e2105e35f2f4ea55b1b3882f19188b082f92224f529ea9451e93fc5057447fd59e51858e54e5a89eac431e5int, 0x647957b19c6cb99e00db2e721b130af87729e34641618620732bcd05d875930fe05268bfc3363381013f92e2eafaddeint, 0x43e6c33c307af1ba0312cbe8ca94aefb731dae4c0db2052aac7bec1c2e1ae95011e4b383689d9f441fc704dc36bd596int, 0x337f2a74b15e8660a5c12780626f634572bc650f65eaadea30c23580b3eaf58dbf1dc46cef6292a51c558a3028cdcf3int, x_num_cube_2_12(x), x_num_sq_1_11(x), x_num_cube_3_11(x), x_num_cube_2_13(x), x_num_sq_2_11(x), x_num_cube_3_12(x));
    lemma_horner_level(x, 0xd54005db97678ec1d1048c5d10a9a1bce032473295983e56878e501ec68e25c958c3e3d2a09729fe0179f9dac9edcb0int, 0xf4140be6a8ad609b4253858e942d2e4be15ce16255b9312f2c2845cedcd2085a16fc99cfc975e1c47779bd4c086954fint, 0xb925b75f70f5beab04e8221bf2d29576e649863584a66360747d82c50b409eec94c08a0d8c1f9491deea10fd6daa73fint, 0x2a55d87ef8db6604f971adba8b45926a9741b3eba748e18b73019530db45714e3d94b517653563c2914bce20a684942int, 0x5ee521a3bda091dd20d35351ab3d51d39aa3dfff481d0db9493affa634b7a2812508fef2297e6fa19bce3d7d83b79c9int, x_num_cube_2_11(x), x_num_sq_0_11(x), x_num_cube_3_10(x), x_num_cube_2_12(x), x_num_sq_1_11(x), x_num_cube_3_11(x));
    lemma_horner_level(x, 0xd54005db97678ec1d1048c5d10a9a1bce032473295983e56878e501ec68e25c958c3e3d2a09729fe0179f9dac9edcb0int, 0xeb782f9f8ce3f06fea31f84a69922310c99a3676ae42ee42aa81d5983ea7cb6db42616173d91dd73875e3d196d41895int, 0x14c7ef9b6c7705c27b79dc22364097f1497fbd3d95a3e8fb69397369d557cd3a81a2731ad62819b5965881b96c2062e1int, 0x46f67d5e39bf1ff9560e4c2df86357ac64fb79c08fffd1b475adcb370d47b650c339297d600eb79ff46f281d650305fint, 0xaa6ab5ee9674d3b1525447d5eeb906eae9fbe09f103fd7821c6ad13d09d571c5616c0f9c4f3982fc3298db324344b6eint, x_num_cube_2_10(x), x_num_sq_0_10(x), x_num_cube_3_9(x), x_num_cube_2_11(x), x_num_sq_0_11(x), x_num_cube_3_10(x));
    lemma_horner_level(x, 0xd54005db97678ec1d1048c5d10a9a1bce032473295983e56878e501ec68e25c958c3e3d2a09729fe0179f9dac9edcb0int, 0x17facc48b1c7d11660c2fb503541999fce5f0d0b4ce05e40859b365e099e9bbb4013665a80fa588a09ab1240c769e225int, 0xb0a23e320bd5e88429929fd9ed5c85b2671dbe78f37e44959f13413ed4fefc9662be41c98d347f1a86d8b235b5c7286int, 0xc674163ff7874ee5eede988d01457a2499472a062c7de7d6ac6f07fdd8e68ba3ead28f776f0df1f620fddea21a02059int, 0x5a881186b66d86f6a6b62d3a93ead2ca365a81aabd4a09e7ff911998d05cff7f5cc69ee913fdd4762a5c5a75fa866fcint, x_num_cube_2_9(x), x_num_sq_0_9(x), x_num_cube_3_8(x), x_num_cube_2_10(x), x_num_sq_0_10(x), x_num_cube_3_9(x));
    lemma_horner_level(x, 0xd54005db97678ec1d1048c5d10a9a1bce032473295983e56878e501ec68e25c958c3e3d2a09729fe0179f9dac9edcb0int, 0x86c1dd5ff868f439838e2dedf071f1b80bef280f2f3e7f35cc4a9b3fac3f2bdf21f28af797fa015081be17bddded32cint, 0x8c786ff5da0738d3f01d50b6490dbc835386e9fed6c9a80ecc84237e150849abbaee37465700f082e770f6e47404d84int, 0x41beb780d38d10342bf0a860d5ac25174b7e8196c945110296148963e34368b987102d146bea0ce1938b98fb456e113int, 0x47ff17561ddf6427cc9f882999647877916b2998235659bf7d1a4eea1f44081fbead247f7c6c9c52173f6c7303d59f5int, x_num_cube_2_8(x), x_num_sq_0_8(x), x_num_cube_3_7(x), x_num_cube_2_9(x), x_num_sq_0_9(x), x_num_cube_3_8(x));
    lemma_horner_level(x, 0xd54005db97678ec1d1048c5d10a9a1bce032473295983e56878e501ec68e25c958c3e3d2a09729fe0179f9dac9edcb0int, 0x13c76a814f7392996b867833fb4aacccba1c02b7993c70b6e02304ede59f773d5a023197a79d2fa1bd733739ee7141e3int, 0x149f4b619d0a81e9cf4ce7a020d03bef796a6d558eabad29b9066ec12eb90a855c95a75b09985c4a2d7ed472afeb2084int, 0x955e27b857e2f55a22a96f8f2ad20ea8eab6016a4be7398efb6013bdc9eeb7b55ec8e39323a50891de097cd417b208aint, 0xa91d6cf3ba77a2a4cb8d2438b6af4abe807c062d8105d97fbf750437f1a10a41768281318a2ede698f8a8113e81fc35int, x_num_cube_2_7(x), x_num_sq_0_7(x), x_num_cube_3_6(x), x_num_cube_2_8(x), x_num_sq_0_8(x), x_num_cube_3_7(x));
    lemma_horner_level(x, 0xd54005db97678ec1d1048c5d10a9a1bce032473295983e56878e501ec68e25c958c3e3d2a09729fe0179f9dac9edcb0int, 0xb7e5014744af8ac7a616e95f9c3b6990ddeb1989a95cb3977ae0a9f19050e480c62199be87176b77906d8ea57b746a9int, 0x12326f9f1ae44948f01f5eabee78ad267fe65a9fb292184a625332769998136c41db98982f200dd18d174589a338d9deint, 0x47695f2cc35cecbdc9caacb1c4648f52a8029eadcc84c853f4308d2956066a8e458f58652904718cfc0bc3b06720cc8int, 0x953a023fdb912eb1e8e3ba4454dac1b8e69a4045381529baa49cddd2423a2a47dd1afe8c9ec0e965b485ee5246b043dint, x_num_cube_2_6(x), x_num_sq_0_6(x), x_num_cube_3_5(x), x_num_cube_2_7(x), x_num_sq_0_7(x), x_num_cube_3_6(x));
    lemma_horner_level(x, 0xd54005db97678ec1d1048c5d10a9a1bce032473295983e56878e501ec68e25c958c3e3d2a09729fe0179f9dac9edcb0int, 0xc686797ec6b755377666163640437e77181ba8e3e64b5e94cfd0470c13bfa47488b7766c5b3e3ba9965cc07b94ac078int, 0x124c09bb2b761cfda20498068762a7832d996f5f8f59cc47aee059e559bc80ec0dff7c1f4464c67d317405a4c92808aint, 0xf212026fbcfdb7c310b2e7e8b2b3ce9ab8e02b75a2763fdd3f27094bd7ed0c2c0137f61dddbf3e1be47bca5f1debb23int, 0x960bf5ef4fdfe626067384d1494d3b6d19a12cb73fa84d8edd52768b09c624aa3a75dd14945e7d8d5b532e476dd4a1int, x_num_cube_2_5(x), x_num_sq_0_5(x), x_num_cube_3_4(x), x_num_cube_2_6(x), x_num_sq_0_6(x), x_num_cube_3_5(x));
    lemma_horner_level(x, 0xd54005db97678ec1d1048c5d10a9a1bce032473295983e56878e501ec68e25c958c3e3d2a09729fe0179f9dac9edcb0int, 0x6920e001595fd7f7413295a241cc479fe1efc70d2bac4c11b7141a16755af7632cd250742a3636864f6648d38391afint, 0xcc27d2f0a264472b9d11f9a7b7d9851e25a861a2d59254abcc8855e6d620ac395c13557908663da454742b9ef4c7169int, 0x16581fec23d9556c30139c8aa738198c5457ebb27b7746459afd459bcd1651d920d6de12254f05bc7b19a3be977e3929int, 0x68a33252c73ecad3856aa969955fbef191f2159eb60d4b6d35c1f0068b5533743bd0795e8b0f23712bc4b85216492feint, x_num_cube_2_4(x), x_num_sq_0_4(x), x_num_cube_3_3(x), x_num_cube_2_5(x), x_num_sq_0_5(x), x_num_cube_3_4(x));
    lemma_horner_level(x, 0xd54005db97678ec1d1048c5d10a9a1bce032473295983e56878e501ec68e25c958c3e3d2a09729fe0179f9dac9edcb0int, 0x8e725865eb934160b7de0e64c85cb082d2e281f67e4b995ebdaabf179198da60160e665ae1678459982920389169e62int, 0x15758cea31f0ae2751d9d8fa15f00e06030ac121c8cd2d6085234da1a2fdb049ad4b535eae28e78bc11ad91546ccc12bint, 0x16e9c919127c5d74a2346d99cd056ad5635467318c899d32cd69342067ad762b7c0beeb8eeea441773777d008af5f25int, 0xaffa747cfa5312887e5989465e6a3eee9a71954601297eb99b99c1b4708c7519d852f25502f9b115780dd1743b286f9int, x_num_cube_2_3(x), x_num_sq_0_3(x), x_num_cube_3_2(x), x_num_cube_2_4(x), x_num_sq_0_4(x), x_num_cube_3_3(x));
    lemma_horner_level(x, 0xd54005db97678ec1d1048c5d10a9a1bce032473295983e56878e501ec68e25c958c3e3d2a09729fe0179f9dac9edcb0int, 0x817f9888856a89e68000e58027352e336d5e10fa34ca781f29afec8f2647dcee2cdc496cd281e3cfc70c23a7f7749b0int, 0x2af191986cf1ecb974c106351594d92ba89fbe04bf566979537d690a02490afc5ad54a8dfcf9c9639641b56d8fcfee1int, 0x3b80bb79ddadd66b6923a34c11fff5503b633a30cab902d54f177209a530cc878ccac929bb18ee0166ead3a65728d8dint, 0x16029f34342d41de78e93aadc0133a75db523a02981aab6065c7034c2d07193f39ad27fcd8b35cf7ae26bcc7d1c8fa7int, x_num_cube_2_2(x), x_num_sq_0_2(x), x_num_cube_3_1(x), x_num_cube_2_3(x), x_num_sq_0_3(x), x_num_cube_3_2(x));
    lemma_horner_level(x, 0xd54005db97678ec1d1048c5d10a9a1bce032473295983e56878e501ec68e25c958c3e3d2a09729fe0179f9dac9edcb0int, 0x10e76c0e90515f2a783f759763ef6ef52fee0fef615c070d0680876cf4a5553ec9f2696e93183cba1314081477f1523eint, 0x1350edf8796a4b8239c507c1d3709ae33e8b533da811c47b1acccc1aae68adaa56ba8d29e9c9e175677fd655a0dd3d78int, 0x6125332ba9312eba8d6c05da2974d3a5975a5aff60c5eb2d925098a6c0a1dffca69b880d5190be352e14db0ef2319ebint, 0x9e676e1f08c3742d6b108375d7d4018b81e3e2e422bb3b94d86ce3c127bb33a71c70e2288b76c961883dc91bf147e87int, x_num_cube_2_1(x), x_num_sq_0_1(x), x_num_cube_3_0(x), x_num_cube_2_2(x), x_num_sq_0_2(x), x_num_cube_3_1(x));
    lemma_horner_level(x, 0xd54005db97678ec1d1048c5d10a9a1bce032473295983e56878e501ec68e25c958c3e3d2a09729fe0179f9dac9edcb0int, 0xeda09bcfc697109cac5790e1b8eb78b8837ca9072d06bcec534fe8bf4a77537671a5d272dbf1d9c5deb01475d6f7055int, 0x853ba4ee724d0738e345eb00520059a21e98b19f025e906d2d3db32e37dcef6fc62267726aabd6492c0d61bc9d30141int, 0x0int, 0x444976da6c4f47e8f1138fa1e649bcfec857bbfd4e4c1b71263f148b58791a68fbde4715872325b1ca5fe27598ad911int, x_num_cube_2_0(x), x_num_sq_0_0(x), times(x, x_num_cube_3_0(x)), x_num_cube_2_1(x), x_num_sq_0_1(x), x_num_cube_3_0(x));
    lemma_product_level(x, 0xd54005db97678ec1d1048c5d10a9a1bce032473295983e56878e501ec68e25c958c3e3d2a09729fe0179f9dac9edcb0int, x_num_2(x), x_num_3(x), x_num_sq_0_0(x), x_num_cube_2_0(x), x_num_cube_3_0(x));
}

pub(crate) proof fn lemma_x_num_cube_step_1(x: int)
    ensures
        congruent(x_num_cube_1_0(x), times(x_num_1(x), x_num_sq_0_0(x))),
{
    lemma_times_zero(x);
    lemma_x_num_cube_step_2(x);
    lemma_congruent_refl(x_num_cube_2_22(x), 0x17294ed3e943ab2f0588bab22147a81c7c17e75b2f6a8417f565e33c70d1e86b4838f2a6f318c356e834eef1b3cb83bbint * 0int + x_num_cube_2_22(x));
    lemma_horner_level(x, 0x17294ed3e943ab2f0588bab22147a81c7c17e75b2f6a8417f565e33c70d1e86b4838f2a6f318c356e834eef1b3cb83bbint, 0x888824588c2e0f82438be627d91971770aa9131438b2926309d9724487b1394d3576c434a6de0cd3fb3ce484f09ded7int, 0x1fdb435b0d2d1ccefe075627a716156584802aff4c7d9a81f3e592e0d9b8bca6dac177fe89d19dc463ef09cf258108cint, 0x15ca57546ae49422941c8e477a5f6ec2c165b3fe0626be70b749b39be3db13b6ddc839a8be566fd0fc34a5bc4e60efffint, 0x1c5fb74fdf6442ae3ad9aed72d1f9a7c862fa48ac612c1f596dd82b6d5ebcc85745d7957fbcd8dff126dda5adb86244int, x_num_cube_1_22(x), x_num_sq_11_11(x), x_num_cube_2_21(x), x_num_cube_2_22(x), 0int, x_num_cube_2_22(x));
    lemma_horner_level(x, 0x17294ed3e943ab2f0588bab22147a81c7c17e75b2f6a8417f565e33c70d1e86b4838f2a6f318c356e834eef1b3cb83bbint, 0x4074fef7e03b6f6e4f912c2a7b3eda3ae65c34294d924bb16b864b3db3a06de30e0408faa8f73ed8c4dde03edcd0f95int, 0xc84818625900d8e036db43a84800d1ba5b71a4469d4c73cec32af2dad651a2c1afcd9c4aa7abff71742d525027aa711int, 0x114fb2efd78687f47c024095d9ccd49951693491d6147d08e61a1b0b583fd1e2bf4c0046c30ebc9fdd2dc3a9443a9e29int, 0xb262f19b4448a2375573937950c969a92da4a68c1eed022f19752c5ea3dd63240ebeab2b67973a03944bb0db5f7e0fdint, x_num_cube_1_21(x), x_num_sq_10_11(x), x_num_cube_2_20(x), x_num_cube_1_22(x), x_num_sq_11_11(x), x_num_cube_2_21(x));
    lemma_horner_level(x, 0x17294ed3e943ab2f0588bab22147a81c7c17e75b2f6a8417f565e33c70d1e86b4838f2a6f318c356e834eef1b3cb83bbint, 0x496c066d8b0e73407126846ffd240fb5fb934edada64979ed5c428022bc8b14060cf66cdf182efe60967ba658effdb3int, 0x2a2c9d7fea4a7c5303fff70ed905757495ade9712ee51341372eb97cb585a4d6311b4e19e773e15b947013cced1e239int, 0x1363263577f8d9539b43c16c77c19cbb586d4cd0c66e28e6451e302d18b049364bbc9b8ceef9ac5e909ceac863483ee8int, 0x25904fa6fa760285d2abdb50c25979e6cb4dc871eb692c24128d6dbc27e489129d30c69299f4927cc75ce5b4b640388int, x_num_cube_1_20(x), x_num_sq_9_11(x), x_num_cube_2_19(x), x_num_cube_1_21(x), x_num_sq_10_11(x), x_num_cube_2_20(x));
    lemma_horner_level(x, 0x17294ed3e943ab2f0588bab22147a81c7c17e75b2f6a8417f565e33c70d1e86b4838f2a6f318c356e834eef1b3cb83bbint, 0x29906d6d0d2ed5f39db493bca41ec608d36b99c2bfd6863b7e07f41bfdd5c77a3948709e43097dbad371af18cc1b804int, 0x77ca8155129d2bbd927c0937c3d717ec0f2e9faab2fc21e221bed4a2605e77eb8ec93d339b46ee0138bd886b2b6a083int, 0xc50b369b23c5ed9aea69064d1129f686dd7ae38c7748a0e4a142a0d2bce0bcd1fb9341cdd035660952bf2f4bcdcff4eint, 0x6ab1fdccabd2c98c896fa7dfe3a55477a7e2813ce4b4c9c3616c883140f249aaa80ced4b655934a4d5c9c35e184aff1int, x_num_cube_1_19(x), x_num_sq_8_11(x), x_num_cube_2_18(x), x_num_cube_1_20(x), x_num_sq_9_11(x), x_num_cube_2_19(x));
    lemma_horner_level(x, 0x17294ed3e943ab2f0588bab22147a81c7c17e75b2f6a8417f565e33c70d1e86b4838f2a6f318c356e834eef1b3cb83bbint, 0x16928513a774986fc40d68c9f0e3005a9e08a35b268acabd8e5eb1ccc99037a140f67bdfcfc65b4d7c387334039e36eint, 0x10e50bca7606a80778007aa8810dbd635d0e26f78b4cfbb4784cf9d949c1bcdc6edcc5418eb0893aeca6510e05caab5bint, 0x1684e4d0b95de04b68fb799772179b856dbc18628294269cca22054e4abfa77fc59390d6c9feabb4523e819be2848522int, 0xf0c398a4da2a0ca74f8227c93a2bd0d9f26ed2ccb0df1662b91266c87506ac3a927e186f5b723972daf187f5a121a87int, x_num_cube_1_18(x), x_num_sq_7_11(x), x_num_cube_2_17(x), x_num_cube_1_19(x), x_num_sq_8_11(x), x_num_cube_2_18(x));
    lemma_horner_level(x, 0x17294ed3e943ab2f0588bab22147a81c7c17e75b2f6a8417f565e33c70d1e86b4838f2a6f318c356e834eef1b3cb83bbint, 0x134e779e5548a1a7b8d8a6f5a006030e3b3475b9dc971e409f844a453010165d47fa0fcb259649fa5ac2c0cf8a138567int, 0x7093daf78e450be77c82e5f63de46763661d878ffe65ec4f83653fa40f6339077bf8e994a27e30a85f7b447976040edint, 0x1988d051de0c43d5906070d15aa51ecfb050bbb3c3c5254f78b82940bcb952c3173ed5ec10a6d28ca09e2548989674e7int, 0x6445386c3769b6a71ae4c240a20ad58dabb9ce56891242b0bee18878a8dd5e31ebeac720f42524456edb6002ccceaddint, x_num_cube_1_17(x), x_num_sq_6_11(x), x_num_cube_2_16(x), x_num_cube_1_18(x), x_num_sq_7_11(x), x_num_cube_2_17(x));
    lemma_horner_level(x, 0x17294ed3e943ab2f0588bab22147a81c7c17e75b2f6a8417f565e33c70d1e86b4838f2a6f318c356e834eef1b3cb83bbint, 0x53d607b501b4a8a70f6b471f4388b0abf8da61a3097a5f33b034931e3330c565b88e9d988f471d79132c90c884b65e4int, 0x5a27730e0a74277ecd9acaa24f6a0020e193ff17b068685fca07d585e3a278a6a96206ce2f07c79f3efb780cdc7c9cdint, 0xba4ad0523e3e3e84ff593d2a8c51ba17bb1c7b5acfec73c5e037078b6a6c97dc0579782dbaadb6d4b9bff1d71b17020int, 0x504c5d843e6f8741c0c729316395e319fef00c2ff8244486f928fabf084116b3d797cec466cb2945f7e5557876d0df1int, x_num_cube_1_16(x), x_num_sq_5_11(x), x_num_cube_2_15(x), x_num_cube_1_17(x), x_num_sq_6_11(x), x_num_cube_2_16(x));
    lemma_horner_level(x, 0x17294ed3e943ab2f0588bab22147a81c7c17e75b2f6a8417f565e33c70d1e86b4838f2a6f318c356e834eef1b3cb83bbint, 0xe250b6648cc03851b4aa4fa9b806c40a47b789d9eeba9edfb9951163dc32e7b2d88fc574a93f598145241ddd436e543int, 0x11492744d209645aa9e1023fe063d9fa5fce16ce7e9f739772098fffae3c96f0b1a2b6ac4c0eaaed7d92fefae39dedd1int, 0xfd27f3eb9d136c92b35f3c9f0e14dbf8254e85822973e1543a97059815ea4dcc9eed83093b03115d02f99b91d7ec09fint, 0xf6563611b792aa2c4fbbd83730c5e897971a420c09ed71816ace8c6187a8de3412e067ef0e45e0c634718e6d4499215int, x_num_cube_1_15(x), x_num_sq_4_11(x), x_num_cube_2_14(x), x_num_cube_1_16(x), x_num_sq_5_11(x), x_num_cube_2_15(x));
    lemma_horner_level(x, 0x17294ed3e943ab2f0588bab22147a81c7c17e75b2f6a8417f565e33c70d1e86b4838f2a6f318c356e834eef1b3cb83bbint, 0x80bce0af20bbab8788f9da10177aa4dc32c950e77f3a6ca751c27b828056e82650da6b0164b9dfcbbe2ca34c704eaf1int, 0x1f05d5da5c280835062eaaa81175bcbe0725e1e7a9bc9f0898562ab66a5f949ff1dbf28b4885c6abe20f658149c0ed7int, 0x25c874749469944ad26b7a3ad36fd1d7003aca85fb5086b46c5f643133927ee7bbea7a1de410794164d813fe43a69e2int, 0x1ba19edf6d8da39ce1947d2172da531d9d600ec4799f93dda5cc54b882e8deee454c6603501823d01b6973571d610faint, x_num_cube_1_14(x), x_num_sq_3_11(x), x_num_cube_2_13(x), x_num_cube_1_15(x), x_num_sq_4_11(x), x_num_cube_2_14(x));
    lemma_horner_level(x, 0x17294ed3e943ab2f0588bab22147a81c7c17e75b2f6a8417f565e33c70d1e86b4838f2a6f318c356e834eef1b3cb83bbint, 0x6eb5702e1f4b3c16403cf607aa39582244db7bac85bb778d5a6d691585d6f1b8d6515e382130923afa5716c1be5d8beint, 0x127a2434337c5508327e85269ddc90cf31c12aa4feb11567f20f9ad1e4bd0b9a83a3783682aa81bdd98f65c9ad56e9b7int, 0x185589165e2105e35f2f4ea55b1b3882f19188b082f92224f529ea9451e93fc5057447fd59e51858e54e5a89eac431e5int, 0x107508d01827071f38729e4698de15058e937e93c3dba1ecea83576ef5a2751f87a3824daa95e22c02113beeb4ae247cint, x_num_cube_1_13(x), x_num_sq_2_11(x), x_num_cube_2_12(x), x_num_cube_1_14(x), x_num_sq_3_11(x), x_num_cube_2_13(x));
    lemma_horner_level(x, 0x17294ed3e943ab2f0588bab22147a81c7c17e75b2f6a8417f565e33c70d1e86b4838f2a6f318c356e834eef1b3cb83bbint, 0x9c932fd9d4b80943dd983541836555690ce4b5bf3b8120590e93c03812ceba8d9367add37979f789516acfb1b0bff4fint, 0x647957b19c6cb99e00db2e721b130af87729e34641618620732bcd05d875930fe05268bfc3363381013f92e2eafaddeint, 0xf4140be6a8ad609b4253858e942d2e4be15ce16255b9312f2c2845cedcd2085a16fc99cfc975e1c47779bd4c086954fint, 0x597d7136168de5f9332ef550e9d6f1f47e9331651287ff4f6a53ebcfd484254abb00ea0bd740dac6c0e59fbcff1937eint, x_num_cube_1_12(x), x_num_sq_1_11(x), x_num_cube_2_11(x), x_num_cube_1_13(x), x_num_sq_2_11(x), x_num_cube_2_12(x));
    lemma_horner_level(x, 0x17294ed3e943ab2f0588bab22147a81c7c17e75b2f6a8417f565e33c70d1e86b4838f2a6f318c356e834eef1b3cb83bbint, 0x11cb56eb8c6e37edbaf15c38acbe58c6b353461b5d156dbe01b56a337a431a20aaa852f83a497fdd2aca160f930b0c1fint, 0xb925b75f70f5beab04e8221bf2d29576e649863584a66360747d82c50b409eec94c08a0d8c1f9491deea10fd6daa73fint, 0xeb782f9f8ce3f06fea31f84a69922310c99a3676ae42ee42aa81d5983ea7cb6db42616173d91dd73875e3d196d41895int, 0xa4e81e518f4dbe440abab50c920090596acb0b63b5abea86a2fa90b18c39b8e59778470181c47ff83926e4cec935d71int, x_num_cube_1_11(x), x_num_sq_0_11(x), x_num_cube_2_10(x), x_num_cube_1_12(x), x_num_sq_1_11(x), x_num_cube_2_11(x));
    lemma_horner_level(x, 0x17294ed3e943ab2f0588bab22147a81c7c17e75b2f6a8417f565e33c70d1e86b4838f2a6f318c356e834eef1b3cb83bbint, 0xfc6edf8d25465d916e3ac0a8043dce8ed9428730a3a208b0202138f9ece78d53dd6694cf98e989a1f4f895b34910d35int, 0x14c7ef9b6c7705c27b79dc22364097f1497fbd3d95a3e8fb69397369d557cd3a81a2731ad62819b5965881b96c2062e1int, 0x17facc48b1c7d11660c2fb503541999fce5f0d0b4ce05e40859b365e099e9bbb4013665a80fa588a09ab1240c769e225int, 0x12825a051452be5fbddfd521e3a565a2a27c532a2520c97238c777f4dbc2e4c566a03fddfdf0234f5071a95d2c7096e1int, x_num_cube_1_10(x), x_num_sq_0_10(x), x_num_cube_2_9(x), x_num_cube_1_11(x), x_num_sq_0_11(x), x_num_cube_2_10(x));
    lemma_horner_level(x, 0x17294ed3e943ab2f0588bab22147a81c7c17e75b2f6a8417f565e33c70d1e86b4838f2a6f318c356e834eef1b3cb83bbint, 0x264a7b712ba151a10a0d7918e19f2c7539137db3c7553cdbb3779b458cc923e22137d10c9d9fdf8dc85316c2140f0efint, 0xb0a23e320bd5e88429929fd9ed5c85b2671dbe78f37e44959f13413ed4fefc9662be41c98d347f1a86d8b235b5c7286int, 0x86c1dd5ff868f439838e2dedf071f1b80bef280f2f3e7f35cc4a9b3fac3f2bdf21f28af797fa015081be17bddded32cint, 0x9d52e8a4e73f29679221ab1ff61a755456448455a479a26147ed830d8a039396f0e40ee220c58080f54e1e83263545dint, x_num_cube_1_9(x), x_num_sq_0_9(x), x_num_cube_2_8(x), x_num_cube_1_10(x), x_num_sq_0_10(x), x_num_cube_2_9(x));
    lemma_horner_level(x, 0x17294ed3e943ab2f0588bab22147a81c7c17e75b2f6a8417f565e33c70d1e86b4838f2a6f318c356e834eef1b3cb83bbint, 0xf083a967a8a3cfb7612a0a875e2d127da171a2ff0b99827054e155bcbe5ebe808f53f7b6ed3d7a6b89d9cb7a01b826fint, 0x8c786ff5da0738d3f01d50b6490dbc835386e9fed6c9a80ecc84237e150849abbaee37465700f082e770f6e47404d84int, 0x13c76a814f7392996b867833fb4aacccba1c02b7993c70b6e02304ede59f773d5a023197a79d2fa1bd733739ee7141e3int, 0x7d1d2e97a6293e3128a809adf8d88e45dce0b36a4d2cbd3ed7e9da96ee9734aa4d6bcb9713e9d241584337fd18ec0a0int, x_num_cube_1_8(x), x_num_sq_0_8(x), x_num_cube_2_7(x), x_num_cube_1_9(x), x_num_sq_0_9(x), x_num_cube_2_8(x));
    lemma_horner_level(x, 0x17294ed3e943ab2f0588bab22147a81c7c17e75b2f6a8417f565e33c70d1e86b4838f2a6f318c356e834eef1b3cb83bbint, 0x4a0a66d7b94f8e7d46f53e2c2abcb7c1d1891a80e92e8ac2fd01f5ca13675f35a58b612342c77f907ad8bef9664516dint, 0x149f4b619d0a81e9cf4ce7a020d03bef796a6d558eabad29b9066ec12eb90a855c95a75b09985c4a2d7ed472afeb2084int, 0xb7e5014744af8ac7a616e95f9c3b6990ddeb1989a95cb3977ae0a9f19050e480c62199be87176b77906d8ea57b746a9int, 0x125e273391bf5a970a3afab456c821116f1c2054f8840e8f7b5b7276b0d5f1b078793b303fe5c114b6dbf6cebe21c4f8int, x_num_cube_1_7(x), x_num_sq_0_7(x), x_num_cube_2_6(x), x_num_cube_1_8(x), x_num_sq_0_8(x), x_num_cube_2_7(x));
    lemma_horner_level(x, 0x17294ed3e943ab2f0588bab22147a81c7c17e75b2f6a8417f565e33c70d1e86b4838f2a6f318c356e834eef1b3cb83bbint, 0x15c5cab86a351fe4b96f474b82cc87b8f88a87c8e2ca8f0c645765a092da453471c346489b3a2f9aa9aced900836189int, 0x12326f9f1ae44948f01f5eabee78ad267fe65a9fb292184a625332769998136c41db98982f200dd18d174589a338d9deint, 0xc686797ec6b755377666163640437e77181ba8e3e64b5e94cfd0470c13bfa47488b7766c5b3e3ba9965cc07b94ac078int, 0x10352b00bab11ed3bb031d5f42acee01d01c6c1f7719ba22739cd3384a5a1511ebac6cc3ee12187568101cc271ca5a4bint, x_num_cube_1_6(x), x_num_sq_0_6(x), x_num_cube_2_5(x), x_num_cube_1_7(x), x_num_sq_0_7(x), x_num_cube_2_6(x));
    lemma_horner_level(x, 0x17294ed3e943ab2f0588bab22147a81c7c17e75b2f6a8417f565e33c70d1e86b4838f2a6f318c356e834eef1b3cb83bbint, 0x271a1857576dcce64fc42c49afc135f954c75f0086f0c3aff8abcb33db72be31dbaab8218499e15dfebed0ae85cb1baint, 0x124c09bb2b761cfda20498068762a7832d996f5f8f59cc47aee059e559bc80ec0dff7c1f4464c67d317405a4c92808aint, 0x6920e001595fd7f7413295a241cc479fe1efc70d2bac4c11b7141a16755af7632cd250742a3636864f6648d38391afint, 0x104bf89b30f4dafab8151c221cd442d5b68be8a2d3787bd1f22a44ffc6fad9ca5c4d199d7cf0aedcb005372e0672849int, x_num_cube_1_5(x), x_num_sq_0_5(x), x_num_cube_2_4(x), x_num_cube_1_6(x), x_num_sq_0_6(x), x_num_cube_2_5(x));
    lemma_horner_level(x, 0x17294ed3e943ab2f0588bab22147a81c7c17e75b2f6a8417f565e33c70d1e86b4838f2a6f318c356e834eef1b3cb83bbint, 0xc0cf64584e79fcbae44a6753129405496236f6ad36f3b1e990a7b23e16e15456c726e7fc5df44453dbba86b4a402d68int, 0xcc27d2f0a264472b9d11f9a7b7d9851e25a861a2d59254abcc8855e6d620ac395c13557908663da454742b9ef4c7169int, 0x8e725865eb934160b7de0e64c85cb082d2e281f67e4b995ebdaabf179198da60160e665ae1678459982920389169e62int, 0xb5d6414b9cdde42483c943c98c78eb23ac43b3e59083c7fdf3e893a4ee4e9c1ab27ce34a3a048a54851bed693f20b07int, x_num_cube_1_4(x), x_num_sq_0_4(x), x_num_cube_2_3(x), x_num_cube_1_5(x), x_num_sq_0_5(x), x_num_cube_2_4(x));
    lemma_horner_level(x, 0x17294ed3e943ab2f0588bab22147a81c7c17e75b2f6a8417f565e33c70d1e86b4838f2a6f318c356e834eef1b3cb83bbint, 0x12db8f93ec405e8b584b583da5d6d48ca7ebec0546ccae70528e2cbe1c0932d14a01bdc8918d4429498dddfe947b831int, 0x15758cea31f0ae2751d9d8fa15f00e06030ac121c8cd2d6085234da1a2fdb049ad4b535eae28e78bc11ad91546ccc12bint, 0x817f9888856a89e68000e58027352e336d5e10fa34ca781f29afec8f2647dcee2cdc496cd281e3cfc70c23a7f7749b0int, 0x131cfc7def7cf117b14a2d111a0fc7f5369df259aefdcc0972a08911a8f82367d50beeba75cc1eb8c70f75ebfed006b8int, x_num_cube_1_3(x), x_num_sq_0_3(x), x_num_cube_2_2(x), x_num_cube_1_4(x), x_num_sq_0_4(x), x_num_cube_2_3(x));
    lemma_horner_level(x, 0x17294ed3e943ab2f0588bab22147a81c7c17e75b2f6a8417f565e33c70d1e86b4838f2a6f318c356e834eef1b3cb83bbint, 0x2ea77fdc493f87e5f2149a5f5b1a40a0d688bf7a47c894db608e698035729ab250fbb5ad9ba9cfe127dea35e73fe752int, 0x2af191986cf1ecb974c106351594d92ba89fbe04bf566979537d690a02490afc5ad54a8dfcf9c9639641b56d8fcfee1int, 0x10e76c0e90515f2a783f759763ef6ef52fee0fef615c070d0680876cf4a5553ec9f2696e93183cba1314081477f1523eint, 0x263fbbbd112a82e84ead228166608faeb9d5d1eca9233b050fd3a90f271882ccc5071327d9e13fc72b6f4d91adc34d5int, x_num_cube_1_2(x), x_num_sq_0_2(x), x_num_cube_2_1(x), x_num_cube_1_3(x), x_num_sq_0_3(x), x_num_cube_2_2(x));
    lemma_horner_level(x, 0x17294ed3e943ab2f0588bab22147a81c7c17e75b2f6a8417f565e33c70d1e86b4838f2a6f318c356e834eef1b3cb83bbint, 0x3c8215d8938095813503bf57a6cfff4e7cd5dfcf0a1538584b1a7cda18294427f12712948c2bfd9304db1ae17f4ed9cint, 0x1350edf8796a4b8239c507c1d3709ae33e8b533da811c47b1acccc1aae68adaa56ba8d29e9c9e175677fd655a0dd3d78int, 0xeda09bcfc697109cac5790e1b8eb78b8837ca9072d06bcec534fe8bf4a77537671a5d272dbf1d9c5deb01475d6f7055int, 0x113457717ba191894b182074d9311848b5a4534b60f84b382202f2443d553565f3324b30bab04140bfc081c85f3b7423int, x_num_cube_1_1(x), x_num_sq_0_1(x), x_num_cube_2_0(x), x_num_cube_1_2(x), x_num_sq_0_2(x), x_num_cube_2_1(x));
    lemma_horner_level(x, 0x17294ed3e943ab2f0588bab22147a81c7c17e75b2f6a8417f565e33c70d1e86b4838f2a6f318c356e834eef1b3cb83bbint, 0x8c2ab64c386a7a0bf435f55f8e6a8c5bfeb063827e1078155337705f6444bb3207252ff673c1c38888aa89897fb8bccint, 0x853ba4ee724d0738e345eb00520059a21e98b19f025e906d2d3db32e37dcef6fc62267726aabd6492c0d61bc9d30141int, 0x0int, 0x76aaf07a6b86037c00ae71fa35cac8325f5f0528761391a12e30d48efe6ff123b2447ab82afce4718741928a60de50dint, x_num_cube_1_0(x), x_num_sq_0_0(x), times(x, x_num_cube_2_0(x)), x_num_cube_1_1(x), x_num_sq_0_1(x), x_num_cube_2_0(x));
    lemma_product_level(x, 0x17294ed3e943ab2f0588bab22147a81c7c17e75b2f6a8417f565e33c70d1e86b4838f2a6f318c356e834eef1b3cb83bbint, x_num_1(x), x_num_2(x), x_num_sq_0_0(x), x_num_cube_1_0(x), x_num_cube_2_0(x));
}

pub(crate) proof fn lemma_x_num_cube_step_0(x: int)
    ensures
        congruent(x_num_cube_0_0(x), times(x_num_0(x), x_num_sq_0_0(x))),
{
    lemma_times_zero(x);
    lemma_x_num_cube_step_1(x);
    lemma_congruent_refl(x_num_cube_1_22(x), 0x11a05f2b1e833340b809101dd99815856b303e88a2d7005ff2627b56cdb4e2c85610c2d5f2e62d6eaeac1662734649b7int * 0int + x_num_cube_1_22(x));
    lemma_horner_level(x, 0x11a05f2b1e833340b809101dd99815856b303e88a2d7005ff2627b56cdb4e2c85610c2d5f2e62d6eaeac1662734649b7int, 0x59c4aaf15c931e2223875c7e9fc542786793d685cc716f4a576b42b08b696f4c9b68cfbf96d1369b7ef5d0be43125daint, 0x1fdb435b0d2d1ccefe075627a716156584802aff4c7d9a81f3e592e0d9b8bca6dac177fe89d19dc463ef09cf258108cint, 0x4074fef7e03b6f6e4f912c2a7b3eda3ae65c34294d924bb16b864b3db3a06de30e0408faa8f73ed8c4dde03edcd0f95int, 0x1597e4edad1dd9d403881a990dc812642f087b77a26fb8d7097eec2dfaef531fa1af396a64b76eed75cc03b661bfd6dint, x_num_cube_0_22(x), x_num_sq_11_11(x), x_num_cube_1_21(x), x_num_cube_1_22(x), 0int, x_num_cube_1_22(x));
    lemma_horner_level(x, 0x11a05f2b1e833340b809101dd99815856b303e88a2d7005ff2627b56cdb4e2c85610c2d5f2e62d6eaeac1662734649b7int, 0x19e22c7581b97083073df026dc9c95b203b92f5bbd907913da97c0ee16b24375a6c9a0b37decca70959caa1f9d4e78c8int, 0xc84818625900d8e036db43a84800d1ba5b71a4469d4c73cec32af2dad651a2c1afcd9c4aa7abff71742d525027aa711int, 0x496c066d8b0e73407126846ffd240fb5fb934edada64979ed5c428022bc8b14060cf66cdf182efe60967ba658effdb3int, 0x87c1d765c53ac0a03683fea99e13398b7ab9532558a14896d4b2f5c1e9338df44459a67e13accaf0879905ac7006136int, x_num_cube_0_21(x), x_num_sq_10_11(x), x_num_cube_1_20(x), x_num_cube_0_22(x), x_num_sq_11_11(x), x_num_cube_1_21(x));
    lemma_horner_level(x, 0x11a05f2b1e833340b809101dd99815856b303e88a2d7005ff2627b56cdb4e2c85610c2d5f2e62d6eaeac1662734649b7int, 0x18f7b62ee35191fedeb2333c02f4613f85e831cadef3741fd5e1687263d0905d2663a396bc297381dba8bbb8317dad95int, 0x2a2c9d7fea4a7c5303fff70ed905757495ade9712ee51341372eb97cb585a4d6311b4e19e773e15b947013cced1e239int, 0x29906d6d0d2ed5f39db493bca41ec608d36b99c2bfd6863b7e07f41bfdd5c77a3948709e43097dbad371af18cc1b804int, 0x1c964932e895af471fb6c37521217fbc9dd3fa2a1213b323268b512a7f110bac3c507be16dce23ef8b35c3a90b9068aint, x_num_cube_0_20(x), x_num_sq_9_11(x), x_num_cube_1_19(x), x_num_cube_0_21(x), x_num_sq_10_11(x), x_num_cube_1_20(x));
    lemma_horner_level(x, 0x11a05f2b1e833340b809101dd99815856b303e88a2d7005ff2627b56cdb4e2c85610c2d5f2e62d6eaeac1662734649b7int, 0x151a4b33b9046b7549c90f135ac6a55783d056f3ca2eef1e9b93b1cc464725bc116617ab3f9775fc1449bbd61594be9bint, 0x77ca8155129d2bbd927c0937c3d717ec0f2e9faab2fc21e221bed4a2605e77eb8ec93d339b46ee0138bd886b2b6a083int, 0x16928513a774986fc40d68c9f0e3005a9e08a35b268acabd8e5eb1ccc99037a140f67bdfcfc65b4d7c387334039e36eint, 0x5132b92b8fff2934c02915d16e96b9d9f9b4c05217ef57619a246e494af562d5a96f055a22c3a012575b62cebc3b868int, x_num_cube_0_19(x), x_num_sq_8_11(x), x_num_cube_1_18(x), x_num_cube_0_20(x), x_num_sq_9_11(x), x_num_cube_1_19(x));
    lemma_horner_level(x, 0x11a05f2b1e833340b809101dd99815856b303e88a2d7005ff2627b56cdb4e2c85610c2d5f2e62d6eaeac1662734649b7int, 0x17aeafaf1f13f2341dfbac4544007f510a0db99bf93bed23c2d59e4295bc44ac59dd3cf1fb5d9e562b0589ff1be33318int, 0x10e50bca7606a80778007aa8810dbd635d0e26f78b4cfbb4784cf9d949c1bcdc6edcc5418eb0893aeca6510e05caab5bint, 0x134e779e5548a1a7b8d8a6f5a006030e3b3475b9dc971e409f844a453010165d47fa0fcb259649fa5ac2c0cf8a138567int, 0xb73a70856ea1c9bef57f665ad6b473c915f7d569cf4b8c108cfae9f160670f2f7e17777353bf25005cb2cab94834a14int, x_num_cube_0_18(x), x_num_sq_7_11(x), x_num_cube_1_17(x), x_num_cube_0_19(x), x_num_sq_8_11(x), x_num_cube_1_18(x));
    lemma_horner_level(x, 0x11a05f2b1e833340b809101dd99815856b303e88a2d7005ff2627b56cdb4e2c85610c2d5f2e62d6eaeac1662734649b7int, 0x11c6e0f58ecb5e4ee77a1a2023d99c29640f8fbd6a86b23b7d932d2c3e429e8c8d9bc593762d4b5ead273661c3f42eefint, 0x7093daf78e450be77c82e5f63de46763661d878ffe65ec4f83653fa40f6339077bf8e994a27e30a85f7b447976040edint, 0x53d607b501b4a8a70f6b471f4388b0abf8da61a3097a5f33b034931e3330c565b88e9d988f471d79132c90c884b65e4int, 0x4c4f0180871dbe73aba5178250779d3961c4996f635fd2e96777e6a000399d25a08e8aaae18bba6d6d7b02f8d85a020int, x_num_cube_0_17(x), x_num_sq_6_11(x), x_num_cube_1_16(x), x_num_cube_0_18(x), x_num_sq_7_11(x), x_num_cube_1_17(x));
    lemma_horner_level(x, 0x11a05f2b1e833340b809101dd99815856b303e88a2d7005ff2627b56cdb4e2c85610c2d5f2e62d6eaeac1662734649b7int, 0x134a2f67a9f913811ce416da7ed56b3cceb6633e215a0fd29a85fa82fee76d54cf0718c4da036773d03071a0f340ed14int, 0x5a27730e0a74277ecd9acaa24f6a0020e193ff17b068685fca07d585e3a278a6a96206ce2f07c79f3efb780cdc7c9cdint, 0xe250b6648cc03851b4aa4fa9b806c40a47b789d9eeba9edfb9951163dc32e7b2d88fc574a93f598145241ddd436e543int, 0x3d1bfa57d16ff51984d06a8947f83304a4f40638f1f0f14ac9d80ecb3bcff998af05744c14e56241b378590b5500c2eint, x_num_cube_0_16(x), x_num_sq_5_11(x), x_num_cube_1_15(x), x_num_cube_0_17(x), x_num_sq_6_11(x), x_num_cube_1_16(x));
    lemma_horner_level(x, 0x11a05f2b1e833340b809101dd99815856b303e88a2d7005ff2627b56cdb4e2c85610c2d5f2e62d6eaeac1662734649b7int, 0x120afc3ca93d020a37e3cf469855735fa8413efaae20ef7d4d2e52da1aa036f33e07f5a3ea36be825e1ca47cca32d015int, 0x11492744d209645aa9e1023fe063d9fa5fce16ce7e9f739772098fffae3c96f0b1a2b6ac4c0eaaed7d92fefae39dedd1int, 0x80bce0af20bbab8788f9da10177aa4dc32c950e77f3a6ca751c27b828056e82650da6b0164b9dfcbbe2ca34c704eaf1int, 0xbb78224fd484f476262b01ed1b1e1e5dc0686eb3cf941c2f85ac4c4534a7a0e44f531158cd3d746c35a7cce0dd21cc9int, x_num_cube_0_15(x), x_num_sq_4_11(x), x_num_cube_1_14(x), x_num_cube_0_16(x), x_num_sq_5_11(x), x_num_cube_1_15(x));
    lemma_horner_level(x, 0x11a05f2b1e833340b809101dd99815856b303e88a2d7005ff2627b56cdb4e2c85610c2d5f2e62d6eaeac1662734649b7int, 0x1595cf21f9ac576ed52418f1c6d4dd89c0692cb9bfe9cfeaa452a690c7a16bd7d72d08ad0cee315b904bd0f0e7ec93c9int, 0x1f05d5da5c280835062eaaa81175bcbe0725e1e7a9bc9f0898562ab66a5f949ff1dbf28b4885c6abe20f658149c0ed7int, 0x6eb5702e1f4b3c16403cf607aa39582244db7bac85bb778d5a6d691585d6f1b8d6515e382130923afa5716c1be5d8beint, 0x150739e867e18a7f03f920114d90f8e78c17c58781c8366a1598b4666ec85e608e03f81e1701eab7d3f007ec9998ef2int, x_num_cube_0_14(x), x_num_sq_3_11(x), x_num_cube_1_13(x), x_num_cube_0_15(x), x_num_sq_4_11(x), x_num_cube_1_14(x));
    lemma_horner_level(x, 0x11a05f2b1e833340b809101dd99815856b303e88a2d7005ff2627b56cdb4e2c85610c2d5f2e62d6eaeac1662734649b7int, 0x13462a1c22f1468f7e32054ead95cd7a1d103081679c878d61882debf76c1f6ad67d6e865396235164e0a9bd32434950int, 0x127a2434337c5508327e85269ddc90cf31c12aa4feb11567f20f9ad1e4bd0b9a83a3783682aa81bdd98f65c9ad56e9b7int, 0x9c932fd9d4b80943dd983541836555690ce4b5bf3b8120590e93c03812ceba8d9367add37979f789516acfb1b0bff4fint, 0xc863d26985366fea945e6f67e34b67a3d3710a36860521454372a110ba0d835457b940e80b5b13a27aece2c0b3ae470int, x_num_cube_0_13(x), x_num_sq_2_11(x), x_num_cube_1_12(x), x_num_cube_0_14(x), x_num_sq_3_11(x), x_num_cube_1_13(x));
    lemma_horner_level(x, 0x11a05f2b1e833340b809101dd99815856b303e88a2d7005ff2627b56cdb4e2c85610c2d5f2e62d6eaeac1662734649b7int, 0x107d59ff09c1f6e9726e6880501d10c299e05f368ad9d81a442ebf2cc8daa3952c0eca645a436db3e61f325738e4b7b6int, 0x647957b19c6cb99e00db2e721b130af87729e34641618620732bcd05d875930fe05268bfc3363381013f92e2eafaddeint, 0x11cb56eb8c6e37edbaf15c38acbe58c6b353461b5d156dbe01b56a337a431a20aaa852f83a497fdd2aca160f930b0c1fint, 0x441abc7d5e0d8b8e9829ddd29d22b52a647155cb62dcff7593f8d3ccb846a94b048d000a3b5335857ae8ce1095cc451int, x_num_cube_0_12(x), x_num_sq_1_11(x), x_num_cube_1_11(x), x_num_cube_0_13(x), x_num_sq_2_11(x), x_num_cube_1_12(x));
    lemma_horner_level(x, 0x11a05f2b1e833340b809101dd99815856b303e88a2d7005ff2627b56cdb4e2c85610c2d5f2e62d6eaeac1662734649b7int, 0x11108fbebbb624e1c47a46a21edf0cf614331ba3e2f4883ac905186b9fd72f74ec93753e86ebc1636dba95ba6ec181d2int, 0xb925b75f70f5beab04e8221bf2d29576e649863584a66360747d82c50b409eec94c08a0d8c1f9491deea10fd6daa73fint, 0xfc6edf8d25465d916e3ac0a8043dce8ed9428730a3a208b0202138f9ece78d53dd6694cf98e989a1f4f895b34910d35int, 0x7d7faa50599342d2a822d82e6b1654bba1bbf5395a50cd6b83b055816559f93c5b9b121573fdbd660f2751e6b5c3144int, x_num_cube_0_11(x), x_num_sq_0_11(x), x_num_cube_1_10(x), x_num_cube_0_12(x), x_num_sq_1_11(x), x_num_cube_1_11(x));
    lemma_horner_level(x, 0x11a05f2b1e833340b809101dd99815856b303e88a2d7005ff2627b56cdb4e2c85610c2d5f2e62d6eaeac1662734649b7int, 0xfe47f52ea3e57af39987b4cd93a9a638257cd7043616387dbdd9d50a4f3c918817d615d0bea7e41ec100ed1f6276edfint, 0x14c7ef9b6c7705c27b79dc22364097f1497fbd3d95a3e8fb69397369d557cd3a81a2731ad62819b5965881b96c2062e1int, 0x264a7b712ba151a10a0d7918e19f2c7539137db3c7553cdbb3779b458cc923e22137d10c9d9fdf8dc85316c2140f0efint, 0xe16052b53d6eb5d8b56bdf460fbd84b8cd0f87010dee7ee754242e47186f630adfcc06a8f55ab8c1f159cc97a9e0db5int, x_num_cube_0_10(x), x_num_sq_0_10(x), x_num_cube_1_9(x), x_num_cube_0_11(x), x_num_sq_0_11(x), x_num_cube_1_10(x));
    lemma_horner_level(x, 0x11a05f2b1e833340b809101dd99815856b303e88a2d7005ff2627b56cdb4e2c85610c2d5f2e62d6eaeac1662734649b7int, 0x143bde525d2cc01cb6c18e3b8fa338b3bf014ac0c0f19c0a22f92ab166493bebf08717ff52a919f03f6a054cfd1a7f04int, 0xb0a23e320bd5e88429929fd9ed5c85b2671dbe78f37e44959f13413ed4fefc9662be41c98d347f1a86d8b235b5c7286int, 0xf083a967a8a3cfb7612a0a875e2d127da171a2ff0b99827054e155bcbe5ebe808f53f7b6ed3d7a6b89d9cb7a01b826fint, 0x77ba597ee056156cbf75c271f47a7c94d0674432df3fc3a1765852993176ad245ad350740e74574ec68bc13b9c8459fint, x_num_cube_0_9(x), x_num_sq_0_9(x), x_num_cube_1_8(x), x_num_cube_0_10(x), x_num_sq_0_10(x), x_num_cube_1_9(x));
    lemma_horner_level(x, 0x11a05f2b1e833340b809101dd99815856b303e88a2d7005ff2627b56cdb4e2c85610c2d5f2e62d6eaeac1662734649b7int, 0xceebe97dc426365c2b547d1cf2696a181b54137ae681c62271e41566cff778edeb7c1384cff7c609f95f3ffb2653da3int, 0x8c786ff5da0738d3f01d50b6490dbc835386e9fed6c9a80ecc84237e150849abbaee37465700f082e770f6e47404d84int, 0x4a0a66d7b94f8e7d46f53e2c2abcb7c1d1891a80e92e8ac2fd01f5ca13675f35a58b612342c77f907ad8bef9664516dint, 0x5f371e077ead5ec86b80e1c2693334b71b05bef8d5c43ce5ce1417c992d6a2803666e541bd324423283b7fe58ed6372int, x_num_cube_0_8(x), x_num_sq_0_8(x), x_num_cube_1_7(x), x_num_cube_0_9(x), x_num_sq_0_9(x), x_num_cube_1_8(x));
    lemma_horner_level(x, 0x11a05f2b1e833340b809101dd99815856b303e88a2d7005ff2627b56cdb4e2c85610c2d5f2e62d6eaeac1662734649b7int, 0x177b75da84813e04fec9aab1a44606bfdd2b83fa930c002c4b6f3642ef54136c8b29536a28fbbe11bd56525b09591595int, 0x149f4b619d0a81e9cf4ce7a020d03bef796a6d558eabad29b9066ec12eb90a855c95a75b09985c4a2d7ed472afeb2084int, 0x15c5cab86a351fe4b96f474b82cc87b8f88a87c8e2ca8f0c645765a092da453471c346489b3a2f9aa9aced900836189int, 0xdfa78db72c2374b8ff937ad8f9d7c60c503deaee3fcecc4345481685d8cd67af98d59f33bb483bea8f521fa68c48af0int, x_num_cube_0_7(x), x_num_sq_0_7(x), x_num_cube_1_6(x), x_num_cube_0_8(x), x_num_sq_0_8(x), x_num_cube_1_7(x));
    lemma_horner_level(x, 0x11a05f2b1e833340b809101dd99815856b303e88a2d7005ff2627b56cdb4e2c85610c2d5f2e62d6eaeac1662734649b7int, 0x94cef3e7eb3088722012be89f1a50d9fcbc70cf37ea4d96b3edccb6df0ce7d08eacb33f7222ae7149f48e82bdce269dint, 0x12326f9f1ae44948f01f5eabee78ad267fe65a9fb292184a625332769998136c41db98982f200dd18d174589a338d9deint, 0x271a1857576dcce64fc42c49afc135f954c75f0086f0c3aff8abcb33db72be31dbaab8218499e15dfebed0ae85cb1baint, 0xc55a27b1d44829e6bcb7687ae36f2fc7996a3f2de5ef0672be195623b5c92c4bb3e9b58b0b548152a77c318d580c46dint, x_num_cube_0_6(x), x_num_sq_0_6(x), x_num_cube_1_5(x), x_num_cube_0_7(x), x_num_sq_0_7(x), x_num_cube_1_6(x));
    lemma_horner_level(x, 0x11a05f2b1e833340b809101dd99815856b303e88a2d7005ff2627b56cdb4e2c85610c2d5f2e62d6eaeac1662734649b7int, 0x10b0992537828b27152694ef93ebb3e59ad1b1b5e4643fe78385108b7726e7b217e8e85ba94864bedfa42b32e1b3ec8aint, 0x124c09bb2b761cfda20498068762a7832d996f5f8f59cc47aee059e559bc80ec0dff7c1f4464c67d317405a4c92808aint, 0xc0cf64584e79fcbae44a6753129405496236f6ad36f3b1e990a7b23e16e15456c726e7fc5df44453dbba86b4a402d68int, 0xc66fd1019fdc4bdbe926efe438bc59912caf878443cf17bf12ae5b053756d21081dfeff896d9b36de0d23ca788788cint, x_num_cube_0_5(x), x_num_sq_0_5(x), x_num_cube_1_4(x), x_num_cube_0_6(x), x_num_sq_0_6(x), x_num_cube_1_5(x));
    lemma_horner_level(x, 0x11a05f2b1e833340b809101dd99815856b303e88a2d7005ff2627b56cdb4e2c85610c2d5f2e62d6eaeac1662734649b7int, 0x196aef16f63c7691dbb7e03f08e11c7d35ef0ece377ac807e540749061a6e9af53ccafaa6bc66b378fb276b766c932bfint, 0xcc27d2f0a264472b9d11f9a7b7d9851e25a861a2d59254abcc8855e6d620ac395c13557908663da454742b9ef4c7169int, 0x12db8f93ec405e8b584b583da5d6d48ca7ebec0546ccae70528e2cbe1c0932d14a01bdc8918d4429498dddfe947b831int, 0x8a6210fdf29c3269bf9be2cfb410704cfa901d3d2df00714b66f956cf0cf16c37ca7c57466c8be89ff73e243e149983int, x_num_cube_0_4(x), x_num_sq_0_4(x), x_num_cube_1_3(x), x_num_cube_0_5(x), x_num_sq_0_5(x), x_num_cube_1_4(x));
    lemma_horner_level(x, 0x11a05f2b1e833340b809101dd99815856b303e88a2d7005ff2627b56cdb4e2c85610c2d5f2e62d6eaeac1662734649b7int, 0x19e4373f0f786a9480377f9afc38603996cc4196fbe4ef0d95ae778f64069ce9b96bdd4a41ebe59b78733ffb4e54537bint, 0x15758cea31f0ae2751d9d8fa15f00e06030ac121c8cd2d6085234da1a2fdb049ad4b535eae28e78bc11ad91546ccc12bint, 0x2ea77fdc493f87e5f2149a5f5b1a40a0d688bf7a47c894db608e698035729ab250fbb5ad9ba9cfe127dea35e73fe752int, 0xe8bb39956987f33cab7896c26b7391c3b366593bb613da620e2773610ff469d2f995f0e0d35a1adf4c5a5abf71ec5bcint, x_num_cube_0_3(x), x_num_sq_0_3(x), x_num_cube_1_2(x), x_num_cube_0_4(x), x_num_sq_0_4(x), x_num_cube_1_3(x));
    lemma_horner_level(x, 0x11a05f2b1e833340b809101dd99815856b303e88a2d7005ff2627b56cdb4e2c85610c2d5f2e62d6eaeac1662734649b7int, 0xef2b7b2abb24445a792bbaa3f53bcd4f5cc17119b68159ebb419035e5e69324c9ed35795918cc3078558c703016b794int, 0x2af191986cf1ecb974c106351594d92ba89fbe04bf566979537d690a02490afc5ad54a8dfcf9c9639641b56d8fcfee1int, 0x3c8215d8938095813503bf57a6cfff4e7cd5dfcf0a1538584b1a7cda18294427f12712948c2bfd9304db1ae17f4ed9cint, 0x1d1bc98734efef60f05dca053eba40e11fee88e75f11bbc00a38d3c6de8045f115a7747ddce9961bcab87687f62b59dint, x_num_cube_0_2(x), x_num_sq_0_2(x), x_num_cube_1_1(x), x_num_cube_0_3(x), x_num_sq_0_3(x), x_num_cube_1_2(x));
    lemma_horner_level(x, 0x11a05f2b1e833340b809101dd99815856b303e88a2d7005ff2627b56cdb4e2c85610c2d5f2e62d6eaeac1662734649b7int, 0x46f04411141047f2ae764ba7684d79db49c723841e03c498699270ec1becf542aaf8ff846054a9dfa0f9c9c7f2f8b9int, 0x1350edf8796a4b8239c507c1d3709ae33e8b533da811c47b1acccc1aae68adaa56ba8d29e9c9e175677fd655a0dd3d78int, 0x8c2ab64c386a7a0bf435f55f8e6a8c5bfeb063827e1078155337705f6444bb3207252ff673c1c38888aa89897fb8bccint, 0xd17d43c53d20013a2b159bac242cbd2c74d72f1087adb2514747210fcdf5022880ac689120434f30cbb9df406253391int, x_num_cube_0_1(x), x_num_sq_0_1(x), x_num_cube_1_0(x), x_num_cube_0_2(x), x_num_sq_0_2(x), x_num_cube_1_1(x));
    lemma_horner_level(x, 0x11a05f2b1e833340b809101dd99815856b303e88a2d7005ff2627b56cdb4e2c85610c2d5f2e62d6eaeac1662734649b7int, 0xe768dab657890e484b8233347416cbe57746ba5f1188add83934c17726a3884ea3111dc98bad37fe8b2c05f06014445int, 0x853ba4ee724d0738e345eb00520059a21e98b19f025e906d2d3db32e37dcef6fc62267726aabd6492c0d61bc9d30141int, 0x0int, 0x5a4f3c5c37911d349ccf2bf737698b1b7932322f3e397b388aa5ab4f5c78b23bc44c396550ef328feda2d0860787e96int, x_num_cube_0_0(x), x_num_sq_0_0(x), times(x, x_num_cube_1_0(x)), x_num_cube_0_1(x), x_num_sq_0_1(x), x_num_cube_1_0(x));
    lemma_product_level(x, 0x11a05f2b1e833340b809101dd99815856b303e88a2d7005ff2627b56cdb4e2c85610c2d5f2e62d6eaeac1662734649b7int, x_num_0(x), x_num_1(x), x_num_sq_0_0(x), x_num_cube_0_0(x), x_num_cube_1_0(x));
}

pub(crate) proof fn lemma_curve_identity(x: int)
    ensures
        congruent(curve_y_num_sq_0_0(x), 4 * den_sixth_0_0(x) + x_num_cube_0_0(x)),
{
    lemma_times_zero(x);
    lemma_congruent_refl(0int, 4int * 0int + 0int);
    lemma_horner_level(x, 4int, 0x30673b1c24bc7c97f094944729554461095cd85335b191fff80dffbbb553b41177f1bb29ff5dc3f24e921b95cfa5796int, 0x0int, 0x30673b1c24bc7c97f094944729554461095cd85335b191fff80dffbbb553b41177f1bb29ff5dc3f24e921b95cfa5796int, 0x0int, curve_y_num_sq_3_30(x), 0int, x_num_cube_11_22(x), 0int, 0int, 0int);
    lemma_horner_level(x, 4int, 0x15651c2428ce3826d3ddb4fe2d9a7c1243da48d3d0acd5f242e382ce856852a630d118260eae4c28591b56b4d40f9f6int, 0x0int, 0x15651c2428ce3826d3ddb4fe2d9a7c1243da48d3d0acd5f242e382ce856852a630d118260eae4c28591b56b4d40f9f6int, 0x0int, curve_y_num_sq_2_30(x), 0int, x_num_cube_10_22(x), curve_y_num_sq_3_30(x), 0int, x_num_cube_11_22(x));
    lemma_horner_level(x, 4int, 0x49bff5aa392b14782f35ce30db9c0d4a813556902e872b693a809322b9d2e4d6639a831e3e72d789fb0ba11bae62ae4int, 0x0int, 0x49bff5aa392b14782f35ce30db9c0d4a813556902e872b693a809322b9d2e4d6639a831e3e72d789fb0ba11bae62ae4int, 0x0int, curve_y_num_sq_1_30(x), 0int, x_num_cube_9_22(x), curve_y_num_sq_2_30(x), 0int, x_num_cube_10_22(x));
    lemma_horner_level(x, 4int, 0x214448820023217a545fe30bdde05f79baed78a489393deace3bd9bb679ea8c20117c8160f6397ac0da0c0cb0eeda0aint, 0x1int, 0x214448820023217a545fe30bdde05f79baed78a489393deace3bd9bb679ea8c20117c8160f6397ac0da0c0cb0eeda06int, 0x0int, curve_y_num_sq_0_30(x), den_sixth_15_15(x), x_num_cube_8_22(x), curve_y_num_sq_1_30(x), 0int, x_num_cube_9_22(x));
    lemma_horner_level(x, 4int, 0x924536df2fa0c075687cf6c65fbe7d73464390fad3860a024cf40f2400daa5cdac75477865d2f24f3e30e6ce6fec5cint, 0x21e31c5f43b99e28b2ca305d7a486ab7f10d346d1625de6fd6d270b74285e1c9a99eae331152f00ce2b8e743ac6ec73int, 0x121a900947c11fd093d19895ab1950a6db7a41faa8cf212d73c92a824a10585781f0c9b9656516eed08ef715e353e53bint, 0x1int, curve_y_num_sq_0_29(x), den_sixth_14_15(x), x_num_cube_7_22(x), curve_y_num_sq_0_30(x), den_sixth_15_15(x), x_num_cube_8_22(x));
    lemma_horner_level(x, 4int, 0x1513d11d2049b1516e53f19c6c43e75abd125de249fbc3949ce73d0c88340908577bd78d25c76c6992fdfcbf51380d3aint, 0x69b0119eb226214a28f7a623a49fbe8439cc92d176d8c857ca66c9c351f59014c9722c0431605133aa5928af0b6af70int, 0x14a8de9fad400f992f31afc9c667a491131684b2dfcaa43e117e5d3caa679b2743cb4c8acac3581c6266b2938e5cfa25int, 0x1int, curve_y_num_sq_0_28(x), den_sixth_13_15(x), x_num_cube_6_22(x), curve_y_num_sq_0_29(x), den_sixth_14_15(x), x_num_cube_7_22(x));
    lemma_horner_level(x, 4int, 0xf90535d9bece2c9bb7e0a213572c5deab5dc97507ad08fb9f59799f35fd192dbd09f9410dcbc3e59529eadb15cdbaceint, 0x4ddfd29ce8ef76f50a0b65af1fa0923b63e2307b7d3f56ecbdd1fb5822791d08d1f5cda5fcddf3e904116e5560f5819int, 0x161970a09b30eba6c416d86bb0d64e2736dc88db1be245ffd715cd6a240fc80fa73885d63fe846eb0e248f45bd900515int, 0x1int, curve_y_num_sq_0_27(x), den_sixth_12_15(x), x_num_cube_5_22(x), curve_y_num_sq_0_28(x), den_sixth_13_15(x), x_num_cube_6_22(x));
    lemma_horner_level(x, 4int, 0xc5310f4e13eb48ee052a0a40a5e9e58e47f1e422f4ea0387c963c7ca6a47aac269b5c35162be5800a3304973729b142int, 0x13764c6e4c41d649b67b02a4b1f9dbdb7d290f4f19150ad63d790206ffc78eb12495572834ff619984b1a0eb877c66ddint, 0xc7d14fa5cb70f36e7b98d340c5a35711d40c394a589ad1dbc44ac438b992253f049ff90562a5f19256980e9193715cfint, 0x3int, curve_y_num_sq_0_26(x), den_sixth_11_15(x), x_num_cube_4_22(x), curve_y_num_sq_0_27(x), den_sixth_12_15(x), x_num_cube_5_22(x));
    lemma_horner_level(x, 4int, 0x36597af9b63cbdf8f44aa3ba633c44e7c0b0205bd7fe3309e704c5a292c465079816226359952261f2697bd428ca731int, 0x7e0fa5c9e70d6ff471f114592f149978d5f92baa0f75b43e97f762fb12097773473e2d14291059084446e730d3d9497int, 0x17e3d21194a03d1708ffb491e105f79f0f7b4e2520ac9b9fc6d418dd520bd4bbe509d6de8dfd3be38212ddf10d95aa2bint, 0x2int, curve_y_num_sq_0_25(x), den_sixth_10_15(x), x_num_cube_3_22(x), curve_y_num_sq_0_26(x), den_sixth_11_15(x), x_num_cube_4_22(x));
    lemma_horner_level(x, 4int, 0x6bced99bd2334d28a321fd2efb81d6dc028091f2022225f46a78fd234f3c2a4a4c5a763b62d4627fccc54704855097eint, 0x17b5d8c77eed629f1bd11ec5a062d2d3d8eeeb747f71c598f7f1f0ed114a9a85f8352056a48ab6cb28816bb2314b9b05int, 0xfe9d224a76d44bf475c43957b5b857bee498960f06f56f903a316a1ca8d311d3ea12603e9526afa42c2a5a783254816int, 0x4int, curve_y_num_sq_0_24(x), den_sixth_9_15(x), x_num_cube_2_22(x), curve_y_num_sq_0_25(x), den_sixth_10_15(x), x_num_cube_3_22(x));
    lemma_horner_level(x, 4int, 0x11d98c5173f300d646fafd65ecc228d7362e5535ae0aeff800063f5ff205fe93df01272b7dfce2def4d625fb41342c4dint, 0xf54cb78178bfb44ae3e639bfd71fadba39c96c394627b142772935f65bb35d1d2406eb9658dc0844a4815ecbc8a68b3int, 0x888824588c2e0f82438be627d91971770aa9131438b2926309d9724487b1394d3576c434a6de0cd3fb3ce484f09ded7int, 0x2int, curve_y_num_sq_0_23(x), den_sixth_8_15(x), x_num_cube_1_22(x), curve_y_num_sq_0_24(x), den_sixth_9_15(x), x_num_cube_2_22(x));
    lemma_horner_level(x, 4int, 0x104f20b79c89b2fd6c8add012bd2a90aa6237535c873a3485d47c1c345389486e8b8368f1af79f3afadc2f6711bf855aint, 0x2acb58221b02046d29499ce50759538c7ea8df35aeb2314edf443660f207f6487c06a64c862a2f450bb3496cb6397e0int, 0x59c4aaf15c931e2223875c7e9fc542786793d685cc716f4a576b42b08b696f4c9b68cfbf96d1369b7ef5d0be43125daint, 0x0int, curve_y_num_sq_0_22(x), den_sixth_7_15(x), x_num_cube_0_22(x), curve_y_num_sq_0_23(x), den_sixth_8_15(x), x_num_cube_1_22(x));
    lemma_horner_level(x, 4int, 0xbee71e1128fcc90de63e9d2938f1a911b8f8b4e4aa4894acc39d603074772649be3c21e9d42c89ad474620d6dc20d19int, 0x30355d5729590aa089068587e8f8c6d9f1369dde02648bd9634b9ed79d18944c4f1885a742a7f8a7e35adfb741ccfbfint, 0x19e22c7581b97083073df026dc9c95b203b92f5bbd907913da97c0ee16b24375a6c9a0b37decca70959caa1f9d4e78c8int, 0x1int, curve_y_num_sq_0_21(x), den_sixth_6_15(x), x_num_cube_0_21(x), curve_y_num_sq_0_22(x), den_sixth_7_15(x), x_num_cube_0_22(x));
    lemma_horner_level(x, 4int, 0x1234617d82c6133b36873c0ac2daf45dbf7a5f6567c08d5e820d366cc80b0e550c4d928ccaf08612264936004fbdddaaint, 0x4cf6f4e363d19f5a8bc2c2140cc8ffd67825e47df148aff84d72826d6badd0701257bbd3006c4a40127de92078ff6b0int, 0x18f7b62ee35191fedeb2333c02f4613f85e831cadef3741fd5e1687263d0905d2663a396bc297381dba8bbb8317dad95int, 0x1int, curve_y_num_sq_0_20(x), den_sixth_5_15(x), x_num_cube_0_20(x), curve_y_num_sq_0_21(x), den_sixth_6_15(x), x_num_cube_0_21(x));
    lemma_horner_level(x, 4int, 0x103b3d1c58d5f53123c8be600ec3d38e990e84c813c095029b2c305eea2e270ec6588b6a63ad82d8d0ff61b7aae17cd7int, 0x18c94e6461744909419b9389704af86529c6d6fa05e97c386716f2459faab678cbe89cee7a598336e92c69786552da3aint, 0x151a4b33b9046b7549c90f135ac6a55783d056f3ca2eef1e9b93b1cc464725bc116617ab3f9775fc1449bbd61594be9bint, 0x4int, curve_y_num_sq_0_19(x), den_sixth_4_15(x), x_num_cube_0_19(x), curve_y_num_sq_0_20(x), den_sixth_5_15(x), x_num_cube_0_20(x));
    lemma_horner_level(x, 4int, 0x180bdb25625456a5a3be3b99c9d38626c250e718e0e0e4cde02fb5c9286bf84a337b58a5358679d66e4fe8e9ff0c8981int, 0x6978f581f3012c2f4378dc2b247aceb472e9e4076ca829a6122ba89e2582a707e1286ec7adf36dfff5257bab8ca4045int, 0x17aeafaf1f13f2341dfbac4544007f510a0db99bf93bed23c2d59e4295bc44ac59dd3cf1fb5d9e562b0589ff1be33318int, 0x1int, curve_y_num_sq_0_18(x), den_sixth_3_15(x), x_num_cube_0_18(x), curve_y_num_sq_0_19(x), den_sixth_4_15(x), x_num_cube_0_19(x));
    lemma_horner_level(x, 4int, 0x175fd0d7b944f80056944cd4c4e7862a2c14e626304cc35d05a07c7a1b211a505a0118a2680812e4af9a78141e23f69int, 0x8ec4ffb17f22f996d099e866bc30d7a01e8156bb7e20fde484a1ff7543457d82d5712fd04becd73c4741c47df7b5974int, 0x11c6e0f58ecb5e4ee77a1a2023d99c29640f8fbd6a86b23b7d932d2c3e429e8c8d9bc593762d4b5ead273661c3f42eefint, 0x2int, curve_y_num_sq_0_17(x), den_sixth_2_15(x), x_num_cube_0_17(x), curve_y_num_sq_0_18(x), den_sixth_3_15(x), x_num_cube_0_18(x));
    lemma_horner_level(x, 4int, 0x37955252fabe47da612690b91a275c82d6a10697591c8f80ab77bc36e0b98d8208fa8184b30050f1a690048c02678cfint, 0xf8c96df0c8ca132daa05254f72c0444630663ee8bb1bc58e970fe48d4cdc37beb6323d3e14a27669e0d63a9f33922efint, 0x134a2f67a9f913811ce416da7ed56b3cceb6633e215a0fd29a85fa82fee76d54cf0718c4da036773d03071a0f340ed14int, 0x3int, curve_y_num_sq_0_16(x), den_sixth_1_15(x), x_num_cube_0_16(x), curve_y_num_sq_0_17(x), den_sixth_2_15(x), x_num_cube_0_17(x));
    lemma_horner_level(x, 4int, 0x39a53636686c8bd523ee17198194e5ec8d8a963a8467e772c732c95ce8489fc264e70693e9c213b6c23dbaa46193e8dint, 0x1664e7b3e8d2584711b26c41033ca3972c9d261f320e767ddf02090fe3aa0ae658bd9eb0066d58adfd80cdcb5ef94649int, 0x120afc3ca93d020a37e3cf469855735fa8413efaae20ef7d4d2e52da1aa036f33e07f5a3ea36be825e1ca47cca32d015int, 0x4int, curve_y_num_sq_0_15(x), den_sixth_0_15(x), x_num_cube_0_15(x), curve_y_num_sq_0_16(x), den_sixth_1_15(x), x_num_cube_0_16(x));
    lemma_horner_level(x, 4int, 0x139dfbe6aed7d5c5107242d9fa6bf775606d1f64b0f0e5d3d8deeb739f43ade0e81f30dc6263c9dfa63c0b03b5026652int, 0x6024fabbbaad93c219a74679db8b1b0c11ecf8bf9230a2a26ef45e0f394ce0b4be78a0b81b26620f3fbce84b3455f4dint, 0x1595cf21f9ac576ed52418f1c6d4dd89c0692cb9bfe9cfeaa452a690c7a16bd7d72d08ad0cee315b904bd0f0e7ec93c9int, 0x1int, curve_y_num_sq_0_14(x), den_sixth_0_14(x), x_num_cube_0_14(x), curve_y_num_sq_0_15(x), den_sixth_0_15(x), x_num_cube_0_15(x));
    lemma_horner_level(x, 4int, 0x1fd49cf502f7f4b8d0bb1d393612a09ab5758fe6e85d5ce3e8ffb21e71d9dd7479798856e8d2371f22fe52912e4ad8eint, 0x8ae50e1e80f817c29443efc5b18ad8f95cd6fe1bb7cdcefeada5c9df744daad2b9c8a7f1f67c00800534edaf8282e65int, 0x13462a1c22f1468f7e32054ead95cd7a1d103081679c878d61882debf76c1f6ad67d6e865396235164e0a9bd32434950int, 0x2int, curve_y_num_sq_0_13(x), den_sixth_0_13(x), x_num_cube_0_13(x), curve_y_num_sq_0_14(x), den_sixth_0_14(x), x_num_cube_0_14(x));
    lemma_horner_level(x, 4int, 0x20eddf5a8bcbd755b14e1ab5bb784012637d0a7490ce53a960b95cbeba186428f181fe80f1051a109c9954040cb35c4int, 0x964e9f2c47ea4f01fb77225e48c733b5551821ea94f4ca7c80f9ef8440a33bd6818556045dd38fb25ea18ba41f974d9int, 0x107d59ff09c1f6e9726e6880501d10c299e05f368ad9d81a442ebf2cc8daa3952c0eca645a436db3e61f325738e4b7b6int, 0x2int, curve_y_num_sq_0_12(x), den_sixth_0_12(x), x_num_cube_0_12(x), curve_y_num_sq_0_13(x), den_sixth_0_13(x), x_num_cube_0_13(x));
    lemma_horner_level(x, 4int, 0xcc218493850267c9b8bec72223f6d2f7df57ca663dcb0093955385de344c4d567bb0fc87cb61b1372f85b7e3e6c6beint, 0x15eff65baf739dfbcc6b45bf841ce74e9d625a8e94576370d9d4e16786483d5a39260eee318be8132c5c3bff5d48fbe6int, 0x11108fbebbb624e1c47a46a21edf0cf614331ba3e2f4883ac905186b9fd72f74ec93753e86ebc1636dba95ba6ec181d2int, 0x4int, curve_y_num_sq_0_11(x), den_sixth_0_11(x), x_num_cube_0_11(x), curve_y_num_sq_0_12(x), den_sixth_0_12(x), x_num_cube_0_12(x));
    lemma_horner_level(x, 4int, 0x140d18a77257ecb37ad34c1a8cc0cf817d9de5b7ed88e14426ff058ef6b762c8004691d36947caf49e74b4f94c8be386int, 0x148af3c4cd265234c8a371fc1f5a4ee90a2afeb5a12dad7ea02cf8084d759f06f6b34c1c9c56532c78186989d598dd2aint, 0xfe47f52ea3e57af39987b4cd93a9a638257cd7043616387dbdd9d50a4f3c918817d615d0bea7e41ec100ed1f6276edfint, 0x3int, curve_y_num_sq_0_10(x), den_sixth_0_10(x), x_num_cube_0_10(x), curve_y_num_sq_0_11(x), den_sixth_0_11(x), x_num_cube_0_11(x));
    lemma_horner_level(x, 4int, 0xa505ff3c306ea2ef1a655a2951af8ee966615ecba1010c540b2f840023cc775dd344e64ec0274bd56ce6eeff02aff0bint, 0x1105edd804967778470defa273d6b1b04132ab6eb4eb6b3e54d3115c60019b7d922c4d986b5556b311585a68bcc3e002int, 0x143bde525d2cc01cb6c18e3b8fa338b3bf014ac0c0f19c0a22f92ab166493bebf08717ff52a919f03f6a054cfd1a7f04int, 0x3int, curve_y_num_sq_0_9(x), den_sixth_0_9(x), x_num_cube_0_9(x), curve_y_num_sq_0_10(x), den_sixth_0_10(x), x_num_cube_0_10(x));
    lemma_horner_level(x, 4int, 0xb46bc3da6825259d378040f44f0c8dd11a92e5f1a1391b11740778e27e98c9bc887facc5c56d76af3d2256903698365int, 0xc96885e8f4fef0a29be82ea7f1862fa9638a10c54ad66b36fa0f6de6a13005549ca0e645c7fd6c2720e8c5a5440e6c6int, 0xceebe97dc426365c2b547d1cf2696a181b54137ae681c62271e41566cff778edeb7c1384cff7c609f95f3ffb2653da3int, 0x2int, curve_y_num_sq_0_8(x), den_sixth_0_8(x), x_num_cube_0_8(x), curve_y_num_sq_0_9(x), den_sixth_0_9(x), x_num_cube_0_9(x));
    lemma_horner_level(x, 4int, 0x4dc46f932bdf1570c66e5faa23626279f38a2fde06bc157731f7fa4378841c11a3b1ae1acddebf8b99a31fc8fba6f8eint, 0x1d878c239ef267b162e38bfd04ef30fc9a11aa2103934faa3b847008fb9491e2b6f71dd8d4d8b79ad90b7e861984129int, 0x177b75da84813e04fec9aab1a44606bfdd2b83fa930c002c4b6f3642ef54136c8b29536a28fbbe11bd56525b09591595int, 0x1int, curve_y_num_sq_0_7(x), den_sixth_0_7(x), x_num_cube_0_7(x), curve_y_num_sq_0_8(x), den_sixth_0_8(x), x_num_cube_0_8(x));
    lemma_horner_level(x, 4int, 0x18f41fe342f5050b81401f771ed2240cdfcb8ec4044ef8410687c44d5ca62b3cd38f2172bc317218d3d448156947058cint, 0x176a9998dc306c14d0247aac5266b66e441d4020e9bcf8ba220b1bde586b097628399b8bd782b0e9adf72e64aaddf7bcint, 0x94cef3e7eb3088722012be89f1a50d9fcbc70cf37ea4d96b3edccb6df0ce7d08eacb33f7222ae7149f48e82bdce269dint, 0x3int, curve_y_num_sq_0_6(x), den_sixth_0_6(x), x_num_cube_0_6(x), curve_y_num_sq_0_7(x), den_sixth_0_7(x), x_num_cube_0_7(x));
    lemma_horner_level(x, 4int, 0xa75ac56218952cee58b4eeb89a49af330079ea312790233482edddddbae624ef520cf67687e08ea86c105bfea9fc799int, 0x11f2123be5a19eddac6dec47afe6fb64f0a6f3df0228fea27e8f114d522697424e4ef9c1f4cc690ab54676a3423ab6c4int, 0x10b0992537828b27152694ef93ebb3e59ad1b1b5e4643fe78385108b7726e7b217e8e85ba94864bedfa42b32e1b3ec8aint, 0x3int, curve_y_num_sq_0_5(x), den_sixth_0_5(x), x_num_cube_0_5(x), curve_y_num_sq_0_6(x), den_sixth_0_6(x), x_num_cube_0_6(x));
    lemma_horner_level(x, 4int, 0xca5c44029f210e27662ee1e6b08d45cfa9a939ddc88716aa8b3692c78eda4316f05350e8b2446c3bf59ffa8cadfcff1int, 0x9cf3e3f69ad59e14c389752fa2fc463a36686f66305f3b864752677812a29b296242158608176e2e8e9623c59057ca2int, 0x196aef16f63c7691dbb7e03f08e11c7d35ef0ece377ac807e540749061a6e9af53ccafaa6bc66b378fb276b766c932bfint, 0x2int, curve_y_num_sq_0_4(x), den_sixth_0_4(x), x_num_cube_0_4(x), curve_y_num_sq_0_5(x), den_sixth_0_5(x), x_num_cube_0_5(x));
    lemma_horner_level(x, 4int, 0x18a55bb318acff0cc4dc57625dc5ae607e7654950d579cc8c6df500d0a963fbb17e8d5d5310fd82bfe98125dbe7a84a3int, 0x19b15b073bcd0bb85c44dda81baf00611e61d04477e1be2e337d08c06054ded8764b3e216d1cfca3db8834989c0936f5int, 0x19e4373f0f786a9480377f9afc38603996cc4196fbe4ef0d95ae778f64069ce9b96bdd4a41ebe59b78733ffb4e54537bint, 0x4int, curve_y_num_sq_0_3(x), den_sixth_0_3(x), x_num_cube_0_3(x), curve_y_num_sq_0_4(x), den_sixth_0_4(x), x_num_cube_0_4(x));
    lemma_horner_level(x, 4int, 0x19b9767ccb4bedc35cad693834cece07e203975278aecbb480b4e785640b8cf474ed720821c698f8ad7d76749a4bd494int, 0x2b1afb287e66a5f6d46ab637d5ec44cbb0de0103751ad85715cd5d3df893e73eac00f23b22b73320d49fa811a8d4740int, 0xef2b7b2abb24445a792bbaa3f53bcd4f5cc17119b68159ebb419035e5e69324c9ed35795918cc3078558c703016b794int, 0x0int, curve_y_num_sq_0_2(x), den_sixth_0_2(x), x_num_cube_0_2(x), curve_y_num_sq_0_3(x), den_sixth_0_3(x), x_num_cube_0_3(x));
    lemma_horner_level(x, 4int, 0x1602caadb41644720f82a2a12028d866f7d6136c361fa474d91e3128c894ba92715d7433e245a435fff110f246196c51int, 0x56ef69a68c08d0a87350b155e3022bb472313122c80682c102d27adf71e33674bac9ecd177953e3081405ca1f899ce6int, 0x46f04411141047f2ae764ba7684d79db49c723841e03c498699270ec1becf542aaf8ff846054a9dfa0f9c9c7f2f8b9int, 0x0int, curve_y_num_sq_0_1(x), den_sixth_0_1(x), x_num_cube_0_1(x), curve_y_num_sq_0_2(x), den_sixth_0_2(x), x_num_cube_0_2(x));
    lemma_horner_level(x, 4int, 0xc53a9dc10894709f6735d507e3c47cd4e60db447e0e943d7e2bb4c2c007bdd6181af8bf1355b9fd54e4f56077aba26dint, 0x197858f664441423a78a763d910a639b2232676c96c2951765d6eccbca1857786a2679b74ffab99f150b8d405c6a4235int, 0xe768dab657890e484b8233347416cbe57746ba5f1188add83934c17726a3884ea3111dc98bad37fe8b2c05f06014445int, 0x4int, curve_y_num_sq_0_0(x), den_sixth_0_0(x), x_num_cube_0_0(x), curve_y_num_sq_0_1(x), den_sixth_0_1(x), x_num_cube_0_1(x));
}

pub(crate) proof fn lemma_eval_x_den(x: nat)
    ensures
        congruent(poly_eval(iso_x_den(), x) as int, den_sq_0_0(x as int)),
{
    lemma_times_zero(x as int);
    lemma_eval_ends(iso_x_den(), x);
    assert(iso_x_den()[10] == 0x1int);
    lemma_eval_level(iso_x_den(), 10, x, den_sq_5_5(x as int), 0int);
    assert(iso_x_den()[9] == 0x95fc13ab9e92ad4476d6e3eb3a56680f682b4ee96f7d03776df533978f31c1593174e4b4b7865002d6384d168ecdd0aint);
    lemma_eval_level(iso_x_den(), 9, x, den_sq_4_5(x as int), den_sq_5_5(x as int));
    assert(iso_x_den()[8] == 0xa10ecf6ada54f825e920b3dafc7a3cce07f8d1d7161366b74100da67f39883503826692abba43704776ec3a79a1d641int);
    lemma_eval_level(iso_x_den(), 8, x, den_sq_3_5(x as int), den_sq_4_5(x as int));
    assert(iso_x_den()[7] == 0x14a7ac2a9d64a8b230b3f5b074cf01996e7f63c21bca68a81996e1cdf9822c580fa5b9489d11e2d311f7d99bbdcc5a5eint);
    lemma_eval_level(iso_x_den(), 7, x, den_sq_2_5(x as int), den_sq_3_5(x as int));
    assert(iso_x_den()[6] == 0x772caacf16936190f3e0c63e0596721570f5799af53a1894e2e073062aede9cea73b3538f0de06cec2574496ee84a3aint);
    lemma_eval_level(iso_x_den(), 6, x, den_sq_1_5(x as int), den_sq_2_5(x as int));
    assert(iso_x_den()[5] == 0xe7355f8e4e667b955390f7f0506c6e9395735e9ce9cad4d0a43bcef24b8982f7400d24bc4228f11c02df9a29f6304a5int);
    lemma_eval_level(iso_x_den(), 5, x, den_sq_0_5(x as int), den_sq_1_5(x as int));
    assert(iso_x_den()[4] == 0x13a8e162022914a80a6f1d5f43e7a07dffdfc759a12062bb8d6b44e833b306da9bd29ba81f35781d539d395b3532a21eint);
    lemma_eval_level(iso_x_den(), 4, x, den_sq_0_4(x as int), den_sq_0_5(x as int));
    assert(iso_x_den()[3] == 0x3425581a58ae2fec83aafef7c40eb545b08243f16b1655154cca8abc28d6fd04976d5243eecf5c4130de8938dc62cd8int);
    lemma_eval_level(iso_x_den(), 3, x, den_sq_0_3(x as int), den_sq_0_4(x as int));
    assert(iso_x_den()[2] == 0xb2962fe57a3225e8137e629bff2991f6f89416f5a718cd1fca64e00b11aceacd6a3d0967c94fedcfcc239ba5cb83e19int);
    lemma_eval_level(iso_x_den(), 2, x, den_sq_0_2(x as int), den_sq_0_3(x as int));
    assert(iso_x_den()[1] == 0x12561a5deb559c4348b4711298e536367041e8ca0cf0800c0126c2588c48bf5713daa8846cb026e9e5c8276ec82b3bffint);
    lemma_eval_level(iso_x_den(), 1, x, den_sq_0_1(x as int), den_sq_0_2(x as int));
    assert(iso_x_den()[0] == 0x8ca8d548cff19ae18b2e62f4bd3fa6f01d5ef4ba35b48ba9c9588617fc8ac62b558d681be343df8993cf9fa40d21b1cint);
    lemma_eval_level(iso_x_den(), 0, x, den_sq_0_0(x as int), den_sq_0_1(x as int));
}

pub(crate) proof fn lemma_eval_y_den(x: nat)
    ensures
        congruent(poly_eval(iso_y_den(), x) as int, den_cube_0_0(x as int)),
{
    lemma_times_zero(x as int);
    lemma_eval_ends(iso_y_den(), x);
    assert(iso_y_den()[15] == 0x1int);
    lemma_eval_level(iso_y_den(), 15, x, den_cube_5_10(x as int), 0int);
    assert(iso_y_den()[14] == 0xe0fa1d816ddc03e6b24255e0d7819c171c40f65e273b853324efcd6356caa205ca2f570f13497804415473a1d634b8fint);
    lemma_eval_level(iso_y_den(), 14, x, den_cube_4_10(x as int), den_cube_5_10(x as int));
    assert(iso_y_den()[13] == 0x2660400eb2e4f3b628bdd0d53cd76f2bf565b94e72927c1cb748df27942480e420517bd8714cc80d1fadc1326ed06f7int);
    lemma_eval_level(iso_y_den(), 13, x, den_cube_3_10(x as int), den_cube_4_10(x as int));
    assert(iso_y_den()[12] == 0xad6b9514c767fe3c3613144b45f1496543346d98adf02267d5ceef9a00d9b8693000763e3b90ac11e99b138573345ccint);
    lemma_eval_level(iso_y_den(), 12, x, den_cube_2_10(x as int), den_cube_3_10(x as int));
    assert(iso_y_den()[11] == 0xaccbb67481d033ff5852c1e48c50c477f94ff8aefce42d28c0f9a88cea7913516f968986f7ebbea9684b529e2561092int);
    lemma_eval_level(iso_y_den(), 11, x, den_cube_1_10(x as int), den_cube_2_10(x as int));
    assert(iso_y_den()[10] == 0x4d2f259eea405bd48f010a01ad2911d9c6dd039bb61a6290e591b36e636a5c871a5c29f4f83060400f8b49cba8f6aa8int);
    lemma_eval_level(iso_y_den(), 10, x, den_cube_0_10(x as int), den_cube_1_10(x as int));
    assert(iso_y_den()[9] == 0x167a55cda70a6e1cea820597d94a84903216f763e13d87bb5308592e7ea7d4fbc7385ea3d529b35e346ef48bb8913f55int);
    lemma_eval_level(iso_y_den(), 9, x, den_cube_0_9(x as int), den_cube_0_10(x as int));
    assert(iso_y_den()[8] == 0x1866c8ed336c61231a1be54fd1d74cc4f9fb0ce4c6af5920abc5750c4bf39b4852cfe2f7bb9248836b233d9d55535d4aint);
    lemma_eval_level(iso_y_den(), 8, x, den_cube_0_8(x as int), den_cube_0_9(x as int));
    assert(iso_y_den()[7] == 0x16a3ef08be3ea7ea03bcddfabba6ff6ee5a4375efa1f4fd7feb34fd206357132b920f5b00801dee460ee415a15812ed9int);
    lemma_eval_level(iso_y_den(), 7, x, den_cube_0_7(x as int), den_cube_0_8(x as int));
    assert(iso_y_den()[6] == 0x166007c08a99db2fc3ba8734ace9824b5eecfdfa8d0cf8ef5dd365bc400a0051d5fa9c01a58b1fb93d1a1399126a775cint);
    lemma_eval_level(iso_y_den(), 6, x, den_cube_0_6(x as int), den_cube_0_7(x as int));
    assert(iso_y_den()[5] == 0x8d9e5297186db2d9fb266eaac783182b70152c65550d881c5ecd87b6f0f5a6449f38db9dfa9cce202c6477faaf9b7acint);
    lemma_eval_level(iso_y_den(), 5, x, den_cube_0_5(x as int), den_cube_0_6(x as int));
    assert(iso_y_den()[4] == 0xbe0e079545f43e4b00cc912f8228ddcc6d19c9f0f69bbb0542eda0fc9dec916a20b15dc0fd2ededda39142311a5001dint);
    lemma_eval_level(iso_y_den(), 4, x, den_cube_0_4(x as int), den_cube_0_5(x as int));
    assert(iso_y_den()[3] == 0x16b7d288798e5395f20d23bf89edb4d1d115c5dbddbcd30e123da489e726af41727364f2c28297ada8d26d98445f5416int);
    lemma_eval_level(iso_y_den(), 3, x, den_cube_0_3(x as int), den_cube_0_4(x as int));
    assert(iso_y_den()[2] == 0x58df3306640da276faaae7d6e8eb15778c4855551ae7f310c35a5dd279cd2eca6757cd636f96f891e2538b53dbf67f2int);
    lemma_eval_level(iso_y_den(), 2, x, den_cube_0_2(x as int), den_cube_0_3(x as int));
    assert(iso_y_den()[1] == 0x1962d75c2381201e1a0cbd6c43c348b885c84ff731c4d59ca4a10356f453e01f78a4260763529e3532f6102c2e49a03dint);
    lemma_eval_level(iso_y_den(), 1, x, den_cube_0_1(x as int), den_cube_0_2(x as int));
    assert(iso_y_den()[0] == 0x16112c4c3a9c98b252181140fad0eae9601a6de578980be6eec3232b5be72e7a07f3688ef60c206d01479253b03663c1int);
    lemma_eval_level(iso_y_den(), 0, x, den_cube_0_0(x as int), den_cube_0_1(x as int));
}

pub(crate) proof fn lemma_eval_x_num(x: nat)
    ensures
        congruent(poly_eval(iso_x_num(), x) as int, x_num_0(x as int)),
{
    lemma_times_zero(x as int);
    lemma_eval_ends(iso_x_num(), x);
    assert(iso_x_num()[11] == 0x6e08c248e260e70bd1e962381edee3d31d79d7e22c837bc23c0bf1bc24c6b68c24b1b80b64d391fa9c8ba2e8ba2d229int);
    lemma_eval_level(iso_x_num(), 11, x, x_num_11(x as int), 0int);
    assert(iso_x_num()[10] == 0x10321da079ce07e272d8ec09d2565b0dfa7dccdde6787f96d50af36003b14866f69b771f8c285decca67df3f1605fb7bint);
    lemma_eval_level(iso_x_num(), 10, x, x_num_10(x as int), x_num_11(x as int));
    assert(iso_x_num()[9] == 0x169b1f8e1bcfa7c42e0c37515d138f22dd2ecb803a0c5c99676314baf4bb1b7fa3190b2edc0327797f241067be390c9eint);
    lemma_eval_level(iso_x_num(), 9, x, x_num_9(x as int), x_num_10(x as int));
    assert(iso_x_num()[8] == 0x80d3cf1f9a78fc47b90b33563be990dc43b756ce79f5574a2c596c928c5d1de4fa295f296b74e956d71986a8497e317int);
    lemma_eval_level(iso_x_num(), 8, x, x_num_8(x as int), x_num_9(x as int));
    assert(iso_x_num()[7] == 0x17b81e7701abdbe2e8743884d1117e53356de5ab275b4db1a682c62ef0f2753339b7c8f8c8f475af9ccb5618e3f0c88eint);
    lemma_eval_level(iso_x_num(), 7, x, x_num_7(x as int), x_num_8(x as int));
    assert(iso_x_num()[6] == 0xd6ed6553fe44d296a3726c38ae652bfb11586264f0f8ce19008e218f9c86b2a8da25128c1052ecaddd7f225a139ed84int);
    lemma_eval_level(iso_x_num(), 6, x, x_num_6(x as int), x_num_7(x as int));
    assert(iso_x_num()[5] == 0x1630c3250d7313ff01d1201bf7a74ab5db3cb17dd952799b9ed3ab9097e68f90a0870d2dcae73d19cd13c1c66f652983int);
    lemma_eval_level(iso_x_num(), 5, x, x_num_5(x as int), x_num_6(x as int));
    assert(iso_x_num()[4] == 0xe99726a3199f4436642b4b3e4118e5499db995a1257fb3f086eeb65982fac18985a286f301e77c451154ce9ac8895d9int);
    lemma_eval_level(iso_x_num(), 4, x, x_num_4(x as int), x_num_5(x as int));
    assert(iso_x_num()[3] == 0x1778e7166fcc6db74e0609d307e55412d7f5e4656a8dbf25f1b33289f1b330835336e25ce3107193c5b388641d9b6861int);
    lemma_eval_level(iso_x_num(), 3, x, x_num_3(x as int), x_num_4(x as int));
    assert(iso_x_num()[2] == 0xd54005db97678ec1d1048c5d10a9a1bce032473295983e56878e501ec68e25c958c3e3d2a09729fe0179f9dac9edcb0int);
    lemma_eval_level(iso_x_num(), 2, x, x_num_2(x as int), x_num_3(x as int));
    assert(iso_x_num()[1] == 0x17294ed3e943ab2f0588bab22147a81c7c17e75b2f6a8417f565e33c70d1e86b4838f2a6f318c356e834eef1b3cb83bbint);
    lemma_eval_level(iso_x_num(), 1, x, x_num_1(x as int), x_num_2(x as int));
    assert(iso_x_num()[0] == 0x11a05f2b1e833340b809101dd99815856b303e88a2d7005ff2627b56cdb4e2c85610c2d5f2e62d6eaeac1662734649b7int);
    lemma_eval_level(iso_x_num(), 0, x, x_num_0(x as int), x_num_1(x as int));
}

pub(crate) proof fn lemma_eval_y_num(x: nat)
    ensures
        congruent(poly_eval(iso_y_num(), x) as int, y_num_0(x as int)),
{
    lemma_times_zero(x as int);
    lemma_eval_ends(iso_y_num(), x);
    assert(iso_y_num()[15] == 0x15e6be4e990f03ce4ea50b3b42df2eb5cb181d8f84965a3957add4fa95af01b2b665027efec01c7704b456be69c8b604int);
    lemma_eval_level(iso_y_num(), 15, x, y_num_15(x as int), 0int);
    assert(iso_y_num()[14] == 0x5c129645e44cf1102a159f748c4a3fc5e673d81d7e86568d9ab0f5d396a7ce46ba1049b6579afb7866b1e715475224bint);
    lemma_eval_level(iso_y_num(), 14, x, y_num_14(x as int), y_num_15(x as int));
    assert(iso_y_num()[13] == 0x245a394ad1eca9b72fc00ae7be315dc757b3b080d4c158013e6632d3c40659cc6cf90ad1c232a6442d9d3f5db980133int);
    lemma_eval_level(iso_y_num(), 13, x, y_num_13(x as int), y_num_14(x as int));
    assert(iso_y_num()[12] == 0xb182cac101b9399d155096004f53f447aa7b12a3426b08ec02710e807b4633f06c851c1919211f20d4c04f00b971ef8int);
    lemma_eval_level(iso_y_num(), 12, x, y_num_12(x as int), y_num_13(x as int));
    assert(iso_y_num()[11] == 0x18b46a908f36f6deb918c143fed2edcc523559b8aaf0c2462e6bfe7f911f643249d9cdf41b44d606ce07c8a4d0074d8eint);
    lemma_eval_level(iso_y_num(), 11, x, y_num_11(x as int), y_num_12(x as int));
    assert(iso_y_num()[10] == 0x19713e47937cd1be0dfd0b8f1d43fb93cd2fcbcb6caf493fd1183e416389e61031bf3a5cce3fbafce813711ad011c132int);
    lemma_eval_level(iso_y_num(), 10, x, y_num_10(x as int), y_num_11(x as int));
    assert(iso_y_num()[9] == 0xe1bba7a1186bdb5223abde7ada14a23c42a0ca7915af6fe06985e7ed1e4d43b9b3f7055dd4eba6f2bafaaebca731c30int);
    lemma_eval_level(iso_y_num(), 9, x, y_num_9(x as int), y_num_10(x as int));
    assert(iso_y_num()[8] == 0x9fc4018bd96684be88c9e221e4da1bb8f3abd16679dc26c1e8b6e6a1f20cabe69d65201c78607a360370e577bdba587int);
    lemma_eval_level(iso_y_num(), 8, x, y_num_8(x as int), y_num_9(x as int));
    assert(iso_y_num()[7] == 0x987c8d5333ab86fde9926bd2ca6c674170a05bfe3bdd81ffd038da6c26c842642f64550fedfe935a15e4ca31870fb29int);
    lemma_eval_level(iso_y_num(), 7, x, y_num_7(x as int), y_num_8(x as int));
    assert(iso_y_num()[6] == 0x4ab0b9bcfac1bbcb2c977d027796b3ce75bb8ca2be184cb5231413c4d634f3747a87ac2460f415ec961f8855fe9d6f2int);
    lemma_eval_level(iso_y_num(), 6, x, y_num_6(x as int), y_num_7(x as int));
    assert(iso_y_num()[5] == 0x16603fca40634b6a2211e11db8f0a6a074a7d0d4afadb7bd76505c3d3ad5544e203f6326c95a807299b23ab13633a5f0int);
    lemma_eval_level(iso_y_num(), 5, x, y_num_5(x as int), y_num_6(x as int));
    assert(iso_y_num()[4] == 0x8cc03fdefe0ff135caf4fe2a21529c4195536fbe3ce50b879833fd221351adc2ee7f8dc099040a841b6daecf2e8fedbint);
    lemma_eval_level(iso_y_num(), 4, x, y_num_4(x as int), y_num_5(x as int));
    assert(iso_y_num()[3] == 0x1f86376e8981c217898751ad8746757d42aa7b90eeb791c09e4a3ec03251cf9de405aba9ec61deca6355c77b0e5f4cbint);
    lemma_eval_level(iso_y_num(), 3, x, y_num_3(x as int), y_num_4(x as int));
    assert(iso_y_num()[2] == 0xcc786baa966e66f4a384c86a3b49942552e2d658a31ce2c344be4b91400da7d26d521628b00523b8dfe240c72de1f6int);
    lemma_eval_level(iso_y_num(), 2, x, y_num_2(x as int), y_num_3(x as int));
    assert(iso_y_num()[1] == 0x134996a104ee5811d51036d776fb46831223e96c254f383d0f906343eb67ad34d6c56711962fa8bfe097e75a2e41c696int);
    lemma_eval_level(iso_y_num(), 1, x, y_num_1(x as int), y_num_2(x as int));
    assert(iso_y_num()[0] == 0x90d97c81ba24ee0259d1f094980dcfa11ad138e48a869522b52af6c956543d3cd0c7aee9b3ba3c2be9845719707bb33int);
    lemma_eval_level(iso_y_num(), 0, x, y_num_0(x as int), y_num_1(x as int));
}

} // verus!
