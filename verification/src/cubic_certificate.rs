//! The certificate of `cubic`: `r^p` reduced modulo `g`, for a root `r` of
//! `g`, by square-and-multiply along the binary digits of p, and the
//! inverse of `h - X` modulo `g`.

use crate::cubic::{
    iso_cubic, lemma_inverse_contradiction, lemma_product_step, lemma_square_step,
    lemma_times_root_step, quad,
};
use crate::field_lemmas::cong;
use vstd::arithmetic::power::{lemma_pow1, pow};
use vstd::prelude::*;

verus! {

#[verifier::rlimit(40)]
proof fn lemma_root_pow_part_0(r: int)
    requires
        cong(iso_cubic(r), 0),
    ensures
        cong(pow(r, 0xcnat), quad(0xfdfddfb34336ab9f0263f83d68793148836a2a99ebd8b795808e4a7e1cf2e1608e90a81ca1113b2eb9384df336cd4c0int, 0x145553e5f4fd5d9b158dfaae24d7da7c87236b9e474d9dc6e6c36ab9b767f1a7a7c9e0f942766325c74d9a2eb11a62aeint, 0x9a2fa08e0393aff7548b5b62e9c8870a354e4b551ce7b7d2cbef4a9b1f26d831bc8252e4160d1a0ae3f30fef5ed7244int, r)),
{
    lemma_pow1(r);
    assert(quad(0, 1, 0, r) == r);
    lemma_square_step(r, 0x1nat, 0x0int, 0x1int, 0x0int, 0x0int, 0x0int, 0x1int);
    lemma_times_root_step(r, 0x2nat, 0x0int, 0x0int, 0x1int, 0x71e815d2817666a499094cdce0cbe9c446089940135d24ec677115127bd972ec488dea47fe71559e832b71671e87ecbint, 0x19eccb5195c6fd570db26db379de6354b38cb3316f96ac168e483a8606d8747786189071107306805d0ad7f7d2a75e8eint, 0x0int);
    lemma_square_step(r, 0x3nat, 0x71e815d2817666a499094cdce0cbe9c446089940135d24ec677115127bd972ec488dea47fe71559e832b71671e87ecbint, 0x19eccb5195c6fd570db26db379de6354b38cb3316f96ac168e483a8606d8747786189071107306805d0ad7f7d2a75e8eint, 0x0int, 0x7541349d90c4b05ebd5a8b517ef1cff32abea707b0b0b1fc1f091f2146d314fa07f1bd5ec0f9a297a7351af9fd4d43eint, 0xf05ddba8b81ff4827350001985cf3975b98e19dd0e48a0855024a3e0e086034b66b3dd7d28310dbf1dd88e324286545int, 0x20f853629025cca0b35a27dc4f4756a4261318263b968478f32e4b277d36b962cd67af95a31861e9f73c9e8c854bd9eint);
    lemma_square_step(r, 0x6nat, 0x7541349d90c4b05ebd5a8b517ef1cff32abea707b0b0b1fc1f091f2146d314fa07f1bd5ec0f9a297a7351af9fd4d43eint, 0xf05ddba8b81ff4827350001985cf3975b98e19dd0e48a0855024a3e0e086034b66b3dd7d28310dbf1dd88e324286545int, 0x20f853629025cca0b35a27dc4f4756a4261318263b968478f32e4b277d36b962cd67af95a31861e9f73c9e8c854bd9eint, 0xfdfddfb34336ab9f0263f83d68793148836a2a99ebd8b795808e4a7e1cf2e1608e90a81ca1113b2eb9384df336cd4c0int, 0x145553e5f4fd5d9b158dfaae24d7da7c87236b9e474d9dc6e6c36ab9b767f1a7a7c9e0f942766325c74d9a2eb11a62aeint, 0x9a2fa08e0393aff7548b5b62e9c8870a354e4b551ce7b7d2cbef4a9b1f26d831bc8252e4160d1a0ae3f30fef5ed7244int);
}

#[verifier::rlimit(40)]
proof fn lemma_root_pow_part_1(r: int)
    requires
        cong(iso_cubic(r), 0),
    ensures
        cong(pow(r, 0x68nat), quad(0xbb4edd4033e9fb1500698a73ccfa7539cb31008f96a52d0a7c4954c84c11fcbce724536a089778cebc672e6bdc423c2int, 0xc3b3f6233e6394431a3214767db50580ed5112bdc755460f9d223ae056a65db1300ec3077a2ac9a678b163ea620d9b5int, 0x15abe170ebdc2c044a1c0e68df443e8d83c749a3c92c847f02b3d616a1ea362410cb054e92c9a0fc0361b3d7ed6d82abint, r)),
{
    lemma_root_pow_part_0(r);
    lemma_times_root_step(r, 0xcnat, 0xfdfddfb34336ab9f0263f83d68793148836a2a99ebd8b795808e4a7e1cf2e1608e90a81ca1113b2eb9384df336cd4c0int, 0x145553e5f4fd5d9b158dfaae24d7da7c87236b9e474d9dc6e6c36ab9b767f1a7a7c9e0f942766325c74d9a2eb11a62aeint, 0x9a2fa08e0393aff7548b5b62e9c8870a354e4b551ce7b7d2cbef4a9b1f26d831bc8252e4160d1a0ae3f30fef5ed7244int, 0x422f76d48678bb8f8f64968316f75200e13c99ff55fc81a53ad7fd93426f98ceaa4b038f16bb2e561ebf754bbfdd4e4int, 0xb7eff3ff0ee9be875ebfb4657718ffb9f46355e047735910cf2be58c291232ea09a0656a90598dcafeb2ccc65f1d0e1int, 0x145553e5f4fd5d9b158dfaae24d7da7c87236b9e474d9dc6e6c36ab9b767f1a7a7c9e0f942766325c74d9a2eb11a62aeint);
    lemma_square_step(r, 0xdnat, 0x422f76d48678bb8f8f64968316f75200e13c99ff55fc81a53ad7fd93426f98ceaa4b038f16bb2e561ebf754bbfdd4e4int, 0xb7eff3ff0ee9be875ebfb4657718ffb9f46355e047735910cf2be58c291232ea09a0656a90598dcafeb2ccc65f1d0e1int, 0x145553e5f4fd5d9b158dfaae24d7da7c87236b9e474d9dc6e6c36ab9b767f1a7a7c9e0f942766325c74d9a2eb11a62aeint, 0x18a0172d5f5bac0ebf61190a380df0d412f51f138f8f1d414c33c11ff403f14475e278434272b6d0941c16d7d73f98eeint, 0xc4a31fbff4e03baa09ab72b7197eb3fa8e801d08837d58f3fadfec5ba31ef4b528c079a1e7585715f63d393c3847b0aint, 0xb2319c27af298c64acfd6bcb0014adedc63efcbb6840b0450741c4677733537f3ed635b6b7fe997c455b2b5565ed39dint);
    lemma_square_step(r, 0x1anat, 0x18a0172d5f5bac0ebf61190a380df0d412f51f138f8f1d414c33c11ff403f14475e278434272b6d0941c16d7d73f98eeint, 0xc4a31fbff4e03baa09ab72b7197eb3fa8e801d08837d58f3fadfec5ba31ef4b528c079a1e7585715f63d393c3847b0aint, 0xb2319c27af298c64acfd6bcb0014adedc63efcbb6840b0450741c4677733537f3ed635b6b7fe997c455b2b5565ed39dint, 0x123cc2bc764b1bc3490d570e2391bb6bbaada4f0e17c144e539f8c992a4a61538cca6265bd43097a5fbd180ef2e5876dint, 0x153cb05914bd97cdd169379c9cfd00dd6259811b51de5aa7af4ec88994001da9ea57e8a6317f9730928fc11877e585b6int, 0x15286fc77672d04672891858f101af97f8871d9b7ee0269ef56960ee7c9a19fb9eba51b8bb93547620689f047b5a97b3int);
    lemma_square_step(r, 0x34nat, 0x123cc2bc764b1bc3490d570e2391bb6bbaada4f0e17c144e539f8c992a4a61538cca6265bd43097a5fbd180ef2e5876dint, 0x153cb05914bd97cdd169379c9cfd00dd6259811b51de5aa7af4ec88994001da9ea57e8a6317f9730928fc11877e585b6int, 0x15286fc77672d04672891858f101af97f8871d9b7ee0269ef56960ee7c9a19fb9eba51b8bb93547620689f047b5a97b3int, 0xbb4edd4033e9fb1500698a73ccfa7539cb31008f96a52d0a7c4954c84c11fcbce724536a089778cebc672e6bdc423c2int, 0xc3b3f6233e6394431a3214767db50580ed5112bdc755460f9d223ae056a65db1300ec3077a2ac9a678b163ea620d9b5int, 0x15abe170ebdc2c044a1c0e68df443e8d83c749a3c92c847f02b3d616a1ea362410cb054e92c9a0fc0361b3d7ed6d82abint);
}

#[verifier::rlimit(40)]
proof fn lemma_root_pow_part_2(r: int)
    requires
        cong(iso_cubic(r), 0),
    ensures
        cong(pow(r, 0x680nat), quad(0xa5aa9a29f480e3dc5d14715b84b357233f4c54e35eaeea634a2f71e75ecf7172ea7bdf733241c440012463ee8ab923int, 0x13a70846f28ce9ec92efa15fe5c7179f362ee5d39c466d625aa351ad70a2a5603fa153f766d5173632d9d25d3ffad57cint, 0x17bd9b09b208707eb1afbf0071b3540dd9613895e2f6c2137870df844c7e7c780806adfccb25b8c42be4b70f45f543afint, r)),
{
    lemma_root_pow_part_1(r);
    lemma_square_step(r, 0x68nat, 0xbb4edd4033e9fb1500698a73ccfa7539cb31008f96a52d0a7c4954c84c11fcbce724536a089778cebc672e6bdc423c2int, 0xc3b3f6233e6394431a3214767db50580ed5112bdc755460f9d223ae056a65db1300ec3077a2ac9a678b163ea620d9b5int, 0x15abe170ebdc2c044a1c0e68df443e8d83c749a3c92c847f02b3d616a1ea362410cb054e92c9a0fc0361b3d7ed6d82abint, 0x580a90880fc86bb385360058bffbc11406dc86deb18c5e100ef72e30364db1bb714b667ca345d2afc63be63cbc13070int, 0x126d86ba0767dbbbcfc08ce26f24aab9988de757f84175ec044d3e79e41a4b0873aa3fc3a18ec3e40d1481fcba90e5fdint, 0x7809f63fb1bbf8a5578869d237907b9e2fab933ee1b711ef317485ddb1fc4df69ed60c3d8441733c430cd343f3c9b39int);
    lemma_square_step(r, 0xd0nat, 0x580a90880fc86bb385360058bffbc11406dc86deb18c5e100ef72e30364db1bb714b667ca345d2afc63be63cbc13070int, 0x126d86ba0767dbbbcfc08ce26f24aab9988de757f84175ec044d3e79e41a4b0873aa3fc3a18ec3e40d1481fcba90e5fdint, 0x7809f63fb1bbf8a5578869d237907b9e2fab933ee1b711ef317485ddb1fc4df69ed60c3d8441733c430cd343f3c9b39int, 0x1c72ff3617d936ef504a34ce6466f5907fe0a010b83ab50e665268c1411cc5f4ed9252d397bacb8dfbb872be911b5b1int, 0xfa3764ecea7ef42e29b4ed24e3191db51f11fcf242ed852da4e6f5ae62cd46a65a28f7b0db7e6a837606a0820e88404int, 0xa3fb84fc3d5d4280a24736e0e6a11bf7be9ce6f956f4f43cb3f0c9997f01eaf55cbd5e8f5e0fe2b7a7b4985e9bc792eint);
    lemma_square_step(r, 0x1a0nat, 0x1c72ff3617d936ef504a34ce6466f5907fe0a010b83ab50e665268c1411cc5f4ed9252d397bacb8dfbb872be911b5b1int, 0xfa3764ecea7ef42e29b4ed24e3191db51f11fcf242ed852da4e6f5ae62cd46a65a28f7b0db7e6a837606a0820e88404int, 0xa3fb84fc3d5d4280a24736e0e6a11bf7be9ce6f956f4f43cb3f0c9997f01eaf55cbd5e8f5e0fe2b7a7b4985e9bc792eint, 0x2ab91d7ce54f6575e93820d0d2d857d691653d477142400cf486bbc592f3d941ac21672f048a51ff641174b034b2524int, 0x17aedc0fe9638e07e50c7a1278df518f989f44eaffe483f25335ec30bc7c022c6f0cf08fcbb4cc4ef9c93b2004746d1fint, 0x9b876108459dcfc8c124355c3f8df8b90aac2742845019c73c862dab94a78b4668ab1fd89b3dbe29411d004ca899baint);
    lemma_square_step(r, 0x340nat, 0x2ab91d7ce54f6575e93820d0d2d857d691653d477142400cf486bbc592f3d941ac21672f048a51ff641174b034b2524int, 0x17aedc0fe9638e07e50c7a1278df518f989f44eaffe483f25335ec30bc7c022c6f0cf08fcbb4cc4ef9c93b2004746d1fint, 0x9b876108459dcfc8c124355c3f8df8b90aac2742845019c73c862dab94a78b4668ab1fd89b3dbe29411d004ca899baint, 0xa5aa9a29f480e3dc5d14715b84b357233f4c54e35eaeea634a2f71e75ecf7172ea7bdf733241c440012463ee8ab923int, 0x13a70846f28ce9ec92efa15fe5c7179f362ee5d39c466d625aa351ad70a2a5603fa153f766d5173632d9d25d3ffad57cint, 0x17bd9b09b208707eb1afbf0071b3540dd9613895e2f6c2137870df844c7e7c780806adfccb25b8c42be4b70f45f543afint);
}

#[verifier::rlimit(40)]
proof fn lemma_root_pow_part_3(r: int)
    requires
        cong(iso_cubic(r), 0),
    ensures
        cong(pow(r, 0x3402nat), quad(0xc59ae63b228d01f4133af2c4fadcbcbb9745799101a03b41b620e7d17bf75208a9a1e00c1cfe54779cc7cc786f3bc17int, 0xe8393cd802b1b28f1bc31ad1e9c5aa0f75b47c904d3d3eead650948430b1c3dfa5a9ae0787c07af5202ad0b437c92f2int, 0xf7e0e6f16c59076344f51afe410042741afb3a90c9707c76e46cd88368ff9f5eac80bb38b8152dd188a8de72f6884cbint, r)),
{
    lemma_root_pow_part_2(r);
    lemma_square_step(r, 0x680nat, 0xa5aa9a29f480e3dc5d14715b84b357233f4c54e35eaeea634a2f71e75ecf7172ea7bdf733241c440012463ee8ab923int, 0x13a70846f28ce9ec92efa15fe5c7179f362ee5d39c466d625aa351ad70a2a5603fa153f766d5173632d9d25d3ffad57cint, 0x17bd9b09b208707eb1afbf0071b3540dd9613895e2f6c2137870df844c7e7c780806adfccb25b8c42be4b70f45f543afint, 0x1482a58e4dcef5390225418e96908ed33cfe867fc3dc932183f7134662a565c8c49e8a7d389e9f95add824cc37e68017int, 0x532c1899464ecc63b0bd2efd4556e79f93ad7e36aa02ef9cf765c7a59ff67418e8e6a3d58e9296aa16aa7a9997396cdint, 0xca07207153ee582e9591b8102e57e3e7e9ae9f8b62dd4aa5d023747bdc99888a8b6fdffe38cd9aeb95aa0b88749bf6cint);
    lemma_square_step(r, 0xd00nat, 0x1482a58e4dcef5390225418e96908ed33cfe867fc3dc932183f7134662a565c8c49e8a7d389e9f95add824cc37e68017int, 0x532c1899464ecc63b0bd2efd4556e79f93ad7e36aa02ef9cf765c7a59ff67418e8e6a3d58e9296aa16aa7a9997396cdint, 0xca07207153ee582e9591b8102e57e3e7e9ae9f8b62dd4aa5d023747bdc99888a8b6fdffe38cd9aeb95aa0b88749bf6cint, 0x10a7c501995661d0c3a69f45582f8f268f756c9b4133d1d0132b764691b73f8425dee0167f7bef707e7a29cea20419fbint, 0x161a3caa67bd9a71be4c6539078b27f4e0101db421626760de15a5e698882f89832a76c9b20a55240ced599ca73d337int, 0xc9d396f194dcbb90b4b023077f5ec1bce32e514cb30c35afd8584d95f288dcc11dbf2fa00b9063c5ab285a384eb73beint);
    lemma_times_root_step(r, 0x1a00nat, 0x10a7c501995661d0c3a69f45582f8f268f756c9b4133d1d0132b764691b73f8425dee0167f7bef707e7a29cea20419fbint, 0x161a3caa67bd9a71be4c6539078b27f4e0101db421626760de15a5e698882f89832a76c9b20a55240ced599ca73d337int, 0xc9d396f194dcbb90b4b023077f5ec1bce32e514cb30c35afd8584d95f288dcc11dbf2fa00b9063c5ab285a384eb73beint, 0x48d521d715a436ba042996150ee52578eeeaa2c15a97e17c0bab7ffda6cabe9b2fc849432d80ffe3ed7a61e9ebf2906int, 0xc7150c7a28c2dcb0de88593542d83600ff84c4fd95750f3fa29bbf4d1bd586c8ea087be4faff972c03bf3bb4bd2866eint, 0x161a3caa67bd9a71be4c6539078b27f4e0101db421626760de15a5e698882f89832a76c9b20a55240ced599ca73d337int);
    lemma_square_step(r, 0x1a01nat, 0x48d521d715a436ba042996150ee52578eeeaa2c15a97e17c0bab7ffda6cabe9b2fc849432d80ffe3ed7a61e9ebf2906int, 0xc7150c7a28c2dcb0de88593542d83600ff84c4fd95750f3fa29bbf4d1bd586c8ea087be4faff972c03bf3bb4bd2866eint, 0x161a3caa67bd9a71be4c6539078b27f4e0101db421626760de15a5e698882f89832a76c9b20a55240ced599ca73d337int, 0xc59ae63b228d01f4133af2c4fadcbcbb9745799101a03b41b620e7d17bf75208a9a1e00c1cfe54779cc7cc786f3bc17int, 0xe8393cd802b1b28f1bc31ad1e9c5aa0f75b47c904d3d3eead650948430b1c3dfa5a9ae0787c07af5202ad0b437c92f2int, 0xf7e0e6f16c59076344f51afe410042741afb3a90c9707c76e46cd88368ff9f5eac80bb38b8152dd188a8de72f6884cbint);
}

#[verifier::rlimit(40)]
proof fn lemma_root_pow_part_4(r: int)
    requires
        cong(iso_cubic(r), 0),
    ensures
        cong(pow(r, 0x1a011nat), quad(0x12f59dba40bd36ee07d5af84bbf1a2328ea0684427d4accdc41f1279698cfdd944d5a31beb9c98825a346f9389671045int, 0x4bfb4c68b17bd8eb79f24166f39fbeacbecd93b235416e7177c163be53996a6e696c5970d618ce1f3d258418c11502dint, 0x8c00cc18c2c8563d82dc292d30c95b418c0d6c08960ec2e172c43d4ed729ff1119966cf77c819284c09408a14ad7310int, r)),
{
    lemma_root_pow_part_3(r);
    lemma_square_step(r, 0x3402nat, 0xc59ae63b228d01f4133af2c4fadcbcbb9745799101a03b41b620e7d17bf75208a9a1e00c1cfe54779cc7cc786f3bc17int, 0xe8393cd802b1b28f1bc31ad1e9c5aa0f75b47c904d3d3eead650948430b1c3dfa5a9ae0787c07af5202ad0b437c92f2int, 0xf7e0e6f16c59076344f51afe410042741afb3a90c9707c76e46cd88368ff9f5eac80bb38b8152dd188a8de72f6884cbint, 0x10e25bc3904d66d6bb1226cb44894da37b1887617a81f8d71b80b3773afce6b7754d46b16739605448b862e4d8dccf63int, 0x96f5991dfb90473e773e51f2a3702a002d6c2636f8adf91f488d467840c526f27232fa38cfb03248f10cac4bd8e6104int, 0x42406da237062dcc6bbae4baec8a7457e25b83f1b62c2f9a3beb9fbfcf7c57ae56467f1ede1f222a13a11ad97f8f0adint);
    lemma_square_step(r, 0x6804nat, 0x10e25bc3904d66d6bb1226cb44894da37b1887617a81f8d71b80b3773afce6b7754d46b16739605448b862e4d8dccf63int, 0x96f5991dfb90473e773e51f2a3702a002d6c2636f8adf91f488d467840c526f27232fa38cfb03248f10cac4bd8e6104int, 0x42406da237062dcc6bbae4baec8a7457e25b83f1b62c2f9a3beb9fbfcf7c57ae56467f1ede1f222a13a11ad97f8f0adint, 0xbf430a04e1a321cb8b19d342bc032916e4be43d316b3253d750d39addafe89c8939159a9a48340c907ddd3186c96b5fint, 0x976e3a1966a18597361788b542cc96551f02974e0188db5be7c7ac3a0e5ef229a0a376fbc718bcde05c43a7469c99ddint, 0x85a9d9c6df587b57a4abae001f5310f4d07fe6c57f0d2760f36aa019812095af7fef1c14535612039b9fd821d5a4aecint);
    lemma_square_step(r, 0xd008nat, 0xbf430a04e1a321cb8b19d342bc032916e4be43d316b3253d750d39addafe89c8939159a9a48340c907ddd3186c96b5fint, 0x976e3a1966a18597361788b542cc96551f02974e0188db5be7c7ac3a0e5ef229a0a376fbc718bcde05c43a7469c99ddint, 0x85a9d9c6df587b57a4abae001f5310f4d07fe6c57f0d2760f36aa019812095af7fef1c14535612039b9fd821d5a4aecint, 0xb9413d72eb8cf10f79846e757094b8183273d54be0026721648a78908cf231a8ad12f638a81ddb63b9abc7dcaee78e1int, 0x8c00cc18c2c8563d82dc292d30c95b418c0d6c08960ec2e172c43d4ed729ff1119966cf77c819284c09408a14ad7310int, 0x7800742e3394cb0a6683014033caa2b3b28570202f7b3984e5a6e4ea59e533b8d27017237619dbf33245aa6b38016c1int);
    lemma_times_root_step(r, 0x1a010nat, 0xb9413d72eb8cf10f79846e757094b8183273d54be0026721648a78908cf231a8ad12f638a81ddb63b9abc7dcaee78e1int, 0x8c00cc18c2c8563d82dc292d30c95b418c0d6c08960ec2e172c43d4ed729ff1119966cf77c819284c09408a14ad7310int, 0x7800742e3394cb0a6683014033caa2b3b28570202f7b3984e5a6e4ea59e533b8d27017237619dbf33245aa6b38016c1int, 0x12f59dba40bd36ee07d5af84bbf1a2328ea0684427d4accdc41f1279698cfdd944d5a31beb9c98825a346f9389671045int, 0x4bfb4c68b17bd8eb79f24166f39fbeacbecd93b235416e7177c163be53996a6e696c5970d618ce1f3d258418c11502dint, 0x8c00cc18c2c8563d82dc292d30c95b418c0d6c08960ec2e172c43d4ed729ff1119966cf77c819284c09408a14ad7310int);
}

#[verifier::rlimit(40)]
proof fn lemma_root_pow_part_5(r: int)
    requires
        cong(iso_cubic(r), 0),
    ensures
        cong(pow(r, 0x1a0110nat), quad(0x11109c0326419b9a5f880ddc3d1570a1d23c64d8f069cc947da5ac8d9c9b5123fd9de55a62c7734184fa15287d016b84int, 0x14557ed43923d5984832a62c04a3102215e6e05ea31539d27ee0079b27c103825b15fadb15aca82973975514f43dd176int, 0x7f5546b630377356d7544a6b9487805f9f41f23e7cfb36f1983d59ffd8f04dbff85ccaf98eaae123ebe8f266fced9a7int, r)),
{
    lemma_root_pow_part_4(r);
    lemma_square_step(r, 0x1a011nat, 0x12f59dba40bd36ee07d5af84bbf1a2328ea0684427d4accdc41f1279698cfdd944d5a31beb9c98825a346f9389671045int, 0x4bfb4c68b17bd8eb79f24166f39fbeacbecd93b235416e7177c163be53996a6e696c5970d618ce1f3d258418c11502dint, 0x8c00cc18c2c8563d82dc292d30c95b418c0d6c08960ec2e172c43d4ed729ff1119966cf77c819284c09408a14ad7310int, 0x2cc5fd9ccc10b28c29e21791a9d2be8bcabd59fbbcc4fbf9269037a98fb4c9b6795b1789765247962037ab88555baffint, 0x28a5176c18a64fc1d4e1f1a1cf7e6cd39ad7d0be3b6e042d0dbeebaaa5a7b2bc57c11a3d693c39c0fe1a3a850f24d6cint, 0xfd88df3bbf0020be9a00cd6ad82ddbd7a43c605c400853d3ee0dbffa34cca0a948e615eed6f7153d5a2991a05aa3e01int);
    lemma_square_step(r, 0x34022nat, 0x2cc5fd9ccc10b28c29e21791a9d2be8bcabd59fbbcc4fbf9269037a98fb4c9b6795b1789765247962037ab88555baffint, 0x28a5176c18a64fc1d4e1f1a1cf7e6cd39ad7d0be3b6e042d0dbeebaaa5a7b2bc57c11a3d693c39c0fe1a3a850f24d6cint, 0xfd88df3bbf0020be9a00cd6ad82ddbd7a43c605c400853d3ee0dbffa34cca0a948e615eed6f7153d5a2991a05aa3e01int, 0x1176d527ac01d90cd8f5c3c36cbed4f92da017120ca1babbb94126985a157cd1029bc1ac2b3b4155a0c60c9eb21e7a1eint, 0xe02afc66f5a1cca774552c5d0c10879b98f85b103aeca3eb2eb70f6973ca55fcf2e2180136f8a733f941bab1de3c46aint, 0x15cc68433cff139f98629b7f095e78746853f0407c4b14b47adcfa404c61eb265458b6708aecee1e78a87d0b3666ab02int);
    lemma_square_step(r, 0x68044nat, 0x1176d527ac01d90cd8f5c3c36cbed4f92da017120ca1babbb94126985a157cd1029bc1ac2b3b4155a0c60c9eb21e7a1eint, 0xe02afc66f5a1cca774552c5d0c10879b98f85b103aeca3eb2eb70f6973ca55fcf2e2180136f8a733f941bab1de3c46aint, 0x15cc68433cff139f98629b7f095e78746853f0407c4b14b47adcfa404c61eb265458b6708aecee1e78a87d0b3666ab02int, 0x1900affc8c368af15907c8392e36cdd489dbedfd5c9948d5eab5932b9d350d2cf4bc83db0f6ba8cdbedb14f17dbebf82int, 0x142be3d3fdc04a982ffbb848d76121f16d932d186d64cb9d6f9a084c1ecb90831964da3d3d86ebd6daf0627682e9622int, 0x362d6a976a5234a75b6182bdf086f89b5e44a7d9552b88cf453837933b5938c51ee63da33233535c2af4565585898b2int);
    lemma_square_step(r, 0xd0088nat, 0x1900affc8c368af15907c8392e36cdd489dbedfd5c9948d5eab5932b9d350d2cf4bc83db0f6ba8cdbedb14f17dbebf82int, 0x142be3d3fdc04a982ffbb848d76121f16d932d186d64cb9d6f9a084c1ecb90831964da3d3d86ebd6daf0627682e9622int, 0x362d6a976a5234a75b6182bdf086f89b5e44a7d9552b88cf453837933b5938c51ee63da33233535c2af4565585898b2int, 0x11109c0326419b9a5f880ddc3d1570a1d23c64d8f069cc947da5ac8d9c9b5123fd9de55a62c7734184fa15287d016b84int, 0x14557ed43923d5984832a62c04a3102215e6e05ea31539d27ee0079b27c103825b15fadb15aca82973975514f43dd176int, 0x7f5546b630377356d7544a6b9487805f9f41f23e7cfb36f1983d59ffd8f04dbff85ccaf98eaae123ebe8f266fced9a7int);
}

#[verifier::rlimit(40)]
proof fn lemma_root_pow_part_6(r: int)
    requires
        cong(iso_cubic(r), 0),
    ensures
        cong(pow(r, 0x680446nat), quad(0x1949078a10c33593db49ef6ac2e63eaef7712925292b901483c7b90dacf0070c7de712ed6428946ef63e07cb6e31320aint, 0x4f79482b2d39c37adb3a35ba2c077e52ab71d28a7918da1c540018e1b08c6770c5741be6f95d97a2d819578382be8d0int, 0xc8688807e552761cf49f0f5be498b6f2d0eede79f8b1d1e30bf735e74ab90ae931bffae9085924efefa3c7b30121387int, r)),
{
    lemma_root_pow_part_5(r);
    lemma_times_root_step(r, 0x1a0110nat, 0x11109c0326419b9a5f880ddc3d1570a1d23c64d8f069cc947da5ac8d9c9b5123fd9de55a62c7734184fa15287d016b84int, 0x14557ed43923d5984832a62c04a3102215e6e05ea31539d27ee0079b27c103825b15fadb15aca82973975514f43dd176int, 0x7f5546b630377356d7544a6b9487805f9f41f23e7cfb36f1983d59ffd8f04dbff85ccaf98eaae123ebe8f266fced9a7int, 0x9df82cb9147f0f37bd4cea27aad914cf5db3b1093af20c4ac5f650e62cb65f2ee52ec441a99084cd830f74eee2fe6adint, 0x1503474f7aef22892fc0b858dc5affb4cbb28c9491696f5451149100fa168c3949124f0d7f80b3830f11316f82e07f06int, 0x14557ed43923d5984832a62c04a3102215e6e05ea31539d27ee0079b27c103825b15fadb15aca82973975514f43dd176int);
    lemma_square_step(r, 0x1a0111nat, 0x9df82cb9147f0f37bd4cea27aad914cf5db3b1093af20c4ac5f650e62cb65f2ee52ec441a99084cd830f74eee2fe6adint, 0x1503474f7aef22892fc0b858dc5affb4cbb28c9491696f5451149100fa168c3949124f0d7f80b3830f11316f82e07f06int, 0x14557ed43923d5984832a62c04a3102215e6e05ea31539d27ee0079b27c103825b15fadb15aca82973975514f43dd176int, 0x205b8add65dd01d3527694a75d44d16d79b39ed652ef03e761c76514e934a199405cdd154f3faeb5ff8f252ddc5da27int, 0x148c09df8f8fb15b247c4d285ea1c5563ca8e995f0436e48a887ad9d4b39e627b1e2957618941bed8fb5967d0ce62115int, 0x494c75b5ea8d220cd75ab334ec2f7b8c3c1379a4e05baca777a20e879250dcf012fd02cc49577a18a352b406303ba37int);
    lemma_times_root_step(r, 0x340222nat, 0x205b8add65dd01d3527694a75d44d16d79b39ed652ef03e761c76514e934a199405cdd154f3faeb5ff8f252ddc5da27int, 0x148c09df8f8fb15b247c4d285ea1c5563ca8e995f0436e48a887ad9d4b39e627b1e2957618941bed8fb5967d0ce62115int, 0x494c75b5ea8d220cd75ab334ec2f7b8c3c1379a4e05baca777a20e879250dcf012fd02cc49577a18a352b406303ba37int, 0x8d3d4695e18fde3a75a3ed3f28576df0d67f40816abcaa354d4c9bad0cb4cf8ecd01859493c6d3b2f87bf82c86daae9int, 0xf71d0922fb106626b2f86e473e93991aa487ffa9a995c53ac482ce4d70be44b6ad32db13dd3b8264d1bd14a7a3678c7int, 0x148c09df8f8fb15b247c4d285ea1c5563ca8e995f0436e48a887ad9d4b39e627b1e2957618941bed8fb5967d0ce62115int);
    lemma_square_step(r, 0x340223nat, 0x8d3d4695e18fde3a75a3ed3f28576df0d67f40816abcaa354d4c9bad0cb4cf8ecd01859493c6d3b2f87bf82c86daae9int, 0xf71d0922fb106626b2f86e473e93991aa487ffa9a995c53ac482ce4d70be44b6ad32db13dd3b8264d1bd14a7a3678c7int, 0x148c09df8f8fb15b247c4d285ea1c5563ca8e995f0436e48a887ad9d4b39e627b1e2957618941bed8fb5967d0ce62115int, 0x1949078a10c33593db49ef6ac2e63eaef7712925292b901483c7b90dacf0070c7de712ed6428946ef63e07cb6e31320aint, 0x4f79482b2d39c37adb3a35ba2c077e52ab71d28a7918da1c540018e1b08c6770c5741be6f95d97a2d819578382be8d0int, 0xc8688807e552761cf49f0f5be498b6f2d0eede79f8b1d1e30bf735e74ab90ae931bffae9085924efefa3c7b30121387int);
}

#[verifier::rlimit(40)]
proof fn lemma_root_pow_part_7(r: int)
    requires
        cong(iso_cubic(r), 0),
    ensures
        cong(pow(r, 0x1a0111enat), quad(0xbcc94bd773dbc266dafb1a0eef54e82880d0d72bc4f6489129663c94c511faca69541b690fe9c8316de930b7c70297aint, 0x198f2787eb4a8ee454cb644490c79c571a773deef222365c4679a54ddac9487e81b475911561950e620b160f4f63e727int, 0x10935e7c11edc22bc1d49d138741afbe9a47aae7041471fddd0a8174ed90630005d0866bf5cf530b561b781ea8b48078int, r)),
{
    lemma_root_pow_part_6(r);
    lemma_times_root_step(r, 0x680446nat, 0x1949078a10c33593db49ef6ac2e63eaef7712925292b901483c7b90dacf0070c7de712ed6428946ef63e07cb6e31320aint, 0x4f79482b2d39c37adb3a35ba2c077e52ab71d28a7918da1c540018e1b08c6770c5741be6f95d97a2d819578382be8d0int, 0xc8688807e552761cf49f0f5be498b6f2d0eede79f8b1d1e30bf735e74ab90ae931bffae9085924efefa3c7b30121387int, 0x703db2083f73293d68827f5dc658c8e48b3a6d49034399eb5d5979c71fe3c4bb3bdd0be9e1980bd81c6812615e711f6int, 0xcf69bbbab0ad2b1346a641eac2799954c594e57cf2e10f82a0ddbefbf4667d633622b2dd0b6b7e485e3beb392724265int, 0x4f79482b2d39c37adb3a35ba2c077e52ab71d28a7918da1c540018e1b08c6770c5741be6f95d97a2d819578382be8d0int);
    lemma_square_step(r, 0x680447nat, 0x703db2083f73293d68827f5dc658c8e48b3a6d49034399eb5d5979c71fe3c4bb3bdd0be9e1980bd81c6812615e711f6int, 0xcf69bbbab0ad2b1346a641eac2799954c594e57cf2e10f82a0ddbefbf4667d633622b2dd0b6b7e485e3beb392724265int, 0x4f79482b2d39c37adb3a35ba2c077e52ab71d28a7918da1c540018e1b08c6770c5741be6f95d97a2d819578382be8d0int, 0x6f23114a852fe29f80f8d2711ec2950ca7a91001442b654a0b58beb35889dd85b765913b18caf3157582ae6c3a54aa1int, 0x453e5ef6291ce49c5b47b09c1eeab13dbbbde13f8fe0d219a0e1f296456edec33d9671b7a0b890dc7a142c92cec9382int, 0xe92400d65d0d456b9f46feccfea52a850bf06972d0fce3b20fc79bb4073746054eef45ba9236be12740e83af34a167fint);
    lemma_times_root_step(r, 0xd0088enat, 0x6f23114a852fe29f80f8d2711ec2950ca7a91001442b654a0b58beb35889dd85b765913b18caf3157582ae6c3a54aa1int, 0x453e5ef6291ce49c5b47b09c1eeab13dbbbde13f8fe0d219a0e1f296456edec33d9671b7a0b890dc7a142c92cec9382int, 0xe92400d65d0d456b9f46feccfea52a850bf06972d0fce3b20fc79bb4073746054eef45ba9236be12740e83af34a167fint, 0xac214ee13d65e5f8e1ee0fedf51994cfd7445231687847e03a7997a7584e413742060641509e6a73448098b2cfb485fint, 0xec498f9b1807ddc536616acaa4ad6d6180a662411efccfd81fef279aa3365937a139a029f1a4b5b141aece0d949ed77int, 0x453e5ef6291ce49c5b47b09c1eeab13dbbbde13f8fe0d219a0e1f296456edec33d9671b7a0b890dc7a142c92cec9382int);
    lemma_square_step(r, 0xd0088fnat, 0xac214ee13d65e5f8e1ee0fedf51994cfd7445231687847e03a7997a7584e413742060641509e6a73448098b2cfb485fint, 0xec498f9b1807ddc536616acaa4ad6d6180a662411efccfd81fef279aa3365937a139a029f1a4b5b141aece0d949ed77int, 0x453e5ef6291ce49c5b47b09c1eeab13dbbbde13f8fe0d219a0e1f296456edec33d9671b7a0b890dc7a142c92cec9382int, 0xbcc94bd773dbc266dafb1a0eef54e82880d0d72bc4f6489129663c94c511faca69541b690fe9c8316de930b7c70297aint, 0x198f2787eb4a8ee454cb644490c79c571a773deef222365c4679a54ddac9487e81b475911561950e620b160f4f63e727int, 0x10935e7c11edc22bc1d49d138741afbe9a47aae7041471fddd0a8174ed90630005d0866bf5cf530b561b781ea8b48078int);
}

#[verifier::rlimit(40)]
proof fn lemma_root_pow_part_8(r: int)
    requires
        cong(iso_cubic(r), 0),
    ensures
        cong(pow(r, 0xd0088f4nat), quad(0xd7da194108117ad382f6ce3c14e59127da6db7da52e451e3093bf2de773ab3d13af2e2aad6aad66ef2ea10c415ddac9int, 0x1151c02a6151ee1ca0cefc7e10c322b5238c113c0e4da4de5fc3f3d43e5769642837c0a29d8f32b3d1d725d94e2ed2c5int, 0x1076ac82b76b6531ad1f31025ff565478368d71dc26bd728f1cfedaa42c74e571cea568ec052032fbd8c6b1f1e27860int, r)),
{
    lemma_root_pow_part_7(r);
    lemma_square_step(r, 0x1a0111enat, 0xbcc94bd773dbc266dafb1a0eef54e82880d0d72bc4f6489129663c94c511faca69541b690fe9c8316de930b7c70297aint, 0x198f2787eb4a8ee454cb644490c79c571a773deef222365c4679a54ddac9487e81b475911561950e620b160f4f63e727int, 0x10935e7c11edc22bc1d49d138741afbe9a47aae7041471fddd0a8174ed90630005d0866bf5cf530b561b781ea8b48078int, 0x4d7198a69956a18bc28ced4ef361b4a94cf7138ab866adf1148ec3900a9d2da41e418d75061508d4ff3c4b77d0b9c8cint, 0x505c6efd6bfe9cb2578a8ee824f5871982e45d020ce417e637bf93a6a46f996dd809501957b3697b163cc6eff447511int, 0x108a1cca0df7e92ffe790714461ca8ee45b2c1ce9895afefed8fc5181f8297587c93590979dce653033e4bd44347738fint);
    lemma_times_root_step(r, 0x340223cnat, 0x4d7198a69956a18bc28ced4ef361b4a94cf7138ab866adf1148ec3900a9d2da41e418d75061508d4ff3c4b77d0b9c8cint, 0x505c6efd6bfe9cb2578a8ee824f5871982e45d020ce417e637bf93a6a46f996dd809501957b3697b163cc6eff447511int, 0x108a1cca0df7e92ffe790714461ca8ee45b2c1ce9895afefed8fc5181f8297587c93590979dce653033e4bd44347738fint, 0xffb593c7892b9d7b99c0853337b847b56730b0f0550a1f0fefd9814ccc712db0d7c8aecc3c8f1adeb63e77b5576784dint, 0xdaff2600fe615c3e8a87c6c77279c1daf8e7e02a8c7b77395f5d4ab732f0bdc5987b1f5747f4dbee2fb08988abc2670int, 0x505c6efd6bfe9cb2578a8ee824f5871982e45d020ce417e637bf93a6a46f996dd809501957b3697b163cc6eff447511int);
    lemma_square_step(r, 0x340223dnat, 0xffb593c7892b9d7b99c0853337b847b56730b0f0550a1f0fefd9814ccc712db0d7c8aecc3c8f1adeb63e77b5576784dint, 0xdaff2600fe615c3e8a87c6c77279c1daf8e7e02a8c7b77395f5d4ab732f0bdc5987b1f5747f4dbee2fb08988abc2670int, 0x505c6efd6bfe9cb2578a8ee824f5871982e45d020ce417e637bf93a6a46f996dd809501957b3697b163cc6eff447511int, 0x8ebb72d54f5d5c7d8e37225b31fd19bc7d37152bd4fd5264ce07183535a2ff3d78a965a8577d7db59a81f87aac49afint, 0x6e811f3eecd57704d45cb9c139388856ca250c44d4425ea732ede769aff322a3ba9fd75abf70d17a374b59352fb741fint, 0x8fb7b4e2a70057030df142cdc526bf58c08c9354bc32cca60e2c508bca8f75fd3d1b9c7e53d7b4ad9649ceedbaab9f2int);
    lemma_square_step(r, 0x680447anat, 0x8ebb72d54f5d5c7d8e37225b31fd19bc7d37152bd4fd5264ce07183535a2ff3d78a965a8577d7db59a81f87aac49afint, 0x6e811f3eecd57704d45cb9c139388856ca250c44d4425ea732ede769aff322a3ba9fd75abf70d17a374b59352fb741fint, 0x8fb7b4e2a70057030df142cdc526bf58c08c9354bc32cca60e2c508bca8f75fd3d1b9c7e53d7b4ad9649ceedbaab9f2int, 0xd7da194108117ad382f6ce3c14e59127da6db7da52e451e3093bf2de773ab3d13af2e2aad6aad66ef2ea10c415ddac9int, 0x1151c02a6151ee1ca0cefc7e10c322b5238c113c0e4da4de5fc3f3d43e5769642837c0a29d8f32b3d1d725d94e2ed2c5int, 0x1076ac82b76b6531ad1f31025ff565478368d71dc26bd728f1cfedaa42c74e571cea568ec052032fbd8c6b1f1e27860int);
}

#[verifier::rlimit(40)]
proof fn lemma_root_pow_part_9(r: int)
    requires
        cong(iso_cubic(r), 0),
    ensures
        cong(pow(r, 0x680447a8nat), quad(0x159b6a59333adacaa36879885c6a9a9c845d39bc32bd4a56ae55d2dc286f8b3ce5a4c07f0c17c0079498f9f163fcd974int, 0x18434c1d7c3ad8a0a06eeaa1bc6df9682aacf0bd8bdc220925d26ab0fe4300a53058894fcd3484ae6a14067b5c97c61int, 0x5ee4c959596ab0646be84c1681609265798381ef45c5d24f1b99b61cc2f34561f09bd63538ba0cbb70d10d1ff9e14c8int, r)),
{
    lemma_root_pow_part_8(r);
    lemma_times_root_step(r, 0xd0088f4nat, 0xd7da194108117ad382f6ce3c14e59127da6db7da52e451e3093bf2de773ab3d13af2e2aad6aad66ef2ea10c415ddac9int, 0x1151c02a6151ee1ca0cefc7e10c322b5238c113c0e4da4de5fc3f3d43e5769642837c0a29d8f32b3d1d725d94e2ed2c5int, 0x1076ac82b76b6531ad1f31025ff565478368d71dc26bd728f1cfedaa42c74e571cea568ec052032fbd8c6b1f1e27860int, 0xe4440623f28cd01a0fa17915ef8f9a71fca4a64c7ffd84f610d6de3b9b420ecf2e56c05207c052d3f6dd05f1ba63ecaint, 0xbaae5290d64c0541b0bd5fad945435d3faf725a6aad74fc13e076ea110940bc09e8ce628a05e60d4ae73b9bb6cde10int, 0x1151c02a6151ee1ca0cefc7e10c322b5238c113c0e4da4de5fc3f3d43e5769642837c0a29d8f32b3d1d725d94e2ed2c5int);
    lemma_square_step(r, 0xd0088f5nat, 0xe4440623f28cd01a0fa17915ef8f9a71fca4a64c7ffd84f610d6de3b9b420ecf2e56c05207c052d3f6dd05f1ba63ecaint, 0xbaae5290d64c0541b0bd5fad945435d3faf725a6aad74fc13e076ea110940bc09e8ce628a05e60d4ae73b9bb6cde10int, 0x1151c02a6151ee1ca0cefc7e10c322b5238c113c0e4da4de5fc3f3d43e5769642837c0a29d8f32b3d1d725d94e2ed2c5int, 0xdf12d69aaae7fea6e014e86a3507313898793d0ddbc58fd011cc38d3beea9e456ad82a40d3b31b05a47b02b352d4ef6int, 0x152359c28cb8ca73e079d5a2f996a30d23703edea1696dbfbbbfa9dca4fffa55a7cf7be84e4a966591ad67ef5f73de6bint, 0x10e61aac2d1314f2e055fe6dc80e6d66a0267b3770483b46c6b50e67afea62a7d62a56d4310ab16160b0b02e7314facaint);
    lemma_square_step(r, 0x1a0111eanat, 0xdf12d69aaae7fea6e014e86a3507313898793d0ddbc58fd011cc38d3beea9e456ad82a40d3b31b05a47b02b352d4ef6int, 0x152359c28cb8ca73e079d5a2f996a30d23703edea1696dbfbbbfa9dca4fffa55a7cf7be84e4a966591ad67ef5f73de6bint, 0x10e61aac2d1314f2e055fe6dc80e6d66a0267b3770483b46c6b50e67afea62a7d62a56d4310ab16160b0b02e7314facaint, 0x40397161029269f996fe195f57bc4cc94f37161de497191502687947902c4fffacc864e57cd538ade92a0ee2e779151int, 0xca2f002ad5c1ffb7406173524e405aa2d94711e1f91d1bef5a955e70de8791cf66b0c0370320eb1641e8e3c67340bffint, 0x131e7a0cfa648a09eb45df08118f1542e78ed6957140d554c2d4bb3b951409946952c7af6d2964d0a98821b3290c76b5int);
    lemma_square_step(r, 0x340223d4nat, 0x40397161029269f996fe195f57bc4cc94f37161de497191502687947902c4fffacc864e57cd538ade92a0ee2e779151int, 0xca2f002ad5c1ffb7406173524e405aa2d94711e1f91d1bef5a955e70de8791cf66b0c0370320eb1641e8e3c67340bffint, 0x131e7a0cfa648a09eb45df08118f1542e78ed6957140d554c2d4bb3b951409946952c7af6d2964d0a98821b3290c76b5int, 0x159b6a59333adacaa36879885c6a9a9c845d39bc32bd4a56ae55d2dc286f8b3ce5a4c07f0c17c0079498f9f163fcd974int, 0x18434c1d7c3ad8a0a06eeaa1bc6df9682aacf0bd8bdc220925d26ab0fe4300a53058894fcd3484ae6a14067b5c97c61int, 0x5ee4c959596ab0646be84c1681609265798381ef45c5d24f1b99b61cc2f34561f09bd63538ba0cbb70d10d1ff9e14c8int);
}

#[verifier::rlimit(40)]
proof fn lemma_root_pow_part_10(r: int)
    requires
        cong(iso_cubic(r), 0),
    ensures
        cong(pow(r, 0x1a0111ea3nat), quad(0x6a9215106d46c4ae33ca3709f8c9fe9cf9b4fe92b5462fe40210ee8a15bbd22d2d2bbf7d6a1bcb5a9cb04818ae6fde2int, 0x12ffdd6e1ae211ad7cdcc99853c7ef8379432c1f7e729379cf392e84eece375e6e2f744d83055994356b818746bef436int, 0x92a2780d63861ea2770c1fbc10199e603e2d2220b1ad603be8796c9ec605e993a4db90b8c6c3f47cefb012941779e57int, r)),
{
    lemma_root_pow_part_9(r);
    lemma_square_step(r, 0x680447a8nat, 0x159b6a59333adacaa36879885c6a9a9c845d39bc32bd4a56ae55d2dc286f8b3ce5a4c07f0c17c0079498f9f163fcd974int, 0x18434c1d7c3ad8a0a06eeaa1bc6df9682aacf0bd8bdc220925d26ab0fe4300a53058894fcd3484ae6a14067b5c97c61int, 0x5ee4c959596ab0646be84c1681609265798381ef45c5d24f1b99b61cc2f34561f09bd63538ba0cbb70d10d1ff9e14c8int, 0x143385ded9e1153d61deb37e05d603f153a4e849c47372688c57efcaf59910fd6485cf592b1b510ab1b29bdda13152e1int, 0x10cc02de12f8b05e16183834d47fcc81ca044dbbb263e056bc960b92a4fd12c270113bb5748773c31f2f6e30774ab8c7int, 0x6046af5b13560ab976b1c16b57c4ac1178e9b687a6761384330e44466d9ced33cd495cac86889d9707280147f1b3fe9int);
    lemma_times_root_step(r, 0xd0088f50nat, 0x143385ded9e1153d61deb37e05d603f153a4e849c47372688c57efcaf59910fd6485cf592b1b510ab1b29bdda13152e1int, 0x10cc02de12f8b05e16183834d47fcc81ca044dbbb263e056bc960b92a4fd12c270113bb5748773c31f2f6e30774ab8c7int, 0x6046af5b13560ab976b1c16b57c4ac1178e9b687a6761384330e44466d9ced33cd495cac86889d9707280147f1b3fe9int, 0x176bd8846d7d3a37d1517b185cee2f01e8ec1f2cdf83a936e30cddeb265649d7c221b26a30a08bb46b07180214c85fc5int, 0x180794b20d28e1f74af3ecbf168418d7e887c90f6eebd50903dfc3ae8f6b64e751af2259204fd0d8b3a215050e47e882int, 0x10cc02de12f8b05e16183834d47fcc81ca044dbbb263e056bc960b92a4fd12c270113bb5748773c31f2f6e30774ab8c7int);
    lemma_square_step(r, 0xd0088f51nat, 0x176bd8846d7d3a37d1517b185cee2f01e8ec1f2cdf83a936e30cddeb265649d7c221b26a30a08bb46b07180214c85fc5int, 0x180794b20d28e1f74af3ecbf168418d7e887c90f6eebd50903dfc3ae8f6b64e751af2259204fd0d8b3a215050e47e882int, 0x10cc02de12f8b05e16183834d47fcc81ca044dbbb263e056bc960b92a4fd12c270113bb5748773c31f2f6e30774ab8c7int, 0xd3cdd476d44232e09ede96825ee28ea466c30317cf4934e342e6da1af024fd73dcae355205668556dde17a27720708eint, 0x92a2780d63861ea2770c1fbc10199e603e2d2220b1ad603be8796c9ec605e993a4db90b8c6c3f47cefb012941779e57int, 0x65457d1b79f4a6391f3783190eefd66c48f506c471fe0ac19bbeb428676a7ca0d92603b8e410199c8edb00beee0cc93int);
    lemma_times_root_step(r, 0x1a0111ea2nat, 0xd3cdd476d44232e09ede96825ee28ea466c30317cf4934e342e6da1af024fd73dcae355205668556dde17a27720708eint, 0x92a2780d63861ea2770c1fbc10199e603e2d2220b1ad603be8796c9ec605e993a4db90b8c6c3f47cefb012941779e57int, 0x65457d1b79f4a6391f3783190eefd66c48f506c471fe0ac19bbeb428676a7ca0d92603b8e410199c8edb00beee0cc93int, 0x6a9215106d46c4ae33ca3709f8c9fe9cf9b4fe92b5462fe40210ee8a15bbd22d2d2bbf7d6a1bcb5a9cb04818ae6fde2int, 0x12ffdd6e1ae211ad7cdcc99853c7ef8379432c1f7e729379cf392e84eece375e6e2f744d83055994356b818746bef436int, 0x92a2780d63861ea2770c1fbc10199e603e2d2220b1ad603be8796c9ec605e993a4db90b8c6c3f47cefb012941779e57int);
}

#[verifier::rlimit(40)]
proof fn lemma_root_pow_part_11(r: int)
    requires
        cong(iso_cubic(r), 0),
    ensures
        cong(pow(r, 0xd0088f51cnat), quad(0xfb4fd5caa3623efdbfea91feebe2b4ad2757758e90ba86ab156a738a2413a88561e7f9ba8650a4d07722a90626619c9int, 0xcf1f2b576ebb3a8e53b526ce7ee2ae724a7f82ce3803a68fba4065f3bf655471e80d4af90ce296426414b9454a9e9f2int, 0x11e42074db38aa1346437e0721670f59a161a9efda858a53b9544045c871d4ad7878c3df7e961e28b6d7607ded30d61cint, r)),
{
    lemma_root_pow_part_10(r);
    lemma_square_step(r, 0x1a0111ea3nat, 0x6a9215106d46c4ae33ca3709f8c9fe9cf9b4fe92b5462fe40210ee8a15bbd22d2d2bbf7d6a1bcb5a9cb04818ae6fde2int, 0x12ffdd6e1ae211ad7cdcc99853c7ef8379432c1f7e729379cf392e84eece375e6e2f744d83055994356b818746bef436int, 0x92a2780d63861ea2770c1fbc10199e603e2d2220b1ad603be8796c9ec605e993a4db90b8c6c3f47cefb012941779e57int, 0x27e7ea67de273188a376adbfb095f7d4ffb29eb08f418177cbbba4b998693c41fa191ded5e438bab76c69afd7623553int, 0x19b15d1ac4f8cc2cc9fed754453d08dcf307b1aa3e6727bc32241a5746e67138c5701679f2084201c4eb48530fe18535int, 0xb86ae3690262617f794617a0b82f7993df2f0663facc60b191ad212a7635e8a973d0f6a30f3e628d3a92f9eb5aeb6e1int);
    lemma_times_root_step(r, 0x340223d46nat, 0x27e7ea67de273188a376adbfb095f7d4ffb29eb08f418177cbbba4b998693c41fa191ded5e438bab76c69afd7623553int, 0x19b15d1ac4f8cc2cc9fed754453d08dcf307b1aa3e6727bc32241a5746e67138c5701679f2084201c4eb48530fe18535int, 0xb86ae3690262617f794617a0b82f7993df2f0663facc60b191ad212a7635e8a973d0f6a30f3e628d3a92f9eb5aeb6e1int, 0x3ef62ef43037b5b8a8a2fb5fe98299f8ebd0cb1e05e494bb3045d9c1bcc5e3613b1e0af1297c793bba011f6a2450b17int, 0x15279e1bbdde62f0e30a00cebd67f216354429b46658c0a243ea98d4da0497b2c903569586c669e5737c9fe5e340e87bint, 0x19b15d1ac4f8cc2cc9fed754453d08dcf307b1aa3e6727bc32241a5746e67138c5701679f2084201c4eb48530fe18535int);
    lemma_square_step(r, 0x340223d47nat, 0x3ef62ef43037b5b8a8a2fb5fe98299f8ebd0cb1e05e494bb3045d9c1bcc5e3613b1e0af1297c793bba011f6a2450b17int, 0x15279e1bbdde62f0e30a00cebd67f216354429b46658c0a243ea98d4da0497b2c903569586c669e5737c9fe5e340e87bint, 0x19b15d1ac4f8cc2cc9fed754453d08dcf307b1aa3e6727bc32241a5746e67138c5701679f2084201c4eb48530fe18535int, 0xf93c64335a86224ae3fe2361202ecd787262844d2ee6821a9667eb195a1629e8ad4529f475c4ab31806ac6d42c55af9int, 0x1847c8c624e9fd02a975bcadb93fba5c4cdbd76bd91c5b1d308338e563e3783af85711b29d5726c7af1779900f01c758int, 0x192e58afae64832a1859e90cf393785ca44c0d9396a9ad7ef55230083fc9d1757ac95243784475c0fb0bdf62c9abd986int);
    lemma_square_step(r, 0x680447a8enat, 0xf93c64335a86224ae3fe2361202ecd787262844d2ee6821a9667eb195a1629e8ad4529f475c4ab31806ac6d42c55af9int, 0x1847c8c624e9fd02a975bcadb93fba5c4cdbd76bd91c5b1d308338e563e3783af85711b29d5726c7af1779900f01c758int, 0x192e58afae64832a1859e90cf393785ca44c0d9396a9ad7ef55230083fc9d1757ac95243784475c0fb0bdf62c9abd986int, 0xfb4fd5caa3623efdbfea91feebe2b4ad2757758e90ba86ab156a738a2413a88561e7f9ba8650a4d07722a90626619c9int, 0xcf1f2b576ebb3a8e53b526ce7ee2ae724a7f82ce3803a68fba4065f3bf655471e80d4af90ce296426414b9454a9e9f2int, 0x11e42074db38aa1346437e0721670f59a161a9efda858a53b9544045c871d4ad7878c3df7e961e28b6d7607ded30d61cint);
}

#[verifier::rlimit(40)]
proof fn lemma_root_pow_part_12(r: int)
    requires
        cong(iso_cubic(r), 0),
    ensures
        cong(pow(r, 0x680447a8e4nat), quad(0xf58c1f82a988bc90baef8d0a0de9818208731d3ec62e9b75f2d12bf5ff213aa6c52f82bfea95c0ab3ef9aa93ef4617fint, 0xa6abf24e304bfd03e28e69d291817bed840c79256e7a7c36ae755c36f9961fe80d38ca6b445e1b26e6464acb8ea7b23int, 0xb4a331fa3878d3f54966dbb1a770e4852f9f04ee9bc25c0b8a9a05cbf77073cdea32a8702f1fc41c6adb00b6842eb54int, r)),
{
    lemma_root_pow_part_11(r);
    lemma_square_step(r, 0xd0088f51cnat, 0xfb4fd5caa3623efdbfea91feebe2b4ad2757758e90ba86ab156a738a2413a88561e7f9ba8650a4d07722a90626619c9int, 0xcf1f2b576ebb3a8e53b526ce7ee2ae724a7f82ce3803a68fba4065f3bf655471e80d4af90ce296426414b9454a9e9f2int, 0x11e42074db38aa1346437e0721670f59a161a9efda858a53b9544045c871d4ad7878c3df7e961e28b6d7607ded30d61cint, 0x1482a2769ecce0429a0f241ba74e8bbe57e085a6f21bcda746ff097aabcd0232e02194503b70c23435957c795a40340fint, 0xb18f47b6c0276cb142a9a401a68985a6592b97dd9f934978eac79deeb5aff142fef948598f5669c88176faedb2e59ecint, 0x65826000506faae801bdc05e70cb9ed759eb0141c70ee79e46e7c96356549fd922b972dfaf15ed5dae1e12af6d9bd91int);
    lemma_times_root_step(r, 0x1a0111ea38nat, 0x1482a2769ecce0429a0f241ba74e8bbe57e085a6f21bcda746ff097aabcd0232e02194503b70c23435957c795a40340fint, 0xb18f47b6c0276cb142a9a401a68985a6592b97dd9f934978eac79deeb5aff142fef948598f5669c88176faedb2e59ecint, 0x65826000506faae801bdc05e70cb9ed759eb0141c70ee79e46e7c96356549fd922b972dfaf15ed5dae1e12af6d9bd91int, 0x3043c681378a1c09825fe17f09c17b58611daac63281c995d0cde8fc9b2b53efe43b064d0e0a219f4ffb87d42630de6int, 0x187a090940365613bb4e4c14fc2b89fa28e282efe75b91cc57630251cac38e6dde2a3243edbd8bea9bd221b1acfc84c5int, 0xb18f47b6c0276cb142a9a401a68985a6592b97dd9f934978eac79deeb5aff142fef948598f5669c88176faedb2e59ecint);
    lemma_square_step(r, 0x1a0111ea39nat, 0x3043c681378a1c09825fe17f09c17b58611daac63281c995d0cde8fc9b2b53efe43b064d0e0a219f4ffb87d42630de6int, 0x187a090940365613bb4e4c14fc2b89fa28e282efe75b91cc57630251cac38e6dde2a3243edbd8bea9bd221b1acfc84c5int, 0xb18f47b6c0276cb142a9a401a68985a6592b97dd9f934978eac79deeb5aff142fef948598f5669c88176faedb2e59ecint, 0x15d4974aaaba7f3f600b0ef807f60859ac32122a97639fc5bf4ae0c1c3395ef022f87d83e1f09bede9d785df1cf36114int, 0x7c2fc26ab4d5b1f2709de54fe91ca53b63ffbffd6137fdc165389e9062079b154c68baa1192916a7c91e3c40fd05ff6int, 0x10deede9e8e823210cf44c341400a4c005ec197bdbad8c553793325449575a953ab072b1120c131bc126751ee7d3ef0dint);
    lemma_square_step(r, 0x340223d472nat, 0x15d4974aaaba7f3f600b0ef807f60859ac32122a97639fc5bf4ae0c1c3395ef022f87d83e1f09bede9d785df1cf36114int, 0x7c2fc26ab4d5b1f2709de54fe91ca53b63ffbffd6137fdc165389e9062079b154c68baa1192916a7c91e3c40fd05ff6int, 0x10deede9e8e823210cf44c341400a4c005ec197bdbad8c553793325449575a953ab072b1120c131bc126751ee7d3ef0dint, 0xf58c1f82a988bc90baef8d0a0de9818208731d3ec62e9b75f2d12bf5ff213aa6c52f82bfea95c0ab3ef9aa93ef4617fint, 0xa6abf24e304bfd03e28e69d291817bed840c79256e7a7c36ae755c36f9961fe80d38ca6b445e1b26e6464acb8ea7b23int, 0xb4a331fa3878d3f54966dbb1a770e4852f9f04ee9bc25c0b8a9a05cbf77073cdea32a8702f1fc41c6adb00b6842eb54int);
}

#[verifier::rlimit(40)]
proof fn lemma_root_pow_part_13(r: int)
    requires
        cong(iso_cubic(r), 0),
    ensures
        cong(pow(r, 0x1a0111ea396nat), quad(0x184381de682c8cd678374213fd5e75bd29b522cdaa7c71bdeccbb4b7d6b55662f1bf3f34eb112bc8352468a9c1e75dd4int, 0xf8086573f61d4ea7c9c314b5fa73716faa4b6a5c7e135a4899fec67f788efffe7d43804b32e07973f72969801a0b6ffint, 0xba99743975613674ed16c28e1703ac680cfdb9121980a492103c5225c269a72186f76ed8ec48592765c0db18993940fint, r)),
{
    lemma_root_pow_part_12(r);
    lemma_times_root_step(r, 0x680447a8e4nat, 0xf58c1f82a988bc90baef8d0a0de9818208731d3ec62e9b75f2d12bf5ff213aa6c52f82bfea95c0ab3ef9aa93ef4617fint, 0xa6abf24e304bfd03e28e69d291817bed840c79256e7a7c36ae755c36f9961fe80d38ca6b445e1b26e6464acb8ea7b23int, 0xb4a331fa3878d3f54966dbb1a770e4852f9f04ee9bc25c0b8a9a05cbf77073cdea32a8702f1fc41c6adb00b6842eb54int, 0x4e9cda763366e5c708435723766795552e6e270cea13ca8c79091892a1af54b8dfb3784bbd83bc6835354647c3ec0cdint, 0x16ea827f7c7c7975b29e08f84cb2de98720f729cc81b3fe15e8c821e25d7f356d36fbeb3100e8bc2c6edb8a8bcf9cc8eint, 0xa6abf24e304bfd03e28e69d291817bed840c79256e7a7c36ae755c36f9961fe80d38ca6b445e1b26e6464acb8ea7b23int);
    lemma_square_step(r, 0x680447a8e5nat, 0x4e9cda763366e5c708435723766795552e6e270cea13ca8c79091892a1af54b8dfb3784bbd83bc6835354647c3ec0cdint, 0x16ea827f7c7c7975b29e08f84cb2de98720f729cc81b3fe15e8c821e25d7f356d36fbeb3100e8bc2c6edb8a8bcf9cc8eint, 0xa6abf24e304bfd03e28e69d291817bed840c79256e7a7c36ae755c36f9961fe80d38ca6b445e1b26e6464acb8ea7b23int, 0xb7b1adb4ad7d70e218e8b49cad1072b0c3d66b851d0c17e09c1c83ec8cbdfd729ea4585208152655f7c9d90b8b6431int, 0x1697dbff0b281ceacc4292439b346d619e7c7cad0b6b53b754be00d84bd457cfeaf21d9bb0cdc74223c46ac287f934f2int, 0x19c39d28ea969e6682806e0dc8c7a8924019a9be07b9ad51afa3d31b4deaa514a34412fc755f6feb90c5b48420a97daint);
    lemma_times_root_step(r, 0xd0088f51canat, 0xb7b1adb4ad7d70e218e8b49cad1072b0c3d66b851d0c17e09c1c83ec8cbdfd729ea4585208152655f7c9d90b8b6431int, 0x1697dbff0b281ceacc4292439b346d619e7c7cad0b6b53b754be00d84bd457cfeaf21d9bb0cdc74223c46ac287f934f2int, 0x19c39d28ea969e6682806e0dc8c7a8924019a9be07b9ad51afa3d31b4deaa514a34412fc755f6feb90c5b48420a97daint, 0xa45d74bf9b495dd63df5ff8293cb56e4defc68dc68feee1a7264eb71b554b971b751b567b086628530ed07167f4188eint, 0x132701649e9c6ad4b5bd0f83e35e1cd2f538887d5e50fc4ead9d23d1717e17630392400da045340b02a1bd042f8dafacint, 0x1697dbff0b281ceacc4292439b346d619e7c7cad0b6b53b754be00d84bd457cfeaf21d9bb0cdc74223c46ac287f934f2int);
    lemma_square_step(r, 0xd0088f51cbnat, 0xa45d74bf9b495dd63df5ff8293cb56e4defc68dc68feee1a7264eb71b554b971b751b567b086628530ed07167f4188eint, 0x132701649e9c6ad4b5bd0f83e35e1cd2f538887d5e50fc4ead9d23d1717e17630392400da045340b02a1bd042f8dafacint, 0x1697dbff0b281ceacc4292439b346d619e7c7cad0b6b53b754be00d84bd457cfeaf21d9bb0cdc74223c46ac287f934f2int, 0x184381de682c8cd678374213fd5e75bd29b522cdaa7c71bdeccbb4b7d6b55662f1bf3f34eb112bc8352468a9c1e75dd4int, 0xf8086573f61d4ea7c9c314b5fa73716faa4b6a5c7e135a4899fec67f788efffe7d43804b32e07973f72969801a0b6ffint, 0xba99743975613674ed16c28e1703ac680cfdb9121980a492103c5225c269a72186f76ed8ec48592765c0db18993940fint);
}

#[verifier::rlimit(40)]
proof fn lemma_root_pow_part_14(r: int)
    requires
        cong(iso_cubic(r), 0),
    ensures
        cong(pow(r, 0x680447a8e5enat), quad(0x3acfb0daee365f7852370aa1e198b634895198c4f54b9861e4e5989bc931e8ebf4566297755dcc1a4e319a70ea7bacdint, 0x788b677473965a79f068a5c2d10d17a87d4ad3470a99edd3b1c73ef519a516d70cee0864eae67a33ce48fbf5919c72cint, 0x11b43d48c8647a6eb3f17a0c22dbfc5b3867213bc38f4907f5eb7cca3b9078b9fd1b390f6ffd7e3447c80a40905a0a58int, r)),
{
    lemma_root_pow_part_13(r);
    lemma_times_root_step(r, 0x1a0111ea396nat, 0x184381de682c8cd678374213fd5e75bd29b522cdaa7c71bdeccbb4b7d6b55662f1bf3f34eb112bc8352468a9c1e75dd4int, 0xf8086573f61d4ea7c9c314b5fa73716faa4b6a5c7e135a4899fec67f788efffe7d43804b32e07973f72969801a0b6ffint, 0xba99743975613674ed16c28e1703ac680cfdb9121980a492103c5225c269a72186f76ed8ec48592765c0db18993940fint, 0x1c74ce768276678ceada3940664cc70444c718e7a4839d0bf298b850069a0e2d24bde870d17fb370d7e63ebd72c4c99int, 0xaa1d8274360b00e6bc4431c9e32a53fce30a424303313c68531d85531171976e3b6b9953287954bf26fedce3ddabc1aint, 0xf8086573f61d4ea7c9c314b5fa73716faa4b6a5c7e135a4899fec67f788efffe7d43804b32e07973f72969801a0b6ffint);
    lemma_square_step(r, 0x1a0111ea397nat, 0x1c74ce768276678ceada3940664cc70444c718e7a4839d0bf298b850069a0e2d24bde870d17fb370d7e63ebd72c4c99int, 0xaa1d8274360b00e6bc4431c9e32a53fce30a424303313c68531d85531171976e3b6b9953287954bf26fedce3ddabc1aint, 0xf8086573f61d4ea7c9c314b5fa73716faa4b6a5c7e135a4899fec67f788efffe7d43804b32e07973f72969801a0b6ffint, 0x18e339c4e3c28833d8edeb49f24cc20beb387d3b3693c186ec9400a5613038423dd8ba3ae4b6f31236cedb09104c9506int, 0x27afdeb9762babd4785a8eb912c3f4c2d8acc4aafe96bb120ea38b8388e70ea5e576bd25ccd7bfa2f2bfe5ca1e76724int, 0x2300d86db2d7ffa142a0412df4aff1765f8f402ab5b2d4674d1341978eada3ec29fba086db0b94a865ec9ec6729103bint);
    lemma_times_root_step(r, 0x340223d472enat, 0x18e339c4e3c28833d8edeb49f24cc20beb387d3b3693c186ec9400a5613038423dd8ba3ae4b6f31236cedb09104c9506int, 0x27afdeb9762babd4785a8eb912c3f4c2d8acc4aafe96bb120ea38b8388e70ea5e576bd25ccd7bfa2f2bfe5ca1e76724int, 0x2300d86db2d7ffa142a0412df4aff1765f8f402ab5b2d4674d1341978eada3ec29fba086db0b94a865ec9ec6729103bint, 0x1665eded7d1badb0c894f16027508bd6ea19a0cbbe254a864004873d4976ccc4b49e21cc6a12d78c5af37406a0fd0c7aint, 0x187300a98b0e0ee280e282e28e502b1503f84fe0610c40626b8a44568c9a2d7617a70a3cb868725d2937bf91d059cb4aint, 0x27afdeb9762babd4785a8eb912c3f4c2d8acc4aafe96bb120ea38b8388e70ea5e576bd25ccd7bfa2f2bfe5ca1e76724int);
    lemma_square_step(r, 0x340223d472fnat, 0x1665eded7d1badb0c894f16027508bd6ea19a0cbbe254a864004873d4976ccc4b49e21cc6a12d78c5af37406a0fd0c7aint, 0x187300a98b0e0ee280e282e28e502b1503f84fe0610c40626b8a44568c9a2d7617a70a3cb868725d2937bf91d059cb4aint, 0x27afdeb9762babd4785a8eb912c3f4c2d8acc4aafe96bb120ea38b8388e70ea5e576bd25ccd7bfa2f2bfe5ca1e76724int, 0x3acfb0daee365f7852370aa1e198b634895198c4f54b9861e4e5989bc931e8ebf4566297755dcc1a4e319a70ea7bacdint, 0x788b677473965a79f068a5c2d10d17a87d4ad3470a99edd3b1c73ef519a516d70cee0864eae67a33ce48fbf5919c72cint, 0x11b43d48c8647a6eb3f17a0c22dbfc5b3867213bc38f4907f5eb7cca3b9078b9fd1b390f6ffd7e3447c80a40905a0a58int);
}

#[verifier::rlimit(40)]
proof fn lemma_root_pow_part_15(r: int)
    requires
        cong(iso_cubic(r), 0),
    ensures
        cong(pow(r, 0x1a0111ea397enat), quad(0xfc1cdc3fcea9566481f0159595cfc8d29fa13b9b3d32dc019b887fa6d273d940c638bdd84695c14b11cc619b9aba7acint, 0x1114b028c3c812c0238dc143ca9cd9c23e8ea96de0adedb7356f9251672c397e85e89e8020696d09797db80817a5b2d0int, 0x1049d448a454a00c67f27e7aabdc3fa7eff9e92e309e0801d08d416d559331caba3f5b150a7fbfa9c2f44e859755b92fint, r)),
{
    lemma_root_pow_part_14(r);
    lemma_times_root_step(r, 0x680447a8e5enat, 0x3acfb0daee365f7852370aa1e198b634895198c4f54b9861e4e5989bc931e8ebf4566297755dcc1a4e319a70ea7bacdint, 0x788b677473965a79f068a5c2d10d17a87d4ad3470a99edd3b1c73ef519a516d70cee0864eae67a33ce48fbf5919c72cint, 0x11b43d48c8647a6eb3f17a0c22dbfc5b3867213bc38f4907f5eb7cca3b9078b9fd1b390f6ffd7e3447c80a40905a0a58int, 0x182f9f3b9e912f2f27527bf8f0369a0e7cb0724ed56d309cf03fee2263197a71cc2403a1fdff4d58d3ab6a9463424084int, 0xaafa50a98ac7858364e3a062affe623095398464999d46a55380404d5dcdd257d31e9a71e1fa643c1ce5633a5733331int, 0x788b677473965a79f068a5c2d10d17a87d4ad3470a99edd3b1c73ef519a516d70cee0864eae67a33ce48fbf5919c72cint);
    lemma_square_step(r, 0x680447a8e5fnat, 0x182f9f3b9e912f2f27527bf8f0369a0e7cb0724ed56d309cf03fee2263197a71cc2403a1fdff4d58d3ab6a9463424084int, 0xaafa50a98ac7858364e3a062affe623095398464999d46a55380404d5dcdd257d31e9a71e1fa643c1ce5633a5733331int, 0x788b677473965a79f068a5c2d10d17a87d4ad3470a99edd3b1c73ef519a516d70cee0864eae67a33ce48fbf5919c72cint, 0xfc7f7339ee8f74c5cb190fdeffd37efa9f30d1992e66c55a400066da3473f4b97d39fa1f22fd30b4ddaca247e14e0a2int, 0x88e918bb86eaf29075c6c59ad9c202a7ff7920ee37ab1a09918333c2c1d12f8f8e21f6fa6b4826a28504698e44f63feint, 0x16bad6a0ad4c97266c6c6f6f7e7cf620742b58df1d5336b534a9a11c53468077e0735cdd31a2227d1df34b300a22fd8eint);
    lemma_times_root_step(r, 0xd0088f51cbenat, 0xfc7f7339ee8f74c5cb190fdeffd37efa9f30d1992e66c55a400066da3473f4b97d39fa1f22fd30b4ddaca247e14e0a2int, 0x88e918bb86eaf29075c6c59ad9c202a7ff7920ee37ab1a09918333c2c1d12f8f8e21f6fa6b4826a28504698e44f63feint, 0x16bad6a0ad4c97266c6c6f6f7e7cf620742b58df1d5336b534a9a11c53468077e0735cdd31a2227d1df34b300a22fd8eint, 0x14c332975b917af39a033ea3ddfcda9f3ae8b02df289abbfbae35650b15ee883281c50bdfeb91f528476409b467510b6int, 0x16b714d9e5d636d4e9e05c5f7c261882149c0c0c9009cdb91196531088a0d03b0b3589c2c8c83f06e3423d912f9148b0int, 0x88e918bb86eaf29075c6c59ad9c202a7ff7920ee37ab1a09918333c2c1d12f8f8e21f6fa6b4826a28504698e44f63feint);
    lemma_square_step(r, 0xd0088f51cbfnat, 0x14c332975b917af39a033ea3ddfcda9f3ae8b02df289abbfbae35650b15ee883281c50bdfeb91f528476409b467510b6int, 0x16b714d9e5d636d4e9e05c5f7c261882149c0c0c9009cdb91196531088a0d03b0b3589c2c8c83f06e3423d912f9148b0int, 0x88e918bb86eaf29075c6c59ad9c202a7ff7920ee37ab1a09918333c2c1d12f8f8e21f6fa6b4826a28504698e44f63feint, 0xfc1cdc3fcea9566481f0159595cfc8d29fa13b9b3d32dc019b887fa6d273d940c638bdd84695c14b11cc619b9aba7acint, 0x1114b028c3c812c0238dc143ca9cd9c23e8ea96de0adedb7356f9251672c397e85e89e8020696d09797db80817a5b2d0int, 0x1049d448a454a00c67f27e7aabdc3fa7eff9e92e309e0801d08d416d559331caba3f5b150a7fbfa9c2f44e859755b92fint);
}

#[verifier::rlimit(40)]
proof fn lemma_root_pow_part_16(r: int)
    requires
        cong(iso_cubic(r), 0),
    ensures
        cong(pow(r, 0x680447a8e5fenat), quad(0x106ca76214732a0daa92ad2d294913c50bf91a4ee8c0fe48ff6aee1e92911a1e4590196e4a9b20b8a271c67964c6d919int, 0x10e19d894e2b9bdc84df34c0557c9aaac1b8622ce00a324878a807023933771e37b8d17178890174eadeed9927b8e40eint, 0xb46f3d29d1c701c54f5c775c00acb3fa60d0260756cdc4744fb99a578df1e7652bef297306d7cc6b2867b10dfa89f00int, r)),
{
    lemma_root_pow_part_15(r);
    lemma_times_root_step(r, 0x1a0111ea397enat, 0xfc1cdc3fcea9566481f0159595cfc8d29fa13b9b3d32dc019b887fa6d273d940c638bdd84695c14b11cc619b9aba7acint, 0x1114b028c3c812c0238dc143ca9cd9c23e8ea96de0adedb7356f9251672c397e85e89e8020696d09797db80817a5b2d0int, 0x1049d448a454a00c67f27e7aabdc3fa7eff9e92e309e0801d08d416d559331caba3f5b150a7fbfa9c2f44e859755b92fint, 0x10d8ec7a52b32e2f37c439d84029cbcd99b76ccc9d8adf96612df81d2b872eb8db02d4c281152341d2328b616aa17e9fint, 0x182b671c5bae62932a41cc1811116ebb9b107efa985f2c155403501daa95ba644784405739577c30a313fa4c2cef7e70int, 0x1114b028c3c812c0238dc143ca9cd9c23e8ea96de0adedb7356f9251672c397e85e89e8020696d09797db80817a5b2d0int);
    lemma_square_step(r, 0x1a0111ea397fnat, 0x10d8ec7a52b32e2f37c439d84029cbcd99b76ccc9d8adf96612df81d2b872eb8db02d4c281152341d2328b616aa17e9fint, 0x182b671c5bae62932a41cc1811116ebb9b107efa985f2c155403501daa95ba644784405739577c30a313fa4c2cef7e70int, 0x1114b028c3c812c0238dc143ca9cd9c23e8ea96de0adedb7356f9251672c397e85e89e8020696d09797db80817a5b2d0int, 0x15446727ae3353312671640e2f58985a82d82a0e28fdd1187d12fb3b89e2b2b96419d35ae8759de34a8bbac5b09f6442int, 0xfc888ac8ded6b758d2b06c9e876ea150a6f6e7d8d4c31214fa8049615550bdb9de02e5d3703be311e4f5fd9ead5a9fcint, 0x14bebb46edab07ae6b7e41ac665d037175a64fa90461c71c2b68ae5684ddb2f022730d7e3dec5d7d4867abf555618a5eint);
    lemma_times_root_step(r, 0x340223d472fenat, 0x15446727ae3353312671640e2f58985a82d82a0e28fdd1187d12fb3b89e2b2b96419d35ae8759de34a8bbac5b09f6442int, 0xfc888ac8ded6b758d2b06c9e876ea150a6f6e7d8d4c31214fa8049615550bdb9de02e5d3703be311e4f5fd9ead5a9fcint, 0x14bebb46edab07ae6b7e41ac665d037175a64fa90461c71c2b68ae5684ddb2f022730d7e3dec5d7d4867abf555618a5eint, 0xf9b2756b5aa723032a84704b052c9274f6586d02dcb264c1af0f0c514060e751f6e5c3102069588bc7d2977b1949b28int, 0x11b40c5943ef219ea84c0110eba6ab6fa6d160d455e3c6f96d961ffe6ac51d59151cdbd426c76c50b212248ffd57f77fint, 0xfc888ac8ded6b758d2b06c9e876ea150a6f6e7d8d4c31214fa8049615550bdb9de02e5d3703be311e4f5fd9ead5a9fcint);
    lemma_square_step(r, 0x340223d472ffnat, 0xf9b2756b5aa723032a84704b052c9274f6586d02dcb264c1af0f0c514060e751f6e5c3102069588bc7d2977b1949b28int, 0x11b40c5943ef219ea84c0110eba6ab6fa6d160d455e3c6f96d961ffe6ac51d59151cdbd426c76c50b212248ffd57f77fint, 0xfc888ac8ded6b758d2b06c9e876ea150a6f6e7d8d4c31214fa8049615550bdb9de02e5d3703be311e4f5fd9ead5a9fcint, 0x106ca76214732a0daa92ad2d294913c50bf91a4ee8c0fe48ff6aee1e92911a1e4590196e4a9b20b8a271c67964c6d919int, 0x10e19d894e2b9bdc84df34c0557c9aaac1b8622ce00a324878a807023933771e37b8d17178890174eadeed9927b8e40eint, 0xb46f3d29d1c701c54f5c775c00acb3fa60d0260756cdc4744fb99a578df1e7652bef297306d7cc6b2867b10dfa89f00int);
}

#[verifier::rlimit(40)]
proof fn lemma_root_pow_part_17(r: int)
    requires
        cong(iso_cubic(r), 0),
    ensures
        cong(pow(r, 0x1a0111ea397fenat), quad(0x116fe8d07bacdf46f4a4a7d89e43b9a9fb1ca1d8c3044c3f5811da11d9ba45e66a78089e47a241bc8eb295e126a02b75int, 0x12bc45457538154878068e66c782d37c3ca157e5e4ce37025855de8db22fef82c97c4c971526d57ad1c7539c2f46090dint, 0x12c4bae089413215f572261a4eed1b076cceab508cd4873195cc5c50453b4629edb2dce776620541fb37f51e9ca2697aint, r)),
{
    lemma_root_pow_part_16(r);
    lemma_times_root_step(r, 0x680447a8e5fenat, 0x106ca76214732a0daa92ad2d294913c50bf91a4ee8c0fe48ff6aee1e92911a1e4590196e4a9b20b8a271c67964c6d919int, 0x10e19d894e2b9bdc84df34c0557c9aaac1b8622ce00a324878a807023933771e37b8d17178890174eadeed9927b8e40eint, 0xb46f3d29d1c701c54f5c775c00acb3fa60d0260756cdc4744fb99a578df1e7652bef297306d7cc6b2867b10dfa89f00int, 0x6113a3eb27efad02ff300b6ea5ca3f79dfcb236c53fc43ba2e3265e194b7d8f4e219137cbeab398f3d0d9540e69c64dint, 0x132edbfba40a1ea7b5687febc92155a327810479f522db5d156f43d4f2e401a0b0f1a0f78f126afd8586cf9515ff4901int, 0x10e19d894e2b9bdc84df34c0557c9aaac1b8622ce00a324878a807023933771e37b8d17178890174eadeed9927b8e40eint);
    lemma_square_step(r, 0x680447a8e5ffnat, 0x6113a3eb27efad02ff300b6ea5ca3f79dfcb236c53fc43ba2e3265e194b7d8f4e219137cbeab398f3d0d9540e69c64dint, 0x132edbfba40a1ea7b5687febc92155a327810479f522db5d156f43d4f2e401a0b0f1a0f78f126afd8586cf9515ff4901int, 0x10e19d894e2b9bdc84df34c0557c9aaac1b8622ce00a324878a807023933771e37b8d17178890174eadeed9927b8e40eint, 0xea3e90029e62a8fc5060a06626b2d8724e812913f0762cdd57a10b5640ce14688dd74af05f5102a248b749816975d31int, 0x15bbc7d654e43a2bfd84434b1553314f33af07540a9ade4d27e628acfa8e8625012a25f729843121a5bf70f1b43058b2int, 0x13435f5a08db33b32948c08bef8217081fc904ef221f5bd648163432dd74999ad1973fbd4bd5f6d3bf79388f678923f9int);
    lemma_times_root_step(r, 0xd0088f51cbfenat, 0xea3e90029e62a8fc5060a06626b2d8724e812913f0762cdd57a10b5640ce14688dd74af05f5102a248b749816975d31int, 0x15bbc7d654e43a2bfd84434b1553314f33af07540a9ade4d27e628acfa8e8625012a25f729843121a5bf70f1b43058b2int, 0x13435f5a08db33b32948c08bef8217081fc904ef221f5bd648163432dd74999ad1973fbd4bd5f6d3bf79388f678923f9int, 0xd8881fe0edbb96b0c55bed052286477ca0a5f83cd7c4447bebd0e9b1b952c7f79dd7fee45bde5a1b8025d26a858dbfcint, 0x36f9dd450b9730c6c2d7af1e844c2c50952e9019b7fffa578547252a85b40449b893c785b2e67132bd5f2be09d808dbint, 0x15bbc7d654e43a2bfd84434b1553314f33af07540a9ade4d27e628acfa8e8625012a25f729843121a5bf70f1b43058b2int);
    lemma_square_step(r, 0xd0088f51cbffnat, 0xd8881fe0edbb96b0c55bed052286477ca0a5f83cd7c4447bebd0e9b1b952c7f79dd7fee45bde5a1b8025d26a858dbfcint, 0x36f9dd450b9730c6c2d7af1e844c2c50952e9019b7fffa578547252a85b40449b893c785b2e67132bd5f2be09d808dbint, 0x15bbc7d654e43a2bfd84434b1553314f33af07540a9ade4d27e628acfa8e8625012a25f729843121a5bf70f1b43058b2int, 0x116fe8d07bacdf46f4a4a7d89e43b9a9fb1ca1d8c3044c3f5811da11d9ba45e66a78089e47a241bc8eb295e126a02b75int, 0x12bc45457538154878068e66c782d37c3ca157e5e4ce37025855de8db22fef82c97c4c971526d57ad1c7539c2f46090dint, 0x12c4bae089413215f572261a4eed1b076cceab508cd4873195cc5c50453b4629edb2dce776620541fb37f51e9ca2697aint);
}

#[verifier::rlimit(40)]
proof fn lemma_root_pow_part_18(r: int)
    requires
        cong(iso_cubic(r), 0),
    ensures
        cong(pow(r, 0xd0088f51cbff2nat), quad(0x17520103e054023d5fafcb19b10e9bba9e4863eb70197b5d676658b194c120a4c51ebb8ea797a735d737a9016c1bfb96int, 0x1931911803e132dfbdef5b4ea80b77998a84a75ea09fdaf55877d1a6c11ca3fd4298c10dbfa42fd8bb255e9b3cc4aa90int, 0xa1cabacd1fe857fe5a1f8dd97bdfbef5858515d3e8e412ba5f9593f0ef75c9322faa50c963401c4346762fd88c84a02int, r)),
{
    lemma_root_pow_part_17(r);
    lemma_square_step(r, 0x1a0111ea397fenat, 0x116fe8d07bacdf46f4a4a7d89e43b9a9fb1ca1d8c3044c3f5811da11d9ba45e66a78089e47a241bc8eb295e126a02b75int, 0x12bc45457538154878068e66c782d37c3ca157e5e4ce37025855de8db22fef82c97c4c971526d57ad1c7539c2f46090dint, 0x12c4bae089413215f572261a4eed1b076cceab508cd4873195cc5c50453b4629edb2dce776620541fb37f51e9ca2697aint, 0x21c67902d6f12294bf863b49b1d0c3ececc855e95897ded51b6dfa714c448e2d84ca4967020191624b93c2008358203int, 0xf381df3fdbbae56326a7288bcfc02b9d16893339ba0a224bb12be73584c8d8bd6cbcda5c659cec056fd444f1ded7668int, 0x10339a864c0c6192064b19f3f848c50ac144d4fafa99b360ff7646f1ea5529a7679481046025745776ae3aa456340c04int);
    lemma_square_step(r, 0x340223d472ffcnat, 0x21c67902d6f12294bf863b49b1d0c3ececc855e95897ded51b6dfa714c448e2d84ca4967020191624b93c2008358203int, 0xf381df3fdbbae56326a7288bcfc02b9d16893339ba0a224bb12be73584c8d8bd6cbcda5c659cec056fd444f1ded7668int, 0x10339a864c0c6192064b19f3f848c50ac144d4fafa99b360ff7646f1ea5529a7679481046025745776ae3aa456340c04int, 0x105fdf82698809b2e353e222af5cc587818fa2e72938310f8dbab9b6f2671c65a7493cc99749e5c4990365ce374e8c26int, 0x19a132ae58847269fcc025a45f8205a301a03a700028dff5c808413bf055a1604472c7c5901a707498393cd7798cc317int, 0x1422b23fa5fdb39f42207ac2fb756b45e0bb02ddcf90bcba9cf01e8a5d4439582619bf2ebdbaa9b842273f8160596ff0int);
    lemma_times_root_step(r, 0x680447a8e5ff8nat, 0x105fdf82698809b2e353e222af5cc587818fa2e72938310f8dbab9b6f2671c65a7493cc99749e5c4990365ce374e8c26int, 0x19a132ae58847269fcc025a45f8205a301a03a700028dff5c808413bf055a1604472c7c5901a707498393cd7798cc317int, 0x1422b23fa5fdb39f42207ac2fb756b45e0bb02ddcf90bcba9cf01e8a5d4439582619bf2ebdbaa9b842273f8160596ff0int, 0x18b0110bfe00ba8ee87b6b1799c6c5ddc1b20a38bfeccb5d23c82ae96468de15ef2b2e2738e286ed152da160e70d3d94int, 0x18b260367078a543e6f2fb25408d4393c15348188bb03d58aaf00841762c36e31f762e09c5d74de8dd3d4fd440eade93int, 0x19a132ae58847269fcc025a45f8205a301a03a700028dff5c808413bf055a1604472c7c5901a707498393cd7798cc317int);
    lemma_square_step(r, 0x680447a8e5ff9nat, 0x18b0110bfe00ba8ee87b6b1799c6c5ddc1b20a38bfeccb5d23c82ae96468de15ef2b2e2738e286ed152da160e70d3d94int, 0x18b260367078a543e6f2fb25408d4393c15348188bb03d58aaf00841762c36e31f762e09c5d74de8dd3d4fd440eade93int, 0x19a132ae58847269fcc025a45f8205a301a03a700028dff5c808413bf055a1604472c7c5901a707498393cd7798cc317int, 0x17520103e054023d5fafcb19b10e9bba9e4863eb70197b5d676658b194c120a4c51ebb8ea797a735d737a9016c1bfb96int, 0x1931911803e132dfbdef5b4ea80b77998a84a75ea09fdaf55877d1a6c11ca3fd4298c10dbfa42fd8bb255e9b3cc4aa90int, 0xa1cabacd1fe857fe5a1f8dd97bdfbef5858515d3e8e412ba5f9593f0ef75c9322faa50c963401c4346762fd88c84a02int);
}

#[verifier::rlimit(40)]
proof fn lemma_root_pow_part_19(r: int)
    requires
        cong(iso_cubic(r), 0),
    ensures
        cong(pow(r, 0x340223d472ffcdnat), quad(0xbab2baba39bd2e470b82f782437717a6d172b8b6908922ad25fcc9c6bc8b51b484d180e2b95b69183495b7d31bdfd5dint, 0x11be9b57d969e638fd3c850a59a5ecaeb314c9c3c62218e1d1fbc20688794935436f91df76f41cfb6dbedfd542b7fec3int, 0xf48ba9b2ec6503a1fee944fe6dd3669fb8bb80866697995908dffa94683974ab41cc5842145a87db53878c3b83f7aabint, r)),
{
    lemma_root_pow_part_18(r);
    lemma_times_root_step(r, 0xd0088f51cbff2nat, 0x17520103e054023d5fafcb19b10e9bba9e4863eb70197b5d676658b194c120a4c51ebb8ea797a735d737a9016c1bfb96int, 0x1931911803e132dfbdef5b4ea80b77998a84a75ea09fdaf55877d1a6c11ca3fd4298c10dbfa42fd8bb255e9b3cc4aa90int, 0xa1cabacd1fe857fe5a1f8dd97bdfbef5858515d3e8e412ba5f9593f0ef75c9322faa50c963401c4346762fd88c84a02int, 0x12c05b4efacc6f0bececa34f917c2a129429c231a62c34516df7bbdb4a504aeab262ebd964bb73d58f99a598eb556a25int, 0x84d33396f2c04c07ad39120c4fd93935fd201b2403426b59a4162590a9229154e2c8ceecd8560b85e8db647d212488int, 0x1931911803e132dfbdef5b4ea80b77998a84a75ea09fdaf55877d1a6c11ca3fd4298c10dbfa42fd8bb255e9b3cc4aa90int);
    lemma_square_step(r, 0xd0088f51cbff3nat, 0x12c05b4efacc6f0bececa34f917c2a129429c231a62c34516df7bbdb4a504aeab262ebd964bb73d58f99a598eb556a25int, 0x84d33396f2c04c07ad39120c4fd93935fd201b2403426b59a4162590a9229154e2c8ceecd8560b85e8db647d212488int, 0x1931911803e132dfbdef5b4ea80b77998a84a75ea09fdaf55877d1a6c11ca3fd4298c10dbfa42fd8bb255e9b3cc4aa90int, 0x19120e1ad623d1cb107a1b7c1c9a9ec00e2a053fcd2e586289959ce0501b746f66a75ef6299ef0613ed4835e8f3cf407int, 0x1316a6c0be419c49977c2f9e86d2877e765161306dccef341c93c2434a6b50698a4acef9cc4584d0928b67a77e8628a4int, 0x12b9463f8a1f649dc90b0ba3cec4d30f6f92f556fc502d6c17b0a2e0392eb900bfc8ba322841021aac9de704620a547bint);
    lemma_square_step(r, 0x1a0111ea397fe6nat, 0x19120e1ad623d1cb107a1b7c1c9a9ec00e2a053fcd2e586289959ce0501b746f66a75ef6299ef0613ed4835e8f3cf407int, 0x1316a6c0be419c49977c2f9e86d2877e765161306dccef341c93c2434a6b50698a4acef9cc4584d0928b67a77e8628a4int, 0x12b9463f8a1f649dc90b0ba3cec4d30f6f92f556fc502d6c17b0a2e0392eb900bfc8ba322841021aac9de704620a547bint, 0x1313c7cc5cb5d3e51442537ddefbb9b6a35d4e25ff3be90cc194008526c5814a1c79241aa858b65f7bc665eddd4c33deint, 0xf48ba9b2ec6503a1fee944fe6dd3669fb8bb80866697995908dffa94683974ab41cc5842145a87db53878c3b83f7aabint, 0x16311f10357ff1b4496f79bdb7c5a85b60473cf0d1e1b176d38874e74ede378f0d403e988f98295180845166e9561429int);
    lemma_times_root_step(r, 0x340223d472ffccnat, 0x1313c7cc5cb5d3e51442537ddefbb9b6a35d4e25ff3be90cc194008526c5814a1c79241aa858b65f7bc665eddd4c33deint, 0xf48ba9b2ec6503a1fee944fe6dd3669fb8bb80866697995908dffa94683974ab41cc5842145a87db53878c3b83f7aabint, 0x16311f10357ff1b4496f79bdb7c5a85b60473cf0d1e1b176d38874e74ede378f0d403e988f98295180845166e9561429int, 0xbab2baba39bd2e470b82f782437717a6d172b8b6908922ad25fcc9c6bc8b51b484d180e2b95b69183495b7d31bdfd5dint, 0x11be9b57d969e638fd3c850a59a5ecaeb314c9c3c62218e1d1fbc20688794935436f91df76f41cfb6dbedfd542b7fec3int, 0xf48ba9b2ec6503a1fee944fe6dd3669fb8bb80866697995908dffa94683974ab41cc5842145a87db53878c3b83f7aabint);
}

#[verifier::rlimit(40)]
proof fn lemma_root_pow_part_20(r: int)
    requires
        cong(iso_cubic(r), 0),
    ensures
        cong(pow(r, 0x1a0111ea397fe69nat), quad(0xa4bf7a222569a258ad282000c9f860a93140da925a7a71dd6666d46e05f82290ad6fb5c4dd1bba54a54b307e6114058int, 0x5e538a1036bf9a7eb48be8a2422f79bb93098593366d88825d8a72234b034660010ee867c99248c101699a69074558dint, 0xe91e8f0d4f2055966d0c53a007f7823f01d323bf490573c453d10d5e7b913363b40c387126574a0d01ea36f3efde51bint, r)),
{
    lemma_root_pow_part_19(r);
    lemma_square_step(r, 0x340223d472ffcdnat, 0xbab2baba39bd2e470b82f782437717a6d172b8b6908922ad25fcc9c6bc8b51b484d180e2b95b69183495b7d31bdfd5dint, 0x11be9b57d969e638fd3c850a59a5ecaeb314c9c3c62218e1d1fbc20688794935436f91df76f41cfb6dbedfd542b7fec3int, 0xf48ba9b2ec6503a1fee944fe6dd3669fb8bb80866697995908dffa94683974ab41cc5842145a87db53878c3b83f7aabint, 0xab1599df6b2906c5af74837b2145a3a9df30f6c7f8d8858563c1f2f8ac44ab0309e977ad5ec1e96e02a3d3950d4ce63int, 0x18f5b5e60b83a36af06091793950990bf1f32261c93177f2d57681c1d75475fe826be27d46b3c2334524b385e0b27e62int, 0x162fdc7afad8259a74b216be1f75f265511d49c1cc2d4ea0dba1ca4f0c1ae8eb8ce66a8a3d863e31a23d361eaa6ef5a5int);
    lemma_square_step(r, 0x680447a8e5ff9anat, 0xab1599df6b2906c5af74837b2145a3a9df30f6c7f8d8858563c1f2f8ac44ab0309e977ad5ec1e96e02a3d3950d4ce63int, 0x18f5b5e60b83a36af06091793950990bf1f32261c93177f2d57681c1d75475fe826be27d46b3c2334524b385e0b27e62int, 0x162fdc7afad8259a74b216be1f75f265511d49c1cc2d4ea0dba1ca4f0c1ae8eb8ce66a8a3d863e31a23d361eaa6ef5a5int, 0x681e4ba667cc80fa795f66583e6ee833e3e78b98b93069d82532ff4f556f6f4cd3374a2ebaf79c7bb0d844dc0559c3bint, 0x268e6391faac1cfd89a8e7882b4764e27be95a9415de0bee13134a0bbf687c869728f9f259ccad21dc1f9cf084a88eint, 0xfba9a550c8890e403dfee78e55b35c079bdd08a52b62019a98c44fcd79756dc9af3baffea63801af274623ad41dfcabint);
    lemma_square_step(r, 0xd0088f51cbff34nat, 0x681e4ba667cc80fa795f66583e6ee833e3e78b98b93069d82532ff4f556f6f4cd3374a2ebaf79c7bb0d844dc0559c3bint, 0x268e6391faac1cfd89a8e7882b4764e27be95a9415de0bee13134a0bbf687c869728f9f259ccad21dc1f9cf084a88eint, 0xfba9a550c8890e403dfee78e55b35c079bdd08a52b62019a98c44fcd79756dc9af3baffea63801af274623ad41dfcabint, 0x1177ec5572f22a66710296670bcf1953f2a1f050e44b9f9c218d5b9b4be562fa763f4a838948e963b7e7b655a78030e1int, 0xe91e8f0d4f2055966d0c53a007f7823f01d323bf490573c453d10d5e7b913363b40c387126574a0d01ea36f3efde51bint, 0x13092cbd6a8badeecc4562098ff0cca77fc22231f587f62e7fb52fedceb410a6304ebcf806b1312492eb8737480dffeeint);
    lemma_times_root_step(r, 0x1a0111ea397fe68nat, 0x1177ec5572f22a66710296670bcf1953f2a1f050e44b9f9c218d5b9b4be562fa763f4a838948e963b7e7b655a78030e1int, 0xe91e8f0d4f2055966d0c53a007f7823f01d323bf490573c453d10d5e7b913363b40c387126574a0d01ea36f3efde51bint, 0x13092cbd6a8badeecc4562098ff0cca77fc22231f587f62e7fb52fedceb410a6304ebcf806b1312492eb8737480dffeeint, 0xa4bf7a222569a258ad282000c9f860a93140da925a7a71dd6666d46e05f82290ad6fb5c4dd1bba54a54b307e6114058int, 0x5e538a1036bf9a7eb48be8a2422f79bb93098593366d88825d8a72234b034660010ee867c99248c101699a69074558dint, 0xe91e8f0d4f2055966d0c53a007f7823f01d323bf490573c453d10d5e7b913363b40c387126574a0d01ea36f3efde51bint);
}

#[verifier::rlimit(40)]
proof fn lemma_root_pow_part_21(r: int)
    requires
        cong(iso_cubic(r), 0),
    ensures
        cong(pow(r, 0xd0088f51cbff34cnat), quad(0x179f7ad3d4113972913adcac2ce0599f2e3baa33239eb18666af9a66a7f7226d02d9d024f13f2f0628e95c44076afdint, 0x13ba8864d043f46ffb23c2276b281b5543cb4738c8378fa8c4efa351f48cc9e6b158a92e061876b6a6e3d1d4e44a677dint, 0x4396305579aa91ea450e287c21481d033b6443b867c16f07e62f397bfb78b605f01cbe48043ef7c9a6d3ace2369676fint, r)),
{
    lemma_root_pow_part_20(r);
    lemma_square_step(r, 0x1a0111ea397fe69nat, 0xa4bf7a222569a258ad282000c9f860a93140da925a7a71dd6666d46e05f82290ad6fb5c4dd1bba54a54b307e6114058int, 0x5e538a1036bf9a7eb48be8a2422f79bb93098593366d88825d8a72234b034660010ee867c99248c101699a69074558dint, 0xe91e8f0d4f2055966d0c53a007f7823f01d323bf490573c453d10d5e7b913363b40c387126574a0d01ea36f3efde51bint, 0x14a7aa4412f1d56602a98b59450be4088d46e8ee4d36f808f59cdf2ddbeb720917b0bef2530019b4a89e1f30e3138ac4int, 0x17c1e699da9c7344267392df0f55234eaebe28fe12d070c13eb337e8c3e64b9c3405035bffbd0d5306573b304c83c0f0int, 0x2a797bc9dbf137b95eba19a29e1019b8391ae825f4e3a8f0005bdc09c1d40f2c72c3b1f17ea0dcae563818576d04c32int);
    lemma_times_root_step(r, 0x340223d472ffcd2nat, 0x14a7aa4412f1d56602a98b59450be4088d46e8ee4d36f808f59cdf2ddbeb720917b0bef2530019b4a89e1f30e3138ac4int, 0x17c1e699da9c7344267392df0f55234eaebe28fe12d070c13eb337e8c3e64b9c3405035bffbd0d5306573b304c83c0f0int, 0x2a797bc9dbf137b95eba19a29e1019b8391ae825f4e3a8f0005bdc09c1d40f2c72c3b1f17ea0dcae563818576d04c32int, 0x3fb361658800c66fdb4ba091d2cecc2af8dffa181cd1ebd9d81d3bee6940fcb57456c151479be8cbf23f253139797f4int, 0xdde69f29f4bbfa2b4d6920222405ec6d440c2ab9a35eb242febc0a234983a10185ba6ffdb5fdc652055f3147a668b6bint, 0x17c1e699da9c7344267392df0f55234eaebe28fe12d070c13eb337e8c3e64b9c3405035bffbd0d5306573b304c83c0f0int);
    lemma_square_step(r, 0x340223d472ffcd3nat, 0x3fb361658800c66fdb4ba091d2cecc2af8dffa181cd1ebd9d81d3bee6940fcb57456c151479be8cbf23f253139797f4int, 0xdde69f29f4bbfa2b4d6920222405ec6d440c2ab9a35eb242febc0a234983a10185ba6ffdb5fdc652055f3147a668b6bint, 0x17c1e699da9c7344267392df0f55234eaebe28fe12d070c13eb337e8c3e64b9c3405035bffbd0d5306573b304c83c0f0int, 0x7639b4226188c78a645af2cae7074f6a34b28c39be2ebfc640bd8078a4f086b7afaf68947933dfd943c7bd02370f7c6int, 0xdec0dcb863814ef75b92d7384a24f0baf91efaff3990e3c67190967aec79a31fee80dd3969cca5d99bd8fb4e5e648a2int, 0x15dce86904951dc03ca691e546ad8530b5d2f292f8d3ad1adc90e8f03b6ada005c3636cb480f4b6bbbc44c089458a7e8int);
    lemma_square_step(r, 0x680447a8e5ff9a6nat, 0x7639b4226188c78a645af2cae7074f6a34b28c39be2ebfc640bd8078a4f086b7afaf68947933dfd943c7bd02370f7c6int, 0xdec0dcb863814ef75b92d7384a24f0baf91efaff3990e3c67190967aec79a31fee80dd3969cca5d99bd8fb4e5e648a2int, 0x15dce86904951dc03ca691e546ad8530b5d2f292f8d3ad1adc90e8f03b6ada005c3636cb480f4b6bbbc44c089458a7e8int, 0x179f7ad3d4113972913adcac2ce0599f2e3baa33239eb18666af9a66a7f7226d02d9d024f13f2f0628e95c44076afdint, 0x13ba8864d043f46ffb23c2276b281b5543cb4738c8378fa8c4efa351f48cc9e6b158a92e061876b6a6e3d1d4e44a677dint, 0x4396305579aa91ea450e287c21481d033b6443b867c16f07e62f397bfb78b605f01cbe48043ef7c9a6d3ace2369676fint);
}

#[verifier::rlimit(40)]
proof fn lemma_root_pow_part_22(r: int)
    requires
        cong(iso_cubic(r), 0),
    ensures
        cong(pow(r, 0x680447a8e5ff9a68nat), quad(0x18a6dd98d137c34c70aa94b6db61b3667884f5af51ca46940dd5d45665ff45b4c1d335daa8de3d1689c48a1af2f64efdint, 0xc39f8a6fbd6d638bea5467ec05ef2556661d7c414fc1c158358c4de9dc961b493537361951a7ff375bd1a8ffa660e28int, 0xd544b72c8f1ffde70b1a14841bfc3be9176960db826bffd911b78fea41f94b4f8f9206cf411b8ac636d2cd3cb270f92int, r)),
{
    lemma_root_pow_part_21(r);
    lemma_times_root_step(r, 0xd0088f51cbff34cnat, 0x179f7ad3d4113972913adcac2ce0599f2e3baa33239eb18666af9a66a7f7226d02d9d024f13f2f0628e95c44076afdint, 0x13ba8864d043f46ffb23c2276b281b5543cb4738c8378fa8c4efa351f48cc9e6b158a92e061876b6a6e3d1d4e44a677dint, 0x4396305579aa91ea450e287c21481d033b6443b867c16f07e62f397bfb78b605f01cbe48043ef7c9a6d3ace2369676fint, 0x13eb91afba42f97d040f172b9189f50c1b623d3c017c9ccf2691b75ae08a41a8d92bd84d4615a59ad4f42026f2faf039int, 0xe9090b61c57df828a73ff3af560ff24a82e3cbf4d2ec5e0649c22740a08877547140cc06b211de3407731df8044bcc5int, 0x13ba8864d043f46ffb23c2276b281b5543cb4738c8378fa8c4efa351f48cc9e6b158a92e061876b6a6e3d1d4e44a677dint);
    lemma_square_step(r, 0xd0088f51cbff34dnat, 0x13eb91afba42f97d040f172b9189f50c1b623d3c017c9ccf2691b75ae08a41a8d92bd84d4615a59ad4f42026f2faf039int, 0xe9090b61c57df828a73ff3af560ff24a82e3cbf4d2ec5e0649c22740a08877547140cc06b211de3407731df8044bcc5int, 0x13ba8864d043f46ffb23c2276b281b5543cb4738c8378fa8c4efa351f48cc9e6b158a92e061876b6a6e3d1d4e44a677dint, 0x4f8ec5d7e540ce40a4b231fb5c32a6cf632080b6bb56ec353e29cefdcdcecdd5c01d40c43504a83f7e087d43a57192eint, 0x121c03fa5bc54ad029ea47253c217b7596fcd6f820d8e09214a2f51e72a52689817c8ff2614709401f895d6bae086336int, 0x9a8753d864e897968356c86a41301587bbbb771a83423a3ff5b95314398bc85b56a4e02962f6e852f55ff3b46fc4f10int);
    lemma_square_step(r, 0x1a0111ea397fe69anat, 0x4f8ec5d7e540ce40a4b231fb5c32a6cf632080b6bb56ec353e29cefdcdcecdd5c01d40c43504a83f7e087d43a57192eint, 0x121c03fa5bc54ad029ea47253c217b7596fcd6f820d8e09214a2f51e72a52689817c8ff2614709401f895d6bae086336int, 0x9a8753d864e897968356c86a41301587bbbb771a83423a3ff5b95314398bc85b56a4e02962f6e852f55ff3b46fc4f10int, 0x68c94fd2fb3686a242ab808734fb8acf99e46eee2ed121c2848b5177455f16f03a423bf397f40a4b7f67b1a3cf9629dint, 0xc12162af18696dbd2eaa8ddba8fdc9ffd9ff48f200324c172f87dd218109c1ba5a583e09897202b0221d4c8b1df0605int, 0x1168481a81ff73652c2e5d34f4a912f2c2b319935251909e64ef89cd2cd390a9dbbe1e8b5bd882d75ba5805d25397fdeint);
    lemma_square_step(r, 0x340223d472ffcd34nat, 0x68c94fd2fb3686a242ab808734fb8acf99e46eee2ed121c2848b5177455f16f03a423bf397f40a4b7f67b1a3cf9629dint, 0xc12162af18696dbd2eaa8ddba8fdc9ffd9ff48f200324c172f87dd218109c1ba5a583e09897202b0221d4c8b1df0605int, 0x1168481a81ff73652c2e5d34f4a912f2c2b319935251909e64ef89cd2cd390a9dbbe1e8b5bd882d75ba5805d25397fdeint, 0x18a6dd98d137c34c70aa94b6db61b3667884f5af51ca46940dd5d45665ff45b4c1d335daa8de3d1689c48a1af2f64efdint, 0xc39f8a6fbd6d638bea5467ec05ef2556661d7c414fc1c158358c4de9dc961b493537361951a7ff375bd1a8ffa660e28int, 0xd544b72c8f1ffde70b1a14841bfc3be9176960db826bffd911b78fea41f94b4f8f9206cf411b8ac636d2cd3cb270f92int);
}

#[verifier::rlimit(40)]
proof fn lemma_root_pow_part_23(r: int)
    requires
        cong(iso_cubic(r), 0),
    ensures
        cong(pow(r, 0x340223d472ffcd348nat), quad(0x55eeeb8fe44981402f199aeeecbd69454ffd6c44ea4e0ec9d036cfcc55f9b82a87f787743cebfb07a242d8191ed840bint, 0x13e07808429c91db17a6397964a37ea9b27ad7308d5c28af2ac0bd4095ffc718135a6313ae5b91b1d606fed51799fb39int, 0xc84fc2a34b816dc3bd112e14b3f10206d373e6a91d5f1dde1b8380d684a930b071bc447e372329fba4e2e1fc6fc1944int, r)),
{
    lemma_root_pow_part_22(r);
    lemma_times_root_step(r, 0x680447a8e5ff9a68nat, 0x18a6dd98d137c34c70aa94b6db61b3667884f5af51ca46940dd5d45665ff45b4c1d335daa8de3d1689c48a1af2f64efdint, 0xc39f8a6fbd6d638bea5467ec05ef2556661d7c414fc1c158358c4de9dc961b493537361951a7ff375bd1a8ffa660e28int, 0xd544b72c8f1ffde70b1a14841bfc3be9176960db826bffd911b78fea41f94b4f8f9206cf411b8ac636d2cd3cb270f92int, 0x473da73367ca4b95c97d1a80615eb5042f50937a7ed6265a3eaed0e24f10b094def5999f4dd453272f37ed114ea8c4dint, 0x40069f03e89fc91aebac24ece99c0824f13c76c2b1bc4b8b085c3ef9ba9b9e4f1a4dc92d556c57525c7496226a79582int, 0xc39f8a6fbd6d638bea5467ec05ef2556661d7c414fc1c158358c4de9dc961b493537361951a7ff375bd1a8ffa660e28int);
    lemma_square_step(r, 0x680447a8e5ff9a69nat, 0x473da73367ca4b95c97d1a80615eb5042f50937a7ed6265a3eaed0e24f10b094def5999f4dd453272f37ed114ea8c4dint, 0x40069f03e89fc91aebac24ece99c0824f13c76c2b1bc4b8b085c3ef9ba9b9e4f1a4dc92d556c57525c7496226a79582int, 0xc39f8a6fbd6d638bea5467ec05ef2556661d7c414fc1c158358c4de9dc961b493537361951a7ff375bd1a8ffa660e28int, 0x59128e78d067812068e7c70575938497b908cc8892d3a19f02010c9d3c017ce29aad99c990e7304c24a5d35e860238fint, 0x11c25068020a23ac082b9e4d67c70e975edfc5cdba1b9bfa033ca6bc674b809d1836c7d850643c1cce39747f3584c4e0int, 0x15635c84e2589ed75a0f567a56db18cb544318cea47f905a656fcd91e872c06912437f5ccc51552246678a3aae512deeint);
    lemma_square_step(r, 0xd0088f51cbff34d2nat, 0x59128e78d067812068e7c70575938497b908cc8892d3a19f02010c9d3c017ce29aad99c990e7304c24a5d35e860238fint, 0x11c25068020a23ac082b9e4d67c70e975edfc5cdba1b9bfa033ca6bc674b809d1836c7d850643c1cce39747f3584c4e0int, 0x15635c84e2589ed75a0f567a56db18cb544318cea47f905a656fcd91e872c06912437f5ccc51552246678a3aae512deeint, 0x1d07bf4337576529476d625c187696de2a3b241982f72e128a938c09a204da1a21907576ede882d6f0b0d84da069b89int, 0x18cf9340542b1b93a60bab82859625db8fb426a24bd5e66b91e79e0b84095f33cb5c5b67abce3600f63338fb6c5821c3int, 0xb38534c1759af1df16cd099fbf67fe8d87468660d3bf14a1e5923246785b603f0385cbc5e02cb78748e2a9f1f9ed9c5int);
    lemma_square_step(r, 0x1a0111ea397fe69a4nat, 0x1d07bf4337576529476d625c187696de2a3b241982f72e128a938c09a204da1a21907576ede882d6f0b0d84da069b89int, 0x18cf9340542b1b93a60bab82859625db8fb426a24bd5e66b91e79e0b84095f33cb5c5b67abce3600f63338fb6c5821c3int, 0xb38534c1759af1df16cd099fbf67fe8d87468660d3bf14a1e5923246785b603f0385cbc5e02cb78748e2a9f1f9ed9c5int, 0x55eeeb8fe44981402f199aeeecbd69454ffd6c44ea4e0ec9d036cfcc55f9b82a87f787743cebfb07a242d8191ed840bint, 0x13e07808429c91db17a6397964a37ea9b27ad7308d5c28af2ac0bd4095ffc718135a6313ae5b91b1d606fed51799fb39int, 0xc84fc2a34b816dc3bd112e14b3f10206d373e6a91d5f1dde1b8380d684a930b071bc447e372329fba4e2e1fc6fc1944int);
}

#[verifier::rlimit(40)]
proof fn lemma_root_pow_part_24(r: int)
    requires
        cong(iso_cubic(r), 0),
    ensures
        cong(pow(r, 0xd0088f51cbff34d25nat), quad(0x5011223c2e1f985c01347f8e6bd29ff9cf77c0b1654f6da652e326bbe5f3f0c5b3f7aea03022f8ead3febb6900f9790int, 0x2bdf4508e6371d94087a3dc44e304963a416ac107a06084e8d00dd1cadfaedc0bfb34a7851d4b05e053cc599ee8fa31int, 0x9da9b88f1a9b3a94967e2289ceda8e650101cb876ec169591ccba819ca84d83b7b55beca659cf8e88fae2b591dc5158int, r)),
{
    lemma_root_pow_part_23(r);
    lemma_times_root_step(r, 0x340223d472ffcd348nat, 0x55eeeb8fe44981402f199aeeecbd69454ffd6c44ea4e0ec9d036cfcc55f9b82a87f787743cebfb07a242d8191ed840bint, 0x13e07808429c91db17a6397964a37ea9b27ad7308d5c28af2ac0bd4095ffc718135a6313ae5b91b1d606fed51799fb39int, 0xc84fc2a34b816dc3bd112e14b3f10206d373e6a91d5f1dde1b8380d684a930b071bc447e372329fba4e2e1fc6fc1944int, 0x17f0e0414d8789ed0e0c3368e025633f5c5e48d45c766f4120ddba0e67290c50b6df4eb353953d0330b1b125046e524eint, 0x1322a236b74c1d2bd6d217054f7bc04063777c038684913a1c4309557676b5fe5ede905b48f5726ad747635246a12e21int, 0x13e07808429c91db17a6397964a37ea9b27ad7308d5c28af2ac0bd4095ffc718135a6313ae5b91b1d606fed51799fb39int);
    lemma_square_step(r, 0x340223d472ffcd349nat, 0x17f0e0414d8789ed0e0c3368e025633f5c5e48d45c766f4120ddba0e67290c50b6df4eb353953d0330b1b125046e524eint, 0x1322a236b74c1d2bd6d217054f7bc04063777c038684913a1c4309557676b5fe5ede905b48f5726ad747635246a12e21int, 0x13e07808429c91db17a6397964a37ea9b27ad7308d5c28af2ac0bd4095ffc718135a6313ae5b91b1d606fed51799fb39int, 0x166e6c1500d8bc499594cc0e3e463b2779e1cd2307c6ffdbf2668fff3c6f8f68c6a93af0e78ab49de0c723681e9303a6int, 0x19dde8eeeb1aed755606c1a6296c422c1353b385ff6d702914fb6c89edc2102fc3fb561ba8bae7d08530fd2a275a5849int, 0x6ac0e8ed3e9ab1ca40698d4bb2181900d97a725f29b8dfa86ee4a4db02a14ce6ae02388a9b1e308dba32e0f42c51b8aint);
    lemma_square_step(r, 0x680447a8e5ff9a692nat, 0x166e6c1500d8bc499594cc0e3e463b2779e1cd2307c6ffdbf2668fff3c6f8f68c6a93af0e78ab49de0c723681e9303a6int, 0x19dde8eeeb1aed755606c1a6296c422c1353b385ff6d702914fb6c89edc2102fc3fb561ba8bae7d08530fd2a275a5849int, 0x6ac0e8ed3e9ab1ca40698d4bb2181900d97a725f29b8dfa86ee4a4db02a14ce6ae02388a9b1e308dba32e0f42c51b8aint, 0xccb2abfed5bb5238e052f9d9139e02608d00852e16699ecd33eb9740d5a641e6bb8951e05cff23bb24aeac82e639fa7int, 0x9da9b88f1a9b3a94967e2289ceda8e650101cb876ec169591ccba819ca84d83b7b55beca659cf8e88fae2b591dc5158int, 0x413cfce036aa7d40846e3454da4470085a6cef55b1796c0ce58376ab118e91275b4bb1d0a470dc8de9dfb5afa4b5099int);
    lemma_times_root_step(r, 0xd0088f51cbff34d24nat, 0xccb2abfed5bb5238e052f9d9139e02608d00852e16699ecd33eb9740d5a641e6bb8951e05cff23bb24aeac82e639fa7int, 0x9da9b88f1a9b3a94967e2289ceda8e650101cb876ec169591ccba819ca84d83b7b55beca659cf8e88fae2b591dc5158int, 0x413cfce036aa7d40846e3454da4470085a6cef55b1796c0ce58376ab118e91275b4bb1d0a470dc8de9dfb5afa4b5099int, 0x5011223c2e1f985c01347f8e6bd29ff9cf77c0b1654f6da652e326bbe5f3f0c5b3f7aea03022f8ead3febb6900f9790int, 0x2bdf4508e6371d94087a3dc44e304963a416ac107a06084e8d00dd1cadfaedc0bfb34a7851d4b05e053cc599ee8fa31int, 0x9da9b88f1a9b3a94967e2289ceda8e650101cb876ec169591ccba819ca84d83b7b55beca659cf8e88fae2b591dc5158int);
}

#[verifier::rlimit(40)]
proof fn lemma_root_pow_part_25(r: int)
    requires
        cong(iso_cubic(r), 0),
    ensures
        cong(pow(r, 0x680447a8e5ff9a692cnat), quad(0x108133aa488f58301f7e598a673494d8dab391c1c7060d7cc036f3132bec682453fd24e029c218d11817a596476ff45int, 0x16ee78683b3e269e57fc5831f5ca86df31286e8ad0a7f3f1807045c859433260a4798543ef9c773c61b904f38cfda28int, 0xdfee45d90c8d1ee317c97e1ad28d6cb6dd515d37565923c821d7ee48d8e8bf85570e2318eaa49447309c8b7ac2b3267int, r)),
{
    lemma_root_pow_part_24(r);
    lemma_square_step(r, 0xd0088f51cbff34d25nat, 0x5011223c2e1f985c01347f8e6bd29ff9cf77c0b1654f6da652e326bbe5f3f0c5b3f7aea03022f8ead3febb6900f9790int, 0x2bdf4508e6371d94087a3dc44e304963a416ac107a06084e8d00dd1cadfaedc0bfb34a7851d4b05e053cc599ee8fa31int, 0x9da9b88f1a9b3a94967e2289ceda8e650101cb876ec169591ccba819ca84d83b7b55beca659cf8e88fae2b591dc5158int, 0x4929dba799c95c9cfec80833564eee183b5bb63805192dece198b5008de959021b8fc3b5eaa4c9e099f706658163541int, 0x18c92263961371c2c44e2208edcac5e533105886acb315678bde3297233c88cbf1fbef0c99d0abcdc688871ce531f2c3int, 0x12df805f90d2385fe11998821462c2cf09ad6424f29138c026b8425f00b86ce836a97875dc327b1dcbc0375e93a8721fint);
    lemma_times_root_step(r, 0x1a0111ea397fe69a4anat, 0x4929dba799c95c9cfec80833564eee183b5bb63805192dece198b5008de959021b8fc3b5eaa4c9e099f706658163541int, 0x18c92263961371c2c44e2208edcac5e533105886acb315678bde3297233c88cbf1fbef0c99d0abcdc688871ce531f2c3int, 0x12df805f90d2385fe11998821462c2cf09ad6424f29138c026b8425f00b86ce836a97875dc327b1dcbc0375e93a8721fint, 0x19efd7f12c8d666f4ee3aa74fae0f05cbb65a20545a7cf403f6d981de727aeca25ee2bbb04ed20652a3ac80ef263b833int, 0x12fc984e33623af3fd6f866bcb778b59956563022333625041f64f4640649cae98f5ec990630d9d3932a19ee2023992aint, 0x18c92263961371c2c44e2208edcac5e533105886acb315678bde3297233c88cbf1fbef0c99d0abcdc688871ce531f2c3int);
    lemma_square_step(r, 0x1a0111ea397fe69a4bnat, 0x19efd7f12c8d666f4ee3aa74fae0f05cbb65a20545a7cf403f6d981de727aeca25ee2bbb04ed20652a3ac80ef263b833int, 0x12fc984e33623af3fd6f866bcb778b59956563022333625041f64f4640649cae98f5ec990630d9d3932a19ee2023992aint, 0x18c92263961371c2c44e2208edcac5e533105886acb315678bde3297233c88cbf1fbef0c99d0abcdc688871ce531f2c3int, 0x31378236829a88e7b86098ec7f4ff627a0840fbbe6daa28f5aed11dddaac935d78cebc0241c33f1d55e8331f03aa45int, 0x1145980d928c2cc6bc153ea09e5991968be624eb30185a160041d6569acba087d9460d0478b139611118cbc03a06bea7int, 0x19522c16fb6be17286002572340d7a519fc448efa0b0ea48f6e3f29e77e0ac3db685dd34551505ad3b0382535a60ad8bint);
    lemma_square_step(r, 0x340223d472ffcd3496nat, 0x31378236829a88e7b86098ec7f4ff627a0840fbbe6daa28f5aed11dddaac935d78cebc0241c33f1d55e8331f03aa45int, 0x1145980d928c2cc6bc153ea09e5991968be624eb30185a160041d6569acba087d9460d0478b139611118cbc03a06bea7int, 0x19522c16fb6be17286002572340d7a519fc448efa0b0ea48f6e3f29e77e0ac3db685dd34551505ad3b0382535a60ad8bint, 0x108133aa488f58301f7e598a673494d8dab391c1c7060d7cc036f3132bec682453fd24e029c218d11817a596476ff45int, 0x16ee78683b3e269e57fc5831f5ca86df31286e8ad0a7f3f1807045c859433260a4798543ef9c773c61b904f38cfda28int, 0xdfee45d90c8d1ee317c97e1ad28d6cb6dd515d37565923c821d7ee48d8e8bf85570e2318eaa49447309c8b7ac2b3267int);
}

#[verifier::rlimit(40)]
proof fn lemma_root_pow_part_26(r: int)
    requires
        cong(iso_cubic(r), 0),
    ensures
        cong(pow(r, 0x340223d472ffcd34962nat), quad(0xec6306ecce24e49c4945b548a05c27e29335f50d6f2d46245bca23cabf9d408828d588bfc3c06fb417fb2631eefc976int, 0x729321913fe804397ab145653f7ec7c0e1e0591e00878a8744117d3fea15151001be4539395db73965a0df161f9917aint, 0x3f6f96f010950c83818f678731b38624e30c6238a3c9e0c5e901f6903c382ff945c77ad8141c9dc1b3e5a867805c9b4int, r)),
{
    lemma_root_pow_part_25(r);
    lemma_square_step(r, 0x680447a8e5ff9a692cnat, 0x108133aa488f58301f7e598a673494d8dab391c1c7060d7cc036f3132bec682453fd24e029c218d11817a596476ff45int, 0x16ee78683b3e269e57fc5831f5ca86df31286e8ad0a7f3f1807045c859433260a4798543ef9c773c61b904f38cfda28int, 0xdfee45d90c8d1ee317c97e1ad28d6cb6dd515d37565923c821d7ee48d8e8bf85570e2318eaa49447309c8b7ac2b3267int, 0x11a7322805e468c9129a78b9fff669b786d20169902c5a628656aec6f8ffbf9c7cc001a6c989391cdb0761edffb73ca1int, 0x1579e66ac23f08bf7243bc70427532d47496b176a4ed3597e86f1d8b7fc6679f7a2b34a1749a3e1286138559110005f7int, 0x234a2e45986970f638ee0e50bb30d60989de243f82db7ddf5cfd5ef906338744a7bf4f481836edd5bff4210df7dacc3int);
    lemma_square_step(r, 0xd0088f51cbff34d258nat, 0x11a7322805e468c9129a78b9fff669b786d20169902c5a628656aec6f8ffbf9c7cc001a6c989391cdb0761edffb73ca1int, 0x1579e66ac23f08bf7243bc70427532d47496b176a4ed3597e86f1d8b7fc6679f7a2b34a1749a3e1286138559110005f7int, 0x234a2e45986970f638ee0e50bb30d60989de243f82db7ddf5cfd5ef906338744a7bf4f481836edd5bff4210df7dacc3int, 0x2e8f231691357f385972330be16ce6c89003d246e9fc9bdbf791163c9b7cda27615b879df84e69ae4f42c5e17d821ccint, 0x1085e13fd3d7a32abff1a79fa613f136ea4e29323d9b093a02474d2f4517f53079e780169044e7281e0690213fccba74int, 0x546ba1f7f8373a870c8ca63cbabbf91937a82ce9bd3371d62acadbdfe74f36535f7605e53d393bb06ba145860f07c55int);
    lemma_times_root_step(r, 0x1a0111ea397fe69a4b0nat, 0x2e8f231691357f385972330be16ce6c89003d246e9fc9bdbf791163c9b7cda27615b879df84e69ae4f42c5e17d821ccint, 0x1085e13fd3d7a32abff1a79fa613f136ea4e29323d9b093a02474d2f4517f53079e780169044e7281e0690213fccba74int, 0x546ba1f7f8373a870c8ca63cbabbf91937a82ce9bd3371d62acadbdfe74f36535f7605e53d393bb06ba145860f07c55int, 0xe7c9b62ac5c959efa043c9f8107d1423ad1d8036a242265aaddd748c6fac3624d805162995896500be67e430ecdc154int, 0x1613499eef286fabd1427077c5d8087e51bc8b377f057eb249be11b0c4abb028a861482aa36754e3de7bf1f2bb2d1c3cint, 0x1085e13fd3d7a32abff1a79fa613f136ea4e29323d9b093a02474d2f4517f53079e780169044e7281e0690213fccba74int);
    lemma_square_step(r, 0x1a0111ea397fe69a4b1nat, 0xe7c9b62ac5c959efa043c9f8107d1423ad1d8036a242265aaddd748c6fac3624d805162995896500be67e430ecdc154int, 0x1613499eef286fabd1427077c5d8087e51bc8b377f057eb249be11b0c4abb028a861482aa36754e3de7bf1f2bb2d1c3cint, 0x1085e13fd3d7a32abff1a79fa613f136ea4e29323d9b093a02474d2f4517f53079e780169044e7281e0690213fccba74int, 0xec6306ecce24e49c4945b548a05c27e29335f50d6f2d46245bca23cabf9d408828d588bfc3c06fb417fb2631eefc976int, 0x729321913fe804397ab145653f7ec7c0e1e0591e00878a8744117d3fea15151001be4539395db73965a0df161f9917aint, 0x3f6f96f010950c83818f678731b38624e30c6238a3c9e0c5e901f6903c382ff945c77ad8141c9dc1b3e5a867805c9b4int);
}

#[verifier::rlimit(40)]
proof fn lemma_root_pow_part_27(r: int)
    requires
        cong(iso_cubic(r), 0),
    ensures
        cong(pow(r, 0xd0088f51cbff34d258dnat), quad(0x24212665cc0cc83ad1e8e4307472b4c9a71c174909447b46862f6be7e5f4547b9ed31a40902f746e343ecc07ae4299fint, 0x14dfd2432ed2c33e6780918cf8119d36453f4ca3720e2e876c2fc768aa84bc59b95a47d43829335bfc3ba7855f91c0dfint, 0x161d8bdd2c9867d6cf3891292395b89afe7814e48450f3fbeea2fa6293c4c68ea087f0f3b8b851e9476de2ca623b9955int, r)),
{
    lemma_root_pow_part_26(r);
    lemma_times_root_step(r, 0x340223d472ffcd34962nat, 0xec6306ecce24e49c4945b548a05c27e29335f50d6f2d46245bca23cabf9d408828d588bfc3c06fb417fb2631eefc976int, 0x729321913fe804397ab145653f7ec7c0e1e0591e00878a8744117d3fea15151001be4539395db73965a0df161f9917aint, 0x3f6f96f010950c83818f678731b38624e30c6238a3c9e0c5e901f6903c382ff945c77ad8141c9dc1b3e5a867805c9b4int, 0x29d0b32dc7759098eae494177a5d03cb50d41e4f0a6f16994bed1b01b18263ae0a5a84899332b3565c08f8775159e8dint, 0x10a1389c60605e1803a5e53824a60fc5a37fc3d7529cae827f4eb612bf133798c5cfa5c076c91dd8ca92e15a7d07eb43int, 0x729321913fe804397ab145653f7ec7c0e1e0591e00878a8744117d3fea15151001be4539395db73965a0df161f9917aint);
    lemma_square_step(r, 0x340223d472ffcd34963nat, 0x29d0b32dc7759098eae494177a5d03cb50d41e4f0a6f16994bed1b01b18263ae0a5a84899332b3565c08f8775159e8dint, 0x10a1389c60605e1803a5e53824a60fc5a37fc3d7529cae827f4eb612bf133798c5cfa5c076c91dd8ca92e15a7d07eb43int, 0x729321913fe804397ab145653f7ec7c0e1e0591e00878a8744117d3fea15151001be4539395db73965a0df161f9917aint, 0x2a3cf6204f9880cbe1eef559d487ad8836093459412a25b6cd123f5372ca4857b5f39e3cc5b19d93758f45d1a1ca0e4int, 0x2e0396c8ec543b191bac276addccf3640960b7fdf62333ba24125f8b95667c38e7505e53950b6d1c4940f47a6004a9bint, 0x37d1758417c08ead208df36aad25f9926d782ad70e0a96aee4aac03e9a362599ce7cce739e03286370170f21c3999dint);
    lemma_square_step(r, 0x680447a8e5ff9a692c6nat, 0x2a3cf6204f9880cbe1eef559d487ad8836093459412a25b6cd123f5372ca4857b5f39e3cc5b19d93758f45d1a1ca0e4int, 0x2e0396c8ec543b191bac276addccf3640960b7fdf62333ba24125f8b95667c38e7505e53950b6d1c4940f47a6004a9bint, 0x37d1758417c08ead208df36aad25f9926d782ad70e0a96aee4aac03e9a362599ce7cce739e03286370170f21c3999dint, 0xf89562c0e6de61faa99a061af8cff56c3ccef91fa84a149af035c000bca1e97e727000732f72c17edb62ffd3ea2917int, 0x161d8bdd2c9867d6cf3891292395b89afe7814e48450f3fbeea2fa6293c4c68ea087f0f3b8b851e9476de2ca623b9955int, 0x2623c7f20ec7440bce1b37d72466f62f4e93f8c9547f2e84d2a8df96449637af88322256d2c4ad3345e7f9628b7b314int);
    lemma_times_root_step(r, 0xd0088f51cbff34d258cnat, 0xf89562c0e6de61faa99a061af8cff56c3ccef91fa84a149af035c000bca1e97e727000732f72c17edb62ffd3ea2917int, 0x161d8bdd2c9867d6cf3891292395b89afe7814e48450f3fbeea2fa6293c4c68ea087f0f3b8b851e9476de2ca623b9955int, 0x2623c7f20ec7440bce1b37d72466f62f4e93f8c9547f2e84d2a8df96449637af88322256d2c4ad3345e7f9628b7b314int, 0x24212665cc0cc83ad1e8e4307472b4c9a71c174909447b46862f6be7e5f4547b9ed31a40902f746e343ecc07ae4299fint, 0x14dfd2432ed2c33e6780918cf8119d36453f4ca3720e2e876c2fc768aa84bc59b95a47d43829335bfc3ba7855f91c0dfint, 0x161d8bdd2c9867d6cf3891292395b89afe7814e48450f3fbeea2fa6293c4c68ea087f0f3b8b851e9476de2ca623b9955int);
}

#[verifier::rlimit(40)]
proof fn lemma_root_pow_part_28(r: int)
    requires
        cong(iso_cubic(r), 0),
    ensures
        cong(pow(r, 0x340223d472ffcd349637nat), quad(0x553544178d6f4d22342467c43d5ad0a0943fa7f260e6320de9f2531ae9c570613ad260e71d65766ec8f4dda6050c3e8int, 0x13266b3a90922c1be6e64da5a285767989930d4df63efcabdd7fd08234e4fd5df4e42d86a01dedc08edd9365d0705f1eint, 0xbe74403e93e56dc1e6f0bb1f13cb9f2ae464b750aacc6af6aed8d86e7392a5e413f70c5855e62d9ba89443801f48139int, r)),
{
    lemma_root_pow_part_27(r);
    lemma_square_step(r, 0xd0088f51cbff34d258dnat, 0x24212665cc0cc83ad1e8e4307472b4c9a71c174909447b46862f6be7e5f4547b9ed31a40902f746e343ecc07ae4299fint, 0x14dfd2432ed2c33e6780918cf8119d36453f4ca3720e2e876c2fc768aa84bc59b95a47d43829335bfc3ba7855f91c0dfint, 0x161d8bdd2c9867d6cf3891292395b89afe7814e48450f3fbeea2fa6293c4c68ea087f0f3b8b851e9476de2ca623b9955int, 0xc755027d51a660fadfc4ea97850272e13b6004b0b507e964e8b7c0ec8ff0ac481fcefa435e8a16b73e75bc4002b0cb3int, 0xaad4679debf6848fb176de403ee71805c87ac4aa5727a02152eda6afeb1a95e10502fd5d42b2e78d77646732292f2f5int, 0x155ddc12f6fca0c47ae519b3964321de56877cefceb02eec85c83c287e4fd3ce55eb3817713cce962539516d7d49edf7int);
    lemma_times_root_step(r, 0x1a0111ea397fe69a4b1anat, 0xc755027d51a660fadfc4ea97850272e13b6004b0b507e964e8b7c0ec8ff0ac481fcefa435e8a16b73e75bc4002b0cb3int, 0xaad4679debf6848fb176de403ee71805c87ac4aa5727a02152eda6afeb1a95e10502fd5d42b2e78d77646732292f2f5int, 0x155ddc12f6fca0c47ae519b3964321de56877cefceb02eec85c83c287e4fd3ce55eb3817713cce962539516d7d49edf7int, 0xa9474d1dc7cafc7415eeff21eda97af38e137372e33d3c4d890774613a9f3ef2feb298af9bc8337d88355f971772c3fint, 0xbe615ca88d2d678e4ea72a0dbbc7566dab7eb048ddef89e844ef144e3b2880abbdc94ffbf466b46f89070db125d8b63int, 0xaad4679debf6848fb176de403ee71805c87ac4aa5727a02152eda6afeb1a95e10502fd5d42b2e78d77646732292f2f5int);
    lemma_square_step(r, 0x1a0111ea397fe69a4b1bnat, 0xa9474d1dc7cafc7415eeff21eda97af38e137372e33d3c4d890774613a9f3ef2feb298af9bc8337d88355f971772c3fint, 0xbe615ca88d2d678e4ea72a0dbbc7566dab7eb048ddef89e844ef144e3b2880abbdc94ffbf466b46f89070db125d8b63int, 0xaad4679debf6848fb176de403ee71805c87ac4aa5727a02152eda6afeb1a95e10502fd5d42b2e78d77646732292f2f5int, 0x73d110e43ed04fbd0ee2a715d45ca3e15713b7be5bc85ee34bfb4ff1131b080d6bdf39492eba0d61694ea373b4ec653int, 0xbe74403e93e56dc1e6f0bb1f13cb9f2ae464b750aacc6af6aed8d86e7392a5e413f70c5855e62d9ba89443801f48139int, 0x15bcbf56f716863c98ddc02eff4962d7f1d4c741757a2f13cd72a0f9e096d81d89d8bad164a2729bfafe5044ed3b1ca6int);
    lemma_times_root_step(r, 0x340223d472ffcd349636nat, 0x73d110e43ed04fbd0ee2a715d45ca3e15713b7be5bc85ee34bfb4ff1131b080d6bdf39492eba0d61694ea373b4ec653int, 0xbe74403e93e56dc1e6f0bb1f13cb9f2ae464b750aacc6af6aed8d86e7392a5e413f70c5855e62d9ba89443801f48139int, 0x15bcbf56f716863c98ddc02eff4962d7f1d4c741757a2f13cd72a0f9e096d81d89d8bad164a2729bfafe5044ed3b1ca6int, 0x553544178d6f4d22342467c43d5ad0a0943fa7f260e6320de9f2531ae9c570613ad260e71d65766ec8f4dda6050c3e8int, 0x13266b3a90922c1be6e64da5a285767989930d4df63efcabdd7fd08234e4fd5df4e42d86a01dedc08edd9365d0705f1eint, 0xbe74403e93e56dc1e6f0bb1f13cb9f2ae464b750aacc6af6aed8d86e7392a5e413f70c5855e62d9ba89443801f48139int);
}

#[verifier::rlimit(40)]
proof fn lemma_root_pow_part_29(r: int)
    requires
        cong(iso_cubic(r), 0),
    ensures
        cong(pow(r, 0x1a0111ea397fe69a4b1banat), quad(0x29c0e54b812d9dcbc5fd7bada01a3145ad749754c0203da29b838bce22855ffc9b1e7c6308c0b1037496d25c7167dabint, 0xa290d8a4cd1ce793109e035c69dea1eb1233393010f3e95688731a3c3a563167a4e171529b40e66aaa8e7f1c6489a14int, 0x678ce7d123849728624aaa28b2544896d3d82fede47def6d3ccf461a3e7aec71023cc0cfb05ec0a70bec225502dc34bint, r)),
{
    lemma_root_pow_part_28(r);
    lemma_square_step(r, 0x340223d472ffcd349637nat, 0x553544178d6f4d22342467c43d5ad0a0943fa7f260e6320de9f2531ae9c570613ad260e71d65766ec8f4dda6050c3e8int, 0x13266b3a90922c1be6e64da5a285767989930d4df63efcabdd7fd08234e4fd5df4e42d86a01dedc08edd9365d0705f1eint, 0xbe74403e93e56dc1e6f0bb1f13cb9f2ae464b750aacc6af6aed8d86e7392a5e413f70c5855e62d9ba89443801f48139int, 0xda2bbd8053ffef8886cec5760d26b207231265bd166201e06ddc8df0b1a5bffed6a0dc0e1efff716cdac86684427ba6int, 0x3ce69f600507314ab6cbff9cdb4af0681e295275b0b5ffdfea79577236b523dfc381fbb39b981728fd8899671a826b9int, 0x357c5a120e1dc0a967b1ec791484f7e939fe21397133b9e43e42c4db233963aae975621c3c8629d65d990a3a90470e9int);
    lemma_square_step(r, 0x680447a8e5ff9a692c6enat, 0xda2bbd8053ffef8886cec5760d26b207231265bd166201e06ddc8df0b1a5bffed6a0dc0e1efff716cdac86684427ba6int, 0x3ce69f600507314ab6cbff9cdb4af0681e295275b0b5ffdfea79577236b523dfc381fbb39b981728fd8899671a826b9int, 0x357c5a120e1dc0a967b1ec791484f7e939fe21397133b9e43e42c4db233963aae975621c3c8629d65d990a3a90470e9int, 0x17bb0df6a9a7fffd5b61ffb4b33fa8634c7528a085e95cef1a22fedd82c9a7924426effda94412d75c4fccf5f819d435int, 0x1963aa169be5812f343c841e7cb3a7d0f3f1eab2c6c22a6022855cf1519bb6f2de6fe8893131d4a4c1154fd1af94121aint, 0x5aefd9bd803f8f3bdcb33008f0929bcb74e172d4527f744669a56ad793b2e6b9e6ada1cf59cec128ee1f425ebcce407int);
    lemma_times_root_step(r, 0xd0088f51cbff34d258dcnat, 0x17bb0df6a9a7fffd5b61ffb4b33fa8634c7528a085e95cef1a22fedd82c9a7924426effda94412d75c4fccf5f819d435int, 0x1963aa169be5812f343c841e7cb3a7d0f3f1eab2c6c22a6022855cf1519bb6f2de6fe8893131d4a4c1154fd1af94121aint, 0x5aefd9bd803f8f3bdcb33008f0929bcb74e172d4527f744669a56ad793b2e6b9e6ada1cf59cec128ee1f425ebcce407int, 0x5a0fdc8161ae0ce0de054b5f0c87a4c2be54dbcf2f070c7d8f9e710de319ac9ecccf56e56585cd9861f410281ffbb33int, 0x8c4af91ae32161c892b5e880e2b622f35dbd4f684faea0de58a7ac2f0a2ae9a98b691045b120ddd6ea8d3f6b735e9edint, 0x1963aa169be5812f343c841e7cb3a7d0f3f1eab2c6c22a6022855cf1519bb6f2de6fe8893131d4a4c1154fd1af94121aint);
    lemma_square_step(r, 0xd0088f51cbff34d258ddnat, 0x5a0fdc8161ae0ce0de054b5f0c87a4c2be54dbcf2f070c7d8f9e710de319ac9ecccf56e56585cd9861f410281ffbb33int, 0x8c4af91ae32161c892b5e880e2b622f35dbd4f684faea0de58a7ac2f0a2ae9a98b691045b120ddd6ea8d3f6b735e9edint, 0x1963aa169be5812f343c841e7cb3a7d0f3f1eab2c6c22a6022855cf1519bb6f2de6fe8893131d4a4c1154fd1af94121aint, 0x29c0e54b812d9dcbc5fd7bada01a3145ad749754c0203da29b838bce22855ffc9b1e7c6308c0b1037496d25c7167dabint, 0xa290d8a4cd1ce793109e035c69dea1eb1233393010f3e95688731a3c3a563167a4e171529b40e66aaa8e7f1c6489a14int, 0x678ce7d123849728624aaa28b2544896d3d82fede47def6d3ccf461a3e7aec71023cc0cfb05ec0a70bec225502dc34bint);
}

#[verifier::rlimit(40)]
proof fn lemma_root_pow_part_30(r: int)
    requires
        cong(iso_cubic(r), 0),
    ensures
        cong(pow(r, 0xd0088f51cbff34d258dd2nat), quad(0x24979969f8f8d3a5b648a6d11e26cccb38e1f89131ae8768ea777b6d5cfcf8af3d16831148c69cf5e7b214c269d8f8aint, 0x187f2a755aef8384648231fe76b73226aa2481f69a229203578b0b5be6976813d279530889cf6195ddaa9ec4ba96284fint, 0xc85438357c96233d8a9bfd3865a5ae6a5e4f85e86fc6943edfa491f9cf17e677689053ae0117e28f6497cfb37c1e623int, r)),
{
    lemma_root_pow_part_29(r);
    lemma_square_step(r, 0x1a0111ea397fe69a4b1banat, 0x29c0e54b812d9dcbc5fd7bada01a3145ad749754c0203da29b838bce22855ffc9b1e7c6308c0b1037496d25c7167dabint, 0xa290d8a4cd1ce793109e035c69dea1eb1233393010f3e95688731a3c3a563167a4e171529b40e66aaa8e7f1c6489a14int, 0x678ce7d123849728624aaa28b2544896d3d82fede47def6d3ccf461a3e7aec71023cc0cfb05ec0a70bec225502dc34bint, 0xee7214939a27afc656688c7d2587fe1bb02045b6e2757b9b8c69ca5f0037363dc40588bd4addccce963c8b87ec6145int, 0xaf910e166fdf90ecec3c2f90700431f2acfb9f9ca84dbad5b3900db987ca61bd7ed02d08b50b653379c3966442361b1int, 0xb781b7c1fc692a56c30008c4249c2fa1deffc8140f5fa9beebdba6904944e097428fc1d26e13a32dcb0d78a14802a77int);
    lemma_square_step(r, 0x340223d472ffcd3496374nat, 0xee7214939a27afc656688c7d2587fe1bb02045b6e2757b9b8c69ca5f0037363dc40588bd4addccce963c8b87ec6145int, 0xaf910e166fdf90ecec3c2f90700431f2acfb9f9ca84dbad5b3900db987ca61bd7ed02d08b50b653379c3966442361b1int, 0xb781b7c1fc692a56c30008c4249c2fa1deffc8140f5fa9beebdba6904944e097428fc1d26e13a32dcb0d78a14802a77int, 0x2c12aac08a724250bf20a222c8cdd0ae1b872d9b6c67df93e719aa73845cd45909bb83f900adedd8feb34d8782d9bd5int, 0x130d78d5951b0469d2d3c761f5b077b45a89b49ce2f5681d7b5bab58f793f5fb36204dabcd62ef35f9d818031c2a38e3int, 0x1368aad8ed5051c393ef1e2f174404345728b0dc0167489108bc039a6b2df0988abedfa37899dce8f9a85f6e5feeeb13int);
    lemma_times_root_step(r, 0x680447a8e5ff9a692c6e8nat, 0x2c12aac08a724250bf20a222c8cdd0ae1b872d9b6c67df93e719aa73845cd45909bb83f900adedd8feb34d8782d9bd5int, 0x130d78d5951b0469d2d3c761f5b077b45a89b49ce2f5681d7b5bab58f793f5fb36204dabcd62ef35f9d818031c2a38e3int, 0x1368aad8ed5051c393ef1e2f174404345728b0dc0167489108bc039a6b2df0988abedfa37899dce8f9a85f6e5feeeb13int, 0xe8693a14c1b94f930e0dcc7f1a9a43ea5b7aa64eed3da3ab26fb795d107be036ad82e0924566bf828c010e610d690abint, 0xf3af1630a8a446eac938f23837b94f0846bafaf212fb001fe73ed92064f04968c218e331adaa40b52f54f2a326796f4int, 0x130d78d5951b0469d2d3c761f5b077b45a89b49ce2f5681d7b5bab58f793f5fb36204dabcd62ef35f9d818031c2a38e3int);
    lemma_square_step(r, 0x680447a8e5ff9a692c6e9nat, 0xe8693a14c1b94f930e0dcc7f1a9a43ea5b7aa64eed3da3ab26fb795d107be036ad82e0924566bf828c010e610d690abint, 0xf3af1630a8a446eac938f23837b94f0846bafaf212fb001fe73ed92064f04968c218e331adaa40b52f54f2a326796f4int, 0x130d78d5951b0469d2d3c761f5b077b45a89b49ce2f5681d7b5bab58f793f5fb36204dabcd62ef35f9d818031c2a38e3int, 0x24979969f8f8d3a5b648a6d11e26cccb38e1f89131ae8768ea777b6d5cfcf8af3d16831148c69cf5e7b214c269d8f8aint, 0x187f2a755aef8384648231fe76b73226aa2481f69a229203578b0b5be6976813d279530889cf6195ddaa9ec4ba96284fint, 0xc85438357c96233d8a9bfd3865a5ae6a5e4f85e86fc6943edfa491f9cf17e677689053ae0117e28f6497cfb37c1e623int);
}

#[verifier::rlimit(40)]
proof fn lemma_root_pow_part_31(r: int)
    requires
        cong(iso_cubic(r), 0),
    ensures
        cong(pow(r, 0x340223d472ffcd3496374enat), quad(0x1860591121520cef957cea93a07b6f4d6a6e7cee8c0ef9985528fe96ac428c6372fbe7a4cca3d5264fbba30233a588a3int, 0x199b3c09ff34a8208a576d82eb69c160a7caef705f8fba93aded79887ae075582554afbb5fe2e6968a9c7f8c740476dbint, 0x1086650012bc6e57ca998c5a5208e80316e462301ca8e454d46aa8f3f8e58fbdef217da8f663d69c7750c3840acc4eb6int, r)),
{
    lemma_root_pow_part_30(r);
    lemma_times_root_step(r, 0xd0088f51cbff34d258dd2nat, 0x24979969f8f8d3a5b648a6d11e26cccb38e1f89131ae8768ea777b6d5cfcf8af3d16831148c69cf5e7b214c269d8f8aint, 0x187f2a755aef8384648231fe76b73226aa2481f69a229203578b0b5be6976813d279530889cf6195ddaa9ec4ba96284fint, 0xc85438357c96233d8a9bfd3865a5ae6a5e4f85e86fc6943edfa491f9cf17e677689053ae0117e28f6497cfb37c1e623int, 0x1493334422921b25e1f17a06a742c9393a76eff42163a14aa8a3bba12ca45592fdec4e8706b82a00b2193bb1169def8cint, 0xc88672cfe511c8555c41893cbbbb005fab4bbc837140d4e7bce42b0d275dca0e098bbfb6581261c466738d1ea249a68int, 0x187f2a755aef8384648231fe76b73226aa2481f69a229203578b0b5be6976813d279530889cf6195ddaa9ec4ba96284fint);
    lemma_square_step(r, 0xd0088f51cbff34d258dd3nat, 0x1493334422921b25e1f17a06a742c9393a76eff42163a14aa8a3bba12ca45592fdec4e8706b82a00b2193bb1169def8cint, 0xc88672cfe511c8555c41893cbbbb005fab4bbc837140d4e7bce42b0d275dca0e098bbfb6581261c466738d1ea249a68int, 0x187f2a755aef8384648231fe76b73226aa2481f69a229203578b0b5be6976813d279530889cf6195ddaa9ec4ba96284fint, 0x185a21cbddbcd654427cca2d1ff62bbc3fcdee74db0bc7fe9a999cefab44062ca3b1531e50326e7df0a8d0a52c7cc69eint, 0x1461647444e14c96b15acb35d838d115ab9029936d7606ce6abbdb93094ba60a8aa7b2a5f694b3486e1742f32ca0828aint, 0x196f51778596439fe9f9f2af48474037f0ca070f2d72c8adc63e20337030c345f4c134b6570a7bd28b674737d466999cint);
    lemma_times_root_step(r, 0x1a0111ea397fe69a4b1ba6nat, 0x185a21cbddbcd654427cca2d1ff62bbc3fcdee74db0bc7fe9a999cefab44062ca3b1531e50326e7df0a8d0a52c7cc69eint, 0x1461647444e14c96b15acb35d838d115ab9029936d7606ce6abbdb93094ba60a8aa7b2a5f694b3486e1742f32ca0828aint, 0x196f51778596439fe9f9f2af48474037f0ca070f2d72c8adc63e20337030c345f4c134b6570a7bd28b674737d466999cint, 0x6c3840156512b3c882c870f65b814ff1c15bf1a9c301c7be39be6d71cb14ca64e6dab6afbc4cfb0e167b8057a57dab7int, 0xe7fccfce180e17fcfd81a96326b4ef271e03dfcc1d730d6fa55360df77e382b115c1aed4639684da7b708f456c9ed73int, 0x1461647444e14c96b15acb35d838d115ab9029936d7606ce6abbdb93094ba60a8aa7b2a5f694b3486e1742f32ca0828aint);
    lemma_square_step(r, 0x1a0111ea397fe69a4b1ba7nat, 0x6c3840156512b3c882c870f65b814ff1c15bf1a9c301c7be39be6d71cb14ca64e6dab6afbc4cfb0e167b8057a57dab7int, 0xe7fccfce180e17fcfd81a96326b4ef271e03dfcc1d730d6fa55360df77e382b115c1aed4639684da7b708f456c9ed73int, 0x1461647444e14c96b15acb35d838d115ab9029936d7606ce6abbdb93094ba60a8aa7b2a5f694b3486e1742f32ca0828aint, 0x1860591121520cef957cea93a07b6f4d6a6e7cee8c0ef9985528fe96ac428c6372fbe7a4cca3d5264fbba30233a588a3int, 0x199b3c09ff34a8208a576d82eb69c160a7caef705f8fba93aded79887ae075582554afbb5fe2e6968a9c7f8c740476dbint, 0x1086650012bc6e57ca998c5a5208e80316e462301ca8e454d46aa8f3f8e58fbdef217da8f663d69c7750c3840acc4eb6int);
}

#[verifier::rlimit(40)]
proof fn lemma_root_pow_part_32(r: int)
    requires
        cong(iso_cubic(r), 0),
    ensures
        cong(pow(r, 0xd0088f51cbff34d258dd3dnat), quad(0x19c388433495c520717e2565f930c50d591a116b87eeaa0e3e141c6b239c9fbfb01722cc3179c9a224929396d5e91be9int, 0x1236b87e7d20ecbb5f71663cf3bd49fc2be546bbee9187320cd0e857ebe881a75114e30372798fe3fcffa14f420aaf54int, 0x1029e71d06067708f83d19d5d7b03bd4cd1b2893bbed1f95083aa86f854523a45e6596c21a8e2a12f142ba4f2cdc3494int, r)),
{
    lemma_root_pow_part_31(r);
    lemma_times_root_step(r, 0x340223d472ffcd3496374enat, 0x1860591121520cef957cea93a07b6f4d6a6e7cee8c0ef9985528fe96ac428c6372fbe7a4cca3d5264fbba30233a588a3int, 0x199b3c09ff34a8208a576d82eb69c160a7caef705f8fba93aded79887ae075582554afbb5fe2e6968a9c7f8c740476dbint, 0x1086650012bc6e57ca998c5a5208e80316e462301ca8e454d46aa8f3f8e58fbdef217da8f663d69c7750c3840acc4eb6int, 0xfc9785897387850dcb6ce8f28797f03d55125e57dc33f7f949a2413e81bec210e5fbf8cc59b3120cae9db6f6df5b24cint, 0x10efc7267d0f5e7f2ad25025c230a6be32d13f04cb9b3395530d582b0ec6be7e18f8b05a77886e52292cb609ab030671int, 0x199b3c09ff34a8208a576d82eb69c160a7caef705f8fba93aded79887ae075582554afbb5fe2e6968a9c7f8c740476dbint);
    lemma_square_step(r, 0x340223d472ffcd3496374fnat, 0xfc9785897387850dcb6ce8f28797f03d55125e57dc33f7f949a2413e81bec210e5fbf8cc59b3120cae9db6f6df5b24cint, 0x10efc7267d0f5e7f2ad25025c230a6be32d13f04cb9b3395530d582b0ec6be7e18f8b05a77886e52292cb609ab030671int, 0x199b3c09ff34a8208a576d82eb69c160a7caef705f8fba93aded79887ae075582554afbb5fe2e6968a9c7f8c740476dbint, 0x10dfd28e3e5de87162b0e2b06159f379c0f8d6713bbabd8c7a1d33cb64ef7b596609678206bc4f5839c011f1ace2bb2cint, 0xa59c5f8ce859125c96e5420af651657e6580280999c81ff223592ca1ec92297acfa095735f3d9049da52d4c00bb8d0fint, 0xe19ab6c2b42998ca35e11116e654e0eb90ddfc039d0b8b5515f8e30aafcc5d761932609bcee355a2612495ee34de14fint);
    lemma_square_step(r, 0x680447a8e5ff9a692c6e9enat, 0x10dfd28e3e5de87162b0e2b06159f379c0f8d6713bbabd8c7a1d33cb64ef7b596609678206bc4f5839c011f1ace2bb2cint, 0xa59c5f8ce859125c96e5420af651657e6580280999c81ff223592ca1ec92297acfa095735f3d9049da52d4c00bb8d0fint, 0xe19ab6c2b42998ca35e11116e654e0eb90ddfc039d0b8b5515f8e30aafcc5d761932609bcee355a2612495ee34de14fint, 0x9c3e044f1d13f16c06b68e1158428117b7d884a04efef118c3e545fd6bad4ba359c780f6f1079a503dfd88acbbe25b4int, 0x1029e71d06067708f83d19d5d7b03bd4cd1b2893bbed1f95083aa86f854523a45e6596c21a8e2a12f142ba4f2cdc3494int, 0xc12fb2d44032922d06388b2e1a0a35fadc8782aa0a024e2ffbdc7e3b12ced9e21c1752f6f06dee5b139c7a831bb1aa2int);
    lemma_times_root_step(r, 0xd0088f51cbff34d258dd3cnat, 0x9c3e044f1d13f16c06b68e1158428117b7d884a04efef118c3e545fd6bad4ba359c780f6f1079a503dfd88acbbe25b4int, 0x1029e71d06067708f83d19d5d7b03bd4cd1b2893bbed1f95083aa86f854523a45e6596c21a8e2a12f142ba4f2cdc3494int, 0xc12fb2d44032922d06388b2e1a0a35fadc8782aa0a024e2ffbdc7e3b12ced9e21c1752f6f06dee5b139c7a831bb1aa2int, 0x19c388433495c520717e2565f930c50d591a116b87eeaa0e3e141c6b239c9fbfb01722cc3179c9a224929396d5e91be9int, 0x1236b87e7d20ecbb5f71663cf3bd49fc2be546bbee9187320cd0e857ebe881a75114e30372798fe3fcffa14f420aaf54int, 0x1029e71d06067708f83d19d5d7b03bd4cd1b2893bbed1f95083aa86f854523a45e6596c21a8e2a12f142ba4f2cdc3494int);
}

#[verifier::rlimit(40)]
proof fn lemma_root_pow_part_33(r: int)
    requires
        cong(iso_cubic(r), 0),
    ensures
        cong(pow(r, 0x680447a8e5ff9a692c6e9ecnat), quad(0x145e31203f07cd7b176795169a4bbbeb83f890995974c98b717d234b3e7a5c382b772747e8b48632bceb7ae69f13162cint, 0x499552cc159128fb53f1dd7c1972c2cdda4855264d9f570c2bea41f407a36a966efc108b00c9d0ef6ac651c69846911int, 0x141e162c2d87957cc70934e50f58b052ad9ed6676a63e5035eac869c4f62d18e005ee8769628c93f246ec553d8ffedd0int, r)),
{
    lemma_root_pow_part_32(r);
    lemma_square_step(r, 0xd0088f51cbff34d258dd3dnat, 0x19c388433495c520717e2565f930c50d591a116b87eeaa0e3e141c6b239c9fbfb01722cc3179c9a224929396d5e91be9int, 0x1236b87e7d20ecbb5f71663cf3bd49fc2be546bbee9187320cd0e857ebe881a75114e30372798fe3fcffa14f420aaf54int, 0x1029e71d06067708f83d19d5d7b03bd4cd1b2893bbed1f95083aa86f854523a45e6596c21a8e2a12f142ba4f2cdc3494int, 0x1d21c58ef33a6735f2ec1ca3912a4ad902a7fc52d17430b1833e9bdbaf24c7a40bf6cb83d2480be930f5a892037270bint, 0x15f129b44d6e1d80a5b50832ecb3e0fb838bb9b67f5ffcb1985fd1ea7c91d2cce1a35fb574a44776bb3aa1c2f447ca2cint, 0x18946286302216a247d0ed93006dd9dd50274f154fcbc5534bf84923b14e7b49ecbf3bd4197d4aed961c28cfe3cfe5b9int);
    lemma_times_root_step(r, 0x1a0111ea397fe69a4b1ba7anat, 0x1d21c58ef33a6735f2ec1ca3912a4ad902a7fc52d17430b1833e9bdbaf24c7a40bf6cb83d2480be930f5a892037270bint, 0x15f129b44d6e1d80a5b50832ecb3e0fb838bb9b67f5ffcb1985fd1ea7c91d2cce1a35fb574a44776bb3aa1c2f447ca2cint, 0x18946286302216a247d0ed93006dd9dd50274f154fcbc5534bf84923b14e7b49ecbf3bd4197d4aed961c28cfe3cfe5b9int, 0xdc42516625ef6d1926dc605c3a9c4ef190d97ca88c82816a5ef7614cf685dda9fad4e601a029b4b22c3440cd200224int, 0xe4ea949e57df1068cd27f3ad779c0cdca8382400d5c3dda9b8e18df1fed60a2e57ac24b783a8a79bfbecfe64e58e18int, 0x15f129b44d6e1d80a5b50832ecb3e0fb838bb9b67f5ffcb1985fd1ea7c91d2cce1a35fb574a44776bb3aa1c2f447ca2cint);
    lemma_square_step(r, 0x1a0111ea397fe69a4b1ba7bnat, 0xdc42516625ef6d1926dc605c3a9c4ef190d97ca88c82816a5ef7614cf685dda9fad4e601a029b4b22c3440cd200224int, 0xe4ea949e57df1068cd27f3ad779c0cdca8382400d5c3dda9b8e18df1fed60a2e57ac24b783a8a79bfbecfe64e58e18int, 0x15f129b44d6e1d80a5b50832ecb3e0fb838bb9b67f5ffcb1985fd1ea7c91d2cce1a35fb574a44776bb3aa1c2f447ca2cint, 0x14403a56a3fabff84a9c8dfb3ef414590f266d5eecff1c98f2fea0d61d16f291e0fa2c5c8f9739354005c2ce5490f01bint, 0x68261b9f5217cf6f331e48476ed39f28e312230ee2218e5c88011917ed6c6d8ea3dfd2875aea66bd643eb439fd5b437int, 0xfa3e8b0340d63fd7d09ba5f4aae8c4303f2a6d3ef819f4e3e85a7aaa4a5d8bf62f82a71d948ccff25d25e8d5bd23032int);
    lemma_square_step(r, 0x340223d472ffcd3496374f6nat, 0x14403a56a3fabff84a9c8dfb3ef414590f266d5eecff1c98f2fea0d61d16f291e0fa2c5c8f9739354005c2ce5490f01bint, 0x68261b9f5217cf6f331e48476ed39f28e312230ee2218e5c88011917ed6c6d8ea3dfd2875aea66bd643eb439fd5b437int, 0xfa3e8b0340d63fd7d09ba5f4aae8c4303f2a6d3ef819f4e3e85a7aaa4a5d8bf62f82a71d948ccff25d25e8d5bd23032int, 0x145e31203f07cd7b176795169a4bbbeb83f890995974c98b717d234b3e7a5c382b772747e8b48632bceb7ae69f13162cint, 0x499552cc159128fb53f1dd7c1972c2cdda4855264d9f570c2bea41f407a36a966efc108b00c9d0ef6ac651c69846911int, 0x141e162c2d87957cc70934e50f58b052ad9ed6676a63e5035eac869c4f62d18e005ee8769628c93f246ec553d8ffedd0int);
}

#[verifier::rlimit(40)]
proof fn lemma_root_pow_part_34(r: int)
    requires
        cong(iso_cubic(r), 0),
    ensures
        cong(pow(r, 0x1a0111ea397fe69a4b1ba7b6nat), quad(0x1008877ed722a29a8b27976ebecc8f42b230b3ebe83fe60ad90e7ddecad2cd10eb2179169211a8eb18d472cac6885fdfint, 0x18a0b4de23755767f6dd5f79c81f97a427d57f97147239330b78f39b1c94ad91388cabe9cd7bd4964ad2fb7f8b72ff9eint, 0x9807f9ed9363b0d9aefbb151833b5938803fe6dd1effccb237d311727ea2c2164665dbe7afc9a32a45c09e92dc3d784int, r)),
{
    lemma_root_pow_part_33(r);
    lemma_times_root_step(r, 0x680447a8e5ff9a692c6e9ecnat, 0x145e31203f07cd7b176795169a4bbbeb83f890995974c98b717d234b3e7a5c382b772747e8b48632bceb7ae69f13162cint, 0x499552cc159128fb53f1dd7c1972c2cdda4855264d9f570c2bea41f407a36a966efc108b00c9d0ef6ac651c69846911int, 0x141e162c2d87957cc70934e50f58b052ad9ed6676a63e5035eac869c4f62d18e005ee8769628c93f246ec553d8ffedd0int, 0x17678abd8d5de6881331a5bcb4db57a7c101e796d8e99573385a4f565d676262b571c8bbb51fa0300d9955d237312730int, 0x6e48b772694c4f526b02ae0e4b6ca269b46383531c76f0728ca9c67f1b557e4bd49bde6e1d8f17cb081c948221d47b9int, 0x499552cc159128fb53f1dd7c1972c2cdda4855264d9f570c2bea41f407a36a966efc108b00c9d0ef6ac651c69846911int);
    lemma_square_step(r, 0x680447a8e5ff9a692c6e9ednat, 0x17678abd8d5de6881331a5bcb4db57a7c101e796d8e99573385a4f565d676262b571c8bbb51fa0300d9955d237312730int, 0x6e48b772694c4f526b02ae0e4b6ca269b46383531c76f0728ca9c67f1b557e4bd49bde6e1d8f17cb081c948221d47b9int, 0x499552cc159128fb53f1dd7c1972c2cdda4855264d9f570c2bea41f407a36a966efc108b00c9d0ef6ac651c69846911int, 0x24b6dbf23ab26d09c14bc45ac8bf16e0e8249e005b9278d58f35f760e6ed261e93b2a60bfa4ea935662b1a3b28ee5f9int, 0x9cd7c36ec8741e416799b7a6b49e799adf65966df470cd74bdf7c3ffb505a216541fc532b8f329f665b765bcb425cfint, 0x9e5ef9cc7a8b2f287acf524403d8323985dbfd15daf59d43c64f903de7be5d366eb2eb484e88cbaeb67852722c2be0dint);
    lemma_times_root_step(r, 0xd0088f51cbff34d258dd3danat, 0x24b6dbf23ab26d09c14bc45ac8bf16e0e8249e005b9278d58f35f760e6ed261e93b2a60bfa4ea935662b1a3b28ee5f9int, 0x9cd7c36ec8741e416799b7a6b49e799adf65966df470cd74bdf7c3ffb505a216541fc532b8f329f665b765bcb425cfint, 0x9e5ef9cc7a8b2f287acf524403d8323985dbfd15daf59d43c64f903de7be5d366eb2eb484e88cbaeb67852722c2be0dint, 0x6d949d0ec202381ccd266efd662b8b306cd529138e8ebd8622dd7cdeccc90e33a297b0cbdad0e67d6c5df71b6a53681int, 0xe5b75f804c53d62633ee8fec3c9d08a10525c2de4e6ed1bfc17b3efc38856793da880c3cea56d16aa13126b7d1d03d4int, 0x9cd7c36ec8741e416799b7a6b49e799adf65966df470cd74bdf7c3ffb505a216541fc532b8f329f665b765bcb425cfint);
    lemma_square_step(r, 0xd0088f51cbff34d258dd3dbnat, 0x6d949d0ec202381ccd266efd662b8b306cd529138e8ebd8622dd7cdeccc90e33a297b0cbdad0e67d6c5df71b6a53681int, 0xe5b75f804c53d62633ee8fec3c9d08a10525c2de4e6ed1bfc17b3efc38856793da880c3cea56d16aa13126b7d1d03d4int, 0x9cd7c36ec8741e416799b7a6b49e799adf65966df470cd74bdf7c3ffb505a216541fc532b8f329f665b765bcb425cfint, 0x1008877ed722a29a8b27976ebecc8f42b230b3ebe83fe60ad90e7ddecad2cd10eb2179169211a8eb18d472cac6885fdfint, 0x18a0b4de23755767f6dd5f79c81f97a427d57f97147239330b78f39b1c94ad91388cabe9cd7bd4964ad2fb7f8b72ff9eint, 0x9807f9ed9363b0d9aefbb151833b5938803fe6dd1effccb237d311727ea2c2164665dbe7afc9a32a45c09e92dc3d784int);
}

#[verifier::rlimit(40)]
proof fn lemma_root_pow_part_35(r: int)
    requires
        cong(iso_cubic(r), 0),
    ensures
        cong(pow(r, 0xd0088f51cbff34d258dd3db2nat), quad(0xd724deb1dd97c8e90341eac833640bacf9daa99f32ddf0d16ffaaa1c3b89c09840c465c005332bc5bdffedbb59f826int, 0x3de2bdff7deaf5c87024402296469b2cb1968881990d861a51d0ddf12fac112a63ef394ec395e792ace7fbe42ed8a7fint, 0x151fd78a010f8b366789a4b2f68facb9fb75bb1c230b1021eb43005b0e4010c340ba3f865cc350232c16e328c5ab2623int, r)),
{
    lemma_root_pow_part_34(r);
    lemma_square_step(r, 0x1a0111ea397fe69a4b1ba7b6nat, 0x1008877ed722a29a8b27976ebecc8f42b230b3ebe83fe60ad90e7ddecad2cd10eb2179169211a8eb18d472cac6885fdfint, 0x18a0b4de23755767f6dd5f79c81f97a427d57f97147239330b78f39b1c94ad91388cabe9cd7bd4964ad2fb7f8b72ff9eint, 0x9807f9ed9363b0d9aefbb151833b5938803fe6dd1effccb237d311727ea2c2164665dbe7afc9a32a45c09e92dc3d784int, 0xf1e2d999ce02d8a56cfe64f287dd0929bcfaf78bc5a28dde00c763ebb495caf104648c9ee5a50aa0ce8bdbf96a087b6int, 0x115a2e04f799f78f35d7647688f5f93ab4f5af4458314a33df2158bc8ef1f541a7d2e72c1c6de45f5f6d6cb3de5da63cint, 0xbdd45305b803c26a15cb89070fab39e3dbde9a2c9113b71d7e0c5c457ef87882413ab49e90e0e771f592a7e079fe3c7int);
    lemma_square_step(r, 0x340223d472ffcd3496374f6cnat, 0xf1e2d999ce02d8a56cfe64f287dd0929bcfaf78bc5a28dde00c763ebb495caf104648c9ee5a50aa0ce8bdbf96a087b6int, 0x115a2e04f799f78f35d7647688f5f93ab4f5af4458314a33df2158bc8ef1f541a7d2e72c1c6de45f5f6d6cb3de5da63cint, 0xbdd45305b803c26a15cb89070fab39e3dbde9a2c9113b71d7e0c5c457ef87882413ab49e90e0e771f592a7e079fe3c7int, 0x13a2bf04f5a3397104f31a1a5e16b690055cfa91c986404f6bc1c7b1a2ce9c2205fafa71390cd4e20f48a66f530b9114int, 0xb8313096376b3dc85c4dcbdd29dcf969122ebaccc0284d379f5a86492842b1c7b953dd7dc2bf19b62caf78605a4ac5cint, 0x157787c041a9a2a42de434dc1d80461db3c834bffc575d3ee93f1bffda6295fb7789a65c3b54d95daf679189b4e4054aint);
    lemma_times_root_step(r, 0x680447a8e5ff9a692c6e9ed8nat, 0x13a2bf04f5a3397104f31a1a5e16b690055cfa91c986404f6bc1c7b1a2ce9c2205fafa71390cd4e20f48a66f530b9114int, 0xb8313096376b3dc85c4dcbdd29dcf969122ebaccc0284d379f5a86492842b1c7b953dd7dc2bf19b62caf78605a4ac5cint, 0x157787c041a9a2a42de434dc1d80461db3c834bffc575d3ee93f1bffda6295fb7789a65c3b54d95daf679189b4e4054aint, 0x108885f34417e66309e7874b5392325662ca1ec5eea507b6924d6e0b55d55f4106995126858a170e8b58c480b9d2425aint, 0x8e4e10aa818e07e4c262a858ce98ed61ad17c8b91b408a2674cb4bae43e9998833126f55a58130b7cb7eb54dcecc954int, 0xb8313096376b3dc85c4dcbdd29dcf969122ebaccc0284d379f5a86492842b1c7b953dd7dc2bf19b62caf78605a4ac5cint);
    lemma_square_step(r, 0x680447a8e5ff9a692c6e9ed9nat, 0x108885f34417e66309e7874b5392325662ca1ec5eea507b6924d6e0b55d55f4106995126858a170e8b58c480b9d2425aint, 0x8e4e10aa818e07e4c262a858ce98ed61ad17c8b91b408a2674cb4bae43e9998833126f55a58130b7cb7eb54dcecc954int, 0xb8313096376b3dc85c4dcbdd29dcf969122ebaccc0284d379f5a86492842b1c7b953dd7dc2bf19b62caf78605a4ac5cint, 0xd724deb1dd97c8e90341eac833640bacf9daa99f32ddf0d16ffaaa1c3b89c09840c465c005332bc5bdffedbb59f826int, 0x3de2bdff7deaf5c87024402296469b2cb1968881990d861a51d0ddf12fac112a63ef394ec395e792ace7fbe42ed8a7fint, 0x151fd78a010f8b366789a4b2f68facb9fb75bb1c230b1021eb43005b0e4010c340ba3f865cc350232c16e328c5ab2623int);
}

#[verifier::rlimit(40)]
proof fn lemma_root_pow_part_36(r: int)
    requires
        cong(iso_cubic(r), 0),
    ensures
        cong(pow(r, 0xd0088f51cbff34d258dd3db20nat), quad(0x950dd87404eaa20af7c65bfb5ae8992a11d694c9e499bdded16bb1efa59b4f1bfd677d3258f51fe5fffc20a3947372aint, 0xe871f522be3cd1053e992e0de812b97235ff057223460f4c61e78fe244d9623fdfbeeac4ef0ebe3c14f20a8dee88a4fint, 0x7bfb3aaba94316742e85df1f354a5b5107c6200e69c1b5a8763c0cc2b6f11b5d2a92a8dfa41601ea4f8f683cee2a048int, r)),
{
    lemma_root_pow_part_35(r);
    lemma_square_step(r, 0xd0088f51cbff34d258dd3db2nat, 0xd724deb1dd97c8e90341eac833640bacf9daa99f32ddf0d16ffaaa1c3b89c09840c465c005332bc5bdffedbb59f826int, 0x3de2bdff7deaf5c87024402296469b2cb1968881990d861a51d0ddf12fac112a63ef394ec395e792ace7fbe42ed8a7fint, 0x151fd78a010f8b366789a4b2f68facb9fb75bb1c230b1021eb43005b0e4010c340ba3f865cc350232c16e328c5ab2623int, 0x152e17a7a86333a926d14692495368f103882eb03616d12344e1d816d1376b9838f2e463da284365bf28c1a21b8ac2b9int, 0xc99bf2ce04cb978e3e26c73c287109b5e5c3a33a8d7cca6c35e87246f97a4e7273c775f69e0190b88022ab80ceb99f3int, 0xc76fcd53760d85da34ba097eae4992c5ba9d865f686dab36258a8f342e89e219b1edb0c9d48442d1d8cc696ff4657f6int);
    lemma_square_step(r, 0x1a0111ea397fe69a4b1ba7b64nat, 0x152e17a7a86333a926d14692495368f103882eb03616d12344e1d816d1376b9838f2e463da284365bf28c1a21b8ac2b9int, 0xc99bf2ce04cb978e3e26c73c287109b5e5c3a33a8d7cca6c35e87246f97a4e7273c775f69e0190b88022ab80ceb99f3int, 0xc76fcd53760d85da34ba097eae4992c5ba9d865f686dab36258a8f342e89e219b1edb0c9d48442d1d8cc696ff4657f6int, 0xcd6b59e44266d0f2f831990e7a3c8dbfc211b343f44230ce2e0df5bb8383774d8e2d6dd0e8f0ba9a2d90dab28525f9eint, 0x7218f3b7d6a0cde57f389690111ec14e5dbf72e8babc4a1aac8ea11639aa39a40ed6d18532216b78832d291ded6469aint, 0xb4987a35df83980c4425d4bccf29d961bc5fd11354c57556b44468cc4150ee65a28e564b3ccc9c602c45c3f5b1695f6int);
    lemma_square_step(r, 0x340223d472ffcd3496374f6c8nat, 0xcd6b59e44266d0f2f831990e7a3c8dbfc211b343f44230ce2e0df5bb8383774d8e2d6dd0e8f0ba9a2d90dab28525f9eint, 0x7218f3b7d6a0cde57f389690111ec14e5dbf72e8babc4a1aac8ea11639aa39a40ed6d18532216b78832d291ded6469aint, 0xb4987a35df83980c4425d4bccf29d961bc5fd11354c57556b44468cc4150ee65a28e564b3ccc9c602c45c3f5b1695f6int, 0x1e38a1f6a1a32b88fa3bda397ba05e1cecd14a19f4cffc6fe1b79311a8f0efacaad5804179eba77639fd83baf2d07c5int, 0x106429acd172c203e3e2fcc9f93005e24e7641d00df8a87e3731b0edf70dc7d9d74f9d592ede6256dc4673d09fe2e68bint, 0x1597f38eaaa76d1f4b10b861a6abffd42ee4f427396d183a3983b714e8719354aedb039d03ce796673bcfe3a3c83e7d2int);
    lemma_square_step(r, 0x680447a8e5ff9a692c6e9ed90nat, 0x1e38a1f6a1a32b88fa3bda397ba05e1cecd14a19f4cffc6fe1b79311a8f0efacaad5804179eba77639fd83baf2d07c5int, 0x106429acd172c203e3e2fcc9f93005e24e7641d00df8a87e3731b0edf70dc7d9d74f9d592ede6256dc4673d09fe2e68bint, 0x1597f38eaaa76d1f4b10b861a6abffd42ee4f427396d183a3983b714e8719354aedb039d03ce796673bcfe3a3c83e7d2int, 0x950dd87404eaa20af7c65bfb5ae8992a11d694c9e499bdded16bb1efa59b4f1bfd677d3258f51fe5fffc20a3947372aint, 0xe871f522be3cd1053e992e0de812b97235ff057223460f4c61e78fe244d9623fdfbeeac4ef0ebe3c14f20a8dee88a4fint, 0x7bfb3aaba94316742e85df1f354a5b5107c6200e69c1b5a8763c0cc2b6f11b5d2a92a8dfa41601ea4f8f683cee2a048int);
}

#[verifier::rlimit(40)]
proof fn lemma_root_pow_part_37(r: int)
    requires
        cong(iso_cubic(r), 0),
    ensures
        cong(pow(r, 0x340223d472ffcd3496374f6c86nat), quad(0x8975531e44a906784dee6635ce7f7814a6416880b178a8e27bfbd6ff7bc90258443113f078cf0baf18412321d39a725int, 0xb7165051a9a029960ed831318498507a03e03d40bcac4521879d46949bd2610339e95a2d36cc9d054857615625e01d2int, 0x143b3a51304abe5d133b30d62e968fa4849afd7e02d4ae58de8255c6ee1d2e3645b6aac12a47bff75e6092fd0bc39da9int, r)),
{
    lemma_root_pow_part_36(r);
    lemma_times_root_step(r, 0xd0088f51cbff34d258dd3db20nat, 0x950dd87404eaa20af7c65bfb5ae8992a11d694c9e499bdded16bb1efa59b4f1bfd677d3258f51fe5fffc20a3947372aint, 0xe871f522be3cd1053e992e0de812b97235ff057223460f4c61e78fe244d9623fdfbeeac4ef0ebe3c14f20a8dee88a4fint, 0x7bfb3aaba94316742e85df1f354a5b5107c6200e69c1b5a8763c0cc2b6f11b5d2a92a8dfa41601ea4f8f683cee2a048int, 0x126f5e41e0ddb5498cedcb882456a45cb59177cf716358aa4546623fae2932e26de0cf0722ea57903ba1b65151f809b1int, 0x6cdf283fdec51e9fb531e9d28e8b1569efb35de1052836d1017a433c8f407c60d0abbe16acefee763e7cfb42e62a089int, 0xe871f522be3cd1053e992e0de812b97235ff057223460f4c61e78fe244d9623fdfbeeac4ef0ebe3c14f20a8dee88a4fint);
    lemma_square_step(r, 0xd0088f51cbff34d258dd3db21nat, 0x126f5e41e0ddb5498cedcb882456a45cb59177cf716358aa4546623fae2932e26de0cf0722ea57903ba1b65151f809b1int, 0x6cdf283fdec51e9fb531e9d28e8b1569efb35de1052836d1017a433c8f407c60d0abbe16acefee763e7cfb42e62a089int, 0xe871f522be3cd1053e992e0de812b97235ff057223460f4c61e78fe244d9623fdfbeeac4ef0ebe3c14f20a8dee88a4fint, 0x157a957234ebf12885599145d863727130e9ba68f80b33993d8f9f9add4268f6b5e28eee21b07c693518286d4cd76a51int, 0x2412c4f578adfd9e34b68fc04c897c3893cade7ae92191376fe5305ecd7a9862e73b069d3a2eb354f6fc53f97e95bb4int, 0x67760d3078e3f9fe7f3cc2df1fc612d311125448f8e8db102f662e3a99a7727656241cd80138db3d2d0a4910d12e94dint);
    lemma_times_root_step(r, 0x1a0111ea397fe69a4b1ba7b642nat, 0x157a957234ebf12885599145d863727130e9ba68f80b33993d8f9f9add4268f6b5e28eee21b07c693518286d4cd76a51int, 0x2412c4f578adfd9e34b68fc04c897c3893cade7ae92191376fe5305ecd7a9862e73b069d3a2eb354f6fc53f97e95bb4int, 0x67760d3078e3f9fe7f3cc2df1fc612d311125448f8e8db102f662e3a99a7727656241cd80138db3d2d0a4910d12e94dint, 0x19d203c59eb763895aded85d4c4313f3b927da2b59ecc5fefb6aa83cadf415bbbba11529e19665be8019d4ce68c73acfint, 0x1390001f4b83c713d667aefa813314a80cc2dc6ea5bafed9fc7d414849f61927d6eb07c22e610cd8e75b1277187f8516int, 0x2412c4f578adfd9e34b68fc04c897c3893cade7ae92191376fe5305ecd7a9862e73b069d3a2eb354f6fc53f97e95bb4int);
    lemma_square_step(r, 0x1a0111ea397fe69a4b1ba7b643nat, 0x19d203c59eb763895aded85d4c4313f3b927da2b59ecc5fefb6aa83cadf415bbbba11529e19665be8019d4ce68c73acfint, 0x1390001f4b83c713d667aefa813314a80cc2dc6ea5bafed9fc7d414849f61927d6eb07c22e610cd8e75b1277187f8516int, 0x2412c4f578adfd9e34b68fc04c897c3893cade7ae92191376fe5305ecd7a9862e73b069d3a2eb354f6fc53f97e95bb4int, 0x8975531e44a906784dee6635ce7f7814a6416880b178a8e27bfbd6ff7bc90258443113f078cf0baf18412321d39a725int, 0xb7165051a9a029960ed831318498507a03e03d40bcac4521879d46949bd2610339e95a2d36cc9d054857615625e01d2int, 0x143b3a51304abe5d133b30d62e968fa4849afd7e02d4ae58de8255c6ee1d2e3645b6aac12a47bff75e6092fd0bc39da9int);
}

#[verifier::rlimit(40)]
proof fn lemma_root_pow_part_38(r: int)
    requires
        cong(iso_cubic(r), 0),
    ensures
        cong(pow(r, 0x1a0111ea397fe69a4b1ba7b6434nat), quad(0x17061315a3b565a6e116f33a9517c138c7f77e182aa59cb13c8f39b6ad1b8872501cf1d7351c1fca4d0dca012cb3fbfeint, 0x71994c4d1cf910276cfda724a4343bebad8131f7eb0e5279b2fa21f861705ccb289985826578101667cccec46159e43int, 0x5b955098e8514eed676782e990e962dfd2eb443783125967eabbd77a6d52037e79fc4304f154ff8751617d664246b5cint, r)),
{
    lemma_root_pow_part_37(r);
    lemma_square_step(r, 0x340223d472ffcd3496374f6c86nat, 0x8975531e44a906784dee6635ce7f7814a6416880b178a8e27bfbd6ff7bc90258443113f078cf0baf18412321d39a725int, 0xb7165051a9a029960ed831318498507a03e03d40bcac4521879d46949bd2610339e95a2d36cc9d054857615625e01d2int, 0x143b3a51304abe5d133b30d62e968fa4849afd7e02d4ae58de8255c6ee1d2e3645b6aac12a47bff75e6092fd0bc39da9int, 0x6a68ded957c2de0c16c2db5387fc3353ea435106119e7b3a21ec17f6a3cc74f20af1e9382d5f51c71ba736607d75908int, 0x77a6b695bd32adf23d10132fa5733b964ebcd4d3c6ba2fa8abbc8360fe3d04c13a12eb0bcd33467e310cdb4f76568a2int, 0x107911a2db1fcb48482a60f7b54c944b5da9266969d54d0283399e1718d29e4abdce4b4d037c1b0c4d2e169ade155ecdint);
    lemma_times_root_step(r, 0x680447a8e5ff9a692c6e9ed90cnat, 0x6a68ded957c2de0c16c2db5387fc3353ea435106119e7b3a21ec17f6a3cc74f20af1e9382d5f51c71ba736607d75908int, 0x77a6b695bd32adf23d10132fa5733b964ebcd4d3c6ba2fa8abbc8360fe3d04c13a12eb0bcd33467e310cdb4f76568a2int, 0x107911a2db1fcb48482a60f7b54c944b5da9266969d54d0283399e1718d29e4abdce4b4d037c1b0c4d2e169ade155ecdint, 0x5156f7c9eb23873c51b7aece8bd2894605d7546a0bf0a3eed431bfbb7aaaee5e4d12bc959c1268e7b8c62307aa1973fint, 0x3538344ae9300e1270f323218dc5809334f57f8f4c596d1a2e5ec4471a8aa16c8be7674a4e859190f8b7692af0c5c30int, 0x77a6b695bd32adf23d10132fa5733b964ebcd4d3c6ba2fa8abbc8360fe3d04c13a12eb0bcd33467e310cdb4f76568a2int);
    lemma_square_step(r, 0x680447a8e5ff9a692c6e9ed90dnat, 0x5156f7c9eb23873c51b7aece8bd2894605d7546a0bf0a3eed431bfbb7aaaee5e4d12bc959c1268e7b8c62307aa1973fint, 0x3538344ae9300e1270f323218dc5809334f57f8f4c596d1a2e5ec4471a8aa16c8be7674a4e859190f8b7692af0c5c30int, 0x77a6b695bd32adf23d10132fa5733b964ebcd4d3c6ba2fa8abbc8360fe3d04c13a12eb0bcd33467e310cdb4f76568a2int, 0x6c0e9a93ce5c2c90ea826fd2780b1ecb7514c83888fa1c0aae8a29b2f8a466b3a7f06051336a17d53ee088991978afeint, 0x14a094a25820d142430889c8a0d953a89dd1d4c66c980147cc20c4acfa1f641804cf1587bd15528843063ed224bddd90int, 0x14e89131b0f5ddaa27ba0bf54fd17f62976af0262655d6f73f429e32d4181fa40acd6cf01fc4634ac3ec88423a0f7b04int);
    lemma_square_step(r, 0xd0088f51cbff34d258dd3db21anat, 0x6c0e9a93ce5c2c90ea826fd2780b1ecb7514c83888fa1c0aae8a29b2f8a466b3a7f06051336a17d53ee088991978afeint, 0x14a094a25820d142430889c8a0d953a89dd1d4c66c980147cc20c4acfa1f641804cf1587bd15528843063ed224bddd90int, 0x14e89131b0f5ddaa27ba0bf54fd17f62976af0262655d6f73f429e32d4181fa40acd6cf01fc4634ac3ec88423a0f7b04int, 0x17061315a3b565a6e116f33a9517c138c7f77e182aa59cb13c8f39b6ad1b8872501cf1d7351c1fca4d0dca012cb3fbfeint, 0x71994c4d1cf910276cfda724a4343bebad8131f7eb0e5279b2fa21f861705ccb289985826578101667cccec46159e43int, 0x5b955098e8514eed676782e990e962dfd2eb443783125967eabbd77a6d52037e79fc4304f154ff8751617d664246b5cint);
}

#[verifier::rlimit(40)]
proof fn lemma_root_pow_part_39(r: int)
    requires
        cong(iso_cubic(r), 0),
    ensures
        cong(pow(r, 0xd0088f51cbff34d258dd3db21a4nat), quad(0x116a572d72fc09bd216554ed4731b4f8701543ccffa350c6e068ca6b3d4b234e71930e9e8dff4bb998c57a698712fcd4int, 0x5743f6e536561c7a03aa7939dcc94529831965c65dcee8ca232f1d87f199ada234ec07a8c4ddc4c01d3765cee2175adint, 0xe56325002ce6ff71ae154e69fb961a7b589d7aab39ca54fd4e2d9e26a577424c3e09b587a45fbbe7ebdf914fc7e0892int, r)),
{
    lemma_root_pow_part_38(r);
    lemma_square_step(r, 0x1a0111ea397fe69a4b1ba7b6434nat, 0x17061315a3b565a6e116f33a9517c138c7f77e182aa59cb13c8f39b6ad1b8872501cf1d7351c1fca4d0dca012cb3fbfeint, 0x71994c4d1cf910276cfda724a4343bebad8131f7eb0e5279b2fa21f861705ccb289985826578101667cccec46159e43int, 0x5b955098e8514eed676782e990e962dfd2eb443783125967eabbd77a6d52037e79fc4304f154ff8751617d664246b5cint, 0x125c5c5ba6021a4437592a4566a7017354e18df8261a574c63be8ead93274a394ce08b01292034021121dc4b202db09aint, 0x148325d1df39ff3b606d6f10199e21d5fdc46d0690e4e2acc7fefe701b7c0f18c8c3dce73b2740ed777e837e8790d28int, 0xdfa4fa6d43a66c5f19b6a67d06fae9a649744e80797ed371d241dca1ef93dcf51be9bda2b35483e8283776fe8de2355int);
    lemma_times_root_step(r, 0x340223d472ffcd3496374f6c868nat, 0x125c5c5ba6021a4437592a4566a7017354e18df8261a574c63be8ead93274a394ce08b01292034021121dc4b202db09aint, 0x148325d1df39ff3b606d6f10199e21d5fdc46d0690e4e2acc7fefe701b7c0f18c8c3dce73b2740ed777e837e8790d28int, 0xdfa4fa6d43a66c5f19b6a67d06fae9a649744e80797ed371d241dca1ef93dcf51be9bda2b35483e8283776fe8de2355int, 0x126672028467862df3f8a14ff97815a155f7faf0762953eaf68ea6920323ffb6aad7e4c644e743ab3a05cb2b8de8b713int, 0x185f7fb7bd9f1cc5420a75778780b75df5a921eb06af97fb71e4cd9ed338b3ac77627de269639367dc1419b35c32be50int, 0x148325d1df39ff3b606d6f10199e21d5fdc46d0690e4e2acc7fefe701b7c0f18c8c3dce73b2740ed777e837e8790d28int);
    lemma_square_step(r, 0x340223d472ffcd3496374f6c869nat, 0x126672028467862df3f8a14ff97815a155f7faf0762953eaf68ea6920323ffb6aad7e4c644e743ab3a05cb2b8de8b713int, 0x185f7fb7bd9f1cc5420a75778780b75df5a921eb06af97fb71e4cd9ed338b3ac77627de269639367dc1419b35c32be50int, 0x148325d1df39ff3b606d6f10199e21d5fdc46d0690e4e2acc7fefe701b7c0f18c8c3dce73b2740ed777e837e8790d28int, 0x17663cfd124791408605147ddf561c28d4b9fd942f0661bbfb5a231f508fbed27ace47505ccbb2dc2d3b51035bc58fe7int, 0x106f00136a5a577ce4e0b553bb2f1bfa1e6a67cf58a61f24197d7f27958160bd9621f43c2c0453576d26c6680bfd7f7dint, 0x12682114a99064d94b8a48ee811d2dedd89d8f92797785270544c7946b38a8015e90cefab7d6c686c870d26cbc5205a0int);
    lemma_square_step(r, 0x680447a8e5ff9a692c6e9ed90d2nat, 0x17663cfd124791408605147ddf561c28d4b9fd942f0661bbfb5a231f508fbed27ace47505ccbb2dc2d3b51035bc58fe7int, 0x106f00136a5a577ce4e0b553bb2f1bfa1e6a67cf58a61f24197d7f27958160bd9621f43c2c0453576d26c6680bfd7f7dint, 0x12682114a99064d94b8a48ee811d2dedd89d8f92797785270544c7946b38a8015e90cefab7d6c686c870d26cbc5205a0int, 0x116a572d72fc09bd216554ed4731b4f8701543ccffa350c6e068ca6b3d4b234e71930e9e8dff4bb998c57a698712fcd4int, 0x5743f6e536561c7a03aa7939dcc94529831965c65dcee8ca232f1d87f199ada234ec07a8c4ddc4c01d3765cee2175adint, 0xe56325002ce6ff71ae154e69fb961a7b589d7aab39ca54fd4e2d9e26a577424c3e09b587a45fbbe7ebdf914fc7e0892int);
}

#[verifier::rlimit(40)]
proof fn lemma_root_pow_part_40(r: int)
    requires
        cong(iso_cubic(r), 0),
    ensures
        cong(pow(r, 0x340223d472ffcd3496374f6c8696nat), quad(0x1135d12ab9ec9deea47062e32b44ab540000536c40496f4ad3c4d20b6ac0ffaf00079952e351becf4bd935d066f8102eint, 0xc06e7a0df6c64aca14fbb0f6ff659865baf6184ccf5332e1b160dcd8a409db75ddbebc20531a6199a4af93b65c1da0dint, 0xe1111ed9e1ba3ba31305d8e17de3b44b96208e9ab19712599791702ea3b8b87698b8f3c4a89201af834f839fc588310int, r)),
{
    lemma_root_pow_part_39(r);
    lemma_times_root_step(r, 0xd0088f51cbff34d258dd3db21a4nat, 0x116a572d72fc09bd216554ed4731b4f8701543ccffa350c6e068ca6b3d4b234e71930e9e8dff4bb998c57a698712fcd4int, 0x5743f6e536561c7a03aa7939dcc94529831965c65dcee8ca232f1d87f199ada234ec07a8c4ddc4c01d3765cee2175adint, 0xe56325002ce6ff71ae154e69fb961a7b589d7aab39ca54fd4e2d9e26a577424c3e09b587a45fbbe7ebdf914fc7e0892int, 0x15ba80685c77db11cc84e58c5f219ff3dea5a6a625c358f7cc5e85f7e803958e3817bed44059bc174df6e0818d868c97int, 0x1190eeeae383509cb419a524ed489cd4c86c27190f5ca3a601bb2330df4b4dbceba1f065b6e355b39609e4c03eb4a0acint, 0x5743f6e536561c7a03aa7939dcc94529831965c65dcee8ca232f1d87f199ada234ec07a8c4ddc4c01d3765cee2175adint);
    lemma_square_step(r, 0xd0088f51cbff34d258dd3db21a5nat, 0x15ba80685c77db11cc84e58c5f219ff3dea5a6a625c358f7cc5e85f7e803958e3817bed44059bc174df6e0818d868c97int, 0x1190eeeae383509cb419a524ed489cd4c86c27190f5ca3a601bb2330df4b4dbceba1f065b6e355b39609e4c03eb4a0acint, 0x5743f6e536561c7a03aa7939dcc94529831965c65dcee8ca232f1d87f199ada234ec07a8c4ddc4c01d3765cee2175adint, 0x18b439c9c75e3b7cdaaf8f318319761d7cd1a965fe23452ffad45559f86ad703edb884c213024390c05a559c5c2db53int, 0x4d76d90d062bd68ac3f703789a26e4af05928df5409397221e370701882341e551f47218dbd9ebb22c74793c3666537int, 0x41f7a154b56c28db9fab521f1c3fae988f59c0eb6743361d0014d14ed458501294c0935b96b1c1cded5ec02fed26870int);
    lemma_times_root_step(r, 0x1a0111ea397fe69a4b1ba7b6434anat, 0x18b439c9c75e3b7cdaaf8f318319761d7cd1a965fe23452ffad45559f86ad703edb884c213024390c05a559c5c2db53int, 0x4d76d90d062bd68ac3f703789a26e4af05928df5409397221e370701882341e551f47218dbd9ebb22c74793c3666537int, 0x41f7a154b56c28db9fab521f1c3fae988f59c0eb6743361d0014d14ed458501294c0935b96b1c1cded5ec02fed26870int, 0x18bb4699186e95fd512bb987d77b67bb33beda294b0c574f4c0d6669c1d9ea4ff2c60593f64b0d38ee0588b911268930int, 0x19655afec0c41eb9262f7c4d0ad24a509cbe64eaeaec298aa025e28c5249bcd59945d309b1fe62dfe0f38a7937b95d3eint, 0x4d76d90d062bd68ac3f703789a26e4af05928df5409397221e370701882341e551f47218dbd9ebb22c74793c3666537int);
    lemma_square_step(r, 0x1a0111ea397fe69a4b1ba7b6434bnat, 0x18bb4699186e95fd512bb987d77b67bb33beda294b0c574f4c0d6669c1d9ea4ff2c60593f64b0d38ee0588b911268930int, 0x19655afec0c41eb9262f7c4d0ad24a509cbe64eaeaec298aa025e28c5249bcd59945d309b1fe62dfe0f38a7937b95d3eint, 0x4d76d90d062bd68ac3f703789a26e4af05928df5409397221e370701882341e551f47218dbd9ebb22c74793c3666537int, 0x1135d12ab9ec9deea47062e32b44ab540000536c40496f4ad3c4d20b6ac0ffaf00079952e351becf4bd935d066f8102eint, 0xc06e7a0df6c64aca14fbb0f6ff659865baf6184ccf5332e1b160dcd8a409db75ddbebc20531a6199a4af93b65c1da0dint, 0xe1111ed9e1ba3ba31305d8e17de3b44b96208e9ab19712599791702ea3b8b87698b8f3c4a89201af834f839fc588310int);
}

#[verifier::rlimit(40)]
proof fn lemma_root_pow_part_41(r: int)
    requires
        cong(iso_cubic(r), 0),
    ensures
        cong(pow(r, 0xd0088f51cbff34d258dd3db21a5dnat), quad(0xfefab99617f56fc7b8ffe3fcb7b3291f42aa94f135546187b0e9313981fb8f1b30c27e613bc0f282ec6effe6a48a612int, 0x907b623cf6f19ed6ee9a08e9280ca500014abba1a50d5e50c5e87b7a0a86df70455e5b85ec83c552d71ae2f0cdcbbe5int, 0xeeb531128278d1d4cb2d40c3bfe020d2defe617d7948d41fac049db1c45183c6d744757f06f5e39fd02e3233cf2cd58int, r)),
{
    lemma_root_pow_part_40(r);
    lemma_times_root_step(r, 0x340223d472ffcd3496374f6c8696nat, 0x1135d12ab9ec9deea47062e32b44ab540000536c40496f4ad3c4d20b6ac0ffaf00079952e351becf4bd935d066f8102eint, 0xc06e7a0df6c64aca14fbb0f6ff659865baf6184ccf5332e1b160dcd8a409db75ddbebc20531a6199a4af93b65c1da0dint, 0xe1111ed9e1ba3ba31305d8e17de3b44b96208e9ab19712599791702ea3b8b87698b8f3c4a89201af834f839fc588310int, 0x3e2cb5c7d940a34dc2e50c9a34b1c00884a5f06456021e24f8926d19afec3a0ce7446751802b4862f4eb66d4a510a15int, 0x16e75e2f256706196aa6873aa7a2d91ca73b13a166980d5e1655e19622ddf861bf418326b4681bee98dae3f3ef041043int, 0xc06e7a0df6c64aca14fbb0f6ff659865baf6184ccf5332e1b160dcd8a409db75ddbebc20531a6199a4af93b65c1da0dint);
    lemma_square_step(r, 0x340223d472ffcd3496374f6c8697nat, 0x3e2cb5c7d940a34dc2e50c9a34b1c00884a5f06456021e24f8926d19afec3a0ce7446751802b4862f4eb66d4a510a15int, 0x16e75e2f256706196aa6873aa7a2d91ca73b13a166980d5e1655e19622ddf861bf418326b4681bee98dae3f3ef041043int, 0xc06e7a0df6c64aca14fbb0f6ff659865baf6184ccf5332e1b160dcd8a409db75ddbebc20531a6199a4af93b65c1da0dint, 0xc3fca93a118c71cc5e26b94dc7763a776b13c48f18537ad946c0b2dcecf59fcb52f94c1cf024fda8fc18790f2490eb3int, 0x19b232f1d6076b5cc6cf6333d839f2687daeed1e52a652db06d547eaa736236ae02b62cbdc8733daa47d4c3b5b7fcddfint, 0x6d15ce8f8b268f6ac697336258eb7d28f199cb4bad900eea35afd274e64ddb58679009bb08d5f0630ab8d87597ed574int);
    lemma_square_step(r, 0x680447a8e5ff9a692c6e9ed90d2enat, 0xc3fca93a118c71cc5e26b94dc7763a776b13c48f18537ad946c0b2dcecf59fcb52f94c1cf024fda8fc18790f2490eb3int, 0x19b232f1d6076b5cc6cf6333d839f2687daeed1e52a652db06d547eaa736236ae02b62cbdc8733daa47d4c3b5b7fcddfint, 0x6d15ce8f8b268f6ac697336258eb7d28f199cb4bad900eea35afd274e64ddb58679009bb08d5f0630ab8d87597ed574int, 0x19a51e4f2f59d75fc4f2d2b3659c6737f4cfe394ca27a518f1597641ffddce67ca5a71a4ce739853af054b4d8249aa63int, 0xeeb531128278d1d4cb2d40c3bfe020d2defe617d7948d41fac049db1c45183c6d744757f06f5e39fd02e3233cf2cd58int, 0x8364baf793fd8df14c775bfc9618e601a37c6ec81d19dfa896108da901b4cb5e77c56359360903e0618f71a5d99f298int);
    lemma_times_root_step(r, 0xd0088f51cbff34d258dd3db21a5cnat, 0x19a51e4f2f59d75fc4f2d2b3659c6737f4cfe394ca27a518f1597641ffddce67ca5a71a4ce739853af054b4d8249aa63int, 0xeeb531128278d1d4cb2d40c3bfe020d2defe617d7948d41fac049db1c45183c6d744757f06f5e39fd02e3233cf2cd58int, 0x8364baf793fd8df14c775bfc9618e601a37c6ec81d19dfa896108da901b4cb5e77c56359360903e0618f71a5d99f298int, 0xfefab99617f56fc7b8ffe3fcb7b3291f42aa94f135546187b0e9313981fb8f1b30c27e613bc0f282ec6effe6a48a612int, 0x907b623cf6f19ed6ee9a08e9280ca500014abba1a50d5e50c5e87b7a0a86df70455e5b85ec83c552d71ae2f0cdcbbe5int, 0xeeb531128278d1d4cb2d40c3bfe020d2defe617d7948d41fac049db1c45183c6d744757f06f5e39fd02e3233cf2cd58int);
}

#[verifier::rlimit(40)]
proof fn lemma_root_pow_part_42(r: int)
    requires
        cong(iso_cubic(r), 0),
    ensures
        cong(pow(r, 0x680447a8e5ff9a692c6e9ed90d2eanat), quad(0x4f220076c04c7503f483202788adad6e219d896529efc93e77db56a691f28d4a4eef83f5f9c536aa6f70513bb1ac2f7int, 0x789daedc15acd3d876900615a4888c928de958664c836111f7347d80c2933e0b58b28853bed59fd89517effe2fffec8int, 0x426d35debefdd1f0ba9a09d35d9e63f85c9df1e5d6996db83e9539f3d9c082de608e6771093e25eb278f7dba7faee08int, r)),
{
    lemma_root_pow_part_41(r);
    lemma_square_step(r, 0xd0088f51cbff34d258dd3db21a5dnat, 0xfefab99617f56fc7b8ffe3fcb7b3291f42aa94f135546187b0e9313981fb8f1b30c27e613bc0f282ec6effe6a48a612int, 0x907b623cf6f19ed6ee9a08e9280ca500014abba1a50d5e50c5e87b7a0a86df70455e5b85ec83c552d71ae2f0cdcbbe5int, 0xeeb531128278d1d4cb2d40c3bfe020d2defe617d7948d41fac049db1c45183c6d744757f06f5e39fd02e3233cf2cd58int, 0x18e7bcd9ad5e00afafc324fa050c264303d5c5dbbbe65b032b19ae867a5962654eb83cadd4d15b1778a9bf3b9307eeb2int, 0xd813321ec0925d8efac452a3cc52efc6e764c765b22a6d9379f50aa74e615dccd210ac9f99fdf9f242ddc8710a53091int, 0x50a265eda4c5716eec5451fb03cf734b4ae973ae1ce528288d88c41f7ccc4d5fce92849db2db9e5643b3e231ced19ddint);
    lemma_square_step(r, 0x1a0111ea397fe69a4b1ba7b6434banat, 0x18e7bcd9ad5e00afafc324fa050c264303d5c5dbbbe65b032b19ae867a5962654eb83cadd4d15b1778a9bf3b9307eeb2int, 0xd813321ec0925d8efac452a3cc52efc6e764c765b22a6d9379f50aa74e615dccd210ac9f99fdf9f242ddc8710a53091int, 0x50a265eda4c5716eec5451fb03cf734b4ae973ae1ce528288d88c41f7ccc4d5fce92849db2db9e5643b3e231ced19ddint, 0x669d2761af0cc4d992283ea59bffe9521861f72407f06c3eda2b9ea1430ebd66646e50591d5f84cfa63890fef6350f4int, 0x101444dc271ff4ac02d49eba87b60e624cf1fefbbf9eae667f32317ed811181a436b1cacff0f8a6b88d1a3c51d3e59f2int, 0x1cebfc38394156e05039b5a21fa635e34e781c97549032ae31daee1b63356c8883f78249dba4ac3af1e2b47874d2e43int);
    lemma_times_root_step(r, 0x340223d472ffcd3496374f6c86974nat, 0x669d2761af0cc4d992283ea59bffe9521861f72407f06c3eda2b9ea1430ebd66646e50591d5f84cfa63890fef6350f4int, 0x101444dc271ff4ac02d49eba87b60e624cf1fefbbf9eae667f32317ed811181a436b1cacff0f8a6b88d1a3c51d3e59f2int, 0x1cebfc38394156e05039b5a21fa635e34e781c97549032ae31daee1b63356c8883f78249dba4ac3af1e2b47874d2e43int, 0x12fcb5f1aede050543c8f3a615e9365dacee12c806840d79f2468bfc20d19a921adbb485bc22dd5361a5c88a7a565d94int, 0xe48e32970fe9434f6acecdd15960e390866183237beb3136213eda433e9edf395ddf389d46cd850e2c989a90d4f19a8int, 0x101444dc271ff4ac02d49eba87b60e624cf1fefbbf9eae667f32317ed811181a436b1cacff0f8a6b88d1a3c51d3e59f2int);
    lemma_square_step(r, 0x340223d472ffcd3496374f6c86975nat, 0x12fcb5f1aede050543c8f3a615e9365dacee12c806840d79f2468bfc20d19a921adbb485bc22dd5361a5c88a7a565d94int, 0xe48e32970fe9434f6acecdd15960e390866183237beb3136213eda433e9edf395ddf389d46cd850e2c989a90d4f19a8int, 0x101444dc271ff4ac02d49eba87b60e624cf1fefbbf9eae667f32317ed811181a436b1cacff0f8a6b88d1a3c51d3e59f2int, 0x4f220076c04c7503f483202788adad6e219d896529efc93e77db56a691f28d4a4eef83f5f9c536aa6f70513bb1ac2f7int, 0x789daedc15acd3d876900615a4888c928de958664c836111f7347d80c2933e0b58b28853bed59fd89517effe2fffec8int, 0x426d35debefdd1f0ba9a09d35d9e63f85c9df1e5d6996db83e9539f3d9c082de608e6771093e25eb278f7dba7faee08int);
}

#[verifier::rlimit(40)]
proof fn lemma_root_pow_part_43(r: int)
    requires
        cong(iso_cubic(r), 0),
    ensures
        cong(pow(r, 0x340223d472ffcd3496374f6c869758nat), quad(0x12ba77f825639a145c663b5d1e8502ba3dacbcb6647e30b54bcfa430c8898ef55278697a0cd9b5fa17ae981799b19226int, 0x140ae3dc3361a24a459ca98ebcb278e4a2bdec725763db9dbc6638e8e514629cee6aa241c7de4c2776d050a2cf6908acint, 0x13c9a9c2082f8c11cc77248faa6d0dbb4a41d77ab19ad47de4d09e1f28139daddf1c3a3d61877afb1505d4bda9d6fb0eint, r)),
{
    lemma_root_pow_part_42(r);
    lemma_times_root_step(r, 0x680447a8e5ff9a692c6e9ed90d2eanat, 0x4f220076c04c7503f483202788adad6e219d896529efc93e77db56a691f28d4a4eef83f5f9c536aa6f70513bb1ac2f7int, 0x789daedc15acd3d876900615a4888c928de958664c836111f7347d80c2933e0b58b28853bed59fd89517effe2fffec8int, 0x426d35debefdd1f0ba9a09d35d9e63f85c9df1e5d6996db83e9539f3d9c082de608e6771093e25eb278f7dba7faee08int, 0x42719867b478ac8a828d145477260c3d595af28b18e619ad608494e11caa754fc7ac2459f5e225a377d584448e62e50int, 0x6f87357402fd9c1a73350a27e5d0f7e446f531ddc5f15e8ceaa6c9e6a3f5c2c406922b90b6b0b323d5297ea1fdbf7c6int, 0x789daedc15acd3d876900615a4888c928de958664c836111f7347d80c2933e0b58b28853bed59fd89517effe2fffec8int);
    lemma_square_step(r, 0x680447a8e5ff9a692c6e9ed90d2ebnat, 0x42719867b478ac8a828d145477260c3d595af28b18e619ad608494e11caa754fc7ac2459f5e225a377d584448e62e50int, 0x6f87357402fd9c1a73350a27e5d0f7e446f531ddc5f15e8ceaa6c9e6a3f5c2c406922b90b6b0b323d5297ea1fdbf7c6int, 0x789daedc15acd3d876900615a4888c928de958664c836111f7347d80c2933e0b58b28853bed59fd89517effe2fffec8int, 0x85cdab0eb3d7c0dce9545abd4854f4a5e5794033146e870e369e4f66a9f18e58f8c9da2e996c3dac9d31f912f43f93aint, 0x37469a2c13ea503afadd02f92b827d66bc8bff8eef5e03aa2bc76ed4f582221e0869a27288e764b1e36faf7547152b3int, 0x4d58d667a8a98d2cf3159b15e0c3b38fb6a2f819d6991d84d93f8dc6ef8a111b2dc0698da93e21365d04cfc5c31944aint);
    lemma_square_step(r, 0xd0088f51cbff34d258dd3db21a5d6nat, 0x85cdab0eb3d7c0dce9545abd4854f4a5e5794033146e870e369e4f66a9f18e58f8c9da2e996c3dac9d31f912f43f93aint, 0x37469a2c13ea503afadd02f92b827d66bc8bff8eef5e03aa2bc76ed4f582221e0869a27288e764b1e36faf7547152b3int, 0x4d58d667a8a98d2cf3159b15e0c3b38fb6a2f819d6991d84d93f8dc6ef8a111b2dc0698da93e21365d04cfc5c31944aint, 0x180566c8e0ee1e1831eee8be3ca15633c795940cc504fee0201155894f42830e7fe7ffcb0be951762197596622ed9cd3int, 0xf7dccd2f1d05a11be088ae9ef604d74e03e9b8481f4ffa5d83a34717c099c8ecf85026132c8b31725c28fc37746aff3int, 0x17208af44fa46f8583b74f69ff8918a97b63517dd2563a36fbce2470f071c47d9cbd05bdff6334ad261c0cd01ccdf0f9int);
    lemma_square_step(r, 0x1a0111ea397fe69a4b1ba7b6434bacnat, 0x180566c8e0ee1e1831eee8be3ca15633c795940cc504fee0201155894f42830e7fe7ffcb0be951762197596622ed9cd3int, 0xf7dccd2f1d05a11be088ae9ef604d74e03e9b8481f4ffa5d83a34717c099c8ecf85026132c8b31725c28fc37746aff3int, 0x17208af44fa46f8583b74f69ff8918a97b63517dd2563a36fbce2470f071c47d9cbd05bdff6334ad261c0cd01ccdf0f9int, 0x12ba77f825639a145c663b5d1e8502ba3dacbcb6647e30b54bcfa430c8898ef55278697a0cd9b5fa17ae981799b19226int, 0x140ae3dc3361a24a459ca98ebcb278e4a2bdec725763db9dbc6638e8e514629cee6aa241c7de4c2776d050a2cf6908acint, 0x13c9a9c2082f8c11cc77248faa6d0dbb4a41d77ab19ad47de4d09e1f28139daddf1c3a3d61877afb1505d4bda9d6fb0eint);
}

#[verifier::rlimit(40)]
proof fn lemma_root_pow_part_44(r: int)
    requires
        cong(iso_cubic(r), 0),
    ensures
        cong(pow(r, 0xd0088f51cbff34d258dd3db21a5d66nat), quad(0x103ded1eab73bf4226e8bf0fa9fddd014de2af36c6b434a54f019bbcf359620d2314b6244186b57e54ffdd581b1a3fa3int, 0x190029d8f6836f9f0335e5bcdb102138004473f66c3cdcfc32e4190afd38aabb873d36631e0d323399631e80ed1ff760int, 0xd041be2b7c1a8cc1b673c695fcc58a6b39a2bd41fc9b6bd4236a105fcb5a212bd562255011f2ed20468d19dd1d8c02int, r)),
{
    lemma_root_pow_part_43(r);
    lemma_times_root_step(r, 0x340223d472ffcd3496374f6c869758nat, 0x12ba77f825639a145c663b5d1e8502ba3dacbcb6647e30b54bcfa430c8898ef55278697a0cd9b5fa17ae981799b19226int, 0x140ae3dc3361a24a459ca98ebcb278e4a2bdec725763db9dbc6638e8e514629cee6aa241c7de4c2776d050a2cf6908acint, 0x13c9a9c2082f8c11cc77248faa6d0dbb4a41d77ab19ad47de4d09e1f28139daddf1c3a3d61877afb1505d4bda9d6fb0eint, 0x11d03d29902f6280b6c3c638d51456da1bf0ad35af19cb466d07662ecbb5fad04a33fa27d2aded3175faa10d4b580061int, 0xff91d4864eb03b6713aac645d3f10147e8fda585b0a9100338309fd6e336710d3ab099967c94a1a10781d1dd8c61851int, 0x140ae3dc3361a24a459ca98ebcb278e4a2bdec725763db9dbc6638e8e514629cee6aa241c7de4c2776d050a2cf6908acint);
    lemma_square_step(r, 0x340223d472ffcd3496374f6c869759nat, 0x11d03d29902f6280b6c3c638d51456da1bf0ad35af19cb466d07662ecbb5fad04a33fa27d2aded3175faa10d4b580061int, 0xff91d4864eb03b6713aac645d3f10147e8fda585b0a9100338309fd6e336710d3ab099967c94a1a10781d1dd8c61851int, 0x140ae3dc3361a24a459ca98ebcb278e4a2bdec725763db9dbc6638e8e514629cee6aa241c7de4c2776d050a2cf6908acint, 0xb72b6961186cc9b9daaa7366baaeace79ffe0dabef33acf0681127cf29577093739bbbc384095136560fd154529cdc5int, 0x5b0b5a2e6d7580383d140c9ee7977019c2c694049f3081672c99bfee1b7c1587730f75a9b0b16066cf0cda66160300int, 0x108dbfb6818303fba8f21b4b442c66895d8d9c7805c5cdad4721c5bb32037e205e40482e9635d81503f875839a920c35int);
    lemma_times_root_step(r, 0x680447a8e5ff9a692c6e9ed90d2eb2nat, 0xb72b6961186cc9b9daaa7366baaeace79ffe0dabef33acf0681127cf29577093739bbbc384095136560fd154529cdc5int, 0x5b0b5a2e6d7580383d140c9ee7977019c2c694049f3081672c99bfee1b7c1587730f75a9b0b16066cf0cda66160300int, 0x108dbfb6818303fba8f21b4b442c66895d8d9c7805c5cdad4721c5bb32037e205e40482e9635d81503f875839a920c35int, 0x1426ee566835c67c98ad8637cb99d175f5024c6ae7cc2590fa7edb7e9483c4e67fa518f2ca27efd2af8e8256954b291dint, 0xc0897a3b8b259b1aaf3c141e23cc6982f146c6eadc49190df322125c96c77b45d6c7098ddeffe7114216845c995db87int, 0x5b0b5a2e6d7580383d140c9ee7977019c2c694049f3081672c99bfee1b7c1587730f75a9b0b16066cf0cda66160300int);
    lemma_square_step(r, 0x680447a8e5ff9a692c6e9ed90d2eb3nat, 0x1426ee566835c67c98ad8637cb99d175f5024c6ae7cc2590fa7edb7e9483c4e67fa518f2ca27efd2af8e8256954b291dint, 0xc0897a3b8b259b1aaf3c141e23cc6982f146c6eadc49190df322125c96c77b45d6c7098ddeffe7114216845c995db87int, 0x5b0b5a2e6d7580383d140c9ee7977019c2c694049f3081672c99bfee1b7c1587730f75a9b0b16066cf0cda66160300int, 0x103ded1eab73bf4226e8bf0fa9fddd014de2af36c6b434a54f019bbcf359620d2314b6244186b57e54ffdd581b1a3fa3int, 0x190029d8f6836f9f0335e5bcdb102138004473f66c3cdcfc32e4190afd38aabb873d36631e0d323399631e80ed1ff760int, 0xd041be2b7c1a8cc1b673c695fcc58a6b39a2bd41fc9b6bd4236a105fcb5a212bd562255011f2ed20468d19dd1d8c02int);
}

#[verifier::rlimit(40)]
proof fn lemma_root_pow_part_45(r: int)
    requires
        cong(iso_cubic(r), 0),
    ensures
        cong(pow(r, 0x680447a8e5ff9a692c6e9ed90d2eb34nat), quad(0x163af53685529cf7ee0c9ab4502a81aefcb5a631dec7bab47c73b6fc2414914dd10283b9e0eec3a9f40d1bf499c34be7int, 0x363e7f26dfc60b237338f46084c2a73b0a1f0b89eb41fbd2095371fb973f3a5671803c54d0f731bb61d73186c9043c0int, 0x136c275f2cc4f8d6a23ae37c784ed427b61e72ac8b8f95d268ba436ee29e5956be6ca13f1cfa4694c357c4ac912911f2int, r)),
{
    lemma_root_pow_part_44(r);
    lemma_square_step(r, 0xd0088f51cbff34d258dd3db21a5d66nat, 0x103ded1eab73bf4226e8bf0fa9fddd014de2af36c6b434a54f019bbcf359620d2314b6244186b57e54ffdd581b1a3fa3int, 0x190029d8f6836f9f0335e5bcdb102138004473f66c3cdcfc32e4190afd38aabb873d36631e0d323399631e80ed1ff760int, 0xd041be2b7c1a8cc1b673c695fcc58a6b39a2bd41fc9b6bd4236a105fcb5a212bd562255011f2ed20468d19dd1d8c02int, 0xe1195a86f96d36daa962e37cd9e0c9cdb7a4ec8dda50e2a459762f20fe623ed4eeededa08c964d89c7e83d195a9e9b7int, 0x306ccc92727c9735d8d9080b314349dc1fb276577e17f9e7a67c0d31407435ec8bbf5ac2e98c5286e119339b562dc6eint, 0x130968afbc1238cb6636805f8b6e2d817596f57162b243b8823857a621d379d913c100ee421203d64dd2e7abd29cd252int);
    lemma_times_root_step(r, 0x1a0111ea397fe69a4b1ba7b6434baccnat, 0xe1195a86f96d36daa962e37cd9e0c9cdb7a4ec8dda50e2a459762f20fe623ed4eeededa08c964d89c7e83d195a9e9b7int, 0x306ccc92727c9735d8d9080b314349dc1fb276577e17f9e7a67c0d31407435ec8bbf5ac2e98c5286e119339b562dc6eint, 0x130968afbc1238cb6636805f8b6e2d817596f57162b243b8823857a621d379d913c100ee421203d64dd2e7abd29cd252int, 0x9661875987587e988d62d8bfbd951d010b0e1d975e552a0779aa4074e17e27c0f17d8d86caf9f13257235e19a18814eint, 0x84fca0b3bfee6a645df3230463e28881f99257a895d34742b363009e6ebe059ea5a979369142c0a34c4565da0f84c5aint, 0x306ccc92727c9735d8d9080b314349dc1fb276577e17f9e7a67c0d31407435ec8bbf5ac2e98c5286e119339b562dc6eint);
    lemma_square_step(r, 0x1a0111ea397fe69a4b1ba7b6434bacdnat, 0x9661875987587e988d62d8bfbd951d010b0e1d975e552a0779aa4074e17e27c0f17d8d86caf9f13257235e19a18814eint, 0x84fca0b3bfee6a645df3230463e28881f99257a895d34742b363009e6ebe059ea5a979369142c0a34c4565da0f84c5aint, 0x306ccc92727c9735d8d9080b314349dc1fb276577e17f9e7a67c0d31407435ec8bbf5ac2e98c5286e119339b562dc6eint, 0x1726c89aea25df9cbe77e79290edcacc91550772617c8305446eeea0422bc68493e9a9fdd6308540a9f26246056aab11int, 0x1b5e4f38e6cfd8476faaac7dbbd89c8c7369d3678ac357d069cf31b76fe9558424b59a6cb67c48d20688951142c382int, 0x8fc335a0d63dacce7ef261e515f54fd9a1811e5a0f7a81dd8f375bfc9d4d291a83e10f28a5677d26f120fafb4113873int);
    lemma_square_step(r, 0x340223d472ffcd3496374f6c869759anat, 0x1726c89aea25df9cbe77e79290edcacc91550772617c8305446eeea0422bc68493e9a9fdd6308540a9f26246056aab11int, 0x1b5e4f38e6cfd8476faaac7dbbd89c8c7369d3678ac357d069cf31b76fe9558424b59a6cb67c48d20688951142c382int, 0x8fc335a0d63dacce7ef261e515f54fd9a1811e5a0f7a81dd8f375bfc9d4d291a83e10f28a5677d26f120fafb4113873int, 0x163af53685529cf7ee0c9ab4502a81aefcb5a631dec7bab47c73b6fc2414914dd10283b9e0eec3a9f40d1bf499c34be7int, 0x363e7f26dfc60b237338f46084c2a73b0a1f0b89eb41fbd2095371fb973f3a5671803c54d0f731bb61d73186c9043c0int, 0x136c275f2cc4f8d6a23ae37c784ed427b61e72ac8b8f95d268ba436ee29e5956be6ca13f1cfa4694c357c4ac912911f2int);
}

#[verifier::rlimit(40)]
proof fn lemma_root_pow_part_46(r: int)
    requires
        cong(iso_cubic(r), 0),
    ensures
        cong(pow(r, 0x1a0111ea397fe69a4b1ba7b6434bacd6nat), quad(0x17c665258db449cc4c895cec2503c51b38ecac3bf045ef33272f77fd01de9c70d7e4aea0656563b9bdbb673d31d3fbaaint, 0x7e413b8733a18852e4d63ff64659e025e3f33be26467127c3dedd6683d12ede7c05465f881ca2645ae76e2f53c91c0eint, 0x5488612b0ec866bb7bc182891e52156edcae4163434cba6e30e9184947ed33f5352a57e485d13da6017fcc79a2aab75int, r)),
{
    lemma_root_pow_part_45(r);
    lemma_times_root_step(r, 0x680447a8e5ff9a692c6e9ed90d2eb34nat, 0x163af53685529cf7ee0c9ab4502a81aefcb5a631dec7bab47c73b6fc2414914dd10283b9e0eec3a9f40d1bf499c34be7int, 0x363e7f26dfc60b237338f46084c2a73b0a1f0b89eb41fbd2095371fb973f3a5671803c54d0f731bb61d73186c9043c0int, 0x136c275f2cc4f8d6a23ae37c784ed427b61e72ac8b8f95d268ba436ee29e5956be6ca13f1cfa4694c357c4ac912911f2int, 0x1095395cb82111d6d4a7a55ee1c42f88de459ec7d507042cbbb58142a344e5f34c4c6961729b4037f55a33cba2751b5dint, 0x31b3e4310256849ace9f1c41a90fe7feb3a1aed48c38ab8988488d712832b53df7d9a4b5277f9e36b158230c8c9431dint, 0x363e7f26dfc60b237338f46084c2a73b0a1f0b89eb41fbd2095371fb973f3a5671803c54d0f731bb61d73186c9043c0int);
    lemma_square_step(r, 0x680447a8e5ff9a692c6e9ed90d2eb35nat, 0x1095395cb82111d6d4a7a55ee1c42f88de459ec7d507042cbbb58142a344e5f34c4c6961729b4037f55a33cba2751b5dint, 0x31b3e4310256849ace9f1c41a90fe7feb3a1aed48c38ab8988488d712832b53df7d9a4b5277f9e36b158230c8c9431dint, 0x363e7f26dfc60b237338f46084c2a73b0a1f0b89eb41fbd2095371fb973f3a5671803c54d0f731bb61d73186c9043c0int, 0x14ce26d1716ccf18a9d5fc0ecfba11abb98345dbbdc3900af26dc9efe72d05d9b46e6942b0de836d6143098c8e0f49fdint, 0x16a8dc2c61730e232039947b7dd61d3d28b018d10d8a7471f15b03a690130bf77f78a429074b6f4957b006f950e8b492int, 0x40c9b10f45eef9910c936930d402532a4d211b90eda55588de67161418fd3ea313ac13ca45fd86d4fc626095cd502f3int);
    lemma_times_root_step(r, 0xd0088f51cbff34d258dd3db21a5d66anat, 0x14ce26d1716ccf18a9d5fc0ecfba11abb98345dbbdc3900af26dc9efe72d05d9b46e6942b0de836d6143098c8e0f49fdint, 0x16a8dc2c61730e232039947b7dd61d3d28b018d10d8a7471f15b03a690130bf77f78a429074b6f4957b006f950e8b492int, 0x40c9b10f45eef9910c936930d402532a4d211b90eda55588de67161418fd3ea313ac13ca45fd86d4fc626095cd502f3int, 0xfcadf329d91779b64a7dfa3825178b953a9741c265538011f5e9c328c35167934d04973825cde8714470de105fccca4int, 0x16519a96570d15bf81f0e501a7864ae05848fba56acd9876ceda3d0a14a730ec47bb17b58d1d63845519ea88faf053d3int, 0x16a8dc2c61730e232039947b7dd61d3d28b018d10d8a7471f15b03a690130bf77f78a429074b6f4957b006f950e8b492int);
    lemma_square_step(r, 0xd0088f51cbff34d258dd3db21a5d66bnat, 0xfcadf329d91779b64a7dfa3825178b953a9741c265538011f5e9c328c35167934d04973825cde8714470de105fccca4int, 0x16519a96570d15bf81f0e501a7864ae05848fba56acd9876ceda3d0a14a730ec47bb17b58d1d63845519ea88faf053d3int, 0x16a8dc2c61730e232039947b7dd61d3d28b018d10d8a7471f15b03a690130bf77f78a429074b6f4957b006f950e8b492int, 0x17c665258db449cc4c895cec2503c51b38ecac3bf045ef33272f77fd01de9c70d7e4aea0656563b9bdbb673d31d3fbaaint, 0x7e413b8733a18852e4d63ff64659e025e3f33be26467127c3dedd6683d12ede7c05465f881ca2645ae76e2f53c91c0eint, 0x5488612b0ec866bb7bc182891e52156edcae4163434cba6e30e9184947ed33f5352a57e485d13da6017fcc79a2aab75int);
}

#[verifier::rlimit(40)]
proof fn lemma_root_pow_part_47(r: int)
    requires
        cong(iso_cubic(r), 0),
    ensures
        cong(pow(r, 0x680447a8e5ff9a692c6e9ed90d2eb35dnat), quad(0x15b2f90db173fdbbaa3d61dcc970a2b776d698ab41e661beaa71e368d390a082a14778850598d125a09893677e976d3eint, 0xd3c110074c9e695e865605aa3394346f4335932174a0bb4cdc84a6d5367bc4a3785efd42b66ec5d64b737e28358cbint, 0x4413c9c2b1c58ed3eec5a700d7f1427f1e8c47d6596fa58a08c3ad041ec5024af15ce75068df381b2452e3e8c13acf4int, r)),
{
    lemma_root_pow_part_46(r);
    lemma_times_root_step(r, 0x1a0111ea397fe69a4b1ba7b6434bacd6nat, 0x17c665258db449cc4c895cec2503c51b38ecac3bf045ef33272f77fd01de9c70d7e4aea0656563b9bdbb673d31d3fbaaint, 0x7e413b8733a18852e4d63ff64659e025e3f33be26467127c3dedd6683d12ede7c05465f881ca2645ae76e2f53c91c0eint, 0x5488612b0ec866bb7bc182891e52156edcae4163434cba6e30e9184947ed33f5352a57e485d13da6017fcc79a2aab75int, 0xfdcbef28732e92481d531376acc2c1b837a118d182f901cd0f21fa0fb9336ce8a16005def2d89e3e8ee5eca12f7ba1aint, 0xb8e599a4316bba087ba159d56f5887786e4a19c20477381dac7ad46d4df769acd646946e83621b084404951b2fad32fint, 0x7e413b8733a18852e4d63ff64659e025e3f33be26467127c3dedd6683d12ede7c05465f881ca2645ae76e2f53c91c0eint);
    lemma_square_step(r, 0x1a0111ea397fe69a4b1ba7b6434bacd7nat, 0xfdcbef28732e92481d531376acc2c1b837a118d182f901cd0f21fa0fb9336ce8a16005def2d89e3e8ee5eca12f7ba1aint, 0xb8e599a4316bba087ba159d56f5887786e4a19c20477381dac7ad46d4df769acd646946e83621b084404951b2fad32fint, 0x7e413b8733a18852e4d63ff64659e025e3f33be26467127c3dedd6683d12ede7c05465f881ca2645ae76e2f53c91c0eint, 0x3551eddcf1aec3ccb1097f94b059a3b93cb1a5483c438e4a6a7a0c4746d19077684c25abc7820bde45a611c86dea18bint, 0x1a00eaf2c87f768332deda5d05298b5f00a7da4e5db0c747199f3b6e54a2af9a1ba3a742594485fe33a3d6f6b9a3a548int, 0x365ca190033de819f10bda74443035b61b12a80a824e22a2b4ac8ca9c72ef6e449810d1f3ebe51982ad70a89433edfaint);
    lemma_square_step(r, 0x340223d472ffcd3496374f6c869759aenat, 0x3551eddcf1aec3ccb1097f94b059a3b93cb1a5483c438e4a6a7a0c4746d19077684c25abc7820bde45a611c86dea18bint, 0x1a00eaf2c87f768332deda5d05298b5f00a7da4e5db0c747199f3b6e54a2af9a1ba3a742594485fe33a3d6f6b9a3a548int, 0x365ca190033de819f10bda74443035b61b12a80a824e22a2b4ac8ca9c72ef6e449810d1f3ebe51982ad70a89433edfaint, 0x19129d1b22b116320c862ccd70831ebeea957ea8d1d23c207d38a9f51563a6bd81099793534157d0953b2e110b5d16fdint, 0x4413c9c2b1c58ed3eec5a700d7f1427f1e8c47d6596fa58a08c3ad041ec5024af15ce75068df381b2452e3e8c13acf4int, 0xc02c7040ebebcb97cadca6c67ef28f558bea1ee0681444597174d255cfe6f330d70242cf0abd9e294b16099ab7459dbint);
    lemma_times_root_step(r, 0x680447a8e5ff9a692c6e9ed90d2eb35cnat, 0x19129d1b22b116320c862ccd70831ebeea957ea8d1d23c207d38a9f51563a6bd81099793534157d0953b2e110b5d16fdint, 0x4413c9c2b1c58ed3eec5a700d7f1427f1e8c47d6596fa58a08c3ad041ec5024af15ce75068df381b2452e3e8c13acf4int, 0xc02c7040ebebcb97cadca6c67ef28f558bea1ee0681444597174d255cfe6f330d70242cf0abd9e294b16099ab7459dbint, 0x15b2f90db173fdbbaa3d61dcc970a2b776d698ab41e661beaa71e368d390a082a14778850598d125a09893677e976d3eint, 0xd3c110074c9e695e865605aa3394346f4335932174a0bb4cdc84a6d5367bc4a3785efd42b66ec5d64b737e28358cbint, 0x4413c9c2b1c58ed3eec5a700d7f1427f1e8c47d6596fa58a08c3ad041ec5024af15ce75068df381b2452e3e8c13acf4int);
}

#[verifier::rlimit(40)]
proof fn lemma_root_pow_part_48(r: int)
    requires
        cong(iso_cubic(r), 0),
    ensures
        cong(pow(r, 0x340223d472ffcd3496374f6c869759aecnat), quad(0x1cc50d1cd11f4e4d0fd3bdeb531965d9b606a70eff4eb4e7ea55e88241c02f07a874bb1c4a009b25ac4196ad178e1fdint, 0x57adaee536bd47c60cdeea3ac80e1ba586430769e55121baf5c6d24bafd1643bb58fb8b08700b58a054bd0e622682a2int, 0x146c8b7cad00a5d028d08ff2026de92b221564439a4dbf07dbe2e578047b468f424eccc1a2f7a70750518dbd5b0b519int, r)),
{
    lemma_root_pow_part_47(r);
    lemma_square_step(r, 0x680447a8e5ff9a692c6e9ed90d2eb35dnat, 0x15b2f90db173fdbbaa3d61dcc970a2b776d698ab41e661beaa71e368d390a082a14778850598d125a09893677e976d3eint, 0xd3c110074c9e695e865605aa3394346f4335932174a0bb4cdc84a6d5367bc4a3785efd42b66ec5d64b737e28358cbint, 0x4413c9c2b1c58ed3eec5a700d7f1427f1e8c47d6596fa58a08c3ad041ec5024af15ce75068df381b2452e3e8c13acf4int, 0x1803434d7824628c76f9a4fb3af59195418bfa7152e0dd706f5783ba7c92203a717f2127dc7f1eb391c751dd1abf3b0bint, 0x4661698da70dcbb348e9f5aa88d00755458909e042bc5819b5f20c64f5244dab3cee33f8c15596fc2d89e24eca1ce7aint, 0x2fcaad2a894009a54a1d8450af4b30965926776c3ec6f27a5327cf09b9c5d4f292f8197194362f8257f31c6c8a878ebint);
    lemma_times_root_step(r, 0xd0088f51cbff34d258dd3db21a5d66banat, 0x1803434d7824628c76f9a4fb3af59195418bfa7152e0dd706f5783ba7c92203a717f2127dc7f1eb391c751dd1abf3b0bint, 0x4661698da70dcbb348e9f5aa88d00755458909e042bc5819b5f20c64f5244dab3cee33f8c15596fc2d89e24eca1ce7aint, 0x2fcaad2a894009a54a1d8450af4b30965926776c3ec6f27a5327cf09b9c5d4f292f8197194362f8257f31c6c8a878ebint, 0xf125dd2cd0a6cde2d1b6da1a6981a8a858d70e4a1c5ea2b6efe19e7b89030bf6843015462ff1fc58cb3533bc173ed45int, 0xfae8fd6ba3917b19f971a688d2a0c0e2bee2a50b48085fdb061fd06b0d541b9194ac3ad07653e44ecf2155765ce578aint, 0x4661698da70dcbb348e9f5aa88d00755458909e042bc5819b5f20c64f5244dab3cee33f8c15596fc2d89e24eca1ce7aint);
    lemma_square_step(r, 0xd0088f51cbff34d258dd3db21a5d66bbnat, 0xf125dd2cd0a6cde2d1b6da1a6981a8a858d70e4a1c5ea2b6efe19e7b89030bf6843015462ff1fc58cb3533bc173ed45int, 0xfae8fd6ba3917b19f971a688d2a0c0e2bee2a50b48085fdb061fd06b0d541b9194ac3ad07653e44ecf2155765ce578aint, 0x4661698da70dcbb348e9f5aa88d00755458909e042bc5819b5f20c64f5244dab3cee33f8c15596fc2d89e24eca1ce7aint, 0x18d9d556753ef395539b2750e4060bf0e117f0f6942010ddcc541ac00271a04f7b560c0b3ea42c698d6c3c1a0e3f7f23int, 0x68c734e0a4e16e00bbeb05acf401d73551f6c365f0b52a369504de80c606f0f4421f3159835de0e2901cbbfe15fa7e1int, 0x178d26b70534240acb248283db194f600f5cfbe92a7c607887f484133f9f6faaf733664691c9d24af151af59f307bcfcint);
    lemma_square_step(r, 0x1a0111ea397fe69a4b1ba7b6434bacd76nat, 0x18d9d556753ef395539b2750e4060bf0e117f0f6942010ddcc541ac00271a04f7b560c0b3ea42c698d6c3c1a0e3f7f23int, 0x68c734e0a4e16e00bbeb05acf401d73551f6c365f0b52a369504de80c606f0f4421f3159835de0e2901cbbfe15fa7e1int, 0x178d26b70534240acb248283db194f600f5cfbe92a7c607887f484133f9f6faaf733664691c9d24af151af59f307bcfcint, 0x1cc50d1cd11f4e4d0fd3bdeb531965d9b606a70eff4eb4e7ea55e88241c02f07a874bb1c4a009b25ac4196ad178e1fdint, 0x57adaee536bd47c60cdeea3ac80e1ba586430769e55121baf5c6d24bafd1643bb58fb8b08700b58a054bd0e622682a2int, 0x146c8b7cad00a5d028d08ff2026de92b221564439a4dbf07dbe2e578047b468f424eccc1a2f7a70750518dbd5b0b519int);
}

#[verifier::rlimit(40)]
proof fn lemma_root_pow_part_49(r: int)
    requires
        cong(iso_cubic(r), 0),
    ensures
        cong(pow(r, 0x1a0111ea397fe69a4b1ba7b6434bacd764nat), quad(0x3136fa7a880058155cf9cab7b3f4ff3bb4240e5cd7190587438983f2369df8565eb72d4b39ce96cd86c69bca7568a50int, 0xdf21189fe44fc4721f9f2b47a3e76683d7a851f7c80b9d2c600c5278aefcf1367beab6c3ebf3979eb567bad01fdcf96int, 0x713bfe8c0504722a6839b777a51b1367dcdf23e865cd37a07f0ae8f432cec6f09dbb32da2a8842182e25ad3b09f1c94int, r)),
{
    lemma_root_pow_part_48(r);
    lemma_square_step(r, 0x340223d472ffcd3496374f6c869759aecnat, 0x1cc50d1cd11f4e4d0fd3bdeb531965d9b606a70eff4eb4e7ea55e88241c02f07a874bb1c4a009b25ac4196ad178e1fdint, 0x57adaee536bd47c60cdeea3ac80e1ba586430769e55121baf5c6d24bafd1643bb58fb8b08700b58a054bd0e622682a2int, 0x146c8b7cad00a5d028d08ff2026de92b221564439a4dbf07dbe2e578047b468f424eccc1a2f7a70750518dbd5b0b519int, 0xa8523b84516d9c38e50ae20e36602df65b11c9349ca2bff2fd00a33eaa3dd2d862c13a634297cc8e011b14afd24cf1aint, 0x1051fda6f21cb081424afda58972c84ee44df0e5e32e8b0e237c609067899f108101da1a265df44016ef73197b8256b1int, 0x10ac25503faec3da6765b1a21f6d5135fa0a2b92ca04b4c03ccab56cc074a64bdcecfb23dbac901745cfd0cb84c38f53int);
    lemma_times_root_step(r, 0x680447a8e5ff9a692c6e9ed90d2eb35d8nat, 0xa8523b84516d9c38e50ae20e36602df65b11c9349ca2bff2fd00a33eaa3dd2d862c13a634297cc8e011b14afd24cf1aint, 0x1051fda6f21cb081424afda58972c84ee44df0e5e32e8b0e237c609067899f108101da1a265df44016ef73197b8256b1int, 0x10ac25503faec3da6765b1a21f6d5135fa0a2b92ca04b4c03ccab56cc074a64bdcecfb23dbac901745cfd0cb84c38f53int, 0x18a3d423cc8049e09df104af8b5ac3d64e1cede13cb548eeadf64cafd4db4252779102f34bcc276f51834fc07525da41int, 0xf335027352c11939c0300614da8f2c2e0b308d4d4dd34940ca5e1cbacd59cce3994515dcbda31ad168cf6e8c907d116int, 0x1051fda6f21cb081424afda58972c84ee44df0e5e32e8b0e237c609067899f108101da1a265df44016ef73197b8256b1int);
    lemma_square_step(r, 0x680447a8e5ff9a692c6e9ed90d2eb35d9nat, 0x18a3d423cc8049e09df104af8b5ac3d64e1cede13cb548eeadf64cafd4db4252779102f34bcc276f51834fc07525da41int, 0xf335027352c11939c0300614da8f2c2e0b308d4d4dd34940ca5e1cbacd59cce3994515dcbda31ad168cf6e8c907d116int, 0x1051fda6f21cb081424afda58972c84ee44df0e5e32e8b0e237c609067899f108101da1a265df44016ef73197b8256b1int, 0x508493c0133e8299aae11918ef8d8173bb8ec17f1f96fadc796f47115ce0c0890df2d243ba8e86d6a28e30fd75a66f0int, 0x68350d7b91db5ac90e3cf1277d6b6f4def513291c17cf13b7c30e1ee58279c157c53a0aaf57d7d3af17ea2398081503int, 0xf9e2652c2363347a4925372d29f42a9d5b92ee163348f585ef1ced812b7254b169aaaad799cc547529262db7076e8b5int);
    lemma_square_step(r, 0xd0088f51cbff34d258dd3db21a5d66bb2nat, 0x508493c0133e8299aae11918ef8d8173bb8ec17f1f96fadc796f47115ce0c0890df2d243ba8e86d6a28e30fd75a66f0int, 0x68350d7b91db5ac90e3cf1277d6b6f4def513291c17cf13b7c30e1ee58279c157c53a0aaf57d7d3af17ea2398081503int, 0xf9e2652c2363347a4925372d29f42a9d5b92ee163348f585ef1ced812b7254b169aaaad799cc547529262db7076e8b5int, 0x3136fa7a880058155cf9cab7b3f4ff3bb4240e5cd7190587438983f2369df8565eb72d4b39ce96cd86c69bca7568a50int, 0xdf21189fe44fc4721f9f2b47a3e76683d7a851f7c80b9d2c600c5278aefcf1367beab6c3ebf3979eb567bad01fdcf96int, 0x713bfe8c0504722a6839b777a51b1367dcdf23e865cd37a07f0ae8f432cec6f09dbb32da2a8842182e25ad3b09f1c94int);
}

#[verifier::rlimit(40)]
proof fn lemma_root_pow_part_50(r: int)
    requires
        cong(iso_cubic(r), 0),
    ensures
        cong(pow(r, 0xd0088f51cbff34d258dd3db21a5d66bb22nat), quad(0x1906f555218108a103134dcf45041655d2670d927c5123b728e0db429ae440fbfe519230a0be247f8d15b698416ed23bint, 0x5bd366ff18b76ebe20b82d5cb0984763f23fe9c53301b1bae1a8bd21c51e1e06db36460575de3702f42ec3e1b8a5e2fint, 0x15f607efd656190ec4e3614ce7e46370debd8bb9ae3106ed744914374ed3add154e51506afdd46c1362841567039a79int, r)),
{
    lemma_root_pow_part_49(r);
    lemma_square_step(r, 0x1a0111ea397fe69a4b1ba7b6434bacd764nat, 0x3136fa7a880058155cf9cab7b3f4ff3bb4240e5cd7190587438983f2369df8565eb72d4b39ce96cd86c69bca7568a50int, 0xdf21189fe44fc4721f9f2b47a3e76683d7a851f7c80b9d2c600c5278aefcf1367beab6c3ebf3979eb567bad01fdcf96int, 0x713bfe8c0504722a6839b777a51b1367dcdf23e865cd37a07f0ae8f432cec6f09dbb32da2a8842182e25ad3b09f1c94int, 0xcd24bcfa453640473da8f7587942770d793a700fcf768b26a9dea76a8c8db5e3e7cea6c7fe4085e7f6b96be38c189a6int, 0x8557d50155b323799821499b73ebb5a31882f1ebf7474dc4e8aa25521c755b5e9d30be233c632b04586f991687fc8f8int, 0x346641c0d8f8762afb4bb23386dbe8c0120a201800818c2d5dd4e30cc822746375981528eb5d30393f83608e35862e9int);
    lemma_square_step(r, 0x340223d472ffcd3496374f6c869759aec8nat, 0xcd24bcfa453640473da8f7587942770d793a700fcf768b26a9dea76a8c8db5e3e7cea6c7fe4085e7f6b96be38c189a6int, 0x8557d50155b323799821499b73ebb5a31882f1ebf7474dc4e8aa25521c755b5e9d30be233c632b04586f991687fc8f8int, 0x346641c0d8f8762afb4bb23386dbe8c0120a201800818c2d5dd4e30cc822746375981528eb5d30393f83608e35862e9int, 0x3f9bb0a0399ff6d8967cf3f9318d5eaec589efa3d9d963b691f27800aecb92d3fabf270b5491167895996895cc30744int, 0x142e422d84d0bd6eb740a3cb80c37f41b16d51346f1d6b580fba6e269e3ef62c326435b359b257c52b1537c30a315e7int, 0xb1fc2aa03bfe36436cf594605a04acd928b56f691b85fe0fc67f217cc49e4f8b761f717a83aa81cd96c7de6520c1011int);
    lemma_times_root_step(r, 0x680447a8e5ff9a692c6e9ed90d2eb35d90nat, 0x3f9bb0a0399ff6d8967cf3f9318d5eaec589efa3d9d963b691f27800aecb92d3fabf270b5491167895996895cc30744int, 0x142e422d84d0bd6eb740a3cb80c37f41b16d51346f1d6b580fba6e269e3ef62c326435b359b257c52b1537c30a315e7int, 0xb1fc2aa03bfe36436cf594605a04acd928b56f691b85fe0fc67f217cc49e4f8b761f717a83aa81cd96c7de6520c1011int, 0x149a479631095aa210d95d1ca4b44428ac0888e03a94d8021183ff22b0c1c3ff3176a4307bd702839b463971d5934977int, 0xc458403f7df67a106e935436065ee9fb24ea3d96122d48ded0aa1f98bc5b57e0b11ccec3f4838fd6228876486b36802int, 0x142e422d84d0bd6eb740a3cb80c37f41b16d51346f1d6b580fba6e269e3ef62c326435b359b257c52b1537c30a315e7int);
    lemma_square_step(r, 0x680447a8e5ff9a692c6e9ed90d2eb35d91nat, 0x149a479631095aa210d95d1ca4b44428ac0888e03a94d8021183ff22b0c1c3ff3176a4307bd702839b463971d5934977int, 0xc458403f7df67a106e935436065ee9fb24ea3d96122d48ded0aa1f98bc5b57e0b11ccec3f4838fd6228876486b36802int, 0x142e422d84d0bd6eb740a3cb80c37f41b16d51346f1d6b580fba6e269e3ef62c326435b359b257c52b1537c30a315e7int, 0x1906f555218108a103134dcf45041655d2670d927c5123b728e0db429ae440fbfe519230a0be247f8d15b698416ed23bint, 0x5bd366ff18b76ebe20b82d5cb0984763f23fe9c53301b1bae1a8bd21c51e1e06db36460575de3702f42ec3e1b8a5e2fint, 0x15f607efd656190ec4e3614ce7e46370debd8bb9ae3106ed744914374ed3add154e51506afdd46c1362841567039a79int);
}

#[verifier::rlimit(40)]
proof fn lemma_root_pow_part_51(r: int)
    requires
        cong(iso_cubic(r), 0),
    ensures
        cong(pow(r, 0x340223d472ffcd3496374f6c869759aec8enat), quad(0x9fc19664db2417fa513ef9c1579ded104d86ee5c444efa466310908ba11c27ea6fc1e9a0fd769c202581b0a88d724c2int, 0xaabfe8009254dce6cdc62c039cbe9c3ec0cc08ecbf42d1fd81c0344d2cfd64d5717eda487c3694aa8298dcb5d70bb7bint, 0x2c6f54c36739f154df74464de426bcf14858eb18957cd946e27c43ba66611b22dd4299cf2e53f739159f6fed147c7e9int, r)),
{
    lemma_root_pow_part_50(r);
    lemma_times_root_step(r, 0xd0088f51cbff34d258dd3db21a5d66bb22nat, 0x1906f555218108a103134dcf45041655d2670d927c5123b728e0db429ae440fbfe519230a0be247f8d15b698416ed23bint, 0x5bd366ff18b76ebe20b82d5cb0984763f23fe9c53301b1bae1a8bd21c51e1e06db36460575de3702f42ec3e1b8a5e2fint, 0x15f607efd656190ec4e3614ce7e46370debd8bb9ae3106ed744914374ed3add154e51506afdd46c1362841567039a79int, 0x17721ffa848cc73ef660bc07ee8cc8a8ea7ba1d2b64037e5f564944b0eb824edc96f502a579aa229c6af30bf5517a79cint, 0x1063fd484c2be05f78a4250abbf85503adb2ef9dd34ff51d4a97feba75c1d315133ffa09a66597bc85151bfaf6186054int, 0x5bd366ff18b76ebe20b82d5cb0984763f23fe9c53301b1bae1a8bd21c51e1e06db36460575de3702f42ec3e1b8a5e2fint);
    lemma_square_step(r, 0xd0088f51cbff34d258dd3db21a5d66bb23nat, 0x17721ffa848cc73ef660bc07ee8cc8a8ea7ba1d2b64037e5f564944b0eb824edc96f502a579aa229c6af30bf5517a79cint, 0x1063fd484c2be05f78a4250abbf85503adb2ef9dd34ff51d4a97feba75c1d315133ffa09a66597bc85151bfaf6186054int, 0x5bd366ff18b76ebe20b82d5cb0984763f23fe9c53301b1bae1a8bd21c51e1e06db36460575de3702f42ec3e1b8a5e2fint, 0x14e00607b810b8aac6f0dde6056f5605e02a28b168afb3df44ff38cf6a539014851fc7b2c2ec288a59270cc34d1b5a54int, 0x6170fcbb48b8dde5bd63a7c1a8e864f69ef0778ce48cf451f93d35e823d35b0d3ca1dca73c24bc40bdc376187400cf8int, 0x101499fb63016a653b23a77fe5d155eaeb677e6938beffd667a5dd12addfaf2b86b7bd14e8e4b3ee34fc0844d01231eeint);
    lemma_times_root_step(r, 0x1a0111ea397fe69a4b1ba7b6434bacd7646nat, 0x14e00607b810b8aac6f0dde6056f5605e02a28b168afb3df44ff38cf6a539014851fc7b2c2ec288a59270cc34d1b5a54int, 0x6170fcbb48b8dde5bd63a7c1a8e864f69ef0778ce48cf451f93d35e823d35b0d3ca1dca73c24bc40bdc376187400cf8int, 0x101499fb63016a653b23a77fe5d155eaeb677e6938beffd667a5dd12addfaf2b86b7bd14e8e4b3ee34fc0844d01231eeint, 0x16336610b83b59c69f0cfc1692a2c1eee66f929ae8c2bac92baa0e36504167d01d8b45922a0160e55155aa2368fdf721int, 0x16eec8f94ede99a060b3146fb9ec514ee8862dca0712d84629ec9f72d92eba940d61ef46751e64ab05a947f34749da9fint, 0x6170fcbb48b8dde5bd63a7c1a8e864f69ef0778ce48cf451f93d35e823d35b0d3ca1dca73c24bc40bdc376187400cf8int);
    lemma_square_step(r, 0x1a0111ea397fe69a4b1ba7b6434bacd7647nat, 0x16336610b83b59c69f0cfc1692a2c1eee66f929ae8c2bac92baa0e36504167d01d8b45922a0160e55155aa2368fdf721int, 0x16eec8f94ede99a060b3146fb9ec514ee8862dca0712d84629ec9f72d92eba940d61ef46751e64ab05a947f34749da9fint, 0x6170fcbb48b8dde5bd63a7c1a8e864f69ef0778ce48cf451f93d35e823d35b0d3ca1dca73c24bc40bdc376187400cf8int, 0x9fc19664db2417fa513ef9c1579ded104d86ee5c444efa466310908ba11c27ea6fc1e9a0fd769c202581b0a88d724c2int, 0xaabfe8009254dce6cdc62c039cbe9c3ec0cc08ecbf42d1fd81c0344d2cfd64d5717eda487c3694aa8298dcb5d70bb7bint, 0x2c6f54c36739f154df74464de426bcf14858eb18957cd946e27c43ba66611b22dd4299cf2e53f739159f6fed147c7e9int);
}

#[verifier::rlimit(40)]
proof fn lemma_root_pow_part_52(r: int)
    requires
        cong(iso_cubic(r), 0),
    ensures
        cong(pow(r, 0xd0088f51cbff34d258dd3db21a5d66bb23bnat), quad(0xc812897d634fce5330e5ca4b6ef8126c3778c4b0af6ac3298d5b09cf8faef38ce5cca86424293329acddd963127cd27int, 0x1721b3fd44e6670f9212a93b9ea4cebdcbb7c6755153977be879df9f817267600c881feb73440cc9f38850ec993cfc22int, 0x197d1715d5ab0ee5a47b5771076fc966c38cb76bb00269ebb4ba0baf9c4272240ef229dd3731143b832b8275a73003dfint, r)),
{
    lemma_root_pow_part_51(r);
    lemma_square_step(r, 0x340223d472ffcd3496374f6c869759aec8enat, 0x9fc19664db2417fa513ef9c1579ded104d86ee5c444efa466310908ba11c27ea6fc1e9a0fd769c202581b0a88d724c2int, 0xaabfe8009254dce6cdc62c039cbe9c3ec0cc08ecbf42d1fd81c0344d2cfd64d5717eda487c3694aa8298dcb5d70bb7bint, 0x2c6f54c36739f154df74464de426bcf14858eb18957cd946e27c43ba66611b22dd4299cf2e53f739159f6fed147c7e9int, 0x1a9bfa97b000ab3f9ece8bfe3e3882c4120d5d201955fa713002d9ab7d7350551ffaa0c595dee7b754d4b5bcf4f4706int, 0x14e40c5c948f65f67092ed36768f51cbe75108362b5732fdd337641594470fa27f3ca418413e57a60ed8ee83568549f2int, 0x35ba08a03bc691c45a7cdad800bd67b22fccba4c027e1cad718fcf1d23b610f6ebb35fc64deebd2294b9e6c7f902691int);
    lemma_times_root_step(r, 0x680447a8e5ff9a692c6e9ed90d2eb35d91cnat, 0x1a9bfa97b000ab3f9ece8bfe3e3882c4120d5d201955fa713002d9ab7d7350551ffaa0c595dee7b754d4b5bcf4f4706int, 0x14e40c5c948f65f67092ed36768f51cbe75108362b5732fdd337641594470fa27f3ca418413e57a60ed8ee83568549f2int, 0x35ba08a03bc691c45a7cdad800bd67b22fccba4c027e1cad718fcf1d23b610f6ebb35fc64deebd2294b9e6c7f902691int, 0xef9a226d0dfebeda88da48c9a738f2870b120dd806daa15f54e9cd931d9bb61e94aea15bdb72c59123b31ffbac2fc07int, 0x4c86c31f18f2864b0cfc3eaab02aafc32b0d25dd952147e19afa8bfd8c6dae1196db1e88b0bbb53b2ae08a6208b857aint, 0x14e40c5c948f65f67092ed36768f51cbe75108362b5732fdd337641594470fa27f3ca418413e57a60ed8ee83568549f2int);
    lemma_square_step(r, 0x680447a8e5ff9a692c6e9ed90d2eb35d91dnat, 0xef9a226d0dfebeda88da48c9a738f2870b120dd806daa15f54e9cd931d9bb61e94aea15bdb72c59123b31ffbac2fc07int, 0x4c86c31f18f2864b0cfc3eaab02aafc32b0d25dd952147e19afa8bfd8c6dae1196db1e88b0bbb53b2ae08a6208b857aint, 0x14e40c5c948f65f67092ed36768f51cbe75108362b5732fdd337641594470fa27f3ca418413e57a60ed8ee83568549f2int, 0x393762cb7edd440d55c2f045c6656a6d5331ae8bf6020325e897b81c11e1e5edbcbf33dce2d7caf164cb8d1cf78f62aint, 0x197d1715d5ab0ee5a47b5771076fc966c38cb76bb00269ebb4ba0baf9c4272240ef229dd3731143b832b8275a73003dfint, 0x110aec18e2497cf91920198b009ccebc609d514fd0fad35be7eb87866c4371d94b9cfbf8c4594c52a1c18dde981abb8dint);
    lemma_times_root_step(r, 0xd0088f51cbff34d258dd3db21a5d66bb23anat, 0x393762cb7edd440d55c2f045c6656a6d5331ae8bf6020325e897b81c11e1e5edbcbf33dce2d7caf164cb8d1cf78f62aint, 0x197d1715d5ab0ee5a47b5771076fc966c38cb76bb00269ebb4ba0baf9c4272240ef229dd3731143b832b8275a73003dfint, 0x110aec18e2497cf91920198b009ccebc609d514fd0fad35be7eb87866c4371d94b9cfbf8c4594c52a1c18dde981abb8dint, 0xc812897d634fce5330e5ca4b6ef8126c3778c4b0af6ac3298d5b09cf8faef38ce5cca86424293329acddd963127cd27int, 0x1721b3fd44e6670f9212a93b9ea4cebdcbb7c6755153977be879df9f817267600c881feb73440cc9f38850ec993cfc22int, 0x197d1715d5ab0ee5a47b5771076fc966c38cb76bb00269ebb4ba0baf9c4272240ef229dd3731143b832b8275a73003dfint);
}

#[verifier::rlimit(40)]
proof fn lemma_root_pow_part_53(r: int)
    requires
        cong(iso_cubic(r), 0),
    ensures
        cong(pow(r, 0x680447a8e5ff9a692c6e9ed90d2eb35d91dcnat), quad(0x3f653ca29cb9c08db45f9307d048afa4c3c6803ac14ab1a54fe8b651b528f0d6e432104860d4176414b9aab5c60f45dint, 0xe113af007a3168fb211ca81da24b70b1078de1f79bb184beb19a887ebd038fbf8b6a753cf867c6e011f8aa3f4b90fb2int, 0x1ef4cfb9472cd516e44f5590c45892c207f1b9822d1631f3f2a16d24c042f35d45d44572ec6d755b099262a393c6056int, r)),
{
    lemma_root_pow_part_52(r);
    lemma_square_step(r, 0xd0088f51cbff34d258dd3db21a5d66bb23bnat, 0xc812897d634fce5330e5ca4b6ef8126c3778c4b0af6ac3298d5b09cf8faef38ce5cca86424293329acddd963127cd27int, 0x1721b3fd44e6670f9212a93b9ea4cebdcbb7c6755153977be879df9f817267600c881feb73440cc9f38850ec993cfc22int, 0x197d1715d5ab0ee5a47b5771076fc966c38cb76bb00269ebb4ba0baf9c4272240ef229dd3731143b832b8275a73003dfint, 0x6df029131b2e8e40e8d93a6165586bf0370bd5ea1bfd2d9530903cff8c3a4a56dcbba8463c7440ec0439792f609d569int, 0x48b7d49f88d0b2b30fa997ed1e17d37c7fcae2e2283a57e4a5ee6039de87ac32740324a1896c08f4abe6fa97fa9cecfint, 0xadd2c5fd549095ecc4b262f53e913b84155b89b949613c2bc89d62f25e8dc5a7d3a5efc7e39d145fad5781df9bc6b08int);
    lemma_times_root_step(r, 0x1a0111ea397fe69a4b1ba7b6434bacd76476nat, 0x6df029131b2e8e40e8d93a6165586bf0370bd5ea1bfd2d9530903cff8c3a4a56dcbba8463c7440ec0439792f609d569int, 0x48b7d49f88d0b2b30fa997ed1e17d37c7fcae2e2283a57e4a5ee6039de87ac32740324a1896c08f4abe6fa97fa9cecfint, 0xadd2c5fd549095ecc4b262f53e913b84155b89b949613c2bc89d62f25e8dc5a7d3a5efc7e39d145fad5781df9bc6b08int, 0x17a623e375cf06b63558767bbbb449834ea3fe0bd2080aad2e1b8e4f36bbb2ba70a2534d6df2a7cc67ea64d313cb05a5int, 0xc217dc3cab85375cfe199325dd97a91b5f8ebc822d28e54412d8b5e83bd725dedad1037acc63212e16fb81d75789221int, 0x48b7d49f88d0b2b30fa997ed1e17d37c7fcae2e2283a57e4a5ee6039de87ac32740324a1896c08f4abe6fa97fa9cecfint);
    lemma_square_step(r, 0x1a0111ea397fe69a4b1ba7b6434bacd76477nat, 0x17a623e375cf06b63558767bbbb449834ea3fe0bd2080aad2e1b8e4f36bbb2ba70a2534d6df2a7cc67ea64d313cb05a5int, 0xc217dc3cab85375cfe199325dd97a91b5f8ebc822d28e54412d8b5e83bd725dedad1037acc63212e16fb81d75789221int, 0x48b7d49f88d0b2b30fa997ed1e17d37c7fcae2e2283a57e4a5ee6039de87ac32740324a1896c08f4abe6fa97fa9cecfint, 0x16394cc362f49e820f3f227f4285aae4883e734c266d181ecac779e654d147a729ae97aaf0f6aef98b93487706029b11int, 0x5bffc87ecb22b06ac47da2952c270733c16e89a0155287386e861218364c2fa95d9d00aff629a0edf9d3f0436d754deint, 0xad2b7b1f73a64c72578d3fdabbdf27e683a7f1da0da1e933209f8b6af26c154854823912fd36837aa01693bbd283a6fint);
    lemma_square_step(r, 0x340223d472ffcd3496374f6c869759aec8eenat, 0x16394cc362f49e820f3f227f4285aae4883e734c266d181ecac779e654d147a729ae97aaf0f6aef98b93487706029b11int, 0x5bffc87ecb22b06ac47da2952c270733c16e89a0155287386e861218364c2fa95d9d00aff629a0edf9d3f0436d754deint, 0xad2b7b1f73a64c72578d3fdabbdf27e683a7f1da0da1e933209f8b6af26c154854823912fd36837aa01693bbd283a6fint, 0x3f653ca29cb9c08db45f9307d048afa4c3c6803ac14ab1a54fe8b651b528f0d6e432104860d4176414b9aab5c60f45dint, 0xe113af007a3168fb211ca81da24b70b1078de1f79bb184beb19a887ebd038fbf8b6a753cf867c6e011f8aa3f4b90fb2int, 0x1ef4cfb9472cd516e44f5590c45892c207f1b9822d1631f3f2a16d24c042f35d45d44572ec6d755b099262a393c6056int);
}

#[verifier::rlimit(40)]
proof fn lemma_root_pow_part_54(r: int)
    requires
        cong(iso_cubic(r), 0),
    ensures
        cong(pow(r, 0x340223d472ffcd3496374f6c869759aec8ee8nat), quad(0x152b4f140d216066e4e2f457469a13185c31a9356aa4a4d7f7e1f1d0aa4dab7c0124e17140b3393d5be459f8148ad0fbint, 0xe7885e433569aacd790e25f5678f3cb3221a153ae68e5eabd86a370e37917881f93045b47c387338270a348d86473ccint, 0xdcb203fc4e7b063831d0dfe56c3bd90ad3bd58a85dce74e7b928c38aa7e5f5f0c20486335b534e607d2965d9e6c3fd9int, r)),
{
    lemma_root_pow_part_53(r);
    lemma_times_root_step(r, 0x680447a8e5ff9a692c6e9ed90d2eb35d91dcnat, 0x3f653ca29cb9c08db45f9307d048afa4c3c6803ac14ab1a54fe8b651b528f0d6e432104860d4176414b9aab5c60f45dint, 0xe113af007a3168fb211ca81da24b70b1078de1f79bb184beb19a887ebd038fbf8b6a753cf867c6e011f8aa3f4b90fb2int, 0x1ef4cfb9472cd516e44f5590c45892c207f1b9822d1631f3f2a16d24c042f35d45d44572ec6d755b099262a393c6056int, 0xb99dc99570dc69f528ca9bbd86542099ab85a169517891f41205a5dc8481e468e37e9c1f75817dbfdaeb80a0e211076int, 0x469b736c761146d094483ba55e5b8e5d38b95a59a849a5e615a35300d0e4ab181646a260e0b5a92f623429b9168f486int, 0xe113af007a3168fb211ca81da24b70b1078de1f79bb184beb19a887ebd038fbf8b6a753cf867c6e011f8aa3f4b90fb2int);
    lemma_square_step(r, 0x680447a8e5ff9a692c6e9ed90d2eb35d91ddnat, 0xb99dc99570dc69f528ca9bbd86542099ab85a169517891f41205a5dc8481e468e37e9c1f75817dbfdaeb80a0e211076int, 0x469b736c761146d094483ba55e5b8e5d38b95a59a849a5e615a35300d0e4ab181646a260e0b5a92f623429b9168f486int, 0xe113af007a3168fb211ca81da24b70b1078de1f79bb184beb19a887ebd038fbf8b6a753cf867c6e011f8aa3f4b90fb2int, 0x1534f5f7f393d50fdc7f6f431b890c20667559520a3023834b48b2270c80ee4a3599ef7a715ef9888ebef3e9b990c119int, 0xb63ee67d60a0fb9f0f2ef74404f298e58ff7f33921d73c123f64219a23eadf7450976a2bfcad74bc0764bb6b2ebe51int, 0x2953e91b506bcde00b881d6ae98f8a81ec346d277efa8f7742a80e359e757691a9898902d748c7908d79dbf99a03bf7int);
    lemma_square_step(r, 0xd0088f51cbff34d258dd3db21a5d66bb23banat, 0x1534f5f7f393d50fdc7f6f431b890c20667559520a3023834b48b2270c80ee4a3599ef7a715ef9888ebef3e9b990c119int, 0xb63ee67d60a0fb9f0f2ef74404f298e58ff7f33921d73c123f64219a23eadf7450976a2bfcad74bc0764bb6b2ebe51int, 0x2953e91b506bcde00b881d6ae98f8a81ec346d277efa8f7742a80e359e757691a9898902d748c7908d79dbf99a03bf7int, 0x117449bfdcc77fe6f7e52cff0aea4c6fd3391cfa296b30118714532e671d8ccdf7d43ab9cb65723e03334c444979aac3int, 0xbf693b2b2ce37e9a4c17eb6d63b42660cde3d19ee393742195122165291cbfc0e5f2996cff05688857c01af55f29298int, 0x120e8e0c4889116df92a1b23b0d754fff8de88e013b588d90ac8cdc1d83750504951a1d63815b4c013fd0a2f1df85968int);
    lemma_square_step(r, 0x1a0111ea397fe69a4b1ba7b6434bacd764774nat, 0x117449bfdcc77fe6f7e52cff0aea4c6fd3391cfa296b30118714532e671d8ccdf7d43ab9cb65723e03334c444979aac3int, 0xbf693b2b2ce37e9a4c17eb6d63b42660cde3d19ee393742195122165291cbfc0e5f2996cff05688857c01af55f29298int, 0x120e8e0c4889116df92a1b23b0d754fff8de88e013b588d90ac8cdc1d83750504951a1d63815b4c013fd0a2f1df85968int, 0x152b4f140d216066e4e2f457469a13185c31a9356aa4a4d7f7e1f1d0aa4dab7c0124e17140b3393d5be459f8148ad0fbint, 0xe7885e433569aacd790e25f5678f3cb3221a153ae68e5eabd86a370e37917881f93045b47c387338270a348d86473ccint, 0xdcb203fc4e7b063831d0dfe56c3bd90ad3bd58a85dce74e7b928c38aa7e5f5f0c20486335b534e607d2965d9e6c3fd9int);
}

#[verifier::rlimit(40)]
proof fn lemma_root_pow_part_55(r: int)
    requires
        cong(iso_cubic(r), 0),
    ensures
        cong(pow(r, 0xd0088f51cbff34d258dd3db21a5d66bb23ba5nat), quad(0x11014cace15621d4ed32c79a18a95d2a18cb4149942bc61ef7983df2e940cba6b8eb4cc17c54f71182844e448379050cint, 0x106d27b2e8b78776d11f4305e8c89d3d6470545ace636a54eb9dbc7310af9baed94795b0d08bfa22906c0d1468f45937int, 0x59141e8f7787a70eb31353cb46111c04bf01174d747e63f64fe4b010aee5d9392081cc0f52a9685a2c1c4c4ddb04bfaint, r)),
{
    lemma_root_pow_part_54(r);
    lemma_times_root_step(r, 0x340223d472ffcd3496374f6c869759aec8ee8nat, 0x152b4f140d216066e4e2f457469a13185c31a9356aa4a4d7f7e1f1d0aa4dab7c0124e17140b3393d5be459f8148ad0fbint, 0xe7885e433569aacd790e25f5678f3cb3221a153ae68e5eabd86a370e37917881f93045b47c387338270a348d86473ccint, 0xdcb203fc4e7b063831d0dfe56c3bd90ad3bd58a85dce74e7b928c38aa7e5f5f0c20486335b534e607d2965d9e6c3fd9int, 0x93e33b69a7a47464754fbf3c3a72fd70c7e04f0f89feb0b192a22a1abe757d8d2e79a1a4a05e756ae002d3c41ff0726int, 0x89e5c8a2b45df85d7ff7f8902ce20e6e4c091c50c9ec8a49e2b3357134f4e46ade89497b6902018ba7c71ea00aa16b0int, 0xe7885e433569aacd790e25f5678f3cb3221a153ae68e5eabd86a370e37917881f93045b47c387338270a348d86473ccint);
    lemma_square_step(r, 0x340223d472ffcd3496374f6c869759aec8ee9nat, 0x93e33b69a7a47464754fbf3c3a72fd70c7e04f0f89feb0b192a22a1abe757d8d2e79a1a4a05e756ae002d3c41ff0726int, 0x89e5c8a2b45df85d7ff7f8902ce20e6e4c091c50c9ec8a49e2b3357134f4e46ade89497b6902018ba7c71ea00aa16b0int, 0xe7885e433569aacd790e25f5678f3cb3221a153ae68e5eabd86a370e37917881f93045b47c387338270a348d86473ccint, 0x74a0c22a54b95768050b9aee41d80b2b4b8634bd9f40ac4c5b2d2dae487f255d5115542ee02dd4d4581044d778c4924int, 0xeb861eb78555ac046286e3322890513ccf2ea599590f9af485520b43505bcf1c1a4c422216022cc6879aaf13df3befcint, 0xdf1748152cccff898bf8d4e69de78cc648fb714830028919394703cfaf4f6ac2f0b6422aa10809b5558fbcbd3804f9int);
    lemma_square_step(r, 0x680447a8e5ff9a692c6e9ed90d2eb35d91dd2nat, 0x74a0c22a54b95768050b9aee41d80b2b4b8634bd9f40ac4c5b2d2dae487f255d5115542ee02dd4d4581044d778c4924int, 0xeb861eb78555ac046286e3322890513ccf2ea599590f9af485520b43505bcf1c1a4c422216022cc6879aaf13df3befcint, 0xdf1748152cccff898bf8d4e69de78cc648fb714830028919394703cfaf4f6ac2f0b6422aa10809b5558fbcbd3804f9int, 0x151fe59797f2c3885e798be450838793c1cfcb3e478851da9479f7385f7092b8e2abe12f40724b2ccf257890204ab977int, 0x59141e8f7787a70eb31353cb46111c04bf01174d747e63f64fe4b010aee5d9392081cc0f52a9685a2c1c4c4ddb04bfaint, 0x4ab87dfe6e62f62badfca92e33ef180613ac85e2019dd21c07cfdda08ef8405a53b23badfcd0e53a7cc9e017fc10582int);
    lemma_times_root_step(r, 0xd0088f51cbff34d258dd3db21a5d66bb23ba4nat, 0x151fe59797f2c3885e798be450838793c1cfcb3e478851da9479f7385f7092b8e2abe12f40724b2ccf257890204ab977int, 0x59141e8f7787a70eb31353cb46111c04bf01174d747e63f64fe4b010aee5d9392081cc0f52a9685a2c1c4c4ddb04bfaint, 0x4ab87dfe6e62f62badfca92e33ef180613ac85e2019dd21c07cfdda08ef8405a53b23badfcd0e53a7cc9e017fc10582int, 0x11014cace15621d4ed32c79a18a95d2a18cb4149942bc61ef7983df2e940cba6b8eb4cc17c54f71182844e448379050cint, 0x106d27b2e8b78776d11f4305e8c89d3d6470545ace636a54eb9dbc7310af9baed94795b0d08bfa22906c0d1468f45937int, 0x59141e8f7787a70eb31353cb46111c04bf01174d747e63f64fe4b010aee5d9392081cc0f52a9685a2c1c4c4ddb04bfaint);
}

#[verifier::rlimit(40)]
proof fn lemma_root_pow_part_56(r: int)
    requires
        cong(iso_cubic(r), 0),
    ensures
        cong(pow(r, 0x340223d472ffcd3496374f6c869759aec8ee97nat), quad(0x80f717cb5726f069c1351971cea3b1d7ffb118954ed873e284370473e53644478cb58566318a149d92a9be3615e6baint, 0x13bd0611abcfd68880d10e43b402cce11364513898d55a8a4b1a6013efb1034ee174923baeb6e472885a159ad513ef8bint, 0xee00a9265e9221c538a8c8d4333f16ba565c4dde029b7de1f9250873f80c4d0900e7ff0d987a6782275c31037979ed7int, r)),
{
    lemma_root_pow_part_55(r);
    lemma_square_step(r, 0xd0088f51cbff34d258dd3db21a5d66bb23ba5nat, 0x11014cace15621d4ed32c79a18a95d2a18cb4149942bc61ef7983df2e940cba6b8eb4cc17c54f71182844e448379050cint, 0x106d27b2e8b78776d11f4305e8c89d3d6470545ace636a54eb9dbc7310af9baed94795b0d08bfa22906c0d1468f45937int, 0x59141e8f7787a70eb31353cb46111c04bf01174d747e63f64fe4b010aee5d9392081cc0f52a9685a2c1c4c4ddb04bfaint, 0x1261c75a037a45cf8b48c8fd96d4813c4447b198c236122853819f5b1705d1821710ce388e06d6890972eb7e6e486f96int, 0x68acc7fca4e45101f040dcba3d967fc54be6da7e36e2a906dbfbe16ec01cad289e18ab384bafc68153668354e274a0fint, 0x163ff827a8138f572e858cc93863eebffbeeb8c1a0ed98fc066ff07bcbd930cecb4e8709532ebdb3418b659107ea72c8int);
    lemma_times_root_step(r, 0x1a0111ea397fe69a4b1ba7b6434bacd764774anat, 0x1261c75a037a45cf8b48c8fd96d4813c4447b198c236122853819f5b1705d1821710ce388e06d6890972eb7e6e486f96int, 0x68acc7fca4e45101f040dcba3d967fc54be6da7e36e2a906dbfbe16ec01cad289e18ab384bafc68153668354e274a0fint, 0x163ff827a8138f572e858cc93863eebffbeeb8c1a0ed98fc066ff07bcbd930cecb4e8709532ebdb3418b659107ea72c8int, 0x9922f5699cb085a106f80a09530e2bb0f6c0db68ac5c129dd6bafe069935a4f5c0a9a3a316751829d0bdae9ffec793cint, 0x1710527b1b851845de039676b7e639544b2f41cbda3742510fec8a8ebff1df867b441e3ac8a4491b6c390cea3b7e8d09int, 0x68acc7fca4e45101f040dcba3d967fc54be6da7e36e2a906dbfbe16ec01cad289e18ab384bafc68153668354e274a0fint);
    lemma_square_step(r, 0x1a0111ea397fe69a4b1ba7b6434bacd764774bnat, 0x9922f5699cb085a106f80a09530e2bb0f6c0db68ac5c129dd6bafe069935a4f5c0a9a3a316751829d0bdae9ffec793cint, 0x1710527b1b851845de039676b7e639544b2f41cbda3742510fec8a8ebff1df867b441e3ac8a4491b6c390cea3b7e8d09int, 0x68acc7fca4e45101f040dcba3d967fc54be6da7e36e2a906dbfbe16ec01cad289e18ab384bafc68153668354e274a0fint, 0x612a167ed5d230cdca4248d9f337f3e2588bea522d9b89f12cc3db91ca4ff9208a2641569796e6f81c5f3c31fa47f9aint, 0xee00a9265e9221c538a8c8d4333f16ba565c4dde029b7de1f9250873f80c4d0900e7ff0d987a6782275c31037979ed7int, 0xebb274f7de0f55e91e28428aeb4429375e446c1732c43d1b32108c7177fb469fbd019884019f0555ad214d1205916f8int);
    lemma_times_root_step(r, 0x340223d472ffcd3496374f6c869759aec8ee96nat, 0x612a167ed5d230cdca4248d9f337f3e2588bea522d9b89f12cc3db91ca4ff9208a2641569796e6f81c5f3c31fa47f9aint, 0xee00a9265e9221c538a8c8d4333f16ba565c4dde029b7de1f9250873f80c4d0900e7ff0d987a6782275c31037979ed7int, 0xebb274f7de0f55e91e28428aeb4429375e446c1732c43d1b32108c7177fb469fbd019884019f0555ad214d1205916f8int, 0x80f717cb5726f069c1351971cea3b1d7ffb118954ed873e284370473e53644478cb58566318a149d92a9be3615e6baint, 0x13bd0611abcfd68880d10e43b402cce11364513898d55a8a4b1a6013efb1034ee174923baeb6e472885a159ad513ef8bint, 0xee00a9265e9221c538a8c8d4333f16ba565c4dde029b7de1f9250873f80c4d0900e7ff0d987a6782275c31037979ed7int);
}

#[verifier::rlimit(40)]
proof fn lemma_root_pow_part_57(r: int)
    requires
        cong(iso_cubic(r), 0),
    ensures
        cong(pow(r, 0x340223d472ffcd3496374f6c869759aec8ee970nat), quad(0x718fcd49012e77605a2c1c3088741d3f8492aee9adfad05e221dc9647adb9464172636070e5fa144c90f53550b76c2aint, 0x18657339dca48ac08373ce85ff87a5a5f05f972f93f9148aee0ca7f5c277bbbf62d0c8306f2c5b35d7bd094287ec8422int, 0x1591526d48ade3fd48bba31b9b5df97e18bad1f30405f5cedc8501cf765a3f1be311e3c7c9a21973710d1f9f4eec0347int, r)),
{
    lemma_root_pow_part_56(r);
    lemma_square_step(r, 0x340223d472ffcd3496374f6c869759aec8ee97nat, 0x80f717cb5726f069c1351971cea3b1d7ffb118954ed873e284370473e53644478cb58566318a149d92a9be3615e6baint, 0x13bd0611abcfd68880d10e43b402cce11364513898d55a8a4b1a6013efb1034ee174923baeb6e472885a159ad513ef8bint, 0xee00a9265e9221c538a8c8d4333f16ba565c4dde029b7de1f9250873f80c4d0900e7ff0d987a6782275c31037979ed7int, 0x764e8c9f30d6e6f2d4d62bf065d50604f003b13567f413fd018305ab687359d96c02f953d2af7b29d727df88854a8fint, 0x73cb85e9ae767e0b309a0ae6e2e4e4da64960fff93a038f93a4769ac9cd0f32cff6f1d3dca158a4d01085975a9c54c8int, 0x37e198dd4b09dea78cf7db05f8a720f0525d000f621b9f90a31e61c29382c79aa5b06b71e82a4fb8425273ec56a9496int);
    lemma_square_step(r, 0x680447a8e5ff9a692c6e9ed90d2eb35d91dd2enat, 0x764e8c9f30d6e6f2d4d62bf065d50604f003b13567f413fd018305ab687359d96c02f953d2af7b29d727df88854a8fint, 0x73cb85e9ae767e0b309a0ae6e2e4e4da64960fff93a038f93a4769ac9cd0f32cff6f1d3dca158a4d01085975a9c54c8int, 0x37e198dd4b09dea78cf7db05f8a720f0525d000f621b9f90a31e61c29382c79aa5b06b71e82a4fb8425273ec56a9496int, 0xb1cc735d44b96206b1f6d7b147d83ba9d648e54dd844fba83290d8d00bd86846e378c133c5cd685afa504663601b633int, 0x120655db1f92d0ee8936dfa080db6387082d72ff8d932f188884645cdb4c9a1977f4a7f8c179f8a59f192a303d7adf26int, 0x8be30841e9584e22c129cde4381e0f01a5eca116d9609cbf3b8c91d14ac829487b5eb436dfa684e6915e35045e573acint);
    lemma_square_step(r, 0xd0088f51cbff34d258dd3db21a5d66bb23ba5cnat, 0xb1cc735d44b96206b1f6d7b147d83ba9d648e54dd844fba83290d8d00bd86846e378c133c5cd685afa504663601b633int, 0x120655db1f92d0ee8936dfa080db6387082d72ff8d932f188884645cdb4c9a1977f4a7f8c179f8a59f192a303d7adf26int, 0x8be30841e9584e22c129cde4381e0f01a5eca116d9609cbf3b8c91d14ac829487b5eb436dfa684e6915e35045e573acint, 0x132dbf0efccf540754c6487ef7705746bfa134c661cae329a32f0b14ed330e16b42d4e48f7fb929f1f897157adfb8d79int, 0x327c1b08f0fbac04755ffdd55d23afe6ab10f0c5817449ec07c21bf58356bc20c996ba0848fe37c3ac8f088c0ed71e1int, 0x165ceb4946088743b3096458b192f5c3fef6bb08c040c389387530ffd1c22a4fbb811441475ffa85464ff0bc01d19283int);
    lemma_square_step(r, 0x1a0111ea397fe69a4b1ba7b6434bacd764774b8nat, 0x132dbf0efccf540754c6487ef7705746bfa134c661cae329a32f0b14ed330e16b42d4e48f7fb929f1f897157adfb8d79int, 0x327c1b08f0fbac04755ffdd55d23afe6ab10f0c5817449ec07c21bf58356bc20c996ba0848fe37c3ac8f088c0ed71e1int, 0x165ceb4946088743b3096458b192f5c3fef6bb08c040c389387530ffd1c22a4fbb811441475ffa85464ff0bc01d19283int, 0x718fcd49012e77605a2c1c3088741d3f8492aee9adfad05e221dc9647adb9464172636070e5fa144c90f53550b76c2aint, 0x18657339dca48ac08373ce85ff87a5a5f05f972f93f9148aee0ca7f5c277bbbf62d0c8306f2c5b35d7bd094287ec8422int, 0x1591526d48ade3fd48bba31b9b5df97e18bad1f30405f5cedc8501cf765a3f1be311e3c7c9a21973710d1f9f4eec0347int);
}

#[verifier::rlimit(40)]
proof fn lemma_root_pow_part_58(r: int)
    requires
        cong(iso_cubic(r), 0),
    ensures
        cong(pow(r, 0x1a0111ea397fe69a4b1ba7b6434bacd764774b84nat), quad(0x16eed9c065e1e65e9f56ee2a5a815b3242384209b45ab07cbdab6479ef1a84541abf43552c14740f44528cac19fe5e9eint, 0x4ea088f3a528bcd0a9d0b4e97452f40818986e5160ac698fd250278d52ecd244ccbb0bfc7732411e7439f3b92ac63a3int, 0x5f38057cc4be83669d9f07e60cb36df848bf0e60abb231f07a01b3d27369739596a61282a7cb7f3ba4444d95eaf005aint, r)),
{
    lemma_root_pow_part_57(r);
    lemma_square_step(r, 0x340223d472ffcd3496374f6c869759aec8ee970nat, 0x718fcd49012e77605a2c1c3088741d3f8492aee9adfad05e221dc9647adb9464172636070e5fa144c90f53550b76c2aint, 0x18657339dca48ac08373ce85ff87a5a5f05f972f93f9148aee0ca7f5c277bbbf62d0c8306f2c5b35d7bd094287ec8422int, 0x1591526d48ade3fd48bba31b9b5df97e18bad1f30405f5cedc8501cf765a3f1be311e3c7c9a21973710d1f9f4eec0347int, 0x7132de1dff05eb233bee602246c45f1e9671aa247f011521ef118a2aff287b34a5cbd2f4c924f3f14436d640893af55int, 0xce1ca240432129e86f0ba7f5949be864590472650b8d668df6c2cda1d3224b9220e1a52c9ef994dbf6c3a1d40ec4a45int, 0x121c6a18ea7e751c66716695cad1a31c90e3340d533cb49d83aa4f0852a26f73f4a90b7ca1cefe41525f9a3ac7de247cint);
    lemma_times_root_step(r, 0x680447a8e5ff9a692c6e9ed90d2eb35d91dd2e0nat, 0x7132de1dff05eb233bee602246c45f1e9671aa247f011521ef118a2aff287b34a5cbd2f4c924f3f14436d640893af55int, 0xce1ca240432129e86f0ba7f5949be864590472650b8d668df6c2cda1d3224b9220e1a52c9ef994dbf6c3a1d40ec4a45int, 0x121c6a18ea7e751c66716695cad1a31c90e3340d533cb49d83aa4f0852a26f73f4a90b7ca1cefe41525f9a3ac7de247cint, 0xe22e91e2efcd00af8e0f04b4a50386410cc4562fe86f5f220921a39daec7b6d8a8975bb2f163edf5f35c0c194ebc6c0int, 0x41c69988910a559e88c16651495747927416b5c79ce40de015fc674433412bd1b4bdf1d7d5654054748339d39a7af3cint, 0xce1ca240432129e86f0ba7f5949be864590472650b8d668df6c2cda1d3224b9220e1a52c9ef994dbf6c3a1d40ec4a45int);
    lemma_square_step(r, 0x680447a8e5ff9a692c6e9ed90d2eb35d91dd2e1nat, 0xe22e91e2efcd00af8e0f04b4a50386410cc4562fe86f5f220921a39daec7b6d8a8975bb2f163edf5f35c0c194ebc6c0int, 0x41c69988910a559e88c16651495747927416b5c79ce40de015fc674433412bd1b4bdf1d7d5654054748339d39a7af3cint, 0xce1ca240432129e86f0ba7f5949be864590472650b8d668df6c2cda1d3224b9220e1a52c9ef994dbf6c3a1d40ec4a45int, 0x2f7c70157568f230ffc5c6194e486f51764e5e9def0d5985469941770a5424be5dd093563fd6afa46519b24cf04438aint, 0xd6c793143b6741e125cdafaddde5498890231c67d452016313540e3c207f10646b3722a589df481e78458e5c261f684int, 0x401f0585e62dd9d9725d6368831d35cbee74eb8f44a7b911e61d0cca702b0189df2954234285dbae297a894c2b39cb7int);
    lemma_square_step(r, 0xd0088f51cbff34d258dd3db21a5d66bb23ba5c2nat, 0x2f7c70157568f230ffc5c6194e486f51764e5e9def0d5985469941770a5424be5dd093563fd6afa46519b24cf04438aint, 0xd6c793143b6741e125cdafaddde5498890231c67d452016313540e3c207f10646b3722a589df481e78458e5c261f684int, 0x401f0585e62dd9d9725d6368831d35cbee74eb8f44a7b911e61d0cca702b0189df2954234285dbae297a894c2b39cb7int, 0x16eed9c065e1e65e9f56ee2a5a815b3242384209b45ab07cbdab6479ef1a84541abf43552c14740f44528cac19fe5e9eint, 0x4ea088f3a528bcd0a9d0b4e97452f40818986e5160ac698fd250278d52ecd244ccbb0bfc7732411e7439f3b92ac63a3int, 0x5f38057cc4be83669d9f07e60cb36df848bf0e60abb231f07a01b3d27369739596a61282a7cb7f3ba4444d95eaf005aint);
}

#[verifier::rlimit(40)]
proof fn lemma_root_pow_part_59(r: int)
    requires
        cong(iso_cubic(r), 0),
    ensures
        cong(pow(r, 0x680447a8e5ff9a692c6e9ed90d2eb35d91dd2e13nat), quad(0xe43e77652563c86db47996438fa6f54aff08c22b8d259d0871122133833508156f788b580a732dfcfa62b3cc23447a7int, 0x1836be5a235569da0794add155d5527124ec2c9c6f7242c49d0cf090eb17b011039a85163a4f7bfeea31203b5cb966ecint, 0x11e889cb98c999ae0de128be63afd12432080140e72af68fa6dc221be17a41205aeb613979f397f6357bed79dfff7115int, r)),
{
    lemma_root_pow_part_58(r);
    lemma_square_step(r, 0x1a0111ea397fe69a4b1ba7b6434bacd764774b84nat, 0x16eed9c065e1e65e9f56ee2a5a815b3242384209b45ab07cbdab6479ef1a84541abf43552c14740f44528cac19fe5e9eint, 0x4ea088f3a528bcd0a9d0b4e97452f40818986e5160ac698fd250278d52ecd244ccbb0bfc7732411e7439f3b92ac63a3int, 0x5f38057cc4be83669d9f07e60cb36df848bf0e60abb231f07a01b3d27369739596a61282a7cb7f3ba4444d95eaf005aint, 0x5a3c8fcc1f38aa4445cf3941c5a17def8d2d1c8cc0a7d086c8dcc6331d806e7d98993e889ad5f8141e0c374a05a013int, 0x15ab9513d40d4907a06d1eb91d4f2f8e59082d33f1a1502ef4c4aaeea00446be95c2c3223843632df7b8c24ccdd03479int, 0xc3d06a21ea371700b9c0d3dfd882d1f0eee612aa25bf3c6acb63653a8ef05e0138784667fca8efd2ffb69f3dfa065e1int);
    lemma_times_root_step(r, 0x340223d472ffcd3496374f6c869759aec8ee9708nat, 0x5a3c8fcc1f38aa4445cf3941c5a17def8d2d1c8cc0a7d086c8dcc6331d806e7d98993e889ad5f8141e0c374a05a013int, 0x15ab9513d40d4907a06d1eb91d4f2f8e59082d33f1a1502ef4c4aaeea00446be95c2c3223843632df7b8c24ccdd03479int, 0xc3d06a21ea371700b9c0d3dfd882d1f0eee612aa25bf3c6acb63653a8ef05e0138784667fca8efd2ffb69f3dfa065e1int, 0x38542c38960a8bbef0ea4a81aa9fdd657ba67bba582b7a7d75d1d494b4959cf2c3c7adc601119967ae9a82f6c44402bint, 0x16d6b092a7d31489cf251ed481ee3a1cefe33ec247ea30106cd14718396ffa21595fab0826e6ba66d030406bf7de90b6int, 0x15ab9513d40d4907a06d1eb91d4f2f8e59082d33f1a1502ef4c4aaeea00446be95c2c3223843632df7b8c24ccdd03479int);
    lemma_square_step(r, 0x340223d472ffcd3496374f6c869759aec8ee9709nat, 0x38542c38960a8bbef0ea4a81aa9fdd657ba67bba582b7a7d75d1d494b4959cf2c3c7adc601119967ae9a82f6c44402bint, 0x16d6b092a7d31489cf251ed481ee3a1cefe33ec247ea30106cd14718396ffa21595fab0826e6ba66d030406bf7de90b6int, 0x15ab9513d40d4907a06d1eb91d4f2f8e59082d33f1a1502ef4c4aaeea00446be95c2c3223843632df7b8c24ccdd03479int, 0x10e9ce3ad8d3ec8a3bf533f853e35ddc8bfb3825eb5a74d62e177e5ad21db65492d16e71c7bdd40271689b3b94ad3baint, 0x11e889cb98c999ae0de128be63afd12432080140e72af68fa6dc221be17a41205aeb613979f397f6357bed79dfff7115int, 0x153bc33556e71a8e0df3c860a29b49d9e582a17e0eaee824b8e535abf363c0fa109babf861144328f6eb3665f39f050fint);
    lemma_times_root_step(r, 0x680447a8e5ff9a692c6e9ed90d2eb35d91dd2e12nat, 0x10e9ce3ad8d3ec8a3bf533f853e35ddc8bfb3825eb5a74d62e177e5ad21db65492d16e71c7bdd40271689b3b94ad3baint, 0x11e889cb98c999ae0de128be63afd12432080140e72af68fa6dc221be17a41205aeb613979f397f6357bed79dfff7115int, 0x153bc33556e71a8e0df3c860a29b49d9e582a17e0eaee824b8e535abf363c0fa109babf861144328f6eb3665f39f050fint, 0xe43e77652563c86db47996438fa6f54aff08c22b8d259d0871122133833508156f788b580a732dfcfa62b3cc23447a7int, 0x1836be5a235569da0794add155d5527124ec2c9c6f7242c49d0cf090eb17b011039a85163a4f7bfeea31203b5cb966ecint, 0x11e889cb98c999ae0de128be63afd12432080140e72af68fa6dc221be17a41205aeb613979f397f6357bed79dfff7115int);
}

#[verifier::rlimit(40)]
proof fn lemma_root_pow_part_60(r: int)
    requires
        cong(iso_cubic(r), 0),
    ensures
        cong(pow(r, 0x1a0111ea397fe69a4b1ba7b6434bacd764774b84fnat), quad(0x114e94dcbffae0ff308f5587a9f729fc00b7e58047a6492e0606f4727afed6224445c7d2abd52ee5877977acca75cdeeint, 0x1887fc0869e6776753f1756f266d291c3e494317b505d838c67f4cfd4715cc8bdd824a40c8b7422ff21e80c590072e73int, 0x125d4adcb4dd780b1a741144f73fef45318743865e98ae73b4676da6aeb21084087c400666f07e3d94b7cdc71a5b2a82int, r)),
{
    lemma_root_pow_part_59(r);
    lemma_square_step(r, 0x680447a8e5ff9a692c6e9ed90d2eb35d91dd2e13nat, 0xe43e77652563c86db47996438fa6f54aff08c22b8d259d0871122133833508156f788b580a732dfcfa62b3cc23447a7int, 0x1836be5a235569da0794add155d5527124ec2c9c6f7242c49d0cf090eb17b011039a85163a4f7bfeea31203b5cb966ecint, 0x11e889cb98c999ae0de128be63afd12432080140e72af68fa6dc221be17a41205aeb613979f397f6357bed79dfff7115int, 0x18752baa5c1f58f2b612f932cbefb39dc8084f1c05b1ca5c9a12071b65a8ec1cd2e581dadb23708b4a5ccb614f77930dint, 0xf5b1e26e215f38f44e990d7a0a5ef132d1203349c689a76a48c7dc3c0192b2c38eac40dba96b3993e29e8769018743eint, 0x17b69432641e5c3d3126ec472b47c81ed7cabae10c12436036e584c9f465e585976584fac02cc56b5eea179e3fddd3ddint);
    lemma_times_root_step(r, 0xd0088f51cbff34d258dd3db21a5d66bb23ba5c26nat, 0x18752baa5c1f58f2b612f932cbefb39dc8084f1c05b1ca5c9a12071b65a8ec1cd2e581dadb23708b4a5ccb614f77930dint, 0xf5b1e26e215f38f44e990d7a0a5ef132d1203349c689a76a48c7dc3c0192b2c38eac40dba96b3993e29e8769018743eint, 0x17b69432641e5c3d3126ec472b47c81ed7cabae10c12436036e584c9f465e585976584fac02cc56b5eea179e3fddd3ddint, 0x10022e15db94aad97916e8db69d771eb035198a0a51966023b9bd88aa580b904ad7ac0e2582d8fa3c917c986215903b3int, 0xeec3f17952a9c23864187a583a92bf04d2714923e46cf3bf2800d7a030fe0fef86e94630bcc98243966fc618ea8ab58int, 0xf5b1e26e215f38f44e990d7a0a5ef132d1203349c689a76a48c7dc3c0192b2c38eac40dba96b3993e29e8769018743eint);
    lemma_square_step(r, 0xd0088f51cbff34d258dd3db21a5d66bb23ba5c27nat, 0x10022e15db94aad97916e8db69d771eb035198a0a51966023b9bd88aa580b904ad7ac0e2582d8fa3c917c986215903b3int, 0xeec3f17952a9c23864187a583a92bf04d2714923e46cf3bf2800d7a030fe0fef86e94630bcc98243966fc618ea8ab58int, 0xf5b1e26e215f38f44e990d7a0a5ef132d1203349c689a76a48c7dc3c0192b2c38eac40dba96b3993e29e8769018743eint, 0x1347936c01b6f935bc05c8461251d5abb83a099ef29cf7f66a388c249e74b3baff9116921bdb48e8b2786b64f2b4d5d7int, 0x125d4adcb4dd780b1a741144f73fef45318743865e98ae73b4676da6aeb21084087c400666f07e3d94b7cdc71a5b2a82int, 0x1327b719c2ccb79a4df750dca770af311e3d923586089d474470dceec8fcd7320a96c9ed8b3dd7142f39963a4c8ba0bint);
    lemma_times_root_step(r, 0x1a0111ea397fe69a4b1ba7b6434bacd764774b84enat, 0x1347936c01b6f935bc05c8461251d5abb83a099ef29cf7f66a388c249e74b3baff9116921bdb48e8b2786b64f2b4d5d7int, 0x125d4adcb4dd780b1a741144f73fef45318743865e98ae73b4676da6aeb21084087c400666f07e3d94b7cdc71a5b2a82int, 0x1327b719c2ccb79a4df750dca770af311e3d923586089d474470dceec8fcd7320a96c9ed8b3dd7142f39963a4c8ba0bint, 0x114e94dcbffae0ff308f5587a9f729fc00b7e58047a6492e0606f4727afed6224445c7d2abd52ee5877977acca75cdeeint, 0x1887fc0869e6776753f1756f266d291c3e494317b505d838c67f4cfd4715cc8bdd824a40c8b7422ff21e80c590072e73int, 0x125d4adcb4dd780b1a741144f73fef45318743865e98ae73b4676da6aeb21084087c400666f07e3d94b7cdc71a5b2a82int);
}

#[verifier::rlimit(40)]
proof fn lemma_root_pow_part_61(r: int)
    requires
        cong(iso_cubic(r), 0),
    ensures
        cong(pow(r, 0xd0088f51cbff34d258dd3db21a5d66bb23ba5c279nat), quad(0x87ead4bb7f180548c764cec46e7620210a440233eea49869a01556f66edf52b7bee266ca398ea6aeedb80dc607412d8int, 0x19a35e2d0f6805ccd2f390d72ce0d211152e82c33707c1b565f92ef6a1878f06efc41adcb33cc54278e0f0d853c5e8c5int, 0xd683222b25c8e775dd44cc42133ec1a2fbcaf15aa6cfdda1b89debb0b37a7d377bc0f4116491c77b8cf005e23e7434dint, r)),
{
    lemma_root_pow_part_60(r);
    lemma_square_step(r, 0x1a0111ea397fe69a4b1ba7b6434bacd764774b84fnat, 0x114e94dcbffae0ff308f5587a9f729fc00b7e58047a6492e0606f4727afed6224445c7d2abd52ee5877977acca75cdeeint, 0x1887fc0869e6776753f1756f266d291c3e494317b505d838c67f4cfd4715cc8bdd824a40c8b7422ff21e80c590072e73int, 0x125d4adcb4dd780b1a741144f73fef45318743865e98ae73b4676da6aeb21084087c400666f07e3d94b7cdc71a5b2a82int, 0x7f64a439598c036599368a75b695a32a577e2ad8f92182dfdee86928adf2dd21ac8bd9894a4f39193993d7c8f5a603cint, 0x1636042cdc7552b01415261b851ff16888f47baa22a0afa24c0a04b8f3c1e483a2e5190ebe0d35243c38cdea12de1e9fint, 0x11978888ff3fe7526c8467940341ecd68698d7b3be6f0ccb62d5ebc78efa3893b63efffd964d54639804f9a1783db9b5int);
    lemma_square_step(r, 0x340223d472ffcd3496374f6c869759aec8ee9709enat, 0x7f64a439598c036599368a75b695a32a577e2ad8f92182dfdee86928adf2dd21ac8bd9894a4f39193993d7c8f5a603cint, 0x1636042cdc7552b01415261b851ff16888f47baa22a0afa24c0a04b8f3c1e483a2e5190ebe0d35243c38cdea12de1e9fint, 0x11978888ff3fe7526c8467940341ecd68698d7b3be6f0ccb62d5ebc78efa3893b63efffd964d54639804f9a1783db9b5int, 0x8b53bfd43227e57d106dfd916788e54b2735178c11b01de358541c71e93181b70670b02a3b79bf97abecd400c45f69dint, 0x561337bba7ce5a013756dcd6876dd0f4da56253d495261506d4bfaa31833a243fd0ad202bf59ca1b3eea5cd713e9033int, 0x19cec90f6224d46a3b6a63a4f2e0a224a8edcccc4b6c0657c0c27b659bafb8c6c2b8542019a1c4bb497082984ff2e8d4int);
    lemma_square_step(r, 0x680447a8e5ff9a692c6e9ed90d2eb35d91dd2e13cnat, 0x8b53bfd43227e57d106dfd916788e54b2735178c11b01de358541c71e93181b70670b02a3b79bf97abecd400c45f69dint, 0x561337bba7ce5a013756dcd6876dd0f4da56253d495261506d4bfaa31833a243fd0ad202bf59ca1b3eea5cd713e9033int, 0x19cec90f6224d46a3b6a63a4f2e0a224a8edcccc4b6c0657c0c27b659bafb8c6c2b8542019a1c4bb497082984ff2e8d4int, 0x15140fa8e22c101b90ee5effaeee42c1fee8d3f8186cbcf58cc341e046b35d7325adfb5950e64820a94d3a265735deeeint, 0xd683222b25c8e775dd44cc42133ec1a2fbcaf15aa6cfdda1b89debb0b37a7d377bc0f4116491c77b8cf005e23e7434dint, 0x9bfe8c84d695b6f10411ee0110a1fbff36091e0757d20ea58eb1eee56572853888abb8fe2758f39d1a87bc56a0ddd41int);
    lemma_times_root_step(r, 0xd0088f51cbff34d258dd3db21a5d66bb23ba5c278nat, 0x15140fa8e22c101b90ee5effaeee42c1fee8d3f8186cbcf58cc341e046b35d7325adfb5950e64820a94d3a265735deeeint, 0xd683222b25c8e775dd44cc42133ec1a2fbcaf15aa6cfdda1b89debb0b37a7d377bc0f4116491c77b8cf005e23e7434dint, 0x9bfe8c84d695b6f10411ee0110a1fbff36091e0757d20ea58eb1eee56572853888abb8fe2758f39d1a87bc56a0ddd41int, 0x87ead4bb7f180548c764cec46e7620210a440233eea49869a01556f66edf52b7bee266ca398ea6aeedb80dc607412d8int, 0x19a35e2d0f6805ccd2f390d72ce0d211152e82c33707c1b565f92ef6a1878f06efc41adcb33cc54278e0f0d853c5e8c5int, 0xd683222b25c8e775dd44cc42133ec1a2fbcaf15aa6cfdda1b89debb0b37a7d377bc0f4116491c77b8cf005e23e7434dint);
}

#[verifier::rlimit(40)]
proof fn lemma_root_pow_part_62(r: int)
    requires
        cong(iso_cubic(r), 0),
    ensures
        cong(pow(r, 0x340223d472ffcd3496374f6c869759aec8ee9709e7nat), quad(0x3293cdb465e0c438d384115210842e1c09f88848b89b17a758509eb621731e645158e657f2aba090abecb85ccc7d097int, 0x51e5cae25b7004a331d273122c5e6a4009b0a6cdb74f7637a711d3d03aafb26277e3111cf28d93d302c235e9022bdb0int, 0x19e07f99b6c69ba07312eb20f9c12dcf8500e3ba616dbe21679d439c616fa0f4d3d67cb0143d222b25d8cd2cdf603689int, r)),
{
    lemma_root_pow_part_61(r);
    lemma_square_step(r, 0xd0088f51cbff34d258dd3db21a5d66bb23ba5c279nat, 0x87ead4bb7f180548c764cec46e7620210a440233eea49869a01556f66edf52b7bee266ca398ea6aeedb80dc607412d8int, 0x19a35e2d0f6805ccd2f390d72ce0d211152e82c33707c1b565f92ef6a1878f06efc41adcb33cc54278e0f0d853c5e8c5int, 0xd683222b25c8e775dd44cc42133ec1a2fbcaf15aa6cfdda1b89debb0b37a7d377bc0f4116491c77b8cf005e23e7434dint, 0x19dad3ad27fd812beb9d8bb5ef5fbc7f27a5ef28a32fd22dd8286211c86f9668a6245f45e19c1eeb5cd24822df1cf911int, 0xfa40e46997968f16323553d10af7ad6bd1b0457d67e110667dda75ac3c4904d2675c96fae30037b7f4bf355e1d3fdfaint, 0xd64fd1d781416e7919320e46186eaf78dd01d8ff75a404069d449ffc40e8eca3cfb2041f628ba50ac139da6dd206661int);
    lemma_times_root_step(r, 0x1a0111ea397fe69a4b1ba7b6434bacd764774b84f2nat, 0x19dad3ad27fd812beb9d8bb5ef5fbc7f27a5ef28a32fd22dd8286211c86f9668a6245f45e19c1eeb5cd24822df1cf911int, 0xfa40e46997968f16323553d10af7ad6bd1b0457d67e110667dda75ac3c4904d2675c96fae30037b7f4bf355e1d3fdfaint, 0xd64fd1d781416e7919320e46186eaf78dd01d8ff75a404069d449ffc40e8eca3cfb2041f628ba50ac139da6dd206661int, 0xdfbd36e24e3cf6207de61bef6e9fddf58e3182be6e89ea306ad42f1184ba71c2d7c3010ece0cf3a7fd54483d23361ceint, 0x741d772d3a254b33f503084e337fe1c5a208769ab29921dc3548cbbe27151003f62b3c885570c76727024f868b40b19int, 0xfa40e46997968f16323553d10af7ad6bd1b0457d67e110667dda75ac3c4904d2675c96fae30037b7f4bf355e1d3fdfaint);
    lemma_square_step(r, 0x1a0111ea397fe69a4b1ba7b6434bacd764774b84f3nat, 0xdfbd36e24e3cf6207de61bef6e9fddf58e3182be6e89ea306ad42f1184ba71c2d7c3010ece0cf3a7fd54483d23361ceint, 0x741d772d3a254b33f503084e337fe1c5a208769ab29921dc3548cbbe27151003f62b3c885570c76727024f868b40b19int, 0xfa40e46997968f16323553d10af7ad6bd1b0457d67e110667dda75ac3c4904d2675c96fae30037b7f4bf355e1d3fdfaint, 0x15e290498b8dc939f0f1c5c1175e89cddb6d7ea15f912422c4de1a7d3af8761873a906bf39dab3a639aa9b5968e07439int, 0x19e07f99b6c69ba07312eb20f9c12dcf8500e3ba616dbe21679d439c616fa0f4d3d67cb0143d222b25d8cd2cdf603689int, 0xa3a36058d30098febbc441eb57a6287b04b45edea4a23957cae3b3507a160c47c2d2cae65e448de28a7caf363efc3abint);
    lemma_times_root_step(r, 0x340223d472ffcd3496374f6c869759aec8ee9709e6nat, 0x15e290498b8dc939f0f1c5c1175e89cddb6d7ea15f912422c4de1a7d3af8761873a906bf39dab3a639aa9b5968e07439int, 0x19e07f99b6c69ba07312eb20f9c12dcf8500e3ba616dbe21679d439c616fa0f4d3d67cb0143d222b25d8cd2cdf603689int, 0xa3a36058d30098febbc441eb57a6287b04b45edea4a23957cae3b3507a160c47c2d2cae65e448de28a7caf363efc3abint, 0x3293cdb465e0c438d384115210842e1c09f88848b89b17a758509eb621731e645158e657f2aba090abecb85ccc7d097int, 0x51e5cae25b7004a331d273122c5e6a4009b0a6cdb74f7637a711d3d03aafb26277e3111cf28d93d302c235e9022bdb0int, 0x19e07f99b6c69ba07312eb20f9c12dcf8500e3ba616dbe21679d439c616fa0f4d3d67cb0143d222b25d8cd2cdf603689int);
}

#[verifier::rlimit(40)]
proof fn lemma_root_pow_part_63(r: int)
    requires
        cong(iso_cubic(r), 0),
    ensures
        cong(pow(r, 0x340223d472ffcd3496374f6c869759aec8ee9709e70nat), quad(0xb7f11a6ba49b10ebf8b8339ce194429670de59a18d2f9a40d15a077bb1d443ffcfc58d81485b4e4b267d1265d75d0cbint, 0x264d96e8ff8097e8cdb4324a05d2b70f06d1ae76253633dda14fd725571daa0a050f969ff544cfc0dc043624b0df729int, 0x1779147be142691e02b8c4b53483de043628a18b75cf910ce185c570c1c774c501d1fe2adf51c60a0d0b5134fe0a5a68int, r)),
{
    lemma_root_pow_part_62(r);
    lemma_square_step(r, 0x340223d472ffcd3496374f6c869759aec8ee9709e7nat, 0x3293cdb465e0c438d384115210842e1c09f88848b89b17a758509eb621731e645158e657f2aba090abecb85ccc7d097int, 0x51e5cae25b7004a331d273122c5e6a4009b0a6cdb74f7637a711d3d03aafb26277e3111cf28d93d302c235e9022bdb0int, 0x19e07f99b6c69ba07312eb20f9c12dcf8500e3ba616dbe21679d439c616fa0f4d3d67cb0143d222b25d8cd2cdf603689int, 0x155ddbd6d20c926b4a1bbc137581a121e33acae7a54eb647d81c932d62ed51360cf5a4bcbd88f86a84d0a511304f8dfbint, 0xfed970f8bd266618d48de027313b784ff3b3092fb9a0e30a398bf679e54a23830021d3f45a82d1fc087286a6bf9259dint, 0x705bbfffeb7cff571d655092d9dbff7afa1cd5e649ce28df64dcd60eed6f0f007702413f1524c5c96c8d82913d312b5int);
    lemma_square_step(r, 0x680447a8e5ff9a692c6e9ed90d2eb35d91dd2e13cenat, 0x155ddbd6d20c926b4a1bbc137581a121e33acae7a54eb647d81c932d62ed51360cf5a4bcbd88f86a84d0a511304f8dfbint, 0xfed970f8bd266618d48de027313b784ff3b3092fb9a0e30a398bf679e54a23830021d3f45a82d1fc087286a6bf9259dint, 0x705bbfffeb7cff571d655092d9dbff7afa1cd5e649ce28df64dcd60eed6f0f007702413f1524c5c96c8d82913d312b5int, 0xc96ec8f92300d2765e3594b09da01ca9d157717e2fbe3b186cde0e3a6a819ba5a40d7360a574eadbf033dbc2d363b24int, 0x12fc77880755ada3db3a2e918af25b1db892b02c316611911909fa6cbfee63422100de40c47dcbfe0fe9343bd5a54957int, 0x6088e18d9994bd489ee691f280d38f2defba408f9e5c58e6e345c7b85d8d572335bcf37c6f2aa6a26b32e28fbbb5306int);
    lemma_square_step(r, 0xd0088f51cbff34d258dd3db21a5d66bb23ba5c279cnat, 0xc96ec8f92300d2765e3594b09da01ca9d157717e2fbe3b186cde0e3a6a819ba5a40d7360a574eadbf033dbc2d363b24int, 0x12fc77880755ada3db3a2e918af25b1db892b02c316611911909fa6cbfee63422100de40c47dcbfe0fe9343bd5a54957int, 0x6088e18d9994bd489ee691f280d38f2defba408f9e5c58e6e345c7b85d8d572335bcf37c6f2aa6a26b32e28fbbb5306int, 0x8e491f0b5dcd5624670ccd76074fa289500e826a5d951747795922223cb39a9f4b6fa1e781c2c61a3ca4d665130564fint, 0xf8e50781b303299f45b31790be58c10e774cd5644f3ea7b1e73c5f4a1e2fbc274958835a5aef5fe92adb8372c7eb7b2int, 0xb9bba1248f0c6e610af09cd24099744badf14732534b0e9430c3bb35686c7ae1eed09a0dad8a8992025e53644f7e795int);
    lemma_square_step(r, 0x1a0111ea397fe69a4b1ba7b6434bacd764774b84f38nat, 0x8e491f0b5dcd5624670ccd76074fa289500e826a5d951747795922223cb39a9f4b6fa1e781c2c61a3ca4d665130564fint, 0xf8e50781b303299f45b31790be58c10e774cd5644f3ea7b1e73c5f4a1e2fbc274958835a5aef5fe92adb8372c7eb7b2int, 0xb9bba1248f0c6e610af09cd24099744badf14732534b0e9430c3bb35686c7ae1eed09a0dad8a8992025e53644f7e795int, 0xb7f11a6ba49b10ebf8b8339ce194429670de59a18d2f9a40d15a077bb1d443ffcfc58d81485b4e4b267d1265d75d0cbint, 0x264d96e8ff8097e8cdb4324a05d2b70f06d1ae76253633dda14fd725571daa0a050f969ff544cfc0dc043624b0df729int, 0x1779147be142691e02b8c4b53483de043628a18b75cf910ce185c570c1c774c501d1fe2adf51c60a0d0b5134fe0a5a68int);
}

#[verifier::rlimit(40)]
proof fn lemma_root_pow_part_64(r: int)
    requires
        cong(iso_cubic(r), 0),
    ensures
        cong(pow(r, 0x1a0111ea397fe69a4b1ba7b6434bacd764774b84f384nat), quad(0x650bd12b08ce6a2d27747b5c10c306200bee0b4e7d6791c76e1816be4105933f0d30d2d3334d8caf8f427120318ec63int, 0x5e4f8d61256ae98d0795a30c5b8cbe42d82eed3d0e85e5e97135ec5d491deb8aaaace91c68580b4d57ae0b62f611612int, 0xc4c182c0ec9447e98698ff97790cf0fac60876c8f6492c4d8dd6bdc7a3b50127cba9c33081ffcb2cb5a78d3f03478b2int, r)),
{
    lemma_root_pow_part_63(r);
    lemma_square_step(r, 0x340223d472ffcd3496374f6c869759aec8ee9709e70nat, 0xb7f11a6ba49b10ebf8b8339ce194429670de59a18d2f9a40d15a077bb1d443ffcfc58d81485b4e4b267d1265d75d0cbint, 0x264d96e8ff8097e8cdb4324a05d2b70f06d1ae76253633dda14fd725571daa0a050f969ff544cfc0dc043624b0df729int, 0x1779147be142691e02b8c4b53483de043628a18b75cf910ce185c570c1c774c501d1fe2adf51c60a0d0b5134fe0a5a68int, 0x9b3517f213c67c0688573cb1413c3ccfe1537701b9da41193b4a640789bfbde4798a8b21a33164e119a6c43baa73682int, 0x19469be2697f9f1b8d5abe76fd4148c90fc3d3181f92bfd5f34b61e6fe2e82446f6b9afdcc967ef22cd43a1b6ae474daint, 0x78930210b98af26797fccd0ae2c7da6f37088b6ea728b5a230ffc37cd499f274d598dcfafe55376c7073cd244d26315int);
    lemma_times_root_step(r, 0x680447a8e5ff9a692c6e9ed90d2eb35d91dd2e13ce0nat, 0x9b3517f213c67c0688573cb1413c3ccfe1537701b9da41193b4a640789bfbde4798a8b21a33164e119a6c43baa73682int, 0x19469be2697f9f1b8d5abe76fd4148c90fc3d3181f92bfd5f34b61e6fe2e82446f6b9afdcc967ef22cd43a1b6ae474daint, 0x78930210b98af26797fccd0ae2c7da6f37088b6ea728b5a230ffc37cd499f274d598dcfafe55376c7073cd244d26315int, 0x17bb29c226b28bd7a36f7aebfa764f7a2f53139ff94a725bc9a1225f52441b2dfbce18ce31f70ae62896b97128b68979int, 0xc1fdc456a019c6f8a973a8943277dc142fdd690c7a04a880f2f2e37995c94a33fd8a81643f5de85fd2a72ca31c29e5bint, 0x19469be2697f9f1b8d5abe76fd4148c90fc3d3181f92bfd5f34b61e6fe2e82446f6b9afdcc967ef22cd43a1b6ae474daint);
    lemma_square_step(r, 0x680447a8e5ff9a692c6e9ed90d2eb35d91dd2e13ce1nat, 0x17bb29c226b28bd7a36f7aebfa764f7a2f53139ff94a725bc9a1225f52441b2dfbce18ce31f70ae62896b97128b68979int, 0xc1fdc456a019c6f8a973a8943277dc142fdd690c7a04a880f2f2e37995c94a33fd8a81643f5de85fd2a72ca31c29e5bint, 0x19469be2697f9f1b8d5abe76fd4148c90fc3d3181f92bfd5f34b61e6fe2e82446f6b9afdcc967ef22cd43a1b6ae474daint, 0x65ce5e82fff49c790656abaa9f66f376e5d6c86c1286d8a533f28d8ed316df24f9c75dd733d06b15dccbc415916f4c5int, 0x9fef1c87ae7c495e62e10a4488ff8e348d0b687370ee6f1f92ad6b6a5d17d1062455e4ba0dd009cd9314ab4ccf95926int, 0x11481482aad16911abb91f3b971c611f4f0bdabf5a9ebf1b41bab5913aa3c67932cf08afc95c084086f837d57e7ac0f0int);
    lemma_square_step(r, 0xd0088f51cbff34d258dd3db21a5d66bb23ba5c279c2nat, 0x65ce5e82fff49c790656abaa9f66f376e5d6c86c1286d8a533f28d8ed316df24f9c75dd733d06b15dccbc415916f4c5int, 0x9fef1c87ae7c495e62e10a4488ff8e348d0b687370ee6f1f92ad6b6a5d17d1062455e4ba0dd009cd9314ab4ccf95926int, 0x11481482aad16911abb91f3b971c611f4f0bdabf5a9ebf1b41bab5913aa3c67932cf08afc95c084086f837d57e7ac0f0int, 0x650bd12b08ce6a2d27747b5c10c306200bee0b4e7d6791c76e1816be4105933f0d30d2d3334d8caf8f427120318ec63int, 0x5e4f8d61256ae98d0795a30c5b8cbe42d82eed3d0e85e5e97135ec5d491deb8aaaace91c68580b4d57ae0b62f611612int, 0xc4c182c0ec9447e98698ff97790cf0fac60876c8f6492c4d8dd6bdc7a3b50127cba9c33081ffcb2cb5a78d3f03478b2int);
}

#[verifier::rlimit(40)]
proof fn lemma_root_pow_part_65(r: int)
    requires
        cong(iso_cubic(r), 0),
    ensures
        cong(pow(r, 0xd0088f51cbff34d258dd3db21a5d66bb23ba5c279c28nat), quad(0x137ab0c0dff4eb05110d303afcac6e899bfeb380c0913effb31924347861e32b2eedd3ed9535c821c48e1154226bc51aint, 0x3628908a27b7f9a057b2bc87ee7e8b690f604820968644dadddfda40d49ce5b7eb4dd07239a279f0db8afd0dc874321int, 0xeb96702e830b3673cdeeedb3af6e46ff9f7e705fe8677f46ed50e320fb33ead40065cabe85b4daf5f5f32bfcce77eecint, r)),
{
    lemma_root_pow_part_64(r);
    lemma_times_root_step(r, 0x1a0111ea397fe69a4b1ba7b6434bacd764774b84f384nat, 0x650bd12b08ce6a2d27747b5c10c306200bee0b4e7d6791c76e1816be4105933f0d30d2d3334d8caf8f427120318ec63int, 0x5e4f8d61256ae98d0795a30c5b8cbe42d82eed3d0e85e5e97135ec5d491deb8aaaace91c68580b4d57ae0b62f611612int, 0xc4c182c0ec9447e98698ff97790cf0fac60876c8f6492c4d8dd6bdc7a3b50127cba9c33081ffcb2cb5a78d3f03478b2int, 0x102bcedd1bcdda83e666bdebf3074f08bb3e336bae5ccf0df7c16b2576ebd8b1e144c7b8d7d33151dd22873ef3ed0fedint, 0xf6e7a26a29bbe494234c89d99122c78905cdc8795fa5de37bd676ae383ebb32040db014ae653587168e746ffd866220int, 0x5e4f8d61256ae98d0795a30c5b8cbe42d82eed3d0e85e5e97135ec5d491deb8aaaace91c68580b4d57ae0b62f611612int);
    lemma_square_step(r, 0x1a0111ea397fe69a4b1ba7b6434bacd764774b84f385nat, 0x102bcedd1bcdda83e666bdebf3074f08bb3e336bae5ccf0df7c16b2576ebd8b1e144c7b8d7d33151dd22873ef3ed0fedint, 0xf6e7a26a29bbe494234c89d99122c78905cdc8795fa5de37bd676ae383ebb32040db014ae653587168e746ffd866220int, 0x5e4f8d61256ae98d0795a30c5b8cbe42d82eed3d0e85e5e97135ec5d491deb8aaaace91c68580b4d57ae0b62f611612int, 0xe9760c54e2f219bdfbd7ec7a8bd09518239b74608cdd7d4513b97bb2f0024b974d88bb79a16e9a6ef7df0df6d41e6a8int, 0x434d40971cfd3beedb78ac1c3352d84efcd70470485a9c4e63dd949bebb4a9185ad12f5c741bce3a9b551f3b31e4c56int, 0xb50a36c851f72488a0835559bcd2d494e9ee08a34d363758eda8abab8b0ffaf80e2690a0ef35b0202d5bf480a3c25ecint);
    lemma_square_step(r, 0x340223d472ffcd3496374f6c869759aec8ee9709e70anat, 0xe9760c54e2f219bdfbd7ec7a8bd09518239b74608cdd7d4513b97bb2f0024b974d88bb79a16e9a6ef7df0df6d41e6a8int, 0x434d40971cfd3beedb78ac1c3352d84efcd70470485a9c4e63dd949bebb4a9185ad12f5c741bce3a9b551f3b31e4c56int, 0xb50a36c851f72488a0835559bcd2d494e9ee08a34d363758eda8abab8b0ffaf80e2690a0ef35b0202d5bf480a3c25ecint, 0x3418e084bfdf04ac275fa0caa0483990eed80e25021db728ec55ea8f6419d568343cd3a8ca6d19206217fbaae320271int, 0x1485237cca9fc826c0db0d4104422a40f99ddeffeb7b152ba10b824673da783f653b529b6f65bcc456f7b5c918a004a4int, 0xffa0fa56b5d9d9033d6299c655e5c61056fae746941b2589ccae3aee6c5069366b2fe3a6a3459b0522662924729ad53int);
    lemma_square_step(r, 0x680447a8e5ff9a692c6e9ed90d2eb35d91dd2e13ce14nat, 0x3418e084bfdf04ac275fa0caa0483990eed80e25021db728ec55ea8f6419d568343cd3a8ca6d19206217fbaae320271int, 0x1485237cca9fc826c0db0d4104422a40f99ddeffeb7b152ba10b824673da783f653b529b6f65bcc456f7b5c918a004a4int, 0xffa0fa56b5d9d9033d6299c655e5c61056fae746941b2589ccae3aee6c5069366b2fe3a6a3459b0522662924729ad53int, 0x137ab0c0dff4eb05110d303afcac6e899bfeb380c0913effb31924347861e32b2eedd3ed9535c821c48e1154226bc51aint, 0x3628908a27b7f9a057b2bc87ee7e8b690f604820968644dadddfda40d49ce5b7eb4dd07239a279f0db8afd0dc874321int, 0xeb96702e830b3673cdeeedb3af6e46ff9f7e705fe8677f46ed50e320fb33ead40065cabe85b4daf5f5f32bfcce77eecint);
}

#[verifier::rlimit(40)]
proof fn lemma_root_pow_part_66(r: int)
    requires
        cong(iso_cubic(r), 0),
    ensures
        cong(pow(r, 0x680447a8e5ff9a692c6e9ed90d2eb35d91dd2e13ce144nat), quad(0x13be5d0254969fa3a85140fda0be2172cfb64600876e47c906fa98d249d6c4ab944cb3c2f5db14512bf9c598601ee6f7int, 0xd4af77dabc6e046efb8f5e3ad0d03fd540e40b1e621a486b11d73db6f5eb42fb875873b1279736b11305e2a6fb70926int, 0x19a9983a71c872aaabea7d88f5fd56f3b185f96a2d6f5ab2aa0fcef541dc56e86ad168686757541460003820068509ceint, r)),
{
    lemma_root_pow_part_65(r);
    lemma_square_step(r, 0xd0088f51cbff34d258dd3db21a5d66bb23ba5c279c28nat, 0x137ab0c0dff4eb05110d303afcac6e899bfeb380c0913effb31924347861e32b2eedd3ed9535c821c48e1154226bc51aint, 0x3628908a27b7f9a057b2bc87ee7e8b690f604820968644dadddfda40d49ce5b7eb4dd07239a279f0db8afd0dc874321int, 0xeb96702e830b3673cdeeedb3af6e46ff9f7e705fe8677f46ed50e320fb33ead40065cabe85b4daf5f5f32bfcce77eecint, 0xe4c61b73da32215be870af9fe9cfd2a269a2186d4f350ec108f0755b9a9f3de24ab6aa1225f27f38826d2904d115044int, 0x10f15cdfac069dfc60960f1b6bc1f5cdeccfd6bdca8ac83fd81e10fb673f46aae5547e870ab90b3ab1b00bea41612705int, 0xb8a298295ea5cbaa73426d5e7a2068816d84fd40133110532887dc661c847f839eca2b1b69e4d3886b8272d22c8e275int);
    lemma_times_root_step(r, 0x1a0111ea397fe69a4b1ba7b6434bacd764774b84f3850nat, 0xe4c61b73da32215be870af9fe9cfd2a269a2186d4f350ec108f0755b9a9f3de24ab6aa1225f27f38826d2904d115044int, 0x10f15cdfac069dfc60960f1b6bc1f5cdeccfd6bdca8ac83fd81e10fb673f46aae5547e870ab90b3ab1b00bea41612705int, 0xb8a298295ea5cbaa73426d5e7a2068816d84fd40133110532887dc661c847f839eca2b1b69e4d3886b8272d22c8e275int, 0x6593d58928a367b3f94d1a9fc6e8d15a0ba8ebc58b1ac965aaa7dc0a8653c68e91700340dddd1ab10f827106a81a8afint, 0xa6ca384bfcba400dbc0487363036ab6049021d8adb9f4f789f6ee79c76d553e94aefe1dd2c6c504fa2e8464d5d898e1int, 0x10f15cdfac069dfc60960f1b6bc1f5cdeccfd6bdca8ac83fd81e10fb673f46aae5547e870ab90b3ab1b00bea41612705int);
    lemma_square_step(r, 0x1a0111ea397fe69a4b1ba7b6434bacd764774b84f3851nat, 0x6593d58928a367b3f94d1a9fc6e8d15a0ba8ebc58b1ac965aaa7dc0a8653c68e91700340dddd1ab10f827106a81a8afint, 0xa6ca384bfcba400dbc0487363036ab6049021d8adb9f4f789f6ee79c76d553e94aefe1dd2c6c504fa2e8464d5d898e1int, 0x10f15cdfac069dfc60960f1b6bc1f5cdeccfd6bdca8ac83fd81e10fb673f46aae5547e870ab90b3ab1b00bea41612705int, 0x13e6d499deb5d2f56b11092e5444ba317223d28de10ef42d0414f7643824f5f529de089113d267b6044774eab12dedfbint, 0x17cbc1e5ed9c825d4d7f77155ab87992f2148aa55fba898f58f6d7266b6cf0da9d81c69881b9a15e599a2ec2a061668dint, 0x14d7567e204b707e0f648580a5ef9b18b650912be15487d097854ed60bfec2bb2712264bdf1b94dc22e92344b233c3fint);
    lemma_square_step(r, 0x340223d472ffcd3496374f6c869759aec8ee9709e70a2nat, 0x13e6d499deb5d2f56b11092e5444ba317223d28de10ef42d0414f7643824f5f529de089113d267b6044774eab12dedfbint, 0x17cbc1e5ed9c825d4d7f77155ab87992f2148aa55fba898f58f6d7266b6cf0da9d81c69881b9a15e599a2ec2a061668dint, 0x14d7567e204b707e0f648580a5ef9b18b650912be15487d097854ed60bfec2bb2712264bdf1b94dc22e92344b233c3fint, 0x13be5d0254969fa3a85140fda0be2172cfb64600876e47c906fa98d249d6c4ab944cb3c2f5db14512bf9c598601ee6f7int, 0xd4af77dabc6e046efb8f5e3ad0d03fd540e40b1e621a486b11d73db6f5eb42fb875873b1279736b11305e2a6fb70926int, 0x19a9983a71c872aaabea7d88f5fd56f3b185f96a2d6f5ab2aa0fcef541dc56e86ad168686757541460003820068509ceint);
}

#[verifier::rlimit(40)]
proof fn lemma_root_pow_part_67(r: int)
    requires
        cong(iso_cubic(r), 0),
    ensures
        cong(pow(r, 0x340223d472ffcd3496374f6c869759aec8ee9709e70a24nat), quad(0x219fed1c3419a3afcc28793657015f4b368011a64a60994b1b3368ae40b4c5a8f185fd903a9c2b24c33a89b56e06c5eint, 0x9f4e6f5e164f80efcbda9b6a1eb21720932b518459e8e9e870fafd59d9b6bae087b199178881bcc19c4dda311ef431int, 0x9a7f17cc7cfd3e54428279a582285b0c10c9a40c333ddfe75efcf62f8cbdcf42a47c4c0311d72a6a65775f59361a599int, r)),
{
    lemma_root_pow_part_66(r);
    lemma_square_step(r, 0x680447a8e5ff9a692c6e9ed90d2eb35d91dd2e13ce144nat, 0x13be5d0254969fa3a85140fda0be2172cfb64600876e47c906fa98d249d6c4ab944cb3c2f5db14512bf9c598601ee6f7int, 0xd4af77dabc6e046efb8f5e3ad0d03fd540e40b1e621a486b11d73db6f5eb42fb875873b1279736b11305e2a6fb70926int, 0x19a9983a71c872aaabea7d88f5fd56f3b185f96a2d6f5ab2aa0fcef541dc56e86ad168686757541460003820068509ceint, 0x14bd86b8d0a48cfc66fcd337cf8ceb5c5c0e8d5d6d43bcf8b6f1ece1aa48a080855e7e94359d9108b8f95c479ac235d7int, 0x11ce73114be5b94afad679bc865c89776e5b35b544f9bb6b15bcfb04f88550c814b9dc55f7745f4a39f581de061e9fcint, 0x8138debac3090a7a2d1909adeb2cd268c64b5ea814bcb1d9497a0387af569c147fc575233e43bd5d6c32807eaa8cf58int);
    lemma_times_root_step(r, 0xd0088f51cbff34d258dd3db21a5d66bb23ba5c279c288nat, 0x14bd86b8d0a48cfc66fcd337cf8ceb5c5c0e8d5d6d43bcf8b6f1ece1aa48a080855e7e94359d9108b8f95c479ac235d7int, 0x11ce73114be5b94afad679bc865c89776e5b35b544f9bb6b15bcfb04f88550c814b9dc55f7745f4a39f581de061e9fcint, 0x8138debac3090a7a2d1909adeb2cd268c64b5ea814bcb1d9497a0387af569c147fc575233e43bd5d6c32807eaa8cf58int, 0x4604ddfafcfc7ffa4d6c7163d4c2bd7fb5c0569f0d26a4d7ca938722d75de554b13a5154226622433b3dd22c8be32ccint, 0x33768d4283c7260a190645706d3635fd94e386ddae980d5c955b563fe0408381068fa7d40e4fed4c98f6ba286a226a7int, 0x11ce73114be5b94afad679bc865c89776e5b35b544f9bb6b15bcfb04f88550c814b9dc55f7745f4a39f581de061e9fcint);
    lemma_square_step(r, 0xd0088f51cbff34d258dd3db21a5d66bb23ba5c279c289nat, 0x4604ddfafcfc7ffa4d6c7163d4c2bd7fb5c0569f0d26a4d7ca938722d75de554b13a5154226622433b3dd22c8be32ccint, 0x33768d4283c7260a190645706d3635fd94e386ddae980d5c955b563fe0408381068fa7d40e4fed4c98f6ba286a226a7int, 0x11ce73114be5b94afad679bc865c89776e5b35b544f9bb6b15bcfb04f88550c814b9dc55f7745f4a39f581de061e9fcint, 0x3d9d71d7b87e1753967d5baa071a7b22958aa0685922f73b6fb9b309349f5b9a1c1102aa3876be40e543be46dab7f2aint, 0x8578cb22d0297cf3c7048aab223931cd57a235f30bdd0afbe1964857552a1bc9b852993b8dd1e676946fbc5a4ce73c0int, 0x124ef767948af47f573c3a27573dc0565029626ca94cf82cf5ae1f8c6c7fa1872d5fa23731bbccb7421bc08c0cd9fff8int);
    lemma_square_step(r, 0x1a0111ea397fe69a4b1ba7b6434bacd764774b84f38512nat, 0x3d9d71d7b87e1753967d5baa071a7b22958aa0685922f73b6fb9b309349f5b9a1c1102aa3876be40e543be46dab7f2aint, 0x8578cb22d0297cf3c7048aab223931cd57a235f30bdd0afbe1964857552a1bc9b852993b8dd1e676946fbc5a4ce73c0int, 0x124ef767948af47f573c3a27573dc0565029626ca94cf82cf5ae1f8c6c7fa1872d5fa23731bbccb7421bc08c0cd9fff8int, 0x219fed1c3419a3afcc28793657015f4b368011a64a60994b1b3368ae40b4c5a8f185fd903a9c2b24c33a89b56e06c5eint, 0x9f4e6f5e164f80efcbda9b6a1eb21720932b518459e8e9e870fafd59d9b6bae087b199178881bcc19c4dda311ef431int, 0x9a7f17cc7cfd3e54428279a582285b0c10c9a40c333ddfe75efcf62f8cbdcf42a47c4c0311d72a6a65775f59361a599int);
}

#[verifier::rlimit(40)]
proof fn lemma_root_pow_part_68(r: int)
    requires
        cong(iso_cubic(r), 0),
    ensures
        cong(pow(r, 0xd0088f51cbff34d258dd3db21a5d66bb23ba5c279c2895nat), quad(0xa9de8f58d06bb499df34dfae6cc23811d6e42171cc0c8df878688257fb22d75c0f13390cd0cc8c959aae60c064a89a7int, 0x12a04c3fff66e3469c179b02d39f93d36e631e0096ac603d98e7eb9c9206ecb2c0e7039357f22943d6570b95b425b0int, 0xb982ade8cb64566e9d7ccc2f6eba408efc805b5585ede09532301af7e2590e1fd7a2bb06860aa04618bcc35b857b721int, r)),
{
    lemma_root_pow_part_67(r);
    lemma_times_root_step(r, 0x340223d472ffcd3496374f6c869759aec8ee9709e70a24nat, 0x219fed1c3419a3afcc28793657015f4b368011a64a60994b1b3368ae40b4c5a8f185fd903a9c2b24c33a89b56e06c5eint, 0x9f4e6f5e164f80efcbda9b6a1eb21720932b518459e8e9e870fafd59d9b6bae087b199178881bcc19c4dda311ef431int, 0x9a7f17cc7cfd3e54428279a582285b0c10c9a40c333ddfe75efcf62f8cbdcf42a47c4c0311d72a6a65775f59361a599int, 0x1c476e78bb2476eeedfdcd76599bf26385270d7c221cebf1ea15fa0a46d21c5a793ae5216ee034d2c9d7f5b58a1a226int, 0xd72165481ff54887a2da144cef404581cbf2d571f6c5dae3bee50f475922258c8779fb9c610754a6f839e23963badb1int, 0x9f4e6f5e164f80efcbda9b6a1eb21720932b518459e8e9e870fafd59d9b6bae087b199178881bcc19c4dda311ef431int);
    lemma_square_step(r, 0x340223d472ffcd3496374f6c869759aec8ee9709e70a25nat, 0x1c476e78bb2476eeedfdcd76599bf26385270d7c221cebf1ea15fa0a46d21c5a793ae5216ee034d2c9d7f5b58a1a226int, 0xd72165481ff54887a2da144cef404581cbf2d571f6c5dae3bee50f475922258c8779fb9c610754a6f839e23963badb1int, 0x9f4e6f5e164f80efcbda9b6a1eb21720932b518459e8e9e870fafd59d9b6bae087b199178881bcc19c4dda311ef431int, 0x523e5c2c420d14f9a7493ee6e8a0c3b7192024060e53370afef0bb87478f6eae0dc1e6badde922f15d9cc8ac47a5240int, 0x171c1ef7b2687f0d0debe5c0b982b9e0d0e9e2ff938be204513332e4aeed26a1f62928447642e45a5af2f59bb3be0e95int, 0xbad46158e19dea2ff378606b2abe47408f55d0e3e68587a73ff41d81c02cc552079f98bf533e795f2d1e084c3e6b810int);
    lemma_square_step(r, 0x680447a8e5ff9a692c6e9ed90d2eb35d91dd2e13ce144anat, 0x523e5c2c420d14f9a7493ee6e8a0c3b7192024060e53370afef0bb87478f6eae0dc1e6badde922f15d9cc8ac47a5240int, 0x171c1ef7b2687f0d0debe5c0b982b9e0d0e9e2ff938be204513332e4aeed26a1f62928447642e45a5af2f59bb3be0e95int, 0xbad46158e19dea2ff378606b2abe47408f55d0e3e68587a73ff41d81c02cc552079f98bf533e795f2d1e084c3e6b810int, 0x18b54df8ce574e1ed23bcb7989e92a85f02513717723958a51d7a1c3d575b05831c396efbac204efe40e462b9da5552dint, 0xb982ade8cb64566e9d7ccc2f6eba408efc805b5585ede09532301af7e2590e1fd7a2bb06860aa04618bcc35b857b721int, 0xec7ce78f32b7b907bb8b14747a3cdc98137d78af791777c80a50829cd835b40c6a68aae88913e7baae4d3dbfe44885fint);
    lemma_times_root_step(r, 0xd0088f51cbff34d258dd3db21a5d66bb23ba5c279c2894nat, 0x18b54df8ce574e1ed23bcb7989e92a85f02513717723958a51d7a1c3d575b05831c396efbac204efe40e462b9da5552dint, 0xb982ade8cb64566e9d7ccc2f6eba408efc805b5585ede09532301af7e2590e1fd7a2bb06860aa04618bcc35b857b721int, 0xec7ce78f32b7b907bb8b14747a3cdc98137d78af791777c80a50829cd835b40c6a68aae88913e7baae4d3dbfe44885fint, 0xa9de8f58d06bb499df34dfae6cc23811d6e42171cc0c8df878688257fb22d75c0f13390cd0cc8c959aae60c064a89a7int, 0x12a04c3fff66e3469c179b02d39f93d36e631e0096ac603d98e7eb9c9206ecb2c0e7039357f22943d6570b95b425b0int, 0xb982ade8cb64566e9d7ccc2f6eba408efc805b5585ede09532301af7e2590e1fd7a2bb06860aa04618bcc35b857b721int);
}

#[verifier::rlimit(40)]
proof fn lemma_root_pow_part_69(r: int)
    requires
        cong(iso_cubic(r), 0),
    ensures
        cong(pow(r, 0x340223d472ffcd3496374f6c869759aec8ee9709e70a257nat), quad(0x18317e54170b0a8b3455cb9bc91f5ca88cb3ac71e28727fbee47be644af125da1917cd6628dbd4995f898a6b050f2af2int, 0x24df9a3b2ee5e543f2b669e23a7d20bf1d2597782b6fc0b5e0e3609ac6ca84c970a5854bb24c78a0bc4fd48b6eb99a5int, 0x1357dee5bb48e8b8a55f269c1e1cacdffd4647eac244064cf3aa24e79ddc3b7c03f9bcac2183f5adbeceefac1082a1c0int, r)),
{
    lemma_root_pow_part_68(r);
    lemma_square_step(r, 0xd0088f51cbff34d258dd3db21a5d66bb23ba5c279c2895nat, 0xa9de8f58d06bb499df34dfae6cc23811d6e42171cc0c8df878688257fb22d75c0f13390cd0cc8c959aae60c064a89a7int, 0x12a04c3fff66e3469c179b02d39f93d36e631e0096ac603d98e7eb9c9206ecb2c0e7039357f22943d6570b95b425b0int, 0xb982ade8cb64566e9d7ccc2f6eba408efc805b5585ede09532301af7e2590e1fd7a2bb06860aa04618bcc35b857b721int, 0x151fe46dc698b83a3c796b7ca4f7655da77fffe7452178c07e3824637180a123381c84528163d310517c29b4346a476eint, 0x142a38300d4927201c72eee1c866e8b8586d232bb80b20eb4265749486756ffa3115b6841fe7232fecda1de411bc4474int, 0x11bd0bdee44aa6c2a9046b0f43f0828e113d25f79c2f2cfc85e34896639dcdef9273fab262fba0d975d218abdaad4304int);
    lemma_times_root_step(r, 0x1a0111ea397fe69a4b1ba7b6434bacd764774b84f38512anat, 0x151fe46dc698b83a3c796b7ca4f7655da77fffe7452178c07e3824637180a123381c84528163d310517c29b4346a476eint, 0x142a38300d4927201c72eee1c866e8b8586d232bb80b20eb4265749486756ffa3115b6841fe7232fecda1de411bc4474int, 0x11bd0bdee44aa6c2a9046b0f43f0828e113d25f79c2f2cfc85e34896639dcdef9273fab262fba0d975d218abdaad4304int, 0x24bee2c5e1a2172b1cca4af9f433230230e304386febca6b9b9a672e9283e0b7c605e8bba3f66a1e242e5400f29b974int, 0x14d8b6acc4b0ac5da57ffdb98f286424fe94af9e5628e4deafca3a6b27a9e44508062bb5b3ac4ada369ff9a2afd528a0int, 0x142a38300d4927201c72eee1c866e8b8586d232bb80b20eb4265749486756ffa3115b6841fe7232fecda1de411bc4474int);
    lemma_square_step(r, 0x1a0111ea397fe69a4b1ba7b6434bacd764774b84f38512bnat, 0x24bee2c5e1a2172b1cca4af9f433230230e304386febca6b9b9a672e9283e0b7c605e8bba3f66a1e242e5400f29b974int, 0x14d8b6acc4b0ac5da57ffdb98f286424fe94af9e5628e4deafca3a6b27a9e44508062bb5b3ac4ada369ff9a2afd528a0int, 0x142a38300d4927201c72eee1c866e8b8586d232bb80b20eb4265749486756ffa3115b6841fe7232fecda1de411bc4474int, 0xb8f73429bc07c55b6e767de5d551e4feadc8941e37b14cfc3132ae14427b15acc87e2717a5d43842045ff5cf8072ea1int, 0x1357dee5bb48e8b8a55f269c1e1cacdffd4647eac244064cf3aa24e79ddc3b7c03f9bcac2183f5adbeceefac1082a1c0int, 0x34304e2f8f622bc96b04b3fafdbfbc10215e4909ec98bebd8bd5bb03e35eb304b339065bcc3443b6bf47bd2f8141fc8int);
    lemma_times_root_step(r, 0x340223d472ffcd3496374f6c869759aec8ee9709e70a256nat, 0xb8f73429bc07c55b6e767de5d551e4feadc8941e37b14cfc3132ae14427b15acc87e2717a5d43842045ff5cf8072ea1int, 0x1357dee5bb48e8b8a55f269c1e1cacdffd4647eac244064cf3aa24e79ddc3b7c03f9bcac2183f5adbeceefac1082a1c0int, 0x34304e2f8f622bc96b04b3fafdbfbc10215e4909ec98bebd8bd5bb03e35eb304b339065bcc3443b6bf47bd2f8141fc8int, 0x18317e54170b0a8b3455cb9bc91f5ca88cb3ac71e28727fbee47be644af125da1917cd6628dbd4995f898a6b050f2af2int, 0x24df9a3b2ee5e543f2b669e23a7d20bf1d2597782b6fc0b5e0e3609ac6ca84c970a5854bb24c78a0bc4fd48b6eb99a5int, 0x1357dee5bb48e8b8a55f269c1e1cacdffd4647eac244064cf3aa24e79ddc3b7c03f9bcac2183f5adbeceefac1082a1c0int);
}

#[verifier::rlimit(40)]
proof fn lemma_root_pow_part_70(r: int)
    requires
        cong(iso_cubic(r), 0),
    ensures
        cong(pow(r, 0xd0088f51cbff34d258dd3db21a5d66bb23ba5c279c2895fnat), quad(0x1040012fc95be0dad9388bf7c1a74f6c081240b7e7b2a5bbd9eadb9e9cbf451a7180881559cb9977d9fcb263696f8b7dint, 0x362dd6be2aca18a3770839b6d17d80717471b200b03cddbc1ba68b40ba0834363d27c72b77ac7f13484a67c90928b96int, 0x66f4f48210a33f29d980b024f6bdba2b5f9c9346c3cb4dc9c14dfe058e83911871bb6efce84d4cafb0971949facabc9int, r)),
{
    lemma_root_pow_part_69(r);
    lemma_square_step(r, 0x340223d472ffcd3496374f6c869759aec8ee9709e70a257nat, 0x18317e54170b0a8b3455cb9bc91f5ca88cb3ac71e28727fbee47be644af125da1917cd6628dbd4995f898a6b050f2af2int, 0x24df9a3b2ee5e543f2b669e23a7d20bf1d2597782b6fc0b5e0e3609ac6ca84c970a5854bb24c78a0bc4fd48b6eb99a5int, 0x1357dee5bb48e8b8a55f269c1e1cacdffd4647eac244064cf3aa24e79ddc3b7c03f9bcac2183f5adbeceefac1082a1c0int, 0x7291fd1e4696c3806941d454e3aafae6c867109c7059726b855404e4c938dab7ae9549c4013ab10a91751a401e71806int, 0x8252b0f65386b57d9db13fcb42950aea9591b56cc4a840ad8901cd63a43c9ea610897949846fed3ebdc44e10b57ef3dint, 0x874b5f26253288f02e55d4a12eaeaa7ad94b02428906ebfaee842ab2b766fb6e2b83351c06e1d352a915ac25621fbf5int);
    lemma_times_root_step(r, 0x680447a8e5ff9a692c6e9ed90d2eb35d91dd2e13ce144aenat, 0x7291fd1e4696c3806941d454e3aafae6c867109c7059726b855404e4c938dab7ae9549c4013ab10a91751a401e71806int, 0x8252b0f65386b57d9db13fcb42950aea9591b56cc4a840ad8901cd63a43c9ea610897949846fed3ebdc44e10b57ef3dint, 0x874b5f26253288f02e55d4a12eaeaa7ad94b02428906ebfaee842ab2b766fb6e2b83351c06e1d352a915ac25621fbf5int, 0xe85b98f8b5cde77b08e2645a6c069a7c2006152fc2dafdc9ffc8df653b62c98a8e92a870b20d400d0ea86a35ea49023int, 0x1247d6677946afc11af81f9fb5800b0437e24756216fbdc2d1f6d566f898e8dbbdee617ca8c24da91918bb7f4b9a3078int, 0x8252b0f65386b57d9db13fcb42950aea9591b56cc4a840ad8901cd63a43c9ea610897949846fed3ebdc44e10b57ef3dint);
    lemma_square_step(r, 0x680447a8e5ff9a692c6e9ed90d2eb35d91dd2e13ce144afnat, 0xe85b98f8b5cde77b08e2645a6c069a7c2006152fc2dafdc9ffc8df653b62c98a8e92a870b20d400d0ea86a35ea49023int, 0x1247d6677946afc11af81f9fb5800b0437e24756216fbdc2d1f6d566f898e8dbbdee617ca8c24da91918bb7f4b9a3078int, 0x8252b0f65386b57d9db13fcb42950aea9591b56cc4a840ad8901cd63a43c9ea610897949846fed3ebdc44e10b57ef3dint, 0x230d12b542b3b390ffe94bbb1162f0cd3d12ebfb09f19915324100ff0bece3f99d9a948c4146bc1e4943efb18aee822int, 0x66f4f48210a33f29d980b024f6bdba2b5f9c9346c3cb4dc9c14dfe058e83911871bb6efce84d4cafb0971949facabc9int, 0x13dccaabd908b08e45ab4f28ce4da116b6fb966499f7b152342da55ace9be27e53854edb1f5a35aa18b7a4590f3db6beint);
    lemma_times_root_step(r, 0xd0088f51cbff34d258dd3db21a5d66bb23ba5c279c2895enat, 0x230d12b542b3b390ffe94bbb1162f0cd3d12ebfb09f19915324100ff0bece3f99d9a948c4146bc1e4943efb18aee822int, 0x66f4f48210a33f29d980b024f6bdba2b5f9c9346c3cb4dc9c14dfe058e83911871bb6efce84d4cafb0971949facabc9int, 0x13dccaabd908b08e45ab4f28ce4da116b6fb966499f7b152342da55ace9be27e53854edb1f5a35aa18b7a4590f3db6beint, 0x1040012fc95be0dad9388bf7c1a74f6c081240b7e7b2a5bbd9eadb9e9cbf451a7180881559cb9977d9fcb263696f8b7dint, 0x362dd6be2aca18a3770839b6d17d80717471b200b03cddbc1ba68b40ba0834363d27c72b77ac7f13484a67c90928b96int, 0x66f4f48210a33f29d980b024f6bdba2b5f9c9346c3cb4dc9c14dfe058e83911871bb6efce84d4cafb0971949facabc9int);
}

#[verifier::rlimit(40)]
proof fn lemma_root_pow_part_71(r: int)
    requires
        cong(iso_cubic(r), 0),
    ensures
        cong(pow(r, 0x680447a8e5ff9a692c6e9ed90d2eb35d91dd2e13ce144afcnat), quad(0xbf581ffb2b9333bc7063d512eb6f62162156e17ba2a1ecaf6cf03a7ba11fad3700433392453eca197f695448584cee7int, 0x5a8263f5b5180cfbc834f5a1a3a517c425627c6019905c825ccd9518926bb594390dfcdc8a33b08d4fb1aa42673fb29int, 0x12604cbfead46c82f6c1951ceac2264af85ff1d9a25aa2d284573413fc6bb2d5149003547f397e5000be439d51192e50int, r)),
{
    lemma_root_pow_part_70(r);
    lemma_square_step(r, 0xd0088f51cbff34d258dd3db21a5d66bb23ba5c279c2895fnat, 0x1040012fc95be0dad9388bf7c1a74f6c081240b7e7b2a5bbd9eadb9e9cbf451a7180881559cb9977d9fcb263696f8b7dint, 0x362dd6be2aca18a3770839b6d17d80717471b200b03cddbc1ba68b40ba0834363d27c72b77ac7f13484a67c90928b96int, 0x66f4f48210a33f29d980b024f6bdba2b5f9c9346c3cb4dc9c14dfe058e83911871bb6efce84d4cafb0971949facabc9int, 0x669946e974611f41066cb4b1f1440ddab7bb7757742b397a0c17166b07139c17f10249fb39e8dd026113367046726e6int, 0x17798bcebe2fa4805e3e757c9ac5f73941abc6606de93704511c55e75d29c1cf3c4f908977ee70837a7cb89aadb00caaint, 0x1950339d75fe9fda9d5c49209c5e3c99032694e3c27c88a4b7f9bccdd459f8835b182753c8cb0693102e7787c75f2021int);
    lemma_times_root_step(r, 0x1a0111ea397fe69a4b1ba7b6434bacd764774b84f38512benat, 0x669946e974611f41066cb4b1f1440ddab7bb7757742b397a0c17166b07139c17f10249fb39e8dd026113367046726e6int, 0x17798bcebe2fa4805e3e757c9ac5f73941abc6606de93704511c55e75d29c1cf3c4f908977ee70837a7cb89aadb00caaint, 0x1950339d75fe9fda9d5c49209c5e3c99032694e3c27c88a4b7f9bccdd459f8835b182753c8cb0693102e7787c75f2021int, 0xb4fee8bfc887525fec75bcd3e46c61ba9c7769631e443fb2237579baffc65d1768a0bcfdd5875b28890008a8a4ca2f2int, 0x165c29f50b67f5f86475dbf68e3c6dfeb2c28e00a19c6d43c490da2712989af9d19e6de6481be7891782f8566f9d313aint, 0x17798bcebe2fa4805e3e757c9ac5f73941abc6606de93704511c55e75d29c1cf3c4f908977ee70837a7cb89aadb00caaint);
    lemma_square_step(r, 0x1a0111ea397fe69a4b1ba7b6434bacd764774b84f38512bfnat, 0xb4fee8bfc887525fec75bcd3e46c61ba9c7769631e443fb2237579baffc65d1768a0bcfdd5875b28890008a8a4ca2f2int, 0x165c29f50b67f5f86475dbf68e3c6dfeb2c28e00a19c6d43c490da2712989af9d19e6de6481be7891782f8566f9d313aint, 0x17798bcebe2fa4805e3e757c9ac5f73941abc6606de93704511c55e75d29c1cf3c4f908977ee70837a7cb89aadb00caaint, 0xc560dbb136aab213dcf30ddcfe5396f6973924fff3e43332f6a84f1c9e745258f72685e2fdbf389fde09db3d07192b2int, 0x1834e3b757303510643df5e1f2cbbe7e23c4fe5d3110c8f38b044ab45cba6cc5e0e49d340204a81cc24f7133fd27f619int, 0x1131570ed7e5dbcd067fb718afaebc235cdeef3a1c9a9327fb5e928838b49c1f53191d84251482001e3fe9cfc397ea55int);
    lemma_square_step(r, 0x340223d472ffcd3496374f6c869759aec8ee9709e70a257enat, 0xc560dbb136aab213dcf30ddcfe5396f6973924fff3e43332f6a84f1c9e745258f72685e2fdbf389fde09db3d07192b2int, 0x1834e3b757303510643df5e1f2cbbe7e23c4fe5d3110c8f38b044ab45cba6cc5e0e49d340204a81cc24f7133fd27f619int, 0x1131570ed7e5dbcd067fb718afaebc235cdeef3a1c9a9327fb5e928838b49c1f53191d84251482001e3fe9cfc397ea55int, 0xbf581ffb2b9333bc7063d512eb6f62162156e17ba2a1ecaf6cf03a7ba11fad3700433392453eca197f695448584cee7int, 0x5a8263f5b5180cfbc834f5a1a3a517c425627c6019905c825ccd9518926bb594390dfcdc8a33b08d4fb1aa42673fb29int, 0x12604cbfead46c82f6c1951ceac2264af85ff1d9a25aa2d284573413fc6bb2d5149003547f397e5000be439d51192e50int);
}

#[verifier::rlimit(40)]
proof fn lemma_root_pow_part_72(r: int)
    requires
        cong(iso_cubic(r), 0),
    ensures
        cong(pow(r, 0x1a0111ea397fe69a4b1ba7b6434bacd764774b84f38512bf6nat), quad(0x13e03bdf7f02362ea497652831a6db142e574b2597455bb52efa37d69497f7fc636fb873508ac4163549a842be7ee5f0int, 0x141f1731307f97993be220308e80f7f7a798e06d7b41cc4294039e3062c456fffdf219dca67b404d206466a5ec900300int, 0x18182c3ca43f1ebcaa5672622970131bc3ea929cd899e1b4b81616654ed24994e921ff55e0277396bd54870352fde3d9int, r)),
{
    lemma_root_pow_part_71(r);
    lemma_times_root_step(r, 0x680447a8e5ff9a692c6e9ed90d2eb35d91dd2e13ce144afcnat, 0xbf581ffb2b9333bc7063d512eb6f62162156e17ba2a1ecaf6cf03a7ba11fad3700433392453eca197f695448584cee7int, 0x5a8263f5b5180cfbc834f5a1a3a517c425627c6019905c825ccd9518926bb594390dfcdc8a33b08d4fb1aa42673fb29int, 0x12604cbfead46c82f6c1951ceac2264af85ff1d9a25aa2d284573413fc6bb2d5149003547f397e5000be439d51192e50int, 0x14d4c895bf912f02ccc1e655323ed915753205c0d1d78778e9571ac0e1a13c1617ea12cd25ecc41b4fc58856ac671c66int, 0x11ee491d0258d2a02538474a121bc55d1af404828324abf2d68c74a7186109d16fdda9fcd7aae08d2cd0595f226b9b6fint, 0x5a8263f5b5180cfbc834f5a1a3a517c425627c6019905c825ccd9518926bb594390dfcdc8a33b08d4fb1aa42673fb29int);
    lemma_square_step(r, 0x680447a8e5ff9a692c6e9ed90d2eb35d91dd2e13ce144afdnat, 0x14d4c895bf912f02ccc1e655323ed915753205c0d1d78778e9571ac0e1a13c1617ea12cd25ecc41b4fc58856ac671c66int, 0x11ee491d0258d2a02538474a121bc55d1af404828324abf2d68c74a7186109d16fdda9fcd7aae08d2cd0595f226b9b6fint, 0x5a8263f5b5180cfbc834f5a1a3a517c425627c6019905c825ccd9518926bb594390dfcdc8a33b08d4fb1aa42673fb29int, 0x1410e03322b4e2bbebd8ace630eaa11c88692eb77199f535a7dc628a259638ebae10a6588454cd8b13f13d4bdba97e66int, 0x6dc869d743a7123f0af85c98693c29182e6ec8fd89f3fcfb3af4e027e6d01fb05b19abf1579f970fdcc0657e8500ba8int, 0xf21e47f72845bdb928a79b72373ab808c811fbce713bde7798e6879d34eb9bb52ab7f5f767a8d26d535e606dccade04int);
    lemma_times_root_step(r, 0xd0088f51cbff34d258dd3db21a5d66bb23ba5c279c2895fanat, 0x1410e03322b4e2bbebd8ace630eaa11c88692eb77199f535a7dc628a259638ebae10a6588454cd8b13f13d4bdba97e66int, 0x6dc869d743a7123f0af85c98693c29182e6ec8fd89f3fcfb3af4e027e6d01fb05b19abf1579f970fdcc0657e8500ba8int, 0xf21e47f72845bdb928a79b72373ab808c811fbce713bde7798e6879d34eb9bb52ab7f5f767a8d26d535e606dccade04int, 0x18b0d30902375bc2e0ff69850e869bc899341b5c106b09909c78f742e44901f47cec45255c8f517007eb3b91eee3825cint, 0xd6957564287646229012310318db9aa1ccb93020a85fbbd9a2262f061fbbaed4e68a17bc3e1401e67b1c63e58246cefint, 0x6dc869d743a7123f0af85c98693c29182e6ec8fd89f3fcfb3af4e027e6d01fb05b19abf1579f970fdcc0657e8500ba8int);
    lemma_square_step(r, 0xd0088f51cbff34d258dd3db21a5d66bb23ba5c279c2895fbnat, 0x18b0d30902375bc2e0ff69850e869bc899341b5c106b09909c78f742e44901f47cec45255c8f517007eb3b91eee3825cint, 0xd6957564287646229012310318db9aa1ccb93020a85fbbd9a2262f061fbbaed4e68a17bc3e1401e67b1c63e58246cefint, 0x6dc869d743a7123f0af85c98693c29182e6ec8fd89f3fcfb3af4e027e6d01fb05b19abf1579f970fdcc0657e8500ba8int, 0x13e03bdf7f02362ea497652831a6db142e574b2597455bb52efa37d69497f7fc636fb873508ac4163549a842be7ee5f0int, 0x141f1731307f97993be220308e80f7f7a798e06d7b41cc4294039e3062c456fffdf219dca67b404d206466a5ec900300int, 0x18182c3ca43f1ebcaa5672622970131bc3ea929cd899e1b4b81616654ed24994e921ff55e0277396bd54870352fde3d9int);
}

#[verifier::rlimit(40)]
proof fn lemma_root_pow_part_73(r: int)
    requires
        cong(iso_cubic(r), 0),
    ensures
        cong(pow(r, 0xd0088f51cbff34d258dd3db21a5d66bb23ba5c279c2895fb2nat), quad(0xf81a939dd4bdbe783fd9ff6bbc690dd3ecd6543badb1ceb0e676d5eda802c0bc6bb08fb18ab6593c48181f1ef7d40b5int, 0x7d1393d4af06376f40bb613bc1308b536f81b0dacb30bcf886dcdf5c8b6e31c87ade5d2ffb3a25ef49c6413e10583e9int, 0xed93fd2010956deae5129e89e0d9a59aafcf1d0b89d4882fdc7315f73820014d6ba9cfa668f1594b659b265461abcbcint, r)),
{
    lemma_root_pow_part_72(r);
    lemma_square_step(r, 0x1a0111ea397fe69a4b1ba7b6434bacd764774b84f38512bf6nat, 0x13e03bdf7f02362ea497652831a6db142e574b2597455bb52efa37d69497f7fc636fb873508ac4163549a842be7ee5f0int, 0x141f1731307f97993be220308e80f7f7a798e06d7b41cc4294039e3062c456fffdf219dca67b404d206466a5ec900300int, 0x18182c3ca43f1ebcaa5672622970131bc3ea929cd899e1b4b81616654ed24994e921ff55e0277396bd54870352fde3d9int, 0x18c55f9e866258274c77ef8a7a52544182ea4fc75722f2286e0006051ac85c72abca0208a5bfdfdae8412d0d207e868fint, 0xf2bb940874dab7b891e5423b2b663d52710130c0d366fe8d83b7df496a8e92656eb2df40651806539c593518f1ab564int, 0x30886dc83d2b3e780481bf9825bbe44a3892718407e243019f3b83d6d3b9cbc94389fbfbb5d43d40b825dba7ee2bbefint);
    lemma_square_step(r, 0x340223d472ffcd3496374f6c869759aec8ee9709e70a257ecnat, 0x18c55f9e866258274c77ef8a7a52544182ea4fc75722f2286e0006051ac85c72abca0208a5bfdfdae8412d0d207e868fint, 0xf2bb940874dab7b891e5423b2b663d52710130c0d366fe8d83b7df496a8e92656eb2df40651806539c593518f1ab564int, 0x30886dc83d2b3e780481bf9825bbe44a3892718407e243019f3b83d6d3b9cbc94389fbfbb5d43d40b825dba7ee2bbefint, 0x2193b6ac1c5f04bda08234ab20458007404fe77d8194ac19837ca229e2d3eb84399599ffcc447467fcd16cf7f205cd1int, 0x1203a783ec8e26f85b193d72bebe58c4c89274b1b7a34720ed2397c567a7ae60241d003a3cfe6e461d6e6d9e89a8ef62int, 0x1763e803029354da5be92cf5fe549bc132bd6b6def3f80411b69440db86b0afcb47a41618e8c1d66e6a5aab5842df336int);
    lemma_times_root_step(r, 0x680447a8e5ff9a692c6e9ed90d2eb35d91dd2e13ce144afd8nat, 0x2193b6ac1c5f04bda08234ab20458007404fe77d8194ac19837ca229e2d3eb84399599ffcc447467fcd16cf7f205cd1int, 0x1203a783ec8e26f85b193d72bebe58c4c89274b1b7a34720ed2397c567a7ae60241d003a3cfe6e461d6e6d9e89a8ef62int, 0x1763e803029354da5be92cf5fe549bc132bd6b6def3f80411b69440db86b0afcb47a41618e8c1d66e6a5aab5842df336int, 0x14ed1aa2a65657978e9592de7eb08ffa49a780b2c92af8b72de6186c8c346b71bc2e0b0f1217b8eeedd0b7393f6e88b5int, 0x5498bc41cd09ab61c1eda531217002828b4d6b6feff032e44fde08b46fa9e773be18b7365fa65c77cfb086a4797fe9cint, 0x1203a783ec8e26f85b193d72bebe58c4c89274b1b7a34720ed2397c567a7ae60241d003a3cfe6e461d6e6d9e89a8ef62int);
    lemma_square_step(r, 0x680447a8e5ff9a692c6e9ed90d2eb35d91dd2e13ce144afd9nat, 0x14ed1aa2a65657978e9592de7eb08ffa49a780b2c92af8b72de6186c8c346b71bc2e0b0f1217b8eeedd0b7393f6e88b5int, 0x5498bc41cd09ab61c1eda531217002828b4d6b6feff032e44fde08b46fa9e773be18b7365fa65c77cfb086a4797fe9cint, 0x1203a783ec8e26f85b193d72bebe58c4c89274b1b7a34720ed2397c567a7ae60241d003a3cfe6e461d6e6d9e89a8ef62int, 0xf81a939dd4bdbe783fd9ff6bbc690dd3ecd6543badb1ceb0e676d5eda802c0bc6bb08fb18ab6593c48181f1ef7d40b5int, 0x7d1393d4af06376f40bb613bc1308b536f81b0dacb30bcf886dcdf5c8b6e31c87ade5d2ffb3a25ef49c6413e10583e9int, 0xed93fd2010956deae5129e89e0d9a59aafcf1d0b89d4882fdc7315f73820014d6ba9cfa668f1594b659b265461abcbcint);
}

#[verifier::rlimit(40)]
proof fn lemma_root_pow_part_74(r: int)
    requires
        cong(iso_cubic(r), 0),
    ensures
        cong(pow(r, 0x340223d472ffcd3496374f6c869759aec8ee9709e70a257ecenat), quad(0xbd2fa9875d271dc32b11b0359c5520e37d0a72ac5dd457dd429a343567fe82d067941a89d6a7d652100a2cbecbbf641int, 0x16461e24dd75efe156d05b1dc9cc7afe477d1f779b36d007eb5d9b7f9056f99894c2b4f725e91d3f70d548f3cf66af9dint, 0x102d1407f8087cbd32d80f62777b6678a2a48819353cfd8a9db41b95f5c9474d899ea78551f86cccc6b04f8908f97fe6int, r)),
{
    lemma_root_pow_part_73(r);
    lemma_times_root_step(r, 0xd0088f51cbff34d258dd3db21a5d66bb23ba5c279c2895fb2nat, 0xf81a939dd4bdbe783fd9ff6bbc690dd3ecd6543badb1ceb0e676d5eda802c0bc6bb08fb18ab6593c48181f1ef7d40b5int, 0x7d1393d4af06376f40bb613bc1308b536f81b0dacb30bcf886dcdf5c8b6e31c87ade5d2ffb3a25ef49c6413e10583e9int, 0xed93fd2010956deae5129e89e0d9a59aafcf1d0b89d4882fdc7315f73820014d6ba9cfa668f1594b659b265461abcbcint, 0x160f98f4c6b4f4b91bb7208287906f3c400b1c5795d2affc067f26f044921f162028a599a7c740e249912c30f309655eint, 0x12670e85ea98a3a364def03261836b58f5fa55f038cbd5f699f77d1618df612489da37c9834d803f55f116e6d1168bb2int, 0x7d1393d4af06376f40bb613bc1308b536f81b0dacb30bcf886dcdf5c8b6e31c87ade5d2ffb3a25ef49c6413e10583e9int);
    lemma_square_step(r, 0xd0088f51cbff34d258dd3db21a5d66bb23ba5c279c2895fb3nat, 0x160f98f4c6b4f4b91bb7208287906f3c400b1c5795d2affc067f26f044921f162028a599a7c740e249912c30f309655eint, 0x12670e85ea98a3a364def03261836b58f5fa55f038cbd5f699f77d1618df612489da37c9834d803f55f116e6d1168bb2int, 0x7d1393d4af06376f40bb613bc1308b536f81b0dacb30bcf886dcdf5c8b6e31c87ade5d2ffb3a25ef49c6413e10583e9int, 0xae613832346373357d386f25ba67924295ba039464290310728ff37b1ddc0fb8f30ce6c8d28ddfe2e330407b610b4f0int, 0x129e523e38514ee7a29975c57eba3adceeb6605ff2a989dfd8e3714b23dd3a0e741b25991e4004af78271320a7af75dcint, 0x16836b143ae2a15c3f6cbf156bbc9e1ff5d9bccbae425dea5279a42ac1c6246f363d92aa117036b100f6da851a2088dbint);
    lemma_times_root_step(r, 0x1a0111ea397fe69a4b1ba7b6434bacd764774b84f38512bf66nat, 0xae613832346373357d386f25ba67924295ba039464290310728ff37b1ddc0fb8f30ce6c8d28ddfe2e330407b610b4f0int, 0x129e523e38514ee7a29975c57eba3adceeb6605ff2a989dfd8e3714b23dd3a0e741b25991e4004af78271320a7af75dcint, 0x16836b143ae2a15c3f6cbf156bbc9e1ff5d9bccbae425dea5279a42ac1c6246f363d92aa117036b100f6da851a2088dbint, 0xceb1e3b0f9874c41bb8fd73ab27ab5afd9836ba60c49313cc72b0b30dec1d1727b5eb3cdc3d385cc29df40ef3c98f4eint, 0x192ddb9fcf4f015e13a291cd2ed3841130413af2655f334fb6d19f8d65f3b03e39411989e40e71aaacaf8a9fe3641d03int, 0x129e523e38514ee7a29975c57eba3adceeb6605ff2a989dfd8e3714b23dd3a0e741b25991e4004af78271320a7af75dcint);
    lemma_square_step(r, 0x1a0111ea397fe69a4b1ba7b6434bacd764774b84f38512bf67nat, 0xceb1e3b0f9874c41bb8fd73ab27ab5afd9836ba60c49313cc72b0b30dec1d1727b5eb3cdc3d385cc29df40ef3c98f4eint, 0x192ddb9fcf4f015e13a291cd2ed3841130413af2655f334fb6d19f8d65f3b03e39411989e40e71aaacaf8a9fe3641d03int, 0x129e523e38514ee7a29975c57eba3adceeb6605ff2a989dfd8e3714b23dd3a0e741b25991e4004af78271320a7af75dcint, 0xbd2fa9875d271dc32b11b0359c5520e37d0a72ac5dd457dd429a343567fe82d067941a89d6a7d652100a2cbecbbf641int, 0x16461e24dd75efe156d05b1dc9cc7afe477d1f779b36d007eb5d9b7f9056f99894c2b4f725e91d3f70d548f3cf66af9dint, 0x102d1407f8087cbd32d80f62777b6678a2a48819353cfd8a9db41b95f5c9474d899ea78551f86cccc6b04f8908f97fe6int);
}

#[verifier::rlimit(40)]
proof fn lemma_root_pow_part_75(r: int)
    requires
        cong(iso_cubic(r), 0),
    ensures
        cong(pow(r, 0x1a0111ea397fe69a4b1ba7b6434bacd764774b84f38512bf672nat), quad(0x1018b7b9f0521b65a5d75f5528a31804be2ffba8a8711acfd8cddb07566004012c428b3a54177c2f2332633c86bd2b5int, 0x127ac3c11e1cd381378bd55ea930399d5298f6237b6a83db2f604a90530e8e0fd0fb1e4647e2c89be18941acaa712ee0int, 0xa9129316dbab8cbb937ee88628b2a616c1a1f6e5a93222647c1da02a5f2b17c55dba230254a675ed73749345ddc4463int, r)),
{
    lemma_root_pow_part_74(r);
    lemma_square_step(r, 0x340223d472ffcd3496374f6c869759aec8ee9709e70a257ecenat, 0xbd2fa9875d271dc32b11b0359c5520e37d0a72ac5dd457dd429a343567fe82d067941a89d6a7d652100a2cbecbbf641int, 0x16461e24dd75efe156d05b1dc9cc7afe477d1f779b36d007eb5d9b7f9056f99894c2b4f725e91d3f70d548f3cf66af9dint, 0x102d1407f8087cbd32d80f62777b6678a2a48819353cfd8a9db41b95f5c9474d899ea78551f86cccc6b04f8908f97fe6int, 0x219b13c9bb514d989b4c819be66f4cdd2294a6d957cd2e25db41219df114da5d41f80c93a10ca6aaf3482a78f90b176int, 0x124c2fbffae8e9a0a0692c3ed61b5998495163cb02e193ed8f605a10367353562a527c54529d204ad41376ae09f50cfeint, 0x6cd7d4c4908276599b3d1b1ecb7fc87315b3f5f26351c73d087b836f9c680cf10e579e665aab70e5dc38f64bb6ceb7aint);
    lemma_square_step(r, 0x680447a8e5ff9a692c6e9ed90d2eb35d91dd2e13ce144afd9cnat, 0x219b13c9bb514d989b4c819be66f4cdd2294a6d957cd2e25db41219df114da5d41f80c93a10ca6aaf3482a78f90b176int, 0x124c2fbffae8e9a0a0692c3ed61b5998495163cb02e193ed8f605a10367353562a527c54529d204ad41376ae09f50cfeint, 0x6cd7d4c4908276599b3d1b1ecb7fc87315b3f5f26351c73d087b836f9c680cf10e579e665aab70e5dc38f64bb6ceb7aint, 0xdca6d87bf88c7cdf990235216e8046c6133dd62d2a3d5ab857a58ad0ce7192f70d135ee1c633ec1c1c8eab83e977835int, 0x122419f0701b792eb49793fd3063cffb5ca127353f202c4d58dc226b93d2e455d7bda297c5c8a66ff44e261b1e8c71b9int, 0x1611c8c72060d96740aea00d557362a202ad817964a644d274d2390c86193e5741d0c91008be2150763025c6be84319eint);
    lemma_times_root_step(r, 0xd0088f51cbff34d258dd3db21a5d66bb23ba5c279c2895fb38nat, 0xdca6d87bf88c7cdf990235216e8046c6133dd62d2a3d5ab857a58ad0ce7192f70d135ee1c633ec1c1c8eab83e977835int, 0x122419f0701b792eb49793fd3063cffb5ca127353f202c4d58dc226b93d2e455d7bda297c5c8a66ff44e261b1e8c71b9int, 0x1611c8c72060d96740aea00d557362a202ad817964a644d274d2390c86193e5741d0c91008be2150763025c6be84319eint, 0x16b64b9e16b6f3ea6bd97988fa947810ae98f7d8666120f57bd049a47ce90dde36bb94828ef9408bd6b12b1ed6737262int, 0xc2af49d92629e5a5bcf76a4f046a89217211418da5b73b6bc67fa7f4c815cbb1c4569b1cf84a98d89a76174cd9c432cint, 0x122419f0701b792eb49793fd3063cffb5ca127353f202c4d58dc226b93d2e455d7bda297c5c8a66ff44e261b1e8c71b9int);
    lemma_square_step(r, 0xd0088f51cbff34d258dd3db21a5d66bb23ba5c279c2895fb39nat, 0x16b64b9e16b6f3ea6bd97988fa947810ae98f7d8666120f57bd049a47ce90dde36bb94828ef9408bd6b12b1ed6737262int, 0xc2af49d92629e5a5bcf76a4f046a89217211418da5b73b6bc67fa7f4c815cbb1c4569b1cf84a98d89a76174cd9c432cint, 0x122419f0701b792eb49793fd3063cffb5ca127353f202c4d58dc226b93d2e455d7bda297c5c8a66ff44e261b1e8c71b9int, 0x1018b7b9f0521b65a5d75f5528a31804be2ffba8a8711acfd8cddb07566004012c428b3a54177c2f2332633c86bd2b5int, 0x127ac3c11e1cd381378bd55ea930399d5298f6237b6a83db2f604a90530e8e0fd0fb1e4647e2c89be18941acaa712ee0int, 0xa9129316dbab8cbb937ee88628b2a616c1a1f6e5a93222647c1da02a5f2b17c55dba230254a675ed73749345ddc4463int);
}

#[verifier::rlimit(40)]
proof fn lemma_root_pow_part_76(r: int)
    requires
        cong(iso_cubic(r), 0),
    ensures
        cong(pow(r, 0xd0088f51cbff34d258dd3db21a5d66bb23ba5c279c2895fb398nat), quad(0xaa836db8545f4706a4a07cff3d82a4bdd16246c69e4bcab40f364aa59cc3b1ca17fcd74272d6db8a5a59a4fe9de0923int, 0x56744a24c2745692ad0ba74b5d5e197a8b15b6d5d4daaaf7f26adfdff202b3c4a39e4046356b2e2d3d337e54e4787d7int, 0x88de717e1808a6e4e974d6b810ed744d0a0f65a666fbc8f73d4c15d7e894d8d3cc302a5cecfbf764ab3d37eeca0d4f8int, r)),
{
    lemma_root_pow_part_75(r);
    lemma_times_root_step(r, 0x1a0111ea397fe69a4b1ba7b6434bacd764774b84f38512bf672nat, 0x1018b7b9f0521b65a5d75f5528a31804be2ffba8a8711acfd8cddb07566004012c428b3a54177c2f2332633c86bd2b5int, 0x127ac3c11e1cd381378bd55ea930399d5298f6237b6a83db2f604a90530e8e0fd0fb1e4647e2c89be18941acaa712ee0int, 0xa9129316dbab8cbb937ee88628b2a616c1a1f6e5a93222647c1da02a5f2b17c55dba230254a675ed73749345ddc4463int, 0x9f2c48ec07dc7b5b564089c0b6a3581eeed9066bd552d2dc97d51aeaa27e008c81154d056a68dec9b5667f46627af5eint, 0x13ea47997f59aad5931b495f164396de0761b7b34d8c83c8c80028c857460d39cb27737dba8e439ff5e4fdb0cf1a9230int, 0x127ac3c11e1cd381378bd55ea930399d5298f6237b6a83db2f604a90530e8e0fd0fb1e4647e2c89be18941acaa712ee0int);
    lemma_square_step(r, 0x1a0111ea397fe69a4b1ba7b6434bacd764774b84f38512bf673nat, 0x9f2c48ec07dc7b5b564089c0b6a3581eeed9066bd552d2dc97d51aeaa27e008c81154d056a68dec9b5667f46627af5eint, 0x13ea47997f59aad5931b495f164396de0761b7b34d8c83c8c80028c857460d39cb27737dba8e439ff5e4fdb0cf1a9230int, 0x127ac3c11e1cd381378bd55ea930399d5298f6237b6a83db2f604a90530e8e0fd0fb1e4647e2c89be18941acaa712ee0int, 0xf44ea90b292b67ee872235937159a4f1855e65e503012afb44404d9464b6d72ac4ea782eb7a08fd9714e9e10b0bab23int, 0xf866fc262f2f8cf37b9caf22f02d08b7c6388f73651394f5c96a5cef231b5a702d524437d6c30ac137cc959b6ef68d5int, 0x5876d35006e7354be4a3f1cce8deb44bc4df8ad2f9c7e99faace3ab32e3e7dccfc3e8cb8efa0d1a16c42f5ec4c73f7eint);
    lemma_square_step(r, 0x340223d472ffcd3496374f6c869759aec8ee9709e70a257ece6nat, 0xf44ea90b292b67ee872235937159a4f1855e65e503012afb44404d9464b6d72ac4ea782eb7a08fd9714e9e10b0bab23int, 0xf866fc262f2f8cf37b9caf22f02d08b7c6388f73651394f5c96a5cef231b5a702d524437d6c30ac137cc959b6ef68d5int, 0x5876d35006e7354be4a3f1cce8deb44bc4df8ad2f9c7e99faace3ab32e3e7dccfc3e8cb8efa0d1a16c42f5ec4c73f7eint, 0x437fc5e8e1b24f5dd84bf2b04a5db6fa9c17898206f418d7ee41ccbdb4a2da7965a0a76d6100410bcd9fe77cfc835d0int, 0x1211677d854952d86ec643fa8570f5392808d43d27c14cc45f80e03bc58e612520311a40b54d24113b2eb02db5939addint, 0xa4a9fcf484d711d568eb5833474257aa04e2747c72fc01b7fee15c380e748421459e093f020d706bceb57b880560253int);
    lemma_square_step(r, 0x680447a8e5ff9a692c6e9ed90d2eb35d91dd2e13ce144afd9ccnat, 0x437fc5e8e1b24f5dd84bf2b04a5db6fa9c17898206f418d7ee41ccbdb4a2da7965a0a76d6100410bcd9fe77cfc835d0int, 0x1211677d854952d86ec643fa8570f5392808d43d27c14cc45f80e03bc58e612520311a40b54d24113b2eb02db5939addint, 0xa4a9fcf484d711d568eb5833474257aa04e2747c72fc01b7fee15c380e748421459e093f020d706bceb57b880560253int, 0xaa836db8545f4706a4a07cff3d82a4bdd16246c69e4bcab40f364aa59cc3b1ca17fcd74272d6db8a5a59a4fe9de0923int, 0x56744a24c2745692ad0ba74b5d5e197a8b15b6d5d4daaaf7f26adfdff202b3c4a39e4046356b2e2d3d337e54e4787d7int, 0x88de717e1808a6e4e974d6b810ed744d0a0f65a666fbc8f73d4c15d7e894d8d3cc302a5cecfbf764ab3d37eeca0d4f8int);
}

#[verifier::rlimit(40)]
proof fn lemma_root_pow_part_77(r: int)
    requires
        cong(iso_cubic(r), 0),
    ensures
        cong(pow(r, 0x680447a8e5ff9a692c6e9ed90d2eb35d91dd2e13ce144afd9cc2nat), quad(0x1595d813787cbcfa18054351284e6fe2b6043530a17e3fd50ad1d057d1e30d643dbf3bc90417149cbc839f6895cd7b6bint, 0xedcc9da3a15c3d4bf3844b28794e9634ba5af097dd97f246f8d6c6016816afb56c1edd4a2a75c87d65658e7fc20ecfdint, 0x6c83ff95cf42fe60719dde49a86bf18bf8794e9d92a2413a7c74854e0eecfa5f8e378f2d0adf8a70f589e8ea20274c0int, r)),
{
    lemma_root_pow_part_76(r);
    lemma_square_step(r, 0xd0088f51cbff34d258dd3db21a5d66bb23ba5c279c2895fb398nat, 0xaa836db8545f4706a4a07cff3d82a4bdd16246c69e4bcab40f364aa59cc3b1ca17fcd74272d6db8a5a59a4fe9de0923int, 0x56744a24c2745692ad0ba74b5d5e197a8b15b6d5d4daaaf7f26adfdff202b3c4a39e4046356b2e2d3d337e54e4787d7int, 0x88de717e1808a6e4e974d6b810ed744d0a0f65a666fbc8f73d4c15d7e894d8d3cc302a5cecfbf764ab3d37eeca0d4f8int, 0x8124a0849dba8035822c66f220332a18ff0c0508cba65a9229a13223ebcd6e9d3e8c95c1215ceb9938114284baa232int, 0x3dc656c9e946bd0f1c2b8271333aa7399c5685102c72a740ed8e25a0ccbbfca880e699925870a9093fb990beb4f758bint, 0x13e65a30f1deb6db340d4022bd18df7a73faabb4909a356c74f4fdd3ff292cbd8deb33025f9959c539bec7fdbb04ff8eint);
    lemma_square_step(r, 0x1a0111ea397fe69a4b1ba7b6434bacd764774b84f38512bf6730nat, 0x8124a0849dba8035822c66f220332a18ff0c0508cba65a9229a13223ebcd6e9d3e8c95c1215ceb9938114284baa232int, 0x3dc656c9e946bd0f1c2b8271333aa7399c5685102c72a740ed8e25a0ccbbfca880e699925870a9093fb990beb4f758bint, 0x13e65a30f1deb6db340d4022bd18df7a73faabb4909a356c74f4fdd3ff292cbd8deb33025f9959c539bec7fdbb04ff8eint, 0x5ada3450512faa4b8ed58dea3dfc50d4ca22d1bbdb211b7774e0a70d32b4f1e82265dc93dc3b96d897af3e9a2ed9ce3int, 0x13ed9efa81c67385fa039ae6b14e72e7c8c2d015f2d293895e74bf3ec592672d393726083f9bce2a51cb68906a3fe4ecint, 0xd2483cb7747649722e3d34a677b59cd953f7a4b8bd408c82ddddfe20f87b4463882d07566bbce9f255ba4abdc012427int);
    lemma_times_root_step(r, 0x340223d472ffcd3496374f6c869759aec8ee9709e70a257ece60nat, 0x5ada3450512faa4b8ed58dea3dfc50d4ca22d1bbdb211b7774e0a70d32b4f1e82265dc93dc3b96d897af3e9a2ed9ce3int, 0x13ed9efa81c67385fa039ae6b14e72e7c8c2d015f2d293895e74bf3ec592672d393726083f9bce2a51cb68906a3fe4ecint, 0xd2483cb7747649722e3d34a677b59cd953f7a4b8bd408c82ddddfe20f87b4463882d07566bbce9f255ba4abdc012427int, 0x80d43983923a47052ee056b0f3d2d63cb41055210492d8d99dffe3db2178d0d3b3e8102650e0d77f8a1b951d4f42c0dint, 0x15ecc84f66e4f45b72a4c11b692e8887ddcf29b0845d53d1ce08f5574817124d5c8e2ee69de348fadcb392e25100bbcdint, 0x13ed9efa81c67385fa039ae6b14e72e7c8c2d015f2d293895e74bf3ec592672d393726083f9bce2a51cb68906a3fe4ecint);
    lemma_square_step(r, 0x340223d472ffcd3496374f6c869759aec8ee9709e70a257ece61nat, 0x80d43983923a47052ee056b0f3d2d63cb41055210492d8d99dffe3db2178d0d3b3e8102650e0d77f8a1b951d4f42c0dint, 0x15ecc84f66e4f45b72a4c11b692e8887ddcf29b0845d53d1ce08f5574817124d5c8e2ee69de348fadcb392e25100bbcdint, 0x13ed9efa81c67385fa039ae6b14e72e7c8c2d015f2d293895e74bf3ec592672d393726083f9bce2a51cb68906a3fe4ecint, 0x1595d813787cbcfa18054351284e6fe2b6043530a17e3fd50ad1d057d1e30d643dbf3bc90417149cbc839f6895cd7b6bint, 0xedcc9da3a15c3d4bf3844b28794e9634ba5af097dd97f246f8d6c6016816afb56c1edd4a2a75c87d65658e7fc20ecfdint, 0x6c83ff95cf42fe60719dde49a86bf18bf8794e9d92a2413a7c74854e0eecfa5f8e378f2d0adf8a70f589e8ea20274c0int);
}

#[verifier::rlimit(40)]
proof fn lemma_root_pow_part_78(r: int)
    requires
        cong(iso_cubic(r), 0),
    ensures
        cong(pow(r, 0x1a0111ea397fe69a4b1ba7b6434bacd764774b84f38512bf6730dnat), quad(0x4e9974a1d0c0e6179ed2300e23a8cb91d42942c2526c10c3e0186752389c8b296bc4c0862b5218ccf39943408f8a53aint, 0x14b3d77d14b662ee3b6b19a7ef9bc26e8d6f99765ed70860c4d43950931c6df82cdc8cdb7c84a09dcf4d826b1a7517a5int, 0xd6d3debac259bf4259f10bd1641b5007575b7b37114550340a29ea1082b93d7cedcbf4efd9c2bad7ef8957fce41d6bint, r)),
{
    lemma_root_pow_part_77(r);
    lemma_times_root_step(r, 0x680447a8e5ff9a692c6e9ed90d2eb35d91dd2e13ce144afd9cc2nat, 0x1595d813787cbcfa18054351284e6fe2b6043530a17e3fd50ad1d057d1e30d643dbf3bc90417149cbc839f6895cd7b6bint, 0xedcc9da3a15c3d4bf3844b28794e9634ba5af097dd97f246f8d6c6016816afb56c1edd4a2a75c87d65658e7fc20ecfdint, 0x6c83ff95cf42fe60719dde49a86bf18bf8794e9d92a2413a7c74854e0eecfa5f8e378f2d0adf8a70f589e8ea20274c0int, 0x144a9675087443c333147c8384b5a1dd3ba678e04f81973b2a1348dda8e460091207a57d9c908e74419b15c3ab3ef9caint, 0x1730d979f0b31fc2390ff37cd127760446e05bc7e95fe9e5c0b264c986abe0d438e3b005748bf7692c2ee9b6b5afe389int, 0xedcc9da3a15c3d4bf3844b28794e9634ba5af097dd97f246f8d6c6016816afb56c1edd4a2a75c87d65658e7fc20ecfdint);
    lemma_square_step(r, 0x680447a8e5ff9a692c6e9ed90d2eb35d91dd2e13ce144afd9cc3nat, 0x144a9675087443c333147c8384b5a1dd3ba678e04f81973b2a1348dda8e460091207a57d9c908e74419b15c3ab3ef9caint, 0x1730d979f0b31fc2390ff37cd127760446e05bc7e95fe9e5c0b264c986abe0d438e3b005748bf7692c2ee9b6b5afe389int, 0xedcc9da3a15c3d4bf3844b28794e9634ba5af097dd97f246f8d6c6016816afb56c1edd4a2a75c87d65658e7fc20ecfdint, 0x135afcf8054f00fd2d1fbdeff20a1864eb6c730b36c7da89c62d93814b056cf1c83a3498f614f730e8518ff4a37279eaint, 0x1776c7e4086d58402395dcee5216ee6005a05a317d9f874dc87fc58d6ccd0a7510f0eabb4db154e99c07e76173c5ee5dint, 0xff96b5522046e62aa63a6e01e29348ca36e2ad98dc66e9948829fdf55333c5aed29973ee3cc1c3223ee3e64d76d6148int);
    lemma_square_step(r, 0xd0088f51cbff34d258dd3db21a5d66bb23ba5c279c2895fb3986nat, 0x135afcf8054f00fd2d1fbdeff20a1864eb6c730b36c7da89c62d93814b056cf1c83a3498f614f730e8518ff4a37279eaint, 0x1776c7e4086d58402395dcee5216ee6005a05a317d9f874dc87fc58d6ccd0a7510f0eabb4db154e99c07e76173c5ee5dint, 0xff96b5522046e62aa63a6e01e29348ca36e2ad98dc66e9948829fdf55333c5aed29973ee3cc1c3223ee3e64d76d6148int, 0x886f6fe79ce81873031b08b11a3204174e34ea33c5c5b77754c3c63f46157308b4440644a86091dce1a0d3cae4e475fint, 0xd6d3debac259bf4259f10bd1641b5007575b7b37114550340a29ea1082b93d7cedcbf4efd9c2bad7ef8957fce41d6bint, 0x1361fbb662f4d6081c3c10cbcf307b036287604d35b716873e8efd0c7c7f672658ae3e501bbe36863f80030b5c69ddeint);
    lemma_times_root_step(r, 0x1a0111ea397fe69a4b1ba7b6434bacd764774b84f38512bf6730cnat, 0x886f6fe79ce81873031b08b11a3204174e34ea33c5c5b77754c3c63f46157308b4440644a86091dce1a0d3cae4e475fint, 0xd6d3debac259bf4259f10bd1641b5007575b7b37114550340a29ea1082b93d7cedcbf4efd9c2bad7ef8957fce41d6bint, 0x1361fbb662f4d6081c3c10cbcf307b036287604d35b716873e8efd0c7c7f672658ae3e501bbe36863f80030b5c69ddeint, 0x4e9974a1d0c0e6179ed2300e23a8cb91d42942c2526c10c3e0186752389c8b296bc4c0862b5218ccf39943408f8a53aint, 0x14b3d77d14b662ee3b6b19a7ef9bc26e8d6f99765ed70860c4d43950931c6df82cdc8cdb7c84a09dcf4d826b1a7517a5int, 0xd6d3debac259bf4259f10bd1641b5007575b7b37114550340a29ea1082b93d7cedcbf4efd9c2bad7ef8957fce41d6bint);
}

#[verifier::rlimit(40)]
proof fn lemma_root_pow_part_79(r: int)
    requires
        cong(iso_cubic(r), 0),
    ensures
        cong(pow(r, 0xd0088f51cbff34d258dd3db21a5d66bb23ba5c279c2895fb39869nat), quad(0x1962dad0f6497cffde383c8567443110f28107146506d0bbf0b9d2a8ee46910ddd3e2793ea91912f48809eeb527b9ed0int, 0x80214f5a57da034904e64c73601cc36952bd29dcf9b485c8e2073126bdbed56ef59c83f551dc487b2662c0fa7c4b7b2int, 0x962c31c9d20541c101680c96b93dbc4a87602eab7e1773a266da766580edf17f759c8b1381aa3e985f48a1df3b6f158int, r)),
{
    lemma_root_pow_part_78(r);
    lemma_square_step(r, 0x1a0111ea397fe69a4b1ba7b6434bacd764774b84f38512bf6730dnat, 0x4e9974a1d0c0e6179ed2300e23a8cb91d42942c2526c10c3e0186752389c8b296bc4c0862b5218ccf39943408f8a53aint, 0x14b3d77d14b662ee3b6b19a7ef9bc26e8d6f99765ed70860c4d43950931c6df82cdc8cdb7c84a09dcf4d826b1a7517a5int, 0xd6d3debac259bf4259f10bd1641b5007575b7b37114550340a29ea1082b93d7cedcbf4efd9c2bad7ef8957fce41d6bint, 0xf2a7e1f68043edceb6c865e21516d7a6815ece271f05354a47cb0fab69f9dc4c53e96c71c44cb913bd8fc606fb2a44bint, 0x14824c2e72c69dc78954abc588e85e2a3e78e293084039e698df112078a78db25bcd24fcc548330023384c587bc5419fint, 0x172974da5d11c07d80109f345fb50233066990c250cae407969efa174afe65f8d8e7fe40b5510fdb3685962f93058d30int);
    lemma_square_step(r, 0x340223d472ffcd3496374f6c869759aec8ee9709e70a257ece61anat, 0xf2a7e1f68043edceb6c865e21516d7a6815ece271f05354a47cb0fab69f9dc4c53e96c71c44cb913bd8fc606fb2a44bint, 0x14824c2e72c69dc78954abc588e85e2a3e78e293084039e698df112078a78db25bcd24fcc548330023384c587bc5419fint, 0x172974da5d11c07d80109f345fb50233066990c250cae407969efa174afe65f8d8e7fe40b5510fdb3685962f93058d30int, 0xee25b19b018946bcca30cd4fd4deba633fa7bd6b6d468d5986a8f408c013f5df5416e9d56c335fdcc43deae7e0c465eint, 0x156e1d587a0b2ff3e5b4359802ebe12079a30920624189402e3ae84fe81498b6c990469bbcf75203531fe5c356720f1fint, 0x5caeb630194183ae5f34110fa2f507fdbeda2f636fb967a927c39c957734fa38a438ea7fb76117ddbb5c646e97b72a9int);
    lemma_square_step(r, 0x680447a8e5ff9a692c6e9ed90d2eb35d91dd2e13ce144afd9cc34nat, 0xee25b19b018946bcca30cd4fd4deba633fa7bd6b6d468d5986a8f408c013f5df5416e9d56c335fdcc43deae7e0c465eint, 0x156e1d587a0b2ff3e5b4359802ebe12079a30920624189402e3ae84fe81498b6c990469bbcf75203531fe5c356720f1fint, 0x5caeb630194183ae5f34110fa2f507fdbeda2f636fb967a927c39c957734fa38a438ea7fb76117ddbb5c646e97b72a9int, 0x1133aa22c3e708d79ab417c694d2b68d7d04925065bddcdb30213696af4ca0ec90ffad5225afc1d7a8fd4b7e32e1e6bdint, 0x962c31c9d20541c101680c96b93dbc4a87602eab7e1773a266da766580edf17f759c8b1381aa3e985f48a1df3b6f158int, 0xd43ce0986d20353dd7b635f8fc00d3b8c833f3f6bb509c0ba7faada6dcf7d587ec44fc464bc8d8181dc8a3081f70a62int);
    lemma_times_root_step(r, 0xd0088f51cbff34d258dd3db21a5d66bb23ba5c279c2895fb39868nat, 0x1133aa22c3e708d79ab417c694d2b68d7d04925065bddcdb30213696af4ca0ec90ffad5225afc1d7a8fd4b7e32e1e6bdint, 0x962c31c9d20541c101680c96b93dbc4a87602eab7e1773a266da766580edf17f759c8b1381aa3e985f48a1df3b6f158int, 0xd43ce0986d20353dd7b635f8fc00d3b8c833f3f6bb509c0ba7faada6dcf7d587ec44fc464bc8d8181dc8a3081f70a62int, 0x1962dad0f6497cffde383c8567443110f28107146506d0bbf0b9d2a8ee46910ddd3e2793ea91912f48809eeb527b9ed0int, 0x80214f5a57da034904e64c73601cc36952bd29dcf9b485c8e2073126bdbed56ef59c83f551dc487b2662c0fa7c4b7b2int, 0x962c31c9d20541c101680c96b93dbc4a87602eab7e1773a266da766580edf17f759c8b1381aa3e985f48a1df3b6f158int);
}

#[verifier::rlimit(40)]
proof fn lemma_root_pow_part_80(r: int)
    requires
        cong(iso_cubic(r), 0),
    ensures
        cong(pow(r, 0x680447a8e5ff9a692c6e9ed90d2eb35d91dd2e13ce144afd9cc34anat), quad(0x11f8b7498c1dc4de103a434c623a793666c379f7eee02f92010cd34c9bb9c779e39f69b0a15b59578bb74e698220df1fint, 0xe20448b2f0d056d19fc11fa8cb0f26f2350f5b814e3183cafc2ba5381e693cfc8d6cabaebe78404a28bbb2268b1bb55int, 0x152284f38a43c93671cb6b601cf420eb7af9c5a5d81328e5861adbd0398e845c0b3f93ea9e7d8bf4d6046e1fdd6cc0e0int, r)),
{
    lemma_root_pow_part_79(r);
    lemma_square_step(r, 0xd0088f51cbff34d258dd3db21a5d66bb23ba5c279c2895fb39869nat, 0x1962dad0f6497cffde383c8567443110f28107146506d0bbf0b9d2a8ee46910ddd3e2793ea91912f48809eeb527b9ed0int, 0x80214f5a57da034904e64c73601cc36952bd29dcf9b485c8e2073126bdbed56ef59c83f551dc487b2662c0fa7c4b7b2int, 0x962c31c9d20541c101680c96b93dbc4a87602eab7e1773a266da766580edf17f759c8b1381aa3e985f48a1df3b6f158int, 0x198b97e5bd41e29824086e12edfbb5458f2d11838806f8e70ae230179cb4425de862c0db48ce64c5758c2ee1a891113eint, 0x68cf3489bb8e49eedaa68da5c76d2465bb8e516fdde2617e56cc2f558287cc0a34927aa6630abdf2857b808857225f1int, 0x6f6833cc8a9bd1c133e962e429b3e6c6002295242e3c96729fb9d4177ab8c048a3caaafd12cbbf555c50372bae9191int);
    lemma_square_step(r, 0x1a0111ea397fe69a4b1ba7b6434bacd764774b84f38512bf6730d2nat, 0x198b97e5bd41e29824086e12edfbb5458f2d11838806f8e70ae230179cb4425de862c0db48ce64c5758c2ee1a891113eint, 0x68cf3489bb8e49eedaa68da5c76d2465bb8e516fdde2617e56cc2f558287cc0a34927aa6630abdf2857b808857225f1int, 0x6f6833cc8a9bd1c133e962e429b3e6c6002295242e3c96729fb9d4177ab8c048a3caaafd12cbbf555c50372bae9191int, 0xd057e9c3714ec948972110569f3ff41f6cebaed28ab77a685c6551e57681d12c65ee2ae9f55d59d3559c018dff59f7eint, 0x153812bf537bf59ee1c59f84cc6d1c74c2ab3c3082e9e762b1f359de625cf2a7b07fc0f85568e714097c859c905625c8int, 0xad41e19caec828aada95933363301e2c0f04c3b46889efa96939bf76a24da32f4c116170c9e073f04fef0ee2580ebb4int);
    lemma_times_root_step(r, 0x340223d472ffcd3496374f6c869759aec8ee9709e70a257ece61a4nat, 0xd057e9c3714ec948972110569f3ff41f6cebaed28ab77a685c6551e57681d12c65ee2ae9f55d59d3559c018dff59f7eint, 0x153812bf537bf59ee1c59f84cc6d1c74c2ab3c3082e9e762b1f359de625cf2a7b07fc0f85568e714097c859c905625c8int, 0xad41e19caec828aada95933363301e2c0f04c3b46889efa96939bf76a24da32f4c116170c9e073f04fef0ee2580ebb4int, 0x3e05220a283a42acb0cccadfcc4a476fd255179de62ac9df67d9e1f5607a791848366ba3a51656a605817b729ff9d36int, 0x8a5faeb7a71b05cfe385c50b97c4ab43548c2e0ddb77f0641c72f6ac7a43a2710464e0d14641851a7ea5b135acf3504int, 0x153812bf537bf59ee1c59f84cc6d1c74c2ab3c3082e9e762b1f359de625cf2a7b07fc0f85568e714097c859c905625c8int);
    lemma_square_step(r, 0x340223d472ffcd3496374f6c869759aec8ee9709e70a257ece61a5nat, 0x3e05220a283a42acb0cccadfcc4a476fd255179de62ac9df67d9e1f5607a791848366ba3a51656a605817b729ff9d36int, 0x8a5faeb7a71b05cfe385c50b97c4ab43548c2e0ddb77f0641c72f6ac7a43a2710464e0d14641851a7ea5b135acf3504int, 0x153812bf537bf59ee1c59f84cc6d1c74c2ab3c3082e9e762b1f359de625cf2a7b07fc0f85568e714097c859c905625c8int, 0x11f8b7498c1dc4de103a434c623a793666c379f7eee02f92010cd34c9bb9c779e39f69b0a15b59578bb74e698220df1fint, 0xe20448b2f0d056d19fc11fa8cb0f26f2350f5b814e3183cafc2ba5381e693cfc8d6cabaebe78404a28bbb2268b1bb55int, 0x152284f38a43c93671cb6b601cf420eb7af9c5a5d81328e5861adbd0398e845c0b3f93ea9e7d8bf4d6046e1fdd6cc0e0int);
}

#[verifier::rlimit(40)]
proof fn lemma_root_pow_part_81(r: int)
    requires
        cong(iso_cubic(r), 0),
    ensures
        cong(pow(r, 0x340223d472ffcd3496374f6c869759aec8ee9709e70a257ece61a54nat), quad(0x1567fa46d19dd75b9d6e67ec08c781673fd66153a623e808b8f114755ebca7f45647a8b5f6f52079a2351913851ff875int, 0x9ba31a4251bf815caf2f322d9cb4ac6dc22136dc3632a40b57685ea8fff6f7da90a64bb103cc69d6ee088b3c0d1f53cint, 0xb0df1fd2b2daab282cce8ebf3dfb40f002e127ba3f7f7aef5fff83a0238d1911bf6dccbdd08d75139c3a296c4862c15int, r)),
{
    lemma_root_pow_part_80(r);
    lemma_square_step(r, 0x680447a8e5ff9a692c6e9ed90d2eb35d91dd2e13ce144afd9cc34anat, 0x11f8b7498c1dc4de103a434c623a793666c379f7eee02f92010cd34c9bb9c779e39f69b0a15b59578bb74e698220df1fint, 0xe20448b2f0d056d19fc11fa8cb0f26f2350f5b814e3183cafc2ba5381e693cfc8d6cabaebe78404a28bbb2268b1bb55int, 0x152284f38a43c93671cb6b601cf420eb7af9c5a5d81328e5861adbd0398e845c0b3f93ea9e7d8bf4d6046e1fdd6cc0e0int, 0x182968b6f902035804ece64576e09e5c937ef946a139c3ca6002a5b0e0171cfaa311c58d6e8b4b8fc80ea3509fcf86ddint, 0x12e341bab1159702d911026008c133c840dc60040ede1a7a53b977abb1479ae97df569732579848b9b69535517fa8e99int, 0x162d039ca4a999a0bee3313c595982d71ebddcfc2c5d047b4c0be9bb9576058e0135fd0ffe51ee9a7b449b1561e4e665int);
    lemma_times_root_step(r, 0xd0088f51cbff34d258dd3db21a5d66bb23ba5c279c2895fb398694nat, 0x182968b6f902035804ece64576e09e5c937ef946a139c3ca6002a5b0e0171cfaa311c58d6e8b4b8fc80ea3509fcf86ddint, 0x12e341bab1159702d911026008c133c840dc60040ede1a7a53b977abb1479ae97df569732579848b9b69535517fa8e99int, 0x162d039ca4a999a0bee3313c595982d71ebddcfc2c5d047b4c0be9bb9576058e0135fd0ffe51ee9a7b449b1561e4e665int, 0x19fed2072fe05ffb1346895b893a096d240379ed44d6da6e72bf8fade86c6e7821cb49449e04edefb7ece86e7af01a0int, 0x18144c1d802ced0ec5e043ef525d743d650a2ccb2cc65389c0a02bfb265e6bea25442d62de5a78ce08330b9f713d75fbint, 0x12e341bab1159702d911026008c133c840dc60040ede1a7a53b977abb1479ae97df569732579848b9b69535517fa8e99int);
    lemma_square_step(r, 0xd0088f51cbff34d258dd3db21a5d66bb23ba5c279c2895fb398695nat, 0x19fed2072fe05ffb1346895b893a096d240379ed44d6da6e72bf8fade86c6e7821cb49449e04edefb7ece86e7af01a0int, 0x18144c1d802ced0ec5e043ef525d743d650a2ccb2cc65389c0a02bfb265e6bea25442d62de5a78ce08330b9f713d75fbint, 0x12e341bab1159702d911026008c133c840dc60040ede1a7a53b977abb1479ae97df569732579848b9b69535517fa8e99int, 0xe73dfc9654488d63f5efdc53fc78a3e19a59a3a4ce296842fdf8541e1802fb28b832e9a39558d93adae0271c7c16249int, 0x1963f000bc378f32b1e4ee269b2980267dfb7dfa977b15439413d6c9cba5b071e27fdcd5ec34b25eb74cf811ae852a50int, 0x157715b699535fe9b4db03c5ecbe72ff656ec4f6f8ef8922b7ef479756877cd7fdd09cda329ba9d594c5cc86882152a5int);
    lemma_square_step(r, 0x1a0111ea397fe69a4b1ba7b6434bacd764774b84f38512bf6730d2anat, 0xe73dfc9654488d63f5efdc53fc78a3e19a59a3a4ce296842fdf8541e1802fb28b832e9a39558d93adae0271c7c16249int, 0x1963f000bc378f32b1e4ee269b2980267dfb7dfa977b15439413d6c9cba5b071e27fdcd5ec34b25eb74cf811ae852a50int, 0x157715b699535fe9b4db03c5ecbe72ff656ec4f6f8ef8922b7ef479756877cd7fdd09cda329ba9d594c5cc86882152a5int, 0x1567fa46d19dd75b9d6e67ec08c781673fd66153a623e808b8f114755ebca7f45647a8b5f6f52079a2351913851ff875int, 0x9ba31a4251bf815caf2f322d9cb4ac6dc22136dc3632a40b57685ea8fff6f7da90a64bb103cc69d6ee088b3c0d1f53cint, 0xb0df1fd2b2daab282cce8ebf3dfb40f002e127ba3f7f7aef5fff83a0238d1911bf6dccbdd08d75139c3a296c4862c15int);
}

#[verifier::rlimit(40)]
proof fn lemma_root_pow_part_82(r: int)
    requires
        cong(iso_cubic(r), 0),
    ensures
        cong(pow(r, 0x340223d472ffcd3496374f6c869759aec8ee9709e70a257ece61a540nat), quad(0xa4fa5de965134e77165506dd9efe35f77f84825f473a124a98d2b50a37beb52c5e7e9ff88408dfe4422db75e6f2aecfint, 0x58a7b35d620595d8aab38db51e7d183ca24120ce86847c21a4aeb21358909a9ed7e2a93509e6ca9846509dc29d4d336int, 0xc371aeab5324dd5b5be093458583839051369143fd2e137f98b0562ade80621f4bdf89d8dc48f95829cabcd77b0de5fint, r)),
{
    lemma_root_pow_part_81(r);
    lemma_square_step(r, 0x340223d472ffcd3496374f6c869759aec8ee9709e70a257ece61a54nat, 0x1567fa46d19dd75b9d6e67ec08c781673fd66153a623e808b8f114755ebca7f45647a8b5f6f52079a2351913851ff875int, 0x9ba31a4251bf815caf2f322d9cb4ac6dc22136dc3632a40b57685ea8fff6f7da90a64bb103cc69d6ee088b3c0d1f53cint, 0xb0df1fd2b2daab282cce8ebf3dfb40f002e127ba3f7f7aef5fff83a0238d1911bf6dccbdd08d75139c3a296c4862c15int, 0x72847296a92453a5949d8a0b951295155662da5c299ca7ea823885c9a9ad58228dbc0a775ba665275b949a7657fb5caint, 0x14ad6e19753767d6685651be355e35b938069afad0841e6caa2ccd9ce73f7fbfe623a77534efd4aa930c30627504fedeint, 0x18138f1b9556a2faeb4d214ef15fd430df99f0a52538e1379eac877e1b514e61e09dbb68f4edde67d40b007c74ef3909int);
    lemma_square_step(r, 0x680447a8e5ff9a692c6e9ed90d2eb35d91dd2e13ce144afd9cc34a8nat, 0x72847296a92453a5949d8a0b951295155662da5c299ca7ea823885c9a9ad58228dbc0a775ba665275b949a7657fb5caint, 0x14ad6e19753767d6685651be355e35b938069afad0841e6caa2ccd9ce73f7fbfe623a77534efd4aa930c30627504fedeint, 0x18138f1b9556a2faeb4d214ef15fd430df99f0a52538e1379eac877e1b514e61e09dbb68f4edde67d40b007c74ef3909int, 0x484f3da4469aff3f041373cfacb647dd9feff5bd0077fbdc1f3d238a9d39aeb790ce3a1bea9518651cb57ba088f9d07int, 0x8747b725975218dac699439d114f8b77132d93d665aa19adba0157325a2735a517ae84cb6a93ed47585484b43aed6e7int, 0x16e00cca5d5cc76af30c645949a468b1a4d2d68fb19f3aacdf6d2f319ab9007edd6626ddec67e6b4be9de42bc1d51f93int);
    lemma_square_step(r, 0xd0088f51cbff34d258dd3db21a5d66bb23ba5c279c2895fb3986950nat, 0x484f3da4469aff3f041373cfacb647dd9feff5bd0077fbdc1f3d238a9d39aeb790ce3a1bea9518651cb57ba088f9d07int, 0x8747b725975218dac699439d114f8b77132d93d665aa19adba0157325a2735a517ae84cb6a93ed47585484b43aed6e7int, 0x16e00cca5d5cc76af30c645949a468b1a4d2d68fb19f3aacdf6d2f319ab9007edd6626ddec67e6b4be9de42bc1d51f93int, 0x4fd73b419d086bc1f789d0bf45ee9191f7f33edeb12d2d4f6eb91662e3b133c867b7b1a6dcbd8fa4f709879a86a431eint, 0x123e503574009f9f303cb856f46ee1de927d87c6f709c38117edfeb487957547efa9f61e7d5fea28f84c96c0e13e42c1int, 0x447a5af15e69e7c68d54828b8610a6584a7dd9440f0c49deb2f888d4c5b0db2ecae95195ccbaf98c9780f9a243a14ebint);
    lemma_square_step(r, 0x1a0111ea397fe69a4b1ba7b6434bacd764774b84f38512bf6730d2a0nat, 0x4fd73b419d086bc1f789d0bf45ee9191f7f33edeb12d2d4f6eb91662e3b133c867b7b1a6dcbd8fa4f709879a86a431eint, 0x123e503574009f9f303cb856f46ee1de927d87c6f709c38117edfeb487957547efa9f61e7d5fea28f84c96c0e13e42c1int, 0x447a5af15e69e7c68d54828b8610a6584a7dd9440f0c49deb2f888d4c5b0db2ecae95195ccbaf98c9780f9a243a14ebint, 0xa4fa5de965134e77165506dd9efe35f77f84825f473a124a98d2b50a37beb52c5e7e9ff88408dfe4422db75e6f2aecfint, 0x58a7b35d620595d8aab38db51e7d183ca24120ce86847c21a4aeb21358909a9ed7e2a93509e6ca9846509dc29d4d336int, 0xc371aeab5324dd5b5be093458583839051369143fd2e137f98b0562ade80621f4bdf89d8dc48f95829cabcd77b0de5fint);
}

#[verifier::rlimit(40)]
proof fn lemma_root_pow_part_83(r: int)
    requires
        cong(iso_cubic(r), 0),
    ensures
        cong(pow(r, 0xd0088f51cbff34d258dd3db21a5d66bb23ba5c279c2895fb39869506nat), quad(0x19aa05ddfcd92d303140abd181e192e0c7f709f8f68b030f1c406f891fdf8a3e2ef62c4808da2539def7fb3b0e7a5eefint, 0xb83f74514e08f5e340071fc9b2ebc83c5929bf1f86ef76f52664902d993512b1769d60daf8566e4e1ad7af6acff5a26int, 0xc7c7d24ced2231851f8b9267f1a2c0649a8b96aee1375cbcc1ef13c1711d4e01e316561a0088436e51eb1d4ff3f44c9int, r)),
{
    lemma_root_pow_part_82(r);
    lemma_times_root_step(r, 0x340223d472ffcd3496374f6c869759aec8ee9709e70a257ece61a540nat, 0xa4fa5de965134e77165506dd9efe35f77f84825f473a124a98d2b50a37beb52c5e7e9ff88408dfe4422db75e6f2aecfint, 0x58a7b35d620595d8aab38db51e7d183ca24120ce86847c21a4aeb21358909a9ed7e2a93509e6ca9846509dc29d4d336int, 0xc371aeab5324dd5b5be093458583839051369143fd2e137f98b0562ade80621f4bdf89d8dc48f95829cabcd77b0de5fint, 0xb45b7295068d6ab189c5ceb00af62cda5ef7bde37f0ec253f3b26c01e491d3e4f637506ddd2b2a9460d6e0d105f5e41int, 0x4b786f34979962321374886491430cd01336738df951148d5e9170c3b1e7ed9394cf3704886c467a879d1591b9a8c71int, 0x58a7b35d620595d8aab38db51e7d183ca24120ce86847c21a4aeb21358909a9ed7e2a93509e6ca9846509dc29d4d336int);
    lemma_square_step(r, 0x340223d472ffcd3496374f6c869759aec8ee9709e70a257ece61a541nat, 0xb45b7295068d6ab189c5ceb00af62cda5ef7bde37f0ec253f3b26c01e491d3e4f637506ddd2b2a9460d6e0d105f5e41int, 0x4b786f34979962321374886491430cd01336738df951148d5e9170c3b1e7ed9394cf3704886c467a879d1591b9a8c71int, 0x58a7b35d620595d8aab38db51e7d183ca24120ce86847c21a4aeb21358909a9ed7e2a93509e6ca9846509dc29d4d336int, 0x155b30106f249b6ec859cd9d0a358a16bc06a39708a95f967d634cf8c45b3f998de7e26fc3d60e13e609a9ed0f6a78b2int, 0xdbdb6ab051185ca7c85da7e894f9218d2062444c9beffcdd8b5445240b39519f1f9c25296b9ccedb406d2163904f4bdint, 0xced83ae29f4a1d29178b639e74d680f4f08d68fd653cfe9a897667164c3930fff8c85623e5c0010255cda4a4267dd76int);
    lemma_times_root_step(r, 0x680447a8e5ff9a692c6e9ed90d2eb35d91dd2e13ce144afd9cc34a82nat, 0x155b30106f249b6ec859cd9d0a358a16bc06a39708a95f967d634cf8c45b3f998de7e26fc3d60e13e609a9ed0f6a78b2int, 0xdbdb6ab051185ca7c85da7e894f9218d2062444c9beffcdd8b5445240b39519f1f9c25296b9ccedb406d2163904f4bdint, 0xced83ae29f4a1d29178b639e74d680f4f08d68fd653cfe9a897667164c3930fff8c85623e5c0010255cda4a4267dd76int, 0x168e52c1d955fbbde5d5f9e64460172586a84346482bdb13b55ab3101238decdbb6eb8b1c211de8152995cd8b955b525int, 0x17e67ddbf152d4b65fed8184bb19fd4283d088c9a0ce555cbc5604ea9443f1080f1dfa5b5030b25563c9d47e9967cfe9int, 0xdbdb6ab051185ca7c85da7e894f9218d2062444c9beffcdd8b5445240b39519f1f9c25296b9ccedb406d2163904f4bdint);
    lemma_square_step(r, 0x680447a8e5ff9a692c6e9ed90d2eb35d91dd2e13ce144afd9cc34a83nat, 0x168e52c1d955fbbde5d5f9e64460172586a84346482bdb13b55ab3101238decdbb6eb8b1c211de8152995cd8b955b525int, 0x17e67ddbf152d4b65fed8184bb19fd4283d088c9a0ce555cbc5604ea9443f1080f1dfa5b5030b25563c9d47e9967cfe9int, 0xdbdb6ab051185ca7c85da7e894f9218d2062444c9beffcdd8b5445240b39519f1f9c25296b9ccedb406d2163904f4bdint, 0x19aa05ddfcd92d303140abd181e192e0c7f709f8f68b030f1c406f891fdf8a3e2ef62c4808da2539def7fb3b0e7a5eefint, 0xb83f74514e08f5e340071fc9b2ebc83c5929bf1f86ef76f52664902d993512b1769d60daf8566e4e1ad7af6acff5a26int, 0xc7c7d24ced2231851f8b9267f1a2c0649a8b96aee1375cbcc1ef13c1711d4e01e316561a0088436e51eb1d4ff3f44c9int);
}

#[verifier::rlimit(40)]
proof fn lemma_root_pow_part_84(r: int)
    requires
        cong(iso_cubic(r), 0),
    ensures
        cong(pow(r, 0x340223d472ffcd3496374f6c869759aec8ee9709e70a257ece61a541enat), quad(0x14d612bc9ca81935c39b0923fbf6b8587d2866bf46cce24c131e6c496c1dcf68a581a1192ee0ac8ce75f1755f5e88dc8int, 0xc4a416b396a0883947227ac509ee6dd91352dde9b1abcf98c163908d27fcec741622f068bc2769744783690a3930e55int, 0x122b7fe135ef4334c8166615701bf1c7626311fb9faadd42de8a803f81daea3b1a5e655b82beccd4a33bf81579600cf7int, r)),
{
    lemma_root_pow_part_83(r);
    lemma_times_root_step(r, 0xd0088f51cbff34d258dd3db21a5d66bb23ba5c279c2895fb39869506nat, 0x19aa05ddfcd92d303140abd181e192e0c7f709f8f68b030f1c406f891fdf8a3e2ef62c4808da2539def7fb3b0e7a5eefint, 0xb83f74514e08f5e340071fc9b2ebc83c5929bf1f86ef76f52664902d993512b1769d60daf8566e4e1ad7af6acff5a26int, 0xc7c7d24ced2231851f8b9267f1a2c0649a8b96aee1375cbcc1ef13c1711d4e01e316561a0088436e51eb1d4ff3f44c9int, 0xeecb7b2421d1a500a27aa746335e467bdc08350ce866a75193239657c5b4765336b0929f2d6f1e3006130b6264b75acint, 0x16afbd6c0e8a9c5945405381fd407b2887758b75b865085991787f5267776a083c979782e23e34a5335de92184581c2bint, 0xb83f74514e08f5e340071fc9b2ebc83c5929bf1f86ef76f52664902d993512b1769d60daf8566e4e1ad7af6acff5a26int);
    lemma_square_step(r, 0xd0088f51cbff34d258dd3db21a5d66bb23ba5c279c2895fb39869507nat, 0xeecb7b2421d1a500a27aa746335e467bdc08350ce866a75193239657c5b4765336b0929f2d6f1e3006130b6264b75acint, 0x16afbd6c0e8a9c5945405381fd407b2887758b75b865085991787f5267776a083c979782e23e34a5335de92184581c2bint, 0xb83f74514e08f5e340071fc9b2ebc83c5929bf1f86ef76f52664902d993512b1769d60daf8566e4e1ad7af6acff5a26int, 0x7972b17b7727f2dad8a175501590cabd9f891fe187433425ef339a5fdf1a5ef4aab7b9d77c31f94c41e8d0c0aec2586int, 0x146d64518047cc3b3d7a603a7b2874fd6b4296b0b29ed71753831a554bff419ca4f9843b37596c05c4d8d22233b6fcf6int, 0x86a36310473335fcd710bfd0c1bbad0a2f1e89cefa40a1074c9d7b327e357aabc058758a5195c15b63ba8c55aabb9afint);
    lemma_times_root_step(r, 0x1a0111ea397fe69a4b1ba7b6434bacd764774b84f38512bf6730d2a0enat, 0x7972b17b7727f2dad8a175501590cabd9f891fe187433425ef339a5fdf1a5ef4aab7b9d77c31f94c41e8d0c0aec2586int, 0x146d64518047cc3b3d7a603a7b2874fd6b4296b0b29ed71753831a554bff419ca4f9843b37596c05c4d8d22233b6fcf6int, 0x86a36310473335fcd710bfd0c1bbad0a2f1e89cefa40a1074c9d7b327e357aabc058758a5195c15b63ba8c55aabb9afint, 0x10fbad0857cae6e3f639a56985771b212317d062f1fd1da15310b01dcdeffcbe647e76f8ca306af25305ab6447aec11int, 0x10d6637e0245838c746264683ca922e3ada2dc6c1e024d0143d752483eff274fe84d60dffd1e7627f790b77bd18e24dbint, 0x146d64518047cc3b3d7a603a7b2874fd6b4296b0b29ed71753831a554bff419ca4f9843b37596c05c4d8d22233b6fcf6int);
    lemma_square_step(r, 0x1a0111ea397fe69a4b1ba7b6434bacd764774b84f38512bf6730d2a0fnat, 0x10fbad0857cae6e3f639a56985771b212317d062f1fd1da15310b01dcdeffcbe647e76f8ca306af25305ab6447aec11int, 0x10d6637e0245838c746264683ca922e3ada2dc6c1e024d0143d752483eff274fe84d60dffd1e7627f790b77bd18e24dbint, 0x146d64518047cc3b3d7a603a7b2874fd6b4296b0b29ed71753831a554bff419ca4f9843b37596c05c4d8d22233b6fcf6int, 0x14d612bc9ca81935c39b0923fbf6b8587d2866bf46cce24c131e6c496c1dcf68a581a1192ee0ac8ce75f1755f5e88dc8int, 0xc4a416b396a0883947227ac509ee6dd91352dde9b1abcf98c163908d27fcec741622f068bc2769744783690a3930e55int, 0x122b7fe135ef4334c8166615701bf1c7626311fb9faadd42de8a803f81daea3b1a5e655b82beccd4a33bf81579600cf7int);
}

#[verifier::rlimit(40)]
proof fn lemma_root_pow_part_85(r: int)
    requires
        cong(iso_cubic(r), 0),
    ensures
        cong(pow(r, 0xd0088f51cbff34d258dd3db21a5d66bb23ba5c279c2895fb39869507bnat), quad(0x16c0113ab99e17e70f690be735b81d665f6a0128b2be10c7657a7078c13000f6309b2c0380d14b52ee8133cb9fb7f2a7int, 0xd98178f8ba01d590c97338a8153ce93688d2fe49bd5d09d1bff64bd76c5514f02564ac65fadb3e06e1f27519e4434f4int, 0x38a904285cc599d29843b0e2c1d9fee3b8520b1944530239af43724f771b2a6d4244fd399594ce8043b0378c9055fc6int, r)),
{
    lemma_root_pow_part_84(r);
    lemma_square_step(r, 0x340223d472ffcd3496374f6c869759aec8ee9709e70a257ece61a541enat, 0x14d612bc9ca81935c39b0923fbf6b8587d2866bf46cce24c131e6c496c1dcf68a581a1192ee0ac8ce75f1755f5e88dc8int, 0xc4a416b396a0883947227ac509ee6dd91352dde9b1abcf98c163908d27fcec741622f068bc2769744783690a3930e55int, 0x122b7fe135ef4334c8166615701bf1c7626311fb9faadd42de8a803f81daea3b1a5e655b82beccd4a33bf81579600cf7int, 0xbe63c5ee104520caec5cb3ed50bb689ac2b47f029cf214ed44d509afc415950be23bf32b9d9e2a1b99bbf4a697051fdint, 0x19ef343ed139c26aa69786ebea0a5e6e272ffc15b5a231517f613a6dc268445b0fea9c33b75291a70ab3e366aab55c8cint, 0x6781ab557d352cc19c3060ca054e41cd9d92b176acd772563014117a90b5cff1354fb85c434e83d871b7637a717473fint);
    lemma_times_root_step(r, 0x680447a8e5ff9a692c6e9ed90d2eb35d91dd2e13ce144afd9cc34a83cnat, 0xbe63c5ee104520caec5cb3ed50bb689ac2b47f029cf214ed44d509afc415950be23bf32b9d9e2a1b99bbf4a697051fdint, 0x19ef343ed139c26aa69786ebea0a5e6e272ffc15b5a231517f613a6dc268445b0fea9c33b75291a70ab3e366aab55c8cint, 0x6781ab557d352cc19c3060ca054e41cd9d92b176acd772563014117a90b5cff1354fb85c434e83d871b7637a717473fint, 0xe933e4365a40de06349ad9f30a03536b27d403bd46a9b5e02f1e11f99377473cf29b9cdefd8ca0affdd62cda2e3d198int, 0x12c77b09ac28bfca048475772b6bff3b70ce1d74ea3db298597142b2f9b9fc32605bf81ccfa78f4318c61b4eac3fa293int, 0x19ef343ed139c26aa69786ebea0a5e6e272ffc15b5a231517f613a6dc268445b0fea9c33b75291a70ab3e366aab55c8cint);
    lemma_square_step(r, 0x680447a8e5ff9a692c6e9ed90d2eb35d91dd2e13ce144afd9cc34a83dnat, 0xe933e4365a40de06349ad9f30a03536b27d403bd46a9b5e02f1e11f99377473cf29b9cdefd8ca0affdd62cda2e3d198int, 0x12c77b09ac28bfca048475772b6bff3b70ce1d74ea3db298597142b2f9b9fc32605bf81ccfa78f4318c61b4eac3fa293int, 0x19ef343ed139c26aa69786ebea0a5e6e272ffc15b5a231517f613a6dc268445b0fea9c33b75291a70ab3e366aab55c8cint, 0x11ec7fc54226925893669fcaf1835606760e1e242591c4bc73ea1dbc47779063c4df4a79af7f83b5de9641a1b0897c26int, 0x38a904285cc599d29843b0e2c1d9fee3b8520b1944530239af43724f771b2a6d4244fd399594ce8043b0378c9055fc6int, 0x18602d4bbc5d5327843b905479e9b5a2d62e881acdd2be83734b30e5bbc2d9fed03af3a30395894dff5c20e23a4397ffint);
    lemma_times_root_step(r, 0xd0088f51cbff34d258dd3db21a5d66bb23ba5c279c2895fb39869507anat, 0x11ec7fc54226925893669fcaf1835606760e1e242591c4bc73ea1dbc47779063c4df4a79af7f83b5de9641a1b0897c26int, 0x38a904285cc599d29843b0e2c1d9fee3b8520b1944530239af43724f771b2a6d4244fd399594ce8043b0378c9055fc6int, 0x18602d4bbc5d5327843b905479e9b5a2d62e881acdd2be83734b30e5bbc2d9fed03af3a30395894dff5c20e23a4397ffint, 0x16c0113ab99e17e70f690be735b81d665f6a0128b2be10c7657a7078c13000f6309b2c0380d14b52ee8133cb9fb7f2a7int, 0xd98178f8ba01d590c97338a8153ce93688d2fe49bd5d09d1bff64bd76c5514f02564ac65fadb3e06e1f27519e4434f4int, 0x38a904285cc599d29843b0e2c1d9fee3b8520b1944530239af43724f771b2a6d4244fd399594ce8043b0378c9055fc6int);
}

#[verifier::rlimit(40)]
proof fn lemma_root_pow_part_86(r: int)
    requires
        cong(iso_cubic(r), 0),
    ensures
        cong(pow(r, 0x680447a8e5ff9a692c6e9ed90d2eb35d91dd2e13ce144afd9cc34a83danat), quad(0x180d86aac8ae86733da862835e47c9a97925ca371f95007cd315897e17fbf62d5b838e9949f101eb01232997b8865a4int, 0x13e74cb8b8de2ea2daa8a9e442a06a4d3eb64c8bd0bb6282ff9d6a89e94bd06fb49374cae44088f551b83a0c84a3bd89int, 0xf16bf0be191321095ddac2d4ed39d892215b9d3979ed472efcf8a5e9bba0e6b9ce2973c0637825ea0038d99eee0173eint, r)),
{
    lemma_root_pow_part_85(r);
    lemma_square_step(r, 0xd0088f51cbff34d258dd3db21a5d66bb23ba5c279c2895fb39869507bnat, 0x16c0113ab99e17e70f690be735b81d665f6a0128b2be10c7657a7078c13000f6309b2c0380d14b52ee8133cb9fb7f2a7int, 0xd98178f8ba01d590c97338a8153ce93688d2fe49bd5d09d1bff64bd76c5514f02564ac65fadb3e06e1f27519e4434f4int, 0x38a904285cc599d29843b0e2c1d9fee3b8520b1944530239af43724f771b2a6d4244fd399594ce8043b0378c9055fc6int, 0x19d8385388ca769f4d45ab88ea662a0055ce0ae9305de72e5aa3d550054f0a0bbdfdccb31e83921568fc64c90861ae64int, 0x1237f0be2e51b243a845130c585372358edf09fe6a8668da099c57802aa9f0f584bc5cb4ba80e2a593ec48b0b948366eint, 0x1908266c567cf078d33251bcc3bf0a1c44c5b17658c70521f2e83297331c49e10adb69116bea62a97eea005a99a57428int);
    lemma_square_step(r, 0x1a0111ea397fe69a4b1ba7b6434bacd764774b84f38512bf6730d2a0f6nat, 0x19d8385388ca769f4d45ab88ea662a0055ce0ae9305de72e5aa3d550054f0a0bbdfdccb31e83921568fc64c90861ae64int, 0x1237f0be2e51b243a845130c585372358edf09fe6a8668da099c57802aa9f0f584bc5cb4ba80e2a593ec48b0b948366eint, 0x1908266c567cf078d33251bcc3bf0a1c44c5b17658c70521f2e83297331c49e10adb69116bea62a97eea005a99a57428int, 0x69b4716155ec93317542f4288901d56f121aec3b4417fd9a9b650775c7b86d22691bb20e35b068c0bc4d98f8bcb0388int, 0x1780dabe1908d2e61166d161ce951c1c1ece9b2b77628ada5dd2e4883cb8dc5ef4ab2f3c9498b8a72c375a4a492c45f2int, 0x17e51120e625fbfb7143a10bc4a4673328b905e92b73df7957d18d5b666dae79ecbc08c4945bc929280441f58d47d16dint);
    lemma_times_root_step(r, 0x340223d472ffcd3496374f6c869759aec8ee9709e70a257ece61a541ecnat, 0x69b4716155ec93317542f4288901d56f121aec3b4417fd9a9b650775c7b86d22691bb20e35b068c0bc4d98f8bcb0388int, 0x1780dabe1908d2e61166d161ce951c1c1ece9b2b77628ada5dd2e4883cb8dc5ef4ab2f3c9498b8a72c375a4a492c45f2int, 0x17e51120e625fbfb7143a10bc4a4673328b905e92b73df7957d18d5b666dae79ecbc08c4945bc929280441f58d47d16dint, 0xfac70f8fcd57498c5cba06cff860dd39ca9ba2d33ef6cb8f780d03c57f6ecedafecc66ca4539d13f14fb566885d80e4int, 0x4d97a66e81f1f5bcd6752a8e12772a49820dd656d7dea76044fb0897c67abc994fdb141e9bd876723c23a685784ecc4int, 0x1780dabe1908d2e61166d161ce951c1c1ece9b2b77628ada5dd2e4883cb8dc5ef4ab2f3c9498b8a72c375a4a492c45f2int);
    lemma_square_step(r, 0x340223d472ffcd3496374f6c869759aec8ee9709e70a257ece61a541ednat, 0xfac70f8fcd57498c5cba06cff860dd39ca9ba2d33ef6cb8f780d03c57f6ecedafecc66ca4539d13f14fb566885d80e4int, 0x4d97a66e81f1f5bcd6752a8e12772a49820dd656d7dea76044fb0897c67abc994fdb141e9bd876723c23a685784ecc4int, 0x1780dabe1908d2e61166d161ce951c1c1ece9b2b77628ada5dd2e4883cb8dc5ef4ab2f3c9498b8a72c375a4a492c45f2int, 0x180d86aac8ae86733da862835e47c9a97925ca371f95007cd315897e17fbf62d5b838e9949f101eb01232997b8865a4int, 0x13e74cb8b8de2ea2daa8a9e442a06a4d3eb64c8bd0bb6282ff9d6a89e94bd06fb49374cae44088f551b83a0c84a3bd89int, 0xf16bf0be191321095ddac2d4ed39d892215b9d3979ed472efcf8a5e9bba0e6b9ce2973c0637825ea0038d99eee0173eint);
}

#[verifier::rlimit(40)]
proof fn lemma_root_pow_part_87(r: int)
    requires
        cong(iso_cubic(r), 0),
    ensures
        cong(pow(r, 0x1a0111ea397fe69a4b1ba7b6434bacd764774b84f38512bf6730d2a0f6bnat), quad(0xfda00c021d357232adbaa1abcf0e181e57a5c776eaf72821eec33af35b7f266b15dc21f259384461d62601df5ca8459int, 0x7cf79365f2c053d23fe2529f579971d8c679f4cd445a92c03e2520d06f1d725330d9ad10504bef693d90bbee520eaebint, 0x95d9e091cbb528f7d6b00b74871926c89970108c56ccc35e9dbed4ba0c08072766708f43de44979aefd8c640edb2643int, r)),
{
    lemma_root_pow_part_86(r);
    lemma_square_step(r, 0x680447a8e5ff9a692c6e9ed90d2eb35d91dd2e13ce144afd9cc34a83danat, 0x180d86aac8ae86733da862835e47c9a97925ca371f95007cd315897e17fbf62d5b838e9949f101eb01232997b8865a4int, 0x13e74cb8b8de2ea2daa8a9e442a06a4d3eb64c8bd0bb6282ff9d6a89e94bd06fb49374cae44088f551b83a0c84a3bd89int, 0xf16bf0be191321095ddac2d4ed39d892215b9d3979ed472efcf8a5e9bba0e6b9ce2973c0637825ea0038d99eee0173eint, 0xddc1bbb5dc04357013ce3ee126c9d5177cf71cd4a03bbcefb5970c0fc70bcbc379c5bb6e006d655729921ad36394c5cint, 0x14c88fc7030a4eb894e243927ba163cb7fc728cc219603ad6711f6cdc221df77d4780018ec3f043e3306f97f1dfb487fint, 0x1642dcb92d7de2ebb9625c6dd6b30938c8202779575940c7b4ec845bc2d7e238a57549a29e3d1cedbb1ac8ba727980ecint);
    lemma_times_root_step(r, 0xd0088f51cbff34d258dd3db21a5d66bb23ba5c279c2895fb39869507b4nat, 0xddc1bbb5dc04357013ce3ee126c9d5177cf71cd4a03bbcefb5970c0fc70bcbc379c5bb6e006d655729921ad36394c5cint, 0x14c88fc7030a4eb894e243927ba163cb7fc728cc219603ad6711f6cdc221df77d4780018ec3f043e3306f97f1dfb487fint, 0x1642dcb92d7de2ebb9625c6dd6b30938c8202779575940c7b4ec845bc2d7e238a57549a29e3d1cedbb1ac8ba727980ecint, 0xfd89dcaf8fb61a1f227c5f7891a8c4c2c324b7db8161338b4d353126afa2164aefb8b4e0f23371a2769d379f4c39090int, 0xe974f45799bd7568149237ae3948ae4370d7dd273bd51ee83ff902aa80e90f79e35def124f6b052783f58f0c57f47b8int, 0x14c88fc7030a4eb894e243927ba163cb7fc728cc219603ad6711f6cdc221df77d4780018ec3f043e3306f97f1dfb487fint);
    lemma_square_step(r, 0xd0088f51cbff34d258dd3db21a5d66bb23ba5c279c2895fb39869507b5nat, 0xfd89dcaf8fb61a1f227c5f7891a8c4c2c324b7db8161338b4d353126afa2164aefb8b4e0f23371a2769d379f4c39090int, 0xe974f45799bd7568149237ae3948ae4370d7dd273bd51ee83ff902aa80e90f79e35def124f6b052783f58f0c57f47b8int, 0x14c88fc7030a4eb894e243927ba163cb7fc728cc219603ad6711f6cdc221df77d4780018ec3f043e3306f97f1dfb487fint, 0x19df384ae6a82d0bfe6ab17c03d5c53e666a967d9119e3e3678a2a104aaa9630021bf7c17cf409a50b1b7e9682f887b6int, 0x95d9e091cbb528f7d6b00b74871926c89970108c56ccc35e9dbed4ba0c08072766708f43de44979aefd8c640edb2643int, 0xae2c6d391f985e828af5054e21c2c23eb2c9c85a5ac725e266d142ee24ad8638e35d130ccadd62bb95a8b04c5ae1c6bint);
    lemma_times_root_step(r, 0x1a0111ea397fe69a4b1ba7b6434bacd764774b84f38512bf6730d2a0f6anat, 0x19df384ae6a82d0bfe6ab17c03d5c53e666a967d9119e3e3678a2a104aaa9630021bf7c17cf409a50b1b7e9682f887b6int, 0x95d9e091cbb528f7d6b00b74871926c89970108c56ccc35e9dbed4ba0c08072766708f43de44979aefd8c640edb2643int, 0xae2c6d391f985e828af5054e21c2c23eb2c9c85a5ac725e266d142ee24ad8638e35d130ccadd62bb95a8b04c5ae1c6bint, 0xfda00c021d357232adbaa1abcf0e181e57a5c776eaf72821eec33af35b7f266b15dc21f259384461d62601df5ca8459int, 0x7cf79365f2c053d23fe2529f579971d8c679f4cd445a92c03e2520d06f1d725330d9ad10504bef693d90bbee520eaebint, 0x95d9e091cbb528f7d6b00b74871926c89970108c56ccc35e9dbed4ba0c08072766708f43de44979aefd8c640edb2643int);
}

#[verifier::rlimit(40)]
proof fn lemma_root_pow_part_88(r: int)
    requires
        cong(iso_cubic(r), 0),
    ensures
        cong(pow(r, 0x1a0111ea397fe69a4b1ba7b6434bacd764774b84f38512bf6730d2a0f6b0nat), quad(0x8cb8801dc819cdeca8d9eba3fbd4aa334507debaafc5a0dc7f2c0ddf830b88653d903b99f783c5d408e5a42b79fa6f2int, 0xb1da85340e73347a2185045192f9e8f89e7be49a168f1e15540b6a430a8dd2001620ffbc3b67651c568db3882b32ec8int, 0x27200c244ff0c0f9b40d916ac3ed184c69f58bc964616ddc18bde0f24a28f73a0d17bb115ec39dea65c23bf01454f58int, r)),
{
    lemma_root_pow_part_87(r);
    lemma_square_step(r, 0x1a0111ea397fe69a4b1ba7b6434bacd764774b84f38512bf6730d2a0f6bnat, 0xfda00c021d357232adbaa1abcf0e181e57a5c776eaf72821eec33af35b7f266b15dc21f259384461d62601df5ca8459int, 0x7cf79365f2c053d23fe2529f579971d8c679f4cd445a92c03e2520d06f1d725330d9ad10504bef693d90bbee520eaebint, 0x95d9e091cbb528f7d6b00b74871926c89970108c56ccc35e9dbed4ba0c08072766708f43de44979aefd8c640edb2643int, 0x174b4da14280da7378bbbc7dec01c1ab7c265bacecdb6cff9ff3d692ddac9a21d1134c4336e34c5cee4c2daa41d3d26dint, 0x12ad1866d2d42fef15491a06841943add4a83ddd742a3005771facdf011aaefd1df424fd672d87124f7aef75408fe2b1int, 0x6e11aeca0e380ca8b80d26c93e9943c58c5cc682e74308995aa3d550656c2fe9f884d56618ae5126f77153d48a78b9cint);
    lemma_square_step(r, 0x340223d472ffcd3496374f6c869759aec8ee9709e70a257ece61a541ed6nat, 0x174b4da14280da7378bbbc7dec01c1ab7c265bacecdb6cff9ff3d692ddac9a21d1134c4336e34c5cee4c2daa41d3d26dint, 0x12ad1866d2d42fef15491a06841943add4a83ddd742a3005771facdf011aaefd1df424fd672d87124f7aef75408fe2b1int, 0x6e11aeca0e380ca8b80d26c93e9943c58c5cc682e74308995aa3d550656c2fe9f884d56618ae5126f77153d48a78b9cint, 0x709382a514c4ff604dfcca40091c9bf65fe94d7e5bf757607dd57b159bfd0718fb5be041af92611749d2f5457bc190aint, 0xaf0e860c8b27dcf0984c0aa999eeaad4f3617f492d8ff58d2213c4dcad366f4df9cb8137c1b76ff37e34a2f663678fcint, 0x158a61afa660f4a424aa1974f79e02826d1adf80638b33998c87c80f06d26375c096f39c51e0c4f5e433f433d9b9ad1bint);
    lemma_square_step(r, 0x680447a8e5ff9a692c6e9ed90d2eb35d91dd2e13ce144afd9cc34a83dacnat, 0x709382a514c4ff604dfcca40091c9bf65fe94d7e5bf757607dd57b159bfd0718fb5be041af92611749d2f5457bc190aint, 0xaf0e860c8b27dcf0984c0aa999eeaad4f3617f492d8ff58d2213c4dcad366f4df9cb8137c1b76ff37e34a2f663678fcint, 0x158a61afa660f4a424aa1974f79e02826d1adf80638b33998c87c80f06d26375c096f39c51e0c4f5e433f433d9b9ad1bint, 0x1139c5c39a46f9254ed04f6946b2de6d0a924268a61ae22cf4ac5d6c854118781294f0eb57bc247aa4d450e5ba80ee74int, 0x13ecf09db85ae12ad369bb699747a5c355d9343393f89a7feff2cf254ab3c38048358690ff3155d9e09adc9fcf2a7fe0int, 0x8f308a8bfd250cd7868b09fac7395185a575767ac11c3304642b4a0455c61dccbb9b19923ff8b7b1c929f78405cf776int);
    lemma_square_step(r, 0xd0088f51cbff34d258dd3db21a5d66bb23ba5c279c2895fb39869507b58nat, 0x1139c5c39a46f9254ed04f6946b2de6d0a924268a61ae22cf4ac5d6c854118781294f0eb57bc247aa4d450e5ba80ee74int, 0x13ecf09db85ae12ad369bb699747a5c355d9343393f89a7feff2cf254ab3c38048358690ff3155d9e09adc9fcf2a7fe0int, 0x8f308a8bfd250cd7868b09fac7395185a575767ac11c3304642b4a0455c61dccbb9b19923ff8b7b1c929f78405cf776int, 0x8cb8801dc819cdeca8d9eba3fbd4aa334507debaafc5a0dc7f2c0ddf830b88653d903b99f783c5d408e5a42b79fa6f2int, 0xb1da85340e73347a2185045192f9e8f89e7be49a168f1e15540b6a430a8dd2001620ffbc3b67651c568db3882b32ec8int, 0x27200c244ff0c0f9b40d916ac3ed184c69f58bc964616ddc18bde0f24a28f73a0d17bb115ec39dea65c23bf01454f58int);
}

#[verifier::rlimit(40)]
proof fn lemma_root_pow_part_89(r: int)
    requires
        cong(iso_cubic(r), 0),
    ensures
        cong(pow(r, 0x680447a8e5ff9a692c6e9ed90d2eb35d91dd2e13ce144afd9cc34a83dac3nat), quad(0x592cccfa846b57e82c6f0e923c4619b696f7d64f5ce7c3db6f50cef80e2fe1c6d02dd20a429e29e2ebec689415f3016int, 0xce8807ea99652f48ec39016732b78f16034a644bf82eba94ea5dd2a309dd93c78dace570c2389b72093b477e65ce229int, 0x9ee55e6c4ed5270e4ecfb2322cf2e13414342c7e9bb138a937d847852b9fe1a742d82e9241f7b48c6fb0105c3324e24int, r)),
{
    lemma_root_pow_part_88(r);
    lemma_square_step(r, 0x1a0111ea397fe69a4b1ba7b6434bacd764774b84f38512bf6730d2a0f6b0nat, 0x8cb8801dc819cdeca8d9eba3fbd4aa334507debaafc5a0dc7f2c0ddf830b88653d903b99f783c5d408e5a42b79fa6f2int, 0xb1da85340e73347a2185045192f9e8f89e7be49a168f1e15540b6a430a8dd2001620ffbc3b67651c568db3882b32ec8int, 0x27200c244ff0c0f9b40d916ac3ed184c69f58bc964616ddc18bde0f24a28f73a0d17bb115ec39dea65c23bf01454f58int, 0xd9e279bf580de3e652998bd9738e113a4f52ebb160e4b517d03effb2e6527c43157c6841dbf760d27e01f3c44514341int, 0x19601a8a10b1d48d0b2a5ff739f5d72c91d4e2816d50200449325be0130d76a73bd1a1a4afb7a22a6f6d147344e3137fint, 0x89c00c767887a782bd9a53146bf9c55b89505d7ba48716ee100ad5b11cb9707a510dfd636a64ae32f9d256166a7c355int);
    lemma_times_root_step(r, 0x340223d472ffcd3496374f6c869759aec8ee9709e70a257ece61a541ed60nat, 0xd9e279bf580de3e652998bd9738e113a4f52ebb160e4b517d03effb2e6527c43157c6841dbf760d27e01f3c44514341int, 0x19601a8a10b1d48d0b2a5ff739f5d72c91d4e2816d50200449325be0130d76a73bd1a1a4afb7a22a6f6d147344e3137fint, 0x89c00c767887a782bd9a53146bf9c55b89505d7ba48716ee100ad5b11cb9707a510dfd636a64ae32f9d256166a7c355int, 0xe85a5028e0fd40a59e4e04fe06e6ecbb821e05474fc51fc8c34d74cd05ed012c0eca1aa08597f8a579010b288afdfdeint, 0x4b3103cdf481315e0d0e3a73d377e17c4a85ca4dcff228a554606e08fa95ebec6351fc2827eda44b2dbd7462d7d50b8int, 0x19601a8a10b1d48d0b2a5ff739f5d72c91d4e2816d50200449325be0130d76a73bd1a1a4afb7a22a6f6d147344e3137fint);
    lemma_square_step(r, 0x340223d472ffcd3496374f6c869759aec8ee9709e70a257ece61a541ed61nat, 0xe85a5028e0fd40a59e4e04fe06e6ecbb821e05474fc51fc8c34d74cd05ed012c0eca1aa08597f8a579010b288afdfdeint, 0x4b3103cdf481315e0d0e3a73d377e17c4a85ca4dcff228a554606e08fa95ebec6351fc2827eda44b2dbd7462d7d50b8int, 0x19601a8a10b1d48d0b2a5ff739f5d72c91d4e2816d50200449325be0130d76a73bd1a1a4afb7a22a6f6d147344e3137fint, 0x7c31462f3dd5dc0a804643a2df51740cbdc14e759b41b197cc0f1f4e7ea3bf812dc786a91b3bb74832f8d253a0aec09int, 0x9ee55e6c4ed5270e4ecfb2322cf2e13414342c7e9bb138a937d847852b9fe1a742d82e9241f7b48c6fb0105c3324e24int, 0xcc332d59abb68283e117fc331b2a4f29326e1ba911ee40bfb3532eed0bc930f9982b1470ffcadefa48a5354fa787e32int);
    lemma_times_root_step(r, 0x680447a8e5ff9a692c6e9ed90d2eb35d91dd2e13ce144afd9cc34a83dac2nat, 0x7c31462f3dd5dc0a804643a2df51740cbdc14e759b41b197cc0f1f4e7ea3bf812dc786a91b3bb74832f8d253a0aec09int, 0x9ee55e6c4ed5270e4ecfb2322cf2e13414342c7e9bb138a937d847852b9fe1a742d82e9241f7b48c6fb0105c3324e24int, 0xcc332d59abb68283e117fc331b2a4f29326e1ba911ee40bfb3532eed0bc930f9982b1470ffcadefa48a5354fa787e32int, 0x592cccfa846b57e82c6f0e923c4619b696f7d64f5ce7c3db6f50cef80e2fe1c6d02dd20a429e29e2ebec689415f3016int, 0xce8807ea99652f48ec39016732b78f16034a644bf82eba94ea5dd2a309dd93c78dace570c2389b72093b477e65ce229int, 0x9ee55e6c4ed5270e4ecfb2322cf2e13414342c7e9bb138a937d847852b9fe1a742d82e9241f7b48c6fb0105c3324e24int);
}

#[verifier::rlimit(40)]
proof fn lemma_root_pow_part_90(r: int)
    requires
        cong(iso_cubic(r), 0),
    ensures
        cong(pow(r, 0x1a0111ea397fe69a4b1ba7b6434bacd764774b84f38512bf6730d2a0f6b0fnat), quad(0x2b919ad4ecbc8f112e7a0d003fbb18b1155b67aa6f7544b972c575b7cb084119c7804c966b3203bf78922430446c2faint, 0x8d4ee771879cc05a6fd70bcf4cccc0ddfff4d4cc94b50374e94e1a88db849cbad46a15dc7a4d4a999663cd2b79b7f72int, 0x5ce4f25188d24f399da76236e7e5ebb34961bb5dadf3767b88ad839d863c85636952b5bb8e03824173f58ba713ad164int, r)),
{
    lemma_root_pow_part_89(r);
    lemma_square_step(r, 0x680447a8e5ff9a692c6e9ed90d2eb35d91dd2e13ce144afd9cc34a83dac3nat, 0x592cccfa846b57e82c6f0e923c4619b696f7d64f5ce7c3db6f50cef80e2fe1c6d02dd20a429e29e2ebec689415f3016int, 0xce8807ea99652f48ec39016732b78f16034a644bf82eba94ea5dd2a309dd93c78dace570c2389b72093b477e65ce229int, 0x9ee55e6c4ed5270e4ecfb2322cf2e13414342c7e9bb138a937d847852b9fe1a742d82e9241f7b48c6fb0105c3324e24int, 0xc37f148ed4965b85b8290700599c96e4b67dd70cc8a4370eba8ca1a9bd0f53326486141a486eb3b6a6bb48a63832c45int, 0x1685d4f9360591322ccbaebd74aff47c0d1277e015523b0681d1c9f4f3ace150b6e016759ec0b3853b0ec9d2c529bdf3int, 0x47b63e3578b34114fc3083f35268b92e373c9e33921952f496934fce2ca4c09c7b7b5468d963b09a62cfaa1ebaa7f8fint);
    lemma_times_root_step(r, 0xd0088f51cbff34d258dd3db21a5d66bb23ba5c279c2895fb39869507b586nat, 0xc37f148ed4965b85b8290700599c96e4b67dd70cc8a4370eba8ca1a9bd0f53326486141a486eb3b6a6bb48a63832c45int, 0x1685d4f9360591322ccbaebd74aff47c0d1277e015523b0681d1c9f4f3ace150b6e016759ec0b3853b0ec9d2c529bdf3int, 0x47b63e3578b34114fc3083f35268b92e373c9e33921952f496934fce2ca4c09c7b7b5468d963b09a62cfaa1ebaa7f8fint, 0x54401fa68661d1d2500f9236a398d8518daaabf9553c81d6d69079c4f5dbb96b13301e1c57913382b27cc15e5102451int, 0x1dfcb9d20241f3a84ed0b811e0d11f7aacf6e5e57622e9e4a5f4ef3a70eef691a12c57eaea5e7054c120c893f4f5586int, 0x1685d4f9360591322ccbaebd74aff47c0d1277e015523b0681d1c9f4f3ace150b6e016759ec0b3853b0ec9d2c529bdf3int);
    lemma_square_step(r, 0xd0088f51cbff34d258dd3db21a5d66bb23ba5c279c2895fb39869507b587nat, 0x54401fa68661d1d2500f9236a398d8518daaabf9553c81d6d69079c4f5dbb96b13301e1c57913382b27cc15e5102451int, 0x1dfcb9d20241f3a84ed0b811e0d11f7aacf6e5e57622e9e4a5f4ef3a70eef691a12c57eaea5e7054c120c893f4f5586int, 0x1685d4f9360591322ccbaebd74aff47c0d1277e015523b0681d1c9f4f3ace150b6e016759ec0b3853b0ec9d2c529bdf3int, 0xc5e8b5dd8dd71585b114610889f313b32067fde2da28989d46c6f9d0a6d9b2a5ab74e625ea9d5b8010e69ea89672a5bint, 0x5ce4f25188d24f399da76236e7e5ebb34961bb5dadf3767b88ad839d863c85636952b5bb8e03824173f58ba713ad164int, 0x1703339714393c12ad5b4e025e5c6232b2fee7dca7ce4124aeefbc6606359eacfbfb2723c3765120cc758567c3c1d2c1int);
    lemma_times_root_step(r, 0x1a0111ea397fe69a4b1ba7b6434bacd764774b84f38512bf6730d2a0f6b0enat, 0xc5e8b5dd8dd71585b114610889f313b32067fde2da28989d46c6f9d0a6d9b2a5ab74e625ea9d5b8010e69ea89672a5bint, 0x5ce4f25188d24f399da76236e7e5ebb34961bb5dadf3767b88ad839d863c85636952b5bb8e03824173f58ba713ad164int, 0x1703339714393c12ad5b4e025e5c6232b2fee7dca7ce4124aeefbc6606359eacfbfb2723c3765120cc758567c3c1d2c1int, 0x2b919ad4ecbc8f112e7a0d003fbb18b1155b67aa6f7544b972c575b7cb084119c7804c966b3203bf78922430446c2faint, 0x8d4ee771879cc05a6fd70bcf4cccc0ddfff4d4cc94b50374e94e1a88db849cbad46a15dc7a4d4a999663cd2b79b7f72int, 0x5ce4f25188d24f399da76236e7e5ebb34961bb5dadf3767b88ad839d863c85636952b5bb8e03824173f58ba713ad164int);
}

#[verifier::rlimit(40)]
proof fn lemma_root_pow_part_91(r: int)
    requires
        cong(iso_cubic(r), 0),
    ensures
        cong(pow(r, 0xd0088f51cbff34d258dd3db21a5d66bb23ba5c279c2895fb39869507b587anat), quad(0x808c16788c63241d9adc34801d91c6d3dc237281b846169e5ea5bce3221eabc7942628fd856426a212526b69e590e48int, 0xd91ab5044a265f7c6d9148e64ac49b2568204fd6003467febcf65c8f2a09fee6aadc22fcd1a9858ff43120a999a27b4int, 0x9895622b2458e0aaaa676f6ba9c24e2f220d044bd67364a5268f93809aeacd7a62a278432af8065a1c1e4ab37edae69int, r)),
{
    lemma_root_pow_part_90(r);
    lemma_square_step(r, 0x1a0111ea397fe69a4b1ba7b6434bacd764774b84f38512bf6730d2a0f6b0fnat, 0x2b919ad4ecbc8f112e7a0d003fbb18b1155b67aa6f7544b972c575b7cb084119c7804c966b3203bf78922430446c2faint, 0x8d4ee771879cc05a6fd70bcf4cccc0ddfff4d4cc94b50374e94e1a88db849cbad46a15dc7a4d4a999663cd2b79b7f72int, 0x5ce4f25188d24f399da76236e7e5ebb34961bb5dadf3767b88ad839d863c85636952b5bb8e03824173f58ba713ad164int, 0xe2554810bcb7a9d7dda1ca5f159ff288d5ad004aa2783036d0d84e1f85644d695f991910d0a87705b59d48d0c7eb51dint, 0x91d6cc280b219b478929cc78c4266451df82925d57cb044e390afc433ab6e02f96d68f4a342859e4e92ebd06ab7d611int, 0x7c957556e15ba23200acf9b5c36b1ce5dce0812e3dfc930f5a0f8981f4237c15d4dbac2616fb1532fe3ae14be9af732int);
    lemma_square_step(r, 0x340223d472ffcd3496374f6c869759aec8ee9709e70a257ece61a541ed61enat, 0xe2554810bcb7a9d7dda1ca5f159ff288d5ad004aa2783036d0d84e1f85644d695f991910d0a87705b59d48d0c7eb51dint, 0x91d6cc280b219b478929cc78c4266451df82925d57cb044e390afc433ab6e02f96d68f4a342859e4e92ebd06ab7d611int, 0x7c957556e15ba23200acf9b5c36b1ce5dce0812e3dfc930f5a0f8981f4237c15d4dbac2616fb1532fe3ae14be9af732int, 0x1242b87b3a20e4be5ef496c90743ff1da1c5b566765aa622528da2f2355ffa84e3bf7feeb694954e08c8f699f41172abint, 0x149a909a7dc9b8ad750745fcc7626b400f4002beae2a685669c4de3f6b1bf1e48c797b10cdae956c3992d8a9de9ee75cint, 0x38830f190933f2142c367706b72735e68117362cdbc45416dd26f056326861b441ac83efe2596a2ff71fca9e4e2dd3fint);
    lemma_times_root_step(r, 0x680447a8e5ff9a692c6e9ed90d2eb35d91dd2e13ce144afd9cc34a83dac3cnat, 0x1242b87b3a20e4be5ef496c90743ff1da1c5b566765aa622528da2f2355ffa84e3bf7feeb694954e08c8f699f41172abint, 0x149a909a7dc9b8ad750745fcc7626b400f4002beae2a685669c4de3f6b1bf1e48c797b10cdae956c3992d8a9de9ee75cint, 0x38830f190933f2142c367706b72735e68117362cdbc45416dd26f056326861b441ac83efe2596a2ff71fca9e4e2dd3fint, 0x1264e81be71b40a2fbfbc4bfdbcc63e6276a9284843a5090d72dbab9d93ac914284e7c551ef15e63a73ce858e7a7968dint, 0x3cc9397ea0f84d7a9052b796dcf5b361b2105192a503b2030c482686376127d8ef93d30c467145650954a158ecd074eint, 0x149a909a7dc9b8ad750745fcc7626b400f4002beae2a685669c4de3f6b1bf1e48c797b10cdae956c3992d8a9de9ee75cint);
    lemma_square_step(r, 0x680447a8e5ff9a692c6e9ed90d2eb35d91dd2e13ce144afd9cc34a83dac3dnat, 0x1264e81be71b40a2fbfbc4bfdbcc63e6276a9284843a5090d72dbab9d93ac914284e7c551ef15e63a73ce858e7a7968dint, 0x3cc9397ea0f84d7a9052b796dcf5b361b2105192a503b2030c482686376127d8ef93d30c467145650954a158ecd074eint, 0x149a909a7dc9b8ad750745fcc7626b400f4002beae2a685669c4de3f6b1bf1e48c797b10cdae956c3992d8a9de9ee75cint, 0x808c16788c63241d9adc34801d91c6d3dc237281b846169e5ea5bce3221eabc7942628fd856426a212526b69e590e48int, 0xd91ab5044a265f7c6d9148e64ac49b2568204fd6003467febcf65c8f2a09fee6aadc22fcd1a9858ff43120a999a27b4int, 0x9895622b2458e0aaaa676f6ba9c24e2f220d044bd67364a5268f93809aeacd7a62a278432af8065a1c1e4ab37edae69int);
}

#[verifier::rlimit(40)]
proof fn lemma_root_pow_part_92(r: int)
    requires
        cong(iso_cubic(r), 0),
    ensures
        cong(pow(r, 0x680447a8e5ff9a692c6e9ed90d2eb35d91dd2e13ce144afd9cc34a83dac3d8nat), quad(0x39bb4f4f5d04764da520fadf73b06f29cadc868559a171f5b29cb3fd76754b4fc72f47a1688fa51b706e7bf88fb6b9dint, 0x4a5da1e8ad2ef58d60838e3bf9c44a2a09aba1352f7f6d7fe2ef9fdba1ec72fa0a1abf155d865913a249dce79721485int, 0x15890b87eb45f4127b7dc503ba2e716b3b714197b74de9c120bde107a71097dfc45f7a30d9c7b1860b842d1202c44a26int, r)),
{
    lemma_root_pow_part_91(r);
    lemma_times_root_step(r, 0xd0088f51cbff34d258dd3db21a5d66bb23ba5c279c2895fb39869507b587anat, 0x808c16788c63241d9adc34801d91c6d3dc237281b846169e5ea5bce3221eabc7942628fd856426a212526b69e590e48int, 0xd91ab5044a265f7c6d9148e64ac49b2568204fd6003467febcf65c8f2a09fee6aadc22fcd1a9858ff43120a999a27b4int, 0x9895622b2458e0aaaa676f6ba9c24e2f220d044bd67364a5268f93809aeacd7a62a278432af8065a1c1e4ab37edae69int, 0x16cf6907a60cfdbf5a3f3847f77adea1685d4969c9393504a6e31e73dffaaf62d606da868ebdbf326929cda33ac7b987int, 0x9e436e0c09dc7e5291e66506867b535c7d672d3ca07f7fe0d87bf1f6d12ffc85da44cf02b22392af04a798a88478070int, 0xd91ab5044a265f7c6d9148e64ac49b2568204fd6003467febcf65c8f2a09fee6aadc22fcd1a9858ff43120a999a27b4int);
    lemma_square_step(r, 0xd0088f51cbff34d258dd3db21a5d66bb23ba5c279c2895fb39869507b587bnat, 0x16cf6907a60cfdbf5a3f3847f77adea1685d4969c9393504a6e31e73dffaaf62d606da868ebdbf326929cda33ac7b987int, 0x9e436e0c09dc7e5291e66506867b535c7d672d3ca07f7fe0d87bf1f6d12ffc85da44cf02b22392af04a798a88478070int, 0xd91ab5044a265f7c6d9148e64ac49b2568204fd6003467febcf65c8f2a09fee6aadc22fcd1a9858ff43120a999a27b4int, 0xd9e253b65197c977f04dadce61447f8ea86e39646ff265ff730b983700b534f063c310434c2c2fc30383adb1aefaa7cint, 0x11fac5ce1c221c143f6ed646967132608d74ac40bddc0163191ae5c9da3974f25f83de34a277927768f7526e636b4ae8int, 0x102e65e3d4489a0a787a3a0260de7e92558fc61d7b83ab9e0634e15860c28c728dd923be2bbfd74ee5eca0c80dd92249int);
    lemma_square_step(r, 0x1a0111ea397fe69a4b1ba7b6434bacd764774b84f38512bf6730d2a0f6b0f6nat, 0xd9e253b65197c977f04dadce61447f8ea86e39646ff265ff730b983700b534f063c310434c2c2fc30383adb1aefaa7cint, 0x11fac5ce1c221c143f6ed646967132608d74ac40bddc0163191ae5c9da3974f25f83de34a277927768f7526e636b4ae8int, 0x102e65e3d4489a0a787a3a0260de7e92558fc61d7b83ab9e0634e15860c28c728dd923be2bbfd74ee5eca0c80dd92249int, 0x10a620dd88b1c0247699c86a9a7e48588b41732053a9717bf194d01d2254a1758ca0af00342f9347afc725ab333b902aint, 0x43c49b88d90230b31502e8f8fe0a39f20369de4b34a3fd2318ac3129215f55be8d295a4608812d137f5f65332349b0bint, 0xeb55cb9342426b5193c1a06d373219912a0d0da50a693f4320647eabcb4df32ae70f891bd50a31ad0e734b9c2733857int);
    lemma_square_step(r, 0x340223d472ffcd3496374f6c869759aec8ee9709e70a257ece61a541ed61ecnat, 0x10a620dd88b1c0247699c86a9a7e48588b41732053a9717bf194d01d2254a1758ca0af00342f9347afc725ab333b902aint, 0x43c49b88d90230b31502e8f8fe0a39f20369de4b34a3fd2318ac3129215f55be8d295a4608812d137f5f65332349b0bint, 0xeb55cb9342426b5193c1a06d373219912a0d0da50a693f4320647eabcb4df32ae70f891bd50a31ad0e734b9c2733857int, 0x39bb4f4f5d04764da520fadf73b06f29cadc868559a171f5b29cb3fd76754b4fc72f47a1688fa51b706e7bf88fb6b9dint, 0x4a5da1e8ad2ef58d60838e3bf9c44a2a09aba1352f7f6d7fe2ef9fdba1ec72fa0a1abf155d865913a249dce79721485int, 0x15890b87eb45f4127b7dc503ba2e716b3b714197b74de9c120bde107a71097dfc45f7a30d9c7b1860b842d1202c44a26int);
}

#[verifier::rlimit(40)]
proof fn lemma_root_pow_part_93(r: int)
    requires
        cong(iso_cubic(r), 0),
    ensures
        cong(pow(r, 0x340223d472ffcd3496374f6c869759aec8ee9709e70a257ece61a541ed61ec4nat), quad(0xadaa07fb9262ed1b42e3b5bf190b9ec46eda06475e37e7856efc7d4c25e8d7679a7dbc79a11cfa4a964f241bc8a52fdint, 0xb9808755623d8fc401ba298148eed6b95b891da3a03aeb0855bfcdc78334796a68b35933f9d63e371ae738568f5bf7fint, 0x18e55b2c67e1e939d7eb16b4120e8bef0fc083ea223132ba0e991f1183a093657ba561af229038fe5daf38c547ab6feaint, r)),
{
    lemma_root_pow_part_92(r);
    lemma_square_step(r, 0x680447a8e5ff9a692c6e9ed90d2eb35d91dd2e13ce144afd9cc34a83dac3d8nat, 0x39bb4f4f5d04764da520fadf73b06f29cadc868559a171f5b29cb3fd76754b4fc72f47a1688fa51b706e7bf88fb6b9dint, 0x4a5da1e8ad2ef58d60838e3bf9c44a2a09aba1352f7f6d7fe2ef9fdba1ec72fa0a1abf155d865913a249dce79721485int, 0x15890b87eb45f4127b7dc503ba2e716b3b714197b74de9c120bde107a71097dfc45f7a30d9c7b1860b842d1202c44a26int, 0x4089502ddafccdf22417837cf54d32ed791097ea8d235a814c32e0850f95e4b9e7d8ab3f36e0ff312e051fc3b6a6b64int, 0x14097543d43b78460bdd84e6741c022cc89d3e34eb0ff2ebe060a6da1579372ccead2748a7fad85110fefde657003190int, 0x935e23d1c31e6938ab230ff926337cb2c88ce744c32b36456f91b7772dd283018026ddcaf7aa84ad68fc93de49d1e76int);
    lemma_times_root_step(r, 0xd0088f51cbff34d258dd3db21a5d66bb23ba5c279c2895fb39869507b587b0nat, 0x4089502ddafccdf22417837cf54d32ed791097ea8d235a814c32e0850f95e4b9e7d8ab3f36e0ff312e051fc3b6a6b64int, 0x14097543d43b78460bdd84e6741c022cc89d3e34eb0ff2ebe060a6da1579372ccead2748a7fad85110fefde657003190int, 0x935e23d1c31e6938ab230ff926337cb2c88ce744c32b36456f91b7772dd283018026ddcaf7aa84ad68fc93de49d1e76int, 0x4da2f8dbbe0d14db1ba9d6bdbf751353b4e4403ab947ae6a1efe7afcac38e816afce2cc540d4709370047b6d7624cf6int, 0x18eac7a6901884503db2d227c2ef139a30f43a4b16c70426d1017710aebf0c0c9de30ce650a56b5fb33fccdb38165668int, 0x14097543d43b78460bdd84e6741c022cc89d3e34eb0ff2ebe060a6da1579372ccead2748a7fad85110fefde657003190int);
    lemma_square_step(r, 0xd0088f51cbff34d258dd3db21a5d66bb23ba5c279c2895fb39869507b587b1nat, 0x4da2f8dbbe0d14db1ba9d6bdbf751353b4e4403ab947ae6a1efe7afcac38e816afce2cc540d4709370047b6d7624cf6int, 0x18eac7a6901884503db2d227c2ef139a30f43a4b16c70426d1017710aebf0c0c9de30ce650a56b5fb33fccdb38165668int, 0x14097543d43b78460bdd84e6741c022cc89d3e34eb0ff2ebe060a6da1579372ccead2748a7fad85110fefde657003190int, 0x16185587ca66490ccc19a04c71ff8b9336ffac0fc6a475304fc7db52f0b1b5f94d67ec9d842ec5b55df00d671436cc6dint, 0x13b3b3e84f381766e64ca06d278c7f0dde5541356e42aed10c6c19aeca96297c2dc0b4ba0079fa648e6a1f87c08ecb55int, 0x10ca62ab8b8c88194b4c49ce5e8360ac3eab893a922d11d5ecd1f3cd736442d24ac034de360a9340cb10caf54cbc5d49int);
    lemma_square_step(r, 0x1a0111ea397fe69a4b1ba7b6434bacd764774b84f38512bf6730d2a0f6b0f62nat, 0x16185587ca66490ccc19a04c71ff8b9336ffac0fc6a475304fc7db52f0b1b5f94d67ec9d842ec5b55df00d671436cc6dint, 0x13b3b3e84f381766e64ca06d278c7f0dde5541356e42aed10c6c19aeca96297c2dc0b4ba0079fa648e6a1f87c08ecb55int, 0x10ca62ab8b8c88194b4c49ce5e8360ac3eab893a922d11d5ecd1f3cd736442d24ac034de360a9340cb10caf54cbc5d49int, 0xadaa07fb9262ed1b42e3b5bf190b9ec46eda06475e37e7856efc7d4c25e8d7679a7dbc79a11cfa4a964f241bc8a52fdint, 0xb9808755623d8fc401ba298148eed6b95b891da3a03aeb0855bfcdc78334796a68b35933f9d63e371ae738568f5bf7fint, 0x18e55b2c67e1e939d7eb16b4120e8bef0fc083ea223132ba0e991f1183a093657ba561af229038fe5daf38c547ab6feaint);
}

#[verifier::rlimit(40)]
proof fn lemma_root_pow_part_94(r: int)
    requires
        cong(iso_cubic(r), 0),
    ensures
        cong(pow(r, 0x1a0111ea397fe69a4b1ba7b6434bacd764774b84f38512bf6730d2a0f6b0f624nat), quad(0x68a261dff5a0a87cf230374cccd9afb963241464cf5ff4e1fcf1535e6245d11528638bdb04e38fb43c811be1eea491dint, 0x321605c0d9954c00b2c71511d665f035c3c6a291b09deddea6af9c367ed70077db673f49004e13969a4251c089c1e1fint, 0xaff185622aec2a6465ee0cc022f8f5b3a2932079e460ca4b2e8f74434fc0b269969210ff38bf5a28f42747f689a0f00int, r)),
{
    lemma_root_pow_part_93(r);
    lemma_square_step(r, 0x340223d472ffcd3496374f6c869759aec8ee9709e70a257ece61a541ed61ec4nat, 0xadaa07fb9262ed1b42e3b5bf190b9ec46eda06475e37e7856efc7d4c25e8d7679a7dbc79a11cfa4a964f241bc8a52fdint, 0xb9808755623d8fc401ba298148eed6b95b891da3a03aeb0855bfcdc78334796a68b35933f9d63e371ae738568f5bf7fint, 0x18e55b2c67e1e939d7eb16b4120e8bef0fc083ea223132ba0e991f1183a093657ba561af229038fe5daf38c547ab6feaint, 0x18cb16189619a5e5302b3e2c9055f7bb43261e219a4f353d9edfe3bbe183e8b05dd6e28b96da3298f3620ed03f085627int, 0xd325024c3cedcfcc13de5e4e4b16034dcd17ad29b42a74b20df1565bafea2901671a5099cbaaaef68e87056dd9b1cceint, 0x1053ee927e272823622460778473569d0c5dce321e3438f3e32b7d68a3bba3dcc8e41820bb8457713665cc4d56673e54int);
    lemma_times_root_step(r, 0x680447a8e5ff9a692c6e9ed90d2eb35d91dd2e13ce144afd9cc34a83dac3d88nat, 0x18cb16189619a5e5302b3e2c9055f7bb43261e219a4f353d9edfe3bbe183e8b05dd6e28b96da3298f3620ed03f085627int, 0xd325024c3cedcfcc13de5e4e4b16034dcd17ad29b42a74b20df1565bafea2901671a5099cbaaaef68e87056dd9b1cceint, 0x1053ee927e272823622460778473569d0c5dce321e3438f3e32b7d68a3bba3dcc8e41820bb8457713665cc4d56673e54int, 0x5fb95dc151527fc10db8f9c3349afa7d9ac47f9468f38c64633d38783ecebec1566ace65b3332d19b9c23dac96df7afint, 0xf823a267d7016d3de803cc16d2df1269118baefc7772ae97333b0a2d2d8012b24f2f121357cbe49bea1ce2af8f48d2cint, 0xd325024c3cedcfcc13de5e4e4b16034dcd17ad29b42a74b20df1565bafea2901671a5099cbaaaef68e87056dd9b1cceint);
    lemma_square_step(r, 0x680447a8e5ff9a692c6e9ed90d2eb35d91dd2e13ce144afd9cc34a83dac3d89nat, 0x5fb95dc151527fc10db8f9c3349afa7d9ac47f9468f38c64633d38783ecebec1566ace65b3332d19b9c23dac96df7afint, 0xf823a267d7016d3de803cc16d2df1269118baefc7772ae97333b0a2d2d8012b24f2f121357cbe49bea1ce2af8f48d2cint, 0xd325024c3cedcfcc13de5e4e4b16034dcd17ad29b42a74b20df1565bafea2901671a5099cbaaaef68e87056dd9b1cceint, 0xee3fb8b8de8a0d310a4620e345dd3ffb49a4788b7bc42e69006ea342dacd8ec01c89793d8884fbc698628073bb49c65int, 0x19d2c8470bba3029b56770e748dbfd153eaa3c4a4dfc546c37ab60721fd17a4545b3916d0f111cd2b4f39bb9fb8d2cd0int, 0x8a69dab1d0e8aa745f1e929f2dcb69852c210a516a2d753ae985ab9a82d51b18015b112aa51c7f3a208d31983cb568aint);
    lemma_square_step(r, 0xd0088f51cbff34d258dd3db21a5d66bb23ba5c279c2895fb39869507b587b12nat, 0xee3fb8b8de8a0d310a4620e345dd3ffb49a4788b7bc42e69006ea342dacd8ec01c89793d8884fbc698628073bb49c65int, 0x19d2c8470bba3029b56770e748dbfd153eaa3c4a4dfc546c37ab60721fd17a4545b3916d0f111cd2b4f39bb9fb8d2cd0int, 0x8a69dab1d0e8aa745f1e929f2dcb69852c210a516a2d753ae985ab9a82d51b18015b112aa51c7f3a208d31983cb568aint, 0x68a261dff5a0a87cf230374cccd9afb963241464cf5ff4e1fcf1535e6245d11528638bdb04e38fb43c811be1eea491dint, 0x321605c0d9954c00b2c71511d665f035c3c6a291b09deddea6af9c367ed70077db673f49004e13969a4251c089c1e1fint, 0xaff185622aec2a6465ee0cc022f8f5b3a2932079e460ca4b2e8f74434fc0b269969210ff38bf5a28f42747f689a0f00int);
}

#[verifier::rlimit(40)]
proof fn lemma_root_pow_part_95(r: int)
    requires
        cong(iso_cubic(r), 0),
    ensures
        cong(pow(r, 0x1a0111ea397fe69a4b1ba7b6434bacd764774b84f38512bf6730d2a0f6b0f6240nat), quad(0xdba5d370a8a9b2d1400cfd35e89fe24c18ccad876f32ca5d4b9262bd353969e8cfade1557666bdd13888549cfb2c4d9int, 0x1c407a0c796b37ead723901a586bead01624a960453549002eb6b9766b4bd7dadb2515752b725cd02d850e2a7740b9dint, 0x16eaff9a990b4935a430916b1f67dc4c55ff80b51ccaeec4625eeee7f7f716de16e9e5a125ff293e2d588cc8a2dd8377int, r)),
{
    lemma_root_pow_part_94(r);
    lemma_square_step(r, 0x1a0111ea397fe69a4b1ba7b6434bacd764774b84f38512bf6730d2a0f6b0f624nat, 0x68a261dff5a0a87cf230374cccd9afb963241464cf5ff4e1fcf1535e6245d11528638bdb04e38fb43c811be1eea491dint, 0x321605c0d9954c00b2c71511d665f035c3c6a291b09deddea6af9c367ed70077db673f49004e13969a4251c089c1e1fint, 0xaff185622aec2a6465ee0cc022f8f5b3a2932079e460ca4b2e8f74434fc0b269969210ff38bf5a28f42747f689a0f00int, 0xc55601fe85d02eb6d1835c0dc1c709a50fa286faffb1604469b691f0aeaf7a259d979d896bcd1a214b78aec49656d82int, 0x1b00c8db0ef44b2d198af815204753ed70ccf1523ba5bd522c1cb571efab5624a0e255f3ce1e83e1cc0799f43ba4807int, 0x130303d4640a7b7dcea3f5a422840089709a92f50a937b8a8899416a625c3dd9aeee39bf7bea48efaec3817dfdf08ffdint);
    lemma_square_step(r, 0x340223d472ffcd3496374f6c869759aec8ee9709e70a257ece61a541ed61ec48nat, 0xc55601fe85d02eb6d1835c0dc1c709a50fa286faffb1604469b691f0aeaf7a259d979d896bcd1a214b78aec49656d82int, 0x1b00c8db0ef44b2d198af815204753ed70ccf1523ba5bd522c1cb571efab5624a0e255f3ce1e83e1cc0799f43ba4807int, 0x130303d4640a7b7dcea3f5a422840089709a92f50a937b8a8899416a625c3dd9aeee39bf7bea48efaec3817dfdf08ffdint, 0x15b554497d457d37d6febb8095073935245e83ba9c212aecea13fbe72b361d9057883a409a2a2e6c3abb571a832edebdint, 0x14650a5cd3ae483b7c02b2a221be8e280f69c2e980d93eb923aa91a8463737fa34ec8f15cff3908899dc9b4369e6d414int, 0xbba5c6774c66ef8c4903ca06364f71f69a83a44dbb091989b1fc9e2af0834c850d1103da7f4f6f06d73e7c16c11b1a5int);
    lemma_square_step(r, 0x680447a8e5ff9a692c6e9ed90d2eb35d91dd2e13ce144afd9cc34a83dac3d890nat, 0x15b554497d457d37d6febb8095073935245e83ba9c212aecea13fbe72b361d9057883a409a2a2e6c3abb571a832edebdint, 0x14650a5cd3ae483b7c02b2a221be8e280f69c2e980d93eb923aa91a8463737fa34ec8f15cff3908899dc9b4369e6d414int, 0xbba5c6774c66ef8c4903ca06364f71f69a83a44dbb091989b1fc9e2af0834c850d1103da7f4f6f06d73e7c16c11b1a5int, 0x13f09b6a3482dbaf310372d7ddb64388cdab2e2fe6d02bcbd9657f00e8bddbdd7eccab5c4f2390724956f1d2670ea074int, 0x77d15de3d4177911fa5dbadd1f3c04f7783569049922ba50d41444810a00a3e6ad8049cfc59ba05cb8d92aeaa789d9int, 0x10ed6af7f027c410a4a32f3e099209d00ea3fb31b99fce9747bf2ed394ff6b68ffb96c6ba9b49cd6d36108399d689c64int);
    lemma_square_step(r, 0xd0088f51cbff34d258dd3db21a5d66bb23ba5c279c2895fb39869507b587b120nat, 0x13f09b6a3482dbaf310372d7ddb64388cdab2e2fe6d02bcbd9657f00e8bddbdd7eccab5c4f2390724956f1d2670ea074int, 0x77d15de3d4177911fa5dbadd1f3c04f7783569049922ba50d41444810a00a3e6ad8049cfc59ba05cb8d92aeaa789d9int, 0x10ed6af7f027c410a4a32f3e099209d00ea3fb31b99fce9747bf2ed394ff6b68ffb96c6ba9b49cd6d36108399d689c64int, 0xdba5d370a8a9b2d1400cfd35e89fe24c18ccad876f32ca5d4b9262bd353969e8cfade1557666bdd13888549cfb2c4d9int, 0x1c407a0c796b37ead723901a586bead01624a960453549002eb6b9766b4bd7dadb2515752b725cd02d850e2a7740b9dint, 0x16eaff9a990b4935a430916b1f67dc4c55ff80b51ccaeec4625eeee7f7f716de16e9e5a125ff293e2d588cc8a2dd8377int);
}

#[verifier::rlimit(40)]
proof fn lemma_root_pow_part_96(r: int)
    requires
        cong(iso_cubic(r), 0),
    ensures
        cong(pow(r, 0x680447a8e5ff9a692c6e9ed90d2eb35d91dd2e13ce144afd9cc34a83dac3d8906nat), quad(0x127f93593bd32733bf0b45c9990e224d8465dd4a918c5b7d4588a86f7cd7fd1dcb0f5b3b03d8aacd4aede178c76313cdint, 0x3ceb10e55b372e364a9d5487c84f12f0bb0c80c8363a5084c087117c0853425fe1f8ff17975a8788ef91a6a9deb73f5int, 0x157b80d37a509a5ddbe3d3d9c4f4e4eda168f8c1857e918b678028b907792d0b6e75fbe862c607edaaec2135f1808335int, r)),
{
    lemma_root_pow_part_95(r);
    lemma_times_root_step(r, 0x1a0111ea397fe69a4b1ba7b6434bacd764774b84f38512bf6730d2a0f6b0f6240nat, 0xdba5d370a8a9b2d1400cfd35e89fe24c18ccad876f32ca5d4b9262bd353969e8cfade1557666bdd13888549cfb2c4d9int, 0x1c407a0c796b37ead723901a586bead01624a960453549002eb6b9766b4bd7dadb2515752b725cd02d850e2a7740b9dint, 0x16eaff9a990b4935a430916b1f67dc4c55ff80b51ccaeec4625eeee7f7f716de16e9e5a125ff293e2d588cc8a2dd8377int, 0xa9468d1debcba5564b4a7385f7719e2932a783ffd37396c5db631c44c8353ae269c7a12a0b68f1b8acd84bb13cee884int, 0x18233dd94127513f9cf46dd16b790bafe8682e8aaa68d56951a235d2a154563c3ee9723828002fb97e11906a9bc493cfint, 0x1c407a0c796b37ead723901a586bead01624a960453549002eb6b9766b4bd7dadb2515752b725cd02d850e2a7740b9dint);
    lemma_square_step(r, 0x1a0111ea397fe69a4b1ba7b6434bacd764774b84f38512bf6730d2a0f6b0f6241nat, 0xa9468d1debcba5564b4a7385f7719e2932a783ffd37396c5db631c44c8353ae269c7a12a0b68f1b8acd84bb13cee884int, 0x18233dd94127513f9cf46dd16b790bafe8682e8aaa68d56951a235d2a154563c3ee9723828002fb97e11906a9bc493cfint, 0x1c407a0c796b37ead723901a586bead01624a960453549002eb6b9766b4bd7dadb2515752b725cd02d850e2a7740b9dint, 0x2a6a18424af41e3614fc9a8d3a6930cac09a77d799626118ebc7e35d4fe363ea60053884f1f04ef4d2a10a9caf5d973int, 0x16fab536ae54bc3949c58ce56a82f6b24bbc5090fa99d48414a527478a0b7c4ed7735b455cf60ace79e607e008b68096int, 0xc0f087eb9aa871f033db5cea781fcfb93b4f909135b5192560962aa0b4ae04880a208dbbd6205d16683e8f6567263d9int);
    lemma_times_root_step(r, 0x340223d472ffcd3496374f6c869759aec8ee9709e70a257ece61a541ed61ec482nat, 0x2a6a18424af41e3614fc9a8d3a6930cac09a77d799626118ebc7e35d4fe363ea60053884f1f04ef4d2a10a9caf5d973int, 0x16fab536ae54bc3949c58ce56a82f6b24bbc5090fa99d48414a527478a0b7c4ed7735b455cf60ace79e607e008b68096int, 0xc0f087eb9aa871f033db5cea781fcfb93b4f909135b5192560962aa0b4ae04880a208dbbd6205d16683e8f6567263d9int, 0x131b54c64fe0cd8eea0d86a88b862515e0cd390cf3207de73aa9fdac1b2305dcced047fa587bd62bf2b1a1d9ff489080int, 0xd2202f8b6e8eaa35b60848f641431d7d5abc1c63e722bb597e8f8caa5bee03a17f170bd6fcf7174e4da76816d571653int, 0x16fab536ae54bc3949c58ce56a82f6b24bbc5090fa99d48414a527478a0b7c4ed7735b455cf60ace79e607e008b68096int);
    lemma_square_step(r, 0x340223d472ffcd3496374f6c869759aec8ee9709e70a257ece61a541ed61ec483nat, 0x131b54c64fe0cd8eea0d86a88b862515e0cd390cf3207de73aa9fdac1b2305dcced047fa587bd62bf2b1a1d9ff489080int, 0xd2202f8b6e8eaa35b60848f641431d7d5abc1c63e722bb597e8f8caa5bee03a17f170bd6fcf7174e4da76816d571653int, 0x16fab536ae54bc3949c58ce56a82f6b24bbc5090fa99d48414a527478a0b7c4ed7735b455cf60ace79e607e008b68096int, 0x127f93593bd32733bf0b45c9990e224d8465dd4a918c5b7d4588a86f7cd7fd1dcb0f5b3b03d8aacd4aede178c76313cdint, 0x3ceb10e55b372e364a9d5487c84f12f0bb0c80c8363a5084c087117c0853425fe1f8ff17975a8788ef91a6a9deb73f5int, 0x157b80d37a509a5ddbe3d3d9c4f4e4eda168f8c1857e918b678028b907792d0b6e75fbe862c607edaaec2135f1808335int);
}

#[verifier::rlimit(40)]
proof fn lemma_root_pow_part_97(r: int)
    requires
        cong(iso_cubic(r), 0),
    ensures
        cong(pow(r, 0x1a0111ea397fe69a4b1ba7b6434bacd764774b84f38512bf6730d2a0f6b0f6241enat), quad(0x30b896c2ca8dafcd0ad9c633deecde218357b7455481591700c3eab6987e3bd2ba950340ffec00c9194dd959e9edd93int, 0xedd9d121fbaae8d5b3f5a5c169a5f91fa329cbcab226738de5099e85882f313b941600120d2e431f94c6f2beb718d5int, 0x1214ab1fe20ac877488a7dfd78097b81f22e64baca80233996e681385c19f176c9b6fd66df2f9cf5a15e5840793d51b8int, r)),
{
    lemma_root_pow_part_96(r);
    lemma_times_root_step(r, 0x680447a8e5ff9a692c6e9ed90d2eb35d91dd2e13ce144afd9cc34a83dac3d8906nat, 0x127f93593bd32733bf0b45c9990e224d8465dd4a918c5b7d4588a86f7cd7fd1dcb0f5b3b03d8aacd4aede178c76313cdint, 0x3ceb10e55b372e364a9d5487c84f12f0bb0c80c8363a5084c087117c0853425fe1f8ff17975a8788ef91a6a9deb73f5int, 0x157b80d37a509a5ddbe3d3d9c4f4e4eda168f8c1857e918b678028b907792d0b6e75fbe862c607edaaec2135f1808335int, 0xabae93840c91a8a2e0d8f64f448834e16c78eaabfa76d4f5245fb84b9a6d07df4b562d28f2695e4bc56976266ed8f24int, 0x3740302827cd0044f61b04d93b9eba359969149fb41035db728699789a03cb9148bfee9cfa68915e53d2bc1fcc6bf4eint, 0x3ceb10e55b372e364a9d5487c84f12f0bb0c80c8363a5084c087117c0853425fe1f8ff17975a8788ef91a6a9deb73f5int);
    lemma_square_step(r, 0x680447a8e5ff9a692c6e9ed90d2eb35d91dd2e13ce144afd9cc34a83dac3d8907nat, 0xabae93840c91a8a2e0d8f64f448834e16c78eaabfa76d4f5245fb84b9a6d07df4b562d28f2695e4bc56976266ed8f24int, 0x3740302827cd0044f61b04d93b9eba359969149fb41035db728699789a03cb9148bfee9cfa68915e53d2bc1fcc6bf4eint, 0x3ceb10e55b372e364a9d5487c84f12f0bb0c80c8363a5084c087117c0853425fe1f8ff17975a8788ef91a6a9deb73f5int, 0x10282c2920927c8489c2673b160e731c40598eed51909d9470a3132b54a5599aee7d38ab4ea0af1f9efeed24c1681fd4int, 0xd325cc62f2e66401136af864aa59d49164cd840ce9078565a26de895386003c5a3cbf9421c88eaf66038561caecac43int, 0x9c8ba74f26c79c67400ea3bb262cbf80cece3fea25b108de91a18be1410e4533ff599c62e9b28e08597ce6e1cde849fint);
    lemma_times_root_step(r, 0xd0088f51cbff34d258dd3db21a5d66bb23ba5c279c2895fb39869507b587b120enat, 0x10282c2920927c8489c2673b160e731c40598eed51909d9470a3132b54a5599aee7d38ab4ea0af1f9efeed24c1681fd4int, 0xd325cc62f2e66401136af864aa59d49164cd840ce9078565a26de895386003c5a3cbf9421c88eaf66038561caecac43int, 0x9c8ba74f26c79c67400ea3bb262cbf80cece3fea25b108de91a18be1410e4533ff599c62e9b28e08597ce6e1cde849fint, 0x30caefe92b1ba9763e4d90fb86f89a9a5d3696e5c725cb1fe2048be8c3f58390add8cd1ce48d98556982be9b3d25aeeint, 0x3d1f03ed3e4726c7fc4d16913acedccf3df02f561f29eb5e199a4a727a6bc1b14c6fcf60f8acaff4c8918243f11f72aint, 0xd325cc62f2e66401136af864aa59d49164cd840ce9078565a26de895386003c5a3cbf9421c88eaf66038561caecac43int);
    lemma_square_step(r, 0xd0088f51cbff34d258dd3db21a5d66bb23ba5c279c2895fb39869507b587b120fnat, 0x30caefe92b1ba9763e4d90fb86f89a9a5d3696e5c725cb1fe2048be8c3f58390add8cd1ce48d98556982be9b3d25aeeint, 0x3d1f03ed3e4726c7fc4d16913acedccf3df02f561f29eb5e199a4a727a6bc1b14c6fcf60f8acaff4c8918243f11f72aint, 0xd325cc62f2e66401136af864aa59d49164cd840ce9078565a26de895386003c5a3cbf9421c88eaf66038561caecac43int, 0x30b896c2ca8dafcd0ad9c633deecde218357b7455481591700c3eab6987e3bd2ba950340ffec00c9194dd959e9edd93int, 0xedd9d121fbaae8d5b3f5a5c169a5f91fa329cbcab226738de5099e85882f313b941600120d2e431f94c6f2beb718d5int, 0x1214ab1fe20ac877488a7dfd78097b81f22e64baca80233996e681385c19f176c9b6fd66df2f9cf5a15e5840793d51b8int);
}

#[verifier::rlimit(40)]
proof fn lemma_root_pow_part_98(r: int)
    requires
        cong(iso_cubic(r), 0),
    ensures
        cong(pow(r, 0xd0088f51cbff34d258dd3db21a5d66bb23ba5c279c2895fb39869507b587b120f4nat), quad(0x1812e914361ae390d8741d4273ee93ab24f5c58ee5cac30a1b6ac2920707d784df3fa83f7ea9b20ee2b7a7265d616a48int, 0x13fe19baf5446939e954b9f86d5ca1cdf5b92498e484f16f8befb595677871fa36b645e32e36a95dd9a9eba352ce951cint, 0x1bfe757a3342d91e7b5b1cf66fb4ac117dee0198f765e28fe57539ae852334ac0a80ee526eb016f822213ab6b4bf1int, r)),
{
    lemma_root_pow_part_97(r);
    lemma_square_step(r, 0x1a0111ea397fe69a4b1ba7b6434bacd764774b84f38512bf6730d2a0f6b0f6241enat, 0x30b896c2ca8dafcd0ad9c633deecde218357b7455481591700c3eab6987e3bd2ba950340ffec00c9194dd959e9edd93int, 0xedd9d121fbaae8d5b3f5a5c169a5f91fa329cbcab226738de5099e85882f313b941600120d2e431f94c6f2beb718d5int, 0x1214ab1fe20ac877488a7dfd78097b81f22e64baca80233996e681385c19f176c9b6fd66df2f9cf5a15e5840793d51b8int, 0x40a3e79e45df12b495c7cb309b457cf375cdd24bb7b262c39d99bbb2e68f098567e3bc96457630983dc4590c29a0147int, 0x14ff5b7f241c6408a1fd5ea3e809a53e79975bb00ae849af4e55b352218ac35fa535570b58f8df661229133b1a256649int, 0xeb6aafe1b21b490f62261cc7851a55b3b6184535d96567bdc238202a2c141b494628d27584550afbad7bbe9c6df0a0aint);
    lemma_times_root_step(r, 0x340223d472ffcd3496374f6c869759aec8ee9709e70a257ece61a541ed61ec483cnat, 0x40a3e79e45df12b495c7cb309b457cf375cdd24bb7b262c39d99bbb2e68f098567e3bc96457630983dc4590c29a0147int, 0x14ff5b7f241c6408a1fd5ea3e809a53e79975bb00ae849af4e55b352218ac35fa535570b58f8df661229133b1a256649int, 0xeb6aafe1b21b490f62261cc7851a55b3b6184535d96567bdc238202a2c141b494628d27584550afbad7bbe9c6df0a0aint, 0x1cd240889eef8cf3f483ef715c48c2825f9012289984d4747461dc0d260c4bd910e1346063368b795de070af3e35033int, 0x7d2a83a867d3548321f09720861a17db11e51dbbcee55dc83d1b911059f8f51aca78c117eecf2ae7c644c15f43b53aeint, 0x14ff5b7f241c6408a1fd5ea3e809a53e79975bb00ae849af4e55b352218ac35fa535570b58f8df661229133b1a256649int);
    lemma_square_step(r, 0x340223d472ffcd3496374f6c869759aec8ee9709e70a257ece61a541ed61ec483dnat, 0x1cd240889eef8cf3f483ef715c48c2825f9012289984d4747461dc0d260c4bd910e1346063368b795de070af3e35033int, 0x7d2a83a867d3548321f09720861a17db11e51dbbcee55dc83d1b911059f8f51aca78c117eecf2ae7c644c15f43b53aeint, 0x14ff5b7f241c6408a1fd5ea3e809a53e79975bb00ae849af4e55b352218ac35fa535570b58f8df661229133b1a256649int, 0x139d52adef2a0429c16ce08e1e3eaf1e2de31a6083f2d10cee4237251a349b578595ca9aac5efa6075cbf700f94469fbint, 0x110135deef1a5e954bb2fc5036932f264aea40d4a31110850f3ad9458da03e30870ff2e0447ed8e5083e41c5a4336a98int, 0x26eaa0cc033d95ffdf54b376141ff5de562b75f841994aed05141f30f15fd4186a071a949c59da4005a60df7d06d2a0int);
    lemma_square_step(r, 0x680447a8e5ff9a692c6e9ed90d2eb35d91dd2e13ce144afd9cc34a83dac3d8907anat, 0x139d52adef2a0429c16ce08e1e3eaf1e2de31a6083f2d10cee4237251a349b578595ca9aac5efa6075cbf700f94469fbint, 0x110135deef1a5e954bb2fc5036932f264aea40d4a31110850f3ad9458da03e30870ff2e0447ed8e5083e41c5a4336a98int, 0x26eaa0cc033d95ffdf54b376141ff5de562b75f841994aed05141f30f15fd4186a071a949c59da4005a60df7d06d2a0int, 0x1812e914361ae390d8741d4273ee93ab24f5c58ee5cac30a1b6ac2920707d784df3fa83f7ea9b20ee2b7a7265d616a48int, 0x13fe19baf5446939e954b9f86d5ca1cdf5b92498e484f16f8befb595677871fa36b645e32e36a95dd9a9eba352ce951cint, 0x1bfe757a3342d91e7b5b1cf66fb4ac117dee0198f765e28fe57539ae852334ac0a80ee526eb016f822213ab6b4bf1int);
}

#[verifier::rlimit(40)]
proof fn lemma_root_pow_part_99(r: int)
    requires
        cong(iso_cubic(r), 0),
    ensures
        cong(pow(r, 0x340223d472ffcd3496374f6c869759aec8ee9709e70a257ece61a541ed61ec483d5nat), quad(0x11eacc9471f867eb36555b34d459d84e8b1a3c85374ba4e67ccfa1f0934b03888cd6280ab093efe9dee23dbb7981aa3fint, 0xd2ec1bdd980990228fca752674b73b41c53d7574fe64e568e8f78b596c9d3b7886887bab9d2a88d777efdf9978fc3a2int, 0x10b7946b87805088f98784e1fd20fbc134566f611571e75bda1846ab27fe36dd3dfe249edf65f7db3176bdd5d11bd6ebint, r)),
{
    lemma_root_pow_part_98(r);
    lemma_times_root_step(r, 0xd0088f51cbff34d258dd3db21a5d66bb23ba5c279c2895fb39869507b587b120f4nat, 0x1812e914361ae390d8741d4273ee93ab24f5c58ee5cac30a1b6ac2920707d784df3fa83f7ea9b20ee2b7a7265d616a48int, 0x13fe19baf5446939e954b9f86d5ca1cdf5b92498e484f16f8befb595677871fa36b645e32e36a95dd9a9eba352ce951cint, 0x1bfe757a3342d91e7b5b1cf66fb4ac117dee0198f765e28fe57539ae852334ac0a80ee526eb016f822213ab6b4bf1int, 0x5a86e8e006e3decb41660d8956b2b5eb79aceb322714148530518cf1f01ba6997cc123e83780b150bfdb9bddc45686bint, 0xcf48b2e70127ac98d8019f14ef62becd1c3d695e5dee9932ea42b9d871e080f327254eb76fc00a1c38845d5a8eb7d23int, 0x13fe19baf5446939e954b9f86d5ca1cdf5b92498e484f16f8befb595677871fa36b645e32e36a95dd9a9eba352ce951cint);
    lemma_square_step(r, 0xd0088f51cbff34d258dd3db21a5d66bb23ba5c279c2895fb39869507b587b120f5nat, 0x5a86e8e006e3decb41660d8956b2b5eb79aceb322714148530518cf1f01ba6997cc123e83780b150bfdb9bddc45686bint, 0xcf48b2e70127ac98d8019f14ef62becd1c3d695e5dee9932ea42b9d871e080f327254eb76fc00a1c38845d5a8eb7d23int, 0x13fe19baf5446939e954b9f86d5ca1cdf5b92498e484f16f8befb595677871fa36b645e32e36a95dd9a9eba352ce951cint, 0x3129692899b83a6563ed0c8cb09aa221b36ee69f66c73a1d0d192c145607f212cca01099be03fed05b7a7f59f815185int, 0x18b9e12f8dcfbabdf8eef716340268078529fe6a5c1e31724f6cb7d3f27c48e316be46218eb6cdd64ec58e855e5af43bint, 0x11da286f919c3e6a91c2c09aba7a435f64b32b4d094fbb21615165a373614f5a08d17e0d42db2bdedbade8ef35d1321aint);
    lemma_square_step(r, 0x1a0111ea397fe69a4b1ba7b6434bacd764774b84f38512bf6730d2a0f6b0f6241eanat, 0x3129692899b83a6563ed0c8cb09aa221b36ee69f66c73a1d0d192c145607f212cca01099be03fed05b7a7f59f815185int, 0x18b9e12f8dcfbabdf8eef716340268078529fe6a5c1e31724f6cb7d3f27c48e316be46218eb6cdd64ec58e855e5af43bint, 0x11da286f919c3e6a91c2c09aba7a435f64b32b4d094fbb21615165a373614f5a08d17e0d42db2bdedbade8ef35d1321aint, 0xf55f65f3e564310ad77c2365bdede3fb5e89e008d13a4f8864c9f6bf84a7592b60b410084cef5cbae050227e8ccce17int, 0x10b7946b87805088f98784e1fd20fbc134566f611571e75bda1846ab27fe36dd3dfe249edf65f7db3176bdd5d11bd6ebint, 0x2c626fa02afa2e45ef7f3a199c0e09077112a500daf36bd950c8207d6ff45065a4b796119fc19b98045ce5e204c36a1int);
    lemma_times_root_step(r, 0x340223d472ffcd3496374f6c869759aec8ee9709e70a257ece61a541ed61ec483d4nat, 0xf55f65f3e564310ad77c2365bdede3fb5e89e008d13a4f8864c9f6bf84a7592b60b410084cef5cbae050227e8ccce17int, 0x10b7946b87805088f98784e1fd20fbc134566f611571e75bda1846ab27fe36dd3dfe249edf65f7db3176bdd5d11bd6ebint, 0x2c626fa02afa2e45ef7f3a199c0e09077112a500daf36bd950c8207d6ff45065a4b796119fc19b98045ce5e204c36a1int, 0x11eacc9471f867eb36555b34d459d84e8b1a3c85374ba4e67ccfa1f0934b03888cd6280ab093efe9dee23dbb7981aa3fint, 0xd2ec1bdd980990228fca752674b73b41c53d7574fe64e568e8f78b596c9d3b7886887bab9d2a88d777efdf9978fc3a2int, 0x10b7946b87805088f98784e1fd20fbc134566f611571e75bda1846ab27fe36dd3dfe249edf65f7db3176bdd5d11bd6ebint);
}

#[verifier::rlimit(40)]
proof fn lemma_root_pow_part_100(r: int)
    requires
        cong(iso_cubic(r), 0),
    ensures
        cong(pow(r, 0x1a0111ea397fe69a4b1ba7b6434bacd764774b84f38512bf6730d2a0f6b0f6241eaanat), quad(0xc25be6b475a6f57c3d0c74c61f1dab593ef787c120e29fac030b9d2e63d307897c08e1149860bcd327f824045b89988int, 0x9f437911b1518a582a56b4470b2d863e142ff48cd31815ef3595915131cc8909d8801b56e98c080bb5672be91f2ac02int, 0x16a51706cd74d59841485b2d34a35d633096cf482d8feffc4a9ea26db332beecdb40759797ee6a15e66343e2d5fff151int, r)),
{
    lemma_root_pow_part_99(r);
    lemma_square_step(r, 0x340223d472ffcd3496374f6c869759aec8ee9709e70a257ece61a541ed61ec483d5nat, 0x11eacc9471f867eb36555b34d459d84e8b1a3c85374ba4e67ccfa1f0934b03888cd6280ab093efe9dee23dbb7981aa3fint, 0xd2ec1bdd980990228fca752674b73b41c53d7574fe64e568e8f78b596c9d3b7886887bab9d2a88d777efdf9978fc3a2int, 0x10b7946b87805088f98784e1fd20fbc134566f611571e75bda1846ab27fe36dd3dfe249edf65f7db3176bdd5d11bd6ebint, 0x15566663809aee53d1433b9e5fbfff03decf866a9f5dbeacc22a310f6350e1de36f7eeb1de3c64ede1ba1e040ea894f5int, 0x83931216af16f9cf8461bc28c3c0ab6f1b01b40e03db3a58be276c5b1cb13157efde075d6012eba168e099c96efaa13int, 0x19393d34228cc41eb9bebfade42c36f90f6fb4df632a8f1efa0249c05c184602c8423f8c3357201e686a68291631892dint);
    lemma_square_step(r, 0x680447a8e5ff9a692c6e9ed90d2eb35d91dd2e13ce144afd9cc34a83dac3d8907aanat, 0x15566663809aee53d1433b9e5fbfff03decf866a9f5dbeacc22a310f6350e1de36f7eeb1de3c64ede1ba1e040ea894f5int, 0x83931216af16f9cf8461bc28c3c0ab6f1b01b40e03db3a58be276c5b1cb13157efde075d6012eba168e099c96efaa13int, 0x19393d34228cc41eb9bebfade42c36f90f6fb4df632a8f1efa0249c05c184602c8423f8c3357201e686a68291631892dint, 0x38c86c501b38868327f7de0e746564bff4ee46d033973002e91dd13d4e4e65becfb135a9ccda2175374ccb42438432cint, 0x13fcd49da96139631f5eca58fa5aaa7732c97554507970a674e9d13ea531abcc80c2fe39bdb65e4c76c70fc809c71861int, 0x196763c74baecb2dd37cab1912a9566637d924e66ccc7e3f49033ee0ebea8c640e9c0ea0e3e4817b4c849a8ca106ca62int);
    lemma_times_root_step(r, 0xd0088f51cbff34d258dd3db21a5d66bb23ba5c279c2895fb39869507b587b120f54nat, 0x38c86c501b38868327f7de0e746564bff4ee46d033973002e91dd13d4e4e65becfb135a9ccda2175374ccb42438432cint, 0x13fcd49da96139631f5eca58fa5aaa7732c97554507970a674e9d13ea531abcc80c2fe39bdb65e4c76c70fc809c71861int, 0x196763c74baecb2dd37cab1912a9566637d924e66ccc7e3f49033ee0ebea8c640e9c0ea0e3e4817b4c849a8ca106ca62int, 0x979256899f5da6448b006f96048bd91788d6b3274b899ff6c8d7ccd9bf152a9fd11bdd7914b6919903ac2fb420c56a4int, 0xf0ad4150b3d1853dd19bb076ac90c43d2e36993ac02fce9896ac56de31038bd7b984b682078a572a7203cfac04e6441int, 0x13fcd49da96139631f5eca58fa5aaa7732c97554507970a674e9d13ea531abcc80c2fe39bdb65e4c76c70fc809c71861int);
    lemma_square_step(r, 0xd0088f51cbff34d258dd3db21a5d66bb23ba5c279c2895fb39869507b587b120f55nat, 0x979256899f5da6448b006f96048bd91788d6b3274b899ff6c8d7ccd9bf152a9fd11bdd7914b6919903ac2fb420c56a4int, 0xf0ad4150b3d1853dd19bb076ac90c43d2e36993ac02fce9896ac56de31038bd7b984b682078a572a7203cfac04e6441int, 0x13fcd49da96139631f5eca58fa5aaa7732c97554507970a674e9d13ea531abcc80c2fe39bdb65e4c76c70fc809c71861int, 0xc25be6b475a6f57c3d0c74c61f1dab593ef787c120e29fac030b9d2e63d307897c08e1149860bcd327f824045b89988int, 0x9f437911b1518a582a56b4470b2d863e142ff48cd31815ef3595915131cc8909d8801b56e98c080bb5672be91f2ac02int, 0x16a51706cd74d59841485b2d34a35d633096cf482d8feffc4a9ea26db332beecdb40759797ee6a15e66343e2d5fff151int);
}

#[verifier::rlimit(40)]
proof fn lemma_root_pow_part_101(r: int)
    requires
        cong(iso_cubic(r), 0),
    ensures
        cong(pow(r, 0x680447a8e5ff9a692c6e9ed90d2eb35d91dd2e13ce144afd9cc34a83dac3d8907aaenat), quad(0xef386288c1cc94796840447d7049ddd41070351a4e9fffdc244bad1ba9bd756aeab202dd04a19e1282c909c4d81cc59int, 0x18deaf13ddb882a3bdee2072cff7faadbc05424c2b905f4b2bbff23c164090b077381c33256a4ca3e00500cda27b54a0int, 0xfd34bb51fa8d0fdffe74184f2b77ba8dc6fc5fb865288d4abf1593eb5727440fcc627073c76c5cc1c8abc973563b437int, r)),
{
    lemma_root_pow_part_100(r);
    lemma_times_root_step(r, 0x1a0111ea397fe69a4b1ba7b6434bacd764774b84f38512bf6730d2a0f6b0f6241eaanat, 0xc25be6b475a6f57c3d0c74c61f1dab593ef787c120e29fac030b9d2e63d307897c08e1149860bcd327f824045b89988int, 0x9f437911b1518a582a56b4470b2d863e142ff48cd31815ef3595915131cc8909d8801b56e98c080bb5672be91f2ac02int, 0x16a51706cd74d59841485b2d34a35d633096cf482d8feffc4a9ea26db332beecdb40759797ee6a15e66343e2d5fff151int, 0x7da5adfbbf306e69e23f6ae2ed169c7a1c6985019dab3a43df2dffb85001bcc55f67cff67b6307661bc2da4768f1d31int, 0x6766c8d61eaefcfa0606d6e6a4c7645f53881366329d9fad8ecf6bf7a70344d91ddeb8d0e17eab3ce49a3b7d2e32a81int, 0x9f437911b1518a582a56b4470b2d863e142ff48cd31815ef3595915131cc8909d8801b56e98c080bb5672be91f2ac02int);
    lemma_square_step(r, 0x1a0111ea397fe69a4b1ba7b6434bacd764774b84f38512bf6730d2a0f6b0f6241eabnat, 0x7da5adfbbf306e69e23f6ae2ed169c7a1c6985019dab3a43df2dffb85001bcc55f67cff67b6307661bc2da4768f1d31int, 0x6766c8d61eaefcfa0606d6e6a4c7645f53881366329d9fad8ecf6bf7a70344d91ddeb8d0e17eab3ce49a3b7d2e32a81int, 0x9f437911b1518a582a56b4470b2d863e142ff48cd31815ef3595915131cc8909d8801b56e98c080bb5672be91f2ac02int, 0x2192d4c562d31b78e26cfa35882ed861a4f029b121527c864d5a696c224f07da10de9e938a6374046be11a1c1a832a3int, 0x3d7af25e131e7e925da5ecf25f9fd50eee8f9e986c6008ec2a751f4a8428ad9ade2f1432a43dd36c660dd2924438cbfint, 0x1e097b2121ea2d491fc1f1da10cc7d9c274b793198075d91bef3a0eace7e7c3e3b183f7abc636061c0225c018fb770fint);
    lemma_times_root_step(r, 0x340223d472ffcd3496374f6c869759aec8ee9709e70a257ece61a541ed61ec483d56nat, 0x2192d4c562d31b78e26cfa35882ed861a4f029b121527c864d5a696c224f07da10de9e938a6374046be11a1c1a832a3int, 0x3d7af25e131e7e925da5ecf25f9fd50eee8f9e986c6008ec2a751f4a8428ad9ade2f1432a43dd36c660dd2924438cbfint, 0x1e097b2121ea2d491fc1f1da10cc7d9c274b793198075d91bef3a0eace7e7c3e3b183f7abc636061c0225c018fb770fint, 0x722702f2c399bfbd20e709e92066c90bf3507126011f759882fc10ba36b6f9d85a176f5fdac7a33b2d5077218866635int, 0x1a922be2b919924347736f0cccc26ef1762ae3644263ebb417b1231b28475e70f58de0acb49d779134762c74feea50int, 0x3d7af25e131e7e925da5ecf25f9fd50eee8f9e986c6008ec2a751f4a8428ad9ade2f1432a43dd36c660dd2924438cbfint);
    lemma_square_step(r, 0x340223d472ffcd3496374f6c869759aec8ee9709e70a257ece61a541ed61ec483d57nat, 0x722702f2c399bfbd20e709e92066c90bf3507126011f759882fc10ba36b6f9d85a176f5fdac7a33b2d5077218866635int, 0x1a922be2b919924347736f0cccc26ef1762ae3644263ebb417b1231b28475e70f58de0acb49d779134762c74feea50int, 0x3d7af25e131e7e925da5ecf25f9fd50eee8f9e986c6008ec2a751f4a8428ad9ade2f1432a43dd36c660dd2924438cbfint, 0xef386288c1cc94796840447d7049ddd41070351a4e9fffdc244bad1ba9bd756aeab202dd04a19e1282c909c4d81cc59int, 0x18deaf13ddb882a3bdee2072cff7faadbc05424c2b905f4b2bbff23c164090b077381c33256a4ca3e00500cda27b54a0int, 0xfd34bb51fa8d0fdffe74184f2b77ba8dc6fc5fb865288d4abf1593eb5727440fcc627073c76c5cc1c8abc973563b437int);
}

#[verifier::rlimit(40)]
proof fn lemma_root_pow_part_102(r: int)
    requires
        cong(iso_cubic(r), 0),
    ensures
        cong(pow(r, 0x1a0111ea397fe69a4b1ba7b6434bacd764774b84f38512bf6730d2a0f6b0f6241eabenat), quad(0x732a1bb655f966483d89ff2a17d1a1b120feef58d650813e7be4499693b4bc0c6d6fd46509f05db92748000c3ce18ccint, 0x577f745c1860661c57209a86b200374bac8bcc71537a3842fccbc3906e983990f06f2cdcf0a8b350f53ef00aa6bf3fcint, 0x112e0325ebcd28dcd96bccc4a5d70cd49974fe86424da0242be1310b788e9922399ef66f84ec8a1bdfde7ba6df984735int, r)),
{
    lemma_root_pow_part_101(r);
    lemma_times_root_step(r, 0x680447a8e5ff9a692c6e9ed90d2eb35d91dd2e13ce144afd9cc34a83dac3d8907aaenat, 0xef386288c1cc94796840447d7049ddd41070351a4e9fffdc244bad1ba9bd756aeab202dd04a19e1282c909c4d81cc59int, 0x18deaf13ddb882a3bdee2072cff7faadbc05424c2b905f4b2bbff23c164090b077381c33256a4ca3e00500cda27b54a0int, 0xfd34bb51fa8d0fdffe74184f2b77ba8dc6fc5fb865288d4abf1593eb5727440fcc627073c76c5cc1c8abc973563b437int, 0xe4885dd29f515ca96e96683d3329207b3835e6e13dff864a86c74e4d7246bf9751757424e0ae4b2f81d63325c26218fint, 0x609e70b73f470293817bb6589bd087407f4e074765556e16bb9c83adaf0286802bdf6b1f45eac6bfb7e7e53a29df544int, 0x18deaf13ddb882a3bdee2072cff7faadbc05424c2b905f4b2bbff23c164090b077381c33256a4ca3e00500cda27b54a0int);
    lemma_square_step(r, 0x680447a8e5ff9a692c6e9ed90d2eb35d91dd2e13ce144afd9cc34a83dac3d8907aafnat, 0xe4885dd29f515ca96e96683d3329207b3835e6e13dff864a86c74e4d7246bf9751757424e0ae4b2f81d63325c26218fint, 0x609e70b73f470293817bb6589bd087407f4e074765556e16bb9c83adaf0286802bdf6b1f45eac6bfb7e7e53a29df544int, 0x18deaf13ddb882a3bdee2072cff7faadbc05424c2b905f4b2bbff23c164090b077381c33256a4ca3e00500cda27b54a0int, 0x4ccc6250f8e91ca6fbaa419dea4effbe547c299ad3c68296c33ddbd75ab603a034955047a88803edd5396ee0b5c060dint, 0xbd1189da6cff7e214147e8252295472b31ec569ce3025687ff381733e67f265762f013423c4b9a4825ccb6e8787de5fint, 0xf725376d3246a6aec54598c42cbf0b9518ca80293ff4a5aed88d99210e57045fe930816b7f2fd9bb81ce469c957146int);
    lemma_times_root_step(r, 0xd0088f51cbff34d258dd3db21a5d66bb23ba5c279c2895fb39869507b587b120f55enat, 0x4ccc6250f8e91ca6fbaa419dea4effbe547c299ad3c68296c33ddbd75ab603a034955047a88803edd5396ee0b5c060dint, 0xbd1189da6cff7e214147e8252295472b31ec569ce3025687ff381733e67f265762f013423c4b9a4825ccb6e8787de5fint, 0xf725376d3246a6aec54598c42cbf0b9518ca80293ff4a5aed88d99210e57045fe930816b7f2fd9bb81ce469c957146int, 0x60b55fbff0d43d9b61dfd9001d74867b8f9030eadb3c94e1c6ba10635fc3e5d4b992192ba1fbbd19d45eafe324e545int, 0x142b14056bf61ca27f89277c68b9dea34f3966f2196aaffb6e3c0689947eca47cb978d5244397c677291f21f21231a55int, 0xbd1189da6cff7e214147e8252295472b31ec569ce3025687ff381733e67f265762f013423c4b9a4825ccb6e8787de5fint);
    lemma_square_step(r, 0xd0088f51cbff34d258dd3db21a5d66bb23ba5c279c2895fb39869507b587b120f55fnat, 0x60b55fbff0d43d9b61dfd9001d74867b8f9030eadb3c94e1c6ba10635fc3e5d4b992192ba1fbbd19d45eafe324e545int, 0x142b14056bf61ca27f89277c68b9dea34f3966f2196aaffb6e3c0689947eca47cb978d5244397c677291f21f21231a55int, 0xbd1189da6cff7e214147e8252295472b31ec569ce3025687ff381733e67f265762f013423c4b9a4825ccb6e8787de5fint, 0x732a1bb655f966483d89ff2a17d1a1b120feef58d650813e7be4499693b4bc0c6d6fd46509f05db92748000c3ce18ccint, 0x577f745c1860661c57209a86b200374bac8bcc71537a3842fccbc3906e983990f06f2cdcf0a8b350f53ef00aa6bf3fcint, 0x112e0325ebcd28dcd96bccc4a5d70cd49974fe86424da0242be1310b788e9922399ef66f84ec8a1bdfde7ba6df984735int);
}

#[verifier::rlimit(40)]
proof fn lemma_root_pow_part_103(r: int)
    requires
        cong(iso_cubic(r), 0),
    ensures
        cong(pow(r, 0x680447a8e5ff9a692c6e9ed90d2eb35d91dd2e13ce144afd9cc34a83dac3d8907aafenat), quad(0x874532591d015ffc7b740911252b128162d3f340c201f662e67cfe7c7456cb7511781fc49df753d7d4ffdfd3ab0a71fint, 0x1639e085ef2e15f6a3ddc1756334999d5afaabd2a2bdacdc7b213f9637f27a418fdf046e6b672841bc2e3cfc7bb0faefint, 0xf8e8bfa13d8cc257172b2a9794f2d88d22971d29d638528b8b1dfa44bd3477b087d4dd3e579bcb7d6b398aa8c03bd31int, r)),
{
    lemma_root_pow_part_102(r);
    lemma_times_root_step(r, 0x1a0111ea397fe69a4b1ba7b6434bacd764774b84f38512bf6730d2a0f6b0f6241eabenat, 0x732a1bb655f966483d89ff2a17d1a1b120feef58d650813e7be4499693b4bc0c6d6fd46509f05db92748000c3ce18ccint, 0x577f745c1860661c57209a86b200374bac8bcc71537a3842fccbc3906e983990f06f2cdcf0a8b350f53ef00aa6bf3fcint, 0x112e0325ebcd28dcd96bccc4a5d70cd49974fe86424da0242be1310b788e9922399ef66f84ec8a1bdfde7ba6df984735int, 0x28f627ffc7d9a20834c512046e9c84e9c66793b9a2554393b06b59170dccc5ac33d4dff24c43794c3a77ca59fcab1faint, 0x30269719dcac68d444dd98cb6ba90b6e2e66683d332e23c739da80c7529f66d3bd0d106bcb13b2172fb1e665daef134int, 0x577f745c1860661c57209a86b200374bac8bcc71537a3842fccbc3906e983990f06f2cdcf0a8b350f53ef00aa6bf3fcint);
    lemma_square_step(r, 0x1a0111ea397fe69a4b1ba7b6434bacd764774b84f38512bf6730d2a0f6b0f6241eabfnat, 0x28f627ffc7d9a20834c512046e9c84e9c66793b9a2554393b06b59170dccc5ac33d4dff24c43794c3a77ca59fcab1faint, 0x30269719dcac68d444dd98cb6ba90b6e2e66683d332e23c739da80c7529f66d3bd0d106bcb13b2172fb1e665daef134int, 0x577f745c1860661c57209a86b200374bac8bcc71537a3842fccbc3906e983990f06f2cdcf0a8b350f53ef00aa6bf3fcint, 0x41df2df5fd093d370e6bb9f536fb1c5d0aa215c31a1b22fbb6ae5c3e2e575f71713794a999b683415b0b845cb33ffd3int, 0x4bddd307daebade6900b3d3ad4c6185c6875306b7575a7f97db7228ae694397c7b3e8fe8ff3876682b42148d6bdbb0cint, 0xf334035df3e67a367fbef250ade0669119ce7bdadf54d57ec255684f26bf213b51e02463ae880d4571cee230c09a93aint);
    lemma_times_root_step(r, 0x340223d472ffcd3496374f6c869759aec8ee9709e70a257ece61a541ed61ec483d57enat, 0x41df2df5fd093d370e6bb9f536fb1c5d0aa215c31a1b22fbb6ae5c3e2e575f71713794a999b683415b0b845cb33ffd3int, 0x4bddd307daebade6900b3d3ad4c6185c6875306b7575a7f97db7228ae694397c7b3e8fe8ff3876682b42148d6bdbb0cint, 0xf334035df3e67a367fbef250ade0669119ce7bdadf54d57ec255684f26bf213b51e02463ae880d4571cee230c09a93aint, 0x9e741271ebf79ea964582b965ae71686445c29b159e3257595045bb283cd42bae37f9eb4c2a5ebefaebfce3d3ee7ef7int, 0x103e80210748df37abc4a500d08923bfcb02b20985432005d2b9aa95bf7696612cf47d6138a12dbc4cd9bd63441b6baint, 0x4bddd307daebade6900b3d3ad4c6185c6875306b7575a7f97db7228ae694397c7b3e8fe8ff3876682b42148d6bdbb0cint);
    lemma_square_step(r, 0x340223d472ffcd3496374f6c869759aec8ee9709e70a257ece61a541ed61ec483d57fnat, 0x9e741271ebf79ea964582b965ae71686445c29b159e3257595045bb283cd42bae37f9eb4c2a5ebefaebfce3d3ee7ef7int, 0x103e80210748df37abc4a500d08923bfcb02b20985432005d2b9aa95bf7696612cf47d6138a12dbc4cd9bd63441b6baint, 0x4bddd307daebade6900b3d3ad4c6185c6875306b7575a7f97db7228ae694397c7b3e8fe8ff3876682b42148d6bdbb0cint, 0x874532591d015ffc7b740911252b128162d3f340c201f662e67cfe7c7456cb7511781fc49df753d7d4ffdfd3ab0a71fint, 0x1639e085ef2e15f6a3ddc1756334999d5afaabd2a2bdacdc7b213f9637f27a418fdf046e6b672841bc2e3cfc7bb0faefint, 0xf8e8bfa13d8cc257172b2a9794f2d88d22971d29d638528b8b1dfa44bd3477b087d4dd3e579bcb7d6b398aa8c03bd31int);
}

#[verifier::rlimit(40)]
proof fn lemma_root_pow_part_104(r: int)
    requires
        cong(iso_cubic(r), 0),
    ensures
        cong(pow(r, 0x1a0111ea397fe69a4b1ba7b6434bacd764774b84f38512bf6730d2a0f6b0f6241eabfenat), quad(0xbffbead8e1849652c1bb8a656a1d8130369d341ab8ba437049e00dd5b98123687aed53fea3d4ffb1b73c4b654211781int, 0x182c642edbc9e854e40ef0221aa01f7428c0d8dc6a2501fd3b9ff7385afdc4f0f51df7d49614a866b0c05ab7b48d7365int, 0xe7d395e89c7a2055d025ea36b7099b572e758d6a9d1cf94f7d15776d1bcea6892100ee106a8e946c7994f249edc94afint, r)),
{
    lemma_root_pow_part_103(r);
    lemma_times_root_step(r, 0x680447a8e5ff9a692c6e9ed90d2eb35d91dd2e13ce144afd9cc34a83dac3d8907aafenat, 0x874532591d015ffc7b740911252b128162d3f340c201f662e67cfe7c7456cb7511781fc49df753d7d4ffdfd3ab0a71fint, 0x1639e085ef2e15f6a3ddc1756334999d5afaabd2a2bdacdc7b213f9637f27a418fdf046e6b672841bc2e3cfc7bb0faefint, 0xf8e8bfa13d8cc257172b2a9794f2d88d22971d29d638528b8b1dfa44bd3477b087d4dd3e579bcb7d6b398aa8c03bd31int, 0x145806b5b689304c7817f423d4a298f505f2b6a714d9fa36e3bec1b577b22ee61149dfb807fd9e9925090ad397fca6b9int, 0xa9ce7d1de8b7755ed51cceca46f3dd1c0ea1791446c1ceb9c9776074ad5fe3e3de47d41be27ee1bedb5722c6f1120e1int, 0x1639e085ef2e15f6a3ddc1756334999d5afaabd2a2bdacdc7b213f9637f27a418fdf046e6b672841bc2e3cfc7bb0faefint);
    lemma_square_step(r, 0x680447a8e5ff9a692c6e9ed90d2eb35d91dd2e13ce144afd9cc34a83dac3d8907aaffnat, 0x145806b5b689304c7817f423d4a298f505f2b6a714d9fa36e3bec1b577b22ee61149dfb807fd9e9925090ad397fca6b9int, 0xa9ce7d1de8b7755ed51cceca46f3dd1c0ea1791446c1ceb9c9776074ad5fe3e3de47d41be27ee1bedb5722c6f1120e1int, 0x1639e085ef2e15f6a3ddc1756334999d5afaabd2a2bdacdc7b213f9637f27a418fdf046e6b672841bc2e3cfc7bb0faefint, 0xff8b3e2554f0508e5f9d59d59353ef3c0037df4bd085e93327a7b4f24fd91581a3176c8b45635b7971858b9e7481eadint, 0x13dd6034b1fe5637c70fba5109bd5c745f41ff06d3186dfb86b6a61e3f4e94e6d35748a5e914c40ddb02f7ed092dcd15int, 0xe41bc94401131a876b09dcf30f84fc2252126f9c4c8180def624716d2b6727fcfa9130491b31c16562294b405de642fint);
    lemma_times_root_step(r, 0xd0088f51cbff34d258dd3db21a5d66bb23ba5c279c2895fb39869507b587b120f55fenat, 0xff8b3e2554f0508e5f9d59d59353ef3c0037df4bd085e93327a7b4f24fd91581a3176c8b45635b7971858b9e7481eadint, 0x13dd6034b1fe5637c70fba5109bd5c745f41ff06d3186dfb86b6a61e3f4e94e6d35748a5e914c40ddb02f7ed092dcd15int, 0xe41bc94401131a876b09dcf30f84fc2252126f9c4c8180def624716d2b6727fcfa9130491b31c16562294b405de642fint, 0x1011fb86474c1f949899feaa024d177d6c81bb6011f55967ddacd4613e2e8a6c5c521ee57fbf6b54d0775384d73f1fcfint, 0xcdcf1527ef35e6a7e07abc7c595a6a9fbe2dd9e47e6c3c9ca26a4ea602bbb1c200353a4dc9b322170cc103cbb957a13int, 0x13dd6034b1fe5637c70fba5109bd5c745f41ff06d3186dfb86b6a61e3f4e94e6d35748a5e914c40ddb02f7ed092dcd15int);
    lemma_square_step(r, 0xd0088f51cbff34d258dd3db21a5d66bb23ba5c279c2895fb39869507b587b120f55ffnat, 0x1011fb86474c1f949899feaa024d177d6c81bb6011f55967ddacd4613e2e8a6c5c521ee57fbf6b54d0775384d73f1fcfint, 0xcdcf1527ef35e6a7e07abc7c595a6a9fbe2dd9e47e6c3c9ca26a4ea602bbb1c200353a4dc9b322170cc103cbb957a13int, 0x13dd6034b1fe5637c70fba5109bd5c745f41ff06d3186dfb86b6a61e3f4e94e6d35748a5e914c40ddb02f7ed092dcd15int, 0xbffbead8e1849652c1bb8a656a1d8130369d341ab8ba437049e00dd5b98123687aed53fea3d4ffb1b73c4b654211781int, 0x182c642edbc9e854e40ef0221aa01f7428c0d8dc6a2501fd3b9ff7385afdc4f0f51df7d49614a866b0c05ab7b48d7365int, 0xe7d395e89c7a2055d025ea36b7099b572e758d6a9d1cf94f7d15776d1bcea6892100ee106a8e946c7994f249edc94afint);
}

#[verifier::rlimit(40)]
proof fn lemma_root_pow_part_105(r: int)
    requires
        cong(iso_cubic(r), 0),
    ensures
        cong(pow(r, 0x680447a8e5ff9a692c6e9ed90d2eb35d91dd2e13ce144afd9cc34a83dac3d8907aaffenat), quad(0xfe59cfa68a92a5ed32e6ab8d5e847acc98c0f4b84fae56519b089e10afb5e113f26e7c5d75bc75e23dfd676faf14cadint, 0x197dbf3ca6e2d7b2954d782f656498b53824df3d55853ea3c9cf5b6cdcee4a12a076b6a8fa99f5c10486512830c8b2f8int, 0xdf2dadf58aa14c005135571da9d9ca188a482141fde478e6bdf7e5ab64eca3bb39641b2140a007ccc1fc49644b1152dint, r)),
{
    lemma_root_pow_part_104(r);
    lemma_times_root_step(r, 0x1a0111ea397fe69a4b1ba7b6434bacd764774b84f38512bf6730d2a0f6b0f6241eabfenat, 0xbffbead8e1849652c1bb8a656a1d8130369d341ab8ba437049e00dd5b98123687aed53fea3d4ffb1b73c4b654211781int, 0x182c642edbc9e854e40ef0221aa01f7428c0d8dc6a2501fd3b9ff7385afdc4f0f51df7d49614a866b0c05ab7b48d7365int, 0xe7d395e89c7a2055d025ea36b7099b572e758d6a9d1cf94f7d15776d1bcea6892100ee106a8e946c7994f249edc94afint, 0x122e7c6ebc498e9ca4fe19a5053326d5d84f5a053f63cddc73d98db850c433940fc0395477b384e0ca67f17c95b77c60int, 0x187914b65107a04a7496a136264ff8f850e303b2632ff14be46b397793013643873e910abeda9707dc90d320930d8469int, 0x182c642edbc9e854e40ef0221aa01f7428c0d8dc6a2501fd3b9ff7385afdc4f0f51df7d49614a866b0c05ab7b48d7365int);
    lemma_square_step(r, 0x1a0111ea397fe69a4b1ba7b6434bacd764774b84f38512bf6730d2a0f6b0f6241eabffnat, 0x122e7c6ebc498e9ca4fe19a5053326d5d84f5a053f63cddc73d98db850c433940fc0395477b384e0ca67f17c95b77c60int, 0x187914b65107a04a7496a136264ff8f850e303b2632ff14be46b397793013643873e910abeda9707dc90d320930d8469int, 0x182c642edbc9e854e40ef0221aa01f7428c0d8dc6a2501fd3b9ff7385afdc4f0f51df7d49614a866b0c05ab7b48d7365int, 0xc1ec1072dd2a5566c6fc03e9a532b327d38d8b9a5fec9632247aa123f62727ea077bf31b012fd058f849670778f3ce0int, 0x647381eea97865e7b30cb92ca69814dc3c3f15ff9d87054b2791efbba85a5e29e1838d0a71f9fe871fb51b721645afdint, 0xdd5bf0befff377693c752398cb14da7d5e31d5a24670c7986f98b66a379a8dd2210649eb595e8aab5e36828e51243e9int);
    lemma_times_root_step(r, 0x340223d472ffcd3496374f6c869759aec8ee9709e70a257ece61a541ed61ec483d57fenat, 0xc1ec1072dd2a5566c6fc03e9a532b327d38d8b9a5fec9632247aa123f62727ea077bf31b012fd058f849670778f3ce0int, 0x647381eea97865e7b30cb92ca69814dc3c3f15ff9d87054b2791efbba85a5e29e1838d0a71f9fe871fb51b721645afdint, 0xdd5bf0befff377693c752398cb14da7d5e31d5a24670c7986f98b66a379a8dd2210649eb595e8aab5e36828e51243e9int, 0x7040282547c50fb124515e21591ec8058bc4b7f7ba7980d9a48c2f2686ea9e41e970007c1106f8395d81aed69852687int, 0x179e459afdc19ca5e8721e386c28a71b783a7ef69b65148807f75ebb421d793f472f68565ca91810fc4bd940593b9097int, 0x647381eea97865e7b30cb92ca69814dc3c3f15ff9d87054b2791efbba85a5e29e1838d0a71f9fe871fb51b721645afdint);
    lemma_square_step(r, 0x340223d472ffcd3496374f6c869759aec8ee9709e70a257ece61a541ed61ec483d57ffnat, 0x7040282547c50fb124515e21591ec8058bc4b7f7ba7980d9a48c2f2686ea9e41e970007c1106f8395d81aed69852687int, 0x179e459afdc19ca5e8721e386c28a71b783a7ef69b65148807f75ebb421d793f472f68565ca91810fc4bd940593b9097int, 0x647381eea97865e7b30cb92ca69814dc3c3f15ff9d87054b2791efbba85a5e29e1838d0a71f9fe871fb51b721645afdint, 0xfe59cfa68a92a5ed32e6ab8d5e847acc98c0f4b84fae56519b089e10afb5e113f26e7c5d75bc75e23dfd676faf14cadint, 0x197dbf3ca6e2d7b2954d782f656498b53824df3d55853ea3c9cf5b6cdcee4a12a076b6a8fa99f5c10486512830c8b2f8int, 0xdf2dadf58aa14c005135571da9d9ca188a482141fde478e6bdf7e5ab64eca3bb39641b2140a007ccc1fc49644b1152dint);
}

#[verifier::rlimit(40)]
proof fn lemma_root_pow_part_106(r: int)
    requires
        cong(iso_cubic(r), 0),
    ensures
        cong(pow(r, 0x1a0111ea397fe69a4b1ba7b6434bacd764774b84f38512bf6730d2a0f6b0f6241eabffenat), quad(0x19555490bd71299592f213dd987d5553895306f06acff7317e068b7d6a573eb42a7708a0590aaceed93d236529b33b61int, 0x8dc80d369f278627d4685c41e192b4e5547235846bfbba953ac03de80c418726e4918b98bc13b33ae1555c4802d69cbint, 0x1b9a0a31192ba0bbe51661111a644315ea9a010b4fc473bf6fc4570b4d15909ffbade8797bce6d133ec2098a938ec54int, r)),
{
    lemma_root_pow_part_105(r);
    lemma_times_root_step(r, 0x680447a8e5ff9a692c6e9ed90d2eb35d91dd2e13ce144afd9cc34a83dac3d8907aaffenat, 0xfe59cfa68a92a5ed32e6ab8d5e847acc98c0f4b84fae56519b089e10afb5e113f26e7c5d75bc75e23dfd676faf14cadint, 0x197dbf3ca6e2d7b2954d782f656498b53824df3d55853ea3c9cf5b6cdcee4a12a076b6a8fa99f5c10486512830c8b2f8int, 0xdf2dadf58aa14c005135571da9d9ca188a482141fde478e6bdf7e5ab64eca3bb39641b2140a007ccc1fc49644b1152dint, 0x63b5e42a0a4ee83d50327eb64a8a0aae78dca783ac1146fd9a679a17f053e2b506a299b4da2965f8ec7fdcb0d18f4f4int, 0x169aa166818103617fc8226fbb984112eeda5178918bd5bd8e5033fc1e954e9480bf2a66f3037d0b2d2a581345e02e99int, 0x197dbf3ca6e2d7b2954d782f656498b53824df3d55853ea3c9cf5b6cdcee4a12a076b6a8fa99f5c10486512830c8b2f8int);
    lemma_square_step(r, 0x680447a8e5ff9a692c6e9ed90d2eb35d91dd2e13ce144afd9cc34a83dac3d8907aafffnat, 0x63b5e42a0a4ee83d50327eb64a8a0aae78dca783ac1146fd9a679a17f053e2b506a299b4da2965f8ec7fdcb0d18f4f4int, 0x169aa166818103617fc8226fbb984112eeda5178918bd5bd8e5033fc1e954e9480bf2a66f3037d0b2d2a581345e02e99int, 0x197dbf3ca6e2d7b2954d782f656498b53824df3d55853ea3c9cf5b6cdcee4a12a076b6a8fa99f5c10486512830c8b2f8int, 0x97acfc660eb7d8a5219f4121af91acbe4be2e19caf92cf1a367ae3b46f6ff7c6804e28f2efa4bd816c6bdaf839b6c4dint, 0x5a88d905dfdee5dd142eabae84d18024ca12877256a8c225899b69ecff3233f4ea27d015b27062315df50cc101f0a54int, 0xff5039566276f543a9669021c04f687df1ab25d4f5730a64b1cad3cacca15a80391173d5058a58d3ee78233e9fd1534int);
    lemma_times_root_step(r, 0xd0088f51cbff34d258dd3db21a5d66bb23ba5c279c2895fb39869507b587b120f55ffenat, 0x97acfc660eb7d8a5219f4121af91acbe4be2e19caf92cf1a367ae3b46f6ff7c6804e28f2efa4bd816c6bdaf839b6c4dint, 0x5a88d905dfdee5dd142eabae84d18024ca12877256a8c225899b69ecff3233f4ea27d015b27062315df50cc101f0a54int, 0xff5039566276f543a9669021c04f687df1ab25d4f5730a64b1cad3cacca15a80391173d5058a58d3ee78233e9fd1534int, 0x136c8eb9a1cac86c3a09475b0e45bf559f8a9cfe44a3bfe3b0710717f2daca73752a28ca45d9130e6bb8fe79abddcb9eint, 0x6e55f26a93be4bb6608e1908729a94479bc7efb63dd1fb3f19eba631664dc8fd49e96c660d00a461f3ba26e36a30142int, 0x5a88d905dfdee5dd142eabae84d18024ca12877256a8c225899b69ecff3233f4ea27d015b27062315df50cc101f0a54int);
    lemma_square_step(r, 0xd0088f51cbff34d258dd3db21a5d66bb23ba5c279c2895fb39869507b587b120f55fffnat, 0x136c8eb9a1cac86c3a09475b0e45bf559f8a9cfe44a3bfe3b0710717f2daca73752a28ca45d9130e6bb8fe79abddcb9eint, 0x6e55f26a93be4bb6608e1908729a94479bc7efb63dd1fb3f19eba631664dc8fd49e96c660d00a461f3ba26e36a30142int, 0x5a88d905dfdee5dd142eabae84d18024ca12877256a8c225899b69ecff3233f4ea27d015b27062315df50cc101f0a54int, 0x19555490bd71299592f213dd987d5553895306f06acff7317e068b7d6a573eb42a7708a0590aaceed93d236529b33b61int, 0x8dc80d369f278627d4685c41e192b4e5547235846bfbba953ac03de80c418726e4918b98bc13b33ae1555c4802d69cbint, 0x1b9a0a31192ba0bbe51661111a644315ea9a010b4fc473bf6fc4570b4d15909ffbade8797bce6d133ec2098a938ec54int);
}

#[verifier::rlimit(40)]
proof fn lemma_root_pow_part_107(r: int)
    requires
        cong(iso_cubic(r), 0),
    ensures
        cong(pow(r, 0x680447a8e5ff9a692c6e9ed90d2eb35d91dd2e13ce144afd9cc34a83dac3d8907aafffenat), quad(0x172f6eec6250f5b453cb634ba27754eb589e862195bf1c78322ec3eebaa555fd6d66a2010950930aa3a86ab382751efaint, 0x94454212fe40665f271b6f38c059b56418f875c33e4872cf3273e9567efe5b6369e16653ed6955c61af60987dc5f390int, 0x19097be79fcb69b10bcb2ace5f7c216497c22c81e145e48c33a345966cee09f61fffa8976cc96fefef4d8c5b2b8f48e8int, r)),
{
    lemma_root_pow_part_106(r);
    lemma_times_root_step(r, 0x1a0111ea397fe69a4b1ba7b6434bacd764774b84f38512bf6730d2a0f6b0f6241eabffenat, 0x19555490bd71299592f213dd987d5553895306f06acff7317e068b7d6a573eb42a7708a0590aaceed93d236529b33b61int, 0x8dc80d369f278627d4685c41e192b4e5547235846bfbba953ac03de80c418726e4918b98bc13b33ae1555c4802d69cbint, 0x1b9a0a31192ba0bbe51661111a644315ea9a010b4fc473bf6fc4570b4d15909ffbade8797bce6d133ec2098a938ec54int, 0x754b09ea6fad5b00520ceb49c4fb9b9b191c99b0ac495f2808ddb1f0ef3f4b554d23d9fdfa3294cc41bfb479efbb28eint, 0x8291bfc381a2d6570673445018277d62d8342ea283593373f904bf7e965e7cdd6b639670e4f3f9aadef2070531f6d24int, 0x8dc80d369f278627d4685c41e192b4e5547235846bfbba953ac03de80c418726e4918b98bc13b33ae1555c4802d69cbint);
    lemma_square_step(r, 0x1a0111ea397fe69a4b1ba7b6434bacd764774b84f38512bf6730d2a0f6b0f6241eabfffnat, 0x754b09ea6fad5b00520ceb49c4fb9b9b191c99b0ac495f2808ddb1f0ef3f4b554d23d9fdfa3294cc41bfb479efbb28eint, 0x8291bfc381a2d6570673445018277d62d8342ea283593373f904bf7e965e7cdd6b639670e4f3f9aadef2070531f6d24int, 0x8dc80d369f278627d4685c41e192b4e5547235846bfbba953ac03de80c418726e4918b98bc13b33ae1555c4802d69cbint, 0x14fab996348ce1ea4c29dfa56640413d22ac0ca3a7406a2948c0d0737865d67e19aaf82d705fbac0aa1b80aa4b2a6727int, 0x19784ea1ae372526e4654a20502dbd74488e4b69dd8d07048f8caf07fe149371bd0ebe03bbefd8d2d6497cf5666af8ebint, 0x13b52ffe831d35061c2f02e10987f4fad249bef4d994c8ba2a1640a614c39b29ce3a4560db5aa97f2c4330247925dd61int);
    lemma_times_root_step(r, 0x340223d472ffcd3496374f6c869759aec8ee9709e70a257ece61a541ed61ec483d57ffenat, 0x14fab996348ce1ea4c29dfa56640413d22ac0ca3a7406a2948c0d0737865d67e19aaf82d705fbac0aa1b80aa4b2a6727int, 0x19784ea1ae372526e4654a20502dbd74488e4b69dd8d07048f8caf07fe149371bd0ebe03bbefd8d2d6497cf5666af8ebint, 0x13b52ffe831d35061c2f02e10987f4fad249bef4d994c8ba2a1640a614c39b29ce3a4560db5aa97f2c4330247925dd61int, 0x13b9c7e8732e7b54206d547a29bbc97299f374b455b876872d3bf9a96893b2ab9114a58e3eeea49efe69b0218fe50bdaint, 0x12d027460ab4c03a0dda24f31f45194358c4e17feb471257d31b71f0311aa279ace7615e016489ef53a65f392215d435int, 0x19784ea1ae372526e4654a20502dbd74488e4b69dd8d07048f8caf07fe149371bd0ebe03bbefd8d2d6497cf5666af8ebint);
    lemma_square_step(r, 0x340223d472ffcd3496374f6c869759aec8ee9709e70a257ece61a541ed61ec483d57fffnat, 0x13b9c7e8732e7b54206d547a29bbc97299f374b455b876872d3bf9a96893b2ab9114a58e3eeea49efe69b0218fe50bdaint, 0x12d027460ab4c03a0dda24f31f45194358c4e17feb471257d31b71f0311aa279ace7615e016489ef53a65f392215d435int, 0x19784ea1ae372526e4654a20502dbd74488e4b69dd8d07048f8caf07fe149371bd0ebe03bbefd8d2d6497cf5666af8ebint, 0x172f6eec6250f5b453cb634ba27754eb589e862195bf1c78322ec3eebaa555fd6d66a2010950930aa3a86ab382751efaint, 0x94454212fe40665f271b6f38c059b56418f875c33e4872cf3273e9567efe5b6369e16653ed6955c61af60987dc5f390int, 0x19097be79fcb69b10bcb2ace5f7c216497c22c81e145e48c33a345966cee09f61fffa8976cc96fefef4d8c5b2b8f48e8int);
}

#[verifier::rlimit(40)]
proof fn lemma_root_pow_part_108(r: int)
    requires
        cong(iso_cubic(r), 0),
    ensures
        cong(pow(r, 0x1a0111ea397fe69a4b1ba7b6434bacd764774b84f38512bf6730d2a0f6b0f6241eabfffenat), quad(0x6e69551137c5c9359ac29ff3a77c08c18600ba37664e264ddd8f856224aded0e2c55b94ffce69ea7993b9ec5b33acbeint, 0x169199468027056d2b21eba3d7172cb8ec8cd0116b7a6e1eb11ba4ee2ce48deeb813cac536be1610a7ed93bbcfe960e4int, 0x10c579beb8378cae54294ed908a0a77579874026bd15ce90e369900d717ab0cb4e72b5b46c93ee05ca9d653d46758b42int, r)),
{
    lemma_root_pow_part_107(r);
    lemma_times_root_step(r, 0x680447a8e5ff9a692c6e9ed90d2eb35d91dd2e13ce144afd9cc34a83dac3d8907aafffenat, 0x172f6eec6250f5b453cb634ba27754eb589e862195bf1c78322ec3eebaa555fd6d66a2010950930aa3a86ab382751efaint, 0x94454212fe40665f271b6f38c059b56418f875c33e4872cf3273e9567efe5b6369e16653ed6955c61af60987dc5f390int, 0x19097be79fcb69b10bcb2ace5f7c216497c22c81e145e48c33a345966cee09f61fffa8976cc96fefef4d8c5b2b8f48e8int, 0x83f0aa5c87e5d6000adf1f5eb01ef78ca1665a8344c57d35505257111dcd3e785d6e893c8c0bdd452a47ef373855b74int, 0x1cab59568803ed3791f9b13469b96ccdc813abb19ef1695da32800d5d0a1c06ed2eae1b429455db879641593374f7a8int, 0x94454212fe40665f271b6f38c059b56418f875c33e4872cf3273e9567efe5b6369e16653ed6955c61af60987dc5f390int);
    lemma_square_step(r, 0x680447a8e5ff9a692c6e9ed90d2eb35d91dd2e13ce144afd9cc34a83dac3d8907aaffffnat, 0x83f0aa5c87e5d6000adf1f5eb01ef78ca1665a8344c57d35505257111dcd3e785d6e893c8c0bdd452a47ef373855b74int, 0x1cab59568803ed3791f9b13469b96ccdc813abb19ef1695da32800d5d0a1c06ed2eae1b429455db879641593374f7a8int, 0x94454212fe40665f271b6f38c059b56418f875c33e4872cf3273e9567efe5b6369e16653ed6955c61af60987dc5f390int, 0x718189888aeddfa9367f0bea799e502c20bc032733e07974592abb60b27a0674043d7da0657eb99b43f1e726a272676int, 0x580bfec368ff27b8d84f86a0ee41efb0cb3c55029ecf6324fb899d390e93b258651eb3c3d7eb6362cdbb568397fd5d9int, 0x160d98b676046afcc1645996d981e7600e6cd565b2b986caab482306d1e4335678e0f75b7e2b9c1d70564dd4509fc8e9int);
    lemma_times_root_step(r, 0xd0088f51cbff34d258dd3db21a5d66bb23ba5c279c2895fb39869507b587b120f55fffenat, 0x718189888aeddfa9367f0bea799e502c20bc032733e07974592abb60b27a0674043d7da0657eb99b43f1e726a272676int, 0x580bfec368ff27b8d84f86a0ee41efb0cb3c55029ecf6324fb899d390e93b258651eb3c3d7eb6362cdbb568397fd5d9int, 0x160d98b676046afcc1645996d981e7600e6cd565b2b986caab482306d1e4335678e0f75b7e2b9c1d70564dd4509fc8e9int, 0x270d0bddb7b121977f9acea74c2ad5a82666cda546c794efa6fef3d21cf708565325c95f2d5c9ac1d9adbcbc1a798d1int, 0x10e030723cfd571f0da1cc83e0ed52b8b82b351fc78aea6e8055fdf44594e4a3221cfb7b9915152855d7f54b028c7743int, 0x580bfec368ff27b8d84f86a0ee41efb0cb3c55029ecf6324fb899d390e93b258651eb3c3d7eb6362cdbb568397fd5d9int);
    lemma_square_step(r, 0xd0088f51cbff34d258dd3db21a5d66bb23ba5c279c2895fb39869507b587b120f55ffffnat, 0x270d0bddb7b121977f9acea74c2ad5a82666cda546c794efa6fef3d21cf708565325c95f2d5c9ac1d9adbcbc1a798d1int, 0x10e030723cfd571f0da1cc83e0ed52b8b82b351fc78aea6e8055fdf44594e4a3221cfb7b9915152855d7f54b028c7743int, 0x580bfec368ff27b8d84f86a0ee41efb0cb3c55029ecf6324fb899d390e93b258651eb3c3d7eb6362cdbb568397fd5d9int, 0x6e69551137c5c9359ac29ff3a77c08c18600ba37664e264ddd8f856224aded0e2c55b94ffce69ea7993b9ec5b33acbeint, 0x169199468027056d2b21eba3d7172cb8ec8cd0116b7a6e1eb11ba4ee2ce48deeb813cac536be1610a7ed93bbcfe960e4int, 0x10c579beb8378cae54294ed908a0a77579874026bd15ce90e369900d717ab0cb4e72b5b46c93ee05ca9d653d46758b42int);
}

#[verifier::rlimit(40)]
proof fn lemma_root_pow_part_109(r: int)
    requires
        cong(iso_cubic(r), 0),
    ensures
        cong(pow(r, 0xd0088f51cbff34d258dd3db21a5d66bb23ba5c279c2895fb39869507b587b120f55ffff4nat), quad(0x14f3e545ed563687bed44165a16300a78c2b5948b4b02369c7cc1a43593bb2a283963133b13488a7cd31045e553d34e3int, 0xe5b764184d82678a7d59a00ca5cf29d46f6648565b8cce82e0d185f06c099fe1121084f28fd6c40102f61cc919bf36eint, 0xce2f20ab489c73298848f3a8293c2272387e7de607eda76979b7a4840cc09b4ea04c0fc847a95a78978c1a7a5ca99adint, r)),
{
    lemma_root_pow_part_108(r);
    lemma_square_step(r, 0x1a0111ea397fe69a4b1ba7b6434bacd764774b84f38512bf6730d2a0f6b0f6241eabfffenat, 0x6e69551137c5c9359ac29ff3a77c08c18600ba37664e264ddd8f856224aded0e2c55b94ffce69ea7993b9ec5b33acbeint, 0x169199468027056d2b21eba3d7172cb8ec8cd0116b7a6e1eb11ba4ee2ce48deeb813cac536be1610a7ed93bbcfe960e4int, 0x10c579beb8378cae54294ed908a0a77579874026bd15ce90e369900d717ab0cb4e72b5b46c93ee05ca9d653d46758b42int, 0xdd058854a8649ab425aa8fe0fa3ba38efa096c9c0062325791467af31ec4463c5187115e50eec3b07cfe6c0a4f90886int, 0x13cd10dd3b7c307087c94853938f30a3af353ceedab6f8c74e98a25efbc41b1268bb9ef4f969293e23cb607ffd0833d8int, 0xb4dc2f118afd9b246e7f34d5397efd8acd587907c67614d1d6a544806f336edbc18bcba495d360ada8368f2a3b752d3int);
    lemma_times_root_step(r, 0x340223d472ffcd3496374f6c869759aec8ee9709e70a257ece61a541ed61ec483d57fffcnat, 0xdd058854a8649ab425aa8fe0fa3ba38efa096c9c0062325791467af31ec4463c5187115e50eec3b07cfe6c0a4f90886int, 0x13cd10dd3b7c307087c94853938f30a3af353ceedab6f8c74e98a25efbc41b1268bb9ef4f969293e23cb607ffd0833d8int, 0xb4dc2f118afd9b246e7f34d5397efd8acd587907c67614d1d6a544806f336edbc18bcba495d360ada8368f2a3b752d3int, 0xbcec67340e9149667464d0d84d3b24ab4b8905ca4dc2ddba17a6c2aa9a853310179c88e115dd9d5dc5a635f78edc1bcint, 0x39ed2e34b9a5f79533c4d42805563e01139a01326fbe00bc9984d01ded31b4cd9e39032dec530c0e38fb90ca5a57e40int, 0x13cd10dd3b7c307087c94853938f30a3af353ceedab6f8c74e98a25efbc41b1268bb9ef4f969293e23cb607ffd0833d8int);
    lemma_square_step(r, 0x340223d472ffcd3496374f6c869759aec8ee9709e70a257ece61a541ed61ec483d57fffdnat, 0xbcec67340e9149667464d0d84d3b24ab4b8905ca4dc2ddba17a6c2aa9a853310179c88e115dd9d5dc5a635f78edc1bcint, 0x39ed2e34b9a5f79533c4d42805563e01139a01326fbe00bc9984d01ded31b4cd9e39032dec530c0e38fb90ca5a57e40int, 0x13cd10dd3b7c307087c94853938f30a3af353ceedab6f8c74e98a25efbc41b1268bb9ef4f969293e23cb607ffd0833d8int, 0x85bb151a8154c9d11738b1288238d0df817665dd4dab60913bf0fa1352c6e452083d528318b2e6b3f8bc9e9b98a2ca8int, 0x312dbed0191ca5bc14523745091c07be4037e24e7b974a1216b9f855e79fbcf0cbc4ce5375f96558303ae5af7327a60int, 0x7324f1123821c186ff77f852250e9241f4196e0e674416c9a91daa2899a1e972bf949f553d65b0a0cda656302582ed8int);
    lemma_square_step(r, 0x680447a8e5ff9a692c6e9ed90d2eb35d91dd2e13ce144afd9cc34a83dac3d8907aaffffanat, 0x85bb151a8154c9d11738b1288238d0df817665dd4dab60913bf0fa1352c6e452083d528318b2e6b3f8bc9e9b98a2ca8int, 0x312dbed0191ca5bc14523745091c07be4037e24e7b974a1216b9f855e79fbcf0cbc4ce5375f96558303ae5af7327a60int, 0x7324f1123821c186ff77f852250e9241f4196e0e674416c9a91daa2899a1e972bf949f553d65b0a0cda656302582ed8int, 0x14f3e545ed563687bed44165a16300a78c2b5948b4b02369c7cc1a43593bb2a283963133b13488a7cd31045e553d34e3int, 0xe5b764184d82678a7d59a00ca5cf29d46f6648565b8cce82e0d185f06c099fe1121084f28fd6c40102f61cc919bf36eint, 0xce2f20ab489c73298848f3a8293c2272387e7de607eda76979b7a4840cc09b4ea04c0fc847a95a78978c1a7a5ca99adint);
}

#[verifier::rlimit(40)]
proof fn lemma_root_pow_part_110(r: int)
    requires
        cong(iso_cubic(r), 0),
    ensures
        cong(pow(r, 0x340223d472ffcd3496374f6c869759aec8ee9709e70a257ece61a541ed61ec483d57fffd6nat), quad(0x5151b86ed13a47472250e6d5b182e7b97cc7416d319c5cb084e332562330d67ecb0a6cd776556e2ceab2e4b09b435e1int, 0x172546f21db16afca77a91f0c952d3d1e343c503d02a853bff34f379e8952aca4f9d6eeafd0bafb9f68725d92e295b7dint, 0x263d8851f4a3d68ce5c061d286c83d2ed00887daad8edd90ae7222f69f3dc9266532fc564fe0a9706a9db6bbe77dadcint, r)),
{
    lemma_root_pow_part_109(r);
    lemma_times_root_step(r, 0xd0088f51cbff34d258dd3db21a5d66bb23ba5c279c2895fb39869507b587b120f55ffff4nat, 0x14f3e545ed563687bed44165a16300a78c2b5948b4b02369c7cc1a43593bb2a283963133b13488a7cd31045e553d34e3int, 0xe5b764184d82678a7d59a00ca5cf29d46f6648565b8cce82e0d185f06c099fe1121084f28fd6c40102f61cc919bf36eint, 0xce2f20ab489c73298848f3a8293c2272387e7de607eda76979b7a4840cc09b4ea04c0fc847a95a78978c1a7a5ca99adint, 0x7a5c2a748c59856570380e3462b7e22ee12ec41533005327a8b4181e79d316cecdeb824e08b038696796f00046730e0int, 0xbf9c21ada3352366f8f563dd8b92b768ac69a09b651d520a42442dd99df2b805ffb65fd4ea547a715cdaffc5f8b520aint, 0xe5b764184d82678a7d59a00ca5cf29d46f6648565b8cce82e0d185f06c099fe1121084f28fd6c40102f61cc919bf36eint);
    lemma_square_step(r, 0xd0088f51cbff34d258dd3db21a5d66bb23ba5c279c2895fb39869507b587b120f55ffff5nat, 0x7a5c2a748c59856570380e3462b7e22ee12ec41533005327a8b4181e79d316cecdeb824e08b038696796f00046730e0int, 0xbf9c21ada3352366f8f563dd8b92b768ac69a09b651d520a42442dd99df2b805ffb65fd4ea547a715cdaffc5f8b520aint, 0xe5b764184d82678a7d59a00ca5cf29d46f6648565b8cce82e0d185f06c099fe1121084f28fd6c40102f61cc919bf36eint, 0xd9b9d268c17e76fe436cd782f473f8da70e3f8767f1499dfec1d7f83c6ec88854b22fb0d9edec4818a152deb27b96ceint, 0x15f854514ecfd8c9af7846f02d1d4ff07cfc1f4a940392eb2d59ce37f0c27a9a0c1b4b92ad0dbc05040eb374a2ac8464int, 0xf06edbb576aa809b16f3c8eecbc744f3f0526db9c1e139d15b5cd8219f02dad85c21c77b371e07b2d87a4d3da5bc4e9int);
    lemma_times_root_step(r, 0x1a0111ea397fe69a4b1ba7b6434bacd764774b84f38512bf6730d2a0f6b0f6241eabfffeanat, 0xd9b9d268c17e76fe436cd782f473f8da70e3f8767f1499dfec1d7f83c6ec88854b22fb0d9edec4818a152deb27b96ceint, 0x15f854514ecfd8c9af7846f02d1d4ff07cfc1f4a940392eb2d59ce37f0c27a9a0c1b4b92ad0dbc05040eb374a2ac8464int, 0xf06edbb576aa809b16f3c8eecbc744f3f0526db9c1e139d15b5cd8219f02dad85c21c77b371e07b2d87a4d3da5bc4e9int, 0x14dd5c85ecc16a46595564e287b575c7a19cca8a60ac578287354cf532540d1ce7f65b29ecc114812bc97875489bef97int, 0xb3a77d15f7cf63de0b370439ee3d38c9a151aac13acf2375a1113af9adb8dae083a849b242c6bd8ac1d398f0d1dfb3cint, 0x15f854514ecfd8c9af7846f02d1d4ff07cfc1f4a940392eb2d59ce37f0c27a9a0c1b4b92ad0dbc05040eb374a2ac8464int);
    lemma_square_step(r, 0x1a0111ea397fe69a4b1ba7b6434bacd764774b84f38512bf6730d2a0f6b0f6241eabfffebnat, 0x14dd5c85ecc16a46595564e287b575c7a19cca8a60ac578287354cf532540d1ce7f65b29ecc114812bc97875489bef97int, 0xb3a77d15f7cf63de0b370439ee3d38c9a151aac13acf2375a1113af9adb8dae083a849b242c6bd8ac1d398f0d1dfb3cint, 0x15f854514ecfd8c9af7846f02d1d4ff07cfc1f4a940392eb2d59ce37f0c27a9a0c1b4b92ad0dbc05040eb374a2ac8464int, 0x5151b86ed13a47472250e6d5b182e7b97cc7416d319c5cb084e332562330d67ecb0a6cd776556e2ceab2e4b09b435e1int, 0x172546f21db16afca77a91f0c952d3d1e343c503d02a853bff34f379e8952aca4f9d6eeafd0bafb9f68725d92e295b7dint, 0x263d8851f4a3d68ce5c061d286c83d2ed00887daad8edd90ae7222f69f3dc9266532fc564fe0a9706a9db6bbe77dadcint);
}

#[verifier::rlimit(40)]
proof fn lemma_root_pow_part_111(r: int)
    requires
        cong(iso_cubic(r), 0),
    ensures
        cong(pow(r, 0x1a0111ea397fe69a4b1ba7b6434bacd764774b84f38512bf6730d2a0f6b0f6241eabfffeb1nat), quad(0xe8948f53a32235eeb6435f7b08c8c7e13c0471eea18ccfde1ef57016dd30ad52954d0d65d108e5eb368fa09f79a7f4aint, 0x121888596a527be59537769c357bfb40261a15213b82a6b3abb2c9fe7393bdf119fc7c7b5827d8c8a9eb36c847a2fcdfint, 0x9467eeb19755985ae7e6eaf57b7c690cc2685b43e853a21ed6840372b6e54469a89c8f9056051fa866731230f716523int, r)),
{
    lemma_root_pow_part_110(r);
    lemma_square_step(r, 0x340223d472ffcd3496374f6c869759aec8ee9709e70a257ece61a541ed61ec483d57fffd6nat, 0x5151b86ed13a47472250e6d5b182e7b97cc7416d319c5cb084e332562330d67ecb0a6cd776556e2ceab2e4b09b435e1int, 0x172546f21db16afca77a91f0c952d3d1e343c503d02a853bff34f379e8952aca4f9d6eeafd0bafb9f68725d92e295b7dint, 0x263d8851f4a3d68ce5c061d286c83d2ed00887daad8edd90ae7222f69f3dc9266532fc564fe0a9706a9db6bbe77dadcint, 0xbbd92535ae4f43f47ea9dec7a974a9ac1bed788f3edbb270fffc0902f330deefc11dcff9d4f4b20277dcdc5c94f9397int, 0x4bd3ca5eef5f75806515f70e5ce1e3f08ae18e68a1bb88ad67da67a75c56f3a29cfedcf76cfab7646cc71db5810a312int, 0x47794b2b7c8fde86d48c7aba5ce5ca9c4a0271f3e651994991eecd66d053a6fa231b6dd3b01bb98645fe1dfddb5bc08int);
    lemma_square_step(r, 0x680447a8e5ff9a692c6e9ed90d2eb35d91dd2e13ce144afd9cc34a83dac3d8907aaffffacnat, 0xbbd92535ae4f43f47ea9dec7a974a9ac1bed788f3edbb270fffc0902f330deefc11dcff9d4f4b20277dcdc5c94f9397int, 0x4bd3ca5eef5f75806515f70e5ce1e3f08ae18e68a1bb88ad67da67a75c56f3a29cfedcf76cfab7646cc71db5810a312int, 0x47794b2b7c8fde86d48c7aba5ce5ca9c4a0271f3e651994991eecd66d053a6fa231b6dd3b01bb98645fe1dfddb5bc08int, 0xd86258a1d68ec27dfed7d8785442ed2ae84ad603cd02434e69dda59783d71b19ba45d6311dd7d9a524897d016131453int, 0x7e1d100dc90b9138c60e0603d959b1e3a5499ca5cae550645ba813816121125c4aa63d476e20e2a5c5f2c74ac5e11f2int, 0xe11a1472122b4ecd6ff4e6e1365bafc55f5d146dccc72bbbd75004761feea4a674e034968b011ca56553a092a7fde75int);
    lemma_square_step(r, 0xd0088f51cbff34d258dd3db21a5d66bb23ba5c279c2895fb39869507b587b120f55ffff58nat, 0xd86258a1d68ec27dfed7d8785442ed2ae84ad603cd02434e69dda59783d71b19ba45d6311dd7d9a524897d016131453int, 0x7e1d100dc90b9138c60e0603d959b1e3a5499ca5cae550645ba813816121125c4aa63d476e20e2a5c5f2c74ac5e11f2int, 0xe11a1472122b4ecd6ff4e6e1365bafc55f5d146dccc72bbbd75004761feea4a674e034968b011ca56553a092a7fde75int, 0x31088ba4967893c42e1a41d20f92bab17ad9bbad76358349c117a1253857dd61a3fb68acd8b9fd8f624bed11d9ee220int, 0x9467eeb19755985ae7e6eaf57b7c690cc2685b43e853a21ed6840372b6e54469a89c8f9056051fa866731230f716523int, 0xbbeb63b9c09b577ad9501421a7c2c6c5ef92d39c971c8868e5df66b931f1591f8fa6d5b234beccd56f6aac830ac7764int);
    lemma_times_root_step(r, 0x1a0111ea397fe69a4b1ba7b6434bacd764774b84f38512bf6730d2a0f6b0f6241eabfffeb0nat, 0x31088ba4967893c42e1a41d20f92bab17ad9bbad76358349c117a1253857dd61a3fb68acd8b9fd8f624bed11d9ee220int, 0x9467eeb19755985ae7e6eaf57b7c690cc2685b43e853a21ed6840372b6e54469a89c8f9056051fa866731230f716523int, 0xbbeb63b9c09b577ad9501421a7c2c6c5ef92d39c971c8868e5df66b931f1591f8fa6d5b234beccd56f6aac830ac7764int, 0xe8948f53a32235eeb6435f7b08c8c7e13c0471eea18ccfde1ef57016dd30ad52954d0d65d108e5eb368fa09f79a7f4aint, 0x121888596a527be59537769c357bfb40261a15213b82a6b3abb2c9fe7393bdf119fc7c7b5827d8c8a9eb36c847a2fcdfint, 0x9467eeb19755985ae7e6eaf57b7c690cc2685b43e853a21ed6840372b6e54469a89c8f9056051fa866731230f716523int);
}

#[verifier::rlimit(40)]
proof fn lemma_root_pow_part_112(r: int)
    requires
        cong(iso_cubic(r), 0),
    ensures
        cong(pow(r, 0xd0088f51cbff34d258dd3db21a5d66bb23ba5c279c2895fb39869507b587b120f55ffff58anat), quad(0xcc957caf81b6fcaecc8396acaefcf95c4baa8749e206bf768c87936b3a08268fc420ed4aec180cbfb711dc274babf39int, 0x17e5898bab90e00942060f08d8ad3fd6e6e117f956ca02752c048cf17b6b3e97e4ecab5073f18d3ee25f35b7911481e2int, 0x5e576f7f8fd9b7f83f1e53dc33e06f3a140f68776f6b9d6cd3d07f3dca5472257acfd6cf42c0bb837123d573e2198eeint, r)),
{
    lemma_root_pow_part_111(r);
    lemma_square_step(r, 0x1a0111ea397fe69a4b1ba7b6434bacd764774b84f38512bf6730d2a0f6b0f6241eabfffeb1nat, 0xe8948f53a32235eeb6435f7b08c8c7e13c0471eea18ccfde1ef57016dd30ad52954d0d65d108e5eb368fa09f79a7f4aint, 0x121888596a527be59537769c357bfb40261a15213b82a6b3abb2c9fe7393bdf119fc7c7b5827d8c8a9eb36c847a2fcdfint, 0x9467eeb19755985ae7e6eaf57b7c690cc2685b43e853a21ed6840372b6e54469a89c8f9056051fa866731230f716523int, 0x9ca409b33544e9acd9c976079974be368e38f79982533869443e36a192218f07aa3089916c3a96673dc26a12454ccc2int, 0x19411c0ab4da479013cfe400b02968e4d9ab77d53fb2ebe43355d7690477c4acbef78a670214ecbae359935e11b5f347int, 0x126dc79889a837712e32910efa3385124c7217c4627bcedbac2ca617b23c277d44fc43fb4fb972863fb9f5f88678bb6int);
    lemma_square_step(r, 0x340223d472ffcd3496374f6c869759aec8ee9709e70a257ece61a541ed61ec483d57fffd62nat, 0x9ca409b33544e9acd9c976079974be368e38f79982533869443e36a192218f07aa3089916c3a96673dc26a12454ccc2int, 0x19411c0ab4da479013cfe400b02968e4d9ab77d53fb2ebe43355d7690477c4acbef78a670214ecbae359935e11b5f347int, 0x126dc79889a837712e32910efa3385124c7217c4627bcedbac2ca617b23c277d44fc43fb4fb972863fb9f5f88678bb6int, 0x12dd5f4d97f7f45d14e71d05669b486670c3663a04c65ed6e6709f179bd03a6072a4994c42c90c391a2000503d26f2e7int, 0xbea0658d49afeaeb29fba8b2a412059ab11f297076e4b2e66bb29cf54c4ce42afbb0e9a05a392a88b1afa452b1f328bint, 0x4a71cc17e53836605bbfaa465cc2d861ad70d8a4f679302dcd7e0881732c1cedeb0d58e62cb56c8222d76602d6a7fe3int);
    lemma_times_root_step(r, 0x680447a8e5ff9a692c6e9ed90d2eb35d91dd2e13ce144afd9cc34a83dac3d8907aaffffac4nat, 0x12dd5f4d97f7f45d14e71d05669b486670c3663a04c65ed6e6709f179bd03a6072a4994c42c90c391a2000503d26f2e7int, 0xbea0658d49afeaeb29fba8b2a412059ab11f297076e4b2e66bb29cf54c4ce42afbb0e9a05a392a88b1afa452b1f328bint, 0x4a71cc17e53836605bbfaa465cc2d861ad70d8a4f679302dcd7e0881732c1cedeb0d58e62cb56c8222d76602d6a7fe3int, 0xa4b76460f6ae0435027c97059694dd155749de5bac7b8465c35be268b8b33ba689eb654d12973b1e5cc56a567062637int, 0x2ee8df503f1a44f222630f5a8b7358f46949c08c91a6130be21c54afb6153b57bf47d45703ebd857e2071f61f47ca64int, 0xbea0658d49afeaeb29fba8b2a412059ab11f297076e4b2e66bb29cf54c4ce42afbb0e9a05a392a88b1afa452b1f328bint);
    lemma_square_step(r, 0x680447a8e5ff9a692c6e9ed90d2eb35d91dd2e13ce144afd9cc34a83dac3d8907aaffffac5nat, 0xa4b76460f6ae0435027c97059694dd155749de5bac7b8465c35be268b8b33ba689eb654d12973b1e5cc56a567062637int, 0x2ee8df503f1a44f222630f5a8b7358f46949c08c91a6130be21c54afb6153b57bf47d45703ebd857e2071f61f47ca64int, 0xbea0658d49afeaeb29fba8b2a412059ab11f297076e4b2e66bb29cf54c4ce42afbb0e9a05a392a88b1afa452b1f328bint, 0xcc957caf81b6fcaecc8396acaefcf95c4baa8749e206bf768c87936b3a08268fc420ed4aec180cbfb711dc274babf39int, 0x17e5898bab90e00942060f08d8ad3fd6e6e117f956ca02752c048cf17b6b3e97e4ecab5073f18d3ee25f35b7911481e2int, 0x5e576f7f8fd9b7f83f1e53dc33e06f3a140f68776f6b9d6cd3d07f3dca5472257acfd6cf42c0bb837123d573e2198eeint);
}

#[verifier::rlimit(40)]
proof fn lemma_root_pow_part_113(r: int)
    requires
        cong(iso_cubic(r), 0),
    ensures
        cong(pow(r, 0x680447a8e5ff9a692c6e9ed90d2eb35d91dd2e13ce144afd9cc34a83dac3d8907aaffffac54nat), quad(0x19aa1e44aeb16cd44d3923a86d0a560c0e90502b7e69bdb27e46b46d2498ce9bc1da54960f2192a5f74c964570fdb844int, 0x199bbe84400c4a3ae91f63afdf3a1f479e82e0f950c4197ba44eb390a229199466aa53c084753a993afe0ed43b3a9f28int, 0x21982f04280b5ec147b218470462ccf8f3c17620f808ab861f3d274865ce5febc26a2f14a3bd9a781c34d6c4a4d2510int, r)),
{
    lemma_root_pow_part_112(r);
    lemma_square_step(r, 0xd0088f51cbff34d258dd3db21a5d66bb23ba5c279c2895fb39869507b587b120f55ffff58anat, 0xcc957caf81b6fcaecc8396acaefcf95c4baa8749e206bf768c87936b3a08268fc420ed4aec180cbfb711dc274babf39int, 0x17e5898bab90e00942060f08d8ad3fd6e6e117f956ca02752c048cf17b6b3e97e4ecab5073f18d3ee25f35b7911481e2int, 0x5e576f7f8fd9b7f83f1e53dc33e06f3a140f68776f6b9d6cd3d07f3dca5472257acfd6cf42c0bb837123d573e2198eeint, 0x4421b9bc29fb0413a9b704e64ecc8a563de7b69fc2429d296d1aa968a7d148b7bed892b847ef2abb2262fe294ef333int, 0x4fd176b169d9d70a13e6d4e250313a595a8ac67b458348d571b634a5ae2dc5a7de0a90786e4fc8699356cf997d3f173int, 0x13d59dc55543ad6c97a67c02cad00690a20a2797f8e09c3d1afd4209d74671e64ac96337d7f884c0ea8c86568d6258caint);
    lemma_times_root_step(r, 0x1a0111ea397fe69a4b1ba7b6434bacd764774b84f38512bf6730d2a0f6b0f6241eabfffeb14nat, 0x4421b9bc29fb0413a9b704e64ecc8a563de7b69fc2429d296d1aa968a7d148b7bed892b847ef2abb2262fe294ef333int, 0x4fd176b169d9d70a13e6d4e250313a595a8ac67b458348d571b634a5ae2dc5a7de0a90786e4fc8699356cf997d3f173int, 0x13d59dc55543ad6c97a67c02cad00690a20a2797f8e09c3d1afd4209d74671e64ac96337d7f884c0ea8c86568d6258caint, 0x84b78012c9a256f4fc74477ed1924d072ceed4c4b9aedfd4767a69e8eb7ab1f1d96cf597ae11059027cfbfc788ab61cint, 0x45ba7838f20923e6903b9d283952adfd4f8667ae98ce5932a640e64946f068ad7ea00c6e9d79feecd3f0795202f094bint, 0x4fd176b169d9d70a13e6d4e250313a595a8ac67b458348d571b634a5ae2dc5a7de0a90786e4fc8699356cf997d3f173int);
    lemma_square_step(r, 0x1a0111ea397fe69a4b1ba7b6434bacd764774b84f38512bf6730d2a0f6b0f6241eabfffeb15nat, 0x84b78012c9a256f4fc74477ed1924d072ceed4c4b9aedfd4767a69e8eb7ab1f1d96cf597ae11059027cfbfc788ab61cint, 0x45ba7838f20923e6903b9d283952adfd4f8667ae98ce5932a640e64946f068ad7ea00c6e9d79feecd3f0795202f094bint, 0x4fd176b169d9d70a13e6d4e250313a595a8ac67b458348d571b634a5ae2dc5a7de0a90786e4fc8699356cf997d3f173int, 0x9755e5a62e3824fefcc1f47889bd9ef1f2575f9ffd194d75b9b3e17fea3a184b905b33486f4909e6c9b3135d10087f1int, 0x870acb5a5cdbb20090be92b85bfdd83608e9c67c40eb7663101872335cd39bf0e82dfaf5721c71b7f3233032db7e1f6int, 0x3510db2506acdb7ff0ab8dfe6f747812f9ef354236eb4dddabfafac3791dd2027eb07eb61fe74cb21794fc6dd405352int);
    lemma_square_step(r, 0x340223d472ffcd3496374f6c869759aec8ee9709e70a257ece61a541ed61ec483d57fffd62anat, 0x9755e5a62e3824fefcc1f47889bd9ef1f2575f9ffd194d75b9b3e17fea3a184b905b33486f4909e6c9b3135d10087f1int, 0x870acb5a5cdbb20090be92b85bfdd83608e9c67c40eb7663101872335cd39bf0e82dfaf5721c71b7f3233032db7e1f6int, 0x3510db2506acdb7ff0ab8dfe6f747812f9ef354236eb4dddabfafac3791dd2027eb07eb61fe74cb21794fc6dd405352int, 0x19aa1e44aeb16cd44d3923a86d0a560c0e90502b7e69bdb27e46b46d2498ce9bc1da54960f2192a5f74c964570fdb844int, 0x199bbe84400c4a3ae91f63afdf3a1f479e82e0f950c4197ba44eb390a229199466aa53c084753a993afe0ed43b3a9f28int, 0x21982f04280b5ec147b218470462ccf8f3c17620f808ab861f3d274865ce5febc26a2f14a3bd9a781c34d6c4a4d2510int);
}

#[verifier::rlimit(40)]
proof fn lemma_root_pow_part_114(r: int)
    requires
        cong(iso_cubic(r), 0),
    ensures
        cong(pow(r, 0x1a0111ea397fe69a4b1ba7b6434bacd764774b84f38512bf6730d2a0f6b0f6241eabfffeb153nat), quad(0x24272930573db1bebe8d0caaa7ad2376d0a6682cb37e50785807ca1aaec951bde7b611e56015d3c3c029d6ef3a39363int, 0x13e6bf09f5578cf780bf0dda37ce5294d5cd1a1165c1cd0c37f39dcb28b11c0ebc2c038f72dea2df938eee3150934cb7int, 0x53cf43e39f0f34266a3b5c97971661715f4f000c09224d99b91cb2efe36daba47fe2433ef4352a830e0bae9a246746bint, r)),
{
    lemma_root_pow_part_113(r);
    lemma_square_step(r, 0x680447a8e5ff9a692c6e9ed90d2eb35d91dd2e13ce144afd9cc34a83dac3d8907aaffffac54nat, 0x19aa1e44aeb16cd44d3923a86d0a560c0e90502b7e69bdb27e46b46d2498ce9bc1da54960f2192a5f74c964570fdb844int, 0x199bbe84400c4a3ae91f63afdf3a1f479e82e0f950c4197ba44eb390a229199466aa53c084753a993afe0ed43b3a9f28int, 0x21982f04280b5ec147b218470462ccf8f3c17620f808ab861f3d274865ce5febc26a2f14a3bd9a781c34d6c4a4d2510int, 0x78923e887fee016bb0042ab7dbc36942932f3db5f5f77b70f48b04aca4aa3b61da6e5a7a5451e26f730b7d28c7ad7edint, 0x5b2a46b8b1ccc6cb30f618b8763253a5c4d6427f2c847779f5214ebabe56f3a8ec21c67a47f284ddc507bce433acfa5int, 0x1621b2b6b1122022d2a5c91c979ba3ecaddad3f43302cfdcbccdc11d1a4aaaad97870f88dd50a6a61f10e2bbe9f1e32bint);
    lemma_times_root_step(r, 0xd0088f51cbff34d258dd3db21a5d66bb23ba5c279c2895fb39869507b587b120f55ffff58a8nat, 0x78923e887fee016bb0042ab7dbc36942932f3db5f5f77b70f48b04aca4aa3b61da6e5a7a5451e26f730b7d28c7ad7edint, 0x5b2a46b8b1ccc6cb30f618b8763253a5c4d6427f2c847779f5214ebabe56f3a8ec21c67a47f284ddc507bce433acfa5int, 0x1621b2b6b1122022d2a5c91c979ba3ecaddad3f43302cfdcbccdc11d1a4aaaad97870f88dd50a6a61f10e2bbe9f1e32bint, 0x8500a0b6eb92facfacd32dfd1ae0f8d548c26c5eb40bbaa6662f602262b6c73c4a955b6004e010334e3ed53c4a748beint, 0x4471c7317b0ccf656004b3f0e733a361a36ee76e7e7ff36a2bb5fcaffba3e84f97df606019e664cc1ba6198ae9acf07int, 0x5b2a46b8b1ccc6cb30f618b8763253a5c4d6427f2c847779f5214ebabe56f3a8ec21c67a47f284ddc507bce433acfa5int);
    lemma_square_step(r, 0xd0088f51cbff34d258dd3db21a5d66bb23ba5c279c2895fb39869507b587b120f55ffff58a9nat, 0x8500a0b6eb92facfacd32dfd1ae0f8d548c26c5eb40bbaa6662f602262b6c73c4a955b6004e010334e3ed53c4a748beint, 0x4471c7317b0ccf656004b3f0e733a361a36ee76e7e7ff36a2bb5fcaffba3e84f97df606019e664cc1ba6198ae9acf07int, 0x5b2a46b8b1ccc6cb30f618b8763253a5c4d6427f2c847779f5214ebabe56f3a8ec21c67a47f284ddc507bce433acfa5int, 0x1283908643ddb9f63108327c43a00ff32c9101f85427adda614b7b98a65109612d904b37b491948e2c873556aca8f0d6int, 0x53cf43e39f0f34266a3b5c97971661715f4f000c09224d99b91cb2efe36daba47fe2433ef4352a830e0bae9a246746bint, 0x3115dc4e309676a552c03850073ad5b607a3c0f80e742859d522a1f0f0e2aa6f921302dbf001d657a5d9b4d6ecbd1cbint);
    lemma_times_root_step(r, 0x1a0111ea397fe69a4b1ba7b6434bacd764774b84f38512bf6730d2a0f6b0f6241eabfffeb152nat, 0x1283908643ddb9f63108327c43a00ff32c9101f85427adda614b7b98a65109612d904b37b491948e2c873556aca8f0d6int, 0x53cf43e39f0f34266a3b5c97971661715f4f000c09224d99b91cb2efe36daba47fe2433ef4352a830e0bae9a246746bint, 0x3115dc4e309676a552c03850073ad5b607a3c0f80e742859d522a1f0f0e2aa6f921302dbf001d657a5d9b4d6ecbd1cbint, 0x24272930573db1bebe8d0caaa7ad2376d0a6682cb37e50785807ca1aaec951bde7b611e56015d3c3c029d6ef3a39363int, 0x13e6bf09f5578cf780bf0dda37ce5294d5cd1a1165c1cd0c37f39dcb28b11c0ebc2c038f72dea2df938eee3150934cb7int, 0x53cf43e39f0f34266a3b5c97971661715f4f000c09224d99b91cb2efe36daba47fe2433ef4352a830e0bae9a246746bint);
}

#[verifier::rlimit(40)]
proof fn lemma_root_pow_part_115(r: int)
    requires
        cong(iso_cubic(r), 0),
    ensures
        cong(pow(r, 0x680447a8e5ff9a692c6e9ed90d2eb35d91dd2e13ce144afd9cc34a83dac3d8907aaffffac54fnat), quad(0x162bfd22189aa54e529389c37b7fc02cdcffbf126e44fc82367c7b7d5efbb9fce3fddad08c35f7c05ec2b81f37f3a48eint, 0xe8ee78df612a22244de235cbf128b7a393dbe6e1f145ed573532e9e49cbe62458cdeb906d4fd7b5e8baaa9005c98463int, 0xc4a6a49dc1b8bb933f45523cbd2c73f755cb26b7416831a0af152fdede82d49eddb7bc7ad445159e86c500806265ec4int, r)),
{
    lemma_root_pow_part_114(r);
    lemma_square_step(r, 0x1a0111ea397fe69a4b1ba7b6434bacd764774b84f38512bf6730d2a0f6b0f6241eabfffeb153nat, 0x24272930573db1bebe8d0caaa7ad2376d0a6682cb37e50785807ca1aaec951bde7b611e56015d3c3c029d6ef3a39363int, 0x13e6bf09f5578cf780bf0dda37ce5294d5cd1a1165c1cd0c37f39dcb28b11c0ebc2c038f72dea2df938eee3150934cb7int, 0x53cf43e39f0f34266a3b5c97971661715f4f000c09224d99b91cb2efe36daba47fe2433ef4352a830e0bae9a246746bint, 0x584347d7767e64c5b227830c1d4fd073e68729636d8aeef1003c5e1499208ed5478151d65d6b4391150ac5493a69bd8int, 0x1746c0e227cf2ab68108609cb427791e4dadd0e7b9b3b60e6714f27d92f5d37e53fbaa8689d0a8b508484cd9fe0af029int, 0x6aa8a252aff7339234b132f2c7dbf3a3355609a9a8aa180df0a758eccb37552d4597b5560ec308c420d588e9d7d0aeaint);
    lemma_times_root_step(r, 0x340223d472ffcd3496374f6c869759aec8ee9709e70a257ece61a541ed61ec483d57fffd62a6nat, 0x584347d7767e64c5b227830c1d4fd073e68729636d8aeef1003c5e1499208ed5478151d65d6b4391150ac5493a69bd8int, 0x1746c0e227cf2ab68108609cb427791e4dadd0e7b9b3b60e6714f27d92f5d37e53fbaa8689d0a8b508484cd9fe0af029int, 0x6aa8a252aff7339234b132f2c7dbf3a3355609a9a8aa180df0a758eccb37552d4597b5560ec308c420d588e9d7d0aeaint, 0x13cb95accdcd4368545e9117cde1d682c60aef612a2a1c1edb2cb26f3af9918e93d201021caf89fd9fd43d9631a1836dint, 0x181e2cc4870c1339c06b4ba63aadd7c5b91fa25aa95a3d2d4a07b82f569696ae41677d39d895b0824a5ea19696872a32int, 0x1746c0e227cf2ab68108609cb427791e4dadd0e7b9b3b60e6714f27d92f5d37e53fbaa8689d0a8b508484cd9fe0af029int);
    lemma_square_step(r, 0x340223d472ffcd3496374f6c869759aec8ee9709e70a257ece61a541ed61ec483d57fffd62a7nat, 0x13cb95accdcd4368545e9117cde1d682c60aef612a2a1c1edb2cb26f3af9918e93d201021caf89fd9fd43d9631a1836dint, 0x181e2cc4870c1339c06b4ba63aadd7c5b91fa25aa95a3d2d4a07b82f569696ae41677d39d895b0824a5ea19696872a32int, 0x1746c0e227cf2ab68108609cb427791e4dadd0e7b9b3b60e6714f27d92f5d37e53fbaa8689d0a8b508484cd9fe0af029int, 0x90ffe3a9e757b0aa7b570af25132904231e9ae02a71e095df5275ddd2c4d4f77f99cd399c77d78145b124d6e8cf1973int, 0xc4a6a49dc1b8bb933f45523cbd2c73f755cb26b7416831a0af152fdede82d49eddb7bc7ad445159e86c500806265ec4int, 0xbb787788761412b36ae4d9888df790b5e30f7fb4563747b5fb235c9f9aa1d2966c2fd44bfc038d39cebae4e3b2011e3int);
    lemma_times_root_step(r, 0x680447a8e5ff9a692c6e9ed90d2eb35d91dd2e13ce144afd9cc34a83dac3d8907aaffffac54enat, 0x90ffe3a9e757b0aa7b570af25132904231e9ae02a71e095df5275ddd2c4d4f77f99cd399c77d78145b124d6e8cf1973int, 0xc4a6a49dc1b8bb933f45523cbd2c73f755cb26b7416831a0af152fdede82d49eddb7bc7ad445159e86c500806265ec4int, 0xbb787788761412b36ae4d9888df790b5e30f7fb4563747b5fb235c9f9aa1d2966c2fd44bfc038d39cebae4e3b2011e3int, 0x162bfd22189aa54e529389c37b7fc02cdcffbf126e44fc82367c7b7d5efbb9fce3fddad08c35f7c05ec2b81f37f3a48eint, 0xe8ee78df612a22244de235cbf128b7a393dbe6e1f145ed573532e9e49cbe62458cdeb906d4fd7b5e8baaa9005c98463int, 0xc4a6a49dc1b8bb933f45523cbd2c73f755cb26b7416831a0af152fdede82d49eddb7bc7ad445159e86c500806265ec4int);
}

#[verifier::rlimit(40)]
proof fn lemma_root_pow_part_116(r: int)
    requires
        cong(iso_cubic(r), 0),
    ensures
        cong(pow(r, 0x1a0111ea397fe69a4b1ba7b6434bacd764774b84f38512bf6730d2a0f6b0f6241eabfffeb153fnat), quad(0xfa545ffbe4eb08e404b21e8798e95a68176bf4231148fd5e87bb6c143460e6bba99590ef894f1381c634440ed7bf342int, 0x13e8f716c82100dd2578919aa8bf356434d0bbeac042964d89542dbed1f3aea5eba99c94562ea8e757b5bc3cff583389int, 0x62cb1251943d283a3fbfdf85670059703e840b7d1993f6f2251c9bbe5512e56d80741575a2b55d2f3ffec54e597746cint, r)),
{
    lemma_root_pow_part_115(r);
    lemma_square_step(r, 0x680447a8e5ff9a692c6e9ed90d2eb35d91dd2e13ce144afd9cc34a83dac3d8907aaffffac54fnat, 0x162bfd22189aa54e529389c37b7fc02cdcffbf126e44fc82367c7b7d5efbb9fce3fddad08c35f7c05ec2b81f37f3a48eint, 0xe8ee78df612a22244de235cbf128b7a393dbe6e1f145ed573532e9e49cbe62458cdeb906d4fd7b5e8baaa9005c98463int, 0xc4a6a49dc1b8bb933f45523cbd2c73f755cb26b7416831a0af152fdede82d49eddb7bc7ad445159e86c500806265ec4int, 0x8cd6ca29d5cf8cd752d33809e1f32e63debf4bf922c27e136fdaf9142a5170a0d2e365576770d8785d2eef9a3f41ac1int, 0x15493153ef1194344f2df633b08d07ccc54a9629709cc756f1386dce8dfabddee76fed0ceca128ace074a39133707fb1int, 0x3f3cfa6ab527432cdcd65da8d24e4d61336967bad7855e7090d6b50900dc7953066e094cfda5e26595e849b8dbf6ca0int);
    lemma_times_root_step(r, 0xd0088f51cbff34d258dd3db21a5d66bb23ba5c279c2895fb39869507b587b120f55ffff58a9enat, 0x8cd6ca29d5cf8cd752d33809e1f32e63debf4bf922c27e136fdaf9142a5170a0d2e365576770d8785d2eef9a3f41ac1int, 0x15493153ef1194344f2df633b08d07ccc54a9629709cc756f1386dce8dfabddee76fed0ceca128ace074a39133707fb1int, 0x3f3cfa6ab527432cdcd65da8d24e4d61336967bad7855e7090d6b50900dc7953066e094cfda5e26595e849b8dbf6ca0int, 0x1333028a98253747428e30da24770320ffb3fe901434112430518cd6a8768b616df53e41bf45c81df6ca850fd6d59bb7int, 0xc2512ab618b8a5d1a14ddaa4c73d25f0b4fb9eba8c75456628f5178f09a20666903aff7a33633d1329722333e0dfbdfint, 0x15493153ef1194344f2df633b08d07ccc54a9629709cc756f1386dce8dfabddee76fed0ceca128ace074a39133707fb1int);
    lemma_square_step(r, 0xd0088f51cbff34d258dd3db21a5d66bb23ba5c279c2895fb39869507b587b120f55ffff58a9fnat, 0x1333028a98253747428e30da24770320ffb3fe901434112430518cd6a8768b616df53e41bf45c81df6ca850fd6d59bb7int, 0xc2512ab618b8a5d1a14ddaa4c73d25f0b4fb9eba8c75456628f5178f09a20666903aff7a33633d1329722333e0dfbdfint, 0x15493153ef1194344f2df633b08d07ccc54a9629709cc756f1386dce8dfabddee76fed0ceca128ace074a39133707fb1int, 0xd361fbf1e9c9ef9c97e75871b7c77a927ea743aee5d019791c3919dc1a048b837441e667abd71ffaeb44aea9647fc76int, 0x62cb1251943d283a3fbfdf85670059703e840b7d1993f6f2251c9bbe5512e56d80741575a2b55d2f3ffec54e597746cint, 0x1884317bb9d016f2c6d9f9628801de8b2077a305f1af1db25114afae4f8528562e2f5f1e3963f3c99ffb80d5542bbb8eint);
    lemma_times_root_step(r, 0x1a0111ea397fe69a4b1ba7b6434bacd764774b84f38512bf6730d2a0f6b0f6241eabfffeb153enat, 0xd361fbf1e9c9ef9c97e75871b7c77a927ea743aee5d019791c3919dc1a048b837441e667abd71ffaeb44aea9647fc76int, 0x62cb1251943d283a3fbfdf85670059703e840b7d1993f6f2251c9bbe5512e56d80741575a2b55d2f3ffec54e597746cint, 0x1884317bb9d016f2c6d9f9628801de8b2077a305f1af1db25114afae4f8528562e2f5f1e3963f3c99ffb80d5542bbb8eint, 0xfa545ffbe4eb08e404b21e8798e95a68176bf4231148fd5e87bb6c143460e6bba99590ef894f1381c634440ed7bf342int, 0x13e8f716c82100dd2578919aa8bf356434d0bbeac042964d89542dbed1f3aea5eba99c94562ea8e757b5bc3cff583389int, 0x62cb1251943d283a3fbfdf85670059703e840b7d1993f6f2251c9bbe5512e56d80741575a2b55d2f3ffec54e597746cint);
}

#[verifier::rlimit(40)]
proof fn lemma_root_pow_part_117(r: int)
    requires
        cong(iso_cubic(r), 0),
    ensures
        cong(pow(r, 0x680447a8e5ff9a692c6e9ed90d2eb35d91dd2e13ce144afd9cc34a83dac3d8907aaffffac54ffnat), quad(0xb13247024c5e37acf3d4c0584c02cf87eec5fed3d295c81aeb2761e39529ad6d5ee222f179eb1bace930206eeb3a81fint, 0xa27534f1dfbaa39952c69a419459e0c365c271d26943084ac0169b50418c05aa70c51322c34f9397d9732c2827f99b6int, 0xd6781ec1ac3b9a717aa201fdcade771aa54062568c5e1754e73200f6ce914e4bc5108727203002b79cb4620ce2dc21int, r)),
{
    lemma_root_pow_part_116(r);
    lemma_square_step(r, 0x1a0111ea397fe69a4b1ba7b6434bacd764774b84f38512bf6730d2a0f6b0f6241eabfffeb153fnat, 0xfa545ffbe4eb08e404b21e8798e95a68176bf4231148fd5e87bb6c143460e6bba99590ef894f1381c634440ed7bf342int, 0x13e8f716c82100dd2578919aa8bf356434d0bbeac042964d89542dbed1f3aea5eba99c94562ea8e757b5bc3cff583389int, 0x62cb1251943d283a3fbfdf85670059703e840b7d1993f6f2251c9bbe5512e56d80741575a2b55d2f3ffec54e597746cint, 0x645e98915fc77fd96b86b6e26043d8241be5b51ade5e004783f9a61ffcd80f0bf416e85c6606ae2f29495e3e990fa9dint, 0xa49e7d4140aa519bbe2c4e1d93682fbce72ed39abb86370cefe8e30a8e6c397240f17c4542335792feeda1417cea376int, 0x35fe3aea028d9d4ee1f42930f5bfa760049d65bda373eae139f2895e03e8a988d51c37fb352d4ab79a63214aa8903b5int);
    lemma_times_root_step(r, 0x340223d472ffcd3496374f6c869759aec8ee9709e70a257ece61a541ed61ec483d57fffd62a7enat, 0x645e98915fc77fd96b86b6e26043d8241be5b51ade5e004783f9a61ffcd80f0bf416e85c6606ae2f29495e3e990fa9dint, 0xa49e7d4140aa519bbe2c4e1d93682fbce72ed39abb86370cefe8e30a8e6c397240f17c4542335792feeda1417cea376int, 0x35fe3aea028d9d4ee1f42930f5bfa760049d65bda373eae139f2895e03e8a988d51c37fb352d4ab79a63214aa8903b5int, 0xd8a0f03ba90a19740ba1f69efba39eed0bb42bed638e1a031f6047b6793439fdcd769da69b5d92fcbefc701e151a8bfint, 0x18873d50a2032a6adec6e98df67d0ce7b9c6db20fa1c7dc960f7a505b6c4da3905a4dc3eb7011bc5ba329cdbdf3011a9int, 0xa49e7d4140aa519bbe2c4e1d93682fbce72ed39abb86370cefe8e30a8e6c397240f17c4542335792feeda1417cea376int);
    lemma_square_step(r, 0x340223d472ffcd3496374f6c869759aec8ee9709e70a257ece61a541ed61ec483d57fffd62a7fnat, 0xd8a0f03ba90a19740ba1f69efba39eed0bb42bed638e1a031f6047b6793439fdcd769da69b5d92fcbefc701e151a8bfint, 0x18873d50a2032a6adec6e98df67d0ce7b9c6db20fa1c7dc960f7a505b6c4da3905a4dc3eb7011bc5ba329cdbdf3011a9int, 0xa49e7d4140aa519bbe2c4e1d93682fbce72ed39abb86370cefe8e30a8e6c397240f17c4542335792feeda1417cea376int, 0xd5e65b827c930ac5ed222f68d5d3b4119b013ca40a3ab5771e6a93804d6e494ffcb4099f439534cd92625039eb6b047int, 0xd6781ec1ac3b9a717aa201fdcade771aa54062568c5e1754e73200f6ce914e4bc5108727203002b79cb4620ce2dc21int, 0x15e4d24c59182643814fa65924be8854600deba15d569c521cd7cb404ab2850984a6c605a7e920cbcf311c92693c4097int);
    lemma_times_root_step(r, 0x680447a8e5ff9a692c6e9ed90d2eb35d91dd2e13ce144afd9cc34a83dac3d8907aaffffac54fenat, 0xd5e65b827c930ac5ed222f68d5d3b4119b013ca40a3ab5771e6a93804d6e494ffcb4099f439534cd92625039eb6b047int, 0xd6781ec1ac3b9a717aa201fdcade771aa54062568c5e1754e73200f6ce914e4bc5108727203002b79cb4620ce2dc21int, 0x15e4d24c59182643814fa65924be8854600deba15d569c521cd7cb404ab2850984a6c605a7e920cbcf311c92693c4097int, 0xb13247024c5e37acf3d4c0584c02cf87eec5fed3d295c81aeb2761e39529ad6d5ee222f179eb1bace930206eeb3a81fint, 0xa27534f1dfbaa39952c69a419459e0c365c271d26943084ac0169b50418c05aa70c51322c34f9397d9732c2827f99b6int, 0xd6781ec1ac3b9a717aa201fdcade771aa54062568c5e1754e73200f6ce914e4bc5108727203002b79cb4620ce2dc21int);
}

#[verifier::rlimit(40)]
proof fn lemma_root_pow_part_118(r: int)
    requires
        cong(iso_cubic(r), 0),
    ensures
        cong(pow(r, 0x1a0111ea397fe69a4b1ba7b6434bacd764774b84f38512bf6730d2a0f6b0f6241eabfffeb153ffnat), quad(0x1234c364b200a1cf5802cfa83207a3e65ade4a47cca03f41a6912ece86e8b30fc510a1dac1fd5e22d59c4fdce691fabaint, 0x1652c9fc4e9441d11047762b5897dcd844bbd4be5d670a281dba078b0ab72ba899eeb7cd6cd86144e2a72e504a1b2936int, 0x1843f216ae0797a4cbe7926118c89cadb406902676fd811e22cb439119d8e1055d7c2127338db2bd9a1a66a1b5a26b75int, r)),
{
    lemma_root_pow_part_117(r);
    lemma_square_step(r, 0x680447a8e5ff9a692c6e9ed90d2eb35d91dd2e13ce144afd9cc34a83dac3d8907aaffffac54ffnat, 0xb13247024c5e37acf3d4c0584c02cf87eec5fed3d295c81aeb2761e39529ad6d5ee222f179eb1bace930206eeb3a81fint, 0xa27534f1dfbaa39952c69a419459e0c365c271d26943084ac0169b50418c05aa70c51322c34f9397d9732c2827f99b6int, 0xd6781ec1ac3b9a717aa201fdcade771aa54062568c5e1754e73200f6ce914e4bc5108727203002b79cb4620ce2dc21int, 0x184e2d87e6e1269e239cbabde76e4aa6b6064a317ccc1b5873fa930afe462ffe54f0b327e69c2c7f5bba11ddc7549651int, 0x5e82638ca6b7f7a190bda8e10198c27ee1bf4d1ea96f2d2a8487d90263aead93a0d4476d1b95fa82e3a314e7650019eint, 0x13042d522ac659082a148690dca78d6a136b178341df0a225f9c3dd8659bf53e91c8415795078746d74bccc3a55545efint);
    lemma_times_root_step(r, 0xd0088f51cbff34d258dd3db21a5d66bb23ba5c279c2895fb39869507b587b120f55ffff58a9fenat, 0x184e2d87e6e1269e239cbabde76e4aa6b6064a317ccc1b5873fa930afe462ffe54f0b327e69c2c7f5bba11ddc7549651int, 0x5e82638ca6b7f7a190bda8e10198c27ee1bf4d1ea96f2d2a8487d90263aead93a0d4476d1b95fa82e3a314e7650019eint, 0x13042d522ac659082a148690dca78d6a136b178341df0a225f9c3dd8659bf53e91c8415795078746d74bccc3a55545efint, 0x14007f2d9c35e261da6eab8a2237628395be77a0f303a2f03a22754dce6d330ae45deff4433f819d1369a59ce855d13aint, 0x3f6fe8f5f5816f01e7989b4bfa2bf483f62d31a34cfb8a775aebbfa01fd66a9280962e9014ecbc9b2ac1b7ebcf20e4dint, 0x5e82638ca6b7f7a190bda8e10198c27ee1bf4d1ea96f2d2a8487d90263aead93a0d4476d1b95fa82e3a314e7650019eint);
    lemma_square_step(r, 0xd0088f51cbff34d258dd3db21a5d66bb23ba5c279c2895fb39869507b587b120f55ffff58a9ffnat, 0x14007f2d9c35e261da6eab8a2237628395be77a0f303a2f03a22754dce6d330ae45deff4433f819d1369a59ce855d13aint, 0x3f6fe8f5f5816f01e7989b4bfa2bf483f62d31a34cfb8a775aebbfa01fd66a9280962e9014ecbc9b2ac1b7ebcf20e4dint, 0x5e82638ca6b7f7a190bda8e10198c27ee1bf4d1ea96f2d2a8487d90263aead93a0d4476d1b95fa82e3a314e7650019eint, 0x883c442603af433b9dbd16448fb3fa32ea8d35200aae77ce1609becf5b571647bf2a03a7939dcdc567bf9728174a25eint, 0x1843f216ae0797a4cbe7926118c89cadb406902676fd811e22cb439119d8e1055d7c2127338db2bd9a1a66a1b5a26b75int, 0x1244b36f0eebc50fafe000d7a97259f977714b3a06b3504b9fabb62e904b316ff40e79bca8257a7e04e4360063f5a53cint);
    lemma_times_root_step(r, 0x1a0111ea397fe69a4b1ba7b6434bacd764774b84f38512bf6730d2a0f6b0f6241eabfffeb153fenat, 0x883c442603af433b9dbd16448fb3fa32ea8d35200aae77ce1609becf5b571647bf2a03a7939dcdc567bf9728174a25eint, 0x1843f216ae0797a4cbe7926118c89cadb406902676fd811e22cb439119d8e1055d7c2127338db2bd9a1a66a1b5a26b75int, 0x1244b36f0eebc50fafe000d7a97259f977714b3a06b3504b9fabb62e904b316ff40e79bca8257a7e04e4360063f5a53cint, 0x1234c364b200a1cf5802cfa83207a3e65ade4a47cca03f41a6912ece86e8b30fc510a1dac1fd5e22d59c4fdce691fabaint, 0x1652c9fc4e9441d11047762b5897dcd844bbd4be5d670a281dba078b0ab72ba899eeb7cd6cd86144e2a72e504a1b2936int, 0x1843f216ae0797a4cbe7926118c89cadb406902676fd811e22cb439119d8e1055d7c2127338db2bd9a1a66a1b5a26b75int);
}

#[verifier::rlimit(40)]
proof fn lemma_root_pow_part_119(r: int)
    requires
        cong(iso_cubic(r), 0),
    ensures
        cong(pow(r, 0x680447a8e5ff9a692c6e9ed90d2eb35d91dd2e13ce144afd9cc34a83dac3d8907aaffffac54fffnat), quad(0xc6fa90341c2829335c0d199909a7b5c441d8c4a9bb85fd9608c4dc176cf19b756027ae491b928c9691ec1560311b63cint, 0xd56daa1c1ec32c985dc4037914b734d8abf667fd00a7e7305ec21d5f260316a59afc560dd7445c9cf8a676e2a619cc0int, 0x53bb8b03790c5d5083bdbab975d1431ba0535f864bd5f08bae918a41608cf89591f3cfcc37f2c23dcf34a81372b3c1fint, r)),
{
    lemma_root_pow_part_118(r);
    lemma_square_step(r, 0x1a0111ea397fe69a4b1ba7b6434bacd764774b84f38512bf6730d2a0f6b0f6241eabfffeb153ffnat, 0x1234c364b200a1cf5802cfa83207a3e65ade4a47cca03f41a6912ece86e8b30fc510a1dac1fd5e22d59c4fdce691fabaint, 0x1652c9fc4e9441d11047762b5897dcd844bbd4be5d670a281dba078b0ab72ba899eeb7cd6cd86144e2a72e504a1b2936int, 0x1843f216ae0797a4cbe7926118c89cadb406902676fd811e22cb439119d8e1055d7c2127338db2bd9a1a66a1b5a26b75int, 0x383100320e675c8c561e7e2c1128e2bef086c81f284e3c104979bf0b9c6b81549458fa2d0a525a76a35a984d79b4976int, 0xb454a5eff237489a6d90a6349009a908849357c4592027a99b178560a78ee3ea8c93576c0f36f9f2b9f20cc2f2bbaf6int, 0xba1bed66d16af4ade3f40618b607e70356d41a56d9cff3bf0e5eb2a807f4e0017669bb6e2f25bdd8c78ec8d59cbe281int);
    lemma_times_root_step(r, 0x340223d472ffcd3496374f6c869759aec8ee9709e70a257ece61a541ed61ec483d57fffd62a7fenat, 0x383100320e675c8c561e7e2c1128e2bef086c81f284e3c104979bf0b9c6b81549458fa2d0a525a76a35a984d79b4976int, 0xb454a5eff237489a6d90a6349009a908849357c4592027a99b178560a78ee3ea8c93576c0f36f9f2b9f20cc2f2bbaf6int, 0xba1bed66d16af4ade3f40618b607e70356d41a56d9cff3bf0e5eb2a807f4e0017669bb6e2f25bdd8c78ec8d59cbe281int, 0x4556ebce897e10e1099cbe94ca5342438906acaa881a060e4179acab751cf55614f137ce866be3d09f103877e81cd00int, 0xfe2d291c02426d15234d40d741a6ff1cf535c5956a665bc1456ab0044340fb22b8e1672fea5095e6166d375cd6c1412int, 0xb454a5eff237489a6d90a6349009a908849357c4592027a99b178560a78ee3ea8c93576c0f36f9f2b9f20cc2f2bbaf6int);
    lemma_square_step(r, 0x340223d472ffcd3496374f6c869759aec8ee9709e70a257ece61a541ed61ec483d57fffd62a7ffnat, 0x4556ebce897e10e1099cbe94ca5342438906acaa881a060e4179acab751cf55614f137ce866be3d09f103877e81cd00int, 0xfe2d291c02426d15234d40d741a6ff1cf535c5956a665bc1456ab0044340fb22b8e1672fea5095e6166d375cd6c1412int, 0xb454a5eff237489a6d90a6349009a908849357c4592027a99b178560a78ee3ea8c93576c0f36f9f2b9f20cc2f2bbaf6int, 0x18c656d622bd7c5691ad66aca0f2305890ef3ad7295b87cbc5c33971666ca1f7f479c018bc957785a4f049588d9a358cint, 0x53bb8b03790c5d5083bdbab975d1431ba0535f864bd5f08bae918a41608cf89591f3cfcc37f2c23dcf34a81372b3c1fint, 0x7c79e734d9df369c2db508ec40be1b0b781cfe7ada51326307ec05594576f490bc9b60e03cf1a3b7c655e72653369e4int);
    lemma_times_root_step(r, 0x680447a8e5ff9a692c6e9ed90d2eb35d91dd2e13ce144afd9cc34a83dac3d8907aaffffac54ffenat, 0x18c656d622bd7c5691ad66aca0f2305890ef3ad7295b87cbc5c33971666ca1f7f479c018bc957785a4f049588d9a358cint, 0x53bb8b03790c5d5083bdbab975d1431ba0535f864bd5f08bae918a41608cf89591f3cfcc37f2c23dcf34a81372b3c1fint, 0x7c79e734d9df369c2db508ec40be1b0b781cfe7ada51326307ec05594576f490bc9b60e03cf1a3b7c655e72653369e4int, 0xc6fa90341c2829335c0d199909a7b5c441d8c4a9bb85fd9608c4dc176cf19b756027ae491b928c9691ec1560311b63cint, 0xd56daa1c1ec32c985dc4037914b734d8abf667fd00a7e7305ec21d5f260316a59afc560dd7445c9cf8a676e2a619cc0int, 0x53bb8b03790c5d5083bdbab975d1431ba0535f864bd5f08bae918a41608cf89591f3cfcc37f2c23dcf34a81372b3c1fint);
}

#[verifier::rlimit(40)]
proof fn lemma_root_pow_part_120(r: int)
    requires
        cong(iso_cubic(r), 0),
    ensures
        cong(pow(r, 0x1a0111ea397fe69a4b1ba7b6434bacd764774b84f38512bf6730d2a0f6b0f6241eabfffeb153fffnat), quad(0x56ce46d7fd43d84dc9a296e37ad56d9433cc153905c5775e0128490b1a2b8447afe24f126f40e76b58376636df87229int, 0xae8f1d6d389bdf9053a85733a8887dd0e1ba5fc9fdc14725871b0829c870e0f71f62039123a77ddd0258e0864c88e59int, 0x14b3d6626c0b575c11b3b68b75de02574b02edf1fdac25899616cbce54dca0e0883d2c9394ee4892a62274e06b68612bint, r)),
{
    lemma_root_pow_part_119(r);
    lemma_square_step(r, 0x680447a8e5ff9a692c6e9ed90d2eb35d91dd2e13ce144afd9cc34a83dac3d8907aaffffac54fffnat, 0xc6fa90341c2829335c0d199909a7b5c441d8c4a9bb85fd9608c4dc176cf19b756027ae491b928c9691ec1560311b63cint, 0xd56daa1c1ec32c985dc4037914b734d8abf667fd00a7e7305ec21d5f260316a59afc560dd7445c9cf8a676e2a619cc0int, 0x53bb8b03790c5d5083bdbab975d1431ba0535f864bd5f08bae918a41608cf89591f3cfcc37f2c23dcf34a81372b3c1fint, 0x2f8bf2fd2bf8c2cd49f209c1e09e6bdf121bae9c83da4a993573383f96105fa6e4bdbcc035c0db9165f71cabb760572int, 0x1050e4a1c26f11a81b3ab16264108b07318f8d0ae145817d10408ab6339fd9ee37d02f4038cac2199c1b04695bce9e67int, 0xdf6e381e925d7293ca8245cc5b0648ae55fbe34e12534c8b1ead08d90c78d82428d5f1901cbc6321f3d9d4225b03642int);
    lemma_times_root_step(r, 0xd0088f51cbff34d258dd3db21a5d66bb23ba5c279c2895fb39869507b587b120f55ffff58a9ffenat, 0x2f8bf2fd2bf8c2cd49f209c1e09e6bdf121bae9c83da4a993573383f96105fa6e4bdbcc035c0db9165f71cabb760572int, 0x1050e4a1c26f11a81b3ab16264108b07318f8d0ae145817d10408ab6339fd9ee37d02f4038cac2199c1b04695bce9e67int, 0xdf6e381e925d7293ca8245cc5b0648ae55fbe34e12534c8b1ead08d90c78d82428d5f1901cbc6321f3d9d4225b03642int, 0x165eb2cdf44f7fb279feb205eb36d7c25157c47d66f4dc7569311710ee1f7af557543e5b759e800d6720a0caf4a4ce4fint, 0xc5161c5c30ffeefb0366d1a74e51fd443ffd59c869b45e3713c812ae3723cb65e60711bdf083d1c2a585d0563c9cdd8int, 0x1050e4a1c26f11a81b3ab16264108b07318f8d0ae145817d10408ab6339fd9ee37d02f4038cac2199c1b04695bce9e67int);
    lemma_square_step(r, 0xd0088f51cbff34d258dd3db21a5d66bb23ba5c279c2895fb39869507b587b120f55ffff58a9fffnat, 0x165eb2cdf44f7fb279feb205eb36d7c25157c47d66f4dc7569311710ee1f7af557543e5b759e800d6720a0caf4a4ce4fint, 0xc5161c5c30ffeefb0366d1a74e51fd443ffd59c869b45e3713c812ae3723cb65e60711bdf083d1c2a585d0563c9cdd8int, 0x1050e4a1c26f11a81b3ab16264108b07318f8d0ae145817d10408ab6339fd9ee37d02f4038cac2199c1b04695bce9e67int, 0x171a4d4517a4532b9c8794e74844cd52c994fe139af07ac701b5479d9cd96aa264c39116c9e9510e027d80fb60c35062int, 0x14b3d6626c0b575c11b3b68b75de02574b02edf1fdac25899616cbce54dca0e0883d2c9394ee4892a62274e06b68612bint, 0x84562a67b177dd71595b36653455858d985a3465b10399a85e4198d995072e0bfcc1a5fbc9f0c651feff9699ebd6421int);
    lemma_times_root_step(r, 0x1a0111ea397fe69a4b1ba7b6434bacd764774b84f38512bf6730d2a0f6b0f6241eabfffeb153ffenat, 0x171a4d4517a4532b9c8794e74844cd52c994fe139af07ac701b5479d9cd96aa264c39116c9e9510e027d80fb60c35062int, 0x14b3d6626c0b575c11b3b68b75de02574b02edf1fdac25899616cbce54dca0e0883d2c9394ee4892a62274e06b68612bint, 0x84562a67b177dd71595b36653455858d985a3465b10399a85e4198d995072e0bfcc1a5fbc9f0c651feff9699ebd6421int, 0x56ce46d7fd43d84dc9a296e37ad56d9433cc153905c5775e0128490b1a2b8447afe24f126f40e76b58376636df87229int, 0xae8f1d6d389bdf9053a85733a8887dd0e1ba5fc9fdc14725871b0829c870e0f71f62039123a77ddd0258e0864c88e59int, 0x14b3d6626c0b575c11b3b68b75de02574b02edf1fdac25899616cbce54dca0e0883d2c9394ee4892a62274e06b68612bint);
}

#[verifier::rlimit(40)]
proof fn lemma_root_pow_part_121(r: int)
    requires
        cong(iso_cubic(r), 0),
    ensures
        cong(pow(r, 0x680447a8e5ff9a692c6e9ed90d2eb35d91dd2e13ce144afd9cc34a83dac3d8907aaffffac54ffffnat), quad(0x13f7145c835fcd2b6929fc69e24e1421c45e42dd29cbbf2d1ce45f9c26f76bb66632aa8c46982b7e522525a2e63e4e6int, 0x6d7ef6c1af86f551805ff16efe341c11552de0edf4e35f877cba7ccffaa338ec7758f882ac5456c96c8e493363619eaint, 0x1042e145d803ba32685997546b35a94c37ffd2970c1fb8d82a57186d1ae6ee2e117949a3ca6b245c05f843222522977bint, r)),
{
    lemma_root_pow_part_120(r);
    lemma_square_step(r, 0x1a0111ea397fe69a4b1ba7b6434bacd764774b84f38512bf6730d2a0f6b0f6241eabfffeb153fffnat, 0x56ce46d7fd43d84dc9a296e37ad56d9433cc153905c5775e0128490b1a2b8447afe24f126f40e76b58376636df87229int, 0xae8f1d6d389bdf9053a85733a8887dd0e1ba5fc9fdc14725871b0829c870e0f71f62039123a77ddd0258e0864c88e59int, 0x14b3d6626c0b575c11b3b68b75de02574b02edf1fdac25899616cbce54dca0e0883d2c9394ee4892a62274e06b68612bint, 0x17d891e0be5d1b16e6e37870e4ceeaf952a24e364467ad36c80ddd0ee75ec1c71f5c7e0ff1914b4236757ee299a19cf4int, 0xfb67edb21cf21e6e8cb6d1ad7e9c55b3ec3e6a94eb478905157459c590fe5d5e9eca31e62568b0d9b69ca3e895c7502int, 0xc063bb2345e7f30ff17d76cdfaed19ff2b5c5deadf6fa904147132a3231e6dcd45f03aac70fa46e2ee467ff702f5e4aint);
    lemma_times_root_step(r, 0x340223d472ffcd3496374f6c869759aec8ee9709e70a257ece61a541ed61ec483d57fffd62a7ffenat, 0x17d891e0be5d1b16e6e37870e4ceeaf952a24e364467ad36c80ddd0ee75ec1c71f5c7e0ff1914b4236757ee299a19cf4int, 0xfb67edb21cf21e6e8cb6d1ad7e9c55b3ec3e6a94eb478905157459c590fe5d5e9eca31e62568b0d9b69ca3e895c7502int, 0xc063bb2345e7f30ff17d76cdfaed19ff2b5c5deadf6fa904147132a3231e6dcd45f03aac70fa46e2ee467ff702f5e4aint, 0x131b3a838c938555c38d8ff1acf395f3301e9b1202637fc4bb22a817a112eafbc45d755cc42de68f02e0981f074d7535int, 0xf0066d70c92fd658b6184348c7668daadbd58b2651520e46d665e2d8710f4418761cce0bcf7d79a1c1d7b51d8a6ef9aint, 0xfb67edb21cf21e6e8cb6d1ad7e9c55b3ec3e6a94eb478905157459c590fe5d5e9eca31e62568b0d9b69ca3e895c7502int);
    lemma_square_step(r, 0x340223d472ffcd3496374f6c869759aec8ee9709e70a257ece61a541ed61ec483d57fffd62a7fffnat, 0x131b3a838c938555c38d8ff1acf395f3301e9b1202637fc4bb22a817a112eafbc45d755cc42de68f02e0981f074d7535int, 0xf0066d70c92fd658b6184348c7668daadbd58b2651520e46d665e2d8710f4418761cce0bcf7d79a1c1d7b51d8a6ef9aint, 0xfb67edb21cf21e6e8cb6d1ad7e9c55b3ec3e6a94eb478905157459c590fe5d5e9eca31e62568b0d9b69ca3e895c7502int, 0x12a9bae976ae0ebe8481557a20aa5ea15de6ad181987b65386d8530de9e7df4bf67683e84d0db6e07d732fba0b880afeint, 0x1042e145d803ba32685997546b35a94c37ffd2970c1fb8d82a57186d1ae6ee2e117949a3ca6b245c05f843222522977bint, 0x808fb4728969f988a4c805966c0c83a18e903d6fa9ec274222e065c3bdedfd3bbadac9590fd2aa49ad3da6c0b262a27int);
    lemma_times_root_step(r, 0x680447a8e5ff9a692c6e9ed90d2eb35d91dd2e13ce144afd9cc34a83dac3d8907aaffffac54fffenat, 0x12a9bae976ae0ebe8481557a20aa5ea15de6ad181987b65386d8530de9e7df4bf67683e84d0db6e07d732fba0b880afeint, 0x1042e145d803ba32685997546b35a94c37ffd2970c1fb8d82a57186d1ae6ee2e117949a3ca6b245c05f843222522977bint, 0x808fb4728969f988a4c805966c0c83a18e903d6fa9ec274222e065c3bdedfd3bbadac9590fd2aa49ad3da6c0b262a27int, 0x13f7145c835fcd2b6929fc69e24e1421c45e42dd29cbbf2d1ce45f9c26f76bb66632aa8c46982b7e522525a2e63e4e6int, 0x6d7ef6c1af86f551805ff16efe341c11552de0edf4e35f877cba7ccffaa338ec7758f882ac5456c96c8e493363619eaint, 0x1042e145d803ba32685997546b35a94c37ffd2970c1fb8d82a57186d1ae6ee2e117949a3ca6b245c05f843222522977bint);
}

#[verifier::rlimit(40)]
proof fn lemma_root_pow_part_122(r: int)
    requires
        cong(iso_cubic(r), 0),
    ensures
        cong(pow(r, 0x1a0111ea397fe69a4b1ba7b6434bacd764774b84f38512bf6730d2a0f6b0f6241eabfffeb153ffffnat), quad(0x135cbb4b7dfa742eae698aabc028ea86796cfeedbe229172f633604e191585f4b59887b6a2a7c89a23f50712829a8435int, 0x2b6441bc2757dd12ba5491434cab60fcb9677f02ac175a0b0502b8fb513e618a03ba9715b0bc0e259620cac1d00abint, 0x26b3857424843a1ef34f4a0b037a2e638d8939c2bc7611ac66bd056d85ee3a0b0c220b33e6a5ce1a215f22852ab3e24int, r)),
{
    lemma_root_pow_part_121(r);
    lemma_square_step(r, 0x680447a8e5ff9a692c6e9ed90d2eb35d91dd2e13ce144afd9cc34a83dac3d8907aaffffac54ffffnat, 0x13f7145c835fcd2b6929fc69e24e1421c45e42dd29cbbf2d1ce45f9c26f76bb66632aa8c46982b7e522525a2e63e4e6int, 0x6d7ef6c1af86f551805ff16efe341c11552de0edf4e35f877cba7ccffaa338ec7758f882ac5456c96c8e493363619eaint, 0x1042e145d803ba32685997546b35a94c37ffd2970c1fb8d82a57186d1ae6ee2e117949a3ca6b245c05f843222522977bint, 0x6ca9f828e6779e20fc3812497213a0a3a59ddca3f82c51b55382d1c9fc3645d7be05f94e4ecf78f3e8032d92df5bd3eint, 0x3f18655af6855cabb63bf34565329f9e4a5214c14a73a54a691aebe1e9cd4b2002d8c9b27bc4424d3300eccf2b8892int, 0xd93076aa2da01bcc451ed88713dc95ec92b08e4ebd835dfefba60153aba48c74b14ddc448b91a970dfee509ef329877int);
    lemma_times_root_step(r, 0xd0088f51cbff34d258dd3db21a5d66bb23ba5c279c2895fb39869507b587b120f55ffff58a9fffenat, 0x6ca9f828e6779e20fc3812497213a0a3a59ddca3f82c51b55382d1c9fc3645d7be05f94e4ecf78f3e8032d92df5bd3eint, 0x3f18655af6855cabb63bf34565329f9e4a5214c14a73a54a691aebe1e9cd4b2002d8c9b27bc4424d3300eccf2b8892int, 0xd93076aa2da01bcc451ed88713dc95ec92b08e4ebd835dfefba60153aba48c74b14ddc448b91a970dfee509ef329877int, 0x20d2e92ff065300fa0fa47e4f7373d08aeb31453e326ac9d6c703c47ea76c56487b4029f65c198b4a831c0248d092b5int, 0xea072f1b6690e47112f0e48199b84613feaa5f76a2b0ca5c8f338f74626d1de7492a51c5a26bb442c6ca4d580306cfeint, 0x3f18655af6855cabb63bf34565329f9e4a5214c14a73a54a691aebe1e9cd4b2002d8c9b27bc4424d3300eccf2b8892int);
    lemma_square_step(r, 0xd0088f51cbff34d258dd3db21a5d66bb23ba5c279c2895fb39869507b587b120f55ffff58a9ffffnat, 0x20d2e92ff065300fa0fa47e4f7373d08aeb31453e326ac9d6c703c47ea76c56487b4029f65c198b4a831c0248d092b5int, 0xea072f1b6690e47112f0e48199b84613feaa5f76a2b0ca5c8f338f74626d1de7492a51c5a26bb442c6ca4d580306cfeint, 0x3f18655af6855cabb63bf34565329f9e4a5214c14a73a54a691aebe1e9cd4b2002d8c9b27bc4424d3300eccf2b8892int, 0x1723a12f850c96d4ad6e07503b0f63cf33ca2ae59e3252147d7c097bc18f3e783625c1c3714d94eae7c698f27e1ecff9int, 0x26b3857424843a1ef34f4a0b037a2e638d8939c2bc7611ac66bd056d85ee3a0b0c220b33e6a5ce1a215f22852ab3e24int, 0x9536708f1f6f050465eb7f4c62903bd0c3d73085fc9ada739ccb40a9c1450b033c15b49fbd1c1154a7f2db45e384e38int);
    lemma_times_root_step(r, 0x1a0111ea397fe69a4b1ba7b6434bacd764774b84f38512bf6730d2a0f6b0f6241eabfffeb153fffenat, 0x1723a12f850c96d4ad6e07503b0f63cf33ca2ae59e3252147d7c097bc18f3e783625c1c3714d94eae7c698f27e1ecff9int, 0x26b3857424843a1ef34f4a0b037a2e638d8939c2bc7611ac66bd056d85ee3a0b0c220b33e6a5ce1a215f22852ab3e24int, 0x9536708f1f6f050465eb7f4c62903bd0c3d73085fc9ada739ccb40a9c1450b033c15b49fbd1c1154a7f2db45e384e38int, 0x135cbb4b7dfa742eae698aabc028ea86796cfeedbe229172f633604e191585f4b59887b6a2a7c89a23f50712829a8435int, 0x2b6441bc2757dd12ba5491434cab60fcb9677f02ac175a0b0502b8fb513e618a03ba9715b0bc0e259620cac1d00abint, 0x26b3857424843a1ef34f4a0b037a2e638d8939c2bc7611ac66bd056d85ee3a0b0c220b33e6a5ce1a215f22852ab3e24int);
}

#[verifier::rlimit(40)]
proof fn lemma_root_pow_part_123(r: int)
    requires
        cong(iso_cubic(r), 0),
    ensures
        cong(pow(r, 0xd0088f51cbff34d258dd3db21a5d66bb23ba5c279c2895fb39869507b587b120f55ffff58a9ffffcnat), quad(0x6d8572e950e4e58d461d752e26bd06e6904ce8c61b56f90f4d86318e4070de1acf04c3f2bdde04e5e033cdb60a6da1eint, 0x128c572bfacc33baacc2fc78af9c51043936e1452089c02290c190729600b590015aa43f59bc4a0e59633867a378784dint, 0xf9afc7fd9a3d8db5ea1b5cd1b035a258fbe758161d3ea5ad9c5ef4984da09d731809b8dde8aa67a81246a8142995981int, r)),
{
    lemma_root_pow_part_122(r);
    lemma_square_step(r, 0x1a0111ea397fe69a4b1ba7b6434bacd764774b84f38512bf6730d2a0f6b0f6241eabfffeb153ffffnat, 0x135cbb4b7dfa742eae698aabc028ea86796cfeedbe229172f633604e191585f4b59887b6a2a7c89a23f50712829a8435int, 0x2b6441bc2757dd12ba5491434cab60fcb9677f02ac175a0b0502b8fb513e618a03ba9715b0bc0e259620cac1d00abint, 0x26b3857424843a1ef34f4a0b037a2e638d8939c2bc7611ac66bd056d85ee3a0b0c220b33e6a5ce1a215f22852ab3e24int, 0x63ff2ddfa573583acfcff086de258192cde2be4552e50b11af6f6ff63437a1417663dc3cfa4f9e4460c6ebcbd780386int, 0x6e246f69a55196a0d4e165fd2e9893a1dfd68eb85d52a8735d7d8eaba3aa2f9f64e86c874ab3bbd4ff2dd7d57d774c0int, 0x7c5d9330fb4d3340c08149395a066117f15cd2be82458ed9d413a6f61dc78c1342c4cca2d715a831cd931219261e2a8int);
    lemma_times_root_step(r, 0x340223d472ffcd3496374f6c869759aec8ee9709e70a257ece61a541ed61ec483d57fffd62a7fffenat, 0x63ff2ddfa573583acfcff086de258192cde2be4552e50b11af6f6ff63437a1417663dc3cfa4f9e4460c6ebcbd780386int, 0x6e246f69a55196a0d4e165fd2e9893a1dfd68eb85d52a8735d7d8eaba3aa2f9f64e86c874ab3bbd4ff2dd7d57d774c0int, 0x7c5d9330fb4d3340c08149395a066117f15cd2be82458ed9d413a6f61dc78c1342c4cca2d715a831cd931219261e2a8int, 0xcecc583efd851bf9aa134de025cee60aa92a0a92cf42fe4c8bc26b495cc48303444801bb207e13dc7457ea8be6e02f1int, 0x4a2bd16f030d3fe4b141d1dc4fdec2053a95bbadcc4c1e5eea88298b797791d8a2b80f57686454980fe655ca2760b77int, 0x6e246f69a55196a0d4e165fd2e9893a1dfd68eb85d52a8735d7d8eaba3aa2f9f64e86c874ab3bbd4ff2dd7d57d774c0int);
    lemma_square_step(r, 0x340223d472ffcd3496374f6c869759aec8ee9709e70a257ece61a541ed61ec483d57fffd62a7ffffnat, 0xcecc583efd851bf9aa134de025cee60aa92a0a92cf42fe4c8bc26b495cc48303444801bb207e13dc7457ea8be6e02f1int, 0x4a2bd16f030d3fe4b141d1dc4fdec2053a95bbadcc4c1e5eea88298b797791d8a2b80f57686454980fe655ca2760b77int, 0x6e246f69a55196a0d4e165fd2e9893a1dfd68eb85d52a8735d7d8eaba3aa2f9f64e86c874ab3bbd4ff2dd7d57d774c0int, 0x175a226fe0144833d25a581cf9401fc5ae11698e862576e0694af1d577923b01f983617bf0ad755bb9c7491330b13721int, 0x8de969e3e33ae3ab6c9d3fc24e74b02d7faacf5a09ac9f5e3866891c18e67898eccbce9cc434b81e9c0e52f13ed1a11int, 0x11fa4c2223dc42a87dc059456244b5d168652dcc65f664072f931d6bd8ebc5a6c9da6876b7fb3431049836935e5832cfint);
    lemma_square_step(r, 0x680447a8e5ff9a692c6e9ed90d2eb35d91dd2e13ce144afd9cc34a83dac3d8907aaffffac54ffffenat, 0x175a226fe0144833d25a581cf9401fc5ae11698e862576e0694af1d577923b01f983617bf0ad755bb9c7491330b13721int, 0x8de969e3e33ae3ab6c9d3fc24e74b02d7faacf5a09ac9f5e3866891c18e67898eccbce9cc434b81e9c0e52f13ed1a11int, 0x11fa4c2223dc42a87dc059456244b5d168652dcc65f664072f931d6bd8ebc5a6c9da6876b7fb3431049836935e5832cfint, 0x6d8572e950e4e58d461d752e26bd06e6904ce8c61b56f90f4d86318e4070de1acf04c3f2bdde04e5e033cdb60a6da1eint, 0x128c572bfacc33baacc2fc78af9c51043936e1452089c02290c190729600b590015aa43f59bc4a0e59633867a378784dint, 0xf9afc7fd9a3d8db5ea1b5cd1b035a258fbe758161d3ea5ad9c5ef4984da09d731809b8dde8aa67a81246a8142995981int);
}

#[verifier::rlimit(40)]
proof fn lemma_root_pow_part_124(r: int)
    requires
        cong(iso_cubic(r), 0),
    ensures
        cong(pow(r, 0x340223d472ffcd3496374f6c869759aec8ee9709e70a257ece61a541ed61ec483d57fffd62a7ffff6nat), quad(0xc3438f88efb6bc5a5ac054ff61dd519219a2cb1395928a3ca4ce36a92b350b7b3722e7ec962fa6073637d6ab246a3f9int, 0x17e0a5dd8633969a3b02d690aba48bdb47c85273672d3160c7a1d0ab733027d06dffe0e8dc48d79b14265a0e830f9b92int, 0x1779673b6e857b6c67caff14e6a98be4df7e6a2bd9897da7c378b4f6d32280e6ae2bbafef9c2938b1ff5854bfd93daa7int, r)),
{
    lemma_root_pow_part_123(r);
    lemma_times_root_step(r, 0xd0088f51cbff34d258dd3db21a5d66bb23ba5c279c2895fb39869507b587b120f55ffff58a9ffffcnat, 0x6d8572e950e4e58d461d752e26bd06e6904ce8c61b56f90f4d86318e4070de1acf04c3f2bdde04e5e033cdb60a6da1eint, 0x128c572bfacc33baacc2fc78af9c51043936e1452089c02290c190729600b590015aa43f59bc4a0e59633867a378784dint, 0xf9afc7fd9a3d8db5ea1b5cd1b035a258fbe758161d3ea5ad9c5ef4984da09d731809b8dde8aa67a81246a8142995981int, 0x19fdf35e061c6dcd54f499d92eb2b8ee59ffc86e6b130a60c84eeff5147c5ffe5dfa232484af82d90a27befb184fc3e1int, 0x16d7fcf7e87be040c455a7f68f2d9034c3345d314d5020e743be35d3328d533f2a6e7ba0be636cb38981be970d583187int, 0x128c572bfacc33baacc2fc78af9c51043936e1452089c02290c190729600b590015aa43f59bc4a0e59633867a378784dint);
    lemma_square_step(r, 0xd0088f51cbff34d258dd3db21a5d66bb23ba5c279c2895fb39869507b587b120f55ffff58a9ffffdnat, 0x19fdf35e061c6dcd54f499d92eb2b8ee59ffc86e6b130a60c84eeff5147c5ffe5dfa232484af82d90a27befb184fc3e1int, 0x16d7fcf7e87be040c455a7f68f2d9034c3345d314d5020e743be35d3328d533f2a6e7ba0be636cb38981be970d583187int, 0x128c572bfacc33baacc2fc78af9c51043936e1452089c02290c190729600b590015aa43f59bc4a0e59633867a378784dint, 0x10172f1d445a67c18a598b18bcf0502d6148208cf340ae01d5930337cc6cc864ce501c77a3bf64d22c6f058e81c4b776int, 0x3bcf7358c5fe60296c1a745b866e294e02c10ca9533d20dd527b84d4a80dec84a63ce87b345361f836d167eae0a5521int, 0xcc111fb354bfe0436532448b06429092d4af96143052c4fef1f5037ac605308ba38de5e8ae9402313598fa8723fc48int);
    lemma_times_root_step(r, 0x1a0111ea397fe69a4b1ba7b6434bacd764774b84f38512bf6730d2a0f6b0f6241eabfffeb153ffffanat, 0x10172f1d445a67c18a598b18bcf0502d6148208cf340ae01d5930337cc6cc864ce501c77a3bf64d22c6f058e81c4b776int, 0x3bcf7358c5fe60296c1a745b866e294e02c10ca9533d20dd527b84d4a80dec84a63ce87b345361f836d167eae0a5521int, 0xcc111fb354bfe0436532448b06429092d4af96143052c4fef1f5037ac605308ba38de5e8ae9402313598fa8723fc48int, 0xfe3bd1de80004fed5b5067b8728e8b11a29e856f5ca53c23ec4a0ed735832e9fc94624a839bf1151c27ac64d1a0d57eint, 0x282b5d24c745e5ddce99e1ee6c642ab0176e241cc9f20f5a7f60980e63223bcdfb9cc7d98fac3b3683c50fdc1c0a00int, 0x3bcf7358c5fe60296c1a745b866e294e02c10ca9533d20dd527b84d4a80dec84a63ce87b345361f836d167eae0a5521int);
    lemma_square_step(r, 0x1a0111ea397fe69a4b1ba7b6434bacd764774b84f38512bf6730d2a0f6b0f6241eabfffeb153ffffbnat, 0xfe3bd1de80004fed5b5067b8728e8b11a29e856f5ca53c23ec4a0ed735832e9fc94624a839bf1151c27ac64d1a0d57eint, 0x282b5d24c745e5ddce99e1ee6c642ab0176e241cc9f20f5a7f60980e63223bcdfb9cc7d98fac3b3683c50fdc1c0a00int, 0x3bcf7358c5fe60296c1a745b866e294e02c10ca9533d20dd527b84d4a80dec84a63ce87b345361f836d167eae0a5521int, 0xc3438f88efb6bc5a5ac054ff61dd519219a2cb1395928a3ca4ce36a92b350b7b3722e7ec962fa6073637d6ab246a3f9int, 0x17e0a5dd8633969a3b02d690aba48bdb47c85273672d3160c7a1d0ab733027d06dffe0e8dc48d79b14265a0e830f9b92int, 0x1779673b6e857b6c67caff14e6a98be4df7e6a2bd9897da7c378b4f6d32280e6ae2bbafef9c2938b1ff5854bfd93daa7int);
}

#[verifier::rlimit(40)]
proof fn lemma_root_pow_part_125(r: int)
    requires
        cong(iso_cubic(r), 0),
    ensures
        cong(pow(r, 0x1a0111ea397fe69a4b1ba7b6434bacd764774b84f38512bf6730d2a0f6b0f6241eabfffeb153ffffb8nat), quad(0x3806fabc6d60ea2452e918de271c84b69eee66c76c61b1f4faf3f5b10489452c5cf3ea4d57f52bbd78aaafc01cf097bint, 0x13a771090c53522db18e664a6d228db6fc5f18a5b83ff806fbf8aee0d039b8cd2611858b6011a7c8b4f715945fb36976int, 0x43012ebf22ac4a0b16f66233000028bceedbf1e682dd41ffa6c280cb07ab61beb55aee1affb56e0dba33f49e0e6d1e7int, r)),
{
    lemma_root_pow_part_124(r);
    lemma_times_root_step(r, 0x340223d472ffcd3496374f6c869759aec8ee9709e70a257ece61a541ed61ec483d57fffd62a7ffff6nat, 0xc3438f88efb6bc5a5ac054ff61dd519219a2cb1395928a3ca4ce36a92b350b7b3722e7ec962fa6073637d6ab246a3f9int, 0x17e0a5dd8633969a3b02d690aba48bdb47c85273672d3160c7a1d0ab733027d06dffe0e8dc48d79b14265a0e830f9b92int, 0x1779673b6e857b6c67caff14e6a98be4df7e6a2bd9897da7c378b4f6d32280e6ae2bbafef9c2938b1ff5854bfd93daa7int, 0x963560bc228f35750fc0bb323dc3a3abc6e34ec23aef28bc41cef007b76835675aa71e6e8e6761c5d7a7bb35d5ee9f7int, 0xc073740269233b78183f600802fe582b39c1bdd929ac96e3f15469f060c1657750239fb4e410301eb82aaf88bf706dfint, 0x17e0a5dd8633969a3b02d690aba48bdb47c85273672d3160c7a1d0ab733027d06dffe0e8dc48d79b14265a0e830f9b92int);
    lemma_square_step(r, 0x340223d472ffcd3496374f6c869759aec8ee9709e70a257ece61a541ed61ec483d57fffd62a7ffff7nat, 0x963560bc228f35750fc0bb323dc3a3abc6e34ec23aef28bc41cef007b76835675aa71e6e8e6761c5d7a7bb35d5ee9f7int, 0xc073740269233b78183f600802fe582b39c1bdd929ac96e3f15469f060c1657750239fb4e410301eb82aaf88bf706dfint, 0x17e0a5dd8633969a3b02d690aba48bdb47c85273672d3160c7a1d0ab733027d06dffe0e8dc48d79b14265a0e830f9b92int, 0x16409cac0d451a71d1db56abc5c0634b569f024aecec78c34b5508d8b25e456ee0879df99872da17f8446628ca74e9e1int, 0x115f09f48d43d7f35e1da5e2ac17951a36ef841858e7f234f9d99b013e408ebba9e94af5b7d9ceb996532b44b678c6a7int, 0x224e62f7b0a87341f9244f0686f5b45b65836a2d5d2d06ead57d8fabcbba9f5e9c5a30b62e16a4556e5cace702b9757int);
    lemma_square_step(r, 0x680447a8e5ff9a692c6e9ed90d2eb35d91dd2e13ce144afd9cc34a83dac3d8907aaffffac54ffffeenat, 0x16409cac0d451a71d1db56abc5c0634b569f024aecec78c34b5508d8b25e456ee0879df99872da17f8446628ca74e9e1int, 0x115f09f48d43d7f35e1da5e2ac17951a36ef841858e7f234f9d99b013e408ebba9e94af5b7d9ceb996532b44b678c6a7int, 0x224e62f7b0a87341f9244f0686f5b45b65836a2d5d2d06ead57d8fabcbba9f5e9c5a30b62e16a4556e5cace702b9757int, 0x99fb6b8a33699677a919dba230aee928bcb5143bb7d43c2855e6181fad8c7bd0095374e5dd481d38f0bd61d25cd2f9eint, 0x133882de2ee51456aca47073d3a9fdb55ce06f53a077f87c4741435c303aae46186818c7bd385202b3446a780a2838f6int, 0x119027e1e4529c9f0748f684af4e1d23943893bb030897e5240b28dae3c76b5df4185d08a9697189fd5f5bf7f9a840int);
    lemma_square_step(r, 0xd0088f51cbff34d258dd3db21a5d66bb23ba5c279c2895fb39869507b587b120f55ffff58a9ffffdcnat, 0x99fb6b8a33699677a919dba230aee928bcb5143bb7d43c2855e6181fad8c7bd0095374e5dd481d38f0bd61d25cd2f9eint, 0x133882de2ee51456aca47073d3a9fdb55ce06f53a077f87c4741435c303aae46186818c7bd385202b3446a780a2838f6int, 0x119027e1e4529c9f0748f684af4e1d23943893bb030897e5240b28dae3c76b5df4185d08a9697189fd5f5bf7f9a840int, 0x3806fabc6d60ea2452e918de271c84b69eee66c76c61b1f4faf3f5b10489452c5cf3ea4d57f52bbd78aaafc01cf097bint, 0x13a771090c53522db18e664a6d228db6fc5f18a5b83ff806fbf8aee0d039b8cd2611858b6011a7c8b4f715945fb36976int, 0x43012ebf22ac4a0b16f66233000028bceedbf1e682dd41ffa6c280cb07ab61beb55aee1affb56e0dba33f49e0e6d1e7int);
}

#[verifier::rlimit(40)]
proof fn lemma_root_pow_part_126(r: int)
    requires
        cong(iso_cubic(r), 0),
    ensures
        cong(pow(r, 0x680447a8e5ff9a692c6e9ed90d2eb35d91dd2e13ce144afd9cc34a83dac3d8907aaffffac54ffffee6nat), quad(0x7b73b971e2272e2ff76e6f763fb61c2cb151e58a7b06d602007e055b69c3b1fa909075154bcedf2aac5dc5069029a80int, 0x956707eca8ef8b8c1f85e0c495d3bf4023943dc978431d49474e54a7a4a110a9a49964af982fc8dfa1cbaa665f7a828int, 0xae9f83c9023236e0343b01af11cf48bdefcb6f0edc62ddffa5bb3524550ded886b375e098fee24978e5bb6e5c4458e9int, r)),
{
    lemma_root_pow_part_125(r);
    lemma_times_root_step(r, 0x1a0111ea397fe69a4b1ba7b6434bacd764774b84f38512bf6730d2a0f6b0f6241eabfffeb153ffffb8nat, 0x3806fabc6d60ea2452e918de271c84b69eee66c76c61b1f4faf3f5b10489452c5cf3ea4d57f52bbd78aaafc01cf097bint, 0x13a771090c53522db18e664a6d228db6fc5f18a5b83ff806fbf8aee0d039b8cd2611858b6011a7c8b4f715945fb36976int, 0x43012ebf22ac4a0b16f66233000028bceedbf1e682dd41ffa6c280cb07ab61beb55aee1affb56e0dba33f49e0e6d1e7int, 0xa99ed47242e946c7f6d1ed82bf3cf47bff78a226b37e28557896b577a21b6520b9674dc6ef030b6ea8257ddd6dc556bint, 0x1f23fa572a6d0750b5b125bc9d0f2af1aa3bf607ae41dd7b315e92eba85348d337aa67be90dc413ec280fb7cb24e0b0int, 0x13a771090c53522db18e664a6d228db6fc5f18a5b83ff806fbf8aee0d039b8cd2611858b6011a7c8b4f715945fb36976int);
    lemma_square_step(r, 0x1a0111ea397fe69a4b1ba7b6434bacd764774b84f38512bf6730d2a0f6b0f6241eabfffeb153ffffb9nat, 0xa99ed47242e946c7f6d1ed82bf3cf47bff78a226b37e28557896b577a21b6520b9674dc6ef030b6ea8257ddd6dc556bint, 0x1f23fa572a6d0750b5b125bc9d0f2af1aa3bf607ae41dd7b315e92eba85348d337aa67be90dc413ec280fb7cb24e0b0int, 0x13a771090c53522db18e664a6d228db6fc5f18a5b83ff806fbf8aee0d039b8cd2611858b6011a7c8b4f715945fb36976int, 0x188e164e73649a8e727606ff04e8cc41a6aaed640a099f5e3978e4514dbdc97a9cf4f549ed4e3cc5bc093430d2754d1cint, 0x13a919d93c8333660cad8a4b7008ac2d358a585d8cf7cb2fa951c762f41fb63d322c5f1ff96480152172337b506a95d7int, 0x6d0cf39a3d06db8e5da19c9ba148ffe321582075171dce772828cc984514b32bda6356f2b71c6cb4f2a8fe5e95ad832int);
    lemma_times_root_step(r, 0x340223d472ffcd3496374f6c869759aec8ee9709e70a257ece61a541ed61ec483d57fffd62a7ffff72nat, 0x188e164e73649a8e727606ff04e8cc41a6aaed640a099f5e3978e4514dbdc97a9cf4f549ed4e3cc5bc093430d2754d1cint, 0x13a919d93c8333660cad8a4b7008ac2d358a585d8cf7cb2fa951c762f41fb63d322c5f1ff96480152172337b506a95d7int, 0x6d0cf39a3d06db8e5da19c9ba148ffe321582075171dce772828cc984514b32bda6356f2b71c6cb4f2a8fe5e95ad832int, 0x119899cf290c1563c7e9a912382b74e467dfe6b56a3e9b7d55eee68878808019200cf232241e20bd5a436c323c8d4f8eint, 0x13569477cf58726a670ea3afb5fa0754c9b4299028b33bd26b358fe7573a7d6323d794b65739bd4954b2b21779b6a8ecint, 0x13a919d93c8333660cad8a4b7008ac2d358a585d8cf7cb2fa951c762f41fb63d322c5f1ff96480152172337b506a95d7int);
    lemma_square_step(r, 0x340223d472ffcd3496374f6c869759aec8ee9709e70a257ece61a541ed61ec483d57fffd62a7ffff73nat, 0x119899cf290c1563c7e9a912382b74e467dfe6b56a3e9b7d55eee68878808019200cf232241e20bd5a436c323c8d4f8eint, 0x13569477cf58726a670ea3afb5fa0754c9b4299028b33bd26b358fe7573a7d6323d794b65739bd4954b2b21779b6a8ecint, 0x13a919d93c8333660cad8a4b7008ac2d358a585d8cf7cb2fa951c762f41fb63d322c5f1ff96480152172337b506a95d7int, 0x7b73b971e2272e2ff76e6f763fb61c2cb151e58a7b06d602007e055b69c3b1fa909075154bcedf2aac5dc5069029a80int, 0x956707eca8ef8b8c1f85e0c495d3bf4023943dc978431d49474e54a7a4a110a9a49964af982fc8dfa1cbaa665f7a828int, 0xae9f83c9023236e0343b01af11cf48bdefcb6f0edc62ddffa5bb3524550ded886b375e098fee24978e5bb6e5c4458e9int);
}

#[verifier::rlimit(40)]
proof fn lemma_root_pow_part_127(r: int)
    requires
        cong(iso_cubic(r), 0),
    ensures
        cong(pow(r, 0x1a0111ea397fe69a4b1ba7b6434bacd764774b84f38512bf6730d2a0f6b0f6241eabfffeb153ffffb9enat), quad(0x9bd98d276e3debdefbf0db18626084f3fe692985fbd2e4fed3260042b8df66d4ab8638a77fca6cd022e5c06f5aaff51int, 0x1114482f0dc114176bc0bfeb73f6c16326f2ac8329674b8c7f47930b5b07df65ddbab0096496a8848cb2b28fcee3fa09int, 0x17b6e95f60cd4af5ccdae6e13a6af583daf5cb61acc379f7c11dd863523a16b07e3930b2397bcdb2abf27bc2181d468aint, r)),
{
    lemma_root_pow_part_126(r);
    lemma_times_root_step(r, 0x680447a8e5ff9a692c6e9ed90d2eb35d91dd2e13ce144afd9cc34a83dac3d8907aaffffac54ffffee6nat, 0x7b73b971e2272e2ff76e6f763fb61c2cb151e58a7b06d602007e055b69c3b1fa909075154bcedf2aac5dc5069029a80int, 0x956707eca8ef8b8c1f85e0c495d3bf4023943dc978431d49474e54a7a4a110a9a49964af982fc8dfa1cbaa665f7a828int, 0xae9f83c9023236e0343b01af11cf48bdefcb6f0edc62ddffa5bb3524550ded886b375e098fee24978e5bb6e5c4458e9int, 0x8a540868c0b0da3e1d1a239514900dfae0952d144853a3cb6faeea775b7c2bdda0706be8bfe242a430253cd0a6d5079int, 0x59063f6badd9c2ed338bcbaad8c5d6e2739b6e1f0a0fc7c7b7bee61e60c11079b5be9255639174c6fa2cc815bc26475int, 0x956707eca8ef8b8c1f85e0c495d3bf4023943dc978431d49474e54a7a4a110a9a49964af982fc8dfa1cbaa665f7a828int);
    lemma_square_step(r, 0x680447a8e5ff9a692c6e9ed90d2eb35d91dd2e13ce144afd9cc34a83dac3d8907aaffffac54ffffee7nat, 0x8a540868c0b0da3e1d1a239514900dfae0952d144853a3cb6faeea775b7c2bdda0706be8bfe242a430253cd0a6d5079int, 0x59063f6badd9c2ed338bcbaad8c5d6e2739b6e1f0a0fc7c7b7bee61e60c11079b5be9255639174c6fa2cc815bc26475int, 0x956707eca8ef8b8c1f85e0c495d3bf4023943dc978431d49474e54a7a4a110a9a49964af982fc8dfa1cbaa665f7a828int, 0x9923af43122f6c74cffa2f9bb23429200d8ebbe4a089437ed80fcebbfb2527534bb6a6eccb97179be80c468eb3baee2int, 0x15079627a5154e573f6c18c3dae456940600db6b9dffe80eac2a7cccbcb507440370d296c042090bbb65021939a6e002int, 0xcb90fcd15869c064b1ce8c8ed8bd0c42a5f873a9f6c2005c1e99b1aa93935b86ef111fc8dc419de3066d6753aa87c6aint);
    lemma_times_root_step(r, 0xd0088f51cbff34d258dd3db21a5d66bb23ba5c279c2895fb39869507b587b120f55ffff58a9ffffdcenat, 0x9923af43122f6c74cffa2f9bb23429200d8ebbe4a089437ed80fcebbfb2527534bb6a6eccb97179be80c468eb3baee2int, 0x15079627a5154e573f6c18c3dae456940600db6b9dffe80eac2a7cccbcb507440370d296c042090bbb65021939a6e002int, 0xcb90fcd15869c064b1ce8c8ed8bd0c42a5f873a9f6c2005c1e99b1aa93935b86ef111fc8dc419de3066d6753aa87c6aint, 0x51934095088d12aa9b5dd6c6c6e94ceda6a9889ca6523ffe680dc4f8c3edf3311886d4c16359b61915be8514cc1bc4aint, 0x17a467ba99a30108b7f4f67b0d4da789fdab5569c2efeffd0c4463cf5d68a366d93a797347d6507cb86730d4f987be7bint, 0x15079627a5154e573f6c18c3dae456940600db6b9dffe80eac2a7cccbcb507440370d296c042090bbb65021939a6e002int);
    lemma_square_step(r, 0xd0088f51cbff34d258dd3db21a5d66bb23ba5c279c2895fb39869507b587b120f55ffff58a9ffffdcfnat, 0x51934095088d12aa9b5dd6c6c6e94ceda6a9889ca6523ffe680dc4f8c3edf3311886d4c16359b61915be8514cc1bc4aint, 0x17a467ba99a30108b7f4f67b0d4da789fdab5569c2efeffd0c4463cf5d68a366d93a797347d6507cb86730d4f987be7bint, 0x15079627a5154e573f6c18c3dae456940600db6b9dffe80eac2a7cccbcb507440370d296c042090bbb65021939a6e002int, 0x9bd98d276e3debdefbf0db18626084f3fe692985fbd2e4fed3260042b8df66d4ab8638a77fca6cd022e5c06f5aaff51int, 0x1114482f0dc114176bc0bfeb73f6c16326f2ac8329674b8c7f47930b5b07df65ddbab0096496a8848cb2b28fcee3fa09int, 0x17b6e95f60cd4af5ccdae6e13a6af583daf5cb61acc379f7c11dd863523a16b07e3930b2397bcdb2abf27bc2181d468aint);
}

#[verifier::rlimit(40)]
proof fn lemma_root_pow_part_128(r: int)
    requires
        cong(iso_cubic(r), 0),
    ensures
        cong(pow(r, 0x680447a8e5ff9a692c6e9ed90d2eb35d91dd2e13ce144afd9cc34a83dac3d8907aaffffac54ffffee7enat), quad(0xbf12d85f292ff41f547678300b57dd57851019a3c2ecf34cb00883a7a5a63c49eb83a8fa7db06ba29e44401eb6059e4int, 0xe5a1440bc528976385f44cae3c8acb63699f986e37b7c022b68591a4bb2c2732eb0322001e1a872e4137c277b35bfa5int, 0xac94789e2a174dccbd5b26f6599f44822a200cc685c76787ba8934086595db9fbc0059ddc53af0701866bf31c243a11int, r)),
{
    lemma_root_pow_part_127(r);
    lemma_times_root_step(r, 0x1a0111ea397fe69a4b1ba7b6434bacd764774b84f38512bf6730d2a0f6b0f6241eabfffeb153ffffb9enat, 0x9bd98d276e3debdefbf0db18626084f3fe692985fbd2e4fed3260042b8df66d4ab8638a77fca6cd022e5c06f5aaff51int, 0x1114482f0dc114176bc0bfeb73f6c16326f2ac8329674b8c7f47930b5b07df65ddbab0096496a8848cb2b28fcee3fa09int, 0x17b6e95f60cd4af5ccdae6e13a6af583daf5cb61acc379f7c11dd863523a16b07e3930b2397bcdb2abf27bc2181d468aint, 0x14297c53df4bba88ac9af5103b609ee70f7c81992cabfe78102430ab29fd9a5cb26aef6f031f35ebb4d85d1920898026int, 0xd58429ebb6952440e6cf1b71aea6dca84f73f60f6ded460fd2b20cd90e3965aa46cc920ebb53c6c52e8a05442361890int, 0x1114482f0dc114176bc0bfeb73f6c16326f2ac8329674b8c7f47930b5b07df65ddbab0096496a8848cb2b28fcee3fa09int);
    lemma_square_step(r, 0x1a0111ea397fe69a4b1ba7b6434bacd764774b84f38512bf6730d2a0f6b0f6241eabfffeb153ffffb9fnat, 0x14297c53df4bba88ac9af5103b609ee70f7c81992cabfe78102430ab29fd9a5cb26aef6f031f35ebb4d85d1920898026int, 0xd58429ebb6952440e6cf1b71aea6dca84f73f60f6ded460fd2b20cd90e3965aa46cc920ebb53c6c52e8a05442361890int, 0x1114482f0dc114176bc0bfeb73f6c16326f2ac8329674b8c7f47930b5b07df65ddbab0096496a8848cb2b28fcee3fa09int, 0xadc6796b83a7f1174b170907d463d87d0d8461f13aa0818e1893b9b50492433bb93af73bc56aab7bd7182b02893cb9dint, 0xfcf9ae0bb35f05aade13c0e8737911e5791e698f01710bf7c6f92ec638354d936c6372b05e7f72d442ae4645dcf9602int, 0x2c532878388b437e841b55334e1233d60a5f127e8ba84dc1bd2513e129ddd8161bcf078a85b21346ffa4986c52deca2int);
    lemma_times_root_step(r, 0x340223d472ffcd3496374f6c869759aec8ee9709e70a257ece61a541ed61ec483d57fffd62a7ffff73enat, 0xadc6796b83a7f1174b170907d463d87d0d8461f13aa0818e1893b9b50492433bb93af73bc56aab7bd7182b02893cb9dint, 0xfcf9ae0bb35f05aade13c0e8737911e5791e698f01710bf7c6f92ec638354d936c6372b05e7f72d442ae4645dcf9602int, 0x2c532878388b437e841b55334e1233d60a5f127e8ba84dc1bd2513e129ddd8161bcf078a85b21346ffa4986c52deca2int, 0x8ed5a02428e3d4e65cdd10e69ac1d4ef14260bc01e8ec411edc8c33684ec2c80ad3063a3f4541d24717f74f4aecbae8int, 0xe22f9ee2e58e5d8c050c1988fd9671bdd45a3a5accd96326912c21a7052c52bc5c294d998bf0f2f72ba0cb8df268377int, 0xfcf9ae0bb35f05aade13c0e8737911e5791e698f01710bf7c6f92ec638354d936c6372b05e7f72d442ae4645dcf9602int);
    lemma_square_step(r, 0x340223d472ffcd3496374f6c869759aec8ee9709e70a257ece61a541ed61ec483d57fffd62a7ffff73fnat, 0x8ed5a02428e3d4e65cdd10e69ac1d4ef14260bc01e8ec411edc8c33684ec2c80ad3063a3f4541d24717f74f4aecbae8int, 0xe22f9ee2e58e5d8c050c1988fd9671bdd45a3a5accd96326912c21a7052c52bc5c294d998bf0f2f72ba0cb8df268377int, 0xfcf9ae0bb35f05aade13c0e8737911e5791e698f01710bf7c6f92ec638354d936c6372b05e7f72d442ae4645dcf9602int, 0xbf12d85f292ff41f547678300b57dd57851019a3c2ecf34cb00883a7a5a63c49eb83a8fa7db06ba29e44401eb6059e4int, 0xe5a1440bc528976385f44cae3c8acb63699f986e37b7c022b68591a4bb2c2732eb0322001e1a872e4137c277b35bfa5int, 0xac94789e2a174dccbd5b26f6599f44822a200cc685c76787ba8934086595db9fbc0059ddc53af0701866bf31c243a11int);
}

#[verifier::rlimit(40)]
proof fn lemma_root_pow_part_129(r: int)
    requires
        cong(iso_cubic(r), 0),
    ensures
        cong(pow(r, 0x1a0111ea397fe69a4b1ba7b6434bacd764774b84f38512bf6730d2a0f6b0f6241eabfffeb153ffffb9fenat), quad(0x189286649aef93c0b77e9fa4ed87268e3c38f98436228b7093f7e99df8faa7007f5c3e09028482f1629dd1abb72fca84int, 0xa1f382c8e5efda629f9ae9390868711eafdd59c839fa0f77d4b0f035dffe2284303e3298390ccfa1bedd9ea0af68f67int, 0x2d868bbb739fe6ef8867a00da5cce4c1e7d2bef633d3eafd96ea18777c0321581fb113f052c77421c49f70c1a82018dint, r)),
{
    lemma_root_pow_part_128(r);
    lemma_times_root_step(r, 0x680447a8e5ff9a692c6e9ed90d2eb35d91dd2e13ce144afd9cc34a83dac3d8907aaffffac54ffffee7enat, 0xbf12d85f292ff41f547678300b57dd57851019a3c2ecf34cb00883a7a5a63c49eb83a8fa7db06ba29e44401eb6059e4int, 0xe5a1440bc528976385f44cae3c8acb63699f986e37b7c022b68591a4bb2c2732eb0322001e1a872e4137c277b35bfa5int, 0xac94789e2a174dccbd5b26f6599f44822a200cc685c76787ba8934086595db9fbc0059ddc53af0701866bf31c243a11int, 0xf8c9cf2f16d7b6d12530feef84436f47ce8522bfdba79672b99ab2a034851fcf6a2ba0b11a618b9dd43fb4d00f345aaint, 0xbecae68b8e0ce85382c5157bd868a0a877bb7e482693e80e048920ad956958a59268ccf952d6ad20dbaf5de70ebb68aint, 0xe5a1440bc528976385f44cae3c8acb63699f986e37b7c022b68591a4bb2c2732eb0322001e1a872e4137c277b35bfa5int);
    lemma_square_step(r, 0x680447a8e5ff9a692c6e9ed90d2eb35d91dd2e13ce144afd9cc34a83dac3d8907aaffffac54ffffee7fnat, 0xf8c9cf2f16d7b6d12530feef84436f47ce8522bfdba79672b99ab2a034851fcf6a2ba0b11a618b9dd43fb4d00f345aaint, 0xbecae68b8e0ce85382c5157bd868a0a877bb7e482693e80e048920ad956958a59268ccf952d6ad20dbaf5de70ebb68aint, 0xe5a1440bc528976385f44cae3c8acb63699f986e37b7c022b68591a4bb2c2732eb0322001e1a872e4137c277b35bfa5int, 0x1a69bc5f13dbd475e7262b6b997ef4ef61a6b5883123eeac436051ae7f7dccc4d2f08e99fa9bccf8e09637dcc462dc5int, 0x13ac4e15d99e75a52eb9ef7cf7523cc3a410b9ad691266f68d716bd890bf6d13c4ce5f1a14f4a72dc0e5b5585d8fb722int, 0xb23c0e0999ca7fc9b255783b3076fb18659a391b92f12dceab6f228269cbca733c4c99bfccac9c5d6a3205f7e7ee75cint);
    lemma_times_root_step(r, 0xd0088f51cbff34d258dd3db21a5d66bb23ba5c279c2895fb39869507b587b120f55ffff58a9ffffdcfenat, 0x1a69bc5f13dbd475e7262b6b997ef4ef61a6b5883123eeac436051ae7f7dccc4d2f08e99fa9bccf8e09637dcc462dc5int, 0x13ac4e15d99e75a52eb9ef7cf7523cc3a410b9ad691266f68d716bd890bf6d13c4ce5f1a14f4a72dc0e5b5585d8fb722int, 0xb23c0e0999ca7fc9b255783b3076fb18659a391b92f12dceab6f228269cbca733c4c99bfccac9c5d6a3205f7e7ee75cint, 0xdd687d0a16c093da42611543b1c2d60334fec10cdb7382f09c736cc52af0032360745f2c40e9a1178634424f91e449cint, 0x182d7a235c9121ef85093f578f241eea3bbc0cf4b049d9eaab1ed3090f06a6d4c5b8b7cb90937ff4e6e67af38ce50c0cint, 0x13ac4e15d99e75a52eb9ef7cf7523cc3a410b9ad691266f68d716bd890bf6d13c4ce5f1a14f4a72dc0e5b5585d8fb722int);
    lemma_square_step(r, 0xd0088f51cbff34d258dd3db21a5d66bb23ba5c279c2895fb39869507b587b120f55ffff58a9ffffdcffnat, 0xdd687d0a16c093da42611543b1c2d60334fec10cdb7382f09c736cc52af0032360745f2c40e9a1178634424f91e449cint, 0x182d7a235c9121ef85093f578f241eea3bbc0cf4b049d9eaab1ed3090f06a6d4c5b8b7cb90937ff4e6e67af38ce50c0cint, 0x13ac4e15d99e75a52eb9ef7cf7523cc3a410b9ad691266f68d716bd890bf6d13c4ce5f1a14f4a72dc0e5b5585d8fb722int, 0x189286649aef93c0b77e9fa4ed87268e3c38f98436228b7093f7e99df8faa7007f5c3e09028482f1629dd1abb72fca84int, 0xa1f382c8e5efda629f9ae9390868711eafdd59c839fa0f77d4b0f035dffe2284303e3298390ccfa1bedd9ea0af68f67int, 0x2d868bbb739fe6ef8867a00da5cce4c1e7d2bef633d3eafd96ea18777c0321581fb113f052c77421c49f70c1a82018dint);
}

#[verifier::rlimit(40)]
proof fn lemma_root_pow_part_130(r: int)
    requires
        cong(iso_cubic(r), 0),
    ensures
        cong(pow(r, 0x680447a8e5ff9a692c6e9ed90d2eb35d91dd2e13ce144afd9cc34a83dac3d8907aaffffac54ffffee7fbnat), quad(0x12c3b68ebcc98ed69f98b97671cb5a20b617e51a91d969695166fa2b9675cc82571c1db8654ecdf4ccb7339414cb8874int, 0x14a0c9a4c82f0d65f096700a2e9bf0947df4ec244acf7d1b4c38e263b44ef5dd3422dffa59ac015ac293419bfe55e594int, 0xfd1a4f136d387f08d5cd6732c6039400dbca473b4d8e1f9521ec4551e74336cb362ba3a1e4517ae6ac4deafdba20905int, r)),
{
    lemma_root_pow_part_129(r);
    lemma_square_step(r, 0x1a0111ea397fe69a4b1ba7b6434bacd764774b84f38512bf6730d2a0f6b0f6241eabfffeb153ffffb9fenat, 0x189286649aef93c0b77e9fa4ed87268e3c38f98436228b7093f7e99df8faa7007f5c3e09028482f1629dd1abb72fca84int, 0xa1f382c8e5efda629f9ae9390868711eafdd59c839fa0f77d4b0f035dffe2284303e3298390ccfa1bedd9ea0af68f67int, 0x2d868bbb739fe6ef8867a00da5cce4c1e7d2bef633d3eafd96ea18777c0321581fb113f052c77421c49f70c1a82018dint, 0x179191f80bf28bde11732572ec0fcdcae252a1801a0637fc46f7f92b72e7c793bbaa48d3ea1f45ae64cf40c35e6d5ed8int, 0x62569cde8c429dbc4ae340bff42ab154b55b7d06db426b11cd930ac2d303d7d3af581762da499892f872eae2bfe0322int, 0xbf04ff72d579aa146d6451e2d96c4d8fd2daa34dbbfd1d66004306d6bdd1f18ed07cd297341d86b7da8daf043206accint);
    lemma_times_root_step(r, 0x340223d472ffcd3496374f6c869759aec8ee9709e70a257ece61a541ed61ec483d57fffd62a7ffff73fcnat, 0x179191f80bf28bde11732572ec0fcdcae252a1801a0637fc46f7f92b72e7c793bbaa48d3ea1f45ae64cf40c35e6d5ed8int, 0x62569cde8c429dbc4ae340bff42ab154b55b7d06db426b11cd930ac2d303d7d3af581762da499892f872eae2bfe0322int, 0xbf04ff72d579aa146d6451e2d96c4d8fd2daa34dbbfd1d66004306d6bdd1f18ed07cd297341d86b7da8daf043206accint, 0x10fad058fe562418f0c456c56dab85103a8fa327508095f9ba0937c16dd0f34812b25282139d7e82f0c0ba84207e1d8aint, 0x7068d5106ca23fb3755c112eefbc3f838ac011ab69aacf4f8216ff1507419fe5184e6a0df73b314397cf57d5e9813ffint, 0x62569cde8c429dbc4ae340bff42ab154b55b7d06db426b11cd930ac2d303d7d3af581762da499892f872eae2bfe0322int);
    lemma_square_step(r, 0x340223d472ffcd3496374f6c869759aec8ee9709e70a257ece61a541ed61ec483d57fffd62a7ffff73fdnat, 0x10fad058fe562418f0c456c56dab85103a8fa327508095f9ba0937c16dd0f34812b25282139d7e82f0c0ba84207e1d8aint, 0x7068d5106ca23fb3755c112eefbc3f838ac011ab69aacf4f8216ff1507419fe5184e6a0df73b314397cf57d5e9813ffint, 0x62569cde8c429dbc4ae340bff42ab154b55b7d06db426b11cd930ac2d303d7d3af581762da499892f872eae2bfe0322int, 0x41a08947c58740db5e29ba012fb5c4d7839278513f32284b642ea537b15c8cfb4818bc97c07189bd02214b1a5bf72eaint, 0xfd1a4f136d387f08d5cd6732c6039400dbca473b4d8e1f9521ec4551e74336cb362ba3a1e4517ae6ac4deafdba20905int, 0x176c9df56e2f575dff90af12f2e9c9bcda17e24c11ed6c1359a68bae1e4e52f0fc34d19ff5a78cc08b434a0c3e0d54ddint);
    lemma_times_root_step(r, 0x680447a8e5ff9a692c6e9ed90d2eb35d91dd2e13ce144afd9cc34a83dac3d8907aaffffac54ffffee7fanat, 0x41a08947c58740db5e29ba012fb5c4d7839278513f32284b642ea537b15c8cfb4818bc97c07189bd02214b1a5bf72eaint, 0xfd1a4f136d387f08d5cd6732c6039400dbca473b4d8e1f9521ec4551e74336cb362ba3a1e4517ae6ac4deafdba20905int, 0x176c9df56e2f575dff90af12f2e9c9bcda17e24c11ed6c1359a68bae1e4e52f0fc34d19ff5a78cc08b434a0c3e0d54ddint, 0x12c3b68ebcc98ed69f98b97671cb5a20b617e51a91d969695166fa2b9675cc82571c1db8654ecdf4ccb7339414cb8874int, 0x14a0c9a4c82f0d65f096700a2e9bf0947df4ec244acf7d1b4c38e263b44ef5dd3422dffa59ac015ac293419bfe55e594int, 0xfd1a4f136d387f08d5cd6732c6039400dbca473b4d8e1f9521ec4551e74336cb362ba3a1e4517ae6ac4deafdba20905int);
}

#[verifier::rlimit(40)]
proof fn lemma_root_pow_part_131(r: int)
    requires
        cong(iso_cubic(r), 0),
    ensures
        cong(pow(r, 0x1a0111ea397fe69a4b1ba7b6434bacd764774b84f38512bf6730d2a0f6b0f6241eabfffeb153ffffb9fefnat), quad(0x41ac053ab09864afe90e2fc601016cc3f6acfa06f55a25551666746398875863a5db404a1665f015dfba7495798573eint, 0xc085c982328955f55f28f265dd04aebd3248cae65b7c86e6d890cabcc3aa63004c50de5fcc4fbfeb1e4f1471ebb11cint, 0x8c1bdcafe9a71eb623b6ecf4e96f744a9e9d8aee856998bf281334df26eedc661950b72dd172ce21f0df6dbefa3e9a6int, r)),
{
    lemma_root_pow_part_130(r);
    lemma_square_step(r, 0x680447a8e5ff9a692c6e9ed90d2eb35d91dd2e13ce144afd9cc34a83dac3d8907aaffffac54ffffee7fbnat, 0x12c3b68ebcc98ed69f98b97671cb5a20b617e51a91d969695166fa2b9675cc82571c1db8654ecdf4ccb7339414cb8874int, 0x14a0c9a4c82f0d65f096700a2e9bf0947df4ec244acf7d1b4c38e263b44ef5dd3422dffa59ac015ac293419bfe55e594int, 0xfd1a4f136d387f08d5cd6732c6039400dbca473b4d8e1f9521ec4551e74336cb362ba3a1e4517ae6ac4deafdba20905int, 0xcce3ee1600717cb98da3cf54a43884673e0f9c90bbe2a275b443688ce1bfd70ec48f88710a5ec6974274c6a5ffbf9bdint, 0x13dd19f2418b43a0caca3d64127f94247ee7e0b546bcda81bb5e552113de4afad739e8118072dd3c49f1b46ccfe1428cint, 0xa204fd1c5745d80fce5ba78809dab94de245e37ec50a0abc910de6985a0b2e9ca929f6c6fa7bcd3dbd27a316884956dint);
    lemma_times_root_step(r, 0xd0088f51cbff34d258dd3db21a5d66bb23ba5c279c2895fb39869507b587b120f55ffff58a9ffffdcff6nat, 0xcce3ee1600717cb98da3cf54a43884673e0f9c90bbe2a275b443688ce1bfd70ec48f88710a5ec6974274c6a5ffbf9bdint, 0x13dd19f2418b43a0caca3d64127f94247ee7e0b546bcda81bb5e552113de4afad739e8118072dd3c49f1b46ccfe1428cint, 0xa204fd1c5745d80fce5ba78809dab94de245e37ec50a0abc910de6985a0b2e9ca929f6c6fa7bcd3dbd27a316884956dint, 0x16ecda66e5ff522a7b9b5c898d672278eca4fa14754d6889d77209ef1b6562e8188ccf3fc925e98c4b3f170211b9d7d0int, 0xdbb942eb4e62175bf24f5677ac2487f569e20702a0c185eaf05270d24c35c124aff5bddaad852fcfe78487dffa7d1fdint, 0x13dd19f2418b43a0caca3d64127f94247ee7e0b546bcda81bb5e552113de4afad739e8118072dd3c49f1b46ccfe1428cint);
    lemma_square_step(r, 0xd0088f51cbff34d258dd3db21a5d66bb23ba5c279c2895fb39869507b587b120f55ffff58a9ffffdcff7nat, 0x16ecda66e5ff522a7b9b5c898d672278eca4fa14754d6889d77209ef1b6562e8188ccf3fc925e98c4b3f170211b9d7d0int, 0xdbb942eb4e62175bf24f5677ac2487f569e20702a0c185eaf05270d24c35c124aff5bddaad852fcfe78487dffa7d1fdint, 0x13dd19f2418b43a0caca3d64127f94247ee7e0b546bcda81bb5e552113de4afad739e8118072dd3c49f1b46ccfe1428cint, 0x1281395817d8f86b3faef09029d905c42f7db6ee47c8d98a9c205aa44f701df75f9d180e024086d8f3166287749769d3int, 0x8c1bdcafe9a71eb623b6ecf4e96f744a9e9d8aee856998bf281334df26eedc661950b72dd172ce21f0df6dbefa3e9a6int, 0xd895bdfda22871ffb630e7f02be763e247c00aa5a1d0d4f4563b9b38ebf1d527f8290a2e1326153e4f037da545d62c9int);
    lemma_times_root_step(r, 0x1a0111ea397fe69a4b1ba7b6434bacd764774b84f38512bf6730d2a0f6b0f6241eabfffeb153ffffb9feenat, 0x1281395817d8f86b3faef09029d905c42f7db6ee47c8d98a9c205aa44f701df75f9d180e024086d8f3166287749769d3int, 0x8c1bdcafe9a71eb623b6ecf4e96f744a9e9d8aee856998bf281334df26eedc661950b72dd172ce21f0df6dbefa3e9a6int, 0xd895bdfda22871ffb630e7f02be763e247c00aa5a1d0d4f4563b9b38ebf1d527f8290a2e1326153e4f037da545d62c9int, 0x41ac053ab09864afe90e2fc601016cc3f6acfa06f55a25551666746398875863a5db404a1665f015dfba7495798573eint, 0xc085c982328955f55f28f265dd04aebd3248cae65b7c86e6d890cabcc3aa63004c50de5fcc4fbfeb1e4f1471ebb11cint, 0x8c1bdcafe9a71eb623b6ecf4e96f744a9e9d8aee856998bf281334df26eedc661950b72dd172ce21f0df6dbefa3e9a6int);
}

#[verifier::rlimit(40)]
proof fn lemma_root_pow_part_132(r: int)
    requires
        cong(iso_cubic(r), 0),
    ensures
        cong(pow(r, 0x680447a8e5ff9a692c6e9ed90d2eb35d91dd2e13ce144afd9cc34a83dac3d8907aaffffac54ffffee7fbfnat), quad(0xfd49367c66a650af18c6cdf9c97fa3efd0264fc85c130f9f8e4f076ab08405f390ce85196e60a7bfa0d7aa5e3278cf9int, 0x4cf47bc1b3087c1c0a6f72b0562331300af6ffeb81497cc689e4cc63945f0382bd2ca22799b1618cda22d00cfcbe523int, 0x138111d058b5b36ac08ad430523fcb0dff0fa80d011557194f86c83915e5aa5710835a32ea082fdccdf65ebee3b804e5int, r)),
{
    lemma_root_pow_part_131(r);
    lemma_square_step(r, 0x1a0111ea397fe69a4b1ba7b6434bacd764774b84f38512bf6730d2a0f6b0f6241eabfffeb153ffffb9fefnat, 0x41ac053ab09864afe90e2fc601016cc3f6acfa06f55a25551666746398875863a5db404a1665f015dfba7495798573eint, 0xc085c982328955f55f28f265dd04aebd3248cae65b7c86e6d890cabcc3aa63004c50de5fcc4fbfeb1e4f1471ebb11cint, 0x8c1bdcafe9a71eb623b6ecf4e96f744a9e9d8aee856998bf281334df26eedc661950b72dd172ce21f0df6dbefa3e9a6int, 0x147df835aa3679c8135b207f3581832b9c046aa44bb67212f15884a8bb08f9705c7493e54ee317089a7db66cb3bfe70int, 0x1049b9f9e9570a94b548acebf7ea525d291f2694e667d6ccd612f2804bdcf93a244e1abf1d1099cb430f43c2734bdfeint, 0xfeb23bc291e95820d924af07706a75472098d633fdce84895231fd9ab6d9a8902ec247d2ba369433e44a06efecf806aint);
    lemma_times_root_step(r, 0x340223d472ffcd3496374f6c869759aec8ee9709e70a257ece61a541ed61ec483d57fffd62a7ffff73fdenat, 0x147df835aa3679c8135b207f3581832b9c046aa44bb67212f15884a8bb08f9705c7493e54ee317089a7db66cb3bfe70int, 0x1049b9f9e9570a94b548acebf7ea525d291f2694e667d6ccd612f2804bdcf93a244e1abf1d1099cb430f43c2734bdfeint, 0xfeb23bc291e95820d924af07706a75472098d633fdce84895231fd9ab6d9a8902ec247d2ba369433e44a06efecf806aint, 0x7283d74209f7b3b7254991a8fb19a4cdc30019221c928af88365a93f25fb0b09dc170b7a062cd1edd9135f23b525bfbint, 0xc7a4b0b70afd519f7b8ff6eaa331ff63e8d65c4a98615650aa8065bf6765177c9b77be93299cbfe4efba162e00cd283int, 0x1049b9f9e9570a94b548acebf7ea525d291f2694e667d6ccd612f2804bdcf93a244e1abf1d1099cb430f43c2734bdfeint);
    lemma_square_step(r, 0x340223d472ffcd3496374f6c869759aec8ee9709e70a257ece61a541ed61ec483d57fffd62a7ffff73fdfnat, 0x7283d74209f7b3b7254991a8fb19a4cdc30019221c928af88365a93f25fb0b09dc170b7a062cd1edd9135f23b525bfbint, 0xc7a4b0b70afd519f7b8ff6eaa331ff63e8d65c4a98615650aa8065bf6765177c9b77be93299cbfe4efba162e00cd283int, 0x1049b9f9e9570a94b548acebf7ea525d291f2694e667d6ccd612f2804bdcf93a244e1abf1d1099cb430f43c2734bdfeint, 0x8d410f51e8153f4cd8eb290bbd8ec5eefedbe3be49525667d6df846679774ee6b210ab867652d41efa3e3f8f9336713int, 0x138111d058b5b36ac08ad430523fcb0dff0fa80d011557194f86c83915e5aa5710835a32ea082fdccdf65ebee3b804e5int, 0x2d0b8e422f874aa494873117eb11ee9dc157ee36bd3ec63747590c0f9032a42e58ae74b25f0c965cd73ab17fe0049d0int);
    lemma_times_root_step(r, 0x680447a8e5ff9a692c6e9ed90d2eb35d91dd2e13ce144afd9cc34a83dac3d8907aaffffac54ffffee7fbenat, 0x8d410f51e8153f4cd8eb290bbd8ec5eefedbe3be49525667d6df846679774ee6b210ab867652d41efa3e3f8f9336713int, 0x138111d058b5b36ac08ad430523fcb0dff0fa80d011557194f86c83915e5aa5710835a32ea082fdccdf65ebee3b804e5int, 0x2d0b8e422f874aa494873117eb11ee9dc157ee36bd3ec63747590c0f9032a42e58ae74b25f0c965cd73ab17fe0049d0int, 0xfd49367c66a650af18c6cdf9c97fa3efd0264fc85c130f9f8e4f076ab08405f390ce85196e60a7bfa0d7aa5e3278cf9int, 0x4cf47bc1b3087c1c0a6f72b0562331300af6ffeb81497cc689e4cc63945f0382bd2ca22799b1618cda22d00cfcbe523int, 0x138111d058b5b36ac08ad430523fcb0dff0fa80d011557194f86c83915e5aa5710835a32ea082fdccdf65ebee3b804e5int);
}

#[verifier::rlimit(40)]
proof fn lemma_root_pow_part_133(r: int)
    requires
        cong(iso_cubic(r), 0),
    ensures
        cong(pow(r, 0x1a0111ea397fe69a4b1ba7b6434bacd764774b84f38512bf6730d2a0f6b0f6241eabfffeb153ffffb9feffnat), quad(0xc86e30d2853202bb7b14898cc9f73845960913a59e9012c26d01763dde2ce66b42536c02b3c37107a9af0b95fb8286int, 0xf792b9c620225d2ef86706d87830410c70e002f9c6e32e000463e1d17a8fb0eb0aabac463e16166a728f6826363afdaint, 0xfa1587190ac3cf42ae682cc4718e57106516c73c1f554ebeeaa12a04d6080cd55ef5536e2927d702a596653ce9264b3int, r)),
{
    lemma_root_pow_part_132(r);
    lemma_square_step(r, 0x680447a8e5ff9a692c6e9ed90d2eb35d91dd2e13ce144afd9cc34a83dac3d8907aaffffac54ffffee7fbfnat, 0xfd49367c66a650af18c6cdf9c97fa3efd0264fc85c130f9f8e4f076ab08405f390ce85196e60a7bfa0d7aa5e3278cf9int, 0x4cf47bc1b3087c1c0a6f72b0562331300af6ffeb81497cc689e4cc63945f0382bd2ca22799b1618cda22d00cfcbe523int, 0x138111d058b5b36ac08ad430523fcb0dff0fa80d011557194f86c83915e5aa5710835a32ea082fdccdf65ebee3b804e5int, 0x101ecf00837996bfaf3749ba064ae205b4e64d7237a545b32074ee111e871b133158c8906f58ce530af653c9d47e118cint, 0x5be75d3ef469ebd6ad0f71390a547c4c6e513969a2fef4d114e62ea9de81276b53e0b5e2dc03c2c11bff5365015266eint, 0xe58ea5096503b29f30516030c410688550f2e75eb93661a80b52503b97e2dbd4a356bd334626c5425c134281900d906int);
    lemma_times_root_step(r, 0xd0088f51cbff34d258dd3db21a5d66bb23ba5c279c2895fb39869507b587b120f55ffff58a9ffffdcff7enat, 0x101ecf00837996bfaf3749ba064ae205b4e64d7237a545b32074ee111e871b133158c8906f58ce530af653c9d47e118cint, 0x5be75d3ef469ebd6ad0f71390a547c4c6e513969a2fef4d114e62ea9de81276b53e0b5e2dc03c2c11bff5365015266eint, 0xe58ea5096503b29f30516030c410688550f2e75eb93661a80b52503b97e2dbd4a356bd334626c5425c134281900d906int, 0x15566e51365f06d53e2e510cf9dd17b6dee0d420a05ebcd716672ce75c772f598e662b2eab4e3f8c73f1e15bbb9b6b0aint, 0x166db242f030882ea478f6a90a113f7ad660c202df7b141ed1a72460428b26e28d876721d2112ea7d657c804a345cffaint, 0x5be75d3ef469ebd6ad0f71390a547c4c6e513969a2fef4d114e62ea9de81276b53e0b5e2dc03c2c11bff5365015266eint);
    lemma_square_step(r, 0xd0088f51cbff34d258dd3db21a5d66bb23ba5c279c2895fb39869507b587b120f55ffff58a9ffffdcff7fnat, 0x15566e51365f06d53e2e510cf9dd17b6dee0d420a05ebcd716672ce75c772f598e662b2eab4e3f8c73f1e15bbb9b6b0aint, 0x166db242f030882ea478f6a90a113f7ad660c202df7b141ed1a72460428b26e28d876721d2112ea7d657c804a345cffaint, 0x5be75d3ef469ebd6ad0f71390a547c4c6e513969a2fef4d114e62ea9de81276b53e0b5e2dc03c2c11bff5365015266eint, 0x199c5af8e2bca60c9ecc653f484558f65787db7728fde1dc25d2f4850241d3182c75fd29465ca7250c30b4c27806060dint, 0xfa1587190ac3cf42ae682cc4718e57106516c73c1f554ebeeaa12a04d6080cd55ef5536e2927d702a596653ce9264b3int, 0x1285d2019be7104269246405e85f7708975d2892f727400a3173b00b4808723db4cb8649217d56f98821b82c3252d07eint);
    lemma_times_root_step(r, 0x1a0111ea397fe69a4b1ba7b6434bacd764774b84f38512bf6730d2a0f6b0f6241eabfffeb153ffffb9fefenat, 0x199c5af8e2bca60c9ecc653f484558f65787db7728fde1dc25d2f4850241d3182c75fd29465ca7250c30b4c27806060dint, 0xfa1587190ac3cf42ae682cc4718e57106516c73c1f554ebeeaa12a04d6080cd55ef5536e2927d702a596653ce9264b3int, 0x1285d2019be7104269246405e85f7708975d2892f727400a3173b00b4808723db4cb8649217d56f98821b82c3252d07eint, 0xc86e30d2853202bb7b14898cc9f73845960913a59e9012c26d01763dde2ce66b42536c02b3c37107a9af0b95fb8286int, 0xf792b9c620225d2ef86706d87830410c70e002f9c6e32e000463e1d17a8fb0eb0aabac463e16166a728f6826363afdaint, 0xfa1587190ac3cf42ae682cc4718e57106516c73c1f554ebeeaa12a04d6080cd55ef5536e2927d702a596653ce9264b3int);
}

#[verifier::rlimit(40)]
proof fn lemma_root_pow_part_134(r: int)
    requires
        cong(iso_cubic(r), 0),
    ensures
        cong(pow(r, 0x680447a8e5ff9a692c6e9ed90d2eb35d91dd2e13ce144afd9cc34a83dac3d8907aaffffac54ffffee7fbffnat), quad(0xae94cc7642091bed32651332b3cdcc22bb1f2d4810cd5dd08c7026284081abf852c3bec8586cc5e3695b72cb903cc2dint, 0x5c38edffc6e5562cf2aa708ad84c9df74f928fd38c19c9f27b03bfb1ce5b1b719591ea5850e03ebd5c73578813572d5int, 0xed348250e3b24d139b53d07c7eba42d9fd3a6afe195e1b70e1a8736467b1f1d387a1e64d65addefaf8db617b641bed8int, r)),
{
    lemma_root_pow_part_133(r);
    lemma_square_step(r, 0x1a0111ea397fe69a4b1ba7b6434bacd764774b84f38512bf6730d2a0f6b0f6241eabfffeb153ffffb9feffnat, 0xc86e30d2853202bb7b14898cc9f73845960913a59e9012c26d01763dde2ce66b42536c02b3c37107a9af0b95fb8286int, 0xf792b9c620225d2ef86706d87830410c70e002f9c6e32e000463e1d17a8fb0eb0aabac463e16166a728f6826363afdaint, 0xfa1587190ac3cf42ae682cc4718e57106516c73c1f554ebeeaa12a04d6080cd55ef5536e2927d702a596653ce9264b3int, 0x3e7d5bbaff963149a31da21f4baefa42f078dbcde223fa60e73680cd0fd3b53107ea22ab7b7f8266c9ba0942f681c6eint, 0xfece3a1e8bbb064e0962e1efa7bd77e06943d288911337139b74b19c921ef7072d2502fc2b065d6e965e50647e89307int, 0xb10d91689e52c20ba390201cdd5e5df9d57d2c1e6b8ee1496e6c76420676af2fe058bfce0382fef3c37ed21174c6294int);
    lemma_times_root_step(r, 0x340223d472ffcd3496374f6c869759aec8ee9709e70a257ece61a541ed61ec483d57fffd62a7ffff73fdfenat, 0x3e7d5bbaff963149a31da21f4baefa42f078dbcde223fa60e73680cd0fd3b53107ea22ab7b7f8266c9ba0942f681c6eint, 0xfece3a1e8bbb064e0962e1efa7bd77e06943d288911337139b74b19c921ef7072d2502fc2b065d6e965e50647e89307int, 0xb10d91689e52c20ba390201cdd5e5df9d57d2c1e6b8ee1496e6c76420676af2fe058bfce0382fef3c37ed21174c6294int, 0x190a025b5d2d0f5d38e977daf0cebe671c9d9da16518c2938908fd5ff1e9f58b3aa074a6427f76ea44920498872693d6int, 0x115a6402460cb3a86ba909790b05154749e59dd204e73ae79cbd6befbb2335acb005152c125855588c83173b20aacff2int, 0xfece3a1e8bbb064e0962e1efa7bd77e06943d288911337139b74b19c921ef7072d2502fc2b065d6e965e50647e89307int);
    lemma_square_step(r, 0x340223d472ffcd3496374f6c869759aec8ee9709e70a257ece61a541ed61ec483d57fffd62a7ffff73fdffnat, 0x190a025b5d2d0f5d38e977daf0cebe671c9d9da16518c2938908fd5ff1e9f58b3aa074a6427f76ea44920498872693d6int, 0x115a6402460cb3a86ba909790b05154749e59dd204e73ae79cbd6befbb2335acb005152c125855588c83173b20aacff2int, 0xfece3a1e8bbb064e0962e1efa7bd77e06943d288911337139b74b19c921ef7072d2502fc2b065d6e965e50647e89307int, 0xd9d69325508b1a50fbffd2afa3edc9980c318de72f605c3b3df3fdb8b6fa435155f67fea133e645d7013e421c26e900int, 0xed348250e3b24d139b53d07c7eba42d9fd3a6afe195e1b70e1a8736467b1f1d387a1e64d65addefaf8db617b641bed8int, 0x14168c702b9a9dcde5a05ad5333ccbc9a0b726c48b0b22c4089fb1a5d97e2a4b0d4aec87f1e5c039114f59b149184dddint);
    lemma_times_root_step(r, 0x680447a8e5ff9a692c6e9ed90d2eb35d91dd2e13ce144afd9cc34a83dac3d8907aaffffac54ffffee7fbfenat, 0xd9d69325508b1a50fbffd2afa3edc9980c318de72f605c3b3df3fdb8b6fa435155f67fea133e645d7013e421c26e900int, 0xed348250e3b24d139b53d07c7eba42d9fd3a6afe195e1b70e1a8736467b1f1d387a1e64d65addefaf8db617b641bed8int, 0x14168c702b9a9dcde5a05ad5333ccbc9a0b726c48b0b22c4089fb1a5d97e2a4b0d4aec87f1e5c039114f59b149184dddint, 0xae94cc7642091bed32651332b3cdcc22bb1f2d4810cd5dd08c7026284081abf852c3bec8586cc5e3695b72cb903cc2dint, 0x5c38edffc6e5562cf2aa708ad84c9df74f928fd38c19c9f27b03bfb1ce5b1b719591ea5850e03ebd5c73578813572d5int, 0xed348250e3b24d139b53d07c7eba42d9fd3a6afe195e1b70e1a8736467b1f1d387a1e64d65addefaf8db617b641bed8int);
}

#[verifier::rlimit(40)]
proof fn lemma_root_pow_part_135(r: int)
    requires
        cong(iso_cubic(r), 0),
    ensures
        cong(pow(r, 0x1a0111ea397fe69a4b1ba7b6434bacd764774b84f38512bf6730d2a0f6b0f6241eabfffeb153ffffb9fefffnat), quad(0x183fb0c1b9529fb005ece62fb9701b25e47db5efff0b5d9c802d1532fb861a939aea67c848d0db12c46f71b7e1ed335dint, 0x14434e89e517ff2460a259d6680b156c90461b0282ae1a9b82e766851bfd215484d0ed4191a9365b984286730c40b68fint, 0x13eae80be6a392869cddb133d56800ec2ef3db40eda3698ddd1b1384df50faca091fad9b65db5d260b2d4dde8f9a558cint, r)),
{
    lemma_root_pow_part_134(r);
    lemma_square_step(r, 0x680447a8e5ff9a692c6e9ed90d2eb35d91dd2e13ce144afd9cc34a83dac3d8907aaffffac54ffffee7fbffnat, 0xae94cc7642091bed32651332b3cdcc22bb1f2d4810cd5dd08c7026284081abf852c3bec8586cc5e3695b72cb903cc2dint, 0x5c38edffc6e5562cf2aa708ad84c9df74f928fd38c19c9f27b03bfb1ce5b1b719591ea5850e03ebd5c73578813572d5int, 0xed348250e3b24d139b53d07c7eba42d9fd3a6afe195e1b70e1a8736467b1f1d387a1e64d65addefaf8db617b641bed8int, 0xfd487d396ac5261e9e609b9ae03d30b9dec4ae5b8196d7ae2db43dcdeca778707db4d3fb6a1f6e04cfa37bdbf42ba3int, 0x11d1a108a83311f856e1366c808cda3955cd13b4c357c8a252128eb5bf10c6431a7048b7bb35aeb9506e9549a02bb37int, 0x4d80fd70449c80985d0981f4ebe54c5a5ed4823b9b680eccfb1342fa7805a0d4d581e6d04b02f9a34fd513b6e0f3cf7int);
    lemma_times_root_step(r, 0xd0088f51cbff34d258dd3db21a5d66bb23ba5c279c2895fb39869507b587b120f55ffff58a9ffffdcff7fenat, 0xfd487d396ac5261e9e609b9ae03d30b9dec4ae5b8196d7ae2db43dcdeca778707db4d3fb6a1f6e04cfa37bdbf42ba3int, 0x11d1a108a83311f856e1366c808cda3955cd13b4c357c8a252128eb5bf10c6431a7048b7bb35aeb9506e9549a02bb37int, 0x4d80fd70449c80985d0981f4ebe54c5a5ed4823b9b680eccfb1342fa7805a0d4d581e6d04b02f9a34fd513b6e0f3cf7int, 0x173fb9acea0b5487cf2fd7a0bf168ba3994ea5493c7135aa5daf7a212e5c9d1287118067c61fe20ced032b35654bcc78int, 0xe03ff2243197d4709457e7851f2c74a61ebd06dc211bd3f284788082497631da8b89b71277c37696aff67d8ad32ad4dint, 0x11d1a108a83311f856e1366c808cda3955cd13b4c357c8a252128eb5bf10c6431a7048b7bb35aeb9506e9549a02bb37int);
    lemma_square_step(r, 0xd0088f51cbff34d258dd3db21a5d66bb23ba5c279c2895fb39869507b587b120f55ffff58a9ffffdcff7ffnat, 0x173fb9acea0b5487cf2fd7a0bf168ba3994ea5493c7135aa5daf7a212e5c9d1287118067c61fe20ced032b35654bcc78int, 0xe03ff2243197d4709457e7851f2c74a61ebd06dc211bd3f284788082497631da8b89b71277c37696aff67d8ad32ad4dint, 0x11d1a108a83311f856e1366c808cda3955cd13b4c357c8a252128eb5bf10c6431a7048b7bb35aeb9506e9549a02bb37int, 0xfaf72f45ea63cebac5b5d07fb4e92c3302a6b1dbb0374cb2a9793ee9893c2df7e61d71a4a0193c365d68ccb48f5f22cint, 0x13eae80be6a392869cddb133d56800ec2ef3db40eda3698ddd1b1384df50faca091fad9b65db5d260b2d4dde8f9a558cint, 0xdd5f19f75436e8a8c5e303ccdb2c4d054b65390c9a110cb39fb58cb9dac47101b0d350e7950cf9efd0bf08b6df53a38int);
    lemma_times_root_step(r, 0x1a0111ea397fe69a4b1ba7b6434bacd764774b84f38512bf6730d2a0f6b0f6241eabfffeb153ffffb9feffenat, 0xfaf72f45ea63cebac5b5d07fb4e92c3302a6b1dbb0374cb2a9793ee9893c2df7e61d71a4a0193c365d68ccb48f5f22cint, 0x13eae80be6a392869cddb133d56800ec2ef3db40eda3698ddd1b1384df50faca091fad9b65db5d260b2d4dde8f9a558cint, 0xdd5f19f75436e8a8c5e303ccdb2c4d054b65390c9a110cb39fb58cb9dac47101b0d350e7950cf9efd0bf08b6df53a38int, 0x183fb0c1b9529fb005ece62fb9701b25e47db5efff0b5d9c802d1532fb861a939aea67c848d0db12c46f71b7e1ed335dint, 0x14434e89e517ff2460a259d6680b156c90461b0282ae1a9b82e766851bfd215484d0ed4191a9365b984286730c40b68fint, 0x13eae80be6a392869cddb133d56800ec2ef3db40eda3698ddd1b1384df50faca091fad9b65db5d260b2d4dde8f9a558cint);
}

#[verifier::rlimit(40)]
proof fn lemma_root_pow_part_136(r: int)
    requires
        cong(iso_cubic(r), 0),
    ensures
        cong(pow(r, 0x680447a8e5ff9a692c6e9ed90d2eb35d91dd2e13ce144afd9cc34a83dac3d8907aaffffac54ffffee7fbfffnat), quad(0x1218399877635cc6fa1388883e00a387ffb2f0f9cb75fe4d6387d53a1ad62eb36f6595e235e12eb345137fc5442138b3int, 0x14fc3efade1c0d59b7c7bfab4a97aeaed33b3a251ddc4715c172207807d2e265600640f2a76b9f55740af91ee05aa959int, 0x88b2cfc9280e424b44de8cd4045fa806eaf686c802211d268b39270d0bcf0579fc64fff5e317a3f9fe8ffe7e603e55bint, r)),
{
    lemma_root_pow_part_135(r);
    lemma_square_step(r, 0x1a0111ea397fe69a4b1ba7b6434bacd764774b84f38512bf6730d2a0f6b0f6241eabfffeb153ffffb9fefffnat, 0x183fb0c1b9529fb005ece62fb9701b25e47db5efff0b5d9c802d1532fb861a939aea67c848d0db12c46f71b7e1ed335dint, 0x14434e89e517ff2460a259d6680b156c90461b0282ae1a9b82e766851bfd215484d0ed4191a9365b984286730c40b68fint, 0x13eae80be6a392869cddb133d56800ec2ef3db40eda3698ddd1b1384df50faca091fad9b65db5d260b2d4dde8f9a558cint, 0x319aec512918712c0a639a56673811b21d2b40d8d06226a1d95d6f9e6bd46994c93daf53244ccc938195ac80e6e3a8cint, 0xb928754b0a02941a528879e8340bb1651cc2a03b987ae6868acebb6656ae4d27ca7b3e58b648123112b048ae9b947e9int, 0x4f21130b9b54d4c6d2f9e1c6c8eda3460451019ecaf9da28df7d0c6fd144dfdf4a4816f2eb33e353e86e751d7c2a7e3int);
    lemma_times_root_step(r, 0x340223d472ffcd3496374f6c869759aec8ee9709e70a257ece61a541ed61ec483d57fffd62a7ffff73fdffenat, 0x319aec512918712c0a639a56673811b21d2b40d8d06226a1d95d6f9e6bd46994c93daf53244ccc938195ac80e6e3a8cint, 0xb928754b0a02941a528879e8340bb1651cc2a03b987ae6868acebb6656ae4d27ca7b3e58b648123112b048ae9b947e9int, 0x4f21130b9b54d4c6d2f9e1c6c8eda3460451019ecaf9da28df7d0c6fd144dfdf4a4816f2eb33e353e86e751d7c2a7e3int, 0x3de8da028f0bdad6a16a4cf7597356a1b7aa21d3007aba8600436a09132f34ccd18ede01119dea04bee9f38bf1832b9int, 0x14ebe2ec6a6996246713eab2691049d8e348fc18bdc4f06d7be41c1e5879d80e811bce4910acaf1c07c4c9255f14435cint, 0xb928754b0a02941a528879e8340bb1651cc2a03b987ae6868acebb6656ae4d27ca7b3e58b648123112b048ae9b947e9int);
    lemma_square_step(r, 0x340223d472ffcd3496374f6c869759aec8ee9709e70a257ece61a541ed61ec483d57fffd62a7ffff73fdfffnat, 0x3de8da028f0bdad6a16a4cf7597356a1b7aa21d3007aba8600436a09132f34ccd18ede01119dea04bee9f38bf1832b9int, 0x14ebe2ec6a6996246713eab2691049d8e348fc18bdc4f06d7be41c1e5879d80e811bce4910acaf1c07c4c9255f14435cint, 0xb928754b0a02941a528879e8340bb1651cc2a03b987ae6868acebb6656ae4d27ca7b3e58b648123112b048ae9b947e9int, 0x1701a6bf98ea6fe272c7666763924215d01ca19285bf206c12e9ade64461091d89e02c43bc7c60d7fbe290bfa23abab4int, 0x88b2cfc9280e424b44de8cd4045fa806eaf686c802211d268b39270d0bcf0579fc64fff5e317a3f9fe8ffe7e603e55bint, 0x54d9627dfaaaf8e6b6ab3beac1bdf7e702de94599c376a74edeb1fa6ad01839f034aa7d6b95fa9c711aab07ef7d2fceint);
    lemma_times_root_step(r, 0x680447a8e5ff9a692c6e9ed90d2eb35d91dd2e13ce144afd9cc34a83dac3d8907aaffffac54ffffee7fbffenat, 0x1701a6bf98ea6fe272c7666763924215d01ca19285bf206c12e9ade64461091d89e02c43bc7c60d7fbe290bfa23abab4int, 0x88b2cfc9280e424b44de8cd4045fa806eaf686c802211d268b39270d0bcf0579fc64fff5e317a3f9fe8ffe7e603e55bint, 0x54d9627dfaaaf8e6b6ab3beac1bdf7e702de94599c376a74edeb1fa6ad01839f034aa7d6b95fa9c711aab07ef7d2fceint, 0x1218399877635cc6fa1388883e00a387ffb2f0f9cb75fe4d6387d53a1ad62eb36f6595e235e12eb345137fc5442138b3int, 0x14fc3efade1c0d59b7c7bfab4a97aeaed33b3a251ddc4715c172207807d2e265600640f2a76b9f55740af91ee05aa959int, 0x88b2cfc9280e424b44de8cd4045fa806eaf686c802211d268b39270d0bcf0579fc64fff5e317a3f9fe8ffe7e603e55bint);
}

#[verifier::rlimit(40)]
proof fn lemma_root_pow_part_137(r: int)
    requires
        cong(iso_cubic(r), 0),
    ensures
        cong(pow(r, 0x1a0111ea397fe69a4b1ba7b6434bacd764774b84f38512bf6730d2a0f6b0f6241eabfffeb153ffffb9feffffnat), quad(0x167d233b72bde2c3e58940f5f9d326f50d29729cb6b5a7bd0b9e50e39d2f0b29f71eba68815d58d781a31f6135a71c8int, 0xfbeb1ce84e286d29b13d2c96fb38268d67ad4d4ec67e13138756be62d60ef29361c5bce886161875c7a2bb7c86b8a90int, 0x19c0c634ed2ff0cf4261b097a91a5b5259a416760192d37731f1cbf013873d2bc5d8b352a4d7fccb6ca78683758ff21dint, r)),
{
    lemma_root_pow_part_136(r);
    lemma_square_step(r, 0x680447a8e5ff9a692c6e9ed90d2eb35d91dd2e13ce144afd9cc34a83dac3d8907aaffffac54ffffee7fbfffnat, 0x1218399877635cc6fa1388883e00a387ffb2f0f9cb75fe4d6387d53a1ad62eb36f6595e235e12eb345137fc5442138b3int, 0x14fc3efade1c0d59b7c7bfab4a97aeaed33b3a251ddc4715c172207807d2e265600640f2a76b9f55740af91ee05aa959int, 0x88b2cfc9280e424b44de8cd4045fa806eaf686c802211d268b39270d0bcf0579fc64fff5e317a3f9fe8ffe7e603e55bint, 0x2ac391f1947dd08872a086bc564342e0fe4a9437939bde4fc7cc58edc733a6b37e042a7de6db4b8eeeb2c083e6bea49int, 0xcb13175b34f8b670324a1196fe8aba1be666acf379fc473077c288c08a6650fa015ca2e73a4c11fac812f3db42ddc39int, 0x5d20b7a5542f56abefa8504218c706eb0f5e9633062c16197d689700dc53a7315abff0ac11ba0518dd334119b552dc8int);
    lemma_times_root_step(r, 0xd0088f51cbff34d258dd3db21a5d66bb23ba5c279c2895fb39869507b587b120f55ffff58a9ffffdcff7ffenat, 0x2ac391f1947dd08872a086bc564342e0fe4a9437939bde4fc7cc58edc733a6b37e042a7de6db4b8eeeb2c083e6bea49int, 0xcb13175b34f8b670324a1196fe8aba1be666acf379fc473077c288c08a6650fa015ca2e73a4c11fac812f3db42ddc39int, 0x5d20b7a5542f56abefa8504218c706eb0f5e9633062c16197d689700dc53a7315abff0ac11ba0518dd334119b552dc8int, 0x852899df36f650fbb96996bdd4f5877ef5728eb42763aabf37d47bbb4123ff418b253d13abbe24015b5bfecd4b4b33int, 0xe4fe6c9cedfd521726640e361fbb6fbfe9206ff2010fa8df14c6dfb533dec5064032ca780bf8065ad07187bf5b81274int, 0xcb13175b34f8b670324a1196fe8aba1be666acf379fc473077c288c08a6650fa015ca2e73a4c11fac812f3db42ddc39int);
    lemma_square_step(r, 0xd0088f51cbff34d258dd3db21a5d66bb23ba5c279c2895fb39869507b587b120f55ffff58a9ffffdcff7fffnat, 0x852899df36f650fbb96996bdd4f5877ef5728eb42763aabf37d47bbb4123ff418b253d13abbe24015b5bfecd4b4b33int, 0xe4fe6c9cedfd521726640e361fbb6fbfe9206ff2010fa8df14c6dfb533dec5064032ca780bf8065ad07187bf5b81274int, 0xcb13175b34f8b670324a1196fe8aba1be666acf379fc473077c288c08a6650fa015ca2e73a4c11fac812f3db42ddc39int, 0xd42fe25abeed3c28b3b6ea77e7cc1b0265546a90b3f42d8d9cd340e0502a956798eeb238d54e3f804088b6777665a34int, 0x19c0c634ed2ff0cf4261b097a91a5b5259a416760192d37731f1cbf013873d2bc5d8b352a4d7fccb6ca78683758ff21dint, 0xaefe330f466b9d18f34351f4bac925477248cfaf608fbb2ea6ef01cc40f2b69207623f36f0c2c9ac37456966c1c7fb1int);
    lemma_times_root_step(r, 0x1a0111ea397fe69a4b1ba7b6434bacd764774b84f38512bf6730d2a0f6b0f6241eabfffeb153ffffb9fefffenat, 0xd42fe25abeed3c28b3b6ea77e7cc1b0265546a90b3f42d8d9cd340e0502a956798eeb238d54e3f804088b6777665a34int, 0x19c0c634ed2ff0cf4261b097a91a5b5259a416760192d37731f1cbf013873d2bc5d8b352a4d7fccb6ca78683758ff21dint, 0xaefe330f466b9d18f34351f4bac925477248cfaf608fbb2ea6ef01cc40f2b69207623f36f0c2c9ac37456966c1c7fb1int, 0x167d233b72bde2c3e58940f5f9d326f50d29729cb6b5a7bd0b9e50e39d2f0b29f71eba68815d58d781a31f6135a71c8int, 0xfbeb1ce84e286d29b13d2c96fb38268d67ad4d4ec67e13138756be62d60ef29361c5bce886161875c7a2bb7c86b8a90int, 0x19c0c634ed2ff0cf4261b097a91a5b5259a416760192d37731f1cbf013873d2bc5d8b352a4d7fccb6ca78683758ff21dint);
}

#[verifier::rlimit(40)]
proof fn lemma_root_pow_part_138(r: int)
    requires
        cong(iso_cubic(r), 0),
    ensures
        cong(pow(r, 0x680447a8e5ff9a692c6e9ed90d2eb35d91dd2e13ce144afd9cc34a83dac3d8907aaffffac54ffffee7fbffffnat), quad(0x7529d6045534ff6f22f9ce58a1972401d29d4f5697966bc7c40637dafdc22d9499b391d18eec4280bd1c0f541d8cdb2int, 0xe980d97969ba9d7f5be4975cc45851f72f45b5896a71d8bc51915a2c52948f0dd6ee21e525ddf06ef08514583f57094int, 0xc2b6082c6e6549b3d1044ff5779c955cff33bcf07744724be3aedc0384a57c6ec7a7928aad588170fcee5b5b76b68acint, r)),
{
    lemma_root_pow_part_137(r);
    lemma_square_step(r, 0x1a0111ea397fe69a4b1ba7b6434bacd764774b84f38512bf6730d2a0f6b0f6241eabfffeb153ffffb9feffffnat, 0x167d233b72bde2c3e58940f5f9d326f50d29729cb6b5a7bd0b9e50e39d2f0b29f71eba68815d58d781a31f6135a71c8int, 0xfbeb1ce84e286d29b13d2c96fb38268d67ad4d4ec67e13138756be62d60ef29361c5bce886161875c7a2bb7c86b8a90int, 0x19c0c634ed2ff0cf4261b097a91a5b5259a416760192d37731f1cbf013873d2bc5d8b352a4d7fccb6ca78683758ff21dint, 0x4079e7337b0d1980ef67ea97781f3ad8f7ce8e2bc42c8a58595eddf97820d4c27a3de2bf4393ffa184bd5f352991005int, 0x10d52f59388d4854a7c80de8fc5c813c227cf27ee770d42603a9444739ccd6878138cdb9fe4bdfedd20e00e11066caebint, 0x2ccf48f28852629a5760867ba508500286289e863394749555308baed5274338b433af1b03ff8f5d74f61667fe523ddint);
    lemma_times_root_step(r, 0x340223d472ffcd3496374f6c869759aec8ee9709e70a257ece61a541ed61ec483d57fffd62a7ffff73fdfffenat, 0x4079e7337b0d1980ef67ea97781f3ad8f7ce8e2bc42c8a58595eddf97820d4c27a3de2bf4393ffa184bd5f352991005int, 0x10d52f59388d4854a7c80de8fc5c813c227cf27ee770d42603a9444739ccd6878138cdb9fe4bdfedd20e00e11066caebint, 0x2ccf48f28852629a5760867ba508500286289e863394749555308baed5274338b433af1b03ff8f5d74f61667fe523ddint, 0x13c3e6ccf9f5d61bf9a593477f062b9fa0d375d1acef6a53936ded34572219e35114ee77a1ae8a08cac9c730c3d62ceint, 0x108b329688d286d54d3fa713c802faf04dcb693afe2d05b0f33c741e071e0328910ad9a738210ede73cd704d8ac9fb60int, 0x10d52f59388d4854a7c80de8fc5c813c227cf27ee770d42603a9444739ccd6878138cdb9fe4bdfedd20e00e11066caebint);
    lemma_square_step(r, 0x340223d472ffcd3496374f6c869759aec8ee9709e70a257ece61a541ed61ec483d57fffd62a7ffff73fdffffnat, 0x13c3e6ccf9f5d61bf9a593477f062b9fa0d375d1acef6a53936ded34572219e35114ee77a1ae8a08cac9c730c3d62ceint, 0x108b329688d286d54d3fa713c802faf04dcb693afe2d05b0f33c741e071e0328910ad9a738210ede73cd704d8ac9fb60int, 0x10d52f59388d4854a7c80de8fc5c813c227cf27ee770d42603a9444739ccd6878138cdb9fe4bdfedd20e00e11066caebint, 0x19a28ece529b928252793e15a2601cb73d745858c395c457942f1d8c7247d233ab5d65bc43991f50bb74fbff85cd7368int, 0xc2b6082c6e6549b3d1044ff5779c955cff33bcf07744724be3aedc0384a57c6ec7a7928aad588170fcee5b5b76b68acint, 0x10f4e06beb9fe767f234b3b30d74b618465c72c2b95995770d1457a708f12aac617ac8a062a516fb209ba988434c50c2int);
    lemma_times_root_step(r, 0x680447a8e5ff9a692c6e9ed90d2eb35d91dd2e13ce144afd9cc34a83dac3d8907aaffffac54ffffee7fbfffenat, 0x19a28ece529b928252793e15a2601cb73d745858c395c457942f1d8c7247d233ab5d65bc43991f50bb74fbff85cd7368int, 0xc2b6082c6e6549b3d1044ff5779c955cff33bcf07744724be3aedc0384a57c6ec7a7928aad588170fcee5b5b76b68acint, 0x10f4e06beb9fe767f234b3b30d74b618465c72c2b95995770d1457a708f12aac617ac8a062a516fb209ba988434c50c2int, 0x7529d6045534ff6f22f9ce58a1972401d29d4f5697966bc7c40637dafdc22d9499b391d18eec4280bd1c0f541d8cdb2int, 0xe980d97969ba9d7f5be4975cc45851f72f45b5896a71d8bc51915a2c52948f0dd6ee21e525ddf06ef08514583f57094int, 0xc2b6082c6e6549b3d1044ff5779c955cff33bcf07744724be3aedc0384a57c6ec7a7928aad588170fcee5b5b76b68acint);
}

#[verifier::rlimit(40)]
proof fn lemma_root_pow_part_139(r: int)
    requires
        cong(iso_cubic(r), 0),
    ensures
        cong(pow(r, 0x1a0111ea397fe69a4b1ba7b6434bacd764774b84f38512bf6730d2a0f6b0f6241eabfffeb153ffffb9fefffffnat), quad(0x1862f49f2461c335aafd12f9d8af17d2176eb303dc5472f8ab7350e485b21e7c21dd6e1c8f534225a85e0e06a00ce71cint, 0x17874ebdbb135114f9e564ab94cf39434252bdd7bd90695e9c7184e3c4a54e007bc72d138fa5eb486b546119e53b6254int, 0x881f5afb18f97f302b0afa66ad21d954e6b44592319c5d6acfd0674bf305aa9abe9d4c0b3365bc4aa75db4f8deb7f72int, r)),
{
    lemma_root_pow_part_138(r);
    lemma_square_step(r, 0x680447a8e5ff9a692c6e9ed90d2eb35d91dd2e13ce144afd9cc34a83dac3d8907aaffffac54ffffee7fbffffnat, 0x7529d6045534ff6f22f9ce58a1972401d29d4f5697966bc7c40637dafdc22d9499b391d18eec4280bd1c0f541d8cdb2int, 0xe980d97969ba9d7f5be4975cc45851f72f45b5896a71d8bc51915a2c52948f0dd6ee21e525ddf06ef08514583f57094int, 0xc2b6082c6e6549b3d1044ff5779c955cff33bcf07744724be3aedc0384a57c6ec7a7928aad588170fcee5b5b76b68acint, 0x1395d12601a68b65818b0fcc5ce26ed7a5ff5422cb7056f38628fa8a66f2a4522f8c88c3a8c15cf25f248ce878f88a7cint, 0xc4030fb0e1e4c36da11342826c8c4b402939e6f1902f222b9e021d5d6c521ace58019c988e73f91febc5a7f659763c3int, 0x12e5e5a93f7be640851d8247604071a0459ea793aae8e9da9c7815b767efc126273c36eff3881bbffa43826e1058389int);
    lemma_times_root_step(r, 0xd0088f51cbff34d258dd3db21a5d66bb23ba5c279c2895fb39869507b587b120f55ffff58a9ffffdcff7fffenat, 0x1395d12601a68b65818b0fcc5ce26ed7a5ff5422cb7056f38628fa8a66f2a4522f8c88c3a8c15cf25f248ce878f88a7cint, 0xc4030fb0e1e4c36da11342826c8c4b402939e6f1902f222b9e021d5d6c521ace58019c988e73f91febc5a7f659763c3int, 0x12e5e5a93f7be640851d8247604071a0459ea793aae8e9da9c7815b767efc126273c36eff3881bbffa43826e1058389int, 0x725da8f9830899f45e420ba034d91c93a0810c779a51f6adef133b7c528acf75bb880833162e50ee367366164e0851cint, 0x152512454360bbbcff59a1cbf496001c0af9c3795096b5b07168895e110d1a97828027d41e5393595943559a937894baint, 0xc4030fb0e1e4c36da11342826c8c4b402939e6f1902f222b9e021d5d6c521ace58019c988e73f91febc5a7f659763c3int);
    lemma_square_step(r, 0xd0088f51cbff34d258dd3db21a5d66bb23ba5c279c2895fb39869507b587b120f55ffff58a9ffffdcff7ffffnat, 0x725da8f9830899f45e420ba034d91c93a0810c779a51f6adef133b7c528acf75bb880833162e50ee367366164e0851cint, 0x152512454360bbbcff59a1cbf496001c0af9c3795096b5b07168895e110d1a97828027d41e5393595943559a937894baint, 0xc4030fb0e1e4c36da11342826c8c4b402939e6f1902f222b9e021d5d6c521ace58019c988e73f91febc5a7f659763c3int, 0x1167fb33af01ebb76e6f3bb58798f9b21fc9b042a1ebc01a59435655f1b40e40adeba4d6c2ca620e5e93f3667c5d5fa1int, 0x881f5afb18f97f302b0afa66ad21d954e6b44592319c5d6acfd0674bf305aa9abe9d4c0b3365bc4aa75db4f8deb7f72int, 0x2e87730fb158d40f0188b4384b5889f961514e7a1b1132b06b4dc292238393ace4a35df8b6ffeb58ca442e04cf1fc20int);
    lemma_times_root_step(r, 0x1a0111ea397fe69a4b1ba7b6434bacd764774b84f38512bf6730d2a0f6b0f6241eabfffeb153ffffb9feffffenat, 0x1167fb33af01ebb76e6f3bb58798f9b21fc9b042a1ebc01a59435655f1b40e40adeba4d6c2ca620e5e93f3667c5d5fa1int, 0x881f5afb18f97f302b0afa66ad21d954e6b44592319c5d6acfd0674bf305aa9abe9d4c0b3365bc4aa75db4f8deb7f72int, 0x2e87730fb158d40f0188b4384b5889f961514e7a1b1132b06b4dc292238393ace4a35df8b6ffeb58ca442e04cf1fc20int, 0x1862f49f2461c335aafd12f9d8af17d2176eb303dc5472f8ab7350e485b21e7c21dd6e1c8f534225a85e0e06a00ce71cint, 0x17874ebdbb135114f9e564ab94cf39434252bdd7bd90695e9c7184e3c4a54e007bc72d138fa5eb486b546119e53b6254int, 0x881f5afb18f97f302b0afa66ad21d954e6b44592319c5d6acfd0674bf305aa9abe9d4c0b3365bc4aa75db4f8deb7f72int);
}

#[verifier::rlimit(40)]
proof fn lemma_root_pow_part_140(r: int)
    requires
        cong(iso_cubic(r), 0),
    ensures
        cong(pow(r, 0x680447a8e5ff9a692c6e9ed90d2eb35d91dd2e13ce144afd9cc34a83dac3d8907aaffffac54ffffee7fbfffffnat), quad(0x8d93590dbf07697a6b35b384eb0ebaebc83776234417a724db72ce26b83f8b3a266cbfd9a0870f476383752cdf2a71bint, 0x76e6725aa2e9f7aec42f1e1037b619d694e1b98dc4caeca5f4acae88db3545963aaac9cd6ac30cd38769ebbcb870cafint, 0x1c5c072bbd80edae16485096ecf47eb32180531df182054116588b8daca9fbe3fe7d4a12417c7cae379e3b9badbc798int, r)),
{
    lemma_root_pow_part_139(r);
    lemma_square_step(r, 0x1a0111ea397fe69a4b1ba7b6434bacd764774b84f38512bf6730d2a0f6b0f6241eabfffeb153ffffb9fefffffnat, 0x1862f49f2461c335aafd12f9d8af17d2176eb303dc5472f8ab7350e485b21e7c21dd6e1c8f534225a85e0e06a00ce71cint, 0x17874ebdbb135114f9e564ab94cf39434252bdd7bd90695e9c7184e3c4a54e007bc72d138fa5eb486b546119e53b6254int, 0x881f5afb18f97f302b0afa66ad21d954e6b44592319c5d6acfd0674bf305aa9abe9d4c0b3365bc4aa75db4f8deb7f72int, 0x8c87f84fb05efdfb5c8284d41efecc2ea386488da63293d3ce4f5c13a6a5d2d7c06c0f32990982b93cb1b3b8c7c873aint, 0x357134c353ffb49ea25993c45baf7f7cb68babaac23c05854ed58b9eab1610b17ab288466099a3148933813b4c54328int, 0xd8d59e41cbb996f0b2f0437a7a55a9ae68db22f3fc0a66aa5f1f79bb3128031f0d63a491cf9a8dd5d3b614058799da1int);
    lemma_times_root_step(r, 0x340223d472ffcd3496374f6c869759aec8ee9709e70a257ece61a541ed61ec483d57fffd62a7ffff73fdffffenat, 0x8c87f84fb05efdfb5c8284d41efecc2ea386488da63293d3ce4f5c13a6a5d2d7c06c0f32990982b93cb1b3b8c7c873aint, 0x357134c353ffb49ea25993c45baf7f7cb68babaac23c05854ed58b9eab1610b17ab288466099a3148933813b4c54328int, 0xd8d59e41cbb996f0b2f0437a7a55a9ae68db22f3fc0a66aa5f1f79bb3128031f0d63a491cf9a8dd5d3b614058799da1int, 0x17651ae6f127659016404e96276e812ceceb55bf84a9757f5780f9659ce0ee0836362f1b05ba00d8348f0a345cac5dabint, 0x4856f33214081cd8041892b6f1a11ce8dd4133594b9af660c6ad92092b8924fa4b41faa18f04fb09ffc59978168b066int, 0x357134c353ffb49ea25993c45baf7f7cb68babaac23c05854ed58b9eab1610b17ab288466099a3148933813b4c54328int);
    lemma_square_step(r, 0x340223d472ffcd3496374f6c869759aec8ee9709e70a257ece61a541ed61ec483d57fffd62a7ffff73fdfffffnat, 0x17651ae6f127659016404e96276e812ceceb55bf84a9757f5780f9659ce0ee0836362f1b05ba00d8348f0a345cac5dabint, 0x4856f33214081cd8041892b6f1a11ce8dd4133594b9af660c6ad92092b8924fa4b41faa18f04fb09ffc59978168b066int, 0x357134c353ffb49ea25993c45baf7f7cb68babaac23c05854ed58b9eab1610b17ab288466099a3148933813b4c54328int, 0x9bddd7ed4ecc5808d933e6957c289fd65482fe4650a633c4a7226171500128154f97f0a7fed6d0d28b45388e1a3054bint, 0x1c5c072bbd80edae16485096ecf47eb32180531df182054116588b8daca9fbe3fe7d4a12417c7cae379e3b9badbc798int, 0xcc5c042ff2538a3ab05713707d5907cf4eb28c8899b02ca699910c5f6124f31d712694bff420fd0ef31b5f301f2339aint);
    lemma_times_root_step(r, 0x680447a8e5ff9a692c6e9ed90d2eb35d91dd2e13ce144afd9cc34a83dac3d8907aaffffac54ffffee7fbffffenat, 0x9bddd7ed4ecc5808d933e6957c289fd65482fe4650a633c4a7226171500128154f97f0a7fed6d0d28b45388e1a3054bint, 0x1c5c072bbd80edae16485096ecf47eb32180531df182054116588b8daca9fbe3fe7d4a12417c7cae379e3b9badbc798int, 0xcc5c042ff2538a3ab05713707d5907cf4eb28c8899b02ca699910c5f6124f31d712694bff420fd0ef31b5f301f2339aint, 0x8d93590dbf07697a6b35b384eb0ebaebc83776234417a724db72ce26b83f8b3a266cbfd9a0870f476383752cdf2a71bint, 0x76e6725aa2e9f7aec42f1e1037b619d694e1b98dc4caeca5f4acae88db3545963aaac9cd6ac30cd38769ebbcb870cafint, 0x1c5c072bbd80edae16485096ecf47eb32180531df182054116588b8daca9fbe3fe7d4a12417c7cae379e3b9badbc798int);
}

#[verifier::rlimit(40)]
proof fn lemma_root_pow_part_141(r: int)
    requires
        cong(iso_cubic(r), 0),
    ensures
        cong(pow(r, 0x1a0111ea397fe69a4b1ba7b6434bacd764774b84f38512bf6730d2a0f6b0f6241eabfffeb153ffffb9feffffffnat), quad(0x195cc2270fce751c0b7ed0844170bcdea0ab91331b588b75052091761b7e9bbb64e71d53dc7644a120b11cebb5d3c0c9int, 0x120803cf3b271fa206aef54a5ed4578df9b1f2ebcaf1e8b88c8e4c0a044b7c091e7152edf90477c9106fb9e3bdfe4ae2int, 0x112dfd5e837e1d31e883ff13ff236e775663460b4ff500400be992cae7833187cf2f84763298e1de850d136151157b42int, r)),
{
    lemma_root_pow_part_140(r);
    lemma_square_step(r, 0x680447a8e5ff9a692c6e9ed90d2eb35d91dd2e13ce144afd9cc34a83dac3d8907aaffffac54ffffee7fbfffffnat, 0x8d93590dbf07697a6b35b384eb0ebaebc83776234417a724db72ce26b83f8b3a266cbfd9a0870f476383752cdf2a71bint, 0x76e6725aa2e9f7aec42f1e1037b619d694e1b98dc4caeca5f4acae88db3545963aaac9cd6ac30cd38769ebbcb870cafint, 0x1c5c072bbd80edae16485096ecf47eb32180531df182054116588b8daca9fbe3fe7d4a12417c7cae379e3b9badbc798int, 0x7ea47ea67c3746bcb78205d002da123aaace55beac89cb8e6981dd2a40ad08ccfd3b3848aca7689447678b22fe281bfint, 0x10f62687918bf24ecd834e7b6a1b05a8745c1cc7c080bafca21820f4e0d1929dd1cb6f8b396e8fd34906cdd9f47ae7cdint, 0x12ef1c13edaff052f155cbdfae26578b7c217ec5f0b0406e4a3a8711b28b84e351236517dad62663866a629bf6cd9efint);
    lemma_times_root_step(r, 0xd0088f51cbff34d258dd3db21a5d66bb23ba5c279c2895fb39869507b587b120f55ffff58a9ffffdcff7ffffenat, 0x7ea47ea67c3746bcb78205d002da123aaace55beac89cb8e6981dd2a40ad08ccfd3b3848aca7689447678b22fe281bfint, 0x10f62687918bf24ecd834e7b6a1b05a8745c1cc7c080bafca21820f4e0d1929dd1cb6f8b396e8fd34906cdd9f47ae7cdint, 0x12ef1c13edaff052f155cbdfae26578b7c217ec5f0b0406e4a3a8711b28b84e351236517dad62663866a629bf6cd9efint, 0xae72ef5436514fe9e73a6ab80aab4cddb0623118e5f3e1d9c818f435a675e09fc87db43cb5cc00692098ba5f9efed97int, 0x100885dd9fa8b8e6064a0ae258b6b98bea60dbdf3293da5485d1979ce48a0195e1130a7046c55241169bc4ac491eefebint, 0x10f62687918bf24ecd834e7b6a1b05a8745c1cc7c080bafca21820f4e0d1929dd1cb6f8b396e8fd34906cdd9f47ae7cdint);
    lemma_square_step(r, 0xd0088f51cbff34d258dd3db21a5d66bb23ba5c279c2895fb39869507b587b120f55ffff58a9ffffdcff7fffffnat, 0xae72ef5436514fe9e73a6ab80aab4cddb0623118e5f3e1d9c818f435a675e09fc87db43cb5cc00692098ba5f9efed97int, 0x100885dd9fa8b8e6064a0ae258b6b98bea60dbdf3293da5485d1979ce48a0195e1130a7046c55241169bc4ac491eefebint, 0x10f62687918bf24ecd834e7b6a1b05a8745c1cc7c080bafca21820f4e0d1929dd1cb6f8b396e8fd34906cdd9f47ae7cdint, 0x145cdaf8ca599333f1160da45f9069cea4104e02f2728722b932ea7f7c7e207477a44fbe1c1e4259c7e135adada69526int, 0x112dfd5e837e1d31e883ff13ff236e775663460b4ff500400be992cae7833187cf2f84763298e1de850d136151157b42int, 0xc04f0a6b68853124e574e52e9fc1fcadf8cc49f408ec882133fc855b969c932e7f6849ff5ef3a0474327de7f14c0cf6int);
    lemma_times_root_step(r, 0x1a0111ea397fe69a4b1ba7b6434bacd764774b84f38512bf6730d2a0f6b0f6241eabfffeb153ffffb9fefffffenat, 0x145cdaf8ca599333f1160da45f9069cea4104e02f2728722b932ea7f7c7e207477a44fbe1c1e4259c7e135adada69526int, 0x112dfd5e837e1d31e883ff13ff236e775663460b4ff500400be992cae7833187cf2f84763298e1de850d136151157b42int, 0xc04f0a6b68853124e574e52e9fc1fcadf8cc49f408ec882133fc855b969c932e7f6849ff5ef3a0474327de7f14c0cf6int, 0x195cc2270fce751c0b7ed0844170bcdea0ab91331b588b75052091761b7e9bbb64e71d53dc7644a120b11cebb5d3c0c9int, 0x120803cf3b271fa206aef54a5ed4578df9b1f2ebcaf1e8b88c8e4c0a044b7c091e7152edf90477c9106fb9e3bdfe4ae2int, 0x112dfd5e837e1d31e883ff13ff236e775663460b4ff500400be992cae7833187cf2f84763298e1de850d136151157b42int);
}

#[verifier::rlimit(40)]
proof fn lemma_root_pow_part_142(r: int)
    requires
        cong(iso_cubic(r), 0),
    ensures
        cong(pow(r, 0x680447a8e5ff9a692c6e9ed90d2eb35d91dd2e13ce144afd9cc34a83dac3d8907aaffffac54ffffee7fbffffffnat), quad(0x487326c102140a7b4e44d7b2463a9629e467063a51578024044a3ab559d662945698db11e9301114bc1209375f43c4cint, 0x75029dce01a44a4c6c0fa802b2beb19e026ac4b01d17f4da75eab7a7bdaae003a0182cc38b1d0e58015562c2c2983cdint, 0x1943c1ab88497d80d5bc81fb64ba136caacaf0808618de43d3022f6fe9a365b7cb527adaba23a8f46aee2c093df96be7int, r)),
{
    lemma_root_pow_part_141(r);
    lemma_square_step(r, 0x1a0111ea397fe69a4b1ba7b6434bacd764774b84f38512bf6730d2a0f6b0f6241eabfffeb153ffffb9feffffffnat, 0x195cc2270fce751c0b7ed0844170bcdea0ab91331b588b75052091761b7e9bbb64e71d53dc7644a120b11cebb5d3c0c9int, 0x120803cf3b271fa206aef54a5ed4578df9b1f2ebcaf1e8b88c8e4c0a044b7c091e7152edf90477c9106fb9e3bdfe4ae2int, 0x112dfd5e837e1d31e883ff13ff236e775663460b4ff500400be992cae7833187cf2f84763298e1de850d136151157b42int, 0x1202d52279fbad4c7ffc6ceedae90edf2c64f399c948e557578ce824e96cacf5a27583be3646056078d660a985e1c7ddint, 0x16ab80ee4a5fecce08df0b8b974c32a7191e0f40fdf154553863fab1a50700aac1e18978b18df841ab5f6c792af326ffint, 0xdd426a63bf69dc5948529c8370f8ea550a375cd8b9562979e2613a1ba9bc8f325816ac903cea0eb795d38bf2ad05d8cint);
    lemma_times_root_step(r, 0x340223d472ffcd3496374f6c869759aec8ee9709e70a257ece61a541ed61ec483d57fffd62a7ffff73fdfffffenat, 0x1202d52279fbad4c7ffc6ceedae90edf2c64f399c948e557578ce824e96cacf5a27583be3646056078d660a985e1c7ddint, 0x16ab80ee4a5fecce08df0b8b974c32a7191e0f40fdf154553863fab1a50700aac1e18978b18df841ab5f6c792af326ffint, 0xdd426a63bf69dc5948529c8370f8ea550a375cd8b9562979e2613a1ba9bc8f325816ac903cea0eb795d38bf2ad05d8cint, 0x67ed818c4ffe5302440c9c69a4a6b684bacb0647771e8368ba739a7d5e935502ad5fe69c162d0b2f3d576c389488b51int, 0x1565df2756e48dbc06049327986290986813f9ea2d67e2697a3eb49c5935c73e1b7a3216c13d8925a3a062f84e778cbeint, 0x16ab80ee4a5fecce08df0b8b974c32a7191e0f40fdf154553863fab1a50700aac1e18978b18df841ab5f6c792af326ffint);
    lemma_square_step(r, 0x340223d472ffcd3496374f6c869759aec8ee9709e70a257ece61a541ed61ec483d57fffd62a7ffff73fdffffffnat, 0x67ed818c4ffe5302440c9c69a4a6b684bacb0647771e8368ba739a7d5e935502ad5fe69c162d0b2f3d576c389488b51int, 0x1565df2756e48dbc06049327986290986813f9ea2d67e2697a3eb49c5935c73e1b7a3216c13d8925a3a062f84e778cbeint, 0x16ab80ee4a5fecce08df0b8b974c32a7191e0f40fdf154553863fab1a50700aac1e18978b18df841ab5f6c792af326ffint, 0x8008ba2ec4e86c412c30c01e2aee58b0fe93e6c82c206ad635f69b96fd05608489a359376b9507ffd703a737c464b1cint, 0x1943c1ab88497d80d5bc81fb64ba136caacaf0808618de43d3022f6fe9a365b7cb527adaba23a8f46aee2c093df96be7int, 0x12b3b22a94c67567d377e62eec8b7fe280e81544fb306af6641c72027ae0912aeffa2216137d554b2bcfd59a8650a80int);
    lemma_times_root_step(r, 0x680447a8e5ff9a692c6e9ed90d2eb35d91dd2e13ce144afd9cc34a83dac3d8907aaffffac54ffffee7fbfffffenat, 0x8008ba2ec4e86c412c30c01e2aee58b0fe93e6c82c206ad635f69b96fd05608489a359376b9507ffd703a737c464b1cint, 0x1943c1ab88497d80d5bc81fb64ba136caacaf0808618de43d3022f6fe9a365b7cb527adaba23a8f46aee2c093df96be7int, 0x12b3b22a94c67567d377e62eec8b7fe280e81544fb306af6641c72027ae0912aeffa2216137d554b2bcfd59a8650a80int, 0x487326c102140a7b4e44d7b2463a9629e467063a51578024044a3ab559d662945698db11e9301114bc1209375f43c4cint, 0x75029dce01a44a4c6c0fa802b2beb19e026ac4b01d17f4da75eab7a7bdaae003a0182cc38b1d0e58015562c2c2983cdint, 0x1943c1ab88497d80d5bc81fb64ba136caacaf0808618de43d3022f6fe9a365b7cb527adaba23a8f46aee2c093df96be7int);
}

#[verifier::rlimit(40)]
proof fn lemma_root_pow_part_143(r: int)
    requires
        cong(iso_cubic(r), 0),
    ensures
        cong(pow(r, 0x1a0111ea397fe69a4b1ba7b6434bacd764774b84f38512bf6730d2a0f6b0f6241eabfffeb153ffffb9fefffffffnat), quad(0x1120433cb4ef952af9e125055dbaad4353c014b5058f78a84c823d2726ed8bd34ae675e21f231568af1d8d93dcb0b66bint, 0xf4e29ca5bfbb3497ae387b94c9afb4579a439d2828760a248fc763167ad59374fde3d0bc6319723a1e54c76e21ae362int, 0xb31c1f6b44caf866bcd4e240db81de57a7a81548f8928b17ef38d0bc37d83e975d27052cb606064e6dc6ffe834b02b6int, r)),
{
    lemma_root_pow_part_142(r);
    lemma_square_step(r, 0x680447a8e5ff9a692c6e9ed90d2eb35d91dd2e13ce144afd9cc34a83dac3d8907aaffffac54ffffee7fbffffffnat, 0x487326c102140a7b4e44d7b2463a9629e467063a51578024044a3ab559d662945698db11e9301114bc1209375f43c4cint, 0x75029dce01a44a4c6c0fa802b2beb19e026ac4b01d17f4da75eab7a7bdaae003a0182cc38b1d0e58015562c2c2983cdint, 0x1943c1ab88497d80d5bc81fb64ba136caacaf0808618de43d3022f6fe9a365b7cb527adaba23a8f46aee2c093df96be7int, 0xf1873ce6e7615933b6e849b1785ad455d37f09def59b4ec157e2b4ad30dd65690e63519e367a006e5a4f82420bb180aint, 0x12366ba4b13801c9db1849e150c1befae0cae2c8827390f0e574e6f34b756f3af01173a85b801dd9e47aa2c948b5c8cbint, 0xad0f4573bd6158c0d3665e20628c551fe20223ae0456840f54de57b5221d51e581273ba5fe38cc544f3589c29f0c07bint);
    lemma_times_root_step(r, 0xd0088f51cbff34d258dd3db21a5d66bb23ba5c279c2895fb39869507b587b120f55ffff58a9ffffdcff7fffffenat, 0xf1873ce6e7615933b6e849b1785ad455d37f09def59b4ec157e2b4ad30dd65690e63519e367a006e5a4f82420bb180aint, 0x12366ba4b13801c9db1849e150c1befae0cae2c8827390f0e574e6f34b756f3af01173a85b801dd9e47aa2c948b5c8cbint, 0xad0f4573bd6158c0d3665e20628c551fe20223ae0456840f54de57b5221d51e581273ba5fe38cc544f3589c29f0c07bint, 0x194352f635622e12bdd61377d6d443a940d5f9f80a783b691c1ccd2570300ccb8aa1074028ed19ede52d3d3d80317c53int, 0x3e776ad8b1a172a4e83c1d0e6555a6f583d8ace85368e0fcf7764e84d365cf7e9decdd5a6d76dccbfd89c2e1229bb9aint, 0x12366ba4b13801c9db1849e150c1befae0cae2c8827390f0e574e6f34b756f3af01173a85b801dd9e47aa2c948b5c8cbint);
    lemma_square_step(r, 0xd0088f51cbff34d258dd3db21a5d66bb23ba5c279c2895fb39869507b587b120f55ffff58a9ffffdcff7ffffffnat, 0x194352f635622e12bdd61377d6d443a940d5f9f80a783b691c1ccd2570300ccb8aa1074028ed19ede52d3d3d80317c53int, 0x3e776ad8b1a172a4e83c1d0e6555a6f583d8ace85368e0fcf7764e84d365cf7e9decdd5a6d76dccbfd89c2e1229bb9aint, 0x12366ba4b13801c9db1849e150c1befae0cae2c8827390f0e574e6f34b756f3af01173a85b801dd9e47aa2c948b5c8cbint, 0x346591f69d0573df1251d55bddbdbbc86dbeb7d2620ee108e67753c7e5e1d2988c50ba479684e0a790b880d058930ccint, 0xb31c1f6b44caf866bcd4e240db81de57a7a81548f8928b17ef38d0bc37d83e975d27052cb606064e6dc6ffe834b02b6int, 0x1463e81c2e4fb468f27a4d7a54285fbea7f69a5f2c079a3c0fd7051155bf15fce053be4d516eaeb654de1017c2ef9adbint);
    lemma_times_root_step(r, 0x1a0111ea397fe69a4b1ba7b6434bacd764774b84f38512bf6730d2a0f6b0f6241eabfffeb153ffffb9feffffffenat, 0x346591f69d0573df1251d55bddbdbbc86dbeb7d2620ee108e67753c7e5e1d2988c50ba479684e0a790b880d058930ccint, 0xb31c1f6b44caf866bcd4e240db81de57a7a81548f8928b17ef38d0bc37d83e975d27052cb606064e6dc6ffe834b02b6int, 0x1463e81c2e4fb468f27a4d7a54285fbea7f69a5f2c079a3c0fd7051155bf15fce053be4d516eaeb654de1017c2ef9adbint, 0x1120433cb4ef952af9e125055dbaad4353c014b5058f78a84c823d2726ed8bd34ae675e21f231568af1d8d93dcb0b66bint, 0xf4e29ca5bfbb3497ae387b94c9afb4579a439d2828760a248fc763167ad59374fde3d0bc6319723a1e54c76e21ae362int, 0xb31c1f6b44caf866bcd4e240db81de57a7a81548f8928b17ef38d0bc37d83e975d27052cb606064e6dc6ffe834b02b6int);
}

#[verifier::rlimit(40)]
proof fn lemma_root_pow_part_144(r: int)
    requires
        cong(iso_cubic(r), 0),
    ensures
        cong(pow(r, 0x680447a8e5ff9a692c6e9ed90d2eb35d91dd2e13ce144afd9cc34a83dac3d8907aaffffac54ffffee7fbfffffffnat), quad(0x4ec585542d1a0c7b71dbf70550fd8b0e48a3a65c496416cce73eb9433d4933fb60be6ec00f7c276640b925a77107543int, 0x104023d0dbbb0ce7967c62d7b6b7792eb5e29c06d195ee32cc22c071c360ef88c0a1f6604e95618e045ece7685f67d5eint, 0xe1282a7f0ff56ed59d91c0f4ef592cecb019c13c34e5405f12fb58f4c4c628073059e64af4cb4043a5a8c279492c706int, r)),
{
    lemma_root_pow_part_143(r);
    lemma_square_step(r, 0x1a0111ea397fe69a4b1ba7b6434bacd764774b84f38512bf6730d2a0f6b0f6241eabfffeb153ffffb9fefffffffnat, 0x1120433cb4ef952af9e125055dbaad4353c014b5058f78a84c823d2726ed8bd34ae675e21f231568af1d8d93dcb0b66bint, 0xf4e29ca5bfbb3497ae387b94c9afb4579a439d2828760a248fc763167ad59374fde3d0bc6319723a1e54c76e21ae362int, 0xb31c1f6b44caf866bcd4e240db81de57a7a81548f8928b17ef38d0bc37d83e975d27052cb606064e6dc6ffe834b02b6int, 0xce88137900d13aef0c40a482f78a730b08a06c01b2fd778285795476e5a136a86d41d3ee309f5efb8c0db87ff02a715int, 0x2d3c66ac62a5ae4fdaecc793e4516b16d0cccc96997672ce6d29e097491e558176ab7be34ba2b135545c3ca644bfec1int, 0xb35b3fc1edde3611e50a69f8878e0ea4d8475c40574103b5e9498c847cea77d58e99de42d5684936e55187ed1dbac04int);
    lemma_times_root_step(r, 0x340223d472ffcd3496374f6c869759aec8ee9709e70a257ece61a541ed61ec483d57fffd62a7ffff73fdffffffenat, 0xce88137900d13aef0c40a482f78a730b08a06c01b2fd778285795476e5a136a86d41d3ee309f5efb8c0db87ff02a715int, 0x2d3c66ac62a5ae4fdaecc793e4516b16d0cccc96997672ce6d29e097491e558176ab7be34ba2b135545c3ca644bfec1int, 0xb35b3fc1edde3611e50a69f8878e0ea4d8475c40574103b5e9498c847cea77d58e99de42d5684936e55187ed1dbac04int, 0xcc386adf6c9d19ae5c911fa6b5f6f548576c140eb2855b0ab329c462c27411e7240f0f48af06bd94ee7ae7b2e8222c9int, 0xfe30f0a5576dd57747bac9734622b0a442a16e202b2fca384bd98586eeaffc8b784e5320c14728834690bcfb44bfc60int, 0x2d3c66ac62a5ae4fdaecc793e4516b16d0cccc96997672ce6d29e097491e558176ab7be34ba2b135545c3ca644bfec1int);
    lemma_square_step(r, 0x340223d472ffcd3496374f6c869759aec8ee9709e70a257ece61a541ed61ec483d57fffd62a7ffff73fdfffffffnat, 0xcc386adf6c9d19ae5c911fa6b5f6f548576c140eb2855b0ab329c462c27411e7240f0f48af06bd94ee7ae7b2e8222c9int, 0xfe30f0a5576dd57747bac9734622b0a442a16e202b2fca384bd98586eeaffc8b784e5320c14728834690bcfb44bfc60int, 0x2d3c66ac62a5ae4fdaecc793e4516b16d0cccc96997672ce6d29e097491e558176ab7be34ba2b135545c3ca644bfec1int, 0x16529092d8fe2c9ff53a190976461c85705602f37dde8080224da04934893ea97ca4f82ec213b797e2d9bd649d3a9ec2int, 0xe1282a7f0ff56ed59d91c0f4ef592cecb019c13c34e5405f12fb58f4c4c628073059e64af4cb4043a5a8c279492c706int, 0x104536cda6c859baed522f251bd3c922b9422fcfbc52cae1144c447fa4090267c25488465fff0fe3cd1e2f8b385b4d9fint);
    lemma_times_root_step(r, 0x680447a8e5ff9a692c6e9ed90d2eb35d91dd2e13ce144afd9cc34a83dac3d8907aaffffac54ffffee7fbffffffenat, 0x16529092d8fe2c9ff53a190976461c85705602f37dde8080224da04934893ea97ca4f82ec213b797e2d9bd649d3a9ec2int, 0xe1282a7f0ff56ed59d91c0f4ef592cecb019c13c34e5405f12fb58f4c4c628073059e64af4cb4043a5a8c279492c706int, 0x104536cda6c859baed522f251bd3c922b9422fcfbc52cae1144c447fa4090267c25488465fff0fe3cd1e2f8b385b4d9fint, 0x4ec585542d1a0c7b71dbf70550fd8b0e48a3a65c496416cce73eb9433d4933fb60be6ec00f7c276640b925a77107543int, 0x104023d0dbbb0ce7967c62d7b6b7792eb5e29c06d195ee32cc22c071c360ef88c0a1f6604e95618e045ece7685f67d5eint, 0xe1282a7f0ff56ed59d91c0f4ef592cecb019c13c34e5405f12fb58f4c4c628073059e64af4cb4043a5a8c279492c706int);
}

#[verifier::rlimit(40)]
proof fn lemma_root_pow_part_145(r: int)
    requires
        cong(iso_cubic(r), 0),
    ensures
        cong(pow(r, 0x1a0111ea397fe69a4b1ba7b6434bacd764774b84f38512bf6730d2a0f6b0f6241eabfffeb153ffffb9feffffffffnat), quad(0xc38b62edc9e9e8059995c7c170c9fc05e01ab87b979c20aaca3a78f131e256f43ca8bb9c5b103bc5f43e88ad3f859fbint, 0x7fccd5e0b583162b08acb05802b2b76034400d344d4942db0cb2a8f6c017be6fc274146977e53ed324d0a5062ac7e78int, 0x67ce1bab7602fc95d2103f9c119ae42dfc2ca7f4c87671de783914c45603fda51c21ee32817d4ad5443f1bf937abceaint, r)),
{
    lemma_root_pow_part_144(r);
    lemma_square_step(r, 0x680447a8e5ff9a692c6e9ed90d2eb35d91dd2e13ce144afd9cc34a83dac3d8907aaffffac54ffffee7fbfffffffnat, 0x4ec585542d1a0c7b71dbf70550fd8b0e48a3a65c496416cce73eb9433d4933fb60be6ec00f7c276640b925a77107543int, 0x104023d0dbbb0ce7967c62d7b6b7792eb5e29c06d195ee32cc22c071c360ef88c0a1f6604e95618e045ece7685f67d5eint, 0xe1282a7f0ff56ed59d91c0f4ef592cecb019c13c34e5405f12fb58f4c4c628073059e64af4cb4043a5a8c279492c706int, 0x17abec91aa19e7cecec87f11cc87a399e151dc831e539f3c6c5c490043d764274fc928a90aebae169a59f285898dd77cint, 0x133e3c122ece4fb5e3c4b9828bd2e0fec40c55cb549d044e08d2bbdf61981543e5664a71cdb0f59421a4a84dd2980ffbint, 0x92012123388bfa034ecee89254836a602a2ed14c52d95b3481b02832c9e0f41fe79871c27b65297dd586dd7174141e1int);
    lemma_times_root_step(r, 0xd0088f51cbff34d258dd3db21a5d66bb23ba5c279c2895fb39869507b587b120f55ffff58a9ffffdcff7ffffffenat, 0x17abec91aa19e7cecec87f11cc87a399e151dc831e539f3c6c5c490043d764274fc928a90aebae169a59f285898dd77cint, 0x133e3c122ece4fb5e3c4b9828bd2e0fec40c55cb549d044e08d2bbdf61981543e5664a71cdb0f59421a4a84dd2980ffbint, 0x92012123388bfa034ecee89254836a602a2ed14c52d95b3481b02832c9e0f41fe79871c27b65297dd586dd7174141e1int, 0x513b3b5fbd243379109e594d3fa12a72cee80ab5c0b470c4853c4148f24b6f39f9e11d2c9bc32470da17bcb018b744cint, 0x3e8ce846606f3db57ba0905a8840a84324369f9413cb87b7f774eecc8d1ffb5c058f1d8967b1750625c2430704a60a9int, 0x133e3c122ece4fb5e3c4b9828bd2e0fec40c55cb549d044e08d2bbdf61981543e5664a71cdb0f59421a4a84dd2980ffbint);
    lemma_square_step(r, 0xd0088f51cbff34d258dd3db21a5d66bb23ba5c279c2895fb39869507b587b120f55ffff58a9ffffdcff7fffffffnat, 0x513b3b5fbd243379109e594d3fa12a72cee80ab5c0b470c4853c4148f24b6f39f9e11d2c9bc32470da17bcb018b744cint, 0x3e8ce846606f3db57ba0905a8840a84324369f9413cb87b7f774eecc8d1ffb5c058f1d8967b1750625c2430704a60a9int, 0x133e3c122ece4fb5e3c4b9828bd2e0fec40c55cb549d044e08d2bbdf61981543e5664a71cdb0f59421a4a84dd2980ffbint, 0x16511587a387512d9dfc531a9e536b9db378c8500d6af7f72a701b132319342a8f4903cd57b26d78c9165d26809c5cc5int, 0x67ce1bab7602fc95d2103f9c119ae42dfc2ca7f4c87671de783914c45603fda51c21ee32817d4ad5443f1bf937abceaint, 0x285908fa1bd7664f81a6343235f09805ab7bac5464ae280b6fdaf44c6209087862cdf621f6eff2173a719cdfe5c7697int);
    lemma_times_root_step(r, 0x1a0111ea397fe69a4b1ba7b6434bacd764774b84f38512bf6730d2a0f6b0f6241eabfffeb153ffffb9fefffffffenat, 0x16511587a387512d9dfc531a9e536b9db378c8500d6af7f72a701b132319342a8f4903cd57b26d78c9165d26809c5cc5int, 0x67ce1bab7602fc95d2103f9c119ae42dfc2ca7f4c87671de783914c45603fda51c21ee32817d4ad5443f1bf937abceaint, 0x285908fa1bd7664f81a6343235f09805ab7bac5464ae280b6fdaf44c6209087862cdf621f6eff2173a719cdfe5c7697int, 0xc38b62edc9e9e8059995c7c170c9fc05e01ab87b979c20aaca3a78f131e256f43ca8bb9c5b103bc5f43e88ad3f859fbint, 0x7fccd5e0b583162b08acb05802b2b76034400d344d4942db0cb2a8f6c017be6fc274146977e53ed324d0a5062ac7e78int, 0x67ce1bab7602fc95d2103f9c119ae42dfc2ca7f4c87671de783914c45603fda51c21ee32817d4ad5443f1bf937abceaint);
}

#[verifier::rlimit(40)]
proof fn lemma_root_pow_part_146(r: int)
    requires
        cong(iso_cubic(r), 0),
    ensures
        cong(pow(r, 0xd0088f51cbff34d258dd3db21a5d66bb23ba5c279c2895fb39869507b587b120f55ffff58a9ffffdcff7fffffffcnat), quad(0x1960edf20df0809b90f141c259595be9967801d9e87402b8fa0a01223748405e70adab55461f4f0517c3f012eacaf05aint, 0xd8ef1569a0a929883987fa063c40beffe6ca25d09bc1011ca14da1b3f8743c7b3ed72e8e988d5e0abdc2ad26f52a271int, 0x7b48bba2b8eea18e98700a7abb1b9a74c36d9acd5f3c92f209224ab26fb5d7bab2848c75c94ff6f7d66733cedd7426bint, r)),
{
    lemma_root_pow_part_145(r);
    lemma_square_step(r, 0x1a0111ea397fe69a4b1ba7b6434bacd764774b84f38512bf6730d2a0f6b0f6241eabfffeb153ffffb9feffffffffnat, 0xc38b62edc9e9e8059995c7c170c9fc05e01ab87b979c20aaca3a78f131e256f43ca8bb9c5b103bc5f43e88ad3f859fbint, 0x7fccd5e0b583162b08acb05802b2b76034400d344d4942db0cb2a8f6c017be6fc274146977e53ed324d0a5062ac7e78int, 0x67ce1bab7602fc95d2103f9c119ae42dfc2ca7f4c87671de783914c45603fda51c21ee32817d4ad5443f1bf937abceaint, 0x6ff2b1dfbd6bac75b525f09c25425303f93aca6aad8b699597b82023115ad45283602c54b73f418c7a943c2275b8c8int, 0x13bc7c9c7a0c5dc55f310b57728fa3e8697bda770be647d50d2d0148be3bcce3e9109395169158227dc243c7e3c3d18eint, 0x1998121f324bf977b1719fd0407b88aa59a21c5b624611d5bf8edbe841378635fbc3528d4f50014e4f58732731a46dbint);
    lemma_times_root_step(r, 0x340223d472ffcd3496374f6c869759aec8ee9709e70a257ece61a541ed61ec483d57fffd62a7ffff73fdfffffffenat, 0x6ff2b1dfbd6bac75b525f09c25425303f93aca6aad8b699597b82023115ad45283602c54b73f418c7a943c2275b8c8int, 0x13bc7c9c7a0c5dc55f310b57728fa3e8697bda770be647d50d2d0148be3bcce3e9109395169158227dc243c7e3c3d18eint, 0x1998121f324bf977b1719fd0407b88aa59a21c5b624611d5bf8edbe841378635fbc3528d4f50014e4f58732731a46dbint, 0x14a4ef2970929d68c709f79c46bb854dd2d9878dcea537a8b564ed52ca185c0291435d69fa92c8dbaf8ef229f74c95f9int, 0x20db86520ca8df3c832e373c05cee7775e795877ef91501eff7d722b6186b4d153591d6b1b91010ec8e2db4fd60c95aint, 0x13bc7c9c7a0c5dc55f310b57728fa3e8697bda770be647d50d2d0148be3bcce3e9109395169158227dc243c7e3c3d18eint);
    lemma_square_step(r, 0x340223d472ffcd3496374f6c869759aec8ee9709e70a257ece61a541ed61ec483d57fffd62a7ffff73fdffffffffnat, 0x14a4ef2970929d68c709f79c46bb854dd2d9878dcea537a8b564ed52ca185c0291435d69fa92c8dbaf8ef229f74c95f9int, 0x20db86520ca8df3c832e373c05cee7775e795877ef91501eff7d722b6186b4d153591d6b1b91010ec8e2db4fd60c95aint, 0x13bc7c9c7a0c5dc55f310b57728fa3e8697bda770be647d50d2d0148be3bcce3e9109395169158227dc243c7e3c3d18eint, 0x11263256c1d83dcda9c5acd58f3e13cadf5eb816d0a8f1ae64e5a0059a0c01a606d6dd0ad840c61bfe6f21e7ba06d650int, 0x6239c458ae37fb25f85e62afffea226bddb997f141156634b1ab6708ba1cb1813fedaaab6853dba7bdf8b34cafeff22int, 0x16b3609c6877751684c0a61acd071c6dc8a6cd25bc9bcec3871c046b0f5d55ffdeca3b14484ad5e978493a218b801987int);
    lemma_square_step(r, 0x680447a8e5ff9a692c6e9ed90d2eb35d91dd2e13ce144afd9cc34a83dac3d8907aaffffac54ffffee7fbfffffffenat, 0x11263256c1d83dcda9c5acd58f3e13cadf5eb816d0a8f1ae64e5a0059a0c01a606d6dd0ad840c61bfe6f21e7ba06d650int, 0x6239c458ae37fb25f85e62afffea226bddb997f141156634b1ab6708ba1cb1813fedaaab6853dba7bdf8b34cafeff22int, 0x16b3609c6877751684c0a61acd071c6dc8a6cd25bc9bcec3871c046b0f5d55ffdeca3b14484ad5e978493a218b801987int, 0x1960edf20df0809b90f141c259595be9967801d9e87402b8fa0a01223748405e70adab55461f4f0517c3f012eacaf05aint, 0xd8ef1569a0a929883987fa063c40beffe6ca25d09bc1011ca14da1b3f8743c7b3ed72e8e988d5e0abdc2ad26f52a271int, 0x7b48bba2b8eea18e98700a7abb1b9a74c36d9acd5f3c92f209224ab26fb5d7bab2848c75c94ff6f7d66733cedd7426bint);
}

#[verifier::rlimit(40)]
proof fn lemma_root_pow_part_147(r: int)
    requires
        cong(iso_cubic(r), 0),
    ensures
        cong(pow(r, 0x340223d472ffcd3496374f6c869759aec8ee9709e70a257ece61a541ed61ec483d57fffd62a7ffff73fdffffffff5nat), quad(0x172627507897e2b60c90147867b2e54424e8c3a261c75f273403e10aa39f40cb8c5f6a2f99d574869c30ac43495a445dint, 0x17d52f01b7b3a857854ee99039392eae4261e04b0792b69eb575c43052a0d6fa224b285079b0d6a25f442c54a14b1994int, 0x25b247b71503096ccafa1c09b1b4298b6d5b6e26041ad9b71b44e037187360672087b919f2fb67cc1a9de61d52dd137int, r)),
{
    lemma_root_pow_part_146(r);
    lemma_times_root_step(r, 0xd0088f51cbff34d258dd3db21a5d66bb23ba5c279c2895fb39869507b587b120f55ffff58a9ffffdcff7fffffffcnat, 0x1960edf20df0809b90f141c259595be9967801d9e87402b8fa0a01223748405e70adab55461f4f0517c3f012eacaf05aint, 0xd8ef1569a0a929883987fa063c40beffe6ca25d09bc1011ca14da1b3f8743c7b3ed72e8e988d5e0abdc2ad26f52a271int, 0x7b48bba2b8eea18e98700a7abb1b9a74c36d9acd5f3c92f209224ab26fb5d7bab2848c75c94ff6f7d66733cedd7426bint, 0x111b79d176310474443a3b7b0dbc1c4855fe4efe25b308f25d1a39bd639144ac33a68598204abfadd88eec553fafbbe0int, 0x8cfe5845c8471a53e98cfa2ecd8ee571c9d444c2b6a2bcf1433659e409435b23a1b2d5cadf3f41a4ccb06983cb4d80aint, 0xd8ef1569a0a929883987fa063c40beffe6ca25d09bc1011ca14da1b3f8743c7b3ed72e8e988d5e0abdc2ad26f52a271int);
    lemma_square_step(r, 0xd0088f51cbff34d258dd3db21a5d66bb23ba5c279c2895fb39869507b587b120f55ffff58a9ffffdcff7fffffffdnat, 0x111b79d176310474443a3b7b0dbc1c4855fe4efe25b308f25d1a39bd639144ac33a68598204abfadd88eec553fafbbe0int, 0x8cfe5845c8471a53e98cfa2ecd8ee571c9d444c2b6a2bcf1433659e409435b23a1b2d5cadf3f41a4ccb06983cb4d80aint, 0xd8ef1569a0a929883987fa063c40beffe6ca25d09bc1011ca14da1b3f8743c7b3ed72e8e988d5e0abdc2ad26f52a271int, 0xb9a81a5ae31ca91fdfb9754cb509a6f5fe2a0dfd3bb6270873a44cdd33690e4c00f0b4c888778053706f20d84fd2b68int, 0x11f89cb71f5675e7afdf9ff06f24c447c857ac6151e815e25a9b02d53b87e23b3dcd3f5b75ebb6a8f0381a28275dc17eint, 0x6c3ce6aa8cf7d4c3657292c873f6f2dd002625d1862cb76f086157d9202c6e9b2e1a68139e9ace24d7cc47e3ebb58acint);
    lemma_square_step(r, 0x1a0111ea397fe69a4b1ba7b6434bacd764774b84f38512bf6730d2a0f6b0f6241eabfffeb153ffffb9feffffffffanat, 0xb9a81a5ae31ca91fdfb9754cb509a6f5fe2a0dfd3bb6270873a44cdd33690e4c00f0b4c888778053706f20d84fd2b68int, 0x11f89cb71f5675e7afdf9ff06f24c447c857ac6151e815e25a9b02d53b87e23b3dcd3f5b75ebb6a8f0381a28275dc17eint, 0x6c3ce6aa8cf7d4c3657292c873f6f2dd002625d1862cb76f086157d9202c6e9b2e1a68139e9ace24d7cc47e3ebb58acint, 0x10711d04698e4430939d85ab3fa1bf25484235b107a4a8f4f96b19fcfd0f82e6db2542f4932ff0b34a46c6e1313c4a43int, 0x25b247b71503096ccafa1c09b1b4298b6d5b6e26041ad9b71b44e037187360672087b919f2fb67cc1a9de61d52dd137int, 0xa75209d306b536b2786ad449517b3d0fc0b54ec473e23ef6672794e78514e765c208b4bbc3f3ec02f9fe280ddd7fc1bint);
    lemma_times_root_step(r, 0x340223d472ffcd3496374f6c869759aec8ee9709e70a257ece61a541ed61ec483d57fffd62a7ffff73fdffffffff4nat, 0x10711d04698e4430939d85ab3fa1bf25484235b107a4a8f4f96b19fcfd0f82e6db2542f4932ff0b34a46c6e1313c4a43int, 0x25b247b71503096ccafa1c09b1b4298b6d5b6e26041ad9b71b44e037187360672087b919f2fb67cc1a9de61d52dd137int, 0xa75209d306b536b2786ad449517b3d0fc0b54ec473e23ef6672794e78514e765c208b4bbc3f3ec02f9fe280ddd7fc1bint, 0x172627507897e2b60c90147867b2e54424e8c3a261c75f273403e10aa39f40cb8c5f6a2f99d574869c30ac43495a445dint, 0x17d52f01b7b3a857854ee99039392eae4261e04b0792b69eb575c43052a0d6fa224b285079b0d6a25f442c54a14b1994int, 0x25b247b71503096ccafa1c09b1b4298b6d5b6e26041ad9b71b44e037187360672087b919f2fb67cc1a9de61d52dd137int);
}

#[verifier::rlimit(40)]
proof fn lemma_root_pow_part_148(r: int)
    requires
        cong(iso_cubic(r), 0),
    ensures
        cong(pow(r, 0x1a0111ea397fe69a4b1ba7b6434bacd764774b84f38512bf6730d2a0f6b0f6241eabfffeb153ffffb9feffffffffaanat), quad(0x1647edbb7365697c2748e6e9d8bc8ba8129dcb0f615e57b4d76acade83e2535047ed9aded000c623d40bb97f5a6cb8a8int, 0xa4b970847de44830e60dcead27d63ee96946cd3914b5708b3202113217c9a461c997cdd44d68ddb7be88d3e5ae1da22int, 0x83ce1cc4193dd70eb4c6daaff94a2e611e94d13aaeaa434aa731078bc0a0ff467cbe8f1298b6a447cdd2149d07383bbint, r)),
{
    lemma_root_pow_part_147(r);
    lemma_square_step(r, 0x340223d472ffcd3496374f6c869759aec8ee9709e70a257ece61a541ed61ec483d57fffd62a7ffff73fdffffffff5nat, 0x172627507897e2b60c90147867b2e54424e8c3a261c75f273403e10aa39f40cb8c5f6a2f99d574869c30ac43495a445dint, 0x17d52f01b7b3a857854ee99039392eae4261e04b0792b69eb575c43052a0d6fa224b285079b0d6a25f442c54a14b1994int, 0x25b247b71503096ccafa1c09b1b4298b6d5b6e26041ad9b71b44e037187360672087b919f2fb67cc1a9de61d52dd137int, 0x129cbc13dee25258a422ba4c6f723e972d3313c31a0d28062cea8672a399a255b8adef9b3685a0155908bcec76fc7557int, 0x18f2ca6a202e52ebfb790374748ea304af0d4ada8fef4d6d3d5772a35a788a1ffccaa098aebd0568c5830bd22258af67int, 0x10a87e10762190eb83b6306679f3f35d0d716bf85690d3c070a95deb973989d966777cd956cf49405cdad0cb8ae728e9int);
    lemma_square_step(r, 0x680447a8e5ff9a692c6e9ed90d2eb35d91dd2e13ce144afd9cc34a83dac3d8907aaffffac54ffffee7fbfffffffeanat, 0x129cbc13dee25258a422ba4c6f723e972d3313c31a0d28062cea8672a399a255b8adef9b3685a0155908bcec76fc7557int, 0x18f2ca6a202e52ebfb790374748ea304af0d4ada8fef4d6d3d5772a35a788a1ffccaa098aebd0568c5830bd22258af67int, 0x10a87e10762190eb83b6306679f3f35d0d716bf85690d3c070a95deb973989d966777cd956cf49405cdad0cb8ae728e9int, 0xa39ee15551f0ad7f3a047702deba73738c2c311adb4f6d91c495b67739e96dba5207378a561f83cb4214a2acebad96eint, 0x1989a08565d29cf2e6838a4100227e973b2e4d884bc46b849cecbc690e6e8402c6e51ddad2eb4b725274d3129b969908int, 0x393e0718a520834a88c7ebc24908a975f1ff6b688aefd573471bddf9aad06e3c67ed90ca0af7f39550222ce267957aint);
    lemma_times_root_step(r, 0xd0088f51cbff34d258dd3db21a5d66bb23ba5c279c2895fb39869507b587b120f55ffff58a9ffffdcff7fffffffd4nat, 0xa39ee15551f0ad7f3a047702deba73738c2c311adb4f6d91c495b67739e96dba5207378a561f83cb4214a2acebad96eint, 0x1989a08565d29cf2e6838a4100227e973b2e4d884bc46b849cecbc690e6e8402c6e51ddad2eb4b725274d3129b969908int, 0x393e0718a520834a88c7ebc24908a975f1ff6b688aefd573471bddf9aad06e3c67ed90ca0af7f39550222ce267957aint, 0xe5e448ababe62b7c20fee3874bdd969c3564b79d0465867e0026149dffa958d6ae7a3d5e970e789bb2b44b80ede72c3int, 0x113ebb31d18efcb30f4ab912626511a7ebf405037060d13cc88dce6a1dfd42b7ebd5f3fe9ec784a14270dc022a68dbfaint, 0x1989a08565d29cf2e6838a4100227e973b2e4d884bc46b849cecbc690e6e8402c6e51ddad2eb4b725274d3129b969908int);
    lemma_square_step(r, 0xd0088f51cbff34d258dd3db21a5d66bb23ba5c279c2895fb39869507b587b120f55ffff58a9ffffdcff7fffffffd5nat, 0xe5e448ababe62b7c20fee3874bdd969c3564b79d0465867e0026149dffa958d6ae7a3d5e970e789bb2b44b80ede72c3int, 0x113ebb31d18efcb30f4ab912626511a7ebf405037060d13cc88dce6a1dfd42b7ebd5f3fe9ec784a14270dc022a68dbfaint, 0x1989a08565d29cf2e6838a4100227e973b2e4d884bc46b849cecbc690e6e8402c6e51ddad2eb4b725274d3129b969908int, 0x1647edbb7365697c2748e6e9d8bc8ba8129dcb0f615e57b4d76acade83e2535047ed9aded000c623d40bb97f5a6cb8a8int, 0xa4b970847de44830e60dcead27d63ee96946cd3914b5708b3202113217c9a461c997cdd44d68ddb7be88d3e5ae1da22int, 0x83ce1cc4193dd70eb4c6daaff94a2e611e94d13aaeaa434aa731078bc0a0ff467cbe8f1298b6a447cdd2149d07383bbint);
}

#[verifier::rlimit(40)]
proof fn lemma_root_pow_part_149(r: int)
    requires
        cong(iso_cubic(r), 0),
    ensures
        cong(pow(r, 0xd0088f51cbff34d258dd3db21a5d66bb23ba5c279c2895fb39869507b587b120f55ffff58a9ffffdcff7fffffffd54nat), quad(0x16649cea542c77ccad59907ddcac499db925b53ce65329a718bf65c62276b7ca50061150583f632803faecb68cee4636int, 0x362d643ad12283ad52cdd385553f7ca3af6d7273df50633a7f6757ad5bdb2b28a5a2d4cf61b267d6aa5a4a8b124a25bint, 0xb921fdee0fc04b787acdafb06349853d72aff26377f1cac9d081dd99519a99772dd5b978f4fbaa494335d1210786abcint, r)),
{
    lemma_root_pow_part_148(r);
    lemma_square_step(r, 0x1a0111ea397fe69a4b1ba7b6434bacd764774b84f38512bf6730d2a0f6b0f6241eabfffeb153ffffb9feffffffffaanat, 0x1647edbb7365697c2748e6e9d8bc8ba8129dcb0f615e57b4d76acade83e2535047ed9aded000c623d40bb97f5a6cb8a8int, 0xa4b970847de44830e60dcead27d63ee96946cd3914b5708b3202113217c9a461c997cdd44d68ddb7be88d3e5ae1da22int, 0x83ce1cc4193dd70eb4c6daaff94a2e611e94d13aaeaa434aa731078bc0a0ff467cbe8f1298b6a447cdd2149d07383bbint, 0xbbc718afd149a7937bebcaa06d00d9ef7dbcc06911b0cac3a05d0bf8c083fa1e4086c1e47bb3d8548116c1e1e46a090int, 0xe9c77b01208884de38c0e68e9e62f2ea3f1fe4eb3689f4dc4a1ca3999a8c5281d9da8693e83a60b8bbaf319c36eeabdint, 0xc8dfd876d5b786d33e1e8cd7638c4d759c167906193d69d99407994e304fdd12c0d03695ad0852be03b7abae3a101aint);
    lemma_times_root_step(r, 0x340223d472ffcd3496374f6c869759aec8ee9709e70a257ece61a541ed61ec483d57fffd62a7ffff73fdffffffff54nat, 0xbbc718afd149a7937bebcaa06d00d9ef7dbcc06911b0cac3a05d0bf8c083fa1e4086c1e47bb3d8548116c1e1e46a090int, 0xe9c77b01208884de38c0e68e9e62f2ea3f1fe4eb3689f4dc4a1ca3999a8c5281d9da8693e83a60b8bbaf319c36eeabdint, 0xc8dfd876d5b786d33e1e8cd7638c4d759c167906193d69d99407994e304fdd12c0d03695ad0852be03b7abae3a101aint, 0xa79aba7e0ac2c807742ad7d71f20ea8354e0ea05a70d3aabd1cd915c3ff64396c2301c199b188dad137eac8da373c6fint, 0x115160f8d046464e5c718608d00190b7c0df4e8cb94b478ef7ae744bd50f59d22f87cfe7d988154bf27c151b5ba8805fint, 0xe9c77b01208884de38c0e68e9e62f2ea3f1fe4eb3689f4dc4a1ca3999a8c5281d9da8693e83a60b8bbaf319c36eeabdint);
    lemma_square_step(r, 0x340223d472ffcd3496374f6c869759aec8ee9709e70a257ece61a541ed61ec483d57fffd62a7ffff73fdffffffff55nat, 0xa79aba7e0ac2c807742ad7d71f20ea8354e0ea05a70d3aabd1cd915c3ff64396c2301c199b188dad137eac8da373c6fint, 0x115160f8d046464e5c718608d00190b7c0df4e8cb94b478ef7ae744bd50f59d22f87cfe7d988154bf27c151b5ba8805fint, 0xe9c77b01208884de38c0e68e9e62f2ea3f1fe4eb3689f4dc4a1ca3999a8c5281d9da8693e83a60b8bbaf319c36eeabdint, 0x1408c9db19ac71286e1b9bc95507cd2c41106f8989a302248ab12c3764ca74955db885f0f5d11d133e10d581250686ebint, 0x91466f9ea715760de9d2f6a354448e752848d5e58a9fc85046af2363d544c7833e5ec2ea98510723100e79e83996dbfint, 0xfe08c5ebf021919720c6ec215b2ce7df826d25931a8b0b37d6b1765dfc42e866413a034881cc768b1b1b856b00aadc1int);
    lemma_square_step(r, 0x680447a8e5ff9a692c6e9ed90d2eb35d91dd2e13ce144afd9cc34a83dac3d8907aaffffac54ffffee7fbfffffffeaanat, 0x1408c9db19ac71286e1b9bc95507cd2c41106f8989a302248ab12c3764ca74955db885f0f5d11d133e10d581250686ebint, 0x91466f9ea715760de9d2f6a354448e752848d5e58a9fc85046af2363d544c7833e5ec2ea98510723100e79e83996dbfint, 0xfe08c5ebf021919720c6ec215b2ce7df826d25931a8b0b37d6b1765dfc42e866413a034881cc768b1b1b856b00aadc1int, 0x16649cea542c77ccad59907ddcac499db925b53ce65329a718bf65c62276b7ca50061150583f632803faecb68cee4636int, 0x362d643ad12283ad52cdd385553f7ca3af6d7273df50633a7f6757ad5bdb2b28a5a2d4cf61b267d6aa5a4a8b124a25bint, 0xb921fdee0fc04b787acdafb06349853d72aff26377f1cac9d081dd99519a99772dd5b978f4fbaa494335d1210786abcint);
}

#[verifier::rlimit(40)]
proof fn lemma_root_pow_part_150(r: int)
    requires
        cong(iso_cubic(r), 0),
    ensures
        cong(pow(r, 0x340223d472ffcd3496374f6c869759aec8ee9709e70a257ece61a541ed61ec483d57fffd62a7ffff73fdffffffff555nat), quad(0x13dba8921db5ce5840356ffa4caa18b6a3127efa9c05d5da14852af027bc6c51602fa31b1650bfbdf64a34b0d25606c6int, 0x12a4c88f97bbe5e132d5e3f8a3bb6c688ddc6c65aa3966a3895d079e4368fba8eb5f1be461c56c48baa3e720dee26dd2int, 0x1104d8d4b74ac398b427b4120a0f9f596483587f5c0027e833ae72c60212e68a51e8afe249acb314a8f7a43669d56d07int, r)),
{
    lemma_root_pow_part_149(r);
    lemma_times_root_step(r, 0xd0088f51cbff34d258dd3db21a5d66bb23ba5c279c2895fb39869507b587b120f55ffff58a9ffffdcff7fffffffd54nat, 0x16649cea542c77ccad59907ddcac499db925b53ce65329a718bf65c62276b7ca50061150583f632803faecb68cee4636int, 0x362d643ad12283ad52cdd385553f7ca3af6d7273df50633a7f6757ad5bdb2b28a5a2d4cf61b267d6aa5a4a8b124a25bint, 0xb921fdee0fc04b787acdafb06349853d72aff26377f1cac9d081dd99519a99772dd5b978f4fbaa494335d1210786abcint, 0xcd07171a013e0c8d43e849cabefccd0f58c5f59af4591cae77f5f2d9b590584e94df79593ec4005c5f04a644959adbcint, 0x5185c0dd1d32fc1c9707a920c51cb4865c9a68b8b5cbdf9dabb0ae4445a89d561c2842456facc0ae1e7417f31dcab39int, 0x362d643ad12283ad52cdd385553f7ca3af6d7273df50633a7f6757ad5bdb2b28a5a2d4cf61b267d6aa5a4a8b124a25bint);
    lemma_square_step(r, 0xd0088f51cbff34d258dd3db21a5d66bb23ba5c279c2895fb39869507b587b120f55ffff58a9ffffdcff7fffffffd55nat, 0xcd07171a013e0c8d43e849cabefccd0f58c5f59af4591cae77f5f2d9b590584e94df79593ec4005c5f04a644959adbcint, 0x5185c0dd1d32fc1c9707a920c51cb4865c9a68b8b5cbdf9dabb0ae4445a89d561c2842456facc0ae1e7417f31dcab39int, 0x362d643ad12283ad52cdd385553f7ca3af6d7273df50633a7f6757ad5bdb2b28a5a2d4cf61b267d6aa5a4a8b124a25bint, 0x8fec89f62a4b6cced699b280f5d01a6a389ccb06bba2106ab56441a5d4e62a57dcf394770156d31fa04d4c4fae71bb7int, 0x3531f13be75ba7a12ff219ff7034a44dd835bf434a80597e4fb8a8eae2aad495753c6e4f83a6c0e0762ee8e3ca98515int, 0x10284fbb053e41baaccb9a8c3329cb0bb8ba657796ab3b7acf0912ed84a6b7bb16adb65bc78242ea319e3b1cd64ddbbcint);
    lemma_square_step(r, 0x1a0111ea397fe69a4b1ba7b6434bacd764774b84f38512bf6730d2a0f6b0f6241eabfffeb153ffffb9feffffffffaaanat, 0x8fec89f62a4b6cced699b280f5d01a6a389ccb06bba2106ab56441a5d4e62a57dcf394770156d31fa04d4c4fae71bb7int, 0x3531f13be75ba7a12ff219ff7034a44dd835bf434a80597e4fb8a8eae2aad495753c6e4f83a6c0e0762ee8e3ca98515int, 0x10284fbb053e41baaccb9a8c3329cb0bb8ba657796ab3b7acf0912ed84a6b7bb16adb65bc78242ea319e3b1cd64ddbbcint, 0x248fee680c284566ccd1f8c424519b20f3f40ac042dc4a64708049bfa38724caa4ef62602df6a7fff1d6f0b3da9a84fint, 0x1104d8d4b74ac398b427b4120a0f9f596483587f5c0027e833ae72c60212e68a51e8afe249acb314a8f7a43669d56d07int, 0xd271b553be2adf560720e65493ebeb7dca1725e00a7925c7cb61889a85b226b63b118853740f48f79287f657ac2439cint);
    lemma_times_root_step(r, 0x340223d472ffcd3496374f6c869759aec8ee9709e70a257ece61a541ed61ec483d57fffd62a7ffff73fdffffffff554nat, 0x248fee680c284566ccd1f8c424519b20f3f40ac042dc4a64708049bfa38724caa4ef62602df6a7fff1d6f0b3da9a84fint, 0x1104d8d4b74ac398b427b4120a0f9f596483587f5c0027e833ae72c60212e68a51e8afe249acb314a8f7a43669d56d07int, 0xd271b553be2adf560720e65493ebeb7dca1725e00a7925c7cb61889a85b226b63b118853740f48f79287f657ac2439cint, 0x13dba8921db5ce5840356ffa4caa18b6a3127efa9c05d5da14852af027bc6c51602fa31b1650bfbdf64a34b0d25606c6int, 0x12a4c88f97bbe5e132d5e3f8a3bb6c688ddc6c65aa3966a3895d079e4368fba8eb5f1be461c56c48baa3e720dee26dd2int, 0x1104d8d4b74ac398b427b4120a0f9f596483587f5c0027e833ae72c60212e68a51e8afe249acb314a8f7a43669d56d07int);
}

#[verifier::rlimit(40)]
proof fn lemma_root_pow_part_151(r: int)
    requires
        cong(iso_cubic(r), 0),
    ensures
        cong(pow(r, 0x1a0111ea397fe69a4b1ba7b6434bacd764774b84f38512bf6730d2a0f6b0f6241eabfffeb153ffffb9feffffffffaaaanat), quad(0xf551e1915cda560d4103f82a265ec98000a36c0ffa2a2ed52b2f98985258f205c60b5024fa1e58f0a858938b425b5aint, 0xdec653dab78d16b197ab8fb9b05f8b71c2419ab9acd4682d9e7e61379dc9d178a0be1b5a8dd1b16c760e4993b41501int, 0x771d7c602ad7e9f7b7e4a38bed6df428c938ddd5c82771935a20edd8c8be8fac763b2fa98f21c3a1a81581e8fa04685int, r)),
{
    lemma_root_pow_part_150(r);
    lemma_square_step(r, 0x340223d472ffcd3496374f6c869759aec8ee9709e70a257ece61a541ed61ec483d57fffd62a7ffff73fdffffffff555nat, 0x13dba8921db5ce5840356ffa4caa18b6a3127efa9c05d5da14852af027bc6c51602fa31b1650bfbdf64a34b0d25606c6int, 0x12a4c88f97bbe5e132d5e3f8a3bb6c688ddc6c65aa3966a3895d079e4368fba8eb5f1be461c56c48baa3e720dee26dd2int, 0x1104d8d4b74ac398b427b4120a0f9f596483587f5c0027e833ae72c60212e68a51e8afe249acb314a8f7a43669d56d07int, 0x3f36b59c4420e9369fe04524bf1fe6ea85228ddef2ab408a3301273ed4b520d2d8b0e45daab1654bd771532e7dce218int, 0x4501ce4271eb7146c518f475f746868fb6162b97c86b106ab4314de89f1639c0071c0bed5ff463d579d0c5526228528int, 0x4e1daa918ac605286b6dbc63168b7e7553a1120a098cb6681bbd3e581fb8700d85c6e2213d4fc7e17b3c38f66f61a29int);
    lemma_square_step(r, 0x680447a8e5ff9a692c6e9ed90d2eb35d91dd2e13ce144afd9cc34a83dac3d8907aaffffac54ffffee7fbfffffffeaaanat, 0x3f36b59c4420e9369fe04524bf1fe6ea85228ddef2ab408a3301273ed4b520d2d8b0e45daab1654bd771532e7dce218int, 0x4501ce4271eb7146c518f475f746868fb6162b97c86b106ab4314de89f1639c0071c0bed5ff463d579d0c5526228528int, 0x4e1daa918ac605286b6dbc63168b7e7553a1120a098cb6681bbd3e581fb8700d85c6e2213d4fc7e17b3c38f66f61a29int, 0x114c85f60baef95c720a5a5acdb42957e8cacb8aa36dc293272700d4407f1759b337ff1361b98b546b6bc415bba6e39eint, 0x2be86c6f75f5742eb01b4b4e367b77247a55e0ede531dbdf87ec65dcb7418896960909b37d214a5d82127dcae50d400int, 0x362c62f0b3bf232290d5e4494beff9eaa51f80139a54eb9a96d2b79bdec5bee6c0db5eb14928881232ce490d85c5d80int);
    lemma_times_root_step(r, 0xd0088f51cbff34d258dd3db21a5d66bb23ba5c279c2895fb39869507b587b120f55ffff58a9ffffdcff7fffffffd554nat, 0x114c85f60baef95c720a5a5acdb42957e8cacb8aa36dc293272700d4407f1759b337ff1361b98b546b6bc415bba6e39eint, 0x2be86c6f75f5742eb01b4b4e367b77247a55e0ede531dbdf87ec65dcb7418896960909b37d214a5d82127dcae50d400int, 0x362c62f0b3bf232290d5e4494beff9eaa51f80139a54eb9a96d2b79bdec5bee6c0db5eb14928881232ce490d85c5d80int, 0x5b18169fdaa5e630863735909608bd61dc1d49215b07fd1751872c4c02d7fa289a254daccb4b331641bfe541b127255int, 0x1644b4383b91bc2c8d360aae2e0f56d650302542199aaddef35cc3ebbdc7828695ed3796c49ca34bb8d0acdd967400efint, 0x2be86c6f75f5742eb01b4b4e367b77247a55e0ede531dbdf87ec65dcb7418896960909b37d214a5d82127dcae50d400int);
    lemma_square_step(r, 0xd0088f51cbff34d258dd3db21a5d66bb23ba5c279c2895fb39869507b587b120f55ffff58a9ffffdcff7fffffffd555nat, 0x5b18169fdaa5e630863735909608bd61dc1d49215b07fd1751872c4c02d7fa289a254daccb4b331641bfe541b127255int, 0x1644b4383b91bc2c8d360aae2e0f56d650302542199aaddef35cc3ebbdc7828695ed3796c49ca34bb8d0acdd967400efint, 0x2be86c6f75f5742eb01b4b4e367b77247a55e0ede531dbdf87ec65dcb7418896960909b37d214a5d82127dcae50d400int, 0xf551e1915cda560d4103f82a265ec98000a36c0ffa2a2ed52b2f98985258f205c60b5024fa1e58f0a858938b425b5aint, 0xdec653dab78d16b197ab8fb9b05f8b71c2419ab9acd4682d9e7e61379dc9d178a0be1b5a8dd1b16c760e4993b41501int, 0x771d7c602ad7e9f7b7e4a38bed6df428c938ddd5c82771935a20edd8c8be8fac763b2fa98f21c3a1a81581e8fa04685int);
}

#[verifier::rlimit(40)]
proof fn lemma_root_pow_part_152(r: int)
    requires
        cong(iso_cubic(r), 0),
    ensures
        cong(pow(r, 0x1a0111ea397fe69a4b1ba7b6434bacd764774b84f38512bf6730d2a0f6b0f6241eabfffeb153ffffb9feffffffffaaabnat), quad(0x167a4573db76f12e5e1d684bd1953a61fb9184f44b906a43556a626aca81138ea935377baa265004737982fdf3e8c3c0int, 0x109451496bd2ce199464fd146e48fdd506517d9a20f4a4ac90d3043a590cdfd583178f940f8148d73e1107a770c806fint, 0xdec653dab78d16b197ab8fb9b05f8b71c2419ab9acd4682d9e7e61379dc9d178a0be1b5a8dd1b16c760e4993b41501int, r)),
{
    lemma_root_pow_part_151(r);
    lemma_times_root_step(r, 0x1a0111ea397fe69a4b1ba7b6434bacd764774b84f38512bf6730d2a0f6b0f6241eabfffeb153ffffb9feffffffffaaaanat, 0xf551e1915cda560d4103f82a265ec98000a36c0ffa2a2ed52b2f98985258f205c60b5024fa1e58f0a858938b425b5aint, 0xdec653dab78d16b197ab8fb9b05f8b71c2419ab9acd4682d9e7e61379dc9d178a0be1b5a8dd1b16c760e4993b41501int, 0x771d7c602ad7e9f7b7e4a38bed6df428c938ddd5c82771935a20edd8c8be8fac763b2fa98f21c3a1a81581e8fa04685int, 0x167a4573db76f12e5e1d684bd1953a61fb9184f44b906a43556a626aca81138ea935377baa265004737982fdf3e8c3c0int, 0x109451496bd2ce199464fd146e48fdd506517d9a20f4a4ac90d3043a590cdfd583178f940f8148d73e1107a770c806fint, 0xdec653dab78d16b197ab8fb9b05f8b71c2419ab9acd4682d9e7e61379dc9d178a0be1b5a8dd1b16c760e4993b41501int);
}

/// `g` has no root in Fq: a root `r` would have `r^p = r`.
pub proof fn lemma_cubic_no_root(r: int)
    requires
        cong(iso_cubic(r), 0),
        cong(pow(r, crate::field::modulus()), r),
    ensures
        r == r + 1,
{
    lemma_root_pow_part_152(r);
    lemma_product_step(r, 0x17448748eeb644c01bd8057d96d58bf3f56dedb39ad2b8245ba9a28c10776e080b744052c94b6390529b9660a03a1986int, 0x18187c126f186c0a9f6f0d1f8272d486eb52eafc397301284c33978f6725beed58618a096f407589d87a79f85692431cint, 0x2025e63d1547326558ac99b4d2bc7467f029caf4cfdf46c95bd68e5dd6cce7df8b66358a41bc8255fb51cd887a4d803int, 0x167a4573db76f12e5e1d684bd1953a61fb9184f44b906a43556a626aca81138ea935377baa265004737982fdf3e8c3c0int, 0x109451496bd2ce199464fd146e48fdd506517d9a20f4a4ac90d3043a590cdfd583178f940f8148d73e1107a770c806eint, 0xdec653dab78d16b197ab8fb9b05f8b71c2419ab9acd4682d9e7e61379dc9d178a0be1b5a8dd1b16c760e4993b41501int, 1, 0, 0);
    lemma_inverse_contradiction(r, 0x167a4573db76f12e5e1d684bd1953a61fb9184f44b906a43556a626aca81138ea935377baa265004737982fdf3e8c3c0int, 0x109451496bd2ce199464fd146e48fdd506517d9a20f4a4ac90d3043a590cdfd583178f940f8148d73e1107a770c806fint, 0xdec653dab78d16b197ab8fb9b05f8b71c2419ab9acd4682d9e7e61379dc9d178a0be1b5a8dd1b16c760e4993b41501int, 0x17448748eeb644c01bd8057d96d58bf3f56dedb39ad2b8245ba9a28c10776e080b744052c94b6390529b9660a03a1986int, 0x18187c126f186c0a9f6f0d1f8272d486eb52eafc397301284c33978f6725beed58618a096f407589d87a79f85692431cint, 0x2025e63d1547326558ac99b4d2bc7467f029caf4cfdf46c95bd68e5dd6cce7df8b66358a41bc8255fb51cd887a4d803int);
}

} // verus!
