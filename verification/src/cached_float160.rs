//! Cached powers of every radix in `2..=36`, 128 bits of mantissa.
//!
//! Each radix gets a bundle of a small table (every power in a short,
//! contiguous range), a large table (every `step`-th power across the
//! whole supported exponent range) and the exact integer values of the
//! small powers. Each entry is the exact power rounded to the nearest
//! 128-bit mantissa (ties to even); the crate's tests hold every entry
//! against exact arithmetic.
use vstd::prelude::*;
#[allow(unused_imports)]
use crate::cached::{ExtendedFloatArray, ModeratePathPowers, valid_radix};

verus! {

/// Normalized mantissas of the low powers of 2, 128 bits wide.
pub const BASE2_SMALL_MANTISSA: [u128; 128] = [
    0x80000000000000000000000000000000, 0x80000000000000000000000000000000,
    0x80000000000000000000000000000000, 0x80000000000000000000000000000000,
    0x80000000000000000000000000000000, 0x80000000000000000000000000000000,
    0x80000000000000000000000000000000, 0x80000000000000000000000000000000,
    0x80000000000000000000000000000000, 0x80000000000000000000000000000000,
    0x80000000000000000000000000000000, 0x80000000000000000000000000000000,
    0x80000000000000000000000000000000, 0x80000000000000000000000000000000,
    0x80000000000000000000000000000000, 0x80000000000000000000000000000000,
    0x80000000000000000000000000000000, 0x80000000000000000000000000000000,
    0x80000000000000000000000000000000, 0x80000000000000000000000000000000,
    0x80000000000000000000000000000000, 0x80000000000000000000000000000000,
    0x80000000000000000000000000000000, 0x80000000000000000000000000000000,
    0x80000000000000000000000000000000, 0x80000000000000000000000000000000,
    0x80000000000000000000000000000000, 0x80000000000000000000000000000000,
    0x80000000000000000000000000000000, 0x80000000000000000000000000000000,
    0x80000000000000000000000000000000, 0x80000000000000000000000000000000,
    0x80000000000000000000000000000000, 0x80000000000000000000000000000000,
    0x80000000000000000000000000000000, 0x80000000000000000000000000000000,
    0x80000000000000000000000000000000, 0x80000000000000000000000000000000,
    0x80000000000000000000000000000000, 0x80000000000000000000000000000000,
    0x80000000000000000000000000000000, 0x80000000000000000000000000000000,
    0x80000000000000000000000000000000, 0x80000000000000000000000000000000,
    0x80000000000000000000000000000000, 0x80000000000000000000000000000000,
    0x80000000000000000000000000000000, 0x80000000000000000000000000000000,
    0x80000000000000000000000000000000, 0x80000000000000000000000000000000,
    0x80000000000000000000000000000000, 0x80000000000000000000000000000000,
    0x80000000000000000000000000000000, 0x80000000000000000000000000000000,
    0x80000000000000000000000000000000, 0x80000000000000000000000000000000,
    0x80000000000000000000000000000000, 0x80000000000000000000000000000000,
    0x80000000000000000000000000000000, 0x80000000000000000000000000000000,
    0x80000000000000000000000000000000, 0x80000000000000000000000000000000,
    0x80000000000000000000000000000000, 0x80000000000000000000000000000000,
    0x80000000000000000000000000000000, 0x80000000000000000000000000000000,
    0x80000000000000000000000000000000, 0x80000000000000000000000000000000,
    0x80000000000000000000000000000000, 0x80000000000000000000000000000000,
    0x80000000000000000000000000000000, 0x80000000000000000000000000000000,
    0x80000000000000000000000000000000, 0x80000000000000000000000000000000,
    0x80000000000000000000000000000000, 0x80000000000000000000000000000000,
    0x80000000000000000000000000000000, 0x80000000000000000000000000000000,
    0x80000000000000000000000000000000, 0x80000000000000000000000000000000,
    0x80000000000000000000000000000000, 0x80000000000000000000000000000000,
    0x80000000000000000000000000000000, 0x80000000000000000000000000000000,
    0x80000000000000000000000000000000, 0x80000000000000000000000000000000,
    0x80000000000000000000000000000000, 0x80000000000000000000000000000000,
    0x80000000000000000000000000000000, 0x80000000000000000000000000000000,
    0x80000000000000000000000000000000, 0x80000000000000000000000000000000,
    0x80000000000000000000000000000000, 0x80000000000000000000000000000000,
    0x80000000000000000000000000000000, 0x80000000000000000000000000000000,
    0x80000000000000000000000000000000, 0x80000000000000000000000000000000,
    0x80000000000000000000000000000000, 0x80000000000000000000000000000000,
    0x80000000000000000000000000000000, 0x80000000000000000000000000000000,
    0x80000000000000000000000000000000, 0x80000000000000000000000000000000,
    0x80000000000000000000000000000000, 0x80000000000000000000000000000000,
    0x80000000000000000000000000000000, 0x80000000000000000000000000000000,
    0x80000000000000000000000000000000, 0x80000000000000000000000000000000,
    0x80000000000000000000000000000000, 0x80000000000000000000000000000000,
    0x80000000000000000000000000000000, 0x80000000000000000000000000000000,
    0x80000000000000000000000000000000, 0x80000000000000000000000000000000,
    0x80000000000000000000000000000000, 0x80000000000000000000000000000000,
    0x80000000000000000000000000000000, 0x80000000000000000000000000000000,
    0x80000000000000000000000000000000, 0x80000000000000000000000000000000,
    0x80000000000000000000000000000000, 0x80000000000000000000000000000000,
    0x80000000000000000000000000000000, 0x80000000000000000000000000000000,
    0x80000000000000000000000000000000, 0x80000000000000000000000000000000,
];
/// Binary exponents matching `BASE2_SMALL_MANTISSA`.
pub const BASE2_SMALL_EXPONENT: [i32; 128] = [
    -127, -126, -125, -124, -123, -122, -121, -120, -119, -118, -117, -116,
    -115, -114, -113, -112, -111, -110, -109, -108, -107, -106, -105, -104,
    -103, -102, -101, -100, -99, -98, -97, -96, -95, -94, -93, -92,
    -91, -90, -89, -88, -87, -86, -85, -84, -83, -82, -81, -80,
    -79, -78, -77, -76, -75, -74, -73, -72, -71, -70, -69, -68,
    -67, -66, -65, -64, -63, -62, -61, -60, -59, -58, -57, -56,
    -55, -54, -53, -52, -51, -50, -49, -48, -47, -46, -45, -44,
    -43, -42, -41, -40, -39, -38, -37, -36, -35, -34, -33, -32,
    -31, -30, -29, -28, -27, -26, -25, -24, -23, -22, -21, -20,
    -19, -18, -17, -16, -15, -14, -13, -12, -11, -10, -9, -8,
    -7, -6, -5, -4, -3, -2, -1, 0,
];
/// Normalized mantissas of every `step`-th power of 2.
pub const BASE2_LARGE_MANTISSA: [u128; 19] = [
    0x80000000000000000000000000000000, 0x80000000000000000000000000000000,
    0x80000000000000000000000000000000, 0x80000000000000000000000000000000,
    0x80000000000000000000000000000000, 0x80000000000000000000000000000000,
    0x80000000000000000000000000000000, 0x80000000000000000000000000000000,
    0x80000000000000000000000000000000, 0x80000000000000000000000000000000,
    0x80000000000000000000000000000000, 0x80000000000000000000000000000000,
    0x80000000000000000000000000000000, 0x80000000000000000000000000000000,
    0x80000000000000000000000000000000, 0x80000000000000000000000000000000,
    0x80000000000000000000000000000000, 0x80000000000000000000000000000000,
    0x80000000000000000000000000000000,
];
/// Binary exponents matching `BASE2_LARGE_MANTISSA`.
pub const BASE2_LARGE_EXPONENT: [i32; 19] = [
    -1279, -1151, -1023, -895, -767, -639, -511, -383, -255, -127, 1, 129,
    257, 385, 513, 641, 769, 897, 1025,
];
/// Exact integer values of the low powers of 2.
pub const BASE2_SMALL_INT_POWERS: [u128; 128] = [
    0x1, 0x2,
    0x4, 0x8,
    0x10, 0x20,
    0x40, 0x80,
    0x100, 0x200,
    0x400, 0x800,
    0x1000, 0x2000,
    0x4000, 0x8000,
    0x10000, 0x20000,
    0x40000, 0x80000,
    0x100000, 0x200000,
    0x400000, 0x800000,
    0x1000000, 0x2000000,
    0x4000000, 0x8000000,
    0x10000000, 0x20000000,
    0x40000000, 0x80000000,
    0x100000000, 0x200000000,
    0x400000000, 0x800000000,
    0x1000000000, 0x2000000000,
    0x4000000000, 0x8000000000,
    0x10000000000, 0x20000000000,
    0x40000000000, 0x80000000000,
    0x100000000000, 0x200000000000,
    0x400000000000, 0x800000000000,
    0x1000000000000, 0x2000000000000,
    0x4000000000000, 0x8000000000000,
    0x10000000000000, 0x20000000000000,
    0x40000000000000, 0x80000000000000,
    0x100000000000000, 0x200000000000000,
    0x400000000000000, 0x800000000000000,
    0x1000000000000000, 0x2000000000000000,
    0x4000000000000000, 0x8000000000000000,
    0x10000000000000000, 0x20000000000000000,
    0x40000000000000000, 0x80000000000000000,
    0x100000000000000000, 0x200000000000000000,
    0x400000000000000000, 0x800000000000000000,
    0x1000000000000000000, 0x2000000000000000000,
    0x4000000000000000000, 0x8000000000000000000,
    0x10000000000000000000, 0x20000000000000000000,
    0x40000000000000000000, 0x80000000000000000000,
    0x100000000000000000000, 0x200000000000000000000,
    0x400000000000000000000, 0x800000000000000000000,
    0x1000000000000000000000, 0x2000000000000000000000,
    0x4000000000000000000000, 0x8000000000000000000000,
    0x10000000000000000000000, 0x20000000000000000000000,
    0x40000000000000000000000, 0x80000000000000000000000,
    0x100000000000000000000000, 0x200000000000000000000000,
    0x400000000000000000000000, 0x800000000000000000000000,
    0x1000000000000000000000000, 0x2000000000000000000000000,
    0x4000000000000000000000000, 0x8000000000000000000000000,
    0x10000000000000000000000000, 0x20000000000000000000000000,
    0x40000000000000000000000000, 0x80000000000000000000000000,
    0x100000000000000000000000000, 0x200000000000000000000000000,
    0x400000000000000000000000000, 0x800000000000000000000000000,
    0x1000000000000000000000000000, 0x2000000000000000000000000000,
    0x4000000000000000000000000000, 0x8000000000000000000000000000,
    0x10000000000000000000000000000, 0x20000000000000000000000000000,
    0x40000000000000000000000000000, 0x80000000000000000000000000000,
    0x100000000000000000000000000000, 0x200000000000000000000000000000,
    0x400000000000000000000000000000, 0x800000000000000000000000000000,
    0x1000000000000000000000000000000, 0x2000000000000000000000000000000,
    0x4000000000000000000000000000000, 0x8000000000000000000000000000000,
    0x10000000000000000000000000000000, 0x20000000000000000000000000000000,
    0x40000000000000000000000000000000, 0x80000000000000000000000000000000,
];

/// Normalized mantissas of the low powers of 3, 128 bits wide.
pub const BASE3_SMALL_MANTISSA: [u128; 81] = [
    0x80000000000000000000000000000000, 0xc0000000000000000000000000000000,
    0x90000000000000000000000000000000, 0xd8000000000000000000000000000000,
    0xa2000000000000000000000000000000, 0xf3000000000000000000000000000000,
    0xb6400000000000000000000000000000, 0x88b00000000000000000000000000000,
    0xcd080000000000000000000000000000, 0x99c60000000000000000000000000000,
    0xe6a90000000000000000000000000000, 0xacfec000000000000000000000000000,
    0x81bf1000000000000000000000000000, 0xc29e9800000000000000000000000000,
    0x91f6f200000000000000000000000000, 0xdaf26b00000000000000000000000000,
    0xa435d040000000000000000000000000, 0xf650b860000000000000000000000000,
    0xb8bc8a48000000000000000000000000, 0x8a8d67b6000000000000000000000000,
    0xcfd41b91000000000000000000000000, 0x9bdf14acc00000000000000000000000,
    0xe9ce9f03200000000000000000000000, 0xaf5af742580000000000000000000000,
    0x83843971c20000000000000000000000, 0xc546562aa30000000000000000000000,
    0x93f4c09ffa4000000000000000000000, 0xddef20eff76000000000000000000000,
    0xa67358b3f98800000000000000000000, 0xf9ad050df64c00000000000000000000,
    0xbb41c3ca78b900000000000000000000, 0x8c7152d7da8ac0000000000000000000,
    0xd2a9fc43c7d020000000000000000000, 0x9dff7d32d5dc18000000000000000000,
    0xecff3bcc40ca24000000000000000000, 0xb1bf6cd930979b000000000000000000,
    0x854f91a2e471b4400000000000000000, 0xc7f75a7456aa8e600000000000000000,
    0x95f983d740ffeac80000000000000000, 0xe0f645c2e17fe02c0000000000000000,
    0xa8b8b452291fe8210000000000000000, 0xfd150e7b3dafdc318000000000000000,
    0xbdcfcadc6e43e5252000000000000000, 0x8e5bd82552b2ebdbd800000000000000,
    0xd589c437fc0c61c9c400000000000000, 0xa0275329fd0949575300000000000000,
    0xf03afcbefb8dee02fc80000000000000, 0xb42c3d8f3caa72823d60000000000000,
    0x87212e2b6d7fd5e1ae08000000000000, 0xcab1c541243fc0d2850c000000000000,
    0x980553f0db2fd09de3c9000000000000, 0xe407fde948c7b8ecd5ad800000000000,
    0xab05fe6ef695cab1a042200000000000, 0x80447ed338f058053831980000000000,
    0xc066be3cd5688407d44a640000000000, 0x904d0eada00e6305df37cb0000000000,
    0xd873960470159488ced3b08000000000, 0xa256b08354102f669b1ec46000000000,
    0xf38208c4fe184719e8ae269000000000, 0xb6a18693be9235536e829cec00000000,
    0x88f924eeceeda7fe92e1f5b100000000, 0xcd75b76636647bfddc52f08980000000,
    0x9a18498ca8cb5cfe653e346720000000, 0xe7246e52fd310b7d97dd4e9ab0000000,
    0xad5b52be3de4c89e31e5faf404000000, 0x82047e0eae6b9676a56c7c3703000000,
    0xc306bd1605a161b1f822ba5284800000, 0x92450dd0843909457a1a0bbde3600000,
    0xdb6794b8c6558de83727119cd5100000, 0xa48daf8a94c02a6e295d4d359fcc0000,
    0xf6d4874fdf203fa53e0bf3d06fb20000, 0xb91f657be7582fbbee88f6dc53c58000,
    0x8ad78c1ced8223ccf2e6b9253ed42000, 0xd043522b644335b36c5a15b7de3e3000,
    0x9c327da08b32684691439049e6aea400, 0xea4bbc70d0cb9c69d9e5586eda05f600,
    0xafb8cd549c98b54f636c025323847880, 0x83ca99ff757287fb8a9101be5aa35a60,
    0xc5afe6ff302bcbf94fd9829d87f50790, 0x9443ed3f6420d8fafbe321f625f7c5ac,
    0xde65e3df1631457879d4b2f138f3a882,
];
/// Binary exponents matching `BASE3_SMALL_MANTISSA`.
pub const BASE3_SMALL_EXPONENT: [i32; 81] = [
    -127, -126, -124, -123, -121, -120, -118, -116, -115, -113, -112, -110,
    -108, -107, -105, -104, -102, -101, -99, -97, -96, -94, -93, -91,
    -89, -88, -86, -85, -83, -82, -80, -78, -77, -75, -74, -72,
    -70, -69, -67, -66, -64, -63, -61, -59, -58, -56, -55, -53,
    -51, -50, -48, -47, -45, -43, -42, -40, -39, -37, -36, -34,
    -32, -31, -29, -28, -26, -24, -23, -21, -20, -18, -17, -15,
    -13, -12, -10, -9, -7, -5, -4, -2, -1,
];
/// Normalized mantissas of every `step`-th power of 3.
pub const BASE3_LARGE_MANTISSA: [u128; 19] = [
    0xbd032bca02b8ee9ac7b70d1a9fb1986b, 0xf64df7b3f88e0ce26498d56887dcbf5e,
    0xa07b3b9aed184813c40a916d274de405, 0xd1201bbbfb430f4da7265b26c2e6a2d4,
    0x8841cee6400f5aaaaf6562ad21d98a09, 0xb18ef30115fccc1cae5f14dbe465cbb8,
    0xe760f343f3547f6a9d3f0f5fd42f7747, 0x96c19f9f2007b9c786cae00e96908494,
    0xc473dd818bbe344927b83841dcdd4c0e, 0x80000000000000000000000000000000,
    0xa6cc6ae750a4f41a5b5f8634eab6be62, 0xd95b7bbd13c5a684eb7ec0c153cc3e5d,
    0x8d9ee1e77cbf81cf7f09fc087ef1c0d1, 0xb88c3877bfc05f77db1ed8c5bfbc2108,
    0xf07c92d6eb9da033708fd7c1f2439e80, 0x9cb0cee9410357fb9d4dcd7e7fc5951f,
    0xcc2f88fdd936f4e4d397720cb616fa0b, 0x8509ddf9f312df8cb451d1a8c1c71374,
    0xad5d42b6850b1375e3928a35ab28925e,
];
/// Binary exponents matching `BASE3_LARGE_MANTISSA`.
pub const BASE3_LARGE_EXPONENT: [i32; 19] = [
    -1283, -1155, -1026, -898, -769, -641, -513, -384, -256, -127, 1, 129,
    258, 386, 514, 643, 771, 900, 1028,
];
/// Exact integer values of the low powers of 3.
pub const BASE3_SMALL_INT_POWERS: [u128; 81] = [
    0x1, 0x3,
    0x9, 0x1b,
    0x51, 0xf3,
    0x2d9, 0x88b,
    0x19a1, 0x4ce3,
    0xe6a9, 0x2b3fb,
    0x81bf1, 0x1853d3,
    0x48fb79, 0xdaf26b,
    0x290d741, 0x7b285c3,
    0x17179149, 0x4546b3db,
    0xcfd41b91, 0x26f7c52b3,
    0x74e74f819, 0x15eb5ee84b,
    0x41c21cb8e1, 0xc546562aa3,
    0x24fd3027fe9, 0x6ef79077fbb,
    0x14ce6b167f31, 0x3e6b41437d93,
    0xbb41c3ca78b9, 0x231c54b5f6a2b,
    0x6954fe21e3e81, 0x13bfefa65abb83,
    0x3b3fcef3103289, 0xb1bf6cd930979b,
    0x2153e468b91c6d1, 0x63fbad3a2b55473,
    0x12bf307ae81ffd59, 0x383d9170b85ff80b,
    0xa8b8b452291fe821, 0x1fa2a1cf67b5fb863,
    0x5ee7e56e3721f2929, 0x11cb7b04aa565d7b7b,
    0x3562710dff03187271, 0xa0275329fd09495753,
    0x1e075f97df71bdc05f9, 0x5a161ec79e5539411eb,
    0x10e425c56daffabc35c1, 0x32ac7150490ff034a143,
    0x980553f0db2fd09de3c9, 0x1c80ffbd2918f71d9ab5b,
    0x5582ff377b4ae558d0211, 0x10088fda671e0b00a70633,
    0x3019af8f355a2101f51299, 0x904d0eada00e6305df37cb,
    0x1b0e72c08e02b29119da761, 0x512b5841aa0817b34d8f623,
    0xf38208c4fe184719e8ae269, 0x2da861a4efa48d54dba0a73b,
    0x88f924eeceeda7fe92e1f5b1, 0x19aeb6ecc6cc8f7fbb8a5e113,
    0x4d0c24c65465ae7f329f1a339, 0xe7246e52fd310b7d97dd4e9ab,
    0x2b56d4af8f7932278c797ebd01, 0x82047e0eae6b9676a56c7c3703,
    0x1860d7a2c0b42c363f04574a509, 0x492286e8421c84a2bd0d05def1b,
    0xdb6794b8c6558de83727119cd51, 0x29236be2a5300a9b8a57534d67f3,
    0x7b6a43a7ef901fd29f05f9e837d9, 0x1723ecaf7ceb05f77dd11edb8a78b,
    0x456bc60e76c111e679735c929f6a1, 0xd043522b644335b36c5a15b7de3e3,
    0x270c9f6822cc9a11a450e41279aba9, 0x7525de386865ce34ecf2ac376d02fb,
    0x15f719aa939316a9ec6d804a64708f1, 0x41e54cffbab943fdc54880df2d51ad3,
    0xc5afe6ff302bcbf94fd9829d87f5079, 0x2510fb4fd908363ebef8c87d897df16b,
    0x6f32f1ef8b18a2bc3cea59789c79d441,
];

/// Normalized mantissas of the low powers of 4, 128 bits wide.
pub const BASE4_SMALL_MANTISSA: [u128; 64] = [
    0x80000000000000000000000000000000, 0x80000000000000000000000000000000,
    0x80000000000000000000000000000000, 0x80000000000000000000000000000000,
    0x80000000000000000000000000000000, 0x80000000000000000000000000000000,
    0x80000000000000000000000000000000, 0x80000000000000000000000000000000,
    0x80000000000000000000000000000000, 0x80000000000000000000000000000000,
    0x80000000000000000000000000000000, 0x80000000000000000000000000000000,
    0x80000000000000000000000000000000, 0x80000000000000000000000000000000,
    0x80000000000000000000000000000000, 0x80000000000000000000000000000000,
    0x80000000000000000000000000000000, 0x80000000000000000000000000000000,
    0x80000000000000000000000000000000, 0x80000000000000000000000000000000,
    0x80000000000000000000000000000000, 0x80000000000000000000000000000000,
    0x80000000000000000000000000000000, 0x80000000000000000000000000000000,
    0x80000000000000000000000000000000, 0x80000000000000000000000000000000,
    0x80000000000000000000000000000000, 0x80000000000000000000000000000000,
    0x80000000000000000000000000000000, 0x80000000000000000000000000000000,
    0x80000000000000000000000000000000, 0x80000000000000000000000000000000,
    0x80000000000000000000000000000000, 0x80000000000000000000000000000000,
    0x80000000000000000000000000000000, 0x80000000000000000000000000000000,
    0x80000000000000000000000000000000, 0x80000000000000000000000000000000,
    0x80000000000000000000000000000000, 0x80000000000000000000000000000000,
    0x80000000000000000000000000000000, 0x80000000000000000000000000000000,
    0x80000000000000000000000000000000, 0x80000000000000000000000000000000,
    0x80000000000000000000000000000000, 0x80000000000000000000000000000000,
    0x80000000000000000000000000000000, 0x80000000000000000000000000000000,
    0x80000000000000000000000000000000, 0x80000000000000000000000000000000,
    0x80000000000000000000000000000000, 0x80000000000000000000000000000000,
    0x80000000000000000000000000000000, 0x80000000000000000000000000000000,
    0x80000000000000000000000000000000, 0x80000000000000000000000000000000,
    0x80000000000000000000000000000000, 0x80000000000000000000000000000000,
    0x80000000000000000000000000000000, 0x80000000000000000000000000000000,
    0x80000000000000000000000000000000, 0x80000000000000000000000000000000,
    0x80000000000000000000000000000000, 0x80000000000000000000000000000000,
];
/// Binary exponents matching `BASE4_SMALL_MANTISSA`.
pub const BASE4_SMALL_EXPONENT: [i32; 64] = [
    -127, -125, -123, -121, -119, -117, -115, -113, -111, -109, -107, -105,
    -103, -101, -99, -97, -95, -93, -91, -89, -87, -85, -83, -81,
    -79, -77, -75, -73, -71, -69, -67, -65, -63, -61, -59, -57,
    -55, -53, -51, -49, -47, -45, -43, -41, -39, -37, -35, -33,
    -31, -29, -27, -25, -23, -21, -19, -17, -15, -13, -11, -9,
    -7, -5, -3, -1,
];
/// Normalized mantissas of every `step`-th power of 4.
pub const BASE4_LARGE_MANTISSA: [u128; 19] = [
    0x80000000000000000000000000000000, 0x80000000000000000000000000000000,
    0x80000000000000000000000000000000, 0x80000000000000000000000000000000,
    0x80000000000000000000000000000000, 0x80000000000000000000000000000000,
    0x80000000000000000000000000000000, 0x80000000000000000000000000000000,
    0x80000000000000000000000000000000, 0x80000000000000000000000000000000,
    0x80000000000000000000000000000000, 0x80000000000000000000000000000000,
    0x80000000000000000000000000000000, 0x80000000000000000000000000000000,
    0x80000000000000000000000000000000, 0x80000000000000000000000000000000,
    0x80000000000000000000000000000000, 0x80000000000000000000000000000000,
    0x80000000000000000000000000000000,
];
/// Binary exponents matching `BASE4_LARGE_MANTISSA`.
pub const BASE4_LARGE_EXPONENT: [i32; 19] = [
    -1279, -1151, -1023, -895, -767, -639, -511, -383, -255, -127, 1, 129,
    257, 385, 513, 641, 769, 897, 1025,
];
/// Exact integer values of the low powers of 4.
pub const BASE4_SMALL_INT_POWERS: [u128; 64] = [
    0x1, 0x4,
    0x10, 0x40,
    0x100, 0x400,
    0x1000, 0x4000,
    0x10000, 0x40000,
    0x100000, 0x400000,
    0x1000000, 0x4000000,
    0x10000000, 0x40000000,
    0x100000000, 0x400000000,
    0x1000000000, 0x4000000000,
    0x10000000000, 0x40000000000,
    0x100000000000, 0x400000000000,
    0x1000000000000, 0x4000000000000,
    0x10000000000000, 0x40000000000000,
    0x100000000000000, 0x400000000000000,
    0x1000000000000000, 0x4000000000000000,
    0x10000000000000000, 0x40000000000000000,
    0x100000000000000000, 0x400000000000000000,
    0x1000000000000000000, 0x4000000000000000000,
    0x10000000000000000000, 0x40000000000000000000,
    0x100000000000000000000, 0x400000000000000000000,
    0x1000000000000000000000, 0x4000000000000000000000,
    0x10000000000000000000000, 0x40000000000000000000000,
    0x100000000000000000000000, 0x400000000000000000000000,
    0x1000000000000000000000000, 0x4000000000000000000000000,
    0x10000000000000000000000000, 0x40000000000000000000000000,
    0x100000000000000000000000000, 0x400000000000000000000000000,
    0x1000000000000000000000000000, 0x4000000000000000000000000000,
    0x10000000000000000000000000000, 0x40000000000000000000000000000,
    0x100000000000000000000000000000, 0x400000000000000000000000000000,
    0x1000000000000000000000000000000, 0x4000000000000000000000000000000,
    0x10000000000000000000000000000000, 0x40000000000000000000000000000000,
];

/// Normalized mantissas of the low powers of 5, 128 bits wide.
pub const BASE5_SMALL_MANTISSA: [u128; 56] = [
    0x80000000000000000000000000000000, 0xa0000000000000000000000000000000,
    0xc8000000000000000000000000000000, 0xfa000000000000000000000000000000,
    0x9c400000000000000000000000000000, 0xc3500000000000000000000000000000,
    0xf4240000000000000000000000000000, 0x98968000000000000000000000000000,
    0xbebc2000000000000000000000000000, 0xee6b2800000000000000000000000000,
    0x9502f900000000000000000000000000, 0xba43b740000000000000000000000000,
    0xe8d4a510000000000000000000000000, 0x9184e72a000000000000000000000000,
    0xb5e620f4800000000000000000000000, 0xe35fa931a00000000000000000000000,
    0x8e1bc9bf040000000000000000000000, 0xb1a2bc2ec50000000000000000000000,
    0xde0b6b3a764000000000000000000000, 0x8ac7230489e800000000000000000000,
    0xad78ebc5ac6200000000000000000000, 0xd8d726b7177a80000000000000000000,
    0x878678326eac90000000000000000000, 0xa968163f0a57b4000000000000000000,
    0xd3c21bcecceda1000000000000000000, 0x84595161401484a00000000000000000,
    0xa56fa5b99019a5c80000000000000000, 0xcecb8f27f4200f3a0000000000000000,
    0x813f3978f89409844000000000000000, 0xa18f07d736b90be55000000000000000,
    0xc9f2c9cd04674edea400000000000000, 0xfc6f7c40458122964d00000000000000,
    0x9dc5ada82b70b59df020000000000000, 0xc5371912364ce3056c28000000000000,
    0xf684df56c3e01bc6c732000000000000, 0x9a130b963a6c115c3c7f400000000000,
    0xc097ce7bc90715b34b9f100000000000, 0xf0bdc21abb48db201e86d40000000000,
    0x96769950b50d88f41314448000000000, 0xbc143fa4e250eb3117d955a000000000,
    0xeb194f8e1ae525fd5dcfab0800000000, 0x92efd1b8d0cf37be5aa1cae500000000,
    0xb7abc627050305adf14a3d9e40000000, 0xe596b7b0c643c7196d9ccd05d0000000,
    0x8f7e32ce7bea5c6fe4820023a2000000, 0xb35dbf821ae4f38bdda2802c8a800000,
    0xe0352f62a19e306ed50b2037ad200000, 0x8c213d9da502de454526f422cc340000,
    0xaf298d050e4395d69670b12b7f410000, 0xdaf3f04651d47b4c3c0cdd765f114000,
    0x88d8762bf324cd0fa5880a69fb6ac800, 0xab0e93b6efee00538eea0d047a457a00,
    0xd5d238a4abe9806872a4904598d6d880, 0x85a36366eb71f04147a6da2b7f864750,
    0xa70c3c40a64e6c51999090b65f67d924, 0xd0cf4b50cfe20765fff4b4e3f741cf6d,
];
/// Binary exponents matching `BASE5_SMALL_MANTISSA`.
pub const BASE5_SMALL_EXPONENT: [i32; 56] = [
    -127, -125, -123, -121, -118, -116, -114, -111, -109, -107, -104, -102,
    -100, -97, -95, -93, -90, -88, -86, -83, -81, -79, -76, -74,
    -72, -69, -67, -65, -62, -60, -58, -56, -53, -51, -49, -46,
    -44, -42, -39, -37, -35, -32, -30, -28, -25, -23, -21, -18,
    -16, -14, -11, -9, -7, -4, -2, 0,
];
/// Normalized mantissas of every `step`-th power of 5.
pub const BASE5_LARGE_MANTISSA: [u128; 19] = [
    0xd701ce3bd387bf47c654d07271e6c3a0, 0xdb377599b607424484c663cee6b86e7c,
    0xdf82365c497b5453cb285ceb2fed040e, 0xe3e27a444d8d98b7fd1b1b2308169b25,
    0xe858ad248f5c22c9d1b3400f8f9cff69, 0xece53cec4a314ebda4f8bf5635246428,
    0xf18899b1bc3f8ca1dc44e6c3cb279ac2, 0xf64335bcf065d37d4d4617b5ff4a16d6,
    0xfb158592be068d2eeed6e2f0f0d56713, 0x80000000000000000000000000000000,
    0x82818f1281ed449fbff8f10e7a8921a4, 0x850fadc09923329e03e2cf6bc604ddb0,
    0x87aa9aff7904228690fb44d2f05d0843, 0x8a5296ffe33cc92f82bd6b70d99aaa70,
    0x8d07e33455637eb2db0b487b6423e1e8, 0x8fcac257558ee4e6213a4f0aa5e8a7b2,
    0x929b7871de7f22b91c306f5d1b0b5fdf, 0x957a4ae1ebf7f3d3a7ea9c8838ce9437,
    0x9867806127ece4f4bf1d49cacccd5e68,
];
/// Binary exponents matching `BASE5_LARGE_MANTISSA`.
pub const BASE5_LARGE_EXPONENT: [i32; 19] = [
    -1298, -1168, -1038, -908, -778, -648, -518, -388, -258, -127, 3, 133,
    263, 393, 523, 653, 783, 913, 1043,
];
/// Exact integer values of the low powers of 5.
pub const BASE5_SMALL_INT_POWERS: [u128; 56] = [
    0x1, 0x5,
    0x19, 0x7d,
    0x271, 0xc35,
    0x3d09, 0x1312d,
    0x5f5e1, 0x1dcd65,
    0x9502f9, 0x2e90edd,
    0xe8d4a51, 0x48c27395,
    0x16bcc41e9, 0x71afd498d,
    0x2386f26fc1, 0xb1a2bc2ec5,
    0x3782dace9d9, 0x1158e460913d,
    0x56bc75e2d631, 0x1b1ae4d6e2ef5,
    0x878678326eac9, 0x2a5a058fc295ed,
    0xd3c21bcecceda1, 0x422ca8b0a00a425,
    0x14adf4b7320334b9, 0x6765c793fa10079d,
    0x204fce5e3e2502611, 0xa18f07d736b90be55,
    0x327cb2734119d3b7a9, 0xfc6f7c40458122964d,
    0x4ee2d6d415b85acef81, 0x18a6e32246c99c60ad85,
    0x7b426fab61f00de36399, 0x2684c2e58e9b04570f1fd,
    0xc097ce7bc90715b34b9f1, 0x3c2f7086aed236c807a1b5,
    0x12ced32a16a1b11e8262889, 0x5e0a1fd2712875988becaad,
    0x1d6329f1c35ca4bfabb9f561, 0x92efd1b8d0cf37be5aa1cae5,
    0x2deaf189c140c16b7c528f679, 0xe596b7b0c643c7196d9ccd05d,
    0x47bf19673df52e37f2410011d1, 0x166bb7f0435c9e717bb45005915,
    0x701a97b150cf18376a85901bd69, 0x23084f676940b7915149bd08b30d,
    0xaf298d050e4395d69670b12b7f41, 0x36bcfc1194751ed30f03375d97c45,
    0x111b0ec57e6499a1f4b1014d3f6d59, 0x558749db77f70029c77506823d22bd,
    0x1aba4714957d300d0e549208b31adb1, 0x85a36366eb71f04147a6da2b7f86475,
    0x29c30f1029939b146664242d97d9f649, 0xd0cf4b50cfe20765fff4b4e3f741cf6d,
];

/// Normalized mantissas of the low powers of 6, 128 bits wide.
pub const BASE6_SMALL_MANTISSA: [u128; 50] = [
    0x80000000000000000000000000000000, 0xc0000000000000000000000000000000,
    0x90000000000000000000000000000000, 0xd8000000000000000000000000000000,
    0xa2000000000000000000000000000000, 0xf3000000000000000000000000000000,
    0xb6400000000000000000000000000000, 0x88b00000000000000000000000000000,
    0xcd080000000000000000000000000000, 0x99c60000000000000000000000000000,
    0xe6a90000000000000000000000000000, 0xacfec000000000000000000000000000,
    0x81bf1000000000000000000000000000, 0xc29e9800000000000000000000000000,
    0x91f6f200000000000000000000000000, 0xdaf26b00000000000000000000000000,
    0xa435d040000000000000000000000000, 0xf650b860000000000000000000000000,
    0xb8bc8a48000000000000000000000000, 0x8a8d67b6000000000000000000000000,
    0xcfd41b91000000000000000000000000, 0x9bdf14acc00000000000000000000000,
    0xe9ce9f03200000000000000000000000, 0xaf5af742580000000000000000000000,
    0x83843971c20000000000000000000000, 0xc546562aa30000000000000000000000,
    0x93f4c09ffa4000000000000000000000, 0xddef20eff76000000000000000000000,
    0xa67358b3f98800000000000000000000, 0xf9ad050df64c00000000000000000000,
    0xbb41c3ca78b900000000000000000000, 0x8c7152d7da8ac0000000000000000000,
    0xd2a9fc43c7d020000000000000000000, 0x9dff7d32d5dc18000000000000000000,
    0xecff3bcc40ca24000000000000000000, 0xb1bf6cd930979b000000000000000000,
    0x854f91a2e471b4400000000000000000, 0xc7f75a7456aa8e600000000000000000,
    0x95f983d740ffeac80000000000000000, 0xe0f645c2e17fe02c0000000000000000,
    0xa8b8b452291fe8210000000000000000, 0xfd150e7b3dafdc318000000000000000,
    0xbdcfcadc6e43e5252000000000000000, 0x8e5bd82552b2ebdbd800000000000000,
    0xd589c437fc0c61c9c400000000000000, 0xa0275329fd0949575300000000000000,
    0xf03afcbefb8dee02fc80000000000000, 0xb42c3d8f3caa72823d60000000000000,
    0x87212e2b6d7fd5e1ae08000000000000, 0xcab1c541243fc0d2850c000000000000,
];
/// Binary exponents matching `BASE6_SMALL_MANTISSA`.
pub const BASE6_SMALL_EXPONENT: [i32; 50] = [
    -127, -125, -122, -120, -117, -115, -112, -109, -107, -104, -102, -99,
    -96, -94, -91, -89, -86, -84, -81, -78, -76, -73, -71, -68,
    -65, -63, -60, -58, -55, -53, -50, -47, -45, -42, -40, -37,
    -34, -32, -29, -27, -24, -22, -19, -16, -14, -11, -9, -6,
    -3, -1,
];
/// Normalized mantissas of every `step`-th power of 6.
pub const BASE6_LARGE_MANTISSA: [u128; 19] = [
    0xd9cd5c92f261c4132461d5cd4b93f17c, 0x815677648ece9310047d3caa57217e07,
    0x999c0ff9848834ac6a233042575c4ec4, 0xb66fb7cd2b2510a5796d3dba4e0628eb,
    0xd8ac42448c4ea8b72e77afd10481327a, 0x80aac9c1b323a0598080c9595be787bf,
    0x98d02aa2c1ad78c344cc896265842415, 0xb57d8ef977fc49611e94730b5076b45e,
    0xd78ca7b4c124bd11fcee2a36b42204ad, 0x80000000000000000000000000000000,
    0x980553f0db2fd09de3c9000000000000, 0xb48ca794ce6ed0acb683eeebad28faac,
    0xd66e8ae6328475a1928cc6d16b9c4530, 0xfeac31e1f58234f610d49bd3b79a1980,
    0x973b8a7c92d7013ef4494983928f6947, 0xb39cfff485a5dbf4d6aae030b91bfb0f,
    0xd551e9de262c5d2080ad19f69c87409b, 0xfd5a26cf74888f7cc6a6497d4f4a65aa,
    0x9672cce08743725883f60631eba4efc7,
];
/// Binary exponents matching `BASE6_LARGE_MANTISSA`.
pub const BASE6_LARGE_EXPONENT: [i32; 19] = [
    -1291, -1161, -1032, -903, -774, -644, -515, -386, -257, -127, 2, 131,
    260, 389, 519, 648, 777, 906, 1036,
];
/// Exact integer values of the low powers of 6.
pub const BASE6_SMALL_INT_POWERS: [u128; 50] = [
    0x1, 0x6,
    0x24, 0xd8,
    0x510, 0x1e60,
    0xb640, 0x44580,
    0x19a100, 0x99c600,
    0x39aa400, 0x159fd800,
    0x81bf1000, 0x30a7a6000,
    0x123ede4000, 0x6d79358000,
    0x290d7410000, 0xf650b860000,
    0x5c5e45240000, 0x22a359ed80000,
    0xcfd41b9100000, 0x4def8a56600000,
    0x1d39d3e06400000, 0xaf5af7425800000,
    0x41c21cb8e1000000, 0x18a8cac5546000000,
    0x93f4c09ffa4000000, 0x377bc83bfdd8000000,
    0x14ce6b167f310000000, 0x7cd68286fb260000000,
    0x2ed070f29e2e40000000, 0x118e2a5afb51580000000,
    0x6954fe21e3e8100000000, 0x277fdf4cb5770600000000,
    0xecff3bcc40ca2400000000, 0x58dfb66c984bcd800000000,
    0x2153e468b91c6d1000000000, 0xc7f75a7456aa8e6000000000,
    0x4afcc1eba07ff564000000000, 0x1c1ec8b85c2ffc058000000000,
    0xa8b8b452291fe8210000000000, 0x3f45439ecf6bf70c60000000000,
    0x17b9f95b8dc87ca4a40000000000, 0x8e5bd82552b2ebdbd80000000000,
    0x3562710dff0318727100000000000, 0x1404ea653fa1292aea600000000000,
    0x781d7e5f7dc6f7017e400000000000, 0x2d0b0f63cf2a9ca08f5800000000000,
    0x10e425c56daffabc35c1000000000000, 0x6558e2a0921fe0694286000000000000,
];

/// Normalized mantissas of the low powers of 7, 128 bits wide.
pub const BASE7_SMALL_MANTISSA: [u128; 46] = [
    0x80000000000000000000000000000000, 0xe0000000000000000000000000000000,
    0xc4000000000000000000000000000000, 0xab800000000000000000000000000000,
    0x96100000000000000000000000000000, 0x834e0000000000000000000000000000,
    0xe5c88000000000000000000000000000, 0xc90f7000000000000000000000000000,
    0xafed8200000000000000000000000000, 0x99efd1c0000000000000000000000000,
    0x86b1d788000000000000000000000000, 0xebb7392e000000000000000000000000,
    0xce405208400000000000000000000000, 0xb47847c7380000000000000000000000,
    0x9de93ece510000000000000000000000, 0x8a2c16f486e000000000000000000000,
    0xf1cd282bec0800000000000000000000, 0xd39383266e8700000000000000000000,
    0xb92112c1a0b620000000000000000000, 0xa1fcf0696c9f5c000000000000000000,
    0x8dbd525c3f0b70800000000000000000, 0xf80b50216e5404e00000000000000000,
    0xd909e61d408984440000000000000000, 0xbde8a959987853bb8000000000000000,
    0xa62b942e656949441000000000000000, 0x916621a898bc201b8e00000000000000,
    0xfe72bae70b4938303880000000000000, 0xdea4638a29e0112a3170000000000000,
    0xc2cfd718e4a40f04eb42000000000000, 0xaa75dc35c80f8d244dd9c00000000000,
    0x952720af0f0d9b7fc41e880000000000, 0x82823c992d2be80fcb9ab70000000000,
    0xe463ea0c0f0cd61ba44ec04000000000, 0xc7d76cca8d2b3b582fc4e83800000000,
    0xaedc7f313b85d3ed29cc4b3100000000, 0x9900ef4b1415196f8492c1cae0000000,
    0x85e0d161b19276419400699184000000, 0xea496e6af6c04ef2c300b8bea7000000,
    0xcd00409d97e845146aa0a1a6d2200000, 0xb3603889e4eb3c71dd4c8d71f7dc0000,
    0x9cf43178a84dd4e3a1a2fbc3b8e08000, 0x8955ab4993441a472d6e9c4b41c47000,
    0xf055ebc0c1b72dfc8f819183b317c400, 0xd24b2e48a980483cfd915f533cb4cb80,
    0xb801c87f94503f355ddf3368d51e3210, 0xa1018f6fa1c6374eb2234cfbba7a6bce,
];
/// Binary exponents matching `BASE7_SMALL_MANTISSA`.
pub const BASE7_SMALL_EXPONENT: [i32; 46] = [
    -127, -125, -122, -119, -116, -113, -111, -108, -105, -102, -99, -97,
    -94, -91, -88, -85, -83, -80, -77, -74, -71, -69, -66, -63,
    -60, -57, -55, -52, -49, -46, -43, -40, -38, -35, -32, -29,
    -26, -24, -21, -18, -15, -12, -10, -7, -4, -1,
];
/// Normalized mantissas of every `step`-th power of 7.
pub const BASE7_LARGE_MANTISSA: [u128; 19] = [
    0xd806b2ea0104d55b9ad8a58069314f09, 0xedc3ad462a192b4f36488b82f5150edd,
    0x82d85296306e2ab6e044f7bb44ab1365, 0x9002fa2b2c66efba4dbdb72305beb35a,
    0x9e80d00f087b48c4b69a3cffe2cc9d77, 0xae73f5c8579999e44d9a0102fc6d1c48,
    0xc001fc1a27f4befc8d356a28846e0469, 0xd3543b7db92fda04209500150b66d37a,
    0xe898358362328694d32c38b8884125d2, 0x80000000000000000000000000000000,
    0x8ce15d81ad8d7064dbdee35c432b1e54, 0x9b0e8956abda7eae074697d6d62a8362,
    0xaaa8e709dcfd6ea04bbabc6ebc28e622, 0xbbd5364486868528bb32900b632aabb8,
    0xcebbe95b8c93ce0ce4ac612a76a587da, 0xe38984924deae1817a6610a422764e30,
    0xfa6f06f37dd3100a96ca80863872a126, 0x89d12edb76115d7b959867476d54f07b,
    0x97af71a202a23880f6c3b41babdc4b4f,
];
/// Binary exponents matching `BASE7_LARGE_MANTISSA`.
pub const BASE7_LARGE_EXPONENT: [i32; 19] = [
    -1290, -1161, -1031, -902, -773, -644, -515, -386, -257, -127, 2, 131,
    260, 389, 518, 647, 776, 906, 1035,
];
/// Exact integer values of the low powers of 7.
pub const BASE7_SMALL_INT_POWERS: [u128; 46] = [
    0x1, 0x7,
    0x31, 0x157,
    0x961, 0x41a7,
    0x1cb91, 0xc90f7,
    0x57f6c1, 0x267bf47,
    0x10d63af1, 0x75db9c97,
    0x339014821, 0x168f08f8e7,
    0x9de93ece51, 0x45160b7a437,
    0x1e39a5057d81, 0xd39383266e87,
    0x5c908960d05b1, 0x287f3c1a5b27d7,
    0x11b7aa4b87e16e1, 0x7c05a810b72a027,
    0x3642798750226111, 0x17bd152b330f0a777,
    0xa62b942e656949441, 0x48b310d44c5e100dc7,
    0x1fce575ce1692706071, 0xdea4638a29e0112a317,
    0x6167eb8c7252078275a1, 0x2a9d770d7203e34913767,
    0x12a4e415e1e1b36ff883d1, 0x82823c992d2be80fcb9ab7,
    0x3918fa8303c33586e913b01, 0x18faed9951a5676b05f89d07,
    0xaedc7f313b85d3ed29cc4b31, 0x4c8077a58a0a8cb7c24960e57,
    0x217834586c649d9065001a6461, 0xea496e6af6c04ef2c300b8bea7,
    0x6680204ecbf4228a355050d3691, 0x2cd80e22793acf1c7753235c7df7,
    0x139e862f1509ba9c74345f78771c1, 0x8955ab4993441a472d6e9c4b41c47,
    0x3c157af0306dcb7f23e06460ecc5f1, 0x1a4965c9153009079fb22bea6796997,
    0xb801c87f94503f355ddf3368d51e321, 0x5080c7b7d0e31ba75911a67ddd3d35e7,
];

/// Normalized mantissas of the low powers of 8, 128 bits wide.
pub const BASE8_SMALL_MANTISSA: [u128; 43] = [
    0x80000000000000000000000000000000, 0x80000000000000000000000000000000,
    0x80000000000000000000000000000000, 0x80000000000000000000000000000000,
    0x80000000000000000000000000000000, 0x80000000000000000000000000000000,
    0x80000000000000000000000000000000, 0x80000000000000000000000000000000,
    0x80000000000000000000000000000000, 0x80000000000000000000000000000000,
    0x80000000000000000000000000000000, 0x80000000000000000000000000000000,
    0x80000000000000000000000000000000, 0x80000000000000000000000000000000,
    0x80000000000000000000000000000000, 0x80000000000000000000000000000000,
    0x80000000000000000000000000000000, 0x80000000000000000000000000000000,
    0x80000000000000000000000000000000, 0x80000000000000000000000000000000,
    0x80000000000000000000000000000000, 0x80000000000000000000000000000000,
    0x80000000000000000000000000000000, 0x80000000000000000000000000000000,
    0x80000000000000000000000000000000, 0x80000000000000000000000000000000,
    0x80000000000000000000000000000000, 0x80000000000000000000000000000000,
    0x80000000000000000000000000000000, 0x80000000000000000000000000000000,
    0x80000000000000000000000000000000, 0x80000000000000000000000000000000,
    0x80000000000000000000000000000000, 0x80000000000000000000000000000000,
    0x80000000000000000000000000000000, 0x80000000000000000000000000000000,
    0x80000000000000000000000000000000, 0x80000000000000000000000000000000,
    0x80000000000000000000000000000000, 0x80000000000000000000000000000000,
    0x80000000000000000000000000000000, 0x80000000000000000000000000000000,
    0x80000000000000000000000000000000,
];
/// Binary exponents matching `BASE8_SMALL_MANTISSA`.
pub const BASE8_SMALL_EXPONENT: [i32; 43] = [
    -127, -124, -121, -118, -115, -112, -109, -106, -103, -100, -97, -94,
    -91, -88, -85, -82, -79, -76, -73, -70, -67, -64, -61, -58,
    -55, -52, -49, -46, -43, -40, -37, -34, -31, -28, -25, -22,
    -19, -16, -13, -10, -7, -4, -1,
];
/// Normalized mantissas of every `step`-th power of 8.
pub const BASE8_LARGE_MANTISSA: [u128; 19] = [
    0x80000000000000000000000000000000, 0x80000000000000000000000000000000,
    0x80000000000000000000000000000000, 0x80000000000000000000000000000000,
    0x80000000000000000000000000000000, 0x80000000000000000000000000000000,
    0x80000000000000000000000000000000, 0x80000000000000000000000000000000,
    0x80000000000000000000000000000000, 0x80000000000000000000000000000000,
    0x80000000000000000000000000000000, 0x80000000000000000000000000000000,
    0x80000000000000000000000000000000, 0x80000000000000000000000000000000,
    0x80000000000000000000000000000000, 0x80000000000000000000000000000000,
    0x80000000000000000000000000000000, 0x80000000000000000000000000000000,
    0x80000000000000000000000000000000,
];
/// Binary exponents matching `BASE8_LARGE_MANTISSA`.
pub const BASE8_LARGE_EXPONENT: [i32; 19] = [
    -1288, -1159, -1030, -901, -772, -643, -514, -385, -256, -127, 2, 131,
    260, 389, 518, 647, 776, 905, 1034,
];
/// Exact integer values of the low powers of 8.
pub const BASE8_SMALL_INT_POWERS: [u128; 43] = [
    0x1, 0x8,
    0x40, 0x200,
    0x1000, 0x8000,
    0x40000, 0x200000,
    0x1000000, 0x8000000,
    0x40000000, 0x200000000,
    0x1000000000, 0x8000000000,
    0x40000000000, 0x200000000000,
    0x1000000000000, 0x8000000000000,
    0x40000000000000, 0x200000000000000,
    0x1000000000000000, 0x8000000000000000,
    0x40000000000000000, 0x200000000000000000,
    0x1000000000000000000, 0x8000000000000000000,
    0x40000000000000000000, 0x200000000000000000000,
    0x1000000000000000000000, 0x8000000000000000000000,
    0x40000000000000000000000, 0x200000000000000000000000,
    0x1000000000000000000000000, 0x8000000000000000000000000,
    0x40000000000000000000000000, 0x200000000000000000000000000,
    0x1000000000000000000000000000, 0x8000000000000000000000000000,
    0x40000000000000000000000000000, 0x200000000000000000000000000000,
    0x1000000000000000000000000000000, 0x8000000000000000000000000000000,
    0x40000000000000000000000000000000,
];

/// Normalized mantissas of the low powers of 9, 128 bits wide.
pub const BASE9_SMALL_MANTISSA: [u128; 41] = [
    0x80000000000000000000000000000000, 0x90000000000000000000000000000000,
    0xa2000000000000000000000000000000, 0xb6400000000000000000000000000000,
    0xcd080000000000000000000000000000, 0xe6a90000000000000000000000000000,
    0x81bf1000000000000000000000000000, 0x91f6f200000000000000000000000000,
    0xa435d040000000000000000000000000, 0xb8bc8a48000000000000000000000000,
    0xcfd41b91000000000000000000000000, 0xe9ce9f03200000000000000000000000,
    0x83843971c20000000000000000000000, 0x93f4c09ffa4000000000000000000000,
    0xa67358b3f98800000000000000000000, 0xbb41c3ca78b900000000000000000000,
    0xd2a9fc43c7d020000000000000000000, 0xecff3bcc40ca24000000000000000000,
    0x854f91a2e471b4400000000000000000, 0x95f983d740ffeac80000000000000000,
    0xa8b8b452291fe8210000000000000000, 0xbdcfcadc6e43e5252000000000000000,
    0xd589c437fc0c61c9c400000000000000, 0xf03afcbefb8dee02fc80000000000000,
    0x87212e2b6d7fd5e1ae08000000000000, 0x980553f0db2fd09de3c9000000000000,
    0xab05fe6ef695cab1a042200000000000, 0xc066be3cd5688407d44a640000000000,
    0xd873960470159488ced3b08000000000, 0xf38208c4fe184719e8ae269000000000,
    0x88f924eeceeda7fe92e1f5b100000000, 0x9a18498ca8cb5cfe653e346720000000,
    0xad5b52be3de4c89e31e5faf404000000, 0xc306bd1605a161b1f822ba5284800000,
    0xdb6794b8c6558de83727119cd5100000, 0xf6d4874fdf203fa53e0bf3d06fb20000,
    0x8ad78c1ced8223ccf2e6b9253ed42000, 0x9c327da08b32684691439049e6aea400,
    0xafb8cd549c98b54f636c025323847880, 0xc5afe6ff302bcbf94fd9829d87f50790,
    0xde65e3df1631457879d4b2f138f3a882,
];
/// Binary exponents matching `BASE9_SMALL_MANTISSA`.
pub const BASE9_SMALL_EXPONENT: [i32; 41] = [
    -127, -124, -121, -118, -115, -112, -108, -105, -102, -99, -96, -93,
    -89, -86, -83, -80, -77, -74, -70, -67, -64, -61, -58, -55,
    -51, -48, -45, -42, -39, -36, -32, -29, -26, -23, -20, -17,
    -13, -10, -7, -4, -1,
];
/// Normalized mantissas of every `step`-th power of 9.
pub const BASE9_LARGE_MANTISSA: [u128; 19] = [
    0x9d5529df924f269fd190a1c76c196a56, 0x99c44813a5aae4a7667be590f901fd08,
    0x9648170a9537a17dd9690ff7b73e0dd5, 0x92e01eb74baf4618567df7ada8d75c3d,
    0x8f8be9c5448a619fcccbbb2e7e42f03c, 0x8c4b0588c25c48c7a63829c3dd8c7b0a,
    0x891d01ef60c9c6c3eb67bd4244d9c1f1, 0x860171710006de06b0b455624cf23cf6,
    0x82f7e90107d422db6fd025813de8dd5f, 0x80000000000000000000000000000000,
    0xfa32a05af8f76e27890f494f60121d92, 0xf486eb34b63e5b5588ee98d97e45c629,
    0xeefc1d36a2832b0e2660d94e5637f561, 0xe99177778eaf78d3b1530a5a46aa19ce,
    0xe4463f6201a69f10d3d889cd18f62f74, 0xdf19be9b1d1142c5c17947169cecd2d2,
    0xda0b42ea13d50fc3db73d96a52f2c943, 0xd51a1e202eeb6b3551964ee560e4f19a,
    0xd045a6015d5d0a6504612fe1f19b41b7,
];
/// Binary exponents matching `BASE9_LARGE_MANTISSA`.
pub const BASE9_LARGE_EXPONENT: [i32; 19] = [
    -1297, -1167, -1037, -907, -777, -647, -517, -387, -257, -127, 2, 132,
    262, 392, 522, 652, 782, 912, 1042,
];
/// Exact integer values of the low powers of 9.
pub const BASE9_SMALL_INT_POWERS: [u128; 41] = [
    0x1, 0x9,
    0x51, 0x2d9,
    0x19a1, 0xe6a9,
    0x81bf1, 0x48fb79,
    0x290d741, 0x17179149,
    0xcfd41b91, 0x74e74f819,
    0x41c21cb8e1, 0x24fd3027fe9,
    0x14ce6b167f31, 0xbb41c3ca78b9,
    0x6954fe21e3e81, 0x3b3fcef3103289,
    0x2153e468b91c6d1, 0x12bf307ae81ffd59,
    0xa8b8b452291fe821, 0x5ee7e56e3721f2929,
    0x3562710dff03187271, 0x1e075f97df71bdc05f9,
    0x10e425c56daffabc35c1, 0x980553f0db2fd09de3c9,
    0x5582ff377b4ae558d0211, 0x3019af8f355a2101f51299,
    0x1b0e72c08e02b29119da761, 0xf38208c4fe184719e8ae269,
    0x88f924eeceeda7fe92e1f5b1, 0x4d0c24c65465ae7f329f1a339,
    0x2b56d4af8f7932278c797ebd01, 0x1860d7a2c0b42c363f04574a509,
    0xdb6794b8c6558de83727119cd51, 0x7b6a43a7ef901fd29f05f9e837d9,
    0x456bc60e76c111e679735c929f6a1, 0x270c9f6822cc9a11a450e41279aba9,
    0x15f719aa939316a9ec6d804a64708f1, 0xc5afe6ff302bcbf94fd9829d87f5079,
    0x6f32f1ef8b18a2bc3cea59789c79d441,
];

/// Normalized mantissas of the low powers of 10, 128 bits wide.
pub const BASE10_SMALL_MANTISSA: [u128; 39] = [
    0x80000000000000000000000000000000, 0xa0000000000000000000000000000000,
    0xc8000000000000000000000000000000, 0xfa000000000000000000000000000000,
    0x9c400000000000000000000000000000, 0xc3500000000000000000000000000000,
    0xf4240000000000000000000000000000, 0x98968000000000000000000000000000,
    0xbebc2000000000000000000000000000, 0xee6b2800000000000000000000000000,
    0x9502f900000000000000000000000000, 0xba43b740000000000000000000000000,
    0xe8d4a510000000000000000000000000, 0x9184e72a000000000000000000000000,
    0xb5e620f4800000000000000000000000, 0xe35fa931a00000000000000000000000,
    0x8e1bc9bf040000000000000000000000, 0xb1a2bc2ec50000000000000000000000,
    0xde0b6b3a764000000000000000000000, 0x8ac7230489e800000000000000000000,
    0xad78ebc5ac6200000000000000000000, 0xd8d726b7177a80000000000000000000,
    0x878678326eac90000000000000000000, 0xa968163f0a57b4000000000000000000,
    0xd3c21bcecceda1000000000000000000, 0x84595161401484a00000000000000000,
    0xa56fa5b99019a5c80000000000000000, 0xcecb8f27f4200f3a0000000000000000,
    0x813f3978f89409844000000000000000, 0xa18f07d736b90be55000000000000000,
    0xc9f2c9cd04674edea400000000000000, 0xfc6f7c40458122964d00000000000000,
    0x9dc5ada82b70b59df020000000000000, 0xc5371912364ce3056c28000000000000,
    0xf684df56c3e01bc6c732000000000000, 0x9a130b963a6c115c3c7f400000000000,
    0xc097ce7bc90715b34b9f100000000000, 0xf0bdc21abb48db201e86d40000000000,
    0x96769950b50d88f41314448000000000,
];
/// Binary exponents matching `BASE10_SMALL_MANTISSA`.
pub const BASE10_SMALL_EXPONENT: [i32; 39] = [
    -127, -124, -121, -118, -114, -111, -108, -104, -101, -98, -94, -91,
    -88, -84, -81, -78, -74, -71, -68, -64, -61, -58, -54, -51,
    -48, -44, -41, -38, -34, -31, -28, -25, -21, -18, -15, -11,
    -8, -5, -1,
];
/// Normalized mantissas of every `step`-th power of 10.
pub const BASE10_LARGE_MANTISSA: [u128; 19] = [
    0x8049a4ac0c5811ae205b896d777d6279, 0xbc807527ed3e12bcc605083704f5ecf2,
    0x8a7d3eef7f1cfc52482835ea666b2572, 0xcb7ddcdda26da268a9942f5dcf7dfd0a,
    0x9580869f0e7aac0ed45d35e6ae3d4da1, 0xdbac6c247d62a583df45f746b74abf39,
    0xa163ff802a3426a8ca07c2dcb0cf26f8, 0xed246723473e3813290123e9aab23b69,
    0xae397d8aa96c1b77abec975e0a0d081b, 0x80000000000000000000000000000000,
    0xbc143fa4e250eb3117d955a000000000, 0x8a2dbf142dfcc7ab6e3569326c784337,
    0xcb090c8001ab551c5cadf5bfd3072cc5, 0x952ab45cfa97a0b2dd945a747bf26184,
    0xdb2e51bfe9d0696a06997b05fcc0319f, 0xa1075a24e4421730b24cf65b8612f820,
    0xec9c459d51852ba2ddf8e7d60ed1219f, 0xadd57a27d29339f679c5db9af1f9b563,
    0xff6d0b34928011509798278aea58efff,
];
/// Binary exponents matching `BASE10_LARGE_MANTISSA`.
pub const BASE10_LARGE_EXPONENT: [i32; 19] = [
    -1293, -1164, -1034, -905, -775, -646, -516, -387, -257, -127, 2, 132,
    261, 391, 520, 650, 779, 909, 1038,
];
/// Exact integer values of the low powers of 10.
pub const BASE10_SMALL_INT_POWERS: [u128; 39] = [
    0x1, 0xa,
    0x64, 0x3e8,
    0x2710, 0x186a0,
    0xf4240, 0x989680,
    0x5f5e100, 0x3b9aca00,
    0x2540be400, 0x174876e800,
    0xe8d4a51000, 0x9184e72a000,
    0x5af3107a4000, 0x38d7ea4c68000,
    0x2386f26fc10000, 0x16345785d8a0000,
    0xde0b6b3a7640000, 0x8ac7230489e80000,
    0x56bc75e2d63100000, 0x3635c9adc5dea00000,
    0x21e19e0c9bab2400000, 0x152d02c7e14af6800000,
    0xd3c21bcecceda1000000, 0x84595161401484a000000,
    0x52b7d2dcc80cd2e4000000, 0x33b2e3c9fd0803ce8000000,
    0x204fce5e3e25026110000000, 0x1431e0fae6d7217caa0000000,
    0xc9f2c9cd04674edea40000000, 0x7e37be2022c0914b2680000000,
    0x4ee2d6d415b85acef8100000000, 0x314dc6448d9338c15b0a00000000,
    0x1ed09bead87c0378d8e6400000000, 0x13426172c74d822b878fe800000000,
    0xc097ce7bc90715b34b9f1000000000, 0x785ee10d5da46d900f436a000000000,
    0x4b3b4ca85a86c47a098a224000000000,
];

/// Normalized mantissas of the low powers of 11, 128 bits wide.
pub const BASE11_SMALL_MANTISSA: [u128; 38] = [
    0x80000000000000000000000000000000, 0xb0000000000000000000000000000000,
    0xf2000000000000000000000000000000, 0xa6600000000000000000000000000000,
    0xe4c40000000000000000000000000000, 0x9d46c000000000000000000000000000,
    0xd8414800000000000000000000000000, 0x94ace180000000000000000000000000,
    0xcc6db610000000000000000000000000, 0x8c8b6d2b000000000000000000000000,
    0xc13fb61b200000000000000000000000, 0x84dbcd32a60000000000000000000000,
    0xb6ae3a25a44000000000000000000000, 0xfb2f8ff3c1d800000000000000000000,
    0xacb0b2f7954480000000000000000000, 0xed72f6146d3e30000000000000000000,
    0xa33f092e0b1ac1000000000000000000, 0xe076ac9f4f44c9600000000000000000,
    0x9a5196ad867f4a720000000000000000, 0xd4302f2e98ef065cc000000000000000,
    0x91e120700924545fc400000000000000, 0xc8958c9a0c91f403ad80000000000000,
    0x89e6d0a9e8a457c28748000000000000, 0xbd9d5ee99fe1f8ab7a03000000000000,
    0x825c31409deb5af5e3e2100000000000, 0xb33ec3b8d9239d121956d60000000000,
    0xf6764d1e2a90f7f8e2d7664000000000, 0xa9715504bd43aa7b1bf4164c00000000,
    0xe8fbd4e6843d0a69466f9ea880000000, 0xa02d225e7ae9f728606cbd13d8000000,
    0xdc3e0f41e901b3d7849583fb49000000, 0x976aaa7d50312ba42b26cabcc2300000,
    0xd032aa6c4e439c01bb5556c38b020000, 0x8f22d52a75ce7b4130caaba66f916000,
    0xc4cfe51a61fbe979a316ac04d967e400, 0x874eed82235d3083a01f964355776cc0,
    0xba0c8692f0a022b4fc2b6e9c95843588, 0xffd1390a0adc2fb8dabbb8174d95c99b,
];
/// Binary exponents matching `BASE11_SMALL_MANTISSA`.
pub const BASE11_SMALL_EXPONENT: [i32; 38] = [
    -127, -124, -121, -117, -114, -110, -107, -103, -100, -96, -93, -89,
    -86, -83, -79, -76, -72, -69, -65, -62, -58, -55, -51, -48,
    -44, -41, -38, -34, -31, -27, -24, -20, -17, -13, -10, -6,
    -3, 0,
];
/// Normalized mantissas of every `step`-th power of 11.
pub const BASE11_LARGE_MANTISSA: [u128; 19] = [
    0xeaa73932891d4b1e5c5a53900f4a5503, 0xa1357d09233a49c36e3d3e13f37eb525,
    0xdd810b2f52300aba22379a0e518c08f1, 0x982ce444f94b4507bdbbd04c4a68c371,
    0xd1177e28aa8a522103050b956fcb0703, 0x8fa5e27c44f794448a58c4b110a40e64,
    0xc560002cbaf643e89d49e447bd72fa3b, 0x879934acafa079d18992543b521971dd,
    0xba5096eb5d489c073fedd22c61981386, 0x80000000000000000000000000000000,
    0xafdfd736e77760cf16610e900556fa9b, 0xf1a797eb6e1379cd8b460cab3a486967,
    0xa604dcfedac3e2b5930869ea9b575abf, 0xe41cf9c0d491dd1c2b2c711132d67406,
    0x9cb743bda2670781b1fdf3949506e160, 0xd7549d6454e7cbb42b57554c66a9f11c,
    0x93ef1f52ef2aa46bce102a26e379e966, 0xcb43a027107b0085d67efaaf75525587,
    0x8ba4f54499d8d6663522d5b7c10908f7,
];
/// Binary exponents matching `BASE11_LARGE_MANTISSA`.
pub const BASE11_LARGE_EXPONENT: [i32; 19] = [
    -1311, -1179, -1048, -916, -785, -653, -522, -390, -259, -127, 4, 135,
    267, 398, 530, 661, 793, 924, 1056,
];
/// Exact integer values of the low powers of 11.
pub const BASE11_SMALL_INT_POWERS: [u128; 38] = [
    0x1, 0xb,
    0x79, 0x533,
    0x3931, 0x2751b,
    0x1b0829, 0x12959c3,
    0xcc6db61, 0x8c8b6d2b,
    0x609fdb0d9, 0x426de69953,
    0x2dab8e89691, 0x1f65f1fe783b,
    0x1596165ef2a89, 0xed72f6146d3e3,
    0xa33f092e0b1ac1, 0x703b564fa7a264b,
    0x4d28cb56c33fa539, 0x350c0bcba63bc1973,
    0x2478481c02491517f1, 0x1912b19341923e8075b,
    0x113cda153d148af850e9, 0xbd9d5ee99fe1f8ab7a03,
    0x825c31409deb5af5e3e21, 0x599f61dc6c91ce890cab6b,
    0x3d9d93478aa43dfe38b5d99, 0x2a5c55412f50ea9ec6fd0593,
    0x1d1f7a9cd087a14d28cdf3d51, 0x1405a44bcf5d3ee50c0d97a27b,
    0xdc3e0f41e901b3d7849583fb49, 0x976aaa7d50312ba42b26cabcc23,
    0x681955362721ce00ddaaab61c581, 0x47916a953ae73da0986555d337c8b,
    0x3133f946987efa5e68c5ab013659f9, 0x21d3bb6088d74c20e807e590d55ddb3,
    0x174190d25e1404569f856dd392b086b1, 0xffd1390a0adc2fb8dabbb8174d95c99b,
];

/// Normalized mantissas of the low powers of 12, 128 bits wide.
pub const BASE12_SMALL_MANTISSA: [u128; 36] = [
    0x80000000000000000000000000000000, 0xc0000000000000000000000000000000,
    0x90000000000000000000000000000000, 0xd8000000000000000000000000000000,
    0xa2000000000000000000000000000000, 0xf3000000000000000000000000000000,
    0xb6400000000000000000000000000000, 0x88b00000000000000000000000000000,
    0xcd080000000000000000000000000000, 0x99c60000000000000000000000000000,
    0xe6a90000000000000000000000000000, 0xacfec000000000000000000000000000,
    0x81bf1000000000000000000000000000, 0xc29e9800000000000000000000000000,
    0x91f6f200000000000000000000000000, 0xdaf26b00000000000000000000000000,
    0xa435d040000000000000000000000000, 0xf650b860000000000000000000000000,
    0xb8bc8a48000000000000000000000000, 0x8a8d67b6000000000000000000000000,
    0xcfd41b91000000000000000000000000, 0x9bdf14acc00000000000000000000000,
    0xe9ce9f03200000000000000000000000, 0xaf5af742580000000000000000000000,
    0x83843971c20000000000000000000000, 0xc546562aa30000000000000000000000,
    0x93f4c09ffa4000000000000000000000, 0xddef20eff76000000000000000000000,
    0xa67358b3f98800000000000000000000, 0xf9ad050df64c00000000000000000000,
    0xbb41c3ca78b900000000000000000000, 0x8c7152d7da8ac0000000000000000000,
    0xd2a9fc43c7d020000000000000000000, 0x9dff7d32d5dc18000000000000000000,
    0xecff3bcc40ca24000000000000000000, 0xb1bf6cd930979b000000000000000000,
];
/// Binary exponents matching `BASE12_SMALL_MANTISSA`.
pub const BASE12_SMALL_EXPONENT: [i32; 36] = [
    -127, -124, -120, -117, -113, -110, -106, -102, -99, -95, -92, -88,
    -84, -81, -77, -74, -70, -67, -63, -59, -56, -52, -49, -45,
    -41, -38, -34, -31, -27, -24, -20, -16, -13, -9, -6, -2,
];
/// Normalized mantissas of every `step`-th power of 12.
pub const BASE12_LARGE_MANTISSA: [u128; 19] = [
    0xb18ef30115fccc1cae5f14dbe465cbb8, 0xb8ece8bf009b617a3d5ff8658659ec2e,
    0xc0991e75d20d07bf45bfb8b9cb1d8234, 0xc896d349c70107ce835a4cf56a2236c1,
    0xd0e968db308bb988c43ba16abafd959d, 0xd99464b4bcc37e720775399c998aa560,
    0xe29b71c8f1e56f673264fe9c8b541b26, 0xec0261ff7d6d84b852a3a435bfe22b3b,
    0xf5cd2fd2ff408df3348de7bd6100273d, 0x80000000000000000000000000000000,
    0x854f91a2e471b4400000000000000000, 0x8ad78c1ced8223ccf2e6b9253ed42000,
    0x909a469765f53090d38d5a7231073a03, 0x969a3117aaadcc788035ec34f85a169b,
    0x9cd9d587377f4eabee3a87f511c2c45c, 0xa35bd8c6a8a34dd9c54edb08d836b558,
    0xaa22fbcc2531e166d2d272b404e15670, 0xb1321ccdabce2c7bb90b33eff2ac863c,
    0xb88c3877bfc05f77db1ed8c5bfbc2108,
];
/// Binary exponents matching `BASE12_LARGE_MANTISSA`.
pub const BASE12_LARGE_EXPONENT: [i32; 19] = [
    -1289, -1160, -1031, -902, -773, -644, -515, -386, -257, -127, 2, 131,
    260, 389, 518, 647, 776, 905, 1034,
];
/// Exact integer values of the low powers of 12.
pub const BASE12_SMALL_INT_POWERS: [u128; 36] = [
    0x1, 0xc,
    0x90, 0x6c0,
    0x5100, 0x3cc00,
    0x2d9000, 0x222c000,
    0x19a10000, 0x1338c0000,
    0xe6a900000, 0xacfec00000,
    0x81bf1000000, 0x614f4c000000,
    0x48fb790000000, 0x36bc9ac0000000,
    0x290d74100000000, 0x1eca170c00000000,
    0x17179149000000000, 0x1151acf6c000000000,
    0xcfd41b910000000000, 0x9bdf14acc0000000000,
    0x74e74f81900000000000, 0x57ad7ba12c00000000000,
    0x41c21cb8e1000000000000, 0x3151958aa8c000000000000,
    0x24fd3027fe90000000000000, 0x1bbde41dfeec0000000000000,
    0x14ce6b167f3100000000000000, 0xf9ad050df64c00000000000000,
    0xbb41c3ca78b9000000000000000, 0x8c7152d7da8ac000000000000000,
    0x6954fe21e3e810000000000000000, 0x4effbe996aee0c0000000000000000,
    0x3b3fcef310328900000000000000000, 0x2c6fdb364c25e6c00000000000000000,
];

/// Normalized mantissas of the low powers of 13, 128 bits wide.
pub const BASE13_SMALL_MANTISSA: [u128; 35] = [
    0x80000000000000000000000000000000, 0xd0000000000000000000000000000000,
    0xa9000000000000000000000000000000, 0x89500000000000000000000000000000,
    0xdf220000000000000000000000000000, 0xb54ba000000000000000000000000000,
    0x934d7200000000000000000000000000, 0xef5dd940000000000000000000000000,
    0xc27c4084000000000000000000000000, 0x9e04f46b400000000000000000000000,
    0x80640697240000000000000000000000, 0xd0a28ab59a8000000000000000000000,
    0xa98410b38d8800000000000000000000, 0x89bb4d91e2fe80000000000000000000,
    0xdfd05e0d10dd90000000000000000000, 0xb5d94c6a9db405000000000000000000,
    0x93c08e16a02244100000000000000000, 0xf018e6e4c437ae9a0000000000000000,
    0xc3143b99df6d3ddd2000000000000000, 0x9e80706d0588c243aa00000000000000,
    0x80c85b58947f1dd6fa20000000000000, 0xd145946ff14e907d5674000000000000,
    0xaa08889af40fd565d63e400000000000, 0x8a26eefde64cdd62be12940000000000,
    0xe07f445c963ce7c074de308000000000, 0xb667678b3a117c4c5ef4876800000000,
    0x943404211f2e34fe0d26ae0480000000, 0xf0d486b5d2ab161cd55edac750000000,
    0xc3acad73bb2b01f76d5d11c1f1000000, 0x9efc4cee0812f19908db9e6d93d00000,
    0x812cfe81668f644c573270b908190000, 0xd1e91d9246a902fc0db1f72cad28a000,
    0xaa8d6806d969526ccb2098d44cb10200, 0x8a92e48590a592f8650a7c2c7e4fd1a0,
    0xe12eb3590b0d0ed3a43109c84d41b4a4,
];
/// Binary exponents matching `BASE13_SMALL_MANTISSA`.
pub const BASE13_SMALL_EXPONENT: [i32; 35] = [
    -127, -124, -120, -116, -113, -109, -105, -102, -98, -94, -90, -87,
    -83, -79, -76, -72, -68, -65, -61, -57, -53, -50, -46, -42,
    -39, -35, -31, -28, -24, -20, -16, -13, -9, -5, -2,
];
/// Normalized mantissas of every `step`-th power of 13.
pub const BASE13_LARGE_MANTISSA: [u128; 19] = [
    0xa472b89848a83f7364b5cddcb31ed992, 0xeb0f189ab193376b28e3c7240e212071,
    0xa7fe8ee301013820d3b0eba8d8d3049b, 0xf020bda77faa6292ed6c82eff9eb2695,
    0xab9df8e65399a341e94bbc8f9ad52541, 0xf54e5e5c80be8994b1659e21a016e178,
    0xaf5162b57e7aa85873810a1b6facd30a, 0xfa989534b9f14fb9e1ac233b52cd6f7d,
    0xb3193ab860e3289dc9f1670d330b446b, 0x80000000000000000000000000000000,
    0xb6f5f1b858fa9c0bf567d7f2bec562c5, 0x82c29ffaad9b41d790cf75ac26f08d50,
    0xbae7faed688ad188a1045bfd28669fa9, 0x85947ce2e8744e9a3d1783ffbf0bdc0e,
    0xbeefcc0ba248acf44355995539a559cb, 0x8875ead7ca50ef5a8b84d2861cf25221,
    0xc30ddd50e13c727d9738d4c6ea45784e, 0x8b673fc8d1a474ee24c89253c880bf6a,
    0xc742a992cbe2d1e4eceb8843c750914b,
];
/// Binary exponents matching `BASE13_LARGE_MANTISSA`.
pub const BASE13_LARGE_EXPONENT: [i32; 19] = [
    -1293, -1164, -1034, -905, -775, -646, -516, -387, -257, -127, 2, 132,
    261, 391, 520, 650, 779, 909, 1038,
];
/// Exact integer values of the low powers of 13.
pub const BASE13_SMALL_INT_POWERS: [u128; 35] = [
    0x1, 0xd,
    0xa9, 0x895,
    0x6f91, 0x5aa5d,
    0x49a6b9, 0x3bd7765,
    0x309f1021, 0x27813d1ad,
    0x201901a5c9, 0x1a145156b35,
    0x1530821671b1, 0x113769b23c5fd,
    0xdfd05e0d10dd9, 0xb5d94c6a9db405,
    0x93c08e16a022441, 0x780c7372621bd74d,
    0x618a1dccefb69eee9, 0x4f40383682c46121d5,
    0x40642dac4a3f8eeb7d1, 0x3451651bfc53a41f559d,
    0x2a822226bd03f559758f9, 0x2289bbbf79933758af84a5,
    0x1c0fe88b92c79cf80e9bc61, 0x16ccecf167422f898bde90ed,
    0x1286808423e5c69fc1a4d5c09, 0xf0d486b5d2ab161cd55edac75,
    0xc3acad73bb2b01f76d5d11c1f1, 0x9efc4cee0812f19908db9e6d93d,
    0x812cfe81668f644c573270b90819, 0x68f48ec92354817e06d8fb9656945,
    0x5546b4036cb4a93665904c6a265881, 0x45497242c852c97c32853e163f27e8d,
    0x384bacd642c343b4e90c427213506d29,
];

/// Normalized mantissas of the low powers of 14, 128 bits wide.
pub const BASE14_SMALL_MANTISSA: [u128; 34] = [
    0x80000000000000000000000000000000, 0xe0000000000000000000000000000000,
    0xc4000000000000000000000000000000, 0xab800000000000000000000000000000,
    0x96100000000000000000000000000000, 0x834e0000000000000000000000000000,
    0xe5c88000000000000000000000000000, 0xc90f7000000000000000000000000000,
    0xafed8200000000000000000000000000, 0x99efd1c0000000000000000000000000,
    0x86b1d788000000000000000000000000, 0xebb7392e000000000000000000000000,
    0xce405208400000000000000000000000, 0xb47847c7380000000000000000000000,
    0x9de93ece510000000000000000000000, 0x8a2c16f486e000000000000000000000,
    0xf1cd282bec0800000000000000000000, 0xd39383266e8700000000000000000000,
    0xb92112c1a0b620000000000000000000, 0xa1fcf0696c9f5c000000000000000000,
    0x8dbd525c3f0b70800000000000000000, 0xf80b50216e5404e00000000000000000,
    0xd909e61d408984440000000000000000, 0xbde8a959987853bb8000000000000000,
    0xa62b942e656949441000000000000000, 0x916621a898bc201b8e00000000000000,
    0xfe72bae70b4938303880000000000000, 0xdea4638a29e0112a3170000000000000,
    0xc2cfd718e4a40f04eb42000000000000, 0xaa75dc35c80f8d244dd9c00000000000,
    0x952720af0f0d9b7fc41e880000000000, 0x82823c992d2be80fcb9ab70000000000,
    0xe463ea0c0f0cd61ba44ec04000000000, 0xc7d76cca8d2b3b582fc4e83800000000,
];
/// Binary exponents matching `BASE14_SMALL_MANTISSA`.
pub const BASE14_SMALL_EXPONENT: [i32; 34] = [
    -127, -124, -120, -116, -112, -108, -105, -101, -97, -93, -89, -86,
    -82, -78, -74, -70, -67, -63, -59, -55, -51, -48, -44, -40,
    -36, -32, -29, -25, -21, -17, -13, -9, -6, -2,
];
/// Normalized mantissas of every `step`-th power of 14.
pub const BASE14_LARGE_MANTISSA: [u128; 19] = [
    0xf72d03038b7ab03d802eae0c16b8fff0, 0xa8d57d89dd6e2dcc4a640a53ef1c3204,
    0xe6a50d5bf0c221553e8c7f82e9d68834, 0x9d8ad784357fa149d1306141f6d18e06,
    0xd73820267e33d6c051f19bf9767fdb05, 0x93018504069762395c1ce54705643b61,
    0xc8d34d8224cc6e147884c6f73f437b6a, 0x892c980c8371a78f71a2673865bfffef,
    0xbb64eba559e903dd805ee2a2a41e6c50, 0x80000000000000000000000000000000,
    0xaedc7f313b85d3ed29cc4b3100000000, 0xeee0f5a3917439428791e67f80539c9c,
    0xa32aa6f7cfe3e180f532dfb32d54d854, 0xdee70e6aec6522c6eabfa7bfa7647080,
    0x9841091c8ec4792e9553d38a86a23e42, 0xcffeaf7591e572dd2323e7dde55807a6,
    0x8e1241780b5aac13a0e4162184c28f5d, 0xc2158d8c77c5e5596ff93b4bb5c234d5,
    0x8491d1292298a4bf7783e27001f3261c,
];
/// Binary exponents matching `BASE14_LARGE_MANTISSA`.
pub const BASE14_LARGE_EXPONENT: [i32; 19] = [
    -1293, -1163, -1034, -904, -775, -645, -516, -386, -257, -127, 2, 131,
    261, 390, 520, 649, 779, 908, 1038,
];
/// Exact integer values of the low powers of 14.
pub const BASE14_SMALL_INT_POWERS: [u128; 34] = [
    0x1, 0xe,
    0xc4, 0xab8,
    0x9610, 0x834e0,
    0x72e440, 0x6487b80,
    0x57f6c100, 0x4cf7e8e00,
    0x4358ebc400, 0x3aedce4b800,
    0x339014821000, 0x2d1e11f1ce000,
    0x277a4fb3944000, 0x228b05bd21b8000,
    0x1e39a5057d810000, 0x1a727064cdd0e0000,
    0x172422583416c40000, 0x143f9e0d2d93eb80000,
    0x11b7aa4b87e16e100000, 0xf80b50216e5404e00000,
    0xd909e61d4089844400000, 0xbde8a959987853bb800000,
    0xa62b942e656949441000000, 0x916621a898bc201b8e000000,
    0x7f395d7385a49c181c4000000, 0x6f5231c514f0089518b8000000,
    0x6167eb8c7252078275a10000000, 0x553aee1ae407c69226ece0000000,
    0x4a9390578786cdbfe20f440000000, 0x41411e4c9695f407e5cd5b80000000,
    0x3918fa8303c33586e913b0100000000, 0x31f5db32a34aced60bf13a0e00000000,
];

/// Normalized mantissas of the low powers of 15, 128 bits wide.
pub const BASE15_SMALL_MANTISSA: [u128; 33] = [
    0x80000000000000000000000000000000, 0xf0000000000000000000000000000000,
    0xe1000000000000000000000000000000, 0xd2f00000000000000000000000000000,
    0xc5c10000000000000000000000000000, 0xb964f000000000000000000000000000,
    0xadcea100000000000000000000000000, 0xa2f1b6f0000000000000000000000000,
    0x98c29b81000000000000000000000000, 0x8f3671c8f00000000000000000000000,
    0x86430aac610000000000000000000000, 0xfbbdb40335e000000000000000000000,
    0xec01d8c3028200000000000000000000, 0xdd41bb36d259e0000000000000000000,
    0xcf6d9f83653442000000000000000000, 0xc276c58b2ee0fde00000000000000000,
    0xb64f59327bf2ee020000000000000000, 0xaaea639f5433bf21e000000000000000,
    0xa03bbd655ef0832fc200000000000000, 0x9638018f09017afcc5e0000000000000,
    0x8cd481761871634cf982000000000000, 0x8407395eb6ea4d1829e9e00000000000,
    0xf78d8b9196f7508d4e96840000000000, 0xe814b2d87d87db8479ad1bc000000000,
    0xd99367aaf5af5dcc32124a0400000000, 0xcbfa3130465467ef6ef12563c0000000,
    0xbf3a8e1d41ef21707802130d84000000, 0xb346e53b6dd02f597081f1dcabc00000,
    0xa81276e7b6f32c63d979d2bee1040000, 0x9d914f793b83f99d9be23592f2f3c000,
    0x93b83a81a7cbba03c2241239c3c48400, 0x8a7cb6d98d4efe638601d11627883bc0,
    0x81d4eb6bf47a0e7d4da1b404c50fb804,
];
/// Binary exponents matching `BASE15_SMALL_MANTISSA`.
pub const BASE15_SMALL_EXPONENT: [i32; 33] = [
    -127, -124, -120, -116, -112, -108, -104, -100, -96, -92, -88, -85,
    -81, -77, -73, -69, -65, -61, -57, -53, -49, -45, -42, -38,
    -34, -30, -26, -22, -18, -14, -10, -6, -2,
];
/// Normalized mantissas of every `step`-th power of 15.
pub const BASE15_LARGE_MANTISSA: [u128; 19] = [
    0xc957268c4e98fe2fb671232b7780fe86, 0xbf753388fec9e996986b700411a92029,
    0xb60f6ead10d2eec2eb93874433f6d66b, 0xad1fbf9461b4fe391d33ed9c0e47b612,
    0xa4a05a71f2d5e1edace822b104eac166, 0x9c8bbc4d83dd63790b209098611e4c2a,
    0x94dca77069a015725f785ec6d7a1975c, 0x8d8e1fff50841fccedd32bac6795c114,
    0x869b68beb5ef0a129cb92945bf38cd88, 0x80000000000000000000000000000000,
    0xf36f396a6a64db2af18f3188f17d7908, 0xe77c5752dd244b26c7299e9443136ce8,
    0xdc1f99b86df9a087aa16c67f61f63084, 0xd151a1fc412727e9de5a3b9d3df60402,
    0xc70b6e19de14ebfbaa8ea0986eb0f423, 0xbd46541b93fda6b0b529c91ff0a4990f,
    0xb3fbfdc7fbf197eaf3dce2da0c56f29f, 0xab266485ca826c76b4edb0cdabb2b6e5,
    0xa2bfcd7346a55823d14457910ce077e4,
];
/// Binary exponents matching `BASE15_LARGE_MANTISSA`.
pub const BASE15_LARGE_EXPONENT: [i32; 19] = [
    -1288, -1159, -1030, -901, -772, -643, -514, -385, -256, -127, 1, 130,
    259, 388, 517, 646, 775, 904, 1033,
];
/// Exact integer values of the low powers of 15.
pub const BASE15_SMALL_INT_POWERS: [u128; 33] = [
    0x1, 0xf,
    0xe1, 0xd2f,
    0xc5c1, 0xb964f,
    0xadcea1, 0xa2f1b6f,
    0x98c29b81, 0x8f3671c8f,
    0x86430aac61, 0x7ddeda019af,
    0x7600ec618141, 0x6ea0dd9b692cf,
    0x67b6cfc1b29a21, 0x613b62c597707ef,
    0x5b27ac993df97701, 0x557531cfaa19df90f,
    0x501ddeb2af784197e1, 0x4b1c00c78480bd7e62f,
    0x466a40bb0c38b1a67cc1, 0x42039caf5b75268c14f4f,
    0x3de362e465bdd42353a5a1, 0x3a052cb61f61f6e11e6b46f,
    0x3664d9eabd6bd7730c849281, 0x32fe8c4c119519fbdbbc4958f,
    0x2fcea387507bc85c1e0084c361, 0x2cd1b94edb740bd65c207c772af,
    0x2a049db9edbccb18f65e74afb841, 0x276453de4ee0fe6766f88d64bcbcf,
    0x24ee0ea069f2ee80f089048e70f121, 0x229f2db66353bf98e180744589e20ef,
    0x20753adafd1e839f53686d013143ee01,
];

/// Normalized mantissas of the low powers of 16, 128 bits wide.
pub const BASE16_SMALL_MANTISSA: [u128; 32] = [
    0x80000000000000000000000000000000, 0x80000000000000000000000000000000,
    0x80000000000000000000000000000000, 0x80000000000000000000000000000000,
    0x80000000000000000000000000000000, 0x80000000000000000000000000000000,
    0x80000000000000000000000000000000, 0x80000000000000000000000000000000,
    0x80000000000000000000000000000000, 0x80000000000000000000000000000000,
    0x80000000000000000000000000000000, 0x80000000000000000000000000000000,
    0x80000000000000000000000000000000, 0x80000000000000000000000000000000,
    0x80000000000000000000000000000000, 0x80000000000000000000000000000000,
    0x80000000000000000000000000000000, 0x80000000000000000000000000000000,
    0x80000000000000000000000000000000, 0x80000000000000000000000000000000,
    0x80000000000000000000000000000000, 0x80000000000000000000000000000000,
    0x80000000000000000000000000000000, 0x80000000000000000000000000000000,
    0x80000000000000000000000000000000, 0x80000000000000000000000000000000,
    0x80000000000000000000000000000000, 0x80000000000000000000000000000000,
    0x80000000000000000000000000000000, 0x80000000000000000000000000000000,
    0x80000000000000000000000000000000, 0x80000000000000000000000000000000,
];
/// Binary exponents matching `BASE16_SMALL_MANTISSA`.
pub const BASE16_SMALL_EXPONENT: [i32; 32] = [
    -127, -123, -119, -115, -111, -107, -103, -99, -95, -91, -87, -83,
    -79, -75, -71, -67, -63, -59, -55, -51, -47, -43, -39, -35,
    -31, -27, -23, -19, -15, -11, -7, -3,
];
/// Normalized mantissas of every `step`-th power of 16.
pub const BASE16_LARGE_MANTISSA: [u128; 19] = [
    0x80000000000000000000000000000000, 0x80000000000000000000000000000000,
    0x80000000000000000000000000000000, 0x80000000000000000000000000000000,
    0x80000000000000000000000000000000, 0x80000000000000000000000000000000,
    0x80000000000000000000000000000000, 0x80000000000000000000000000000000,
    0x80000000000000000000000000000000, 0x80000000000000000000000000000000,
    0x80000000000000000000000000000000, 0x80000000000000000000000000000000,
    0x80000000000000000000000000000000, 0x80000000000000000000000000000000,
    0x80000000000000000000000000000000, 0x80000000000000000000000000000000,
    0x80000000000000000000000000000000, 0x80000000000000000000000000000000,
    0x80000000000000000000000000000000,
];
/// Binary exponents matching `BASE16_LARGE_MANTISSA`.
pub const BASE16_LARGE_EXPONENT: [i32; 19] = [
    -1279, -1151, -1023, -895, -767, -639, -511, -383, -255, -127, 1, 129,
    257, 385, 513, 641, 769, 897, 1025,
];
/// Exact integer values of the low powers of 16.
pub const BASE16_SMALL_INT_POWERS: [u128; 32] = [
    0x1, 0x10,
    0x100, 0x1000,
    0x10000, 0x100000,
    0x1000000, 0x10000000,
    0x100000000, 0x1000000000,
    0x10000000000, 0x100000000000,
    0x1000000000000, 0x10000000000000,
    0x100000000000000, 0x1000000000000000,
    0x10000000000000000, 0x100000000000000000,
    0x1000000000000000000, 0x10000000000000000000,
    0x100000000000000000000, 0x1000000000000000000000,
    0x10000000000000000000000, 0x100000000000000000000000,
    0x1000000000000000000000000, 0x10000000000000000000000000,
    0x100000000000000000000000000, 0x1000000000000000000000000000,
    0x10000000000000000000000000000, 0x100000000000000000000000000000,
    0x1000000000000000000000000000000, 0x10000000000000000000000000000000,
];

/// Normalized mantissas of the low powers of 17, 128 bits wide.
pub const BASE17_SMALL_MANTISSA: [u128; 32] = [
    0x80000000000000000000000000000000, 0x88000000000000000000000000000000,
    0x90800000000000000000000000000000, 0x99880000000000000000000000000000,
    0xa3208000000000000000000000000000, 0xad528800000000000000000000000000,
    0xb827b080000000000000000000000000, 0xc3aa2b88000000000000000000000000,
    0xcfe4ce40800000000000000000000000, 0xdce31b24880000000000000000000000,
    0xeab14cd6d08000000000000000000000, 0xf95c61a43d8800000000000000000000,
    0x847913df40b040000000000000000000, 0x8cc0a51d34bb44000000000000000000,
    0x958caf6f0806f8400000000000000000, 0x9ee57a65f88767c40000000000000000,
    0xa8d3d20c580fde404000000000000000, 0xb3610f2d1d90dc244400000000000000,
    0xbe97201fef69e9e68840000000000000, 0xca809221ee608884f0c4000000000000,
    0xd7289b440d46910d3fd0400000000000, 0xe49b24f84e1afa1e13cd440000000000,
    0xf2e4d747d2fca9bff50a184000000000, 0x8109925e28163a2dfa2d5ce200000000,
    0x891a2b840a979dd0d9d032b020000000, 0x91abce3c4b4117ade76d35db22000000,
    0x9ac68b200ff52928c5e40938d4200000, 0xa472f3d210f47bbb524249cc61620000,
    0xaeba230f3203c37707666e6927782000, 0xb9a5c5402523ffae77dcd54fb9efa200,
    0xc540219427763fa95f5aa2a4b58e9c20, 0xd19423ad69eda3a3f5504ccf00e785e2,
];
/// Binary exponents matching `BASE17_SMALL_MANTISSA`.
pub const BASE17_SMALL_EXPONENT: [i32; 32] = [
    -127, -123, -119, -115, -111, -107, -103, -99, -95, -91, -87, -83,
    -78, -74, -70, -66, -62, -58, -54, -50, -46, -42, -38, -33,
    -29, -25, -21, -17, -13, -9, -5, -1,
];
/// Normalized mantissas of every `step`-th power of 17.
pub const BASE17_LARGE_MANTISSA: [u128; 19] = [
    0xe0852eb057d9b00c2231a63bc28fc33d, 0xc34b91ddb6148a24857397f856d99628,
    0xa9dfd04dd5009740c035f42f211117cd, 0x93c32682ae281e21bd32bd15a155a752,
    0x8087511865a4d1618d8b0305aa62f4b9, 0xdf98cddde7543344a189e97bd730f19e,
    0xc27df5cbb1a45eb1c6322a6f357f4775, 0xa92cf7b1e3ddedd6a8616e0f2fc4d7b6,
    0x93279587dff32f08ab04a5d457412448, 0x80000000000000000000000000000000,
    0xdead65e8408c7dde34a5519bf0f5fe40, 0xc1b13231b46bfdd36bdde54da3f64620,
    0xa87adb60a846450181b74cd2f18e3353, 0x928ca855649dc62e86a588279931f3d0,
    0xfef27abc83974b3ffd13b19933bff543, 0xddc2f5c961f643e53a21b4ed8d6176cd,
    0xc0e5462bd79c658d0b96e7befae8567b, 0xa7c97a93e5b46651c1ccc81394b6cc7c,
    0x91f25e3ecd668e9f698d0b574af6b77a,
];
/// Binary exponents matching `BASE17_LARGE_MANTISSA`.
pub const BASE17_LARGE_EXPONENT: [i32; 19] = [
    -1305, -1174, -1043, -912, -781, -651, -520, -389, -258, -127, 3, 134,
    265, 396, 526, 657, 788, 919, 1050,
];
/// Exact integer values of the low powers of 17.
pub const BASE17_SMALL_INT_POWERS: [u128; 32] = [
    0x1, 0x11,
    0x121, 0x1331,
    0x14641, 0x15aa51,
    0x1704f61, 0x18754571,
    0x19fc99c81, 0x1b9c636491,
    0x1d56299ada1, 0x1f2b8c3487b1,
    0x211e44f7d02c1, 0x233029474d2ed1,
    0x25632bdbc201be1, 0x27b95e997e21d9f1,
    0x2a34f4831603f7901, 0x2cd843cb4764370911,
    0x2fa5c807fbda7a79a21, 0x32a024887b9822213c31,
    0x35ca26d10351a4434ff41, 0x3926c93e1386be8784f351,
    0x3cb935d1f4bf2a6ffd42861, 0x4084c92f140b1d16fd16ae71,
    0x448d15c2054bcee86ce819581, 0x48d5e71e25a08bd6f3b69aed91,
    0x4d63459007fa949462f2049c6a1, 0x523979e9087a3ddda92124e630b1,
    0x575d11879901e1bb83b3373493bc1, 0x5cd2e2a01291ffd73bee6aa7dcf7d1,
    0x62a010ca13bb1fd4afad51525ac74e1, 0x68ca11d6b4f6d1d1faa826678073c2f1,
];

/// Normalized mantissas of the low powers of 18, 128 bits wide.
pub const BASE18_SMALL_MANTISSA: [u128; 31] = [
    0x80000000000000000000000000000000, 0x90000000000000000000000000000000,
    0xa2000000000000000000000000000000, 0xb6400000000000000000000000000000,
    0xcd080000000000000000000000000000, 0xe6a90000000000000000000000000000,
    0x81bf1000000000000000000000000000, 0x91f6f200000000000000000000000000,
    0xa435d040000000000000000000000000, 0xb8bc8a48000000000000000000000000,
    0xcfd41b91000000000000000000000000, 0xe9ce9f03200000000000000000000000,
    0x83843971c20000000000000000000000, 0x93f4c09ffa4000000000000000000000,
    0xa67358b3f98800000000000000000000, 0xbb41c3ca78b900000000000000000000,
    0xd2a9fc43c7d020000000000000000000, 0xecff3bcc40ca24000000000000000000,
    0x854f91a2e471b4400000000000000000, 0x95f983d740ffeac80000000000000000,
    0xa8b8b452291fe8210000000000000000, 0xbdcfcadc6e43e5252000000000000000,
    0xd589c437fc0c61c9c400000000000000, 0xf03afcbefb8dee02fc80000000000000,
    0x87212e2b6d7fd5e1ae08000000000000, 0x980553f0db2fd09de3c9000000000000,
    0xab05fe6ef695cab1a042200000000000, 0xc066be3cd5688407d44a640000000000,
    0xd873960470159488ced3b08000000000, 0xf38208c4fe184719e8ae269000000000,
    0x88f924eeceeda7fe92e1f5b100000000,
];
/// Binary exponents matching `BASE18_SMALL_MANTISSA`.
pub const BASE18_SMALL_EXPONENT: [i32; 31] = [
    -127, -123, -119, -115, -111, -107, -102, -98, -94, -90, -86, -82,
    -77, -73, -69, -65, -61, -57, -52, -48, -44, -40, -36, -32,
    -27, -23, -19, -15, -11, -7, -2,
];
/// Normalized mantissas of every `step`-th power of 18.
pub const BASE18_LARGE_MANTISSA: [u128; 19] = [
    0xc0cb8bdf630dc7b71ee7e22d6dd3e70b, 0xe819793aefb3002675b741dcb2512976,
    0x8bb557ff9c415985e305c7915e17ad10, 0xa830b026faafed3f18d8b43f34a20eb9,
    0xca7a7db4846caea2b68d0e08f2c6003b, 0xf3c1ca8d1dd87dce1446a5cb251158c9,
    0x92b9b40c12a4dacceabe128dae85da81, 0xb0a343bf6dfa7f6a73869c08ec4f686e,
    0xd4a5f19e3c5a328a37ed938fb1e0df25, 0x80000000000000000000000000000000,
    0x9a18498ca8cb5cfe653e346720000000, 0xb9827596352baf21148854993bc05816,
    0xdf5428870684c383ccb256946fc9d096, 0x866dd06ebb69c837f5967a3c107f7a06,
    0xa1d5a09aa87f3e1c2d7f3c39c6795708, 0xc2d3ba45dc620d014a66eadd6e262afe,
    0xea8bb3c1d2fa4bf17498889cf6a8df7a, 0x8d2e4a9e2864ec41246ebefc4f4ddd69,
    0xa9f67b93d19ddf1c322d08b0bf512d92,
];
/// Binary exponents matching `BASE18_LARGE_MANTISSA`.
pub const BASE18_LARGE_EXPONENT: [i32; 19] = [
    -1291, -1162, -1032, -903, -774, -645, -515, -386, -257, -127, 2, 131,
    260, 390, 519, 648, 777, 907, 1036,
];
/// Exact integer values of the low powers of 18.
pub const BASE18_SMALL_INT_POWERS: [u128; 31] = [
    0x1, 0x12,
    0x144, 0x16c8,
    0x19a10, 0x1cd520,
    0x206fc40, 0x247dbc80,
    0x290d74100, 0x2e2f229200,
    0x33f506e4400, 0x3a73a7c0c800,
    0x41c21cb8e1000, 0x49fa604ffd2000,
    0x5339ac59fcc4000, 0x5da0e1e53c5c8000,
    0x6954fe21e3e810000, 0x767f9de62065120000,
    0x854f91a2e471b440000, 0x95f983d740ffeac80000,
    0xa8b8b452291fe82100000, 0xbdcfcadc6e43e525200000,
    0xd589c437fc0c61c9c400000, 0xf03afcbefb8dee02fc800000,
    0x10e425c56daffabc35c1000000, 0x1300aa7e1b65fa13bc792000000,
    0x1560bfcdded2b956340844000000, 0x180cd7c79aad1080fa894c8000000,
    0x1b0e72c08e02b29119da7610000000, 0x1e7041189fc308e33d15c4d20000000,
    0x223e493bb3bb69ffa4b87d6c40000000,
];

/// Normalized mantissas of the low powers of 19, 128 bits wide.
pub const BASE19_SMALL_MANTISSA: [u128; 31] = [
    0x80000000000000000000000000000000, 0x98000000000000000000000000000000,
    0xb4800000000000000000000000000000, 0xd6580000000000000000000000000000,
    0xfe888000000000000000000000000000, 0x97210c00000000000000000000000000,
    0xb3773e40000000000000000000000000, 0xd51d99ec000000000000000000000000,
    0xfd1326c8400000000000000000000000, 0x96435f06e60000000000000000000000,
    0xb27000d8312000000000000000000000, 0xd3e50100ba5600000000000000000000,
    0xfb9ff130dd4620000000000000000000, 0x9566f7350361a3000000000000000000,
    0xb16a458ef403f1900000000000000000, 0xd2ae3299c1c4aedb0000000000000000,
    0xfa2edc1696198fa41000000000000000, 0x948bd2ad691f2d496980000000000000,
    0xb0660a2decd505c72d48000000000000, 0xd1792c16893cf6dc85c5800000000000,
    0xf8bfe45ac2f86525deda880000000000, 0x93b1ef95e3c37c0e7c51c0c000000000,
    0xaf634c81fe78235133a114e400000000, 0xd045eada5e2ea9f06d4f48cec0000000,
    0xf75306e34fd769cd81ce267584000000, 0x92d94c16f767e6d2051266d5c6600000,
    0xae620a5b45cb62196605da1ddb920000, 0xcf146c4c62e1847e2926f30374bd6000,
    0xf5e8409ab56bcd55d0de40941aa0e200, 0x9201e65bdbb801eaf403f657efcf8630,
    0xad62418d14ea824701c4b4886cc66f59,
];
/// Binary exponents matching `BASE19_SMALL_MANTISSA`.
pub const BASE19_SMALL_EXPONENT: [i32; 31] = [
    -127, -123, -119, -115, -111, -106, -102, -98, -94, -89, -85, -81,
    -77, -72, -68, -64, -60, -55, -51, -47, -43, -38, -34, -30,
    -26, -21, -17, -13, -9, -4, 0,
];
/// Normalized mantissas of every `step`-th power of 19.
pub const BASE19_LARGE_MANTISSA: [u128; 19] = [
    0xe34384df0bb2d18f87c5e772730a01b3, 0xb6c813dceafe354310b33bc368a68ea0,
    0x93017e38b21741cf59de8b7d4ab8c72a, 0xec77067730790649a9fd9fb3165471fa,
    0xbe2e8ac2b9b267f4179d7a8706e29c36, 0x98f527b716a570f226a9afd0abe4ab04,
    0xf609e606df603e6ab8ab4182c1c5c236, 0xc5e1b51835453cd4a6d6c87c556020b9,
    0x9f268169cdee08702f40a3121ae29a4e, 0x80000000000000000000000000000000,
    0xcde4add788d67ab452199662012ba43a, 0xa5980ab14f2042f85feda0564831d8c7,
    0x852eac6cacb59de506bd5ded4da6ef10, 0xd63ab02a85ffc34175ce566de2ec30c8,
    0xac4c5cd0fa0680be6b0b9adcad36c7ea, 0x8a930f56ad49fb15e2796dedc484643b,
    0xdee718b83dd084b67aa7a0155524a3d4, 0xb3462bfb6486d1a5d5282dddd57709bb,
    0x902f5574d6e0caf915a2efd48305d0ef,
];
/// Binary exponents matching `BASE19_LARGE_MANTISSA`.
pub const BASE19_LARGE_EXPONENT: [i32; 19] = [
    -1313, -1181, -1049, -918, -786, -654, -523, -391, -259, -127, 4, 136,
    268, 399, 531, 663, 794, 926, 1058,
];
/// Exact integer values of the low powers of 19.
pub const BASE19_SMALL_INT_POWERS: [u128; 31] = [
    0x1, 0x13,
    0x169, 0x1acb,
    0x1fd11, 0x25c843,
    0x2cddcf9, 0x3547667b,
    0x3f44c9b21, 0x4b21af8373,
    0x5938006c189, 0x69f280805d2b,
    0x7dcff8986ea31, 0x9566f7350361a3,
    0xb16a458ef403f19, 0xd2ae3299c1c4aedb,
    0xfa2edc1696198fa41, 0x12917a55ad23e5a92d3,
    0x160cc145bd9aa0b8e5a9, 0x1a2f2582d1279edb90b8b,
    0x1f17fc8b585f0ca4bbdb51, 0x24ec7be578f0df039f14703,
    0x2bd8d3207f9e08d44ce84539, 0x34117ab6978baa7c1b53d233b,
    0x3dd4c1b8d3f5da736073899d61, 0x496ca60b7bb3f3690289336ae33,
    0x5731052da2e5b10cb302ed0eedc9, 0x678a36263170c23f14937981ba5eb,
    0x7af4204d5ab5e6aae86f204a0d5071, 0x9201e65bdbb801eaf403f657efcf863,
    0xad62418d14ea824701c4b4886cc66f59,
];

/// Normalized mantissas of the low powers of 20, 128 bits wide.
pub const BASE20_SMALL_MANTISSA: [u128; 30] = [
    0x80000000000000000000000000000000, 0xa0000000000000000000000000000000,
    0xc8000000000000000000000000000000, 0xfa000000000000000000000000000000,
    0x9c400000000000000000000000000000, 0xc3500000000000000000000000000000,
    0xf4240000000000000000000000000000, 0x98968000000000000000000000000000,
    0xbebc2000000000000000000000000000, 0xee6b2800000000000000000000000000,
    0x9502f900000000000000000000000000, 0xba43b740000000000000000000000000,
    0xe8d4a510000000000000000000000000, 0x9184e72a000000000000000000000000,
    0xb5e620f4800000000000000000000000, 0xe35fa931a00000000000000000000000,
    0x8e1bc9bf040000000000000000000000, 0xb1a2bc2ec50000000000000000000000,
    0xde0b6b3a764000000000000000000000, 0x8ac7230489e800000000000000000000,
    0xad78ebc5ac6200000000000000000000, 0xd8d726b7177a80000000000000000000,
    0x878678326eac90000000000000000000, 0xa968163f0a57b4000000000000000000,
    0xd3c21bcecceda1000000000000000000, 0x84595161401484a00000000000000000,
    0xa56fa5b99019a5c80000000000000000, 0xcecb8f27f4200f3a0000000000000000,
    0x813f3978f89409844000000000000000, 0xa18f07d736b90be55000000000000000,
];
/// Binary exponents matching `BASE20_SMALL_MANTISSA`.
pub const BASE20_SMALL_EXPONENT: [i32; 30] = [
    -127, -123, -119, -115, -110, -106, -102, -97, -93, -89, -84, -80,
    -76, -71, -67, -63, -58, -54, -50, -45, -41, -37, -32, -28,
    -24, -19, -15, -11, -6, -2,
];
/// Normalized mantissas of every `step`-th power of 20.
pub const BASE20_LARGE_MANTISSA: [u128; 19] = [
    0x873e4f75e2224e685a7744a6e804a292, 0xd5605fcdcf32e1d6fb1e4a9a90880a65,
    0xa8530886b54dbdebd9f57f830283fdfd, 0x84c8d4dfd2c63f3b29ecd9f40041e073,
    0xd17f3b51fca3a7a0f75a15862ca504c5, 0xa54394fe1eedb8fec2974eb4ee658829,
    0x825ecc24c873782f8ed400668c0c28c9, 0xcdb02555653131b63792f412cb06794d,
    0xa2425ff75e14fc31a1258379a94d028d, 0x80000000000000000000000000000000,
    0xc9f2c9cd04674edea400000000000000, 0x9f4f2726179a224501d762422c946591,
    0xfb5878494ace3a5f04ab48a04065c724, 0xc646d63501a1511db281e1fd541501b9,
    0x9c69a97284b578d7ff2a760414536efc, 0xf6c69a72a3989f5b8aad549e57273d45,
    0xc2abf989935ddbfe6acff893d00ea436, 0x9991a6f3d6bf1765acca6da1e0a8ef29,
    0xf24a01a73cf2dccfbc633b39673c8cec,
];
/// Binary exponents matching `BASE20_LARGE_MANTISSA`.
pub const BASE20_LARGE_EXPONENT: [i32; 19] = [
    -1294, -1165, -1035, -905, -776, -646, -516, -387, -257, -127, 2, 132,
    261, 391, 521, 650, 780, 910, 1039,
];
/// Exact integer values of the low powers of 20.
pub const BASE20_SMALL_INT_POWERS: [u128; 30] = [
    0x1, 0x14,
    0x190, 0x1f40,
    0x27100, 0x30d400,
    0x3d09000, 0x4c4b4000,
    0x5f5e10000, 0x7735940000,
    0x9502f900000, 0xba43b7400000,
    0xe8d4a51000000, 0x12309ce54000000,
    0x16bcc41e90000000, 0x1c6bf526340000000,
    0x2386f26fc100000000, 0x2c68af0bb1400000000,
    0x3782dace9d9000000000, 0x4563918244f4000000000,
    0x56bc75e2d6310000000000, 0x6c6b935b8bbd40000000000,
    0x878678326eac900000000000, 0xa968163f0a57b400000000000,
    0xd3c21bcecceda1000000000000, 0x108b2a2c28029094000000000000,
    0x14adf4b7320334b90000000000000, 0x19d971e4fe8401e740000000000000,
    0x204fce5e3e250261100000000000000, 0x2863c1f5cdae42f95400000000000000,
];

/// Normalized mantissas of the low powers of 21, 128 bits wide.
pub const BASE21_SMALL_MANTISSA: [u128; 30] = [
    0x80000000000000000000000000000000, 0xa8000000000000000000000000000000,
    0xdc800000000000000000000000000000, 0x90b40000000000000000000000000000,
    0xbdec4000000000000000000000000000, 0xf9461400000000000000000000000000,
    0xa395fd20000000000000000000000000, 0xd6b4dc3a000000000000000000000000,
    0x8ce6b086100000000000000000000000, 0xb8eec7aff50000000000000000000000,
    0xf2b96616f19000000000000000000000, 0x9f49aaff0e8680000000000000000000,
    0xd110b06ec31088000000000000000000, 0x8932f3c8b002d9400000000000000000,
    0xb412dff76703bd240000000000000000, 0xec58c5f4b734e83f4000000000000000,
    0x9b1a41e8983ab8698200000000000000, 0xcb92768147cd120a7aa0000000000000,
    0x85981dc4d71e93d6e079000000000000, 0xaf57a7125a58220a069ed00000000000,
    0xe6230b481693acad28b0710000000000, 0x9706ff674ed0e951a2b3ca2800000000,
    0xc6392f379772323b258bf95480000000, 0x821586fc7b62f0f6d0a3db9f74000000,
    0xaabc412b61f1dc43f1d7104148400000, 0xe0171588f08d71192d6a4555aed40000,
    0x930f2621dddcd23885cdbd803abb2000, 0xc103e20c7331d3ea2f9e08b84d159a00,
    0xfd5518b0573166235e7f6b71e52c5a20, 0xa63fd833b9386b0736039e82be651b25,
];
/// Binary exponents matching `BASE21_SMALL_MANTISSA`.
pub const BASE21_SMALL_EXPONENT: [i32; 30] = [
    -127, -123, -119, -114, -110, -106, -101, -97, -92, -88, -84, -79,
    -75, -70, -66, -62, -57, -53, -48, -44, -40, -35, -31, -26,
    -22, -18, -13, -9, -5, 0,
];
/// Normalized mantissas of every `step`-th power of 21.
pub const BASE21_LARGE_MANTISSA: [u128; 19] = [
    0x86c3b11434d5fc0d6c6a5a7b57076894, 0xe5bbd2179019c8092e4c5b66c2f483c6,
    0xc3d06c2ea4de4c41ea00a7188ed3f766, 0xa6e71a8160f1462034a6bf8b8ab19eb1,
    0x8e4291756c71764fffbb7b3f43264084, 0xf282f0b939fb46ed90c7ac32ecd9ea42,
    0xceb4921b16098e18bf4a805d4bba5b22, 0xb02f96eb86ef71fb244562ba73cd8ec7,
    0x962c2c3c2f0ca26939a80c1d04328ab5, 0x80000000000000000000000000000000,
    0xda33cbc3e31a0c7976e4c00b99e4b3a1, 0xb9fc4184710519aee9d1ce9821e93a9d,
    0x9e8671152db8642b5c8e25f2915d9071, 0x871e8f4278dc6712b480618ab5a023bf,
    0xe656b94389d0e3bea9c5faff4295a7a0, 0xc4547461711e599768fad5026c85ef68,
    0xa757a4335c86299a597a27f76abe0f2e, 0x8ea27d7bfe70394d513a3d4d0436c0c4,
    0xf3267585285d842c15431ed1fe203002,
];
/// Binary exponents matching `BASE21_LARGE_MANTISSA`.
pub const BASE21_LARGE_EXPONENT: [i32; 19] = [
    -1313, -1182, -1050, -918, -786, -655, -523, -391, -259, -127, 4, 136,
    268, 400, 531, 663, 795, 927, 1058,
];
/// Exact integer values of the low powers of 21.
pub const BASE21_SMALL_INT_POWERS: [u128; 30] = [
    0x1, 0x15,
    0x1b9, 0x242d,
    0x2f7b1, 0x3e5185,
    0x51cafe9, 0x6b5a6e1d,
    0x8ce6b0861, 0xb8eec7aff5,
    0xf2b96616f19, 0x13e9355fe1d0d,
    0x1a22160dd86211, 0x224cbcf22c00b65,
    0x2d04b7fdd9c0ef49, 0x3b16317d2dcd3a0fd,
    0x4d8d20f44c1d5c34c1, 0x65c93b40a3e689053d5,
    0x85981dc4d71e93d6e079, 0xaf57a7125a58220a069ed,
    0xe6230b481693acad28b071, 0x12e0dfece9da1d2a34567945,
    0x18c725e6f2ee464764b17f2a9, 0x208561bf1ed8bc3db428f6e7dd,
    0x2aaf104ad87c7710fc75c410521, 0x3805c5623c235c464b5a91556bb5,
    0x49879310eeee691c42e6dec01d5d9, 0x6081f1063998e9f517cf045c268acd,
    0x7eaa8c582b98b311af3fb5b8f2962d1, 0xa63fd833b9386b0736039e82be651b25,
];

/// Normalized mantissas of the low powers of 22, 128 bits wide.
pub const BASE22_SMALL_MANTISSA: [u128; 29] = [
    0x80000000000000000000000000000000, 0xb0000000000000000000000000000000,
    0xf2000000000000000000000000000000, 0xa6600000000000000000000000000000,
    0xe4c40000000000000000000000000000, 0x9d46c000000000000000000000000000,
    0xd8414800000000000000000000000000, 0x94ace180000000000000000000000000,
    0xcc6db610000000000000000000000000, 0x8c8b6d2b000000000000000000000000,
    0xc13fb61b200000000000000000000000, 0x84dbcd32a60000000000000000000000,
    0xb6ae3a25a44000000000000000000000, 0xfb2f8ff3c1d800000000000000000000,
    0xacb0b2f7954480000000000000000000, 0xed72f6146d3e30000000000000000000,
    0xa33f092e0b1ac1000000000000000000, 0xe076ac9f4f44c9600000000000000000,
    0x9a5196ad867f4a720000000000000000, 0xd4302f2e98ef065cc000000000000000,
    0x91e120700924545fc400000000000000, 0xc8958c9a0c91f403ad80000000000000,
    0x89e6d0a9e8a457c28748000000000000, 0xbd9d5ee99fe1f8ab7a03000000000000,
    0x825c31409deb5af5e3e2100000000000, 0xb33ec3b8d9239d121956d60000000000,
    0xf6764d1e2a90f7f8e2d7664000000000, 0xa9715504bd43aa7b1bf4164c00000000,
    0xe8fbd4e6843d0a69466f9ea880000000,
];
/// Binary exponents matching `BASE22_SMALL_MANTISSA`.
pub const BASE22_SMALL_EXPONENT: [i32; 29] = [
    -127, -123, -119, -114, -110, -105, -101, -96, -92, -87, -83, -78,
    -74, -70, -65, -61, -56, -52, -47, -43, -38, -34, -29, -25,
    -20, -16, -12, -7, -3,
];
/// Normalized mantissas of every `step`-th power of 22.
pub const BASE22_LARGE_MANTISSA: [u128; 19] = [
    0x88155b45dcbb6d5b1ded0e589b77eaef, 0xaa4aae23891491291900c0cf59709a15,
    0xd51965a72c77abed385c0cafb8053238, 0x8555719b5f520014025bcbcdc2ab877f,
    0xa6d9d1d944bbdd9ea6454a6f6baffd68, 0xd0cb1bb060396792a228157416b0a327,
    0x82a3c10a22a60000f6705a1eb7f8cc49, 0xa37ac1f275db0156ffdc4e7182113eff,
    0xcc93177c8935d802890e2102c5ceb684, 0x80000000000000000000000000000000,
    0xa02d225e7ae9f728606cbd13d8000000, 0xc870e5d666f1cd70026bc67a96285514,
    0xfad3cccebe7e2a35e0bc8e3969566b40, 0x9cf098e8eacd2c4fa4fdf41fc6d893c8,
    0xc46415dca7655bae30f11fdb53e2e2e8, 0xf5c25b3f0cb694fb03d20e525417a803,
    0x99c4cd2ff58274b25ec1f1925221f36e, 0xc06c38f5dc6f72e46c8af6d559edf4d9,
    0xf0cb20ea215cd0bef6af44d4fa7b69a6,
];
/// Binary exponents matching `BASE22_LARGE_MANTISSA`.
pub const BASE22_LARGE_EXPONENT: [i32; 19] = [
    -1291, -1162, -1033, -903, -774, -645, -515, -386, -257, -127, 2, 131,
    260, 390, 519, 648, 778, 907, 1036,
];
/// Exact integer values of the low powers of 22.
pub const BASE22_SMALL_INT_POWERS: [u128; 29] = [
    0x1, 0x16,
    0x1e4, 0x2998,
    0x39310, 0x4ea360,
    0x6c20a40, 0x94ace180,
    0xcc6db6100, 0x11916da5600,
    0x1827f6c36400, 0x2136f34ca9800,
    0x2dab8e89691000, 0x3ecbe3fcf076000,
    0x5658597bcaa24000, 0x76b97b0a369f18000,
    0xa33f092e0b1ac10000, 0xe076ac9f4f44c960000,
    0x134a32d5b0cfe94e40000, 0x1a8605e5d31de0cb980000,
    0x2478481c02491517f100000, 0x3225632683247d00eb600000,
    0x44f36854f4522be143a400000, 0x5eceaf74cff0fc55bd01800000,
    0x825c31409deb5af5e3e21000000, 0xb33ec3b8d9239d121956d6000000,
    0xf6764d1e2a90f7f8e2d7664000000, 0x152e2aa097a8754f637e82c98000000,
    0x1d1f7a9cd087a14d28cdf3d510000000,
];

/// Normalized mantissas of the low powers of 23, 128 bits wide.
pub const BASE23_SMALL_MANTISSA: [u128; 29] = [
    0x80000000000000000000000000000000, 0xb8000000000000000000000000000000,
    0x84400000000000000000000000000000, 0xbe1c0000000000000000000000000000,
    0x88a42000000000000000000000000000, 0xc46bee00000000000000000000000000,
    0x8d2d9310000000000000000000000000, 0xcaf18367000000000000000000000000,
    0x91dd9672080000000000000000000000, 0xd1ae8843eb8000000000000000000000,
    0x96b571f0d14400000000000000000000, 0xd8a4d3ca2cd1c0000000000000000000,
    0x9bb678395036c2000000000000000000, 0xdfd64cd2634eb6e00000000000000000,
    0xa0e20737376093710000000000000000, 0xe744ea5f5f9ad3f27000000000000000,
    0xa63988748cb748564080000000000000, 0xeef2b4278a4777fbfcb8000000000000,
    0xabbe717c6b635e3d1da4400000000000, 0xf6e1c322da5ed777da9c1c0000000000,
    0xb17244410cf42ade2520342000000000, 0xff14421d829efd9f555e4aee00000000,
    0xb7568f8535e2464a855bc5db10000000, 0x83c63727bebaa2858fd9f63573800000,
    0xbd6cef49222c499ffec951ecd6080000, 0x88264bfc908fd4eaff20b2e239d5c000,
    0xc3b70d3b0fcec211cebf012533234400, 0x8cab9182735c9b7ccc9948d2bcc158e0,
    0xca36a12b85d51f83661c58aeef55efc2,
];
/// Binary exponents matching `BASE23_SMALL_MANTISSA`.
pub const BASE23_SMALL_EXPONENT: [i32; 29] = [
    -127, -123, -118, -114, -109, -105, -100, -96, -91, -87, -82, -78,
    -73, -69, -64, -60, -55, -51, -46, -42, -37, -33, -28, -23,
    -19, -14, -10, -5, -1,
];
/// Normalized mantissas of every `step`-th power of 23.
pub const BASE23_LARGE_MANTISSA: [u128; 19] = [
    0xa32e5771a52fbea0a3b9c8d86b90fb41, 0xb949bf0ae2037e263d233b0791cc32c7,
    0xd263dcbe69ccd71536e1ed8a3e28932c, 0xeee48f71dd376b2a3add2fa220a320c8,
    0x87a0e43af4dc04ae80174c4b4d32bd86, 0x9a00b9c83da87f7206d9b85be1fb2493,
    0xaeddd09281453c6bd477bbbf0a8510d3, 0xc68e7db7f0654737f23a7f9001378674,
    0xe174c8805a7a03ef9353739ee4311119, 0x80000000000000000000000000000000,
    0x915743d748312ea671645fbdbc05c453, 0xa507f1321c2a5a34adefea970d55215b,
    0xbb6382186ca25cbe6f66eefb6811e248, 0xd4c67a5358970adf3128fca8e7f249e1,
    0xf199e63f506bcfadce6078c3d3433c9c, 0x892a86bd8fb609bb64c6bcd3bf1e08e6,
    0x9bbfb03d46f610716ce171e9f053870d, 0xb0d9547b7e1abf3901a1e60acc63463c,
    0xc8cec32683ccc1683cb3592af68f4d86,
];
/// Binary exponents matching `BASE23_LARGE_MANTISSA`.
pub const BASE23_LARGE_EXPONENT: [i32; 19] = [
    -1308, -1177, -1046, -915, -783, -652, -521, -390, -259, -127, 4, 135,
    266, 397, 528, 660, 791, 922, 1053,
];
/// Exact integer values of the low powers of 23.
pub const BASE23_SMALL_INT_POWERS: [u128; 29] = [
    0x1, 0x17,
    0x211, 0x2f87,
    0x44521, 0x6235f7,
    0x8d2d931, 0xcaf18367,
    0x123bb2ce41, 0x1a35d1087d7,
    0x25ad5c7c3451, 0x362934f28b347,
    0x4ddb3c1ca81b61, 0x6feb266931a75b7,
    0xa0e2073737609371, 0xe744ea5f5f9ad3f27,
    0x14c7310e9196e90ac81, 0x1dde5684f148eeff7f97,
    0x2aef9c5f1ad8d78f47691, 0x3db870c8b697b5ddf6a707,
    0x58b92220867a156f12901a1, 0x7f8a210ec14f7ecfaaaf2577,
    0xb7568f8535e2464a855bc5db1, 0x1078c6e4f7d75450b1fb3ec6ae7,
    0x17ad9de924458933ffd92a3d9ac1, 0x220992ff2423f53abfc82cb88e757,
    0x30edc34ec3f3b08473afc0494cc8d1, 0x4655c8c139ae4dbe664ca4695e60ac7,
    0x651b5095c2ea8fc1b30e2c5777aaf7e1,
];

/// Normalized mantissas of the low powers of 24, 128 bits wide.
pub const BASE24_SMALL_MANTISSA: [u128; 28] = [
    0x80000000000000000000000000000000, 0xc0000000000000000000000000000000,
    0x90000000000000000000000000000000, 0xd8000000000000000000000000000000,
    0xa2000000000000000000000000000000, 0xf3000000000000000000000000000000,
    0xb6400000000000000000000000000000, 0x88b00000000000000000000000000000,
    0xcd080000000000000000000000000000, 0x99c60000000000000000000000000000,
    0xe6a90000000000000000000000000000, 0xacfec000000000000000000000000000,
    0x81bf1000000000000000000000000000, 0xc29e9800000000000000000000000000,
    0x91f6f200000000000000000000000000, 0xdaf26b00000000000000000000000000,
    0xa435d040000000000000000000000000, 0xf650b860000000000000000000000000,
    0xb8bc8a48000000000000000000000000, 0x8a8d67b6000000000000000000000000,
    0xcfd41b91000000000000000000000000, 0x9bdf14acc00000000000000000000000,
    0xe9ce9f03200000000000000000000000, 0xaf5af742580000000000000000000000,
    0x83843971c20000000000000000000000, 0xc546562aa30000000000000000000000,
    0x93f4c09ffa4000000000000000000000, 0xddef20eff76000000000000000000000,
];
/// Binary exponents matching `BASE24_SMALL_MANTISSA`.
pub const BASE24_SMALL_EXPONENT: [i32; 28] = [
    -127, -123, -118, -114, -109, -105, -100, -95, -91, -86, -82, -77,
    -72, -68, -63, -59, -54, -50, -45, -40, -36, -31, -27, -22,
    -17, -13, -8, -4,
];
/// Normalized mantissas of every `step`-th power of 24.
pub const BASE24_LARGE_MANTISSA: [u128; 19] = [
    0xc0991e75d20d07bf45bfb8b9cb1d8234, 0xfa74228a3ccbb6df47a62a2a945be1e2,
    0xa2d8275926b916f146a2fed5185107ce, 0xd3c312148b1aa78c270a022fe1e3ee8d,
    0x89afe7ba5f73b60428b82e751929bca7, 0xb30c33fa6cf47df2b9335a8ea6f9c347,
    0xe8d52c739c23cc30c6c75f1ea6f350a8, 0x97632342e677367ae650e24d0c6256dc,
    0xc4dcfdb574feabb030af4701e498276d, 0x80000000000000000000000000000000,
    0xa67358b3f98800000000000000000000, 0xd873960470159488ced3b08000000000,
    0x8cbc7a332c0b2df63d18993ca60a30a2, 0xb70341579d0a51774bbee678860d256c,
    0xedfd247de4a0ddfa786e7ebf29a47c38, 0x9abd60d75b5375cc20a6fcb9a1e82766,
    0xc9390af810fe954d7bea5b84846d1da1, 0x82d5a775db400a71d1ce4fdced6a90ed,
    0xaa22fbcc2531e166d2d272b404e15670,
];
/// Binary exponents matching `BASE24_LARGE_MANTISSA`.
pub const BASE24_LARGE_EXPONENT: [i32; 19] = [
    -1283, -1155, -1026, -898, -769, -641, -513, -384, -256, -127, 1, 129,
    258, 386, 514, 643, 771, 900, 1028,
];
/// Exact integer values of the low powers of 24.
pub const BASE24_SMALL_INT_POWERS: [u128; 28] = [
    0x1, 0x18,
    0x240, 0x3600,
    0x51000, 0x798000,
    0xb640000, 0x111600000,
    0x19a1000000, 0x26718000000,
    0x39aa40000000, 0x567f600000000,
    0x81bf1000000000, 0xc29e98000000000,
    0x123ede40000000000, 0x1b5e4d600000000000,
    0x290d741000000000000, 0x3d942e18000000000000,
    0x5c5e45240000000000000, 0x8a8d67b600000000000000,
    0xcfd41b91000000000000000, 0x137be29598000000000000000,
    0x1d39d3e0640000000000000000, 0x2bd6bdd09600000000000000000,
    0x41c21cb8e1000000000000000000, 0x62a32b15518000000000000000000,
    0x93f4c09ffa40000000000000000000, 0xddef20eff7600000000000000000000,
];

/// Normalized mantissas of the low powers of 25, 128 bits wide.
pub const BASE25_SMALL_MANTISSA: [u128; 28] = [
    0x80000000000000000000000000000000, 0xc8000000000000000000000000000000,
    0x9c400000000000000000000000000000, 0xf4240000000000000000000000000000,
    0xbebc2000000000000000000000000000, 0x9502f900000000000000000000000000,
    0xe8d4a510000000000000000000000000, 0xb5e620f4800000000000000000000000,
    0x8e1bc9bf040000000000000000000000, 0xde0b6b3a764000000000000000000000,
    0xad78ebc5ac6200000000000000000000, 0x878678326eac90000000000000000000,
    0xd3c21bcecceda1000000000000000000, 0xa56fa5b99019a5c80000000000000000,
    0x813f3978f89409844000000000000000, 0xc9f2c9cd04674edea400000000000000,
    0x9dc5ada82b70b59df020000000000000, 0xf684df56c3e01bc6c732000000000000,
    0xc097ce7bc90715b34b9f100000000000, 0x96769950b50d88f41314448000000000,
    0xeb194f8e1ae525fd5dcfab0800000000, 0xb7abc627050305adf14a3d9e40000000,
    0x8f7e32ce7bea5c6fe4820023a2000000, 0xe0352f62a19e306ed50b2037ad200000,
    0xaf298d050e4395d69670b12b7f410000, 0x88d8762bf324cd0fa5880a69fb6ac800,
    0xd5d238a4abe9806872a4904598d6d880, 0xa70c3c40a64e6c51999090b65f67d924,
];
/// Binary exponents matching `BASE25_SMALL_MANTISSA`.
pub const BASE25_SMALL_EXPONENT: [i32; 28] = [
    -127, -123, -118, -114, -109, -104, -100, -95, -90, -86, -81, -76,
    -72, -67, -62, -58, -53, -49, -44, -39, -35, -30, -25, -21,
    -16, -11, -7, -2,
];
/// Normalized mantissas of every `step`-th power of 25.
pub const BASE25_LARGE_MANTISSA: [u128; 19] = [
    0xd701ce3bd387bf47c654d07271e6c3a0, 0xdb377599b607424484c663cee6b86e7c,
    0xdf82365c497b5453cb285ceb2fed040e, 0xe3e27a444d8d98b7fd1b1b2308169b25,
    0xe858ad248f5c22c9d1b3400f8f9cff69, 0xece53cec4a314ebda4f8bf5635246428,
    0xf18899b1bc3f8ca1dc44e6c3cb279ac2, 0xf64335bcf065d37d4d4617b5ff4a16d6,
    0xfb158592be068d2eeed6e2f0f0d56713, 0x80000000000000000000000000000000,
    0x82818f1281ed449fbff8f10e7a8921a4, 0x850fadc09923329e03e2cf6bc604ddb0,
    0x87aa9aff7904228690fb44d2f05d0843, 0x8a5296ffe33cc92f82bd6b70d99aaa70,
    0x8d07e33455637eb2db0b487b6423e1e8, 0x8fcac257558ee4e6213a4f0aa5e8a7b2,
    0x929b7871de7f22b91c306f5d1b0b5fdf, 0x957a4ae1ebf7f3d3a7ea9c8838ce9437,
    0x9867806127ece4f4bf1d49cacccd5e68,
];
/// Binary exponents matching `BASE25_LARGE_MANTISSA`.
pub const BASE25_LARGE_EXPONENT: [i32; 19] = [
    -1298, -1168, -1038, -908, -778, -648, -518, -388, -258, -127, 3, 133,
    263, 393, 523, 653, 783, 913, 1043,
];
/// Exact integer values of the low powers of 25.
pub const BASE25_SMALL_INT_POWERS: [u128; 28] = [
    0x1, 0x19,
    0x271, 0x3d09,
    0x5f5e1, 0x9502f9,
    0xe8d4a51, 0x16bcc41e9,
    0x2386f26fc1, 0x3782dace9d9,
    0x56bc75e2d631, 0x878678326eac9,
    0xd3c21bcecceda1, 0x14adf4b7320334b9,
    0x204fce5e3e2502611, 0x327cb2734119d3b7a9,
    0x4ee2d6d415b85acef81, 0x7b426fab61f00de36399,
    0xc097ce7bc90715b34b9f1, 0x12ced32a16a1b11e8262889,
    0x1d6329f1c35ca4bfabb9f561, 0x2deaf189c140c16b7c528f679,
    0x47bf19673df52e37f2410011d1, 0x701a97b150cf18376a85901bd69,
    0xaf298d050e4395d69670b12b7f41, 0x111b0ec57e6499a1f4b1014d3f6d59,
    0x1aba4714957d300d0e549208b31adb1, 0x29c30f1029939b146664242d97d9f649,
];

/// Normalized mantissas of the low powers of 26, 128 bits wide.
pub const BASE26_SMALL_MANTISSA: [u128; 28] = [
    0x80000000000000000000000000000000, 0xd0000000000000000000000000000000,
    0xa9000000000000000000000000000000, 0x89500000000000000000000000000000,
    0xdf220000000000000000000000000000, 0xb54ba000000000000000000000000000,
    0x934d7200000000000000000000000000, 0xef5dd940000000000000000000000000,
    0xc27c4084000000000000000000000000, 0x9e04f46b400000000000000000000000,
    0x80640697240000000000000000000000, 0xd0a28ab59a8000000000000000000000,
    0xa98410b38d8800000000000000000000, 0x89bb4d91e2fe80000000000000000000,
    0xdfd05e0d10dd90000000000000000000, 0xb5d94c6a9db405000000000000000000,
    0x93c08e16a02244100000000000000000, 0xf018e6e4c437ae9a0000000000000000,
    0xc3143b99df6d3ddd2000000000000000, 0x9e80706d0588c243aa00000000000000,
    0x80c85b58947f1dd6fa20000000000000, 0xd145946ff14e907d5674000000000000,
    0xaa08889af40fd565d63e400000000000, 0x8a26eefde64cdd62be12940000000000,
    0xe07f445c963ce7c074de308000000000, 0xb667678b3a117c4c5ef4876800000000,
    0x943404211f2e34fe0d26ae0480000000, 0xf0d486b5d2ab161cd55edac750000000,
];
/// Binary exponents matching `BASE26_SMALL_MANTISSA`.
pub const BASE26_SMALL_EXPONENT: [i32; 28] = [
    -127, -123, -118, -113, -109, -104, -99, -95, -90, -85, -80, -76,
    -71, -66, -62, -57, -52, -48, -43, -38, -33, -29, -24, -19,
    -15, -10, -5, -1,
];
/// Normalized mantissas of every `step`-th power of 26.
pub const BASE26_LARGE_MANTISSA: [u128; 19] = [
    0xb3ab0d25d4768dee7e80e0ebef1deaa6, 0x89547bac7756a80dbf2a5ca99f224d78,
    0xd1eff807476c27e0bc4d76ed73660e08, 0xa0776566433244acf98b24c9177d1b5c,
    0xf54e5e5c80be8994b1659e21a016e178, 0xbb8028bcb789fe591cf4a4529daf0e10,
    0x8f51182d7dc95ffce37bafd0d15c9475, 0xdb16e202f9dba479ad34dec0266cf032,
    0xa77635f9a0843da9d712a387df270389, 0x80000000000000000000000000000000,
    0xc3acad73bb2b01f76d5d11c1f1000000, 0x959084b7d82ca613673ac85280487f2d,
    0xe4a3ef0ef8499b16b330e7f77d6f34fb, 0xaec318272a8a8d047b46c31bb6c012e0,
    0x85947ce2e8744e9a3d1783ffbf0bdc0e, 0xcc346accf6903e757687582ef326bf98,
    0x9c15aaed9e8a9d92e7f95a39b92b2ec3, 0xee9b9306178d0979c8431d8717806e56,
    0xb661732f6cba24fd63f712dffb8bc4dd,
];
/// Binary exponents matching `BASE26_LARGE_MANTISSA`.
pub const BASE26_LARGE_EXPONENT: [i32; 19] = [
    -1312, -1180, -1049, -917, -786, -654, -522, -391, -259, -127, 4, 136,
    267, 399, 531, 662, 794, 925, 1057,
];
/// Exact integer values of the low powers of 26.
pub const BASE26_SMALL_INT_POWERS: [u128; 28] = [
    0x1, 0x1a,
    0x2a4, 0x44a8,
    0x6f910, 0xb54ba0,
    0x1269ae40, 0x1debbb280,
    0x309f102100, 0x4f027a35a00,
    0x806406972400, 0xd0a28ab59a800,
    0x1530821671b1000, 0x226ed36478bfa000,
    0x37f41783443764000, 0x5aeca6354eda028000,
    0x93c08e16a0224410000, 0xf018e6e4c437ae9a0000,
    0x186287733beda7bba40000, 0x27a01c1b41623090ea80000,
    0x40642dac4a3f8eeb7d100000, 0x68a2ca37f8a7483eab3a00000,
    0xaa08889af40fd565d63e400000, 0x1144dddfbcc99bac57c252800000,
    0x1c0fe88b92c79cf80e9bc61000000, 0x2d99d9e2ce845f1317bd21da000000,
    0x4a1a02108f971a7f069357024000000, 0x786a435ae9558b0e6aaf6d63a8000000,
];

/// Normalized mantissas of the low powers of 27, 128 bits wide.
pub const BASE27_SMALL_MANTISSA: [u128; 27] = [
    0x80000000000000000000000000000000, 0xd8000000000000000000000000000000,
    0xb6400000000000000000000000000000, 0x99c60000000000000000000000000000,
    0x81bf1000000000000000000000000000, 0xdaf26b00000000000000000000000000,
    0xb8bc8a48000000000000000000000000, 0x9bdf14acc00000000000000000000000,
    0x83843971c20000000000000000000000, 0xddef20eff76000000000000000000000,
    0xbb41c3ca78b900000000000000000000, 0x9dff7d32d5dc18000000000000000000,
    0x854f91a2e471b4400000000000000000, 0xe0f645c2e17fe02c0000000000000000,
    0xbdcfcadc6e43e5252000000000000000, 0xa0275329fd0949575300000000000000,
    0x87212e2b6d7fd5e1ae08000000000000, 0xe407fde948c7b8ecd5ad800000000000,
    0xc066be3cd5688407d44a640000000000, 0xa256b08354102f669b1ec46000000000,
    0x88f924eeceeda7fe92e1f5b100000000, 0xe7246e52fd310b7d97dd4e9ab0000000,
    0xc306bd1605a161b1f822ba5284800000, 0xa48daf8a94c02a6e295d4d359fcc0000,
    0x8ad78c1ced8223ccf2e6b9253ed42000, 0xea4bbc70d0cb9c69d9e5586eda05f600,
    0xc5afe6ff302bcbf94fd9829d87f50790,
];
/// Binary exponents matching `BASE27_SMALL_MANTISSA`.
pub const BASE27_SMALL_EXPONENT: [i32; 27] = [
    -127, -123, -118, -113, -108, -104, -99, -94, -89, -85, -80, -75,
    -70, -66, -61, -56, -51, -47, -42, -37, -32, -28, -23, -18,
    -13, -9, -4,
];
/// Normalized mantissas of every `step`-th power of 27.
pub const BASE27_LARGE_MANTISSA: [u128; 19] = [
    0xbd032bca02b8ee9ac7b70d1a9fb1986b, 0xf64df7b3f88e0ce26498d56887dcbf5e,
    0xa07b3b9aed184813c40a916d274de405, 0xd1201bbbfb430f4da7265b26c2e6a2d4,
    0x8841cee6400f5aaaaf6562ad21d98a09, 0xb18ef30115fccc1cae5f14dbe465cbb8,
    0xe760f343f3547f6a9d3f0f5fd42f7747, 0x96c19f9f2007b9c786cae00e96908494,
    0xc473dd818bbe344927b83841dcdd4c0e, 0x80000000000000000000000000000000,
    0xa6cc6ae750a4f41a5b5f8634eab6be62, 0xd95b7bbd13c5a684eb7ec0c153cc3e5d,
    0x8d9ee1e77cbf81cf7f09fc087ef1c0d1, 0xb88c3877bfc05f77db1ed8c5bfbc2108,
    0xf07c92d6eb9da033708fd7c1f2439e80, 0x9cb0cee9410357fb9d4dcd7e7fc5951f,
    0xcc2f88fdd936f4e4d397720cb616fa0b, 0x8509ddf9f312df8cb451d1a8c1c71374,
    0xad5d42b6850b1375e3928a35ab28925e,
];
/// Binary exponents matching `BASE27_LARGE_MANTISSA`.
pub const BASE27_LARGE_EXPONENT: [i32; 19] = [
    -1283, -1155, -1026, -898, -769, -641, -513, -384, -256, -127, 1, 129,
    258, 386, 514, 643, 771, 900, 1028,
];
/// Exact integer values of the low powers of 27.
pub const BASE27_SMALL_INT_POWERS: [u128; 27] = [
    0x1, 0x1b,
    0x2d9, 0x4ce3,
    0x81bf1, 0xdaf26b,
    0x17179149, 0x26f7c52b3,
    0x41c21cb8e1, 0x6ef79077fbb,
    0xbb41c3ca78b9, 0x13bfefa65abb83,
    0x2153e468b91c6d1, 0x383d9170b85ff80b,
    0x5ee7e56e3721f2929, 0xa0275329fd09495753,
    0x10e425c56daffabc35c1, 0x1c80ffbd2918f71d9ab5b,
    0x3019af8f355a2101f51299, 0x512b5841aa0817b34d8f623,
    0x88f924eeceeda7fe92e1f5b1, 0xe7246e52fd310b7d97dd4e9ab,
    0x1860d7a2c0b42c363f04574a509, 0x29236be2a5300a9b8a57534d67f3,
    0x456bc60e76c111e679735c929f6a1, 0x7525de386865ce34ecf2ac376d02fb,
    0xc5afe6ff302bcbf94fd9829d87f5079,
];

/// Normalized mantissas of the low powers of 28, 128 bits wide.
pub const BASE28_SMALL_MANTISSA: [u128; 27] = [
    0x80000000000000000000000000000000, 0xe0000000000000000000000000000000,
    0xc4000000000000000000000000000000, 0xab800000000000000000000000000000,
    0x96100000000000000000000000000000, 0x834e0000000000000000000000000000,
    0xe5c88000000000000000000000000000, 0xc90f7000000000000000000000000000,
    0xafed8200000000000000000000000000, 0x99efd1c0000000000000000000000000,
    0x86b1d788000000000000000000000000, 0xebb7392e000000000000000000000000,
    0xce405208400000000000000000000000, 0xb47847c7380000000000000000000000,
    0x9de93ece510000000000000000000000, 0x8a2c16f486e000000000000000000000,
    0xf1cd282bec0800000000000000000000, 0xd39383266e8700000000000000000000,
    0xb92112c1a0b620000000000000000000, 0xa1fcf0696c9f5c000000000000000000,
    0x8dbd525c3f0b70800000000000000000, 0xf80b50216e5404e00000000000000000,
    0xd909e61d408984440000000000000000, 0xbde8a959987853bb8000000000000000,
    0xa62b942e656949441000000000000000, 0x916621a898bc201b8e00000000000000,
    0xfe72bae70b4938303880000000000000,
];
/// Binary exponents matching `BASE28_SMALL_MANTISSA`.
pub const BASE28_SMALL_EXPONENT: [i32; 27] = [
    -127, -123, -118, -113, -108, -103, -99, -94, -89, -84, -79, -75,
    -70, -65, -60, -55, -51, -46, -41, -36, -31, -27, -22, -17,
    -12, -7, -3,
];
/// Normalized mantissas of every `step`-th power of 28.
pub const BASE28_LARGE_MANTISSA: [u128; 19] = [
    0xe0d70055ba27c28b6d07df79e04ff7ab, 0xc38ad3730c284ba29f13fca9f74d89e0,
    0xaa0ff45572d69792814b725b29e43bcd, 0x93e70a3a943bd1e19b1dafe99f28c943,
    0x80a1546385c475f23099489e24b7b3f4, 0xdfbd01185acceda4b876d6842d8b86dc,
    0xc2959306aa3ffd2991002995684d3df4, 0xa93aa8fad439a86f77bf1e2962bcecca,
    0x932d89eac96090061575edaa7d8aa8a0, 0x80000000000000000000000000000000,
    0xdea4638a29e0112a3170000000000000, 0xc1a18633505a6bcfa58044d77b930585,
    0xa866692470326bf6b38d854d18fe656f, 0x9274f243720d2ab278d68c737b61e676,
    0xfebeebe7e99827bec3242d6d51975c00, 0xdd8d25ef8ef4fe35e057719c70cd5797,
    0xc0aeab77336fa640d467d23b6e6e19bf, 0xa7933382c0f3ec101bff767068337886,
    0x91bd4220c0c5b75cf29f79a3ca4c0548,
];
/// Binary exponents matching `BASE28_LARGE_MANTISSA`.
pub const BASE28_LARGE_EXPONENT: [i32; 19] = [
    -1296, -1166, -1036, -906, -776, -647, -517, -387, -257, -127, 2, 132,
    262, 392, 521, 651, 781, 911, 1041,
];
/// Exact integer values of the low powers of 28.
pub const BASE28_SMALL_INT_POWERS: [u128; 27] = [
    0x1, 0x1c,
    0x310, 0x55c0,
    0x96100, 0x1069c00,
    0x1cb91000, 0x3243dc000,
    0x57f6c10000, 0x99efd1c0000,
    0x10d63af100000, 0x1d76e725c00000,
    0x339014821000000, 0x5a3c23e39c000000,
    0x9de93ece510000000, 0x114582de90dc0000000,
    0x1e39a5057d8100000000, 0x34e4e0c99ba1c00000000,
    0x5c908960d05b1000000000, 0xa1fcf0696c9f5c000000000,
    0x11b7aa4b87e16e10000000000, 0x1f016a042dca809c0000000000,
    0x364279875022611100000000000, 0x5ef454accc3c29ddc00000000000,
    0xa62b942e656949441000000000000, 0x122cc4351317840371c000000000000,
    0x1fce575ce16927060710000000000000,
];

/// Normalized mantissas of the low powers of 29, 128 bits wide.
pub const BASE29_SMALL_MANTISSA: [u128; 27] = [
    0x80000000000000000000000000000000, 0xe8000000000000000000000000000000,
    0xd2400000000000000000000000000000, 0xbe8a0000000000000000000000000000,
    0xacad1000000000000000000000000000, 0x9c7cd680000000000000000000000000,
    0x8dd12264000000000000000000000000, 0x8085872aa00000000000000000000000,
    0xe8f204fd420000000000000000000000, 0xd31b548583d000000000000000000000,
    0xbf50c498ff7480000000000000000000, 0xad61322aa78194000000000000000000,
    0x9d201576a7cd6e200000000000000000, 0x8e65137388122bcd0000000000000000,
    0x810b99a0b35077b1c800000000000000, 0xe9e506734501d8f23a80000000000000,
    0xd3f78dd87689ac9b8504000000000000, 0xc018588c2b6cc46cf08ba00000000000,
    0xae16103f075a9202b9fe890000000000, 0x9dc3feb91eaa1452788eac2800000000,
    0x8ef99ed7c3ca226abd414c0440000000, 0x819237f3896f2f30bb832ce3da000000,
    0xead905696919858853ddc15cfb200000, 0xd4d4ace7873f21038c00f73c43950000,
    0xc0e0bcb1d29135eb36e0e00e9d3f0800, 0xaecbab0126d398dd29bbcb0d3e811f40,
    0x9e6892f90b2fc2886dd2300400a50452,
];
/// Binary exponents matching `BASE29_SMALL_MANTISSA`.
pub const BASE29_SMALL_EXPONENT: [i32; 27] = [
    -127, -123, -118, -113, -108, -103, -98, -93, -89, -84, -79, -74,
    -69, -64, -59, -55, -50, -45, -40, -35, -30, -25, -21, -16,
    -11, -6, -1,
];
/// Normalized mantissas of every `step`-th power of 29.
pub const BASE29_LARGE_MANTISSA: [u128; 19] = [
    0xb65b46a52aaa58e33e352928ab941e32, 0xcc855f1e2c5a155f184ada236246c50f,
    0xe5611f4de71a89e16adfef9d4091f364, 0x80a12d0c259919509709b235e1c85711,
    0x9043894b8b864802056ceab5903c3de7, 0xa1cc5c8ea99d4ff20e51c683e592037b,
    0xb576c761679db3786b2e3e52974b9fed, 0xcb851a1344b090720637c36312553def,
    0xe441b454527049f2bacbbd604b3af9ac, 0x80000000000000000000000000000000,
    0x8f8ec531b223484ba3867b83a0958bea, 0xa1019fd9c0151f715ea9a66b5f02e53d,
    0xb493666d9cdfa738273856fa5cdc8f6c, 0xca8616250e3c8f1091e3e6af9a451a02,
    0xe323b17ef6473ef4906c2ea6c0516595, 0xfebf39d1def067e462f5828ee4835fa8,
    0x8edae398e94e9766c1a3da16cb4983c1, 0xa037e12dab2cdcfb72774479267e3ec7,
    0xb3b1226308d4607dd4ba21b4a956329d,
];
/// Binary exponents matching `BASE29_LARGE_MANTISSA`.
pub const BASE29_LARGE_EXPONENT: [i32; 19] = [
    -1308, -1177, -1046, -914, -783, -652, -521, -390, -259, -127, 4, 135,
    266, 397, 528, 659, 791, 922, 1053,
];
/// Exact integer values of the low powers of 29.
pub const BASE29_SMALL_INT_POWERS: [u128; 27] = [
    0x1, 0x1d,
    0x349, 0x5f45,
    0xacad1, 0x138f9ad,
    0x23744899, 0x4042c3955,
    0x7479027ea1, 0xd31b548583d,
    0x17ea18931fee9, 0x2b584c8aa9e065,
    0x4e900abb53e6b71, 0x8e65137388122bcd,
    0x10217334166a0ef639, 0x1d3ca0ce68a03b1e475,
    0x34fde3761da26b26e141, 0x600c2c4615b662367845d,
    0xae16103f075a9202b9fe89, 0x13b87fd723d5428a4f11d585,
    0x23be67b5f0f2889aaf5053011, 0x40c91bf9c4b797985dc19671ed,
    0x756c82b4b48cc2c429eee0ae7d9, 0xd4d4ace7873f21038c00f73c4395,
    0x181c17963a5226bd66dc1c01d3a7e1, 0x2bb2eac049b4e6374a6ef2c34fa047d,
    0x4f34497c8597e14436e9180200528229,
];

/// Normalized mantissas of the low powers of 30, 128 bits wide.
pub const BASE30_SMALL_MANTISSA: [u128; 27] = [
    0x80000000000000000000000000000000, 0xf0000000000000000000000000000000,
    0xe1000000000000000000000000000000, 0xd2f00000000000000000000000000000,
    0xc5c10000000000000000000000000000, 0xb964f000000000000000000000000000,
    0xadcea100000000000000000000000000, 0xa2f1b6f0000000000000000000000000,
    0x98c29b81000000000000000000000000, 0x8f3671c8f00000000000000000000000,
    0x86430aac610000000000000000000000, 0xfbbdb40335e000000000000000000000,
    0xec01d8c3028200000000000000000000, 0xdd41bb36d259e0000000000000000000,
    0xcf6d9f83653442000000000000000000, 0xc276c58b2ee0fde00000000000000000,
    0xb64f59327bf2ee020000000000000000, 0xaaea639f5433bf21e000000000000000,
    0xa03bbd655ef0832fc200000000000000, 0x9638018f09017afcc5e0000000000000,
    0x8cd481761871634cf982000000000000, 0x8407395eb6ea4d1829e9e00000000000,
    0xf78d8b9196f7508d4e96840000000000, 0xe814b2d87d87db8479ad1bc000000000,
    0xd99367aaf5af5dcc32124a0400000000, 0xcbfa3130465467ef6ef12563c0000000,
    0xbf3a8e1d41ef21707802130d84000000,
];
/// Binary exponents matching `BASE30_SMALL_MANTISSA`.
pub const BASE30_SMALL_EXPONENT: [i32; 27] = [
    -127, -123, -118, -113, -108, -103, -98, -93, -88, -83, -78, -74,
    -69, -64, -59, -54, -49, -44, -39, -34, -29, -24, -20, -15,
    -10, -5, 0,
];
/// Normalized mantissas of every `step`-th power of 30.
pub const BASE30_LARGE_MANTISSA: [u128; 19] = [
    0xc57bab5df4dc1cd8c01c0cf948cb751f, 0x8a4c29790668a804b6f88627986d210d,
    0xc1b31b52651949afb927570d2572899f, 0x87a5e08644071bd8c6a88615bbfd2ebb,
    0xbdfd19a04b14b9595493d68c7ba16501, 0x850c963f99149510e68a75334064a6b0,
    0xba594b45659aa6847062d63a817eba7b, 0x82800ae93ddde7ab18cca7312fca9ce1,
    0xb6c756fdce91c1280871e4e7969c3fba, 0x80000000000000000000000000000000,
    0xb346e53b6dd02f597081f1dcabc00000, 0xfb1870668aa920a6740c0ed8aebc4b55,
    0xafd7a01d95e167e6c2ae4efdb58ba946, 0xf648eebe587b88234d37d87e4aebadc3,
    0xac793368c9ef337343a6797ee03de5ed, 0xf191050d9181d6de24eeefa7ee0712e6,
    0xa92b4c7eac0411b0aa2f3911058cff2d, 0xecf03f9cfbc5a92d9357a4ab53df64b4,
    0xa5ed9a5612e11dd961755e97021a8a74,
];
/// Binary exponents matching `BASE30_LARGE_MANTISSA`.
pub const BASE30_LARGE_EXPONENT: [i32; 19] = [
    -1320, -1187, -1055, -922, -790, -657, -525, -392, -260, -127, 5, 137,
    270, 402, 535, 667, 800, 932, 1065,
];
/// Exact integer values of the low powers of 30.
pub const BASE30_SMALL_INT_POWERS: [u128; 27] = [
    0x1, 0x1e,
    0x384, 0x6978,
    0xc5c10, 0x172c9e0,
    0x2b73a840, 0x5178db780,
    0x98c29b8100, 0x11e6ce391e00,
    0x2190c2ab18400, 0x3eef6d00cd7800,
    0x7600ec618141000, 0xdd41bb36d259e000,
    0x19edb3f06ca6884000, 0x309db162cbb83f78000,
    0x5b27ac993df977010000, 0xaaea639f5433bf21e0000,
    0x140777acabde1065f840000, 0x258e0063c2405ebf31780000,
    0x466a40bb0c38b1a67cc100000, 0x8407395eb6ea4d1829e9e00000,
    0xf78d8b9196f7508d4e968400000, 0x1d02965b0fb0fb708f35a37800000,
    0x3664d9eabd6bd7730c849281000000, 0x65fd1898232a33f7b77892b1e000000,
    0xbf3a8e1d41ef21707802130d84000000,
];

/// Normalized mantissas of the low powers of 31, 128 bits wide.
pub const BASE31_SMALL_MANTISSA: [u128; 26] = [
    0x80000000000000000000000000000000, 0xf8000000000000000000000000000000,
    0xf0400000000000000000000000000000, 0xe8be0000000000000000000000000000,
    0xe1781000000000000000000000000000, 0xda6c4f80000000000000000000000000,
    0xd398ed04000000000000000000000000, 0xccfc259be00000000000000000000000,
    0xc694446f010000000000000000000000, 0xc05fa24b88f800000000000000000000,
    0xba5ca5392cb040000000000000000000, 0xb489c00f634abe000000000000000000,
    0xaee5720ee83068100000000000000000, 0xa96e467e70eee4cf8000000000000000,
    0xa422d44a7d676da90400000000000000, 0x9f01bda8297c323bbbe0000000000000,
    0x9a09afbae83050a9de01000000000000, 0x9539623d10eece248f10f80000000000,
    0x908f972b286757b36a98704000000000, 0x8c0b1a71cf241cf5cf43acbe00000000,
    0x87aac19e40aafc0e20c98f5810000000, 0x836d6b914ea5a42dafc342dd4f800000,
    0xfea400698860ee18848a518cca080000, 0xf6aee0663c1de6a7c065ff0063b7c000,
    0xeef969630a3cf7728262cf08609a0200, 0xe7819e17f1eb0fb6ee4fb8901d9531f0,
];
/// Binary exponents matching `BASE31_SMALL_MANTISSA`.
pub const BASE31_SMALL_EXPONENT: [i32; 26] = [
    -127, -123, -118, -113, -108, -103, -98, -93, -88, -83, -78, -73,
    -68, -63, -58, -53, -48, -43, -38, -33, -28, -23, -19, -14,
    -9, -4,
];
/// Normalized mantissas of every `step`-th power of 31.
pub const BASE31_LARGE_MANTISSA: [u128; 19] = [
    0xd28e748d65a6eb051f63c0802d746d98, 0xb875ddc410318dd9cbab3831016587b0,
    0xa199426754ddaabff1f7eb4d3e3c9cdf, 0x8d920409dcdb4e11ea78f84034cbf015,
    0xf80c78523293b811ec010a1d8b8f2053, 0xd94e514965411382d82414913b78c516,
    0xbe5f9472c3195663d0567d68c6b5dc6d, 0xa6c75d98b6bc3ea1c01698b36509bbb2,
    0x921bc4324f3f69d2c2d79d1421217388, 0x80000000000000000000000000000000,
    0xe0459127325bb73936dd3acb9ca88860, 0xc479d0ec298f13212c435229772a387c,
    0xac1ffb0b088f2a8beef214672702bac7, 0x96cac1e0c962fbf006c33ea12bf91ee5,
    0x841a63cae02a5f4d22aed9ca376e1a8f, 0xe775faab2cb62e35a1fcf6b4311adf3e,
    0xcac6215f9abe917efcc3fbb6894bdd0e, 0xb1a47793eb2508f65479bb4d6ca48fb1,
    0x9ba02eaf03598c816bb4900528cadc5f,
];
/// Binary exponents matching `BASE31_LARGE_MANTISSA`.
pub const BASE31_LARGE_EXPONENT: [i32; 19] = [
    -1287, -1158, -1029, -900, -772, -643, -514, -385, -256, -127, 1, 130,
    259, 388, 517, 645, 774, 903, 1032,
];
/// Exact integer values of the low powers of 31.
pub const BASE31_SMALL_INT_POWERS: [u128; 26] = [
    0x1, 0x1f,
    0x3c1, 0x745f,
    0xe1781, 0x1b4d89f,
    0x34e63b41, 0x667e12cdf,
    0xc694446f01, 0x180bf449711f,
    0x2e97294e4b2c1, 0x5a44e007b1a55f,
    0xaee5720ee830681, 0x152dc8cfce1ddc99f,
    0x2908b5129f59db6a41, 0x4f80ded414be191dddf,
    0x9a09afbae83050a9de01, 0x12a72c47a21dd9c491e21f,
    0x2423e5caca19d5ecdaa61c1, 0x46058d38e7920e7ae7a1d65f,
    0x87aac19e40aafc0e20c98f581, 0x106dad7229d4b485b5f8685ba9f,
    0x1fd4800d310c1dc310914a319941, 0x3dabb8198f0779a9f0197fc018edf,
    0x777cb4b1851e7bb941316784304d01, 0xe7819e17f1eb0fb6ee4fb8901d9531f,
];

/// Normalized mantissas of the low powers of 32, 128 bits wide.
pub const BASE32_SMALL_MANTISSA: [u128; 26] = [
    0x80000000000000000000000000000000, 0x80000000000000000000000000000000,
    0x80000000000000000000000000000000, 0x80000000000000000000000000000000,
    0x80000000000000000000000000000000, 0x80000000000000000000000000000000,
    0x80000000000000000000000000000000, 0x80000000000000000000000000000000,
    0x80000000000000000000000000000000, 0x80000000000000000000000000000000,
    0x80000000000000000000000000000000, 0x80000000000000000000000000000000,
    0x80000000000000000000000000000000, 0x80000000000000000000000000000000,
    0x80000000000000000000000000000000, 0x80000000000000000000000000000000,
    0x80000000000000000000000000000000, 0x80000000000000000000000000000000,
    0x80000000000000000000000000000000, 0x80000000000000000000000000000000,
    0x80000000000000000000000000000000, 0x80000000000000000000000000000000,
    0x80000000000000000000000000000000, 0x80000000000000000000000000000000,
    0x80000000000000000000000000000000, 0x80000000000000000000000000000000,
];
/// Binary exponents matching `BASE32_SMALL_MANTISSA`.
pub const BASE32_SMALL_EXPONENT: [i32; 26] = [
    -127, -122, -117, -112, -107, -102, -97, -92, -87, -82, -77, -72,
    -67, -62, -57, -52, -47, -42, -37, -32, -27, -22, -17, -12,
    -7, -2,
];
/// Normalized mantissas of every `step`-th power of 32.
pub const BASE32_LARGE_MANTISSA: [u128; 19] = [
    0x80000000000000000000000000000000, 0x80000000000000000000000000000000,
    0x80000000000000000000000000000000, 0x80000000000000000000000000000000,
    0x80000000000000000000000000000000, 0x80000000000000000000000000000000,
    0x80000000000000000000000000000000, 0x80000000000000000000000000000000,
    0x80000000000000000000000000000000, 0x80000000000000000000000000000000,
    0x80000000000000000000000000000000, 0x80000000000000000000000000000000,
    0x80000000000000000000000000000000, 0x80000000000000000000000000000000,
    0x80000000000000000000000000000000, 0x80000000000000000000000000000000,
    0x80000000000000000000000000000000, 0x80000000000000000000000000000000,
    0x80000000000000000000000000000000,
];
/// Binary exponents matching `BASE32_LARGE_MANTISSA`.
pub const BASE32_LARGE_EXPONENT: [i32; 19] = [
    -1297, -1167, -1037, -907, -777, -647, -517, -387, -257, -127, 3, 133,
    263, 393, 523, 653, 783, 913, 1043,
];
/// Exact integer values of the low powers of 32.
pub const BASE32_SMALL_INT_POWERS: [u128; 26] = [
    0x1, 0x20,
    0x400, 0x8000,
    0x100000, 0x2000000,
    0x40000000, 0x800000000,
    0x10000000000, 0x200000000000,
    0x4000000000000, 0x80000000000000,
    0x1000000000000000, 0x20000000000000000,
    0x400000000000000000, 0x8000000000000000000,
    0x100000000000000000000, 0x2000000000000000000000,
    0x40000000000000000000000, 0x800000000000000000000000,
    0x10000000000000000000000000, 0x200000000000000000000000000,
    0x4000000000000000000000000000, 0x80000000000000000000000000000,
    0x1000000000000000000000000000000, 0x20000000000000000000000000000000,
];

/// Normalized mantissas of the low powers of 33, 128 bits wide.
pub const BASE33_SMALL_MANTISSA: [u128; 26] = [
    0x80000000000000000000000000000000, 0x84000000000000000000000000000000,
    0x88200000000000000000000000000000, 0x8c610000000000000000000000000000,
    0x90c40800000000000000000000000000, 0x954a2840000000000000000000000000,
    0x99f47982000000000000000000000000, 0x9ec41d4e100000000000000000000000,
    0xa3ba3e38808000000000000000000000, 0xa8d8102a448400000000000000000000,
    0xae1ed0ab96a820000000000000000000, 0xb38fc730f35d61000000000000000000,
    0xb92c456a7af84c080000000000000000, 0xbef5a795ced00e684000000000000000,
    0xc4ed54d27d468edb8200000000000000, 0xcb14bf791130c3525e10000000000000,
    0xd16d6574d9ba496cf100800000000000, 0xd7f8d0a080881bb85888840000000000,
    0xdeb89725848c5c961b4cc82000000000, 0xe5ae5bdeb0b0bf7acc272e6100000000,
    0xecdbcebda6364576a28867d408000000, 0xf442ad339367f7a2579cab12a8400000,
    0xfbe4c29d3003375f6a59906b3d820000, 0x81e1f4590cc1a88d32d62e774bb70800,
    0x85f103fbd527b5d19c6cdfeb0614c040, 0x8a208c1bb3d0f380295046ea5e456642,
];
/// Binary exponents matching `BASE33_SMALL_MANTISSA`.
pub const BASE33_SMALL_EXPONENT: [i32; 26] = [
    -127, -122, -117, -112, -107, -102, -97, -92, -87, -82, -77, -72,
    -67, -62, -57, -52, -47, -42, -37, -32, -27, -22, -17, -11,
    -6, -1,
];
/// Normalized mantissas of every `step`-th power of 33.
pub const BASE33_LARGE_MANTISSA: [u128; 19] = [
    0xc39a11a45e5f577e4f435eb7b368840e, 0xd9ac76619b25fa5aa3704f07ca3dc4f0,
    0xf23c734aa5dc8961721a71d9dfa51bab, 0x86c8fd5a2bb31a020d0914190f341b62,
    0x95fe8ea4faf53869b504e0326c34d720, 0xa6eb7a494d8e61d24532d9a2e235d863,
    0xb9c153f6a2197bc10861ac72c635550c, 0xceb74780005cf67ff3edac01ee031b99,
    0xe60aba767c4460b11bf4220209d7932a, 0x80000000000000000000000000000000,
    0x8e71907c916f7b1c2a9ac921b1379174, 0x9e845d5621b8e2711e7f82007cea6d14,
    0xb0677b5520ca32c8a5d9fdbbfc525cd5, 0xc44f4f4d68f55f504ef8b80e832d0c3f,
    0xda76279627df98d8d45c72dc4d0e5ab5, 0xf31ce6d30e02a4b3b18dcea139f54d71,
    0x8745e10182e269d1e8b3d8a292a72a2b, 0x96898a00930f5f938bf4c705a8678fa9,
    0xa7862471b33021fd6fd4899dba141227,
];
/// Binary exponents matching `BASE33_LARGE_MANTISSA`.
pub const BASE33_LARGE_EXPONENT: [i32; 19] = [
    -1308, -1177, -1046, -914, -783, -652, -521, -390, -259, -127, 4, 135,
    266, 397, 528, 659, 791, 922, 1053,
];
/// Exact integer values of the low powers of 33.
pub const BASE33_SMALL_INT_POWERS: [u128; 26] = [
    0x1, 0x21,
    0x441, 0x8c61,
    0x121881, 0x25528a1,
    0x4cfa3cc1, 0x9ec41d4e1,
    0x147747c7101, 0x2a36040a9121,
    0x570f6855cb541, 0xb38fc730f35d61,
    0x172588ad4f5f0981, 0x2fbd69e573b4039a1,
    0x6276aa693ea3476dc1, 0xcb14bf791130c3525e1,
    0x1a2dacae9b37492d9e201, 0x35fe3428202206ee162221,
    0x6f5c4b92c2462e4b0da6641, 0xe5ae5bdeb0b0bf7acc272e61,
    0x1d9b79d7b4c6c8aed4510cfa81, 0x3d10ab4ce4d9fde895e72ac4aa1,
    0x7df2614e98019bafb52cc8359ec1, 0x103c3e8b21983511a65ac5cee976e1,
    0x217c40fef549ed74671b37fac185301, 0x4510460dd9e879c014a823752f22b321,
];

/// Normalized mantissas of the low powers of 34, 128 bits wide.
pub const BASE34_SMALL_MANTISSA: [u128; 26] = [
    0x80000000000000000000000000000000, 0x88000000000000000000000000000000,
    0x90800000000000000000000000000000, 0x99880000000000000000000000000000,
    0xa3208000000000000000000000000000, 0xad528800000000000000000000000000,
    0xb827b080000000000000000000000000, 0xc3aa2b88000000000000000000000000,
    0xcfe4ce40800000000000000000000000, 0xdce31b24880000000000000000000000,
    0xeab14cd6d08000000000000000000000, 0xf95c61a43d8800000000000000000000,
    0x847913df40b040000000000000000000, 0x8cc0a51d34bb44000000000000000000,
    0x958caf6f0806f8400000000000000000, 0x9ee57a65f88767c40000000000000000,
    0xa8d3d20c580fde404000000000000000, 0xb3610f2d1d90dc244400000000000000,
    0xbe97201fef69e9e68840000000000000, 0xca809221ee608884f0c4000000000000,
    0xd7289b440d46910d3fd0400000000000, 0xe49b24f84e1afa1e13cd440000000000,
    0xf2e4d747d2fca9bff50a184000000000, 0x8109925e28163a2dfa2d5ce200000000,
    0x891a2b840a979dd0d9d032b020000000, 0x91abce3c4b4117ade76d35db22000000,
];
/// Binary exponents matching `BASE34_SMALL_MANTISSA`.
pub const BASE34_SMALL_EXPONENT: [i32; 26] = [
    -127, -122, -117, -112, -107, -102, -97, -92, -87, -82, -77, -72,
    -66, -61, -56, -51, -46, -41, -36, -31, -26, -21, -16, -10,
    -5, 0,
];
/// Normalized mantissas of every `step`-th power of 34.
pub const BASE34_LARGE_MANTISSA: [u128; 19] = [
    0xb94c036cc200fad5179d6a06576523db, 0xe00edf1b1b780ca49ee67d65999effa6,
    0x8776b77b00748316999711d434912624, 0xa3ccf3a0a8a1b17b6403f624fb6a46c3,
    0xc610a82fbfa08273b6f468119336dee3, 0xef7f43654fe8be8d2a0b467c009de9d6,
    0x90cc4d212adc0ff19f7be7f782c9cbf7, 0xaf16663557c1a31222e31892d5f5b743,
    0xd3b687ec76842b831e55bd9d2cca0651, 0x80000000000000000000000000000000,
    0x9ac68b200ff52928c5e40938d4200000, 0xbb26f2bc28cef431e4475d10a7fc76ff,
    0xe24d27b508d2267574f00dc8a62479ec, 0x88d1ec8bd9a2bda49e7657a1abb1b7ac,
    0xa570ca0866961cba8600deb4b3f1643e, 0xc80c515c8ca3030806502b61857ce8df,
    0xf1e51e60b0bd1d1ac4de66fb068e6d09, 0x923f6ef15c50d5c5591e78758fec2745,
    0xb0d72a8f84fd7044831a9738a946ad92,
];
/// Binary exponents matching `BASE34_LARGE_MANTISSA`.
pub const BASE34_LARGE_EXPONENT: [i32; 19] = [
    -1318, -1186, -1053, -921, -789, -657, -524, -392, -260, -127, 5, 137,
    269, 402, 534, 666, 798, 931, 1063,
];
/// Exact integer values of the low powers of 34.
pub const BASE34_SMALL_INT_POWERS: [u128; 26] = [
    0x1, 0x22,
    0x484, 0x9988,
    0x146410, 0x2b54a20,
    0x5c13d840, 0xc3aa2b880,
    0x19fc99c8100, 0x3738c6c92200,
    0x7558a66b68400, 0xf95c61a43d8800,
    0x211e44f7d02c1000, 0x4660528e9a5da2000,
    0x958caf6f0806f84000, 0x13dcaf4cbf10ecf88000,
    0x2a34f4831603f79010000, 0x59b087968ec86e12220000,
    0xbe97201fef69e9e68840000, 0x195012443dcc11109e1880000,
    0x35ca26d10351a4434ff4100000, 0x724d927c270d7d0f09e6a200000,
    0xf2e4d747d2fca9bff50a18400000, 0x204264978a058e8b7e8b5738800000,
    0x448d15c2054bcee86ce819581000000, 0x91abce3c4b4117ade76d35db22000000,
];

/// Normalized mantissas of the low powers of 35, 128 bits wide.
pub const BASE35_SMALL_MANTISSA: [u128; 25] = [
    0x80000000000000000000000000000000, 0x8c000000000000000000000000000000,
    0x99200000000000000000000000000000, 0xa77b0000000000000000000000000000,
    0xb72e8800000000000000000000000000, 0xc85ae4c0000000000000000000000000,
    0xdb236a32000000000000000000000000, 0xefaebc26b00000000000000000000000,
    0x83138ee5284000000000000000000000, 0x8f5d644aa40600000000000000000000,
    0x9cce25b1a36690000000000000000000, 0xab81793a4ab82d800000000000000000,
    0xbb959c97c1b971c40000000000000000, 0xcd2ba345fbe2d46e6000000000000000,
    0xe067ba948b801858b900000000000000, 0xf571741278941aa10a58000000000000,
    0x863a0b7a19f0fe9011a8200000000000, 0x92cf7c8d8c5f966d934fe30000000000,
    0xa092f03ad1888c87d91f604800000000, 0xafa0b6c0552d59b4957a514ec0000000,
    0xc017c7e25d299a1d837dc8ee22000000, 0xd21a029f95e5809047d193c475300000,
    0xe5cc72de8bf3049dce8d399ee02c8000, 0xfb579da36911cd0c99ea7705c530ac00,
    0x8973ea355d75bc22e42c391727d69e10,
];
/// Binary exponents matching `BASE35_SMALL_MANTISSA`.
pub const BASE35_SMALL_EXPONENT: [i32; 25] = [
    -127, -122, -117, -112, -107, -102, -97, -92, -86, -81, -76, -71,
    -66, -61, -56, -51, -45, -40, -35, -30, -25, -20, -15, -10,
    -4,
];
/// Normalized mantissas of every `step`-th power of 35.
pub const BASE35_LARGE_MANTISSA: [u128; 19] = [
    0xf0bcf9b8be0cc0bebc5c55b44125d0b4, 0x8d6056099e1f6505e2ba9b7d77f62855,
    0xa60cbea265dfbd798d79cc32b23131ba, 0xc30783a144c5f2f81dd2f50449af8d28,
    0xe5110849b8a55f6562d84fbc87fbdef3, 0x8685a1af3288ef893f4df8f8c1f7628b,
    0x9dffcd9f446f0635a499e61527e24d67, 0xb992e3e8c8ba581a30779adcc7afc8a1,
    0xd9f5f3f8dc89ecd4f0b26495c4d938c6, 0x80000000000000000000000000000000,
    0x9656c82a5e38c5c629905e715392bce2, 0xb0939ff97ec82049b85abef03e0deb2a,
    0xcf64b6c8f894c32829da50e71f8a11f1, 0xf396a23055a549bdd4b4facbff5851a8,
    0x8f0cd618cd7f5243e204762a74759871, 0xa80407385185270c4a5e5c38d6068e18,
    0xc556a1e8c1a6a7be4484a6076c25038f, 0xe7c7508a39fd5d36383bee4a324b5219,
    0x881d5b601f57b9f2b3d9ab49ecd9313c,
];
/// Binary exponents matching `BASE35_LARGE_MANTISSA`.
pub const BASE35_LARGE_EXPONENT: [i32; 19] = [
    -1282, -1153, -1025, -897, -769, -640, -512, -384, -256, -127, 1, 129,
    257, 385, 514, 642, 770, 898, 1027,
];
/// Exact integer values of the low powers of 35.
pub const BASE35_SMALL_INT_POWERS: [u128; 25] = [
    0x1, 0x23,
    0x4c9, 0xa77b,
    0x16e5d1, 0x3216b93,
    0x6d91b519, 0xefaebc26b,
    0x20c4e3b94a1, 0x47aeb2255203,
    0x9cce25b1a3669, 0x15702f27495705b,
    0x2ee56725f06e5c71, 0x6695d1a2fdf16a373,
    0xe067ba948b801858b9, 0x1eae2e824f128354214b,
    0x431d05bd0cf87f4808d41, 0x92cf7c8d8c5f966d934fe3,
    0x14125e075a311190fb23ec09, 0x2be82db0154b566d255e9453b,
    0x600be3f12e94cd0ec1bee47711, 0xd21a029f95e5809047d193c4753,
    0x1cb98e5bd17e6093b9d1a733dc059, 0x3ed5e768da447343267a9dc1714c2b,
    0x8973ea355d75bc22e42c391727d69e1,
];

/// Normalized mantissas of the low powers of 36, 128 bits wide.
pub const BASE36_SMALL_MANTISSA: [u128; 25] = [
    0x80000000000000000000000000000000, 0x90000000000000000000000000000000,
    0xa2000000000000000000000000000000, 0xb6400000000000000000000000000000,
    0xcd080000000000000000000000000000, 0xe6a90000000000000000000000000000,
    0x81bf1000000000000000000000000000, 0x91f6f200000000000000000000000000,
    0xa435d040000000000000000000000000, 0xb8bc8a48000000000000000000000000,
    0xcfd41b91000000000000000000000000, 0xe9ce9f03200000000000000000000000,
    0x83843971c20000000000000000000000, 0x93f4c09ffa4000000000000000000000,
    0xa67358b3f98800000000000000000000, 0xbb41c3ca78b900000000000000000000,
    0xd2a9fc43c7d020000000000000000000, 0xecff3bcc40ca24000000000000000000,
    0x854f91a2e471b4400000000000000000, 0x95f983d740ffeac80000000000000000,
    0xa8b8b452291fe8210000000000000000, 0xbdcfcadc6e43e5252000000000000000,
    0xd589c437fc0c61c9c400000000000000, 0xf03afcbefb8dee02fc80000000000000,
    0x87212e2b6d7fd5e1ae08000000000000,
];
/// Binary exponents matching `BASE36_SMALL_MANTISSA`.
pub const BASE36_SMALL_EXPONENT: [i32; 25] = [
    -127, -122, -117, -112, -107, -102, -96, -91, -86, -81, -76, -71,
    -65, -60, -55, -50, -45, -40, -34, -29, -24, -19, -14, -9,
    -3,
];
/// Normalized mantissas of every `step`-th power of 36.
pub const BASE36_LARGE_MANTISSA: [u128; 19] = [
    0xd9cd5c92f261c4132461d5cd4b93f17c, 0x815677648ece9310047d3caa57217e07,
    0x999c0ff9848834ac6a233042575c4ec4, 0xb66fb7cd2b2510a5796d3dba4e0628eb,
    0xd8ac42448c4ea8b72e77afd10481327a, 0x80aac9c1b323a0598080c9595be787bf,
    0x98d02aa2c1ad78c344cc896265842415, 0xb57d8ef977fc49611e94730b5076b45e,
    0xd78ca7b4c124bd11fcee2a36b42204ad, 0x80000000000000000000000000000000,
    0x980553f0db2fd09de3c9000000000000, 0xb48ca794ce6ed0acb683eeebad28faac,
    0xd66e8ae6328475a1928cc6d16b9c4530, 0xfeac31e1f58234f610d49bd3b79a1980,
    0x973b8a7c92d7013ef4494983928f6947, 0xb39cfff485a5dbf4d6aae030b91bfb0f,
    0xd551e9de262c5d2080ad19f69c87409b, 0xfd5a26cf74888f7cc6a6497d4f4a65aa,
    0x9672cce08743725883f60631eba4efc7,
];
/// Binary exponents matching `BASE36_LARGE_MANTISSA`.
pub const BASE36_LARGE_EXPONENT: [i32; 19] = [
    -1291, -1161, -1032, -903, -774, -644, -515, -386, -257, -127, 2, 131,
    260, 389, 519, 648, 777, 906, 1036,
];
/// Exact integer values of the low powers of 36.
pub const BASE36_SMALL_INT_POWERS: [u128; 25] = [
    0x1, 0x24,
    0x510, 0xb640,
    0x19a100, 0x39aa400,
    0x81bf1000, 0x123ede4000,
    0x290d7410000, 0x5c5e45240000,
    0xcfd41b9100000, 0x1d39d3e06400000,
    0x41c21cb8e1000000, 0x93f4c09ffa4000000,
    0x14ce6b167f310000000, 0x2ed070f29e2e40000000,
    0x6954fe21e3e8100000000, 0xecff3bcc40ca2400000000,
    0x2153e468b91c6d1000000000, 0x4afcc1eba07ff564000000000,
    0xa8b8b452291fe8210000000000, 0x17b9f95b8dc87ca4a40000000000,
    0x3562710dff0318727100000000000, 0x781d7e5f7dc6f7017e400000000000,
    0x10e425c56daffabc35c1000000000000,
];

pub open spec fn small_mantissa_table(radix: u32) -> Seq<u128> {
    if radix == 2 {
        BASE2_SMALL_MANTISSA@
    } else if radix == 3 {
        BASE3_SMALL_MANTISSA@
    } else if radix == 4 {
        BASE4_SMALL_MANTISSA@
    } else if radix == 5 {
        BASE5_SMALL_MANTISSA@
    } else if radix == 6 {
        BASE6_SMALL_MANTISSA@
    } else if radix == 7 {
        BASE7_SMALL_MANTISSA@
    } else if radix == 8 {
        BASE8_SMALL_MANTISSA@
    } else if radix == 9 {
        BASE9_SMALL_MANTISSA@
    } else if radix == 10 {
        BASE10_SMALL_MANTISSA@
    } else if radix == 11 {
        BASE11_SMALL_MANTISSA@
    } else if radix == 12 {
        BASE12_SMALL_MANTISSA@
    } else if radix == 13 {
        BASE13_SMALL_MANTISSA@
    } else if radix == 14 {
        BASE14_SMALL_MANTISSA@
    } else if radix == 15 {
        BASE15_SMALL_MANTISSA@
    } else if radix == 16 {
        BASE16_SMALL_MANTISSA@
    } else if radix == 17 {
        BASE17_SMALL_MANTISSA@
    } else if radix == 18 {
        BASE18_SMALL_MANTISSA@
    } else if radix == 19 {
        BASE19_SMALL_MANTISSA@
    } else if radix == 20 {
        BASE20_SMALL_MANTISSA@
    } else if radix == 21 {
        BASE21_SMALL_MANTISSA@
    } else if radix == 22 {
        BASE22_SMALL_MANTISSA@
    } else if radix == 23 {
        BASE23_SMALL_MANTISSA@
    } else if radix == 24 {
        BASE24_SMALL_MANTISSA@
    } else if radix == 25 {
        BASE25_SMALL_MANTISSA@
    } else if radix == 26 {
        BASE26_SMALL_MANTISSA@
    } else if radix == 27 {
        BASE27_SMALL_MANTISSA@
    } else if radix == 28 {
        BASE28_SMALL_MANTISSA@
    } else if radix == 29 {
        BASE29_SMALL_MANTISSA@
    } else if radix == 30 {
        BASE30_SMALL_MANTISSA@
    } else if radix == 31 {
        BASE31_SMALL_MANTISSA@
    } else if radix == 32 {
        BASE32_SMALL_MANTISSA@
    } else if radix == 33 {
        BASE33_SMALL_MANTISSA@
    } else if radix == 34 {
        BASE34_SMALL_MANTISSA@
    } else if radix == 35 {
        BASE35_SMALL_MANTISSA@
    } else {
        BASE36_SMALL_MANTISSA@
    }
}

pub open spec fn small_exponent_table(radix: u32) -> Seq<i32> {
    if radix == 2 {
        BASE2_SMALL_EXPONENT@
    } else if radix == 3 {
        BASE3_SMALL_EXPONENT@
    } else if radix == 4 {
        BASE4_SMALL_EXPONENT@
    } else if radix == 5 {
        BASE5_SMALL_EXPONENT@
    } else if radix == 6 {
        BASE6_SMALL_EXPONENT@
    } else if radix == 7 {
        BASE7_SMALL_EXPONENT@
    } else if radix == 8 {
        BASE8_SMALL_EXPONENT@
    } else if radix == 9 {
        BASE9_SMALL_EXPONENT@
    } else if radix == 10 {
        BASE10_SMALL_EXPONENT@
    } else if radix == 11 {
        BASE11_SMALL_EXPONENT@
    } else if radix == 12 {
        BASE12_SMALL_EXPONENT@
    } else if radix == 13 {
        BASE13_SMALL_EXPONENT@
    } else if radix == 14 {
        BASE14_SMALL_EXPONENT@
    } else if radix == 15 {
        BASE15_SMALL_EXPONENT@
    } else if radix == 16 {
        BASE16_SMALL_EXPONENT@
    } else if radix == 17 {
        BASE17_SMALL_EXPONENT@
    } else if radix == 18 {
        BASE18_SMALL_EXPONENT@
    } else if radix == 19 {
        BASE19_SMALL_EXPONENT@
    } else if radix == 20 {
        BASE20_SMALL_EXPONENT@
    } else if radix == 21 {
        BASE21_SMALL_EXPONENT@
    } else if radix == 22 {
        BASE22_SMALL_EXPONENT@
    } else if radix == 23 {
        BASE23_SMALL_EXPONENT@
    } else if radix == 24 {
        BASE24_SMALL_EXPONENT@
    } else if radix == 25 {
        BASE25_SMALL_EXPONENT@
    } else if radix == 26 {
        BASE26_SMALL_EXPONENT@
    } else if radix == 27 {
        BASE27_SMALL_EXPONENT@
    } else if radix == 28 {
        BASE28_SMALL_EXPONENT@
    } else if radix == 29 {
        BASE29_SMALL_EXPONENT@
    } else if radix == 30 {
        BASE30_SMALL_EXPONENT@
    } else if radix == 31 {
        BASE31_SMALL_EXPONENT@
    } else if radix == 32 {
        BASE32_SMALL_EXPONENT@
    } else if radix == 33 {
        BASE33_SMALL_EXPONENT@
    } else if radix == 34 {
        BASE34_SMALL_EXPONENT@
    } else if radix == 35 {
        BASE35_SMALL_EXPONENT@
    } else {
        BASE36_SMALL_EXPONENT@
    }
}

pub open spec fn large_mantissa_table(radix: u32) -> Seq<u128> {
    if radix == 2 {
        BASE2_LARGE_MANTISSA@
    } else if radix == 3 {
        BASE3_LARGE_MANTISSA@
    } else if radix == 4 {
        BASE4_LARGE_MANTISSA@
    } else if radix == 5 {
        BASE5_LARGE_MANTISSA@
    } else if radix == 6 {
        BASE6_LARGE_MANTISSA@
    } else if radix == 7 {
        BASE7_LARGE_MANTISSA@
    } else if radix == 8 {
        BASE8_LARGE_MANTISSA@
    } else if radix == 9 {
        BASE9_LARGE_MANTISSA@
    } else if radix == 10 {
        BASE10_LARGE_MANTISSA@
    } else if radix == 11 {
        BASE11_LARGE_MANTISSA@
    } else if radix == 12 {
        BASE12_LARGE_MANTISSA@
    } else if radix == 13 {
        BASE13_LARGE_MANTISSA@
    } else if radix == 14 {
        BASE14_LARGE_MANTISSA@
    } else if radix == 15 {
        BASE15_LARGE_MANTISSA@
    } else if radix == 16 {
        BASE16_LARGE_MANTISSA@
    } else if radix == 17 {
        BASE17_LARGE_MANTISSA@
    } else if radix == 18 {
        BASE18_LARGE_MANTISSA@
    } else if radix == 19 {
        BASE19_LARGE_MANTISSA@
    } else if radix == 20 {
        BASE20_LARGE_MANTISSA@
    } else if radix == 21 {
        BASE21_LARGE_MANTISSA@
    } else if radix == 22 {
        BASE22_LARGE_MANTISSA@
    } else if radix == 23 {
        BASE23_LARGE_MANTISSA@
    } else if radix == 24 {
        BASE24_LARGE_MANTISSA@
    } else if radix == 25 {
        BASE25_LARGE_MANTISSA@
    } else if radix == 26 {
        BASE26_LARGE_MANTISSA@
    } else if radix == 27 {
        BASE27_LARGE_MANTISSA@
    } else if radix == 28 {
        BASE28_LARGE_MANTISSA@
    } else if radix == 29 {
        BASE29_LARGE_MANTISSA@
    } else if radix == 30 {
        BASE30_LARGE_MANTISSA@
    } else if radix == 31 {
        BASE31_LARGE_MANTISSA@
    } else if radix == 32 {
        BASE32_LARGE_MANTISSA@
    } else if radix == 33 {
        BASE33_LARGE_MANTISSA@
    } else if radix == 34 {
        BASE34_LARGE_MANTISSA@
    } else if radix == 35 {
        BASE35_LARGE_MANTISSA@
    } else {
        BASE36_LARGE_MANTISSA@
    }
}

pub open spec fn large_exponent_table(radix: u32) -> Seq<i32> {
    if radix == 2 {
        BASE2_LARGE_EXPONENT@
    } else if radix == 3 {
        BASE3_LARGE_EXPONENT@
    } else if radix == 4 {
        BASE4_LARGE_EXPONENT@
    } else if radix == 5 {
        BASE5_LARGE_EXPONENT@
    } else if radix == 6 {
        BASE6_LARGE_EXPONENT@
    } else if radix == 7 {
        BASE7_LARGE_EXPONENT@
    } else if radix == 8 {
        BASE8_LARGE_EXPONENT@
    } else if radix == 9 {
        BASE9_LARGE_EXPONENT@
    } else if radix == 10 {
        BASE10_LARGE_EXPONENT@
    } else if radix == 11 {
        BASE11_LARGE_EXPONENT@
    } else if radix == 12 {
        BASE12_LARGE_EXPONENT@
    } else if radix == 13 {
        BASE13_LARGE_EXPONENT@
    } else if radix == 14 {
        BASE14_LARGE_EXPONENT@
    } else if radix == 15 {
        BASE15_LARGE_EXPONENT@
    } else if radix == 16 {
        BASE16_LARGE_EXPONENT@
    } else if radix == 17 {
        BASE17_LARGE_EXPONENT@
    } else if radix == 18 {
        BASE18_LARGE_EXPONENT@
    } else if radix == 19 {
        BASE19_LARGE_EXPONENT@
    } else if radix == 20 {
        BASE20_LARGE_EXPONENT@
    } else if radix == 21 {
        BASE21_LARGE_EXPONENT@
    } else if radix == 22 {
        BASE22_LARGE_EXPONENT@
    } else if radix == 23 {
        BASE23_LARGE_EXPONENT@
    } else if radix == 24 {
        BASE24_LARGE_EXPONENT@
    } else if radix == 25 {
        BASE25_LARGE_EXPONENT@
    } else if radix == 26 {
        BASE26_LARGE_EXPONENT@
    } else if radix == 27 {
        BASE27_LARGE_EXPONENT@
    } else if radix == 28 {
        BASE28_LARGE_EXPONENT@
    } else if radix == 29 {
        BASE29_LARGE_EXPONENT@
    } else if radix == 30 {
        BASE30_LARGE_EXPONENT@
    } else if radix == 31 {
        BASE31_LARGE_EXPONENT@
    } else if radix == 32 {
        BASE32_LARGE_EXPONENT@
    } else if radix == 33 {
        BASE33_LARGE_EXPONENT@
    } else if radix == 34 {
        BASE34_LARGE_EXPONENT@
    } else if radix == 35 {
        BASE35_LARGE_EXPONENT@
    } else {
        BASE36_LARGE_EXPONENT@
    }
}

pub open spec fn small_int_table(radix: u32) -> Seq<u128> {
    if radix == 2 {
        BASE2_SMALL_INT_POWERS@
    } else if radix == 3 {
        BASE3_SMALL_INT_POWERS@
    } else if radix == 4 {
        BASE4_SMALL_INT_POWERS@
    } else if radix == 5 {
        BASE5_SMALL_INT_POWERS@
    } else if radix == 6 {
        BASE6_SMALL_INT_POWERS@
    } else if radix == 7 {
        BASE7_SMALL_INT_POWERS@
    } else if radix == 8 {
        BASE8_SMALL_INT_POWERS@
    } else if radix == 9 {
        BASE9_SMALL_INT_POWERS@
    } else if radix == 10 {
        BASE10_SMALL_INT_POWERS@
    } else if radix == 11 {
        BASE11_SMALL_INT_POWERS@
    } else if radix == 12 {
        BASE12_SMALL_INT_POWERS@
    } else if radix == 13 {
        BASE13_SMALL_INT_POWERS@
    } else if radix == 14 {
        BASE14_SMALL_INT_POWERS@
    } else if radix == 15 {
        BASE15_SMALL_INT_POWERS@
    } else if radix == 16 {
        BASE16_SMALL_INT_POWERS@
    } else if radix == 17 {
        BASE17_SMALL_INT_POWERS@
    } else if radix == 18 {
        BASE18_SMALL_INT_POWERS@
    } else if radix == 19 {
        BASE19_SMALL_INT_POWERS@
    } else if radix == 20 {
        BASE20_SMALL_INT_POWERS@
    } else if radix == 21 {
        BASE21_SMALL_INT_POWERS@
    } else if radix == 22 {
        BASE22_SMALL_INT_POWERS@
    } else if radix == 23 {
        BASE23_SMALL_INT_POWERS@
    } else if radix == 24 {
        BASE24_SMALL_INT_POWERS@
    } else if radix == 25 {
        BASE25_SMALL_INT_POWERS@
    } else if radix == 26 {
        BASE26_SMALL_INT_POWERS@
    } else if radix == 27 {
        BASE27_SMALL_INT_POWERS@
    } else if radix == 28 {
        BASE28_SMALL_INT_POWERS@
    } else if radix == 29 {
        BASE29_SMALL_INT_POWERS@
    } else if radix == 30 {
        BASE30_SMALL_INT_POWERS@
    } else if radix == 31 {
        BASE31_SMALL_INT_POWERS@
    } else if radix == 32 {
        BASE32_SMALL_INT_POWERS@
    } else if radix == 33 {
        BASE33_SMALL_INT_POWERS@
    } else if radix == 34 {
        BASE34_SMALL_INT_POWERS@
    } else if radix == 35 {
        BASE35_SMALL_INT_POWERS@
    } else {
        BASE36_SMALL_INT_POWERS@
    }
}

pub open spec fn table_step(radix: u32) -> int {
    if radix == 2 {
        128int
    } else if radix == 3 {
        81int
    } else if radix == 4 {
        64int
    } else if radix == 5 {
        56int
    } else if radix == 6 {
        50int
    } else if radix == 7 {
        46int
    } else if radix == 8 {
        43int
    } else if radix == 9 {
        41int
    } else if radix == 10 {
        39int
    } else if radix == 11 {
        38int
    } else if radix == 12 {
        36int
    } else if radix == 13 {
        35int
    } else if radix == 14 {
        34int
    } else if radix == 15 {
        33int
    } else if radix == 16 {
        32int
    } else if radix == 17 {
        32int
    } else if radix == 18 {
        31int
    } else if radix == 19 {
        31int
    } else if radix == 20 {
        30int
    } else if radix == 21 {
        30int
    } else if radix == 22 {
        29int
    } else if radix == 23 {
        29int
    } else if radix == 24 {
        28int
    } else if radix == 25 {
        28int
    } else if radix == 26 {
        28int
    } else if radix == 27 {
        27int
    } else if radix == 28 {
        27int
    } else if radix == 29 {
        27int
    } else if radix == 30 {
        27int
    } else if radix == 31 {
        26int
    } else if radix == 32 {
        26int
    } else if radix == 33 {
        26int
    } else if radix == 34 {
        26int
    } else if radix == 35 {
        25int
    } else {
        25int
    }
}

pub open spec fn table_bias(radix: u32) -> int {
    if radix == 2 {
        1152int
    } else if radix == 3 {
        729int
    } else if radix == 4 {
        576int
    } else if radix == 5 {
        504int
    } else if radix == 6 {
        450int
    } else if radix == 7 {
        414int
    } else if radix == 8 {
        387int
    } else if radix == 9 {
        369int
    } else if radix == 10 {
        351int
    } else if radix == 11 {
        342int
    } else if radix == 12 {
        324int
    } else if radix == 13 {
        315int
    } else if radix == 14 {
        306int
    } else if radix == 15 {
        297int
    } else if radix == 16 {
        288int
    } else if radix == 17 {
        288int
    } else if radix == 18 {
        279int
    } else if radix == 19 {
        279int
    } else if radix == 20 {
        270int
    } else if radix == 21 {
        270int
    } else if radix == 22 {
        261int
    } else if radix == 23 {
        261int
    } else if radix == 24 {
        252int
    } else if radix == 25 {
        252int
    } else if radix == 26 {
        252int
    } else if radix == 27 {
        243int
    } else if radix == 28 {
        243int
    } else if radix == 29 {
        243int
    } else if radix == 30 {
        243int
    } else if radix == 31 {
        234int
    } else if radix == 32 {
        234int
    } else if radix == 33 {
        234int
    } else if radix == 34 {
        234int
    } else if radix == 35 {
        225int
    } else {
        225int
    }
}

/// Number of entries in the large table of `radix`.
pub open spec fn large_table_len(radix: u32) -> int {
    large_mantissa_table(radix).len() as int
}

/// Smallest exponent whose decomposition stays inside the tables of `radix`.
pub open spec fn min_exponent(radix: u32) -> int {
    -table_bias(radix)
}

/// Largest exponent whose decomposition stays inside the tables of `radix`.
pub open spec fn max_exponent(radix: u32) -> int {
    table_step(radix) * large_table_len(radix) - table_bias(radix) - 1
}

/// Builds the bundle for radix 2 out of its constant tables.
fn powers_base2() -> (r: ModeratePathPowers<'static, u128>)
    ensures
        r.wf(),
        r.small.mant@ == BASE2_SMALL_MANTISSA@,
        r.small.exp@ == BASE2_SMALL_EXPONENT@,
        r.large.mant@ == BASE2_LARGE_MANTISSA@,
        r.large.exp@ == BASE2_LARGE_EXPONENT@,
        r.small_int@ == BASE2_SMALL_INT_POWERS@,
        r.step == 128,
        r.bias == 1152,
{
    ModeratePathPowers {
            small: ExtendedFloatArray {
                mant: BASE2_SMALL_MANTISSA.as_slice(),
                exp: BASE2_SMALL_EXPONENT.as_slice(),
            },
            large: ExtendedFloatArray {
                mant: BASE2_LARGE_MANTISSA.as_slice(),
                exp: BASE2_LARGE_EXPONENT.as_slice(),
            },
            small_int: BASE2_SMALL_INT_POWERS.as_slice(),
            step: 128,
            bias: 1152,
        }
}

/// Builds the bundle for radix 3 out of its constant tables.
fn powers_base3() -> (r: ModeratePathPowers<'static, u128>)
    ensures
        r.wf(),
        r.small.mant@ == BASE3_SMALL_MANTISSA@,
        r.small.exp@ == BASE3_SMALL_EXPONENT@,
        r.large.mant@ == BASE3_LARGE_MANTISSA@,
        r.large.exp@ == BASE3_LARGE_EXPONENT@,
        r.small_int@ == BASE3_SMALL_INT_POWERS@,
        r.step == 81,
        r.bias == 729,
{
    ModeratePathPowers {
            small: ExtendedFloatArray {
                mant: BASE3_SMALL_MANTISSA.as_slice(),
                exp: BASE3_SMALL_EXPONENT.as_slice(),
            },
            large: ExtendedFloatArray {
                mant: BASE3_LARGE_MANTISSA.as_slice(),
                exp: BASE3_LARGE_EXPONENT.as_slice(),
            },
            small_int: BASE3_SMALL_INT_POWERS.as_slice(),
            step: 81,
            bias: 729,
        }
}

/// Builds the bundle for radix 4 out of its constant tables.
fn powers_base4() -> (r: ModeratePathPowers<'static, u128>)
    ensures
        r.wf(),
        r.small.mant@ == BASE4_SMALL_MANTISSA@,
        r.small.exp@ == BASE4_SMALL_EXPONENT@,
        r.large.mant@ == BASE4_LARGE_MANTISSA@,
        r.large.exp@ == BASE4_LARGE_EXPONENT@,
        r.small_int@ == BASE4_SMALL_INT_POWERS@,
        r.step == 64,
        r.bias == 576,
{
    ModeratePathPowers {
            small: ExtendedFloatArray {
                mant: BASE4_SMALL_MANTISSA.as_slice(),
                exp: BASE4_SMALL_EXPONENT.as_slice(),
            },
            large: ExtendedFloatArray {
                mant: BASE4_LARGE_MANTISSA.as_slice(),
                exp: BASE4_LARGE_EXPONENT.as_slice(),
            },
            small_int: BASE4_SMALL_INT_POWERS.as_slice(),
            step: 64,
            bias: 576,
        }
}

/// Builds the bundle for radix 5 out of its constant tables.
fn powers_base5() -> (r: ModeratePathPowers<'static, u128>)
    ensures
        r.wf(),
        r.small.mant@ == BASE5_SMALL_MANTISSA@,
        r.small.exp@ == BASE5_SMALL_EXPONENT@,
        r.large.mant@ == BASE5_LARGE_MANTISSA@,
        r.large.exp@ == BASE5_LARGE_EXPONENT@,
        r.small_int@ == BASE5_SMALL_INT_POWERS@,
        r.step == 56,
        r.bias == 504,
{
    ModeratePathPowers {
            small: ExtendedFloatArray {
                mant: BASE5_SMALL_MANTISSA.as_slice(),
                exp: BASE5_SMALL_EXPONENT.as_slice(),
            },
            large: ExtendedFloatArray {
                mant: BASE5_LARGE_MANTISSA.as_slice(),
                exp: BASE5_LARGE_EXPONENT.as_slice(),
            },
            small_int: BASE5_SMALL_INT_POWERS.as_slice(),
            step: 56,
            bias: 504,
        }
}

/// Builds the bundle for radix 6 out of its constant tables.
fn powers_base6() -> (r: ModeratePathPowers<'static, u128>)
    ensures
        r.wf(),
        r.small.mant@ == BASE6_SMALL_MANTISSA@,
        r.small.exp@ == BASE6_SMALL_EXPONENT@,
        r.large.mant@ == BASE6_LARGE_MANTISSA@,
        r.large.exp@ == BASE6_LARGE_EXPONENT@,
        r.small_int@ == BASE6_SMALL_INT_POWERS@,
        r.step == 50,
        r.bias == 450,
{
    ModeratePathPowers {
            small: ExtendedFloatArray {
                mant: BASE6_SMALL_MANTISSA.as_slice(),
                exp: BASE6_SMALL_EXPONENT.as_slice(),
            },
            large: ExtendedFloatArray {
                mant: BASE6_LARGE_MANTISSA.as_slice(),
                exp: BASE6_LARGE_EXPONENT.as_slice(),
            },
            small_int: BASE6_SMALL_INT_POWERS.as_slice(),
            step: 50,
            bias: 450,
        }
}

/// Builds the bundle for radix 7 out of its constant tables.
fn powers_base7() -> (r: ModeratePathPowers<'static, u128>)
    ensures
        r.wf(),
        r.small.mant@ == BASE7_SMALL_MANTISSA@,
        r.small.exp@ == BASE7_SMALL_EXPONENT@,
        r.large.mant@ == BASE7_LARGE_MANTISSA@,
        r.large.exp@ == BASE7_LARGE_EXPONENT@,
        r.small_int@ == BASE7_SMALL_INT_POWERS@,
        r.step == 46,
        r.bias == 414,
{
    ModeratePathPowers {
            small: ExtendedFloatArray {
                mant: BASE7_SMALL_MANTISSA.as_slice(),
                exp: BASE7_SMALL_EXPONENT.as_slice(),
            },
            large: ExtendedFloatArray {
                mant: BASE7_LARGE_MANTISSA.as_slice(),
                exp: BASE7_LARGE_EXPONENT.as_slice(),
            },
            small_int: BASE7_SMALL_INT_POWERS.as_slice(),
            step: 46,
            bias: 414,
        }
}

/// Builds the bundle for radix 8 out of its constant tables.
fn powers_base8() -> (r: ModeratePathPowers<'static, u128>)
    ensures
        r.wf(),
        r.small.mant@ == BASE8_SMALL_MANTISSA@,
        r.small.exp@ == BASE8_SMALL_EXPONENT@,
        r.large.mant@ == BASE8_LARGE_MANTISSA@,
        r.large.exp@ == BASE8_LARGE_EXPONENT@,
        r.small_int@ == BASE8_SMALL_INT_POWERS@,
        r.step == 43,
        r.bias == 387,
{
    ModeratePathPowers {
            small: ExtendedFloatArray {
                mant: BASE8_SMALL_MANTISSA.as_slice(),
                exp: BASE8_SMALL_EXPONENT.as_slice(),
            },
            large: ExtendedFloatArray {
                mant: BASE8_LARGE_MANTISSA.as_slice(),
                exp: BASE8_LARGE_EXPONENT.as_slice(),
            },
            small_int: BASE8_SMALL_INT_POWERS.as_slice(),
            step: 43,
            bias: 387,
        }
}

/// Builds the bundle for radix 9 out of its constant tables.
fn powers_base9() -> (r: ModeratePathPowers<'static, u128>)
    ensures
        r.wf(),
        r.small.mant@ == BASE9_SMALL_MANTISSA@,
        r.small.exp@ == BASE9_SMALL_EXPONENT@,
        r.large.mant@ == BASE9_LARGE_MANTISSA@,
        r.large.exp@ == BASE9_LARGE_EXPONENT@,
        r.small_int@ == BASE9_SMALL_INT_POWERS@,
        r.step == 41,
        r.bias == 369,
{
    ModeratePathPowers {
            small: ExtendedFloatArray {
                mant: BASE9_SMALL_MANTISSA.as_slice(),
                exp: BASE9_SMALL_EXPONENT.as_slice(),
            },
            large: ExtendedFloatArray {
                mant: BASE9_LARGE_MANTISSA.as_slice(),
                exp: BASE9_LARGE_EXPONENT.as_slice(),
            },
            small_int: BASE9_SMALL_INT_POWERS.as_slice(),
            step: 41,
            bias: 369,
        }
}

/// Builds the bundle for radix 10 out of its constant tables.
fn powers_base10() -> (r: ModeratePathPowers<'static, u128>)
    ensures
        r.wf(),
        r.small.mant@ == BASE10_SMALL_MANTISSA@,
        r.small.exp@ == BASE10_SMALL_EXPONENT@,
        r.large.mant@ == BASE10_LARGE_MANTISSA@,
        r.large.exp@ == BASE10_LARGE_EXPONENT@,
        r.small_int@ == BASE10_SMALL_INT_POWERS@,
        r.step == 39,
        r.bias == 351,
{
    ModeratePathPowers {
            small: ExtendedFloatArray {
                mant: BASE10_SMALL_MANTISSA.as_slice(),
                exp: BASE10_SMALL_EXPONENT.as_slice(),
            },
            large: ExtendedFloatArray {
                mant: BASE10_LARGE_MANTISSA.as_slice(),
                exp: BASE10_LARGE_EXPONENT.as_slice(),
            },
            small_int: BASE10_SMALL_INT_POWERS.as_slice(),
            step: 39,
            bias: 351,
        }
}

/// Builds the bundle for radix 11 out of its constant tables.
fn powers_base11() -> (r: ModeratePathPowers<'static, u128>)
    ensures
        r.wf(),
        r.small.mant@ == BASE11_SMALL_MANTISSA@,
        r.small.exp@ == BASE11_SMALL_EXPONENT@,
        r.large.mant@ == BASE11_LARGE_MANTISSA@,
        r.large.exp@ == BASE11_LARGE_EXPONENT@,
        r.small_int@ == BASE11_SMALL_INT_POWERS@,
        r.step == 38,
        r.bias == 342,
{
    ModeratePathPowers {
            small: ExtendedFloatArray {
                mant: BASE11_SMALL_MANTISSA.as_slice(),
                exp: BASE11_SMALL_EXPONENT.as_slice(),
            },
            large: ExtendedFloatArray {
                mant: BASE11_LARGE_MANTISSA.as_slice(),
                exp: BASE11_LARGE_EXPONENT.as_slice(),
            },
            small_int: BASE11_SMALL_INT_POWERS.as_slice(),
            step: 38,
            bias: 342,
        }
}

/// Builds the bundle for radix 12 out of its constant tables.
fn powers_base12() -> (r: ModeratePathPowers<'static, u128>)
    ensures
        r.wf(),
        r.small.mant@ == BASE12_SMALL_MANTISSA@,
        r.small.exp@ == BASE12_SMALL_EXPONENT@,
        r.large.mant@ == BASE12_LARGE_MANTISSA@,
        r.large.exp@ == BASE12_LARGE_EXPONENT@,
        r.small_int@ == BASE12_SMALL_INT_POWERS@,
        r.step == 36,
        r.bias == 324,
{
    ModeratePathPowers {
            small: ExtendedFloatArray {
                mant: BASE12_SMALL_MANTISSA.as_slice(),
                exp: BASE12_SMALL_EXPONENT.as_slice(),
            },
            large: ExtendedFloatArray {
                mant: BASE12_LARGE_MANTISSA.as_slice(),
                exp: BASE12_LARGE_EXPONENT.as_slice(),
            },
            small_int: BASE12_SMALL_INT_POWERS.as_slice(),
            step: 36,
            bias: 324,
        }
}

/// Builds the bundle for radix 13 out of its constant tables.
fn powers_base13() -> (r: ModeratePathPowers<'static, u128>)
    ensures
        r.wf(),
        r.small.mant@ == BASE13_SMALL_MANTISSA@,
        r.small.exp@ == BASE13_SMALL_EXPONENT@,
        r.large.mant@ == BASE13_LARGE_MANTISSA@,
        r.large.exp@ == BASE13_LARGE_EXPONENT@,
        r.small_int@ == BASE13_SMALL_INT_POWERS@,
        r.step == 35,
        r.bias == 315,
{
    ModeratePathPowers {
            small: ExtendedFloatArray {
                mant: BASE13_SMALL_MANTISSA.as_slice(),
                exp: BASE13_SMALL_EXPONENT.as_slice(),
            },
            large: ExtendedFloatArray {
                mant: BASE13_LARGE_MANTISSA.as_slice(),
                exp: BASE13_LARGE_EXPONENT.as_slice(),
            },
            small_int: BASE13_SMALL_INT_POWERS.as_slice(),
            step: 35,
            bias: 315,
        }
}

/// Builds the bundle for radix 14 out of its constant tables.
fn powers_base14() -> (r: ModeratePathPowers<'static, u128>)
    ensures
        r.wf(),
        r.small.mant@ == BASE14_SMALL_MANTISSA@,
        r.small.exp@ == BASE14_SMALL_EXPONENT@,
        r.large.mant@ == BASE14_LARGE_MANTISSA@,
        r.large.exp@ == BASE14_LARGE_EXPONENT@,
        r.small_int@ == BASE14_SMALL_INT_POWERS@,
        r.step == 34,
        r.bias == 306,
{
    ModeratePathPowers {
            small: ExtendedFloatArray {
                mant: BASE14_SMALL_MANTISSA.as_slice(),
                exp: BASE14_SMALL_EXPONENT.as_slice(),
            },
            large: ExtendedFloatArray {
                mant: BASE14_LARGE_MANTISSA.as_slice(),
                exp: BASE14_LARGE_EXPONENT.as_slice(),
            },
            small_int: BASE14_SMALL_INT_POWERS.as_slice(),
            step: 34,
            bias: 306,
        }
}

/// Builds the bundle for radix 15 out of its constant tables.
fn powers_base15() -> (r: ModeratePathPowers<'static, u128>)
    ensures
        r.wf(),
        r.small.mant@ == BASE15_SMALL_MANTISSA@,
        r.small.exp@ == BASE15_SMALL_EXPONENT@,
        r.large.mant@ == BASE15_LARGE_MANTISSA@,
        r.large.exp@ == BASE15_LARGE_EXPONENT@,
        r.small_int@ == BASE15_SMALL_INT_POWERS@,
        r.step == 33,
        r.bias == 297,
{
    ModeratePathPowers {
            small: ExtendedFloatArray {
                mant: BASE15_SMALL_MANTISSA.as_slice(),
                exp: BASE15_SMALL_EXPONENT.as_slice(),
            },
            large: ExtendedFloatArray {
                mant: BASE15_LARGE_MANTISSA.as_slice(),
                exp: BASE15_LARGE_EXPONENT.as_slice(),
            },
            small_int: BASE15_SMALL_INT_POWERS.as_slice(),
            step: 33,
            bias: 297,
        }
}

/// Builds the bundle for radix 16 out of its constant tables.
fn powers_base16() -> (r: ModeratePathPowers<'static, u128>)
    ensures
        r.wf(),
        r.small.mant@ == BASE16_SMALL_MANTISSA@,
        r.small.exp@ == BASE16_SMALL_EXPONENT@,
        r.large.mant@ == BASE16_LARGE_MANTISSA@,
        r.large.exp@ == BASE16_LARGE_EXPONENT@,
        r.small_int@ == BASE16_SMALL_INT_POWERS@,
        r.step == 32,
        r.bias == 288,
{
    ModeratePathPowers {
            small: ExtendedFloatArray {
                mant: BASE16_SMALL_MANTISSA.as_slice(),
                exp: BASE16_SMALL_EXPONENT.as_slice(),
            },
            large: ExtendedFloatArray {
                mant: BASE16_LARGE_MANTISSA.as_slice(),
                exp: BASE16_LARGE_EXPONENT.as_slice(),
            },
            small_int: BASE16_SMALL_INT_POWERS.as_slice(),
            step: 32,
            bias: 288,
        }
}

/// Builds the bundle for radix 17 out of its constant tables.
fn powers_base17() -> (r: ModeratePathPowers<'static, u128>)
    ensures
        r.wf(),
        r.small.mant@ == BASE17_SMALL_MANTISSA@,
        r.small.exp@ == BASE17_SMALL_EXPONENT@,
        r.large.mant@ == BASE17_LARGE_MANTISSA@,
        r.large.exp@ == BASE17_LARGE_EXPONENT@,
        r.small_int@ == BASE17_SMALL_INT_POWERS@,
        r.step == 32,
        r.bias == 288,
{
    ModeratePathPowers {
            small: ExtendedFloatArray {
                mant: BASE17_SMALL_MANTISSA.as_slice(),
                exp: BASE17_SMALL_EXPONENT.as_slice(),
            },
            large: ExtendedFloatArray {
                mant: BASE17_LARGE_MANTISSA.as_slice(),
                exp: BASE17_LARGE_EXPONENT.as_slice(),
            },
            small_int: BASE17_SMALL_INT_POWERS.as_slice(),
            step: 32,
            bias: 288,
        }
}

/// Builds the bundle for radix 18 out of its constant tables.
fn powers_base18() -> (r: ModeratePathPowers<'static, u128>)
    ensures
        r.wf(),
        r.small.mant@ == BASE18_SMALL_MANTISSA@,
        r.small.exp@ == BASE18_SMALL_EXPONENT@,
        r.large.mant@ == BASE18_LARGE_MANTISSA@,
        r.large.exp@ == BASE18_LARGE_EXPONENT@,
        r.small_int@ == BASE18_SMALL_INT_POWERS@,
        r.step == 31,
        r.bias == 279,
{
    ModeratePathPowers {
            small: ExtendedFloatArray {
                mant: BASE18_SMALL_MANTISSA.as_slice(),
                exp: BASE18_SMALL_EXPONENT.as_slice(),
            },
            large: ExtendedFloatArray {
                mant: BASE18_LARGE_MANTISSA.as_slice(),
                exp: BASE18_LARGE_EXPONENT.as_slice(),
            },
            small_int: BASE18_SMALL_INT_POWERS.as_slice(),
            step: 31,
            bias: 279,
        }
}

/// Builds the bundle for radix 19 out of its constant tables.
fn powers_base19() -> (r: ModeratePathPowers<'static, u128>)
    ensures
        r.wf(),
        r.small.mant@ == BASE19_SMALL_MANTISSA@,
        r.small.exp@ == BASE19_SMALL_EXPONENT@,
        r.large.mant@ == BASE19_LARGE_MANTISSA@,
        r.large.exp@ == BASE19_LARGE_EXPONENT@,
        r.small_int@ == BASE19_SMALL_INT_POWERS@,
        r.step == 31,
        r.bias == 279,
{
    ModeratePathPowers {
            small: ExtendedFloatArray {
                mant: BASE19_SMALL_MANTISSA.as_slice(),
                exp: BASE19_SMALL_EXPONENT.as_slice(),
            },
            large: ExtendedFloatArray {
                mant: BASE19_LARGE_MANTISSA.as_slice(),
                exp: BASE19_LARGE_EXPONENT.as_slice(),
            },
            small_int: BASE19_SMALL_INT_POWERS.as_slice(),
            step: 31,
            bias: 279,
        }
}

/// Builds the bundle for radix 20 out of its constant tables.
fn powers_base20() -> (r: ModeratePathPowers<'static, u128>)
    ensures
        r.wf(),
        r.small.mant@ == BASE20_SMALL_MANTISSA@,
        r.small.exp@ == BASE20_SMALL_EXPONENT@,
        r.large.mant@ == BASE20_LARGE_MANTISSA@,
        r.large.exp@ == BASE20_LARGE_EXPONENT@,
        r.small_int@ == BASE20_SMALL_INT_POWERS@,
        r.step == 30,
        r.bias == 270,
{
    ModeratePathPowers {
            small: ExtendedFloatArray {
                mant: BASE20_SMALL_MANTISSA.as_slice(),
                exp: BASE20_SMALL_EXPONENT.as_slice(),
            },
            large: ExtendedFloatArray {
                mant: BASE20_LARGE_MANTISSA.as_slice(),
                exp: BASE20_LARGE_EXPONENT.as_slice(),
            },
            small_int: BASE20_SMALL_INT_POWERS.as_slice(),
            step: 30,
            bias: 270,
        }
}

/// Builds the bundle for radix 21 out of its constant tables.
fn powers_base21() -> (r: ModeratePathPowers<'static, u128>)
    ensures
        r.wf(),
        r.small.mant@ == BASE21_SMALL_MANTISSA@,
        r.small.exp@ == BASE21_SMALL_EXPONENT@,
        r.large.mant@ == BASE21_LARGE_MANTISSA@,
        r.large.exp@ == BASE21_LARGE_EXPONENT@,
        r.small_int@ == BASE21_SMALL_INT_POWERS@,
        r.step == 30,
        r.bias == 270,
{
    ModeratePathPowers {
            small: ExtendedFloatArray {
                mant: BASE21_SMALL_MANTISSA.as_slice(),
                exp: BASE21_SMALL_EXPONENT.as_slice(),
            },
            large: ExtendedFloatArray {
                mant: BASE21_LARGE_MANTISSA.as_slice(),
                exp: BASE21_LARGE_EXPONENT.as_slice(),
            },
            small_int: BASE21_SMALL_INT_POWERS.as_slice(),
            step: 30,
            bias: 270,
        }
}

/// Builds the bundle for radix 22 out of its constant tables.
fn powers_base22() -> (r: ModeratePathPowers<'static, u128>)
    ensures
        r.wf(),
        r.small.mant@ == BASE22_SMALL_MANTISSA@,
        r.small.exp@ == BASE22_SMALL_EXPONENT@,
        r.large.mant@ == BASE22_LARGE_MANTISSA@,
        r.large.exp@ == BASE22_LARGE_EXPONENT@,
        r.small_int@ == BASE22_SMALL_INT_POWERS@,
        r.step == 29,
        r.bias == 261,
{
    ModeratePathPowers {
            small: ExtendedFloatArray {
                mant: BASE22_SMALL_MANTISSA.as_slice(),
                exp: BASE22_SMALL_EXPONENT.as_slice(),
            },
            large: ExtendedFloatArray {
                mant: BASE22_LARGE_MANTISSA.as_slice(),
                exp: BASE22_LARGE_EXPONENT.as_slice(),
            },
            small_int: BASE22_SMALL_INT_POWERS.as_slice(),
            step: 29,
            bias: 261,
        }
}

/// Builds the bundle for radix 23 out of its constant tables.
fn powers_base23() -> (r: ModeratePathPowers<'static, u128>)
    ensures
        r.wf(),
        r.small.mant@ == BASE23_SMALL_MANTISSA@,
        r.small.exp@ == BASE23_SMALL_EXPONENT@,
        r.large.mant@ == BASE23_LARGE_MANTISSA@,
        r.large.exp@ == BASE23_LARGE_EXPONENT@,
        r.small_int@ == BASE23_SMALL_INT_POWERS@,
        r.step == 29,
        r.bias == 261,
{
    ModeratePathPowers {
            small: ExtendedFloatArray {
                mant: BASE23_SMALL_MANTISSA.as_slice(),
                exp: BASE23_SMALL_EXPONENT.as_slice(),
            },
            large: ExtendedFloatArray {
                mant: BASE23_LARGE_MANTISSA.as_slice(),
                exp: BASE23_LARGE_EXPONENT.as_slice(),
            },
            small_int: BASE23_SMALL_INT_POWERS.as_slice(),
            step: 29,
            bias: 261,
        }
}

/// Builds the bundle for radix 24 out of its constant tables.
fn powers_base24() -> (r: ModeratePathPowers<'static, u128>)
    ensures
        r.wf(),
        r.small.mant@ == BASE24_SMALL_MANTISSA@,
        r.small.exp@ == BASE24_SMALL_EXPONENT@,
        r.large.mant@ == BASE24_LARGE_MANTISSA@,
        r.large.exp@ == BASE24_LARGE_EXPONENT@,
        r.small_int@ == BASE24_SMALL_INT_POWERS@,
        r.step == 28,
        r.bias == 252,
{
    ModeratePathPowers {
            small: ExtendedFloatArray {
                mant: BASE24_SMALL_MANTISSA.as_slice(),
                exp: BASE24_SMALL_EXPONENT.as_slice(),
            },
            large: ExtendedFloatArray {
                mant: BASE24_LARGE_MANTISSA.as_slice(),
                exp: BASE24_LARGE_EXPONENT.as_slice(),
            },
            small_int: BASE24_SMALL_INT_POWERS.as_slice(),
            step: 28,
            bias: 252,
        }
}

/// Builds the bundle for radix 25 out of its constant tables.
fn powers_base25() -> (r: ModeratePathPowers<'static, u128>)
    ensures
        r.wf(),
        r.small.mant@ == BASE25_SMALL_MANTISSA@,
        r.small.exp@ == BASE25_SMALL_EXPONENT@,
        r.large.mant@ == BASE25_LARGE_MANTISSA@,
        r.large.exp@ == BASE25_LARGE_EXPONENT@,
        r.small_int@ == BASE25_SMALL_INT_POWERS@,
        r.step == 28,
        r.bias == 252,
{
    ModeratePathPowers {
            small: ExtendedFloatArray {
                mant: BASE25_SMALL_MANTISSA.as_slice(),
                exp: BASE25_SMALL_EXPONENT.as_slice(),
            },
            large: ExtendedFloatArray {
                mant: BASE25_LARGE_MANTISSA.as_slice(),
                exp: BASE25_LARGE_EXPONENT.as_slice(),
            },
            small_int: BASE25_SMALL_INT_POWERS.as_slice(),
            step: 28,
            bias: 252,
        }
}

/// Builds the bundle for radix 26 out of its constant tables.
fn powers_base26() -> (r: ModeratePathPowers<'static, u128>)
    ensures
        r.wf(),
        r.small.mant@ == BASE26_SMALL_MANTISSA@,
        r.small.exp@ == BASE26_SMALL_EXPONENT@,
        r.large.mant@ == BASE26_LARGE_MANTISSA@,
        r.large.exp@ == BASE26_LARGE_EXPONENT@,
        r.small_int@ == BASE26_SMALL_INT_POWERS@,
        r.step == 28,
        r.bias == 252,
{
    ModeratePathPowers {
            small: ExtendedFloatArray {
                mant: BASE26_SMALL_MANTISSA.as_slice(),
                exp: BASE26_SMALL_EXPONENT.as_slice(),
            },
            large: ExtendedFloatArray {
                mant: BASE26_LARGE_MANTISSA.as_slice(),
                exp: BASE26_LARGE_EXPONENT.as_slice(),
            },
            small_int: BASE26_SMALL_INT_POWERS.as_slice(),
            step: 28,
            bias: 252,
        }
}

/// Builds the bundle for radix 27 out of its constant tables.
fn powers_base27() -> (r: ModeratePathPowers<'static, u128>)
    ensures
        r.wf(),
        r.small.mant@ == BASE27_SMALL_MANTISSA@,
        r.small.exp@ == BASE27_SMALL_EXPONENT@,
        r.large.mant@ == BASE27_LARGE_MANTISSA@,
        r.large.exp@ == BASE27_LARGE_EXPONENT@,
        r.small_int@ == BASE27_SMALL_INT_POWERS@,
        r.step == 27,
        r.bias == 243,
{
    ModeratePathPowers {
            small: ExtendedFloatArray {
                mant: BASE27_SMALL_MANTISSA.as_slice(),
                exp: BASE27_SMALL_EXPONENT.as_slice(),
            },
            large: ExtendedFloatArray {
                mant: BASE27_LARGE_MANTISSA.as_slice(),
                exp: BASE27_LARGE_EXPONENT.as_slice(),
            },
            small_int: BASE27_SMALL_INT_POWERS.as_slice(),
            step: 27,
            bias: 243,
        }
}

/// Builds the bundle for radix 28 out of its constant tables.
fn powers_base28() -> (r: ModeratePathPowers<'static, u128>)
    ensures
        r.wf(),
        r.small.mant@ == BASE28_SMALL_MANTISSA@,
        r.small.exp@ == BASE28_SMALL_EXPONENT@,
        r.large.mant@ == BASE28_LARGE_MANTISSA@,
        r.large.exp@ == BASE28_LARGE_EXPONENT@,
        r.small_int@ == BASE28_SMALL_INT_POWERS@,
        r.step == 27,
        r.bias == 243,
{
    ModeratePathPowers {
            small: ExtendedFloatArray {
                mant: BASE28_SMALL_MANTISSA.as_slice(),
                exp: BASE28_SMALL_EXPONENT.as_slice(),
            },
            large: ExtendedFloatArray {
                mant: BASE28_LARGE_MANTISSA.as_slice(),
                exp: BASE28_LARGE_EXPONENT.as_slice(),
            },
            small_int: BASE28_SMALL_INT_POWERS.as_slice(),
            step: 27,
            bias: 243,
        }
}

/// Builds the bundle for radix 29 out of its constant tables.
fn powers_base29() -> (r: ModeratePathPowers<'static, u128>)
    ensures
        r.wf(),
        r.small.mant@ == BASE29_SMALL_MANTISSA@,
        r.small.exp@ == BASE29_SMALL_EXPONENT@,
        r.large.mant@ == BASE29_LARGE_MANTISSA@,
        r.large.exp@ == BASE29_LARGE_EXPONENT@,
        r.small_int@ == BASE29_SMALL_INT_POWERS@,
        r.step == 27,
        r.bias == 243,
{
    ModeratePathPowers {
            small: ExtendedFloatArray {
                mant: BASE29_SMALL_MANTISSA.as_slice(),
                exp: BASE29_SMALL_EXPONENT.as_slice(),
            },
            large: ExtendedFloatArray {
                mant: BASE29_LARGE_MANTISSA.as_slice(),
                exp: BASE29_LARGE_EXPONENT.as_slice(),
            },
            small_int: BASE29_SMALL_INT_POWERS.as_slice(),
            step: 27,
            bias: 243,
        }
}

/// Builds the bundle for radix 30 out of its constant tables.
fn powers_base30() -> (r: ModeratePathPowers<'static, u128>)
    ensures
        r.wf(),
        r.small.mant@ == BASE30_SMALL_MANTISSA@,
        r.small.exp@ == BASE30_SMALL_EXPONENT@,
        r.large.mant@ == BASE30_LARGE_MANTISSA@,
        r.large.exp@ == BASE30_LARGE_EXPONENT@,
        r.small_int@ == BASE30_SMALL_INT_POWERS@,
        r.step == 27,
        r.bias == 243,
{
    ModeratePathPowers {
            small: ExtendedFloatArray {
                mant: BASE30_SMALL_MANTISSA.as_slice(),
                exp: BASE30_SMALL_EXPONENT.as_slice(),
            },
            large: ExtendedFloatArray {
                mant: BASE30_LARGE_MANTISSA.as_slice(),
                exp: BASE30_LARGE_EXPONENT.as_slice(),
            },
            small_int: BASE30_SMALL_INT_POWERS.as_slice(),
            step: 27,
            bias: 243,
        }
}

/// Builds the bundle for radix 31 out of its constant tables.
fn powers_base31() -> (r: ModeratePathPowers<'static, u128>)
    ensures
        r.wf(),
        r.small.mant@ == BASE31_SMALL_MANTISSA@,
        r.small.exp@ == BASE31_SMALL_EXPONENT@,
        r.large.mant@ == BASE31_LARGE_MANTISSA@,
        r.large.exp@ == BASE31_LARGE_EXPONENT@,
        r.small_int@ == BASE31_SMALL_INT_POWERS@,
        r.step == 26,
        r.bias == 234,
{
    ModeratePathPowers {
            small: ExtendedFloatArray {
                mant: BASE31_SMALL_MANTISSA.as_slice(),
                exp: BASE31_SMALL_EXPONENT.as_slice(),
            },
            large: ExtendedFloatArray {
                mant: BASE31_LARGE_MANTISSA.as_slice(),
                exp: BASE31_LARGE_EXPONENT.as_slice(),
            },
            small_int: BASE31_SMALL_INT_POWERS.as_slice(),
            step: 26,
            bias: 234,
        }
}

/// Builds the bundle for radix 32 out of its constant tables.
fn powers_base32() -> (r: ModeratePathPowers<'static, u128>)
    ensures
        r.wf(),
        r.small.mant@ == BASE32_SMALL_MANTISSA@,
        r.small.exp@ == BASE32_SMALL_EXPONENT@,
        r.large.mant@ == BASE32_LARGE_MANTISSA@,
        r.large.exp@ == BASE32_LARGE_EXPONENT@,
        r.small_int@ == BASE32_SMALL_INT_POWERS@,
        r.step == 26,
        r.bias == 234,
{
    ModeratePathPowers {
            small: ExtendedFloatArray {
                mant: BASE32_SMALL_MANTISSA.as_slice(),
                exp: BASE32_SMALL_EXPONENT.as_slice(),
            },
            large: ExtendedFloatArray {
                mant: BASE32_LARGE_MANTISSA.as_slice(),
                exp: BASE32_LARGE_EXPONENT.as_slice(),
            },
            small_int: BASE32_SMALL_INT_POWERS.as_slice(),
            step: 26,
            bias: 234,
        }
}

/// Builds the bundle for radix 33 out of its constant tables.
fn powers_base33() -> (r: ModeratePathPowers<'static, u128>)
    ensures
        r.wf(),
        r.small.mant@ == BASE33_SMALL_MANTISSA@,
        r.small.exp@ == BASE33_SMALL_EXPONENT@,
        r.large.mant@ == BASE33_LARGE_MANTISSA@,
        r.large.exp@ == BASE33_LARGE_EXPONENT@,
        r.small_int@ == BASE33_SMALL_INT_POWERS@,
        r.step == 26,
        r.bias == 234,
{
    ModeratePathPowers {
            small: ExtendedFloatArray {
                mant: BASE33_SMALL_MANTISSA.as_slice(),
                exp: BASE33_SMALL_EXPONENT.as_slice(),
            },
            large: ExtendedFloatArray {
                mant: BASE33_LARGE_MANTISSA.as_slice(),
                exp: BASE33_LARGE_EXPONENT.as_slice(),
            },
            small_int: BASE33_SMALL_INT_POWERS.as_slice(),
            step: 26,
            bias: 234,
        }
}

/// Builds the bundle for radix 34 out of its constant tables.
fn powers_base34() -> (r: ModeratePathPowers<'static, u128>)
    ensures
        r.wf(),
        r.small.mant@ == BASE34_SMALL_MANTISSA@,
        r.small.exp@ == BASE34_SMALL_EXPONENT@,
        r.large.mant@ == BASE34_LARGE_MANTISSA@,
        r.large.exp@ == BASE34_LARGE_EXPONENT@,
        r.small_int@ == BASE34_SMALL_INT_POWERS@,
        r.step == 26,
        r.bias == 234,
{
    ModeratePathPowers {
            small: ExtendedFloatArray {
                mant: BASE34_SMALL_MANTISSA.as_slice(),
                exp: BASE34_SMALL_EXPONENT.as_slice(),
            },
            large: ExtendedFloatArray {
                mant: BASE34_LARGE_MANTISSA.as_slice(),
                exp: BASE34_LARGE_EXPONENT.as_slice(),
            },
            small_int: BASE34_SMALL_INT_POWERS.as_slice(),
            step: 26,
            bias: 234,
        }
}

/// Builds the bundle for radix 35 out of its constant tables.
fn powers_base35() -> (r: ModeratePathPowers<'static, u128>)
    ensures
        r.wf(),
        r.small.mant@ == BASE35_SMALL_MANTISSA@,
        r.small.exp@ == BASE35_SMALL_EXPONENT@,
        r.large.mant@ == BASE35_LARGE_MANTISSA@,
        r.large.exp@ == BASE35_LARGE_EXPONENT@,
        r.small_int@ == BASE35_SMALL_INT_POWERS@,
        r.step == 25,
        r.bias == 225,
{
    ModeratePathPowers {
            small: ExtendedFloatArray {
                mant: BASE35_SMALL_MANTISSA.as_slice(),
                exp: BASE35_SMALL_EXPONENT.as_slice(),
            },
            large: ExtendedFloatArray {
                mant: BASE35_LARGE_MANTISSA.as_slice(),
                exp: BASE35_LARGE_EXPONENT.as_slice(),
            },
            small_int: BASE35_SMALL_INT_POWERS.as_slice(),
            step: 25,
            bias: 225,
        }
}

/// Builds the bundle for radix 36 out of its constant tables.
fn powers_base36() -> (r: ModeratePathPowers<'static, u128>)
    ensures
        r.wf(),
        r.small.mant@ == BASE36_SMALL_MANTISSA@,
        r.small.exp@ == BASE36_SMALL_EXPONENT@,
        r.large.mant@ == BASE36_LARGE_MANTISSA@,
        r.large.exp@ == BASE36_LARGE_EXPONENT@,
        r.small_int@ == BASE36_SMALL_INT_POWERS@,
        r.step == 25,
        r.bias == 225,
{
    ModeratePathPowers {
            small: ExtendedFloatArray {
                mant: BASE36_SMALL_MANTISSA.as_slice(),
                exp: BASE36_SMALL_EXPONENT.as_slice(),
            },
            large: ExtendedFloatArray {
                mant: BASE36_LARGE_MANTISSA.as_slice(),
                exp: BASE36_LARGE_EXPONENT.as_slice(),
            },
            small_int: BASE36_SMALL_INT_POWERS.as_slice(),
            step: 25,
            bias: 225,
        }
}

/// Selects the power tables of `radix`.
///
/// The result is pinned to the per-radix constants, so every call with the
/// same radix hands back bit-identical tables.
pub fn get_powers(radix: u32) -> (r: ModeratePathPowers<'static, u128>)
    requires
        valid_radix(radix),
    ensures
        r.wf(),
        r.small.mant@ == small_mantissa_table(radix),
        r.small.exp@ == small_exponent_table(radix),
        r.large.mant@ == large_mantissa_table(radix),
        r.large.exp@ == large_exponent_table(radix),
        r.small_int@ == small_int_table(radix),
        r.step == table_step(radix),
        r.bias == table_bias(radix),
{
    if radix == 2 {
        powers_base2()
    } else if radix == 3 {
        powers_base3()
    } else if radix == 4 {
        powers_base4()
    } else if radix == 5 {
        powers_base5()
    } else if radix == 6 {
        powers_base6()
    } else if radix == 7 {
        powers_base7()
    } else if radix == 8 {
        powers_base8()
    } else if radix == 9 {
        powers_base9()
    } else if radix == 10 {
        powers_base10()
    } else if radix == 11 {
        powers_base11()
    } else if radix == 12 {
        powers_base12()
    } else if radix == 13 {
        powers_base13()
    } else if radix == 14 {
        powers_base14()
    } else if radix == 15 {
        powers_base15()
    } else if radix == 16 {
        powers_base16()
    } else if radix == 17 {
        powers_base17()
    } else if radix == 18 {
        powers_base18()
    } else if radix == 19 {
        powers_base19()
    } else if radix == 20 {
        powers_base20()
    } else if radix == 21 {
        powers_base21()
    } else if radix == 22 {
        powers_base22()
    } else if radix == 23 {
        powers_base23()
    } else if radix == 24 {
        powers_base24()
    } else if radix == 25 {
        powers_base25()
    } else if radix == 26 {
        powers_base26()
    } else if radix == 27 {
        powers_base27()
    } else if radix == 28 {
        powers_base28()
    } else if radix == 29 {
        powers_base29()
    } else if radix == 30 {
        powers_base30()
    } else if radix == 31 {
        powers_base31()
    } else if radix == 32 {
        powers_base32()
    } else if radix == 33 {
        powers_base33()
    } else if radix == 34 {
        powers_base34()
    } else if radix == 35 {
        powers_base35()
    } else {
        powers_base36()
    }
}

} // verus!
