//! Cached powers of every radix in `2..=36`, 64 bits of mantissa.
//!
//! Each radix gets a bundle of a small table (every power in a short,
//! contiguous range), a large table (every `step`-th power across the
//! whole supported exponent range) and the exact integer values of the
//! small powers. Each entry is the exact power rounded to the nearest
//! 64-bit mantissa (ties to even); the crate's tests hold every entry
//! against exact arithmetic.
use vstd::prelude::*;
#[allow(unused_imports)]
use crate::cached::{ExtendedFloatArray, ModeratePathPowers, valid_radix};

verus! {

/// Normalized mantissas of the low powers of 2, 64 bits wide.
pub const BASE2_SMALL_MANTISSA: [u64; 64] = [
    0x8000000000000000, 0x8000000000000000, 0x8000000000000000, 0x8000000000000000,
    0x8000000000000000, 0x8000000000000000, 0x8000000000000000, 0x8000000000000000,
    0x8000000000000000, 0x8000000000000000, 0x8000000000000000, 0x8000000000000000,
    0x8000000000000000, 0x8000000000000000, 0x8000000000000000, 0x8000000000000000,
    0x8000000000000000, 0x8000000000000000, 0x8000000000000000, 0x8000000000000000,
    0x8000000000000000, 0x8000000000000000, 0x8000000000000000, 0x8000000000000000,
    0x8000000000000000, 0x8000000000000000, 0x8000000000000000, 0x8000000000000000,
    0x8000000000000000, 0x8000000000000000, 0x8000000000000000, 0x8000000000000000,
    0x8000000000000000, 0x8000000000000000, 0x8000000000000000, 0x8000000000000000,
    0x8000000000000000, 0x8000000000000000, 0x8000000000000000, 0x8000000000000000,
    0x8000000000000000, 0x8000000000000000, 0x8000000000000000, 0x8000000000000000,
    0x8000000000000000, 0x8000000000000000, 0x8000000000000000, 0x8000000000000000,
    0x8000000000000000, 0x8000000000000000, 0x8000000000000000, 0x8000000000000000,
    0x8000000000000000, 0x8000000000000000, 0x8000000000000000, 0x8000000000000000,
    0x8000000000000000, 0x8000000000000000, 0x8000000000000000, 0x8000000000000000,
    0x8000000000000000, 0x8000000000000000, 0x8000000000000000, 0x8000000000000000,
];
/// Binary exponents matching `BASE2_SMALL_MANTISSA`.
pub const BASE2_SMALL_EXPONENT: [i32; 64] = [
    -63, -62, -61, -60, -59, -58, -57, -56, -55, -54, -53, -52,
    -51, -50, -49, -48, -47, -46, -45, -44, -43, -42, -41, -40,
    -39, -38, -37, -36, -35, -34, -33, -32, -31, -30, -29, -28,
    -27, -26, -25, -24, -23, -22, -21, -20, -19, -18, -17, -16,
    -15, -14, -13, -12, -11, -10, -9, -8, -7, -6, -5, -4,
    -3, -2, -1, 0,
];
/// Normalized mantissas of every `step`-th power of 2.
pub const BASE2_LARGE_MANTISSA: [u64; 37] = [
    0x8000000000000000, 0x8000000000000000, 0x8000000000000000, 0x8000000000000000,
    0x8000000000000000, 0x8000000000000000, 0x8000000000000000, 0x8000000000000000,
    0x8000000000000000, 0x8000000000000000, 0x8000000000000000, 0x8000000000000000,
    0x8000000000000000, 0x8000000000000000, 0x8000000000000000, 0x8000000000000000,
    0x8000000000000000, 0x8000000000000000, 0x8000000000000000, 0x8000000000000000,
    0x8000000000000000, 0x8000000000000000, 0x8000000000000000, 0x8000000000000000,
    0x8000000000000000, 0x8000000000000000, 0x8000000000000000, 0x8000000000000000,
    0x8000000000000000, 0x8000000000000000, 0x8000000000000000, 0x8000000000000000,
    0x8000000000000000, 0x8000000000000000, 0x8000000000000000, 0x8000000000000000,
    0x8000000000000000,
];
/// Binary exponents matching `BASE2_LARGE_MANTISSA`.
pub const BASE2_LARGE_EXPONENT: [i32; 37] = [
    -1215, -1151, -1087, -1023, -959, -895, -831, -767, -703, -639, -575, -511,
    -447, -383, -319, -255, -191, -127, -63, 1, 65, 129, 193, 257,
    321, 385, 449, 513, 577, 641, 705, 769, 833, 897, 961, 1025,
    1089,
];
/// Exact integer values of the low powers of 2.
pub const BASE2_SMALL_INT_POWERS: [u64; 64] = [
    0x1, 0x2, 0x4, 0x8,
    0x10, 0x20, 0x40, 0x80,
    0x100, 0x200, 0x400, 0x800,
    0x1000, 0x2000, 0x4000, 0x8000,
    0x10000, 0x20000, 0x40000, 0x80000,
    0x100000, 0x200000, 0x400000, 0x800000,
    0x1000000, 0x2000000, 0x4000000, 0x8000000,
    0x10000000, 0x20000000, 0x40000000, 0x80000000,
    0x100000000, 0x200000000, 0x400000000, 0x800000000,
    0x1000000000, 0x2000000000, 0x4000000000, 0x8000000000,
    0x10000000000, 0x20000000000, 0x40000000000, 0x80000000000,
    0x100000000000, 0x200000000000, 0x400000000000, 0x800000000000,
    0x1000000000000, 0x2000000000000, 0x4000000000000, 0x8000000000000,
    0x10000000000000, 0x20000000000000, 0x40000000000000, 0x80000000000000,
    0x100000000000000, 0x200000000000000, 0x400000000000000, 0x800000000000000,
    0x1000000000000000, 0x2000000000000000, 0x4000000000000000, 0x8000000000000000,
];

/// Normalized mantissas of the low powers of 3, 64 bits wide.
pub const BASE3_SMALL_MANTISSA: [u64; 41] = [
    0x8000000000000000, 0xc000000000000000, 0x9000000000000000, 0xd800000000000000,
    0xa200000000000000, 0xf300000000000000, 0xb640000000000000, 0x88b0000000000000,
    0xcd08000000000000, 0x99c6000000000000, 0xe6a9000000000000, 0xacfec00000000000,
    0x81bf100000000000, 0xc29e980000000000, 0x91f6f20000000000, 0xdaf26b0000000000,
    0xa435d04000000000, 0xf650b86000000000, 0xb8bc8a4800000000, 0x8a8d67b600000000,
    0xcfd41b9100000000, 0x9bdf14acc0000000, 0xe9ce9f0320000000, 0xaf5af74258000000,
    0x83843971c2000000, 0xc546562aa3000000, 0x93f4c09ffa400000, 0xddef20eff7600000,
    0xa67358b3f9880000, 0xf9ad050df64c0000, 0xbb41c3ca78b90000, 0x8c7152d7da8ac000,
    0xd2a9fc43c7d02000, 0x9dff7d32d5dc1800, 0xecff3bcc40ca2400, 0xb1bf6cd930979b00,
    0x854f91a2e471b440, 0xc7f75a7456aa8e60, 0x95f983d740ffeac8, 0xe0f645c2e17fe02c,
    0xa8b8b452291fe821,
];
/// Binary exponents matching `BASE3_SMALL_MANTISSA`.
pub const BASE3_SMALL_EXPONENT: [i32; 41] = [
    -63, -62, -60, -59, -57, -56, -54, -52, -51, -49, -48, -46,
    -44, -43, -41, -40, -38, -37, -35, -33, -32, -30, -29, -27,
    -25, -24, -22, -21, -19, -18, -16, -14, -13, -11, -10, -8,
    -6, -5, -3, -2, 0,
];
/// Normalized mantissas of every `step`-th power of 3.
pub const BASE3_LARGE_MANTISSA: [u64; 37] = [
    0x9d5529df924f26a0, 0x9b8a1b44c90df19b, 0x99c44813a5aae4a7, 0x9803a10816a3961b,
    0x9648170a9537a17e, 0x94919b2fa3724871, 0x92e01eb74baf4618, 0x9133930ca19682b7,
    0x8f8be9c5448a61a0, 0x8de914a0e384702d, 0x8c4b0588c25c48c8, 0x8ab1ae8f4074891c,
    0x891d01ef60c9c6c4, 0x878cf20c535f7985, 0x860171710006de07, 0x847a72cf927bdf90,
    0x82f7e90107d422db, 0x8179c704bd3c576a, 0x8000000000000000, 0xfd150e7b3dafdc32,
    0xfa32a05af8f76e28, 0xf7589cc846e4e981, 0xf486eb34b63e5b56, 0xf1bd73597c0a9846,
    0xeefc1d36a2832b0e, 0xec42d1123a683b50, 0xe99177778eaf78d4, 0xe6e7f9365a872bdc,
    0xe4463f6201a69f11, 0xe1ac3350cae52b85, 0xdf19be9b1d1142c6, 0xdc8ecb1abe00e66f,
    0xda0b42ea13d50fc4, 0xd78f106368699ccc, 0xd51a1e202eeb6b35, 0xd2ac56f84b8e5b9f,
    0xd045a6015d5d0a65,
];
/// Binary exponents matching `BASE3_LARGE_MANTISSA`.
pub const BASE3_LARGE_EXPONENT: [i32; 37] = [
    -1233, -1168, -1103, -1038, -973, -908, -843, -778, -713, -648, -583, -518,
    -453, -388, -323, -258, -193, -128, -63, 1, 66, 131, 196, 261,
    326, 391, 456, 521, 586, 651, 716, 781, 846, 911, 976, 1041,
    1106,
];
/// Exact integer values of the low powers of 3.
pub const BASE3_SMALL_INT_POWERS: [u64; 41] = [
    0x1, 0x3, 0x9, 0x1b,
    0x51, 0xf3, 0x2d9, 0x88b,
    0x19a1, 0x4ce3, 0xe6a9, 0x2b3fb,
    0x81bf1, 0x1853d3, 0x48fb79, 0xdaf26b,
    0x290d741, 0x7b285c3, 0x17179149, 0x4546b3db,
    0xcfd41b91, 0x26f7c52b3, 0x74e74f819, 0x15eb5ee84b,
    0x41c21cb8e1, 0xc546562aa3, 0x24fd3027fe9, 0x6ef79077fbb,
    0x14ce6b167f31, 0x3e6b41437d93, 0xbb41c3ca78b9, 0x231c54b5f6a2b,
    0x6954fe21e3e81, 0x13bfefa65abb83, 0x3b3fcef3103289, 0xb1bf6cd930979b,
    0x2153e468b91c6d1, 0x63fbad3a2b55473, 0x12bf307ae81ffd59, 0x383d9170b85ff80b,
    0xa8b8b452291fe821,
];

/// Normalized mantissas of the low powers of 4, 64 bits wide.
pub const BASE4_SMALL_MANTISSA: [u64; 32] = [
    0x8000000000000000, 0x8000000000000000, 0x8000000000000000, 0x8000000000000000,
    0x8000000000000000, 0x8000000000000000, 0x8000000000000000, 0x8000000000000000,
    0x8000000000000000, 0x8000000000000000, 0x8000000000000000, 0x8000000000000000,
    0x8000000000000000, 0x8000000000000000, 0x8000000000000000, 0x8000000000000000,
    0x8000000000000000, 0x8000000000000000, 0x8000000000000000, 0x8000000000000000,
    0x8000000000000000, 0x8000000000000000, 0x8000000000000000, 0x8000000000000000,
    0x8000000000000000, 0x8000000000000000, 0x8000000000000000, 0x8000000000000000,
    0x8000000000000000, 0x8000000000000000, 0x8000000000000000, 0x8000000000000000,
];
/// Binary exponents matching `BASE4_SMALL_MANTISSA`.
pub const BASE4_SMALL_EXPONENT: [i32; 32] = [
    -63, -61, -59, -57, -55, -53, -51, -49, -47, -45, -43, -41,
    -39, -37, -35, -33, -31, -29, -27, -25, -23, -21, -19, -17,
    -15, -13, -11, -9, -7, -5, -3, -1,
];
/// Normalized mantissas of every `step`-th power of 4.
pub const BASE4_LARGE_MANTISSA: [u64; 37] = [
    0x8000000000000000, 0x8000000000000000, 0x8000000000000000, 0x8000000000000000,
    0x8000000000000000, 0x8000000000000000, 0x8000000000000000, 0x8000000000000000,
    0x8000000000000000, 0x8000000000000000, 0x8000000000000000, 0x8000000000000000,
    0x8000000000000000, 0x8000000000000000, 0x8000000000000000, 0x8000000000000000,
    0x8000000000000000, 0x8000000000000000, 0x8000000000000000, 0x8000000000000000,
    0x8000000000000000, 0x8000000000000000, 0x8000000000000000, 0x8000000000000000,
    0x8000000000000000, 0x8000000000000000, 0x8000000000000000, 0x8000000000000000,
    0x8000000000000000, 0x8000000000000000, 0x8000000000000000, 0x8000000000000000,
    0x8000000000000000, 0x8000000000000000, 0x8000000000000000, 0x8000000000000000,
    0x8000000000000000,
];
/// Binary exponents matching `BASE4_LARGE_MANTISSA`.
pub const BASE4_LARGE_EXPONENT: [i32; 37] = [
    -1215, -1151, -1087, -1023, -959, -895, -831, -767, -703, -639, -575, -511,
    -447, -383, -319, -255, -191, -127, -63, 1, 65, 129, 193, 257,
    321, 385, 449, 513, 577, 641, 705, 769, 833, 897, 961, 1025,
    1089,
];
/// Exact integer values of the low powers of 4.
pub const BASE4_SMALL_INT_POWERS: [u64; 32] = [
    0x1, 0x4, 0x10, 0x40,
    0x100, 0x400, 0x1000, 0x4000,
    0x10000, 0x40000, 0x100000, 0x400000,
    0x1000000, 0x4000000, 0x10000000, 0x40000000,
    0x100000000, 0x400000000, 0x1000000000, 0x4000000000,
    0x10000000000, 0x40000000000, 0x100000000000, 0x400000000000,
    0x1000000000000, 0x4000000000000, 0x10000000000000, 0x40000000000000,
    0x100000000000000, 0x400000000000000, 0x1000000000000000, 0x4000000000000000,
];

/// Normalized mantissas of the low powers of 5, 64 bits wide.
pub const BASE5_SMALL_MANTISSA: [u64; 28] = [
    0x8000000000000000, 0xa000000000000000, 0xc800000000000000, 0xfa00000000000000,
    0x9c40000000000000, 0xc350000000000000, 0xf424000000000000, 0x9896800000000000,
    0xbebc200000000000, 0xee6b280000000000, 0x9502f90000000000, 0xba43b74000000000,
    0xe8d4a51000000000, 0x9184e72a00000000, 0xb5e620f480000000, 0xe35fa931a0000000,
    0x8e1bc9bf04000000, 0xb1a2bc2ec5000000, 0xde0b6b3a76400000, 0x8ac7230489e80000,
    0xad78ebc5ac620000, 0xd8d726b7177a8000, 0x878678326eac9000, 0xa968163f0a57b400,
    0xd3c21bcecceda100, 0x84595161401484a0, 0xa56fa5b99019a5c8, 0xcecb8f27f4200f3a,
];
/// Binary exponents matching `BASE5_SMALL_MANTISSA`.
pub const BASE5_SMALL_EXPONENT: [i32; 28] = [
    -63, -61, -59, -57, -54, -52, -50, -47, -45, -43, -40, -38,
    -36, -33, -31, -29, -26, -24, -22, -19, -17, -15, -12, -10,
    -8, -5, -3, -1,
];
/// Normalized mantissas of every `step`-th power of 5.
pub const BASE5_LARGE_MANTISSA: [u64; 37] = [
    0xd701ce3bd387bf48, 0xd91a0545cdb51186, 0xdb377599b6074245, 0xdd5a2c3eab3097cc,
    0xdf82365c497b5454, 0xe1afa13afbd14d6e, 0xe3e27a444d8d98b8, 0xe61acf033d1a45df,
    0xe858ad248f5c22ca, 0xea9c227723ee8bcb, 0xece53cec4a314ebe, 0xef340a98172aace5,
    0xf18899b1bc3f8ca2, 0xf3e2f893dec3f126, 0xf64335bcf065d37d, 0xf8a95fcf88747d94,
    0xfb158592be068d2f, 0xfd87b5f28300ca0e, 0x8000000000000000, 0x813f3978f8940984,
    0x82818f1281ed44a0, 0x83c7088e1aab65db, 0x850fadc09923329e, 0x865b86925b9bc5c2,
    0x87aa9aff79042287, 0x88fcf317f22241e2, 0x8a5296ffe33cc930, 0x8bab8eefb6409c1a,
    0x8d07e33455637eb3, 0x8e679c2f5e44ff8f, 0x8fcac257558ee4e6, 0x91315e37db165aa9,
    0x929b7871de7f22b9, 0x940919bbd4620b6d, 0x957a4ae1ebf7f3d4, 0x96ef14c6454aa840,
    0x9867806127ece4f5,
];
/// Binary exponents matching `BASE5_LARGE_MANTISSA`.
pub const BASE5_LARGE_EXPONENT: [i32; 37] = [
    -1234, -1169, -1104, -1039, -974, -909, -844, -779, -714, -649, -584, -519,
    -454, -389, -324, -259, -194, -129, -63, 2, 67, 132, 197, 262,
    327, 392, 457, 522, 587, 652, 717, 782, 847, 912, 977, 1042,
    1107,
];
/// Exact integer values of the low powers of 5.
pub const BASE5_SMALL_INT_POWERS: [u64; 28] = [
    0x1, 0x5, 0x19, 0x7d,
    0x271, 0xc35, 0x3d09, 0x1312d,
    0x5f5e1, 0x1dcd65, 0x9502f9, 0x2e90edd,
    0xe8d4a51, 0x48c27395, 0x16bcc41e9, 0x71afd498d,
    0x2386f26fc1, 0xb1a2bc2ec5, 0x3782dace9d9, 0x1158e460913d,
    0x56bc75e2d631, 0x1b1ae4d6e2ef5, 0x878678326eac9, 0x2a5a058fc295ed,
    0xd3c21bcecceda1, 0x422ca8b0a00a425, 0x14adf4b7320334b9, 0x6765c793fa10079d,
];

/// Normalized mantissas of the low powers of 6, 64 bits wide.
pub const BASE6_SMALL_MANTISSA: [u64; 25] = [
    0x8000000000000000, 0xc000000000000000, 0x9000000000000000, 0xd800000000000000,
    0xa200000000000000, 0xf300000000000000, 0xb640000000000000, 0x88b0000000000000,
    0xcd08000000000000, 0x99c6000000000000, 0xe6a9000000000000, 0xacfec00000000000,
    0x81bf100000000000, 0xc29e980000000000, 0x91f6f20000000000, 0xdaf26b0000000000,
    0xa435d04000000000, 0xf650b86000000000, 0xb8bc8a4800000000, 0x8a8d67b600000000,
    0xcfd41b9100000000, 0x9bdf14acc0000000, 0xe9ce9f0320000000, 0xaf5af74258000000,
    0x83843971c2000000,
];
/// Binary exponents matching `BASE6_SMALL_MANTISSA`.
pub const BASE6_SMALL_EXPONENT: [i32; 25] = [
    -63, -61, -58, -56, -53, -51, -48, -45, -43, -40, -38, -35,
    -32, -30, -27, -25, -22, -20, -17, -14, -12, -9, -7, -4,
    -1,
];
/// Normalized mantissas of every `step`-th power of 6.
pub const BASE6_LARGE_MANTISSA: [u64; 37] = [
    0xd9cd5c92f261c413, 0xa7d6dfb3a82bd219, 0x815677648ece9310, 0xc756261b3c12e04b,
    0x999c0ff9848834ac, 0xecbe9956c7fbbad1, 0xb66fb7cd2b2510a5, 0x8c9618650e898821,
    0xd8ac42448c4ea8b7, 0xa6f81706d33279ea, 0x80aac9c1b323a05a, 0xc64d8e880f14a11d,
    0x98d02aa2c1ad78c3, 0xeb845a5492a3548e, 0xb57d8ef977fc4961, 0x8bdb7c7179bc28b9,
    0xd78ca7b4c124bd12, 0xa61a76111ab6e0dd, 0x8000000000000000, 0xc546562aa3000000,
    0x980553f0db2fd09e, 0xea4bbc70d0cb9c6a, 0xb48ca794ce6ed0ad, 0x8b21d830a7e0c359,
    0xd66e8ae6328475a2, 0xa53dfb49f9263feb, 0xfeac31e1f58234f6, 0xc4407b30c8e00fab,
    0x973b8a7c92d7013f, 0xe914bd81d74a2b63, 0xb39cfff485a5dbf5, 0x8a692a59cfd0479a,
    0xd551e9de262c5d21, 0xa462a52af1f2baf9, 0xfd5a26cf74888f7d, 0xc33bfbcabc8b69a7,
    0x9672cce087437259,
];
/// Binary exponents matching `BASE6_LARGE_MANTISSA`.
pub const BASE6_LARGE_EXPONENT: [i32; 37] = [
    -1227, -1162, -1097, -1033, -968, -904, -839, -774, -710, -645, -580, -516,
    -451, -387, -322, -257, -193, -128, -63, 1, 66, 130, 195, 260,
    324, 389, 453, 518, 583, 647, 712, 777, 841, 906, 970, 1035,
    1100,
];
/// Exact integer values of the low powers of 6.
pub const BASE6_SMALL_INT_POWERS: [u64; 25] = [
    0x1, 0x6, 0x24, 0xd8,
    0x510, 0x1e60, 0xb640, 0x44580,
    0x19a100, 0x99c600, 0x39aa400, 0x159fd800,
    0x81bf1000, 0x30a7a6000, 0x123ede4000, 0x6d79358000,
    0x290d7410000, 0xf650b860000, 0x5c5e45240000, 0x22a359ed80000,
    0xcfd41b9100000, 0x4def8a56600000, 0x1d39d3e06400000, 0xaf5af7425800000,
    0x41c21cb8e1000000,
];

/// Normalized mantissas of the low powers of 7, 64 bits wide.
pub const BASE7_SMALL_MANTISSA: [u64; 23] = [
    0x8000000000000000, 0xe000000000000000, 0xc400000000000000, 0xab80000000000000,
    0x9610000000000000, 0x834e000000000000, 0xe5c8800000000000, 0xc90f700000000000,
    0xafed820000000000, 0x99efd1c000000000, 0x86b1d78800000000, 0xebb7392e00000000,
    0xce40520840000000, 0xb47847c738000000, 0x9de93ece51000000, 0x8a2c16f486e00000,
    0xf1cd282bec080000, 0xd39383266e870000, 0xb92112c1a0b62000, 0xa1fcf0696c9f5c00,
    0x8dbd525c3f0b7080, 0xf80b50216e5404e0, 0xd909e61d40898444,
];
/// Binary exponents matching `BASE7_SMALL_MANTISSA`.
pub const BASE7_SMALL_EXPONENT: [i32; 23] = [
    -63, -61, -58, -55, -52, -49, -47, -44, -41, -38, -35, -33,
    -30, -27, -24, -21, -19, -16, -13, -10, -7, -5, -2,
];
/// Normalized mantissas of every `step`-th power of 7.
pub const BASE7_LARGE_MANTISSA: [u64; 37] = [
    0xd806b2ea0104d55c, 0xa0414710edebaff4, 0xedc3ad462a192b4f, 0xb0618d8b38b13b57,
    0x82d85296306e2ab7, 0xc2213f24a70a0d96, 0x9002fa2b2c66efba, 0xd5aa2951e9ba5543,
    0x9e80d00f087b48c5, 0xeb2a4e6452d7e412, 0xae73f5c8579999e4, 0x816a28f341b457a5,
    0xc001fc1a27f4befd, 0x8e6ff7f049ad3db1, 0xd3543b7db92fda04, 0x9cc5400e4d142d36,
    0xe898358362328695, 0xac8bc350615654d9, 0x8000000000000000, 0xbde8a959987853bc,
    0x8ce15d81ad8d7065, 0xd104d6ef1f45b21a, 0x9b0e8956abda7eae, 0xe60d4e48a0fb0e63,
    0xaaa8e709dcfd6ea0, 0xfd339911c7f36bab, 0xbbd5364486868529, 0x8b571e8b433d3673,
    0xcebbe95b8c93ce0d, 0x995c9e567942d3f6, 0xe38984924deae181, 0xa8cb520592f54b3f,
    0xfa6f06f37dd3100b, 0xb9c7926b01e6a4eb, 0x89d12edb76115d7c, 0xcc7960aba195efe5,
    0x97af71a202a23881,
];
/// Binary exponents matching `BASE7_LARGE_MANTISSA`.
pub const BASE7_LARGE_EXPONENT: [i32; 37] = [
    -1226, -1161, -1097, -1032, -967, -903, -838, -774, -709, -645, -580, -515,
    -451, -386, -322, -257, -193, -128, -63, 1, 66, 130, 195, 259,
    324, 388, 453, 518, 582, 647, 711, 776, 840, 905, 970, 1034,
    1099,
];
/// Exact integer values of the low powers of 7.
pub const BASE7_SMALL_INT_POWERS: [u64; 23] = [
    0x1, 0x7, 0x31, 0x157,
    0x961, 0x41a7, 0x1cb91, 0xc90f7,
    0x57f6c1, 0x267bf47, 0x10d63af1, 0x75db9c97,
    0x339014821, 0x168f08f8e7, 0x9de93ece51, 0x45160b7a437,
    0x1e39a5057d81, 0xd39383266e87, 0x5c908960d05b1, 0x287f3c1a5b27d7,
    0x11b7aa4b87e16e1, 0x7c05a810b72a027, 0x3642798750226111,
];

/// Normalized mantissas of the low powers of 8, 64 bits wide.
pub const BASE8_SMALL_MANTISSA: [u64; 22] = [
    0x8000000000000000, 0x8000000000000000, 0x8000000000000000, 0x8000000000000000,
    0x8000000000000000, 0x8000000000000000, 0x8000000000000000, 0x8000000000000000,
    0x8000000000000000, 0x8000000000000000, 0x8000000000000000, 0x8000000000000000,
    0x8000000000000000, 0x8000000000000000, 0x8000000000000000, 0x8000000000000000,
    0x8000000000000000, 0x8000000000000000, 0x8000000000000000, 0x8000000000000000,
    0x8000000000000000, 0x8000000000000000,
];
/// Binary exponents matching `BASE8_SMALL_MANTISSA`.
pub const BASE8_SMALL_EXPONENT: [i32; 22] = [
    -63, -60, -57, -54, -51, -48, -45, -42, -39, -36, -33, -30,
    -27, -24, -21, -18, -15, -12, -9, -6, -3, 0,
];
/// Normalized mantissas of every `step`-th power of 8.
pub const BASE8_LARGE_MANTISSA: [u64; 37] = [
    0x8000000000000000, 0x8000000000000000, 0x8000000000000000, 0x8000000000000000,
    0x8000000000000000, 0x8000000000000000, 0x8000000000000000, 0x8000000000000000,
    0x8000000000000000, 0x8000000000000000, 0x8000000000000000, 0x8000000000000000,
    0x8000000000000000, 0x8000000000000000, 0x8000000000000000, 0x8000000000000000,
    0x8000000000000000, 0x8000000000000000, 0x8000000000000000, 0x8000000000000000,
    0x8000000000000000, 0x8000000000000000, 0x8000000000000000, 0x8000000000000000,
    0x8000000000000000, 0x8000000000000000, 0x8000000000000000, 0x8000000000000000,
    0x8000000000000000, 0x8000000000000000, 0x8000000000000000, 0x8000000000000000,
    0x8000000000000000, 0x8000000000000000, 0x8000000000000000, 0x8000000000000000,
    0x8000000000000000,
];
/// Binary exponents matching `BASE8_LARGE_MANTISSA`.
pub const BASE8_LARGE_EXPONENT: [i32; 37] = [
    -1251, -1185, -1119, -1053, -987, -921, -855, -789, -723, -657, -591, -525,
    -459, -393, -327, -261, -195, -129, -63, 3, 69, 135, 201, 267,
    333, 399, 465, 531, 597, 663, 729, 795, 861, 927, 993, 1059,
    1125,
];
/// Exact integer values of the low powers of 8.
pub const BASE8_SMALL_INT_POWERS: [u64; 22] = [
    0x1, 0x8, 0x40, 0x200,
    0x1000, 0x8000, 0x40000, 0x200000,
    0x1000000, 0x8000000, 0x40000000, 0x200000000,
    0x1000000000, 0x8000000000, 0x40000000000, 0x200000000000,
    0x1000000000000, 0x8000000000000, 0x40000000000000, 0x200000000000000,
    0x1000000000000000, 0x8000000000000000,
];

/// Normalized mantissas of the low powers of 9, 64 bits wide.
pub const BASE9_SMALL_MANTISSA: [u64; 21] = [
    0x8000000000000000, 0x9000000000000000, 0xa200000000000000, 0xb640000000000000,
    0xcd08000000000000, 0xe6a9000000000000, 0x81bf100000000000, 0x91f6f20000000000,
    0xa435d04000000000, 0xb8bc8a4800000000, 0xcfd41b9100000000, 0xe9ce9f0320000000,
    0x83843971c2000000, 0x93f4c09ffa400000, 0xa67358b3f9880000, 0xbb41c3ca78b90000,
    0xd2a9fc43c7d02000, 0xecff3bcc40ca2400, 0x854f91a2e471b440, 0x95f983d740ffeac8,
    0xa8b8b452291fe821,
];
/// Binary exponents matching `BASE9_SMALL_MANTISSA`.
pub const BASE9_SMALL_EXPONENT: [i32; 21] = [
    -63, -60, -57, -54, -51, -48, -44, -41, -38, -35, -32, -29,
    -25, -22, -19, -16, -13, -10, -6, -3, 0,
];
/// Normalized mantissas of every `step`-th power of 9.
pub const BASE9_LARGE_MANTISSA: [u64; 37] = [
    0xda06635b9b60ffd1, 0xa1a7af49be957d25, 0xefb8063360c271da, 0xb1bd70569045502f,
    0x83c920f64481366b, 0xc36ceacb4aa59e38, 0x90e60946278872a7, 0xd6dee35924a89ab2,
    0x9f50f65788a1986d, 0xec402d29c2752fc1, 0xaf2b247269e0c002, 0x81e10899cff7231a,
    0xc0991e75d20d07bf, 0x8ecd5feb45ec7bcf, 0xd3c312148b1aa78c, 0x9d02e6e30c6ce309,
    0xe8d52c739c23cc31, 0xaca25eb0fc50748d, 0x8000000000000000, 0xbdcfcadc6e43e525,
    0x8cbc7a332c0b2df6, 0xd0b2c448fbd12505, 0x9abd60d75b5375cc, 0xe576d47df0be0e8a,
    0xaa22fbcc2531e167, 0xfc4bda02d71f0e56, 0xbb10c93678fef93d, 0x8ab33b5c3c24cdc2,
    0xcdadcf51e52ec9e8, 0x9880449658f7e0ca, 0xe224f665f69428af, 0xa7acd9006715d3ff,
    0xf8a56baf0ed806d5, 0xb85bf34af0bc3000, 0x88b1870f59ba3596, 0xcab40928a5557bf2,
    0x964b72f7032edc83,
];
/// Binary exponents matching `BASE9_LARGE_MANTISSA`.
pub const BASE9_LARGE_EXPONENT: [i32; 37] = [
    -1262, -1195, -1129, -1062, -995, -929, -862, -796, -729, -663, -596, -529,
    -463, -396, -330, -263, -197, -130, -63, 3, 70, 136, 203, 269,
    336, 402, 469, 536, 602, 669, 735, 802, 868, 935, 1002, 1068,
    1135,
];
/// Exact integer values of the low powers of 9.
pub const BASE9_SMALL_INT_POWERS: [u64; 21] = [
    0x1, 0x9, 0x51, 0x2d9,
    0x19a1, 0xe6a9, 0x81bf1, 0x48fb79,
    0x290d741, 0x17179149, 0xcfd41b91, 0x74e74f819,
    0x41c21cb8e1, 0x24fd3027fe9, 0x14ce6b167f31, 0xbb41c3ca78b9,
    0x6954fe21e3e81, 0x3b3fcef3103289, 0x2153e468b91c6d1, 0x12bf307ae81ffd59,
    0xa8b8b452291fe821,
];

/// Normalized mantissas of the low powers of 10, 64 bits wide.
pub const BASE10_SMALL_MANTISSA: [u64; 20] = [
    0x8000000000000000, 0xa000000000000000, 0xc800000000000000, 0xfa00000000000000,
    0x9c40000000000000, 0xc350000000000000, 0xf424000000000000, 0x9896800000000000,
    0xbebc200000000000, 0xee6b280000000000, 0x9502f90000000000, 0xba43b74000000000,
    0xe8d4a51000000000, 0x9184e72a00000000, 0xb5e620f480000000, 0xe35fa931a0000000,
    0x8e1bc9bf04000000, 0xb1a2bc2ec5000000, 0xde0b6b3a76400000, 0x8ac7230489e80000,
];
/// Binary exponents matching `BASE10_SMALL_MANTISSA`.
pub const BASE10_SMALL_EXPONENT: [i32; 20] = [
    -63, -60, -57, -54, -50, -47, -44, -40, -37, -34, -30, -27,
    -24, -20, -17, -14, -10, -7, -4, 0,
];
/// Normalized mantissas of every `step`-th power of 10.
pub const BASE10_LARGE_MANTISSA: [u64; 37] = [
    0x89bf722840327f82, 0xbaaee17fa23ebf76, 0xfd00b897478238d1, 0xab70fe17c79ac6ca,
    0xe858ad248f5c22ca, 0x9d71ac8fada6c9b5, 0xd5605fcdcf32e1d7, 0x9096ea6f3848984f,
    0xc3f490aa77bd60fd, 0x84c8d4dfd2c63f3b, 0xb3f4e093db73a093, 0xf3e2f893dec3f126,
    0xa54394fe1eedb8ff, 0xdff9772470297ebd, 0x97c560ba6b0919a6, 0xcdb02555653131b6,
    0x8b61313bbabce2c6, 0xbce5086492111aeb, 0x8000000000000000, 0xad78ebc5ac620000,
    0xeb194f8e1ae525fd, 0x9f4f2726179a2245, 0xd7e77a8f87daf7fc, 0x924d692ca61be758,
    0xc646d63501a1511e, 0x865b86925b9bc5c2, 0xb616a12b7fe617aa, 0xf6c69a72a3989f5c,
    0xa738c6bebb12d16d, 0xe2a0b5dc971f303a, 0x9991a6f3d6bf1766, 0xd01fef10a657842c,
    0x8d07e33455637eb3, 0xbf21e44003acdd2d, 0x81842f29f2cce376, 0xaf87023b9bf0ee6b,
    0xede24ae798ec8284,
];
/// Binary exponents matching `BASE10_LARGE_MANTISSA`.
pub const BASE10_LARGE_EXPONENT: [i32; 37] = [
    -1259, -1193, -1127, -1060, -994, -927, -861, -794, -728, -661, -595, -529,
    -462, -396, -329, -263, -196, -130, -63, 3, 69, 136, 202, 269,
    335, 402, 468, 534, 601, 667, 734, 800, 867, 933, 1000, 1066,
    1132,
];
/// Exact integer values of the low powers of 10.
pub const BASE10_SMALL_INT_POWERS: [u64; 20] = [
    0x1, 0xa, 0x64, 0x3e8,
    0x2710, 0x186a0, 0xf4240, 0x989680,
    0x5f5e100, 0x3b9aca00, 0x2540be400, 0x174876e800,
    0xe8d4a51000, 0x9184e72a000, 0x5af3107a4000, 0x38d7ea4c68000,
    0x2386f26fc10000, 0x16345785d8a0000, 0xde0b6b3a7640000, 0x8ac7230489e80000,
];

/// Normalized mantissas of the low powers of 11, 64 bits wide.
pub const BASE11_SMALL_MANTISSA: [u64; 19] = [
    0x8000000000000000, 0xb000000000000000, 0xf200000000000000, 0xa660000000000000,
    0xe4c4000000000000, 0x9d46c00000000000, 0xd841480000000000, 0x94ace18000000000,
    0xcc6db61000000000, 0x8c8b6d2b00000000, 0xc13fb61b20000000, 0x84dbcd32a6000000,
    0xb6ae3a25a4400000, 0xfb2f8ff3c1d80000, 0xacb0b2f795448000, 0xed72f6146d3e3000,
    0xa33f092e0b1ac100, 0xe076ac9f4f44c960, 0x9a5196ad867f4a72,
];
/// Binary exponents matching `BASE11_SMALL_MANTISSA`.
pub const BASE11_SMALL_EXPONENT: [i32; 19] = [
    -63, -60, -57, -53, -50, -46, -43, -39, -36, -32, -29, -25,
    -22, -19, -15, -12, -8, -5, -1,
];
/// Normalized mantissas of every `step`-th power of 11.
pub const BASE11_LARGE_MANTISSA: [u64; 37] = [
    0xeaa73932891d4b1e, 0xc27ea5f7fcc0e7de, 0xa1357d09233a49c3, 0x859ea3492cc24c4f,
    0xdd810b2f52300aba, 0xb7988e484b80541b, 0x982ce444f94b4508, 0xfc43a2ffb886fd56,
    0xd1177e28aa8a5221, 0xad4ecf6ab425d59a, 0x8fa5e27c44f79445, 0xee20d245f53c2c39,
    0xc560002cbaf643e9, 0xa398a685a0688669, 0x879934acafa079d2, 0xe0c8caad620d21d8,
    0xba5096eb5d489c07, 0x9a6dce6deadfc2b8, 0x8000000000000000, 0xd4302f2e98ef065d,
    0xafdfd736e77760cf, 0x91c6789bedc7210c, 0xf1a797eb6e1379ce, 0xc84c45c534ab6db5,
    0xa604dcfedac3e2b6, 0x899b46859993a250, 0xe41cf9c0d491dd1c, 0xbd12ee4d5b861f25,
    0x9cb743bda2670782, 0x81e54357ea08e5a3, 0xd7549d6454e7cbb4, 0xb27a99e453dcde92,
    0x93ef1f52ef2aa46c, 0xf53bbc14c3683af9, 0xcb43a027107b0086, 0xa87a42c4caf4d6d1,
    0x8ba4f54499d8d666,
];
/// Binary exponents matching `BASE11_LARGE_MANTISSA`.
pub const BASE11_LARGE_EXPONENT: [i32; 37] = [
    -1247, -1181, -1115, -1049, -984, -918, -852, -787, -721, -655, -589, -524,
    -458, -392, -326, -261, -195, -129, -63, 2, 68, 134, 199, 265,
    331, 397, 462, 528, 594, 660, 725, 791, 857, 922, 988, 1054,
    1120,
];
/// Exact integer values of the low powers of 11.
pub const BASE11_SMALL_INT_POWERS: [u64; 19] = [
    0x1, 0xb, 0x79, 0x533,
    0x3931, 0x2751b, 0x1b0829, 0x12959c3,
    0xcc6db61, 0x8c8b6d2b, 0x609fdb0d9, 0x426de69953,
    0x2dab8e89691, 0x1f65f1fe783b, 0x1596165ef2a89, 0xed72f6146d3e3,
    0xa33f092e0b1ac1, 0x703b564fa7a264b, 0x4d28cb56c33fa539,
];

/// Normalized mantissas of the low powers of 12, 64 bits wide.
pub const BASE12_SMALL_MANTISSA: [u64; 18] = [
    0x8000000000000000, 0xc000000000000000, 0x9000000000000000, 0xd800000000000000,
    0xa200000000000000, 0xf300000000000000, 0xb640000000000000, 0x88b0000000000000,
    0xcd08000000000000, 0x99c6000000000000, 0xe6a9000000000000, 0xacfec00000000000,
    0x81bf100000000000, 0xc29e980000000000, 0x91f6f20000000000, 0xdaf26b0000000000,
    0xa435d04000000000, 0xf650b86000000000,
];
/// Binary exponents matching `BASE12_SMALL_MANTISSA`.
pub const BASE12_SMALL_EXPONENT: [i32; 18] = [
    -63, -60, -56, -53, -49, -46, -42, -38, -35, -31, -28, -24,
    -20, -17, -13, -10, -6, -3,
];
/// Normalized mantissas of every `step`-th power of 12.
pub const BASE12_LARGE_MANTISSA: [u64; 37] = [
    0xb18ef30115fccc1d, 0x8021838c3bccc683, 0xb8ece8bf009b617a, 0x85727927eccc8c37,
    0xc0991e75d20d07bf, 0x8afbe65fc2fbb381, 0xc896d349c70107cf, 0x90c022f9e9881465,
    0xd0e968db308bb989, 0x96c19f9f2007b9c8, 0xd99464b4bcc37e72, 0x9d02e6e30c6ce309,
    0xe29b71c8f1e56f67, 0xa3869e57847cdf7a, 0xec0261ff7d6d84b8, 0xaa4f87ab43461d4a,
    0xf5cd2fd2ff408df3, 0xb16081d483e70a60, 0x8000000000000000, 0xb8bc8a4800000000,
    0x854f91a2e471b440, 0xc066be3cd5688408, 0x8ad78c1ced8223cd, 0xc8625bfddc35eaf1,
    0x909a469765f53091, 0xd0b2c448fbd12505, 0x969a3117aaadcc79, 0xd95b7bbd13c5a685,
    0x9cd9d587377f4eac, 0xe2602c57131e67f7, 0xa35bd8c6a8a34dda, 0xebc4a6fedf928d52,
    0xaa22fbcc2531e167, 0xf58ce524b4741036, 0xb1321ccdabce2c7c, 0xffbd0a6fa84aa7ae,
    0xb88c3877bfc05f78,
];
/// Binary exponents matching `BASE12_LARGE_MANTISSA`.
pub const BASE12_LARGE_EXPONENT: [i32; 37] = [
    -1225, -1160, -1096, -1031, -967, -902, -838, -773, -709, -644, -580, -515,
    -451, -386, -322, -257, -193, -128, -63, 1, 66, 130, 195, 259,
    324, 388, 453, 517, 582, 646, 711, 775, 840, 904, 969, 1033,
    1098,
];
/// Exact integer values of the low powers of 12.
pub const BASE12_SMALL_INT_POWERS: [u64; 18] = [
    0x1, 0xc, 0x90, 0x6c0,
    0x5100, 0x3cc00, 0x2d9000, 0x222c000,
    0x19a10000, 0x1338c0000, 0xe6a900000, 0xacfec00000,
    0x81bf1000000, 0x614f4c000000, 0x48fb790000000, 0x36bc9ac0000000,
    0x290d74100000000, 0x1eca170c00000000,
];

/// Normalized mantissas of the low powers of 13, 64 bits wide.
pub const BASE13_SMALL_MANTISSA: [u64; 18] = [
    0x8000000000000000, 0xd000000000000000, 0xa900000000000000, 0x8950000000000000,
    0xdf22000000000000, 0xb54ba00000000000, 0x934d720000000000, 0xef5dd94000000000,
    0xc27c408400000000, 0x9e04f46b40000000, 0x8064069724000000, 0xd0a28ab59a800000,
    0xa98410b38d880000, 0x89bb4d91e2fe8000, 0xdfd05e0d10dd9000, 0xb5d94c6a9db40500,
    0x93c08e16a0224410, 0xf018e6e4c437ae9a,
];
/// Binary exponents matching `BASE13_SMALL_MANTISSA`.
pub const BASE13_SMALL_EXPONENT: [i32; 18] = [
    -63, -60, -56, -52, -49, -45, -41, -38, -34, -30, -26, -23,
    -19, -15, -12, -8, -4, -1,
];
/// Normalized mantissas of every `step`-th power of 13.
pub const BASE13_LARGE_MANTISSA: [u64; 37] = [
    0x85351da0cde46b6b, 0xcb03f9763873e9ae, 0x9ab412987b4a22c7, 0xebc6c8802d80782a,
    0xb3ab0d25d4768dee, 0x88e97e3541dc26a7, 0xd0a95a8110e8b82e, 0x9f017dbfd525fce1,
    0xf25567d7b9fc35ed, 0xb8aa3530c6ff3af5, 0x8cb83ece888b0f4b, 0xd676edfe8b188b2a,
    0xa36d8a81ccf194e3, 0xf912b638568bc3c3, 0xbdccf0402be2b28a, 0x90a21b33f6f1ff94,
    0xdc6dd21e01179473, 0xa7f912f3129e442a, 0x8000000000000000, 0xc3143b99df6d3ddd,
    0x94a7d465c84b9eca, 0xe28f2d044f088e81, 0xaca4f738f936fcef, 0x838f4d6580879cc2,
    0xc8811b8eee45eb07, 0x98ca30c24c2b4f42, 0xe8dc2d047d405fd6, 0xb1721db4a4f3ebd0,
    0x8737f2dae0ad3301, 0xce149badbb53040c, 0x9d09fc2c1d50d7c2, 0xef5608d9fdd6eb4d,
    0xb661732f6cba24fd, 0x8afaa4d0347cc506, 0xd3cfcef58aa68875, 0xa1680831688d5e9a,
    0xf5fdffe488dd4455,
];
/// Binary exponents matching `BASE13_LARGE_MANTISSA`.
pub const BASE13_LARGE_EXPONENT: [i32; 37] = [
    -1262, -1196, -1129, -1063, -996, -929, -863, -796, -730, -663, -596, -530,
    -463, -397, -330, -263, -197, -130, -63, 3, 70, 136, 203, 270,
    336, 403, 469, 536, 603, 669, 736, 802, 869, 936, 1002, 1069,
    1135,
];
/// Exact integer values of the low powers of 13.
pub const BASE13_SMALL_INT_POWERS: [u64; 18] = [
    0x1, 0xd, 0xa9, 0x895,
    0x6f91, 0x5aa5d, 0x49a6b9, 0x3bd7765,
    0x309f1021, 0x27813d1ad, 0x201901a5c9, 0x1a145156b35,
    0x1530821671b1, 0x113769b23c5fd, 0xdfd05e0d10dd9, 0xb5d94c6a9db405,
    0x93c08e16a022441, 0x780c7372621bd74d,
];

/// Normalized mantissas of the low powers of 14, 64 bits wide.
pub const BASE14_SMALL_MANTISSA: [u64; 17] = [
    0x8000000000000000, 0xe000000000000000, 0xc400000000000000, 0xab80000000000000,
    0x9610000000000000, 0x834e000000000000, 0xe5c8800000000000, 0xc90f700000000000,
    0xafed820000000000, 0x99efd1c000000000, 0x86b1d78800000000, 0xebb7392e00000000,
    0xce40520840000000, 0xb47847c738000000, 0x9de93ece51000000, 0x8a2c16f486e00000,
    0xf1cd282bec080000,
];
/// Binary exponents matching `BASE14_SMALL_MANTISSA`.
pub const BASE14_SMALL_EXPONENT: [i32; 17] = [
    -63, -60, -56, -52, -48, -44, -41, -37, -33, -29, -25, -22,
    -18, -14, -10, -6, -3,
];
/// Normalized mantissas of every `step`-th power of 14.
pub const BASE14_LARGE_MANTISSA: [u64; 37] = [
    0xf72d03038b7ab03e, 0xcc4886f5caf029a4, 0xa8d57d89dd6e2dcc, 0x8b893f8e4f7ee950,
    0xe6a50d5bf0c22155, 0xbe9ef0f28925d593, 0x9d8ad784357fa14a, 0x823437116bec4c0c,
    0xd73820267e33d6c0, 0xb1df45fc37d3467a, 0x9301850406976239, 0xf2fdeba3170313a0,
    0xc8d34d8224cc6e14, 0xa5f9e11a0ccb6d00, 0x892c980c8371a78f, 0xe2bd9868125940ad,
    0xbb64eba559e903de, 0x9ae0292d5f867604, 0x8000000000000000, 0xd39383266e870000,
    0xaedc7f313b85d3ed, 0x90847f07b2a48338, 0xeee0f5a391743943, 0xc56d1003d8091cd3,
    0xa32aa6f7cfe3e181, 0x86da2cb372dd2a1f, 0xdee70e6aec6522c7, 0xb838e1c11b26c89e,
    0x9841091c8ec4792f, 0xfbaaabb5d03e3c6a, 0xcffeaf7591e572dd, 0xabe6c46b3527383c,
    0x8e1241780b5aac14, 0xead5d27469ae5490, 0xc2158d8c77c5e559, 0xa067997938ce62ff,
    0x8491d1292298a4bf,
];
/// Binary exponents matching `BASE14_LARGE_MANTISSA`.
pub const BASE14_LARGE_EXPONENT: [i32; 37] = [
    -1229, -1164, -1099, -1034, -970, -905, -840, -775, -711, -646, -581, -517,
    -452, -387, -322, -258, -193, -128, -63, 1, 66, 131, 195, 260,
    325, 390, 454, 519, 584, 648, 713, 778, 843, 907, 972, 1037,
    1102,
];
/// Exact integer values of the low powers of 14.
pub const BASE14_SMALL_INT_POWERS: [u64; 17] = [
    0x1, 0xe, 0xc4, 0xab8,
    0x9610, 0x834e0, 0x72e440, 0x6487b80,
    0x57f6c100, 0x4cf7e8e00, 0x4358ebc400, 0x3aedce4b800,
    0x339014821000, 0x2d1e11f1ce000, 0x277a4fb3944000, 0x228b05bd21b8000,
    0x1e39a5057d810000,
];

/// Normalized mantissas of the low powers of 15, 64 bits wide.
pub const BASE15_SMALL_MANTISSA: [u64; 17] = [
    0x8000000000000000, 0xf000000000000000, 0xe100000000000000, 0xd2f0000000000000,
    0xc5c1000000000000, 0xb964f00000000000, 0xadcea10000000000, 0xa2f1b6f000000000,
    0x98c29b8100000000, 0x8f3671c8f0000000, 0x86430aac61000000, 0xfbbdb40335e00000,
    0xec01d8c302820000, 0xdd41bb36d259e000, 0xcf6d9f8365344200, 0xc276c58b2ee0fde0,
    0xb64f59327bf2ee02,
];
/// Binary exponents matching `BASE15_SMALL_MANTISSA`.
pub const BASE15_SMALL_EXPONENT: [i32; 17] = [
    -63, -60, -56, -52, -48, -44, -40, -36, -32, -28, -24, -21,
    -17, -13, -9, -5, -1,
];
/// Normalized mantissas of every `step`-th power of 15.
pub const BASE15_LARGE_MANTISSA: [u64; 37] = [
    0xb3f403415c9d303a, 0xf0499a777c7f8e4e, 0xa06ce15c8d605f33, 0xd6365f36d00c47c2,
    0x8f043c49c74ecc62, 0xbef7831f7f8d901b, 0xfefe6b42af7c11ca, 0xaa3e6b036adb39c3,
    0xe352a4bc5c75ddb1, 0x97c503661a6102f0, 0xcaa792cd1ce2e7d7, 0x874cd385532c87c9,
    0xb4a9caad983c2d25, 0xf13c5431480eb7c7, 0xa10eeeee27458bb8, 0xd70ec1fb1ed41027,
    0x8f94b3fe9fede89c, 0xbfb86aa6f6467f9e, 0x8000000000000000, 0xaaea639f5433bf22,
    0xe43845d3c3be8d78, 0x985e529e409251dc, 0xcb7448bfd45ce60d, 0x87d57fc67aa473e4,
    0xb56049b9671ddfb6, 0xf230031b41d5ad5e, 0xa1b1a0323d50403c, 0xd7e7ff543c307532,
    0x9025bda26ad01ee9, 0xc07a150b0127e69e, 0x80814c778c18d7d4, 0xab9709f286e75c81,
    0xe51ecee0b2ba5259, 0x98f83cb3d392e7c1, 0xcc41cd7c35ad2089, 0x885eb616e1b291cb,
    0xb617811e45c6efee,
];
/// Binary exponents matching `BASE15_LARGE_MANTISSA`.
pub const BASE15_LARGE_EXPONENT: [i32; 37] = [
    -1259, -1193, -1126, -1060, -993, -927, -861, -794, -728, -661, -595, -528,
    -462, -396, -329, -263, -196, -130, -63, 3, 69, 136, 202, 269,
    335, 401, 468, 534, 601, 667, 734, 800, 866, 933, 999, 1066,
    1132,
];
/// Exact integer values of the low powers of 15.
pub const BASE15_SMALL_INT_POWERS: [u64; 17] = [
    0x1, 0xf, 0xe1, 0xd2f,
    0xc5c1, 0xb964f, 0xadcea1, 0xa2f1b6f,
    0x98c29b81, 0x8f3671c8f, 0x86430aac61, 0x7ddeda019af,
    0x7600ec618141, 0x6ea0dd9b692cf, 0x67b6cfc1b29a21, 0x613b62c597707ef,
    0x5b27ac993df97701,
];

/// Normalized mantissas of the low powers of 16, 64 bits wide.
pub const BASE16_SMALL_MANTISSA: [u64; 16] = [
    0x8000000000000000, 0x8000000000000000, 0x8000000000000000, 0x8000000000000000,
    0x8000000000000000, 0x8000000000000000, 0x8000000000000000, 0x8000000000000000,
    0x8000000000000000, 0x8000000000000000, 0x8000000000000000, 0x8000000000000000,
    0x8000000000000000, 0x8000000000000000, 0x8000000000000000, 0x8000000000000000,
];
/// Binary exponents matching `BASE16_SMALL_MANTISSA`.
pub const BASE16_SMALL_EXPONENT: [i32; 16] = [
    -63, -59, -55, -51, -47, -43, -39, -35, -31, -27, -23, -19,
    -15, -11, -7, -3,
];
/// Normalized mantissas of every `step`-th power of 16.
pub const BASE16_LARGE_MANTISSA: [u64; 37] = [
    0x8000000000000000, 0x8000000000000000, 0x8000000000000000, 0x8000000000000000,
    0x8000000000000000, 0x8000000000000000, 0x8000000000000000, 0x8000000000000000,
    0x8000000000000000, 0x8000000000000000, 0x8000000000000000, 0x8000000000000000,
    0x8000000000000000, 0x8000000000000000, 0x8000000000000000, 0x8000000000000000,
    0x8000000000000000, 0x8000000000000000, 0x8000000000000000, 0x8000000000000000,
    0x8000000000000000, 0x8000000000000000, 0x8000000000000000, 0x8000000000000000,
    0x8000000000000000, 0x8000000000000000, 0x8000000000000000, 0x8000000000000000,
    0x8000000000000000, 0x8000000000000000, 0x8000000000000000, 0x8000000000000000,
    0x8000000000000000, 0x8000000000000000, 0x8000000000000000, 0x8000000000000000,
    0x8000000000000000,
];
/// Binary exponents matching `BASE16_LARGE_MANTISSA`.
pub const BASE16_LARGE_EXPONENT: [i32; 37] = [
    -1215, -1151, -1087, -1023, -959, -895, -831, -767, -703, -639, -575, -511,
    -447, -383, -319, -255, -191, -127, -63, 1, 65, 129, 193, 257,
    321, 385, 449, 513, 577, 641, 705, 769, 833, 897, 961, 1025,
    1089,
];
/// Exact integer values of the low powers of 16.
pub const BASE16_SMALL_INT_POWERS: [u64; 16] = [
    0x1, 0x10, 0x100, 0x1000,
    0x10000, 0x100000, 0x1000000, 0x10000000,
    0x100000000, 0x1000000000, 0x10000000000, 0x100000000000,
    0x1000000000000, 0x10000000000000, 0x100000000000000, 0x1000000000000000,
];

/// Normalized mantissas of the low powers of 17, 64 bits wide.
pub const BASE17_SMALL_MANTISSA: [u64; 16] = [
    0x8000000000000000, 0x8800000000000000, 0x9080000000000000, 0x9988000000000000,
    0xa320800000000000, 0xad52880000000000, 0xb827b08000000000, 0xc3aa2b8800000000,
    0xcfe4ce4080000000, 0xdce31b2488000000, 0xeab14cd6d0800000, 0xf95c61a43d880000,
    0x847913df40b04000, 0x8cc0a51d34bb4400, 0x958caf6f0806f840, 0x9ee57a65f88767c4,
];
/// Binary exponents matching `BASE17_SMALL_MANTISSA`.
pub const BASE17_SMALL_EXPONENT: [i32; 16] = [
    -63, -59, -55, -51, -47, -43, -39, -35, -31, -27, -23, -19,
    -14, -10, -6, -2,
];
/// Normalized mantissas of every `step`-th power of 17.
pub const BASE17_LARGE_MANTISSA: [u64; 37] = [
    0xe0852eb057d9b00c, 0x94112ca148c5cf0f, 0xc34b91ddb6148a25, 0x80cb2f40219b5876,
    0xa9dfd04dd5009741, 0xe00edf1b1b780ca5, 0x93c32682ae281e22, 0xc2e4a8b76b223b91,
    0x8087511865a4d162, 0xa9864c6a19c87855, 0xdf98cddde7543345, 0x937549816ea8fd0c,
    0xc27df5cbb1a45eb2, 0x804396b3f7e7409d, 0xa92cf7b1e3ddedd7, 0xdf22fad7e14bddd4,
    0x93279587dff32f09, 0xc21778fdf630bdb6, 0x8000000000000000, 0xa8d3d20c580fde40,
    0xdead65e8408c7dde, 0x92da0a80631c1abf, 0xc1b13231b46bfdd3, 0xff7919d35ef53d6b,
    0xa87adb60a8464502, 0xde380eee4d8a1d4d, 0x928ca855649dc62f, 0xc14b214a7701aff2,
    0xfef27abc83974b40, 0xa8221396137b4b9a, 0xddc2f5c961f643e5, 0x923f6ef15c50d5c5,
    0xc0e5462bd79c658d, 0xfe6c2295f896bcfc, 0xa7c97a93e5b46652, 0xdd4e1a58e8b6e19d,
    0x91f25e3ecd668e9f,
];
/// Binary exponents matching `BASE17_LARGE_MANTISSA`.
pub const BASE17_LARGE_EXPONENT: [i32; 37] = [
    -1241, -1175, -1110, -1044, -979, -914, -848, -783, -717, -652, -587, -521,
    -456, -390, -325, -260, -194, -129, -63, 2, 67, 133, 198, 263,
    329, 394, 460, 525, 590, 656, 721, 787, 852, 917, 983, 1048,
    1114,
];
/// Exact integer values of the low powers of 17.
pub const BASE17_SMALL_INT_POWERS: [u64; 16] = [
    0x1, 0x11, 0x121, 0x1331,
    0x14641, 0x15aa51, 0x1704f61, 0x18754571,
    0x19fc99c81, 0x1b9c636491, 0x1d56299ada1, 0x1f2b8c3487b1,
    0x211e44f7d02c1, 0x233029474d2ed1, 0x25632bdbc201be1, 0x27b95e997e21d9f1,
];

/// Normalized mantissas of the low powers of 18, 64 bits wide.
pub const BASE18_SMALL_MANTISSA: [u64; 16] = [
    0x8000000000000000, 0x9000000000000000, 0xa200000000000000, 0xb640000000000000,
    0xcd08000000000000, 0xe6a9000000000000, 0x81bf100000000000, 0x91f6f20000000000,
    0xa435d04000000000, 0xb8bc8a4800000000, 0xcfd41b9100000000, 0xe9ce9f0320000000,
    0x83843971c2000000, 0x93f4c09ffa400000, 0xa67358b3f9880000, 0xbb41c3ca78b90000,
];
/// Binary exponents matching `BASE18_SMALL_MANTISSA`.
pub const BASE18_SMALL_EXPONENT: [i32; 16] = [
    -63, -59, -55, -51, -47, -43, -38, -34, -30, -26, -22, -18,
    -13, -9, -5, -1,
];
/// Normalized mantissas of every `step`-th power of 18.
pub const BASE18_LARGE_MANTISSA: [u64; 37] = [
    0x859569d084a33a37, 0xdbda8824b3fa51ff, 0xb4eb3f974fad8728, 0x94e11bbe93a07da5,
    0xf507082550adfc96, 0xc9a277c6c8ec84ea, 0xa5ed293373dae84d, 0x888ab8ddcb23bd0b,
    0xe0b8eb8d5fd3f254, 0xb8ece8bf009b617a, 0x982d218c800a4ba7, 0xfa74228a3ccbb6df,
    0xce1991ccd5024109, 0xa999d3930408b100, 0x8b90cd3b99445808, 0xe5b2e8f3bbdb4cdf,
    0xbd05488ca76c9eb4, 0x9b8bd8438586d9d4, 0x8000000000000000, 0xd2a9fc43c7d02000,
    0xad5b52be3de4c89e, 0x8ea805fd7a056282, 0xeac91cd21b4b49a6, 0xc134dfc4835a5b21,
    0x9efda9da20640431, 0x82d5a775db400a72, 0xd75446ae5f132146, 0xb1321ccdabce2c7c,
    0x91d0c451f97b8dcd, 0xeffc2719eaf1e8c5, 0xc57c3204d3a266f7, 0xa283029f85acdebe,
    0x85bb60c794adbaf9, 0xdc1903bceecfabb2, 0xb51eaa7759a45935, 0x950b6b8e94852e38,
    0xf54cab47564fb1bc,
];
/// Binary exponents matching `BASE18_LARGE_MANTISSA`.
pub const BASE18_LARGE_EXPONENT: [i32; 37] = [
    -1264, -1198, -1131, -1064, -998, -931, -864, -797, -731, -664, -597, -531,
    -464, -397, -330, -264, -197, -130, -63, 3, 70, 137, 203, 270,
    337, 404, 470, 537, 604, 670, 737, 804, 871, 937, 1004, 1071,
    1137,
];
/// Exact integer values of the low powers of 18.
pub const BASE18_SMALL_INT_POWERS: [u64; 16] = [
    0x1, 0x12, 0x144, 0x16c8,
    0x19a10, 0x1cd520, 0x206fc40, 0x247dbc80,
    0x290d74100, 0x2e2f229200, 0x33f506e4400, 0x3a73a7c0c800,
    0x41c21cb8e1000, 0x49fa604ffd2000, 0x5339ac59fcc4000, 0x5da0e1e53c5c8000,
];

/// Normalized mantissas of the low powers of 19, 64 bits wide.
pub const BASE19_SMALL_MANTISSA: [u64; 16] = [
    0x8000000000000000, 0x9800000000000000, 0xb480000000000000, 0xd658000000000000,
    0xfe88800000000000, 0x97210c0000000000, 0xb3773e4000000000, 0xd51d99ec00000000,
    0xfd1326c840000000, 0x96435f06e6000000, 0xb27000d831200000, 0xd3e50100ba560000,
    0xfb9ff130dd462000, 0x9566f7350361a300, 0xb16a458ef403f190, 0xd2ae3299c1c4aedb,
];
/// Binary exponents matching `BASE19_SMALL_MANTISSA`.
pub const BASE19_SMALL_EXPONENT: [i32; 16] = [
    -63, -59, -55, -51, -47, -42, -38, -34, -30, -25, -21, -17,
    -13, -8, -4, 0,
];
/// Normalized mantissas of every `step`-th power of 19.
pub const BASE19_LARGE_MANTISSA: [u64; 35] = [
    0xbd3174d87ea7e73b, 0xb8e4eda59c2eafe1, 0xb4b1682b7a96fff2, 0xb09652f3943dcbea,
    0xac931fd58a4726ef, 0xa8a743e3ea9803d7, 0xa4d2375965a72700, 0xa1137586719ab69b,
    0x9d6a7cbf58369f73, 0x99d6ce4aad2e7699, 0x9657ee502a7b9e95, 0x92ed63c7f066430f,
    0x8f96b86a26fd39ba, 0x8c53789efec604d8, 0x8923336f0e7b147c, 0x86057a740bbaf9a2,
    0x82f9e1c9dc978aea, 0x8000000000000000, 0xfa2edc1696198fa4, 0xf47f8e6ff27eb1b6,
    0xeef152381ba6e56e, 0xe983671408947e70, 0xe43511079cc4f082, 0xdf05985c3b7660d7,
    0xd9f44987eed230d4, 0xd50075151fa0369b, 0xd0296f8ada39e445, 0xcb6e91559d87b8fe,
    0xc6cf36b0b0e602e1, 0xc24abf8ffde0372f, 0xbde08f8a6ac3fb49, 0xb9900dc4b31e65d5,
    0xb558a4dcbb4706ff, 0xb139c2d55c2ceb84, 0xad32d902a4aa11db,
];
/// Binary exponents matching `BASE19_LARGE_MANTISSA`.
pub const BASE19_LARGE_EXPONENT: [i32; 35] = [
    -1219, -1151, -1083, -1015, -947, -879, -811, -743, -675, -607, -539, -471,
    -403, -335, -267, -199, -131, -63, 4, 72, 140, 208, 276, 344,
    412, 480, 548, 616, 684, 752, 820, 888, 956, 1024, 1092,
];
/// Exact integer values of the low powers of 19.
pub const BASE19_SMALL_INT_POWERS: [u64; 16] = [
    0x1, 0x13, 0x169, 0x1acb,
    0x1fd11, 0x25c843, 0x2cddcf9, 0x3547667b,
    0x3f44c9b21, 0x4b21af8373, 0x5938006c189, 0x69f280805d2b,
    0x7dcff8986ea31, 0x9566f7350361a3, 0xb16a458ef403f19, 0xd2ae3299c1c4aedb,
];

/// Normalized mantissas of the low powers of 20, 64 bits wide.
pub const BASE20_SMALL_MANTISSA: [u64; 15] = [
    0x8000000000000000, 0xa000000000000000, 0xc800000000000000, 0xfa00000000000000,
    0x9c40000000000000, 0xc350000000000000, 0xf424000000000000, 0x9896800000000000,
    0xbebc200000000000, 0xee6b280000000000, 0x9502f90000000000, 0xba43b74000000000,
    0xe8d4a51000000000, 0x9184e72a00000000, 0xb5e620f480000000,
];
/// Binary exponents matching `BASE20_SMALL_MANTISSA`.
pub const BASE20_SMALL_EXPONENT: [i32; 15] = [
    -63, -59, -55, -51, -46, -42, -38, -33, -29, -25, -20, -16,
    -12, -7, -3,
];
/// Normalized mantissas of every `step`-th power of 20.
pub const BASE20_LARGE_MANTISSA: [u64; 37] = [
    0x873e4f75e2224e68, 0xf03d93eebc589f88, 0xd5605fcdcf32e1d7, 0xbd8430bd08277231,
    0xa8530886b54dbdec, 0x9580869f0e7aac0f, 0x84c8d4dfd2c63f3b, 0xebdf661791d60f56,
    0xd17f3b51fca3a7a1, 0xba121a4650e4ddec, 0xa54394fe1eedb8ff, 0x92c8ae6b464fc96f,
    0x825ecc24c8737830, 0xe7958cb87392c2c3, 0xcdb02555653131b6, 0xb6b00d69bb55c8d1,
    0xa2425ff75e14fc32, 0x901d7cf73ab0acd9, 0x8000000000000000, 0xe35fa931a0000000,
    0xc9f2c9cd04674edf, 0xb35dbf821ae4f38c, 0x9f4f2726179a2245, 0x8d7eb76070a08aed,
    0xfb5878494ace3a5f, 0xdf3d5e9bc0f653e1, 0xc646d63501a1511e, 0xb01ae745b101e9e4,
    0x9c69a97284b578d8, 0x8aec23d680043bee, 0xf6c69a72a3989f5c, 0xdb2e51bfe9d0696a,
    0xc2abf989935ddbfe, 0xace73cbfdc0bfb7b, 0x9991a6f3d6bf1766, 0x8865899617fb1871,
    0xf24a01a73cf2dcd0,
];
/// Binary exponents matching `BASE20_LARGE_MANTISSA`.
pub const BASE20_LARGE_EXPONENT: [i32; 37] = [
    -1230, -1166, -1101, -1036, -971, -906, -841, -777, -712, -647, -582, -517,
    -452, -388, -323, -258, -193, -128, -63, 1, 66, 131, 196, 261,
    325, 390, 455, 520, 585, 650, 714, 779, 844, 909, 974, 1039,
    1103,
];
/// Exact integer values of the low powers of 20.
pub const BASE20_SMALL_INT_POWERS: [u64; 15] = [
    0x1, 0x14, 0x190, 0x1f40,
    0x27100, 0x30d400, 0x3d09000, 0x4c4b4000,
    0x5f5e10000, 0x7735940000, 0x9502f900000, 0xba43b7400000,
    0xe8d4a51000000, 0x12309ce54000000, 0x16bcc41e90000000,
];

/// Normalized mantissas of the low powers of 21, 64 bits wide.
pub const BASE21_SMALL_MANTISSA: [u64; 15] = [
    0x8000000000000000, 0xa800000000000000, 0xdc80000000000000, 0x90b4000000000000,
    0xbdec400000000000, 0xf946140000000000, 0xa395fd2000000000, 0xd6b4dc3a00000000,
    0x8ce6b08610000000, 0xb8eec7aff5000000, 0xf2b96616f1900000, 0x9f49aaff0e868000,
    0xd110b06ec3108800, 0x8932f3c8b002d940, 0xb412dff76703bd24,
];
/// Binary exponents matching `BASE21_SMALL_MANTISSA`.
pub const BASE21_SMALL_EXPONENT: [i32; 15] = [
    -63, -59, -55, -50, -46, -42, -37, -33, -28, -24, -20, -15,
    -11, -6, -2,
];
/// Normalized mantissas of every `step`-th power of 21.
pub const BASE21_LARGE_MANTISSA: [u64; 37] = [
    0x86c3b11434d5fc0d, 0xf8d64571d3c4fedc, 0xe5bbd2179019c809, 0xd418cfe3150a6b5f,
    0xc3d06c2ea4de4c42, 0xb4c80acac20f115c, 0xa6e71a8160f14620, 0x9a16ecefc4f444ce,
    0x8e4291756c717650, 0x8356b2fb7786dd01, 0xf282f0b939fb46ee, 0xdfe4ce7416b9469d,
    0xceb4921b16098e19, 0xbed62499be1848b4, 0xb02f96eb86ef71fb, 0xa2a8f7ba0bf0a519,
    0x962c2c3c2f0ca269, 0x8aa4cc163bace878, 0x8000000000000000, 0xec58c5f4b734e83f,
    0xda33cbc3e31a0c79, 0xc9736a611206280f, 0xb9fc4184710519af, 0xabb50aed85aaad70,
    0x9e8671152db8642b, 0x925ae90b6409a60f, 0x871e8f4278dc6713, 0xf97e0e1c68ac64b0,
    0xe656b94389d0e3bf, 0xd4a7d2b6de551834, 0xc4547461711e5997, 0xb541f0228055b869,
    0xa757a4335c86299a, 0x9a7ed2e63399bf9f, 0x8ea27d7bfe70394d, 0x83af41d4d4b2927d,
    0xf3267585285d842c,
];
/// Binary exponents matching `BASE21_LARGE_MANTISSA`.
pub const BASE21_LARGE_EXPONENT: [i32; 37] = [
    -1249, -1184, -1118, -1052, -986, -920, -854, -788, -722, -656, -591, -525,
    -459, -393, -327, -261, -195, -129, -63, 2, 68, 134, 200, 266,
    332, 398, 464, 529, 595, 661, 727, 793, 859, 925, 991, 1057,
    1122,
];
/// Exact integer values of the low powers of 21.
pub const BASE21_SMALL_INT_POWERS: [u64; 15] = [
    0x1, 0x15, 0x1b9, 0x242d,
    0x2f7b1, 0x3e5185, 0x51cafe9, 0x6b5a6e1d,
    0x8ce6b0861, 0xb8eec7aff5, 0xf2b96616f19, 0x13e9355fe1d0d,
    0x1a22160dd86211, 0x224cbcf22c00b65, 0x2d04b7fdd9c0ef49,
];

/// Normalized mantissas of the low powers of 22, 64 bits wide.
pub const BASE22_SMALL_MANTISSA: [u64; 15] = [
    0x8000000000000000, 0xb000000000000000, 0xf200000000000000, 0xa660000000000000,
    0xe4c4000000000000, 0x9d46c00000000000, 0xd841480000000000, 0x94ace18000000000,
    0xcc6db61000000000, 0x8c8b6d2b00000000, 0xc13fb61b20000000, 0x84dbcd32a6000000,
    0xb6ae3a25a4400000, 0xfb2f8ff3c1d80000, 0xacb0b2f795448000,
];
/// Binary exponents matching `BASE22_SMALL_MANTISSA`.
pub const BASE22_SMALL_EXPONENT: [i32; 15] = [
    -63, -59, -55, -50, -46, -41, -37, -32, -28, -23, -19, -14,
    -10, -6, -1,
];
/// Normalized mantissas of every `step`-th power of 22.
pub const BASE22_LARGE_MANTISSA: [u64; 37] = [
    0xf7dfbc811eafc5c9, 0xe5e9716a414dabe1, 0xd5405cf48b1b32b3, 0xc5cc59b4a70895fa,
    0xb777022e57a7fe10, 0xaa2b905edf788005, 0x9dd6bfa18fe26743, 0x9266b0c2dc6dac80,
    0x87cad01979320a29, 0xfbe77afff49cbea6, 0xe9a66c1845365c05, 0xd8b7fec72b7687f1,
    0xc903a91ff19c5ea3, 0xba72a86d717ca780, 0xacefe035612b60a0, 0xa067bb9f90b7624c,
    0x94c81114c0e15748, 0x8a0007ebf1571cbd, 0x8000000000000000, 0xed72f6146d3e3000,
    0xdc3e0f41e901b3d8, 0xcc485b78058eca21, 0xbd7ab944ad509434, 0xafbfb44e21828721,
    0xa303663add0d3eaf, 0x973359da4aec4bdc, 0x8c3e70648372808d, 0x8214c8aa4b2d8f70,
    0xf14f5022bac8d8fa, 0xdfd2ca774e902417, 0xcf9aa875076603a3, 0xc08f68628a83a328,
    0xb29b3c98e1cc3bc0, 0xa5a9ebe9f1b1c112, 0x99a8b451239a0517, 0x8e862fc3ca1da84b,
    0x84323af9d8811716,
];
/// Binary exponents matching `BASE22_LARGE_MANTISSA`.
pub const BASE22_LARGE_EXPONENT: [i32; 37] = [
    -1268, -1201, -1134, -1067, -1000, -933, -866, -799, -732, -666, -599, -532,
    -465, -398, -331, -264, -197, -130, -63, 3, 70, 137, 204, 271,
    338, 405, 472, 539, 605, 672, 739, 806, 873, 940, 1007, 1074,
    1141,
];
/// Exact integer values of the low powers of 22.
pub const BASE22_SMALL_INT_POWERS: [u64; 15] = [
    0x1, 0x16, 0x1e4, 0x2998,
    0x39310, 0x4ea360, 0x6c20a40, 0x94ace180,
    0xcc6db6100, 0x11916da5600, 0x1827f6c36400, 0x2136f34ca9800,
    0x2dab8e89691000, 0x3ecbe3fcf076000, 0x5658597bcaa24000,
];

/// Normalized mantissas of the low powers of 23, 64 bits wide.
pub const BASE23_SMALL_MANTISSA: [u64; 15] = [
    0x8000000000000000, 0xb800000000000000, 0x8440000000000000, 0xbe1c000000000000,
    0x88a4200000000000, 0xc46bee0000000000, 0x8d2d931000000000, 0xcaf1836700000000,
    0x91dd967208000000, 0xd1ae8843eb800000, 0x96b571f0d1440000, 0xd8a4d3ca2cd1c000,
    0x9bb678395036c200, 0xdfd64cd2634eb6e0, 0xa0e2073737609371,
];
/// Binary exponents matching `BASE23_SMALL_MANTISSA`.
pub const BASE23_SMALL_EXPONENT: [i32; 15] = [
    -63, -59, -54, -50, -45, -41, -36, -32, -27, -23, -18, -14,
    -9, -5, 0,
];
/// Normalized mantissas of every `step`-th power of 23.
pub const BASE23_LARGE_MANTISSA: [u64; 35] = [
    0xb3fb26198c221caf, 0xa29812ddca798bbf, 0x92e2fe46b903f5dd, 0x84b25e37913fcbc9,
    0xefc157c34962b2b0, 0xd898010c93996060, 0xc3ab779e42c7e470, 0xb0c4659f35572188,
    0x9fb0cdb30734d172, 0x904386c64953bdf3, 0x8253c4a030f69c53, 0xeb7957fbcc6faa0c,
    0xd4b9e23438bf5103, 0xc02cff3e5e44050d, 0xad9c5635cd6711d4, 0x9cd6ce430749bff5,
    0x8db00cc40c33dcf2, 0x8000000000000000, 0xe744ea5f5f9ad3f2, 0xd0ed718577c6b30f,
    0xbcbe7fc8766fb54e, 0xaa82b4b44619c233, 0x9a09d7e1aa7f54e8, 0x8b2859705b4c6297,
    0xfb6dbda5bbd86826, 0xe323b576e77ed339, 0xcd325e2dc16b94e2, 0xb95fb038ca1804d5,
    0xa7773f24944247f9, 0x9749aef82b019775, 0x88ac36f61f807900, 0xf6f060ee09fa752d,
    0xdf1561644241c0bc, 0xc98858cbfdaf91d8, 0xb61048d95e1fb4a6,
];
/// Binary exponents matching `BASE23_LARGE_MANTISSA`.
pub const BASE23_LARGE_EXPONENT: [i32; 35] = [
    -1217, -1149, -1081, -1013, -946, -878, -810, -742, -674, -606, -538, -471,
    -403, -335, -267, -199, -131, -63, 4, 72, 140, 208, 276, 344,
    411, 479, 547, 615, 683, 751, 819, 886, 954, 1022, 1090,
];
/// Exact integer values of the low powers of 23.
pub const BASE23_SMALL_INT_POWERS: [u64; 15] = [
    0x1, 0x17, 0x211, 0x2f87,
    0x44521, 0x6235f7, 0x8d2d931, 0xcaf18367,
    0x123bb2ce41, 0x1a35d1087d7, 0x25ad5c7c3451, 0x362934f28b347,
    0x4ddb3c1ca81b61, 0x6feb266931a75b7, 0xa0e2073737609371,
];

/// Normalized mantissas of the low powers of 24, 64 bits wide.
pub const BASE24_SMALL_MANTISSA: [u64; 14] = [
    0x8000000000000000, 0xc000000000000000, 0x9000000000000000, 0xd800000000000000,
    0xa200000000000000, 0xf300000000000000, 0xb640000000000000, 0x88b0000000000000,
    0xcd08000000000000, 0x99c6000000000000, 0xe6a9000000000000, 0xacfec00000000000,
    0x81bf100000000000, 0xc29e980000000000,
];
/// Binary exponents matching `BASE24_SMALL_MANTISSA`.
pub const BASE24_SMALL_EXPONENT: [i32; 14] = [
    -63, -59, -54, -50, -45, -41, -36, -31, -27, -22, -18, -13,
    -8, -4,
];
/// Normalized mantissas of every `step`-th power of 24.
pub const BASE24_LARGE_MANTISSA: [u64; 37] = [
    0xc0991e75d20d07bf, 0xdba106e97ff934f2, 0xfa74228a3ccbb6df, 0x8ecd5feb45ec7bcf,
    0xa2d8275926b916f1, 0xb9b307df4798a4eb, 0xd3c312148b1aa78c, 0xf17b85bed33e6005,
    0x89afe7ba5f73b604, 0x9d02e6e30c6ce309, 0xb30c33fa6cf47df3, 0xcc2d40d8a6fbd28d,
    0xe8d52c739c23cc31, 0x84c1571fb68d9aa8, 0x97632342e677367b, 0xaca25eb0fc50748d,
    0xc4dcfdb574feabb0, 0xe07e2450f6f06921, 0x8000000000000000, 0x91f6f20000000000,
    0xa67358b3f9880000, 0xbdcfcadc6e43e525, 0xd873960470159489, 0xf6d4874fdf203fa5,
    0x8cbc7a332c0b2df6, 0xa07d06bd29460ed2, 0xb70341579d0a5177, 0xd0b2c448fbd12505,
    0xedfd247de4a0ddfa, 0x87b1f3e5abf7d270, 0x9abd60d75b5375cc, 0xb07510381e6f3881,
    0xc9390af810fe954d, 0xe576d47df0be0e8a, 0x82d5a775db400a72, 0x953271ad497abd6e,
    0xaa22fbcc2531e167,
];
/// Binary exponents matching `BASE24_LARGE_MANTISSA`.
pub const BASE24_LARGE_EXPONENT: [i32; 37] = [
    -1219, -1155, -1091, -1026, -962, -898, -834, -770, -705, -641, -577, -513,
    -449, -384, -320, -256, -192, -128, -63, 1, 65, 129, 193, 257,
    322, 386, 450, 514, 578, 643, 707, 771, 835, 899, 964, 1028,
    1092,
];
/// Exact integer values of the low powers of 24.
pub const BASE24_SMALL_INT_POWERS: [u64; 14] = [
    0x1, 0x18, 0x240, 0x3600,
    0x51000, 0x798000, 0xb640000, 0x111600000,
    0x19a1000000, 0x26718000000, 0x39aa40000000, 0x567f600000000,
    0x81bf1000000000, 0xc29e98000000000,
];

/// Normalized mantissas of the low powers of 25, 64 bits wide.
pub const BASE25_SMALL_MANTISSA: [u64; 14] = [
    0x8000000000000000, 0xc800000000000000, 0x9c40000000000000, 0xf424000000000000,
    0xbebc200000000000, 0x9502f90000000000, 0xe8d4a51000000000, 0xb5e620f480000000,
    0x8e1bc9bf04000000, 0xde0b6b3a76400000, 0xad78ebc5ac620000, 0x878678326eac9000,
    0xd3c21bcecceda100, 0xa56fa5b99019a5c8,
];
/// Binary exponents matching `BASE25_SMALL_MANTISSA`.
pub const BASE25_SMALL_EXPONENT: [i32; 14] = [
    -63, -59, -54, -50, -45, -40, -36, -31, -26, -22, -17, -12,
    -8, -3,
];
/// Normalized mantissas of every `step`-th power of 25.
pub const BASE25_LARGE_MANTISSA: [u64; 37] = [
    0xd701ce3bd387bf48, 0xd91a0545cdb51186, 0xdb377599b6074245, 0xdd5a2c3eab3097cc,
    0xdf82365c497b5454, 0xe1afa13afbd14d6e, 0xe3e27a444d8d98b8, 0xe61acf033d1a45df,
    0xe858ad248f5c22ca, 0xea9c227723ee8bcb, 0xece53cec4a314ebe, 0xef340a98172aace5,
    0xf18899b1bc3f8ca2, 0xf3e2f893dec3f126, 0xf64335bcf065d37d, 0xf8a95fcf88747d94,
    0xfb158592be068d2f, 0xfd87b5f28300ca0e, 0x8000000000000000, 0x813f3978f8940984,
    0x82818f1281ed44a0, 0x83c7088e1aab65db, 0x850fadc09923329e, 0x865b86925b9bc5c2,
    0x87aa9aff79042287, 0x88fcf317f22241e2, 0x8a5296ffe33cc930, 0x8bab8eefb6409c1a,
    0x8d07e33455637eb3, 0x8e679c2f5e44ff8f, 0x8fcac257558ee4e6, 0x91315e37db165aa9,
    0x929b7871de7f22b9, 0x940919bbd4620b6d, 0x957a4ae1ebf7f3d4, 0x96ef14c6454aa840,
    0x9867806127ece4f5,
];
/// Binary exponents matching `BASE25_LARGE_MANTISSA`.
pub const BASE25_LARGE_EXPONENT: [i32; 37] = [
    -1234, -1169, -1104, -1039, -974, -909, -844, -779, -714, -649, -584, -519,
    -454, -389, -324, -259, -194, -129, -63, 2, 67, 132, 197, 262,
    327, 392, 457, 522, 587, 652, 717, 782, 847, 912, 977, 1042,
    1107,
];
/// Exact integer values of the low powers of 25.
pub const BASE25_SMALL_INT_POWERS: [u64; 14] = [
    0x1, 0x19, 0x271, 0x3d09,
    0x5f5e1, 0x9502f9, 0xe8d4a51, 0x16bcc41e9,
    0x2386f26fc1, 0x3782dace9d9, 0x56bc75e2d631, 0x878678326eac9,
    0xd3c21bcecceda1, 0x14adf4b7320334b9,
];

/// Normalized mantissas of the low powers of 26, 64 bits wide.
pub const BASE26_SMALL_MANTISSA: [u64; 14] = [
    0x8000000000000000, 0xd000000000000000, 0xa900000000000000, 0x8950000000000000,
    0xdf22000000000000, 0xb54ba00000000000, 0x934d720000000000, 0xef5dd94000000000,
    0xc27c408400000000, 0x9e04f46b40000000, 0x8064069724000000, 0xd0a28ab59a800000,
    0xa98410b38d880000, 0x89bb4d91e2fe8000,
];
/// Binary exponents matching `BASE26_SMALL_MANTISSA`.
pub const BASE26_SMALL_EXPONENT: [i32; 14] = [
    -63, -59, -54, -49, -45, -40, -35, -31, -26, -21, -16, -12,
    -7, -2,
];
/// Normalized mantissas of every `step`-th power of 26.
pub const BASE26_LARGE_MANTISSA: [u64; 37] = [
    0xb3ab0d25d4768dee, 0x9d143d709d29a572, 0x89547bac7756a80e, 0xf020bda77faa6293,
    0xd1eff807476c27e1, 0xb78ae928b13834f6, 0xa0776566433244ad, 0x8c4a9d4a7f7d6d34,
    0xf54e5e5c80be8995, 0xd676edfe8b188b2a, 0xbb8028bcb789fe59, 0xa3ed40801e07fb4f,
    0x8f51182d7dc95ffd, 0xfa989534b9f14fba, 0xdb16e202f9dba47a, 0xbf8b41f5cfa6f4bf,
    0xa77635f9a0843daa, 0x9268469641805665, 0x8000000000000000, 0xdfd05e0d10dd9000,
    0xc3acad73bb2b01f7, 0xab12af48226bfc3d, 0x959084b7d82ca613, 0x82c29ffaad9b41d8,
    0xe4a3ef0ef8499b17, 0xc7e4e670239c9de7, 0xaec318272a8a8d04, 0x98ca30c24c2b4f42,
    0x85947ce2e8744e9a, 0xe9922504f01977f4, 0xcc346accf6903e75, 0xb287dea4fca4ad57,
    0x9c15aaed9e8a9d93, 0x8875ead7ca50ef5b, 0xee9b9306178d097a, 0xd09bbb231111ed84,
    0xb661732f6cba24fd,
];
/// Binary exponents matching `BASE26_LARGE_MANTISSA`.
pub const BASE26_LARGE_EXPONENT: [i32; 37] = [
    -1248, -1182, -1116, -1051, -985, -919, -853, -787, -722, -656, -590, -524,
    -458, -393, -327, -261, -195, -129, -63, 2, 68, 134, 200, 266,
    331, 397, 463, 529, 595, 660, 726, 792, 858, 924, 989, 1055,
    1121,
];
/// Exact integer values of the low powers of 26.
pub const BASE26_SMALL_INT_POWERS: [u64; 14] = [
    0x1, 0x1a, 0x2a4, 0x44a8,
    0x6f910, 0xb54ba0, 0x1269ae40, 0x1debbb280,
    0x309f102100, 0x4f027a35a00, 0x806406972400, 0xd0a28ab59a800,
    0x1530821671b1000, 0x226ed36478bfa000,
];

/// Normalized mantissas of the low powers of 27, 64 bits wide.
pub const BASE27_SMALL_MANTISSA: [u64; 14] = [
    0x8000000000000000, 0xd800000000000000, 0xb640000000000000, 0x99c6000000000000,
    0x81bf100000000000, 0xdaf26b0000000000, 0xb8bc8a4800000000, 0x9bdf14acc0000000,
    0x83843971c2000000, 0xddef20eff7600000, 0xbb41c3ca78b90000, 0x9dff7d32d5dc1800,
    0x854f91a2e471b440, 0xe0f645c2e17fe02c,
];
/// Binary exponents matching `BASE27_SMALL_MANTISSA`.
pub const BASE27_SMALL_EXPONENT: [i32; 14] = [
    -63, -59, -54, -49, -44, -40, -35, -30, -25, -21, -16, -11,
    -6, -2,
];
/// Normalized mantissas of every `step`-th power of 27.
pub const BASE27_LARGE_MANTISSA: [u64; 37] = [
    0xda06635b9b60ffd1, 0xa1a7af49be957d25, 0xefb8063360c271da, 0xb1bd70569045502f,
    0x83c920f64481366b, 0xc36ceacb4aa59e38, 0x90e60946278872a7, 0xd6dee35924a89ab2,
    0x9f50f65788a1986d, 0xec402d29c2752fc1, 0xaf2b247269e0c002, 0x81e10899cff7231a,
    0xc0991e75d20d07bf, 0x8ecd5feb45ec7bcf, 0xd3c312148b1aa78c, 0x9d02e6e30c6ce309,
    0xe8d52c739c23cc31, 0xaca25eb0fc50748d, 0x8000000000000000, 0xbdcfcadc6e43e525,
    0x8cbc7a332c0b2df6, 0xd0b2c448fbd12505, 0x9abd60d75b5375cc, 0xe576d47df0be0e8a,
    0xaa22fbcc2531e167, 0xfc4bda02d71f0e56, 0xbb10c93678fef93d, 0x8ab33b5c3c24cdc2,
    0xcdadcf51e52ec9e8, 0x9880449658f7e0ca, 0xe224f665f69428af, 0xa7acd9006715d3ff,
    0xf8a56baf0ed806d5, 0xb85bf34af0bc3000, 0x88b1870f59ba3596, 0xcab40928a5557bf2,
    0x964b72f7032edc83,
];
/// Binary exponents matching `BASE27_LARGE_MANTISSA`.
pub const BASE27_LARGE_EXPONENT: [i32; 37] = [
    -1262, -1195, -1129, -1062, -995, -929, -862, -796, -729, -663, -596, -529,
    -463, -396, -330, -263, -197, -130, -63, 3, 70, 136, 203, 269,
    336, 402, 469, 536, 602, 669, 735, 802, 868, 935, 1002, 1068,
    1135,
];
/// Exact integer values of the low powers of 27.
pub const BASE27_SMALL_INT_POWERS: [u64; 14] = [
    0x1, 0x1b, 0x2d9, 0x4ce3,
    0x81bf1, 0xdaf26b, 0x17179149, 0x26f7c52b3,
    0x41c21cb8e1, 0x6ef79077fbb, 0xbb41c3ca78b9, 0x13bfefa65abb83,
    0x2153e468b91c6d1, 0x383d9170b85ff80b,
];

/// Normalized mantissas of the low powers of 28, 64 bits wide.
pub const BASE28_SMALL_MANTISSA: [u64; 14] = [
    0x8000000000000000, 0xe000000000000000, 0xc400000000000000, 0xab80000000000000,
    0x9610000000000000, 0x834e000000000000, 0xe5c8800000000000, 0xc90f700000000000,
    0xafed820000000000, 0x99efd1c000000000, 0x86b1d78800000000, 0xebb7392e00000000,
    0xce40520840000000, 0xb47847c738000000,
];
/// Binary exponents matching `BASE28_SMALL_MANTISSA`.
pub const BASE28_SMALL_EXPONENT: [i32; 14] = [
    -63, -59, -54, -49, -44, -39, -35, -30, -25, -20, -15, -11,
    -6, -1,
];
/// Normalized mantissas of every `step`-th power of 28.
pub const BASE28_LARGE_MANTISSA: [u64; 37] = [
    0xbaf4e427ac830a9b, 0xe6a50d5bf0c22155, 0x8e455e00665c6ca6, 0xaf845560857b1138,
    0xd88825baced1d329, 0x8590c82d631199d3, 0xa4c6f89d789fb06b, 0xcb484ffbad83be42,
    0xfac91f7afab7d4e1, 0x9ab1d6e2e581af83, 0xbed80532f2b71da8, 0xeb70b93e33642a8e,
    0x913aa4f6cb31ff60, 0xb32a92597ca9583e, 0xdd08b2e992947382, 0x8857b8de53bfbe04,
    0xa8340b55786e5b75, 0xcf82572bcafd281f, 0x8000000000000000, 0x9de93ece51000000,
    0xc2cfd718e4a40f05, 0xf055ebc0c1b72dfd, 0x943faabf49853a8b, 0xb6e43c113b5cfbd7,
    0xe1a136dfd2538ea8, 0x8b2d71bd181c0bf2, 0xabb35a855215afae, 0xd3d2ddc1ee83c691,
    0x82a950e38d3208b3, 0xa131c588f7c1ef8b, 0xc6dcc7fb81009e47, 0xf5552cc1fe12f711,
    0x9754c3290e62d394, 0xbab1b9ec971703f4, 0xe652312ba4378c59, 0x8e1241780b5aac14,
    0xaf45473e4170f23d,
];
/// Binary exponents matching `BASE28_LARGE_MANTISSA`.
pub const BASE28_LARGE_EXPONENT: [i32; 37] = [
    -1275, -1208, -1140, -1073, -1006, -938, -871, -804, -737, -669, -602, -535,
    -467, -400, -333, -265, -198, -131, -63, 4, 71, 138, 206, 273,
    340, 408, 475, 542, 610, 677, 744, 811, 879, 946, 1013, 1081,
    1148,
];
/// Exact integer values of the low powers of 28.
pub const BASE28_SMALL_INT_POWERS: [u64; 14] = [
    0x1, 0x1c, 0x310, 0x55c0,
    0x96100, 0x1069c00, 0x1cb91000, 0x3243dc000,
    0x57f6c10000, 0x99efd1c0000, 0x10d63af100000, 0x1d76e725c00000,
    0x339014821000000, 0x5a3c23e39c000000,
];

/// Normalized mantissas of the low powers of 29, 64 bits wide.
pub const BASE29_SMALL_MANTISSA: [u64; 14] = [
    0x8000000000000000, 0xe800000000000000, 0xd240000000000000, 0xbe8a000000000000,
    0xacad100000000000, 0x9c7cd68000000000, 0x8dd1226400000000, 0x8085872aa0000000,
    0xe8f204fd42000000, 0xd31b548583d00000, 0xbf50c498ff748000, 0xad61322aa7819400,
    0x9d201576a7cd6e20, 0x8e65137388122bcd,
];
/// Binary exponents matching `BASE29_SMALL_MANTISSA`.
pub const BASE29_SMALL_EXPONENT: [i32; 14] = [
    -63, -59, -54, -49, -44, -39, -34, -29, -25, -20, -15, -10,
    -5, 0,
];
/// Normalized mantissas of every `step`-th power of 29.
pub const BASE29_LARGE_MANTISSA: [u64; 35] = [
    0xdef1181cb163b9db, 0xe0c32e9911bf7ea8, 0xe299137fc195f9fc, 0xe472cec5e42b62c1,
    0xe65068713fa881e4, 0xe831e8985fe272b8, 0xea175762b96b19bf, 0xec00bd08cceae9e2,
    0xedee21d44ac49158, 0xefdf8e20370328be, 0xf1d50a590d938024, 0xf3ce9efce6c9271f,
    0xf5cc549b9c2fce2a, 0xf7ce33d6eda9a0f6, 0xf9d44562a6db3aa2, 0xfbde9204c4e5d603,
    0xfded22959c705d95, 0x8000000000000000, 0x810b99a0b35077b2, 0x821962b5096ff985,
    0x83295fce9d0aba3a, 0x843b958896015913, 0x85500887bd60e1ed, 0x8666bd7a91848eac,
    0x877fb9195a619f32, 0x889b00263dfd9ff0, 0x89b8976d550f77b5, 0x8ad883c4bfcb963a,
    0x8bfaca0cbadb9d84, 0x8d1f6f2fb481e115, 0x8e46782261e9167e, 0x8f6fe9e3d4a093cd,
    0x909bc97d904578db, 0x91ca1c03a0592189, 0x92fae694ae453f7b,
];
/// Binary exponents matching `BASE29_LARGE_MANTISSA`.
pub const BASE29_LARGE_EXPONENT: [i32; 35] = [
    -1220, -1152, -1084, -1016, -948, -880, -812, -744, -676, -608, -540, -472,
    -404, -336, -268, -200, -132, -63, 5, 73, 141, 209, 277, 345,
    413, 481, 549, 617, 685, 753, 821, 889, 957, 1025, 1093,
];
/// Exact integer values of the low powers of 29.
pub const BASE29_SMALL_INT_POWERS: [u64; 14] = [
    0x1, 0x1d, 0x349, 0x5f45,
    0xacad1, 0x138f9ad, 0x23744899, 0x4042c3955,
    0x7479027ea1, 0xd31b548583d, 0x17ea18931fee9, 0x2b584c8aa9e065,
    0x4e900abb53e6b71, 0x8e65137388122bcd,
];

/// Normalized mantissas of the low powers of 30, 64 bits wide.
pub const BASE30_SMALL_MANTISSA: [u64; 14] = [
    0x8000000000000000, 0xf000000000000000, 0xe100000000000000, 0xd2f0000000000000,
    0xc5c1000000000000, 0xb964f00000000000, 0xadcea10000000000, 0xa2f1b6f000000000,
    0x98c29b8100000000, 0x8f3671c8f0000000, 0x86430aac61000000, 0xfbbdb40335e00000,
    0xec01d8c302820000, 0xdd41bb36d259e000,
];
/// Binary exponents matching `BASE30_SMALL_MANTISSA`.
pub const BASE30_SMALL_EXPONENT: [i32; 14] = [
    -63, -59, -54, -49, -44, -39, -34, -29, -24, -19, -14, -10,
    -5, 0,
];
/// Normalized mantissas of every `step`-th power of 30.
pub const BASE30_LARGE_MANTISSA: [u64; 35] = [
    0x8f043c49c74ecc62, 0xe7c35554b9723bc0, 0xbbca30941d99fd94, 0x9828e76169e01370,
    0xf69476a393c2bd1d, 0xc7cba2c98d4397d8, 0xa1e336d34f566989, 0x832c0bf26b71a40e,
    0xd491924b93d2f09a, 0xac3cbbb9eb1921f1, 0x8b8edcf96306141b, 0xe2288eee338dcc4a,
    0xb73fa3c2bc0adc69, 0x947aedb1c4af1c11, 0xf09df61d03ec60d1, 0xc2f6c330dc57346f,
    0x9df90460f28cb6c8, 0x8000000000000000, 0xcf6d9f8365344200, 0xa81276e7b6f32c64,
    0x882ee6bbb955e1a1, 0xdcb07aca1fdea5b2, 0xb2d133f099a5a631, 0x90e3bb7e60af6a8d,
    0xeacc5fb3a881bc4c, 0xbe3fccb47797c4e5, 0x9a270e3b5b8a7c3a, 0xf9cf2e60de1df5dd,
    0xca697f5ef86d6ddf, 0xa401fb08706d5d32, 0x84e3d5051e4442cb, 0xd75a421d1a289025,
    0xae7e331345ed69e7, 0x8d62c3c2460842c9, 0xe51ecee0b2ba5259,
];
/// Binary exponents matching `BASE30_LARGE_MANTISSA`.
pub const BASE30_LARGE_EXPONENT: [i32; 35] = [
    -1231, -1163, -1094, -1025, -957, -888, -819, -750, -682, -613, -544, -476,
    -407, -338, -270, -201, -132, -63, 5, 74, 143, 211, 280, 349,
    417, 486, 555, 623, 692, 761, 830, 898, 967, 1036, 1104,
];
/// Exact integer values of the low powers of 30.
pub const BASE30_SMALL_INT_POWERS: [u64; 14] = [
    0x1, 0x1e, 0x384, 0x6978,
    0xc5c10, 0x172c9e0, 0x2b73a840, 0x5178db780,
    0x98c29b8100, 0x11e6ce391e00, 0x2190c2ab18400, 0x3eef6d00cd7800,
    0x7600ec618141000, 0xdd41bb36d259e000,
];

/// Normalized mantissas of the low powers of 31, 64 bits wide.
pub const BASE31_SMALL_MANTISSA: [u64; 13] = [
    0x8000000000000000, 0xf800000000000000, 0xf040000000000000, 0xe8be000000000000,
    0xe178100000000000, 0xda6c4f8000000000, 0xd398ed0400000000, 0xccfc259be0000000,
    0xc694446f01000000, 0xc05fa24b88f80000, 0xba5ca5392cb04000, 0xb489c00f634abe00,
    0xaee5720ee8306810,
];
/// Binary exponents matching `BASE31_SMALL_MANTISSA`.
pub const BASE31_SMALL_EXPONENT: [i32; 13] = [
    -63, -59, -54, -49, -44, -39, -34, -29, -24, -19, -14, -9,
    -4,
];
/// Normalized mantissas of every `step`-th power of 31.
pub const BASE31_LARGE_MANTISSA: [u64; 37] = [
    0xd28e748d65a6eb05, 0x8b5abe225fbbb5e3, 0xb875ddc410318dda, 0xf42a89ae1dec44ab,
    0xa199426754ddaac0, 0xd5e79260f09b2e02, 0x8d920409dcdb4e12, 0xbb64c0c830ecb422,
    0xf80c78523293b812, 0xa42b1517e32be036, 0xd94e514965411383, 0x8fd24f2720049841,
    0xbe5f9472c3195664, 0xfbfe34fb6b72f16b, 0xa6c75d98b6bc3ea2, 0xdcc2e8c1d716f173,
    0x921bc4324f3f69d3, 0xc166895e8b67758f, 0x8000000000000000, 0xa96e467e70eee4d0,
    0xe0459127325bb739, 0x946e887909f4110f, 0xc479d0ec298f1321, 0x82090d5e06ab5af8,
    0xac1ffb0b088f2a8c, 0xe3d683bbd36ac390, 0x96cac1e0c962fbf0, 0xc7999d453dba614f,
    0x841a63cae02a5f4d, 0xaedca7308b6b6912, 0xe775faab2cb62e36, 0x993096e94ac9457e,
    0xcac6215f9abe917f, 0x86342500c854c557, 0xb1a47793eb2508f6, 0xeb24310d7b9b07d9,
    0x9ba02eaf03598c81,
];
/// Binary exponents matching `BASE31_LARGE_MANTISSA`.
pub const BASE31_LARGE_EXPONENT: [i32; 37] = [
    -1223, -1158, -1094, -1030, -965, -901, -836, -772, -708, -643, -579, -514,
    -450, -386, -321, -257, -192, -128, -63, 1, 65, 130, 194, 259,
    323, 387, 452, 516, 581, 645, 709, 774, 838, 903, 967, 1031,
    1096,
];
/// Exact integer values of the low powers of 31.
pub const BASE31_SMALL_INT_POWERS: [u64; 13] = [
    0x1, 0x1f, 0x3c1, 0x745f,
    0xe1781, 0x1b4d89f, 0x34e63b41, 0x667e12cdf,
    0xc694446f01, 0x180bf449711f, 0x2e97294e4b2c1, 0x5a44e007b1a55f,
    0xaee5720ee830681,
];

/// Normalized mantissas of the low powers of 32, 64 bits wide.
pub const BASE32_SMALL_MANTISSA: [u64; 13] = [
    0x8000000000000000, 0x8000000000000000, 0x8000000000000000, 0x8000000000000000,
    0x8000000000000000, 0x8000000000000000, 0x8000000000000000, 0x8000000000000000,
    0x8000000000000000, 0x8000000000000000, 0x8000000000000000, 0x8000000000000000,
    0x8000000000000000,
];
/// Binary exponents matching `BASE32_SMALL_MANTISSA`.
pub const BASE32_SMALL_EXPONENT: [i32; 13] = [
    -63, -58, -53, -48, -43, -38, -33, -28, -23, -18, -13, -8,
    -3,
];
/// Normalized mantissas of every `step`-th power of 32.
pub const BASE32_LARGE_MANTISSA: [u64; 37] = [
    0x8000000000000000, 0x8000000000000000, 0x8000000000000000, 0x8000000000000000,
    0x8000000000000000, 0x8000000000000000, 0x8000000000000000, 0x8000000000000000,
    0x8000000000000000, 0x8000000000000000, 0x8000000000000000, 0x8000000000000000,
    0x8000000000000000, 0x8000000000000000, 0x8000000000000000, 0x8000000000000000,
    0x8000000000000000, 0x8000000000000000, 0x8000000000000000, 0x8000000000000000,
    0x8000000000000000, 0x8000000000000000, 0x8000000000000000, 0x8000000000000000,
    0x8000000000000000, 0x8000000000000000, 0x8000000000000000, 0x8000000000000000,
    0x8000000000000000, 0x8000000000000000, 0x8000000000000000, 0x8000000000000000,
    0x8000000000000000, 0x8000000000000000, 0x8000000000000000, 0x8000000000000000,
    0x8000000000000000,
];
/// Binary exponents matching `BASE32_LARGE_MANTISSA`.
pub const BASE32_LARGE_EXPONENT: [i32; 37] = [
    -1233, -1168, -1103, -1038, -973, -908, -843, -778, -713, -648, -583, -518,
    -453, -388, -323, -258, -193, -128, -63, 2, 67, 132, 197, 262,
    327, 392, 457, 522, 587, 652, 717, 782, 847, 912, 977, 1042,
    1107,
];
/// Exact integer values of the low powers of 32.
pub const BASE32_SMALL_INT_POWERS: [u64; 13] = [
    0x1, 0x20, 0x400, 0x8000,
    0x100000, 0x2000000, 0x40000000, 0x800000000,
    0x10000000000, 0x200000000000, 0x4000000000000, 0x80000000000000,
    0x1000000000000000,
];

/// Normalized mantissas of the low powers of 33, 64 bits wide.
pub const BASE33_SMALL_MANTISSA: [u64; 13] = [
    0x8000000000000000, 0x8400000000000000, 0x8820000000000000, 0x8c61000000000000,
    0x90c4080000000000, 0x954a284000000000, 0x99f4798200000000, 0x9ec41d4e10000000,
    0xa3ba3e3880800000, 0xa8d8102a44840000, 0xae1ed0ab96a82000, 0xb38fc730f35d6100,
    0xb92c456a7af84c08,
];
/// Binary exponents matching `BASE33_SMALL_MANTISSA`.
pub const BASE33_SMALL_EXPONENT: [i32; 13] = [
    -63, -58, -53, -48, -43, -38, -33, -28, -23, -18, -13, -8,
    -3,
];
/// Normalized mantissas of every `step`-th power of 33.
pub const BASE33_LARGE_MANTISSA: [u64; 37] = [
    0xc39a11a45e5f577e, 0x91e80b96d88c84cc, 0xd9ac76619b25fa5b, 0xa25ee0689f03edd0,
    0xf23c734aa5dc8961, 0xb4b14ffeeda0ba31, 0x86c8fd5a2bb31a02, 0xc915053ec1be9cea,
    0x95fe8ea4faf5386a, 0xdfc5b95b971320ae, 0xa6eb7a494d8e61d2, 0xf905e2c774c8127e,
    0xb9c153f6a2197bc1, 0x8a8fbbf038b457a1, 0xceb74780005cf680, 0x9a3263caf515f1bd,
    0xe60aba767c4460b1, 0xab98b540015916f0, 0x8000000000000000, 0xbef5a795ced00e68,
    0x8e71907c916f7b1c, 0xd481f256572addfc, 0x9e845d5621b8e271, 0xec7cb370b8e4b16a,
    0xb0677b5520ca32c9, 0x8396140cf3006764, 0xc44f4f4d68f55f50, 0x926f3d44f6779465,
    0xda76279627df98d9, 0xa2f553783f60bafd, 0xf31ce6d30e02a4b4, 0xb558bd1fab2f3ca8,
    0x8745e10182e269d2, 0xc9cf56da68a4d5de, 0x96898a00930f5f94, 0xe0951132a0c5bc60,
    0xa7862471b33021fd,
];
/// Binary exponents matching `BASE33_LARGE_MANTISSA`.
pub const BASE33_LARGE_EXPONENT: [i32; 37] = [
    -1244, -1178, -1113, -1047, -982, -916, -850, -785, -719, -654, -588, -523,
    -457, -391, -326, -260, -195, -129, -63, 2, 68, 133, 199, 264,
    330, 396, 461, 527, 592, 658, 723, 789, 855, 920, 986, 1051,
    1117,
];
/// Exact integer values of the low powers of 33.
pub const BASE33_SMALL_INT_POWERS: [u64; 13] = [
    0x1, 0x21, 0x441, 0x8c61,
    0x121881, 0x25528a1, 0x4cfa3cc1, 0x9ec41d4e1,
    0x147747c7101, 0x2a36040a9121, 0x570f6855cb541, 0xb38fc730f35d61,
    0x172588ad4f5f0981,
];

/// Normalized mantissas of the low powers of 34, 64 bits wide.
pub const BASE34_SMALL_MANTISSA: [u64; 13] = [
    0x8000000000000000, 0x8800000000000000, 0x9080000000000000, 0x9988000000000000,
    0xa320800000000000, 0xad52880000000000, 0xb827b08000000000, 0xc3aa2b8800000000,
    0xcfe4ce4080000000, 0xdce31b2488000000, 0xeab14cd6d0800000, 0xf95c61a43d880000,
    0x847913df40b04000,
];
/// Binary exponents matching `BASE34_SMALL_MANTISSA`.
pub const BASE34_SMALL_EXPONENT: [i32; 13] = [
    -63, -58, -53, -48, -43, -38, -33, -28, -23, -18, -13, -8,
    -2,
];
/// Normalized mantissas of every `step`-th power of 34.
pub const BASE34_LARGE_MANTISSA: [u64; 37] = [
    0xb94c036cc200fad5, 0xcbc204ca5b4d056c, 0xe00edf1b1b780ca5, 0xf6617b5a99f9d6d9,
    0x8776b77b00748317, 0x94f5b97fb238a88b, 0xa3ccf3a0a8a1b17b, 0xb41eb130bb64ffda,
    0xc610a82fbfa08274, 0xd9cc506f2b63312b, 0xef7f43654fe8be8d, 0x83add2c64cdf3104,
    0x90cc4d212adc0ff2, 0x9f3961985dfe0d06, 0xaf16663557c1a312, 0xc088033e7af49949,
    0xd3b687ec76842b83, 0xe8ce47901e1bd68e, 0x8000000000000000, 0x8cc0a51d34bb4400,
    0x9ac68b200ff52929, 0xaa3219a301a20766, 0xbb26f2bc28cef432, 0xcdcc4554cfb2bdb1,
    0xe24d27b508d22675, 0xf8d8fb14a917dec0, 0x88d1ec8bd9a2bda5, 0x967386199aa9c53c,
    0xa570ca0866961cbb, 0xb5ec5b9160f2877a, 0xc80c515c8ca30308, 0xdbfa8d84cabaa96a,
    0xf1e51e60b0bd1d1b, 0x84ff5477ee883968, 0x923f6ef15c50d5c5, 0xa0d17d258aa4e22f,
    0xb0d72a8f84fd7045,
];
/// Binary exponents matching `BASE34_LARGE_MANTISSA`.
pub const BASE34_LARGE_EXPONENT: [i32; 37] = [
    -1254, -1188, -1122, -1056, -989, -923, -857, -791, -725, -659, -593, -526,
    -460, -394, -328, -262, -196, -130, -63, 3, 69, 135, 201, 267,
    333, 399, 466, 532, 598, 664, 730, 796, 862, 929, 995, 1061,
    1127,
];
/// Exact integer values of the low powers of 34.
pub const BASE34_SMALL_INT_POWERS: [u64; 13] = [
    0x1, 0x22, 0x484, 0x9988,
    0x146410, 0x2b54a20, 0x5c13d840, 0xc3aa2b880,
    0x19fc99c8100, 0x3738c6c92200, 0x7558a66b68400, 0xf95c61a43d8800,
    0x211e44f7d02c1000,
];

/// Normalized mantissas of the low powers of 35, 64 bits wide.
pub const BASE35_SMALL_MANTISSA: [u64; 13] = [
    0x8000000000000000, 0x8c00000000000000, 0x9920000000000000, 0xa77b000000000000,
    0xb72e880000000000, 0xc85ae4c000000000, 0xdb236a3200000000, 0xefaebc26b0000000,
    0x83138ee528400000, 0x8f5d644aa4060000, 0x9cce25b1a3669000, 0xab81793a4ab82d80,
    0xbb959c97c1b971c4,
];
/// Binary exponents matching `BASE35_SMALL_MANTISSA`.
pub const BASE35_SMALL_EXPONENT: [i32; 13] = [
    -63, -58, -53, -48, -43, -38, -33, -28, -22, -17, -12, -7,
    -2,
];
/// Normalized mantissas of every `step`-th power of 35.
pub const BASE35_LARGE_MANTISSA: [u64; 37] = [
    0xd6f0063193b0ced1, 0xac42d85c53b7690a, 0x8a0ee459edd13533, 0xdd4aead32f966c01,
    0xb15ab6c3c106bcfc, 0x8e23dfb4b2c6ce94, 0xe3d5e9a3f2f3649e, 0xb699225604aeaf51,
    0x9257c0ad11ffa146, 0xea926ebbab9d2005, 0xbbff3ee03eb96761, 0x96ab71200bb3914a,
    0xf181f0f6067a7fc6, 0xc18e38d03e962bb5, 0x9b1fe1d4c50c9e13, 0xf8a5f2440b18819c,
    0xc7474575d0f321ad, 0x9fb60ab0de9ffafd, 0x8000000000000000, 0xcd2ba345fbe2d46e,
    0xa46eeaee570e1851, 0x83c8d9a1e5046f38, 0xd33c9a2037eae8a0, 0xa94b8953058024ee,
    0x87ae58a0ecb87ac9, 0xd97b7b95b508019f, 0xae4cf469b81238ea, 0x8bb155d05c05978b,
    0xdfe9a332bb24c14f, 0xb37442bd0294a0e0, 0x8fd2b06ca636c85d, 0xe68876ca35f70e2d,
    0xb8c29313ca6cbbf4, 0x94134e4bf34dcc4a, 0xed5966c37caf8576, 0xbe390caf9cbea012,
    0x98741c1015a2b1fc,
];
/// Binary exponents matching `BASE35_LARGE_MANTISSA`.
pub const BASE35_LARGE_EXPONENT: [i32; 37] = [
    -1264, -1197, -1130, -1064, -997, -930, -864, -797, -730, -664, -597, -530,
    -464, -397, -330, -264, -197, -130, -63, 3, 70, 137, 203, 270,
    337, 403, 470, 537, 603, 670, 737, 803, 870, 937, 1003, 1070,
    1137,
];
/// Exact integer values of the low powers of 35.
pub const BASE35_SMALL_INT_POWERS: [u64; 13] = [
    0x1, 0x23, 0x4c9, 0xa77b,
    0x16e5d1, 0x3216b93, 0x6d91b519, 0xefaebc26b,
    0x20c4e3b94a1, 0x47aeb2255203, 0x9cce25b1a3669, 0x15702f27495705b,
    0x2ee56725f06e5c71,
];

/// Normalized mantissas of the low powers of 36, 64 bits wide.
pub const BASE36_SMALL_MANTISSA: [u64; 13] = [
    0x8000000000000000, 0x9000000000000000, 0xa200000000000000, 0xb640000000000000,
    0xcd08000000000000, 0xe6a9000000000000, 0x81bf100000000000, 0x91f6f20000000000,
    0xa435d04000000000, 0xb8bc8a4800000000, 0xcfd41b9100000000, 0xe9ce9f0320000000,
    0x83843971c2000000,
];
/// Binary exponents matching `BASE36_SMALL_MANTISSA`.
pub const BASE36_SMALL_EXPONENT: [i32; 13] = [
    -63, -58, -53, -48, -43, -38, -32, -27, -22, -17, -12, -7,
    -1,
];
/// Normalized mantissas of every `step`-th power of 36.
pub const BASE36_LARGE_MANTISSA: [u64; 37] = [
    0x96e918799a9fda90, 0xae70418c90afdd11, 0xc9a277c6c8ec84ea, 0xe91222b2535fbcff,
    0x86b43e94b7f6b67b, 0x9bb4922ccfe438e5, 0xb3fb1a679227b7ad, 0xd00a85d6e0aecdaa,
    0xf079e2d7b4363205, 0x8afbe65fc2fbb381, 0xa0a70be8aeaa0b49, 0xb9b307df4798a4eb,
    0xd6a6afc6111b0005, 0xf81ddea2d795f1d6, 0x8f665e012913307f, 0xa5c1c2e54de87c1e,
    0xbf9978a0abaee0f4, 0xdd789d6c239e8126, 0x8000000000000000, 0x93f4c09ffa400000,
    0xab05fe6ef695cab2, 0xc5afe6ff302bcbf9, 0xe48204185544401b, 0x841120362f5a596d,
    0x98a832626176ccbe, 0xb07510381e6f3881, 0xcbf7d95380a8f07b, 0xebc4a6fedf928d52,
    0x884354ba582a1b0e, 0x9d81e0b6d19ad235, 0xb61054adfd8f25e0, 0xd272e25d481ed865,
    0xf34257a9fc579eee, 0x8c97aa9befaa5dcd, 0xa283029f85acdebe, 0xbbd9334fd40106a3,
    0xd922a1a811acef90,
];
/// Binary exponents matching `BASE36_LARGE_MANTISSA`.
pub const BASE36_LARGE_EXPONENT: [i32; 37] = [
    -1273, -1206, -1139, -1072, -1004, -937, -870, -803, -736, -668, -601, -534,
    -467, -400, -332, -265, -198, -131, -63, 4, 71, 138, 205, 273,
    340, 407, 474, 541, 609, 676, 743, 810, 877, 945, 1012, 1079,
    1146,
];
/// Exact integer values of the low powers of 36.
pub const BASE36_SMALL_INT_POWERS: [u64; 13] = [
    0x1, 0x24, 0x510, 0xb640,
    0x19a100, 0x39aa400, 0x81bf1000, 0x123ede4000,
    0x290d7410000, 0x5c5e45240000, 0xcfd41b9100000, 0x1d39d3e06400000,
    0x41c21cb8e1000000,
];

pub open spec fn small_mantissa_table(radix: u32) -> Seq<u64> {
    if radix == 2 {
        BASE2_SMALL_MANTISSA@
    } else if radix == 3 {
        BASE3_SMALL_MANTISSA@
    } else if radix == 4 {
        BASE4_SMALL_MANTISSA@
    } else if radix == 5 {
        BASE5_SMALL_MANTISSA@
    } else if radix == 6 {
        BASE6_SMALL_MANTISSA@
    } else if radix == 7 {
        BASE7_SMALL_MANTISSA@
    } else if radix == 8 {
        BASE8_SMALL_MANTISSA@
    } else if radix == 9 {
        BASE9_SMALL_MANTISSA@
    } else if radix == 10 {
        BASE10_SMALL_MANTISSA@
    } else if radix == 11 {
        BASE11_SMALL_MANTISSA@
    } else if radix == 12 {
        BASE12_SMALL_MANTISSA@
    } else if radix == 13 {
        BASE13_SMALL_MANTISSA@
    } else if radix == 14 {
        BASE14_SMALL_MANTISSA@
    } else if radix == 15 {
        BASE15_SMALL_MANTISSA@
    } else if radix == 16 {
        BASE16_SMALL_MANTISSA@
    } else if radix == 17 {
        BASE17_SMALL_MANTISSA@
    } else if radix == 18 {
        BASE18_SMALL_MANTISSA@
    } else if radix == 19 {
        BASE19_SMALL_MANTISSA@
    } else if radix == 20 {
        BASE20_SMALL_MANTISSA@
    } else if radix == 21 {
        BASE21_SMALL_MANTISSA@
    } else if radix == 22 {
        BASE22_SMALL_MANTISSA@
    } else if radix == 23 {
        BASE23_SMALL_MANTISSA@
    } else if radix == 24 {
        BASE24_SMALL_MANTISSA@
    } else if radix == 25 {
        BASE25_SMALL_MANTISSA@
    } else if radix == 26 {
        BASE26_SMALL_MANTISSA@
    } else if radix == 27 {
        BASE27_SMALL_MANTISSA@
    } else if radix == 28 {
        BASE28_SMALL_MANTISSA@
    } else if radix == 29 {
        BASE29_SMALL_MANTISSA@
    } else if radix == 30 {
        BASE30_SMALL_MANTISSA@
    } else if radix == 31 {
        BASE31_SMALL_MANTISSA@
    } else if radix == 32 {
        BASE32_SMALL_MANTISSA@
    } else if radix == 33 {
        BASE33_SMALL_MANTISSA@
    } else if radix == 34 {
        BASE34_SMALL_MANTISSA@
    } else if radix == 35 {
        BASE35_SMALL_MANTISSA@
    } else {
        BASE36_SMALL_MANTISSA@
    }
}

pub open spec fn small_exponent_table(radix: u32) -> Seq<i32> {
    if radix == 2 {
        BASE2_SMALL_EXPONENT@
    } else if radix == 3 {
        BASE3_SMALL_EXPONENT@
    } else if radix == 4 {
        BASE4_SMALL_EXPONENT@
    } else if radix == 5 {
        BASE5_SMALL_EXPONENT@
    } else if radix == 6 {
        BASE6_SMALL_EXPONENT@
    } else if radix == 7 {
        BASE7_SMALL_EXPONENT@
    } else if radix == 8 {
        BASE8_SMALL_EXPONENT@
    } else if radix == 9 {
        BASE9_SMALL_EXPONENT@
    } else if radix == 10 {
        BASE10_SMALL_EXPONENT@
    } else if radix == 11 {
        BASE11_SMALL_EXPONENT@
    } else if radix == 12 {
        BASE12_SMALL_EXPONENT@
    } else if radix == 13 {
        BASE13_SMALL_EXPONENT@
    } else if radix == 14 {
        BASE14_SMALL_EXPONENT@
    } else if radix == 15 {
        BASE15_SMALL_EXPONENT@
    } else if radix == 16 {
        BASE16_SMALL_EXPONENT@
    } else if radix == 17 {
        BASE17_SMALL_EXPONENT@
    } else if radix == 18 {
        BASE18_SMALL_EXPONENT@
    } else if radix == 19 {
        BASE19_SMALL_EXPONENT@
    } else if radix == 20 {
        BASE20_SMALL_EXPONENT@
    } else if radix == 21 {
        BASE21_SMALL_EXPONENT@
    } else if radix == 22 {
        BASE22_SMALL_EXPONENT@
    } else if radix == 23 {
        BASE23_SMALL_EXPONENT@
    } else if radix == 24 {
        BASE24_SMALL_EXPONENT@
    } else if radix == 25 {
        BASE25_SMALL_EXPONENT@
    } else if radix == 26 {
        BASE26_SMALL_EXPONENT@
    } else if radix == 27 {
        BASE27_SMALL_EXPONENT@
    } else if radix == 28 {
        BASE28_SMALL_EXPONENT@
    } else if radix == 29 {
        BASE29_SMALL_EXPONENT@
    } else if radix == 30 {
        BASE30_SMALL_EXPONENT@
    } else if radix == 31 {
        BASE31_SMALL_EXPONENT@
    } else if radix == 32 {
        BASE32_SMALL_EXPONENT@
    } else if radix == 33 {
        BASE33_SMALL_EXPONENT@
    } else if radix == 34 {
        BASE34_SMALL_EXPONENT@
    } else if radix == 35 {
        BASE35_SMALL_EXPONENT@
    } else {
        BASE36_SMALL_EXPONENT@
    }
}

pub open spec fn large_mantissa_table(radix: u32) -> Seq<u64> {
    if radix == 2 {
        BASE2_LARGE_MANTISSA@
    } else if radix == 3 {
        BASE3_LARGE_MANTISSA@
    } else if radix == 4 {
        BASE4_LARGE_MANTISSA@
    } else if radix == 5 {
        BASE5_LARGE_MANTISSA@
    } else if radix == 6 {
        BASE6_LARGE_MANTISSA@
    } else if radix == 7 {
        BASE7_LARGE_MANTISSA@
    } else if radix == 8 {
        BASE8_LARGE_MANTISSA@
    } else if radix == 9 {
        BASE9_LARGE_MANTISSA@
    } else if radix == 10 {
        BASE10_LARGE_MANTISSA@
    } else if radix == 11 {
        BASE11_LARGE_MANTISSA@
    } else if radix == 12 {
        BASE12_LARGE_MANTISSA@
    } else if radix == 13 {
        BASE13_LARGE_MANTISSA@
    } else if radix == 14 {
        BASE14_LARGE_MANTISSA@
    } else if radix == 15 {
        BASE15_LARGE_MANTISSA@
    } else if radix == 16 {
        BASE16_LARGE_MANTISSA@
    } else if radix == 17 {
        BASE17_LARGE_MANTISSA@
    } else if radix == 18 {
        BASE18_LARGE_MANTISSA@
    } else if radix == 19 {
        BASE19_LARGE_MANTISSA@
    } else if radix == 20 {
        BASE20_LARGE_MANTISSA@
    } else if radix == 21 {
        BASE21_LARGE_MANTISSA@
    } else if radix == 22 {
        BASE22_LARGE_MANTISSA@
    } else if radix == 23 {
        BASE23_LARGE_MANTISSA@
    } else if radix == 24 {
        BASE24_LARGE_MANTISSA@
    } else if radix == 25 {
        BASE25_LARGE_MANTISSA@
    } else if radix == 26 {
        BASE26_LARGE_MANTISSA@
    } else if radix == 27 {
        BASE27_LARGE_MANTISSA@
    } else if radix == 28 {
        BASE28_LARGE_MANTISSA@
    } else if radix == 29 {
        BASE29_LARGE_MANTISSA@
    } else if radix == 30 {
        BASE30_LARGE_MANTISSA@
    } else if radix == 31 {
        BASE31_LARGE_MANTISSA@
    } else if radix == 32 {
        BASE32_LARGE_MANTISSA@
    } else if radix == 33 {
        BASE33_LARGE_MANTISSA@
    } else if radix == 34 {
        BASE34_LARGE_MANTISSA@
    } else if radix == 35 {
        BASE35_LARGE_MANTISSA@
    } else {
        BASE36_LARGE_MANTISSA@
    }
}

pub open spec fn large_exponent_table(radix: u32) -> Seq<i32> {
    if radix == 2 {
        BASE2_LARGE_EXPONENT@
    } else if radix == 3 {
        BASE3_LARGE_EXPONENT@
    } else if radix == 4 {
        BASE4_LARGE_EXPONENT@
    } else if radix == 5 {
        BASE5_LARGE_EXPONENT@
    } else if radix == 6 {
        BASE6_LARGE_EXPONENT@
    } else if radix == 7 {
        BASE7_LARGE_EXPONENT@
    } else if radix == 8 {
        BASE8_LARGE_EXPONENT@
    } else if radix == 9 {
        BASE9_LARGE_EXPONENT@
    } else if radix == 10 {
        BASE10_LARGE_EXPONENT@
    } else if radix == 11 {
        BASE11_LARGE_EXPONENT@
    } else if radix == 12 {
        BASE12_LARGE_EXPONENT@
    } else if radix == 13 {
        BASE13_LARGE_EXPONENT@
    } else if radix == 14 {
        BASE14_LARGE_EXPONENT@
    } else if radix == 15 {
        BASE15_LARGE_EXPONENT@
    } else if radix == 16 {
        BASE16_LARGE_EXPONENT@
    } else if radix == 17 {
        BASE17_LARGE_EXPONENT@
    } else if radix == 18 {
        BASE18_LARGE_EXPONENT@
    } else if radix == 19 {
        BASE19_LARGE_EXPONENT@
    } else if radix == 20 {
        BASE20_LARGE_EXPONENT@
    } else if radix == 21 {
        BASE21_LARGE_EXPONENT@
    } else if radix == 22 {
        BASE22_LARGE_EXPONENT@
    } else if radix == 23 {
        BASE23_LARGE_EXPONENT@
    } else if radix == 24 {
        BASE24_LARGE_EXPONENT@
    } else if radix == 25 {
        BASE25_LARGE_EXPONENT@
    } else if radix == 26 {
        BASE26_LARGE_EXPONENT@
    } else if radix == 27 {
        BASE27_LARGE_EXPONENT@
    } else if radix == 28 {
        BASE28_LARGE_EXPONENT@
    } else if radix == 29 {
        BASE29_LARGE_EXPONENT@
    } else if radix == 30 {
        BASE30_LARGE_EXPONENT@
    } else if radix == 31 {
        BASE31_LARGE_EXPONENT@
    } else if radix == 32 {
        BASE32_LARGE_EXPONENT@
    } else if radix == 33 {
        BASE33_LARGE_EXPONENT@
    } else if radix == 34 {
        BASE34_LARGE_EXPONENT@
    } else if radix == 35 {
        BASE35_LARGE_EXPONENT@
    } else {
        BASE36_LARGE_EXPONENT@
    }
}

pub open spec fn small_int_table(radix: u32) -> Seq<u64> {
    if radix == 2 {
        BASE2_SMALL_INT_POWERS@
    } else if radix == 3 {
        BASE3_SMALL_INT_POWERS@
    } else if radix == 4 {
        BASE4_SMALL_INT_POWERS@
    } else if radix == 5 {
        BASE5_SMALL_INT_POWERS@
    } else if radix == 6 {
        BASE6_SMALL_INT_POWERS@
    } else if radix == 7 {
        BASE7_SMALL_INT_POWERS@
    } else if radix == 8 {
        BASE8_SMALL_INT_POWERS@
    } else if radix == 9 {
        BASE9_SMALL_INT_POWERS@
    } else if radix == 10 {
        BASE10_SMALL_INT_POWERS@
    } else if radix == 11 {
        BASE11_SMALL_INT_POWERS@
    } else if radix == 12 {
        BASE12_SMALL_INT_POWERS@
    } else if radix == 13 {
        BASE13_SMALL_INT_POWERS@
    } else if radix == 14 {
        BASE14_SMALL_INT_POWERS@
    } else if radix == 15 {
        BASE15_SMALL_INT_POWERS@
    } else if radix == 16 {
        BASE16_SMALL_INT_POWERS@
    } else if radix == 17 {
        BASE17_SMALL_INT_POWERS@
    } else if radix == 18 {
        BASE18_SMALL_INT_POWERS@
    } else if radix == 19 {
        BASE19_SMALL_INT_POWERS@
    } else if radix == 20 {
        BASE20_SMALL_INT_POWERS@
    } else if radix == 21 {
        BASE21_SMALL_INT_POWERS@
    } else if radix == 22 {
        BASE22_SMALL_INT_POWERS@
    } else if radix == 23 {
        BASE23_SMALL_INT_POWERS@
    } else if radix == 24 {
        BASE24_SMALL_INT_POWERS@
    } else if radix == 25 {
        BASE25_SMALL_INT_POWERS@
    } else if radix == 26 {
        BASE26_SMALL_INT_POWERS@
    } else if radix == 27 {
        BASE27_SMALL_INT_POWERS@
    } else if radix == 28 {
        BASE28_SMALL_INT_POWERS@
    } else if radix == 29 {
        BASE29_SMALL_INT_POWERS@
    } else if radix == 30 {
        BASE30_SMALL_INT_POWERS@
    } else if radix == 31 {
        BASE31_SMALL_INT_POWERS@
    } else if radix == 32 {
        BASE32_SMALL_INT_POWERS@
    } else if radix == 33 {
        BASE33_SMALL_INT_POWERS@
    } else if radix == 34 {
        BASE34_SMALL_INT_POWERS@
    } else if radix == 35 {
        BASE35_SMALL_INT_POWERS@
    } else {
        BASE36_SMALL_INT_POWERS@
    }
}

pub open spec fn table_step(radix: u32) -> int {
    if radix == 2 {
        64int
    } else if radix == 3 {
        41int
    } else if radix == 4 {
        32int
    } else if radix == 5 {
        28int
    } else if radix == 6 {
        25int
    } else if radix == 7 {
        23int
    } else if radix == 8 {
        22int
    } else if radix == 9 {
        21int
    } else if radix == 10 {
        20int
    } else if radix == 11 {
        19int
    } else if radix == 12 {
        18int
    } else if radix == 13 {
        18int
    } else if radix == 14 {
        17int
    } else if radix == 15 {
        17int
    } else if radix == 16 {
        16int
    } else if radix == 17 {
        16int
    } else if radix == 18 {
        16int
    } else if radix == 19 {
        16int
    } else if radix == 20 {
        15int
    } else if radix == 21 {
        15int
    } else if radix == 22 {
        15int
    } else if radix == 23 {
        15int
    } else if radix == 24 {
        14int
    } else if radix == 25 {
        14int
    } else if radix == 26 {
        14int
    } else if radix == 27 {
        14int
    } else if radix == 28 {
        14int
    } else if radix == 29 {
        14int
    } else if radix == 30 {
        14int
    } else if radix == 31 {
        13int
    } else if radix == 32 {
        13int
    } else if radix == 33 {
        13int
    } else if radix == 34 {
        13int
    } else if radix == 35 {
        13int
    } else {
        13int
    }
}

pub open spec fn table_bias(radix: u32) -> int {
    if radix == 2 {
        1152int
    } else if radix == 3 {
        738int
    } else if radix == 4 {
        576int
    } else if radix == 5 {
        504int
    } else if radix == 6 {
        450int
    } else if radix == 7 {
        414int
    } else if radix == 8 {
        396int
    } else if radix == 9 {
        378int
    } else if radix == 10 {
        360int
    } else if radix == 11 {
        342int
    } else if radix == 12 {
        324int
    } else if radix == 13 {
        324int
    } else if radix == 14 {
        306int
    } else if radix == 15 {
        306int
    } else if radix == 16 {
        288int
    } else if radix == 17 {
        288int
    } else if radix == 18 {
        288int
    } else if radix == 19 {
        272int
    } else if radix == 20 {
        270int
    } else if radix == 21 {
        270int
    } else if radix == 22 {
        270int
    } else if radix == 23 {
        255int
    } else if radix == 24 {
        252int
    } else if radix == 25 {
        252int
    } else if radix == 26 {
        252int
    } else if radix == 27 {
        252int
    } else if radix == 28 {
        252int
    } else if radix == 29 {
        238int
    } else if radix == 30 {
        238int
    } else if radix == 31 {
        234int
    } else if radix == 32 {
        234int
    } else if radix == 33 {
        234int
    } else if radix == 34 {
        234int
    } else if radix == 35 {
        234int
    } else {
        234int
    }
}

/// Number of entries in the large table of `radix`.
pub open spec fn large_table_len(radix: u32) -> int {
    large_mantissa_table(radix).len() as int
}

/// Smallest exponent whose decomposition stays inside the tables of `radix`.
pub open spec fn min_exponent(radix: u32) -> int {
    -table_bias(radix)
}

/// Largest exponent whose decomposition stays inside the tables of `radix`.
pub open spec fn max_exponent(radix: u32) -> int {
    table_step(radix) * large_table_len(radix) - table_bias(radix) - 1
}

/// Builds the bundle for radix 2 out of its constant tables.
fn powers_base2() -> (r: ModeratePathPowers<'static, u64>)
    ensures
        r.wf(),
        r.small.mant@ == BASE2_SMALL_MANTISSA@,
        r.small.exp@ == BASE2_SMALL_EXPONENT@,
        r.large.mant@ == BASE2_LARGE_MANTISSA@,
        r.large.exp@ == BASE2_LARGE_EXPONENT@,
        r.small_int@ == BASE2_SMALL_INT_POWERS@,
        r.step == 64,
        r.bias == 1152,
{
    ModeratePathPowers {
            small: ExtendedFloatArray {
                mant: BASE2_SMALL_MANTISSA.as_slice(),
                exp: BASE2_SMALL_EXPONENT.as_slice(),
            },
            large: ExtendedFloatArray {
                mant: BASE2_LARGE_MANTISSA.as_slice(),
                exp: BASE2_LARGE_EXPONENT.as_slice(),
            },
            small_int: BASE2_SMALL_INT_POWERS.as_slice(),
            step: 64,
            bias: 1152,
        }
}

/// Builds the bundle for radix 3 out of its constant tables.
fn powers_base3() -> (r: ModeratePathPowers<'static, u64>)
    ensures
        r.wf(),
        r.small.mant@ == BASE3_SMALL_MANTISSA@,
        r.small.exp@ == BASE3_SMALL_EXPONENT@,
        r.large.mant@ == BASE3_LARGE_MANTISSA@,
        r.large.exp@ == BASE3_LARGE_EXPONENT@,
        r.small_int@ == BASE3_SMALL_INT_POWERS@,
        r.step == 41,
        r.bias == 738,
{
    ModeratePathPowers {
            small: ExtendedFloatArray {
                mant: BASE3_SMALL_MANTISSA.as_slice(),
                exp: BASE3_SMALL_EXPONENT.as_slice(),
            },
            large: ExtendedFloatArray {
                mant: BASE3_LARGE_MANTISSA.as_slice(),
                exp: BASE3_LARGE_EXPONENT.as_slice(),
            },
            small_int: BASE3_SMALL_INT_POWERS.as_slice(),
            step: 41,
            bias: 738,
        }
}

/// Builds the bundle for radix 4 out of its constant tables.
fn powers_base4() -> (r: ModeratePathPowers<'static, u64>)
    ensures
        r.wf(),
        r.small.mant@ == BASE4_SMALL_MANTISSA@,
        r.small.exp@ == BASE4_SMALL_EXPONENT@,
        r.large.mant@ == BASE4_LARGE_MANTISSA@,
        r.large.exp@ == BASE4_LARGE_EXPONENT@,
        r.small_int@ == BASE4_SMALL_INT_POWERS@,
        r.step == 32,
        r.bias == 576,
{
    ModeratePathPowers {
            small: ExtendedFloatArray {
                mant: BASE4_SMALL_MANTISSA.as_slice(),
                exp: BASE4_SMALL_EXPONENT.as_slice(),
            },
            large: ExtendedFloatArray {
                mant: BASE4_LARGE_MANTISSA.as_slice(),
                exp: BASE4_LARGE_EXPONENT.as_slice(),
            },
            small_int: BASE4_SMALL_INT_POWERS.as_slice(),
            step: 32,
            bias: 576,
        }
}

/// Builds the bundle for radix 5 out of its constant tables.
fn powers_base5() -> (r: ModeratePathPowers<'static, u64>)
    ensures
        r.wf(),
        r.small.mant@ == BASE5_SMALL_MANTISSA@,
        r.small.exp@ == BASE5_SMALL_EXPONENT@,
        r.large.mant@ == BASE5_LARGE_MANTISSA@,
        r.large.exp@ == BASE5_LARGE_EXPONENT@,
        r.small_int@ == BASE5_SMALL_INT_POWERS@,
        r.step == 28,
        r.bias == 504,
{
    ModeratePathPowers {
            small: ExtendedFloatArray {
                mant: BASE5_SMALL_MANTISSA.as_slice(),
                exp: BASE5_SMALL_EXPONENT.as_slice(),
            },
            large: ExtendedFloatArray {
                mant: BASE5_LARGE_MANTISSA.as_slice(),
                exp: BASE5_LARGE_EXPONENT.as_slice(),
            },
            small_int: BASE5_SMALL_INT_POWERS.as_slice(),
            step: 28,
            bias: 504,
        }
}

/// Builds the bundle for radix 6 out of its constant tables.
fn powers_base6() -> (r: ModeratePathPowers<'static, u64>)
    ensures
        r.wf(),
        r.small.mant@ == BASE6_SMALL_MANTISSA@,
        r.small.exp@ == BASE6_SMALL_EXPONENT@,
        r.large.mant@ == BASE6_LARGE_MANTISSA@,
        r.large.exp@ == BASE6_LARGE_EXPONENT@,
        r.small_int@ == BASE6_SMALL_INT_POWERS@,
        r.step == 25,
        r.bias == 450,
{
    ModeratePathPowers {
            small: ExtendedFloatArray {
                mant: BASE6_SMALL_MANTISSA.as_slice(),
                exp: BASE6_SMALL_EXPONENT.as_slice(),
            },
            large: ExtendedFloatArray {
                mant: BASE6_LARGE_MANTISSA.as_slice(),
                exp: BASE6_LARGE_EXPONENT.as_slice(),
            },
            small_int: BASE6_SMALL_INT_POWERS.as_slice(),
            step: 25,
            bias: 450,
        }
}

/// Builds the bundle for radix 7 out of its constant tables.
fn powers_base7() -> (r: ModeratePathPowers<'static, u64>)
    ensures
        r.wf(),
        r.small.mant@ == BASE7_SMALL_MANTISSA@,
        r.small.exp@ == BASE7_SMALL_EXPONENT@,
        r.large.mant@ == BASE7_LARGE_MANTISSA@,
        r.large.exp@ == BASE7_LARGE_EXPONENT@,
        r.small_int@ == BASE7_SMALL_INT_POWERS@,
        r.step == 23,
        r.bias == 414,
{
    ModeratePathPowers {
            small: ExtendedFloatArray {
                mant: BASE7_SMALL_MANTISSA.as_slice(),
                exp: BASE7_SMALL_EXPONENT.as_slice(),
            },
            large: ExtendedFloatArray {
                mant: BASE7_LARGE_MANTISSA.as_slice(),
                exp: BASE7_LARGE_EXPONENT.as_slice(),
            },
            small_int: BASE7_SMALL_INT_POWERS.as_slice(),
            step: 23,
            bias: 414,
        }
}

/// Builds the bundle for radix 8 out of its constant tables.
fn powers_base8() -> (r: ModeratePathPowers<'static, u64>)
    ensures
        r.wf(),
        r.small.mant@ == BASE8_SMALL_MANTISSA@,
        r.small.exp@ == BASE8_SMALL_EXPONENT@,
        r.large.mant@ == BASE8_LARGE_MANTISSA@,
        r.large.exp@ == BASE8_LARGE_EXPONENT@,
        r.small_int@ == BASE8_SMALL_INT_POWERS@,
        r.step == 22,
        r.bias == 396,
{
    ModeratePathPowers {
            small: ExtendedFloatArray {
                mant: BASE8_SMALL_MANTISSA.as_slice(),
                exp: BASE8_SMALL_EXPONENT.as_slice(),
            },
            large: ExtendedFloatArray {
                mant: BASE8_LARGE_MANTISSA.as_slice(),
                exp: BASE8_LARGE_EXPONENT.as_slice(),
            },
            small_int: BASE8_SMALL_INT_POWERS.as_slice(),
            step: 22,
            bias: 396,
        }
}

/// Builds the bundle for radix 9 out of its constant tables.
fn powers_base9() -> (r: ModeratePathPowers<'static, u64>)
    ensures
        r.wf(),
        r.small.mant@ == BASE9_SMALL_MANTISSA@,
        r.small.exp@ == BASE9_SMALL_EXPONENT@,
        r.large.mant@ == BASE9_LARGE_MANTISSA@,
        r.large.exp@ == BASE9_LARGE_EXPONENT@,
        r.small_int@ == BASE9_SMALL_INT_POWERS@,
        r.step == 21,
        r.bias == 378,
{
    ModeratePathPowers {
            small: ExtendedFloatArray {
                mant: BASE9_SMALL_MANTISSA.as_slice(),
                exp: BASE9_SMALL_EXPONENT.as_slice(),
            },
            large: ExtendedFloatArray {
                mant: BASE9_LARGE_MANTISSA.as_slice(),
                exp: BASE9_LARGE_EXPONENT.as_slice(),
            },
            small_int: BASE9_SMALL_INT_POWERS.as_slice(),
            step: 21,
            bias: 378,
        }
}

/// Builds the bundle for radix 10 out of its constant tables.
fn powers_base10() -> (r: ModeratePathPowers<'static, u64>)
    ensures
        r.wf(),
        r.small.mant@ == BASE10_SMALL_MANTISSA@,
        r.small.exp@ == BASE10_SMALL_EXPONENT@,
        r.large.mant@ == BASE10_LARGE_MANTISSA@,
        r.large.exp@ == BASE10_LARGE_EXPONENT@,
        r.small_int@ == BASE10_SMALL_INT_POWERS@,
        r.step == 20,
        r.bias == 360,
{
    ModeratePathPowers {
            small: ExtendedFloatArray {
                mant: BASE10_SMALL_MANTISSA.as_slice(),
                exp: BASE10_SMALL_EXPONENT.as_slice(),
            },
            large: ExtendedFloatArray {
                mant: BASE10_LARGE_MANTISSA.as_slice(),
                exp: BASE10_LARGE_EXPONENT.as_slice(),
            },
            small_int: BASE10_SMALL_INT_POWERS.as_slice(),
            step: 20,
            bias: 360,
        }
}

/// Builds the bundle for radix 11 out of its constant tables.
fn powers_base11() -> (r: ModeratePathPowers<'static, u64>)
    ensures
        r.wf(),
        r.small.mant@ == BASE11_SMALL_MANTISSA@,
        r.small.exp@ == BASE11_SMALL_EXPONENT@,
        r.large.mant@ == BASE11_LARGE_MANTISSA@,
        r.large.exp@ == BASE11_LARGE_EXPONENT@,
        r.small_int@ == BASE11_SMALL_INT_POWERS@,
        r.step == 19,
        r.bias == 342,
{
    ModeratePathPowers {
            small: ExtendedFloatArray {
                mant: BASE11_SMALL_MANTISSA.as_slice(),
                exp: BASE11_SMALL_EXPONENT.as_slice(),
            },
            large: ExtendedFloatArray {
                mant: BASE11_LARGE_MANTISSA.as_slice(),
                exp: BASE11_LARGE_EXPONENT.as_slice(),
            },
            small_int: BASE11_SMALL_INT_POWERS.as_slice(),
            step: 19,
            bias: 342,
        }
}

/// Builds the bundle for radix 12 out of its constant tables.
fn powers_base12() -> (r: ModeratePathPowers<'static, u64>)
    ensures
        r.wf(),
        r.small.mant@ == BASE12_SMALL_MANTISSA@,
        r.small.exp@ == BASE12_SMALL_EXPONENT@,
        r.large.mant@ == BASE12_LARGE_MANTISSA@,
        r.large.exp@ == BASE12_LARGE_EXPONENT@,
        r.small_int@ == BASE12_SMALL_INT_POWERS@,
        r.step == 18,
        r.bias == 324,
{
    ModeratePathPowers {
            small: ExtendedFloatArray {
                mant: BASE12_SMALL_MANTISSA.as_slice(),
                exp: BASE12_SMALL_EXPONENT.as_slice(),
            },
            large: ExtendedFloatArray {
                mant: BASE12_LARGE_MANTISSA.as_slice(),
                exp: BASE12_LARGE_EXPONENT.as_slice(),
            },
            small_int: BASE12_SMALL_INT_POWERS.as_slice(),
            step: 18,
            bias: 324,
        }
}

/// Builds the bundle for radix 13 out of its constant tables.
fn powers_base13() -> (r: ModeratePathPowers<'static, u64>)
    ensures
        r.wf(),
        r.small.mant@ == BASE13_SMALL_MANTISSA@,
        r.small.exp@ == BASE13_SMALL_EXPONENT@,
        r.large.mant@ == BASE13_LARGE_MANTISSA@,
        r.large.exp@ == BASE13_LARGE_EXPONENT@,
        r.small_int@ == BASE13_SMALL_INT_POWERS@,
        r.step == 18,
        r.bias == 324,
{
    ModeratePathPowers {
            small: ExtendedFloatArray {
                mant: BASE13_SMALL_MANTISSA.as_slice(),
                exp: BASE13_SMALL_EXPONENT.as_slice(),
            },
            large: ExtendedFloatArray {
                mant: BASE13_LARGE_MANTISSA.as_slice(),
                exp: BASE13_LARGE_EXPONENT.as_slice(),
            },
            small_int: BASE13_SMALL_INT_POWERS.as_slice(),
            step: 18,
            bias: 324,
        }
}

/// Builds the bundle for radix 14 out of its constant tables.
fn powers_base14() -> (r: ModeratePathPowers<'static, u64>)
    ensures
        r.wf(),
        r.small.mant@ == BASE14_SMALL_MANTISSA@,
        r.small.exp@ == BASE14_SMALL_EXPONENT@,
        r.large.mant@ == BASE14_LARGE_MANTISSA@,
        r.large.exp@ == BASE14_LARGE_EXPONENT@,
        r.small_int@ == BASE14_SMALL_INT_POWERS@,
        r.step == 17,
        r.bias == 306,
{
    ModeratePathPowers {
            small: ExtendedFloatArray {
                mant: BASE14_SMALL_MANTISSA.as_slice(),
                exp: BASE14_SMALL_EXPONENT.as_slice(),
            },
            large: ExtendedFloatArray {
                mant: BASE14_LARGE_MANTISSA.as_slice(),
                exp: BASE14_LARGE_EXPONENT.as_slice(),
            },
            small_int: BASE14_SMALL_INT_POWERS.as_slice(),
            step: 17,
            bias: 306,
        }
}

/// Builds the bundle for radix 15 out of its constant tables.
fn powers_base15() -> (r: ModeratePathPowers<'static, u64>)
    ensures
        r.wf(),
        r.small.mant@ == BASE15_SMALL_MANTISSA@,
        r.small.exp@ == BASE15_SMALL_EXPONENT@,
        r.large.mant@ == BASE15_LARGE_MANTISSA@,
        r.large.exp@ == BASE15_LARGE_EXPONENT@,
        r.small_int@ == BASE15_SMALL_INT_POWERS@,
        r.step == 17,
        r.bias == 306,
{
    ModeratePathPowers {
            small: ExtendedFloatArray {
                mant: BASE15_SMALL_MANTISSA.as_slice(),
                exp: BASE15_SMALL_EXPONENT.as_slice(),
            },
            large: ExtendedFloatArray {
                mant: BASE15_LARGE_MANTISSA.as_slice(),
                exp: BASE15_LARGE_EXPONENT.as_slice(),
            },
            small_int: BASE15_SMALL_INT_POWERS.as_slice(),
            step: 17,
            bias: 306,
        }
}

/// Builds the bundle for radix 16 out of its constant tables.
fn powers_base16() -> (r: ModeratePathPowers<'static, u64>)
    ensures
        r.wf(),
        r.small.mant@ == BASE16_SMALL_MANTISSA@,
        r.small.exp@ == BASE16_SMALL_EXPONENT@,
        r.large.mant@ == BASE16_LARGE_MANTISSA@,
        r.large.exp@ == BASE16_LARGE_EXPONENT@,
        r.small_int@ == BASE16_SMALL_INT_POWERS@,
        r.step == 16,
        r.bias == 288,
{
    ModeratePathPowers {
            small: ExtendedFloatArray {
                mant: BASE16_SMALL_MANTISSA.as_slice(),
                exp: BASE16_SMALL_EXPONENT.as_slice(),
            },
            large: ExtendedFloatArray {
                mant: BASE16_LARGE_MANTISSA.as_slice(),
                exp: BASE16_LARGE_EXPONENT.as_slice(),
            },
            small_int: BASE16_SMALL_INT_POWERS.as_slice(),
            step: 16,
            bias: 288,
        }
}

/// Builds the bundle for radix 17 out of its constant tables.
fn powers_base17() -> (r: ModeratePathPowers<'static, u64>)
    ensures
        r.wf(),
        r.small.mant@ == BASE17_SMALL_MANTISSA@,
        r.small.exp@ == BASE17_SMALL_EXPONENT@,
        r.large.mant@ == BASE17_LARGE_MANTISSA@,
        r.large.exp@ == BASE17_LARGE_EXPONENT@,
        r.small_int@ == BASE17_SMALL_INT_POWERS@,
        r.step == 16,
        r.bias == 288,
{
    ModeratePathPowers {
            small: ExtendedFloatArray {
                mant: BASE17_SMALL_MANTISSA.as_slice(),
                exp: BASE17_SMALL_EXPONENT.as_slice(),
            },
            large: ExtendedFloatArray {
                mant: BASE17_LARGE_MANTISSA.as_slice(),
                exp: BASE17_LARGE_EXPONENT.as_slice(),
            },
            small_int: BASE17_SMALL_INT_POWERS.as_slice(),
            step: 16,
            bias: 288,
        }
}

/// Builds the bundle for radix 18 out of its constant tables.
fn powers_base18() -> (r: ModeratePathPowers<'static, u64>)
    ensures
        r.wf(),
        r.small.mant@ == BASE18_SMALL_MANTISSA@,
        r.small.exp@ == BASE18_SMALL_EXPONENT@,
        r.large.mant@ == BASE18_LARGE_MANTISSA@,
        r.large.exp@ == BASE18_LARGE_EXPONENT@,
        r.small_int@ == BASE18_SMALL_INT_POWERS@,
        r.step == 16,
        r.bias == 288,
{
    ModeratePathPowers {
            small: ExtendedFloatArray {
                mant: BASE18_SMALL_MANTISSA.as_slice(),
                exp: BASE18_SMALL_EXPONENT.as_slice(),
            },
            large: ExtendedFloatArray {
                mant: BASE18_LARGE_MANTISSA.as_slice(),
                exp: BASE18_LARGE_EXPONENT.as_slice(),
            },
            small_int: BASE18_SMALL_INT_POWERS.as_slice(),
            step: 16,
            bias: 288,
        }
}

/// Builds the bundle for radix 19 out of its constant tables.
fn powers_base19() -> (r: ModeratePathPowers<'static, u64>)
    ensures
        r.wf(),
        r.small.mant@ == BASE19_SMALL_MANTISSA@,
        r.small.exp@ == BASE19_SMALL_EXPONENT@,
        r.large.mant@ == BASE19_LARGE_MANTISSA@,
        r.large.exp@ == BASE19_LARGE_EXPONENT@,
        r.small_int@ == BASE19_SMALL_INT_POWERS@,
        r.step == 16,
        r.bias == 272,
{
    ModeratePathPowers {
            small: ExtendedFloatArray {
                mant: BASE19_SMALL_MANTISSA.as_slice(),
                exp: BASE19_SMALL_EXPONENT.as_slice(),
            },
            large: ExtendedFloatArray {
                mant: BASE19_LARGE_MANTISSA.as_slice(),
                exp: BASE19_LARGE_EXPONENT.as_slice(),
            },
            small_int: BASE19_SMALL_INT_POWERS.as_slice(),
            step: 16,
            bias: 272,
        }
}

/// Builds the bundle for radix 20 out of its constant tables.
fn powers_base20() -> (r: ModeratePathPowers<'static, u64>)
    ensures
        r.wf(),
        r.small.mant@ == BASE20_SMALL_MANTISSA@,
        r.small.exp@ == BASE20_SMALL_EXPONENT@,
        r.large.mant@ == BASE20_LARGE_MANTISSA@,
        r.large.exp@ == BASE20_LARGE_EXPONENT@,
        r.small_int@ == BASE20_SMALL_INT_POWERS@,
        r.step == 15,
        r.bias == 270,
{
    ModeratePathPowers {
            small: ExtendedFloatArray {
                mant: BASE20_SMALL_MANTISSA.as_slice(),
                exp: BASE20_SMALL_EXPONENT.as_slice(),
            },
            large: ExtendedFloatArray {
                mant: BASE20_LARGE_MANTISSA.as_slice(),
                exp: BASE20_LARGE_EXPONENT.as_slice(),
            },
            small_int: BASE20_SMALL_INT_POWERS.as_slice(),
            step: 15,
            bias: 270,
        }
}

/// Builds the bundle for radix 21 out of its constant tables.
fn powers_base21() -> (r: ModeratePathPowers<'static, u64>)
    ensures
        r.wf(),
        r.small.mant@ == BASE21_SMALL_MANTISSA@,
        r.small.exp@ == BASE21_SMALL_EXPONENT@,
        r.large.mant@ == BASE21_LARGE_MANTISSA@,
        r.large.exp@ == BASE21_LARGE_EXPONENT@,
        r.small_int@ == BASE21_SMALL_INT_POWERS@,
        r.step == 15,
        r.bias == 270,
{
    ModeratePathPowers {
            small: ExtendedFloatArray {
                mant: BASE21_SMALL_MANTISSA.as_slice(),
                exp: BASE21_SMALL_EXPONENT.as_slice(),
            },
            large: ExtendedFloatArray {
                mant: BASE21_LARGE_MANTISSA.as_slice(),
                exp: BASE21_LARGE_EXPONENT.as_slice(),
            },
            small_int: BASE21_SMALL_INT_POWERS.as_slice(),
            step: 15,
            bias: 270,
        }
}

/// Builds the bundle for radix 22 out of its constant tables.
fn powers_base22() -> (r: ModeratePathPowers<'static, u64>)
    ensures
        r.wf(),
        r.small.mant@ == BASE22_SMALL_MANTISSA@,
        r.small.exp@ == BASE22_SMALL_EXPONENT@,
        r.large.mant@ == BASE22_LARGE_MANTISSA@,
        r.large.exp@ == BASE22_LARGE_EXPONENT@,
        r.small_int@ == BASE22_SMALL_INT_POWERS@,
        r.step == 15,
        r.bias == 270,
{
    ModeratePathPowers {
            small: ExtendedFloatArray {
                mant: BASE22_SMALL_MANTISSA.as_slice(),
                exp: BASE22_SMALL_EXPONENT.as_slice(),
            },
            large: ExtendedFloatArray {
                mant: BASE22_LARGE_MANTISSA.as_slice(),
                exp: BASE22_LARGE_EXPONENT.as_slice(),
            },
            small_int: BASE22_SMALL_INT_POWERS.as_slice(),
            step: 15,
            bias: 270,
        }
}

/// Builds the bundle for radix 23 out of its constant tables.
fn powers_base23() -> (r: ModeratePathPowers<'static, u64>)
    ensures
        r.wf(),
        r.small.mant@ == BASE23_SMALL_MANTISSA@,
        r.small.exp@ == BASE23_SMALL_EXPONENT@,
        r.large.mant@ == BASE23_LARGE_MANTISSA@,
        r.large.exp@ == BASE23_LARGE_EXPONENT@,
        r.small_int@ == BASE23_SMALL_INT_POWERS@,
        r.step == 15,
        r.bias == 255,
{
    ModeratePathPowers {
            small: ExtendedFloatArray {
                mant: BASE23_SMALL_MANTISSA.as_slice(),
                exp: BASE23_SMALL_EXPONENT.as_slice(),
            },
            large: ExtendedFloatArray {
                mant: BASE23_LARGE_MANTISSA.as_slice(),
                exp: BASE23_LARGE_EXPONENT.as_slice(),
            },
            small_int: BASE23_SMALL_INT_POWERS.as_slice(),
            step: 15,
            bias: 255,
        }
}

/// Builds the bundle for radix 24 out of its constant tables.
fn powers_base24() -> (r: ModeratePathPowers<'static, u64>)
    ensures
        r.wf(),
        r.small.mant@ == BASE24_SMALL_MANTISSA@,
        r.small.exp@ == BASE24_SMALL_EXPONENT@,
        r.large.mant@ == BASE24_LARGE_MANTISSA@,
        r.large.exp@ == BASE24_LARGE_EXPONENT@,
        r.small_int@ == BASE24_SMALL_INT_POWERS@,
        r.step == 14,
        r.bias == 252,
{
    ModeratePathPowers {
            small: ExtendedFloatArray {
                mant: BASE24_SMALL_MANTISSA.as_slice(),
                exp: BASE24_SMALL_EXPONENT.as_slice(),
            },
            large: ExtendedFloatArray {
                mant: BASE24_LARGE_MANTISSA.as_slice(),
                exp: BASE24_LARGE_EXPONENT.as_slice(),
            },
            small_int: BASE24_SMALL_INT_POWERS.as_slice(),
            step: 14,
            bias: 252,
        }
}

/// Builds the bundle for radix 25 out of its constant tables.
fn powers_base25() -> (r: ModeratePathPowers<'static, u64>)
    ensures
        r.wf(),
        r.small.mant@ == BASE25_SMALL_MANTISSA@,
        r.small.exp@ == BASE25_SMALL_EXPONENT@,
        r.large.mant@ == BASE25_LARGE_MANTISSA@,
        r.large.exp@ == BASE25_LARGE_EXPONENT@,
        r.small_int@ == BASE25_SMALL_INT_POWERS@,
        r.step == 14,
        r.bias == 252,
{
    ModeratePathPowers {
            small: ExtendedFloatArray {
                mant: BASE25_SMALL_MANTISSA.as_slice(),
                exp: BASE25_SMALL_EXPONENT.as_slice(),
            },
            large: ExtendedFloatArray {
                mant: BASE25_LARGE_MANTISSA.as_slice(),
                exp: BASE25_LARGE_EXPONENT.as_slice(),
            },
            small_int: BASE25_SMALL_INT_POWERS.as_slice(),
            step: 14,
            bias: 252,
        }
}

/// Builds the bundle for radix 26 out of its constant tables.
fn powers_base26() -> (r: ModeratePathPowers<'static, u64>)
    ensures
        r.wf(),
        r.small.mant@ == BASE26_SMALL_MANTISSA@,
        r.small.exp@ == BASE26_SMALL_EXPONENT@,
        r.large.mant@ == BASE26_LARGE_MANTISSA@,
        r.large.exp@ == BASE26_LARGE_EXPONENT@,
        r.small_int@ == BASE26_SMALL_INT_POWERS@,
        r.step == 14,
        r.bias == 252,
{
    ModeratePathPowers {
            small: ExtendedFloatArray {
                mant: BASE26_SMALL_MANTISSA.as_slice(),
                exp: BASE26_SMALL_EXPONENT.as_slice(),
            },
            large: ExtendedFloatArray {
                mant: BASE26_LARGE_MANTISSA.as_slice(),
                exp: BASE26_LARGE_EXPONENT.as_slice(),
            },
            small_int: BASE26_SMALL_INT_POWERS.as_slice(),
            step: 14,
            bias: 252,
        }
}

/// Builds the bundle for radix 27 out of its constant tables.
fn powers_base27() -> (r: ModeratePathPowers<'static, u64>)
    ensures
        r.wf(),
        r.small.mant@ == BASE27_SMALL_MANTISSA@,
        r.small.exp@ == BASE27_SMALL_EXPONENT@,
        r.large.mant@ == BASE27_LARGE_MANTISSA@,
        r.large.exp@ == BASE27_LARGE_EXPONENT@,
        r.small_int@ == BASE27_SMALL_INT_POWERS@,
        r.step == 14,
        r.bias == 252,
{
    ModeratePathPowers {
            small: ExtendedFloatArray {
                mant: BASE27_SMALL_MANTISSA.as_slice(),
                exp: BASE27_SMALL_EXPONENT.as_slice(),
            },
            large: ExtendedFloatArray {
                mant: BASE27_LARGE_MANTISSA.as_slice(),
                exp: BASE27_LARGE_EXPONENT.as_slice(),
            },
            small_int: BASE27_SMALL_INT_POWERS.as_slice(),
            step: 14,
            bias: 252,
        }
}

/// Builds the bundle for radix 28 out of its constant tables.
fn powers_base28() -> (r: ModeratePathPowers<'static, u64>)
    ensures
        r.wf(),
        r.small.mant@ == BASE28_SMALL_MANTISSA@,
        r.small.exp@ == BASE28_SMALL_EXPONENT@,
        r.large.mant@ == BASE28_LARGE_MANTISSA@,
        r.large.exp@ == BASE28_LARGE_EXPONENT@,
        r.small_int@ == BASE28_SMALL_INT_POWERS@,
        r.step == 14,
        r.bias == 252,
{
    ModeratePathPowers {
            small: ExtendedFloatArray {
                mant: BASE28_SMALL_MANTISSA.as_slice(),
                exp: BASE28_SMALL_EXPONENT.as_slice(),
            },
            large: ExtendedFloatArray {
                mant: BASE28_LARGE_MANTISSA.as_slice(),
                exp: BASE28_LARGE_EXPONENT.as_slice(),
            },
            small_int: BASE28_SMALL_INT_POWERS.as_slice(),
            step: 14,
            bias: 252,
        }
}

/// Builds the bundle for radix 29 out of its constant tables.
fn powers_base29() -> (r: ModeratePathPowers<'static, u64>)
    ensures
        r.wf(),
        r.small.mant@ == BASE29_SMALL_MANTISSA@,
        r.small.exp@ == BASE29_SMALL_EXPONENT@,
        r.large.mant@ == BASE29_LARGE_MANTISSA@,
        r.large.exp@ == BASE29_LARGE_EXPONENT@,
        r.small_int@ == BASE29_SMALL_INT_POWERS@,
        r.step == 14,
        r.bias == 238,
{
    ModeratePathPowers {
            small: ExtendedFloatArray {
                mant: BASE29_SMALL_MANTISSA.as_slice(),
                exp: BASE29_SMALL_EXPONENT.as_slice(),
            },
            large: ExtendedFloatArray {
                mant: BASE29_LARGE_MANTISSA.as_slice(),
                exp: BASE29_LARGE_EXPONENT.as_slice(),
            },
            small_int: BASE29_SMALL_INT_POWERS.as_slice(),
            step: 14,
            bias: 238,
        }
}

/// Builds the bundle for radix 30 out of its constant tables.
fn powers_base30() -> (r: ModeratePathPowers<'static, u64>)
    ensures
        r.wf(),
        r.small.mant@ == BASE30_SMALL_MANTISSA@,
        r.small.exp@ == BASE30_SMALL_EXPONENT@,
        r.large.mant@ == BASE30_LARGE_MANTISSA@,
        r.large.exp@ == BASE30_LARGE_EXPONENT@,
        r.small_int@ == BASE30_SMALL_INT_POWERS@,
        r.step == 14,
        r.bias == 238,
{
    ModeratePathPowers {
            small: ExtendedFloatArray {
                mant: BASE30_SMALL_MANTISSA.as_slice(),
                exp: BASE30_SMALL_EXPONENT.as_slice(),
            },
            large: ExtendedFloatArray {
                mant: BASE30_LARGE_MANTISSA.as_slice(),
                exp: BASE30_LARGE_EXPONENT.as_slice(),
            },
            small_int: BASE30_SMALL_INT_POWERS.as_slice(),
            step: 14,
            bias: 238,
        }
}

/// Builds the bundle for radix 31 out of its constant tables.
fn powers_base31() -> (r: ModeratePathPowers<'static, u64>)
    ensures
        r.wf(),
        r.small.mant@ == BASE31_SMALL_MANTISSA@,
        r.small.exp@ == BASE31_SMALL_EXPONENT@,
        r.large.mant@ == BASE31_LARGE_MANTISSA@,
        r.large.exp@ == BASE31_LARGE_EXPONENT@,
        r.small_int@ == BASE31_SMALL_INT_POWERS@,
        r.step == 13,
        r.bias == 234,
{
    ModeratePathPowers {
            small: ExtendedFloatArray {
                mant: BASE31_SMALL_MANTISSA.as_slice(),
                exp: BASE31_SMALL_EXPONENT.as_slice(),
            },
            large: ExtendedFloatArray {
                mant: BASE31_LARGE_MANTISSA.as_slice(),
                exp: BASE31_LARGE_EXPONENT.as_slice(),
            },
            small_int: BASE31_SMALL_INT_POWERS.as_slice(),
            step: 13,
            bias: 234,
        }
}

/// Builds the bundle for radix 32 out of its constant tables.
fn powers_base32() -> (r: ModeratePathPowers<'static, u64>)
    ensures
        r.wf(),
        r.small.mant@ == BASE32_SMALL_MANTISSA@,
        r.small.exp@ == BASE32_SMALL_EXPONENT@,
        r.large.mant@ == BASE32_LARGE_MANTISSA@,
        r.large.exp@ == BASE32_LARGE_EXPONENT@,
        r.small_int@ == BASE32_SMALL_INT_POWERS@,
        r.step == 13,
        r.bias == 234,
{
    ModeratePathPowers {
            small: ExtendedFloatArray {
                mant: BASE32_SMALL_MANTISSA.as_slice(),
                exp: BASE32_SMALL_EXPONENT.as_slice(),
            },
            large: ExtendedFloatArray {
                mant: BASE32_LARGE_MANTISSA.as_slice(),
                exp: BASE32_LARGE_EXPONENT.as_slice(),
            },
            small_int: BASE32_SMALL_INT_POWERS.as_slice(),
            step: 13,
            bias: 234,
        }
}

/// Builds the bundle for radix 33 out of its constant tables.
fn powers_base33() -> (r: ModeratePathPowers<'static, u64>)
    ensures
        r.wf(),
        r.small.mant@ == BASE33_SMALL_MANTISSA@,
        r.small.exp@ == BASE33_SMALL_EXPONENT@,
        r.large.mant@ == BASE33_LARGE_MANTISSA@,
        r.large.exp@ == BASE33_LARGE_EXPONENT@,
        r.small_int@ == BASE33_SMALL_INT_POWERS@,
        r.step == 13,
        r.bias == 234,
{
    ModeratePathPowers {
            small: ExtendedFloatArray {
                mant: BASE33_SMALL_MANTISSA.as_slice(),
                exp: BASE33_SMALL_EXPONENT.as_slice(),
            },
            large: ExtendedFloatArray {
                mant: BASE33_LARGE_MANTISSA.as_slice(),
                exp: BASE33_LARGE_EXPONENT.as_slice(),
            },
            small_int: BASE33_SMALL_INT_POWERS.as_slice(),
            step: 13,
            bias: 234,
        }
}

/// Builds the bundle for radix 34 out of its constant tables.
fn powers_base34() -> (r: ModeratePathPowers<'static, u64>)
    ensures
        r.wf(),
        r.small.mant@ == BASE34_SMALL_MANTISSA@,
        r.small.exp@ == BASE34_SMALL_EXPONENT@,
        r.large.mant@ == BASE34_LARGE_MANTISSA@,
        r.large.exp@ == BASE34_LARGE_EXPONENT@,
        r.small_int@ == BASE34_SMALL_INT_POWERS@,
        r.step == 13,
        r.bias == 234,
{
    ModeratePathPowers {
            small: ExtendedFloatArray {
                mant: BASE34_SMALL_MANTISSA.as_slice(),
                exp: BASE34_SMALL_EXPONENT.as_slice(),
            },
            large: ExtendedFloatArray {
                mant: BASE34_LARGE_MANTISSA.as_slice(),
                exp: BASE34_LARGE_EXPONENT.as_slice(),
            },
            small_int: BASE34_SMALL_INT_POWERS.as_slice(),
            step: 13,
            bias: 234,
        }
}

/// Builds the bundle for radix 35 out of its constant tables.
fn powers_base35() -> (r: ModeratePathPowers<'static, u64>)
    ensures
        r.wf(),
        r.small.mant@ == BASE35_SMALL_MANTISSA@,
        r.small.exp@ == BASE35_SMALL_EXPONENT@,
        r.large.mant@ == BASE35_LARGE_MANTISSA@,
        r.large.exp@ == BASE35_LARGE_EXPONENT@,
        r.small_int@ == BASE35_SMALL_INT_POWERS@,
        r.step == 13,
        r.bias == 234,
{
    ModeratePathPowers {
            small: ExtendedFloatArray {
                mant: BASE35_SMALL_MANTISSA.as_slice(),
                exp: BASE35_SMALL_EXPONENT.as_slice(),
            },
            large: ExtendedFloatArray {
                mant: BASE35_LARGE_MANTISSA.as_slice(),
                exp: BASE35_LARGE_EXPONENT.as_slice(),
            },
            small_int: BASE35_SMALL_INT_POWERS.as_slice(),
            step: 13,
            bias: 234,
        }
}

/// Builds the bundle for radix 36 out of its constant tables.
fn powers_base36() -> (r: ModeratePathPowers<'static, u64>)
    ensures
        r.wf(),
        r.small.mant@ == BASE36_SMALL_MANTISSA@,
        r.small.exp@ == BASE36_SMALL_EXPONENT@,
        r.large.mant@ == BASE36_LARGE_MANTISSA@,
        r.large.exp@ == BASE36_LARGE_EXPONENT@,
        r.small_int@ == BASE36_SMALL_INT_POWERS@,
        r.step == 13,
        r.bias == 234,
{
    ModeratePathPowers {
            small: ExtendedFloatArray {
                mant: BASE36_SMALL_MANTISSA.as_slice(),
                exp: BASE36_SMALL_EXPONENT.as_slice(),
            },
            large: ExtendedFloatArray {
                mant: BASE36_LARGE_MANTISSA.as_slice(),
                exp: BASE36_LARGE_EXPONENT.as_slice(),
            },
            small_int: BASE36_SMALL_INT_POWERS.as_slice(),
            step: 13,
            bias: 234,
        }
}

/// Selects the power tables of `radix`.
///
/// The result is pinned to the per-radix constants, so every call with the
/// same radix hands back bit-identical tables.
pub fn get_powers(radix: u32) -> (r: ModeratePathPowers<'static, u64>)
    requires
        valid_radix(radix),
    ensures
        r.wf(),
        r.small.mant@ == small_mantissa_table(radix),
        r.small.exp@ == small_exponent_table(radix),
        r.large.mant@ == large_mantissa_table(radix),
        r.large.exp@ == large_exponent_table(radix),
        r.small_int@ == small_int_table(radix),
        r.step == table_step(radix),
        r.bias == table_bias(radix),
{
    if radix == 2 {
        powers_base2()
    } else if radix == 3 {
        powers_base3()
    } else if radix == 4 {
        powers_base4()
    } else if radix == 5 {
        powers_base5()
    } else if radix == 6 {
        powers_base6()
    } else if radix == 7 {
        powers_base7()
    } else if radix == 8 {
        powers_base8()
    } else if radix == 9 {
        powers_base9()
    } else if radix == 10 {
        powers_base10()
    } else if radix == 11 {
        powers_base11()
    } else if radix == 12 {
        powers_base12()
    } else if radix == 13 {
        powers_base13()
    } else if radix == 14 {
        powers_base14()
    } else if radix == 15 {
        powers_base15()
    } else if radix == 16 {
        powers_base16()
    } else if radix == 17 {
        powers_base17()
    } else if radix == 18 {
        powers_base18()
    } else if radix == 19 {
        powers_base19()
    } else if radix == 20 {
        powers_base20()
    } else if radix == 21 {
        powers_base21()
    } else if radix == 22 {
        powers_base22()
    } else if radix == 23 {
        powers_base23()
    } else if radix == 24 {
        powers_base24()
    } else if radix == 25 {
        powers_base25()
    } else if radix == 26 {
        powers_base26()
    } else if radix == 27 {
        powers_base27()
    } else if radix == 28 {
        powers_base28()
    } else if radix == 29 {
        powers_base29()
    } else if radix == 30 {
        powers_base30()
    } else if radix == 31 {
        powers_base31()
    } else if radix == 32 {
        powers_base32()
    } else if radix == 33 {
        powers_base33()
    } else if radix == 34 {
        powers_base34()
    } else if radix == 35 {
        powers_base35()
    } else {
        powers_base36()
    }
}

} // verus!
