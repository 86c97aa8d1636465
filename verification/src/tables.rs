//! Tables of the powers of a primitive 2048-th root of unity modulo q, in
//! Montgomery form and in the order in which the transforms use them.
use vstd::prelude::*;

verus! {

/// Powers of the root of unity used by the forward transform, times R mod q.
pub const ROOTS: [i32; 1024] = [
    0x2ac8, 0x2baf, 0x299b, 0x685, 0x2f04, 0x158d, 0x2d49, 0x24b5, 0x1edc, 0xab3, 0x2a95, 0x24d,
    0x3cb, 0x6a8, 0x12f9, 0x15ba, 0x1861, 0x2a89, 0x1c5c, 0xbe6, 0xc1e, 0x2024, 0x207, 0x19ce,
    0x2710, 0x1744, 0x18bc, 0x2cd7, 0x396, 0x18d5, 0x1c45, 0xc4, 0x21a6, 0xe03, 0x2b3c, 0x2d91,
    0xc5d, 0x432, 0x1fbc, 0xcae, 0x2512, 0x2979, 0x3b2, 0x714, 0xb2e, 0x1a97, 0x1a03, 0x1bcd,
    0x2216, 0x2701, 0xa, 0x263c, 0x1179, 0x200c, 0x2d08, 0x1c34, 0x291, 0x2c99, 0x2a5a, 0x723,
    0xb1d, 0x1ccc, 0x1fb6, 0x2f58, 0x2bfe, 0x1cda, 0x2a0, 0x5f1, 0x2de, 0x1fc7, 0x1ea8, 0x1719,
    0x2fa7, 0x27ec, 0x20ff, 0x12c0, 0x1ac1, 0x2232, 0x2f9b, 0xd3e, 0x2aed, 0x15f0, 0x11e8, 0xed0,
    0x26a, 0x1de5, 0xa3f, 0xf43, 0xebf, 0x204e, 0xac7, 0x2d9c, 0x5ea, 0x25d1, 0xb6, 0x49c,
    0x995, 0x2555, 0x26e2, 0x100, 0x1878, 0x5aa, 0x2e10, 0x271c, 0xcb, 0x1b4c, 0x2fb8, 0x25b7,
    0x1543, 0x2c7b, 0x241a, 0x2223, 0x20ca, 0x24ed, 0x137, 0x1b65, 0x1dc2, 0x7c7, 0x2ec3, 0xd0c,
    0x1169, 0x1c7a, 0x1ea1, 0xf89, 0x2199, 0x291d, 0x1088, 0x2046, 0x256d, 0x2bc7, 0x2e9b, 0x41f,
    0x1b55, 0x2b38, 0xd0, 0x2e6a, 0x1755, 0x6bc, 0x2724, 0x3ba, 0x222e, 0x2c5c, 0x2da5, 0x213c,
    0x10fe, 0x169a, 0x1552, 0x5d3, 0x300, 0x1b5d, 0x1342, 0x2004, 0x256f, 0x2039, 0x667, 0x23b5,
    0x1123, 0xdb, 0x2da0, 0xe1e, 0x2f54, 0x2767, 0x154a, 0x40a, 0x11d3, 0x2821, 0xc09, 0x974,
    0x694, 0xfbf, 0x27ba, 0x132, 0x83f, 0x2d06, 0x10e, 0x183f, 0x29ae, 0x28c3, 0x2dc9, 0x1144,
    0x2c70, 0x2a4a, 0xf3c, 0x1e32, 0x1171, 0x1e43, 0xdd4, 0x2ddf, 0x28d2, 0xfac, 0x3c4, 0x2f19,
    0x10a6, 0x2f7, 0xe1d, 0x828, 0x138f, 0x1332, 0xfab, 0xcf6, 0x13f8, 0x24a0, 0x112d, 0x2717,
    0x6e7, 0x1044, 0x36e, 0xfe8, 0x6a, 0xba7, 0x1d69, 0x29ec, 0x23b2, 0xaee, 0x16df, 0x1068,
    0x1a7e, 0x253f, 0x24c, 0xb33, 0x2683, 0x15ce, 0x1ad3, 0x1a36, 0xc96, 0xaea, 0x260a, 0xce,
    0x28b1, 0xe4f, 0x2b11, 0x5f8, 0x1fc4, 0xe77, 0x2366, 0x11f9, 0x153c, 0x24eb, 0x20cd, 0x1398,
    0x22, 0x2b97, 0x249b, 0x8eb, 0x12b2, 0x2fe3, 0x29c1, 0x1b00, 0x2663, 0xeaa, 0x2e06, 0xe0,
    0x1569, 0x10f5, 0x284e, 0xa38, 0x201d, 0x1c53, 0x1681, 0x1f6f, 0x2f95, 0x2fe8, 0xacb, 0x1680,
    0x17fd, 0x2c39, 0x165a, 0x10bb, 0x29d8, 0x2622, 0x1196, 0x884, 0x2a79, 0x140e, 0x2d80, 0x6fa,
    0x11b2, 0x26c4, 0x355, 0x1054, 0x29e9, 0x23ed, 0xbe3, 0x24fa, 0x1fb3, 0x10ac, 0x2919, 0x2584,
    0x10a4, 0xe85, 0x650, 0x1893, 0x1dc1, 0xd8e, 0x12dc, 0x2d42, 0x284d, 0xfff, 0x250f, 0xacd,
    0x13c3, 0x6cc, 0x1a79, 0x1221, 0x2614, 0x270a, 0x1ea, 0x155, 0x2818, 0x222c, 0x2e5b, 0x25d8,
    0x1dbf, 0x191c, 0xb0f, 0xdac, 0x1082, 0x12ef, 0x11b6, 0xfa8, 0x2b72, 0x159d, 0x209e, 0x31b,
    0x2c7c, 0x14f7, 0xe09, 0x1bb2, 0x1ec7, 0x2404, 0x20ae, 0x6ad, 0xed6, 0x2b70, 0x1c7b, 0x18d1,
    0x2732, 0x12da, 0xd56, 0x5c1, 0x1648, 0x18b7, 0x1605, 0x1bc4, 0x280, 0x2ece, 0xc, 0x1aae,
    0x1c4, 0x1cdb, 0x22d6, 0x21d8, 0x257c, 0x51f, 0x211b, 0xff, 0x2ee0, 0x2585, 0xe1, 0x2c35,
    0x26db, 0x2971, 0x2208, 0x17e1, 0x21be, 0x135e, 0x28d6, 0x2891, 0x1689, 0x2138, 0xb86, 0x2e3a,
    0x1204, 0x2d10, 0x2324, 0xf3f, 0x2508, 0x33d, 0xcb2, 0x292a, 0xe27, 0x2e64, 0x29f8, 0x2d46,
    0x9b7, 0x20eb, 0x1b7c, 0x9eb, 0x2b2a, 0x58c, 0x27d0, 0x121b, 0x272e, 0x29f6, 0x2dbd, 0x2697,
    0x2aac, 0xd6f, 0x1c67, 0x2c5b, 0x108d, 0x363, 0x249d, 0x2d5e, 0x2fd, 0x2cb2, 0x1f8f, 0x20a4,
    0xa19, 0x2ac9, 0x19b1, 0x1581, 0x17a2, 0x29eb, 0x1b72, 0x13b0, 0xee4, 0xa8f, 0x2315, 0x5e6,
    0x951, 0x2e29, 0xdad, 0x1f2b, 0x224e, 0x37f, 0x1a72, 0xa91, 0x1407, 0x2df9, 0x3ad, 0x23f7,
    0x1a24, 0x1d2a, 0x234b, 0x1df3, 0x1143, 0x7ff, 0x1a6d, 0x2774, 0x2690, 0x2ab5, 0x586, 0x2781,
    0x2009, 0x2fdd, 0x2881, 0x399, 0x2fb6, 0x144, 0x137f, 0xfa0, 0x2e4c, 0x1c7f, 0x2fac, 0xb09,
    0x1264, 0x127b, 0x198c, 0x2b40, 0x230, 0x1cf4, 0x180b, 0xb58, 0x144a, 0x2aec, 0xfb, 0x2602,
    0x14ee, 0x783, 0x1098, 0x23d8, 0x203, 0xe9, 0x108a, 0x14b8, 0xeec, 0xc58, 0x1248, 0x243c,
    0x28aa, 0x6bf, 0x27c4, 0x276e, 0x19b8, 0x1d11, 0x2e16, 0x472, 0x1464, 0x24b9, 0x662, 0x1097,
    0x2067, 0x20d6, 0x171c, 0x4, 0x682, 0x17bb, 0x1186, 0x4f2, 0x3ff, 0x2a43, 0x1dc7, 0x1ae5,
    0x8cc, 0x2e7c, 0x2ef8, 0x2ae0, 0x2904, 0xed4, 0x6c5, 0x14ae, 0xb72, 0x11c3, 0x337, 0x2da3,
    0x2916, 0x6d8, 0x1cf9, 0x10ee, 0x1800, 0x1ae4, 0xa0d, 0x101b, 0x1a8d, 0x2e98, 0x24cd, 0x813,
    0x1aa4, 0x9b9, 0x680, 0x2349, 0x24d1, 0x20f8, 0xe31, 0x249f, 0x216b, 0x12d9, 0x1d21, 0x19db,
    0x191a, 0x1dd0, 0x5df, 0x55c, 0x2b86, 0x213, 0xe9e, 0x1ef1, 0x268a, 0x1d5e, 0x1e20, 0x28c1,
    0x1379, 0x249, 0x19de, 0x18b, 0x1e41, 0x2a1e, 0x2612, 0x297, 0x2e96, 0x2102, 0x46, 0x1b9f,
    0x1a4d, 0x2050, 0x1b32, 0x568, 0x11f7, 0x1829, 0x870, 0x1f4, 0x1dca, 0x990, 0x1df6, 0x2b62,
    0x13ec, 0x9f2, 0x1260, 0x2997, 0x1412, 0x1e6d, 0x1694, 0x11ac, 0x2d8b, 0x276f, 0x26f5, 0x233e,
    0x2b44, 0x2f5a, 0x2d37, 0x2cb1, 0xc75, 0x98d, 0x1d56, 0x7ae, 0x10e6, 0x113f, 0x17b8, 0xad3,
    0x737, 0x221e, 0x1b70, 0x1f3e, 0x2966, 0x18b2, 0x4fa, 0x2044, 0x1312, 0x154e, 0x2029, 0x700,
    0x1b45, 0x27a6, 0x226a, 0x21bf, 0x58d, 0x2f11, 0x2e02, 0x17fc, 0x4d2, 0x1757, 0xcb1, 0x2ef1,
    0x2582, 0x1276, 0x881, 0x2fc0, 0x104a, 0x670, 0x274f, 0x2b53, 0x19dd, 0x752, 0x1663, 0xcbd,
    0x2b2b, 0x2fc6, 0x13b6, 0x21e6, 0x15f6, 0x126b, 0x2637, 0x1cd9, 0x2f50, 0xe82, 0x5b0, 0x24e0,
    0x1350, 0x2f24, 0x21f7, 0x1a16, 0x2f3e, 0x167e, 0x1f7d, 0x28a0, 0x16f0, 0xe33, 0x53b, 0x28c5,
    0x1500, 0x2f88, 0x26cc, 0x2018, 0x1604, 0x218b, 0x2cd1, 0x9ee, 0x17f3, 0x5fd, 0x1f5a, 0x2d0,
    0x2b46, 0x23cc, 0x503, 0x1c46, 0x1cc3, 0x28e2, 0x243e, 0x122b, 0x2e0c, 0xe37, 0x2611, 0x85e,
    0x9b8, 0x1b24, 0x762, 0x19b6, 0x3bc, 0x2d50, 0x2079, 0x18da, 0x170a, 0x800, 0xaa2, 0x135a,
    0x1a15, 0x13d1, 0xca, 0x2113, 0x2db9, 0xdb2, 0x1a5c, 0x29a9, 0x1488, 0x14c1, 0x2c9, 0x917,
    0x28e7, 0x265c, 0xdab, 0x2ab9, 0x2bc6, 0x105b, 0x1839, 0x219c, 0x50, 0x11da, 0x1802, 0xf56,
    0x2e6, 0x2190, 0xddb, 0x56e, 0x9d9, 0x1c81, 0x1016, 0x12d6, 0x296f, 0x14b4, 0x1014, 0x1e64,
    0x1d90, 0x89f, 0x2bc2, 0x2777, 0x2819, 0x1c65, 0x1a41, 0x5a2, 0x2cd2, 0x427, 0xd71, 0x29c8,
    0x1e58, 0x53f, 0x7c5, 0x1dcd, 0x4a1, 0x1268, 0x2597, 0x2926, 0xee, 0x111b, 0x1038, 0xe6c,
    0x22dc, 0x2f2f, 0x441, 0x2cfd, 0x1cb0, 0x6a4, 0x2224, 0x620, 0x5dc, 0x16b1, 0x2a1d, 0x1787,
    0x20c7, 0x641, 0xd84, 0x1c05, 0x2d0d, 0x2f52, 0x1b8c, 0xd7d, 0x17e8, 0x1589, 0xc73, 0x151b,
    0x4e2, 0x1ae9, 0x1b18, 0xb9b, 0x949, 0x2c60, 0x1e7a, 0xd5, 0x1bdc, 0x1f57, 0x1753, 0x124a,
    0x559, 0xb76, 0x2334, 0x12d1, 0x1de1, 0x14b2, 0x2faa, 0x1697, 0x147a, 0x5a1, 0x2c30, 0x1c02,
    0x1043, 0x2ee1, 0x2402, 0x1cc8, 0x2a16, 0xff7, 0x1364, 0x1b9a, 0x2a53, 0x2f94, 0x294c, 0x1ee5,
    0x1a87, 0x2141, 0xd66, 0x953, 0x28a3, 0x2f30, 0x2477, 0x18e3, 0x1035, 0x1fc1, 0x1d68, 0x2fb3,
    0x138c, 0x2487, 0x1bf8, 0xd96, 0x1018, 0x748, 0x244e, 0x15bd, 0x175e, 0x2be, 0x23d, 0x1da,
    0x176d, 0xc17, 0x24be, 0x2ebb, 0x7d8, 0x100a, 0x759, 0x1db4, 0x2259, 0x23f4, 0x2d59, 0x2847,
    0xbf5, 0x1cfe, 0xa20, 0x258, 0x1180, 0x279c, 0x54, 0x2abf, 0xc5c, 0x9f9, 0x3d5, 0x2ce4,
    0x165f, 0x23d9, 0x27b9, 0x6f9, 0x281a, 0x169e, 0x627, 0x156d, 0x1ff8, 0x211, 0x2e34, 0x1724,
    0x2c2e, 0x2790, 0x2dd5, 0x2bf2, 0xdbc, 0x2884, 0x20a9, 0x2390, 0x1e1a, 0x1b6a, 0x5f7, 0xab7,
    0x1333, 0x16ab, 0x28dd, 0x20, 0x30f, 0x24b6, 0x5c2, 0x1ce4, 0x1400, 0x2669, 0x60, 0x156c,
    0xe20, 0x26d4, 0x26ab, 0x1ebb, 0x223d, 0x5b4, 0x2025, 0x1e1c, 0xaae, 0x2e08, 0x6cd, 0x1677,
    0x13d9, 0x17b5, 0x1046, 0x1d8c, 0x14eb, 0x18d8, 0x1ce5, 0x2478, 0x16ae, 0xb79, 0x23d4, 0x684,
    0x156b, 0x567, 0x1a, 0x29ce, 0x83a, 0x19e8, 0x58e, 0x294a, 0x1136, 0x2319, 0x2fba, 0x1a29,
    0x1d, 0x1879, 0x291b, 0x19f6, 0x2c2f, 0x21c9, 0x19bb, 0xbbc, 0x26f9, 0xc22, 0x708, 0x11a1,
    0x18d3, 0x7f8, 0x28f8, 0x2427, 0x1deb, 0xaed, 0x26aa, 0x2482, 0x203b, 0x2f05, 0x2b82, 0x192f,
    0x2df4, 0x8dc, 0x2877, 0xd5e, 0x240e, 0x775, 0x2dae, 0x1d3e, 0x20ba, 0x215b, 0x22d1, 0xeba,
    0xf50, 0xaa8, 0x184a, 0x1f67, 0x2e04, 0xc6e, 0x6dd, 0x1a09, 0x27f, 0x494, 0x1426, 0xae3,
    0xe15, 0x65f, 0x13c4, 0x105, 0x872, 0x2667, 0x1ff6, 0xd9f, 0x2ca1, 0x2f39, 0x2657, 0x23fd,
    0x2405, 0xb73, 0x2294, 0x1f1e, 0x2eba, 0x110a, 0x2cae, 0x141f, 0x22cd, 0x25d6, 0x11c1, 0x1c,
    0x2d8e, 0x161a, 0x1aa8, 0x229e, 0x1bf9, 0x7cf, 0x106d, 0x2c40, 0xd93, 0x255e, 0x28c2, 0xc1a,
    0x2f17, 0x7ca, 0x2f63, 0xbf,
];

/// The inverses of the entries of ROOTS, times R^2 mod q.
pub const IROOTS: [i32; 1024] = [
    0x2ac8, 0x452, 0x297c, 0x666, 0xb4c, 0x2b8, 0x1a74, 0xfd, 0x1a47, 0x1d08, 0x2959, 0x2c36,
    0x2db4, 0x56c, 0x254e, 0x1125, 0x2f3d, 0x13bc, 0x172c, 0x2c6b, 0x32a, 0x1745, 0x18bd, 0x8f1,
    0x1633, 0x2dfa, 0xfdd, 0x23e3, 0x241b, 0x13a5, 0x578, 0x17a0, 0xa9, 0x104b, 0x1335, 0x24e4,
    0x28de, 0x5a7, 0x368, 0x2d70, 0x13cd, 0x2f9, 0xff5, 0x1e88, 0x9c5, 0x2ff7, 0x900, 0xdeb,
    0x1434, 0x15fe, 0x156a, 0x24d3, 0x28ed, 0x2c4f, 0x688, 0xaef, 0x2353, 0x1045, 0x2bcf, 0x23a4,
    0x270, 0x4c5, 0x21fe, 0xe5b, 0xfbb, 0x1f79, 0x6e4, 0xe68, 0x2078, 0x1160, 0x1387, 0x1e98,
    0x22f5, 0x13e, 0x283a, 0x123f, 0x149c, 0x2eca, 0xb14, 0xf37, 0xdde, 0xbe7, 0x386, 0x1abe,
    0xa4a, 0x49, 0x14b5, 0x2f36, 0x8e5, 0x1f1, 0x2a57, 0x1789, 0x2f01, 0x91f, 0xaac, 0x266c,
    0x2b65, 0x2f4b, 0xa30, 0x2a17, 0x265, 0x253a, 0xfb3, 0x2142, 0x20be, 0x25c2, 0x121c, 0x2d97,
    0x2131, 0x1e19, 0x1a11, 0x514, 0x22c3, 0x66, 0xdcf, 0x1540, 0x1d41, 0xf02, 0x815, 0x5a,
    0x18e8, 0x1159, 0x103a, 0x2d23, 0x2a10, 0x2d61, 0x1327, 0x403, 0x25c9, 0x7b3, 0x1f0c, 0x1a98,
    0x2f21, 0x1fb, 0x2157, 0x99e, 0x1501, 0x640, 0x1e, 0x1d4f, 0x2716, 0xb66, 0x46a, 0x2fdf,
    0x1c69, 0xf34, 0xb16, 0x1ac5, 0x1e08, 0xc9b, 0x218a, 0x103d, 0x2a09, 0x4f0, 0x21b2, 0x750,
    0x2f33, 0x9f7, 0x2517, 0x236b, 0x15cb, 0x152e, 0x1a33, 0x97e, 0x24ce, 0x2db5, 0xac2, 0x1583,
    0x1f99, 0x1922, 0x2513, 0xc4f, 0x615, 0x1298, 0x245a, 0x2f97, 0x2019, 0x2c93, 0x1fbd, 0x291a,
    0x8ea, 0x1ed4, 0xb61, 0x1c09, 0x230b, 0x2056, 0x1ccf, 0x1c72, 0x27d9, 0x21e4, 0x2d0a, 0x1f5b,
    0xe8, 0x2c3d, 0x2055, 0x72f, 0x222, 0x222d, 0x11be, 0x1e90, 0x11cf, 0x20c5, 0x5b7, 0x391,
    0x1ebd, 0x238, 0x73e, 0x653, 0x17c2, 0x2ef3, 0x2fb, 0x27c2, 0x2ecf, 0x847, 0x2042, 0x296d,
    0x268d, 0x23f8, 0x7e0, 0x1e2e, 0x2bf7, 0x1ab7, 0x89a, 0xad, 0x21e3, 0x261, 0x2f26, 0x1ede,
    0xc4c, 0x299a, 0xfc8, 0xa92, 0xffd, 0x1cbf, 0x14a4, 0x2d01, 0x2a2e, 0x1aaf, 0x1967, 0x1f03,
    0xec5, 0x25c, 0x3a5, 0xdd3, 0x2c47, 0x8dd, 0x2945, 0x18ac, 0x197, 0x2f31, 0x4c9, 0x14ac,
    0x2be2, 0x166, 0x43a, 0xa94, 0x1b53, 0x293c, 0x212d, 0x6fd, 0x521, 0x109, 0x185, 0x2735,
    0x151c, 0x123a, 0x5be, 0x2c02, 0x2b0f, 0x1e7b, 0x1846, 0x297f, 0x2ffd, 0x18e5, 0xf2b, 0xf9a,
    0x1f6a, 0x299f, 0xb48, 0x1b9d, 0x2b8f, 0x1eb, 0x12f0, 0x1649, 0x893, 0x83d, 0x2942, 0x757,
    0xbc5, 0x1db9, 0x23a9, 0x2115, 0x1b49, 0x1f77, 0x2f18, 0x2dfe, 0xc29, 0x1f69, 0x287e, 0x1b13,
    0x9ff, 0x2f06, 0x515, 0x1bb7, 0x24a9, 0x17f6, 0x130d, 0x2dd1, 0x4c1, 0x1675, 0x1d86, 0x1d9d,
    0x24f8, 0x55, 0x1382, 0x1b5, 0x2061, 0x1c82, 0x2ebd, 0x4b, 0x2c68, 0x780, 0x24, 0xff8,
    0x880, 0x2a7b, 0x54c, 0x971, 0x88d, 0x1594, 0x2802, 0x1ebe, 0x120e, 0xcb6, 0x12d7, 0x15dd,
    0xc0a, 0x2c54, 0x208, 0x1bfa, 0x2570, 0x158f, 0x2c82, 0xdb3, 0x10d6, 0x2254, 0x1d8, 0x26b0,
    0x2a1b, 0xcec, 0x2572, 0x211d, 0x1c51, 0x148f, 0x616, 0x185f, 0x1a80, 0x1650, 0x538, 0x25e8,
    0xf5d, 0x1072, 0x34f, 0x2d04, 0x2a3, 0xb64, 0x2c9e, 0x1f74, 0x3a6, 0x139a, 0x2292, 0x555,
    0x96a, 0x244, 0x60b, 0x8d3, 0x1de6, 0x831, 0x2a75, 0x4d7, 0x2616, 0x1485, 0xf16, 0x264a,
    0x2bb, 0x609, 0x19d, 0x21da, 0x6d7, 0x234f, 0x2cc4, 0xaf9, 0x20c2, 0xcdd, 0x2f1, 0x1dfd,
    0x1c7, 0x247b, 0xec9, 0x1978, 0x770, 0x72b, 0x1ca3, 0xe43, 0x1820, 0xdf9, 0x690, 0x926,
    0x3cc, 0x2f20, 0xa7c, 0x121, 0x2f02, 0xee6, 0x2ae2, 0xa85, 0xe29, 0xd2b, 0x1326, 0x2e3d,
    0x1553, 0x2ff5, 0x133, 0x2d81, 0x143d, 0x19fc, 0x174a, 0x19b9, 0x2a40, 0x22ab, 0x1d27, 0x8cf,
    0x1730, 0x1386, 0x491, 0x212b, 0x2954, 0xf53, 0xbfd, 0x113a, 0x144f, 0x21f8, 0x1b0a, 0x385,
    0x2ce6, 0xf63, 0x1a64, 0x48f, 0x2059, 0x1e4b, 0x1d12, 0x1f7f, 0x2255, 0x24f2, 0x16e5, 0x1242,
    0xa29, 0x1a6, 0xdd5, 0x7e9, 0x2eac, 0x2e17, 0x8f7, 0x9ed, 0x1de0, 0x1588, 0x2935, 0x1c3e,
    0x2534, 0xaf2, 0x2002, 0x7b4, 0x2bf, 0x1d25, 0x2273, 0x1240, 0x176e, 0x29b1, 0x217c, 0x1f5d,
    0xa7d, 0x6e8, 0x1f55, 0x104e, 0xb07, 0x241e, 0xc14, 0x618, 0x1fad, 0x2cac, 0x93d, 0x1e4f,
    0x2907, 0x281, 0x1bf3, 0x588, 0x277d, 0x1e6b, 0x9df, 0x629, 0x1f46, 0x19a7, 0x3c8, 0x1804,
    0x1981, 0x2536, 0x19, 0x6c, 0x1092, 0x1980, 0x13ae, 0xfe4, 0x2f42, 0x9e, 0x2837, 0xea,
    0x23e7, 0x73f, 0xaa3, 0x226e, 0x3c1, 0x1f94, 0x2832, 0x1408, 0xd63, 0x1559, 0x19e7, 0x273,
    0x2fe5, 0x1e40, 0xa2b, 0xd34, 0x1be2, 0x353, 0x1ef7, 0x147, 0x10e3, 0xd6d, 0x248e, 0xbfc,
    0xc04, 0x9aa, 0xc8, 0x360, 0x2262, 0x100b, 0x99a, 0x278f, 0x2efc, 0x1c3d, 0x29a2, 0x21ec,
    0x251e, 0x1bdb, 0x2b6d, 0x2d82, 0x15f8, 0x2924, 0x2393, 0x1fd, 0x109a, 0x17b7, 0x2559, 0x20b1,
    0x2147, 0xd30, 0xea6, 0xf47, 0x12c3, 0x253, 0x288c, 0xbf3, 0x22a3, 0x78a, 0x2725, 0x20d,
    0x16d2, 0x47f, 0xfc, 0xfc6, 0xb7f, 0x957, 0x2514, 0x1216, 0xbda, 0x709, 0x2809, 0x172e,
    0x1e60, 0x28f9, 0x23df, 0x908, 0x2445, 0x1646, 0xe38, 0x3d2, 0x160b, 0x6e6, 0x1788, 0x2fe4,
    0x15d8, 0x47, 0xce8, 0x1ecb, 0x6b7, 0x2a73, 0x1619, 0x27c7, 0x633, 0x2fe7, 0x2a9a, 0x1a96,
    0x297d, 0xc2d, 0x2488, 0x1953, 0xb89, 0x131c, 0x1729, 0x1b16, 0x1275, 0x1fbb, 0x184c, 0x1c28,
    0x198a, 0x2934, 0x1f9, 0x2553, 0x11e5, 0xfdc, 0x2a4d, 0xdc4, 0x1146, 0x956, 0x92d, 0x21e1,
    0x1a95, 0x2fa1, 0x998, 0x1c01, 0x131d, 0x2a3f, 0xb4b, 0x2cf2, 0x2fe1, 0x724, 0x1956, 0x1cce,
    0x254a, 0x2a0a, 0x1497, 0x11e7, 0xc71, 0xf58, 0x77d, 0x2245, 0x40f, 0x22c, 0x871, 0x3d3,
    0x18dd, 0x1cd, 0x2df0, 0x1009, 0x1a94, 0x29da, 0x1963, 0x7e7, 0x2908, 0x848, 0xc28, 0x19a2,
    0x31d, 0x2c2c, 0x2608, 0x23a5, 0x542, 0x2fad, 0x865, 0x1e81, 0x2da9, 0x25e1, 0x1303, 0x240c,
    0x7ba, 0x2a8, 0xc0d, 0xda8, 0x124d, 0x28a8, 0x1ff7, 0x2829, 0x146, 0xb43, 0x23ea, 0x1894,
    0x2e27, 0x2dc4, 0x2d43, 0x18a3, 0x1a44, 0xbb3, 0x28b9, 0x1fe9, 0x226b, 0x1409, 0xb7a, 0x1c75,
    0x4e, 0x1299, 0x1040, 0x1fcc, 0x171e, 0xb8a, 0xd1, 0x75e, 0x26ae, 0x229b, 0xec0, 0x157a,
    0x111c, 0x6b5, 0x6d, 0x5ae, 0x1467, 0x1c9d, 0x200a, 0x5eb, 0x1339, 0xbff, 0x120, 0x1fbe,
    0x13ff, 0x3d1, 0x2a60, 0x1b87, 0x196a, 0x57, 0x1b4f, 0x1220, 0x1d30, 0xccd, 0x248b, 0x2aa8,
    0x1db7, 0x18ae, 0x10aa, 0x1425, 0x2f2c, 0x1187, 0x3a1, 0x26b8, 0x2466, 0x14e9, 0x1518, 0x2b1f,
    0x1ae6, 0x238e, 0x1a78, 0x1819, 0x2284, 0x1475, 0xaf, 0x2f4, 0x13fc, 0x227d, 0x29c0, 0xf3a,
    0x187a, 0x5e4, 0x1950, 0x2a25, 0x29e1, 0xddd, 0x295d, 0x1351, 0x304, 0x2bc0, 0xd2, 0xd25,
    0x2195, 0x1fc9, 0x1ee6, 0x2f13, 0x6db, 0xa6a, 0x1d99, 0x2b60, 0x1234, 0x283c, 0x2ac2, 0x11a9,
    0x639, 0x2290, 0x2bda, 0x32f, 0x2a5f, 0x15c0, 0x139c, 0x7e8, 0x88a, 0x43f, 0x2762, 0x1271,
    0x119d, 0x1fed, 0x1b4d, 0x692, 0x1d2b, 0x1feb, 0x1380, 0x2628, 0x2a93, 0x2226, 0xe71, 0x2d1b,
    0x20ab, 0x17ff, 0x1e27, 0x2fb1, 0xe65, 0x17c8, 0x1fa6, 0x43b, 0x548, 0x2256, 0x9a5, 0x71a,
    0x26ea, 0x2d38, 0x1b40, 0x1b79, 0x658, 0x15a5, 0x224f, 0x248, 0xeee, 0x2f37, 0x1c30, 0x15ec,
    0x1ca7, 0x255f, 0x2801, 0x18f7, 0x1727, 0xf88, 0x2b1, 0x2c45, 0x164b, 0x289f, 0x14dd, 0x2649,
    0x27a3, 0x9f0, 0x21ca, 0x1f5, 0x1dd6, 0xbc3, 0x71f, 0x133e, 0x13bb, 0x2afe, 0xc35, 0x4bb,
    0x2d31, 0x10a7, 0x2a04, 0x180e, 0x2613, 0x330, 0xe76, 0x19fd, 0xfe9, 0x935, 0x79, 0x1b01,
    0x73c, 0x2ac6, 0x21ce, 0x1911, 0x761, 0x1084, 0x1983, 0xc3, 0x15eb, 0xe0a, 0xdd, 0x1cb1,
    0xb21, 0x2a51, 0x217f, 0xb1, 0x1328, 0x9ca, 0x1d96, 0x1a0b, 0xe1b, 0x1c4b, 0x3b, 0x4d6,
    0x2344, 0x199e, 0x28af, 0x1624, 0x4ae, 0x8b2, 0x2991, 0x1fb7, 0x41, 0x2780, 0x1d8b, 0xa7f,
    0x110, 0x2350, 0x18aa, 0x2b2f, 0x1805, 0x1ff, 0xf0, 0x2a74, 0xe42, 0xd97, 0x85b, 0x14bc,
    0x2901, 0xfd8, 0x1ab3, 0x1cef, 0xfbd, 0x2b07, 0x174f, 0x69b, 0x10c3, 0x1491, 0xde3, 0x28ca,
    0x252e, 0x1849, 0x1ec2, 0x1f1b, 0x2853, 0x12ab, 0x2674, 0x238c, 0x350, 0x2ca, 0xa7, 0x4bd,
    0xcc3, 0x90c, 0x892, 0x276, 0x1e55, 0x196d, 0x1194, 0x1bef, 0x66a, 0x1da1, 0x260f, 0x1c15,
    0x49f, 0x120b, 0x2671, 0x1237, 0x2e0d, 0x2791, 0x17d8, 0x1e0a, 0x2a99, 0x14cf, 0xfb1, 0x15b4,
    0x1462, 0x2fbb, 0xeff, 0x16b, 0x2d6a, 0x9ef, 0x5e3, 0x11c0, 0x2e76, 0x1623, 0x2db8, 0x1c88,
    0x740, 0x11e1, 0x12a3, 0x977, 0x1110, 0x2163, 0x2dee, 0x47b, 0x2aa5, 0x2a22, 0x1231, 0x16e7,
    0x1626, 0x12e0, 0x1d28, 0xe96, 0xb62, 0x21d0, 0xf09, 0xb30, 0xcb8, 0x2981, 0x2648, 0x155d,
    0x27ee, 0xb34, 0x169, 0x1574, 0x1fe6, 0x25f4, 0x151d, 0x1801, 0x1f13, 0x1308, 0x2929, 0x6eb,
    0x25e, 0x2cca, 0x1e3e, 0x248f,
];

/// Both tables hold reduced values at index k, and IROOTS[k] is the Montgomery
/// form of the inverse of the element that ROOTS[k] stands for:
/// ROOTS[k] * IROOTS[k] ≡ R^2 (mod q).
#[verifier::opaque]
pub open spec fn root_pair_ok(k: int) -> bool {
    &&& 0 <= ROOTS[k] < 12289
    &&& 0 <= IROOTS[k] < 12289
    &&& (ROOTS[k] * IROOTS[k]) % 12289 == 5664
}

proof fn lemma_root_pairs_0(k: int)
    requires
        1 <= k < 64,
    ensures
        root_pair_ok(k),
{
    assert(root_pair_ok(1) && root_pair_ok(2) && root_pair_ok(3) && root_pair_ok(4) && root_pair_ok(5) && root_pair_ok(6) && root_pair_ok(7) && root_pair_ok(8) && root_pair_ok(9) && root_pair_ok(10) && root_pair_ok(11) && root_pair_ok(12) && root_pair_ok(13) && root_pair_ok(14) && root_pair_ok(15) && root_pair_ok(16) && root_pair_ok(17) && root_pair_ok(18) && root_pair_ok(19) && root_pair_ok(20) && root_pair_ok(21) && root_pair_ok(22) && root_pair_ok(23) && root_pair_ok(24) && root_pair_ok(25) && root_pair_ok(26) && root_pair_ok(27) && root_pair_ok(28) && root_pair_ok(29) && root_pair_ok(30) && root_pair_ok(31) && root_pair_ok(32) && root_pair_ok(33) && root_pair_ok(34) && root_pair_ok(35) && root_pair_ok(36) && root_pair_ok(37) && root_pair_ok(38) && root_pair_ok(39) && root_pair_ok(40) && root_pair_ok(41) && root_pair_ok(42) && root_pair_ok(43) && root_pair_ok(44) && root_pair_ok(45) && root_pair_ok(46) && root_pair_ok(47) && root_pair_ok(48) && root_pair_ok(49) && root_pair_ok(50) && root_pair_ok(51) && root_pair_ok(52) && root_pair_ok(53) && root_pair_ok(54) && root_pair_ok(55) && root_pair_ok(56) && root_pair_ok(57) && root_pair_ok(58) && root_pair_ok(59) && root_pair_ok(60) && root_pair_ok(61) && root_pair_ok(62) && root_pair_ok(63)) by {
        reveal(root_pair_ok);
    }
    assert(k == 1 || k == 2 || k == 3 || k == 4 || k == 5 || k == 6 || k == 7 || k == 8 || k == 9 || k == 10 || k == 11 || k == 12 || k == 13 || k == 14 || k == 15 || k == 16 || k == 17 || k == 18 || k == 19 || k == 20 || k == 21 || k == 22 || k == 23 || k == 24 || k == 25 || k == 26 || k == 27 || k == 28 || k == 29 || k == 30 || k == 31 || k == 32 || k == 33 || k == 34 || k == 35 || k == 36 || k == 37 || k == 38 || k == 39 || k == 40 || k == 41 || k == 42 || k == 43 || k == 44 || k == 45 || k == 46 || k == 47 || k == 48 || k == 49 || k == 50 || k == 51 || k == 52 || k == 53 || k == 54 || k == 55 || k == 56 || k == 57 || k == 58 || k == 59 || k == 60 || k == 61 || k == 62 || k == 63);
}

proof fn lemma_root_pairs_64(k: int)
    requires
        64 <= k < 128,
    ensures
        root_pair_ok(k),
{
    assert(root_pair_ok(64) && root_pair_ok(65) && root_pair_ok(66) && root_pair_ok(67) && root_pair_ok(68) && root_pair_ok(69) && root_pair_ok(70) && root_pair_ok(71) && root_pair_ok(72) && root_pair_ok(73) && root_pair_ok(74) && root_pair_ok(75) && root_pair_ok(76) && root_pair_ok(77) && root_pair_ok(78) && root_pair_ok(79) && root_pair_ok(80) && root_pair_ok(81) && root_pair_ok(82) && root_pair_ok(83) && root_pair_ok(84) && root_pair_ok(85) && root_pair_ok(86) && root_pair_ok(87) && root_pair_ok(88) && root_pair_ok(89) && root_pair_ok(90) && root_pair_ok(91) && root_pair_ok(92) && root_pair_ok(93) && root_pair_ok(94) && root_pair_ok(95) && root_pair_ok(96) && root_pair_ok(97) && root_pair_ok(98) && root_pair_ok(99) && root_pair_ok(100) && root_pair_ok(101) && root_pair_ok(102) && root_pair_ok(103) && root_pair_ok(104) && root_pair_ok(105) && root_pair_ok(106) && root_pair_ok(107) && root_pair_ok(108) && root_pair_ok(109) && root_pair_ok(110) && root_pair_ok(111) && root_pair_ok(112) && root_pair_ok(113) && root_pair_ok(114) && root_pair_ok(115) && root_pair_ok(116) && root_pair_ok(117) && root_pair_ok(118) && root_pair_ok(119) && root_pair_ok(120) && root_pair_ok(121) && root_pair_ok(122) && root_pair_ok(123) && root_pair_ok(124) && root_pair_ok(125) && root_pair_ok(126) && root_pair_ok(127)) by {
        reveal(root_pair_ok);
    }
    assert(k == 64 || k == 65 || k == 66 || k == 67 || k == 68 || k == 69 || k == 70 || k == 71 || k == 72 || k == 73 || k == 74 || k == 75 || k == 76 || k == 77 || k == 78 || k == 79 || k == 80 || k == 81 || k == 82 || k == 83 || k == 84 || k == 85 || k == 86 || k == 87 || k == 88 || k == 89 || k == 90 || k == 91 || k == 92 || k == 93 || k == 94 || k == 95 || k == 96 || k == 97 || k == 98 || k == 99 || k == 100 || k == 101 || k == 102 || k == 103 || k == 104 || k == 105 || k == 106 || k == 107 || k == 108 || k == 109 || k == 110 || k == 111 || k == 112 || k == 113 || k == 114 || k == 115 || k == 116 || k == 117 || k == 118 || k == 119 || k == 120 || k == 121 || k == 122 || k == 123 || k == 124 || k == 125 || k == 126 || k == 127);
}

proof fn lemma_root_pairs_128(k: int)
    requires
        128 <= k < 192,
    ensures
        root_pair_ok(k),
{
    assert(root_pair_ok(128) && root_pair_ok(129) && root_pair_ok(130) && root_pair_ok(131) && root_pair_ok(132) && root_pair_ok(133) && root_pair_ok(134) && root_pair_ok(135) && root_pair_ok(136) && root_pair_ok(137) && root_pair_ok(138) && root_pair_ok(139) && root_pair_ok(140) && root_pair_ok(141) && root_pair_ok(142) && root_pair_ok(143) && root_pair_ok(144) && root_pair_ok(145) && root_pair_ok(146) && root_pair_ok(147) && root_pair_ok(148) && root_pair_ok(149) && root_pair_ok(150) && root_pair_ok(151) && root_pair_ok(152) && root_pair_ok(153) && root_pair_ok(154) && root_pair_ok(155) && root_pair_ok(156) && root_pair_ok(157) && root_pair_ok(158) && root_pair_ok(159) && root_pair_ok(160) && root_pair_ok(161) && root_pair_ok(162) && root_pair_ok(163) && root_pair_ok(164) && root_pair_ok(165) && root_pair_ok(166) && root_pair_ok(167) && root_pair_ok(168) && root_pair_ok(169) && root_pair_ok(170) && root_pair_ok(171) && root_pair_ok(172) && root_pair_ok(173) && root_pair_ok(174) && root_pair_ok(175) && root_pair_ok(176) && root_pair_ok(177) && root_pair_ok(178) && root_pair_ok(179) && root_pair_ok(180) && root_pair_ok(181) && root_pair_ok(182) && root_pair_ok(183) && root_pair_ok(184) && root_pair_ok(185) && root_pair_ok(186) && root_pair_ok(187) && root_pair_ok(188) && root_pair_ok(189) && root_pair_ok(190) && root_pair_ok(191)) by {
        reveal(root_pair_ok);
    }
    assert(k == 128 || k == 129 || k == 130 || k == 131 || k == 132 || k == 133 || k == 134 || k == 135 || k == 136 || k == 137 || k == 138 || k == 139 || k == 140 || k == 141 || k == 142 || k == 143 || k == 144 || k == 145 || k == 146 || k == 147 || k == 148 || k == 149 || k == 150 || k == 151 || k == 152 || k == 153 || k == 154 || k == 155 || k == 156 || k == 157 || k == 158 || k == 159 || k == 160 || k == 161 || k == 162 || k == 163 || k == 164 || k == 165 || k == 166 || k == 167 || k == 168 || k == 169 || k == 170 || k == 171 || k == 172 || k == 173 || k == 174 || k == 175 || k == 176 || k == 177 || k == 178 || k == 179 || k == 180 || k == 181 || k == 182 || k == 183 || k == 184 || k == 185 || k == 186 || k == 187 || k == 188 || k == 189 || k == 190 || k == 191);
}

proof fn lemma_root_pairs_192(k: int)
    requires
        192 <= k < 256,
    ensures
        root_pair_ok(k),
{
    assert(root_pair_ok(192) && root_pair_ok(193) && root_pair_ok(194) && root_pair_ok(195) && root_pair_ok(196) && root_pair_ok(197) && root_pair_ok(198) && root_pair_ok(199) && root_pair_ok(200) && root_pair_ok(201) && root_pair_ok(202) && root_pair_ok(203) && root_pair_ok(204) && root_pair_ok(205) && root_pair_ok(206) && root_pair_ok(207) && root_pair_ok(208) && root_pair_ok(209) && root_pair_ok(210) && root_pair_ok(211) && root_pair_ok(212) && root_pair_ok(213) && root_pair_ok(214) && root_pair_ok(215) && root_pair_ok(216) && root_pair_ok(217) && root_pair_ok(218) && root_pair_ok(219) && root_pair_ok(220) && root_pair_ok(221) && root_pair_ok(222) && root_pair_ok(223) && root_pair_ok(224) && root_pair_ok(225) && root_pair_ok(226) && root_pair_ok(227) && root_pair_ok(228) && root_pair_ok(229) && root_pair_ok(230) && root_pair_ok(231) && root_pair_ok(232) && root_pair_ok(233) && root_pair_ok(234) && root_pair_ok(235) && root_pair_ok(236) && root_pair_ok(237) && root_pair_ok(238) && root_pair_ok(239) && root_pair_ok(240) && root_pair_ok(241) && root_pair_ok(242) && root_pair_ok(243) && root_pair_ok(244) && root_pair_ok(245) && root_pair_ok(246) && root_pair_ok(247) && root_pair_ok(248) && root_pair_ok(249) && root_pair_ok(250) && root_pair_ok(251) && root_pair_ok(252) && root_pair_ok(253) && root_pair_ok(254) && root_pair_ok(255)) by {
        reveal(root_pair_ok);
    }
    assert(k == 192 || k == 193 || k == 194 || k == 195 || k == 196 || k == 197 || k == 198 || k == 199 || k == 200 || k == 201 || k == 202 || k == 203 || k == 204 || k == 205 || k == 206 || k == 207 || k == 208 || k == 209 || k == 210 || k == 211 || k == 212 || k == 213 || k == 214 || k == 215 || k == 216 || k == 217 || k == 218 || k == 219 || k == 220 || k == 221 || k == 222 || k == 223 || k == 224 || k == 225 || k == 226 || k == 227 || k == 228 || k == 229 || k == 230 || k == 231 || k == 232 || k == 233 || k == 234 || k == 235 || k == 236 || k == 237 || k == 238 || k == 239 || k == 240 || k == 241 || k == 242 || k == 243 || k == 244 || k == 245 || k == 246 || k == 247 || k == 248 || k == 249 || k == 250 || k == 251 || k == 252 || k == 253 || k == 254 || k == 255);
}

proof fn lemma_root_pairs_256(k: int)
    requires
        256 <= k < 320,
    ensures
        root_pair_ok(k),
{
    assert(root_pair_ok(256) && root_pair_ok(257) && root_pair_ok(258) && root_pair_ok(259) && root_pair_ok(260) && root_pair_ok(261) && root_pair_ok(262) && root_pair_ok(263) && root_pair_ok(264) && root_pair_ok(265) && root_pair_ok(266) && root_pair_ok(267) && root_pair_ok(268) && root_pair_ok(269) && root_pair_ok(270) && root_pair_ok(271) && root_pair_ok(272) && root_pair_ok(273) && root_pair_ok(274) && root_pair_ok(275) && root_pair_ok(276) && root_pair_ok(277) && root_pair_ok(278) && root_pair_ok(279) && root_pair_ok(280) && root_pair_ok(281) && root_pair_ok(282) && root_pair_ok(283) && root_pair_ok(284) && root_pair_ok(285) && root_pair_ok(286) && root_pair_ok(287) && root_pair_ok(288) && root_pair_ok(289) && root_pair_ok(290) && root_pair_ok(291) && root_pair_ok(292) && root_pair_ok(293) && root_pair_ok(294) && root_pair_ok(295) && root_pair_ok(296) && root_pair_ok(297) && root_pair_ok(298) && root_pair_ok(299) && root_pair_ok(300) && root_pair_ok(301) && root_pair_ok(302) && root_pair_ok(303) && root_pair_ok(304) && root_pair_ok(305) && root_pair_ok(306) && root_pair_ok(307) && root_pair_ok(308) && root_pair_ok(309) && root_pair_ok(310) && root_pair_ok(311) && root_pair_ok(312) && root_pair_ok(313) && root_pair_ok(314) && root_pair_ok(315) && root_pair_ok(316) && root_pair_ok(317) && root_pair_ok(318) && root_pair_ok(319)) by {
        reveal(root_pair_ok);
    }
    assert(k == 256 || k == 257 || k == 258 || k == 259 || k == 260 || k == 261 || k == 262 || k == 263 || k == 264 || k == 265 || k == 266 || k == 267 || k == 268 || k == 269 || k == 270 || k == 271 || k == 272 || k == 273 || k == 274 || k == 275 || k == 276 || k == 277 || k == 278 || k == 279 || k == 280 || k == 281 || k == 282 || k == 283 || k == 284 || k == 285 || k == 286 || k == 287 || k == 288 || k == 289 || k == 290 || k == 291 || k == 292 || k == 293 || k == 294 || k == 295 || k == 296 || k == 297 || k == 298 || k == 299 || k == 300 || k == 301 || k == 302 || k == 303 || k == 304 || k == 305 || k == 306 || k == 307 || k == 308 || k == 309 || k == 310 || k == 311 || k == 312 || k == 313 || k == 314 || k == 315 || k == 316 || k == 317 || k == 318 || k == 319);
}

proof fn lemma_root_pairs_320(k: int)
    requires
        320 <= k < 384,
    ensures
        root_pair_ok(k),
{
    assert(root_pair_ok(320) && root_pair_ok(321) && root_pair_ok(322) && root_pair_ok(323) && root_pair_ok(324) && root_pair_ok(325) && root_pair_ok(326) && root_pair_ok(327) && root_pair_ok(328) && root_pair_ok(329) && root_pair_ok(330) && root_pair_ok(331) && root_pair_ok(332) && root_pair_ok(333) && root_pair_ok(334) && root_pair_ok(335) && root_pair_ok(336) && root_pair_ok(337) && root_pair_ok(338) && root_pair_ok(339) && root_pair_ok(340) && root_pair_ok(341) && root_pair_ok(342) && root_pair_ok(343) && root_pair_ok(344) && root_pair_ok(345) && root_pair_ok(346) && root_pair_ok(347) && root_pair_ok(348) && root_pair_ok(349) && root_pair_ok(350) && root_pair_ok(351) && root_pair_ok(352) && root_pair_ok(353) && root_pair_ok(354) && root_pair_ok(355) && root_pair_ok(356) && root_pair_ok(357) && root_pair_ok(358) && root_pair_ok(359) && root_pair_ok(360) && root_pair_ok(361) && root_pair_ok(362) && root_pair_ok(363) && root_pair_ok(364) && root_pair_ok(365) && root_pair_ok(366) && root_pair_ok(367) && root_pair_ok(368) && root_pair_ok(369) && root_pair_ok(370) && root_pair_ok(371) && root_pair_ok(372) && root_pair_ok(373) && root_pair_ok(374) && root_pair_ok(375) && root_pair_ok(376) && root_pair_ok(377) && root_pair_ok(378) && root_pair_ok(379) && root_pair_ok(380) && root_pair_ok(381) && root_pair_ok(382) && root_pair_ok(383)) by {
        reveal(root_pair_ok);
    }
    assert(k == 320 || k == 321 || k == 322 || k == 323 || k == 324 || k == 325 || k == 326 || k == 327 || k == 328 || k == 329 || k == 330 || k == 331 || k == 332 || k == 333 || k == 334 || k == 335 || k == 336 || k == 337 || k == 338 || k == 339 || k == 340 || k == 341 || k == 342 || k == 343 || k == 344 || k == 345 || k == 346 || k == 347 || k == 348 || k == 349 || k == 350 || k == 351 || k == 352 || k == 353 || k == 354 || k == 355 || k == 356 || k == 357 || k == 358 || k == 359 || k == 360 || k == 361 || k == 362 || k == 363 || k == 364 || k == 365 || k == 366 || k == 367 || k == 368 || k == 369 || k == 370 || k == 371 || k == 372 || k == 373 || k == 374 || k == 375 || k == 376 || k == 377 || k == 378 || k == 379 || k == 380 || k == 381 || k == 382 || k == 383);
}

proof fn lemma_root_pairs_384(k: int)
    requires
        384 <= k < 448,
    ensures
        root_pair_ok(k),
{
    assert(root_pair_ok(384) && root_pair_ok(385) && root_pair_ok(386) && root_pair_ok(387) && root_pair_ok(388) && root_pair_ok(389) && root_pair_ok(390) && root_pair_ok(391) && root_pair_ok(392) && root_pair_ok(393) && root_pair_ok(394) && root_pair_ok(395) && root_pair_ok(396) && root_pair_ok(397) && root_pair_ok(398) && root_pair_ok(399) && root_pair_ok(400) && root_pair_ok(401) && root_pair_ok(402) && root_pair_ok(403) && root_pair_ok(404) && root_pair_ok(405) && root_pair_ok(406) && root_pair_ok(407) && root_pair_ok(408) && root_pair_ok(409) && root_pair_ok(410) && root_pair_ok(411) && root_pair_ok(412) && root_pair_ok(413) && root_pair_ok(414) && root_pair_ok(415) && root_pair_ok(416) && root_pair_ok(417) && root_pair_ok(418) && root_pair_ok(419) && root_pair_ok(420) && root_pair_ok(421) && root_pair_ok(422) && root_pair_ok(423) && root_pair_ok(424) && root_pair_ok(425) && root_pair_ok(426) && root_pair_ok(427) && root_pair_ok(428) && root_pair_ok(429) && root_pair_ok(430) && root_pair_ok(431) && root_pair_ok(432) && root_pair_ok(433) && root_pair_ok(434) && root_pair_ok(435) && root_pair_ok(436) && root_pair_ok(437) && root_pair_ok(438) && root_pair_ok(439) && root_pair_ok(440) && root_pair_ok(441) && root_pair_ok(442) && root_pair_ok(443) && root_pair_ok(444) && root_pair_ok(445) && root_pair_ok(446) && root_pair_ok(447)) by {
        reveal(root_pair_ok);
    }
    assert(k == 384 || k == 385 || k == 386 || k == 387 || k == 388 || k == 389 || k == 390 || k == 391 || k == 392 || k == 393 || k == 394 || k == 395 || k == 396 || k == 397 || k == 398 || k == 399 || k == 400 || k == 401 || k == 402 || k == 403 || k == 404 || k == 405 || k == 406 || k == 407 || k == 408 || k == 409 || k == 410 || k == 411 || k == 412 || k == 413 || k == 414 || k == 415 || k == 416 || k == 417 || k == 418 || k == 419 || k == 420 || k == 421 || k == 422 || k == 423 || k == 424 || k == 425 || k == 426 || k == 427 || k == 428 || k == 429 || k == 430 || k == 431 || k == 432 || k == 433 || k == 434 || k == 435 || k == 436 || k == 437 || k == 438 || k == 439 || k == 440 || k == 441 || k == 442 || k == 443 || k == 444 || k == 445 || k == 446 || k == 447);
}

proof fn lemma_root_pairs_448(k: int)
    requires
        448 <= k < 512,
    ensures
        root_pair_ok(k),
{
    assert(root_pair_ok(448) && root_pair_ok(449) && root_pair_ok(450) && root_pair_ok(451) && root_pair_ok(452) && root_pair_ok(453) && root_pair_ok(454) && root_pair_ok(455) && root_pair_ok(456) && root_pair_ok(457) && root_pair_ok(458) && root_pair_ok(459) && root_pair_ok(460) && root_pair_ok(461) && root_pair_ok(462) && root_pair_ok(463) && root_pair_ok(464) && root_pair_ok(465) && root_pair_ok(466) && root_pair_ok(467) && root_pair_ok(468) && root_pair_ok(469) && root_pair_ok(470) && root_pair_ok(471) && root_pair_ok(472) && root_pair_ok(473) && root_pair_ok(474) && root_pair_ok(475) && root_pair_ok(476) && root_pair_ok(477) && root_pair_ok(478) && root_pair_ok(479) && root_pair_ok(480) && root_pair_ok(481) && root_pair_ok(482) && root_pair_ok(483) && root_pair_ok(484) && root_pair_ok(485) && root_pair_ok(486) && root_pair_ok(487) && root_pair_ok(488) && root_pair_ok(489) && root_pair_ok(490) && root_pair_ok(491) && root_pair_ok(492) && root_pair_ok(493) && root_pair_ok(494) && root_pair_ok(495) && root_pair_ok(496) && root_pair_ok(497) && root_pair_ok(498) && root_pair_ok(499) && root_pair_ok(500) && root_pair_ok(501) && root_pair_ok(502) && root_pair_ok(503) && root_pair_ok(504) && root_pair_ok(505) && root_pair_ok(506) && root_pair_ok(507) && root_pair_ok(508) && root_pair_ok(509) && root_pair_ok(510) && root_pair_ok(511)) by {
        reveal(root_pair_ok);
    }
    assert(k == 448 || k == 449 || k == 450 || k == 451 || k == 452 || k == 453 || k == 454 || k == 455 || k == 456 || k == 457 || k == 458 || k == 459 || k == 460 || k == 461 || k == 462 || k == 463 || k == 464 || k == 465 || k == 466 || k == 467 || k == 468 || k == 469 || k == 470 || k == 471 || k == 472 || k == 473 || k == 474 || k == 475 || k == 476 || k == 477 || k == 478 || k == 479 || k == 480 || k == 481 || k == 482 || k == 483 || k == 484 || k == 485 || k == 486 || k == 487 || k == 488 || k == 489 || k == 490 || k == 491 || k == 492 || k == 493 || k == 494 || k == 495 || k == 496 || k == 497 || k == 498 || k == 499 || k == 500 || k == 501 || k == 502 || k == 503 || k == 504 || k == 505 || k == 506 || k == 507 || k == 508 || k == 509 || k == 510 || k == 511);
}

proof fn lemma_root_pairs_512(k: int)
    requires
        512 <= k < 576,
    ensures
        root_pair_ok(k),
{
    assert(root_pair_ok(512) && root_pair_ok(513) && root_pair_ok(514) && root_pair_ok(515) && root_pair_ok(516) && root_pair_ok(517) && root_pair_ok(518) && root_pair_ok(519) && root_pair_ok(520) && root_pair_ok(521) && root_pair_ok(522) && root_pair_ok(523) && root_pair_ok(524) && root_pair_ok(525) && root_pair_ok(526) && root_pair_ok(527) && root_pair_ok(528) && root_pair_ok(529) && root_pair_ok(530) && root_pair_ok(531) && root_pair_ok(532) && root_pair_ok(533) && root_pair_ok(534) && root_pair_ok(535) && root_pair_ok(536) && root_pair_ok(537) && root_pair_ok(538) && root_pair_ok(539) && root_pair_ok(540) && root_pair_ok(541) && root_pair_ok(542) && root_pair_ok(543) && root_pair_ok(544) && root_pair_ok(545) && root_pair_ok(546) && root_pair_ok(547) && root_pair_ok(548) && root_pair_ok(549) && root_pair_ok(550) && root_pair_ok(551) && root_pair_ok(552) && root_pair_ok(553) && root_pair_ok(554) && root_pair_ok(555) && root_pair_ok(556) && root_pair_ok(557) && root_pair_ok(558) && root_pair_ok(559) && root_pair_ok(560) && root_pair_ok(561) && root_pair_ok(562) && root_pair_ok(563) && root_pair_ok(564) && root_pair_ok(565) && root_pair_ok(566) && root_pair_ok(567) && root_pair_ok(568) && root_pair_ok(569) && root_pair_ok(570) && root_pair_ok(571) && root_pair_ok(572) && root_pair_ok(573) && root_pair_ok(574) && root_pair_ok(575)) by {
        reveal(root_pair_ok);
    }
    assert(k == 512 || k == 513 || k == 514 || k == 515 || k == 516 || k == 517 || k == 518 || k == 519 || k == 520 || k == 521 || k == 522 || k == 523 || k == 524 || k == 525 || k == 526 || k == 527 || k == 528 || k == 529 || k == 530 || k == 531 || k == 532 || k == 533 || k == 534 || k == 535 || k == 536 || k == 537 || k == 538 || k == 539 || k == 540 || k == 541 || k == 542 || k == 543 || k == 544 || k == 545 || k == 546 || k == 547 || k == 548 || k == 549 || k == 550 || k == 551 || k == 552 || k == 553 || k == 554 || k == 555 || k == 556 || k == 557 || k == 558 || k == 559 || k == 560 || k == 561 || k == 562 || k == 563 || k == 564 || k == 565 || k == 566 || k == 567 || k == 568 || k == 569 || k == 570 || k == 571 || k == 572 || k == 573 || k == 574 || k == 575);
}

proof fn lemma_root_pairs_576(k: int)
    requires
        576 <= k < 640,
    ensures
        root_pair_ok(k),
{
    assert(root_pair_ok(576) && root_pair_ok(577) && root_pair_ok(578) && root_pair_ok(579) && root_pair_ok(580) && root_pair_ok(581) && root_pair_ok(582) && root_pair_ok(583) && root_pair_ok(584) && root_pair_ok(585) && root_pair_ok(586) && root_pair_ok(587) && root_pair_ok(588) && root_pair_ok(589) && root_pair_ok(590) && root_pair_ok(591) && root_pair_ok(592) && root_pair_ok(593) && root_pair_ok(594) && root_pair_ok(595) && root_pair_ok(596) && root_pair_ok(597) && root_pair_ok(598) && root_pair_ok(599) && root_pair_ok(600) && root_pair_ok(601) && root_pair_ok(602) && root_pair_ok(603) && root_pair_ok(604) && root_pair_ok(605) && root_pair_ok(606) && root_pair_ok(607) && root_pair_ok(608) && root_pair_ok(609) && root_pair_ok(610) && root_pair_ok(611) && root_pair_ok(612) && root_pair_ok(613) && root_pair_ok(614) && root_pair_ok(615) && root_pair_ok(616) && root_pair_ok(617) && root_pair_ok(618) && root_pair_ok(619) && root_pair_ok(620) && root_pair_ok(621) && root_pair_ok(622) && root_pair_ok(623) && root_pair_ok(624) && root_pair_ok(625) && root_pair_ok(626) && root_pair_ok(627) && root_pair_ok(628) && root_pair_ok(629) && root_pair_ok(630) && root_pair_ok(631) && root_pair_ok(632) && root_pair_ok(633) && root_pair_ok(634) && root_pair_ok(635) && root_pair_ok(636) && root_pair_ok(637) && root_pair_ok(638) && root_pair_ok(639)) by {
        reveal(root_pair_ok);
    }
    assert(k == 576 || k == 577 || k == 578 || k == 579 || k == 580 || k == 581 || k == 582 || k == 583 || k == 584 || k == 585 || k == 586 || k == 587 || k == 588 || k == 589 || k == 590 || k == 591 || k == 592 || k == 593 || k == 594 || k == 595 || k == 596 || k == 597 || k == 598 || k == 599 || k == 600 || k == 601 || k == 602 || k == 603 || k == 604 || k == 605 || k == 606 || k == 607 || k == 608 || k == 609 || k == 610 || k == 611 || k == 612 || k == 613 || k == 614 || k == 615 || k == 616 || k == 617 || k == 618 || k == 619 || k == 620 || k == 621 || k == 622 || k == 623 || k == 624 || k == 625 || k == 626 || k == 627 || k == 628 || k == 629 || k == 630 || k == 631 || k == 632 || k == 633 || k == 634 || k == 635 || k == 636 || k == 637 || k == 638 || k == 639);
}

proof fn lemma_root_pairs_640(k: int)
    requires
        640 <= k < 704,
    ensures
        root_pair_ok(k),
{
    assert(root_pair_ok(640) && root_pair_ok(641) && root_pair_ok(642) && root_pair_ok(643) && root_pair_ok(644) && root_pair_ok(645) && root_pair_ok(646) && root_pair_ok(647) && root_pair_ok(648) && root_pair_ok(649) && root_pair_ok(650) && root_pair_ok(651) && root_pair_ok(652) && root_pair_ok(653) && root_pair_ok(654) && root_pair_ok(655) && root_pair_ok(656) && root_pair_ok(657) && root_pair_ok(658) && root_pair_ok(659) && root_pair_ok(660) && root_pair_ok(661) && root_pair_ok(662) && root_pair_ok(663) && root_pair_ok(664) && root_pair_ok(665) && root_pair_ok(666) && root_pair_ok(667) && root_pair_ok(668) && root_pair_ok(669) && root_pair_ok(670) && root_pair_ok(671) && root_pair_ok(672) && root_pair_ok(673) && root_pair_ok(674) && root_pair_ok(675) && root_pair_ok(676) && root_pair_ok(677) && root_pair_ok(678) && root_pair_ok(679) && root_pair_ok(680) && root_pair_ok(681) && root_pair_ok(682) && root_pair_ok(683) && root_pair_ok(684) && root_pair_ok(685) && root_pair_ok(686) && root_pair_ok(687) && root_pair_ok(688) && root_pair_ok(689) && root_pair_ok(690) && root_pair_ok(691) && root_pair_ok(692) && root_pair_ok(693) && root_pair_ok(694) && root_pair_ok(695) && root_pair_ok(696) && root_pair_ok(697) && root_pair_ok(698) && root_pair_ok(699) && root_pair_ok(700) && root_pair_ok(701) && root_pair_ok(702) && root_pair_ok(703)) by {
        reveal(root_pair_ok);
    }
    assert(k == 640 || k == 641 || k == 642 || k == 643 || k == 644 || k == 645 || k == 646 || k == 647 || k == 648 || k == 649 || k == 650 || k == 651 || k == 652 || k == 653 || k == 654 || k == 655 || k == 656 || k == 657 || k == 658 || k == 659 || k == 660 || k == 661 || k == 662 || k == 663 || k == 664 || k == 665 || k == 666 || k == 667 || k == 668 || k == 669 || k == 670 || k == 671 || k == 672 || k == 673 || k == 674 || k == 675 || k == 676 || k == 677 || k == 678 || k == 679 || k == 680 || k == 681 || k == 682 || k == 683 || k == 684 || k == 685 || k == 686 || k == 687 || k == 688 || k == 689 || k == 690 || k == 691 || k == 692 || k == 693 || k == 694 || k == 695 || k == 696 || k == 697 || k == 698 || k == 699 || k == 700 || k == 701 || k == 702 || k == 703);
}

proof fn lemma_root_pairs_704(k: int)
    requires
        704 <= k < 768,
    ensures
        root_pair_ok(k),
{
    assert(root_pair_ok(704) && root_pair_ok(705) && root_pair_ok(706) && root_pair_ok(707) && root_pair_ok(708) && root_pair_ok(709) && root_pair_ok(710) && root_pair_ok(711) && root_pair_ok(712) && root_pair_ok(713) && root_pair_ok(714) && root_pair_ok(715) && root_pair_ok(716) && root_pair_ok(717) && root_pair_ok(718) && root_pair_ok(719) && root_pair_ok(720) && root_pair_ok(721) && root_pair_ok(722) && root_pair_ok(723) && root_pair_ok(724) && root_pair_ok(725) && root_pair_ok(726) && root_pair_ok(727) && root_pair_ok(728) && root_pair_ok(729) && root_pair_ok(730) && root_pair_ok(731) && root_pair_ok(732) && root_pair_ok(733) && root_pair_ok(734) && root_pair_ok(735) && root_pair_ok(736) && root_pair_ok(737) && root_pair_ok(738) && root_pair_ok(739) && root_pair_ok(740) && root_pair_ok(741) && root_pair_ok(742) && root_pair_ok(743) && root_pair_ok(744) && root_pair_ok(745) && root_pair_ok(746) && root_pair_ok(747) && root_pair_ok(748) && root_pair_ok(749) && root_pair_ok(750) && root_pair_ok(751) && root_pair_ok(752) && root_pair_ok(753) && root_pair_ok(754) && root_pair_ok(755) && root_pair_ok(756) && root_pair_ok(757) && root_pair_ok(758) && root_pair_ok(759) && root_pair_ok(760) && root_pair_ok(761) && root_pair_ok(762) && root_pair_ok(763) && root_pair_ok(764) && root_pair_ok(765) && root_pair_ok(766) && root_pair_ok(767)) by {
        reveal(root_pair_ok);
    }
    assert(k == 704 || k == 705 || k == 706 || k == 707 || k == 708 || k == 709 || k == 710 || k == 711 || k == 712 || k == 713 || k == 714 || k == 715 || k == 716 || k == 717 || k == 718 || k == 719 || k == 720 || k == 721 || k == 722 || k == 723 || k == 724 || k == 725 || k == 726 || k == 727 || k == 728 || k == 729 || k == 730 || k == 731 || k == 732 || k == 733 || k == 734 || k == 735 || k == 736 || k == 737 || k == 738 || k == 739 || k == 740 || k == 741 || k == 742 || k == 743 || k == 744 || k == 745 || k == 746 || k == 747 || k == 748 || k == 749 || k == 750 || k == 751 || k == 752 || k == 753 || k == 754 || k == 755 || k == 756 || k == 757 || k == 758 || k == 759 || k == 760 || k == 761 || k == 762 || k == 763 || k == 764 || k == 765 || k == 766 || k == 767);
}

proof fn lemma_root_pairs_768(k: int)
    requires
        768 <= k < 832,
    ensures
        root_pair_ok(k),
{
    assert(root_pair_ok(768) && root_pair_ok(769) && root_pair_ok(770) && root_pair_ok(771) && root_pair_ok(772) && root_pair_ok(773) && root_pair_ok(774) && root_pair_ok(775) && root_pair_ok(776) && root_pair_ok(777) && root_pair_ok(778) && root_pair_ok(779) && root_pair_ok(780) && root_pair_ok(781) && root_pair_ok(782) && root_pair_ok(783) && root_pair_ok(784) && root_pair_ok(785) && root_pair_ok(786) && root_pair_ok(787) && root_pair_ok(788) && root_pair_ok(789) && root_pair_ok(790) && root_pair_ok(791) && root_pair_ok(792) && root_pair_ok(793) && root_pair_ok(794) && root_pair_ok(795) && root_pair_ok(796) && root_pair_ok(797) && root_pair_ok(798) && root_pair_ok(799) && root_pair_ok(800) && root_pair_ok(801) && root_pair_ok(802) && root_pair_ok(803) && root_pair_ok(804) && root_pair_ok(805) && root_pair_ok(806) && root_pair_ok(807) && root_pair_ok(808) && root_pair_ok(809) && root_pair_ok(810) && root_pair_ok(811) && root_pair_ok(812) && root_pair_ok(813) && root_pair_ok(814) && root_pair_ok(815) && root_pair_ok(816) && root_pair_ok(817) && root_pair_ok(818) && root_pair_ok(819) && root_pair_ok(820) && root_pair_ok(821) && root_pair_ok(822) && root_pair_ok(823) && root_pair_ok(824) && root_pair_ok(825) && root_pair_ok(826) && root_pair_ok(827) && root_pair_ok(828) && root_pair_ok(829) && root_pair_ok(830) && root_pair_ok(831)) by {
        reveal(root_pair_ok);
    }
    assert(k == 768 || k == 769 || k == 770 || k == 771 || k == 772 || k == 773 || k == 774 || k == 775 || k == 776 || k == 777 || k == 778 || k == 779 || k == 780 || k == 781 || k == 782 || k == 783 || k == 784 || k == 785 || k == 786 || k == 787 || k == 788 || k == 789 || k == 790 || k == 791 || k == 792 || k == 793 || k == 794 || k == 795 || k == 796 || k == 797 || k == 798 || k == 799 || k == 800 || k == 801 || k == 802 || k == 803 || k == 804 || k == 805 || k == 806 || k == 807 || k == 808 || k == 809 || k == 810 || k == 811 || k == 812 || k == 813 || k == 814 || k == 815 || k == 816 || k == 817 || k == 818 || k == 819 || k == 820 || k == 821 || k == 822 || k == 823 || k == 824 || k == 825 || k == 826 || k == 827 || k == 828 || k == 829 || k == 830 || k == 831);
}

proof fn lemma_root_pairs_832(k: int)
    requires
        832 <= k < 896,
    ensures
        root_pair_ok(k),
{
    assert(root_pair_ok(832) && root_pair_ok(833) && root_pair_ok(834) && root_pair_ok(835) && root_pair_ok(836) && root_pair_ok(837) && root_pair_ok(838) && root_pair_ok(839) && root_pair_ok(840) && root_pair_ok(841) && root_pair_ok(842) && root_pair_ok(843) && root_pair_ok(844) && root_pair_ok(845) && root_pair_ok(846) && root_pair_ok(847) && root_pair_ok(848) && root_pair_ok(849) && root_pair_ok(850) && root_pair_ok(851) && root_pair_ok(852) && root_pair_ok(853) && root_pair_ok(854) && root_pair_ok(855) && root_pair_ok(856) && root_pair_ok(857) && root_pair_ok(858) && root_pair_ok(859) && root_pair_ok(860) && root_pair_ok(861) && root_pair_ok(862) && root_pair_ok(863) && root_pair_ok(864) && root_pair_ok(865) && root_pair_ok(866) && root_pair_ok(867) && root_pair_ok(868) && root_pair_ok(869) && root_pair_ok(870) && root_pair_ok(871) && root_pair_ok(872) && root_pair_ok(873) && root_pair_ok(874) && root_pair_ok(875) && root_pair_ok(876) && root_pair_ok(877) && root_pair_ok(878) && root_pair_ok(879) && root_pair_ok(880) && root_pair_ok(881) && root_pair_ok(882) && root_pair_ok(883) && root_pair_ok(884) && root_pair_ok(885) && root_pair_ok(886) && root_pair_ok(887) && root_pair_ok(888) && root_pair_ok(889) && root_pair_ok(890) && root_pair_ok(891) && root_pair_ok(892) && root_pair_ok(893) && root_pair_ok(894) && root_pair_ok(895)) by {
        reveal(root_pair_ok);
    }
    assert(k == 832 || k == 833 || k == 834 || k == 835 || k == 836 || k == 837 || k == 838 || k == 839 || k == 840 || k == 841 || k == 842 || k == 843 || k == 844 || k == 845 || k == 846 || k == 847 || k == 848 || k == 849 || k == 850 || k == 851 || k == 852 || k == 853 || k == 854 || k == 855 || k == 856 || k == 857 || k == 858 || k == 859 || k == 860 || k == 861 || k == 862 || k == 863 || k == 864 || k == 865 || k == 866 || k == 867 || k == 868 || k == 869 || k == 870 || k == 871 || k == 872 || k == 873 || k == 874 || k == 875 || k == 876 || k == 877 || k == 878 || k == 879 || k == 880 || k == 881 || k == 882 || k == 883 || k == 884 || k == 885 || k == 886 || k == 887 || k == 888 || k == 889 || k == 890 || k == 891 || k == 892 || k == 893 || k == 894 || k == 895);
}

proof fn lemma_root_pairs_896(k: int)
    requires
        896 <= k < 960,
    ensures
        root_pair_ok(k),
{
    assert(root_pair_ok(896) && root_pair_ok(897) && root_pair_ok(898) && root_pair_ok(899) && root_pair_ok(900) && root_pair_ok(901) && root_pair_ok(902) && root_pair_ok(903) && root_pair_ok(904) && root_pair_ok(905) && root_pair_ok(906) && root_pair_ok(907) && root_pair_ok(908) && root_pair_ok(909) && root_pair_ok(910) && root_pair_ok(911) && root_pair_ok(912) && root_pair_ok(913) && root_pair_ok(914) && root_pair_ok(915) && root_pair_ok(916) && root_pair_ok(917) && root_pair_ok(918) && root_pair_ok(919) && root_pair_ok(920) && root_pair_ok(921) && root_pair_ok(922) && root_pair_ok(923) && root_pair_ok(924) && root_pair_ok(925) && root_pair_ok(926) && root_pair_ok(927) && root_pair_ok(928) && root_pair_ok(929) && root_pair_ok(930) && root_pair_ok(931) && root_pair_ok(932) && root_pair_ok(933) && root_pair_ok(934) && root_pair_ok(935) && root_pair_ok(936) && root_pair_ok(937) && root_pair_ok(938) && root_pair_ok(939) && root_pair_ok(940) && root_pair_ok(941) && root_pair_ok(942) && root_pair_ok(943) && root_pair_ok(944) && root_pair_ok(945) && root_pair_ok(946) && root_pair_ok(947) && root_pair_ok(948) && root_pair_ok(949) && root_pair_ok(950) && root_pair_ok(951) && root_pair_ok(952) && root_pair_ok(953) && root_pair_ok(954) && root_pair_ok(955) && root_pair_ok(956) && root_pair_ok(957) && root_pair_ok(958) && root_pair_ok(959)) by {
        reveal(root_pair_ok);
    }
    assert(k == 896 || k == 897 || k == 898 || k == 899 || k == 900 || k == 901 || k == 902 || k == 903 || k == 904 || k == 905 || k == 906 || k == 907 || k == 908 || k == 909 || k == 910 || k == 911 || k == 912 || k == 913 || k == 914 || k == 915 || k == 916 || k == 917 || k == 918 || k == 919 || k == 920 || k == 921 || k == 922 || k == 923 || k == 924 || k == 925 || k == 926 || k == 927 || k == 928 || k == 929 || k == 930 || k == 931 || k == 932 || k == 933 || k == 934 || k == 935 || k == 936 || k == 937 || k == 938 || k == 939 || k == 940 || k == 941 || k == 942 || k == 943 || k == 944 || k == 945 || k == 946 || k == 947 || k == 948 || k == 949 || k == 950 || k == 951 || k == 952 || k == 953 || k == 954 || k == 955 || k == 956 || k == 957 || k == 958 || k == 959);
}

proof fn lemma_root_pairs_960(k: int)
    requires
        960 <= k < 1024,
    ensures
        root_pair_ok(k),
{
    assert(root_pair_ok(960) && root_pair_ok(961) && root_pair_ok(962) && root_pair_ok(963) && root_pair_ok(964) && root_pair_ok(965) && root_pair_ok(966) && root_pair_ok(967) && root_pair_ok(968) && root_pair_ok(969) && root_pair_ok(970) && root_pair_ok(971) && root_pair_ok(972) && root_pair_ok(973) && root_pair_ok(974) && root_pair_ok(975) && root_pair_ok(976) && root_pair_ok(977) && root_pair_ok(978) && root_pair_ok(979) && root_pair_ok(980) && root_pair_ok(981) && root_pair_ok(982) && root_pair_ok(983) && root_pair_ok(984) && root_pair_ok(985) && root_pair_ok(986) && root_pair_ok(987) && root_pair_ok(988) && root_pair_ok(989) && root_pair_ok(990) && root_pair_ok(991) && root_pair_ok(992) && root_pair_ok(993) && root_pair_ok(994) && root_pair_ok(995) && root_pair_ok(996) && root_pair_ok(997) && root_pair_ok(998) && root_pair_ok(999) && root_pair_ok(1000) && root_pair_ok(1001) && root_pair_ok(1002) && root_pair_ok(1003) && root_pair_ok(1004) && root_pair_ok(1005) && root_pair_ok(1006) && root_pair_ok(1007) && root_pair_ok(1008) && root_pair_ok(1009) && root_pair_ok(1010) && root_pair_ok(1011) && root_pair_ok(1012) && root_pair_ok(1013) && root_pair_ok(1014) && root_pair_ok(1015) && root_pair_ok(1016) && root_pair_ok(1017) && root_pair_ok(1018) && root_pair_ok(1019) && root_pair_ok(1020) && root_pair_ok(1021) && root_pair_ok(1022) && root_pair_ok(1023)) by {
        reveal(root_pair_ok);
    }
    assert(k == 960 || k == 961 || k == 962 || k == 963 || k == 964 || k == 965 || k == 966 || k == 967 || k == 968 || k == 969 || k == 970 || k == 971 || k == 972 || k == 973 || k == 974 || k == 975 || k == 976 || k == 977 || k == 978 || k == 979 || k == 980 || k == 981 || k == 982 || k == 983 || k == 984 || k == 985 || k == 986 || k == 987 || k == 988 || k == 989 || k == 990 || k == 991 || k == 992 || k == 993 || k == 994 || k == 995 || k == 996 || k == 997 || k == 998 || k == 999 || k == 1000 || k == 1001 || k == 1002 || k == 1003 || k == 1004 || k == 1005 || k == 1006 || k == 1007 || k == 1008 || k == 1009 || k == 1010 || k == 1011 || k == 1012 || k == 1013 || k == 1014 || k == 1015 || k == 1016 || k == 1017 || k == 1018 || k == 1019 || k == 1020 || k == 1021 || k == 1022 || k == 1023);
}

/// Every index that the transforms use satisfies `root_pair_ok`.
pub proof fn lemma_root_pair(k: int)
    requires
        1 <= k < 1024,
    ensures
        0 <= ROOTS[k] < 12289,
        0 <= IROOTS[k] < 12289,
        (ROOTS[k] * IROOTS[k]) % 12289 == 5664,
{
    if k < 512 {
        if k < 256 {
            if k < 128 {
                if k < 64 {
                    lemma_root_pairs_0(k);
                } else {
                    lemma_root_pairs_64(k);
                }
            } else {
                if k < 192 {
                    lemma_root_pairs_128(k);
                } else {
                    lemma_root_pairs_192(k);
                }
            }
        } else {
            if k < 384 {
                if k < 320 {
                    lemma_root_pairs_256(k);
                } else {
                    lemma_root_pairs_320(k);
                }
            } else {
                if k < 448 {
                    lemma_root_pairs_384(k);
                } else {
                    lemma_root_pairs_448(k);
                }
            }
        }
    } else {
        if k < 768 {
            if k < 640 {
                if k < 576 {
                    lemma_root_pairs_512(k);
                } else {
                    lemma_root_pairs_576(k);
                }
            } else {
                if k < 704 {
                    lemma_root_pairs_640(k);
                } else {
                    lemma_root_pairs_704(k);
                }
            }
        } else {
            if k < 896 {
                if k < 832 {
                    lemma_root_pairs_768(k);
                } else {
                    lemma_root_pairs_832(k);
                }
            } else {
                if k < 960 {
                    lemma_root_pairs_896(k);
                } else {
                    lemma_root_pairs_960(k);
                }
            }
        }
    }
    reveal(root_pair_ok);
}

/// ROOTS[k] is a square root, in Montgomery form, of the element that ROOTS[p]
/// stands for, times the sign sg: ROOTS[k]^2 ≡ sg ROOTS[p] R (mod q).
#[verifier::opaque]
pub open spec fn root_square_ok(k: int, p: int, sg: int) -> bool {
    (ROOTS[k] * ROOTS[k] - sg * ROOTS[p] * 10952) % 12289 == 0
}

proof fn lemma_root_squares_0(k: int)
    requires
        2 <= k < 64,
    ensures
        root_square_ok(k, k / 2, if k % 2 == 0 { 1int } else { -1int }),
{
    assert(root_square_ok(2, 1, 1) && root_square_ok(3, 1, -1) && root_square_ok(4, 2, 1) && root_square_ok(5, 2, -1) && root_square_ok(6, 3, 1) && root_square_ok(7, 3, -1) && root_square_ok(8, 4, 1) && root_square_ok(9, 4, -1) && root_square_ok(10, 5, 1) && root_square_ok(11, 5, -1) && root_square_ok(12, 6, 1) && root_square_ok(13, 6, -1) && root_square_ok(14, 7, 1) && root_square_ok(15, 7, -1) && root_square_ok(16, 8, 1) && root_square_ok(17, 8, -1) && root_square_ok(18, 9, 1) && root_square_ok(19, 9, -1) && root_square_ok(20, 10, 1) && root_square_ok(21, 10, -1) && root_square_ok(22, 11, 1) && root_square_ok(23, 11, -1) && root_square_ok(24, 12, 1) && root_square_ok(25, 12, -1) && root_square_ok(26, 13, 1) && root_square_ok(27, 13, -1) && root_square_ok(28, 14, 1) && root_square_ok(29, 14, -1) && root_square_ok(30, 15, 1) && root_square_ok(31, 15, -1) && root_square_ok(32, 16, 1) && root_square_ok(33, 16, -1) && root_square_ok(34, 17, 1) && root_square_ok(35, 17, -1) && root_square_ok(36, 18, 1) && root_square_ok(37, 18, -1) && root_square_ok(38, 19, 1) && root_square_ok(39, 19, -1) && root_square_ok(40, 20, 1) && root_square_ok(41, 20, -1) && root_square_ok(42, 21, 1) && root_square_ok(43, 21, -1) && root_square_ok(44, 22, 1) && root_square_ok(45, 22, -1) && root_square_ok(46, 23, 1) && root_square_ok(47, 23, -1) && root_square_ok(48, 24, 1) && root_square_ok(49, 24, -1) && root_square_ok(50, 25, 1) && root_square_ok(51, 25, -1) && root_square_ok(52, 26, 1) && root_square_ok(53, 26, -1) && root_square_ok(54, 27, 1) && root_square_ok(55, 27, -1) && root_square_ok(56, 28, 1) && root_square_ok(57, 28, -1) && root_square_ok(58, 29, 1) && root_square_ok(59, 29, -1) && root_square_ok(60, 30, 1) && root_square_ok(61, 30, -1) && root_square_ok(62, 31, 1) && root_square_ok(63, 31, -1)) by {
        reveal(root_square_ok);
        assert(ROOTS[2] * ROOTS[2] - (1) * ROOTS[1] * 10952 == 12289 * (-735) && ROOTS[3] * ROOTS[3] - (-1) * ROOTS[1] * 10952 == 12289 * (10193) && ROOTS[4] * ROOTS[4] - (1) * ROOTS[2] * 10952 == 12289 * (2296) && ROOTS[5] * ROOTS[5] - (-1) * ROOTS[2] * 10952 == 12289 * (11969) && ROOTS[6] * ROOTS[6] - (1) * ROOTS[3] * 10952 == 12289 * (9449) && ROOTS[7] * ROOTS[7] - (-1) * ROOTS[3] * 10952 == 12289 * (8673) && ROOTS[8] * ROOTS[8] - (1) * ROOTS[4] * 10952 == 12289 * (-5648) && ROOTS[9] * ROOTS[9] - (-1) * ROOTS[4] * 10952 == 12289 * (11337) && ROOTS[10] * ROOTS[10] - (1) * ROOTS[5] * 10952 == 12289 * (4753) && ROOTS[11] * ROOTS[11] - (-1) * ROOTS[5] * 10952 == 12289 * (4945) && ROOTS[12] * ROOTS[12] - (1) * ROOTS[6] * 10952 == 12289 * (-10255) && ROOTS[13] * ROOTS[13] - (-1) * ROOTS[6] * 10952 == 12289 * (10568) && ROOTS[14] * ROOTS[14] - (1) * ROOTS[7] * 10952 == 12289 * (-6455) && ROOTS[15] * ROOTS[15] - (-1) * ROOTS[7] * 10952 == 12289 * (10892) && ROOTS[16] * ROOTS[16] - (1) * ROOTS[8] * 10952 == 12289 * (-3871) && ROOTS[17] * ROOTS[17] - (-1) * ROOTS[8] * 10952 == 12289 * (16689) && ROOTS[18] * ROOTS[18] - (1) * ROOTS[9] * 10952 == 12289 * (1848) && ROOTS[19] * ROOTS[19] - (-1) * ROOTS[9] * 10952 == 12289 * (3196) && ROOTS[20] * ROOTS[20] - (1) * ROOTS[10] * 10952 == 12289 * (-8932) && ROOTS[21] * ROOTS[21] - (-1) * ROOTS[10] * 10952 == 12289 * (15224) && ROOTS[22] * ROOTS[22] - (1) * ROOTS[11] * 10952 == 12289 * (-503) && ROOTS[23] * ROOTS[23] - (-1) * ROOTS[11] * 10952 == 12289 * (4076) && ROOTS[24] * ROOTS[24] - (1) * ROOTS[12] * 10952 == 12289 * (7272) && ROOTS[25] * ROOTS[25] - (-1) * ROOTS[12] * 10952 == 12289 * (3752) && ROOTS[26] * ROOTS[26] - (1) * ROOTS[13] * 10952 == 12289 * (1744) && ROOTS[27] * ROOTS[27] - (-1) * ROOTS[13] * 10952 == 12289 * (12241) && ROOTS[28] * ROOTS[28] - (1) * ROOTS[14] * 10952 == 12289 * (-4260) && ROOTS[29] * ROOTS[29] - (-1) * ROOTS[14] * 10952 == 12289 * (7617) && ROOTS[30] * ROOTS[30] - (1) * ROOTS[15] * 10952 == 12289 * (-695) && ROOTS[31] * ROOTS[31] - (-1) * ROOTS[15] * 10952 == 12289 * (4960) && ROOTS[32] * ROOTS[32] - (1) * ROOTS[16] * 10952 == 12289 * (476) && ROOTS[33] * ROOTS[33] - (-1) * ROOTS[16] * 10952 == 12289 * (6609) && ROOTS[34] * ROOTS[34] - (1) * ROOTS[17] * 10952 == 12289 * (264) && ROOTS[35] * ROOTS[35] - (-1) * ROOTS[17] * 10952 == 12289 * (20777) && ROOTS[36] * ROOTS[36] - (1) * ROOTS[18] * 10952 == 12289 * (-5655) && ROOTS[37] * ROOTS[37] - (-1) * ROOTS[18] * 10952 == 12289 * (6564) && ROOTS[38] * ROOTS[38] - (1) * ROOTS[19] * 10952 == 12289 * (2656) && ROOTS[39] * ROOTS[39] - (-1) * ROOTS[19] * 10952 == 12289 * (3572) && ROOTS[40] * ROOTS[40] - (1) * ROOTS[20] * 10952 == 12289 * (4564) && ROOTS[41] * ROOTS[41] - (-1) * ROOTS[20] * 10952 == 12289 * (11937) && ROOTS[42] * ROOTS[42] - (1) * ROOTS[21] * 10952 == 12289 * (-7260) && ROOTS[43] * ROOTS[43] - (-1) * ROOTS[21] * 10952 == 12289 * (7600) && ROOTS[44] * ROOTS[44] - (1) * ROOTS[22] * 10952 == 12289 * (204) && ROOTS[45] * ROOTS[45] - (-1) * ROOTS[22] * 10952 == 12289 * (4233) && ROOTS[46] * ROOTS[46] - (1) * ROOTS[23] * 10952 == 12289 * (-2279) && ROOTS[47] * ROOTS[47] - (-1) * ROOTS[23] * 10952 == 12289 * (10009) && ROOTS[48] * ROOTS[48] - (1) * ROOTS[24] * 10952 == 12289 * (-2716) && ROOTS[49] * ROOTS[49] - (-1) * ROOTS[24] * 10952 == 12289 * (17025) && ROOTS[50] * ROOTS[50] - (1) * ROOTS[25] * 10952 == 12289 * (-5308) && ROOTS[51] * ROOTS[51] - (-1) * ROOTS[25] * 10952 == 12289 * (13104) && ROOTS[52] * ROOTS[52] - (1) * ROOTS[26] * 10952 == 12289 * (-4015) && ROOTS[53] * ROOTS[53] - (-1) * ROOTS[26] * 10952 == 12289 * (11120) && ROOTS[54] * ROOTS[54] - (1) * ROOTS[27] * 10952 == 12289 * (584) && ROOTS[55] * ROOTS[55] - (-1) * ROOTS[27] * 10952 == 12289 * (14472) && ROOTS[56] * ROOTS[56] - (1) * ROOTS[28] * 10952 == 12289 * (-783) && ROOTS[57] * ROOTS[57] - (-1) * ROOTS[28] * 10952 == 12289 * (11425) && ROOTS[58] * ROOTS[58] - (1) * ROOTS[29] * 10952 == 12289 * (3900) && ROOTS[59] * ROOTS[59] - (-1) * ROOTS[29] * 10952 == 12289 * (5937) && ROOTS[60] * ROOTS[60] - (1) * ROOTS[30] * 10952 == 12289 * (-5791) && ROOTS[61] * ROOTS[61] - (-1) * ROOTS[30] * 10952 == 12289 * (10872) && ROOTS[62] * ROOTS[62] - (1) * ROOTS[31] * 10952 == 12289 * (5188) && ROOTS[63] * ROOTS[63] - (-1) * ROOTS[31] * 10952 == 12289 * (12128));
    }
    assert(k == 2 || k == 3 || k == 4 || k == 5 || k == 6 || k == 7 || k == 8 || k == 9 || k == 10 || k == 11 || k == 12 || k == 13 || k == 14 || k == 15 || k == 16 || k == 17 || k == 18 || k == 19 || k == 20 || k == 21 || k == 22 || k == 23 || k == 24 || k == 25 || k == 26 || k == 27 || k == 28 || k == 29 || k == 30 || k == 31 || k == 32 || k == 33 || k == 34 || k == 35 || k == 36 || k == 37 || k == 38 || k == 39 || k == 40 || k == 41 || k == 42 || k == 43 || k == 44 || k == 45 || k == 46 || k == 47 || k == 48 || k == 49 || k == 50 || k == 51 || k == 52 || k == 53 || k == 54 || k == 55 || k == 56 || k == 57 || k == 58 || k == 59 || k == 60 || k == 61 || k == 62 || k == 63);
}

proof fn lemma_root_squares_64(k: int)
    requires
        64 <= k < 128,
    ensures
        root_square_ok(k, k / 2, if k % 2 == 0 { 1int } else { -1int }),
{
    assert(root_square_ok(64, 32, 1) && root_square_ok(65, 32, -1) && root_square_ok(66, 33, 1) && root_square_ok(67, 33, -1) && root_square_ok(68, 34, 1) && root_square_ok(69, 34, -1) && root_square_ok(70, 35, 1) && root_square_ok(71, 35, -1) && root_square_ok(72, 36, 1) && root_square_ok(73, 36, -1) && root_square_ok(74, 37, 1) && root_square_ok(75, 37, -1) && root_square_ok(76, 38, 1) && root_square_ok(77, 38, -1) && root_square_ok(78, 39, 1) && root_square_ok(79, 39, -1) && root_square_ok(80, 40, 1) && root_square_ok(81, 40, -1) && root_square_ok(82, 41, 1) && root_square_ok(83, 41, -1) && root_square_ok(84, 42, 1) && root_square_ok(85, 42, -1) && root_square_ok(86, 43, 1) && root_square_ok(87, 43, -1) && root_square_ok(88, 44, 1) && root_square_ok(89, 44, -1) && root_square_ok(90, 45, 1) && root_square_ok(91, 45, -1) && root_square_ok(92, 46, 1) && root_square_ok(93, 46, -1) && root_square_ok(94, 47, 1) && root_square_ok(95, 47, -1) && root_square_ok(96, 48, 1) && root_square_ok(97, 48, -1) && root_square_ok(98, 49, 1) && root_square_ok(99, 49, -1) && root_square_ok(100, 50, 1) && root_square_ok(101, 50, -1) && root_square_ok(102, 51, 1) && root_square_ok(103, 51, -1) && root_square_ok(104, 52, 1) && root_square_ok(105, 52, -1) && root_square_ok(106, 53, 1) && root_square_ok(107, 53, -1) && root_square_ok(108, 54, 1) && root_square_ok(109, 54, -1) && root_square_ok(110, 55, 1) && root_square_ok(111, 55, -1) && root_square_ok(112, 56, 1) && root_square_ok(113, 56, -1) && root_square_ok(114, 57, 1) && root_square_ok(115, 57, -1) && root_square_ok(116, 58, 1) && root_square_ok(117, 58, -1) && root_square_ok(118, 59, 1) && root_square_ok(119, 59, -1) && root_square_ok(120, 60, 1) && root_square_ok(121, 60, -1) && root_square_ok(122, 61, 1) && root_square_ok(123, 61, -1) && root_square_ok(124, 62, 1) && root_square_ok(125, 62, -1) && root_square_ok(126, 63, 1) && root_square_ok(127, 63, -1)) by {
        reveal(root_square_ok);
        assert(ROOTS[64] * ROOTS[64] - (1) * ROOTS[32] * 10952 == 12289 * (2644) && ROOTS[65] * ROOTS[65] - (-1) * ROOTS[32] * 10952 == 12289 * (12116) && ROOTS[66] * ROOTS[66] - (1) * ROOTS[33] * 10952 == 12289 * (-3160) && ROOTS[67] * ROOTS[67] - (-1) * ROOTS[33] * 10952 == 12289 * (3385) && ROOTS[68] * ROOTS[68] - (1) * ROOTS[34] * 10952 == 12289 * (-9820) && ROOTS[69] * ROOTS[69] - (-1) * ROOTS[34] * 10952 == 12289 * (15249) && ROOTS[70] * ROOTS[70] - (1) * ROOTS[35] * 10952 == 12289 * (-5384) && ROOTS[71] * ROOTS[71] - (-1) * ROOTS[35] * 10952 == 12289 * (13241) && ROOTS[72] * ROOTS[72] - (1) * ROOTS[36] * 10952 == 12289 * (9289) && ROOTS[73] * ROOTS[73] - (-1) * ROOTS[36] * 10952 == 12289 * (11320) && ROOTS[74] * ROOTS[74] - (1) * ROOTS[37] * 10952 == 12289 * (4849) && ROOTS[75] * ROOTS[75] - (-1) * ROOTS[37] * 10952 == 12289 * (2832) && ROOTS[76] * ROOTS[76] - (1) * ROOTS[38] * 10952 == 12289 * (-3423) && ROOTS[77] * ROOTS[77] - (-1) * ROOTS[38] * 10952 == 12289 * (13476) && ROOTS[78] * ROOTS[78] - (1) * ROOTS[39] * 10952 == 12289 * (9193) && ROOTS[79] * ROOTS[79] - (-1) * ROOTS[39] * 10952 == 12289 * (3828) && ROOTS[80] * ROOTS[80] - (1) * ROOTS[40] * 10952 == 12289 * (1369) && ROOTS[81] * ROOTS[81] - (-1) * ROOTS[40] * 10952 == 12289 * (11024) && ROOTS[82] * ROOTS[82] - (1) * ROOTS[41] * 10952 == 12289 * (-7752) && ROOTS[83] * ROOTS[83] - (-1) * ROOTS[41] * 10952 == 12289 * (10632) && ROOTS[84] * ROOTS[84] - (1) * ROOTS[42] * 10952 == 12289 * (-812) && ROOTS[85] * ROOTS[85] - (-1) * ROOTS[42] * 10952 == 12289 * (5609) && ROOTS[86] * ROOTS[86] - (1) * ROOTS[43] * 10952 == 12289 * (-1055) && ROOTS[87] * ROOTS[87] - (-1) * ROOTS[43] * 10952 == 12289 * (2857) && ROOTS[88] * ROOTS[88] - (1) * ROOTS[44] * 10952 == 12289 * (-1391) && ROOTS[89] * ROOTS[89] - (-1) * ROOTS[44] * 10952 == 12289 * (8116) && ROOTS[90] * ROOTS[90] - (1) * ROOTS[45] * 10952 == 12289 * (-5447) && ROOTS[91] * ROOTS[91] - (-1) * ROOTS[45] * 10952 == 12289 * (17160) && ROOTS[92] * ROOTS[92] - (1) * ROOTS[46] * 10952 == 12289 * (-5748) && ROOTS[93] * ROOTS[93] - (-1) * ROOTS[46] * 10952 == 12289 * (13561) && ROOTS[94] * ROOTS[94] - (1) * ROOTS[47] * 10952 == 12289 * (-6340) && ROOTS[95] * ROOTS[95] - (-1) * ROOTS[47] * 10952 == 12289 * (6456) && ROOTS[96] * ROOTS[96] - (1) * ROOTS[48] * 10952 == 12289 * (-7287) && ROOTS[97] * ROOTS[97] - (-1) * ROOTS[48] * 10952 == 12289 * (15209) && ROOTS[98] * ROOTS[98] - (1) * ROOTS[49] * 10952 == 12289 * (-836) && ROOTS[99] * ROOTS[99] - (-1) * ROOTS[49] * 10952 == 12289 * (8904) && ROOTS[100] * ROOTS[100] - (1) * ROOTS[50] * 10952 == 12289 * (3184) && ROOTS[101] * ROOTS[101] - (-1) * ROOTS[50] * 10952 == 12289 * (180) && ROOTS[102] * ROOTS[102] - (1) * ROOTS[51] * 10952 == 12289 * (2592) && ROOTS[103] * ROOTS[103] - (-1) * ROOTS[51] * 10952 == 12289 * (16880) && ROOTS[104] * ROOTS[104] - (1) * ROOTS[52] * 10952 == 12289 * (-3983) && ROOTS[105] * ROOTS[105] - (-1) * ROOTS[52] * 10952 == 12289 * (7960) && ROOTS[106] * ROOTS[106] - (1) * ROOTS[53] * 10952 == 12289 * (4832) && ROOTS[107] * ROOTS[107] - (-1) * ROOTS[53] * 10952 == 12289 * (14897) && ROOTS[108] * ROOTS[108] - (1) * ROOTS[54] * 10952 == 12289 * (-7863) && ROOTS[109] * ROOTS[109] - (-1) * ROOTS[54] * 10952 == 12289 * (20825) && ROOTS[110] * ROOTS[110] - (1) * ROOTS[55] * 10952 == 12289 * (516) && ROOTS[111] * ROOTS[111] - (-1) * ROOTS[55] * 10952 == 12289 * (12649) && ROOTS[112] * ROOTS[112] - (1) * ROOTS[56] * 10952 == 12289 * (5148) && ROOTS[113] * ROOTS[113] - (-1) * ROOTS[56] * 10952 == 12289 * (7857) && ROOTS[114] * ROOTS[114] - (1) * ROOTS[57] * 10952 == 12289 * (-10167) && ROOTS[115] * ROOTS[115] - (-1) * ROOTS[57] * 10952 == 12289 * (14177) && ROOTS[116] * ROOTS[116] - (1) * ROOTS[58] * 10952 == 12289 * (-4940) && ROOTS[117] * ROOTS[117] - (-1) * ROOTS[58] * 10952 == 12289 * (9985) && ROOTS[118] * ROOTS[118] - (1) * ROOTS[59] * 10952 == 12289 * (10033) && ROOTS[119] * ROOTS[119] - (-1) * ROOTS[59] * 10952 == 12289 * (2536) && ROOTS[120] * ROOTS[120] - (1) * ROOTS[60] * 10952 == 12289 * (-919) && ROOTS[121] * ROOTS[121] - (-1) * ROOTS[60] * 10952 == 12289 * (6860) && ROOTS[122] * ROOTS[122] - (1) * ROOTS[61] * 10952 == 12289 * (-1567) && ROOTS[123] * ROOTS[123] - (-1) * ROOTS[61] * 10952 == 12289 * (7857) && ROOTS[124] * ROOTS[124] - (1) * ROOTS[62] * 10952 == 12289 * (-1215) && ROOTS[125] * ROOTS[125] - (-1) * ROOTS[62] * 10952 == 12289 * (16249) && ROOTS[126] * ROOTS[126] - (1) * ROOTS[63] * 10952 == 12289 * (-9344) && ROOTS[127] * ROOTS[127] - (-1) * ROOTS[63] * 10952 == 12289 * (16356));
    }
    assert(k == 64 || k == 65 || k == 66 || k == 67 || k == 68 || k == 69 || k == 70 || k == 71 || k == 72 || k == 73 || k == 74 || k == 75 || k == 76 || k == 77 || k == 78 || k == 79 || k == 80 || k == 81 || k == 82 || k == 83 || k == 84 || k == 85 || k == 86 || k == 87 || k == 88 || k == 89 || k == 90 || k == 91 || k == 92 || k == 93 || k == 94 || k == 95 || k == 96 || k == 97 || k == 98 || k == 99 || k == 100 || k == 101 || k == 102 || k == 103 || k == 104 || k == 105 || k == 106 || k == 107 || k == 108 || k == 109 || k == 110 || k == 111 || k == 112 || k == 113 || k == 114 || k == 115 || k == 116 || k == 117 || k == 118 || k == 119 || k == 120 || k == 121 || k == 122 || k == 123 || k == 124 || k == 125 || k == 126 || k == 127);
}

proof fn lemma_root_squares_128(k: int)
    requires
        128 <= k < 192,
    ensures
        root_square_ok(k, k / 2, if k % 2 == 0 { 1int } else { -1int }),
{
    assert(root_square_ok(128, 64, 1) && root_square_ok(129, 64, -1) && root_square_ok(130, 65, 1) && root_square_ok(131, 65, -1) && root_square_ok(132, 66, 1) && root_square_ok(133, 66, -1) && root_square_ok(134, 67, 1) && root_square_ok(135, 67, -1) && root_square_ok(136, 68, 1) && root_square_ok(137, 68, -1) && root_square_ok(138, 69, 1) && root_square_ok(139, 69, -1) && root_square_ok(140, 70, 1) && root_square_ok(141, 70, -1) && root_square_ok(142, 71, 1) && root_square_ok(143, 71, -1) && root_square_ok(144, 72, 1) && root_square_ok(145, 72, -1) && root_square_ok(146, 73, 1) && root_square_ok(147, 73, -1) && root_square_ok(148, 74, 1) && root_square_ok(149, 74, -1) && root_square_ok(150, 75, 1) && root_square_ok(151, 75, -1) && root_square_ok(152, 76, 1) && root_square_ok(153, 76, -1) && root_square_ok(154, 77, 1) && root_square_ok(155, 77, -1) && root_square_ok(156, 78, 1) && root_square_ok(157, 78, -1) && root_square_ok(158, 79, 1) && root_square_ok(159, 79, -1) && root_square_ok(160, 80, 1) && root_square_ok(161, 80, -1) && root_square_ok(162, 81, 1) && root_square_ok(163, 81, -1) && root_square_ok(164, 82, 1) && root_square_ok(165, 82, -1) && root_square_ok(166, 83, 1) && root_square_ok(167, 83, -1) && root_square_ok(168, 84, 1) && root_square_ok(169, 84, -1) && root_square_ok(170, 85, 1) && root_square_ok(171, 85, -1) && root_square_ok(172, 86, 1) && root_square_ok(173, 86, -1) && root_square_ok(174, 87, 1) && root_square_ok(175, 87, -1) && root_square_ok(176, 88, 1) && root_square_ok(177, 88, -1) && root_square_ok(178, 89, 1) && root_square_ok(179, 89, -1) && root_square_ok(180, 90, 1) && root_square_ok(181, 90, -1) && root_square_ok(182, 91, 1) && root_square_ok(183, 91, -1) && root_square_ok(184, 92, 1) && root_square_ok(185, 92, -1) && root_square_ok(186, 93, 1) && root_square_ok(187, 93, -1) && root_square_ok(188, 94, 1) && root_square_ok(189, 94, -1) && root_square_ok(190, 95, 1) && root_square_ok(191, 95, -1)) by {
        reveal(root_square_ok);
        assert(ROOTS[128] * ROOTS[128] - (1) * ROOTS[64] * 10952 == 12289 * (-2567) && ROOTS[129] * ROOTS[129] - (-1) * ROOTS[64] * 10952 == 12289 * (20257) && ROOTS[130] * ROOTS[130] - (1) * ROOTS[65] * 10952 == 12289 * (5001) && ROOTS[131] * ROOTS[131] - (-1) * ROOTS[65] * 10952 == 12289 * (6673) && ROOTS[132] * ROOTS[132] - (1) * ROOTS[66] * 10952 == 12289 * (3385) && ROOTS[133] * ROOTS[133] - (-1) * ROOTS[66] * 10952 == 12289 * (10560) && ROOTS[134] * ROOTS[134] - (1) * ROOTS[67] * 10952 == 12289 * (-1352) && ROOTS[135] * ROOTS[135] - (-1) * ROOTS[67] * 10952 == 12289 * (12844) && ROOTS[136] * ROOTS[136] - (1) * ROOTS[68] * 10952 == 12289 * (2249) && ROOTS[137] * ROOTS[137] - (-1) * ROOTS[68] * 10952 == 12289 * (896) && ROOTS[138] * ROOTS[138] - (1) * ROOTS[69] * 10952 == 12289 * (920) && ROOTS[139] * ROOTS[139] - (-1) * ROOTS[69] * 10952 == 12289 * (7324) && ROOTS[140] * ROOTS[140] - (1) * ROOTS[70] * 10952 == 12289 * (-764) && ROOTS[141] * ROOTS[141] - (-1) * ROOTS[70] * 10952 == 12289 * (17488) && ROOTS[142] * ROOTS[142] - (1) * ROOTS[71] * 10952 == 12289 * (5841) && ROOTS[143] * ROOTS[143] - (-1) * ROOTS[71] * 10952 == 12289 * (11160) && ROOTS[144] * ROOTS[144] - (1) * ROOTS[72] * 10952 == 12289 * (-9332) && ROOTS[145] * ROOTS[145] - (-1) * ROOTS[72] * 10952 == 12289 * (13596) && ROOTS[146] * ROOTS[146] - (1) * ROOTS[73] * 10952 == 12289 * (-6684) && ROOTS[147] * ROOTS[147] - (-1) * ROOTS[73] * 10952 == 12289 * (9289) && ROOTS[148] * ROOTS[148] - (1) * ROOTS[74] * 10952 == 12289 * (-7480) && ROOTS[149] * ROOTS[149] - (-1) * ROOTS[74] * 10952 == 12289 * (11521) && ROOTS[150] * ROOTS[150] - (1) * ROOTS[75] * 10952 == 12289 * (-2300) && ROOTS[151] * ROOTS[151] - (-1) * ROOTS[75] * 10952 == 12289 * (9744) && ROOTS[152] * ROOTS[152] - (1) * ROOTS[76] * 10952 == 12289 * (1369) && ROOTS[153] * ROOTS[153] - (-1) * ROOTS[76] * 10952 == 12289 * (11641) && ROOTS[154] * ROOTS[154] - (1) * ROOTS[77] * 10952 == 12289 * (-7583) && ROOTS[155] * ROOTS[155] - (-1) * ROOTS[77] * 10952 == 12289 * (14601) && ROOTS[156] * ROOTS[156] - (1) * ROOTS[78] * 10952 == 12289 * (-9295) && ROOTS[157] * ROOTS[157] - (-1) * ROOTS[78] * 10952 == 12289 * (10865) && ROOTS[158] * ROOTS[158] - (1) * ROOTS[79] * 10952 == 12289 * (8080) && ROOTS[159] * ROOTS[159] - (-1) * ROOTS[79] * 10952 == 12289 * (4084) && ROOTS[160] * ROOTS[160] - (1) * ROOTS[80] * 10952 == 12289 * (2152) && ROOTS[161] * ROOTS[161] - (-1) * ROOTS[80] * 10952 == 12289 * (18073) && ROOTS[162] * ROOTS[162] - (1) * ROOTS[81] * 10952 == 12289 * (-2588) && ROOTS[163] * ROOTS[163] - (-1) * ROOTS[81] * 10952 == 12289 * (5092) && ROOTS[164] * ROOTS[164] - (1) * ROOTS[82] * 10952 == 12289 * (-2391) && ROOTS[165] * ROOTS[165] - (-1) * ROOTS[82] * 10952 == 12289 * (12673) && ROOTS[166] * ROOTS[166] - (1) * ROOTS[83] * 10952 == 12289 * (-2607) && ROOTS[167] * ROOTS[167] - (-1) * ROOTS[83] * 10952 == 12289 * (3856) && ROOTS[168] * ROOTS[168] - (1) * ROOTS[84] * 10952 == 12289 * (-320) && ROOTS[169] * ROOTS[169] - (-1) * ROOTS[84] * 10952 == 12289 * (1873) && ROOTS[170] * ROOTS[170] - (1) * ROOTS[85] * 10952 == 12289 * (1596) && ROOTS[171] * ROOTS[171] - (-1) * ROOTS[85] * 10952 == 12289 * (6828) && ROOTS[172] * ROOTS[172] - (1) * ROOTS[86] * 10952 == 12289 * (-1975) && ROOTS[173] * ROOTS[173] - (-1) * ROOTS[86] * 10952 == 12289 * (13148) && ROOTS[174] * ROOTS[174] - (1) * ROOTS[87] * 10952 == 12289 * (-3476) && ROOTS[175] * ROOTS[175] - (-1) * ROOTS[87] * 10952 == 12289 * (6617) && ROOTS[176] * ROOTS[176] - (1) * ROOTS[88] * 10952 == 12289 * (5900) && ROOTS[177] * ROOTS[177] - (-1) * ROOTS[88] * 10952 == 12289 * (12225) && ROOTS[178] * ROOTS[178] - (1) * ROOTS[89] * 10952 == 12289 * (3809) && ROOTS[179] * ROOTS[179] - (-1) * ROOTS[89] * 10952 == 12289 * (8960) && ROOTS[180] * ROOTS[180] - (1) * ROOTS[90] * 10952 == 12289 * (8072) && ROOTS[181] * ROOTS[181] - (-1) * ROOTS[90] * 10952 == 12289 * (11996) && ROOTS[182] * ROOTS[182] - (1) * ROOTS[91] * 10952 == 12289 * (-9168) && ROOTS[183] * ROOTS[183] - (-1) * ROOTS[91] * 10952 == 12289 * (15268) && ROOTS[184] * ROOTS[184] - (1) * ROOTS[92] * 10952 == 12289 * (273) && ROOTS[185] * ROOTS[185] - (-1) * ROOTS[92] * 10952 == 12289 * (6233) && ROOTS[186] * ROOTS[186] - (1) * ROOTS[93] * 10952 == 12289 * (-7608) && ROOTS[187] * ROOTS[187] - (-1) * ROOTS[93] * 10952 == 12289 * (19849) && ROOTS[188] * ROOTS[188] - (1) * ROOTS[94] * 10952 == 12289 * (8724) && ROOTS[189] * ROOTS[189] - (-1) * ROOTS[94] * 10952 == 12289 * (1472) && ROOTS[190] * ROOTS[190] - (1) * ROOTS[95] * 10952 == 12289 * (-976) && ROOTS[191] * ROOTS[191] - (-1) * ROOTS[95] * 10952 == 12289 * (12881));
    }
    assert(k == 128 || k == 129 || k == 130 || k == 131 || k == 132 || k == 133 || k == 134 || k == 135 || k == 136 || k == 137 || k == 138 || k == 139 || k == 140 || k == 141 || k == 142 || k == 143 || k == 144 || k == 145 || k == 146 || k == 147 || k == 148 || k == 149 || k == 150 || k == 151 || k == 152 || k == 153 || k == 154 || k == 155 || k == 156 || k == 157 || k == 158 || k == 159 || k == 160 || k == 161 || k == 162 || k == 163 || k == 164 || k == 165 || k == 166 || k == 167 || k == 168 || k == 169 || k == 170 || k == 171 || k == 172 || k == 173 || k == 174 || k == 175 || k == 176 || k == 177 || k == 178 || k == 179 || k == 180 || k == 181 || k == 182 || k == 183 || k == 184 || k == 185 || k == 186 || k == 187 || k == 188 || k == 189 || k == 190 || k == 191);
}

proof fn lemma_root_squares_192(k: int)
    requires
        192 <= k < 256,
    ensures
        root_square_ok(k, k / 2, if k % 2 == 0 { 1int } else { -1int }),
{
    assert(root_square_ok(192, 96, 1) && root_square_ok(193, 96, -1) && root_square_ok(194, 97, 1) && root_square_ok(195, 97, -1) && root_square_ok(196, 98, 1) && root_square_ok(197, 98, -1) && root_square_ok(198, 99, 1) && root_square_ok(199, 99, -1) && root_square_ok(200, 100, 1) && root_square_ok(201, 100, -1) && root_square_ok(202, 101, 1) && root_square_ok(203, 101, -1) && root_square_ok(204, 102, 1) && root_square_ok(205, 102, -1) && root_square_ok(206, 103, 1) && root_square_ok(207, 103, -1) && root_square_ok(208, 104, 1) && root_square_ok(209, 104, -1) && root_square_ok(210, 105, 1) && root_square_ok(211, 105, -1) && root_square_ok(212, 106, 1) && root_square_ok(213, 106, -1) && root_square_ok(214, 107, 1) && root_square_ok(215, 107, -1) && root_square_ok(216, 108, 1) && root_square_ok(217, 108, -1) && root_square_ok(218, 109, 1) && root_square_ok(219, 109, -1) && root_square_ok(220, 110, 1) && root_square_ok(221, 110, -1) && root_square_ok(222, 111, 1) && root_square_ok(223, 111, -1) && root_square_ok(224, 112, 1) && root_square_ok(225, 112, -1) && root_square_ok(226, 113, 1) && root_square_ok(227, 113, -1) && root_square_ok(228, 114, 1) && root_square_ok(229, 114, -1) && root_square_ok(230, 115, 1) && root_square_ok(231, 115, -1) && root_square_ok(232, 116, 1) && root_square_ok(233, 116, -1) && root_square_ok(234, 117, 1) && root_square_ok(235, 117, -1) && root_square_ok(236, 118, 1) && root_square_ok(237, 118, -1) && root_square_ok(238, 119, 1) && root_square_ok(239, 119, -1) && root_square_ok(240, 120, 1) && root_square_ok(241, 120, -1) && root_square_ok(242, 121, 1) && root_square_ok(243, 121, -1) && root_square_ok(244, 122, 1) && root_square_ok(245, 122, -1) && root_square_ok(246, 123, 1) && root_square_ok(247, 123, -1) && root_square_ok(248, 124, 1) && root_square_ok(249, 124, -1) && root_square_ok(250, 125, 1) && root_square_ok(251, 125, -1) && root_square_ok(252, 126, 1) && root_square_ok(253, 126, -1) && root_square_ok(254, 127, 1) && root_square_ok(255, 127, -1)) by {
        reveal(root_square_ok);
        assert(ROOTS[192] * ROOTS[192] - (1) * ROOTS[96] * 10952 == 12289 * (-708) && ROOTS[193] * ROOTS[193] - (-1) * ROOTS[96] * 10952 == 12289 * (2233) && ROOTS[194] * ROOTS[194] - (1) * ROOTS[97] * 10952 == 12289 * (-7455) && ROOTS[195] * ROOTS[195] - (-1) * ROOTS[97] * 10952 == 12289 * (8872) && ROOTS[196] * ROOTS[196] - (1) * ROOTS[98] * 10952 == 12289 * (-6831) && ROOTS[197] * ROOTS[197] - (-1) * ROOTS[98] * 10952 == 12289 * (10836) && ROOTS[198] * ROOTS[198] - (1) * ROOTS[99] * 10952 == 12289 * (1081) && ROOTS[199] * ROOTS[199] - (-1) * ROOTS[99] * 10952 == 12289 * (1124) && ROOTS[200] * ROOTS[200] - (1) * ROOTS[100] * 10952 == 12289 * (-3456) && ROOTS[201] * ROOTS[201] - (-1) * ROOTS[100] * 10952 == 12289 * (12736) && ROOTS[202] * ROOTS[202] - (1) * ROOTS[101] * 10952 == 12289 * (281) && ROOTS[203] * ROOTS[203] - (-1) * ROOTS[101] * 10952 == 12289 * (9441) && ROOTS[204] * ROOTS[204] - (1) * ROOTS[102] * 10952 == 12289 * (-10255) && ROOTS[205] * ROOTS[205] - (-1) * ROOTS[102] * 10952 == 12289 * (11920) && ROOTS[206] * ROOTS[206] - (1) * ROOTS[103] * 10952 == 12289 * (-8860) && ROOTS[207] * ROOTS[207] - (-1) * ROOTS[103] * 10952 == 12289 * (10272) && ROOTS[208] * ROOTS[208] - (1) * ROOTS[104] * 10952 == 12289 * (-180) && ROOTS[209] * ROOTS[209] - (-1) * ROOTS[104] * 10952 == 12289 * (905) && ROOTS[210] * ROOTS[210] - (1) * ROOTS[105] * 10952 == 12289 * (-1615) && ROOTS[211] * ROOTS[211] - (-1) * ROOTS[105] * 10952 == 12289 * (15600) && ROOTS[212] * ROOTS[212] - (1) * ROOTS[106] * 10952 == 12289 * (-4092) && ROOTS[213] * ROOTS[213] - (-1) * ROOTS[106] * 10952 == 12289 * (11524) && ROOTS[214] * ROOTS[214] - (1) * ROOTS[107] * 10952 == 12289 * (-5815) && ROOTS[215] * ROOTS[215] - (-1) * ROOTS[107] * 10952 == 12289 * (10040) && ROOTS[216] * ROOTS[216] - (1) * ROOTS[108] * 10952 == 12289 * (-1108) && ROOTS[217] * ROOTS[217] - (-1) * ROOTS[108] * 10952 == 12289 * (12249) && ROOTS[218] * ROOTS[218] - (1) * ROOTS[109] * 10952 == 12289 * (-10120) && ROOTS[219] * ROOTS[219] - (-1) * ROOTS[109] * 10952 == 12289 * (10817) && ROOTS[220] * ROOTS[220] - (1) * ROOTS[110] * 10952 == 12289 * (-327) && ROOTS[221] * ROOTS[221] - (-1) * ROOTS[110] * 10952 == 12289 * (10772) && ROOTS[222] * ROOTS[222] - (1) * ROOTS[111] * 10952 == 12289 * (-3951) && ROOTS[223] * ROOTS[223] - (-1) * ROOTS[111] * 10952 == 12289 * (11452) && ROOTS[224] * ROOTS[224] - (1) * ROOTS[112] * 10952 == 12289 * (-6636) && ROOTS[225] * ROOTS[225] - (-1) * ROOTS[112] * 10952 == 12289 * (8116) && ROOTS[226] * ROOTS[226] - (1) * ROOTS[113] * 10952 == 12289 * (-708) && ROOTS[227] * ROOTS[227] - (-1) * ROOTS[113] * 10952 == 12289 * (8428) && ROOTS[228] * ROOTS[228] - (1) * ROOTS[114] * 10952 == 12289 * (8553) && ROOTS[229] * ROOTS[229] - (-1) * ROOTS[114] * 10952 == 12289 * (1369) && ROOTS[230] * ROOTS[230] - (1) * ROOTS[115] * 10952 == 12289 * (3641) && ROOTS[231] * ROOTS[231] - (-1) * ROOTS[115] * 10952 == 12289 * (6440) && ROOTS[232] * ROOTS[232] - (1) * ROOTS[116] * 10952 == 12289 * (-1408) && ROOTS[233] * ROOTS[233] - (-1) * ROOTS[116] * 10952 == 12289 * (7905) && ROOTS[234] * ROOTS[234] - (1) * ROOTS[117] * 10952 == 12289 * (4908) && ROOTS[235] * ROOTS[235] - (-1) * ROOTS[117] * 10952 == 12289 * (3497) && ROOTS[236] * ROOTS[236] - (1) * ROOTS[118] * 10952 == 12289 * (-8264) && ROOTS[237] * ROOTS[237] - (-1) * ROOTS[118] * 10952 == 12289 * (17937) && ROOTS[238] * ROOTS[238] - (1) * ROOTS[119] * 10952 == 12289 * (2761) && ROOTS[239] * ROOTS[239] - (-1) * ROOTS[119] * 10952 == 12289 * (5024) && ROOTS[240] * ROOTS[240] - (1) * ROOTS[120] * 10952 == 12289 * (-3972) && ROOTS[241] * ROOTS[241] - (-1) * ROOTS[120] * 10952 == 12289 * (14105) && ROOTS[242] * ROOTS[242] - (1) * ROOTS[121] * 10952 == 12289 * (649) && ROOTS[243] * ROOTS[243] - (-1) * ROOTS[121] * 10952 == 12289 * (6921) && ROOTS[244] * ROOTS[244] - (1) * ROOTS[122] * 10952 == 12289 * (-5124) && ROOTS[245] * ROOTS[245] - (-1) * ROOTS[122] * 10952 == 12289 * (19217) && ROOTS[246] * ROOTS[246] - (1) * ROOTS[123] * 10952 == 12289 * (5753) && ROOTS[247] * ROOTS[247] - (-1) * ROOTS[123] * 10952 == 12289 * (7432) && ROOTS[248] * ROOTS[248] - (1) * ROOTS[124] * 10952 == 12289 * (193) && ROOTS[249] * ROOTS[249] - (-1) * ROOTS[124] * 10952 == 12289 * (8812) && ROOTS[250] * ROOTS[250] - (1) * ROOTS[125] * 10952 == 12289 * (1916) && ROOTS[251] * ROOTS[251] - (-1) * ROOTS[125] * 10952 == 12289 * (9384) && ROOTS[252] * ROOTS[252] - (1) * ROOTS[126] * 10952 == 12289 * (-1327) && ROOTS[253] * ROOTS[253] - (-1) * ROOTS[126] * 10952 == 12289 * (5305) && ROOTS[254] * ROOTS[254] - (1) * ROOTS[127] * 10952 == 12289 * (1300) && ROOTS[255] * ROOTS[255] - (-1) * ROOTS[127] * 10952 == 12289 * (7920));
    }
    assert(k == 192 || k == 193 || k == 194 || k == 195 || k == 196 || k == 197 || k == 198 || k == 199 || k == 200 || k == 201 || k == 202 || k == 203 || k == 204 || k == 205 || k == 206 || k == 207 || k == 208 || k == 209 || k == 210 || k == 211 || k == 212 || k == 213 || k == 214 || k == 215 || k == 216 || k == 217 || k == 218 || k == 219 || k == 220 || k == 221 || k == 222 || k == 223 || k == 224 || k == 225 || k == 226 || k == 227 || k == 228 || k == 229 || k == 230 || k == 231 || k == 232 || k == 233 || k == 234 || k == 235 || k == 236 || k == 237 || k == 238 || k == 239 || k == 240 || k == 241 || k == 242 || k == 243 || k == 244 || k == 245 || k == 246 || k == 247 || k == 248 || k == 249 || k == 250 || k == 251 || k == 252 || k == 253 || k == 254 || k == 255);
}

proof fn lemma_root_squares_256(k: int)
    requires
        256 <= k < 320,
    ensures
        root_square_ok(k, k / 2, if k % 2 == 0 { 1int } else { -1int }),
{
    assert(root_square_ok(256, 128, 1) && root_square_ok(257, 128, -1) && root_square_ok(258, 129, 1) && root_square_ok(259, 129, -1) && root_square_ok(260, 130, 1) && root_square_ok(261, 130, -1) && root_square_ok(262, 131, 1) && root_square_ok(263, 131, -1) && root_square_ok(264, 132, 1) && root_square_ok(265, 132, -1) && root_square_ok(266, 133, 1) && root_square_ok(267, 133, -1) && root_square_ok(268, 134, 1) && root_square_ok(269, 134, -1) && root_square_ok(270, 135, 1) && root_square_ok(271, 135, -1) && root_square_ok(272, 136, 1) && root_square_ok(273, 136, -1) && root_square_ok(274, 137, 1) && root_square_ok(275, 137, -1) && root_square_ok(276, 138, 1) && root_square_ok(277, 138, -1) && root_square_ok(278, 139, 1) && root_square_ok(279, 139, -1) && root_square_ok(280, 140, 1) && root_square_ok(281, 140, -1) && root_square_ok(282, 141, 1) && root_square_ok(283, 141, -1) && root_square_ok(284, 142, 1) && root_square_ok(285, 142, -1) && root_square_ok(286, 143, 1) && root_square_ok(287, 143, -1) && root_square_ok(288, 144, 1) && root_square_ok(289, 144, -1) && root_square_ok(290, 145, 1) && root_square_ok(291, 145, -1) && root_square_ok(292, 146, 1) && root_square_ok(293, 146, -1) && root_square_ok(294, 147, 1) && root_square_ok(295, 147, -1) && root_square_ok(296, 148, 1) && root_square_ok(297, 148, -1) && root_square_ok(298, 149, 1) && root_square_ok(299, 149, -1) && root_square_ok(300, 150, 1) && root_square_ok(301, 150, -1) && root_square_ok(302, 151, 1) && root_square_ok(303, 151, -1) && root_square_ok(304, 152, 1) && root_square_ok(305, 152, -1) && root_square_ok(306, 153, 1) && root_square_ok(307, 153, -1) && root_square_ok(308, 154, 1) && root_square_ok(309, 154, -1) && root_square_ok(310, 155, 1) && root_square_ok(311, 155, -1) && root_square_ok(312, 156, 1) && root_square_ok(313, 156, -1) && root_square_ok(314, 157, 1) && root_square_ok(315, 157, -1) && root_square_ok(316, 158, 1) && root_square_ok(317, 158, -1) && root_square_ok(318, 159, 1) && root_square_ok(319, 159, -1)) by {
        reveal(root_square_ok);
        assert(ROOTS[256] * ROOTS[256] - (1) * ROOTS[128] * 10952 == 12289 * (-3039) && ROOTS[257] * ROOTS[257] - (-1) * ROOTS[128] * 10952 == 12289 * (12817) && ROOTS[258] * ROOTS[258] - (1) * ROOTS[129] * 10952 == 12289 * (-7287) && ROOTS[259] * ROOTS[259] - (-1) * ROOTS[129] * 10952 == 12289 * (15257) && ROOTS[260] * ROOTS[260] - (1) * ROOTS[130] * 10952 == 12289 * (1441) && ROOTS[261] * ROOTS[261] - (-1) * ROOTS[130] * 10952 == 12289 * (22872) && ROOTS[262] * ROOTS[262] - (1) * ROOTS[131] * 10952 == 12289 * (-319) && ROOTS[263] * ROOTS[263] - (-1) * ROOTS[131] * 10952 == 12289 * (3640) && ROOTS[264] * ROOTS[264] - (1) * ROOTS[132] * 10952 == 12289 * (-3167) && ROOTS[265] * ROOTS[265] - (-1) * ROOTS[132] * 10952 == 12289 * (16665) && ROOTS[266] * ROOTS[266] - (1) * ROOTS[133] * 10952 == 12289 * (-7196) && ROOTS[267] * ROOTS[267] - (-1) * ROOTS[133] * 10952 == 12289 * (11353) && ROOTS[268] * ROOTS[268] - (1) * ROOTS[134] * 10952 == 12289 * (9152) && ROOTS[269] * ROOTS[269] - (-1) * ROOTS[134] * 10952 == 12289 * (7940) && ROOTS[270] * ROOTS[270] - (1) * ROOTS[135] * 10952 == 12289 * (-8940) && ROOTS[271] * ROOTS[271] - (-1) * ROOTS[135] * 10952 == 12289 * (10976) && ROOTS[272] * ROOTS[272] - (1) * ROOTS[136] * 10952 == 12289 * (4297) && ROOTS[273] * ROOTS[273] - (-1) * ROOTS[136] * 10952 == 12289 * (7468) && ROOTS[274] * ROOTS[274] - (1) * ROOTS[137] * 10952 == 12289 * (9504) && ROOTS[275] * ROOTS[275] - (-1) * ROOTS[137] * 10952 == 12289 * (1796) && ROOTS[276] * ROOTS[276] - (1) * ROOTS[138] * 10952 == 12289 * (-7260) && ROOTS[277] * ROOTS[277] - (-1) * ROOTS[138] * 10952 == 12289 * (16944) && ROOTS[278] * ROOTS[278] - (1) * ROOTS[139] * 10952 == 12289 * (-791) && ROOTS[279] * ROOTS[279] - (-1) * ROOTS[139] * 10952 == 12289 * (2272) && ROOTS[280] * ROOTS[280] - (1) * ROOTS[140] * 10952 == 12289 * (1569) && ROOTS[281] * ROOTS[281] - (-1) * ROOTS[140] * 10952 == 12289 * (14681) && ROOTS[282] * ROOTS[282] - (1) * ROOTS[141] * 10952 == 12289 * (-9367) && ROOTS[283] * ROOTS[283] - (-1) * ROOTS[141] * 10952 == 12289 * (17412) && ROOTS[284] * ROOTS[284] - (1) * ROOTS[142] * 10952 == 12289 * (-5055) && ROOTS[285] * ROOTS[285] - (-1) * ROOTS[142] * 10952 == 12289 * (11896) && ROOTS[286] * ROOTS[286] - (1) * ROOTS[143] * 10952 == 12289 * (1425) && ROOTS[287] * ROOTS[287] - (-1) * ROOTS[143] * 10952 == 12289 * (15088) && ROOTS[288] * ROOTS[288] - (1) * ROOTS[144] * 10952 == 12289 * (-2400) && ROOTS[289] * ROOTS[289] - (-1) * ROOTS[144] * 10952 == 12289 * (5001) && ROOTS[290] * ROOTS[290] - (1) * ROOTS[145] * 10952 == 12289 * (-4944) && ROOTS[291] * ROOTS[291] - (-1) * ROOTS[145] * 10952 == 12289 * (8377) && ROOTS[292] * ROOTS[292] - (1) * ROOTS[146] * 10952 == 12289 * (-143) && ROOTS[293] * ROOTS[293] - (-1) * ROOTS[146] * 10952 == 12289 * (5844) && ROOTS[294] * ROOTS[294] - (1) * ROOTS[147] * 10952 == 12289 * (568) && ROOTS[295] * ROOTS[295] - (-1) * ROOTS[147] * 10952 == 12289 * (12252) && ROOTS[296] * ROOTS[296] - (1) * ROOTS[148] * 10952 == 12289 * (7977) && ROOTS[297] * ROOTS[297] - (-1) * ROOTS[148] * 10952 == 12289 * (2049) && ROOTS[298] * ROOTS[298] - (1) * ROOTS[149] * 10952 == 12289 * (1081) && ROOTS[299] * ROOTS[299] - (-1) * ROOTS[149] * 10952 == 12289 * (6865) && ROOTS[300] * ROOTS[300] - (1) * ROOTS[150] * 10952 == 12289 * (-2311) && ROOTS[301] * ROOTS[301] - (-1) * ROOTS[150] * 10952 == 12289 * (4640) && ROOTS[302] * ROOTS[302] - (1) * ROOTS[151] * 10952 == 12289 * (-3567) && ROOTS[303] * ROOTS[303] - (-1) * ROOTS[151] * 10952 == 12289 * (9057) && ROOTS[304] * ROOTS[304] - (1) * ROOTS[152] * 10952 == 12289 * (-808) && ROOTS[305] * ROOTS[305] - (-1) * ROOTS[152] * 10952 == 12289 * (16668) && ROOTS[306] * ROOTS[306] - (1) * ROOTS[153] * 10952 == 12289 * (-7332) && ROOTS[307] * ROOTS[307] - (-1) * ROOTS[153] * 10952 == 12289 * (7361) && ROOTS[308] * ROOTS[308] - (1) * ROOTS[154] * 10952 == 12289 * (7112) && ROOTS[309] * ROOTS[309] - (-1) * ROOTS[154] * 10952 == 12289 * (7688) && ROOTS[310] * ROOTS[310] - (1) * ROOTS[155] * 10952 == 12289 * (3313) && ROOTS[311] * ROOTS[311] - (-1) * ROOTS[155] * 10952 == 12289 * (15784) && ROOTS[312] * ROOTS[312] - (1) * ROOTS[156] * 10952 == 12289 * (809) && ROOTS[313] * ROOTS[313] - (-1) * ROOTS[156] * 10952 == 12289 * (7272) && ROOTS[314] * ROOTS[314] - (1) * ROOTS[157] * 10952 == 12289 * (457) && ROOTS[315] * ROOTS[315] - (-1) * ROOTS[157] * 10952 == 12289 * (1192) && ROOTS[316] * ROOTS[316] - (1) * ROOTS[158] * 10952 == 12289 * (-8956) && ROOTS[317] * ROOTS[317] - (-1) * ROOTS[158] * 10952 == 12289 * (12321) && ROOTS[318] * ROOTS[318] - (1) * ROOTS[159] * 10952 == 12289 * (-1548) && ROOTS[319] * ROOTS[319] - (-1) * ROOTS[159] * 10952 == 12289 * (4528));
    }
    assert(k == 256 || k == 257 || k == 258 || k == 259 || k == 260 || k == 261 || k == 262 || k == 263 || k == 264 || k == 265 || k == 266 || k == 267 || k == 268 || k == 269 || k == 270 || k == 271 || k == 272 || k == 273 || k == 274 || k == 275 || k == 276 || k == 277 || k == 278 || k == 279 || k == 280 || k == 281 || k == 282 || k == 283 || k == 284 || k == 285 || k == 286 || k == 287 || k == 288 || k == 289 || k == 290 || k == 291 || k == 292 || k == 293 || k == 294 || k == 295 || k == 296 || k == 297 || k == 298 || k == 299 || k == 300 || k == 301 || k == 302 || k == 303 || k == 304 || k == 305 || k == 306 || k == 307 || k == 308 || k == 309 || k == 310 || k == 311 || k == 312 || k == 313 || k == 314 || k == 315 || k == 316 || k == 317 || k == 318 || k == 319);
}

proof fn lemma_root_squares_320(k: int)
    requires
        320 <= k < 384,
    ensures
        root_square_ok(k, k / 2, if k % 2 == 0 { 1int } else { -1int }),
{
    assert(root_square_ok(320, 160, 1) && root_square_ok(321, 160, -1) && root_square_ok(322, 161, 1) && root_square_ok(323, 161, -1) && root_square_ok(324, 162, 1) && root_square_ok(325, 162, -1) && root_square_ok(326, 163, 1) && root_square_ok(327, 163, -1) && root_square_ok(328, 164, 1) && root_square_ok(329, 164, -1) && root_square_ok(330, 165, 1) && root_square_ok(331, 165, -1) && root_square_ok(332, 166, 1) && root_square_ok(333, 166, -1) && root_square_ok(334, 167, 1) && root_square_ok(335, 167, -1) && root_square_ok(336, 168, 1) && root_square_ok(337, 168, -1) && root_square_ok(338, 169, 1) && root_square_ok(339, 169, -1) && root_square_ok(340, 170, 1) && root_square_ok(341, 170, -1) && root_square_ok(342, 171, 1) && root_square_ok(343, 171, -1) && root_square_ok(344, 172, 1) && root_square_ok(345, 172, -1) && root_square_ok(346, 173, 1) && root_square_ok(347, 173, -1) && root_square_ok(348, 174, 1) && root_square_ok(349, 174, -1) && root_square_ok(350, 175, 1) && root_square_ok(351, 175, -1) && root_square_ok(352, 176, 1) && root_square_ok(353, 176, -1) && root_square_ok(354, 177, 1) && root_square_ok(355, 177, -1) && root_square_ok(356, 178, 1) && root_square_ok(357, 178, -1) && root_square_ok(358, 179, 1) && root_square_ok(359, 179, -1) && root_square_ok(360, 180, 1) && root_square_ok(361, 180, -1) && root_square_ok(362, 181, 1) && root_square_ok(363, 181, -1) && root_square_ok(364, 182, 1) && root_square_ok(365, 182, -1) && root_square_ok(366, 183, 1) && root_square_ok(367, 183, -1) && root_square_ok(368, 184, 1) && root_square_ok(369, 184, -1) && root_square_ok(370, 185, 1) && root_square_ok(371, 185, -1) && root_square_ok(372, 186, 1) && root_square_ok(373, 186, -1) && root_square_ok(374, 187, 1) && root_square_ok(375, 187, -1) && root_square_ok(376, 188, 1) && root_square_ok(377, 188, -1) && root_square_ok(378, 189, 1) && root_square_ok(379, 189, -1) && root_square_ok(380, 190, 1) && root_square_ok(381, 190, -1) && root_square_ok(382, 191, 1) && root_square_ok(383, 191, -1)) by {
        reveal(root_square_ok);
        assert(ROOTS[320] * ROOTS[320] - (1) * ROOTS[160] * 10952 == 12289 * (-732) && ROOTS[321] * ROOTS[321] - (-1) * ROOTS[160] * 10952 == 12289 * (13289) && ROOTS[322] * ROOTS[322] - (1) * ROOTS[161] * 10952 == 12289 * (-3316) && ROOTS[323] * ROOTS[323] - (-1) * ROOTS[161] * 10952 == 12289 * (9041) && ROOTS[324] * ROOTS[324] - (1) * ROOTS[162] * 10952 == 12289 * (5696) && ROOTS[325] * ROOTS[325] - (-1) * ROOTS[162] * 10952 == 12289 * (7201) && ROOTS[326] * ROOTS[326] - (1) * ROOTS[163] * 10952 == 12289 * (129) && ROOTS[327] * ROOTS[327] - (-1) * ROOTS[163] * 10952 == 12289 * (5012) && ROOTS[328] * ROOTS[328] - (1) * ROOTS[164] * 10952 == 12289 * (985) && ROOTS[329] * ROOTS[329] - (-1) * ROOTS[164] * 10952 == 12289 * (10984) && ROOTS[330] * ROOTS[330] - (1) * ROOTS[165] * 10952 == 12289 * (-3460) && ROOTS[331] * ROOTS[331] - (-1) * ROOTS[165] * 10952 == 12289 * (9393) && ROOTS[332] * ROOTS[332] - (1) * ROOTS[166] * 10952 == 12289 * (-1572) && ROOTS[333] * ROOTS[333] - (-1) * ROOTS[166] * 10952 == 12289 * (12808) && ROOTS[334] * ROOTS[334] - (1) * ROOTS[167] * 10952 == 12289 * (2169) && ROOTS[335] * ROOTS[335] - (-1) * ROOTS[167] * 10952 == 12289 * (5441) && ROOTS[336] * ROOTS[336] - (1) * ROOTS[168] * 10952 == 12289 * (6692) && ROOTS[337] * ROOTS[337] - (-1) * ROOTS[168] * 10952 == 12289 * (3396) && ROOTS[338] * ROOTS[338] - (1) * ROOTS[169] * 10952 == 12289 * (-2644) && ROOTS[339] * ROOTS[339] - (-1) * ROOTS[169] * 10952 == 12289 * (3769) && ROOTS[340] * ROOTS[340] - (1) * ROOTS[170] * 10952 == 12289 * (-6416) && ROOTS[341] * ROOTS[341] - (-1) * ROOTS[170] * 10952 == 12289 * (12321) && ROOTS[342] * ROOTS[342] - (1) * ROOTS[171] * 10952 == 12289 * (2313) && ROOTS[343] * ROOTS[343] - (-1) * ROOTS[171] * 10952 == 12289 * (4384) && ROOTS[344] * ROOTS[344] - (1) * ROOTS[172] * 10952 == 12289 * (-1848) && ROOTS[345] * ROOTS[345] - (-1) * ROOTS[172] * 10952 == 12289 * (13564) && ROOTS[346] * ROOTS[346] - (1) * ROOTS[173] * 10952 == 12289 * (-10272) && ROOTS[347] * ROOTS[347] - (-1) * ROOTS[173] * 10952 == 12289 * (14068) && ROOTS[348] * ROOTS[348] - (1) * ROOTS[174] * 10952 == 12289 * (-224) && ROOTS[349] * ROOTS[349] - (-1) * ROOTS[174] * 10952 == 12289 * (4681) && ROOTS[350] * ROOTS[350] - (1) * ROOTS[175] * 10952 == 12289 * (940) && ROOTS[351] * ROOTS[351] - (-1) * ROOTS[175] * 10952 == 12289 * (11640) && ROOTS[352] * ROOTS[352] - (1) * ROOTS[176] * 10952 == 12289 * (-2016) && ROOTS[353] * ROOTS[353] - (-1) * ROOTS[176] * 10952 == 12289 * (9649) && ROOTS[354] * ROOTS[354] - (1) * ROOTS[177] * 10952 == 12289 * (-3455) && ROOTS[355] * ROOTS[355] - (-1) * ROOTS[177] * 10952 == 12289 * (9305) && ROOTS[356] * ROOTS[356] - (1) * ROOTS[178] * 10952 == 12289 * (1272) && ROOTS[357] * ROOTS[357] - (-1) * ROOTS[178] * 10952 == 12289 * (17953) && ROOTS[358] * ROOTS[358] - (1) * ROOTS[179] * 10952 == 12289 * (-3935) && ROOTS[359] * ROOTS[359] - (-1) * ROOTS[179] * 10952 == 12289 * (14361) && ROOTS[360] * ROOTS[360] - (1) * ROOTS[180] * 10952 == 12289 * (-2087) && ROOTS[361] * ROOTS[361] - (-1) * ROOTS[180] * 10952 == 12289 * (19297) && ROOTS[362] * ROOTS[362] - (1) * ROOTS[181] * 10952 == 12289 * (-3472) && ROOTS[363] * ROOTS[363] - (-1) * ROOTS[181] * 10952 == 12289 * (12689) && ROOTS[364] * ROOTS[364] - (1) * ROOTS[182] * 10952 == 12289 * (2596) && ROOTS[365] * ROOTS[365] - (-1) * ROOTS[182] * 10952 == 12289 * (5476) && ROOTS[366] * ROOTS[366] - (1) * ROOTS[183] * 10952 == 12289 * (2004) && ROOTS[367] * ROOTS[367] - (-1) * ROOTS[183] * 10952 == 12289 * (15665) && ROOTS[368] * ROOTS[368] - (1) * ROOTS[184] * 10952 == 12289 * (-1271) && ROOTS[369] * ROOTS[369] - (-1) * ROOTS[184] * 10952 == 12289 * (9864) && ROOTS[370] * ROOTS[370] - (1) * ROOTS[185] * 10952 == 12289 * (-6196) && ROOTS[371] * ROOTS[371] - (-1) * ROOTS[185] * 10952 == 12289 * (18300) && ROOTS[372] * ROOTS[372] - (1) * ROOTS[186] * 10952 == 12289 * (-1424) && ROOTS[373] * ROOTS[373] - (-1) * ROOTS[186] * 10952 == 12289 * (13984) && ROOTS[374] * ROOTS[374] - (1) * ROOTS[187] * 10952 == 12289 * (-3880) && ROOTS[375] * ROOTS[375] - (-1) * ROOTS[187] * 10952 == 12289 * (11705) && ROOTS[376] * ROOTS[376] - (1) * ROOTS[188] * 10952 == 12289 * (-2000) && ROOTS[377] * ROOTS[377] - (-1) * ROOTS[188] * 10952 == 12289 * (9369) && ROOTS[378] * ROOTS[378] - (1) * ROOTS[189] * 10952 == 12289 * (-2716) && ROOTS[379] * ROOTS[379] - (-1) * ROOTS[189] * 10952 == 12289 * (12612) && ROOTS[380] * ROOTS[380] - (1) * ROOTS[190] * 10952 == 12289 * (209) && ROOTS[381] * ROOTS[381] - (-1) * ROOTS[190] * 10952 == 12289 * (12336) && ROOTS[382] * ROOTS[382] - (1) * ROOTS[191] * 10952 == 12289 * (-1352) && ROOTS[383] * ROOTS[383] - (-1) * ROOTS[191] * 10952 == 12289 * (21676));
    }
    assert(k == 320 || k == 321 || k == 322 || k == 323 || k == 324 || k == 325 || k == 326 || k == 327 || k == 328 || k == 329 || k == 330 || k == 331 || k == 332 || k == 333 || k == 334 || k == 335 || k == 336 || k == 337 || k == 338 || k == 339 || k == 340 || k == 341 || k == 342 || k == 343 || k == 344 || k == 345 || k == 346 || k == 347 || k == 348 || k == 349 || k == 350 || k == 351 || k == 352 || k == 353 || k == 354 || k == 355 || k == 356 || k == 357 || k == 358 || k == 359 || k == 360 || k == 361 || k == 362 || k == 363 || k == 364 || k == 365 || k == 366 || k == 367 || k == 368 || k == 369 || k == 370 || k == 371 || k == 372 || k == 373 || k == 374 || k == 375 || k == 376 || k == 377 || k == 378 || k == 379 || k == 380 || k == 381 || k == 382 || k == 383);
}

proof fn lemma_root_squares_384(k: int)
    requires
        384 <= k < 448,
    ensures
        root_square_ok(k, k / 2, if k % 2 == 0 { 1int } else { -1int }),
{
    assert(root_square_ok(384, 192, 1) && root_square_ok(385, 192, -1) && root_square_ok(386, 193, 1) && root_square_ok(387, 193, -1) && root_square_ok(388, 194, 1) && root_square_ok(389, 194, -1) && root_square_ok(390, 195, 1) && root_square_ok(391, 195, -1) && root_square_ok(392, 196, 1) && root_square_ok(393, 196, -1) && root_square_ok(394, 197, 1) && root_square_ok(395, 197, -1) && root_square_ok(396, 198, 1) && root_square_ok(397, 198, -1) && root_square_ok(398, 199, 1) && root_square_ok(399, 199, -1) && root_square_ok(400, 200, 1) && root_square_ok(401, 200, -1) && root_square_ok(402, 201, 1) && root_square_ok(403, 201, -1) && root_square_ok(404, 202, 1) && root_square_ok(405, 202, -1) && root_square_ok(406, 203, 1) && root_square_ok(407, 203, -1) && root_square_ok(408, 204, 1) && root_square_ok(409, 204, -1) && root_square_ok(410, 205, 1) && root_square_ok(411, 205, -1) && root_square_ok(412, 206, 1) && root_square_ok(413, 206, -1) && root_square_ok(414, 207, 1) && root_square_ok(415, 207, -1) && root_square_ok(416, 208, 1) && root_square_ok(417, 208, -1) && root_square_ok(418, 209, 1) && root_square_ok(419, 209, -1) && root_square_ok(420, 210, 1) && root_square_ok(421, 210, -1) && root_square_ok(422, 211, 1) && root_square_ok(423, 211, -1) && root_square_ok(424, 212, 1) && root_square_ok(425, 212, -1) && root_square_ok(426, 213, 1) && root_square_ok(427, 213, -1) && root_square_ok(428, 214, 1) && root_square_ok(429, 214, -1) && root_square_ok(430, 215, 1) && root_square_ok(431, 215, -1) && root_square_ok(432, 216, 1) && root_square_ok(433, 216, -1) && root_square_ok(434, 217, 1) && root_square_ok(435, 217, -1) && root_square_ok(436, 218, 1) && root_square_ok(437, 218, -1) && root_square_ok(438, 219, 1) && root_square_ok(439, 219, -1) && root_square_ok(440, 220, 1) && root_square_ok(441, 220, -1) && root_square_ok(442, 221, 1) && root_square_ok(443, 221, -1) && root_square_ok(444, 222, 1) && root_square_ok(445, 222, -1) && root_square_ok(446, 223, 1) && root_square_ok(447, 223, -1)) by {
        reveal(root_square_ok);
        assert(ROOTS[384] * ROOTS[384] - (1) * ROOTS[192] * 10952 == 12289 * (-3295) && ROOTS[385] * ROOTS[385] - (-1) * ROOTS[192] * 10952 == 12289 * (9577) && ROOTS[386] * ROOTS[386] - (1) * ROOTS[193] * 10952 == 12289 * (3352) && ROOTS[387] * ROOTS[387] - (-1) * ROOTS[193] * 10952 == 12289 * (1201) && ROOTS[388] * ROOTS[388] - (1) * ROOTS[194] * 10952 == 12289 * (6716) && ROOTS[389] * ROOTS[389] - (-1) * ROOTS[194] * 10952 == 12289 * (3384) && ROOTS[390] * ROOTS[390] - (1) * ROOTS[195] * 10952 == 12289 * (6592) && ROOTS[391] * ROOTS[391] - (-1) * ROOTS[195] * 10952 == 12289 * (3609) && ROOTS[392] * ROOTS[392] - (1) * ROOTS[196] * 10952 == 12289 * (3724) && ROOTS[393] * ROOTS[393] - (-1) * ROOTS[196] * 10952 == 12289 * (13852) && ROOTS[394] * ROOTS[394] - (1) * ROOTS[197] * 10952 == 12289 * (6777) && ROOTS[395] * ROOTS[395] - (-1) * ROOTS[197] * 10952 == 12289 * (12321) && ROOTS[396] * ROOTS[396] - (1) * ROOTS[198] * 10952 == 12289 * (6136) && ROOTS[397] * ROOTS[397] - (-1) * ROOTS[198] * 10952 == 12289 * (4537) && ROOTS[398] * ROOTS[398] - (1) * ROOTS[199] * 10952 == 12289 * (1345) && ROOTS[399] * ROOTS[399] - (-1) * ROOTS[199] * 10952 == 12289 * (13449) && ROOTS[400] * ROOTS[400] - (1) * ROOTS[200] * 10952 == 12289 * (-3095) && ROOTS[401] * ROOTS[401] - (-1) * ROOTS[200] * 10952 == 12289 * (4617) && ROOTS[402] * ROOTS[402] - (1) * ROOTS[201] * 10952 == 12289 * (-1207) && ROOTS[403] * ROOTS[403] - (-1) * ROOTS[201] * 10952 == 12289 * (19332) && ROOTS[404] * ROOTS[404] - (1) * ROOTS[202] * 10952 == 12289 * (-3871) && ROOTS[405] * ROOTS[405] - (-1) * ROOTS[202] * 10952 == 12289 * (14572) && ROOTS[406] * ROOTS[406] - (1) * ROOTS[203] * 10952 == 12289 * (-3607) && ROOTS[407] * ROOTS[407] - (-1) * ROOTS[203] * 10952 == 12289 * (14600) && ROOTS[408] * ROOTS[408] - (1) * ROOTS[204] * 10952 == 12289 * (-1031) && ROOTS[409] * ROOTS[409] - (-1) * ROOTS[204] * 10952 == 12289 * (11337) && ROOTS[410] * ROOTS[410] - (1) * ROOTS[205] * 10952 == 12289 * (-191) && ROOTS[411] * ROOTS[411] - (-1) * ROOTS[205] * 10952 == 12289 * (6177) && ROOTS[412] * ROOTS[412] - (1) * ROOTS[206] * 10952 == 12289 * (2196) && ROOTS[413] * ROOTS[413] - (-1) * ROOTS[206] * 10952 == 12289 * (10153) && ROOTS[414] * ROOTS[414] - (1) * ROOTS[207] * 10952 == 12289 * (388) && ROOTS[415] * ROOTS[415] - (-1) * ROOTS[207] * 10952 == 12289 * (5696) && ROOTS[416] * ROOTS[416] - (1) * ROOTS[208] * 10952 == 12289 * (1088) && ROOTS[417] * ROOTS[417] - (-1) * ROOTS[208] * 10952 == 12289 * (689) && ROOTS[418] * ROOTS[418] - (1) * ROOTS[209] * 10952 == 12289 * (3905) && ROOTS[419] * ROOTS[419] - (-1) * ROOTS[209] * 10952 == 12289 * (2844) && ROOTS[420] * ROOTS[420] - (1) * ROOTS[210] * 10952 == 12289 * (-6247) && ROOTS[421] * ROOTS[421] - (-1) * ROOTS[210] * 10952 == 12289 * (18073) && ROOTS[422] * ROOTS[422] - (1) * ROOTS[211] * 10952 == 12289 * (-8567) && ROOTS[423] * ROOTS[423] - (-1) * ROOTS[211] * 10952 == 12289 * (14745) && ROOTS[424] * ROOTS[424] - (1) * ROOTS[212] * 10952 == 12289 * (-1868) && ROOTS[425] * ROOTS[425] - (-1) * ROOTS[212] * 10952 == 12289 * (8209) && ROOTS[426] * ROOTS[426] - (1) * ROOTS[213] * 10952 == 12289 * (1236) && ROOTS[427] * ROOTS[427] - (-1) * ROOTS[213] * 10952 == 12289 * (3089) && ROOTS[428] * ROOTS[428] - (1) * ROOTS[214] * 10952 == 12289 * (-3079) && ROOTS[429] * ROOTS[429] - (-1) * ROOTS[214] * 10952 == 12289 * (16489) && ROOTS[430] * ROOTS[430] - (1) * ROOTS[215] * 10952 == 12289 * (-3671) && ROOTS[431] * ROOTS[431] - (-1) * ROOTS[215] * 10952 == 12289 * (10641) && ROOTS[432] * ROOTS[432] - (1) * ROOTS[216] * 10952 == 12289 * (-2400) && ROOTS[433] * ROOTS[433] - (-1) * ROOTS[216] * 10952 == 12289 * (10580) && ROOTS[434] * ROOTS[434] - (1) * ROOTS[217] * 10952 == 12289 * (-1855) && ROOTS[435] * ROOTS[435] - (-1) * ROOTS[217] * 10952 == 12289 * (13281) && ROOTS[436] * ROOTS[436] - (1) * ROOTS[218] * 10952 == 12289 * (1065) && ROOTS[437] * ROOTS[437] - (-1) * ROOTS[218] * 10952 == 12289 * (865) && ROOTS[438] * ROOTS[438] - (1) * ROOTS[219] * 10952 == 12289 * (1169) && ROOTS[439] * ROOTS[439] - (-1) * ROOTS[219] * 10952 == 12289 * (10856) && ROOTS[440] * ROOTS[440] - (1) * ROOTS[220] * 10952 == 12289 * (-856) && ROOTS[441] * ROOTS[441] - (-1) * ROOTS[220] * 10952 == 12289 * (18513) && ROOTS[442] * ROOTS[442] - (1) * ROOTS[221] * 10952 == 12289 * (-4812) && ROOTS[443] * ROOTS[443] - (-1) * ROOTS[221] * 10952 == 12289 * (13297) && ROOTS[444] * ROOTS[444] - (1) * ROOTS[222] * 10952 == 12289 * (-647) && ROOTS[445] * ROOTS[445] - (-1) * ROOTS[222] * 10952 == 12289 * (18337) && ROOTS[446] * ROOTS[446] - (1) * ROOTS[223] * 10952 == 12289 * (2769) && ROOTS[447] * ROOTS[447] - (-1) * ROOTS[223] * 10952 == 12289 * (6049));
    }
    assert(k == 384 || k == 385 || k == 386 || k == 387 || k == 388 || k == 389 || k == 390 || k == 391 || k == 392 || k == 393 || k == 394 || k == 395 || k == 396 || k == 397 || k == 398 || k == 399 || k == 400 || k == 401 || k == 402 || k == 403 || k == 404 || k == 405 || k == 406 || k == 407 || k == 408 || k == 409 || k == 410 || k == 411 || k == 412 || k == 413 || k == 414 || k == 415 || k == 416 || k == 417 || k == 418 || k == 419 || k == 420 || k == 421 || k == 422 || k == 423 || k == 424 || k == 425 || k == 426 || k == 427 || k == 428 || k == 429 || k == 430 || k == 431 || k == 432 || k == 433 || k == 434 || k == 435 || k == 436 || k == 437 || k == 438 || k == 439 || k == 440 || k == 441 || k == 442 || k == 443 || k == 444 || k == 445 || k == 446 || k == 447);
}

proof fn lemma_root_squares_448(k: int)
    requires
        448 <= k < 512,
    ensures
        root_square_ok(k, k / 2, if k % 2 == 0 { 1int } else { -1int }),
{
    assert(root_square_ok(448, 224, 1) && root_square_ok(449, 224, -1) && root_square_ok(450, 225, 1) && root_square_ok(451, 225, -1) && root_square_ok(452, 226, 1) && root_square_ok(453, 226, -1) && root_square_ok(454, 227, 1) && root_square_ok(455, 227, -1) && root_square_ok(456, 228, 1) && root_square_ok(457, 228, -1) && root_square_ok(458, 229, 1) && root_square_ok(459, 229, -1) && root_square_ok(460, 230, 1) && root_square_ok(461, 230, -1) && root_square_ok(462, 231, 1) && root_square_ok(463, 231, -1) && root_square_ok(464, 232, 1) && root_square_ok(465, 232, -1) && root_square_ok(466, 233, 1) && root_square_ok(467, 233, -1) && root_square_ok(468, 234, 1) && root_square_ok(469, 234, -1) && root_square_ok(470, 235, 1) && root_square_ok(471, 235, -1) && root_square_ok(472, 236, 1) && root_square_ok(473, 236, -1) && root_square_ok(474, 237, 1) && root_square_ok(475, 237, -1) && root_square_ok(476, 238, 1) && root_square_ok(477, 238, -1) && root_square_ok(478, 239, 1) && root_square_ok(479, 239, -1) && root_square_ok(480, 240, 1) && root_square_ok(481, 240, -1) && root_square_ok(482, 241, 1) && root_square_ok(483, 241, -1) && root_square_ok(484, 242, 1) && root_square_ok(485, 242, -1) && root_square_ok(486, 243, 1) && root_square_ok(487, 243, -1) && root_square_ok(488, 244, 1) && root_square_ok(489, 244, -1) && root_square_ok(490, 245, 1) && root_square_ok(491, 245, -1) && root_square_ok(492, 246, 1) && root_square_ok(493, 246, -1) && root_square_ok(494, 247, 1) && root_square_ok(495, 247, -1) && root_square_ok(496, 248, 1) && root_square_ok(497, 248, -1) && root_square_ok(498, 249, 1) && root_square_ok(499, 249, -1) && root_square_ok(500, 250, 1) && root_square_ok(501, 250, -1) && root_square_ok(502, 251, 1) && root_square_ok(503, 251, -1) && root_square_ok(504, 252, 1) && root_square_ok(505, 252, -1) && root_square_ok(506, 253, 1) && root_square_ok(507, 253, -1) && root_square_ok(508, 254, 1) && root_square_ok(509, 254, -1) && root_square_ok(510, 255, 1) && root_square_ok(511, 255, -1)) by {
        reveal(root_square_ok);
        assert(ROOTS[448] * ROOTS[448] - (1) * ROOTS[224] * 10952 == 12289 * (9268) && ROOTS[449] * ROOTS[449] - (-1) * ROOTS[224] * 10952 == 12289 * (2880) && ROOTS[450] * ROOTS[450] - (1) * ROOTS[225] * 10952 == 12289 * (-463) && ROOTS[451] * ROOTS[451] - (-1) * ROOTS[225] * 10952 == 12289 * (3792) && ROOTS[452] * ROOTS[452] - (1) * ROOTS[226] * 10952 == 12289 * (2752) && ROOTS[453] * ROOTS[453] - (-1) * ROOTS[226] * 10952 == 12289 * (13009) && ROOTS[454] * ROOTS[454] - (1) * ROOTS[227] * 10952 == 12289 * (11936) && ROOTS[455] * ROOTS[455] - (-1) * ROOTS[227] * 10952 == 12289 * (833) && ROOTS[456] * ROOTS[456] - (1) * ROOTS[228] * 10952 == 12289 * (-7480) && ROOTS[457] * ROOTS[457] - (-1) * ROOTS[228] * 10952 == 12289 * (11105) && ROOTS[458] * ROOTS[458] - (1) * ROOTS[229] * 10952 == 12289 * (216) && ROOTS[459] * ROOTS[459] - (-1) * ROOTS[229] * 10952 == 12289 * (13240) && ROOTS[460] * ROOTS[460] - (1) * ROOTS[230] * 10952 == 12289 * (-9800) && ROOTS[461] * ROOTS[461] - (-1) * ROOTS[230] * 10952 == 12289 * (14296) && ROOTS[462] * ROOTS[462] - (1) * ROOTS[231] * 10952 == 12289 * (1721) && ROOTS[463] * ROOTS[463] - (-1) * ROOTS[231] * 10952 == 12289 * (2048) && ROOTS[464] * ROOTS[464] - (1) * ROOTS[232] * 10952 == 12289 * (-5052) && ROOTS[465] * ROOTS[465] - (-1) * ROOTS[232] * 10952 == 12289 * (17072) && ROOTS[466] * ROOTS[466] - (1) * ROOTS[233] * 10952 == 12289 * (-3295) && ROOTS[467] * ROOTS[467] - (-1) * ROOTS[233] * 10952 == 12289 * (11004) && ROOTS[468] * ROOTS[468] - (1) * ROOTS[234] * 10952 == 12289 * (-5740) && ROOTS[469] * ROOTS[469] - (-1) * ROOTS[234] * 10952 == 12289 * (8377) && ROOTS[470] * ROOTS[470] - (1) * ROOTS[235] * 10952 == 12289 * (-2632) && ROOTS[471] * ROOTS[471] - (-1) * ROOTS[235] * 10952 == 12289 * (10952) && ROOTS[472] * ROOTS[472] - (1) * ROOTS[236] * 10952 == 12289 * (-4823) && ROOTS[473] * ROOTS[473] - (-1) * ROOTS[236] * 10952 == 12289 * (4849) && ROOTS[474] * ROOTS[474] - (1) * ROOTS[237] * 10952 == 12289 * (-6964) && ROOTS[475] * ROOTS[475] - (-1) * ROOTS[237] * 10952 == 12289 * (10712) && ROOTS[476] * ROOTS[476] - (1) * ROOTS[238] * 10952 == 12289 * (-6296) && ROOTS[477] * ROOTS[477] - (-1) * ROOTS[238] * 10952 == 12289 * (8296) && ROOTS[478] * ROOTS[478] - (1) * ROOTS[239] * 10952 == 12289 * (-2688) && ROOTS[479] * ROOTS[479] - (-1) * ROOTS[239] * 10952 == 12289 * (11472) && ROOTS[480] * ROOTS[480] - (1) * ROOTS[240] * 10952 == 12289 * (8788) && ROOTS[481] * ROOTS[481] - (-1) * ROOTS[240] * 10952 == 12289 * (273) && ROOTS[482] * ROOTS[482] - (1) * ROOTS[241] * 10952 == 12289 * (-1512) && ROOTS[483] * ROOTS[483] - (-1) * ROOTS[241] * 10952 == 12289 * (18236) && ROOTS[484] * ROOTS[484] - (1) * ROOTS[242] * 10952 == 12289 * (-4824) && ROOTS[485] * ROOTS[485] - (-1) * ROOTS[242] * 10952 == 12289 * (12857) && ROOTS[486] * ROOTS[486] - (1) * ROOTS[243] * 10952 == 12289 * (9292) && ROOTS[487] * ROOTS[487] - (-1) * ROOTS[243] * 10952 == 12289 * (2140) && ROOTS[488] * ROOTS[488] - (1) * ROOTS[244] * 10952 == 12289 * (-2048) && ROOTS[489] * ROOTS[489] - (-1) * ROOTS[244] * 10952 == 12289 * (11457) && ROOTS[490] * ROOTS[490] - (1) * ROOTS[245] * 10952 == 12289 * (-10708) && ROOTS[491] * ROOTS[491] - (-1) * ROOTS[245] * 10952 == 12289 * (12393) && ROOTS[492] * ROOTS[492] - (1) * ROOTS[246] * 10952 == 12289 * (-3927) && ROOTS[493] * ROOTS[493] - (-1) * ROOTS[246] * 10952 == 12289 * (15276) && ROOTS[494] * ROOTS[494] - (1) * ROOTS[247] * 10952 == 12289 * (-3312) && ROOTS[495] * ROOTS[495] - (-1) * ROOTS[247] * 10952 == 12289 * (6160) && ROOTS[496] * ROOTS[496] - (1) * ROOTS[248] * 10952 == 12289 * (-8532) && ROOTS[497] * ROOTS[497] - (-1) * ROOTS[248] * 10952 == 12289 * (11761) && ROOTS[498] * ROOTS[498] - (1) * ROOTS[249] * 10952 == 12289 * (-1708) && ROOTS[499] * ROOTS[499] - (-1) * ROOTS[249] * 10952 == 12289 * (3476) && ROOTS[500] * ROOTS[500] - (1) * ROOTS[250] * 10952 == 12289 * (-10415) && ROOTS[501] * ROOTS[501] - (-1) * ROOTS[250] * 10952 == 12289 * (20025) && ROOTS[502] * ROOTS[502] - (1) * ROOTS[251] * 10952 == 12289 * (4529) && ROOTS[503] * ROOTS[503] - (-1) * ROOTS[251] * 10952 == 12289 * (4057) && ROOTS[504] * ROOTS[504] - (1) * ROOTS[252] * 10952 == 12289 * (-4472) && ROOTS[505] * ROOTS[505] - (-1) * ROOTS[252] * 10952 == 12289 * (16408) && ROOTS[506] * ROOTS[506] - (1) * ROOTS[253] * 10952 == 12289 * (7896) && ROOTS[507] * ROOTS[507] - (-1) * ROOTS[253] * 10952 == 12289 * (13672) && ROOTS[508] * ROOTS[508] - (1) * ROOTS[254] * 10952 == 12289 * (-224) && ROOTS[509] * ROOTS[509] - (-1) * ROOTS[254] * 10952 == 12289 * (10368) && ROOTS[510] * ROOTS[510] - (1) * ROOTS[255] * 10952 == 12289 * (-2087) && ROOTS[511] * ROOTS[511] - (-1) * ROOTS[255] * 10952 == 12289 * (4612));
    }
    assert(k == 448 || k == 449 || k == 450 || k == 451 || k == 452 || k == 453 || k == 454 || k == 455 || k == 456 || k == 457 || k == 458 || k == 459 || k == 460 || k == 461 || k == 462 || k == 463 || k == 464 || k == 465 || k == 466 || k == 467 || k == 468 || k == 469 || k == 470 || k == 471 || k == 472 || k == 473 || k == 474 || k == 475 || k == 476 || k == 477 || k == 478 || k == 479 || k == 480 || k == 481 || k == 482 || k == 483 || k == 484 || k == 485 || k == 486 || k == 487 || k == 488 || k == 489 || k == 490 || k == 491 || k == 492 || k == 493 || k == 494 || k == 495 || k == 496 || k == 497 || k == 498 || k == 499 || k == 500 || k == 501 || k == 502 || k == 503 || k == 504 || k == 505 || k == 506 || k == 507 || k == 508 || k == 509 || k == 510 || k == 511);
}

proof fn lemma_root_squares_512(k: int)
    requires
        512 <= k < 576,
    ensures
        root_square_ok(k, k / 2, if k % 2 == 0 { 1int } else { -1int }),
{
    assert(root_square_ok(512, 256, 1) && root_square_ok(513, 256, -1) && root_square_ok(514, 257, 1) && root_square_ok(515, 257, -1) && root_square_ok(516, 258, 1) && root_square_ok(517, 258, -1) && root_square_ok(518, 259, 1) && root_square_ok(519, 259, -1) && root_square_ok(520, 260, 1) && root_square_ok(521, 260, -1) && root_square_ok(522, 261, 1) && root_square_ok(523, 261, -1) && root_square_ok(524, 262, 1) && root_square_ok(525, 262, -1) && root_square_ok(526, 263, 1) && root_square_ok(527, 263, -1) && root_square_ok(528, 264, 1) && root_square_ok(529, 264, -1) && root_square_ok(530, 265, 1) && root_square_ok(531, 265, -1) && root_square_ok(532, 266, 1) && root_square_ok(533, 266, -1) && root_square_ok(534, 267, 1) && root_square_ok(535, 267, -1) && root_square_ok(536, 268, 1) && root_square_ok(537, 268, -1) && root_square_ok(538, 269, 1) && root_square_ok(539, 269, -1) && root_square_ok(540, 270, 1) && root_square_ok(541, 270, -1) && root_square_ok(542, 271, 1) && root_square_ok(543, 271, -1) && root_square_ok(544, 272, 1) && root_square_ok(545, 272, -1) && root_square_ok(546, 273, 1) && root_square_ok(547, 273, -1) && root_square_ok(548, 274, 1) && root_square_ok(549, 274, -1) && root_square_ok(550, 275, 1) && root_square_ok(551, 275, -1) && root_square_ok(552, 276, 1) && root_square_ok(553, 276, -1) && root_square_ok(554, 277, 1) && root_square_ok(555, 277, -1) && root_square_ok(556, 278, 1) && root_square_ok(557, 278, -1) && root_square_ok(558, 279, 1) && root_square_ok(559, 279, -1) && root_square_ok(560, 280, 1) && root_square_ok(561, 280, -1) && root_square_ok(562, 281, 1) && root_square_ok(563, 281, -1) && root_square_ok(564, 282, 1) && root_square_ok(565, 282, -1) && root_square_ok(566, 283, 1) && root_square_ok(567, 283, -1) && root_square_ok(568, 284, 1) && root_square_ok(569, 284, -1) && root_square_ok(570, 285, 1) && root_square_ok(571, 285, -1) && root_square_ok(572, 286, 1) && root_square_ok(573, 286, -1) && root_square_ok(574, 287, 1) && root_square_ok(575, 287, -1)) by {
        reveal(root_square_ok);
        assert(ROOTS[512] * ROOTS[512] - (1) * ROOTS[256] * 10952 == 12289 * (-6628) && ROOTS[513] * ROOTS[513] - (-1) * ROOTS[256] * 10952 == 12289 * (9009) && ROOTS[514] * ROOTS[514] - (1) * ROOTS[257] * 10952 == 12289 * (-6407) && ROOTS[515] * ROOTS[515] - (-1) * ROOTS[257] * 10952 == 12289 * (17569) && ROOTS[516] * ROOTS[516] - (1) * ROOTS[258] * 10952 == 12289 * (3868) && ROOTS[517] * ROOTS[517] - (-1) * ROOTS[258] * 10952 == 12289 * (5384) && ROOTS[518] * ROOTS[518] - (1) * ROOTS[259] * 10952 == 12289 * (-2695) && ROOTS[519] * ROOTS[519] - (-1) * ROOTS[259] * 10952 == 12289 * (8700) && ROOTS[520] * ROOTS[520] - (1) * ROOTS[260] * 10952 == 12289 * (-7784) && ROOTS[521] * ROOTS[521] - (-1) * ROOTS[260] * 10952 == 12289 * (14712) && ROOTS[522] * ROOTS[522] - (1) * ROOTS[261] * 10952 == 12289 * (-10391) && ROOTS[523] * ROOTS[523] - (-1) * ROOTS[261] * 10952 == 12289 * (12313) && ROOTS[524] * ROOTS[524] - (1) * ROOTS[262] * 10952 == 12289 * (1297) && ROOTS[525] * ROOTS[525] - (-1) * ROOTS[262] * 10952 == 12289 * (14040) && ROOTS[526] * ROOTS[526] - (1) * ROOTS[263] * 10952 == 12289 * (2089) && ROOTS[527] * ROOTS[527] - (-1) * ROOTS[263] * 10952 == 12289 * (5481) && ROOTS[528] * ROOTS[528] - (1) * ROOTS[264] * 10952 == 12289 * (-1688) && ROOTS[529] * ROOTS[529] - (-1) * ROOTS[264] * 10952 == 12289 * (5977) && ROOTS[530] * ROOTS[530] - (1) * ROOTS[265] * 10952 == 12289 * (-9864) && ROOTS[531] * ROOTS[531] - (-1) * ROOTS[265] * 10952 == 12289 * (16729) && ROOTS[532] * ROOTS[532] - (1) * ROOTS[266] * 10952 == 12289 * (2129) && ROOTS[533] * ROOTS[533] - (-1) * ROOTS[266] * 10952 == 12289 * (10896) && ROOTS[534] * ROOTS[534] - (1) * ROOTS[267] * 10952 == 12289 * (-2743) && ROOTS[535] * ROOTS[535] - (-1) * ROOTS[267] * 10952 == 12289 * (10969) && ROOTS[536] * ROOTS[536] - (1) * ROOTS[268] * 10952 == 12289 * (-3591) && ROOTS[537] * ROOTS[537] - (-1) * ROOTS[268] * 10952 == 12289 * (11441) && ROOTS[538] * ROOTS[538] - (1) * ROOTS[269] * 10952 == 12289 * (-4175) && ROOTS[539] * ROOTS[539] - (-1) * ROOTS[269] * 10952 == 12289 * (12265) && ROOTS[540] * ROOTS[540] - (1) * ROOTS[270] * 10952 == 12289 * (-652) && ROOTS[541] * ROOTS[541] - (-1) * ROOTS[270] * 10952 == 12289 * (8752) && ROOTS[542] * ROOTS[542] - (1) * ROOTS[271] * 10952 == 12289 * (-1759) && ROOTS[543] * ROOTS[543] - (-1) * ROOTS[271] * 10952 == 12289 * (2096) && ROOTS[544] * ROOTS[544] - (1) * ROOTS[272] * 10952 == 12289 * (412) && ROOTS[545] * ROOTS[545] - (-1) * ROOTS[272] * 10952 == 12289 * (9713) && ROOTS[546] * ROOTS[546] - (1) * ROOTS[273] * 10952 == 12289 * (-3436) && ROOTS[547] * ROOTS[547] - (-1) * ROOTS[273] * 10952 == 12289 * (9681) && ROOTS[548] * ROOTS[548] - (1) * ROOTS[274] * 10952 == 12289 * (-2460) && ROOTS[549] * ROOTS[549] - (-1) * ROOTS[274] * 10952 == 12289 * (14980) && ROOTS[550] * ROOTS[550] - (1) * ROOTS[275] * 10952 == 12289 * (3248) && ROOTS[551] * ROOTS[551] - (-1) * ROOTS[275] * 10952 == 12289 * (10449) && ROOTS[552] * ROOTS[552] - (1) * ROOTS[276] * 10952 == 12289 * (-2015) && ROOTS[553] * ROOTS[553] - (-1) * ROOTS[276] * 10952 == 12289 * (4065) && ROOTS[554] * ROOTS[554] - (1) * ROOTS[277] * 10952 == 12289 * (-5276) && ROOTS[555] * ROOTS[555] - (-1) * ROOTS[277] * 10952 == 12289 * (8857) && ROOTS[556] * ROOTS[556] - (1) * ROOTS[278] * 10952 == 12289 * (4121) && ROOTS[557] * ROOTS[557] - (-1) * ROOTS[278] * 10952 == 12289 * (10220) && ROOTS[558] * ROOTS[558] - (1) * ROOTS[279] * 10952 == 12289 * (4004) && ROOTS[559] * ROOTS[559] - (-1) * ROOTS[279] * 10952 == 12289 * (3761) && ROOTS[560] * ROOTS[560] - (1) * ROOTS[280] * 10952 == 12289 * (2012) && ROOTS[561] * ROOTS[561] - (-1) * ROOTS[280] * 10952 == 12289 * (15372) && ROOTS[562] * ROOTS[562] - (1) * ROOTS[281] * 10952 == 12289 * (-8196) && ROOTS[563] * ROOTS[563] - (-1) * ROOTS[281] * 10952 == 12289 * (12265) && ROOTS[564] * ROOTS[564] - (1) * ROOTS[282] * 10952 == 12289 * (977) && ROOTS[565] * ROOTS[565] - (-1) * ROOTS[282] * 10952 == 12289 * (8280) && ROOTS[566] * ROOTS[566] - (1) * ROOTS[283] * 10952 == 12289 * (-4492) && ROOTS[567] * ROOTS[567] - (-1) * ROOTS[283] * 10952 == 12289 * (8592) && ROOTS[568] * ROOTS[568] - (1) * ROOTS[284] * 10952 == 12289 * (-5511) && ROOTS[569] * ROOTS[569] - (-1) * ROOTS[284] * 10952 == 12289 * (10345) && ROOTS[570] * ROOTS[570] - (1) * ROOTS[285] * 10952 == 12289 * (-3424) && ROOTS[571] * ROOTS[571] - (-1) * ROOTS[285] * 10952 == 12289 * (3824) && ROOTS[572] * ROOTS[572] - (1) * ROOTS[286] * 10952 == 12289 * (-4644) && ROOTS[573] * ROOTS[573] - (-1) * ROOTS[286] * 10952 == 12289 * (9864) && ROOTS[574] * ROOTS[574] - (1) * ROOTS[287] * 10952 == 12289 * (-3772) && ROOTS[575] * ROOTS[575] - (-1) * ROOTS[287] * 10952 == 12289 * (18596));
    }
    assert(k == 512 || k == 513 || k == 514 || k == 515 || k == 516 || k == 517 || k == 518 || k == 519 || k == 520 || k == 521 || k == 522 || k == 523 || k == 524 || k == 525 || k == 526 || k == 527 || k == 528 || k == 529 || k == 530 || k == 531 || k == 532 || k == 533 || k == 534 || k == 535 || k == 536 || k == 537 || k == 538 || k == 539 || k == 540 || k == 541 || k == 542 || k == 543 || k == 544 || k == 545 || k == 546 || k == 547 || k == 548 || k == 549 || k == 550 || k == 551 || k == 552 || k == 553 || k == 554 || k == 555 || k == 556 || k == 557 || k == 558 || k == 559 || k == 560 || k == 561 || k == 562 || k == 563 || k == 564 || k == 565 || k == 566 || k == 567 || k == 568 || k == 569 || k == 570 || k == 571 || k == 572 || k == 573 || k == 574 || k == 575);
}

proof fn lemma_root_squares_576(k: int)
    requires
        576 <= k < 640,
    ensures
        root_square_ok(k, k / 2, if k % 2 == 0 { 1int } else { -1int }),
{
    assert(root_square_ok(576, 288, 1) && root_square_ok(577, 288, -1) && root_square_ok(578, 289, 1) && root_square_ok(579, 289, -1) && root_square_ok(580, 290, 1) && root_square_ok(581, 290, -1) && root_square_ok(582, 291, 1) && root_square_ok(583, 291, -1) && root_square_ok(584, 292, 1) && root_square_ok(585, 292, -1) && root_square_ok(586, 293, 1) && root_square_ok(587, 293, -1) && root_square_ok(588, 294, 1) && root_square_ok(589, 294, -1) && root_square_ok(590, 295, 1) && root_square_ok(591, 295, -1) && root_square_ok(592, 296, 1) && root_square_ok(593, 296, -1) && root_square_ok(594, 297, 1) && root_square_ok(595, 297, -1) && root_square_ok(596, 298, 1) && root_square_ok(597, 298, -1) && root_square_ok(598, 299, 1) && root_square_ok(599, 299, -1) && root_square_ok(600, 300, 1) && root_square_ok(601, 300, -1) && root_square_ok(602, 301, 1) && root_square_ok(603, 301, -1) && root_square_ok(604, 302, 1) && root_square_ok(605, 302, -1) && root_square_ok(606, 303, 1) && root_square_ok(607, 303, -1) && root_square_ok(608, 304, 1) && root_square_ok(609, 304, -1) && root_square_ok(610, 305, 1) && root_square_ok(611, 305, -1) && root_square_ok(612, 306, 1) && root_square_ok(613, 306, -1) && root_square_ok(614, 307, 1) && root_square_ok(615, 307, -1) && root_square_ok(616, 308, 1) && root_square_ok(617, 308, -1) && root_square_ok(618, 309, 1) && root_square_ok(619, 309, -1) && root_square_ok(620, 310, 1) && root_square_ok(621, 310, -1) && root_square_ok(622, 311, 1) && root_square_ok(623, 311, -1) && root_square_ok(624, 312, 1) && root_square_ok(625, 312, -1) && root_square_ok(626, 313, 1) && root_square_ok(627, 313, -1) && root_square_ok(628, 314, 1) && root_square_ok(629, 314, -1) && root_square_ok(630, 315, 1) && root_square_ok(631, 315, -1) && root_square_ok(632, 316, 1) && root_square_ok(633, 316, -1) && root_square_ok(634, 317, 1) && root_square_ok(635, 317, -1) && root_square_ok(636, 318, 1) && root_square_ok(637, 318, -1) && root_square_ok(638, 319, 1) && root_square_ok(639, 319, -1)) by {
        reveal(root_square_ok);
        assert(ROOTS[576] * ROOTS[576] - (1) * ROOTS[288] * 10952 == 12289 * (-1680) && ROOTS[577] * ROOTS[577] - (-1) * ROOTS[288] * 10952 == 12289 * (4324) && ROOTS[578] * ROOTS[578] - (1) * ROOTS[289] * 10952 == 12289 * (-1512) && ROOTS[579] * ROOTS[579] - (-1) * ROOTS[289] * 10952 == 12289 * (12537) && ROOTS[580] * ROOTS[580] - (1) * ROOTS[290] * 10952 == 12289 * (708) && ROOTS[581] * ROOTS[581] - (-1) * ROOTS[290] * 10952 == 12289 * (6377) && ROOTS[582] * ROOTS[582] - (1) * ROOTS[291] * 10952 == 12289 * (-2888) && ROOTS[583] * ROOTS[583] - (-1) * ROOTS[291] * 10952 == 12289 * (7272) && ROOTS[584] * ROOTS[584] - (1) * ROOTS[292] * 10952 == 12289 * (4273) && ROOTS[585] * ROOTS[585] - (-1) * ROOTS[292] * 10952 == 12289 * (15081) && ROOTS[586] * ROOTS[586] - (1) * ROOTS[293] * 10952 == 12289 * (5001) && ROOTS[587] * ROOTS[587] - (-1) * ROOTS[293] * 10952 == 12289 * (9716) && ROOTS[588] * ROOTS[588] - (1) * ROOTS[294] * 10952 == 12289 * (5680) && ROOTS[589] * ROOTS[589] - (-1) * ROOTS[294] * 10952 == 12289 * (16260) && ROOTS[590] * ROOTS[590] - (1) * ROOTS[295] * 10952 == 12289 * (577) && ROOTS[591] * ROOTS[591] - (-1) * ROOTS[295] * 10952 == 12289 * (20977) && ROOTS[592] * ROOTS[592] - (1) * ROOTS[296] * 10952 == 12289 * (-8367) && ROOTS[593] * ROOTS[593] - (-1) * ROOTS[296] * 10952 == 12289 * (9681) && ROOTS[594] * ROOTS[594] - (1) * ROOTS[297] * 10952 == 12289 * (940) && ROOTS[595] * ROOTS[595] - (-1) * ROOTS[297] * 10952 == 12289 * (3964) && ROOTS[596] * ROOTS[596] - (1) * ROOTS[298] * 10952 == 12289 * (-6932) && ROOTS[597] * ROOTS[597] - (-1) * ROOTS[298] * 10952 == 12289 * (10041) && ROOTS[598] * ROOTS[598] - (1) * ROOTS[299] * 10952 == 12289 * (536) && ROOTS[599] * ROOTS[599] - (-1) * ROOTS[299] * 10952 == 12289 * (3089) && ROOTS[600] * ROOTS[600] - (1) * ROOTS[300] * 10952 == 12289 * (-4231) && ROOTS[601] * ROOTS[601] - (-1) * ROOTS[300] * 10952 == 12289 * (10716) && ROOTS[602] * ROOTS[602] - (1) * ROOTS[301] * 10952 == 12289 * (2464) && ROOTS[603] * ROOTS[603] - (-1) * ROOTS[301] * 10952 == 12289 * (6756) && ROOTS[604] * ROOTS[604] - (1) * ROOTS[302] * 10952 == 12289 * (3100) && ROOTS[605] * ROOTS[605] - (-1) * ROOTS[302] * 10952 == 12289 * (9292) && ROOTS[606] * ROOTS[606] - (1) * ROOTS[303] * 10952 == 12289 * (-4004) && ROOTS[607] * ROOTS[607] - (-1) * ROOTS[303] * 10952 == 12289 * (9688) && ROOTS[608] * ROOTS[608] - (1) * ROOTS[304] * 10952 == 12289 * (-6748) && ROOTS[609] * ROOTS[609] - (-1) * ROOTS[304] * 10952 == 12289 * (11108) && ROOTS[610] * ROOTS[610] - (1) * ROOTS[305] * 10952 == 12289 * (-3391) && ROOTS[611] * ROOTS[611] - (-1) * ROOTS[305] * 10952 == 12289 * (9168) && ROOTS[612] * ROOTS[612] - (1) * ROOTS[306] * 10952 == 12289 * (3529) && ROOTS[613] * ROOTS[613] - (-1) * ROOTS[306] * 10952 == 12289 * (8820) && ROOTS[614] * ROOTS[614] - (1) * ROOTS[307] * 10952 == 12289 * (6012) && ROOTS[615] * ROOTS[615] - (-1) * ROOTS[307] * 10952 == 12289 * (6377) && ROOTS[616] * ROOTS[616] - (1) * ROOTS[308] * 10952 == 12289 * (-8983) && ROOTS[617] * ROOTS[617] - (-1) * ROOTS[308] * 10952 == 12289 * (20961) && ROOTS[618] * ROOTS[618] - (1) * ROOTS[309] * 10952 == 12289 * (3492) && ROOTS[619] * ROOTS[619] - (-1) * ROOTS[309] * 10952 == 12289 * (10864) && ROOTS[620] * ROOTS[620] - (1) * ROOTS[310] * 10952 == 12289 * (-10452) && ROOTS[621] * ROOTS[621] - (-1) * ROOTS[310] * 10952 == 12289 * (13481) && ROOTS[622] * ROOTS[622] - (1) * ROOTS[311] * 10952 == 12289 * (-7775) && ROOTS[623] * ROOTS[623] - (-1) * ROOTS[311] * 10952 == 12289 * (20385) && ROOTS[624] * ROOTS[624] - (1) * ROOTS[312] * 10952 == 12289 * (716) && ROOTS[625] * ROOTS[625] - (-1) * ROOTS[312] * 10952 == 12289 * (8604) && ROOTS[626] * ROOTS[626] - (1) * ROOTS[313] * 10952 == 12289 * (-5343) && ROOTS[627] * ROOTS[627] - (-1) * ROOTS[313] * 10952 == 12289 * (17888) && ROOTS[628] * ROOTS[628] - (1) * ROOTS[314] * 10952 == 12289 * (-1108) && ROOTS[629] * ROOTS[629] - (-1) * ROOTS[314] * 10952 == 12289 * (2744) && ROOTS[630] * ROOTS[630] - (1) * ROOTS[315] * 10952 == 12289 * (5121) && ROOTS[631] * ROOTS[631] - (-1) * ROOTS[315] * 10952 == 12289 * (13129) && ROOTS[632] * ROOTS[632] - (1) * ROOTS[316] * 10952 == 12289 * (-199) && ROOTS[633] * ROOTS[633] - (-1) * ROOTS[316] * 10952 == 12289 * (4052) && ROOTS[634] * ROOTS[634] - (1) * ROOTS[317] * 10952 == 12289 * (-1647) && ROOTS[635] * ROOTS[635] - (-1) * ROOTS[317] * 10952 == 12289 * (5185) && ROOTS[636] * ROOTS[636] - (1) * ROOTS[318] * 10952 == 12289 * (5897) && ROOTS[637] * ROOTS[637] - (-1) * ROOTS[318] * 10952 == 12289 * (16212) && ROOTS[638] * ROOTS[638] - (1) * ROOTS[319] * 10952 == 12289 * (-1500) && ROOTS[639] * ROOTS[639] - (-1) * ROOTS[319] * 10952 == 12289 * (9700));
    }
    assert(k == 576 || k == 577 || k == 578 || k == 579 || k == 580 || k == 581 || k == 582 || k == 583 || k == 584 || k == 585 || k == 586 || k == 587 || k == 588 || k == 589 || k == 590 || k == 591 || k == 592 || k == 593 || k == 594 || k == 595 || k == 596 || k == 597 || k == 598 || k == 599 || k == 600 || k == 601 || k == 602 || k == 603 || k == 604 || k == 605 || k == 606 || k == 607 || k == 608 || k == 609 || k == 610 || k == 611 || k == 612 || k == 613 || k == 614 || k == 615 || k == 616 || k == 617 || k == 618 || k == 619 || k == 620 || k == 621 || k == 622 || k == 623 || k == 624 || k == 625 || k == 626 || k == 627 || k == 628 || k == 629 || k == 630 || k == 631 || k == 632 || k == 633 || k == 634 || k == 635 || k == 636 || k == 637 || k == 638 || k == 639);
}

proof fn lemma_root_squares_640(k: int)
    requires
        640 <= k < 704,
    ensures
        root_square_ok(k, k / 2, if k % 2 == 0 { 1int } else { -1int }),
{
    assert(root_square_ok(640, 320, 1) && root_square_ok(641, 320, -1) && root_square_ok(642, 321, 1) && root_square_ok(643, 321, -1) && root_square_ok(644, 322, 1) && root_square_ok(645, 322, -1) && root_square_ok(646, 323, 1) && root_square_ok(647, 323, -1) && root_square_ok(648, 324, 1) && root_square_ok(649, 324, -1) && root_square_ok(650, 325, 1) && root_square_ok(651, 325, -1) && root_square_ok(652, 326, 1) && root_square_ok(653, 326, -1) && root_square_ok(654, 327, 1) && root_square_ok(655, 327, -1) && root_square_ok(656, 328, 1) && root_square_ok(657, 328, -1) && root_square_ok(658, 329, 1) && root_square_ok(659, 329, -1) && root_square_ok(660, 330, 1) && root_square_ok(661, 330, -1) && root_square_ok(662, 331, 1) && root_square_ok(663, 331, -1) && root_square_ok(664, 332, 1) && root_square_ok(665, 332, -1) && root_square_ok(666, 333, 1) && root_square_ok(667, 333, -1) && root_square_ok(668, 334, 1) && root_square_ok(669, 334, -1) && root_square_ok(670, 335, 1) && root_square_ok(671, 335, -1) && root_square_ok(672, 336, 1) && root_square_ok(673, 336, -1) && root_square_ok(674, 337, 1) && root_square_ok(675, 337, -1) && root_square_ok(676, 338, 1) && root_square_ok(677, 338, -1) && root_square_ok(678, 339, 1) && root_square_ok(679, 339, -1) && root_square_ok(680, 340, 1) && root_square_ok(681, 340, -1) && root_square_ok(682, 341, 1) && root_square_ok(683, 341, -1) && root_square_ok(684, 342, 1) && root_square_ok(685, 342, -1) && root_square_ok(686, 343, 1) && root_square_ok(687, 343, -1) && root_square_ok(688, 344, 1) && root_square_ok(689, 344, -1) && root_square_ok(690, 345, 1) && root_square_ok(691, 345, -1) && root_square_ok(692, 346, 1) && root_square_ok(693, 346, -1) && root_square_ok(694, 347, 1) && root_square_ok(695, 347, -1) && root_square_ok(696, 348, 1) && root_square_ok(697, 348, -1) && root_square_ok(698, 349, 1) && root_square_ok(699, 349, -1) && root_square_ok(700, 350, 1) && root_square_ok(701, 350, -1) && root_square_ok(702, 351, 1) && root_square_ok(703, 351, -1)) by {
        reveal(root_square_ok);
        assert(ROOTS[640] * ROOTS[640] - (1) * ROOTS[320] * 10952 == 12289 * (-7340) && ROOTS[641] * ROOTS[641] - (-1) * ROOTS[320] * 10952 == 12289 * (11721) && ROOTS[642] * ROOTS[642] - (1) * ROOTS[321] * 10952 == 12289 * (2857) && ROOTS[643] * ROOTS[643] - (-1) * ROOTS[321] * 10952 == 12289 * (9369) && ROOTS[644] * ROOTS[644] - (1) * ROOTS[322] * 10952 == 12289 * (4496) && ROOTS[645] * ROOTS[645] - (-1) * ROOTS[322] * 10952 == 12289 * (8564) && ROOTS[646] * ROOTS[646] - (1) * ROOTS[323] * 10952 == 12289 * (-536) && ROOTS[647] * ROOTS[647] - (-1) * ROOTS[323] * 10952 == 12289 * (7960) && ROOTS[648] * ROOTS[648] - (1) * ROOTS[324] * 10952 == 12289 * (-8160) && ROOTS[649] * ROOTS[649] - (-1) * ROOTS[324] * 10952 == 12289 * (22000) && ROOTS[650] * ROOTS[650] - (1) * ROOTS[325] * 10952 == 12289 * (1369) && ROOTS[651] * ROOTS[651] - (-1) * ROOTS[325] * 10952 == 12289 * (8412) && ROOTS[652] * ROOTS[652] - (1) * ROOTS[326] * 10952 == 12289 * (8700) && ROOTS[653] * ROOTS[653] - (-1) * ROOTS[326] * 10952 == 12289 * (5900) && ROOTS[654] * ROOTS[654] - (1) * ROOTS[327] * 10952 == 12289 * (-1031) && ROOTS[655] * ROOTS[655] - (-1) * ROOTS[327] * 10952 == 12289 * (15120) && ROOTS[656] * ROOTS[656] - (1) * ROOTS[328] * 10952 == 12289 * (-4216) && ROOTS[657] * ROOTS[657] - (-1) * ROOTS[328] * 10952 == 12289 * (8097) && ROOTS[658] * ROOTS[658] - (1) * ROOTS[329] * 10952 == 12289 * (-8071) && ROOTS[659] * ROOTS[659] - (-1) * ROOTS[329] * 10952 == 12289 * (17081) && ROOTS[660] * ROOTS[660] - (1) * ROOTS[330] * 10952 == 12289 * (-5104) && ROOTS[661] * ROOTS[661] - (-1) * ROOTS[330] * 10952 == 12289 * (19504) && ROOTS[662] * ROOTS[662] - (1) * ROOTS[331] * 10952 == 12289 * (6504) && ROOTS[663] * ROOTS[663] - (-1) * ROOTS[331] * 10952 == 12289 * (7016) && ROOTS[664] * ROOTS[664] - (1) * ROOTS[332] * 10952 == 12289 * (-800) && ROOTS[665] * ROOTS[665] - (-1) * ROOTS[332] * 10952 == 12289 * (9385) && ROOTS[666] * ROOTS[666] - (1) * ROOTS[333] * 10952 == 12289 * (801) && ROOTS[667] * ROOTS[667] - (-1) * ROOTS[333] * 10952 == 12289 * (10436) && ROOTS[668] * ROOTS[668] - (1) * ROOTS[334] * 10952 == 12289 * (-3439) && ROOTS[669] * ROOTS[669] - (-1) * ROOTS[334] * 10952 == 12289 * (6689) && ROOTS[670] * ROOTS[670] - (1) * ROOTS[335] * 10952 == 12289 * (-420) && ROOTS[671] * ROOTS[671] - (-1) * ROOTS[335] * 10952 == 12289 * (5704) && ROOTS[672] * ROOTS[672] - (1) * ROOTS[336] * 10952 == 12289 * (1044) && ROOTS[673] * ROOTS[673] - (-1) * ROOTS[336] * 10952 == 12289 * (15776) && ROOTS[674] * ROOTS[674] - (1) * ROOTS[337] * 10952 == 12289 * (-4167) && ROOTS[675] * ROOTS[675] - (-1) * ROOTS[337] * 10952 == 12289 * (8564) && ROOTS[676] * ROOTS[676] - (1) * ROOTS[338] * 10952 == 12289 * (1369) && ROOTS[677] * ROOTS[677] - (-1) * ROOTS[338] * 10952 == 12289 * (11956) && ROOTS[678] * ROOTS[678] - (1) * ROOTS[339] * 10952 == 12289 * (5692) && ROOTS[679] * ROOTS[679] - (-1) * ROOTS[339] * 10952 == 12289 * (3073) && ROOTS[680] * ROOTS[680] - (1) * ROOTS[340] * 10952 == 12289 * (6224) && ROOTS[681] * ROOTS[681] - (-1) * ROOTS[340] * 10952 == 12289 * (6161) && ROOTS[682] * ROOTS[682] - (1) * ROOTS[341] * 10952 == 12289 * (2089) && ROOTS[683] * ROOTS[683] - (-1) * ROOTS[341] * 10952 == 12289 * (6012) && ROOTS[684] * ROOTS[684] - (1) * ROOTS[342] * 10952 == 12289 * (-4520) && ROOTS[685] * ROOTS[685] - (-1) * ROOTS[342] * 10952 == 12289 * (8952) && ROOTS[686] * ROOTS[686] - (1) * ROOTS[343] * 10952 == 12289 * (-6044) && ROOTS[687] * ROOTS[687] - (-1) * ROOTS[343] * 10952 == 12289 * (9860) && ROOTS[688] * ROOTS[688] - (1) * ROOTS[344] * 10952 == 12289 * (-496) && ROOTS[689] * ROOTS[689] - (-1) * ROOTS[344] * 10952 == 12289 * (11520) && ROOTS[690] * ROOTS[690] - (1) * ROOTS[345] * 10952 == 12289 * (-5055) && ROOTS[691] * ROOTS[691] - (-1) * ROOTS[345] * 10952 == 12289 * (13972) && ROOTS[692] * ROOTS[692] - (1) * ROOTS[346] * 10952 == 12289 * (2820) && ROOTS[693] * ROOTS[693] - (-1) * ROOTS[346] * 10952 == 12289 * (352) && ROOTS[694] * ROOTS[694] - (1) * ROOTS[347] * 10952 == 12289 * (-5484) && ROOTS[695] * ROOTS[695] - (-1) * ROOTS[347] * 10952 == 12289 * (8084) && ROOTS[696] * ROOTS[696] - (1) * ROOTS[348] * 10952 == 12289 * (3225) && ROOTS[697] * ROOTS[697] - (-1) * ROOTS[348] * 10952 == 12289 * (2497) && ROOTS[698] * ROOTS[698] - (1) * ROOTS[349] * 10952 == 12289 * (-6580) && ROOTS[699] * ROOTS[699] - (-1) * ROOTS[349] * 10952 == 12289 * (12417) && ROOTS[700] * ROOTS[700] - (1) * ROOTS[350] * 10952 == 12289 * (3201) && ROOTS[701] * ROOTS[701] - (-1) * ROOTS[350] * 10952 == 12289 * (8948) && ROOTS[702] * ROOTS[702] - (1) * ROOTS[351] * 10952 == 12289 * (-4016) && ROOTS[703] * ROOTS[703] - (-1) * ROOTS[351] * 10952 == 12289 * (16977));
    }
    assert(k == 640 || k == 641 || k == 642 || k == 643 || k == 644 || k == 645 || k == 646 || k == 647 || k == 648 || k == 649 || k == 650 || k == 651 || k == 652 || k == 653 || k == 654 || k == 655 || k == 656 || k == 657 || k == 658 || k == 659 || k == 660 || k == 661 || k == 662 || k == 663 || k == 664 || k == 665 || k == 666 || k == 667 || k == 668 || k == 669 || k == 670 || k == 671 || k == 672 || k == 673 || k == 674 || k == 675 || k == 676 || k == 677 || k == 678 || k == 679 || k == 680 || k == 681 || k == 682 || k == 683 || k == 684 || k == 685 || k == 686 || k == 687 || k == 688 || k == 689 || k == 690 || k == 691 || k == 692 || k == 693 || k == 694 || k == 695 || k == 696 || k == 697 || k == 698 || k == 699 || k == 700 || k == 701 || k == 702 || k == 703);
}

proof fn lemma_root_squares_704(k: int)
    requires
        704 <= k < 768,
    ensures
        root_square_ok(k, k / 2, if k % 2 == 0 { 1int } else { -1int }),
{
    assert(root_square_ok(704, 352, 1) && root_square_ok(705, 352, -1) && root_square_ok(706, 353, 1) && root_square_ok(707, 353, -1) && root_square_ok(708, 354, 1) && root_square_ok(709, 354, -1) && root_square_ok(710, 355, 1) && root_square_ok(711, 355, -1) && root_square_ok(712, 356, 1) && root_square_ok(713, 356, -1) && root_square_ok(714, 357, 1) && root_square_ok(715, 357, -1) && root_square_ok(716, 358, 1) && root_square_ok(717, 358, -1) && root_square_ok(718, 359, 1) && root_square_ok(719, 359, -1) && root_square_ok(720, 360, 1) && root_square_ok(721, 360, -1) && root_square_ok(722, 361, 1) && root_square_ok(723, 361, -1) && root_square_ok(724, 362, 1) && root_square_ok(725, 362, -1) && root_square_ok(726, 363, 1) && root_square_ok(727, 363, -1) && root_square_ok(728, 364, 1) && root_square_ok(729, 364, -1) && root_square_ok(730, 365, 1) && root_square_ok(731, 365, -1) && root_square_ok(732, 366, 1) && root_square_ok(733, 366, -1) && root_square_ok(734, 367, 1) && root_square_ok(735, 367, -1) && root_square_ok(736, 368, 1) && root_square_ok(737, 368, -1) && root_square_ok(738, 369, 1) && root_square_ok(739, 369, -1) && root_square_ok(740, 370, 1) && root_square_ok(741, 370, -1) && root_square_ok(742, 371, 1) && root_square_ok(743, 371, -1) && root_square_ok(744, 372, 1) && root_square_ok(745, 372, -1) && root_square_ok(746, 373, 1) && root_square_ok(747, 373, -1) && root_square_ok(748, 374, 1) && root_square_ok(749, 374, -1) && root_square_ok(750, 375, 1) && root_square_ok(751, 375, -1) && root_square_ok(752, 376, 1) && root_square_ok(753, 376, -1) && root_square_ok(754, 377, 1) && root_square_ok(755, 377, -1) && root_square_ok(756, 378, 1) && root_square_ok(757, 378, -1) && root_square_ok(758, 379, 1) && root_square_ok(759, 379, -1) && root_square_ok(760, 380, 1) && root_square_ok(761, 380, -1) && root_square_ok(762, 381, 1) && root_square_ok(763, 381, -1) && root_square_ok(764, 382, 1) && root_square_ok(765, 382, -1) && root_square_ok(766, 383, 1) && root_square_ok(767, 383, -1)) by {
        reveal(root_square_ok);
        assert(ROOTS[704] * ROOTS[704] - (1) * ROOTS[352] * 10952 == 12289 * (-6304) && ROOTS[705] * ROOTS[705] - (-1) * ROOTS[352] * 10952 == 12289 * (10849) && ROOTS[706] * ROOTS[706] - (1) * ROOTS[353] * 10952 == 12289 * (-1127) && ROOTS[707] * ROOTS[707] - (-1) * ROOTS[353] * 10952 == 12289 * (1609) && ROOTS[708] * ROOTS[708] - (1) * ROOTS[354] * 10952 == 12289 * (1369) && ROOTS[709] * ROOTS[709] - (-1) * ROOTS[354] * 10952 == 12289 * (15400) && ROOTS[710] * ROOTS[710] - (1) * ROOTS[355] * 10952 == 12289 * (769) && ROOTS[711] * ROOTS[711] - (-1) * ROOTS[355] * 10952 == 12289 * (9961) && ROOTS[712] * ROOTS[712] - (1) * ROOTS[356] * 10952 == 12289 * (-476) && ROOTS[713] * ROOTS[713] - (-1) * ROOTS[356] * 10952 == 12289 * (12121) && ROOTS[714] * ROOTS[714] - (1) * ROOTS[357] * 10952 == 12289 * (-5431) && ROOTS[715] * ROOTS[715] - (-1) * ROOTS[357] * 10952 == 12289 * (14584) && ROOTS[716] * ROOTS[716] - (1) * ROOTS[358] * 10952 == 12289 * (-200) && ROOTS[717] * ROOTS[717] - (-1) * ROOTS[358] * 10952 == 12289 * (1900) && ROOTS[718] * ROOTS[718] - (1) * ROOTS[359] * 10952 == 12289 * (-7012) && ROOTS[719] * ROOTS[719] - (-1) * ROOTS[359] * 10952 == 12289 * (11340) && ROOTS[720] * ROOTS[720] - (1) * ROOTS[360] * 10952 == 12289 * (-8820) && ROOTS[721] * ROOTS[721] - (-1) * ROOTS[360] * 10952 == 12289 * (14872) && ROOTS[722] * ROOTS[722] - (1) * ROOTS[361] * 10952 == 12289 * (-8431) && ROOTS[723] * ROOTS[723] - (-1) * ROOTS[361] * 10952 == 12289 * (9612) && ROOTS[724] * ROOTS[724] - (1) * ROOTS[362] * 10952 == 12289 * (-7247) && ROOTS[725] * ROOTS[725] - (-1) * ROOTS[362] * 10952 == 12289 * (12097) && ROOTS[726] * ROOTS[726] - (1) * ROOTS[363] * 10952 == 12289 * (-4068) && ROOTS[727] * ROOTS[727] - (-1) * ROOTS[363] * 10952 == 12289 * (7340) && ROOTS[728] * ROOTS[728] - (1) * ROOTS[364] * 10952 == 12289 * (1457) && ROOTS[729] * ROOTS[729] - (-1) * ROOTS[364] * 10952 == 12289 * (9984) && ROOTS[730] * ROOTS[730] - (1) * ROOTS[365] * 10952 == 12289 * (-3040) && ROOTS[731] * ROOTS[731] - (-1) * ROOTS[365] * 10952 == 12289 * (9344) && ROOTS[732] * ROOTS[732] - (1) * ROOTS[366] * 10952 == 12289 * (-4656) && ROOTS[733] * ROOTS[733] - (-1) * ROOTS[366] * 10952 == 12289 * (9713) && ROOTS[734] * ROOTS[734] - (1) * ROOTS[367] * 10952 == 12289 * (956) && ROOTS[735] * ROOTS[735] - (-1) * ROOTS[367] * 10952 == 12289 * (17561) && ROOTS[736] * ROOTS[736] - (1) * ROOTS[368] * 10952 == 12289 * (3433) && ROOTS[737] * ROOTS[737] - (-1) * ROOTS[368] * 10952 == 12289 * (9441) && ROOTS[738] * ROOTS[738] - (1) * ROOTS[369] * 10952 == 12289 * (-3903) && ROOTS[739] * ROOTS[739] - (-1) * ROOTS[369] * 10952 == 12289 * (7748) && ROOTS[740] * ROOTS[740] - (1) * ROOTS[370] * 10952 == 12289 * (8084) && ROOTS[741] * ROOTS[741] - (-1) * ROOTS[370] * 10952 == 12289 * (2721) && ROOTS[742] * ROOTS[742] - (1) * ROOTS[371] * 10952 == 12289 * (-9583) && ROOTS[743] * ROOTS[743] - (-1) * ROOTS[371] * 10952 == 12289 * (19856) && ROOTS[744] * ROOTS[744] - (1) * ROOTS[372] * 10952 == 12289 * (800) && ROOTS[745] * ROOTS[745] - (-1) * ROOTS[372] * 10952 == 12289 * (4257) && ROOTS[746] * ROOTS[746] - (1) * ROOTS[373] * 10952 == 12289 * (-9959) && ROOTS[747] * ROOTS[747] - (-1) * ROOTS[373] * 10952 == 12289 * (15017) && ROOTS[748] * ROOTS[748] - (1) * ROOTS[374] * 10952 == 12289 * (-7903) && ROOTS[749] * ROOTS[749] - (-1) * ROOTS[374] * 10952 == 12289 * (9824) && ROOTS[750] * ROOTS[750] - (1) * ROOTS[375] * 10952 == 12289 * (4057) && ROOTS[751] * ROOTS[751] - (-1) * ROOTS[375] * 10952 == 12289 * (12508) && ROOTS[752] * ROOTS[752] - (1) * ROOTS[376] * 10952 == 12289 * (-8444) && ROOTS[753] * ROOTS[753] - (-1) * ROOTS[376] * 10952 == 12289 * (10009) && ROOTS[754] * ROOTS[754] - (1) * ROOTS[377] * 10952 == 12289 * (664) && ROOTS[755] * ROOTS[755] - (-1) * ROOTS[377] * 10952 == 12289 * (1848) && ROOTS[756] * ROOTS[756] - (1) * ROOTS[378] * 10952 == 12289 * (3584) && ROOTS[757] * ROOTS[757] - (-1) * ROOTS[378] * 10952 == 12289 * (14769) && ROOTS[758] * ROOTS[758] - (1) * ROOTS[379] * 10952 == 12289 * (-9295) && ROOTS[759] * ROOTS[759] - (-1) * ROOTS[379] * 10952 == 12289 * (20185) && ROOTS[760] * ROOTS[760] - (1) * ROOTS[380] * 10952 == 12289 * (1160) && ROOTS[761] * ROOTS[761] - (-1) * ROOTS[380] * 10952 == 12289 * (3464) && ROOTS[762] * ROOTS[762] - (1) * ROOTS[381] * 10952 == 12289 * (-4368) && ROOTS[763] * ROOTS[763] - (-1) * ROOTS[381] * 10952 == 12289 * (10784) && ROOTS[764] * ROOTS[764] - (1) * ROOTS[382] * 10952 == 12289 * (-9392) && ROOTS[765] * ROOTS[765] - (-1) * ROOTS[382] * 10952 == 12289 * (12321) && ROOTS[766] * ROOTS[766] - (1) * ROOTS[383] * 10952 == 12289 * (-871) && ROOTS[767] * ROOTS[767] - (-1) * ROOTS[383] * 10952 == 12289 * (13281));
    }
    assert(k == 704 || k == 705 || k == 706 || k == 707 || k == 708 || k == 709 || k == 710 || k == 711 || k == 712 || k == 713 || k == 714 || k == 715 || k == 716 || k == 717 || k == 718 || k == 719 || k == 720 || k == 721 || k == 722 || k == 723 || k == 724 || k == 725 || k == 726 || k == 727 || k == 728 || k == 729 || k == 730 || k == 731 || k == 732 || k == 733 || k == 734 || k == 735 || k == 736 || k == 737 || k == 738 || k == 739 || k == 740 || k == 741 || k == 742 || k == 743 || k == 744 || k == 745 || k == 746 || k == 747 || k == 748 || k == 749 || k == 750 || k == 751 || k == 752 || k == 753 || k == 754 || k == 755 || k == 756 || k == 757 || k == 758 || k == 759 || k == 760 || k == 761 || k == 762 || k == 763 || k == 764 || k == 765 || k == 766 || k == 767);
}

proof fn lemma_root_squares_768(k: int)
    requires
        768 <= k < 832,
    ensures
        root_square_ok(k, k / 2, if k % 2 == 0 { 1int } else { -1int }),
{
    assert(root_square_ok(768, 384, 1) && root_square_ok(769, 384, -1) && root_square_ok(770, 385, 1) && root_square_ok(771, 385, -1) && root_square_ok(772, 386, 1) && root_square_ok(773, 386, -1) && root_square_ok(774, 387, 1) && root_square_ok(775, 387, -1) && root_square_ok(776, 388, 1) && root_square_ok(777, 388, -1) && root_square_ok(778, 389, 1) && root_square_ok(779, 389, -1) && root_square_ok(780, 390, 1) && root_square_ok(781, 390, -1) && root_square_ok(782, 391, 1) && root_square_ok(783, 391, -1) && root_square_ok(784, 392, 1) && root_square_ok(785, 392, -1) && root_square_ok(786, 393, 1) && root_square_ok(787, 393, -1) && root_square_ok(788, 394, 1) && root_square_ok(789, 394, -1) && root_square_ok(790, 395, 1) && root_square_ok(791, 395, -1) && root_square_ok(792, 396, 1) && root_square_ok(793, 396, -1) && root_square_ok(794, 397, 1) && root_square_ok(795, 397, -1) && root_square_ok(796, 398, 1) && root_square_ok(797, 398, -1) && root_square_ok(798, 399, 1) && root_square_ok(799, 399, -1) && root_square_ok(800, 400, 1) && root_square_ok(801, 400, -1) && root_square_ok(802, 401, 1) && root_square_ok(803, 401, -1) && root_square_ok(804, 402, 1) && root_square_ok(805, 402, -1) && root_square_ok(806, 403, 1) && root_square_ok(807, 403, -1) && root_square_ok(808, 404, 1) && root_square_ok(809, 404, -1) && root_square_ok(810, 405, 1) && root_square_ok(811, 405, -1) && root_square_ok(812, 406, 1) && root_square_ok(813, 406, -1) && root_square_ok(814, 407, 1) && root_square_ok(815, 407, -1) && root_square_ok(816, 408, 1) && root_square_ok(817, 408, -1) && root_square_ok(818, 409, 1) && root_square_ok(819, 409, -1) && root_square_ok(820, 410, 1) && root_square_ok(821, 410, -1) && root_square_ok(822, 411, 1) && root_square_ok(823, 411, -1) && root_square_ok(824, 412, 1) && root_square_ok(825, 412, -1) && root_square_ok(826, 413, 1) && root_square_ok(827, 413, -1) && root_square_ok(828, 414, 1) && root_square_ok(829, 414, -1) && root_square_ok(830, 415, 1) && root_square_ok(831, 415, -1)) by {
        reveal(root_square_ok);
        assert(ROOTS[768] * ROOTS[768] - (1) * ROOTS[384] * 10952 == 12289 * (3513) && ROOTS[769] * ROOTS[769] - (-1) * ROOTS[384] * 10952 == 12289 * (2425) && ROOTS[770] * ROOTS[770] - (1) * ROOTS[385] * 10952 == 12289 * (-6536) && ROOTS[771] * ROOTS[771] - (-1) * ROOTS[385] * 10952 == 12289 * (11697) && ROOTS[772] * ROOTS[772] - (1) * ROOTS[386] * 10952 == 12289 * (4553) && ROOTS[773] * ROOTS[773] - (-1) * ROOTS[386] * 10952 == 12289 * (18212) && ROOTS[774] * ROOTS[774] - (1) * ROOTS[387] * 10952 == 12289 * (1784) && ROOTS[775] * ROOTS[775] - (-1) * ROOTS[387] * 10952 == 12289 * (3233) && ROOTS[776] * ROOTS[776] - (1) * ROOTS[388] * 10952 == 12289 * (-6800) && ROOTS[777] * ROOTS[777] - (-1) * ROOTS[388] * 10952 == 12289 * (12321) && ROOTS[778] * ROOTS[778] - (1) * ROOTS[389] * 10952 == 12289 * (-439) && ROOTS[779] * ROOTS[779] - (-1) * ROOTS[389] * 10952 == 12289 * (3641) && ROOTS[780] * ROOTS[780] - (1) * ROOTS[390] * 10952 == 12289 * (-8956) && ROOTS[781] * ROOTS[781] - (-1) * ROOTS[390] * 10952 == 12289 * (12945) && ROOTS[782] * ROOTS[782] - (1) * ROOTS[391] * 10952 == 12289 * (-216) && ROOTS[783] * ROOTS[783] - (-1) * ROOTS[391] * 10952 == 12289 * (4849) && ROOTS[784] * ROOTS[784] - (1) * ROOTS[392] * 10952 == 12289 * (-8479) && ROOTS[785] * ROOTS[785] - (-1) * ROOTS[392] * 10952 == 12289 * (19440) && ROOTS[786] * ROOTS[786] - (1) * ROOTS[393] * 10952 == 12289 * (-4620) && ROOTS[787] * ROOTS[787] - (-1) * ROOTS[393] * 10952 == 12289 * (9577) && ROOTS[788] * ROOTS[788] - (1) * ROOTS[394] * 10952 == 12289 * (-6296) && ROOTS[789] * ROOTS[789] - (-1) * ROOTS[394] * 10952 == 12289 * (15673) && ROOTS[790] * ROOTS[790] - (1) * ROOTS[395] * 10952 == 12289 * (-5903) && ROOTS[791] * ROOTS[791] - (-1) * ROOTS[395] * 10952 == 12289 * (10588) && ROOTS[792] * ROOTS[792] - (1) * ROOTS[396] * 10952 == 12289 * (-9583) && ROOTS[793] * ROOTS[793] - (-1) * ROOTS[396] * 10952 == 12289 * (10436) && ROOTS[794] * ROOTS[794] - (1) * ROOTS[397] * 10952 == 12289 * (3544) && ROOTS[795] * ROOTS[795] - (-1) * ROOTS[397] * 10952 == 12289 * (4953) && ROOTS[796] * ROOTS[796] - (1) * ROOTS[398] * 10952 == 12289 * (-1719) && ROOTS[797] * ROOTS[797] - (-1) * ROOTS[398] * 10952 == 12289 * (8764) && ROOTS[798] * ROOTS[798] - (1) * ROOTS[399] * 10952 == 12289 * (1996) && ROOTS[799] * ROOTS[799] - (-1) * ROOTS[399] * 10952 == 12289 * (12841) && ROOTS[800] * ROOTS[800] - (1) * ROOTS[400] * 10952 == 12289 * (-1540) && ROOTS[801] * ROOTS[801] - (-1) * ROOTS[400] * 10952 == 12289 * (3945) && ROOTS[802] * ROOTS[802] - (1) * ROOTS[401] * 10952 == 12289 * (9640) && ROOTS[803] * ROOTS[803] - (-1) * ROOTS[401] * 10952 == 12289 * (4956) && ROOTS[804] * ROOTS[804] - (1) * ROOTS[402] * 10952 == 12289 * (-6943) && ROOTS[805] * ROOTS[805] - (-1) * ROOTS[402] * 10952 == 12289 * (20073) && ROOTS[806] * ROOTS[806] - (1) * ROOTS[403] * 10952 == 12289 * (-3436) && ROOTS[807] * ROOTS[807] - (-1) * ROOTS[403] * 10952 == 12289 * (14768) && ROOTS[808] * ROOTS[808] - (1) * ROOTS[404] * 10952 == 12289 * (8764) && ROOTS[809] * ROOTS[809] - (-1) * ROOTS[404] * 10952 == 12289 * (2041) && ROOTS[810] * ROOTS[810] - (1) * ROOTS[405] * 10952 == 12289 * (-8192) && ROOTS[811] * ROOTS[811] - (-1) * ROOTS[405] * 10952 == 12289 * (14260) && ROOTS[812] * ROOTS[812] - (1) * ROOTS[406] * 10952 == 12289 * (2353) && ROOTS[813] * ROOTS[813] - (-1) * ROOTS[406] * 10952 == 12289 * (19272) && ROOTS[814] * ROOTS[814] - (1) * ROOTS[407] * 10952 == 12289 * (1648) && ROOTS[815] * ROOTS[815] - (-1) * ROOTS[407] * 10952 == 12289 * (12537) && ROOTS[816] * ROOTS[816] - (1) * ROOTS[408] * 10952 == 12289 * (1449) && ROOTS[817] * ROOTS[817] - (-1) * ROOTS[408] * 10952 == 12289 * (8201) && ROOTS[818] * ROOTS[818] - (1) * ROOTS[409] * 10952 == 12289 * (-8804) && ROOTS[819] * ROOTS[819] - (-1) * ROOTS[409] * 10952 == 12289 * (10225) && ROOTS[820] * ROOTS[820] - (1) * ROOTS[410] * 10952 == 12289 * (2945) && ROOTS[821] * ROOTS[821] - (-1) * ROOTS[410] * 10952 == 12289 * (17736) && ROOTS[822] * ROOTS[822] - (1) * ROOTS[411] * 10952 == 12289 * (2185) && ROOTS[823] * ROOTS[823] - (-1) * ROOTS[411] * 10952 == 12289 * (8209) && ROOTS[824] * ROOTS[824] - (1) * ROOTS[412] * 10952 == 12289 * (-3991) && ROOTS[825] * ROOTS[825] - (-1) * ROOTS[412] * 10952 == 12289 * (10769) && ROOTS[826] * ROOTS[826] - (1) * ROOTS[413] * 10952 == 12289 * (-4952) && ROOTS[827] * ROOTS[827] - (-1) * ROOTS[413] * 10952 == 12289 * (21697) && ROOTS[828] * ROOTS[828] - (1) * ROOTS[414] * 10952 == 12289 * (-4224) && ROOTS[829] * ROOTS[829] - (-1) * ROOTS[414] * 10952 == 12289 * (13377) && ROOTS[830] * ROOTS[830] - (1) * ROOTS[415] * 10952 == 12289 * (-320) && ROOTS[831] * ROOTS[831] - (-1) * ROOTS[415] * 10952 == 12289 * (5476));
    }
    assert(k == 768 || k == 769 || k == 770 || k == 771 || k == 772 || k == 773 || k == 774 || k == 775 || k == 776 || k == 777 || k == 778 || k == 779 || k == 780 || k == 781 || k == 782 || k == 783 || k == 784 || k == 785 || k == 786 || k == 787 || k == 788 || k == 789 || k == 790 || k == 791 || k == 792 || k == 793 || k == 794 || k == 795 || k == 796 || k == 797 || k == 798 || k == 799 || k == 800 || k == 801 || k == 802 || k == 803 || k == 804 || k == 805 || k == 806 || k == 807 || k == 808 || k == 809 || k == 810 || k == 811 || k == 812 || k == 813 || k == 814 || k == 815 || k == 816 || k == 817 || k == 818 || k == 819 || k == 820 || k == 821 || k == 822 || k == 823 || k == 824 || k == 825 || k == 826 || k == 827 || k == 828 || k == 829 || k == 830 || k == 831);
}

proof fn lemma_root_squares_832(k: int)
    requires
        832 <= k < 896,
    ensures
        root_square_ok(k, k / 2, if k % 2 == 0 { 1int } else { -1int }),
{
    assert(root_square_ok(832, 416, 1) && root_square_ok(833, 416, -1) && root_square_ok(834, 417, 1) && root_square_ok(835, 417, -1) && root_square_ok(836, 418, 1) && root_square_ok(837, 418, -1) && root_square_ok(838, 419, 1) && root_square_ok(839, 419, -1) && root_square_ok(840, 420, 1) && root_square_ok(841, 420, -1) && root_square_ok(842, 421, 1) && root_square_ok(843, 421, -1) && root_square_ok(844, 422, 1) && root_square_ok(845, 422, -1) && root_square_ok(846, 423, 1) && root_square_ok(847, 423, -1) && root_square_ok(848, 424, 1) && root_square_ok(849, 424, -1) && root_square_ok(850, 425, 1) && root_square_ok(851, 425, -1) && root_square_ok(852, 426, 1) && root_square_ok(853, 426, -1) && root_square_ok(854, 427, 1) && root_square_ok(855, 427, -1) && root_square_ok(856, 428, 1) && root_square_ok(857, 428, -1) && root_square_ok(858, 429, 1) && root_square_ok(859, 429, -1) && root_square_ok(860, 430, 1) && root_square_ok(861, 430, -1) && root_square_ok(862, 431, 1) && root_square_ok(863, 431, -1) && root_square_ok(864, 432, 1) && root_square_ok(865, 432, -1) && root_square_ok(866, 433, 1) && root_square_ok(867, 433, -1) && root_square_ok(868, 434, 1) && root_square_ok(869, 434, -1) && root_square_ok(870, 435, 1) && root_square_ok(871, 435, -1) && root_square_ok(872, 436, 1) && root_square_ok(873, 436, -1) && root_square_ok(874, 437, 1) && root_square_ok(875, 437, -1) && root_square_ok(876, 438, 1) && root_square_ok(877, 438, -1) && root_square_ok(878, 439, 1) && root_square_ok(879, 439, -1) && root_square_ok(880, 440, 1) && root_square_ok(881, 440, -1) && root_square_ok(882, 441, 1) && root_square_ok(883, 441, -1) && root_square_ok(884, 442, 1) && root_square_ok(885, 442, -1) && root_square_ok(886, 443, 1) && root_square_ok(887, 443, -1) && root_square_ok(888, 444, 1) && root_square_ok(889, 444, -1) && root_square_ok(890, 445, 1) && root_square_ok(891, 445, -1) && root_square_ok(892, 446, 1) && root_square_ok(893, 446, -1) && root_square_ok(894, 447, 1) && root_square_ok(895, 447, -1)) by {
        reveal(root_square_ok);
        assert(ROOTS[832] * ROOTS[832] - (1) * ROOTS[416] * 10952 == 12289 * (-2016) && ROOTS[833] * ROOTS[833] - (-1) * ROOTS[416] * 10952 == 12289 * (3680) && ROOTS[834] * ROOTS[834] - (1) * ROOTS[417] * 10952 == 12289 * (4620) && ROOTS[835] * ROOTS[835] - (-1) * ROOTS[417] * 10952 == 12289 * (4929) && ROOTS[836] * ROOTS[836] - (1) * ROOTS[418] * 10952 == 12289 * (-5092) && ROOTS[837] * ROOTS[837] - (-1) * ROOTS[418] * 10952 == 12289 * (8044) && ROOTS[838] * ROOTS[838] - (1) * ROOTS[419] * 10952 == 12289 * (-1319) && ROOTS[839] * ROOTS[839] - (-1) * ROOTS[419] * 10952 == 12289 * (1364) && ROOTS[840] * ROOTS[840] - (1) * ROOTS[420] * 10952 == 12289 * (801) && ROOTS[841] * ROOTS[841] - (-1) * ROOTS[420] * 10952 == 12289 * (2905) && ROOTS[842] * ROOTS[842] - (1) * ROOTS[421] * 10952 == 12289 * (-3332) && ROOTS[843] * ROOTS[843] - (-1) * ROOTS[421] * 10952 == 12289 * (22177) && ROOTS[844] * ROOTS[844] - (1) * ROOTS[422] * 10952 == 12289 * (-2792) && ROOTS[845] * ROOTS[845] - (-1) * ROOTS[422] * 10952 == 12289 * (4492) && ROOTS[846] * ROOTS[846] - (1) * ROOTS[423] * 10952 == 12289 * (-6823) && ROOTS[847] * ROOTS[847] - (-1) * ROOTS[423] * 10952 == 12289 * (11816) && ROOTS[848] * ROOTS[848] - (1) * ROOTS[424] * 10952 == 12289 * (-1535) && ROOTS[849] * ROOTS[849] - (-1) * ROOTS[424] * 10952 == 12289 * (14720) && ROOTS[850] * ROOTS[850] - (1) * ROOTS[425] * 10952 == 12289 * (10169) && ROOTS[851] * ROOTS[851] - (-1) * ROOTS[425] * 10952 == 12289 * (9449) && ROOTS[852] * ROOTS[852] - (1) * ROOTS[426] * 10952 == 12289 * (-5271) && ROOTS[853] * ROOTS[853] - (-1) * ROOTS[426] * 10952 == 12289 * (10516) && ROOTS[854] * ROOTS[854] - (1) * ROOTS[427] * 10952 == 12289 * (-1864) && ROOTS[855] * ROOTS[855] - (-1) * ROOTS[427] * 10952 == 12289 * (2440) && ROOTS[856] * ROOTS[856] - (1) * ROOTS[428] * 10952 == 12289 * (-2936) && ROOTS[857] * ROOTS[857] - (-1) * ROOTS[428] * 10952 == 12289 * (12936) && ROOTS[858] * ROOTS[858] - (1) * ROOTS[429] * 10952 == 12289 * (-10488) && ROOTS[859] * ROOTS[859] - (-1) * ROOTS[429] * 10952 == 12289 * (20233) && ROOTS[860] * ROOTS[860] - (1) * ROOTS[430] * 10952 == 12289 * (-24) && ROOTS[861] * ROOTS[861] - (-1) * ROOTS[430] * 10952 == 12289 * (1369) && ROOTS[862] * ROOTS[862] - (1) * ROOTS[431] * 10952 == 12289 * (-8127) && ROOTS[863] * ROOTS[863] - (-1) * ROOTS[431] * 10952 == 12289 * (18952) && ROOTS[864] * ROOTS[864] - (1) * ROOTS[432] * 10952 == 12289 * (-3295) && ROOTS[865] * ROOTS[865] - (-1) * ROOTS[432] * 10952 == 12289 * (12817) && ROOTS[866] * ROOTS[866] - (1) * ROOTS[433] * 10952 == 12289 * (1761) && ROOTS[867] * ROOTS[867] - (-1) * ROOTS[433] * 10952 == 12289 * (6913) && ROOTS[868] * ROOTS[868] - (1) * ROOTS[434] * 10952 == 12289 * (524) && ROOTS[869] * ROOTS[869] - (-1) * ROOTS[434] * 10952 == 12289 * (10780) && ROOTS[870] * ROOTS[870] - (1) * ROOTS[435] * 10952 == 12289 * (-6631) && ROOTS[871] * ROOTS[871] - (-1) * ROOTS[435] * 10952 == 12289 * (9281) && ROOTS[872] * ROOTS[872] - (1) * ROOTS[436] * 10952 == 12289 * (1512) && ROOTS[873] * ROOTS[873] - (-1) * ROOTS[436] * 10952 == 12289 * (3961) && ROOTS[874] * ROOTS[874] - (1) * ROOTS[437] * 10952 == 12289 * (9560) && ROOTS[875] * ROOTS[875] - (-1) * ROOTS[437] * 10952 == 12289 * (4680) && ROOTS[876] * ROOTS[876] - (1) * ROOTS[438] * 10952 == 12289 * (4380) && ROOTS[877] * ROOTS[877] - (-1) * ROOTS[438] * 10952 == 12289 * (14376) && ROOTS[878] * ROOTS[878] - (1) * ROOTS[439] * 10952 == 12289 * (2201) && ROOTS[879] * ROOTS[879] - (-1) * ROOTS[439] * 10952 == 12289 * (19300) && ROOTS[880] * ROOTS[880] - (1) * ROOTS[440] * 10952 == 12289 * (-7792) && ROOTS[881] * ROOTS[881] - (-1) * ROOTS[440] * 10952 == 12289 * (17552) && ROOTS[882] * ROOTS[882] - (1) * ROOTS[441] * 10952 == 12289 * (-4055) && ROOTS[883] * ROOTS[883] - (-1) * ROOTS[441] * 10952 == 12289 * (16488) && ROOTS[884] * ROOTS[884] - (1) * ROOTS[442] * 10952 == 12289 * (3572) && ROOTS[885] * ROOTS[885] - (-1) * ROOTS[442] * 10952 == 12289 * (5268) && ROOTS[886] * ROOTS[886] - (1) * ROOTS[443] * 10952 == 12289 * (-8823) && ROOTS[887] * ROOTS[887] - (-1) * ROOTS[443] * 10952 == 12289 * (9625) && ROOTS[888] * ROOTS[888] - (1) * ROOTS[444] * 10952 == 12289 * (-5343) && ROOTS[889] * ROOTS[889] - (-1) * ROOTS[444] * 10952 == 12289 * (10049) && ROOTS[890] * ROOTS[890] - (1) * ROOTS[445] * 10952 == 12289 * (-2015) && ROOTS[891] * ROOTS[891] - (-1) * ROOTS[445] * 10952 == 12289 * (10920) && ROOTS[892] * ROOTS[892] - (1) * ROOTS[446] * 10952 == 12289 * (-9191) && ROOTS[893] * ROOTS[893] - (-1) * ROOTS[446] * 10952 == 12289 * (16428) && ROOTS[894] * ROOTS[894] - (1) * ROOTS[447] * 10952 == 12289 * (-644) && ROOTS[895] * ROOTS[895] - (-1) * ROOTS[447] * 10952 == 12289 * (5272));
    }
    assert(k == 832 || k == 833 || k == 834 || k == 835 || k == 836 || k == 837 || k == 838 || k == 839 || k == 840 || k == 841 || k == 842 || k == 843 || k == 844 || k == 845 || k == 846 || k == 847 || k == 848 || k == 849 || k == 850 || k == 851 || k == 852 || k == 853 || k == 854 || k == 855 || k == 856 || k == 857 || k == 858 || k == 859 || k == 860 || k == 861 || k == 862 || k == 863 || k == 864 || k == 865 || k == 866 || k == 867 || k == 868 || k == 869 || k == 870 || k == 871 || k == 872 || k == 873 || k == 874 || k == 875 || k == 876 || k == 877 || k == 878 || k == 879 || k == 880 || k == 881 || k == 882 || k == 883 || k == 884 || k == 885 || k == 886 || k == 887 || k == 888 || k == 889 || k == 890 || k == 891 || k == 892 || k == 893 || k == 894 || k == 895);
}

proof fn lemma_root_squares_896(k: int)
    requires
        896 <= k < 960,
    ensures
        root_square_ok(k, k / 2, if k % 2 == 0 { 1int } else { -1int }),
{
    assert(root_square_ok(896, 448, 1) && root_square_ok(897, 448, -1) && root_square_ok(898, 449, 1) && root_square_ok(899, 449, -1) && root_square_ok(900, 450, 1) && root_square_ok(901, 450, -1) && root_square_ok(902, 451, 1) && root_square_ok(903, 451, -1) && root_square_ok(904, 452, 1) && root_square_ok(905, 452, -1) && root_square_ok(906, 453, 1) && root_square_ok(907, 453, -1) && root_square_ok(908, 454, 1) && root_square_ok(909, 454, -1) && root_square_ok(910, 455, 1) && root_square_ok(911, 455, -1) && root_square_ok(912, 456, 1) && root_square_ok(913, 456, -1) && root_square_ok(914, 457, 1) && root_square_ok(915, 457, -1) && root_square_ok(916, 458, 1) && root_square_ok(917, 458, -1) && root_square_ok(918, 459, 1) && root_square_ok(919, 459, -1) && root_square_ok(920, 460, 1) && root_square_ok(921, 460, -1) && root_square_ok(922, 461, 1) && root_square_ok(923, 461, -1) && root_square_ok(924, 462, 1) && root_square_ok(925, 462, -1) && root_square_ok(926, 463, 1) && root_square_ok(927, 463, -1) && root_square_ok(928, 464, 1) && root_square_ok(929, 464, -1) && root_square_ok(930, 465, 1) && root_square_ok(931, 465, -1) && root_square_ok(932, 466, 1) && root_square_ok(933, 466, -1) && root_square_ok(934, 467, 1) && root_square_ok(935, 467, -1) && root_square_ok(936, 468, 1) && root_square_ok(937, 468, -1) && root_square_ok(938, 469, 1) && root_square_ok(939, 469, -1) && root_square_ok(940, 470, 1) && root_square_ok(941, 470, -1) && root_square_ok(942, 471, 1) && root_square_ok(943, 471, -1) && root_square_ok(944, 472, 1) && root_square_ok(945, 472, -1) && root_square_ok(946, 473, 1) && root_square_ok(947, 473, -1) && root_square_ok(948, 474, 1) && root_square_ok(949, 474, -1) && root_square_ok(950, 475, 1) && root_square_ok(951, 475, -1) && root_square_ok(952, 476, 1) && root_square_ok(953, 476, -1) && root_square_ok(954, 477, 1) && root_square_ok(955, 477, -1) && root_square_ok(956, 478, 1) && root_square_ok(957, 478, -1) && root_square_ok(958, 479, 1) && root_square_ok(959, 479, -1)) by {
        reveal(root_square_ok);
        assert(ROOTS[896] * ROOTS[896] - (1) * ROOTS[448] * 10952 == 12289 * (-8752) && ROOTS[897] * ROOTS[897] - (-1) * ROOTS[448] * 10952 == 12289 * (18753) && ROOTS[898] * ROOTS[898] - (1) * ROOTS[449] * 10952 == 12289 * (-288) && ROOTS[899] * ROOTS[899] - (-1) * ROOTS[449] * 10952 == 12289 * (2736) && ROOTS[900] * ROOTS[900] - (1) * ROOTS[450] * 10952 == 12289 * (-3384) && ROOTS[901] * ROOTS[901] - (-1) * ROOTS[450] * 10952 == 12289 * (12488) && ROOTS[902] * ROOTS[902] - (1) * ROOTS[451] * 10952 == 12289 * (4409) && ROOTS[903] * ROOTS[903] - (-1) * ROOTS[451] * 10952 == 12289 * (8601) && ROOTS[904] * ROOTS[904] - (1) * ROOTS[452] * 10952 == 12289 * (-4311) && ROOTS[905] * ROOTS[905] - (-1) * ROOTS[452] * 10952 == 12289 * (10736) && ROOTS[906] * ROOTS[906] - (1) * ROOTS[453] * 10952 == 12289 * (-991) && ROOTS[907] * ROOTS[907] - (-1) * ROOTS[453] * 10952 == 12289 * (11336) && ROOTS[908] * ROOTS[908] - (1) * ROOTS[454] * 10952 == 12289 * (-10268) && ROOTS[909] * ROOTS[909] - (-1) * ROOTS[454] * 10952 == 12289 * (22176) && ROOTS[910] * ROOTS[910] - (1) * ROOTS[455] * 10952 == 12289 * (-2271) && ROOTS[911] * ROOTS[911] - (-1) * ROOTS[455] * 10952 == 12289 * (5209) && ROOTS[912] * ROOTS[912] - (1) * ROOTS[456] * 10952 == 12289 * (-2095) && ROOTS[913] * ROOTS[913] - (-1) * ROOTS[456] * 10952 == 12289 * (7193) && ROOTS[914] * ROOTS[914] - (1) * ROOTS[457] * 10952 == 12289 * (-2804) && ROOTS[915] * ROOTS[915] - (-1) * ROOTS[457] * 10952 == 12289 * (8872) && ROOTS[916] * ROOTS[916] - (1) * ROOTS[458] * 10952 == 12289 * (-3495) && ROOTS[917] * ROOTS[917] - (-1) * ROOTS[458] * 10952 == 12289 * (9120) && ROOTS[918] * ROOTS[918] - (1) * ROOTS[459] * 10952 == 12289 * (-5415) && ROOTS[919] * ROOTS[919] - (-1) * ROOTS[459] * 10952 == 12289 * (16960) && ROOTS[920] * ROOTS[920] - (1) * ROOTS[460] * 10952 == 12289 * (2244) && ROOTS[921] * ROOTS[921] - (-1) * ROOTS[460] * 10952 == 12289 * (1201) && ROOTS[922] * ROOTS[922] - (1) * ROOTS[461] * 10952 == 12289 * (240) && ROOTS[923] * ROOTS[923] - (-1) * ROOTS[461] * 10952 == 12289 * (6832) && ROOTS[924] * ROOTS[924] - (1) * ROOTS[462] * 10952 == 12289 * (-3039) && ROOTS[925] * ROOTS[925] - (-1) * ROOTS[462] * 10952 == 12289 * (5641) && ROOTS[926] * ROOTS[926] - (1) * ROOTS[463] * 10952 == 12289 * (-2588) && ROOTS[927] * ROOTS[927] - (-1) * ROOTS[463] * 10952 == 12289 * (11908) && ROOTS[928] * ROOTS[928] - (1) * ROOTS[464] * 10952 == 12289 * (-4268) && ROOTS[929] * ROOTS[929] - (-1) * ROOTS[464] * 10952 == 12289 * (8208) && ROOTS[930] * ROOTS[930] - (1) * ROOTS[465] * 10952 == 12289 * (-9628) && ROOTS[931] * ROOTS[931] - (-1) * ROOTS[465] * 10952 == 12289 * (18884) && ROOTS[932] * ROOTS[932] - (1) * ROOTS[466] * 10952 == 12289 * (1356) && ROOTS[933] * ROOTS[933] - (-1) * ROOTS[466] * 10952 == 12289 * (6793) && ROOTS[934] * ROOTS[934] - (1) * ROOTS[467] * 10952 == 12289 * (3476) && ROOTS[935] * ROOTS[935] - (-1) * ROOTS[467] * 10952 == 12289 * (12321) && ROOTS[936] * ROOTS[936] - (1) * ROOTS[468] * 10952 == 12289 * (-4775) && ROOTS[937] * ROOTS[937] - (-1) * ROOTS[468] * 10952 == 12289 * (7969) && ROOTS[938] * ROOTS[938] - (1) * ROOTS[469] * 10952 == 12289 * (7297) && ROOTS[939] * ROOTS[939] - (-1) * ROOTS[469] * 10952 == 12289 * (5308) && ROOTS[940] * ROOTS[940] - (1) * ROOTS[470] * 10952 == 12289 * (6625) && ROOTS[941] * ROOTS[941] - (-1) * ROOTS[470] * 10952 == 12289 * (9873) && ROOTS[942] * ROOTS[942] - (1) * ROOTS[471] * 10952 == 12289 * (-4647) && ROOTS[943] * ROOTS[943] - (-1) * ROOTS[471] * 10952 == 12289 * (8912) && ROOTS[944] * ROOTS[944] - (1) * ROOTS[472] * 10952 == 12289 * (7641) && ROOTS[945] * ROOTS[945] - (-1) * ROOTS[472] * 10952 == 12289 * (1244) && ROOTS[946] * ROOTS[946] - (1) * ROOTS[473] * 10952 == 12289 * (56) && ROOTS[947] * ROOTS[947] - (-1) * ROOTS[473] * 10952 == 12289 * (1865) && ROOTS[948] * ROOTS[948] - (1) * ROOTS[474] * 10952 == 12289 * (-487) && ROOTS[949] * ROOTS[949] - (-1) * ROOTS[474] * 10952 == 12289 * (4112) && ROOTS[950] * ROOTS[950] - (1) * ROOTS[475] * 10952 == 12289 * (4224) && ROOTS[951] * ROOTS[951] - (-1) * ROOTS[475] * 10952 == 12289 * (11697) && ROOTS[952] * ROOTS[952] - (1) * ROOTS[476] * 10952 == 12289 * (1369) && ROOTS[953] * ROOTS[953] - (-1) * ROOTS[476] * 10952 == 12289 * (4041) && ROOTS[954] * ROOTS[954] - (1) * ROOTS[477] * 10952 == 12289 * (5156) && ROOTS[955] * ROOTS[955] - (-1) * ROOTS[477] * 10952 == 12289 * (9924) && ROOTS[956] * ROOTS[956] - (1) * ROOTS[478] * 10952 == 12289 * (1369) && ROOTS[957] * ROOTS[957] - (-1) * ROOTS[478] * 10952 == 12289 * (15961) && ROOTS[958] * ROOTS[958] - (1) * ROOTS[479] * 10952 == 12289 * (1828) && ROOTS[959] * ROOTS[959] - (-1) * ROOTS[479] * 10952 == 12289 * (11649));
    }
    assert(k == 896 || k == 897 || k == 898 || k == 899 || k == 900 || k == 901 || k == 902 || k == 903 || k == 904 || k == 905 || k == 906 || k == 907 || k == 908 || k == 909 || k == 910 || k == 911 || k == 912 || k == 913 || k == 914 || k == 915 || k == 916 || k == 917 || k == 918 || k == 919 || k == 920 || k == 921 || k == 922 || k == 923 || k == 924 || k == 925 || k == 926 || k == 927 || k == 928 || k == 929 || k == 930 || k == 931 || k == 932 || k == 933 || k == 934 || k == 935 || k == 936 || k == 937 || k == 938 || k == 939 || k == 940 || k == 941 || k == 942 || k == 943 || k == 944 || k == 945 || k == 946 || k == 947 || k == 948 || k == 949 || k == 950 || k == 951 || k == 952 || k == 953 || k == 954 || k == 955 || k == 956 || k == 957 || k == 958 || k == 959);
}

proof fn lemma_root_squares_960(k: int)
    requires
        960 <= k < 1024,
    ensures
        root_square_ok(k, k / 2, if k % 2 == 0 { 1int } else { -1int }),
{
    assert(root_square_ok(960, 480, 1) && root_square_ok(961, 480, -1) && root_square_ok(962, 481, 1) && root_square_ok(963, 481, -1) && root_square_ok(964, 482, 1) && root_square_ok(965, 482, -1) && root_square_ok(966, 483, 1) && root_square_ok(967, 483, -1) && root_square_ok(968, 484, 1) && root_square_ok(969, 484, -1) && root_square_ok(970, 485, 1) && root_square_ok(971, 485, -1) && root_square_ok(972, 486, 1) && root_square_ok(973, 486, -1) && root_square_ok(974, 487, 1) && root_square_ok(975, 487, -1) && root_square_ok(976, 488, 1) && root_square_ok(977, 488, -1) && root_square_ok(978, 489, 1) && root_square_ok(979, 489, -1) && root_square_ok(980, 490, 1) && root_square_ok(981, 490, -1) && root_square_ok(982, 491, 1) && root_square_ok(983, 491, -1) && root_square_ok(984, 492, 1) && root_square_ok(985, 492, -1) && root_square_ok(986, 493, 1) && root_square_ok(987, 493, -1) && root_square_ok(988, 494, 1) && root_square_ok(989, 494, -1) && root_square_ok(990, 495, 1) && root_square_ok(991, 495, -1) && root_square_ok(992, 496, 1) && root_square_ok(993, 496, -1) && root_square_ok(994, 497, 1) && root_square_ok(995, 497, -1) && root_square_ok(996, 498, 1) && root_square_ok(997, 498, -1) && root_square_ok(998, 499, 1) && root_square_ok(999, 499, -1) && root_square_ok(1000, 500, 1) && root_square_ok(1001, 500, -1) && root_square_ok(1002, 501, 1) && root_square_ok(1003, 501, -1) && root_square_ok(1004, 502, 1) && root_square_ok(1005, 502, -1) && root_square_ok(1006, 503, 1) && root_square_ok(1007, 503, -1) && root_square_ok(1008, 504, 1) && root_square_ok(1009, 504, -1) && root_square_ok(1010, 505, 1) && root_square_ok(1011, 505, -1) && root_square_ok(1012, 506, 1) && root_square_ok(1013, 506, -1) && root_square_ok(1014, 507, 1) && root_square_ok(1015, 507, -1) && root_square_ok(1016, 508, 1) && root_square_ok(1017, 508, -1) && root_square_ok(1018, 509, 1) && root_square_ok(1019, 509, -1) && root_square_ok(1020, 510, 1) && root_square_ok(1021, 510, -1) && root_square_ok(1022, 511, 1) && root_square_ok(1023, 511, -1)) by {
        reveal(root_square_ok);
        assert(ROOTS[960] * ROOTS[960] - (1) * ROOTS[480] * 10952 == 12289 * (1984) && ROOTS[961] * ROOTS[961] - (-1) * ROOTS[480] * 10952 == 12289 * (9696) && ROOTS[962] * ROOTS[962] - (1) * ROOTS[481] * 10952 == 12289 * (7193) && ROOTS[963] * ROOTS[963] - (-1) * ROOTS[481] * 10952 == 12289 * (2492) && ROOTS[964] * ROOTS[964] - (1) * ROOTS[482] * 10952 == 12289 * (-2140) && ROOTS[965] * ROOTS[965] - (-1) * ROOTS[482] * 10952 == 12289 * (9369) && ROOTS[966] * ROOTS[966] - (1) * ROOTS[483] * 10952 == 12289 * (2132) && ROOTS[967] * ROOTS[967] - (-1) * ROOTS[483] * 10952 == 12289 * (13556) && ROOTS[968] * ROOTS[968] - (1) * ROOTS[484] * 10952 == 12289 * (-156) && ROOTS[969] * ROOTS[969] - (-1) * ROOTS[484] * 10952 == 12289 * (11801) && ROOTS[970] * ROOTS[970] - (1) * ROOTS[485] * 10952 == 12289 * (-167) && ROOTS[971] * ROOTS[971] - (-1) * ROOTS[485] * 10952 == 12289 * (7788) && ROOTS[972] * ROOTS[972] - (1) * ROOTS[486] * 10952 == 12289 * (-9264) && ROOTS[973] * ROOTS[973] - (-1) * ROOTS[486] * 10952 == 12289 * (11120) && ROOTS[974] * ROOTS[974] - (1) * ROOTS[487] * 10952 == 12289 * (2132) && ROOTS[975] * ROOTS[975] - (-1) * ROOTS[487] * 10952 == 12289 * (6273) && ROOTS[976] * ROOTS[976] - (1) * ROOTS[488] * 10952 == 12289 * (6640) && ROOTS[977] * ROOTS[977] - (-1) * ROOTS[488] * 10952 == 12289 * (5476) && ROOTS[978] * ROOTS[978] - (1) * ROOTS[489] * 10952 == 12289 * (-8127) && ROOTS[979] * ROOTS[979] - (-1) * ROOTS[489] * 10952 == 12289 * (11993) && ROOTS[980] * ROOTS[980] - (1) * ROOTS[490] * 10952 == 12289 * (-1423) && ROOTS[981] * ROOTS[981] - (-1) * ROOTS[490] * 10952 == 12289 * (1568) && ROOTS[982] * ROOTS[982] - (1) * ROOTS[491] * 10952 == 12289 * (-1620) && ROOTS[983] * ROOTS[983] - (-1) * ROOTS[491] * 10952 == 12289 * (4417) && ROOTS[984] * ROOTS[984] - (1) * ROOTS[492] * 10952 == 12289 * (-6335) && ROOTS[985] * ROOTS[985] - (-1) * ROOTS[492] * 10952 == 12289 * (7609) && ROOTS[986] * ROOTS[986] - (1) * ROOTS[493] * 10952 == 12289 * (-5408) && ROOTS[987] * ROOTS[987] - (-1) * ROOTS[493] * 10952 == 12289 * (7497) && ROOTS[988] * ROOTS[988] - (1) * ROOTS[494] * 10952 == 12289 * (-4892) && ROOTS[989] * ROOTS[989] - (-1) * ROOTS[494] * 10952 == 12289 * (13137) && ROOTS[990] * ROOTS[990] - (1) * ROOTS[495] * 10952 == 12289 * (5444) && ROOTS[991] * ROOTS[991] - (-1) * ROOTS[495] * 10952 == 12289 * (993) && ROOTS[992] * ROOTS[992] - (1) * ROOTS[496] * 10952 == 12289 * (9137) && ROOTS[993] * ROOTS[993] - (-1) * ROOTS[496] * 10952 == 12289 * (13377) && ROOTS[994] * ROOTS[994] - (1) * ROOTS[497] * 10952 == 12289 * (2425) && ROOTS[995] * ROOTS[995] - (-1) * ROOTS[497] * 10952 == 12289 * (12321) && ROOTS[996] * ROOTS[996] - (1) * ROOTS[498] * 10952 == 12289 * (2921) && ROOTS[997] * ROOTS[997] - (-1) * ROOTS[498] * 10952 == 12289 * (4697) && ROOTS[998] * ROOTS[998] - (1) * ROOTS[499] * 10952 == 12289 * (5248) && ROOTS[999] * ROOTS[999] - (-1) * ROOTS[499] * 10952 == 12289 * (6292) && ROOTS[1000] * ROOTS[1000] - (1) * ROOTS[500] * 10952 == 12289 * (10732) && ROOTS[1001] * ROOTS[1001] - (-1) * ROOTS[500] * 10952 == 12289 * (2460) && ROOTS[1002] * ROOTS[1002] - (1) * ROOTS[501] * 10952 == 12289 * (1004) && ROOTS[1003] * ROOTS[1003] - (-1) * ROOTS[501] * 10952 == 12289 * (11801) && ROOTS[1004] * ROOTS[1004] - (1) * ROOTS[502] * 10952 == 12289 * (-335) && ROOTS[1005] * ROOTS[1005] - (-1) * ROOTS[502] * 10952 == 12289 * (14428) && ROOTS[1006] * ROOTS[1006] - (1) * ROOTS[503] * 10952 == 12289 * (-4455) && ROOTS[1007] * ROOTS[1007] - (-1) * ROOTS[503] * 10952 == 12289 * (6136) && ROOTS[1008] * ROOTS[1008] - (1) * ROOTS[504] * 10952 == 12289 * (9060) && ROOTS[1009] * ROOTS[1009] - (-1) * ROOTS[504] * 10952 == 12289 * (4612) && ROOTS[1010] * ROOTS[1010] - (1) * ROOTS[505] * 10952 == 12289 * (-6816) && ROOTS[1011] * ROOTS[1011] - (-1) * ROOTS[505] * 10952 == 12289 * (16996) && ROOTS[1012] * ROOTS[1012] - (1) * ROOTS[506] * 10952 == 12289 * (-6543) && ROOTS[1013] * ROOTS[1013] - (-1) * ROOTS[506] * 10952 == 12289 * (11041) && ROOTS[1014] * ROOTS[1014] - (1) * ROOTS[507] * 10952 == 12289 * (-8343) && ROOTS[1015] * ROOTS[1015] - (-1) * ROOTS[507] * 10952 == 12289 * (20224) && ROOTS[1016] * ROOTS[1016] - (1) * ROOTS[508] * 10952 == 12289 * (-8375) && ROOTS[1017] * ROOTS[1017] - (-1) * ROOTS[508] * 10952 == 12289 * (16804) && ROOTS[1018] * ROOTS[1018] - (1) * ROOTS[509] * 10952 == 12289 * (5476) && ROOTS[1019] * ROOTS[1019] - (-1) * ROOTS[509] * 10952 == 12289 * (4164) && ROOTS[1020] * ROOTS[1020] - (1) * ROOTS[510] * 10952 == 12289 * (10281) && ROOTS[1021] * ROOTS[1021] - (-1) * ROOTS[510] * 10952 == 12289 * (1868) && ROOTS[1022] * ROOTS[1022] - (1) * ROOTS[511] * 10952 == 12289 * (7257) && ROOTS[1023] * ROOTS[1023] - (-1) * ROOTS[511] * 10952 == 12289 * (4721));
    }
    assert(k == 960 || k == 961 || k == 962 || k == 963 || k == 964 || k == 965 || k == 966 || k == 967 || k == 968 || k == 969 || k == 970 || k == 971 || k == 972 || k == 973 || k == 974 || k == 975 || k == 976 || k == 977 || k == 978 || k == 979 || k == 980 || k == 981 || k == 982 || k == 983 || k == 984 || k == 985 || k == 986 || k == 987 || k == 988 || k == 989 || k == 990 || k == 991 || k == 992 || k == 993 || k == 994 || k == 995 || k == 996 || k == 997 || k == 998 || k == 999 || k == 1000 || k == 1001 || k == 1002 || k == 1003 || k == 1004 || k == 1005 || k == 1006 || k == 1007 || k == 1008 || k == 1009 || k == 1010 || k == 1011 || k == 1012 || k == 1013 || k == 1014 || k == 1015 || k == 1016 || k == 1017 || k == 1018 || k == 1019 || k == 1020 || k == 1021 || k == 1022 || k == 1023);
}

/// The squares of the roots: ROOTS[1]^2 ≡ -R^2, and for 2 <= k < 1024,
/// ROOTS[k]^2 ≡ R ROOTS[k / 2] for even k and ≡ -R ROOTS[k / 2] for odd k (mod q).
pub proof fn lemma_root_square(k: int)
    requires
        1 <= k < 1024,
    ensures
        k == 1 ==> (ROOTS[k] * ROOTS[k] + 10952 * 10952) % 12289 == 0,
        k >= 2 ==> (ROOTS[k] * ROOTS[k] - (if k % 2 == 0 { 1int } else { -1int }) * ROOTS[k / 2]
            * 10952) % 12289 == 0,
{
    if k == 1 {
        assert(ROOTS[1] * ROOTS[1] + 10952 * 10952 == 12289 * 19937);
    } else {
        if k < 512 {
            if k < 256 {
                if k < 128 {
                    if k < 64 {
                        lemma_root_squares_0(k);
                    } else {
                        lemma_root_squares_64(k);
                    }
                } else {
                    if k < 192 {
                        lemma_root_squares_128(k);
                    } else {
                        lemma_root_squares_192(k);
                    }
                }
            } else {
                if k < 384 {
                    if k < 320 {
                        lemma_root_squares_256(k);
                    } else {
                        lemma_root_squares_320(k);
                    }
                } else {
                    if k < 448 {
                        lemma_root_squares_384(k);
                    } else {
                        lemma_root_squares_448(k);
                    }
                }
            }
        } else {
            if k < 768 {
                if k < 640 {
                    if k < 576 {
                        lemma_root_squares_512(k);
                    } else {
                        lemma_root_squares_576(k);
                    }
                } else {
                    if k < 704 {
                        lemma_root_squares_640(k);
                    } else {
                        lemma_root_squares_704(k);
                    }
                }
            } else {
                if k < 896 {
                    if k < 832 {
                        lemma_root_squares_768(k);
                    } else {
                        lemma_root_squares_832(k);
                    }
                } else {
                    if k < 960 {
                        lemma_root_squares_896(k);
                    } else {
                        lemma_root_squares_960(k);
                    }
                }
            }
        }
        reveal(root_square_ok);
    }
}

} // verus!
