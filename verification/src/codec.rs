//! Byte encodings of polynomials: 14-bit packing, 3-bit compression, and the
//! encoding of a 256-bit key into a polynomial with its decoding.
use vstd::prelude::*;
use crate::arith::{DEGREE, PRIME, nabs, round, round_spec};
use crate::poly::reduce_poly;
use crate::ntt::ints;
use vstd::arithmetic::div_mod::{
    lemma_fundamental_div_mod, lemma_fundamental_div_mod_converse, lemma_small_mod,
};

verus! {

/// Byte k (0 <= k < 7) of the packing of the four 14-bit coefficients a, b, c, d.
pub open spec fn pack_byte(a: i32, b: i32, c: i32, d: i32, k: int) -> u8 {
    if k == 0 {
        (a & 0xff) as u8
    } else if k == 1 {
        (((a >> 8) | (b << 6)) & 0xff) as u8
    } else if k == 2 {
        ((b >> 2) & 0xff) as u8
    } else if k == 3 {
        (((b >> 10) | (c << 4)) & 0xff) as u8
    } else if k == 4 {
        ((c >> 4) & 0xff) as u8
    } else if k == 5 {
        (((c >> 12) | (d << 2)) & 0xff) as u8
    } else {
        (d >> 6) as u8
    }
}

/// The packing of the first DEGREE coefficients of p into the first 1792 bytes of
/// `arr`: 7 bytes for each group of four coefficients.
pub open spec fn pack_poly(p: Seq<int>, arr: Seq<u8>) -> Seq<u8> {
    Seq::new(
        arr.len(),
        |j: int|
            if j < 1792 {
                pack_byte(
                    p[4 * (j / 7)] as i32,
                    p[4 * (j / 7) + 1] as i32,
                    p[4 * (j / 7) + 2] as i32,
                    p[4 * (j / 7) + 3] as i32,
                    j % 7,
                )
            } else {
                arr[j]
            },
    )
}

/// Coefficient k (0 <= k < 4) of the unpacking of the seven bytes a, ..., g.
pub open spec fn unpack_coeff(a: u8, b: u8, c: u8, d: u8, e: u8, f: u8, g: u8, k: int) -> i32 {
    if k == 0 {
        (a as i32) | (((b as i32) & 0x3f) << 8)
    } else if k == 1 {
        ((b as i32) >> 6) | ((c as i32) << 2) | (((d as i32) & 0xf) << 10)
    } else if k == 2 {
        ((d as i32) >> 4) | ((e as i32) << 4) | (((f as i32) & 3) << 12)
    } else {
        ((f as i32) >> 2) | ((g as i32) << 6)
    }
}

/// The unpacking of the first 1792 bytes of `arr` into the first DEGREE coefficients.
pub open spec fn unpack_poly(arr: Seq<u8>, p: Seq<int>) -> Seq<int> {
    Seq::new(
        p.len(),
        |i: int|
            if i < DEGREE {
                unpack_coeff(
                    arr[7 * (i / 4)],
                    arr[7 * (i / 4) + 1],
                    arr[7 * (i / 4) + 2],
                    arr[7 * (i / 4) + 3],
                    arr[7 * (i / 4) + 4],
                    arr[7 * (i / 4) + 5],
                    arr[7 * (i / 4) + 6],
                    i % 4,
                ) as int
            } else {
                p[i]
            },
    )
}

/// Positions n g + k, 0 <= k < n, lie in group g of n.
pub proof fn lemma_group_index(base: int, g: int, n: int)
    requires
        n > 0,
        base == n * g,
    ensures
        forall|k: int| 0 <= k < n ==> #[trigger] ((base + k) / n) == g && (base + k) % n == k,
{
    assert forall|k: int| 0 <= k < n implies #[trigger] ((base + k) / n) == g && (base + k) % n
        == k by {
        lemma_fundamental_div_mod_converse(base + k, n, g, k);
    }
}

/// Packs the 14-bit coefficients of a polynomial into bytes.
pub fn nhs_pack(poly: &[i32], array: &mut [u8])
    requires
        poly@.len() >= DEGREE,
        old(array)@.len() >= 1792,
    ensures
        final(array)@ == pack_poly(ints(poly@), old(array)@),
{
    let ghost p = ints(poly@);
    let ghost arr0 = array@;
    let mut j: usize = 0;
    let mut i: usize = 0;
    while i < DEGREE
        invariant
            poly@.len() >= DEGREE,
            p == ints(poly@),
            array@.len() == arr0.len(),
            arr0.len() >= 1792,
            i % 4 == 0,
            i <= DEGREE,
            j == 7 * (i / 4),
            forall|jj: int|
                0 <= jj < array@.len() ==> #[trigger] array@[jj] == (if jj < j {
                    pack_poly(p, arr0)[jj]
                } else {
                    arr0[jj]
                }),
        decreases DEGREE - i,
    {
        let a = poly[i];
        let b = poly[i + 1];
        let c = poly[i + 2];
        let d = poly[i + 3];
        let ghost g = i / 4;
        proof {
            lemma_group_index(j as int, g as int, 7);
            assert(p[4 * g] == a && p[4 * g + 1] == b && p[4 * g + 2] == c && p[4 * g + 3] == d);
        }
        i += 4;
        array[j] = (a & 0xff) as u8;
        array[j + 1] = (((a >> 8) | (b << 6)) & 0xff) as u8;
        array[j + 2] = ((b >> 2) & 0xff) as u8;
        array[j + 3] = (((b >> 10) | (c << 4)) & 0xff) as u8;
        array[j + 4] = ((c >> 4) & 0xff) as u8;
        array[j + 5] = (((c >> 12) | (d << 2)) & 0xff) as u8;
        array[j + 6] = (d >> 6) as u8;
        j += 7;
    }
    proof {
        assert(array@ =~= pack_poly(p, arr0));
    }
}

/// Unpacks bytes into polynomial coefficients of 14 bits.
pub fn nhs_unpack(array: &[u8], poly: &mut [i32])
    requires
        array@.len() >= 1792,
        old(poly)@.len() >= DEGREE,
    ensures
        final(poly)@.len() == old(poly)@.len(),
        ints(final(poly)@) == unpack_poly(array@, ints(old(poly)@)),
        forall|i: int| 0 <= i < DEGREE ==> 0 <= #[trigger] final(poly)@[i] < 0x4000,
{
    let ghost p0 = ints(poly@);
    let mut j: usize = 0;
    let mut i: usize = 0;
    while i < DEGREE
        invariant
            array@.len() >= 1792,
            poly@.len() == p0.len(),
            p0.len() >= DEGREE,
            i % 4 == 0,
            i <= DEGREE,
            j == 7 * (i / 4),
            forall|ii: int|
                0 <= ii < poly@.len() ==> #[trigger] poly@[ii] as int == (if ii < i {
                    unpack_poly(array@, p0)[ii]
                } else {
                    p0[ii]
                }),
            forall|ii: int| 0 <= ii < i ==> 0 <= #[trigger] poly@[ii] < 0x4000,
        decreases DEGREE - i,
    {
        let a = ((array[j]) & 0xff) as i32;
        let b = ((array[j + 1]) & 0xff) as i32;
        let c = ((array[j + 2]) & 0xff) as i32;
        let d = ((array[j + 3]) & 0xff) as i32;
        let e = ((array[j + 4]) & 0xff) as i32;
        let f = ((array[j + 5]) & 0xff) as i32;
        let g = ((array[j + 6]) & 0xff) as i32;
        let ghost grp = i / 4;
        proof {
            lemma_group_index(i as int, grp as int, 4);
            let (ba, bb, bc, bd, be, bf, bg) = (array@[j as int], array@[j + 1], array@[j + 2],
                array@[j + 3], array@[j + 4], array@[j + 5], array@[j + 6]);
            assert(a == ba as i32 && b == bb as i32 && c == bc as i32 && d == bd as i32 && e
                == be as i32 && f == bf as i32 && g == bg as i32) by (bit_vector)
                requires
                    a == (ba & 0xff) as i32,
                    b == (bb & 0xff) as i32,
                    c == (bc & 0xff) as i32,
                    d == (bd & 0xff) as i32,
                    e == (be & 0xff) as i32,
                    f == (bf & 0xff) as i32,
                    g == (bg & 0xff) as i32,
            ;
            lemma_unpack_coeff_range(ba, bb, bc, bd, be, bf, bg);
        }
        j += 7;
        poly[i] = a | ((b & 0x3f) << 8);
        poly[i + 1] = (b >> 6) | (c << 2) | ((d & 0xf) << 10);
        poly[i + 2] = (d >> 4) | (e << 4) | ((f & 3) << 12);
        poly[i + 3] = (f >> 2) | (g << 6);
        i += 4;
    }
    proof {
        assert(ints(poly@) =~= unpack_poly(array@, p0));
    }
}

/// Unpacked coefficients have 14 bits.
pub proof fn lemma_unpack_coeff_range(a: u8, b: u8, c: u8, d: u8, e: u8, f: u8, g: u8)
    ensures
        0 <= unpack_coeff(a, b, c, d, e, f, g, 0) < 0x4000,
        0 <= unpack_coeff(a, b, c, d, e, f, g, 1) < 0x4000,
        0 <= unpack_coeff(a, b, c, d, e, f, g, 2) < 0x4000,
        0 <= unpack_coeff(a, b, c, d, e, f, g, 3) < 0x4000,
{
    assert(0 <= ((a as i32) | (((b as i32) & 0x3f) << 8)) < 0x4000 && 0 <= (((b as i32) >> 6) | ((
        c as i32) << 2) | (((d as i32) & 0xf) << 10)) < 0x4000 && 0 <= (((d as i32) >> 4) | ((
        e as i32) << 4) | (((f as i32) & 3) << 12)) < 0x4000 && 0 <= (((f as i32) >> 2) | ((
        g as i32) << 6)) < 0x4000) by (bit_vector);
}

/// Unpacking the packing of four 14-bit coefficients gives them back.
proof fn lemma_unpack_pack_group(a: i32, b: i32, c: i32, d: i32)
    requires
        0 <= a < 0x4000,
        0 <= b < 0x4000,
        0 <= c < 0x4000,
        0 <= d < 0x4000,
    ensures
        ({
            let (x0, x1, x2, x3, x4, x5, x6) = (
                pack_byte(a, b, c, d, 0),
                pack_byte(a, b, c, d, 1),
                pack_byte(a, b, c, d, 2),
                pack_byte(a, b, c, d, 3),
                pack_byte(a, b, c, d, 4),
                pack_byte(a, b, c, d, 5),
                pack_byte(a, b, c, d, 6),
            );
            &&& unpack_coeff(x0, x1, x2, x3, x4, x5, x6, 0) == a
            &&& unpack_coeff(x0, x1, x2, x3, x4, x5, x6, 1) == b
            &&& unpack_coeff(x0, x1, x2, x3, x4, x5, x6, 2) == c
            &&& unpack_coeff(x0, x1, x2, x3, x4, x5, x6, 3) == d
        }),
{
    let x0 = (a & 0xff) as u8;
    let x1 = (((a >> 8) | (b << 6)) & 0xff) as u8;
    let x2 = ((b >> 2) & 0xff) as u8;
    let x3 = (((b >> 10) | (c << 4)) & 0xff) as u8;
    let x4 = ((c >> 4) & 0xff) as u8;
    let x5 = (((c >> 12) | (d << 2)) & 0xff) as u8;
    let x6 = (d >> 6) as u8;
    assert(((x0 as i32) | (((x1 as i32) & 0x3f) << 8)) == a && (((x1 as i32) >> 6) | ((x2 as i32)
        << 2) | (((x3 as i32) & 0xf) << 10)) == b && (((x3 as i32) >> 4) | ((x4 as i32) << 4) | (((
    x5 as i32) & 3) << 12)) == c && (((x5 as i32) >> 2) | ((x6 as i32) << 6)) == d)
        by (bit_vector)
        requires
            0 <= a < 0x4000,
            0 <= b < 0x4000,
            0 <= c < 0x4000,
            0 <= d < 0x4000,
            x0 == (a & 0xff) as u8,
            x1 == (((a >> 8) | (b << 6)) & 0xff) as u8,
            x2 == ((b >> 2) & 0xff) as u8,
            x3 == (((b >> 10) | (c << 4)) & 0xff) as u8,
            x4 == ((c >> 4) & 0xff) as u8,
            x5 == (((c >> 12) | (d << 2)) & 0xff) as u8,
            x6 == (d >> 6) as u8,
    ;
}

/// Packing the unpacking of seven bytes gives them back.
proof fn lemma_pack_unpack_group(x0: u8, x1: u8, x2: u8, x3: u8, x4: u8, x5: u8, x6: u8)
    ensures
        ({
            let (a, b, c, d) = (
                unpack_coeff(x0, x1, x2, x3, x4, x5, x6, 0),
                unpack_coeff(x0, x1, x2, x3, x4, x5, x6, 1),
                unpack_coeff(x0, x1, x2, x3, x4, x5, x6, 2),
                unpack_coeff(x0, x1, x2, x3, x4, x5, x6, 3),
            );
            &&& pack_byte(a, b, c, d, 0) == x0
            &&& pack_byte(a, b, c, d, 1) == x1
            &&& pack_byte(a, b, c, d, 2) == x2
            &&& pack_byte(a, b, c, d, 3) == x3
            &&& pack_byte(a, b, c, d, 4) == x4
            &&& pack_byte(a, b, c, d, 5) == x5
            &&& pack_byte(a, b, c, d, 6) == x6
        }),
{
    let a = (x0 as i32) | (((x1 as i32) & 0x3f) << 8);
    let b = ((x1 as i32) >> 6) | ((x2 as i32) << 2) | (((x3 as i32) & 0xf) << 10);
    let c = ((x3 as i32) >> 4) | ((x4 as i32) << 4) | (((x5 as i32) & 3) << 12);
    let d = ((x5 as i32) >> 2) | ((x6 as i32) << 6);
    assert((a & 0xff) as u8 == x0 && (((a >> 8) | (b << 6)) & 0xff) as u8 == x1 && ((b >> 2)
        & 0xff) as u8 == x2 && (((b >> 10) | (c << 4)) & 0xff) as u8 == x3 && ((c >> 4) & 0xff) as u8
        == x4 && (((c >> 12) | (d << 2)) & 0xff) as u8 == x5 && (d >> 6) as u8 == x6)
        by (bit_vector)
        requires
            a == (x0 as i32) | (((x1 as i32) & 0x3f) << 8),
            b == ((x1 as i32) >> 6) | ((x2 as i32) << 2) | (((x3 as i32) & 0xf) << 10),
            c == ((x3 as i32) >> 4) | ((x4 as i32) << 4) | (((x5 as i32) & 3) << 12),
            d == ((x5 as i32) >> 2) | ((x6 as i32) << 6),
    ;
}

/// Unpacking undoes packing for polynomials whose first DEGREE coefficients have
/// 14 bits.
pub proof fn lemma_unpack_inverts_pack(p: Seq<int>, arr: Seq<u8>)
    requires
        p.len() >= DEGREE,
        arr.len() >= 1792,
        forall|i: int| 0 <= i < DEGREE ==> 0 <= #[trigger] p[i] < 0x4000,
    ensures
        unpack_poly(pack_poly(p, arr), p) == p,
{
    let packed = pack_poly(p, arr);
    assert forall|i: int| 0 <= i < DEGREE implies #[trigger] unpack_poly(packed, p)[i] == p[i] by {
        let g = i / 4;
        lemma_fundamental_div_mod(i, 4);
        lemma_group_index(4 * g, g, 4);
        lemma_group_index(7 * g, g, 7);
        lemma_unpack_pack_group(p[4 * g] as i32, p[4 * g + 1] as i32, p[4 * g + 2] as i32, p[4
            * g + 3] as i32);
    }
    assert(unpack_poly(packed, p) =~= p);
}

/// Packing undoes unpacking: every 1792 bytes are the packing of some polynomial.
pub proof fn lemma_pack_inverts_unpack(arr: Seq<u8>, p: Seq<int>)
    requires
        p.len() >= DEGREE,
        arr.len() >= 1792,
    ensures
        pack_poly(unpack_poly(arr, p), arr) == arr,
{
    let u = unpack_poly(arr, p);
    assert forall|j: int| 0 <= j < 1792 implies #[trigger] pack_poly(u, arr)[j] == arr[j] by {
        let g = j / 7;
        lemma_fundamental_div_mod(j, 7);
        lemma_group_index(7 * g, g, 7);
        lemma_group_index(4 * g, g, 4);
        lemma_pack_unpack_group(arr[7 * g], arr[7 * g + 1], arr[7 * g + 2], arr[7 * g + 3], arr[7
            * g + 4], arr[7 * g + 5], arr[7 * g + 6]);
    }
    assert(pack_poly(u, arr) =~= arr);
}

/// The 3-bit value of a coefficient: round(8 p / q) mod 8.
pub open spec fn cbit(p: int) -> int {
    ((round_spec(8 * p, PRIME as int) as i32) & 7i32) as int
}

/// The 3-bit values of coefficients 8g, ..., 8g + n - 1 of p as the digits, first one
/// most significant, of a number in base 8.
pub open spec fn ccol(p: Seq<int>, g: int, n: int) -> int
    decreases n,
{
    if n <= 0 {
        0
    } else {
        ccol(p, g, n - 1) * 8 + cbit(p[8 * g + n - 1])
    }
}

/// Byte j of the little-endian 24-bit number c, 0 <= j < 3.
pub open spec fn byte_of(c: int, j: int) -> u8 {
    (if j == 0 {
        c % 256
    } else if j == 1 {
        (c / 256) % 256
    } else {
        (c / 65536) % 256
    }) as u8
}

/// The compression of the first DEGREE coefficients of p into the first 384 bytes of
/// `arr`: 3 bits for each coefficient, 3 bytes for each group of 8 coefficients.
pub open spec fn compress_poly(p: Seq<int>, arr: Seq<u8>) -> Seq<u8> {
    Seq::new(
        arr.len(),
        |j: int| if j < 384 { byte_of(ccol(p, j / 3, 8), j % 3) } else { arr[j] },
    )
}

/// The little-endian 24-bit number in bytes 3g, 3g + 1, 3g + 2 of `arr`.
pub open spec fn dcol(arr: Seq<u8>, g: int) -> int {
    arr[3 * g] + 256 * arr[3 * g + 1] + 65536 * arr[3 * g + 2]
}

/// The 3-bit digit r (0 <= r < 8, first one most significant) of group g.
pub open spec fn dbit(arr: Seq<u8>, g: int, r: int) -> int {
    (((dcol(arr, g) as i32) >> ((21 - 3 * r) as u32)) & 7i32) as int
}

/// The decompression of the first 384 bytes of `arr` into the first DEGREE
/// coefficients: digit b becomes round(b q / 8).
pub open spec fn decompress_poly(arr: Seq<u8>, p: Seq<int>) -> Seq<int> {
    Seq::new(
        p.len(),
        |i: int|
            if i < DEGREE {
                round_spec(dbit(arr, i / 8, i % 8) * PRIME, 8)
            } else {
                p[i]
            },
    )
}

/// Compresses each coefficient to 3 bits.
pub fn compress(poly: &[i32], array: &mut [u8])
    requires
        poly@.len() >= DEGREE,
        old(array)@.len() >= 384,
        forall|i: int|
            0 <= i < DEGREE ==> -0x1000_0000 <= #[trigger] poly@[i] && 8 * poly@[i] + PRIME / 2
                <= i32::MAX,
    ensures
        final(array)@ == compress_poly(ints(poly@), old(array)@),
{
    let ghost p = ints(poly@);
    let ghost arr0 = array@;
    let mut col: i32 = 0;
    let mut j: usize = 0;
    let mut i: usize = 0;
    while i < DEGREE
        invariant
            poly@.len() >= DEGREE,
            p == ints(poly@),
            forall|ii: int|
                0 <= ii < DEGREE ==> -0x1000_0000 <= #[trigger] poly@[ii] && 8 * poly@[ii]
                    + PRIME / 2 <= i32::MAX,
            array@.len() == arr0.len(),
            arr0.len() >= 384,
            i % 8 == 0,
            i <= DEGREE,
            j == 3 * (i / 8),
            col == 0,
            forall|jj: int|
                0 <= jj < array@.len() ==> #[trigger] array@[jj] == (if jj < j {
                    compress_poly(p, arr0)[jj]
                } else {
                    arr0[jj]
                }),
        decreases DEGREE - i,
    {
        let ghost g: int = (i / 8) as int;
        let ghost i0: int = i as int;
        for r in 0..8
            invariant
                poly@.len() >= DEGREE,
                p == ints(poly@),
                forall|ii: int|
                    0 <= ii < DEGREE ==> -0x1000_0000 <= #[trigger] poly@[ii] && 8 * poly@[ii]
                        + PRIME / 2 <= i32::MAX,
                i0 % 8 == 0,
                i0 < DEGREE,
                g == i0 / 8,
                i == i0 + r,
                0 <= col < pow8(r as int),
                col == ccol(p, g, r as int),
        {
            proof {
                lemma_fundamental_div_mod_converse(i as int, 8, g, r as int);
                lemma_fundamental_div_mod(i0, 8);
            }
            let rv = round(poly[i] * 8, PRIME);
            let b = rv & 7;
            proof {
                assert(0 <= rv & 7 < 8) by (bit_vector);
                lemma_pow8_values();
                lemma_shl3(col);
                assert(8 * g + (r + 1) - 1 == i);
            }
            col = (col << 3) + b;
            i += 1;
        }
        proof {
            lemma_fundamental_div_mod(i0, 8);
            lemma_group_index(j as int, g, 3);
            lemma_pow8_values();
            lemma_bytes24(col);
        }
        array[j] = (col & 0xff) as u8;
        array[j + 1] = ((col >> 8) & 0xff) as u8;
        array[j + 2] = ((col >> 16) & 0xff) as u8;
        j += 3;
        col = 0;
    }
    proof {
        assert(array@ =~= compress_poly(p, arr0));
    }
}

/// 8^r for 0 <= r <= 8.
pub open spec fn pow8(r: int) -> int
    decreases r,
{
    if r <= 0 {
        1
    } else {
        8 * pow8(r - 1)
    }
}

/// The values of 8^r for 0 <= r <= 8.
pub proof fn lemma_pow8_values()
    ensures
        pow8(0) == 1,
        pow8(1) == 8,
        pow8(2) == 64,
        pow8(3) == 512,
        pow8(4) == 4096,
        pow8(5) == 32768,
        pow8(6) == 262144,
        pow8(7) == 2097152,
        pow8(8) == 16777216,
{
    reveal_with_fuel(pow8, 9);
}

/// A left shift by 3 of a value below 2^21 multiplies it by 8.
proof fn lemma_shl3(c: i32)
    requires
        0 <= c < 0x200000,
    ensures
        c << 3 == c * 8,
{
    assert(c << 3 == c * 8) by (bit_vector)
        requires 0 <= c < 0x200000;
}

/// The three bytes of a 24-bit value.
proof fn lemma_bytes24(c: i32)
    requires
        0 <= c < 0x1000000,
    ensures
        (c & 0xff) as u8 == byte_of(c as int, 0),
        ((c >> 8) & 0xff) as u8 == byte_of(c as int, 1),
        ((c >> 16) & 0xff) as u8 == byte_of(c as int, 2),
{
    assert((c & 0xff) == c % 256 && ((c >> 8) & 0xff) == (c / 256) % 256 && ((c >> 16) & 0xff) == (c
        / 65536) % 256) by (bit_vector);
}

/// A left shift by 8 of a value below 2^16 multiplies it by 256.
proof fn lemma_shl8(c: i32)
    requires
        0 <= c < 0x10000,
    ensures
        c << 8 == c * 256,
{
    assert(c << 8 == c * 256) by (bit_vector)
        requires 0 <= c < 0x10000;
}

/// A byte widened to i32 is unchanged by masking with 0xff.
proof fn lemma_byte_mask(a: u8)
    ensures
        (a as i32) & 0xff == a as i32,
{
    assert((a as i32) & 0xff == a as i32) by (bit_vector);
}

/// After r shifts by 3 of a 24-bit number c, bits 21..23 hold digit r of c.
proof fn lemma_digit_shift(c: i32, r: int)
    requires
        0 <= c < 0x1000000,
        0 <= r < 8,
    ensures
        (((c << ((3 * r) as u32)) & 0xe00000) >> 21) == (c >> ((21 - 3 * r) as u32)) & 7i32,
        0 <= (c >> ((21 - 3 * r) as u32)) & 7i32 < 8,
        (c << ((3 * r) as u32)) << 3 == c << ((3 * (r + 1)) as u32),
{
    let s = (3 * r) as u32;
    let s2 = (21 - 3 * r) as u32;
    let s3 = (3 * (r + 1)) as u32;
    assert((((c << s) & 0xe00000) >> 21) == (c >> s2) & 7i32 && 0 <= (c >> s2) & 7i32 < 8 && (c
        << s) << 3 == c << s3) by (bit_vector)
        requires 0 <= c < 0x1000000, s <= 21, s2 == 21 - s, s3 == s + 3;
}

/// Decompresses 3-bit values into coefficients round(b q / 8).
pub fn decompress(array: &[u8], poly: &mut [i32])
    requires
        array@.len() >= 384,
        old(poly)@.len() >= DEGREE,
    ensures
        final(poly)@.len() == old(poly)@.len(),
        ints(final(poly)@) == decompress_poly(array@, ints(old(poly)@)),
        forall|i: int| 0 <= i < DEGREE ==> 0 <= #[trigger] final(poly)@[i] <= 10753,
{
    let ghost p0 = ints(poly@);
    let mut j: usize = 0;
    let mut i: usize = 0;
    while i < DEGREE
        invariant
            array@.len() >= 384,
            poly@.len() == p0.len(),
            p0.len() >= DEGREE,
            i % 8 == 0,
            i <= DEGREE,
            j == 3 * (i / 8),
            forall|ii: int|
                0 <= ii < poly@.len() ==> #[trigger] poly@[ii] as int == (if ii < i {
                    decompress_poly(array@, p0)[ii]
                } else {
                    p0[ii]
                }),
            forall|ii: int| 0 <= ii < i ==> 0 <= #[trigger] poly@[ii] <= 10753,
        decreases DEGREE - i,
    {
        let ghost g: int = (i / 8) as int;
        let ghost i0: int = i as int;
        proof {
            lemma_fundamental_div_mod(i0, 8);
            lemma_group_index(j as int, g, 3);
            lemma_byte_mask(array@[j as int]);
            lemma_byte_mask(array@[j + 1]);
            lemma_byte_mask(array@[j + 2]);
        }
        let mut col = (array[j + 2] as i32) & 0xff;
        proof {
            lemma_shl8(col);
        }
        col = (col << 8) + ((array[j + 1] as i32) & 0xff);
        proof {
            lemma_shl8(col);
        }
        col = (col << 8) + ((array[j] as i32) & 0xff);
        let ghost c0: i32 = col;
        assert(c0 == dcol(array@, g));
        assert(c0 << 0u32 == c0) by (bit_vector);
        j += 3;
        for r in 0..8
            invariant
                array@.len() >= 384,
                poly@.len() == p0.len(),
                p0.len() >= DEGREE,
                i0 % 8 == 0,
                i0 < DEGREE,
                g == i0 / 8,
                i == i0 + r,
                0 <= c0 < 0x1000000,
                c0 == dcol(array@, g),
                col == c0 << ((3 * r) as u32),
                forall|ii: int|
                    0 <= ii < poly@.len() ==> #[trigger] poly@[ii] as int == (if ii < i {
                        decompress_poly(array@, p0)[ii]
                    } else {
                        p0[ii]
                    }),
                forall|ii: int| 0 <= ii < i ==> 0 <= #[trigger] poly@[ii] <= 10753,
        {
            proof {
                lemma_fundamental_div_mod_converse(i as int, 8, g, r as int);
                lemma_digit_shift(c0, r as int);
            }
            let b = (col & 0xe00000) >> 21;
            col <<= 3;
            assert(b == dbit(array@, g, r as int));
            poly[i] = round(b * PRIME, 8);
            proof {
                assert(0 <= poly@[i as int] <= 10753);
            }
            i += 1;
        }
    }
    proof {
        assert(ints(poly@) =~= decompress_poly(array@, p0));
    }
}

/// Compressing the decompression of a 3-bit digit gives it back.
proof fn lemma_cbit_of_digit(d: int)
    requires
        0 <= d < 8,
    ensures
        cbit(round_spec(d * PRIME, 8)) == d,
{
    let di = d as i32;
    assert(0 <= di < 8 ==> di & 7i32 == di) by (bit_vector);
    if d == 0 {
    } else if d == 1 {
    } else if d == 2 {
    } else if d == 3 {
    } else if d == 4 {
    } else if d == 5 {
    } else if d == 6 {
    } else {
    }
}

/// The eight base-8 digits of a 24-bit number give it back.
proof fn lemma_digits24(c: i32)
    requires
        0 <= c < 0x1000000,
    ensures
        ((((((((c >> 21u32) & 7i32) * 8 + ((c >> 18u32) & 7i32)) * 8 + ((c >> 15u32) & 7i32)) * 8
            + ((c >> 12u32) & 7i32)) * 8 + ((c >> 9u32) & 7i32)) * 8 + ((c >> 6u32) & 7i32)) * 8 + ((c
            >> 3u32) & 7i32)) * 8 + ((c >> 0u32) & 7i32) == c,
{
    assert(((((((((c >> 21u32) & 7i32) * 8 + ((c >> 18u32) & 7i32)) * 8 + ((c >> 15u32) & 7i32))
        * 8 + ((c >> 12u32) & 7i32)) * 8 + ((c >> 9u32) & 7i32)) * 8 + ((c >> 6u32) & 7i32)) * 8
        + ((c >> 3u32) & 7i32)) * 8 + ((c >> 0u32) & 7i32) == c) by (bit_vector)
        requires 0 <= c < 0x1000000;
}

/// Compression undoes decompression: every 384 bytes are the compression of the
/// polynomial they decompress to.
pub proof fn lemma_compress_inverts_decompress(arr: Seq<u8>, p: Seq<int>)
    requires
        arr.len() >= 384,
        p.len() >= DEGREE,
    ensures
        compress_poly(decompress_poly(arr, p), arr) == arr,
{
    let u = decompress_poly(arr, p);
    assert forall|j: int| 0 <= j < 384 implies #[trigger] compress_poly(u, arr)[j] == arr[j] by {
        let g = j / 3;
        lemma_fundamental_div_mod(j, 3);
        lemma_group_index(3 * g, g, 3);
        lemma_group_index(8 * g, g, 8);
        let c = dcol(arr, g);
        assert(0 <= c < 0x1000000);
        assert forall|r: int| 0 <= r < 8 implies #[trigger] cbit(u[8 * g + r]) == dbit(arr, g, r)
            by {
            lemma_digit_shift(c as i32, r);
            lemma_cbit_of_digit(dbit(arr, g, r));
        }
        reveal_with_fuel(ccol, 9);
        assert(cbit(u[8 * g + 0]) == dbit(arr, g, 0));
        assert(cbit(u[8 * g + 1]) == dbit(arr, g, 1));
        assert(cbit(u[8 * g + 2]) == dbit(arr, g, 2));
        assert(cbit(u[8 * g + 3]) == dbit(arr, g, 3));
        assert(cbit(u[8 * g + 4]) == dbit(arr, g, 4));
        assert(cbit(u[8 * g + 5]) == dbit(arr, g, 5));
        assert(cbit(u[8 * g + 6]) == dbit(arr, g, 6));
        assert(cbit(u[8 * g + 7]) == dbit(arr, g, 7));
        lemma_digits24(c as i32);
        assert(ccol(u, g, 8) == c);
        let (a0, a1, a2) = (arr[3 * g] as int, arr[3 * g + 1] as int, arr[3 * g + 2] as int);
        lemma_fundamental_div_mod_converse(c, 256, a1 + 256 * a2, a0);
        lemma_fundamental_div_mod_converse(c, 65536, a2, a0 + 256 * a1);
        lemma_fundamental_div_mod_converse(a1 + 256 * a2, 256, a2, a1);
        lemma_small_mod(a2 as nat, 256);
    }
    assert(compress_poly(u, arr) =~= arr);
}

/// Bit i (0 <= i < 256) of a 32-byte key, least significant bit of each byte first.
pub open spec fn key_bit(key: Seq<u8>, i: int) -> int {
    ((key[i / 8] >> ((i % 8) as u8)) & 1u8) as int
}

/// The encoding of a 256-bit key: bit i becomes coefficients i, i + 256, i + 512
/// and i + 768, each 0 for a bit 0 and q/2 for a bit 1.
pub open spec fn encode_poly(key: Seq<u8>, p: Seq<int>) -> Seq<int> {
    Seq::new(
        p.len(),
        |j: int| if j < DEGREE { key_bit(key, j % 256) * (PRIME / 2) } else { p[j] },
    )
}

/// |v - q/2|.
pub open spec fn dist(v: int) -> int {
    if v < PRIME / 2 {
        PRIME / 2 - v
    } else {
        v - PRIME / 2
    }
}

/// The sum of the distances to q/2 of the four coefficients that carry bit i.
pub open spec fn dsum(p: Seq<int>, i: int) -> int {
    dist(p[i]) + dist(p[i + 256]) + dist(p[i + 512]) + dist(p[i + 768])
}

/// The decoded bit i: 1 when the four coefficients are together closer than q to q/2.
pub open spec fn dec_bit(p: Seq<int>, i: int) -> int {
    if dsum(p, i) < PRIME {
        1
    } else {
        0
    }
}

/// Byte j of the decoded key: the decoded bits 8j, ..., 8j + 7, least significant first.
pub open spec fn decoded_byte(p: Seq<int>, j: int) -> int {
    dec_bit(p, 8 * j) + 2 * dec_bit(p, 8 * j + 1) + 4 * dec_bit(p, 8 * j + 2) + 8 * dec_bit(
        p,
        8 * j + 3,
    ) + 16 * dec_bit(p, 8 * j + 4) + 32 * dec_bit(p, 8 * j + 5) + 64 * dec_bit(p, 8 * j + 6)
        + 128 * dec_bit(p, 8 * j + 7)
}

/// The decoding of a polynomial into the first 32 bytes of `key`.
pub open spec fn decode_key(p: Seq<int>, key: Seq<u8>) -> Seq<u8> {
    Seq::new(key.len(), |j: int| if j < 32 { decoded_byte(p, j) as u8 } else { key[j] })
}

/// Encodes a 256-bit key into a polynomial.
pub fn encode(key: &[u8], poly: &mut [i32])
    requires
        key@.len() >= 32,
        old(poly)@.len() >= DEGREE,
    ensures
        final(poly)@.len() == old(poly)@.len(),
        ints(final(poly)@) == encode_poly(key@, ints(old(poly)@)),
{
    let ghost p0 = ints(poly@);
    let ghost target = encode_poly(key@, p0);
    let q2 = PRIME / 2;
    let mut j: usize = 0;
    let mut i: usize = 0;
    while i < 256
        invariant
            key@.len() >= 32,
            poly@.len() == p0.len(),
            p0.len() >= DEGREE,
            target == encode_poly(key@, p0),
            q2 == PRIME / 2,
            i == 8 * j,
            i <= 256,
            forall|jj: int|
                0 <= jj < poly@.len() ==> #[trigger] poly@[jj] as int == (if jj < DEGREE && jj
                    % 256 < i {
                    target[jj]
                } else {
                    p0[jj]
                }),
        decreases 256 - i,
    {
        let mut kj = key[j];
        let ghost kb = key@[j as int];
        assert(kb >> 0u8 == kb) by (bit_vector);
        j += 1;
        for r in 0..8
            invariant
                key@.len() >= 32,
                poly@.len() == p0.len(),
                p0.len() >= DEGREE,
                target == encode_poly(key@, p0),
                q2 == PRIME / 2,
                i == 8 * (j - 1) + r,
                j <= 32,
                kb == key@[j - 1],
                kj == kb >> (r as u8),
                forall|jj: int|
                    0 <= jj < poly@.len() ==> #[trigger] poly@[jj] as int == (if jj < DEGREE
                        && jj % 256 < i {
                        target[jj]
                    } else {
                        p0[jj]
                    }),
        {
            proof {
                lemma_fundamental_div_mod_converse(i as int, 8, j - 1, r as int);
                assert(0 <= kj & 1 <= 1) by (bit_vector);
                let r8 = r as u8;
                let r9 = (r + 1) as u8;
                assert((kb >> r8) >> 1u8 == kb >> r9) by (bit_vector)
                    requires r8 < 8, r9 == r8 + 1;
                lemma_fundamental_div_mod_converse(i + 256, 256, 1, i as int);
                lemma_fundamental_div_mod_converse(i + 512, 256, 2, i as int);
                lemma_fundamental_div_mod_converse(i + 768, 256, 3, i as int);
                lemma_small_mod(i as nat, 256);
                assert forall|jj: int| 0 <= jj < DEGREE implies (#[trigger] (jj % 256) < i + 1
                    <==> jj % 256 < i || jj == i || jj == i + 256 || jj == i + 512 || jj == i
                    + 768) by {
                    lemma_fundamental_div_mod(jj, 256);
                }
            }
            let b = (kj & 1) as i32;
            assert(0 <= b * q2 <= PRIME / 2) by (nonlinear_arith)
                requires 0 <= b <= 1, q2 == PRIME / 2;
            poly[i] = b * q2;
            poly[i + 256] = b * q2;
            poly[i + 512] = b * q2;
            poly[i + 768] = b * q2;
            kj >>= 1;
            i += 1;
        }
    }
    proof {
        assert forall|jj: int| 0 <= jj < DEGREE implies #[trigger] (jj % 256) < 256 by {
            lemma_fundamental_div_mod(jj, 256);
        }
        assert(ints(poly@) =~= target);
    }
}

/// The byte assembled from the decoded bits 8j, ..., 8j + n - 1 as `decode` does:
/// each step halves it and puts the next bit at the top.
pub open spec fn dacc(p: Seq<int>, j: int, n: int) -> int
    decreases n,
{
    if n <= 0 {
        0
    } else {
        dacc(p, j, n - 1) / 2 + 128 * dec_bit(p, 8 * j + n - 1)
    }
}

/// After eight steps the assembled byte holds the decoded bits in order.
proof fn lemma_dacc_full(p: Seq<int>, j: int)
    ensures
        dacc(p, j, 8) == decoded_byte(p, j),
        0 <= dacc(p, j, 8) < 256,
{
    reveal_with_fuel(dacc, 9);
}

/// Decodes a polynomial into a 256-bit key.
pub fn decode(poly: &[i32], key: &mut [u8])
    requires
        poly@.len() >= DEGREE,
        old(key)@.len() >= 32,
        forall|i: int| 0 <= i < DEGREE ==> #[trigger] poly@[i] > i32::MIN + PRIME / 2,
        forall|i: int| 0 <= i < 256 ==> #[trigger] dsum(ints(poly@), i) <= i32::MAX,
    ensures
        final(key)@ == decode_key(ints(poly@), old(key)@),
{
    let ghost p = ints(poly@);
    let ghost k0 = key@;
    let q2 = PRIME / 2;
    for i in 0..32
        invariant
            key@.len() == k0.len(),
            k0.len() >= 32,
            forall|jj: int|
                0 <= jj < key@.len() ==> #[trigger] key@[jj] == (if jj < i { 0u8 } else { k0[jj] }),
    {
        key[i] = 0;
    }
    let mut i: usize = 0;
    let mut j: usize = 0;
    while i < 256
        invariant
            poly@.len() >= DEGREE,
            p == ints(poly@),
            forall|ii: int| 0 <= ii < DEGREE ==> #[trigger] poly@[ii] > i32::MIN + PRIME / 2,
            forall|ii: int| 0 <= ii < 256 ==> #[trigger] dsum(p, ii) <= i32::MAX,
            key@.len() == k0.len(),
            k0.len() >= 32,
            q2 == PRIME / 2,
            i == 8 * j,
            i <= 256,
            forall|jj: int|
                0 <= jj < key@.len() ==> #[trigger] key@[jj] == (if jj < j {
                    decode_key(p, k0)[jj]
                } else if jj < 32 {
                    0u8
                } else {
                    k0[jj]
                }),
        decreases 256 - i,
    {
        for r in 0..8
            invariant
                poly@.len() >= DEGREE,
                p == ints(poly@),
                forall|ii: int| 0 <= ii < DEGREE ==> #[trigger] poly@[ii] > i32::MIN + PRIME / 2,
                forall|ii: int| 0 <= ii < 256 ==> #[trigger] dsum(p, ii) <= i32::MAX,
                key@.len() == k0.len(),
                k0.len() >= 32,
                q2 == PRIME / 2,
                i == 8 * j + r,
                j < 32,
                key@[j as int] == dacc(p, j as int, r as int),
                0 <= dacc(p, j as int, r as int) < 256,
                forall|jj: int|
                    0 <= jj < key@.len() && jj != j ==> #[trigger] key@[jj] == (if jj < j {
                        decode_key(p, k0)[jj]
                    } else if jj < 32 {
                        0u8
                    } else {
                        k0[jj]
                    }),
        {
            proof {
                assert(dsum(p, i as int) <= i32::MAX);
                assert(p[i as int] == poly@[i as int]);
                assert(p[i + 256] == poly@[i + 256]);
                assert(p[i + 512] == poly@[i + 512]);
                assert(p[i + 768] == poly@[i + 768]);
            }
            let t = nabs(poly[i] - q2) + nabs(poly[i + 256] - q2) + nabs(poly[i + 512] - q2) + nabs(
                poly[i + 768] - q2,
            );
            assert(t == dsum(p, i as int));
            let mut b = t - PRIME;
            proof {
                let b0 = b;
                assert(((b0 >> 31) & 1) == (if b0 < 0 { 1i32 } else { 0i32 })) by (bit_vector);
            }
            b = (b >> 31) & 1;
            proof {
                let k = key@[j as int];
                let bb = b;
                assert((k >> 1u8) as int == k / 2) by (bit_vector);
                assert(0 <= bb <= 1 ==> ((bb << 7) as u8) as int == 128 * bb) by (bit_vector);
                assert(8 * j + (r + 1) - 1 == i);
            }
            key[j] = (key[j] >> 1) + ((b << 7) as u8);
            i += 1;
        }
        proof {
            lemma_dacc_full(p, j as int);
        }
        j += 1;
    }
    proof {
        assert(key@ =~= decode_key(p, k0));
    }
}

/// A polynomial whose decoded bits are the bits of a key decodes to that key.
proof fn lemma_bits_decode_to_key(p: Seq<int>, key: Seq<u8>)
    requires
        key.len() >= 32,
        p.len() >= DEGREE,
        forall|i: int| 0 <= i < 256 ==> #[trigger] dec_bit(p, i) == key_bit(key, i),
    ensures
        decode_key(p, key) == key,
{
    assert forall|j: int| 0 <= j < 32 implies #[trigger] decoded_byte(p, j) == key[j] by {
        let x = key[j];
        lemma_group_index(8 * j, j, 8);
        assert(dec_bit(p, 8 * j) == key_bit(key, 8 * j));
        assert(dec_bit(p, 8 * j + 1) == key_bit(key, 8 * j + 1));
        assert(dec_bit(p, 8 * j + 2) == key_bit(key, 8 * j + 2));
        assert(dec_bit(p, 8 * j + 3) == key_bit(key, 8 * j + 3));
        assert(dec_bit(p, 8 * j + 4) == key_bit(key, 8 * j + 4));
        assert(dec_bit(p, 8 * j + 5) == key_bit(key, 8 * j + 5));
        assert(dec_bit(p, 8 * j + 6) == key_bit(key, 8 * j + 6));
        assert(dec_bit(p, 8 * j + 7) == key_bit(key, 8 * j + 7));
        assert(key_bit(key, 8 * j) == (x >> 0u8) & 1u8);
        assert(key_bit(key, 8 * j + 1) == (x >> 1u8) & 1u8);
        assert(key_bit(key, 8 * j + 2) == (x >> 2u8) & 1u8);
        assert(key_bit(key, 8 * j + 3) == (x >> 3u8) & 1u8);
        assert(key_bit(key, 8 * j + 4) == (x >> 4u8) & 1u8);
        assert(key_bit(key, 8 * j + 5) == (x >> 5u8) & 1u8);
        assert(key_bit(key, 8 * j + 6) == (x >> 6u8) & 1u8);
        assert(key_bit(key, 8 * j + 7) == (x >> 7u8) & 1u8);
        assert(((x >> 0u8) & 1u8) + 2 * ((x >> 1u8) & 1u8) + 4 * ((x >> 2u8) & 1u8) + 8 * ((x
            >> 3u8) & 1u8) + 16 * ((x >> 4u8) & 1u8) + 32 * ((x >> 5u8) & 1u8) + 64 * ((x >> 6u8)
            & 1u8) + 128 * ((x >> 7u8) & 1u8) == x) by (bit_vector);
    }
    assert(decode_key(p, key) =~= key);
}

/// Key bits are 0 or 1.
pub proof fn lemma_key_bit_range(key: Seq<u8>, i: int)
    ensures
        0 <= key_bit(key, i) <= 1,
{
    let x = key[i / 8];
    let sh = (i % 8) as u8;
    assert(0 <= (x >> sh) & 1u8 <= 1) by (bit_vector);
}

/// Decoding undoes encoding: the polynomial that encodes a key decodes to it.
pub proof fn lemma_decode_inverts_encode(key: Seq<u8>, p: Seq<int>)
    requires
        key.len() >= 32,
        p.len() >= DEGREE,
    ensures
        decode_key(encode_poly(key, p), key) == key,
{
    let e = encode_poly(key, p);
    assert forall|i: int| 0 <= i < 256 implies #[trigger] dec_bit(e, i) == key_bit(key, i) by {
        lemma_small_mod(i as nat, 256);
        lemma_fundamental_div_mod_converse(i + 256, 256, 1, i);
        lemma_fundamental_div_mod_converse(i + 512, 256, 2, i);
        lemma_fundamental_div_mod_converse(i + 768, 256, 3, i);
        lemma_key_bit_range(key, i);
    }
    lemma_bits_decode_to_key(e, key);
}

/// The distance between a and b on the circle of residues modulo q.
pub open spec fn circ_dist(a: int, b: int) -> int {
    let d = (a - b) % (PRIME as int);
    if d <= PRIME / 2 {
        d
    } else {
        PRIME - d
    }
}

/// The total circular distance of the four coefficients that carry bit i of the
/// key from the values that encode it.
pub open spec fn bit_noise(p: Seq<int>, key: Seq<u8>, i: int) -> int {
    let v = key_bit(key, i) * (PRIME / 2);
    circ_dist(p[i], v) + circ_dist(p[i + 256], v) + circ_dist(p[i + 512], v) + circ_dist(
        p[i + 768],
        v,
    )
}

/// For a reduced coefficient x: its distance to q/2 is its circular distance to
/// q/2, and is at least q/2 minus its circular distance to 0.
proof fn lemma_dist_of_reduced(x: int)
    requires
        0 <= x < PRIME,
    ensures
        dist(x) == circ_dist(x, PRIME / 2),
        dist(x) >= PRIME / 2 - circ_dist(x, 0),
{
    lemma_small_mod(x as nat, PRIME as nat);
    if x >= PRIME / 2 {
        lemma_small_mod((x - PRIME / 2) as nat, PRIME as nat);
    } else {
        lemma_fundamental_div_mod_converse(x - PRIME / 2, PRIME as int, -1, x - PRIME / 2 + PRIME);
    }
}

/// Four reduced coefficients near the encoding of a bit decode to that bit.
proof fn lemma_bit_decodes(a: int, b: int, c: int, d: int, bit: int)
    requires
        0 <= a < PRIME,
        0 <= b < PRIME,
        0 <= c < PRIME,
        0 <= d < PRIME,
        0 <= bit <= 1,
        circ_dist(a, bit * (PRIME / 2)) + circ_dist(b, bit * (PRIME / 2)) + circ_dist(
            c,
            bit * (PRIME / 2),
        ) + circ_dist(d, bit * (PRIME / 2)) <= PRIME - 2,
    ensures
        (dist(a) + dist(b) + dist(c) + dist(d) < PRIME) == (bit == 1),
{
    lemma_dist_of_reduced(a);
    lemma_dist_of_reduced(b);
    lemma_dist_of_reduced(c);
    lemma_dist_of_reduced(d);
    if bit == 1 {
        assert(bit * (PRIME / 2) == PRIME / 2);
    } else {
        assert(bit * (PRIME / 2) == 0);
    }
}

/// Decoding tolerates noise: a polynomial with reduced coefficients decodes to a
/// key when, for each bit of the key, the four coefficients that carry it lie in
/// total at circular distance at most q - 2 from the values that encode the bit.
pub proof fn lemma_decode_tolerates_noise(key: Seq<u8>, p: Seq<int>)
    requires
        key.len() >= 32,
        p.len() >= DEGREE,
        forall|j: int| 0 <= j < DEGREE ==> 0 <= #[trigger] p[j] < PRIME,
        forall|i: int| 0 <= i < 256 ==> #[trigger] bit_noise(p, key, i) <= PRIME - 2,
    ensures
        decode_key(p, key) == key,
{
    assert forall|i: int| 0 <= i < 256 implies #[trigger] dec_bit(p, i) == key_bit(key, i) by {
        assert(bit_noise(p, key, i) <= PRIME - 2);
        lemma_key_bit_range(key, i);
        lemma_bit_decodes(p[i], p[i + 256], p[i + 512], p[i + 768], key_bit(key, i));
    }
    lemma_bits_decode_to_key(p, key);
}

/// Decompressing the compression of a reduced coefficient moves it by at most q/16
/// on the circle of residues.
proof fn lemma_compress_error_coeff(x: int)
    requires
        0 <= x < PRIME,
    ensures
        circ_dist(round_spec(cbit(x) * PRIME, 8), x) <= PRIME / 16,
{
    let q = PRIME as int;
    let t = 8 * x + 6144;
    assert(round_spec(8 * x, q) == t / q);
    lemma_fundamental_div_mod(t, q);
    let rr = t / q;
    assert(0 <= rr <= 8);
    let ri = rr as i32;
    assert(0 <= ri <= 7 ==> ri & 7i32 == ri) by (bit_vector);
    assert(ri == 8 ==> ri & 7i32 == 0) by (bit_vector);
    let c = cbit(x);
    let v = round_spec(c * q, 8);
    assert(v == (c * q + 4) / 8);
    lemma_fundamental_div_mod(c * q + 4, 8);
    if rr <= 7 {
        assert(c == rr);
        if v >= x {
            lemma_small_mod((v - x) as nat, q as nat);
        } else {
            lemma_fundamental_div_mod_converse(v - x, q, -1, v - x + q);
        }
    } else {
        assert(c == 0);
        assert(v == 0);
        lemma_fundamental_div_mod_converse(v - x, q, -1, v - x + q);
    }
}

/// The base-8 digits of a number assembled from eight 3-bit digits.
proof fn lemma_digits_of_col(d0: i32, d1: i32, d2: i32, d3: i32, d4: i32, d5: i32, d6: i32, d7: i32)
    requires
        0 <= d0 < 8,
        0 <= d1 < 8,
        0 <= d2 < 8,
        0 <= d3 < 8,
        0 <= d4 < 8,
        0 <= d5 < 8,
        0 <= d6 < 8,
        0 <= d7 < 8,
    ensures
        ({
            let c = ((((((d0 * 8 + d1) * 8 + d2) * 8 + d3) * 8 + d4) * 8 + d5) * 8 + d6) * 8 + d7;
            &&& 0 <= c < 0x1000000
            &&& (c as i32 >> 21u32) & 7i32 == d0
            &&& (c as i32 >> 18u32) & 7i32 == d1
            &&& (c as i32 >> 15u32) & 7i32 == d2
            &&& (c as i32 >> 12u32) & 7i32 == d3
            &&& (c as i32 >> 9u32) & 7i32 == d4
            &&& (c as i32 >> 6u32) & 7i32 == d5
            &&& (c as i32 >> 3u32) & 7i32 == d6
            &&& (c as i32 >> 0u32) & 7i32 == d7
        }),
{
    let c = ((((((d0 * 8 + d1) * 8 + d2) * 8 + d3) * 8 + d4) * 8 + d5) * 8 + d6) * 8 + d7;
    assert(0 <= c < 0x1000000);
    let ci = c as i32;
    assert((ci >> 21u32) & 7i32 == d0 && (ci >> 18u32) & 7i32 == d1 && (ci >> 15u32) & 7i32 == d2
        && (ci >> 12u32) & 7i32 == d3 && (ci >> 9u32) & 7i32 == d4 && (ci >> 6u32) & 7i32 == d5
        && (ci >> 3u32) & 7i32 == d6 && (ci >> 0u32) & 7i32 == d7) by (bit_vector)
        requires
            0 <= d0 < 8,
            0 <= d1 < 8,
            0 <= d2 < 8,
            0 <= d3 < 8,
            0 <= d4 < 8,
            0 <= d5 < 8,
            0 <= d6 < 8,
            0 <= d7 < 8,
            ci == ((((((d0 * 8 + d1) * 8 + d2) * 8 + d3) * 8 + d4) * 8 + d5) * 8 + d6) * 8 + d7,
    ;
}

/// 3-bit values lie in [0, 8).
proof fn lemma_cbit_range(x: int)
    ensures
        0 <= cbit(x) < 8,
{
    let r = round_spec(8 * x, PRIME as int) as i32;
    assert(0 <= r & 7i32 < 8) by (bit_vector);
}

/// Compression loses at most q/16: decompressing the compression of a polynomial
/// with reduced coefficients moves each coefficient by at most q/16 on the circle
/// of residues.
pub proof fn lemma_compress_error(p: Seq<int>, arr: Seq<u8>)
    requires
        p.len() >= DEGREE,
        arr.len() >= 384,
        forall|j: int| 0 <= j < DEGREE ==> 0 <= #[trigger] p[j] < PRIME,
    ensures
        forall|i: int|
            0 <= i < DEGREE ==> circ_dist(
                #[trigger] decompress_poly(compress_poly(p, arr), p)[i],
                p[i],
            ) <= PRIME / 16,
{
    let a2 = compress_poly(p, arr);
    assert forall|i: int| 0 <= i < DEGREE implies circ_dist(
        #[trigger] decompress_poly(a2, p)[i],
        p[i],
    ) <= PRIME / 16 by {
        let g = i / 8;
        let r = i % 8;
        lemma_fundamental_div_mod(i, 8);
        lemma_group_index(8 * g, g, 8);
        lemma_group_index(3 * g, g, 3);
        lemma_cbit_range(p[8 * g]);
        lemma_cbit_range(p[8 * g + 1]);
        lemma_cbit_range(p[8 * g + 2]);
        lemma_cbit_range(p[8 * g + 3]);
        lemma_cbit_range(p[8 * g + 4]);
        lemma_cbit_range(p[8 * g + 5]);
        lemma_cbit_range(p[8 * g + 6]);
        lemma_cbit_range(p[8 * g + 7]);
        let (d0, d1, d2, d3, d4, d5, d6, d7) = (
            cbit(p[8 * g]) as i32,
            cbit(p[8 * g + 1]) as i32,
            cbit(p[8 * g + 2]) as i32,
            cbit(p[8 * g + 3]) as i32,
            cbit(p[8 * g + 4]) as i32,
            cbit(p[8 * g + 5]) as i32,
            cbit(p[8 * g + 6]) as i32,
            cbit(p[8 * g + 7]) as i32,
        );
        lemma_digits_of_col(d0, d1, d2, d3, d4, d5, d6, d7);
        reveal_with_fuel(ccol, 9);
        let c = ccol(p, g, 8);
        assert(c == ((((((d0 * 8 + d1) * 8 + d2) * 8 + d3) * 8 + d4) * 8 + d5) * 8 + d6) * 8 + d7);
        lemma_fundamental_div_mod(c, 256);
        lemma_fundamental_div_mod(c / 256, 256);
        lemma_fundamental_div_mod(c, 65536);
        assert(dcol(a2, g) == c) by {
            assert(a2[3 * g] == byte_of(c, 0));
            assert(a2[3 * g + 1] == byte_of(c, 1));
            assert(a2[3 * g + 2] == byte_of(c, 2));
            assert(c / 65536 == (c / 256) / 256) by {
                vstd::arithmetic::div_mod::lemma_div_denominator(c, 256, 256);
            }
            lemma_small_mod((c / 65536) as nat, 256);
        }
        assert(dbit(a2, g, r) == cbit(p[i]));
        lemma_compress_error_coeff(p[i]);
    }
}

/// The 3-bit value of a nonnegative coefficient depends only on its residue modulo q.
proof fn lemma_cbit_periodic(x: int)
    requires
        0 <= x,
        8 * x + PRIME / 2 <= i32::MAX,
    ensures
        cbit(x) == cbit(x % (PRIME as int)),
{
    let q = PRIME as int;
    lemma_fundamental_div_mod(x, q);
    let k = x / q;
    let x0 = x % q;
    assert(0 <= k <= 21846);
    let t0 = 8 * x0 + 6144;
    lemma_fundamental_div_mod(t0, q);
    let r0 = t0 / q;
    assert(0 <= r0 <= 8);
    assert(8 * x + 6144 == q * (r0 + 8 * k) + t0 % q);
    lemma_fundamental_div_mod_converse(8 * x + 6144, q, r0 + 8 * k, t0 % q);
    assert(round_spec(8 * x, q) == r0 + 8 * k);
    assert(round_spec(8 * x0, q) == r0);
    let ri = r0 as i32;
    let si = (r0 + 8 * k) as i32;
    assert(si == ri + 8 * (k as i32));
    let ki = k as i32;
    assert((si & 7i32) == (ri & 7i32)) by (bit_vector)
        requires 0 <= ri <= 8, 0 <= ki <= 21846, si == ri + 8 * ki;
}

/// Digits of equal 3-bit values give equal numbers.
proof fn lemma_ccol_eq(p: Seq<int>, p2: Seq<int>, g: int, n: int)
    requires
        forall|k: int| 8 * g <= k < 8 * g + n ==> cbit(#[trigger] p[k]) == cbit(p2[k]),
    ensures
        ccol(p, g, n) == ccol(p2, g, n),
    decreases n,
{
    if n > 0 {
        lemma_ccol_eq(p, p2, g, n - 1);
        assert(cbit(p[8 * g + n - 1]) == cbit(p2[8 * g + n - 1]));
    }
}

/// Compression sees coefficients only modulo q: compressing a polynomial with
/// nonnegative coefficients that `compress` accepts gives the bytes of its
/// reduction modulo q.
pub proof fn lemma_compress_reduces(p: Seq<int>, arr: Seq<u8>)
    requires
        p.len() >= DEGREE,
        forall|j: int| 0 <= j < DEGREE ==> 0 <= #[trigger] p[j] && 8 * p[j] + PRIME / 2 <= i32::MAX,
    ensures
        compress_poly(p, arr) == compress_poly(reduce_poly(p), arr),
{
    let p2 = reduce_poly(p);
    assert forall|j: int| 0 <= j < arr.len() implies #[trigger] compress_poly(p, arr)[j]
        == compress_poly(p2, arr)[j] by {
        if j < 384 {
            let g = j / 3;
            assert(0 <= g < 128);
            assert forall|k: int| 8 * g <= k < 8 * g + 8 implies cbit(#[trigger] p[k]) == cbit(
                p2[k],
            ) by {
                lemma_cbit_periodic(p[k]);
            }
            lemma_ccol_eq(p, p2, g, 8);
        }
    }
    assert(compress_poly(p, arr) =~= compress_poly(p2, arr));
}

/// The distance of x from 0 on the circle of residues modulo q.
pub open spec fn cnorm(x: int) -> int {
    circ_dist(x, 0)
}

/// The circular distance depends only on the residue, and obeys the triangle
/// inequality.
pub proof fn lemma_cnorm(x: int, y: int)
    ensures
        0 <= cnorm(x) <= PRIME / 2,
        cnorm(x + y) <= cnorm(x) + cnorm(y),
        (x - y) % (PRIME as int) == 0 ==> cnorm(x) == cnorm(y),
        cnorm(-x) == cnorm(x),
{
    let q = PRIME as int;
    lemma_fundamental_div_mod(x, q);
    lemma_fundamental_div_mod(y, q);
    lemma_fundamental_div_mod(x + y, q);
    lemma_fundamental_div_mod(-x, q);
    lemma_fundamental_div_mod(x - y, q);
    let dx = x % q;
    let dy = y % q;
    if dx + dy < q {
        lemma_fundamental_div_mod_converse(x + y, q, x / q + y / q, dx + dy);
    } else {
        lemma_fundamental_div_mod_converse(x + y, q, x / q + y / q + 1, dx + dy - q);
    }
    if dx == 0 {
        lemma_fundamental_div_mod_converse(-x, q, -(x / q), 0);
    } else {
        lemma_fundamental_div_mod_converse(-x, q, -(x / q) - 1, q - dx);
    }
    if (x - y) % q == 0 {
        assert(dx == dy) by {
            let k = (x - y) / q;
            lemma_fundamental_div_mod_converse(x, q, y / q + k, dy);
        }
    }
}

/// Compression sees coefficients only modulo q: two polynomials with nonnegative
/// coefficients that `compress` accepts and with equal residues modulo q compress
/// to the same bytes.
pub proof fn lemma_compress_sees_residues(p: Seq<int>, p2: Seq<int>, arr: Seq<u8>)
    requires
        p.len() >= DEGREE,
        p2.len() >= DEGREE,
        forall|j: int| 0 <= j < DEGREE ==> 0 <= #[trigger] p[j] && 8 * p[j] + PRIME / 2 <= i32::MAX,
        forall|j: int|
            0 <= j < DEGREE ==> 0 <= #[trigger] p2[j] && 8 * p2[j] + PRIME / 2 <= i32::MAX,
        forall|j: int| 0 <= j < DEGREE ==> #[trigger] p[j] % (PRIME as int) == p2[j] % (PRIME as int),
    ensures
        compress_poly(p, arr) == compress_poly(p2, arr),
{
    assert forall|j: int| 0 <= j < arr.len() implies #[trigger] compress_poly(p, arr)[j]
        == compress_poly(p2, arr)[j] by {
        if j < 384 {
            let g = j / 3;
            assert(0 <= g < 128);
            assert forall|k: int| 8 * g <= k < 8 * g + 8 implies cbit(#[trigger] p[k]) == cbit(
                p2[k],
            ) by {
                lemma_cbit_periodic(p[k]);
                lemma_cbit_periodic(p2[k]);
            }
            lemma_ccol_eq(p, p2, g, 8);
        }
    }
    assert(compress_poly(p, arr) =~= compress_poly(p2, arr));
}

} // verus!
