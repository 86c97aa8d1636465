//! Sampling of polynomials: uniform ones from a seed, and noise from random bytes.
use vstd::prelude::*;
use crate::arith::{DEGREE, PRIME, nres, nres_spec};
use crate::hash::{shake128, shake128_spec};
use crate::ntt::ints;

verus! {

/// The 31-bit big-endian number in bytes 4i, ..., 4i + 3 of `h`, top bit dropped.
pub open spec fn hash_word(h: Seq<u8>, i: int) -> int {
    (h[4 * i] % 128) * 0x100_0000 + h[4 * i + 1] * 0x1_0000 + h[4 * i + 2] * 0x100 + h[4 * i + 3]
}

/// The polynomial whose coefficients are the words of `h`, in Montgomery form.
pub open spec fn parse_poly(h: Seq<u8>, p: Seq<int>) -> Seq<int> {
    Seq::new(p.len(), |i: int| if i < DEGREE { nres_spec(hash_word(h, i)) } else { p[i] })
}

/// The number of one bits among the n low bits of x >= 0.
pub open spec fn popcount(x: int, n: nat) -> int
    decreases n,
{
    if n == 0 {
        0
    } else {
        x % 2 + popcount(x / 2, (n - 1) as nat)
    }
}

/// Coefficient i of a noise polynomial: the difference of the bit counts of two
/// 16-bit little-endian words of `bytes`, plus q.
pub open spec fn noise_coeff(bytes: Seq<u8>, i: int) -> int {
    popcount(bytes[4 * i] + 256 * bytes[4 * i + 1], 16) - popcount(
        bytes[4 * i + 2] + 256 * bytes[4 * i + 3],
        16,
    ) + PRIME
}

/// The noise polynomial of 4 DEGREE random bytes.
pub open spec fn noise_poly(bytes: Seq<u8>, p: Seq<int>) -> Seq<int> {
    Seq::new(p.len(), |i: int| if i < DEGREE { noise_coeff(bytes, i) } else { p[i] })
}

/// The SHAKE128 stream of a 32-byte seed that `parse` reads.
pub open spec fn seed_stream(seed: Seq<u8>) -> Seq<u8> {
    shake128_spec(seed.subrange(0, 32), 4 * DEGREE as nat)
}

/// A bit count of n bits lies between 0 and n.
pub proof fn lemma_popcount_range(x: int, n: nat)
    requires
        x >= 0,
    ensures
        0 <= popcount(x, n) <= n,
    decreases n,
{
    if n > 0 {
        lemma_popcount_range(x / 2, (n - 1) as nat);
    }
}

/// Turns the SHAKE128 stream `hash` of a seed into a polynomial with coefficients
/// in Montgomery form.
pub fn parse_hash(hash: &[u8], poly: &mut [i32])
    requires
        hash@.len() >= 4 * DEGREE,
        old(poly)@.len() >= DEGREE,
    ensures
        final(poly)@.len() == old(poly)@.len(),
        ints(final(poly)@) == parse_poly(hash@, ints(old(poly)@)),
        forall|i: int| 0 <= i < DEGREE ==> 0 <= #[trigger] final(poly)@[i] <= 2832 + PRIME,
{
    let ghost p0 = ints(poly@);
    let mut j: usize = 0;
    for i in 0..DEGREE
        invariant
            hash@.len() >= 4 * DEGREE,
            poly@.len() == p0.len(),
            p0.len() >= DEGREE,
            j == 4 * i,
            forall|ii: int|
                0 <= ii < poly@.len() ==> #[trigger] poly@[ii] as int == (if ii < i {
                    parse_poly(hash@, p0)[ii]
                } else {
                    p0[ii]
                }),
            forall|ii: int| 0 <= ii < i ==> 0 <= #[trigger] poly@[ii] <= 2832 + PRIME,
    {
        let h0 = hash[j];
        proof {
            assert(((h0 & 0x7f) as i32) as int == h0 % 128) by (bit_vector);
        }
        let mut n = (hash[j] & 0x7f) as i32;
        proof {
            lemma_shl8(n);
        }
        n <<= 8;
        n += hash[j + 1] as i32;
        proof {
            lemma_shl8(n);
        }
        n <<= 8;
        n += hash[j + 2] as i32;
        proof {
            lemma_shl8(n);
        }
        n <<= 8;
        n += hash[j + 3] as i32;
        assert(n == hash_word(hash@, i as int));
        j += 4;
        poly[i] = nres(n);
    }
    proof {
        assert(ints(poly@) =~= parse_poly(hash@, p0));
    }
}

/// A left shift by 8 of a value below 2^23 multiplies it by 256.
proof fn lemma_shl8(c: i32)
    requires
        0 <= c < 0x80_0000,
    ensures
        c << 8 == c * 256,
{
    assert(c << 8 == c * 256) by (bit_vector)
        requires 0 <= c < 0x80_0000;
}

/// Turns a 32-byte seed into a uniformly distributed polynomial, with coefficients in
/// Montgomery form, by the SHAKE128 stream of the seed.
pub fn parse(seed: &[u8], poly: &mut [i32])
    requires
        seed@.len() >= 32,
        old(poly)@.len() >= DEGREE,
    ensures
        final(poly)@.len() == old(poly)@.len(),
        ints(final(poly)@) == parse_poly(seed_stream(seed@), ints(old(poly)@)),
        forall|i: int|
            0 <= i < DEGREE ==> #[trigger] final(poly)@[i] == nres_spec(
                hash_word(shake128_spec(seed@.subrange(0, 32), 4 * DEGREE as nat), i),
            ),
        forall|i: int| 0 <= i < DEGREE ==> 0 <= #[trigger] final(poly)@[i] <= 2832 + PRIME,
{
    let mut input: Vec<u8> = Vec::new();
    for i in 0..32
        invariant
            seed@.len() >= 32,
            input@ == seed@.subrange(0, i as int),
    {
        input.push(seed[i]);
        assert(input@ =~= seed@.subrange(0, i + 1));
    }
    let hash = shake128(input.as_slice(), 4 * DEGREE);
    let ghost p0 = ints(poly@);
    parse_hash(hash.as_slice(), poly);
    proof {
        lemma_parse_uses_whole_seed(seed@, p0);
        assert forall|i: int| 0 <= i < DEGREE implies #[trigger] poly@[i] == nres_spec(
            hash_word(shake128_spec(seed@.subrange(0, 32), 4 * DEGREE as nat), i),
        ) by {
            assert(poly@[i] as int == ints(poly@)[i]);
        }
    }
}

/// The uniform polynomial of a seed is drawn from SHAKE128 of all 32 seed bytes:
/// for every seed of at least 32 bytes, coefficient i is the Montgomery form of the
/// 31-bit big-endian word i of the first 4 DEGREE bytes of SHAKE128 on
/// seed[0..32].
pub proof fn lemma_parse_uses_whole_seed(seed: Seq<u8>, p: Seq<int>)
    requires
        seed.len() >= 32,
        p.len() >= DEGREE,
    ensures
        seed_stream(seed) == shake128_spec(seed.subrange(0, 32), 4 * DEGREE as nat),
        forall|i: int|
            0 <= i < DEGREE ==> #[trigger] parse_poly(seed_stream(seed), p)[i] == nres_spec(
                hash_word(shake128_spec(seed.subrange(0, 32), 4 * DEGREE as nat), i),
            ),
{
}

/// Fills a polynomial with noise from 4 DEGREE random bytes: each coefficient is q
/// plus a sample of the centered binomial distribution with parameter 16.
pub fn error(noise: &[u8], poly: &mut [i32])
    requires
        noise@.len() >= 4 * DEGREE,
        old(poly)@.len() >= DEGREE,
    ensures
        final(poly)@.len() == old(poly)@.len(),
        ints(final(poly)@) == noise_poly(noise@, ints(old(poly)@)),
        forall|i: int|
            0 <= i < DEGREE ==> PRIME - 16 <= #[trigger] final(poly)@[i] <= PRIME + 16,
{
    let ghost p0 = ints(poly@);
    for i in 0..DEGREE
        invariant
            noise@.len() >= 4 * DEGREE,
            poly@.len() == p0.len(),
            p0.len() >= DEGREE,
            forall|ii: int|
                0 <= ii < poly@.len() ==> #[trigger] poly@[ii] as int == (if ii < i {
                    noise_poly(noise@, p0)[ii]
                } else {
                    p0[ii]
                }),
            forall|ii: int| 0 <= ii < i ==> PRIME - 16 <= #[trigger] poly@[ii] <= PRIME + 16,
    {
        let ghost (b0, b1, b2, b3) = (noise@[4 * i as int], noise@[4 * i + 1], noise@[4 * i + 2],
            noise@[4 * i + 3]);
        proof {
            assert(((b0 as i32) & 0xff) + (((b1 as i32) & 0xff) << 8) == b0 + 256 * b1)
                by (bit_vector);
            assert(((b2 as i32) & 0xff) + (((b3 as i32) & 0xff) << 8) == b2 + 256 * b3)
                by (bit_vector);
        }
        let mut n1 = ((noise[4 * i] as i32) & 0xff) + (((noise[4 * i + 1] as i32) & 0xff) << 8);
        let mut n2 = ((noise[4 * i + 2] as i32) & 0xff) + (((noise[4 * i + 3] as i32) & 0xff) << 8);
        let ghost w1: int = n1 as int;
        let ghost w2: int = n2 as int;
        let mut r: i32 = 0;
        for k in 0..16
            invariant
                0 <= n1 < 0x1_0000,
                0 <= n2 < 0x1_0000,
                -k <= r <= k,
                r + popcount(n1 as int, (16 - k) as nat) - popcount(n2 as int, (16 - k) as nat)
                    == popcount(w1, 16) - popcount(w2, 16),
        {
            let ghost (m1, m2) = (n1, n2);
            proof {
                assert(m1 & 1 == m1 % 2 && m1 >> 1 == m1 / 2) by (bit_vector)
                    requires 0 <= m1;
                assert(m2 & 1 == m2 % 2 && m2 >> 1 == m2 / 2) by (bit_vector)
                    requires 0 <= m2;
            }
            r += (n1 & 1) - (n2 & 1);
            n1 >>= 1;
            n2 >>= 1;
        }
        proof {
            lemma_popcount_range(w1, 16);
            lemma_popcount_range(w2, 16);
        }
        poly[i] = r + PRIME;
    }
    proof {
        assert(ints(poly@) =~= noise_poly(noise@, p0));
    }
}

} // verus!
