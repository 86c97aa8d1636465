//! The NewHope-Simple key exchange: the server's first message, the client's
//! answer with its shared key, and the server's shared key.
use vstd::prelude::*;
use rand::rngs::StdRng;
use crate::arith::{DEGREE, PRIME, lemma_redc_below, modmul_spec, mont_r};
use crate::codec::{
    compress, compress_poly, decode, decode_key, dsum, decompress, decompress_poly, encode, encode_poly,
    nhs_pack, nhs_unpack, pack_poly, unpack_poly,
};
use crate::hash::{sha3_256, sha3_256_spec};
use crate::ntt::{intt, intt_spec, ints, nres_poly, ntt, ntt_spec};
use crate::poly::{
    add_poly, hard_reduce_poly, mul_poly, nres_it, poly_add, poly_hard_reduce, poly_mul, poly_rsub,
    poly_soft_reduce, redc_it, redc_poly, reduce_poly, rsub_poly,
};
use crate::random::random_bytes;
use crate::sample::{error, noise_poly, parse, parse_poly, seed_stream};

verus! {

/// The polynomial with DEGREE zero coefficients.
pub open spec fn zero_poly() -> Seq<int> {
    Seq::new(DEGREE as nat, |i: int| 0)
}

/// The packing of a polynomial into 1792 bytes.
pub open spec fn pack_bytes(p: Seq<int>) -> Seq<u8> {
    pack_poly(p, Seq::new(1792, |j: int| 0u8))
}

/// The compression of a polynomial into 384 bytes.
pub open spec fn compress_bytes(p: Seq<int>) -> Seq<u8> {
    compress_poly(p, Seq::new(384, |j: int| 0u8))
}

/// The server's secret polynomial s, in the transform domain.
pub open spec fn server_secret(s_noise: Seq<u8>) -> Seq<int> {
    ntt_spec(noise_poly(s_noise, zero_poly()))
}

/// The server's public polynomial b = a s + e, with a the uniform polynomial of the
/// seed, in the transform domain and out of Montgomery form.
pub open spec fn server_public(seed: Seq<u8>, e_noise: Seq<u8>, s_noise: Seq<u8>) -> Seq<int> {
    let a = parse_poly(seed_stream(seed), zero_poly());
    let e = ntt_spec(noise_poly(e_noise, zero_poly()));
    redc_poly(hard_reduce_poly(add_poly(mul_poly(a, server_secret(s_noise)), e)))
}

/// The server's first message: the seed followed by the packed public polynomial.
pub open spec fn server_message(seed: Seq<u8>, e_noise: Seq<u8>, s_noise: Seq<u8>) -> Seq<u8> {
    seed.subrange(0, 32) + pack_bytes(server_public(seed, e_noise, s_noise))
}

/// The server's packed secret key.
pub open spec fn server_secret_key(s_noise: Seq<u8>) -> Seq<u8> {
    pack_bytes(hard_reduce_poly(server_secret(s_noise)))
}

/// Copies `src[0..n]` into `dst[off..off + n]`.
fn copy_into(dst: &mut [u8], off: usize, src: &[u8], n: usize)
    requires
        off + n <= old(dst)@.len(),
        n <= src@.len(),
    ensures
        final(dst)@ == old(dst)@.subrange(0, off as int) + src@.subrange(0, n as int) + old(
            dst,
        )@.subrange(off + n, old(dst)@.len() as int),
{
    let ghost d0 = dst@;
    let dlen = dst.len();
    for i in 0..n
        invariant
            dlen == d0.len(),
            off + n <= d0.len(),
            n <= src@.len(),
            dst@.len() == d0.len(),
            forall|k: int|
                0 <= k < d0.len() ==> #[trigger] dst@[k] == (if off <= k < off + i {
                    src@[k - off]
                } else {
                    d0[k]
                }),
    {
        dst[off + i] = src[i];
    }
    assert(dst@ =~= d0.subrange(0, off as int) + src@.subrange(0, n as int) + d0.subrange(
        off + n,
        d0.len() as int,
    ));
}

/// The public polynomial a s + e of either side: a from the SHAKE128 stream of the
/// seed, s and e in the transform domain. Fully reduced, in Montgomery form.
fn public_poly(seed: &[u8], s: &[i32], e: &[i32], p: &mut [i32])
    requires
        seed@.len() >= 32,
        s@.len() >= DEGREE,
        e@.len() >= DEGREE,
        old(p)@.len() >= DEGREE,
        forall|j: int| 0 <= j < DEGREE ==> 0 <= #[trigger] s@[j] <= 2832 + 21 * PRIME,
        forall|j: int| 0 <= j < DEGREE ==> 0 <= #[trigger] e@[j] <= 2832 + 21 * PRIME,
    ensures
        final(p)@.len() == old(p)@.len(),
        ints(final(p)@) == hard_reduce_poly(
            add_poly(
                mul_poly(parse_poly(seed_stream(seed@), ints(old(p)@)), ints(s@)),
                ints(e@),
            ),
        ),
        forall|j: int| 0 <= j < DEGREE ==> 0 <= #[trigger] final(p)@[j] < PRIME,
{
    parse(seed, p);
    let ghost p1 = ints(p@);
    poly_mul(p, s);
    proof {
        assert forall|j: int| 0 <= j < DEGREE implies 0 <= #[trigger] p@[j] <= PRIME by {
            assert(p@[j] as int == ints(p@)[j]);
            assert(ints(p@)[j] == modmul_spec(p1[j], ints(s@)[j]));
            assert(0 <= p1[j] <= 2832 + PRIME);
            assert(0 <= ints(s@)[j] <= 2832 + 21 * PRIME);
            assert(p1[j] * ints(s@)[j] < mont_r()) by (nonlinear_arith)
                requires 0 <= p1[j] <= 2832 + PRIME, 0 <= ints(s@)[j] <= 2832 + 21 * PRIME;
            assert(0 <= p1[j] * ints(s@)[j]) by (nonlinear_arith)
                requires 0 <= p1[j], 0 <= ints(s@)[j];
            lemma_redc_below(p1[j] * ints(s@)[j], 1);
        }
    }
    let ghost p2 = ints(p@);
    poly_add(p, e);
    proof {
        assert forall|j: int| 0 <= j < DEGREE implies #[trigger] p@[j] >= 0 by {
            assert(p@[j] as int == ints(p@)[j]);
            assert(0 <= p2[j]);
            assert(0 <= e@[j]);
        }
    }
    poly_hard_reduce(p);
}

/// The product b s of a packed polynomial b and a polynomial s in the transform
/// domain, back from the transform domain: unpacking, conversion into Montgomery
/// form, coefficient-wise product, inverse transform.
fn shared_poly(array: &[u8], s: &[i32], c: &mut [i32])
    requires
        array@.len() >= 1792,
        s@.len() >= DEGREE,
        old(c)@.len() >= DEGREE,
        forall|j: int| 0 <= j < DEGREE ==> 0 <= #[trigger] s@[j] <= 2832 + 21 * PRIME,
    ensures
        final(c)@.len() == old(c)@.len(),
        ints(final(c)@) == intt_spec(
            mul_poly(nres_poly(unpack_poly(array@, ints(old(c)@))), ints(s@)),
        ),
        forall|j: int| 0 <= j < DEGREE ==> 0 <= #[trigger] final(c)@[j] < PRIME,
{
    nhs_unpack(array, c);
    nres_it(c);
    let ghost c1 = ints(c@);
    poly_mul(c, s);
    proof {
        assert forall|j: int| 0 <= j < DEGREE implies 0 <= #[trigger] c@[j] <= 2 * PRIME by {
            assert(c@[j] as int == ints(c@)[j]);
            assert(ints(c@)[j] == modmul_spec(c1[j], ints(s@)[j]));
            assert(0 <= c1[j] <= 2832 + PRIME);
            assert(0 <= ints(s@)[j] <= 2832 + 21 * PRIME);
            assert(c1[j] * ints(s@)[j] < mont_r()) by (nonlinear_arith)
                requires 0 <= c1[j] <= 2832 + PRIME, 0 <= ints(s@)[j] <= 2832 + 21 * PRIME;
            assert(0 <= c1[j] * ints(s@)[j]) by (nonlinear_arith)
                requires 0 <= c1[j], 0 <= ints(s@)[j];
            lemma_redc_below(c1[j] * ints(s@)[j], 1);
        }
    }
    intt(c);
}

/// The server's first step with its random bytes given: a 32-byte seed and the
/// 4 DEGREE noise bytes of each of e and s. Writes the message into `sb` and the
/// secret key into `ss`.
pub fn server_1_from_bytes(
    seed: &[u8],
    e_noise: &[u8],
    s_noise: &[u8],
    sb: &mut [u8],
    ss: &mut [u8],
)
    requires
        seed@.len() >= 32,
        e_noise@.len() >= 4 * DEGREE,
        s_noise@.len() >= 4 * DEGREE,
        old(sb)@.len() >= 1824,
        old(ss)@.len() >= 1792,
    ensures
        final(sb)@ == server_message(seed@, e_noise@, s_noise@) + old(sb)@.subrange(
            1824,
            old(sb)@.len() as int,
        ),
        final(ss)@ == server_secret_key(s_noise@) + old(ss)@.subrange(1792, old(ss)@.len() as int),
{
    let mut array: [u8; 1792] = [0; 1792];
    let mut s: [i32; DEGREE] = [0; DEGREE];
    let mut e: [i32; DEGREE] = [0; DEGREE];
    let mut b: [i32; DEGREE] = [0; DEGREE];
    assert(ints(b@) =~= zero_poly());
    assert(ints(e@) =~= zero_poly());
    assert(ints(s@) =~= zero_poly());
    assert(array@ =~= Seq::new(1792, |j: int| 0u8));
    let ghost arr0 = array@;

    error(e_noise, &mut e);
    error(s_noise, &mut s);

    ntt(&mut s);
    ntt(&mut e);
    public_poly(seed, &s, &e, &mut b);

    redc_it(&mut b);
    nhs_pack(&b, &mut array);
    let ghost packed_b = array@;

    copy_into(sb, 0, seed, 32);
    copy_into(sb, 32, &array, 1792);

    poly_hard_reduce(&mut s);
    nhs_pack(&s, &mut array);

    copy_into(ss, 0, &array, 1792);
    proof {
        assert(packed_b == pack_bytes(server_public(seed@, e_noise@, s_noise@)));
        assert(final(sb)@ =~= server_message(seed@, e_noise@, s_noise@) + old(sb)@.subrange(
            1824,
            old(sb)@.len() as int,
        ));
        assert(final(ss)@ =~= server_secret_key(s_noise@) + old(ss)@.subrange(
            1792,
            old(ss)@.len() as int,
        ));
    }
}

/// The server's first step: draws a 32-byte seed and the noise of e and s from
/// `rng`, then writes the message into `sb` and the secret key into `ss`.
pub fn server_1(rng: &mut StdRng, sb: &mut [u8], ss: &mut [u8])
    requires
        old(sb)@.len() >= 1824,
        old(ss)@.len() >= 1792,
    ensures
        exists|seed: Seq<u8>, e_noise: Seq<u8>, s_noise: Seq<u8>|
            #![trigger server_message(seed, e_noise, s_noise)]
            {
                &&& seed.len() == 32
                &&& e_noise.len() == 4 * DEGREE
                &&& s_noise.len() == 4 * DEGREE
                &&& final(sb)@ == server_message(seed, e_noise, s_noise) + old(sb)@.subrange(
                    1824,
                    old(sb)@.len() as int,
                )
                &&& final(ss)@ == server_secret_key(s_noise) + old(ss)@.subrange(
                    1792,
                    old(ss)@.len() as int,
                )
            },
{
    let seed = random_bytes(rng, 32);
    let e_noise = random_bytes(rng, 4 * DEGREE);
    let s_noise = random_bytes(rng, 4 * DEGREE);
    server_1_from_bytes(seed.as_slice(), e_noise.as_slice(), s_noise.as_slice(), sb, ss);
}

/// The client's secret polynomial s', in the transform domain.
pub open spec fn client_secret(sd_noise: Seq<u8>) -> Seq<int> {
    ntt_spec(noise_poly(sd_noise, zero_poly()))
}

/// The client's public polynomial u = a s' + e', in the transform domain and in
/// Montgomery form, fully reduced.
pub open spec fn client_public(sb: Seq<u8>, sd_noise: Seq<u8>, ed_noise: Seq<u8>) -> Seq<int> {
    let a = parse_poly(seed_stream(sb), zero_poly());
    let ed = ntt_spec(noise_poly(ed_noise, zero_poly()));
    hard_reduce_poly(add_poly(mul_poly(a, client_secret(sd_noise)), ed))
}

/// The key that the client encodes: the SHA3-256 digest of its 32 random bytes.
pub open spec fn client_key(key_bytes: Seq<u8>) -> Seq<u8> {
    sha3_256_spec(key_bytes.subrange(0, 32))
}

/// The polynomial c = b s' + e'' + encode(key) that the client compresses, with b
/// the server's public polynomial.
pub open spec fn client_reconciliation(
    sb: Seq<u8>,
    sd_noise: Seq<u8>,
    key_bytes: Seq<u8>,
    ed2_noise: Seq<u8>,
) -> Seq<int> {
    let b = nres_poly(unpack_poly(sb.subrange(32, 1824), zero_poly()));
    let c = intt_spec(mul_poly(b, client_secret(sd_noise)));
    add_poly(
        add_poly(c, noise_poly(ed2_noise, zero_poly())),
        encode_poly(client_key(key_bytes), zero_poly()),
    )
}

/// The client's answer: the packed public polynomial followed by the compressed
/// reconciliation polynomial.
pub open spec fn client_message(
    sb: Seq<u8>,
    sd_noise: Seq<u8>,
    ed_noise: Seq<u8>,
    key_bytes: Seq<u8>,
    ed2_noise: Seq<u8>,
) -> Seq<u8> {
    pack_bytes(redc_poly(client_public(sb, sd_noise, ed_noise))) + compress_bytes(
        client_reconciliation(sb, sd_noise, key_bytes, ed2_noise),
    )
}

/// The client's shared key: the SHA3-256 digest of the encoded key.
pub open spec fn client_shared_key(key_bytes: Seq<u8>) -> Seq<u8> {
    sha3_256_spec(client_key(key_bytes))
}

/// Copies the first n bytes of `src` into a new vector.
fn prefix(src: &[u8], n: usize) -> (out: Vec<u8>)
    requires
        n <= src@.len(),
    ensures
        out@ == src@.subrange(0, n as int),
{
    let mut out: Vec<u8> = Vec::new();
    for i in 0..n
        invariant
            n <= src@.len(),
            out@ == src@.subrange(0, i as int),
    {
        out.push(src[i]);
        assert(out@ =~= src@.subrange(0, i + 1));
    }
    out
}

/// The first part of the client's answer: the packed public polynomial u = a s' + e'.
fn client_public_part(sb: &[u8], sd: &[i32], ed: &[i32], uc: &mut [u8])
    requires
        sb@.len() >= 1824,
        sd@.len() >= DEGREE,
        ed@.len() >= DEGREE,
        old(uc)@.len() >= 2176,
        forall|j: int| 0 <= j < DEGREE ==> 0 <= #[trigger] sd@[j] <= 2832 + 21 * PRIME,
        forall|j: int| 0 <= j < DEGREE ==> 0 <= #[trigger] ed@[j] <= 2832 + 21 * PRIME,
    ensures
        final(uc)@ == pack_bytes(
            redc_poly(
                hard_reduce_poly(
                    add_poly(
                        mul_poly(parse_poly(seed_stream(sb@), zero_poly()), ints(sd@)),
                        ints(ed@),
                    ),
                ),
            ),
        ) + old(uc)@.subrange(1792, old(uc)@.len() as int),
{
    let mut array: [u8; 1792] = [0; 1792];
    let mut u: [i32; DEGREE] = [0; DEGREE];
    assert(ints(u@) =~= zero_poly());
    assert(array@ =~= Seq::new(1792, |j: int| 0u8));
    let seed = prefix(sb, 32);
    assert(seed@.subrange(0, 32) =~= sb@.subrange(0, 32));
    public_poly(seed.as_slice(), sd, ed, &mut u);
    redc_it(&mut u);
    nhs_pack(&u, &mut array);
    copy_into(uc, 0, &array, 1792);
    assert(final(uc)@ =~= array@ + old(uc)@.subrange(1792, old(uc)@.len() as int));
}

/// The second part of the client's answer: the compressed polynomial
/// b s' + e'' + encode(key).
fn client_reconciliation_part(
    sb: &[u8],
    sd: &[i32],
    key: &[u8],
    ed2_noise: &[u8],
    uc: &mut [u8],
)
    requires
        sb@.len() >= 1824,
        sd@.len() >= DEGREE,
        key@.len() >= 32,
        ed2_noise@.len() >= 4 * DEGREE,
        old(uc)@.len() >= 2176,
        forall|j: int| 0 <= j < DEGREE ==> 0 <= #[trigger] sd@[j] <= 2832 + 21 * PRIME,
    ensures
        final(uc)@ == old(uc)@.subrange(0, 1792) + compress_bytes(
            add_poly(
                add_poly(
                    intt_spec(
                        mul_poly(
                            nres_poly(unpack_poly(sb@.subrange(32, 1824), zero_poly())),
                            ints(sd@),
                        ),
                    ),
                    noise_poly(ed2_noise@, zero_poly()),
                ),
                encode_poly(key@, zero_poly()),
            ),
        ) + old(uc)@.subrange(2176, old(uc)@.len() as int),
{
    let mut array: [u8; 1792] = [0; 1792];
    let mut cc: [u8; 384] = [0; 384];
    let mut ed: [i32; DEGREE] = [0; DEGREE];
    let mut k: [i32; DEGREE] = [0; DEGREE];
    let mut c: [i32; DEGREE] = [0; DEGREE];
    assert(ints(ed@) =~= zero_poly());
    assert(ints(k@) =~= zero_poly());
    assert(ints(c@) =~= zero_poly());
    assert(cc@ =~= Seq::new(384, |j: int| 0u8));
    for i in 0..1792
        invariant
            sb@.len() >= 1824,
            forall|j: int| 0 <= j < i ==> #[trigger] array@[j] == sb@[j + 32],
    {
        array[i] = sb[i + 32];
    }
    assert(array@ =~= sb@.subrange(32, 1824));

    encode(key, &mut k);
    shared_poly(&array, sd, &mut c);
    error(ed2_noise, &mut ed);
    poly_add(&mut c, &ed);
    let ghost c3 = ints(c@);
    proof {
        assert forall|j: int| 0 <= j < DEGREE implies 0 <= #[trigger] c@[j] <= 2 * PRIME + 16 by {
            assert(c@[j] as int == ints(c@)[j]);
        }
        assert forall|j: int| 0 <= j < DEGREE implies 0 <= #[trigger] k@[j] <= PRIME / 2 by {
            assert(k@[j] as int == ints(k@)[j]);
            let kb = key@[(j % 256) / 8];
            let sh = ((j % 256) % 8) as u8;
            assert(0 <= (kb >> sh) & 1u8 <= 1) by (bit_vector);
        }
    }
    poly_add(&mut c, &k);
    proof {
        assert forall|j: int|
            0 <= j < DEGREE implies -0x1000_0000 <= #[trigger] c@[j] && 8 * c@[j] + PRIME / 2
            <= i32::MAX by {
            assert(c@[j] as int == ints(c@)[j]);
            assert(0 <= c3[j] <= 2 * PRIME + 16);
        }
    }
    compress(&c, &mut cc);
    copy_into(uc, 1792, &cc, 384);
    assert(final(uc)@ =~= old(uc)@.subrange(0, 1792) + cc@ + old(uc)@.subrange(
        2176,
        old(uc)@.len() as int,
    ));
}

/// The client's step with its random bytes given: the noise of s', e' and e'' and
/// 32 key bytes. Reads the server's message `sb`, writes its answer into `uc` and
/// the shared key into `okey`.
pub fn client_from_bytes(
    sd_noise: &[u8],
    ed_noise: &[u8],
    key_bytes: &[u8],
    ed2_noise: &[u8],
    sb: &[u8],
    uc: &mut [u8],
    okey: &mut [u8],
)
    requires
        sd_noise@.len() >= 4 * DEGREE,
        ed_noise@.len() >= 4 * DEGREE,
        key_bytes@.len() >= 32,
        ed2_noise@.len() >= 4 * DEGREE,
        sb@.len() >= 1824,
        old(uc)@.len() >= 2176,
        old(okey)@.len() >= 32,
    ensures
        final(uc)@ == client_message(sb@, sd_noise@, ed_noise@, key_bytes@, ed2_noise@) + old(
            uc,
        )@.subrange(2176, old(uc)@.len() as int),
        final(okey)@ == client_shared_key(key_bytes@) + old(okey)@.subrange(
            32,
            old(okey)@.len() as int,
        ),
        client_key(key_bytes@).len() == 32,
        client_shared_key(key_bytes@).len() == 32,
        final(okey)@.len() == old(okey)@.len(),
{
    let mut sd: [i32; DEGREE] = [0; DEGREE];
    let mut ed: [i32; DEGREE] = [0; DEGREE];
    assert(ints(sd@) =~= zero_poly());
    assert(ints(ed@) =~= zero_poly());

    error(sd_noise, &mut sd);
    error(ed_noise, &mut ed);

    ntt(&mut sd);
    ntt(&mut ed);

    client_public_part(sb, &sd, &ed, uc);
    let ghost uc1 = uc@;

    let key0 = prefix(key_bytes, 32);
    let key = sha3_256(key0.as_slice());

    client_reconciliation_part(sb, &sd, key.as_slice(), ed2_noise, uc);

    let okey_bytes = sha3_256(key.as_slice());
    copy_into(okey, 0, okey_bytes.as_slice(), 32);
    proof {
        assert(key0@ =~= key_bytes@.subrange(0, 32));
        assert(uc1.subrange(0, 1792) =~= pack_bytes(
            redc_poly(client_public(sb@, sd_noise@, ed_noise@)),
        ));
        assert(uc1.subrange(2176, uc1.len() as int) =~= old(uc)@.subrange(
            2176,
            old(uc)@.len() as int,
        ));
        assert(final(uc)@ =~= client_message(sb@, sd_noise@, ed_noise@, key_bytes@, ed2_noise@)
            + old(uc)@.subrange(2176, old(uc)@.len() as int));
        assert(okey_bytes@.subrange(0, 32) =~= okey_bytes@);
        assert(final(okey)@ =~= client_shared_key(key_bytes@) + old(okey)@.subrange(
            32,
            old(okey)@.len() as int,
        ));
    }
}

/// The client's step: draws the noise of s' and e', 32 key bytes and the noise of
/// e'' from `rng`, in this order. Reads the server's message `sb`, writes its answer
/// into `uc` and the shared key into `okey`.
pub fn client(rng: &mut StdRng, sb: &[u8], uc: &mut [u8], okey: &mut [u8])
    requires
        sb@.len() >= 1824,
        old(uc)@.len() >= 2176,
        old(okey)@.len() >= 32,
    ensures
        exists|sd_noise: Seq<u8>, ed_noise: Seq<u8>, key_bytes: Seq<u8>, ed2_noise: Seq<u8>|
            #![trigger client_message(sb@, sd_noise, ed_noise, key_bytes, ed2_noise)]
            {
                &&& sd_noise.len() == 4 * DEGREE
                &&& ed_noise.len() == 4 * DEGREE
                &&& key_bytes.len() == 32
                &&& ed2_noise.len() == 4 * DEGREE
                &&& final(uc)@ == client_message(sb@, sd_noise, ed_noise, key_bytes, ed2_noise)
                    + old(uc)@.subrange(2176, old(uc)@.len() as int)
                &&& final(okey)@ == client_shared_key(key_bytes) + old(okey)@.subrange(
                    32,
                    old(okey)@.len() as int,
                )
                &&& client_key(key_bytes).len() == 32
                &&& client_shared_key(key_bytes).len() == 32
            },
        final(okey)@.len() == old(okey)@.len(),
{
    let sd_noise = random_bytes(rng, 4 * DEGREE);
    let ed_noise = random_bytes(rng, 4 * DEGREE);
    let key_bytes = random_bytes(rng, 32);
    let ed2_noise = random_bytes(rng, 4 * DEGREE);
    client_from_bytes(
        sd_noise.as_slice(),
        ed_noise.as_slice(),
        key_bytes.as_slice(),
        ed2_noise.as_slice(),
        sb,
        uc,
        okey,
    );
}

/// The polynomial that the server decodes: c - b' s + q reduced modulo q, with c the
/// decompressed reconciliation polynomial and b' s back from the transform domain.
pub open spec fn server_reconciliation(ss: Seq<u8>, uc: Seq<u8>) -> Seq<int> {
    let k = intt_spec(
        mul_poly(
            nres_poly(unpack_poly(uc.subrange(0, 1792), zero_poly())),
            unpack_poly(ss.subrange(0, 1792), zero_poly()),
        ),
    );
    let c = decompress_poly(uc.subrange(1792, 2176), zero_poly());
    reduce_poly(rsub_poly(k, c))
}

/// The server's shared key: the SHA3-256 digest of the decoded key.
pub open spec fn server_shared_key(ss: Seq<u8>, uc: Seq<u8>) -> Seq<u8> {
    sha3_256_spec(decode_key(server_reconciliation(ss, uc), Seq::new(32, |j: int| 0u8)))
}

/// The server's second step: from its secret key `ss` and the client's answer `uc`,
/// writes the shared key into `okey`.
pub fn server_2(ss: &[u8], uc: &[u8], okey: &mut [u8])
    requires
        ss@.len() >= 1792,
        uc@.len() >= 2176,
        old(okey)@.len() >= 32,
    ensures
        final(okey)@ == server_shared_key(ss@, uc@) + old(okey)@.subrange(
            32,
            old(okey)@.len() as int,
        ),
        server_shared_key(ss@, uc@).len() == 32,
        final(okey)@.len() == old(okey)@.len(),
{
    let mut s: [i32; DEGREE] = [0; DEGREE];
    let mut k: [i32; DEGREE] = [0; DEGREE];
    let mut c: [i32; DEGREE] = [0; DEGREE];
    let mut array: [u8; 1792] = [0; 1792];
    let mut key: [u8; 32] = [0; 32];
    let mut cc: [u8; 384] = [0; 384];
    assert(ints(s@) =~= zero_poly());
    assert(ints(k@) =~= zero_poly());
    assert(ints(c@) =~= zero_poly());
    assert(key@ =~= Seq::new(32, |j: int| 0u8));

    for i in 0..1792
        invariant
            uc@.len() >= 2176,
            forall|j: int| 0 <= j < i ==> #[trigger] array@[j] == uc@[j],
    {
        array[i] = uc[i];
    }
    assert(array@ =~= uc@.subrange(0, 1792));
    let uc_poly = array;

    for i in 0..384
        invariant
            uc@.len() >= 2176,
            forall|j: int| 0 <= j < i ==> #[trigger] cc@[j] == uc@[j + 1792],
    {
        cc[i] = uc[i + 1792];
    }
    assert(cc@ =~= uc@.subrange(1792, 2176));

    decompress(&cc, &mut c);

    for i in 0..1792
        invariant
            ss@.len() >= 1792,
            forall|j: int| 0 <= j < i ==> #[trigger] array@[j] == ss@[j],
    {
        array[i] = ss[i];
    }
    assert(array@ =~= ss@.subrange(0, 1792));

    nhs_unpack(&array, &mut s);
    shared_poly(&uc_poly, &s, &mut k);
    poly_rsub(&mut k, &c);
    let ghost kr = ints(k@);
    proof {
        assert forall|j: int| 0 <= j < DEGREE implies 0 <= #[trigger] k@[j] < 2 * PRIME by {
            assert(k@[j] as int == ints(k@)[j]);
        }
    }
    poly_soft_reduce(&mut k);
    proof {
        assert forall|j: int| 0 <= j < DEGREE implies #[trigger] k@[j] > i32::MIN + PRIME / 2 by {
            assert(k@[j] as int == ints(k@)[j]);
        }
        assert forall|i: int| 0 <= i < 256 implies #[trigger] dsum(ints(k@), i) <= i32::MAX by {
            assert(0 <= ints(k@)[i] < PRIME);
            assert(0 <= ints(k@)[i + 256] < PRIME);
            assert(0 <= ints(k@)[i + 512] < PRIME);
            assert(0 <= ints(k@)[i + 768] < PRIME);
        }
    }

    decode(&k, &mut key);
    let digest = sha3_256(&key);
    copy_into(okey, 0, digest.as_slice(), 32);
    proof {
        assert(digest@.subrange(0, 32) =~= digest@);
        assert(final(okey)@ =~= server_shared_key(ss@, uc@) + old(okey)@.subrange(
            32,
            old(okey)@.len() as int,
        ));
    }
}

} // verus!
