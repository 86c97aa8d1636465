//! Key agreement: when the error of an exchange is small enough, the server and
//! the client derive the same shared key.
use vstd::prelude::*;
use vstd::arithmetic::div_mod::lemma_mod_twice;
use crate::arith::{
    PRIME, cong, lemma_cong_add, lemma_cong_mul, lemma_cong_multiple, lemma_modmul_cong,
    lemma_redc_below, lemma_redc_cong, modmul_spec, nres_spec, redc_spec, rinv,
};
use crate::ntt::{intt_spec, nres_poly, ntt_spec};
use crate::poly::{
    add_poly, hard_reduce_poly, lemma_hard_reduce_is_reduction, mul_poly, redc_poly, reduce_poly,
};
use crate::ring::{
    eval, lemma_eval_nega_mul, lemma_intt_additive, lemma_nres_cong,
    lemma_ntt_evaluates, lemma_red_linear, nega_mul, zeta,
};
use crate::arith::DEGREE;
use crate::codec::{
    bit_noise, circ_dist, cnorm, compress_poly, decode_key, decompress_poly, encode_poly, key_bit,
    lemma_compress_error, lemma_compress_reduces, lemma_decode_tolerates_noise, lemma_key_bit_range,
    lemma_unpack_inverts_pack, unpack_poly,
};
use crate::nhs::{
    client_key, client_message, client_public, client_reconciliation, client_shared_key,
    compress_bytes, pack_bytes, server_message, server_public, server_reconciliation,
    server_secret, server_secret_key, server_shared_key, zero_poly,
};
use crate::sample::{lemma_popcount_range, noise_coeff, noise_poly, parse_poly, seed_stream};

verus! {

/// R R^-1 ≡ 1 modulo q, with R ≡ 10952: (a 10952 + b 10952) R^-1 ≡ a + b.
proof fn lemma_unit(a: int, b: int)
    ensures
        cong((a * 10952 + b * 10952) * rinv(), a + b),
{
    assert((a * 10952 + b * 10952) * rinv() == (a + b) + ((a + b) * 10567) * PRIME)
        by (nonlinear_arith);
    lemma_cong_multiple(a + b, (a + b) * 10567);
}

/// A coefficient of a public polynomial a s + e, in the transform domain, after full
/// reduction and conversion out of Montgomery form: with s and e in Montgomery form
/// (≡ R vs, R ve), it is a R^-1 vs + ve, and lies in [0, q].
pub proof fn lemma_public_coeff(aj: int, sj: int, ej: int, vs: int, ve: int)
    ensures
        cong(sj, 10952 * vs) && cong(ej, 10952 * ve) ==> cong(
            redc_spec((modmul_spec(aj, sj) + ej) % (PRIME as int)),
            aj * rinv() * vs + ve,
        ),
        0 <= redc_spec((modmul_spec(aj, sj) + ej) % (PRIME as int)) <= PRIME,
{
    let q = PRIME as int;
    let ri = rinv();
    let mm = modmul_spec(aj, sj);
    let h = (mm + ej) % q;
    lemma_redc_below(h, 1);
    if cong(sj, 10952 * vs) && cong(ej, 10952 * ve) {
        lemma_modmul_cong(aj, sj);
        lemma_cong_mul(aj * ri, aj * ri, sj, 10952 * vs);
        assert(aj * sj * ri == aj * ri * sj) by (nonlinear_arith);
        assert(aj * ri * (10952 * vs) == (aj * ri * vs) * 10952) by (nonlinear_arith);
        lemma_cong_add(mm, (aj * ri * vs) * 10952, ej, ve * 10952);
        lemma_mod_twice(mm + ej, q);
        lemma_redc_cong(h);
        lemma_cong_mul(h, (aj * ri * vs) * 10952 + ve * 10952, ri, ri);
        lemma_unit(aj * ri * vs, ve);
    }
}

/// A coefficient of a product b s back in Montgomery form: with p ≡ vp and s in
/// Montgomery form (≡ R vs), modmul(nres(p), s) ≡ R vp vs.
pub proof fn lemma_product_coeff(p: int, sj: int, vp: int, vs: int)
    requires
        cong(p, vp),
        cong(sj, 10952 * vs),
    ensures
        cong(modmul_spec(nres_spec(p), sj), 10952 * (vp * vs)),
{
    let ri = rinv();
    lemma_nres_cong(p);
    lemma_cong_mul(10952, 10952, p, vp);
    lemma_cong_mul(nres_spec(p), 10952 * vp, sj, 10952 * vs);
    lemma_modmul_cong(nres_spec(p), sj);
    lemma_cong_mul(nres_spec(p) * sj, 10952 * vp * (10952 * vs), ri, ri);
    assert(10952 * vp * (10952 * vs) == (vp * vs * 10952) * 10952) by (nonlinear_arith);
    lemma_unit(vp * vs * 10952, 0);
    assert(vp * vs * 10952 + 0 == 10952 * (vp * vs)) by (nonlinear_arith);
}

/// The public polynomial a s + e of either side, out of the transform domain's
/// Montgomery form: s and e are transformed, the product taken coefficient-wise,
/// the sum fully reduced and converted out of Montgomery form.
pub open spec fn public_of(a: Seq<int>, s: Seq<int>, e: Seq<int>) -> Seq<int> {
    redc_poly(hard_reduce_poly(add_poly(mul_poly(a, ntt_spec(s)), ntt_spec(e))))
}

/// The product part e s' - e' s of the error of an exchange.
pub open spec fn cross_error(s: Seq<int>, e: Seq<int>, sd: Seq<int>, ed: Seq<int>) -> Seq<int> {
    Seq::new(DEGREE as nat, |k: int| nega_mul(e, sd)[k] - nega_mul(ed, s)[k])
}

/// The whole error e s' - e' s + e'' of an exchange.
pub open spec fn total_error(
    s: Seq<int>,
    e: Seq<int>,
    sd: Seq<int>,
    ed: Seq<int>,
    e2: Seq<int>,
) -> Seq<int> {
    Seq::new(DEGREE as nat, |k: int| cross_error(s, e, sd, ed)[k] + e2[k])
}

/// One coefficient of the cross terms: the client's product b s' and the server's
/// product u s differ by the transform of e s' - e' s.
proof fn lemma_cross_term_at(
    a: Seq<int>,
    s: Seq<int>,
    e: Seq<int>,
    sd: Seq<int>,
    ed: Seq<int>,
    j: int,
)
    requires
        a.len() == DEGREE,
        s.len() == DEGREE,
        e.len() == DEGREE,
        sd.len() == DEGREE,
        ed.len() == DEGREE,
        0 <= j < DEGREE,
    ensures
        cong(
            mul_poly(nres_poly(public_of(a, s, e)), ntt_spec(sd))[j],
            mul_poly(nres_poly(public_of(a, sd, ed)), reduce_poly(ntt_spec(s)))[j]
                + reduce_poly(ntt_spec(cross_error(s, e, sd, ed)))[j],
        ),
        0 <= public_of(a, s, e)[j] <= PRIME,
        0 <= public_of(a, sd, ed)[j] <= PRIME,
{
    let q = PRIME as int;
    let ri = rinv();
    let z = zeta(DEGREE as int, j);
    let (vs, ve, vsd, ved) = (eval(s, z), eval(e, z), eval(sd, z), eval(ed, z));
    let (fs, fe, fsd, fed) = (ntt_spec(s), ntt_spec(e), ntt_spec(sd), ntt_spec(ed));
    crate::ntt::lemma_ntt_upto_len(nres_poly(s), DEGREE as int);
    crate::ntt::lemma_ntt_upto_len(nres_poly(e), DEGREE as int);
    crate::ntt::lemma_ntt_upto_len(nres_poly(sd), DEGREE as int);
    crate::ntt::lemma_ntt_upto_len(nres_poly(ed), DEGREE as int);
    lemma_ntt_evaluates(s, j);
    lemma_ntt_evaluates(e, j);
    lemma_ntt_evaluates(sd, j);
    lemma_ntt_evaluates(ed, j);
    lemma_hard_reduce_is_reduction(add_poly(mul_poly(a, fs), fe));
    lemma_hard_reduce_is_reduction(add_poly(mul_poly(a, fsd), fed));
    let pb = public_of(a, s, e);
    let u = public_of(a, sd, ed);
    assert(pb[j] == redc_spec((modmul_spec(a[j], fs[j]) + fe[j]) % q));
    assert(u[j] == redc_spec((modmul_spec(a[j], fsd[j]) + fed[j]) % q));
    lemma_public_coeff(a[j], fs[j], fe[j], vs, ve);
    lemma_public_coeff(a[j], fsd[j], fed[j], vsd, ved);
    let al = a[j] * ri;
    // b s' on the client's side, u s on the server's.
    lemma_product_coeff(pb[j], fsd[j], al * vs + ve, vsd);
    lemma_mod_twice(fs[j], q);
    lemma_product_coeff(u[j], fs[j] % q, al * vsd + ved, vs);
    // The transform of e s' - e' s.
    let pn = cross_error(s, e, sd, ed);
    crate::ntt::lemma_ntt_upto_len(nres_poly(pn), DEGREE as int);
    lemma_ntt_evaluates(pn, j);
    lemma_red_linear(pn, nega_mul(e, sd), nega_mul(ed, s), -1, z, DEGREE as nat);
    lemma_eval_nega_mul(e, sd, j);
    lemma_eval_nega_mul(ed, s, j);
    let fp = ntt_spec(pn);
    lemma_mod_twice(fp[j], q);
    assert(eval(pn, z) == eval(nega_mul(e, sd), z) + -1 * eval(nega_mul(ed, s), z));
    crate::arith::lemma_cong_sub(
        eval(nega_mul(e, sd), z),
        ve * vsd,
        eval(nega_mul(ed, s), z),
        ved * vs,
    );
    lemma_cong_mul(10952, 10952, eval(pn, z), ve * vsd - ved * vs);
    let yc = 10952 * ((al * vs + ve) * vsd);
    let ys = 10952 * ((al * vsd + ved) * vs);
    assert(yc == ys + 10952 * (ve * vsd - ved * vs)) by (nonlinear_arith)
        requires
            yc == 10952 * ((al * vs + ve) * vsd),
            ys == 10952 * ((al * vsd + ved) * vs);
    lemma_cong_add(
        mul_poly(nres_poly(u), reduce_poly(fs))[j],
        ys,
        fp[j] % q,
        10952 * (ve * vsd - ved * vs),
    );
}

/// The client's product b s' and the server's product u s, back from the
/// transform domain, differ by e s' - e' s modulo q.
proof fn lemma_shared_difference(a: Seq<int>, s: Seq<int>, e: Seq<int>, sd: Seq<int>, ed: Seq<int>)
    requires
        a.len() == DEGREE,
        s.len() == DEGREE,
        e.len() == DEGREE,
        sd.len() == DEGREE,
        ed.len() == DEGREE,
    ensures
        forall|j: int|
            0 <= j < DEGREE ==> cong(
                #[trigger] intt_spec(mul_poly(nres_poly(public_of(a, s, e)), ntt_spec(sd)))[j],
                intt_spec(mul_poly(nres_poly(public_of(a, sd, ed)), reduce_poly(ntt_spec(s))))[j]
                    + cross_error(s, e, sd, ed)[j],
            ),
{
    let q = PRIME as int;
    let yc = mul_poly(nres_poly(public_of(a, s, e)), ntt_spec(sd));
    let ys = mul_poly(nres_poly(public_of(a, sd, ed)), reduce_poly(ntt_spec(s)));
    let pn = cross_error(s, e, sd, ed);
    let z = reduce_poly(ntt_spec(pn));
    crate::ntt::lemma_ntt_upto_len(nres_poly(pn), DEGREE as int);
    crate::ntt::lemma_ntt_upto_len(nres_poly(s), DEGREE as int);
    crate::ntt::lemma_ntt_upto_len(nres_poly(sd), DEGREE as int);
    crate::ntt::lemma_ntt_upto_len(nres_poly(e), DEGREE as int);
    crate::ntt::lemma_ntt_upto_len(nres_poly(ed), DEGREE as int);
    assert forall|j: int| 0 <= j < DEGREE implies cong(#[trigger] yc[j], ys[j] + z[j]) by {
        lemma_cross_term_at(a, s, e, sd, ed, j);
    }
    lemma_intt_additive(yc, ys, z);
    lemma_hard_reduce_is_reduction(ntt_spec(pn));
    crate::ntt::lemma_intt_inverts_ntt(pn);
    assert forall|j: int| 0 <= j < DEGREE implies cong(
        #[trigger] intt_spec(yc)[j],
        intt_spec(ys)[j] + pn[j],
    ) by {
        assert(cong(intt_spec(yc)[j], intt_spec(ys)[j] + intt_spec(z)[j]));
        assert(intt_spec(z)[j] == pn[j] % q);
        lemma_mod_twice(pn[j], q);
        lemma_cong_add(intt_spec(ys)[j], intt_spec(ys)[j], intt_spec(z)[j], pn[j]);
    }
}

/// One coefficient of the polynomial that the server decodes: with the client's
/// coefficient c = b s' + e'' + enc, the server's u s ≡ b s' - (e s' - e' s), and the
/// decompressed coefficient cd within q/16 of c mod q, the coefficient
/// (cd + q - u s) mod q lies within q/16 + |e s' - e' s + e''| of enc on the circle.
proof fn lemma_reconciled_coeff(bs: int, us: int, pn: int, e2: int, enc: int, cd: int)
    requires
        cong(bs, us + pn),
        circ_dist(cd, (bs + e2 + enc) % (PRIME as int)) <= PRIME / 16,
    ensures
        circ_dist((cd + PRIME - us) % (PRIME as int), enc) <= PRIME / 16 + cnorm(pn + e2),
{
    let q = PRIME as int;
    let c = bs + e2 + enc;
    let v = (cd + q - us) % q;
    let d = cd - c % q;
    let n = pn + e2;
    lemma_mod_twice(cd + q - us, q);
    crate::arith::lemma_cong_sub(v, cd + q - us, enc, enc);
    lemma_mod_twice(c, q);
    lemma_cong_add(bs, us + pn, e2 + enc, e2 + enc);
    crate::arith::lemma_cong_sub(cd, cd, c % q, us + pn + e2 + enc);
    lemma_cong_add(d, cd - (us + pn + e2 + enc), n, n);
    lemma_cong_multiple(cd - us - enc, 1);
    assert(cong(v - enc, d + n));
    crate::arith::lemma_cong_sub(v - enc, d + n, d + n, d + n);
    crate::codec::lemma_cnorm(v - enc, d + n);
    crate::codec::lemma_cnorm(d, n);
    assert(circ_dist(v, enc) == cnorm(v - enc));
    assert(circ_dist(cd, c % q) == cnorm(d));
}

/// Unpacking the packing of a polynomial with 14-bit coefficients gives it back.
proof fn lemma_unpack_packed(p: Seq<int>)
    requires
        p.len() == DEGREE,
        forall|j: int| 0 <= j < DEGREE ==> 0 <= #[trigger] p[j] < 0x4000,
    ensures
        unpack_poly(pack_bytes(p), zero_poly()) == p,
{
    lemma_unpack_inverts_pack(p, Seq::new(1792, |j: int| 0u8));
    assert(unpack_poly(pack_bytes(p), zero_poly()) =~= unpack_poly(pack_bytes(p), p));
}

/// A noise coefficient lies within 16 of q.
proof fn lemma_noise_range(bytes: Seq<u8>, i: int)
    ensures
        PRIME - 16 <= noise_coeff(bytes, i) <= PRIME + 16,
{
    lemma_popcount_range(bytes[4 * i] + 256 * bytes[4 * i + 1], 16);
    lemma_popcount_range(bytes[4 * i + 2] + 256 * bytes[4 * i + 3], 16);
}

/// The error of an exchange: e s' - e' s + e'', with e and s the server's noise and
/// s', e' and e'' the client's, the products taken in Z[X]/(X^DEGREE + 1).
pub open spec fn exchange_error(
    e_noise: Seq<u8>,
    s_noise: Seq<u8>,
    sd_noise: Seq<u8>,
    ed_noise: Seq<u8>,
    ed2_noise: Seq<u8>,
) -> Seq<int> {
    total_error(
        noise_poly(s_noise, zero_poly()),
        noise_poly(e_noise, zero_poly()),
        noise_poly(sd_noise, zero_poly()),
        noise_poly(ed_noise, zero_poly()),
        noise_poly(ed2_noise, zero_poly()),
    )
}

/// The total size, on the circle of residues, of the four coefficients of n that
/// carry key bit i.
pub open spec fn error_weight(n: Seq<int>, i: int) -> int {
    cnorm(n[i]) + cnorm(n[i + 256]) + cnorm(n[i + 512]) + cnorm(n[i + 768])
}

/// The decoding step of an exchange over given polynomials: a, the noise s, e, s',
/// e', e'' and the key; the client's polynomial b s' + e'' + enc(key) is compressed
/// and decompressed, the server subtracts u s, and the result decodes to the key
/// when the error e s' - e' s + e'' is small enough.
#[verifier::spinoff_prover]
#[verifier::rlimit(60)]
proof fn lemma_exchange_decodes(
    a: Seq<int>,
    s: Seq<int>,
    e: Seq<int>,
    sd: Seq<int>,
    ed: Seq<int>,
    e2: Seq<int>,
    key: Seq<u8>,
)
    requires
        a.len() == DEGREE,
        s.len() == DEGREE,
        e.len() == DEGREE,
        sd.len() == DEGREE,
        ed.len() == DEGREE,
        e2.len() == DEGREE,
        key.len() == 32,
        forall|j: int| 0 <= j < DEGREE ==> PRIME - 16 <= #[trigger] e2[j] <= PRIME + 16,
        forall|i: int|
            0 <= i < 256 ==> #[trigger] error_weight(total_error(s, e, sd, ed, e2), i) <= PRIME
                - 2 - 4 * (PRIME / 16),
    ensures
        decode_key(
            reduce_poly(
                crate::poly::rsub_poly(
                    intt_spec(mul_poly(nres_poly(public_of(a, sd, ed)), reduce_poly(ntt_spec(s)))),
                    decompress_poly(
                        compress_bytes(
                            add_poly(
                                add_poly(
                                    intt_spec(mul_poly(nres_poly(public_of(a, s, e)), ntt_spec(sd))),
                                    e2,
                                ),
                                encode_poly(key, zero_poly()),
                            ),
                        ),
                        zero_poly(),
                    ),
                ),
            ),
            Seq::new(32, |j: int| 0u8),
        ) == key,
{
    let q = PRIME as int;
    let z0 = zero_poly();
    let pb = public_of(a, s, e);
    let u = public_of(a, sd, ed);
    let fs = ntt_spec(s);
    let ccli = intt_spec(mul_poly(nres_poly(pb), ntt_spec(sd)));
    let k = intt_spec(mul_poly(nres_poly(u), reduce_poly(fs)));
    let enc = encode_poly(key, z0);
    let cpoly = add_poly(add_poly(ccli, e2), enc);
    crate::ntt::lemma_intt_upto_len(mul_poly(nres_poly(pb), ntt_spec(sd)), 512);
    crate::ntt::lemma_intt_upto_len(mul_poly(nres_poly(u), reduce_poly(fs)), 512);
    assert(ccli.len() == DEGREE);
    assert(k.len() == DEGREE);
    lemma_shared_difference(a, s, e, sd, ed);
    let pn = cross_error(s, e, sd, ed);
    let n = total_error(s, e, sd, ed, e2);
    // Compression sees the client's polynomial modulo q.
    assert forall|j: int| 0 <= j < DEGREE implies 0 <= #[trigger] cpoly[j] && 8 * cpoly[j] + PRIME
        / 2 <= i32::MAX by {
        lemma_key_bit_range(key, j % 256);
        assert(0 <= ccli[j] < PRIME);
        assert(cpoly[j] < 4 * PRIME);
    }
    let zc = Seq::new(384, |j: int| 0u8);
    lemma_compress_reduces(cpoly, zc);
    let rc = reduce_poly(cpoly);
    lemma_compress_error(rc, zc);
    let cdec = decompress_poly(compress_bytes(cpoly), z0);
    assert(cdec =~= decompress_poly(compress_poly(rc, zc), rc));
    let v = reduce_poly(crate::poly::rsub_poly(k, cdec));
    assert forall|j: int| 0 <= j < DEGREE implies 0 <= #[trigger] v[j] < PRIME && circ_dist(
        v[j],
        enc[j],
    ) <= PRIME / 16 + cnorm(n[j]) by {
        assert(v[j] == (cdec[j] + PRIME - k[j]) % q);
        assert(cpoly[j] == ccli[j] + e2[j] + enc[j]);
        lemma_reconciled_coeff(ccli[j], k[j], pn[j], e2[j], enc[j], cdec[j]);
    }
    // Each key bit is decoded.
    assert forall|i: int| 0 <= i < 256 implies #[trigger] bit_noise(v, key, i) <= PRIME - 2 by {
        assert(error_weight(n, i) <= PRIME - 2 - 4 * (PRIME / 16));
        assert(enc[i] == key_bit(key, i) * (PRIME / 2));
        assert(enc[i + 256] == key_bit(key, i) * (PRIME / 2));
        assert(enc[i + 512] == key_bit(key, i) * (PRIME / 2));
        assert(enc[i + 768] == key_bit(key, i) * (PRIME / 2));
        assert(circ_dist(v[i], enc[i]) <= PRIME / 16 + cnorm(n[i]));
        assert(circ_dist(v[i + 256], enc[i + 256]) <= PRIME / 16 + cnorm(n[i + 256]));
        assert(circ_dist(v[i + 512], enc[i + 512]) <= PRIME / 16 + cnorm(n[i + 512]));
        assert(circ_dist(v[i + 768], enc[i + 768]) <= PRIME / 16 + cnorm(n[i + 768]));
    }
    lemma_decode_tolerates_noise(key, v);
    assert(decode_key(v, Seq::new(32, |j: int| 0u8)) =~= decode_key(v, key));
}

/// The client's answer to the server's message: its packed public polynomial
/// u = a s' + e', then the compression of b s' + e'' + enc(key), where b = a s + e
/// is the server's public polynomial unpacked.
proof fn lemma_client_answer(
    seed: Seq<u8>,
    e_noise: Seq<u8>,
    s_noise: Seq<u8>,
    sd_noise: Seq<u8>,
    ed_noise: Seq<u8>,
    key_bytes: Seq<u8>,
    ed2_noise: Seq<u8>,
)
    requires
        seed.len() == 32,
    ensures
        ({
            let z0 = zero_poly();
            let a = parse_poly(seed_stream(seed), z0);
            let uc = client_message(
                server_message(seed, e_noise, s_noise),
                sd_noise,
                ed_noise,
                key_bytes,
                ed2_noise,
            );
            let sd = noise_poly(sd_noise, z0);
            &&& uc.subrange(0, 1792) == pack_bytes(public_of(a, sd, noise_poly(ed_noise, z0)))
            &&& uc.subrange(1792, 2176) == compress_bytes(
                add_poly(
                    add_poly(
                        intt_spec(
                            mul_poly(
                                nres_poly(
                                    public_of(
                                        a,
                                        noise_poly(s_noise, z0),
                                        noise_poly(e_noise, z0),
                                    ),
                                ),
                                ntt_spec(sd),
                            ),
                        ),
                        noise_poly(ed2_noise, z0),
                    ),
                    encode_poly(client_key(key_bytes), z0),
                ),
            )
        }),
{
    let z0 = zero_poly();
    let a = parse_poly(seed_stream(seed), z0);
    let s = noise_poly(s_noise, z0);
    let e = noise_poly(e_noise, z0);
    let sd = noise_poly(sd_noise, z0);
    let ed = noise_poly(ed_noise, z0);
    let sb = server_message(seed, e_noise, s_noise);
    let pb = public_of(a, s, e);
    let u = public_of(a, sd, ed);
    assert(sb.subrange(0, 32) =~= seed.subrange(0, 32));
    assert(parse_poly(seed_stream(sb), z0) == a);
    assert(server_public(seed, e_noise, s_noise) == pb);
    assert(redc_poly(client_public(sb, sd_noise, ed_noise)) == u);
    assert forall|j: int| 0 <= j < DEGREE implies 0 <= #[trigger] pb[j] <= PRIME by {
        lemma_cross_term_at(a, s, e, sd, ed, j);
    }
    lemma_unpack_packed(pb);
    assert(sb.subrange(32, 1824) =~= pack_bytes(pb));
    let cpoly = client_reconciliation(sb, sd_noise, key_bytes, ed2_noise);
    let uc = client_message(sb, sd_noise, ed_noise, key_bytes, ed2_noise);
    assert(uc.subrange(0, 1792) =~= pack_bytes(u));
    assert(uc.subrange(1792, 2176) =~= compress_bytes(cpoly));
}

/// The polynomial that the server decodes from its secret key and a client's answer
/// made of the packing of u and 384 compressed bytes: c - u s, reduced.
proof fn lemma_server_decodes(s: Seq<int>, u: Seq<int>, s_noise: Seq<u8>, uc: Seq<u8>)
    requires
        s == noise_poly(s_noise, zero_poly()),
        u.len() == DEGREE,
        forall|j: int| 0 <= j < DEGREE ==> 0 <= #[trigger] u[j] <= PRIME,
        uc.subrange(0, 1792) == pack_bytes(u),
    ensures
        server_reconciliation(server_secret_key(s_noise), uc) == reduce_poly(
            crate::poly::rsub_poly(
                intt_spec(mul_poly(nres_poly(u), reduce_poly(ntt_spec(s)))),
                decompress_poly(uc.subrange(1792, 2176), zero_poly()),
            ),
        ),
{
    let fs = ntt_spec(s);
    let ss = server_secret_key(s_noise);
    lemma_unpack_packed(u);
    crate::ntt::lemma_ntt_upto_len(nres_poly(s), DEGREE as int);
    lemma_hard_reduce_is_reduction(fs);
    assert(server_secret(s_noise) == fs);
    lemma_unpack_packed(reduce_poly(fs));
    assert(ss.subrange(0, 1792) =~= ss);
}

/// Key agreement: the server and the client derive the same shared key whenever,
/// for every key bit, the four coefficients of the exchange's error e s' - e' s + e''
/// that carry it are together within q - 2 - 4 (q/16) of 0 on the circle of
/// residues (4 (q/16) being what compression may add). The client's key is a
/// SHA3-256 digest of 32 bytes, as `client_from_bytes` and `client` ensure.
pub proof fn lemma_key_agreement(
    seed: Seq<u8>,
    e_noise: Seq<u8>,
    s_noise: Seq<u8>,
    sd_noise: Seq<u8>,
    ed_noise: Seq<u8>,
    key_bytes: Seq<u8>,
    ed2_noise: Seq<u8>,
)
    requires
        seed.len() == 32,
        client_key(key_bytes).len() == 32,
        forall|i: int|
            0 <= i < 256 ==> #[trigger] error_weight(
                exchange_error(e_noise, s_noise, sd_noise, ed_noise, ed2_noise),
                i,
            ) <= PRIME - 2 - 4 * (PRIME / 16),
    ensures
        server_shared_key(
            server_secret_key(s_noise),
            client_message(
                server_message(seed, e_noise, s_noise),
                sd_noise,
                ed_noise,
                key_bytes,
                ed2_noise,
            ),
        ) == client_shared_key(key_bytes),
{
    let z0 = zero_poly();
    let a = parse_poly(seed_stream(seed), z0);
    let s = noise_poly(s_noise, z0);
    let e = noise_poly(e_noise, z0);
    let sd = noise_poly(sd_noise, z0);
    let ed = noise_poly(ed_noise, z0);
    let e2 = noise_poly(ed2_noise, z0);
    let key = client_key(key_bytes);
    let u = public_of(a, sd, ed);
    let uc = client_message(server_message(seed, e_noise, s_noise), sd_noise, ed_noise, key_bytes, ed2_noise);
    lemma_client_answer(seed, e_noise, s_noise, sd_noise, ed_noise, key_bytes, ed2_noise);
    assert forall|j: int| 0 <= j < DEGREE implies 0 <= #[trigger] u[j] <= PRIME by {
        lemma_cross_term_at(a, s, e, sd, ed, j);
    }
    lemma_server_decodes(s, u, s_noise, uc);
    assert forall|j: int| 0 <= j < DEGREE implies PRIME - 16 <= #[trigger] e2[j] <= PRIME + 16 by {
        lemma_noise_range(ed2_noise, j);
    }
    let n = exchange_error(e_noise, s_noise, sd_noise, ed_noise, ed2_noise);
    assert(n == total_error(s, e, sd, ed, e2));
    assert forall|i: int| 0 <= i < 256 implies #[trigger] error_weight(total_error(s, e, sd, ed, e2), i)
        <= PRIME - 2 - 4 * (PRIME / 16) by {
        assert(error_weight(n, i) <= PRIME - 2 - 4 * (PRIME / 16));
    }
    lemma_exchange_decodes(a, s, e, sd, ed, e2, key);
}

/// Key agreement after compression: for any secret key `ss` and answer `uc`, the
/// server derives the client's shared key whenever, for every key bit, the four
/// coefficients of the polynomial c - u s that the server decodes (c decompressed
/// from `uc`) lie in total within q - 2 of the values that encode that bit of the
/// client's key on the circle of residues. The client's key is a SHA3-256 digest of
/// 32 bytes, as `client_from_bytes` and `client` ensure.
pub proof fn lemma_key_agreement_on_reconciliation(ss: Seq<u8>, uc: Seq<u8>, key_bytes: Seq<u8>)
    requires
        client_key(key_bytes).len() == 32,
        forall|i: int|
            0 <= i < 256 ==> #[trigger] bit_noise(
                server_reconciliation(ss, uc),
                client_key(key_bytes),
                i,
            ) <= PRIME - 2,
    ensures
        server_shared_key(ss, uc) == client_shared_key(key_bytes),
{
    let z0 = zero_poly();
    let key = client_key(key_bytes);
    let y = mul_poly(
        nres_poly(unpack_poly(uc.subrange(0, 1792), z0)),
        unpack_poly(ss.subrange(0, 1792), z0),
    );
    crate::ntt::lemma_intt_upto_len(y, 512);
    let v = server_reconciliation(ss, uc);
    assert(v.len() == DEGREE);
    assert forall|j: int| 0 <= j < DEGREE implies 0 <= #[trigger] v[j] < PRIME by {}
    lemma_decode_tolerates_noise(key, v);
    assert(decode_key(v, Seq::new(32, |j: int| 0u8)) =~= decode_key(v, key));
}

} // verus!
