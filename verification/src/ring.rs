//! The transforms as maps of the ring Z_q[X]/(X^1024 + 1): the forward transform
//! evaluates a polynomial, in Montgomery form, at the 1024 roots of X^1024 + 1
//! modulo q; the inverse transform is additive; and together they multiply
//! polynomials in the ring.
use vstd::prelude::*;
use vstd::arithmetic::div_mod::{lemma_fundamental_div_mod, lemma_fundamental_div_mod_converse};
use vstd::arithmetic::mul::lemma_mul_is_associative;
use crate::arith::{
    DEGREE, PRIME, cong, lemma_cong_add, lemma_cong_mul, lemma_cong_multiple, lemma_cong_sub,
    INV, INVPR, ONE, lemma_modmul_cong, lemma_redc_cong, modmul_spec, nres_spec, redc_spec, rinv,
};
use crate::poly::{hard_reduce_poly, mul_poly, reduce_poly};
use crate::ntt::{
    half_size, intt_last, intt_spec, intt_stage, intt_upto, lemma_half_size_step,
    lemma_intt_inverts_ntt, lemma_intt_upto_len, lemma_ntt_upto_len, lemma_stage_index, lower_half,
    nres_poly, ntt_spec, ntt_stage, ntt_upto, root_index, stage_pair,
};
use crate::tables::{IROOTS, ROOTS, lemma_root_square};

verus! {

/// z^e.
pub open spec fn pw(z: int, e: nat) -> int
    decreases e,
{
    if e == 0 {
        1
    } else {
        pw(z, (e - 1) as nat) * z
    }
}

/// The sum of a[r + d l] z^l over l < c: the coefficient r of a reduced modulo
/// X^d - z, when c d covers a.
pub open spec fn red(a: Seq<int>, d: int, z: int, r: int, c: nat) -> int
    decreases c,
{
    if c == 0 {
        0
    } else {
        red(a, d, z, r, (c - 1) as nat) + a[r + d * (c - 1)] * pw(z, (c - 1) as nat)
    }
}

/// The value of the polynomial with the first DEGREE coefficients of a at z.
pub open spec fn eval(a: Seq<int>, z: int) -> int {
    red(a, 1, z, 0, DEGREE as nat)
}

/// The element that ROOTS[k] stands for (not reduced).
pub open spec fn wv(k: int) -> int {
    ROOTS[k] * rinv()
}

/// The constant z of the modulus X^d - z of block i after the stages below block
/// count m: -1 for the single block of X^1024 + 1, then the two square roots of the
/// parent's constant.
pub open spec fn zeta(m: int, i: int) -> int {
    if m <= 1 {
        -1
    } else if i % 2 == 0 {
        wv(m / 2 + i / 2)
    } else {
        -wv(m / 2 + i / 2)
    }
}

/// z^(2c) = (z^2)^c.
pub proof fn lemma_pw_square(w: int, c: nat)
    ensures
        pw(w, 2 * c) == pw(w * w, c),
    decreases c,
{
    if c > 0 {
        lemma_pw_square(w, (c - 1) as nat);
        assert(pw(w, 2 * c) == pw(w, (2 * c - 2) as nat) * w * w) by {
            assert(pw(w, 2 * c) == pw(w, (2 * c - 1) as nat) * w);
            assert(pw(w, (2 * c - 1) as nat) == pw(w, (2 * c - 2) as nat) * w);
        }
        assert(pw(w, (2 * c - 2) as nat) * w * w == pw(w, (2 * c - 2) as nat) * (w * w))
            by (nonlinear_arith);
    }
}

/// Congruent bases have congruent powers.
pub proof fn lemma_pw_cong(z: int, z2: int, e: nat)
    requires
        cong(z, z2),
    ensures
        cong(pw(z, e), pw(z2, e)),
    decreases e,
{
    if e > 0 {
        lemma_pw_cong(z, z2, (e - 1) as nat);
        lemma_cong_mul(pw(z, (e - 1) as nat), pw(z2, (e - 1) as nat), z, z2);
    }
}

/// Splitting a reduction modulo X^(2t) - w^2 into the reductions modulo X^t - w and
/// X^t + w: the lower and upper halves of a Cooley-Tukey butterfly.
pub proof fn lemma_red_split(a: Seq<int>, t: int, w: int, r: int, c: nat)
    ensures
        red(a, t, w, r, 2 * c) == red(a, 2 * t, w * w, r, c) + w * red(a, 2 * t, w * w, r + t, c),
        red(a, t, -w, r, 2 * c) == red(a, 2 * t, w * w, r, c) - w * red(
            a,
            2 * t,
            w * w,
            r + t,
            c,
        ),
    decreases c,
{
    if c > 0 {
        let c1 = (c - 1) as nat;
        lemma_red_split(a, t, w, r, c1);
        lemma_pw_square(w, c1);
        lemma_pw_square(-w, c1);
        assert((-w) * (-w) == w * w) by (nonlinear_arith);
        let p = pw(w * w, c1);
        let i0 = r + t * (2 * c1);
        let i1 = r + t * (2 * c1 + 1);
        assert(i0 == r + 2 * t * c1 && i1 == r + t + 2 * t * c1) by (nonlinear_arith)
            requires i0 == r + t * (2 * c1), i1 == r + t * (2 * c1 + 1);
        assert(red(a, t, w, r, 2 * c) == red(a, t, w, r, 2 * c1) + a[i0] * p + a[i1] * (p * w)) by {
            assert(red(a, t, w, r, (2 * c1 + 1) as nat) == red(a, t, w, r, 2 * c1) + a[i0] * pw(
                w,
                2 * c1,
            ));
            assert(pw(w, (2 * c1 + 1) as nat) == pw(w, 2 * c1) * w);
        }
        assert(red(a, t, -w, r, 2 * c) == red(a, t, -w, r, 2 * c1) + a[i0] * p + a[i1] * (p * (
        -w))) by {
            assert(red(a, t, -w, r, (2 * c1 + 1) as nat) == red(a, t, -w, r, 2 * c1) + a[i0] * pw(
                -w,
                2 * c1,
            ));
            assert(pw(-w, (2 * c1 + 1) as nat) == pw(-w, 2 * c1) * (-w));
        }
        let lo = red(a, 2 * t, w * w, r, c1);
        let hi = red(a, 2 * t, w * w, r + t, c1);
        assert(red(a, 2 * t, w * w, r, c) == lo + a[i0] * p);
        assert(red(a, 2 * t, w * w, r + t, c) == hi + a[i1] * p);
        assert(lo + w * hi + a[i0] * p + a[i1] * (p * w) == (lo + a[i0] * p) + w * (hi + a[i1]
            * p)) by (nonlinear_arith);
        assert(lo - w * hi + a[i0] * p + a[i1] * (p * (-w)) == (lo + a[i0] * p) - w * (hi + a[i1]
            * p)) by (nonlinear_arith);
    }
}

/// Reductions modulo congruent constants are congruent.
pub proof fn lemma_red_cong(a: Seq<int>, d: int, z: int, z2: int, r: int, c: nat)
    requires
        cong(z, z2),
    ensures
        cong(red(a, d, z, r, c), red(a, d, z2, r, c)),
    decreases c,
{
    if c > 0 {
        let c1 = (c - 1) as nat;
        lemma_red_cong(a, d, z, z2, r, c1);
        lemma_pw_cong(z, z2, c1);
        let x = a[r + d * c1];
        lemma_cong_mul(x, x, pw(z, c1), pw(z2, c1));
        lemma_cong_add(red(a, d, z, r, c1), red(a, d, z2, r, c1), x * pw(z, c1), x * pw(z2, c1));
    }
}

/// From A^2 ≡ sg B R (mod q) to (A R^-1)^2 ≡ sg (B R^-1).
proof fn lemma_square_out_of_montgomery(a: int, b: int, sg: int)
    requires
        (a * a - sg * b * 10952) % 12289 == 0,
    ensures
        cong(a * rinv() * (a * rinv()), sg * (b * rinv())),
{
    let q = PRIME as int;
    let ri = rinv();
    lemma_fundamental_div_mod(a * a - sg * b * 10952, q);
    let k = (a * a - sg * b * 10952) / q;
    assert(a * a == sg * b * 10952 + k * q);
    assert(a * ri * (a * ri) == sg * (b * ri) + (sg * b * ri * 10567 + k * ri * ri) * q)
        by (nonlinear_arith)
        requires a * a == sg * b * 10952 + k * q, ri == 11857, q == 12289;
    lemma_cong_multiple(sg * (b * ri), sg * b * ri * 10567 + k * ri * ri);
}

/// The root of block i of stage m squares to the block's constant.
pub proof fn lemma_zeta_square(m: int, t: int, i: int)
    requires
        stage_pair(m, t),
        0 <= i < m,
    ensures
        cong(wv(m + i) * wv(m + i), zeta(m, i)),
{
    let k = m + i;
    lemma_root_square(k);
    if m == 1 {
        lemma_square_out_of_montgomery(ROOTS[1] as int, 10952, -1);
        assert(cong(-(10952 * rinv()), -1)) by {
            assert(-(10952 * rinv()) == -1 + (-10567) * PRIME);
            lemma_cong_multiple(-1, -10567);
        }
    } else {
        assert(k / 2 == m / 2 + i / 2 && k % 2 == i % 2);
        let sg: int = if k % 2 == 0 { 1 } else { -1 };
        lemma_square_out_of_montgomery(ROOTS[k] as int, ROOTS[k / 2] as int, sg);
    }
}

/// The block counts of the forward stages, and the final count DEGREE.
pub open spec fn block_count(m: int) -> bool {
    m == 1 || m == 2 || m == 4 || m == 8 || m == 16 || m == 32 || m == 64 || m == 128 || m == 256
        || m == 512 || m == 1024
}

/// The arithmetic of block sizes between two forward stages.
proof fn lemma_block_step(m: int)
    requires
        block_count(m),
        m > 1,
    ensures
        block_count(m / 2),
        stage_pair(m / 2, (DEGREE as int) / m),
        (DEGREE as int) / (m / 2) == 2 * ((DEGREE as int) / m),
        2 * (m / 2) == m,
{
    if m == 2 {
        assert((DEGREE as int) / 1 == 1024 && (DEGREE as int) / 2 == 512);
    } else if m == 4 {
        assert((DEGREE as int) / 2 == 512 && (DEGREE as int) / 4 == 256);
    } else if m == 8 {
        assert((DEGREE as int) / 4 == 256 && (DEGREE as int) / 8 == 128);
    } else if m == 16 {
        assert((DEGREE as int) / 8 == 128 && (DEGREE as int) / 16 == 64);
    } else if m == 32 {
        assert((DEGREE as int) / 16 == 64 && (DEGREE as int) / 32 == 32);
    } else if m == 64 {
        assert((DEGREE as int) / 32 == 32 && (DEGREE as int) / 64 == 16);
    } else if m == 128 {
        assert((DEGREE as int) / 64 == 16 && (DEGREE as int) / 128 == 8);
    } else if m == 256 {
        assert((DEGREE as int) / 128 == 8 && (DEGREE as int) / 256 == 4);
    } else if m == 512 {
        assert((DEGREE as int) / 256 == 4 && (DEGREE as int) / 512 == 2);
    } else {
        assert((DEGREE as int) / 512 == 2 && (DEGREE as int) / 1024 == 1);
    }
}

/// The constant of every block after the stages below block count m, raised to
/// the power m, is -1 modulo q.
pub proof fn lemma_zeta_power(m: int, i: int)
    requires
        block_count(m),
        0 <= i < m,
    ensures
        cong(pw(zeta(m, i), m as nat), -1),
    decreases m,
{
    if m == 1 {
        assert(pw(-1, 1) == -1) by {
            reveal_with_fuel(pw, 2);
        }
    } else {
        let mp = m / 2;
        let ip = i / 2;
        lemma_zeta_power(mp, ip);
        let w = wv(mp + ip);
        lemma_zeta_square(mp, 512int / mp, ip);
        assert((-w) * (-w) == w * w) by (nonlinear_arith);
        let z = zeta(m, i);
        assert(z * z == w * w);
        lemma_pw_square(z, mp as nat);
        assert(2 * (mp as nat) == m as nat);
        lemma_pw_cong(z * z, zeta(mp, ip), mp as nat);
    }
}

/// After the stages below block count m, coefficient r of block i (of d = DEGREE/m
/// coefficients) is, modulo q, coefficient r of the input reduced modulo
/// X^d - zeta(m, i).
pub proof fn lemma_ntt_reduces(x: Seq<int>, m: int)
    requires
        x.len() >= DEGREE,
        block_count(m),
    ensures
        forall|j: int|
            0 <= j < DEGREE ==> cong(
                #[trigger] ntt_upto(x, m)[j],
                red(
                    x,
                    (DEGREE as int) / m,
                    zeta(m, j / ((DEGREE as int) / m)),
                    j % ((DEGREE as int) / m),
                    m as nat,
                ),
            ),
    decreases m,
{
    if m == 1 {
        assert forall|j: int| 0 <= j < DEGREE implies cong(
            #[trigger] ntt_upto(x, m)[j],
            red(x, (DEGREE as int) / m, zeta(m, j / ((DEGREE as int) / m)), j % ((DEGREE as int) / m), m as nat),
        ) by {
            assert((DEGREE as int) / m == 1024);
            assert(j / 1024 == 0 && j % 1024 == j);
            assert(red(x, 1024, -1, j, 0) == 0);
            assert(pw(-1, 0) == 1);
            assert(red(x, 1024, -1, j, 1) == x[j]);
        }
    } else {
        lemma_block_step(m);
        let mp = m / 2;
        let t = (DEGREE as int) / m;
        lemma_ntt_reduces(x, mp);
        let s = ntt_upto(x, mp);
        lemma_ntt_upto_len(x, mp);
        assert(ntt_upto(x, m) == ntt_stage(s, mp, t));
        assert forall|j: int| 0 <= j < DEGREE implies cong(
            #[trigger] ntt_upto(x, m)[j],
            red(x, t, zeta(m, j / t), j % t, m as nat),
        ) by {
            lemma_ntt_stage_reduces(x, s, mp, t, j);
        }
    }
}

/// The butterfly on residues: if u ≡ lo and v ≡ hi, the two outputs of a
/// butterfly with root ROOTS-entry `root` are lo ± w hi, w = root R^-1.
proof fn lemma_butterfly_cong(u: int, v: int, root: int, lo: int, hi: int)
    requires
        cong(u, lo),
        cong(v, hi),
    ensures
        cong(u + modmul_spec(v, root), lo + root * rinv() * hi),
        cong(u + 2 * PRIME - modmul_spec(v, root), lo - root * rinv() * hi),
{
    let ri = rinv();
    let w = root * ri;
    let mm = modmul_spec(v, root);
    lemma_modmul_cong(v, root);
    lemma_mul_is_associative(v, root, ri);
    lemma_cong_mul(v, hi, w, w);
    assert(hi * w == w * hi) by (nonlinear_arith);
    lemma_cong_add(u, lo, mm, w * hi);
    lemma_cong_sub(u, lo, mm, w * hi);
    lemma_cong_multiple(u - mm, 2);
}

/// Where coefficient j of the stage with block count mp lies, in the blocks of
/// this stage and of the next.
proof fn lemma_split_index(mp: int, t: int, j: int)
    requires
        stage_pair(mp, t),
        0 <= j < DEGREE,
    ensures
        0 <= j / (2 * t) < mp,
        root_index(mp, t, j) == mp + j / (2 * t),
        j % t < t,
        lower_half(j, t) ==> {
            &&& j / t == 2 * (j / (2 * t))
            &&& j % t == j % (2 * t)
            &&& (j + t) / (2 * t) == j / (2 * t)
            &&& (j + t) % (2 * t) == j % t + t
        },
        !lower_half(j, t) ==> {
            &&& j / t == 2 * (j / (2 * t)) + 1
            &&& j % t == j % (2 * t) - t
            &&& (j - t) / (2 * t) == j / (2 * t)
            &&& (j - t) % (2 * t) == j % t
        },
{
    let d = 2 * t;
    lemma_stage_index(mp, t, j);
    lemma_fundamental_div_mod(j, d);
    let b = j / d;
    let rr = j % d;
    assert(0 <= b < mp) by (nonlinear_arith)
        requires j == d * b + rr, 0 <= rr < d, 0 <= j < DEGREE, d * mp == DEGREE, d > 0;
    if rr < t {
        assert(j + t == d * b + (rr + t));
        lemma_fundamental_div_mod_converse(j + t, d, b, rr + t);
        assert(j == t * (2 * b) + rr) by (nonlinear_arith)
            requires j == d * b + rr, d == 2 * t;
        lemma_fundamental_div_mod_converse(j, t, 2 * b, rr);
    } else {
        assert(j - t == d * b + (rr - t));
        lemma_fundamental_div_mod_converse(j - t, d, b, rr - t);
        assert(j == t * (2 * b + 1) + (rr - t)) by (nonlinear_arith)
            requires j == d * b + rr, d == 2 * t;
        lemma_fundamental_div_mod_converse(j, t, 2 * b + 1, rr - t);
    }
}

/// One forward stage splits each block: the step of lemma_ntt_reduces.
proof fn lemma_ntt_stage_reduces(x: Seq<int>, s: Seq<int>, mp: int, t: int, j: int)
    requires
        x.len() >= DEGREE,
        s.len() >= DEGREE,
        stage_pair(mp, t),
        0 <= j < DEGREE,
        forall|i: int|
            0 <= i < DEGREE ==> cong(
                #[trigger] s[i],
                red(x, 2 * t, zeta(mp, i / (2 * t)), i % (2 * t), mp as nat),
            ),
    ensures
        cong(ntt_stage(s, mp, t)[j], red(x, t, zeta(2 * mp, j / t), j % t, (2 * mp) as nat)),
{
    let d = 2 * t;
    lemma_split_index(mp, t, j);
    let b = j / d;
    let k = mp + b;
    let root = ROOTS[k] as int;
    let w = wv(k);
    let zp = zeta(mp, b);
    let c = mp as nat;
    let r = j % t;
    lemma_zeta_square(mp, t, b);
    lemma_red_split(x, t, w, r, c);
    assert(2 * c == (2 * mp) as nat);
    lemma_red_cong(x, d, w * w, zp, r, c);
    lemma_red_cong(x, d, w * w, zp, r + t, c);
    let lo2 = red(x, d, w * w, r, c);
    let hi2 = red(x, d, w * w, r + t, c);
    let (lo, hi) = if lower_half(j, t) { (j, j + t) } else { (j - t, j) };
    assert(cong(s[lo], red(x, d, zp, r, c)));
    assert(cong(s[hi], red(x, d, zp, r + t, c)));
    assert(cong(s[lo], lo2));
    assert(cong(s[hi], hi2));
    lemma_butterfly_cong(s[lo], s[hi], root, lo2, hi2);
    if lower_half(j, t) {
        assert(zeta(2 * mp, 2 * b) == w);
    } else {
        assert(zeta(2 * mp, 2 * b + 1) == -w);
    }
}

/// X^i b modulo X^DEGREE + 1, for 0 <= i < DEGREE: coefficient k is b[k - i], or
/// -b[k + DEGREE - i] where the power wraps around.
pub open spec fn xmul(b: Seq<int>, i: int) -> Seq<int> {
    Seq::new(
        DEGREE as nat,
        |k: int| if i <= k { b[k - i] } else { -b[k + DEGREE - i] },
    )
}

/// Coefficient k of the sum of a[i] X^i b over i < n, modulo X^DEGREE + 1.
pub open spec fn conv(a: Seq<int>, b: Seq<int>, k: int, n: nat) -> int
    decreases n,
{
    if n == 0 {
        0
    } else {
        conv(a, b, k, (n - 1) as nat) + a[n - 1] * xmul(b, n - 1)[k]
    }
}

/// The product of a and b in Z[X]/(X^DEGREE + 1).
pub open spec fn nega_mul(a: Seq<int>, b: Seq<int>) -> Seq<int> {
    Seq::new(DEGREE as nat, |k: int| conv(a, b, k, DEGREE as nat))
}

/// The value at z of a polynomial depends only on its first c coefficients.
proof fn lemma_red_ext(u: Seq<int>, v: Seq<int>, z: int, c: nat)
    requires
        forall|k: int| 0 <= k < c ==> u[k] == v[k],
    ensures
        red(u, 1, z, 0, c) == red(v, 1, z, 0, c),
    decreases c,
{
    if c > 0 {
        lemma_red_ext(u, v, z, (c - 1) as nat);
    }
}

/// Evaluation is linear: the value of u + s v is the value of u plus s times
/// the value of v.
pub proof fn lemma_red_linear(w: Seq<int>, u: Seq<int>, v: Seq<int>, sc: int, z: int, c: nat)
    requires
        forall|k: int| 0 <= k < c ==> #[trigger] w[k] == u[k] + sc * v[k],
    ensures
        red(w, 1, z, 0, c) == red(u, 1, z, 0, c) + sc * red(v, 1, z, 0, c),
    decreases c,
{
    if c > 0 {
        let c1 = (c - 1) as nat;
        lemma_red_linear(w, u, v, sc, z, c1);
        let p = pw(z, c1);
        assert(w[c1 as int] == u[c1 as int] + sc * v[c1 as int]);
        let ru = red(u, 1, z, 0, c1);
        let rv = red(v, 1, z, 0, c1);
        assert((u[c1 as int] + sc * v[c1 as int]) * p + (ru + sc * rv) == (ru + u[c1 as int] * p)
            + sc * (rv + v[c1 as int] * p)) by (nonlinear_arith);
    }
}

/// Coefficient-wise congruence u ≡ s v gives congruent values: red(u) ≡ s red(v).
proof fn lemma_red_scaled(u: Seq<int>, v: Seq<int>, sc: int, z: int, c: nat)
    requires
        forall|k: int| 0 <= k < c ==> cong(#[trigger] u[k], sc * v[k]),
    ensures
        cong(red(u, 1, z, 0, c), sc * red(v, 1, z, 0, c)),
    decreases c,
{
    if c > 0 {
        let c1 = (c - 1) as nat;
        lemma_red_scaled(u, v, sc, z, c1);
        let p = pw(z, c1);
        assert(cong(u[c1 as int], sc * v[c1 as int]));
        lemma_cong_mul(u[c1 as int], sc * v[c1 as int], p, p);
        lemma_cong_add(
            red(u, 1, z, 0, c1),
            sc * red(v, 1, z, 0, c1),
            u[c1 as int] * p,
            sc * v[c1 as int] * p,
        );
        assert(sc * red(v, 1, z, 0, c1) + sc * v[c1 as int] * p == sc * (red(v, 1, z, 0, c1)
            + v[c1 as int] * p)) by (nonlinear_arith);
    }
}

/// Multiplying by X before wrapping: the value of X y at z, over its first c
/// coefficients, is -y[DEGREE - 1] + z times the value of the first c - 1
/// coefficients of y.
proof fn lemma_red_xmul_one(y: Seq<int>, z: int, c: nat)
    requires
        1 <= c <= DEGREE,
    ensures
        red(xmul(y, 1), 1, z, 0, c) == -y[DEGREE - 1] + z * red(y, 1, z, 0, (c - 1) as nat),
    decreases c,
{
    let sh = xmul(y, 1);
    if c == 1 {
        assert(red(sh, 1, z, 0, 0) == 0);
        assert(red(y, 1, z, 0, 0) == 0);
        assert(pw(z, 0) == 1);
        assert(sh[0] == -y[DEGREE - 1]);
    } else {
        let c1 = (c - 1) as nat;
        let c2 = (c - 2) as nat;
        lemma_red_xmul_one(y, z, c1);
        assert(sh[c1 as int] == y[c2 as int]);
        let p = pw(z, c2);
        assert(pw(z, c1) == p * z);
        let ry = red(y, 1, z, 0, c2);
        assert(red(y, 1, z, 0, c1) == ry + y[c2 as int] * p);
        assert(-y[DEGREE - 1] + z * ry + y[c2 as int] * (p * z) == -y[DEGREE - 1] + z * (ry
            + y[c2 as int] * p)) by (nonlinear_arith);
    }
}

/// z^DEGREE ≡ -1 makes X y evaluate to z times the value of y.
proof fn lemma_eval_xmul_one(y: Seq<int>, z: int)
    requires
        cong(pw(z, DEGREE as nat), -1),
    ensures
        cong(eval(xmul(y, 1), z), z * eval(y, z)),
{
    let n1 = (DEGREE - 1) as nat;
    lemma_red_xmul_one(y, z, DEGREE as nat);
    let ry = red(y, 1, z, 0, n1);
    let top = y[DEGREE - 1];
    let p = pw(z, n1);
    assert(pw(z, DEGREE as nat) == p * z);
    assert(eval(y, z) == ry + top * p);
    assert(z * eval(y, z) == z * ry + top * (p * z)) by (nonlinear_arith)
        requires eval(y, z) == ry + top * p;
    lemma_cong_mul(top, top, p * z, -1);
    lemma_cong_add(z * ry, z * ry, top * (p * z), top * -1);
}

/// z^DEGREE ≡ -1 makes X^i b evaluate to z^i times the value of b.
proof fn lemma_eval_xmul(b: Seq<int>, z: int, i: int)
    requires
        0 <= i < DEGREE,
        cong(pw(z, DEGREE as nat), -1),
    ensures
        cong(eval(xmul(b, i), z), pw(z, i as nat) * eval(b, z)),
    decreases i,
{
    if i == 0 {
        lemma_red_ext(xmul(b, 0), b, z, DEGREE as nat);
        assert(pw(z, 0) == 1);
    } else {
        let y = xmul(b, i - 1);
        lemma_eval_xmul(b, z, i - 1);
        assert(xmul(b, i) =~= xmul(y, 1));
        lemma_eval_xmul_one(y, z);
        let p = pw(z, (i - 1) as nat);
        lemma_cong_mul(z, z, eval(y, z), p * eval(b, z));
        assert(pw(z, i as nat) == p * z);
        assert(z * (p * eval(b, z)) == (p * z) * eval(b, z)) by (nonlinear_arith);
    }
}

/// The partial products evaluate to the partial value of a times the value of b.
proof fn lemma_eval_conv(a: Seq<int>, b: Seq<int>, z: int, n: nat)
    requires
        n <= DEGREE,
        cong(pw(z, DEGREE as nat), -1),
    ensures
        cong(
            eval(Seq::new(DEGREE as nat, |k: int| conv(a, b, k, n)), z),
            red(a, 1, z, 0, n) * eval(b, z),
        ),
    decreases n,
{
    let pn = Seq::new(DEGREE as nat, |k: int| conv(a, b, k, n));
    if n == 0 {
        lemma_red_ext(pn, Seq::new(DEGREE as nat, |k: int| 0), z, DEGREE as nat);
        lemma_red_linear(Seq::new(DEGREE as nat, |k: int| 0), pn, pn, -1, z, DEGREE as nat);
        assert(red(a, 1, z, 0, 0) == 0);
    } else {
        let n1 = (n - 1) as nat;
        let pm = Seq::new(DEGREE as nat, |k: int| conv(a, b, k, n1));
        let y = xmul(b, n1 as int);
        let an = a[n1 as int];
        lemma_eval_conv(a, b, z, n1);
        lemma_red_linear(pn, pm, y, an, z, DEGREE as nat);
        lemma_eval_xmul(b, z, n1 as int);
        let p = pw(z, n1);
        let eb = eval(b, z);
        let ra = red(a, 1, z, 0, n1);
        lemma_cong_mul(an, an, eval(y, z), p * eb);
        lemma_cong_add(eval(pm, z), ra * eb, an * eval(y, z), an * (p * eb));
        assert(red(a, 1, z, 0, n) == ra + an * p);
        assert(ra * eb + an * (p * eb) == (ra + an * p) * eb) by (nonlinear_arith);
    }
}

/// Conversion into Montgomery form multiplies by R, which is 10952 modulo q.
pub proof fn lemma_nres_cong(v: int)
    ensures
        cong(nres_spec(v), 10952 * v),
{
    lemma_redc_cong(v * 5664);
    assert(v * 5664 * rinv() == 10952 * v + (v * 5464) * PRIME) by (nonlinear_arith);
    lemma_cong_multiple(10952 * v, v * 5464);
}

/// Coefficient j of the forward transform of a is, modulo q, R times the value
/// of a at zeta(DEGREE, j).
pub proof fn lemma_ntt_evaluates(a: Seq<int>, j: int)
    requires
        a.len() >= DEGREE,
        0 <= j < DEGREE,
    ensures
        cong(ntt_spec(a)[j], 10952 * eval(a, zeta(DEGREE as int, j))),
{
    let x = nres_poly(a);
    let z = zeta(DEGREE as int, j);
    lemma_ntt_reduces(x, DEGREE as int);
    assert((DEGREE as int) / (DEGREE as int) == 1);
    assert(j / 1 == j && j % 1 == 0);
    assert(cong(ntt_spec(a)[j], eval(x, z)));
    assert forall|k: int| 0 <= k < DEGREE implies cong(#[trigger] x[k], 10952 * a[k]) by {
        lemma_nres_cong(a[k]);
    }
    lemma_red_scaled(x, a, 10952, z, DEGREE as nat);
}

/// The value at zeta(DEGREE, j) of the product in Z[X]/(X^DEGREE + 1) is the
/// product of the values, modulo q.
pub proof fn lemma_eval_nega_mul(a: Seq<int>, b: Seq<int>, j: int)
    requires
        0 <= j < DEGREE,
    ensures
        cong(
            eval(nega_mul(a, b), zeta(DEGREE as int, j)),
            eval(a, zeta(DEGREE as int, j)) * eval(b, zeta(DEGREE as int, j)),
        ),
{
    let z = zeta(DEGREE as int, j);
    lemma_zeta_power(DEGREE as int, j);
    lemma_eval_conv(a, b, z, DEGREE as nat);
    assert(nega_mul(a, b) =~= Seq::new(DEGREE as nat, |k: int| conv(a, b, k, DEGREE as nat)));
}

/// The transforms multiply polynomials: the coefficient-wise Montgomery product
/// of the forward transforms of a and b, fully reduced and transformed back, is
/// the product of a and b in Z[X]/(X^DEGREE + 1) with its coefficients reduced
/// modulo q.
pub proof fn lemma_ntt_multiplies(a: Seq<int>, b: Seq<int>)
    requires
        a.len() == DEGREE,
        b.len() == DEGREE,
    ensures
        intt_spec(hard_reduce_poly(mul_poly(ntt_spec(a), ntt_spec(b)))) == reduce_poly(
            nega_mul(a, b),
        ),
{
    let c = nega_mul(a, b);
    let fa = ntt_spec(a);
    let fb = ntt_spec(b);
    let fc = ntt_spec(c);
    let m = mul_poly(fa, fb);
    lemma_ntt_upto_len(nres_poly(a), DEGREE as int);
    lemma_ntt_upto_len(nres_poly(c), DEGREE as int);
    let ri = rinv();
    let q = PRIME as int;
    assert forall|j: int| 0 <= j < DEGREE implies cong(#[trigger] m[j], fc[j]) by {
        let z = zeta(DEGREE as int, j);
        let ea = eval(a, z);
        let eb = eval(b, z);
        lemma_ntt_evaluates(a, j);
        lemma_ntt_evaluates(b, j);
        lemma_ntt_evaluates(c, j);
        lemma_eval_nega_mul(a, b, j);
        lemma_modmul_cong(fa[j], fb[j]);
        lemma_cong_mul(fa[j], 10952 * ea, fb[j], 10952 * eb);
        lemma_cong_mul(fa[j] * fb[j], 10952 * ea * (10952 * eb), ri, ri);
        assert(10952 * ea * (10952 * eb) * ri == 10952 * (ea * eb) + (ea * eb * 10952 * 10567) * q)
            by (nonlinear_arith)
            requires ri == 11857, q == 12289;
        lemma_cong_multiple(10952 * (ea * eb), ea * eb * 10952 * 10567);
        lemma_cong_mul(10952, 10952, eval(c, z), ea * eb);
    }
    let h1 = hard_reduce_poly(m);
    let h2 = hard_reduce_poly(fc);
    assert forall|j: int| 0 <= j < DEGREE implies #[trigger] h1[j] == h2[j] by {
        lemma_modmul_cong(m[j], ONE as int);
        lemma_modmul_cong(fc[j], ONE as int);
        lemma_cong_mul(m[j], fc[j], (ONE as int) * ri, (ONE as int) * ri);
        lemma_mul_is_associative(m[j], ONE as int, ri);
        lemma_mul_is_associative(fc[j], ONE as int, ri);
    }
    assert(h1 =~= h2);
    lemma_intt_inverts_ntt(c);
}

/// x ≡ y + z on the first DEGREE coefficients, modulo q.
pub open spec fn cong_sum(x: Seq<int>, y: Seq<int>, z: Seq<int>) -> bool {
    forall|j: int| 0 <= j < DEGREE ==> cong(#[trigger] x[j], y[j] + z[j])
}

/// The Montgomery product by a constant is additive modulo q.
proof fn lemma_modmul_additive(a1: int, a2: int, a3: int, w: int)
    requires
        cong(a1, a2 + a3),
    ensures
        cong(modmul_spec(a1, w), modmul_spec(a2, w) + modmul_spec(a3, w)),
{
    let ri = rinv();
    lemma_modmul_cong(a1, w);
    lemma_modmul_cong(a2, w);
    lemma_modmul_cong(a3, w);
    lemma_mul_is_associative(a1, w, ri);
    lemma_mul_is_associative(a2, w, ri);
    lemma_mul_is_associative(a3, w, ri);
    lemma_cong_mul(a1, a2 + a3, w * ri, w * ri);
    assert((a2 + a3) * (w * ri) == a2 * (w * ri) + a3 * (w * ri)) by (nonlinear_arith);
    lemma_cong_add(modmul_spec(a2, w), a2 * (w * ri), modmul_spec(a3, w), a3 * (w * ri));
}

/// The difference u + K q - v of an inverse butterfly is additive modulo q.
proof fn lemma_difference_additive(u1: int, u2: int, u3: int, v1: int, v2: int, v3: int, k: int)
    requires
        cong(u1, u2 + u3),
        cong(v1, v2 + v3),
    ensures
        cong(u1 + k * PRIME - v1, (u2 + k * PRIME - v2) + (u3 + k * PRIME - v3)),
{
    lemma_cong_sub(u1, u2 + u3, v1, v2 + v3);
    lemma_cong_multiple(u1 - v1, k);
    lemma_cong_multiple((u2 + u3) - (v2 + v3), 2 * k);
    assert((u2 + u3) - (v2 + v3) + (2 * k) * PRIME == (u2 + k * PRIME - v2) + (u3 + k * PRIME
        - v3));
}

/// An inverse stage is additive modulo q.
proof fn lemma_intt_stage_additive(x: Seq<int>, y: Seq<int>, z: Seq<int>, m: int, t: int)
    requires
        stage_pair(m, t),
        x.len() >= DEGREE,
        y.len() >= DEGREE,
        z.len() >= DEGREE,
        cong_sum(x, y, z),
    ensures
        cong_sum(intt_stage(x, m, t), intt_stage(y, m, t), intt_stage(z, m, t)),
{
    assert forall|j: int| 0 <= j < DEGREE implies cong(
        #[trigger] intt_stage(x, m, t)[j],
        intt_stage(y, m, t)[j] + intt_stage(z, m, t)[j],
    ) by {
        lemma_stage_index(m, t, j);
        if lower_half(j, t) {
            assert(cong(x[j + t], y[j + t] + z[j + t]));
            lemma_cong_add(x[j], y[j] + z[j], x[j + t], y[j + t] + z[j + t]);
        } else {
            let lo = j - t;
            assert(cong(x[lo], y[lo] + z[lo]));
            let w = IROOTS[root_index(m, t, j)] as int;
            lemma_difference_additive(x[lo], y[lo], z[lo], x[j], y[j], z[j], DEGREE as int);
            lemma_modmul_additive(
                x[lo] + (DEGREE as int) * PRIME - x[j],
                y[lo] + (DEGREE as int) * PRIME - y[j],
                z[lo] + (DEGREE as int) * PRIME - z[j],
                w,
            );
        }
    }
}

/// The inverse stages up to half-block size t/2 are additive modulo q.
proof fn lemma_intt_upto_additive(x: Seq<int>, y: Seq<int>, z: Seq<int>, t: int)
    requires
        half_size(t),
        x.len() >= DEGREE,
        y.len() >= DEGREE,
        z.len() >= DEGREE,
        cong_sum(x, y, z),
    ensures
        cong_sum(intt_upto(x, t), intt_upto(y, t), intt_upto(z, t)),
    decreases t,
{
    if t > 1 {
        lemma_half_size_step(t);
        lemma_intt_upto_additive(x, y, z, t / 2);
        lemma_intt_upto_len(x, t / 2);
        lemma_intt_upto_len(y, t / 2);
        lemma_intt_upto_len(z, t / 2);
        let m = (DEGREE as int) / t;
        lemma_intt_stage_additive(intt_upto(x, t / 2), intt_upto(y, t / 2), intt_upto(z, t / 2), m, t / 2);
        assert(intt_upto(x, t) == intt_stage(intt_upto(x, t / 2), m, t / 2));
        assert(intt_upto(y, t) == intt_stage(intt_upto(y, t / 2), m, t / 2));
        assert(intt_upto(z, t) == intt_stage(intt_upto(z, t / 2), m, t / 2));
    }
}

/// The inverse transform is additive modulo q: x ≡ y + z on the first DEGREE
/// coefficients gives intt(x) ≡ intt(y) + intt(z).
pub proof fn lemma_intt_additive(x: Seq<int>, y: Seq<int>, z: Seq<int>)
    requires
        x.len() >= DEGREE,
        y.len() >= DEGREE,
        z.len() >= DEGREE,
        cong_sum(x, y, z),
    ensures
        cong_sum(intt_spec(x), intt_spec(y), intt_spec(z)),
{
    let ri = rinv();
    let q = PRIME as int;
    lemma_intt_upto_additive(x, y, z, 512);
    let xu = intt_upto(x, 512);
    let yu = intt_upto(y, 512);
    let zu = intt_upto(z, 512);
    lemma_intt_upto_len(x, 512);
    lemma_intt_upto_len(y, 512);
    lemma_intt_upto_len(z, 512);
    let xl = intt_last(xu);
    let yl = intt_last(yu);
    let zl = intt_last(zu);
    assert forall|j: int| 0 <= j < DEGREE implies cong(#[trigger] xl[j], yl[j] + zl[j]) by {
        if j < 512 {
            assert(cong(xu[j + 512], yu[j + 512] + zu[j + 512]));
            lemma_cong_add(xu[j], yu[j] + zu[j], xu[j + 512], yu[j + 512] + zu[j + 512]);
            lemma_modmul_additive(xu[j] + xu[j + 512], yu[j] + yu[j + 512], zu[j] + zu[j + 512], INV as int);
        } else {
            let lo = j - 512;
            assert(cong(xu[lo], yu[lo] + zu[lo]));
            lemma_difference_additive(xu[lo], yu[lo], zu[lo], xu[j], yu[j], zu[j], DEGREE as int);
            lemma_modmul_additive(
                xu[lo] + (DEGREE as int) * PRIME - xu[j],
                yu[lo] + (DEGREE as int) * PRIME - yu[j],
                zu[lo] + (DEGREE as int) * PRIME - zu[j],
                INVPR as int,
            );
        }
    }
    assert forall|j: int| 0 <= j < DEGREE implies cong(
        #[trigger] intt_spec(x)[j],
        intt_spec(y)[j] + intt_spec(z)[j],
    ) by {
        assert(cong(xl[j], yl[j] + zl[j]));
        lemma_redc_cong(xl[j]);
        lemma_redc_cong(yl[j]);
        lemma_redc_cong(zl[j]);
        lemma_cong_mul(xl[j], yl[j] + zl[j], ri, ri);
        assert((yl[j] + zl[j]) * ri == yl[j] * ri + zl[j] * ri) by (nonlinear_arith);
        lemma_cong_add(redc_spec(yl[j]), yl[j] * ri, redc_spec(zl[j]), zl[j] * ri);
        vstd::arithmetic::div_mod::lemma_mod_twice(redc_spec(xl[j]), q);
        vstd::arithmetic::div_mod::lemma_mod_twice(redc_spec(yl[j]), q);
        vstd::arithmetic::div_mod::lemma_mod_twice(redc_spec(zl[j]), q);
        lemma_cong_add(redc_spec(yl[j]) % q, redc_spec(yl[j]), redc_spec(zl[j]) % q, redc_spec(zl[j]));
    }
}

/// The inverse transform depends only on the residues of its input: x ≡ y modulo q
/// on the first DEGREE coefficients gives equal results there.
pub proof fn lemma_intt_sees_residues(x: Seq<int>, y: Seq<int>)
    requires
        x.len() >= DEGREE,
        y.len() >= DEGREE,
        forall|j: int| 0 <= j < DEGREE ==> cong(#[trigger] x[j], y[j]),
    ensures
        forall|j: int| 0 <= j < DEGREE ==> #[trigger] intt_spec(x)[j] == intt_spec(y)[j],
{
    let d = Seq::new(x.len(), |j: int| x[j] - y[j]);
    assert forall|j: int| 0 <= j < DEGREE implies cong(#[trigger] x[j], y[j] + d[j]) by {}
    assert forall|j: int| 0 <= j < DEGREE implies cong(#[trigger] d[j], d[j] + d[j]) by {
        crate::arith::lemma_cong_sub(x[j], y[j], y[j], y[j]);
        lemma_cong_add(d[j], 0, d[j], d[j]);
    }
    lemma_intt_additive(x, y, d);
    lemma_intt_additive(d, d, d);
    lemma_intt_upto_len(x, 512);
    lemma_intt_upto_len(y, 512);
    lemma_intt_upto_len(d, 512);
    assert forall|j: int| 0 <= j < DEGREE implies #[trigger] intt_spec(x)[j] == intt_spec(y)[j] by {
        let q = PRIME as int;
        let (ix, iy, id) = (intt_spec(x)[j], intt_spec(y)[j], intt_spec(d)[j]);
        assert(cong(id, id + id));
        crate::arith::lemma_cong_sub(id + id, id, id, id);
        assert(cong(id, 0));
        lemma_cong_add(iy, iy, id, 0);
        assert(0 <= ix < q && 0 <= iy < q);
        vstd::arithmetic::div_mod::lemma_small_mod(ix as nat, q as nat);
        vstd::arithmetic::div_mod::lemma_small_mod(iy as nat, q as nat);
    }
}

/// The transforms multiply polynomials without a reduction between the product
/// and the inverse transform: the inverse transform of the coefficient-wise
/// Montgomery product of the forward transforms of a and b is the product of a and
/// b in Z[X]/(X^DEGREE + 1) with its coefficients reduced modulo q.
pub proof fn lemma_ntt_multiplies_unreduced(a: Seq<int>, b: Seq<int>)
    requires
        a.len() == DEGREE,
        b.len() == DEGREE,
    ensures
        intt_spec(mul_poly(ntt_spec(a), ntt_spec(b))) == reduce_poly(nega_mul(a, b)),
{
    let m = mul_poly(ntt_spec(a), ntt_spec(b));
    lemma_ntt_upto_len(nres_poly(a), DEGREE as int);
    let h = hard_reduce_poly(m);
    crate::poly::lemma_hard_reduce_is_reduction(m);
    assert forall|j: int| 0 <= j < DEGREE implies cong(#[trigger] m[j], h[j]) by {
        vstd::arithmetic::div_mod::lemma_mod_twice(m[j], PRIME as int);
    }
    lemma_intt_sees_residues(m, h);
    lemma_ntt_multiplies(a, b);
    lemma_intt_upto_len(m, 512);
    lemma_intt_upto_len(h, 512);
    assert(intt_spec(m) =~= intt_spec(h));
}

} // verus!
