//! The number-theoretic transform over Z_q[X]/(X^1024 + 1) and its inverse,
//! with lazy reduction of the coefficients.
use vstd::prelude::*;
use vstd::arithmetic::div_mod::*;
use crate::arith::{
    DEGREE, INV, INVPR, ONE, PRIME, WL, cong, lemma_cong_add, lemma_cong_mul, lemma_cong_multiple,
    lemma_cong_sub, lemma_csub, lemma_modmul_cong, lemma_modmul_fits, lemma_redc_below,
    lemma_redc_cong, lemma_redc_fits, modmul, modmul_spec, mont_r, nres, nres_spec, redc, redc_spec,
    rinv,
};
use crate::tables::{ROOTS, IROOTS, lemma_root_pair};
use crate::poly::{hard_reduce_poly, reduce_poly};
use vstd::arithmetic::mul::{lemma_mul_is_associative, lemma_mul_is_commutative};

verus! {

/// The coefficients of a polynomial as mathematical integers.
pub open spec fn ints(s: Seq<i32>) -> Seq<int> {
    Seq::new(s.len(), |i: int| s[i] as int)
}

/// The stage pairs (m, t) of the transforms: m blocks of 2t coefficients, m t = 512.
pub open spec fn stage_pair(m: int, t: int) -> bool {
    ||| m == 1 && t == 512
    ||| m == 2 && t == 256
    ||| m == 4 && t == 128
    ||| m == 8 && t == 64
    ||| m == 16 && t == 32
    ||| m == 32 && t == 16
    ||| m == 64 && t == 8
    ||| m == 128 && t == 4
    ||| m == 256 && t == 2
    ||| m == 512 && t == 1
}

/// Whether coefficient j lies in the lower half of its block of 2t coefficients.
pub open spec fn lower_half(j: int, t: int) -> bool {
    j % (2 * t) < t
}

/// The table index of the root used for the block that holds coefficient j.
pub open spec fn root_index(m: int, t: int, j: int) -> int {
    m + j / (2 * t)
}

/// One Cooley-Tukey stage: each pair (u, v) = (s[j], s[j + t]) of a block becomes
/// (u + v w, u + 2q - v w), with v w the Montgomery product by the block's root.
pub open spec fn ntt_stage(s: Seq<int>, m: int, t: int) -> Seq<int> {
    Seq::new(
        s.len(),
        |j: int|
            if j >= DEGREE {
                s[j]
            } else if lower_half(j, t) {
                s[j] + modmul_spec(s[j + t], ROOTS[root_index(m, t, j)] as int)
            } else {
                s[j - t] + 2 * PRIME - modmul_spec(s[j], ROOTS[root_index(m, t, j)] as int)
            },
    )
}

/// The stages with block counts 1, 2, ..., m/2 applied in turn.
pub open spec fn ntt_upto(s: Seq<int>, m: int) -> Seq<int>
    decreases m,
{
    if m <= 1 {
        s
    } else {
        ntt_stage(ntt_upto(s, m / 2), m / 2, (DEGREE as int) / m)
    }
}

/// Conversion of the first DEGREE coefficients into Montgomery form.
pub open spec fn nres_poly(s: Seq<int>) -> Seq<int> {
    Seq::new(s.len(), |j: int| if j < DEGREE { nres_spec(s[j]) } else { s[j] })
}

/// The forward transform: conversion into Montgomery form, then all ten stages.
pub open spec fn ntt_spec(s: Seq<int>) -> Seq<int> {
    ntt_upto(nres_poly(s), DEGREE as int)
}

/// The bound on the coefficients after the stages below block count m.
pub open spec fn ntt_bound(m: int) -> int
    decreases m,
{
    if m <= 1 {
        2832 + PRIME
    } else {
        ntt_bound(m / 2) + 2 * PRIME
    }
}

/// Both halves of block i lie at k + r and k + t + r with k = 2 t i, r < t.
proof fn lemma_block_index(j: int, k: int, i: int, t: int)
    requires
        t > 0,
        i >= 0,
        k == 2 * t * i,
        k <= j < k + 2 * t,
    ensures
        j / (2 * t) == i,
        j % (2 * t) == j - k,
{
    assert(j == i * (2 * t) + (j - k)) by (nonlinear_arith)
        requires k == 2 * t * i;
    lemma_fundamental_div_mod_converse(j, 2 * t, i, j - k);
}

/// Where coefficient j of a stage finds its partner and its root.
pub proof fn lemma_stage_index(m: int, t: int, j: int)
    requires
        stage_pair(m, t),
        0 <= j < DEGREE,
    ensures
        1 <= root_index(m, t, j) < DEGREE,
        lower_half(j, t) ==> {
            &&& j + t < DEGREE
            &&& !lower_half(j + t, t)
            &&& root_index(m, t, j + t) == root_index(m, t, j)
        },
        !lower_half(j, t) ==> {
            &&& 0 <= j - t
            &&& lower_half(j - t, t)
            &&& root_index(m, t, j - t) == root_index(m, t, j)
        },
{
    let d = 2 * t;
    lemma_fundamental_div_mod(j, d);
    lemma_mod_bound(j, d);
    let i = j / d;
    let r = j % d;
    assert(0 <= i < m) by (nonlinear_arith)
        requires j == d * i + r, 0 <= r < d, 0 <= j < DEGREE, d * m == DEGREE, d > 0;
    assert(d * (i + 1) <= DEGREE) by (nonlinear_arith)
        requires i < m, d * m == DEGREE, d > 0;
    if r < t {
        assert(j + t == i * d + (r + t)) by (nonlinear_arith)
            requires j == d * i + r;
        assert(j + t < DEGREE) by (nonlinear_arith)
            requires j == d * i + r, r < t, d == 2 * t, d * (i + 1) <= DEGREE;
        lemma_fundamental_div_mod_converse(j + t, d, i, r + t);
    } else {
        assert(j - t == i * d + (r - t)) by (nonlinear_arith)
            requires j == d * i + r;
        assert(0 <= j - t) by (nonlinear_arith)
            requires j == d * i + r, r >= t, i >= 0, d > 0;
        lemma_fundamental_div_mod_converse(j - t, d, i, r - t);
    }
}

/// The coefficients after a forward stage grow by at most 2q.
pub proof fn lemma_ntt_stage_bounds(s: Seq<int>, m: int, t: int, b: int)
    requires
        stage_pair(m, t),
        s.len() >= DEGREE,
        b <= 0x80000,
        forall|j: int| 0 <= j < DEGREE ==> 0 <= #[trigger] s[j] <= b,
    ensures
        forall|j: int| 0 <= j < DEGREE ==> 0 <= #[trigger] ntt_stage(s, m, t)[j] <= b + 2 * PRIME,
{
    assert forall|j: int| 0 <= j < DEGREE implies 0 <= #[trigger] ntt_stage(s, m, t)[j] <= b + 2
        * PRIME by {
        lemma_stage_index(m, t, j);
        let w = ROOTS[root_index(m, t, j)] as int;
        lemma_root_pair(root_index(m, t, j));
        let v = if lower_half(j, t) { s[j + t] } else { s[j] };
        assert(v * w < 2 * mont_r()) by (nonlinear_arith)
            requires 0 <= v <= 0x80000, 0 <= w < PRIME;
        assert(0 <= v * w) by (nonlinear_arith)
            requires 0 <= v, 0 <= w;
        lemma_redc_below(v * w, 2);
    }
}

/// One forward stage over the first DEGREE coefficients.
fn ntt_stage_exec(x: &mut [i32], m: usize, t: usize, Ghost(b): Ghost<int>)
    requires
        stage_pair(m as int, t as int),
        old(x)@.len() >= DEGREE,
        b <= 0x80000,
        forall|j: int| 0 <= j < DEGREE ==> 0 <= #[trigger] old(x)@[j] <= b,
    ensures
        final(x)@.len() == old(x)@.len(),
        ints(final(x)@) == ntt_stage(ints(old(x)@), m as int, t as int),
        forall|j: int| 0 <= j < DEGREE ==> 0 <= #[trigger] final(x)@[j] <= b + 2 * PRIME,
{
    let ghost s = ints(x@);
    let ghost st = ntt_stage(s, m as int, t as int);
    let ghost n = x@.len();
    let q: i32 = PRIME;
    let mut k: usize = 0;
    assert(2 * (t as int) * 0 == 0) by (nonlinear_arith);
    assert(2 * (t as int) * (m as int) == DEGREE) by (nonlinear_arith)
        requires stage_pair(m as int, t as int);
    for i in 0..m
        invariant
            stage_pair(m as int, t as int),
            b <= 0x80000,
            q == PRIME,
            n == old(x)@.len(),
            s == ints(old(x)@),
            st == ntt_stage(s, m as int, t as int),
            x@.len() == n,
            n >= DEGREE,
            k == 2 * t * i,
            2 * t * m == DEGREE,
            forall|j: int| 0 <= j < DEGREE ==> 0 <= #[trigger] old(x)@[j] <= b,
            forall|j: int|
                0 <= j < n ==> #[trigger] x@[j] as int == (if j < k { st[j] } else { s[j] }),
    {
        proof {
            lemma_root_pair((m + i) as int);
            assert(2 * t * (i + 1) <= 2 * t * m) by (nonlinear_arith)
                requires i < m, t > 0;
            assert(2 * t * (i + 1) == k + 2 * t) by (nonlinear_arith)
                requires k == 2 * t * i;
        }
        let s_root = ROOTS[m + i];
        for j in k..k + t
            invariant
                stage_pair(m as int, t as int),
                b <= 0x80000,
                n == old(x)@.len(),
                s == ints(old(x)@),
                st == ntt_stage(s, m as int, t as int),
                x@.len() == n,
                n >= DEGREE,
                k == 2 * t * i,
                i < m,
                k + 2 * t <= DEGREE,
                k + 2 * t == 2 * t * (i + 1),
                2 * t * m == DEGREE,
                s_root == ROOTS[m + i],
                q == PRIME,
                0 <= s_root < PRIME,
                forall|j: int| 0 <= j < DEGREE ==> 0 <= #[trigger] old(x)@[j] <= b,
                forall|jj: int|
                    0 <= jj < n ==> #[trigger] x@[jj] as int == (if jj < k {
                        st[jj]
                    } else if k <= jj < j {
                        st[jj]
                    } else if k + t <= jj < j + t {
                        st[jj]
                    } else {
                        s[jj]
                    }),
        {
            let u = x[j];
            let xv = x[j + t];
            proof {
                lemma_block_index(j as int, k as int, i as int, t as int);
                lemma_block_index((j + t) as int, k as int, i as int, t as int);
                assert((xv as int) * (s_root as int) < 4 * mont_r()) by (nonlinear_arith)
                    requires 0 <= xv <= 0x80000, 0 <= s_root < PRIME;
                lemma_redc_below((xv as int) * (s_root as int), 4);
                lemma_modmul_fits(xv as int, s_root as int);
            }
            let v = modmul(xv, s_root);
            assert(s[j as int] == old(x)@[j as int]);
            assert(0 <= u <= b);
            assert(v < PRIME + 4);
            x[j] = u + v;
            x[j + t] = u + 2 * q - v;
        }
        k += 2 * t;
    }
    proof {
        lemma_ntt_stage_bounds(s, m as int, t as int, b);
        assert(ints(x@) =~= st);
    }
}

/// The values of `ntt_bound` at the block counts that occur.
pub proof fn lemma_ntt_bound_values()
    ensures
        ntt_bound(1) == 2832 + PRIME,
        ntt_bound(2) == 2832 + 3 * PRIME,
        ntt_bound(4) == 2832 + 5 * PRIME,
        ntt_bound(8) == 2832 + 7 * PRIME,
        ntt_bound(16) == 2832 + 9 * PRIME,
        ntt_bound(32) == 2832 + 11 * PRIME,
        ntt_bound(64) == 2832 + 13 * PRIME,
        ntt_bound(128) == 2832 + 15 * PRIME,
        ntt_bound(256) == 2832 + 17 * PRIME,
        ntt_bound(512) == 2832 + 19 * PRIME,
        ntt_bound(1024) == 2832 + 21 * PRIME,
{
    reveal_with_fuel(ntt_bound, 12);
}

/// The forward transform of the first DEGREE coefficients, which it leaves in
/// Montgomery form and reduced only lazily, below 21q + 2833.
pub fn ntt(x: &mut [i32])
    requires
        old(x)@.len() >= DEGREE,
        forall|j: int| 0 <= j < DEGREE ==> #[trigger] old(x)@[j] >= 0,
    ensures
        final(x)@.len() == old(x)@.len(),
        ints(final(x)@) == ntt_spec(ints(old(x)@)),
        forall|j: int| 0 <= j < DEGREE ==> 0 <= #[trigger] final(x)@[j] <= 2832 + 21 * PRIME,
{
    let ghost s0 = ints(x@);
    let ghost n = x@.len();
    let mut t: usize = DEGREE / 2;
    for j in 0..DEGREE
        invariant
            n == old(x)@.len(),
            x@.len() == n,
            n >= DEGREE,
            s0 == ints(old(x)@),
            forall|jj: int| 0 <= jj < DEGREE ==> #[trigger] old(x)@[jj] >= 0,
            forall|jj: int|
                0 <= jj < n ==> #[trigger] x@[jj] as int == (if jj < j {
                    nres_spec(s0[jj])
                } else {
                    s0[jj]
                }),
    {
        x[j] = nres(x[j]);
    }
    proof {
        assert(ints(x@) =~= nres_poly(s0));
        lemma_ntt_bound_values();
    }
    let mut m: usize = 1;
    while m < DEGREE
        invariant
            stage_pair(m as int, t as int) || (m == DEGREE && t == 0),
            x@.len() == n,
            n >= DEGREE,
            ints(x@) == ntt_upto(nres_poly(s0), m as int),
            forall|jj: int| 0 <= jj < DEGREE ==> 0 <= #[trigger] x@[jj] <= ntt_bound(m as int),
        decreases DEGREE - m,
    {
        proof {
            lemma_ntt_bound_values();
        }
        ntt_stage_exec(x, m, t, Ghost(ntt_bound(m as int)));
        proof {
            assert(ntt_bound(2 * m as int) == ntt_bound(m as int) + 2 * PRIME);
            assert(ntt_upto(nres_poly(s0), 2 * m as int) == ntt_stage(
                ntt_upto(nres_poly(s0), m as int),
                m as int,
                t as int,
            ));
        }
        t /= 2;
        m *= 2;
    }
    proof {
        lemma_ntt_bound_values();
    }
}

/// One Gentleman-Sande stage: each pair (u, v) = (s[j], s[j + t]) of a block becomes
/// (u + v, (u + 1024q - v) w'), with the product by the block's inverse root w' taken
/// in Montgomery form.
pub open spec fn intt_stage(s: Seq<int>, m: int, t: int) -> Seq<int> {
    Seq::new(
        s.len(),
        |j: int|
            if j >= DEGREE {
                s[j]
            } else if lower_half(j, t) {
                s[j] + s[j + t]
            } else {
                modmul_spec(
                    s[j - t] + (DEGREE as int) * PRIME - s[j],
                    IROOTS[root_index(m, t, j)] as int,
                )
            },
    )
}

/// The inverse stages with half-block sizes 1, 2, ..., t/2 applied in turn.
pub open spec fn intt_upto(s: Seq<int>, t: int) -> Seq<int>
    decreases t,
{
    if t <= 1 {
        s
    } else {
        intt_stage(intt_upto(s, t / 2), (DEGREE as int) / t, t / 2)
    }
}

/// The last inverse stage, merged with the scaling by 1024^-1.
pub open spec fn intt_last(s: Seq<int>) -> Seq<int> {
    Seq::new(
        s.len(),
        |j: int|
            if j >= DEGREE {
                s[j]
            } else if j < DEGREE / 2 {
                modmul_spec(s[j] + s[j + 512], INV as int)
            } else {
                modmul_spec(s[j - 512] + (DEGREE as int) * PRIME - s[j], INVPR as int)
            },
    )
}

/// Conversion of the first DEGREE coefficients out of Montgomery form, fully reduced.
pub open spec fn intt_final(s: Seq<int>) -> Seq<int> {
    Seq::new(
        s.len(),
        |j: int| if j >= DEGREE { s[j] } else { redc_spec(s[j]) % (PRIME as int) },
    )
}

/// The inverse transform.
pub open spec fn intt_spec(s: Seq<int>) -> Seq<int> {
    intt_final(intt_last(intt_upto(s, DEGREE as int / 2)))
}

/// The coefficients after an inverse stage at most double.
pub proof fn lemma_intt_stage_bounds(s: Seq<int>, m: int, t: int, b: int)
    requires
        stage_pair(m, t),
        s.len() >= DEGREE,
        2 * PRIME <= b <= 512 * PRIME,
        forall|j: int| 0 <= j < DEGREE ==> 0 <= #[trigger] s[j] <= b,
    ensures
        forall|j: int| 0 <= j < DEGREE ==> 0 <= #[trigger] intt_stage(s, m, t)[j] <= 2 * b,
{
    assert forall|j: int| 0 <= j < DEGREE implies 0 <= #[trigger] intt_stage(s, m, t)[j] <= 2
        * b by {
        lemma_stage_index(m, t, j);
        lemma_root_pair(root_index(m, t, j));
        if !lower_half(j, t) {
            let w = s[j - t] + (DEGREE as int) * PRIME - s[j];
            let r = IROOTS[root_index(m, t, j)] as int;
            assert(w * r < 128 * mont_r()) by (nonlinear_arith)
                requires 0 <= w <= 2048 * PRIME, 0 <= r < PRIME;
            assert(0 <= w * r) by (nonlinear_arith)
                requires 0 <= w, 0 <= r;
            lemma_redc_below(w * r, 128);
        }
    }
}

/// One inverse stage over the first DEGREE coefficients.
fn intt_stage_exec(x: &mut [i32], m: usize, t: usize, Ghost(b): Ghost<int>)
    requires
        stage_pair(m as int, t as int),
        old(x)@.len() >= DEGREE,
        2 * PRIME <= b <= 512 * PRIME,
        forall|j: int| 0 <= j < DEGREE ==> 0 <= #[trigger] old(x)@[j] <= b,
    ensures
        final(x)@.len() == old(x)@.len(),
        ints(final(x)@) == intt_stage(ints(old(x)@), m as int, t as int),
        forall|j: int| 0 <= j < DEGREE ==> 0 <= #[trigger] final(x)@[j] <= 2 * b,
{
    let ghost s = ints(x@);
    let ghost st = intt_stage(s, m as int, t as int);
    let ghost n = x@.len();
    let q: i32 = PRIME;
    let mut k: usize = 0;
    assert(2 * (t as int) * 0 == 0) by (nonlinear_arith);
    assert(2 * (t as int) * (m as int) == DEGREE) by (nonlinear_arith)
        requires stage_pair(m as int, t as int);
    for i in 0..m
        invariant
            stage_pair(m as int, t as int),
            2 * PRIME <= b <= 512 * PRIME,
            q == PRIME,
            n == old(x)@.len(),
            s == ints(old(x)@),
            st == intt_stage(s, m as int, t as int),
            x@.len() == n,
            n >= DEGREE,
            k == 2 * t * i,
            2 * t * m == DEGREE,
            forall|j: int| 0 <= j < DEGREE ==> 0 <= #[trigger] old(x)@[j] <= b,
            forall|j: int|
                0 <= j < n ==> #[trigger] x@[j] as int == (if j < k { st[j] } else { s[j] }),
    {
        proof {
            lemma_root_pair((m + i) as int);
            assert(2 * t * (i + 1) <= 2 * t * m) by (nonlinear_arith)
                requires i < m, t > 0;
            assert(2 * t * (i + 1) == k + 2 * t) by (nonlinear_arith)
                requires k == 2 * t * i;
        }
        let s_root = IROOTS[m + i];
        for j in k..k + t
            invariant
                stage_pair(m as int, t as int),
                2 * PRIME <= b <= 512 * PRIME,
                q == PRIME,
                n == old(x)@.len(),
                s == ints(old(x)@),
                st == intt_stage(s, m as int, t as int),
                x@.len() == n,
                n >= DEGREE,
                k == 2 * t * i,
                i < m,
                k + 2 * t <= DEGREE,
                k + 2 * t == 2 * t * (i + 1),
                2 * t * m == DEGREE,
                s_root == IROOTS[m + i],
                0 <= s_root < PRIME,
                forall|j: int| 0 <= j < DEGREE ==> 0 <= #[trigger] old(x)@[j] <= b,
                forall|jj: int|
                    0 <= jj < n ==> #[trigger] x@[jj] as int == (if jj < k {
                        st[jj]
                    } else if k <= jj < j {
                        st[jj]
                    } else if k + t <= jj < j + t {
                        st[jj]
                    } else {
                        s[jj]
                    }),
        {
            let u = x[j];
            let v = x[j + t];
            proof {
                lemma_block_index(j as int, k as int, i as int, t as int);
                lemma_block_index((j + t) as int, k as int, i as int, t as int);
                assert(s[j as int] == old(x)@[j as int]);
                assert(s[(j + t) as int] == old(x)@[(j + t) as int]);
            }
            x[j] = u + v;
            let w = u + (DEGREE as i32) * q - v;
            proof {
                lemma_modmul_fits(w as int, s_root as int);
            }
            x[j + t] = modmul(w, s_root);
        }
        k += 2 * t;
    }
    proof {
        lemma_intt_stage_bounds(s, m as int, t as int, b);
        assert(ints(x@) =~= st);
    }
}

/// The inverse transform of the first DEGREE coefficients, from Montgomery form
/// with coefficients at most 2q back to fully reduced coefficients.
#[verifier::rlimit(60)]
pub fn intt(x: &mut [i32])
    requires
        old(x)@.len() >= DEGREE,
        forall|j: int| 0 <= j < DEGREE ==> 0 <= #[trigger] old(x)@[j] <= 2 * PRIME,
    ensures
        final(x)@.len() == old(x)@.len(),
        ints(final(x)@) == intt_spec(ints(old(x)@)),
        forall|j: int| 0 <= j < DEGREE ==> 0 <= #[trigger] final(x)@[j] < PRIME,
{
    let ghost s0 = ints(x@);
    let ghost n = x@.len();
    let mut t: usize = 1;
    let q: i32 = PRIME;
    let mut m: usize = DEGREE / 2;
    let ghost mut b: int = 2 * PRIME;
    while m > 1
        invariant
            stage_pair(m as int, t as int) || (m == 1 && t == DEGREE / 2),
            x@.len() == n,
            n >= DEGREE,
            ints(x@) == intt_upto(s0, t as int),
            b == 2 * PRIME * t,
            m > 1 ==> b <= 512 * PRIME,
            m == 1 ==> b == 1024 * PRIME,
            forall|jj: int| 0 <= jj < DEGREE ==> 0 <= #[trigger] x@[jj] <= b,
        decreases m,
    {
        proof {
            assert(2 * (t as int) * (m as int) == DEGREE) by (nonlinear_arith)
                requires stage_pair(m as int, t as int);
            lemma_fundamental_div_mod_converse(DEGREE as int, 2 * t as int, m as int, 0);
            assert(2 * PRIME <= b <= 512 * PRIME) by (nonlinear_arith)
                requires b == 2 * PRIME * t, 1 <= t <= 256;
            assert(2 * b == 2 * PRIME * (2 * t)) by (nonlinear_arith)
                requires b == 2 * PRIME * t;
        }
        intt_stage_exec(x, m, t, Ghost(b));
        proof {
            assert(intt_upto(s0, 2 * t as int) == intt_stage(
                intt_upto(s0, t as int),
                m as int,
                t as int,
            ));
            b = 2 * b;
        }
        t *= 2;
        m /= 2;
        proof {
            assert(m > 1 ==> b <= 512 * PRIME) by (nonlinear_arith)
                requires b == 2 * PRIME * t, m > 1 ==> t <= 256;
            assert(m == 1 ==> b == 1024 * PRIME) by (nonlinear_arith)
                requires b == 2 * PRIME * t, m == 1 ==> t == 512;
        }
    }
    let ghost s1 = ints(x@);
    t = DEGREE / 2;
    for j in 0..t
        invariant
            t == DEGREE / 2,
            q == PRIME,
            x@.len() == n,
            n >= DEGREE,
            s1.len() == n,
            forall|jj: int| 0 <= jj < DEGREE ==> 0 <= #[trigger] s1[jj] <= 1024 * PRIME,
            forall|jj: int|
                0 <= jj < n ==> #[trigger] x@[jj] as int == (if jj < j || (512 <= jj < j + 512) {
                    intt_last(s1)[jj]
                } else {
                    s1[jj]
                }),
    {
        let u = x[j];
        let v = x[j + t];
        proof {
            assert(u == s1[j as int]);
            assert(v == s1[j + 512]);
            assert(0 <= u <= 1024 * PRIME);
            assert(0 <= v <= 1024 * PRIME);
        }
        let w = u + (DEGREE as i32) * q - v;
        proof {
            lemma_modmul_fits(w as int, INVPR as int);
            lemma_modmul_fits((u + v) as int, INV as int);
        }
        x[j + t] = modmul(w, INVPR);
        x[j] = modmul(u + v, INV);
        proof {
            assert(intt_last(s1)[j as int] == modmul_spec(u + v, INV as int));
            assert(intt_last(s1)[j + 512] == modmul_spec(w as int, INVPR as int));
        }
    }
    let ghost s2 = ints(x@);
    proof {
        assert(s2 =~= intt_last(s1));
        assert forall|jj: int| 0 <= jj < DEGREE implies 0 <= #[trigger] s2[jj] < 2 * PRIME by {
            let a = if jj < 512 { s1[jj] + s1[jj + 512] } else { s1[jj - 512] + (DEGREE as int)
                * PRIME - s1[jj] };
            let c = if jj < 512 { INV as int } else { INVPR as int };
            assert(a * c < 128 * mont_r()) by (nonlinear_arith)
                requires 0 <= a <= 2048 * PRIME, 0 <= c < PRIME;
            assert(0 <= a * c) by (nonlinear_arith)
                requires 0 <= a, 0 <= c;
            lemma_redc_below(a * c, 128);
        }
    }
    for j in 0..DEGREE
        invariant
            q == PRIME,
            x@.len() == n,
            n >= DEGREE,
            s2.len() == n,
            forall|jj: int| 0 <= jj < DEGREE ==> 0 <= #[trigger] s2[jj] < 2 * PRIME,
            forall|jj: int|
                0 <= jj < n ==> #[trigger] x@[jj] as int == (if jj < j {
                    intt_final(s2)[jj]
                } else {
                    s2[jj]
                }),
    {
        proof {
            lemma_redc_below(s2[j as int], 1);
            lemma_redc_fits(s2[j as int]);
        }
        x[j] = redc(x[j] as u64);
        x[j] -= q;
        proof {
            lemma_csub(x[j as int]);
            lemma_mod_multiples_vanish(-1, x[j as int] + PRIME, PRIME as int);
        }
        x[j] += (x[j] >> (WL - 1)) & q;
    }
    proof {
        assert(ints(x@) =~= intt_final(s2));
    }
}

/// c a + c b = 2 c u + 2 c q for a forward butterfly (a, b) = (u + v, u + 2q - v).
proof fn lemma_butterfly_sum(c: int, a: int, b: int, u: int, v: int)
    requires
        a == u + v,
        b == u + 2 * 12289 - v,
    ensures
        c * a + c * b == 2 * c * u + (2 * c) * 12289,
{
    assert(c * a + c * b == 2 * c * u + (2 * c) * 12289) by (nonlinear_arith)
        requires a == u + v, b == u + 2 * 12289 - v;
}

/// c a - c b + 1024 q = 2 c v + (1024 - 2c) q for a forward butterfly (a, b) = (u + v, u + 2q - v).
proof fn lemma_butterfly_difference(c: int, a: int, b: int, u: int, v: int)
    requires
        a == u + v,
        b == u + 2 * 12289 - v,
    ensures
        c * a - c * b + 1024 * 12289 == 2 * c * v + (1024 - 2 * c) * 12289,
{
    assert(c * a - c * b + 1024 * 12289 == 2 * c * v + (1024 - 2 * c) * 12289) by (nonlinear_arith)
        requires a == u + v, b == u + 2 * 12289 - v;
}

/// (u w r)(w' r) ≡ u when w w' ≡ R^2 and r = R^-1, modulo q.
proof fn lemma_root_product(u: int, w: int, w2: int)
    requires
        (w * w2) % (PRIME as int) == 5664,
    ensures
        cong(u * w * rinv() * (w2 * rinv()), u),
{
    let ri = rinv();
    assert(u * w * ri * (w2 * ri) == (u * ri * ri) * (w * w2)) by (nonlinear_arith);
    assert(cong(w * w2, 5664));
    lemma_cong_mul(u * ri * ri, u * ri * ri, w * w2, 5664);
    assert((u * ri * ri) * 5664 == u + (u * 64797215) * PRIME) by (nonlinear_arith)
        requires ri == 11857;
    lemma_cong_multiple(u, u * 64797215);
}

/// An inverse stage undoes the forward stage of the same block count, up to a
/// factor 2, modulo q: if y ≡ c ntt_stage(x) then intt_stage(y) ≡ 2 c x.
pub proof fn lemma_stage_inverse(x: Seq<int>, y: Seq<int>, m: int, t: int, c: int)
    requires
        stage_pair(m, t),
        x.len() >= DEGREE,
        y.len() >= DEGREE,
        forall|j: int| 0 <= j < DEGREE ==> cong(#[trigger] y[j], c * ntt_stage(x, m, t)[j]),
    ensures
        forall|j: int| 0 <= j < DEGREE ==> cong(#[trigger] intt_stage(y, m, t)[j], 2 * c * x[j]),
{
    let xs = ntt_stage(x, m, t);
    let ri = rinv();
    assert forall|j: int| 0 <= j < DEGREE implies cong(#[trigger] intt_stage(y, m, t)[j], 2 * c
        * x[j]) by {
        lemma_stage_index(m, t, j);
        let k = root_index(m, t, j);
        lemma_root_pair(k);
        let w = ROOTS[k] as int;
        let w2 = IROOTS[k] as int;
        if lower_half(j, t) {
            let hi = j + t;
            let mm = modmul_spec(x[hi], w);
            assert(xs[j] == x[j] + mm);
            assert(xs[hi] == x[j] + 2 * PRIME - mm);
            assert(cong(y[hi], c * xs[hi]));
            lemma_cong_add(y[j], c * xs[j], y[hi], c * xs[hi]);
            lemma_butterfly_sum(c, xs[j], xs[hi], x[j], mm);
            lemma_cong_multiple(2 * c * x[j], 2 * c);
        } else {
            let lo = j - t;
            let mm = modmul_spec(x[j], w);
            assert(xs[lo] == x[lo] + mm);
            assert(xs[j] == x[lo] + 2 * PRIME - mm);
            assert(cong(y[lo], c * xs[lo]));
            let d = y[lo] + (DEGREE as int) * PRIME - y[j];
            lemma_cong_sub(y[lo], c * xs[lo], y[j], c * xs[j]);
            lemma_cong_add(y[lo] - y[j], c * xs[lo] - c * xs[j], 1024 * PRIME, 1024 * PRIME);
            lemma_butterfly_difference(c, xs[lo], xs[j], x[lo], mm);
            lemma_cong_multiple(2 * c * mm, 1024 - 2 * c);
            assert(cong(d, 2 * c * mm));
            lemma_modmul_cong(d, w2);
            lemma_cong_mul(d, 2 * c * mm, w2 * ri, w2 * ri);
            assert(d * w2 * ri == d * (w2 * ri)) by (nonlinear_arith);
            lemma_modmul_cong(x[j], w);
            lemma_cong_mul(mm, x[j] * w * ri, 2 * c * (w2 * ri), 2 * c * (w2 * ri));
            assert(2 * c * mm * (w2 * ri) == mm * (2 * c * (w2 * ri))) by (nonlinear_arith);
            assert(x[j] * w * ri * (2 * c * (w2 * ri)) == (2 * c * x[j]) * w * ri * (w2 * ri))
                by (nonlinear_arith);
            lemma_root_product(2 * c * x[j], w, w2);
        }
    }
}

/// y ≡ c x on the first DEGREE coefficients, modulo q.
pub open spec fn cong_scaled(y: Seq<int>, x: Seq<int>, c: int) -> bool {
    forall|j: int| 0 <= j < DEGREE ==> cong(#[trigger] y[j], c * x[j])
}

/// The half-block sizes of the inverse stages.
pub open spec fn half_size(t: int) -> bool {
    t == 1 || t == 2 || t == 4 || t == 8 || t == 16 || t == 32 || t == 64 || t == 128 || t == 256
        || t == 512
}

/// The forward stages keep the length and the coefficients beyond DEGREE.
pub proof fn lemma_ntt_upto_len(s: Seq<int>, m: int)
    ensures
        ntt_upto(s, m).len() == s.len(),
        forall|j: int| DEGREE <= j < s.len() ==> #[trigger] ntt_upto(s, m)[j] == s[j],
    decreases m,
{
    if m > 1 {
        lemma_ntt_upto_len(s, m / 2);
    }
}

/// The inverse stages keep the length and the coefficients beyond DEGREE.
pub proof fn lemma_intt_upto_len(s: Seq<int>, t: int)
    ensures
        intt_upto(s, t).len() == s.len(),
        forall|j: int| DEGREE <= j < s.len() ==> #[trigger] intt_upto(s, t)[j] == s[j],
    decreases t,
{
    if t > 1 {
        lemma_intt_upto_len(s, t / 2);
    }
}

/// The arithmetic of block counts and half-block sizes between two inverse stages.
pub proof fn lemma_half_size_step(t: int)
    requires
        half_size(t),
        t > 1,
    ensures
        half_size(t / 2),
        stage_pair((DEGREE as int) / t, t / 2),
        (DEGREE as int) / (t / 2) == 2 * ((DEGREE as int) / t),
        (2 * ((DEGREE as int) / t)) / 2 == (DEGREE as int) / t,
        (DEGREE as int) / (2 * ((DEGREE as int) / t)) == t / 2,
        2 * (t / 2) == t,
{
    if t == 2 {
        assert((DEGREE as int) / 1 == 1024);
        assert((DEGREE as int) / 2 == 512);
        assert((DEGREE as int) / (2 * 512int) == 1);
    } else if t == 4 {
        assert((DEGREE as int) / 2 == 512);
        assert((DEGREE as int) / 4 == 256);
        assert((DEGREE as int) / (2 * 256int) == 2);
    } else if t == 8 {
        assert((DEGREE as int) / 4 == 256);
        assert((DEGREE as int) / 8 == 128);
        assert((DEGREE as int) / (2 * 128int) == 4);
    } else if t == 16 {
        assert((DEGREE as int) / 8 == 128);
        assert((DEGREE as int) / 16 == 64);
        assert((DEGREE as int) / (2 * 64int) == 8);
    } else if t == 32 {
        assert((DEGREE as int) / 16 == 64);
        assert((DEGREE as int) / 32 == 32);
        assert((DEGREE as int) / (2 * 32int) == 16);
    } else if t == 64 {
        assert((DEGREE as int) / 32 == 32);
        assert((DEGREE as int) / 64 == 16);
        assert((DEGREE as int) / (2 * 16int) == 32);
    } else if t == 128 {
        assert((DEGREE as int) / 64 == 16);
        assert((DEGREE as int) / 128 == 8);
        assert((DEGREE as int) / (2 * 8int) == 64);
    } else if t == 256 {
        assert((DEGREE as int) / 128 == 8);
        assert((DEGREE as int) / 256 == 4);
        assert((DEGREE as int) / (2 * 4int) == 128);
    } else if t == 512 {
        assert((DEGREE as int) / 256 == 4);
        assert((DEGREE as int) / 512 == 2);
        assert((DEGREE as int) / (2 * 2int) == 256);
    }
}

/// The inverse stages up to half-block size t/2 undo the forward stages from
/// block count DEGREE/t on, up to a factor t, modulo q.
proof fn lemma_intt_upto_inverts(x0: Seq<int>, y: Seq<int>, t: int)
    requires
        half_size(t),
        x0.len() >= DEGREE,
        y.len() >= DEGREE,
        cong_scaled(y, ntt_upto(x0, DEGREE as int), 1),
    ensures
        cong_scaled(intt_upto(y, t), ntt_upto(x0, (DEGREE as int) / t), t),
    decreases t,
{
    if t > 1 {
        lemma_intt_upto_inverts(x0, y, t / 2);
        lemma_half_size_step(t);
        let m = (DEGREE as int) / t;
        lemma_ntt_upto_len(x0, m);
        lemma_intt_upto_len(y, t / 2);
        assert(ntt_upto(x0, (DEGREE as int) / (t / 2)) == ntt_stage(ntt_upto(x0, m), m, t / 2));
        assert(intt_upto(y, t) == intt_stage(intt_upto(y, t / 2), m, t / 2));
        lemma_stage_inverse(ntt_upto(x0, m), intt_upto(y, t / 2), m, t / 2, t / 2);
        assert(2 * (t / 2) == t);
    }
}

/// The inverse transform undoes the forward transform: for every polynomial a,
/// taking the forward transform, reducing its coefficients fully modulo q,
/// and taking the inverse transform gives back a with its first DEGREE
/// coefficients reduced modulo q.
pub proof fn lemma_intt_inverts_ntt(a: Seq<int>)
    requires
        a.len() >= DEGREE,
    ensures
        intt_spec(hard_reduce_poly(ntt_spec(a))) == reduce_poly(a),
{
    let ri = rinv();
    let q = PRIME as int;
    let x0 = nres_poly(a);
    let x = ntt_spec(a);
    lemma_ntt_upto_len(x0, DEGREE as int);
    let y = hard_reduce_poly(x);
    assert forall|j: int| 0 <= j < DEGREE implies cong(#[trigger] y[j], 1 * x[j]) by {
        lemma_mod_twice(modmul_spec(x[j], ONE as int), q);
        lemma_modmul_cong(x[j], ONE as int);
        assert(x[j] * (ONE as int) * ri == x[j] + (x[j] * 10567) * q) by (nonlinear_arith)
            requires ri == 11857, q == 12289, ONE == 10952;
        lemma_cong_multiple(x[j], x[j] * 10567);
    }
    lemma_intt_upto_inverts(x0, y, 512);
    let z = intt_upto(y, 512);
    lemma_intt_upto_len(y, 512);
    let x2 = ntt_stage(x0, 1, 512);
    assert(ntt_upto(x0, 2) == x2) by {
        reveal_with_fuel(ntt_upto, 2);
    }
    let l = intt_last(z);
    let w = ROOTS[1] as int;
    assert(w == 11183);
    assert forall|j: int| 0 <= j < DEGREE implies cong(#[trigger] l[j], x0[j]) by {
        if j < 512 {
            lemma_stage_index(1, 512, j);
            let mm = modmul_spec(x0[j + 512], w);
            assert(x2[j] == x0[j] + mm);
            assert(x2[j + 512] == x0[j] + 2 * PRIME - mm);
            assert(cong(z[j + 512], 512 * x2[j + 512]));
            lemma_cong_add(z[j], 512 * x2[j], z[j + 512], 512 * x2[j + 512]);
            lemma_butterfly_sum(512, x2[j], x2[j + 512], x0[j], mm);
            lemma_cong_multiple(1024 * x0[j], 1024);
            let sum = z[j] + z[j + 512];
            lemma_modmul_cong(sum, INV as int);
            lemma_cong_mul(sum, 1024 * x0[j], (INV as int) * ri, (INV as int) * ri);
            lemma_mul_is_associative(sum, INV as int, ri);
            assert(1024 * x0[j] * ((INV as int) * ri) == x0[j] + (x0[j] * 3709951) * q)
                by (nonlinear_arith)
                requires ri == 11857, q == 12289, INV == 3755;
            lemma_cong_multiple(x0[j], x0[j] * 3709951);
        } else {
            let lo = j - 512;
            lemma_stage_index(1, 512, j);
            let mm = modmul_spec(x0[j], w);
            assert(x2[lo] == x0[lo] + mm);
            assert(x2[j] == x0[lo] + 2 * PRIME - mm);
            assert(cong(z[lo], 512 * x2[lo]));
            let d = z[lo] + (DEGREE as int) * PRIME - z[j];
            lemma_cong_sub(z[lo], 512 * x2[lo], z[j], 512 * x2[j]);
            lemma_cong_add(z[lo] - z[j], 512 * x2[lo] - 512 * x2[j], 1024 * PRIME, 1024 * PRIME);
            lemma_butterfly_difference(512, x2[lo], x2[j], x0[lo], mm);
            assert(cong(d, 1024 * mm));
            lemma_modmul_cong(d, INVPR as int);
            lemma_cong_mul(d, 1024 * mm, (INVPR as int) * ri, (INVPR as int) * ri);
            lemma_mul_is_associative(d, INVPR as int, ri);
            lemma_modmul_cong(x0[j], w);
            lemma_cong_mul(mm, x0[j] * w * ri, 1024 * ((INVPR as int) * ri), 1024 * ((INVPR as int)
                * ri));
            lemma_mul_is_commutative(1024, mm);
            lemma_mul_is_associative(mm, 1024, (INVPR as int) * ri);
            assert(x0[j] * w * ri * (1024 * ((INVPR as int) * ri)) == x0[j] + (x0[j]
                * 1481154485684223) * q) by (nonlinear_arith)
                requires ri == 11857, q == 12289, INVPR == 11306, w == 11183;
            lemma_cong_multiple(x0[j], x0[j] * 1481154485684223);
        }
    }
    lemma_intt_upto_len(y, 512);
    let f = intt_final(l);
    assert forall|j: int| 0 <= j < DEGREE implies #[trigger] f[j] == a[j] % q by {
        lemma_redc_cong(l[j]);
        lemma_cong_mul(l[j], x0[j], ri, ri);
        lemma_redc_cong(a[j] * 5664);
        lemma_cong_mul(x0[j], a[j] * 5664 * ri, ri, ri);
        assert(a[j] * 5664 * ri * ri == a[j] + (a[j] * 64797215) * q) by (nonlinear_arith)
            requires ri == 11857, q == 12289;
        lemma_cong_multiple(a[j], a[j] * 64797215);
        lemma_mod_twice(redc_spec(l[j]), q);
    }
    assert(f =~= reduce_poly(a));
}

} // verus!
