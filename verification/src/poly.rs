//! Coefficient-wise operations on polynomials of DEGREE coefficients.
use vstd::prelude::*;
use vstd::arithmetic::div_mod::{lemma_mod_multiples_vanish};
use crate::arith::{
    DEGREE, ONE, PRIME, WL, lemma_cong_multiple, lemma_csub, lemma_modmul_cong,
    lemma_modmul_fits, lemma_redc_below, lemma_redc_fits, modmul, modmul_spec, nres, nres_spec,
    redc, redc_spec, rinv,
};
use vstd::arithmetic::div_mod::lemma_mod_twice;
use crate::ntt::{ints, nres_poly};

verus! {

/// The coefficient-wise Montgomery product of the first DEGREE coefficients.
pub open spec fn mul_poly(a: Seq<int>, b: Seq<int>) -> Seq<int> {
    Seq::new(a.len(), |j: int| if j < DEGREE { modmul_spec(a[j], b[j]) } else { a[j] })
}

/// The coefficient-wise sum of the first DEGREE coefficients.
pub open spec fn add_poly(a: Seq<int>, b: Seq<int>) -> Seq<int> {
    Seq::new(a.len(), |j: int| if j < DEGREE { a[j] + b[j] } else { a[j] })
}

/// The coefficient-wise difference b - a, made nonnegative by adding q.
pub open spec fn rsub_poly(a: Seq<int>, b: Seq<int>) -> Seq<int> {
    Seq::new(a.len(), |j: int| if j < DEGREE { b[j] + PRIME - a[j] } else { a[j] })
}

/// The first DEGREE coefficients reduced modulo q.
pub open spec fn reduce_poly(a: Seq<int>) -> Seq<int> {
    Seq::new(a.len(), |j: int| if j < DEGREE { a[j] % (PRIME as int) } else { a[j] })
}

/// Full reduction modulo q of the first DEGREE coefficients by the Montgomery product
/// with R mod q, which keeps their residues.
pub open spec fn hard_reduce_poly(a: Seq<int>) -> Seq<int> {
    Seq::new(
        a.len(),
        |j: int|
            if j < DEGREE {
                modmul_spec(a[j], ONE as int) % (PRIME as int)
            } else {
                a[j]
            },
    )
}

/// Montgomery reduction of each of the first DEGREE coefficients.
pub open spec fn redc_poly(a: Seq<int>) -> Seq<int> {
    Seq::new(a.len(), |j: int| if j < DEGREE { redc_spec(a[j]) } else { a[j] })
}

/// Montgomery reduction of each coefficient.
pub fn redc_it(p: &mut [i32])
    requires
        old(p)@.len() >= DEGREE,
        forall|j: int| 0 <= j < DEGREE ==> #[trigger] old(p)@[j] >= 0,
    ensures
        final(p)@.len() == old(p)@.len(),
        ints(final(p)@) == redc_poly(ints(old(p)@)),
        forall|j: int| 0 <= j < DEGREE ==> 0 <= #[trigger] final(p)@[j] <= PRIME,
{
    let ghost s = ints(p@);
    for i in 0..DEGREE
        invariant
            p@.len() == s.len(),
            s.len() >= DEGREE,
            s == ints(old(p)@),
            forall|j: int| 0 <= j < DEGREE ==> #[trigger] old(p)@[j] >= 0,
            forall|j: int|
                0 <= j < s.len() ==> #[trigger] p@[j] as int == (if j < i {
                    redc_spec(s[j])
                } else {
                    s[j]
                }),
            forall|j: int| 0 <= j < i ==> 0 <= #[trigger] p@[j] <= PRIME,
    {
        proof {
            assert(s[i as int] == old(p)@[i as int]);
            lemma_redc_below(s[i as int], 1);
            lemma_redc_fits(s[i as int]);
        }
        p[i] = redc(p[i] as u64);
    }
    proof {
        assert(ints(p@) =~= redc_poly(s));
    }
}

/// Conversion of each coefficient into Montgomery form.
pub fn nres_it(p: &mut [i32])
    requires
        old(p)@.len() >= DEGREE,
        forall|j: int| 0 <= j < DEGREE ==> #[trigger] old(p)@[j] >= 0,
    ensures
        final(p)@.len() == old(p)@.len(),
        ints(final(p)@) == nres_poly(ints(old(p)@)),
        forall|j: int| 0 <= j < DEGREE ==> 0 <= #[trigger] final(p)@[j] <= 2832 + PRIME,
{
    let ghost s = ints(p@);
    for i in 0..DEGREE
        invariant
            p@.len() == s.len(),
            s.len() >= DEGREE,
            s == ints(old(p)@),
            forall|j: int| 0 <= j < DEGREE ==> #[trigger] old(p)@[j] >= 0,
            forall|j: int|
                0 <= j < s.len() ==> #[trigger] p@[j] as int == (if j < i {
                    nres_spec(s[j])
                } else {
                    s[j]
                }),
            forall|j: int| 0 <= j < i ==> 0 <= #[trigger] p@[j] <= 2832 + PRIME,
    {
        p[i] = nres(p[i]);
    }
    proof {
        assert(ints(p@) =~= nres_poly(s));
    }
}

/// The coefficient-wise Montgomery product p1 := p1 * p3 R^-1.
pub fn poly_mul(p1: &mut [i32], p3: &[i32])
    requires
        old(p1)@.len() >= DEGREE,
        p3@.len() >= DEGREE,
        forall|j: int| 0 <= j < DEGREE ==> #[trigger] old(p1)@[j] >= 0,
        forall|j: int| 0 <= j < DEGREE ==> #[trigger] p3@[j] >= 0,
    ensures
        final(p1)@.len() == old(p1)@.len(),
        ints(final(p1)@) == mul_poly(ints(old(p1)@), ints(p3@)),
        forall|j: int| 0 <= j < DEGREE ==> #[trigger] final(p1)@[j] >= 0,
{
    let ghost s = ints(p1@);
    for i in 0..DEGREE
        invariant
            p1@.len() == s.len(),
            s.len() >= DEGREE,
            p3@.len() >= DEGREE,
            s == ints(old(p1)@),
            forall|j: int| 0 <= j < DEGREE ==> #[trigger] old(p1)@[j] >= 0,
            forall|j: int| 0 <= j < DEGREE ==> #[trigger] p3@[j] >= 0,
            forall|j: int|
                0 <= j < s.len() ==> #[trigger] p1@[j] as int == (if j < i {
                    modmul_spec(s[j], p3@[j] as int)
                } else {
                    s[j]
                }),
            forall|j: int| 0 <= j < i ==> #[trigger] p1@[j] >= 0,
    {
        proof {
            lemma_modmul_fits(p1@[i as int] as int, p3@[i as int] as int);
        }
        p1[i] = modmul(p1[i], p3[i]);
    }
    proof {
        assert(ints(p1@) =~= mul_poly(s, ints(p3@)));
    }
}

/// The coefficient-wise sum p1 := p1 + p3.
pub fn poly_add(p1: &mut [i32], p3: &[i32])
    requires
        old(p1)@.len() >= DEGREE,
        p3@.len() >= DEGREE,
        forall|j: int|
            0 <= j < DEGREE ==> i32::MIN <= #[trigger] old(p1)@[j] + p3@[j] <= i32::MAX,
    ensures
        final(p1)@.len() == old(p1)@.len(),
        ints(final(p1)@) == add_poly(ints(old(p1)@), ints(p3@)),
{
    let ghost s = ints(p1@);
    for i in 0..DEGREE
        invariant
            p1@.len() == s.len(),
            s.len() >= DEGREE,
            p3@.len() >= DEGREE,
            s == ints(old(p1)@),
            forall|j: int|
                0 <= j < DEGREE ==> i32::MIN <= #[trigger] old(p1)@[j] + p3@[j] <= i32::MAX,
            forall|j: int|
                0 <= j < s.len() ==> #[trigger] p1@[j] as int == (if j < i {
                    s[j] + p3@[j]
                } else {
                    s[j]
                }),
    {
        assert(p1@[i as int] == old(p1)@[i as int]);
        p1[i] = p1[i] + p3[i];
    }
    proof {
        assert(ints(p1@) =~= add_poly(s, ints(p3@)));
    }
}

/// The coefficient-wise difference p1 := p2 + q - p1.
pub fn poly_rsub(p1: &mut [i32], p2: &[i32])
    requires
        old(p1)@.len() >= DEGREE,
        p2@.len() >= DEGREE,
        forall|j: int|
            0 <= j < DEGREE ==> i32::MIN <= #[trigger] p2@[j] + PRIME - old(p1)@[j] <= i32::MAX,
        forall|j: int| 0 <= j < DEGREE ==> i32::MIN <= #[trigger] p2@[j] + PRIME <= i32::MAX,
    ensures
        final(p1)@.len() == old(p1)@.len(),
        ints(final(p1)@) == rsub_poly(ints(old(p1)@), ints(p2@)),
{
    let ghost s = ints(p1@);
    for i in 0..DEGREE
        invariant
            p1@.len() == s.len(),
            s.len() >= DEGREE,
            p2@.len() >= DEGREE,
            s == ints(old(p1)@),
            forall|j: int|
                0 <= j < DEGREE ==> i32::MIN <= #[trigger] p2@[j] + PRIME - old(p1)@[j]
                    <= i32::MAX,
            forall|j: int| 0 <= j < DEGREE ==> i32::MIN <= #[trigger] p2@[j] + PRIME <= i32::MAX,
            forall|j: int|
                0 <= j < s.len() ==> #[trigger] p1@[j] as int == (if j < i {
                    p2@[j] + PRIME - s[j]
                } else {
                    s[j]
                }),
    {
        assert(p1@[i as int] == old(p1)@[i as int]);
        p1[i] = p2[i] + PRIME - p1[i];
    }
    proof {
        assert(ints(p1@) =~= rsub_poly(s, ints(p2@)));
    }
}

/// Reduction modulo q of coefficients in [0, 2q).
pub fn poly_soft_reduce(poly: &mut [i32])
    requires
        old(poly)@.len() >= DEGREE,
        forall|j: int| 0 <= j < DEGREE ==> 0 <= #[trigger] old(poly)@[j] < 2 * PRIME,
    ensures
        final(poly)@.len() == old(poly)@.len(),
        ints(final(poly)@) == reduce_poly(ints(old(poly)@)),
{
    let ghost s = ints(poly@);
    for i in 0..DEGREE
        invariant
            poly@.len() == s.len(),
            s.len() >= DEGREE,
            s == ints(old(poly)@),
            forall|j: int| 0 <= j < DEGREE ==> 0 <= #[trigger] old(poly)@[j] < 2 * PRIME,
            forall|j: int|
                0 <= j < s.len() ==> #[trigger] poly@[j] as int == (if j < i {
                    s[j] % (PRIME as int)
                } else {
                    s[j]
                }),
    {
        assert(poly@[i as int] == old(poly)@[i as int]);
        let e = poly[i] - PRIME;
        proof {
            lemma_csub(e);
            lemma_mod_multiples_vanish(-1, e + PRIME, PRIME as int);
        }
        poly[i] = e + ((e >> (WL - 1)) & PRIME);
    }
    proof {
        assert(ints(poly@) =~= reduce_poly(s));
    }
}

/// Full reduction modulo q of each coefficient: the Montgomery product with R mod q,
/// which keeps the residue, then a conditional subtraction of q.
pub fn poly_hard_reduce(poly: &mut [i32])
    requires
        old(poly)@.len() >= DEGREE,
        forall|j: int| 0 <= j < DEGREE ==> #[trigger] old(poly)@[j] >= 0,
    ensures
        final(poly)@.len() == old(poly)@.len(),
        ints(final(poly)@) == hard_reduce_poly(ints(old(poly)@)),
        forall|j: int| 0 <= j < DEGREE ==> 0 <= #[trigger] final(poly)@[j] < PRIME,
{
    let ghost s = ints(poly@);
    for i in 0..DEGREE
        invariant
            poly@.len() == s.len(),
            s.len() >= DEGREE,
            s == ints(old(poly)@),
            forall|j: int| 0 <= j < DEGREE ==> #[trigger] old(poly)@[j] >= 0,
            forall|j: int|
                0 <= j < s.len() ==> #[trigger] poly@[j] as int == (if j < i {
                    modmul_spec(s[j], ONE as int) % (PRIME as int)
                } else {
                    s[j]
                }),
            forall|j: int| 0 <= j < i ==> 0 <= #[trigger] poly@[j] < PRIME,
    {
        assert(poly@[i as int] == old(poly)@[i as int]);
        proof {
            let v = s[i as int];
            assert(v * ONE < 5477 * 0x1_0000_0000) by (nonlinear_arith)
                requires 0 <= v < 0x8000_0000;
            assert(0 <= v * ONE) by (nonlinear_arith)
                requires 0 <= v;
            lemma_redc_below(v * ONE, 5477);
            lemma_modmul_fits(poly@[i as int] as int, ONE as int);
        }
        let mut e = modmul(poly[i], ONE);
        e = e - PRIME;
        proof {
            lemma_csub(e);
            lemma_mod_multiples_vanish(-1, e + PRIME, PRIME as int);
        }
        poly[i] = e + ((e >> (WL - 1)) & PRIME);
    }
    proof {
        assert(ints(poly@) =~= hard_reduce_poly(s));
    }
}

/// Full reduction keeps the residues: the hard reduction of a polynomial is the
/// polynomial reduced modulo q.
pub proof fn lemma_hard_reduce_is_reduction(a: Seq<int>)
    ensures
        hard_reduce_poly(a) == reduce_poly(a),
{
    let q = PRIME as int;
    assert forall|j: int| 0 <= j < DEGREE && j < a.len() implies #[trigger] hard_reduce_poly(a)[j]
        == a[j] % q by {
        lemma_modmul_cong(a[j], ONE as int);
        assert(a[j] * (ONE as int) * rinv() == a[j] + (a[j] * 10567) * q) by (nonlinear_arith)
            requires q == 12289, ONE == 10952, rinv() == 11857;
        lemma_cong_multiple(a[j], a[j] * 10567);
        lemma_mod_twice(modmul_spec(a[j], ONE as int), q);
    }
    assert(hard_reduce_poly(a) =~= reduce_poly(a));
}

} // verus!
