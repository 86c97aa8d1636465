//! Modular arithmetic modulo the prime q = 12289, in Montgomery form with R = 2^32.
use vstd::prelude::*;
use vstd::arithmetic::div_mod::*;
use vstd::arithmetic::mul::*;

verus! {

/// The prime modulus q.
pub const PRIME: i32 = 0x3001;
/// log2 of the polynomial degree.
pub const LGN: usize = 10;
/// -q^-1 mod R.
pub const ND: u32 = 0xF7002FFF;
/// R mod q.
pub const ONE: i32 = 0x2AC8;
/// R^2 mod q.
pub const R2MODP: u64 = 0x1620;
/// The number of coefficients of a polynomial.
pub const DEGREE: usize = 1024;
/// Word length: R = 2^WL.
pub const WL: usize = 32;
/// 1024^-1 * R mod q.
pub const INV: i32 = 0xeab;
/// 1024^-1 * R^2 * ROOTS[1]^-1 mod q.
pub const INVPR: i32 = 0x2c2a;

/// The Montgomery radix R = 2^32.
pub open spec fn mont_r() -> int {
    0x1_0000_0000
}

/// R^-1 mod q.
pub open spec fn rinv() -> int {
    11857
}

/// The multiple of q that Montgomery reduction adds to `t` to make it divisible by R.
pub open spec fn redc_quot(t: int) -> int {
    ((t % mont_r()) * (ND as int)) % mont_r()
}

/// Montgomery reduction: (t + m q) / R, where m makes the sum divisible by R.
pub open spec fn redc_spec(t: int) -> int {
    (t + redc_quot(t) * PRIME) / mont_r()
}

/// Conversion into Montgomery form: redc(x R^2 mod q) ≡ x R.
pub open spec fn nres_spec(x: int) -> int {
    redc_spec(x * (R2MODP as int))
}

/// Montgomery product: redc(a b) ≡ a b R^-1.
pub open spec fn modmul_spec(a: int, b: int) -> int {
    redc_spec(a * b)
}

/// Integer division rounding toward zero, as Rust's `/` on signed integers does,
/// written with the Euclidean division `/` of specifications.
pub open spec fn trunc_div(a: int, b: int) -> int {
    if a >= 0 {
        a / b
    } else {
        -((-a) / b)
    }
}

/// `a / b` rounded to the nearest integer, computed as (a + b/2) / b.
pub open spec fn round_spec(a: int, b: int) -> int {
    trunc_div(a + trunc_div(b, 2), b)
}

/// Congruence modulo q.
pub open spec fn cong(a: int, b: int) -> bool {
    a % (PRIME as int) == b % (PRIME as int)
}

/// The sum t + m q that Montgomery reduction forms is an exact multiple of R.
pub proof fn lemma_redc_exact(t: int)
    ensures
        0 <= redc_quot(t) < mont_r(),
        redc_spec(t) * mont_r() == t + redc_quot(t) * PRIME,
{
    let r = mont_r();
    let a = t % r;
    let p = a * (ND as int);
    let m = p % r;
    lemma_fundamental_div_mod(t, r);
    lemma_fundamental_div_mod(p, r);
    lemma_mod_bound(p, r);
    let x = t / r + a * rinv() - (p / r) * (PRIME as int);
    assert(t + m * (PRIME as int) == r * x) by (nonlinear_arith)
        requires
            t == r * (t / r) + a,
            p == r * (p / r) + m,
            p == a * (ND as int),
            (ND as int) * (PRIME as int) + 1 == r * rinv(),
            x == t / r + a * rinv() - (p / r) * (PRIME as int),
    ;
    lemma_div_multiples_vanish(x, r);
    assert(r * x == x * r) by (nonlinear_arith);
}

/// Montgomery reduction multiplies by R^-1 modulo q.
pub proof fn lemma_redc_cong(t: int)
    ensures
        cong(redc_spec(t), t * rinv()),
{
    let q = PRIME as int;
    let x = redc_spec(t);
    lemma_redc_exact(t);
    let m = redc_quot(t);
    // x R = t + m q, so x R R^-1 ≡ t R^-1, and R R^-1 = 1 + c q.
    let c: int = 4143984639;
    assert(mont_r() * rinv() == 1 + c * q);
    assert(x == x * mont_r() * rinv() - x * c * q) by (nonlinear_arith)
        requires mont_r() * rinv() == 1 + c * q;
    assert(x * mont_r() * rinv() == t * rinv() + (m * rinv()) * q) by (nonlinear_arith)
        requires x * mont_r() == t + m * q;
    assert(x == t * rinv() + (m * rinv() - x * c) * q) by (nonlinear_arith)
        requires
            x == x * mont_r() * rinv() - x * c * q,
            x * mont_r() * rinv() == t * rinv() + (m * rinv()) * q;
    lemma_mod_multiples_vanish(m * rinv() - x * c, t * rinv(), q);
    assert(q * (m * rinv() - x * c) == (m * rinv() - x * c) * q) by (nonlinear_arith);
}

/// Bounds of Montgomery reduction on a nonnegative input.
pub proof fn lemma_redc_bounds(t: int)
    requires
        0 <= t,
    ensures
        0 <= redc_spec(t),
        redc_spec(t) * mont_r() < t + mont_r() * PRIME,
{
    lemma_redc_exact(t);
    let m = redc_quot(t);
    assert(m * PRIME < mont_r() * PRIME) by (nonlinear_arith)
        requires 0 <= m < mont_r();
    assert(0 <= m * PRIME) by (nonlinear_arith)
        requires 0 <= m;
    assert(redc_spec(t) >= 0) by (nonlinear_arith)
        requires redc_spec(t) * mont_r() == t + m * PRIME, 0 <= t, 0 <= m * PRIME;
}

/// The value of the 64-bit unsigned integer `v as u64` for a 32-bit signed integer v.
pub open spec fn u64_of(v: int) -> int {
    if v >= 0 {
        v
    } else {
        v + 0x1_0000_0000_0000_0000
    }
}

/// Montgomery reduction of t computes t + m q without overflowing 64 bits.
pub open spec fn redc_fits(t: int) -> bool {
    t + redc_quot(t) * PRIME <= u64::MAX
}

/// Casting a 32-bit signed integer to u64.
proof fn lemma_u64_of(a: i32)
    ensures
        (a as u64) as int == u64_of(a as int),
{
    assert(a < 0 ==> (a as u64) as int == a as int + 0x1_0000_0000_0000_0000) by (bit_vector);
}

/// Values below 2^62 can be reduced.
pub proof fn lemma_redc_fits(t: int)
    requires
        0 <= t < 0x4000_0000_0000_0000,
    ensures
        redc_fits(t),
        0 <= redc_spec(t) < 0x4000_0000 + PRIME,
{
    lemma_redc_exact(t);
    lemma_redc_bounds(t);
    assert(redc_spec(t) < 0x4000_0000 + PRIME) by (nonlinear_arith)
        requires
            redc_spec(t) * mont_r() < t + mont_r() * PRIME,
            t < 0x4000_0000_0000_0000,
            mont_r() == 0x1_0000_0000;
}

/// Montgomery reduction: (t + m q) / R as a 32-bit integer, with m < R the multiple
/// of q that makes the sum divisible by R.
pub fn redc(t: u64) -> (r: i32)
    requires
        redc_fits(t as int),
    ensures
        r == redc_spec(t as int) as i32,
        t < 0x4000_0000_0000_0000 ==> r == redc_spec(t as int) && r >= 0,
{
    proof {
        lemma_redc_exact(t as int);
        if t < 0x4000_0000_0000_0000 {
            lemma_redc_fits(t as int);
        }
    }
    let m = (t as u32).wrapping_mul(ND);
    assert((t as u32) == t % 0x1_0000_0000) by (bit_vector);
    assert(m == redc_quot(t as int));
    let s = (m as u64) * (PRIME as u64) + t;
    assert(s >> WL == s / 0x1_0000_0000) by (bit_vector)
        requires WL == 32usize;
    (s >> WL) as i32
}

/// Montgomery reduction of a value below c R is below c + q.
pub proof fn lemma_redc_below(t: int, c: int)
    requires
        0 <= t < c * mont_r(),
    ensures
        0 <= redc_spec(t) < c + PRIME,
{
    lemma_redc_bounds(t);
    assert(redc_spec(t) < c + PRIME) by (nonlinear_arith)
        requires
            redc_spec(t) * mont_r() < t + mont_r() * PRIME,
            t < c * mont_r(),
            mont_r() > 0;
}

/// Conversion of a nonnegative value into Montgomery form (x R mod q, not fully reduced).
pub fn nres(x: i32) -> (r: i32)
    requires
        x >= 0,
    ensures
        r == nres_spec(x as int),
        0 <= r <= 2832 + PRIME,
{
    proof {
        assert((x as int) * (R2MODP as int) < 2833 * mont_r());
        lemma_redc_below((x as int) * (R2MODP as int), 2833);
        lemma_redc_fits((x as int) * (R2MODP as int));
    }
    redc((x as u64) * R2MODP)
}

/// Montgomery product: redc of the product of the 64-bit values of a and b; for
/// nonnegative a and b it is ≡ a b R^-1 (mod q).
pub fn modmul(a: i32, b: i32) -> (r: i32)
    requires
        u64_of(a as int) * u64_of(b as int) <= u64::MAX,
        redc_fits(u64_of(a as int) * u64_of(b as int)),
    ensures
        r == redc_spec(u64_of(a as int) * u64_of(b as int)) as i32,
        a >= 0 && b >= 0 ==> r == modmul_spec(a as int, b as int) && r >= 0,
{
    proof {
        lemma_u64_of(a);
        lemma_u64_of(b);
        if a >= 0 && b >= 0 {
            assert((a as int) * (b as int) < 0x4000_0000_0000_0000) by (nonlinear_arith)
                requires 0 <= a < 0x8000_0000, 0 <= b < 0x8000_0000;
        }
    }
    redc((a as u64) * (b as u64))
}

/// The Montgomery product of two nonnegative 32-bit values can be computed.
pub proof fn lemma_modmul_fits(a: int, b: int)
    requires
        0 <= a < 0x8000_0000,
        0 <= b < 0x8000_0000,
    ensures
        u64_of(a) * u64_of(b) <= u64::MAX,
        redc_fits(u64_of(a) * u64_of(b)),
{
    assert(a * b < 0x4000_0000_0000_0000) by (nonlinear_arith)
        requires 0 <= a < 0x8000_0000, 0 <= b < 0x8000_0000;
    assert(0 <= a * b) by (nonlinear_arith)
        requires 0 <= a, 0 <= b;
    lemma_redc_fits(a * b);
}

/// `a / b` rounded to the nearest integer, for a positive divisor b.
pub fn round(a: i32, b: i32) -> (r: i32)
    requires
        b > 0,
        a + b / 2 <= i32::MAX,
    ensures
        r == round_spec(a as int, b as int),
{
    (a + b / 2) / b
}

/// Absolute value, computed without a branch.
pub fn nabs(x: i32) -> (r: i32)
    requires
        x > i32::MIN,
    ensures
        r == if x < 0 { -x } else { x as int },
{
    let mask = x >> 31;
    assert(mask == (if x < 0 { -1i32 } else { 0i32 }) && (x < 0 ==> ((x + mask) as i32 ^ mask)
        == -x) && (x >= 0 ==> ((x + mask) as i32 ^ mask) == x)) by (bit_vector)
        requires mask == x >> 31, x > i32::MIN;
    (x + mask) ^ mask
}

/// The branch-free conditional addition of q used after a subtraction of q:
/// for -q <= e < q, `e + ((e >> 31) & q)` is e mod q.
pub proof fn lemma_csub(e: i32)
    requires
        -PRIME <= e < PRIME,
    ensures
        (e >> (WL - 1)) & PRIME == (if e < 0 { PRIME } else { 0i32 }),
        e + ((e >> (WL - 1)) & PRIME) == (e as int) % (PRIME as int),
{
    assert((e >> (WL - 1)) & PRIME == (if e < 0 { 0x3001i32 } else { 0i32 })) by (bit_vector)
        requires -0x3001 <= e < 0x3001, WL == 32usize;
    if e < 0 {
        lemma_fundamental_div_mod_converse(e as int, PRIME as int, -1, e + PRIME);
    } else {
        lemma_small_mod(e as nat, PRIME as nat);
    }
}

/// Congruence is kept by sums.
pub proof fn lemma_cong_add(a: int, b: int, c: int, d: int)
    requires
        cong(a, b),
        cong(c, d),
    ensures
        cong(a + c, b + d),
{
    lemma_add_mod_noop(a, c, PRIME as int);
    lemma_add_mod_noop(b, d, PRIME as int);
}

/// Congruence is kept by differences.
pub proof fn lemma_cong_sub(a: int, b: int, c: int, d: int)
    requires
        cong(a, b),
        cong(c, d),
    ensures
        cong(a - c, b - d),
{
    lemma_sub_mod_noop(a, c, PRIME as int);
    lemma_sub_mod_noop(b, d, PRIME as int);
}

/// Congruence is kept by products.
pub proof fn lemma_cong_mul(a: int, b: int, c: int, d: int)
    requires
        cong(a, b),
        cong(c, d),
    ensures
        cong(a * c, b * d),
{
    lemma_mul_mod_noop_general(a, c, PRIME as int);
    lemma_mul_mod_noop_general(b, d, PRIME as int);
}

/// Adding a multiple of q keeps the residue.
pub proof fn lemma_cong_multiple(a: int, k: int)
    ensures
        cong(a + k * PRIME, a),
{
    lemma_mod_multiples_vanish(k, a, PRIME as int);
    assert(PRIME * k == k * PRIME) by (nonlinear_arith);
}

/// The Montgomery product is the product times R^-1, modulo q.
pub proof fn lemma_modmul_cong(a: int, b: int)
    ensures
        cong(modmul_spec(a, b), a * b * rinv()),
{
    lemma_redc_cong(a * b);
}

/// Montgomery reduction undoes the conversion into Montgomery form: modulo q,
/// redc(nres(x)) is x.
pub proof fn lemma_redc_inverts_nres(x: int)
    ensures
        cong(redc_spec(nres_spec(x)), x),
{
    let ri = rinv();
    lemma_redc_cong(nres_spec(x));
    lemma_redc_cong(x * (R2MODP as int));
    lemma_cong_mul(nres_spec(x), x * (R2MODP as int) * ri, ri, ri);
    assert(x * (R2MODP as int) * ri * ri == x + (x * 64797215) * PRIME) by (nonlinear_arith)
        requires ri == 11857, R2MODP == 5664;
    lemma_cong_multiple(x, x * 64797215);
}


} // verus!
