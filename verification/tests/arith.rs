use nhs::arith::{modmul, nabs, nres, redc, round, ONE, PRIME, R2MODP};

#[test]
fn redc_exact_value() {
    assert_eq!(redc(12345678), 7081);
    assert_eq!(redc(0), 0);
}

#[test]
fn redc_of_montgomery_form_gives_back_value() {
    let y = redc(3);
    let z = redc((y as u64) * R2MODP);
    assert_eq!(z, 3);
}

#[test]
fn redc_multiplies_by_inverse_radix() {
    // redc(t) * 2^32 ≡ t (mod q)
    for t in [1u64, 2, 12288, 99999, 1 << 40, (1u64 << 62) - 1] {
        let r = redc(t) as u128;
        assert_eq!((r << 32) % (PRIME as u128), (t as u128) % (PRIME as u128));
    }
}

#[test]
fn nres_exact_value() {
    assert_eq!(nres(5), 5604);
    // nres(x) ≡ x R (mod q)
    assert_eq!((nres(5) as i64) % (PRIME as i64), (5 * (ONE as i64)) % (PRIME as i64));
}

#[test]
fn modmul_exact_value() {
    assert_eq!(modmul(100, 200), 11456);
    assert_eq!(modmul(7, ONE) % PRIME, 7);
}

#[test]
fn round_rounds_to_nearest() {
    assert_eq!(round(8 * 5000, PRIME), 3);
    assert_eq!(round(3 * PRIME, 8), 4608);
    assert_eq!(round(7, 2), 4);
    assert_eq!(round(-7, 2), -3);
}

#[test]
fn nabs_is_absolute_value() {
    assert_eq!(nabs(-5), 5);
    assert_eq!(nabs(5), 5);
    assert_eq!(nabs(0), 0);
    assert_eq!(nabs(i32::MAX), i32::MAX);
    assert_eq!(nabs(i32::MIN + 1), i32::MAX);
}
