use nhs::arith::{DEGREE, ONE, PRIME};
use nhs::ntt::{intt, ntt};
use nhs::poly::{
    nres_it, poly_add, poly_hard_reduce, poly_mul, poly_rsub, poly_soft_reduce, redc_it,
};

#[test]
fn intt_inverts_ntt_on_reduced_input() {
    let mut a = [0i32; DEGREE];
    for i in 0..DEGREE {
        a[i] = i as i32;
    }
    ntt(&mut a);
    for i in 0..DEGREE {
        assert!(a[i] >= 0 && a[i] <= 2832 + 21 * PRIME);
    }
    poly_hard_reduce(&mut a);
    intt(&mut a);
    assert_eq!(a[7], 7);
    for i in 0..DEGREE {
        assert_eq!(a[i], i as i32);
    }
}

#[test]
fn intt_inverts_ntt_modulo_q() {
    let mut a = [0i32; DEGREE];
    for i in 0..DEGREE {
        a[i] = (i as i32) * 40_000 + 17;
    }
    let orig = a;
    ntt(&mut a);
    poly_hard_reduce(&mut a);
    intt(&mut a);
    for i in 0..DEGREE {
        assert_eq!(a[i], orig[i] % PRIME);
    }
}

#[test]
fn ntt_of_zero_is_zero() {
    let mut a = [0i32; DEGREE];
    ntt(&mut a);
    poly_hard_reduce(&mut a);
    assert!(a.iter().all(|&v| v == 0));
}

#[test]
fn transforms_leave_tail_unchanged() {
    let mut a = vec![1i32; DEGREE + 3];
    a[DEGREE] = -5;
    ntt(&mut a);
    assert_eq!(a[DEGREE], -5);
    poly_hard_reduce(&mut a);
    intt(&mut a);
    assert_eq!(a[DEGREE], -5);
    assert_eq!(a[0], 1);
}

#[test]
fn hard_reduce_keeps_residues() {
    let mut p = [0i32; DEGREE];
    p[0] = ONE;
    p[1] = 2 * PRIME + 5;
    p[2] = 123_456_789;
    poly_hard_reduce(&mut p);
    assert_eq!(p[0], ONE);
    assert_eq!(p[1], 5);
    assert_eq!(p[2], 123_456_789 % PRIME);
}

#[test]
fn soft_reduce_reduces_below_2q() {
    let mut p = [0i32; DEGREE];
    p[0] = PRIME;
    p[1] = 2 * PRIME - 1;
    p[2] = 42;
    poly_soft_reduce(&mut p);
    assert_eq!(p[0], 0);
    assert_eq!(p[1], PRIME - 1);
    assert_eq!(p[2], 42);
}

#[test]
fn nres_then_redc_gives_back_value() {
    let mut p = [0i32; DEGREE];
    for i in 0..DEGREE {
        p[i] = (i as i32) * 11;
    }
    nres_it(&mut p);
    redc_it(&mut p);
    for i in 0..DEGREE {
        assert_eq!(p[i] % PRIME, ((i as i32) * 11) % PRIME);
    }
}

#[test]
fn pointwise_operations() {
    let mut a = [3i32; DEGREE];
    let b = [4i32; DEGREE];
    poly_add(&mut a, &b);
    assert_eq!(a[0], 7);
    poly_rsub(&mut a, &b);
    assert_eq!(a[5], 4 + PRIME - 7);
    let mut c = [ONE; DEGREE];
    let d = [9i32; DEGREE];
    poly_mul(&mut c, &d);
    assert_eq!(c[100] % PRIME, 9);
}
