use nhs::arith::{DEGREE, ONE, PRIME};
use nhs::ntt::{intt, ntt};
use nhs::poly::{poly_add, poly_hard_reduce, poly_mul};

fn negacyclic(a: &[i32], b: &[i32]) -> Vec<i32> {
    let q = PRIME as i64;
    let mut c = vec![0i64; DEGREE];
    for i in 0..DEGREE {
        for j in 0..DEGREE {
            let t = (a[i] as i64) * (b[j] as i64);
            if i + j < DEGREE {
                c[i + j] += t;
            } else {
                c[i + j - DEGREE] -= t;
            }
        }
    }
    c.iter().map(|&x| (((x % q) + q) % q) as i32).collect()
}

fn multiply_by_transforms(a: &[i32], b: &[i32]) -> Vec<i32> {
    let mut fa = a.to_vec();
    let mut fb = b.to_vec();
    ntt(&mut fa);
    ntt(&mut fb);
    poly_mul(&mut fa, &fb);
    poly_hard_reduce(&mut fa);
    intt(&mut fa);
    fa
}

#[test]
fn transforms_multiply_in_the_ring() {
    let a: Vec<i32> = (0..DEGREE).map(|i| ((i * 37 + 11) % 97) as i32).collect();
    let b: Vec<i32> = (0..DEGREE).map(|i| ((i * i * 5 + 3) % 23) as i32).collect();
    assert_eq!(multiply_by_transforms(&a, &b), negacyclic(&a, &b));
}

#[test]
fn x_times_x_to_the_1023_is_minus_one() {
    let mut a = vec![0i32; DEGREE];
    let mut b = vec![0i32; DEGREE];
    a[1] = 1;
    b[DEGREE - 1] = 1;
    let c = multiply_by_transforms(&a, &b);
    assert_eq!(c[0], PRIME - 1);
    assert!(c[1..].iter().all(|&v| v == 0));
}

#[test]
fn ntt_of_one_is_r_at_every_root() {
    let mut a = vec![0i32; DEGREE];
    a[0] = 1;
    ntt(&mut a);
    poly_hard_reduce(&mut a);
    assert!(a.iter().all(|&v| v == ONE));
}

#[test]
fn inverse_transform_is_additive() {
    let x: Vec<i32> = (0..DEGREE).map(|i| ((i * 131 + 7) % 12289) as i32).collect();
    let y: Vec<i32> = (0..DEGREE).map(|i| ((i * i * 17 + 5) % 12289) as i32).collect();
    let mut sum = x.clone();
    poly_add(&mut sum, &y);
    let mut ix = x.clone();
    let mut iy = y.clone();
    intt(&mut ix);
    intt(&mut iy);
    intt(&mut sum);
    for j in 0..DEGREE {
        assert_eq!(sum[j], (ix[j] + iy[j]) % PRIME);
    }
}

#[test]
fn transforms_multiply_without_reduction() {
    let a: Vec<i32> = (0..DEGREE).map(|i| ((i * 7919 + 3) % 12289) as i32).collect();
    let b: Vec<i32> = (0..DEGREE).map(|i| ((i * i * 31 + 17) % 12289) as i32).collect();
    let mut fa = a.clone();
    let mut fb = b.clone();
    ntt(&mut fa);
    ntt(&mut fb);
    poly_mul(&mut fa, &fb);
    intt(&mut fa);
    assert_eq!(fa, negacyclic(&a, &b));
}
