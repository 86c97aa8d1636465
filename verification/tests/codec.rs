use nhs::arith::{DEGREE, PRIME};
use nhs::codec::{compress, decode, decompress, encode, nhs_pack, nhs_unpack};
use nhs::poly::poly_soft_reduce;
use nhs::sample::{error, parse, parse_hash};

fn sample_key() -> [u8; 32] {
    let mut k = [0u8; 32];
    for i in 0..32 {
        k[i] = (i as u8).wrapping_mul(37).wrapping_add(11);
    }
    k
}

#[test]
fn unpack_inverts_pack() {
    let mut p = [0i32; DEGREE];
    for i in 0..DEGREE {
        p[i] = ((i * 977) % 16384) as i32;
    }
    let mut arr = [0u8; 1792];
    nhs_pack(&p, &mut arr);
    let mut q = [0i32; DEGREE];
    nhs_unpack(&arr, &mut q);
    assert_eq!(p.to_vec(), q.to_vec());
}

#[test]
fn pack_inverts_unpack() {
    let mut arr = [0u8; 1792];
    for i in 0..1792 {
        arr[i] = (i * 89 + 3) as u8;
    }
    let mut p = [0i32; DEGREE];
    nhs_unpack(&arr, &mut p);
    assert!(p.iter().all(|&v| (0..16384).contains(&v)));
    let mut back = [0u8; 1792];
    nhs_pack(&p, &mut back);
    assert_eq!(arr.to_vec(), back.to_vec());
}

#[test]
fn pack_exact_bytes() {
    let mut p = [0i32; DEGREE];
    p[0] = 0x3fff;
    p[1] = 1;
    p[2] = 0x2000;
    p[3] = 0x0155;
    let mut arr = [0u8; 1792];
    nhs_pack(&p, &mut arr);
    assert_eq!(&arr[..7], &[0xff, 0x7f, 0x00, 0x00, 0x00, 0x56, 0x05]);
}

#[test]
fn compress_inverts_decompress() {
    let mut arr = [0u8; 384];
    for i in 0..384 {
        arr[i] = (i * 151 + 29) as u8;
    }
    let mut p = [0i32; DEGREE];
    decompress(&arr, &mut p);
    let mut back = [0u8; 384];
    compress(&p, &mut back);
    assert_eq!(arr.to_vec(), back.to_vec());
}

#[test]
fn decompress_exact_values() {
    let mut arr = [0u8; 384];
    arr[0] = 0xff;
    arr[1] = 0xff;
    arr[2] = 0xff;
    let mut p = [0i32; DEGREE];
    decompress(&arr, &mut p);
    assert_eq!(p[0], 10753);
    assert_eq!(p[7], 10753);
    assert_eq!(p[8], 0);
}

#[test]
fn compress_is_close_to_input() {
    let mut p = [0i32; DEGREE];
    for i in 0..DEGREE {
        p[i] = ((i * 12) % PRIME as usize) as i32;
    }
    let mut arr = [0u8; 384];
    compress(&p, &mut arr);
    let mut back = [0i32; DEGREE];
    decompress(&arr, &mut back);
    for i in 0..DEGREE {
        let d = (back[i] - p[i]).rem_euclid(PRIME);
        let d = d.min(PRIME - d);
        assert!(d <= PRIME / 16 + 1);
    }
}

#[test]
fn decode_inverts_encode() {
    let key = sample_key();
    let mut p = [0i32; DEGREE];
    encode(&key, &mut p);
    assert!(p.iter().all(|&v| v == 0 || v == PRIME / 2));
    let mut out = [0u8; 32];
    decode(&p, &mut out);
    assert_eq!(out, key);
}

#[test]
fn decode_tolerates_small_noise() {
    let key = sample_key();
    let mut p = [0i32; DEGREE];
    encode(&key, &mut p);
    for i in 0..DEGREE {
        // noise of magnitude at most 3000 per coefficient, made nonnegative by adding q
        let e = ((i * 7919) % 6001) as i32 - 3000;
        p[i] = p[i] + e + PRIME;
        if p[i] >= 2 * PRIME {
            p[i] -= PRIME;
        }
    }
    poly_soft_reduce(&mut p);
    let mut out = [0u8; 32];
    decode(&p, &mut out);
    assert_eq!(out, key);
}

#[test]
fn decode_of_zero_is_zero_key() {
    let p = [0i32; DEGREE];
    let mut out = [0xaau8; 33];
    decode(&p, &mut out);
    assert_eq!(&out[..32], &[0u8; 32]);
    assert_eq!(out[32], 0xaa);
}

#[test]
fn error_is_centered_binomial() {
    let mut noise = vec![0u8; 4 * DEGREE];
    noise[0] = 0xff;
    noise[1] = 0xff;
    noise[6] = 0x0f;
    let mut p = [0i32; DEGREE];
    error(&noise, &mut p);
    assert_eq!(p[0], PRIME + 16);
    assert_eq!(p[1], PRIME - 4);
    assert_eq!(p[2], PRIME);
}

fn pattern(s: u64, n: usize) -> Vec<u8> {
    (0..n as u64).map(|i| (((i * i * 7 + i * 31 + s * 101) >> 3) % 256) as u8).collect()
}

#[test]
fn parse_uses_shake128_stream() {
    let seed = pattern(1, 32);
    let mut p = [0i32; DEGREE];
    parse(&seed, &mut p);
    assert_eq!(&p[..4], &[4914, 11706, 3259, 3442]);
    assert_eq!(&p[1020..], &[2260, 6160, 12842, 13412]);
}

#[test]
fn parse_hash_exact_values() {
    let mut h = vec![0u8; 4 * DEGREE];
    h[0] = 0x80;
    h[3] = 5;
    h[7] = 1;
    let mut p = [0i32; DEGREE];
    parse_hash(&h, &mut p);
    assert_eq!(p[0], nhs::arith::nres(5));
    assert_eq!(p[1], nhs::arith::nres(1));
}

#[test]
fn compress_sees_only_residues() {
    let mut p = [0i32; DEGREE];
    let mut p2 = [0i32; DEGREE];
    for i in 0..DEGREE {
        p[i] = ((i * 97 + 5) % PRIME as usize) as i32;
        p2[i] = p[i] + ((i as i32) % 10_000) * PRIME;
    }
    p2[3] = p[3] + 20_000 * PRIME;
    assert!(p2[3] > 1 << 27);
    let mut a = [0u8; 384];
    let mut a2 = [0u8; 384];
    compress(&p, &mut a);
    compress(&p2, &mut a2);
    assert_eq!(a[..], a2[..]);
}
