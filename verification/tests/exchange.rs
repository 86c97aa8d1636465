use nhs::nhs::{client_from_bytes, server_1_from_bytes};
use nhs::{client, server_1, server_2};
use rand::SeedableRng;

fn pattern(s: u64, n: usize) -> Vec<u8> {
    (0..n as u64).map(|i| (((i * i * 7 + i * 31 + s * 101) >> 3) % 256) as u8).collect()
}

#[test]
fn key_exchange_from_given_bytes() {
    let mut sb = vec![0u8; 1824];
    let mut ss = vec![0u8; 1792];
    server_1_from_bytes(&pattern(1, 32), &pattern(2, 4096), &pattern(3, 4096), &mut sb, &mut ss);
    assert_eq!(&sb[..32], &pattern(1, 32)[..]);
    assert_eq!(&sb[32..48], &[78, 34, 81, 203, 125, 112, 159, 13, 205, 38, 122, 245, 226, 118, 157, 1]);
    assert_eq!(&sb[1808..], &[188, 29, 217, 209, 50, 72, 228, 126, 159, 54, 128, 164, 4, 160, 62, 60]);
    assert_eq!(&ss[..16], &[123, 92, 44, 192, 217, 65, 90, 216, 30, 16, 82, 250, 212, 76, 45, 130]);

    let mut uc = vec![0u8; 2176];
    let mut ckey = vec![0u8; 32];
    client_from_bytes(
        &pattern(4, 4096),
        &pattern(5, 4096),
        &pattern(6, 32),
        &pattern(7, 4096),
        &sb,
        &mut uc,
        &mut ckey,
    );
    assert_eq!(&uc[..16], &[108, 222, 135, 105, 57, 200, 40, 149, 160, 179, 134, 164, 41, 180, 73, 7]);
    assert_eq!(&uc[1792..1808], &[33, 2, 16, 3, 26, 138, 242, 232, 57, 142, 209, 47, 183, 152, 49, 28]);
    let expected_key = [
        81u8, 64, 52, 39, 32, 239, 42, 153, 235, 0, 209, 31, 42, 163, 185, 186, 148, 166, 7, 26, 217,
        225, 226, 250, 228, 151, 212, 104, 40, 197, 234, 66,
    ];
    assert_eq!(&ckey[..], &expected_key[..]);

    let mut skey = vec![0u8; 32];
    server_2(&ss, &uc, &mut skey);
    assert_eq!(skey, ckey);
}

#[test]
fn key_exchange_with_random_generator() {
    let mut rng = rand::rngs::StdRng::seed_from_u64(2024);
    let mut sb = [0u8; 1824];
    let mut ss = [0u8; 1792];
    server_1(&mut rng, &mut sb, &mut ss);
    let mut uc = [0u8; 2176];
    let mut ckey = [0u8; 32];
    client(&mut rng, &sb, &mut uc, &mut ckey);
    let mut skey = [0u8; 32];
    server_2(&ss, &uc, &mut skey);
    assert_eq!(ckey, skey);
}

#[test]
fn outputs_beyond_messages_are_untouched() {
    let mut sb = vec![0x5au8; 1830];
    let mut ss = vec![0x5au8; 1800];
    server_1_from_bytes(&pattern(1, 32), &pattern(2, 4096), &pattern(3, 4096), &mut sb, &mut ss);
    assert!(sb[1824..].iter().all(|&b| b == 0x5a));
    assert!(ss[1792..].iter().all(|&b| b == 0x5a));
}

#[test]
fn key_agreement_without_noise() {
    let zeros = vec![0u8; 4096];
    let mut sb = vec![0u8; 1824];
    let mut ss = vec![0u8; 1792];
    server_1_from_bytes(&pattern(9, 32), &zeros, &zeros, &mut sb, &mut ss);
    let mut uc = vec![0u8; 2176];
    let mut ckey = vec![0u8; 32];
    client_from_bytes(&zeros, &zeros, &pattern(10, 32), &zeros, &sb, &mut uc, &mut ckey);
    let mut skey = vec![0u8; 32];
    server_2(&ss, &uc, &mut skey);
    assert_eq!(skey, ckey);
}

#[test]
fn shared_keys_leave_the_rest_of_the_buffer() {
    let mut sb = vec![0u8; 1824];
    let mut ss = vec![0u8; 1792];
    server_1_from_bytes(&pattern(1, 32), &pattern(2, 4096), &pattern(3, 4096), &mut sb, &mut ss);
    let mut uc = vec![0u8; 2176];
    let mut ckey = vec![0x77u8; 40];
    client_from_bytes(
        &pattern(4, 4096),
        &pattern(5, 4096),
        &pattern(6, 32),
        &pattern(7, 4096),
        &sb,
        &mut uc,
        &mut ckey,
    );
    let mut skey = vec![0x33u8; 40];
    server_2(&ss, &uc, &mut skey);
    assert_eq!(ckey[..32], skey[..32]);
    assert!(ckey[32..].iter().all(|&b| b == 0x77));
    assert!(skey[32..].iter().all(|&b| b == 0x33));
}
