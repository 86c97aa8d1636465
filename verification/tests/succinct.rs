use nhs::u8_to_u32;

#[test]
fn u8_to_u32_little_endian() {
    let v = u8_to_u32(vec![1, 2, 3, 4, 0xff, 0, 0, 0x80, 9]);
    assert_eq!(v, vec![0x04030201, 0x800000ff]);
}

#[test]
fn u8_to_u32_short_input() {
    assert_eq!(u8_to_u32(vec![1, 2, 3]), Vec::<u32>::new());
    assert_eq!(u8_to_u32(vec![]), Vec::<u32>::new());
}

#[test]
fn u8_to_u32_words_serialise_back() {
    let arr: Vec<u8> = (0..23u32).map(|i| (i * 37 + 200) as u8).collect();
    let words = u8_to_u32(arr.clone());
    let back: Vec<u8> = words.iter().flat_map(|w| w.to_le_bytes()).collect();
    assert_eq!(back[..], arr[..20]);
}
