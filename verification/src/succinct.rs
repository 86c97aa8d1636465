//! Conversion of bytes into little-endian 32-bit words.
use vstd::prelude::*;

verus! {

/// The little-endian 32-bit word in bytes 4i, ..., 4i + 3 of `arr`.
pub open spec fn le_word(arr: Seq<u8>, i: int) -> int {
    arr[4 * i] + 0x100 * arr[4 * i + 1] + 0x1_0000 * arr[4 * i + 2] + 0x100_0000 * arr[4 * i + 3]
}

/// Byte j of the little-endian serialisation of the words `res`.
pub open spec fn word_byte(res: Seq<u32>, j: int) -> u8 {
    ((res[j / 4] >> ((8 * (j % 4)) as u32)) & 0xff) as u8
}

/// The four little-endian bytes of a word give back the bytes it was built from.
proof fn lemma_word_bytes(w: u32, b0: u8, b1: u8, b2: u8, b3: u8)
    requires
        w == b0 + 0x100 * b1 + 0x1_0000 * b2 + 0x100_0000 * b3,
    ensures
        ((w >> 0u32) & 0xff) as u8 == b0,
        ((w >> 8u32) & 0xff) as u8 == b1,
        ((w >> 16u32) & 0xff) as u8 == b2,
        ((w >> 24u32) & 0xff) as u8 == b3,
{
    assert(((w >> 0u32) & 0xff) == b0 as u32 && ((w >> 8u32) & 0xff) == b1 as u32 && ((w >> 16u32)
        & 0xff) == b2 as u32 && ((w >> 24u32) & 0xff) == b3 as u32) by (bit_vector)
        requires w == b0 + 0x100 * b1 + 0x1_0000 * b2 + 0x100_0000 * b3;
}

/// Converts a byte vector into little-endian 32-bit words, dropping the last
/// `arr.len() % 4` bytes.
pub fn u8_to_u32(arr: Vec<u8>) -> (res: Vec<u32>)
    ensures
        res@.len() == arr@.len() / 4,
        forall|i: int| 0 <= i < res@.len() ==> #[trigger] res@[i] as int == le_word(arr@, i),
        forall|j: int| 0 <= j < 4 * res@.len() ==> #[trigger] word_byte(res@, j) == arr@[j],
{
    let mut res: Vec<u32> = Vec::new();
    let len = arr.len();
    let n = len / 4;
    for i in 0..n
        invariant
            len == arr@.len(),
            n == arr@.len() / 4,
            res@.len() == i,
            forall|k: int| 0 <= k < i ==> #[trigger] res@[k] as int == le_word(arr@, k),
    {
        let w = (arr[i * 4] as u32) + (arr[i * 4 + 1] as u32) * 0x100 + (arr[i * 4 + 2] as u32)
            * 0x1_0000 + (arr[i * 4 + 3] as u32) * 0x100_0000;
        res.push(w);
    }
    proof {
        assert forall|j: int| 0 <= j < 4 * res@.len() implies #[trigger] word_byte(res@, j)
            == arr@[j] by {
            let i = j / 4;
            assert(0 <= i < res@.len());
            assert(4 * i + 3 < arr@.len());
            lemma_word_bytes(res@[i], arr@[4 * i], arr@[4 * i + 1], arr@[4 * i + 2], arr@[4 * i + 3]);
            assert(j == 4 * i + j % 4);
        }
    }
    res
}

} // verus!
