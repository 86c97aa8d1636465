//! The SHA-3 family functions that the key exchange uses, from the `sha3` crate.
use vstd::prelude::*;

verus! {

/// The first `len` bytes of the SHAKE128 extendable output on `data`.
pub uninterp spec fn shake128_spec(data: Seq<u8>, len: nat) -> Seq<u8>;

/// The SHA3-256 digest of `data`.
pub uninterp spec fn sha3_256_spec(data: Seq<u8>) -> Seq<u8>;

/// Calls `ExtendableOutput::digest_xof` of `sha3::Shake128` on `data`, which writes
/// the first `out_len` bytes of the SHAKE128 output into a buffer of that length.
/// Claimed: the result is `shake128_spec` of the input bytes and the length, and has
/// `out_len` bytes.
#[verifier::external_body]
pub(crate) fn shake128(data: &[u8], out_len: usize) -> (out: Vec<u8>)
    ensures
        out@ == shake128_spec(data@, out_len as nat),
        out@.len() == out_len,
{
    let mut out = vec![0u8; out_len];
    <sha3::Shake128 as sha3::digest::ExtendableOutput>::digest_xof(data, &mut out);
    out
}

/// Calls `Digest::digest` of `sha3::Sha3_256` on `data`. Claimed: the result is
/// `sha3_256_spec` of the input bytes and has the 32 bytes of a SHA3-256 digest.
#[verifier::external_body]
pub(crate) fn sha3_256(data: &[u8]) -> (out: Vec<u8>)
    ensures
        out@ == sha3_256_spec(data@),
        out@.len() == 32,
{
    <sha3::Sha3_256 as sha3::Digest>::digest(data).to_vec()
}

} // verus!
