//! Random bytes from the `rand` crate's standard generator.
use vstd::prelude::*;
use rand::rngs::StdRng;

verus! {

/// The standard random number generator of the `rand` crate.
#[verifier::external_type_specification]
#[verifier::external_body]
pub struct ExStdRng(StdRng);

/// Calls `RngCore::fill_bytes` of `rng` on a buffer of `n` bytes. Claimed: the
/// result has `n` bytes. What the bytes are depends on the generator's state and is
/// left unsaid.
#[verifier::external_body]
pub(crate) fn random_bytes(rng: &mut StdRng, n: usize) -> (out: Vec<u8>)
    ensures
        out@.len() == n,
{
    let mut out = vec![0u8; n];
    rand::RngCore::fill_bytes(rng, &mut out);
    out
}

} // verus!
