# nhs

A verified implementation, in Verus, of the NewHope-Simple key exchange over
Z_q[X]/(X^1024 + 1) with q = 12289.

Layout of `src/`:

- `arith.rs`: constants, Montgomery reduction (`redc`, `nres`, `modmul`) with its
  congruence lemmas, rounding and branch-free absolute value.
- `tables.rs`: the root tables of the transforms and the proof that each entry of
  `IROOTS` is the Montgomery inverse of the matching entry of `ROOTS`.
- `ntt.rs`: the forward and inverse number-theoretic transforms, specified stage by
  stage, and the proof that the inverse transform undoes the forward one.
- `poly.rs`: coefficient-wise operations and reductions.
- `ring.rs`: the forward transform as evaluation at the 1024 roots of X^1024 + 1,
  the additivity of the inverse transform, and the proof that the transforms
  multiply polynomials in Z_q[X]/(X^1024 + 1).
- `codec.rs`: 14-bit packing, 3-bit compression, key encoding and decoding, with
  their round-trip and noise-tolerance lemmas.
- `sample.rs`: uniform polynomials from a seed (SHAKE128) and binomial noise.
- `hash.rs`, `random.rs`: the calls into the `sha3` and `rand` crates.
- `nhs.rs`: the three steps `server_1`, `client`, `server_2`, each also available
  with its random bytes given.
- `agreement.rs`: the proof that server and client derive the same shared key
  whenever the error e s' - e' s + e'' of the exchange is small enough.
- `succinct.rs`: conversion of bytes into little-endian 32-bit words.

`app/lib.rs` holds the foreign BLS12-381 addition call, which stays unverified.
