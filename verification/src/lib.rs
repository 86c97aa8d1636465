//! NewHope-Simple key exchange over the ring Z_q[X]/(X^1024 + 1), q = 12289,
//! with the number-theoretic transform in Montgomery arithmetic, the byte
//! encodings of its messages, and a byte-to-word conversion.
pub mod agreement;
pub mod arith;
pub mod codec;
pub mod hash;
pub mod nhs;
pub mod ntt;
pub mod poly;
pub mod random;
pub mod ring;
pub mod sample;
pub mod succinct;
pub mod tables;

pub use nhs::{client, server_1, server_2};
pub use succinct::u8_to_u32;
