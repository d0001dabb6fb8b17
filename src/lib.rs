//! BLS signatures over BLS12-381 with rogue-key resistant key weighting.
//!
//! Messages and signatures live in G1, public keys in G2. Points and
//! scalars are modelled by their discrete logarithms and values modulo the
//! prime group order, so that the verification equation and the weighting
//! of keys can be stated and proved as arithmetic facts.
pub mod group;
pub mod hash;
pub mod keys;

pub use hash::{h0, h1};
pub use keys::{Error, PublicKey, SecretKey, Signature};

