//! The two hash functions of the scheme: messages to G1 points, and public
//! keys to scalar weights.
use vstd::prelude::*;

use blake2::{Blake2b512, Digest};
use bls12_381::{G1Affine, Scalar};

use crate::group::{g1_generator, g1_in_subgroup, g1_log, g1_mul, g2_encoding, group_order, le_value, scalar_from_wide, scalar_value};
use crate::keys::PublicKey;

verus! {

/// The 64-byte BLAKE2b digest of a byte string.
pub uninterp spec fn blake2b_512(m: Seq<u8>) -> Seq<u8>;

/// Relies on `Blake2b512::digest`: the 64-byte BLAKE2b digest of `m`.
#[verifier::external_body]
fn digest(m: &[u8]) -> (r: [u8; 64])
    ensures
        r@ == blake2b_512(m@),
{
    Blake2b512::digest(m).into()
}

/// The scalar that a digest denotes under wide reduction.
pub open spec fn wide_scalar(d: Seq<u8>) -> nat {
    le_value(d) % group_order()
}

/// The logarithm of the point that a message hashes to: the message's
/// digest, reduced to a scalar, times the generator of G1.
pub open spec fn message_log(m: Seq<u8>) -> nat {
    wide_scalar(blake2b_512(m))
}

/// The weight of the public key whose logarithm is `k`: the digest of its
/// compressed encoding, reduced to a scalar.
pub open spec fn key_weight(k: nat) -> nat {
    wide_scalar(blake2b_512(g2_encoding(k)))
}

/// Hashes a message to a point of G1.
pub fn h0(msg: &[u8]) -> (r: G1Affine)
    ensures
        g1_in_subgroup(r),
        g1_log(r) == message_log(msg@),
{
    let hash = digest(msg);
    let scalar = scalar_from_wide(&hash);
    let g = g1_generator();
    let h = g1_mul(&g, &scalar);
    assert(scalar_value(scalar) % group_order() == scalar_value(scalar)) by {
        vstd::arithmetic::div_mod::lemma_mod_twice(le_value(hash@) as int, group_order() as int);
    }
    h
}

/// Hashes a public key to the scalar that weights it in aggregation.
pub fn h1(pk: &PublicKey) -> (r: Scalar)
    ensures
        scalar_value(r) == key_weight(pk@),
{
    let bytes = pk.to_bytes();
    let hash = digest(&bytes);
    scalar_from_wide(&hash)
}

/// Hashing the same message twice gives the same point, and hashing the
/// same key twice gives the same weight.
pub proof fn lemma_hashes_deterministic(
    m: Seq<u8>,
    a: G1Affine,
    b: G1Affine,
    pk: PublicKey,
    s: Scalar,
    t: Scalar,
)
    requires
        g1_log(a) == message_log(m),
        g1_log(b) == message_log(m),
        scalar_value(s) == key_weight(pk@),
        scalar_value(t) == key_weight(pk@),
    ensures
        g1_log(a) == g1_log(b),
        scalar_value(s) == scalar_value(t),
{
}

} // verus!
