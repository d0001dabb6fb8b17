//! The pairing groups of BLS12-381 and the calls into them.
//!
//! The curve of G1 and the curve of G2 hold points outside the prime-order
//! subgroups too, so membership is a predicate of its own: the generators,
//! the group operations on members and the checked decoder give members,
//! and the encoder and the pairing are only called on members. A member is
//! modelled by its discrete logarithm to the base of the group's fixed
//! generator, an integer below the order. Pairing values of members are
//! modelled the same way, to the base of the pairing of the two generators.
use vstd::prelude::*;

use bls12_381::{G1Affine, G2Affine, G2Projective, G1Projective, Gt, Scalar};

verus! {

/// The prime order of G1, G2, Gt and of the scalar field.
pub open spec fn group_order() -> nat {
    0x73eda753299d7d483339d80809a1d80553bda402fffe5bfeffffffff00000001nat
}

/// The number that a little-endian byte string denotes.
pub open spec fn le_value(b: Seq<u8>) -> nat
    decreases b.len(),
{
    if b.len() == 0 {
        0
    } else {
        b[0] as nat + 256 * le_value(b.drop_first())
    }
}

#[verifier::external_type_specification]
#[verifier::external_body]
pub struct ExScalar(Scalar);

#[verifier::external_type_specification]
#[verifier::external_body]
pub struct ExG1Affine(G1Affine);

#[verifier::external_type_specification]
#[verifier::external_body]
pub struct ExG2Affine(G2Affine);

#[verifier::external_type_specification]
#[verifier::external_body]
pub struct ExGt(Gt);

/// The canonical value of a scalar, below `group_order()`.
pub uninterp spec fn scalar_value(s: Scalar) -> nat;

/// Whether a G1 point lies in the prime-order subgroup of its curve.
pub uninterp spec fn g1_in_subgroup(p: G1Affine) -> bool;

/// Whether a G2 point lies in the prime-order subgroup of its curve.
pub uninterp spec fn g2_in_subgroup(p: G2Affine) -> bool;

/// Whether a pairing value lies in the prime-order subgroup Gt.
pub uninterp spec fn gt_in_subgroup(v: Gt) -> bool;

/// The discrete logarithm of a member of G1's subgroup to the base `G1Affine::generator()`.
pub uninterp spec fn g1_log(p: G1Affine) -> nat;

/// The discrete logarithm of a member of G2's subgroup to the base `G2Affine::generator()`.
pub uninterp spec fn g2_log(p: G2Affine) -> nat;

/// The discrete logarithm of a member of Gt to the base of the pairing of
/// the two generators.
pub uninterp spec fn gt_log(v: Gt) -> nat;

/// The 96-byte compressed encoding of the G2 point whose logarithm is `k`.
pub uninterp spec fn g2_encoding(k: nat) -> Seq<u8>;

/// The compressed encoding of the identity: the compression and infinity
/// flags set in the first byte, every other bit clear.
pub open spec fn identity_encoding() -> Seq<u8> {
    Seq::new(96, |i: int| if i == 0 { 0xc0u8 } else { 0u8 })
}

/// Relies on `Scalar::from_bytes_wide`: the 512-bit little-endian integer
/// reduced by the modulus.
#[verifier::external_body]
pub(crate) fn scalar_from_wide(bytes: &[u8; 64]) -> (r: Scalar)
    ensures
        scalar_value(r) == le_value(bytes@) % group_order(),
{
    Scalar::from_bytes_wide(bytes)
}

/// Relies on `G1Affine::generator`: the fixed generator of G1.
#[verifier::external_body]
pub(crate) fn g1_generator() -> (r: G1Affine)
    ensures
        g1_in_subgroup(r),
        g1_log(r) == 1,
{
    G1Affine::generator()
}

/// Relies on `G2Affine::generator`: the fixed generator of G2.
#[verifier::external_body]
pub(crate) fn g2_generator() -> (r: G2Affine)
    ensures
        g2_in_subgroup(r),
        g2_log(r) == 1,
{
    G2Affine::generator()
}

/// Relies on `&G1Affine * &Scalar` and `G1Affine::from(G1Projective)`:
/// scalar multiplication keeps a member in the subgroup and multiplies its
/// logarithm by the scalar.
#[verifier::external_body]
pub(crate) fn g1_mul(p: &G1Affine, k: &Scalar) -> (r: G1Affine)
    requires
        g1_in_subgroup(*p),
    ensures
        g1_in_subgroup(r),
        g1_log(r) == (g1_log(*p) * scalar_value(*k)) % group_order(),
{
    let q: G1Projective = p * k;
    G1Affine::from(q)
}

/// Relies on `&G2Affine * &Scalar` and `G2Affine::from(G2Projective)`:
/// scalar multiplication keeps a member in the subgroup and multiplies its
/// logarithm by the scalar.
#[verifier::external_body]
pub(crate) fn g2_mul(p: &G2Affine, k: &Scalar) -> (r: G2Affine)
    requires
        g2_in_subgroup(*p),
    ensures
        g2_in_subgroup(r),
        g2_log(r) == (g2_log(*p) * scalar_value(*k)) % group_order(),
{
    let q: G2Projective = p * k;
    G2Affine::from(q)
}

/// Relies on `bls12_381::pairing`: on members of the prime-order subgroups
/// the pairing lands in Gt, is bilinear and maps the two generators to the
/// generator of Gt.
#[verifier::external_body]
pub(crate) fn pair(p: &G1Affine, q: &G2Affine) -> (r: Gt)
    requires
        g1_in_subgroup(*p),
        g2_in_subgroup(*q),
    ensures
        gt_in_subgroup(r),
        gt_log(r) == (g1_log(*p) * g2_log(*q)) % group_order(),
{
    bls12_381::pairing(p, q)
}

/// Relies on `Gt::eq`: two values of the prime-order group Gt are equal
/// exactly when their logarithms are.
#[verifier::external_body]
pub(crate) fn gt_equal(a: &Gt, b: &Gt) -> (r: bool)
    requires
        gt_in_subgroup(*a),
        gt_in_subgroup(*b),
    ensures
        r == (gt_log(*a) % group_order() == gt_log(*b) % group_order()),
{
    a == b
}

/// Relies on `G2Affine::to_compressed`: the compressed encoding of a member
/// of the subgroup. The compression flag (the top bit) is always set; the
/// infinity flag (the next bit) is set only for the identity, whose
/// encoding has no other bit set.
#[verifier::external_body]
pub(crate) fn g2_to_compressed(p: &G2Affine) -> (r: [u8; 96])
    requires
        g2_in_subgroup(*p),
    ensures
        r@ == g2_encoding(g2_log(*p) % group_order()),
        r@[0] & 0x80u8 == 0x80u8,
        (r@[0] & 0x40u8 == 0x40u8) <==> g2_log(*p) % group_order() == 0,
        g2_log(*p) % group_order() == 0 ==> r@ == identity_encoding(),
{
    p.to_compressed()
}

/// Relies on `G2Affine::from_compressed`: it accepts exactly the compressed
/// encodings of points of the prime-order subgroup, and returns the point
/// that was encoded. A buffer without the compression flag is refused.
#[verifier::external_body]
pub(crate) fn g2_from_compressed(bytes: &[u8; 96]) -> (r: Option<G2Affine>)
    ensures
        bytes@[0] & 0x80u8 == 0u8 ==> r is None,
        r is None <==> (forall|k: nat| k < group_order() ==> g2_encoding(k) != bytes@),
        r matches Some(p) ==> g2_in_subgroup(p) && g2_log(p) < group_order() && (forall|k: nat|
            k < group_order() && g2_encoding(k) == bytes@ ==> g2_log(p) == k),
{
    Option::from(G2Affine::from_compressed(bytes))
}

} // verus!
