//! Secret keys, signatures and public keys, with verification and the
//! weighting of keys for aggregation.
use vstd::prelude::*;

use bls12_381::{G1Affine, G2Affine, Scalar};

use crate::group::{
    g1_log, g1_mul, g2_encoding, g2_from_compressed, g2_generator, g2_log, g2_mul,
    g2_to_compressed, group_order, gt_equal, gt_log, pair, scalar_value, g1_in_subgroup,
    g2_in_subgroup, identity_encoding, le_value, scalar_from_wide,
};
use crate::hash::{h0, h1, key_weight, message_log};

verus! {

/// What can go wrong when checking a signature or reading a key.
#[derive(Copy, Clone, Debug, PartialEq, Eq, Structural)]
pub enum Error {
    /// The pairing equation of a signature did not hold.
    InvalidSignature,
    /// A byte buffer did not encode a point of the prime-order subgroup.
    InvalidBytes,
}

/// A secret key: a scalar.
#[derive(Copy, Clone, Debug)]
pub struct SecretKey(pub(crate) Scalar);

/// A signature: a G1 point, the message's hash times the secret key.
#[derive(Copy, Clone, Debug)]
pub struct Signature(G1Affine);

/// A public key: a G2 point, the generator of G2 times the secret key.
#[derive(Copy, Clone, Debug, Eq, PartialEq)]
pub struct PublicKey(G2Affine);

impl Signature {
    /// The point lies in the prime-order subgroup of G1.
    #[verifier::type_invariant]
    spec fn in_subgroup(self) -> bool {
        g1_in_subgroup(self.0)
    }
}

impl PublicKey {
    /// The point lies in the prime-order subgroup of G2.
    #[verifier::type_invariant]
    spec fn in_subgroup(self) -> bool {
        g2_in_subgroup(self.0)
    }
}

/// The number that a string of zero bytes denotes is zero.
proof fn lemma_le_value_zeros(b: Seq<u8>)
    requires
        forall|i: int| 0 <= i < b.len() ==> b[i] == 0,
    ensures
        le_value(b) == 0,
    decreases b.len(),
{
    if b.len() > 0 {
        lemma_le_value_zeros(b.drop_first());
    }
}

impl Default for PublicKey {
    /// The identity of G2: the generator times zero.
    fn default() -> (r: PublicKey)
        ensures
            r@ == 0,
    {
        let zeros: [u8; 64] = [0u8; 64];
        proof {
            lemma_le_value_zeros(zeros@);
        }
        let zero = scalar_from_wide(&zeros);
        let g = g2_generator();
        PublicKey(g2_mul(&g, &zero))
    }
}

impl From<&SecretKey> for PublicKey {
    /// The public key of a secret key; see `PublicKey::from_secret_key`.
    fn from(sk: &SecretKey) -> (r: PublicKey)
        ensures
            r@ == sk@,
    {
        PublicKey::from_secret_key(sk)
    }
}

impl vstd::std_specs::convert::FromSpecImpl<&SecretKey> for PublicKey {
    open spec fn obeys_from_spec() -> bool {
        false
    }

    open spec fn from_spec(sk: &SecretKey) -> PublicKey {
        choose|pk: PublicKey| pk@ == sk@
    }
}

impl View for SecretKey {
    type V = nat;

    closed spec fn view(&self) -> nat {
        scalar_value(self.0) % group_order()
    }
}

impl View for Signature {
    type V = nat;

    closed spec fn view(&self) -> nat {
        g1_log(self.0) % group_order()
    }
}

impl View for PublicKey {
    type V = nat;

    closed spec fn view(&self) -> nat {
        g2_log(self.0) % group_order()
    }
}

/// Whether `sig` is a valid signature on `m` under the public key `pk`:
/// `e(sig, g2) == e(h0(m), pk)`, which in logarithms reads
/// `sig == h0(m) * pk` modulo the group order.
pub open spec fn verifies(pk: nat, sig: nat, m: Seq<u8>) -> bool {
    sig == (message_log(m) * pk) % group_order()
}

/// The signature on `m` under the secret key `sk`: `h0(m) * sk`.
pub open spec fn signed(sk: nat, m: Seq<u8>) -> nat {
    (message_log(m) * sk) % group_order()
}

/// Whether `b` is the compressed encoding of the G2 point whose logarithm
/// is `k`.
pub open spec fn encodes(b: Seq<u8>, k: nat) -> bool {
    k < group_order() && g2_encoding(k) == b
}

/// What reading a public key from `b` may return: the key that `b` encodes,
/// or `InvalidBytes` exactly when `b` encodes none.
pub open spec fn decoded(b: Seq<u8>, r: Result<PublicKey, Error>) -> bool {
    &&& r is Err <==> !(exists|k: nat| encodes(b, k))
    &&& r matches Err(e) ==> e == Error::InvalidBytes
    &&& r matches Ok(pk) ==> encodes(b, pk@) && (forall|k: nat| encodes(b, k) ==> pk@ == k)
}

proof fn lemma_mul_mod(a: nat, b: nat)
    ensures
        (a * b) % group_order() == ((a % group_order()) * (b % group_order())) % group_order(),
{
    vstd::arithmetic::div_mod::lemma_mul_mod_noop(a as int, b as int, group_order() as int);
}

impl SecretKey {
    /// Makes a secret key of a scalar.
    pub fn from_scalar(s: Scalar) -> (r: SecretKey)
        ensures
            r@ == scalar_value(s) % group_order(),
    {
        SecretKey(s)
    }

    /// Signs a message: the message's hash times the key.
    pub fn sign(&self, msg: &[u8]) -> (r: Signature)
        ensures
            r@ == signed(self@, msg@),
    {
        let h = h0(msg);
        let s = g1_mul(&h, &self.0);
        proof {
            lemma_mul_mod(g1_log(h), scalar_value(self.0));
            vstd::arithmetic::div_mod::lemma_mod_twice(
                (g1_log(h) * scalar_value(self.0)) as int,
                group_order() as int,
            );
            lemma_mul_mod(message_log(msg@), self@);
            vstd::arithmetic::div_mod::lemma_mod_twice(scalar_value(self.0) as int, group_order() as int);
        }
        Signature(s)
    }
}

impl PublicKey {
    /// Derives the public key of a secret key: the generator of G2 times it.
    pub fn from_secret_key(sk: &SecretKey) -> (r: PublicKey)
        ensures
            r@ == sk@,
    {
        let g = g2_generator();
        let p = g2_mul(&g, &sk.0);
        PublicKey(p)
    }

    /// Verifies a signature on a message by comparing the pairings
    /// `e(sig, g2)` and `e(h0(msg), pk)`.
    pub fn verify(&self, sig: &Signature, msg: &[u8]) -> (r: Result<(), Error>)
        ensures
            r is Ok <==> verifies(self@, sig@, msg@),
            r matches Err(e) ==> e == Error::InvalidSignature,
    {
        proof {
            use_type_invariant(self);
            use_type_invariant(sig);
        }
        let h0m = h0(msg);
        let g = g2_generator();
        let p1 = pair(&sig.0, &g);
        let p2 = pair(&h0m, &self.0);
        let same = gt_equal(&p1, &p2);
        proof {
            vstd::arithmetic::div_mod::lemma_mod_twice(gt_log(p1) as int, group_order() as int);
            vstd::arithmetic::div_mod::lemma_mod_twice(gt_log(p2) as int, group_order() as int);
            lemma_mul_mod(g1_log(h0m), g2_log(self.0));
            vstd::arithmetic::div_mod::lemma_mod_twice(message_log(msg@) as int, group_order() as int);
        }
        if same {
            Ok(())
        } else {
            Err(Error::InvalidSignature)
        }
    }

    /// The key weighted for aggregation: the key's point times `h1` of the key.
    pub fn pk_t(&self) -> (r: G2Affine)
        ensures
            g2_in_subgroup(r),
            g2_log(r) % group_order() == (self@ * key_weight(self@)) % group_order(),
    {
        proof {
            use_type_invariant(self);
        }
        let t = h1(self);
        let p = g2_mul(&self.0, &t);
        proof {
            lemma_mul_mod(g2_log(self.0), scalar_value(t));
            vstd::arithmetic::div_mod::lemma_mod_twice(
                (g2_log(self.0) * scalar_value(t)) as int,
                group_order() as int,
            );
            lemma_mul_mod(self@, key_weight(self@));
            vstd::arithmetic::div_mod::lemma_mod_twice(g2_log(self.0) as int, group_order() as int);
            vstd::arithmetic::div_mod::lemma_mod_twice(scalar_value(t) as int, group_order() as int);
        }
        p
    }

    /// The compressed encoding of the key.
    pub fn to_bytes(&self) -> (r: [u8; 96])
        ensures
            r@ == g2_encoding(self@),
            r@[0] & 0x80u8 == 0x80u8,
            (r@[0] & 0x40u8 == 0x40u8) <==> self@ == 0,
            self@ == 0 ==> r@ == identity_encoding(),
    {
        proof {
            use_type_invariant(self);
        }
        g2_to_compressed(&self.0)
    }

    /// Reads a key from its compressed encoding, checking that it encodes a
    /// point of the prime-order subgroup.
    pub fn from_bytes(bytes: &[u8; 96]) -> (r: Result<PublicKey, Error>)
        ensures
            decoded(bytes@, r),
            bytes@[0] & 0x80u8 == 0u8 ==> r == Err::<PublicKey, Error>(Error::InvalidBytes),
    {
        match g2_from_compressed(bytes) {
            Some(p) => {
                let pk = PublicKey(p);
                proof {
                    let k = choose|k: nat| k < group_order() && g2_encoding(k) == bytes@;
                    assert(g2_log(p) == k);
                    vstd::arithmetic::div_mod::lemma_small_mod(g2_log(p), group_order());
                    assert(encodes(bytes@, pk@));
                }
                Ok(pk)
            },
            None => {
                assert(!(exists|k: nat| encodes(bytes@, k)));
                Err(Error::InvalidBytes)
            },
        }
    }

    /// The number of bytes in the encoding of a key.
    pub fn serialized_size() -> (r: usize)
        ensures
            r == 96,
    {
        96
    }
}

/// Reading back the encoding of a public key gives the same key.
pub proof fn lemma_round_trip(pk: PublicKey, r: Result<PublicKey, Error>)
    requires
        decoded(g2_encoding(pk@), r),
    ensures
        r matches Ok(q) && q@ == pk@,
{
    assert(encodes(g2_encoding(pk@), pk@));
}

/// The weighted key is the key's point times the key's weight `h1(pk)`,
/// recomputed apart from it.
pub proof fn lemma_weighted_key_linear(pk: PublicKey, weighted: G2Affine, weight: Scalar)
    requires
        g2_log(weighted) % group_order() == (pk@ * key_weight(pk@)) % group_order(),
        scalar_value(weight) == key_weight(pk@),
    ensures
        g2_log(weighted) % group_order() == (pk@ * scalar_value(weight)) % group_order(),
{
}

/// The identity key accepts exactly the identity signature, on every
/// message, and its weighted key is the identity.
pub proof fn lemma_identity_key(pk: PublicKey, sig: Signature, m: Seq<u8>, weighted: G2Affine)
    requires
        pk@ == 0,
        g2_log(weighted) % group_order() == (pk@ * key_weight(pk@)) % group_order(),
    ensures
        verifies(pk@, sig@, m) <==> sig@ == 0,
        g2_log(weighted) % group_order() == 0,
{
}

/// A buffer that encodes no point of the prime-order subgroup is refused
/// with `InvalidBytes`.
pub proof fn lemma_decode_rejection(b: Seq<u8>, r: Result<PublicKey, Error>)
    requires
        !(exists|k: nat| encodes(b, k)),
        decoded(b, r),
    ensures
        r == Err::<PublicKey, Error>(Error::InvalidBytes),
{
}

/// The signature that a secret key makes on a message verifies under the
/// public key derived from it.
pub proof fn lemma_honest_signature_verifies(sk: SecretKey, pk: PublicKey, sig: Signature, m: Seq<u8>)
    requires
        pk@ == sk@,
        sig@ == signed(sk@, m),
    ensures
        verifies(pk@, sig@, m),
{
}

/// Under the public key of a secret key, any signature on a message other
/// than the one the key makes is refused.
pub proof fn lemma_other_signature_rejected(
    sk: SecretKey,
    pk: PublicKey,
    sig: Signature,
    forged: Signature,
    m: Seq<u8>,
)
    requires
        pk@ == sk@,
        sig@ == signed(sk@, m),
        forged@ != sig@,
    ensures
        !verifies(pk@, forged@, m),
{
}

/// The signature that an invertible secret key makes on one message is
/// refused for any message whose hash differs. (A key of zero signs every
/// message alike, and two messages with one hash share their signatures.)
pub proof fn lemma_other_message_rejected(
    sk: SecretKey,
    pk: PublicKey,
    sig: Signature,
    m: Seq<u8>,
    m2: Seq<u8>,
    inverse: nat,
)
    requires
        pk@ == sk@,
        sig@ == signed(sk@, m),
        (sk@ * inverse) % group_order() == 1,
        message_log(m2) != message_log(m),
    ensures
        !verifies(pk@, sig@, m2),
{
    if verifies(pk@, sig@, m2) {
        lemma_cancel_key(message_log(m), sk@, inverse);
        lemma_cancel_key(message_log(m2), sk@, inverse);
    }
}

/// Multiplying `h * s` by an inverse of `s` gives back `h`.
proof fn lemma_cancel_key(h: nat, s: nat, inverse: nat)
    requires
        h < group_order(),
        (s * inverse) % group_order() == 1,
    ensures
        (((h * s) % group_order()) * inverse) % group_order() == h,
{
    let n = group_order() as int;
    vstd::arithmetic::div_mod::lemma_mul_mod_noop_left((h * s) as int, inverse as int, n);
    vstd::arithmetic::mul::lemma_mul_is_associative(h as int, s as int, inverse as int);
    vstd::arithmetic::div_mod::lemma_mul_mod_noop_right(h as int, (s * inverse) as int, n);
    vstd::arithmetic::div_mod::lemma_small_mod(h, group_order());
}

} // verus!
