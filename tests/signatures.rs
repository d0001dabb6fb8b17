use blake2::{Blake2b512, Digest};
use bls12_381::{G1Affine, G2Affine, Scalar};
use bls_sign::{h0, h1, Error, PublicKey, SecretKey};

fn key_pair(seed: u64) -> (SecretKey, PublicKey) {
    let sk = SecretKey::from_scalar(Scalar::from(seed));
    let pk = PublicKey::from_secret_key(&sk);
    (sk, pk)
}

fn point_of(pk: &PublicKey) -> G2Affine {
    Option::from(G2Affine::from_compressed(&pk.to_bytes())).unwrap()
}

#[test]
fn h0_is_deterministic() {
    assert_eq!(h0(b"hello"), h0(b"hello"));
    assert_eq!(h0(b""), h0(b""));
    assert_ne!(h0(b"hello"), h0(b"hellp"));
}

#[test]
fn h0_is_hashed_scalar_times_generator() {
    let msg = b"a message to be signed";
    let digest: [u8; 64] = Blake2b512::digest(msg).into();
    let scalar = Scalar::from_bytes_wide(&digest);
    let expected = G1Affine::from(G1Affine::generator() * scalar);
    assert_eq!(h0(msg), expected);
    assert_ne!(h0(msg), G1Affine::generator());
}

#[test]
fn h1_is_hashed_key_encoding() {
    let (_, pk) = key_pair(42);
    let digest: [u8; 64] = Blake2b512::digest(pk.to_bytes()).into();
    assert_eq!(h1(&pk), Scalar::from_bytes_wide(&digest));
    assert_eq!(h1(&pk), h1(&pk));
}

#[test]
fn h1_weights_distinct_keys_apart() {
    let keys: Vec<PublicKey> = (1..=16u64).map(|i| key_pair(i).1).collect();
    for i in 0..keys.len() {
        for j in 0..keys.len() {
            if i != j {
                assert_ne!(keys[i], keys[j]);
                assert_ne!(h1(&keys[i]), h1(&keys[j]));
            }
        }
    }
}

#[test]
fn public_key_round_trip() {
    for seed in [1u64, 2, 3, 99, 123456789] {
        let (_, pk) = key_pair(seed);
        let bytes = pk.to_bytes();
        assert_eq!(PublicKey::from_bytes(&bytes), Ok(pk));
    }
    let identity = PublicKey::default();
    assert_eq!(PublicKey::from_bytes(&identity.to_bytes()), Ok(identity));
}

#[test]
fn identity_key_encoding() {
    let mut bytes = [0u8; 96];
    bytes[0] = 0xc0;
    assert_eq!(PublicKey::default().to_bytes(), bytes);
    assert_eq!(PublicKey::from_bytes(&bytes), Ok(PublicKey::default()));
}

#[test]
fn malformed_bytes_are_rejected() {
    assert_eq!(PublicKey::from_bytes(&[0u8; 96]), Err(Error::InvalidBytes));
    assert_eq!(PublicKey::from_bytes(&[0xffu8; 96]), Err(Error::InvalidBytes));
    let (_, pk) = key_pair(5);
    let mut bytes = pk.to_bytes();
    bytes[0] &= 0x7f;
    assert_eq!(PublicKey::from_bytes(&bytes), Err(Error::InvalidBytes));
    let mut infinity_with_data = [0u8; 96];
    infinity_with_data[0] = 0xc0;
    infinity_with_data[95] = 1;
    assert_eq!(PublicKey::from_bytes(&infinity_with_data), Err(Error::InvalidBytes));
}

#[test]
fn serialized_size_is_fixed() {
    assert_eq!(PublicKey::serialized_size(), 96);
    let (_, pk) = key_pair(8);
    assert_eq!(pk.to_bytes().len(), PublicKey::serialized_size());
}

#[test]
fn honest_signature_verifies() {
    let (sk, pk) = key_pair(0x1234_5678_9abc_def0);
    let msg = b"consensus block 17";
    let sig = sk.sign(msg);
    assert_eq!(pk.verify(&sig, msg), Ok(()));
    assert_eq!(pk.verify(&sk.sign(b""), b""), Ok(()));
}

#[test]
fn signature_on_other_message_is_rejected() {
    let (sk, pk) = key_pair(77);
    let sig = sk.sign(b"pay alice 10");
    assert_eq!(pk.verify(&sig, b"pay alice 100"), Err(Error::InvalidSignature));
}

#[test]
fn other_signature_is_rejected() {
    let (sk, pk) = key_pair(77);
    let (other_sk, other_pk) = key_pair(78);
    let msg = b"pay alice 10";
    let forged = sk.sign(b"pay bob 10");
    assert_eq!(pk.verify(&forged, msg), Err(Error::InvalidSignature));
    assert_eq!(pk.verify(&other_sk.sign(msg), msg), Err(Error::InvalidSignature));
    assert_eq!(other_pk.verify(&sk.sign(msg), msg), Err(Error::InvalidSignature));
}

#[test]
fn weighted_key_is_key_times_its_weight() {
    for seed in [3u64, 11, 2024] {
        let (_, pk) = key_pair(seed);
        let expected = G2Affine::from(point_of(&pk) * h1(&pk));
        assert_eq!(pk.pk_t(), expected);
        assert_ne!(pk.pk_t(), point_of(&pk));
    }
}

#[test]
fn unit_secret_key_gives_generator() {
    let (_, pk) = key_pair(1);
    let bytes = pk.to_bytes();
    assert_eq!(bytes, G2Affine::generator().to_compressed());
    assert_eq!(&bytes[0..4], &[0x93, 0xe0, 0x2b, 0x60]);
}

#[test]
fn public_key_is_generator_times_secret() {
    let (_, pk) = key_pair(31337);
    let expected = G2Affine::from(G2Affine::generator() * Scalar::from(31337u64));
    assert_eq!(pk.to_bytes(), expected.to_compressed());
}

#[test]
fn identity_key_accepts_only_identity_signature() {
    let pk = PublicKey::default();
    let (zero_sk, zero_pk) = key_pair(0);
    assert_eq!(zero_pk, pk);
    let identity_sig = zero_sk.sign(b"anything");
    assert_eq!(pk.verify(&identity_sig, b"anything"), Ok(()));
    assert_eq!(pk.verify(&identity_sig, b"something else"), Ok(()));
    let (sk, _) = key_pair(9);
    assert_eq!(pk.verify(&sk.sign(b"anything"), b"anything"), Err(Error::InvalidSignature));
    assert_eq!(pk.pk_t(), G2Affine::identity());
}

#[test]
fn from_secret_key_conversion() {
    let sk = SecretKey::from_scalar(Scalar::from(4242u64));
    assert_eq!(PublicKey::from(&sk), PublicKey::from_secret_key(&sk));
}

#[test]
fn point_outside_subgroup_is_rejected() {
    let mut found = 0;
    for i in 1..=255u8 {
        let mut bytes = [0u8; 96];
        bytes[0] = 0x80;
        bytes[95] = i;
        let unchecked: Option<G2Affine> = Option::from(G2Affine::from_compressed_unchecked(&bytes));
        if let Some(p) = unchecked {
            if !bool::from(p.is_torsion_free()) {
                assert_eq!(PublicKey::from_bytes(&bytes), Err(Error::InvalidBytes));
                found += 1;
            }
        }
    }
    assert!(found > 0);
}
