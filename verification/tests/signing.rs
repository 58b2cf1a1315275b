use decaf377_rdsa::{
    Binding, Error, Fr, Signature, SigningKey, SpendAuth, VerificationKey, VerificationKeyBytes,
};

fn one() -> [u8; 32] {
    let mut bytes = [0u8; 32];
    bytes[0] = 1;
    bytes
}

#[test]
fn deterministic_signature_verifies() {
    let sk = SigningKey::<SpendAuth>::try_from(one()).unwrap();
    let sig = sk.sign_deterministic(b"");
    let vk = VerificationKey::from(&sk);
    assert_eq!(vk.verify(b"", &sig), Ok(()));
}

#[test]
fn deterministic_signature_of_key_one_on_empty_message() {
    let sk = SigningKey::<SpendAuth>::try_from(one()).unwrap();
    let sig = sk.sign_deterministic(b"");
    let expected: [u8; 64] = [
        0x88, 0x44, 0xd7, 0xf5, 0xa8, 0x7b, 0xa3, 0xa5, 0x78, 0x3a, 0xb5, 0x9f, 0xd2, 0x11, 0x33,
        0x0f, 0xc3, 0x95, 0x3c, 0x17, 0xbe, 0x68, 0x89, 0xf4, 0x81, 0x7c, 0xac, 0x5a, 0x4c, 0x17,
        0x97, 0x00, 0x87, 0x71, 0xa7, 0xaf, 0xe3, 0xe4, 0x0b, 0x30, 0xc8, 0x4d, 0x3c, 0xd8, 0xe6,
        0x66, 0x0a, 0x41, 0xb0, 0xfd, 0x82, 0x06, 0x0d, 0x7b, 0xeb, 0x18, 0x04, 0xe5, 0x7f, 0x32,
        0x78, 0xf1, 0x81, 0x00,
    ];
    assert_eq!(sig.to_bytes(), expected);
}

#[test]
fn verification_key_of_key_one_is_the_basepoint() {
    let spend = SigningKey::<SpendAuth>::try_from(one()).unwrap();
    let mut generator = [0u8; 32];
    generator[0] = 8;
    assert_eq!(VerificationKey::from(&spend).to_bytes(), generator);

    let binding = SigningKey::<Binding>::try_from(one()).unwrap();
    let binding_basepoint: [u8; 32] = [
        212, 225, 25, 84, 219, 95, 62, 100, 184, 191, 129, 255, 236, 119, 240, 19, 76, 185, 49,
        205, 161, 31, 225, 128, 241, 44, 114, 203, 73, 215, 103, 6,
    ];
    assert_eq!(VerificationKey::from(&binding).to_bytes(), binding_basepoint);
    assert_ne!(binding_basepoint, generator);
    assert!(!VerificationKey::from(&binding).is_identity());
    assert!(!VerificationKey::from(&spend).is_identity());
}

#[test]
fn deterministic_signing_is_deterministic() {
    let sk = SigningKey::<Binding>::try_from(one()).unwrap();
    let first = sk.sign_deterministic(b"message");
    let second = sk.sign_deterministic(b"message");
    assert_eq!(first.to_bytes(), second.to_bytes());
    assert_eq!(first.to_bytes(), sk.sign([0u8; 48], b"message").to_bytes());
}

#[test]
fn randomized_signatures_differ_and_verify() {
    let sk = SigningKey::<SpendAuth>::new([7u8; 64]);
    let vk = VerificationKey::from(&sk);
    let first = sk.sign([1u8; 48], b"message");
    let second = sk.sign([2u8; 48], b"message");
    assert_ne!(first.to_bytes(), second.to_bytes());
    assert_eq!(vk.verify(b"message", &first), Ok(()));
    assert_eq!(vk.verify(b"message", &second), Ok(()));
}

#[test]
fn flipped_r_is_rejected() {
    let sk = SigningKey::<SpendAuth>::try_from(one()).unwrap();
    let vk = VerificationKey::from(&sk);
    let mut bytes = sk.sign_deterministic(b"").to_bytes();
    bytes[0] ^= 1;
    let sig = Signature::<SpendAuth>::from(bytes);
    assert_eq!(vk.verify(b"", &sig), Err(Error::InvalidSignature));
}

#[test]
fn flipped_s_is_rejected() {
    let sk = SigningKey::<SpendAuth>::try_from(one()).unwrap();
    let vk = VerificationKey::from(&sk);
    let mut bytes = sk.sign_deterministic(b"").to_bytes();
    bytes[32] ^= 1;
    let sig = Signature::<SpendAuth>::from(bytes);
    assert_eq!(vk.verify(b"", &sig), Err(Error::InvalidSignature));
}

#[test]
fn changed_message_is_rejected() {
    let sk = SigningKey::<Binding>::new([9u8; 64]);
    let vk = VerificationKey::from(&sk);
    let sig = sk.sign([3u8; 48], b"test message");
    assert_eq!(vk.verify(b"test message", &sig), Ok(()));
    assert_eq!(vk.verify(b"test messageZ", &sig), Err(Error::InvalidSignature));
}

#[test]
fn non_canonical_signing_key_is_refused() {
    let r = SigningKey::<SpendAuth>::try_from([0xffu8; 32]);
    assert!(matches!(r, Err(Error::MalformedSigningKey)));
}

#[test]
fn signing_key_round_trip() {
    let sk = SigningKey::<SpendAuth>::try_from(one()).unwrap();
    assert_eq!(sk.to_bytes(), one());
}

#[test]
fn randomization_commutes() {
    let sk = SigningKey::<SpendAuth>::new([5u8; 64]);
    let r = Fr::from_le_bytes_mod_order(&[0x42u8; 64]);
    let pk = VerificationKey::from(&sk);
    let via_sk = VerificationKey::from(&sk.randomize(&r)).to_bytes();
    let via_pk = pk.randomize(&r).to_bytes();
    assert_eq!(via_sk, via_pk);
    assert_ne!(via_pk, pk.to_bytes());
}

#[test]
fn verification_key_round_trip() {
    let sk = SigningKey::<Binding>::new([11u8; 64]);
    let bytes = VerificationKey::from(&sk).to_bytes();
    let vk = VerificationKey::<Binding>::try_from(VerificationKeyBytes::from(bytes)).unwrap();
    assert_eq!(vk.to_bytes(), bytes);
}

#[test]
fn signing_key_from_random_bytes_is_reduced() {
    let sk = SigningKey::<SpendAuth>::new([0x42u8; 64]);
    let expected: [u8; 32] = [
        153, 171, 224, 88, 133, 219, 80, 157, 164, 130, 224, 159, 104, 229, 57, 84, 99, 98, 192,
        40, 160, 93, 238, 118, 90, 221, 56, 248, 169, 160, 217, 3,
    ];
    assert_eq!(sk.to_bytes(), expected);
    let bytes: [u8; 32] = sk.into();
    assert_eq!(bytes, expected);
}

#[test]
fn signing_key_from_field_element() {
    let scalar = Fr::from_u128(77);
    let from_field = SigningKey::<Binding>::new_from_field(scalar);
    let from_trait = SigningKey::<Binding>::from(scalar);
    let mut expected = [0u8; 32];
    expected[0] = 77;
    assert_eq!(from_field.to_bytes(), expected);
    assert_eq!(from_trait.to_bytes(), expected);
}

#[test]
fn signing_key_from_slice() {
    let bytes = one();
    let sk = SigningKey::<SpendAuth>::try_from(&bytes[..]).unwrap();
    assert_eq!(sk.to_bytes(), bytes);
    let short = SigningKey::<SpendAuth>::try_from(&bytes[..31]);
    assert!(matches!(short, Err(Error::WrongSliceLength { expected: 32, found: 31 })));
    let order: [u8; 32] = [
        255, 217, 63, 195, 154, 238, 90, 185, 254, 138, 60, 196, 175, 163, 147, 82, 0, 236, 13,
        151, 71, 19, 45, 152, 85, 41, 139, 166, 87, 217, 170, 4,
    ];
    let malformed = SigningKey::<SpendAuth>::try_from(&order[..]);
    assert!(matches!(malformed, Err(Error::MalformedSigningKey)));
    let mut largest = order;
    largest[0] = 254;
    assert_eq!(SigningKey::<SpendAuth>::try_from(largest).unwrap().to_bytes(), largest);
}

#[test]
fn randomized_signing_key_adds_the_randomizer() {
    let sk = SigningKey::<SpendAuth>::try_from(one()).unwrap();
    let randomized = sk.randomize(&Fr::from_u128(41));
    let mut expected = [0u8; 32];
    expected[0] = 42;
    assert_eq!(randomized.to_bytes(), expected);
    let sig = randomized.sign([0x17u8; 48], b"randomized");
    let vk = VerificationKey::from(&sk).randomize(&Fr::from_u128(41));
    assert_eq!(vk.verify(b"randomized", &sig), Ok(()));
    assert_eq!(
        VerificationKey::from(&sk).verify(b"randomized", &sig),
        Err(Error::InvalidSignature)
    );
}

#[test]
fn zero_signing_key_has_the_identity_as_binding_key() {
    let sk = SigningKey::<Binding>::new_from_field(Fr::zero());
    let vk = VerificationKey::from(&sk);
    assert!(vk.is_identity());
    assert_eq!(vk.to_bytes(), [0u8; 32]);
    let decoded = VerificationKey::<Binding>::try_from([0u8; 32]).unwrap();
    assert!(decoded.is_identity());
    let sig = sk.sign([0x33u8; 48], b"balance");
    assert_eq!(decoded.verify(b"balance", &sig), Ok(()));
}

#[test]
fn signature_of_one_domain_fails_in_the_other() {
    let spend = SigningKey::<SpendAuth>::new([21u8; 64]);
    let sig = spend.sign([4u8; 48], b"domain");
    let vk_bytes = VerificationKey::from(&spend).to_bytes();
    let as_binding_key = VerificationKey::<Binding>::try_from(vk_bytes).unwrap();
    let as_binding_sig = Signature::<Binding>::from(sig.to_bytes());
    assert_eq!(
        as_binding_key.verify(b"domain", &as_binding_sig),
        Err(Error::InvalidSignature)
    );
    let as_spend_key = VerificationKey::<SpendAuth>::try_from(vk_bytes).unwrap();
    assert_eq!(as_spend_key.verify(b"domain", &sig), Ok(()));
}

#[test]
fn changed_verification_key_is_rejected() {
    let sk = SigningKey::<SpendAuth>::new([8u8; 64]);
    let other = SigningKey::<SpendAuth>::new([9u8; 64]);
    let sig = sk.sign([5u8; 48], b"test message for proptests");
    let other_vk = VerificationKey::from(&other);
    assert_eq!(
        other_vk.verify(b"test message for proptests", &sig),
        Err(Error::InvalidSignature)
    );
}
