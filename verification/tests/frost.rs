use std::collections::{BTreeMap, HashMap};

use decaf377::{Element, Fr};
use frost_core::{frost, Ciphersuite, Field, FieldError, Group, GroupError};
use rand_core::{CryptoRng, RngCore};

use decaf377_rdsa::frost as library;
use decaf377_rdsa::{Signature, SigningKey, SpendAuth, VerificationKey};

/// A generator of words for this test, not for any other use.
struct TestRng(u64);

impl RngCore for TestRng {
    fn next_u32(&mut self) -> u32 {
        (self.next_u64() >> 32) as u32
    }

    fn next_u64(&mut self) -> u64 {
        self.0 = self.0.wrapping_add(0x9e3779b97f4a7c15);
        let mut z = self.0;
        z = (z ^ (z >> 30)).wrapping_mul(0xbf58476d1ce4e5b9);
        z = (z ^ (z >> 27)).wrapping_mul(0x94d049bb133111eb);
        z ^ (z >> 31)
    }

    fn fill_bytes(&mut self, dest: &mut [u8]) {
        for chunk in dest.chunks_mut(8) {
            let word = self.next_u64().to_le_bytes();
            chunk.copy_from_slice(&word[..chunk.len()]);
        }
    }

    fn try_fill_bytes(&mut self, dest: &mut [u8]) -> Result<(), rand_core::Error> {
        self.fill_bytes(dest);
        Ok(())
    }
}

impl CryptoRng for TestRng {}

fn scalar_to_library(scalar: &Fr) -> decaf377_rdsa::Fr {
    decaf377_rdsa::Fr::from_bytes_checked(&scalar.to_bytes()).unwrap()
}

fn scalar_from_library(scalar: &decaf377_rdsa::Fr) -> Fr {
    Fr::from_bytes_checked(&scalar.to_bytes()).unwrap()
}

fn element_to_library(element: &Element) -> decaf377_rdsa::Element {
    decaf377_rdsa::Element::vartime_decompress(&element.vartime_compress().0).unwrap()
}

fn element_from_library(element: &decaf377_rdsa::Element) -> Element {
    decaf377::Encoding(element.vartime_compress()).vartime_decompress().unwrap()
}

#[derive(Copy, Clone)]
struct ScalarField;

impl Field for ScalarField {
    type Scalar = Fr;

    type Serialization = [u8; 32];

    fn zero() -> Fr {
        scalar_from_library(&library::Decaf377ScalarField::zero())
    }

    fn one() -> Fr {
        scalar_from_library(&library::Decaf377ScalarField::one())
    }

    fn invert(scalar: &Fr) -> Result<Fr, FieldError> {
        library::Decaf377ScalarField::invert(&scalar_to_library(scalar))
            .map(|inverse| scalar_from_library(&inverse))
            .ok_or(FieldError::InvalidZeroScalar)
    }

    fn random<R: RngCore + CryptoRng>(rng: &mut R) -> Fr {
        let mut bytes = [0u8; 48];
        rng.fill_bytes(&mut bytes);
        scalar_from_library(&decaf377_rdsa::Fr::from_le_bytes_mod_order(&bytes))
    }

    fn serialize(scalar: &Fr) -> [u8; 32] {
        library::Decaf377ScalarField::serialize(&scalar_to_library(scalar))
    }

    fn little_endian_serialize(scalar: &Fr) -> [u8; 32] {
        library::Decaf377ScalarField::little_endian_serialize(&scalar_to_library(scalar))
    }

    fn deserialize(buf: &[u8; 32]) -> Result<Fr, FieldError> {
        library::Decaf377ScalarField::deserialize(buf)
            .map(|scalar| scalar_from_library(&scalar))
            .ok_or(FieldError::MalformedScalar)
    }
}

#[derive(Copy, Clone, PartialEq, Eq)]
struct GroupOfElements;

impl Group for GroupOfElements {
    type Field = ScalarField;

    type Element = Element;

    type Serialization = [u8; 32];

    fn cofactor() -> Fr {
        scalar_from_library(&library::Decaf377Group::cofactor())
    }

    fn identity() -> Element {
        element_from_library(&library::Decaf377Group::identity())
    }

    fn generator() -> Element {
        element_from_library(&library::Decaf377Group::generator())
    }

    fn serialize(element: &Element) -> [u8; 32] {
        library::Decaf377Group::serialize(&element_to_library(element))
    }

    fn deserialize(buf: &[u8; 32]) -> Result<Element, GroupError> {
        library::Decaf377Group::deserialize(buf)
            .map(|element| element_from_library(&element))
            .ok_or(GroupError::MalformedElement)
    }
}

#[derive(Debug, PartialEq, Eq, Copy, Clone)]
struct Suite;

#[allow(non_snake_case)]
impl Ciphersuite for Suite {
    const ID: &'static str = "FROST-decaf377-rdsa-v1";

    type Group = GroupOfElements;

    type HashOutput = [u8; 32];

    type SignatureSerialization = Signature<SpendAuth>;

    fn H1(m: &[u8]) -> Fr {
        scalar_from_library(&library::Decaf377Rdsa::H1(m))
    }

    fn H2(m: &[u8]) -> Fr {
        scalar_from_library(&library::Decaf377Rdsa::H2(m))
    }

    fn H3(m: &[u8]) -> Fr {
        scalar_from_library(&library::Decaf377Rdsa::H3(m))
    }

    fn H4(m: &[u8]) -> [u8; 32] {
        library::Decaf377Rdsa::H4(m)
    }

    fn H5(m: &[u8]) -> [u8; 32] {
        library::Decaf377Rdsa::H5(m)
    }

    fn HDKG(m: &[u8]) -> Option<Fr> {
        library::Decaf377Rdsa::HDKG(m).map(|scalar| scalar_from_library(&scalar))
    }

    fn HID(m: &[u8]) -> Option<Fr> {
        library::Decaf377Rdsa::HID(m).map(|scalar| scalar_from_library(&scalar))
    }
}

type Identifier = frost::Identifier<Suite>;

#[test]
fn simple_dkg_and_signing_flow() {
    const T: u16 = 2;
    const N: u16 = 3;
    let mut rng = TestRng(2024);

    // For convenience, store an indexable list of IDs.
    let ids = (0..N)
        .map(|id| Identifier::derive(&id.to_le_bytes()).unwrap())
        .collect::<Vec<_>>();

    // First, run a DKG with three participants

    let mut round1_secrets = HashMap::new();
    let mut round1_packages = HashMap::new();

    for id in &ids {
        let (secret, package) = frost::keys::dkg::part1(*id, N, T, &mut rng).unwrap();
        round1_secrets.insert(*id, secret);
        round1_packages.insert(*id, package);
    }

    // Round 1 is a broadcast, so it's enough to copy all the round 1 packages.

    let mut round2_secrets = HashMap::new();
    let mut round2_packages = HashMap::new();

    for id in &ids {
        let round1_secret = round1_secrets.remove(id).unwrap();

        let mut round1_packages_except_us = round1_packages.clone();
        round1_packages_except_us.remove(id);

        let (secret, packages) =
            frost::keys::dkg::part2(round1_secret, &round1_packages_except_us).unwrap();
        round2_secrets.insert(*id, secret);
        round2_packages.insert(*id, packages);
    }

    // Round 2 is point-to-point (and encrypted! but we're faking it), so we need to
    // build a map of messages received by each participant.

    let mut shares = HashMap::new();
    let mut public_key_packages = HashMap::new();

    println!("got here");
    for id in &ids {
        let mut recvd_packages = HashMap::new();
        for (other_id, its_packages) in &round2_packages {
            if other_id == id {
                continue;
            }
            recvd_packages.insert(*other_id, its_packages.get(id).unwrap().clone());
        }

        let mut round1_packages_except_us = round1_packages.clone();
        round1_packages_except_us.remove(id);

        let round2_secret = round2_secrets.remove(id).unwrap();
        let (key_package, public_key_package) = frost::keys::dkg::part3(
            &round2_secret,
            &round1_packages_except_us,
            &recvd_packages,
        )
        .unwrap();

        shares.insert(id, key_package);
        public_key_packages.insert(*id, public_key_package);
    }
    println!("got here");

    // Now try signing.
    const MSG: &[u8] = b"hello world";

    // Signing round 1
    let mut signing_commitments = BTreeMap::new();
    let mut sign_round1_nonces = HashMap::new();

    for id in &ids {
        let (nonce, commitment) = frost::round1::commit(shares[id].secret_share(), &mut rng);
        signing_commitments.insert(*id, commitment);
        sign_round1_nonces.insert(*id, nonce);
    }

    let signing_package = frost::SigningPackage::new(signing_commitments, MSG);

    let mut sign_round2_signature_shares = HashMap::new();

    for id in &ids {
        let share = frost::round2::sign(
            &signing_package,
            sign_round1_nonces.get(id).unwrap(),
            shares.get(id).unwrap(),
        )
        .unwrap();
        sign_round2_signature_shares.insert(*id, share);
    }

    // Aggregate the signature shares

    let signature_bytes = frost::aggregate(
        &signing_package,
        &sign_round2_signature_shares,
        public_key_packages.values().next().unwrap(),
    )
    .unwrap()
    .serialize();

    let signature = Signature::<SpendAuth>::from(signature_bytes);

    let vk_bytes = public_key_packages
        .values()
        .next()
        .unwrap()
        .group_public()
        .serialize();
    let vk = VerificationKey::<SpendAuth>::try_from(vk_bytes).unwrap();

    // Verify the signature
    vk.verify(MSG, &signature).unwrap();
}

#[test]
fn split_and_reconstruct_a_signing_key() {
    let mut rng = TestRng(7);
    let secret = SigningKey::<SpendAuth>::new([0x5au8; 64]);
    let frost_secret = frost_core::SigningKey::<Suite>::deserialize(secret.to_bytes()).unwrap();
    let (shares, _public) = frost::keys::split(
        &frost_secret,
        3,
        2,
        frost::keys::IdentifierList::Default,
        &mut rng,
    )
    .unwrap();
    let some_shares: Vec<_> = shares.values().take(2).cloned().collect();
    let reconstructed = frost::keys::reconstruct(&some_shares).unwrap();
    let key = SigningKey::<SpendAuth>::try_from(reconstructed.serialize()).unwrap();
    assert_eq!(key.to_bytes(), secret.to_bytes());
}
