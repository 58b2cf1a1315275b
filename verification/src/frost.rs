//! The `decaf377-rdsa` ciphersuite for FROST threshold signing: the scalar
//! field, the group and the hash functions, on this library's types.

use crate::group::{is_element_encoding, Element};
use crate::hash::{hstar, HStar};
use crate::little_endian::{le_bytes, le_value};
use crate::scalar::{is_canonical_scalar, mul_mod, Fr};
use vstd::prelude::*;

verus! {

/// The scalar field of the ciphersuite.
#[derive(Copy, Clone)]
pub struct Decaf377ScalarField;

impl Decaf377ScalarField {
    /// The zero element of the field, the additive identity.
    pub fn zero() -> (r: Fr)
        ensures
            r@ == 0,
    {
        Fr::zero()
    }

    /// The one element of the field, the multiplicative identity.
    pub fn one() -> (r: Fr)
        ensures
            r@ == 1,
    {
        Fr::one()
    }

    /// The multiplicative inverse of `scalar`, or nothing if it is zero.
    pub fn invert(scalar: &Fr) -> (r: Option<Fr>)
        ensures
            r is Some <==> scalar@ != 0,
            r is Some ==> mul_mod(scalar@, r->Some_0@) == 1,
    {
        scalar.inverse()
    }

    /// The canonical encoding of `scalar`.
    pub fn serialize(scalar: &Fr) -> (bytes: [u8; 32])
        ensures
            bytes@ == le_bytes(scalar@, 32),
    {
        scalar.to_bytes()
    }

    /// The canonical encoding of `scalar`, which is little-endian.
    pub fn little_endian_serialize(scalar: &Fr) -> (bytes: [u8; 32])
        ensures
            bytes@ == le_bytes(scalar@, 32),
    {
        scalar.to_bytes()
    }

    /// The scalar that `buf` is the canonical encoding of, or nothing if it
    /// is none.
    pub fn deserialize(buf: &[u8; 32]) -> (r: Option<Fr>)
        ensures
            r is Some <==> is_canonical_scalar(buf@),
            r is Some ==> r->Some_0@ == le_value(buf@),
    {
        Fr::from_bytes_checked(buf)
    }
}

/// The group of the ciphersuite.
#[derive(Copy, Clone, PartialEq, Eq)]
pub struct Decaf377Group;

impl Decaf377Group {
    /// The cofactor of the group, which is one: the group has prime order.
    pub fn cofactor() -> (r: Fr)
        ensures
            r@ == 1,
    {
        Fr::one()
    }

    /// The identity of the group.
    pub fn identity() -> (e: Element)
        ensures
            e@ == 0,
    {
        Element::identity()
    }

    /// The generator of the group.
    pub fn generator() -> (e: Element)
        ensures
            e@ == 1,
    {
        Element::generator()
    }

    /// The compressed encoding of `element`.
    pub fn serialize(element: &Element) -> (bytes: [u8; 32])
        ensures
            bytes@ == element.encoding(),
    {
        element.vartime_compress()
    }

    /// The element that `buf` is the canonical encoding of, or nothing if it
    /// is none.
    pub fn deserialize(buf: &[u8; 32]) -> (r: Option<Element>)
        ensures
            r is Some <==> is_element_encoding(buf@),
            r is Some ==> r->Some_0.encoding() == buf@,
    {
        Element::vartime_decompress(buf)
    }
}

/// The context string of the ciphersuite: the ASCII string
/// `FROST-decaf377-rdsa-v1`.
pub open spec fn context_string() -> Seq<u8> {
    seq![
        0x46u8, 0x52u8, 0x4fu8, 0x53u8, 0x54u8, 0x2du8, 0x64u8, 0x65u8, 0x63u8, 0x61u8, 0x66u8,
        0x33u8, 0x37u8, 0x37u8, 0x2du8, 0x72u8, 0x64u8, 0x73u8, 0x61u8, 0x2du8, 0x76u8, 0x31u8,
    ]
}

/// `H^star` of the context string, a label and a message.
pub open spec fn labelled_hash(label: Seq<u8>, m: Seq<u8>) -> nat {
    hstar(context_string() + label + m)
}

/// The label of `H1`: the ASCII string `rho`.
pub open spec fn label_rho() -> Seq<u8> {
    seq![0x72u8, 0x68u8, 0x6fu8]
}

/// The label of `H3`: the ASCII string `nonce`.
pub open spec fn label_nonce() -> Seq<u8> {
    seq![0x6eu8, 0x6fu8, 0x6eu8, 0x63u8, 0x65u8]
}

/// The label of `H4`: the ASCII string `msg`.
pub open spec fn label_msg() -> Seq<u8> {
    seq![0x6du8, 0x73u8, 0x67u8]
}

/// The label of `H5`: the ASCII string `com`.
pub open spec fn label_com() -> Seq<u8> {
    seq![0x63u8, 0x6fu8, 0x6du8]
}

/// The label of `HDKG`: the ASCII string `dkg`.
pub open spec fn label_dkg() -> Seq<u8> {
    seq![0x64u8, 0x6bu8, 0x67u8]
}

/// The label of `HID`: the ASCII string `id`.
pub open spec fn label_id() -> Seq<u8> {
    seq![0x69u8, 0x64u8]
}

fn hash_with_label(label: &[u8], m: &[u8]) -> (r: Fr)
    ensures
        r@ == labelled_hash(label@, m@),
{
    let context: [u8; 22] = [
        0x46, 0x52, 0x4f, 0x53, 0x54, 0x2d, 0x64, 0x65, 0x63, 0x61, 0x66,
        0x33, 0x37, 0x37, 0x2d, 0x72, 0x64, 0x73, 0x61, 0x2d, 0x76, 0x31,
    ];
    assert(context@ =~= context_string());
    let r = HStar::default().update(context.as_slice()).update(label).update(m).finalize();
    assert(Seq::<u8>::empty() + context@ + label@ + m@ =~= context_string() + label@ + m@);
    r
}

/// The ciphersuite.
#[derive(Debug, PartialEq, Eq, Copy, Clone)]
pub struct Decaf377Rdsa;

#[allow(non_snake_case)]
impl Decaf377Rdsa {
    /// The hash of the binding factors.
    pub fn H1(m: &[u8]) -> (r: Fr)
        ensures
            r@ == labelled_hash(label_rho(), m@),
    {
        let label: [u8; 3] = [0x72, 0x68, 0x6f];
        assert(label@ =~= label_rho());
        hash_with_label(label.as_slice(), m)
    }

    /// The hash of the challenge: `H^star` of the message alone, as for a
    /// signature of one signer.
    pub fn H2(m: &[u8]) -> (r: Fr)
        ensures
            r@ == hstar(m@),
    {
        let r = HStar::default().update(m).finalize();
        assert(Seq::<u8>::empty() + m@ =~= m@);
        r
    }

    /// The hash of the nonces.
    pub fn H3(m: &[u8]) -> (r: Fr)
        ensures
            r@ == labelled_hash(label_nonce(), m@),
    {
        let label: [u8; 5] = [0x6e, 0x6f, 0x6e, 0x63, 0x65];
        assert(label@ =~= label_nonce());
        hash_with_label(label.as_slice(), m)
    }

    /// The hash of the message: the encoding of a scalar.
    pub fn H4(m: &[u8]) -> (r: [u8; 32])
        ensures
            r@ == le_bytes(labelled_hash(label_msg(), m@), 32),
    {
        let label: [u8; 3] = [0x6d, 0x73, 0x67];
        assert(label@ =~= label_msg());
        hash_with_label(label.as_slice(), m).to_bytes()
    }

    /// The hash of the commitments: the encoding of a scalar.
    pub fn H5(m: &[u8]) -> (r: [u8; 32])
        ensures
            r@ == le_bytes(labelled_hash(label_com(), m@), 32),
    {
        let label: [u8; 3] = [0x63, 0x6f, 0x6d];
        assert(label@ =~= label_com());
        hash_with_label(label.as_slice(), m).to_bytes()
    }

    /// The hash of the distributed key generation.
    pub fn HDKG(m: &[u8]) -> (r: Option<Fr>)
        ensures
            r is Some,
            r->Some_0@ == labelled_hash(label_dkg(), m@),
    {
        let label: [u8; 3] = [0x64, 0x6b, 0x67];
        assert(label@ =~= label_dkg());
        Some(hash_with_label(label.as_slice(), m))
    }

    /// The hash of the identifiers.
    pub fn HID(m: &[u8]) -> (r: Option<Fr>)
        ensures
            r is Some,
            r->Some_0@ == labelled_hash(label_id(), m@),
    {
        let label: [u8; 2] = [0x69, 0x64];
        assert(label@ =~= label_id());
        Some(hash_with_label(label.as_slice(), m))
    }
}

} // verus!
