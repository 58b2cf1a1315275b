//! The signature domains and their basepoints.

use crate::group::{
    discrete_log, encode_to_curve_encoding, field_modulus, generator_multiple_encoding, Element,
};
use crate::hash::{blake2b, blake2b_512};
use crate::little_endian::le_value;
use vstd::prelude::*;

verus! {

/// Abstracts over different signature domains.
///
/// The generator used for the signature scheme is left as a parameter, chosen
/// differently for each signature domain. The domain is a type parameter of
/// keys and signatures, so that those of one domain cannot be used in the
/// other.
pub trait Domain: Sealed {

}

/// A type variable corresponding to Zcash's `BindingSig`.
///
/// It is used as a type parameter only; its one value carries nothing.
#[derive(Copy, Clone, PartialEq, Eq, PartialOrd, Ord, Hash, Debug)]
pub enum Binding {
    /// The tag itself.
    Tag,
}

impl Domain for Binding {

}

/// A type variable corresponding to Zcash's `SpendAuthSig`.
///
/// It is used as a type parameter only; its one value carries nothing.
#[derive(Copy, Clone, PartialEq, Eq, PartialOrd, Ord, Hash, Debug)]
pub enum SpendAuth {
    /// The tag itself.
    Tag,
}

impl Domain for SpendAuth {

}

/// The element that `input` is hashed to: its unpersonalised BLAKE2b digest,
/// reduced to a field element and mapped to the group.
pub open spec fn hash_to_group_encoding(input: Seq<u8>) -> Seq<u8> {
    encode_to_curve_encoding(le_value(blake2b_512(Seq::<u8>::empty(), input)) % field_modulus())
}

/// The label that the `Binding` basepoint is hashed from: the ASCII string
/// `decaf377-rdsa-binding`.
pub open spec fn binding_label() -> Seq<u8> {
    seq![
        0x64u8, 0x65u8, 0x63u8, 0x61u8, 0x66u8, 0x33u8, 0x37u8, 0x37u8,
        0x2du8, 0x72u8, 0x64u8, 0x73u8, 0x61u8, 0x2du8,
        0x62u8, 0x69u8, 0x6eu8, 0x64u8, 0x69u8, 0x6eu8, 0x67u8,
    ]
}

fn hash_to_group(input: &[u8]) -> (e: Element)
    ensures
        e.encoding() == hash_to_group_encoding(input@),
{
    let personal: [u8; 0] = [];
    assert(personal@ =~= Seq::<u8>::empty());
    let digest = blake2b(personal.as_slice(), input);
    Element::encode_to_curve(digest.as_slice())
}

/// What a signature domain provides: its basepoint.
pub trait Sealed:
    Copy + Clone + Eq + PartialEq + Ord + PartialOrd + core::hash::Hash + core::fmt::Debug
{
    /// The compressed encoding of the domain's basepoint.
    spec fn basepoint_encoding() -> Seq<u8>;

    /// The discrete logarithm of the domain's basepoint.
    spec fn basepoint_log() -> nat;

    /// The domain's basepoint.
    fn basepoint() -> (b: Element)
        ensures
            b.encoding() == Self::basepoint_encoding(),
            b@ == Self::basepoint_log(),
    ;
}

impl Sealed for Binding {
    /// The `Binding` basepoint is the element that the label
    /// `decaf377-rdsa-binding` is hashed to.
    open spec fn basepoint_encoding() -> Seq<u8> {
        hash_to_group_encoding(binding_label())
    }

    open spec fn basepoint_log() -> nat {
        discrete_log(hash_to_group_encoding(binding_label()))
    }

    fn basepoint() -> (b: Element) {
        let label: [u8; 21] = [
            0x64, 0x65, 0x63, 0x61, 0x66, 0x33, 0x37, 0x37,
            0x2d, 0x72, 0x64, 0x73, 0x61, 0x2d,
            0x62, 0x69, 0x6e, 0x64, 0x69, 0x6e, 0x67,
        ];
        assert(label@ =~= binding_label());
        let b = hash_to_group(label.as_slice());
        proof {
            use_type_invariant(&b);
        }
        b
    }
}

impl Sealed for SpendAuth {
    /// The `SpendAuth` basepoint is the conventional generator of the group.
    open spec fn basepoint_encoding() -> Seq<u8> {
        generator_multiple_encoding(1)
    }

    open spec fn basepoint_log() -> nat {
        1
    }

    fn basepoint() -> (b: Element) {
        let b = Element::generator();
        proof {
            use_type_invariant(&b);
        }
        b
    }
}

} // verus!
