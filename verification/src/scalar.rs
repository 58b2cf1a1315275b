//! Scalars: the integers modulo the order of the decaf377 group.
//!
//! A scalar is kept in its canonical 32-byte little-endian encoding and stands
//! for the number that the encoding spells. The arithmetic is done by
//! `decaf377::Fr`; what it returns is stated here as arithmetic modulo the
//! group order and trusted.

use crate::little_endian::{
    le_bytes, le_value, lemma_le_bytes_len, lemma_le_bytes_of_le_value, lemma_le_value_injective,
    lemma_le_value_of_le_bytes, lemma_pow256_of_32,
};
use vstd::prelude::*;
use vstd::std_specs::cmp::PartialEqSpecImpl;

verus! {

/// The order of the decaf377 group, a prime of 251 bits.
pub open spec fn group_order() -> nat {
    2111115437357092606062206234695386632838870926408408195193685246394721360383nat
}

/// The sum of two numbers modulo the group order.
pub open spec fn add_mod(a: nat, b: nat) -> nat {
    (a + b) % group_order()
}

/// The difference of two numbers modulo the group order.
pub open spec fn sub_mod(a: nat, b: nat) -> nat {
    ((a - b) % (group_order() as int)) as nat
}

/// The product of two numbers modulo the group order.
pub open spec fn mul_mod(a: nat, b: nat) -> nat {
    (a * b) % group_order()
}

/// Whether `bytes` is the canonical encoding of a scalar: 32 bytes that spell
/// a number below the group order.
pub open spec fn is_canonical_scalar(bytes: Seq<u8>) -> bool {
    bytes.len() == 32 && le_value(bytes) < group_order()
}

/// Every number below the group order has a 32-byte encoding, and reading the
/// encoding gives the number back.
pub proof fn lemma_scalar_encoding(v: nat)
    requires
        v < group_order(),
    ensures
        is_canonical_scalar(le_bytes(v, 32)),
        le_value(le_bytes(v, 32)) == v,
{
    lemma_pow256_of_32();
    lemma_le_bytes_len(v, 32);
    lemma_le_value_of_le_bytes(v, 32);
}

/// `decaf377::EncodingError`: what `decaf377` fails with on bytes that do not
/// decode.
#[verifier::external_type_specification]
#[verifier::external_body]
pub struct ExEncodingError(decaf377::EncodingError);

/// `decaf377::Fr::from_bytes_checked`: accepts exactly the 32-byte strings
/// that spell a number below the group order, and hands the accepted string
/// back as the scalar's encoding.
#[verifier::external_body]
fn scalar_from_bytes_checked(bytes: &[u8; 32]) -> (r: Result<[u8; 32], decaf377::EncodingError>)
    ensures
        r is Ok <==> is_canonical_scalar(bytes@),
        r is Ok ==> r->Ok_0 == *bytes,
{
    decaf377::Fr::from_bytes_checked(bytes).map(|x| x.to_bytes())
}

/// `decaf377::Fr::from_le_bytes_mod_order`: reads a byte string of any length
/// as a little-endian number and reduces it modulo the group order. The
/// scalar is handed back in its canonical encoding.
#[verifier::external_body]
fn scalar_from_le_bytes_mod_order(bytes: &[u8]) -> (r: [u8; 32])
    ensures
        le_value(r@) == le_value(bytes@) % group_order(),
{
    decaf377::Fr::from_le_bytes_mod_order(bytes).to_bytes()
}

/// `decaf377::Fr::from(u128)`: the scalar with the value of the integer, which
/// is below the group order. The scalar is handed back in its canonical
/// encoding.
#[verifier::external_body]
fn scalar_from_u128(x: u128) -> (r: [u8; 32])
    ensures
        le_value(r@) == x,
{
    decaf377::Fr::from(x).to_bytes()
}

/// The `+` of `decaf377::Fr`, on the scalars that `a` and `b` decode to, with
/// the sum encoded: the sum modulo the group order.
#[verifier::external_body]
fn scalar_add(a: &[u8; 32], b: &[u8; 32]) -> (r: [u8; 32])
    requires
        is_canonical_scalar(a@),
        is_canonical_scalar(b@),
    ensures
        le_value(r@) == add_mod(le_value(a@), le_value(b@)),
{
    let x = decaf377::Fr::from_bytes_checked(a).unwrap();
    let y = decaf377::Fr::from_bytes_checked(b).unwrap();
    (x + y).to_bytes()
}

/// The `-` of `decaf377::Fr`, on the scalars that `a` and `b` decode to, with
/// the difference encoded: the difference modulo the group order.
#[verifier::external_body]
fn scalar_sub(a: &[u8; 32], b: &[u8; 32]) -> (r: [u8; 32])
    requires
        is_canonical_scalar(a@),
        is_canonical_scalar(b@),
    ensures
        le_value(r@) == sub_mod(le_value(a@), le_value(b@)),
{
    let x = decaf377::Fr::from_bytes_checked(a).unwrap();
    let y = decaf377::Fr::from_bytes_checked(b).unwrap();
    (x - y).to_bytes()
}

/// The `*` of `decaf377::Fr`, on the scalars that `a` and `b` decode to, with
/// the product encoded: the product modulo the group order.
#[verifier::external_body]
fn scalar_mul(a: &[u8; 32], b: &[u8; 32]) -> (r: [u8; 32])
    requires
        is_canonical_scalar(a@),
        is_canonical_scalar(b@),
    ensures
        le_value(r@) == mul_mod(le_value(a@), le_value(b@)),
{
    let x = decaf377::Fr::from_bytes_checked(a).unwrap();
    let y = decaf377::Fr::from_bytes_checked(b).unwrap();
    (x * y).to_bytes()
}

/// `decaf377::Fr::inverse`, on the scalar that `a` decodes to, with the
/// inverse encoded: the multiplicative inverse modulo the group order, which
/// every scalar but zero has.
#[verifier::external_body]
fn scalar_inverse(a: &[u8; 32]) -> (r: Option<[u8; 32]>)
    requires
        is_canonical_scalar(a@),
    ensures
        r is Some <==> le_value(a@) != 0,
        r is Some ==> is_canonical_scalar(r->Some_0@) && mul_mod(
            le_value(a@),
            le_value(r->Some_0@),
        ) == 1,
{
    decaf377::Fr::from_bytes_checked(a).unwrap().inverse().map(|x| x.to_bytes())
}

/// A scalar of the decaf377 group.
#[derive(Copy, Clone, Debug, Eq)]
pub struct Fr {
    bytes: [u8; 32],
}

impl PartialEq for Fr {
    /// Scalars are equal when their values are.
    fn eq(&self, other: &Self) -> (b: bool) {
        proof {
            if self@ == other@ {
                lemma_le_value_injective(self.bytes@, other.bytes@);
            }
        }
        crate::lexicographic::equal(self.bytes.as_slice(), other.bytes.as_slice())
    }
}

impl PartialEqSpecImpl for Fr {
    open spec fn obeys_eq_spec() -> bool {
        true
    }

    open spec fn eq_spec(&self, other: &Self) -> bool {
        self@ == other@
    }
}

impl View for Fr {
    type V = nat;

    /// The number that the scalar stands for.
    closed spec fn view(&self) -> nat {
        le_value(self.bytes@)
    }
}

impl Fr {
    /// A scalar is a number below the group order.
    #[verifier::type_invariant]
    pub open spec fn wf(self) -> bool {
        self@ < group_order()
    }

    /// The scalar's canonical encoding is the 32 little-endian bytes of its
    /// value.
    pub closed spec fn encoding(self) -> Seq<u8> {
        self.bytes@
    }

    /// The encoding of a scalar is the canonical encoding of its value.
    pub proof fn lemma_encoding(self)
        requires
            self.wf(),
        ensures
            self.encoding() == le_bytes(self@, 32),
            is_canonical_scalar(self.encoding()),
    {
        lemma_le_bytes_of_le_value(self.bytes@);
    }

    /// The scalar's canonical encoding, as an array.
    pub closed spec fn array(self) -> [u8; 32] {
        self.bytes
    }

    /// A scalar is its value and nothing more.
    pub proof fn lemma_is_its_value(self, other: Fr)
        requires
            self@ == other@,
        ensures
            self == other,
    {
        lemma_le_value_injective(self.bytes@, other.bytes@);
        assert(self.bytes =~= other.bytes);
    }

    /// The scalar zero.
    pub fn zero() -> (r: Fr)
        ensures
            r@ == 0,
    {
        Fr { bytes: scalar_from_u128(0) }
    }

    /// The scalar one.
    pub fn one() -> (r: Fr)
        ensures
            r@ == 1,
    {
        Fr { bytes: scalar_from_u128(1) }
    }

    /// The multiplicative inverse of the scalar, which every scalar but zero
    /// has.
    pub fn inverse(&self) -> (r: Option<Fr>)
        ensures
            r is Some <==> self@ != 0,
            r is Some ==> mul_mod(self@, r->Some_0@) == 1,
    {
        proof {
            use_type_invariant(self);
        }
        match scalar_inverse(&self.bytes) {
            Some(bytes) => Some(Fr { bytes }),
            None => None,
        }
    }

    /// Decodes a scalar, refusing an encoding that is not canonical.
    pub fn from_bytes_checked(bytes: &[u8; 32]) -> (r: Option<Fr>)
        ensures
            r is Some <==> is_canonical_scalar(bytes@),
            r is Some ==> r->Some_0@ == le_value(bytes@),
    {
        match scalar_from_bytes_checked(bytes) {
            Ok(canonical) => Some(Fr { bytes: canonical }),
            Err(_) => None,
        }
    }

    /// Reads `bytes` as a little-endian number and reduces it modulo the group
    /// order.
    pub fn from_le_bytes_mod_order(bytes: &[u8]) -> (r: Fr)
        ensures
            r@ == le_value(bytes@) % group_order(),
    {
        Fr { bytes: scalar_from_le_bytes_mod_order(bytes) }
    }

    /// The scalar with the value of `x`.
    pub fn from_u128(x: u128) -> (r: Fr)
        ensures
            r@ == x,
    {
        Fr { bytes: scalar_from_u128(x) }
    }

    /// The canonical encoding of the scalar.
    pub fn to_bytes(&self) -> (bytes: [u8; 32])
        ensures
            bytes == self.array(),
            bytes@ == le_bytes(self@, 32),
            is_canonical_scalar(bytes@),
    {
        proof {
            use_type_invariant(self);
            self.lemma_encoding();
        }
        self.bytes
    }

    /// The sum modulo the group order.
    pub fn add(&self, other: &Fr) -> (r: Fr)
        ensures
            r@ == add_mod(self@, other@),
    {
        proof {
            use_type_invariant(self);
            use_type_invariant(other);
        }
        Fr { bytes: scalar_add(&self.bytes, &other.bytes) }
    }

    /// The difference modulo the group order.
    pub fn sub(&self, other: &Fr) -> (r: Fr)
        ensures
            r@ == sub_mod(self@, other@),
    {
        proof {
            use_type_invariant(self);
            use_type_invariant(other);
        }
        Fr { bytes: scalar_sub(&self.bytes, &other.bytes) }
    }

    /// The product modulo the group order.
    pub fn mul(&self, other: &Fr) -> (r: Fr)
        ensures
            r@ == mul_mod(self@, other@),
    {
        proof {
            use_type_invariant(self);
            use_type_invariant(other);
        }
        Fr { bytes: scalar_mul(&self.bytes, &other.bytes) }
    }
}

} // verus!
