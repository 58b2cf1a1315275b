//! Verification keys, and the verification of signatures.

use crate::domain::{Domain, Sealed, SpendAuth};
use crate::error::Error;
use crate::group::{
    discrete_log, encodes, generator_multiple_encoding, is_element_encoding, Element,
};
use crate::hash::{hstar, HStar};
use crate::little_endian::le_value;
use crate::modular::lemma_verification_residue;
use crate::scalar::{add_mod, group_order, is_canonical_scalar, mul_mod, Fr};
use crate::signature::Signature;
use core::marker::PhantomData;
use core::cmp::Ordering;
use vstd::prelude::*;
use vstd::std_specs::cmp::{PartialEqSpecImpl, PartialOrdSpecImpl};
use vstd::std_specs::convert::{FromSpecImpl, TryFromSpecImpl};

verus! {

/// The encoding of the verification key of the signing key `sk`, in the
/// domain whose basepoint has the discrete logarithm `basepoint`: the
/// encoding of the multiple of the basepoint by `sk`.
pub open spec fn public_key_encoding(basepoint: nat, sk: nat) -> Seq<u8> {
    generator_multiple_encoding(mul_mod(basepoint, sk))
}

/// The challenge of a signature: `H^star` of the encoding of `R`, the
/// encoding of the verification key and the message.
pub open spec fn challenge(r_bytes: Seq<u8>, vk_bytes: Seq<u8>, msg: Seq<u8>) -> nat {
    hstar(r_bytes + vk_bytes + msg)
}

/// The verification equation `s * B - c * A - R == 0`, over the discrete
/// logarithms of the basepoint `B`, the verification key `A` and the
/// element `R`.
pub open spec fn equation_holds(basepoint: nat, key: nat, r: nat, s: nat, c: nat) -> bool {
    (s * basepoint - c * key - r) % (group_order() as int) == 0
}

/// Whether the 64 bytes `sig` are a signature with the challenge `c` under the
/// key that `vk_bytes` encodes: the first half decodes to an element `R`, the
/// second half is the canonical encoding of a scalar `s`, and the verification
/// equation holds of them.
pub open spec fn verifies_prehashed(
    basepoint: nat,
    vk_bytes: Seq<u8>,
    sig: Seq<u8>,
    c: nat,
) -> bool {
    let r_bytes = sig.subrange(0, 32);
    let s_bytes = sig.subrange(32, 64);
    &&& is_element_encoding(r_bytes)
    &&& is_canonical_scalar(s_bytes)
    &&& equation_holds(
        basepoint,
        discrete_log(vk_bytes),
        discrete_log(r_bytes),
        le_value(s_bytes),
        c,
    )
}

/// Whether the 64 bytes `sig` are a signature on `msg` under the key that
/// `vk_bytes` encodes.
pub open spec fn verifies(basepoint: nat, vk_bytes: Seq<u8>, msg: Seq<u8>, sig: Seq<u8>) -> bool {
    verifies_prehashed(basepoint, vk_bytes, sig, challenge(sig.subrange(0, 32), vk_bytes, msg))
}

/// A refinement type for `[u8; 32]` indicating that the bytes represent an
/// encoding of a `decaf377-rdsa` verification key.
///
/// The bytes are not checked: whether they encode a group element is found out
/// when they are made a [`VerificationKey`].
#[derive(Copy, Debug, Eq, Ord, Hash)]
pub struct VerificationKeyBytes<D: Domain> {
    bytes: [u8; 32],
    _marker: PhantomData<D>,
}

impl<D: Domain> Clone for VerificationKeyBytes<D> {
    fn clone(&self) -> (r: Self)
        ensures
            r == *self,
    {
        *self
    }
}

impl<D: Domain> PartialEq for VerificationKeyBytes<D> {
    /// Encodings are equal when their bytes are.
    fn eq(&self, other: &Self) -> (b: bool) {
        crate::lexicographic::equal(self.bytes.as_slice(), other.bytes.as_slice())
    }
}

impl<D: Domain> PartialEqSpecImpl for VerificationKeyBytes<D> {
    open spec fn obeys_eq_spec() -> bool {
        true
    }

    open spec fn eq_spec(&self, other: &Self) -> bool {
        self@ == other@
    }
}

impl<D: Domain> PartialOrd for VerificationKeyBytes<D> {
    /// Encodings are ordered as their bytes are.
    fn partial_cmp(&self, other: &Self) -> (o: Option<Ordering>) {
        Some(
            crate::lexicographic::order_from(
                crate::lexicographic::compare(self.bytes.as_slice(), other.bytes.as_slice()),
            ),
        )
    }
}

impl<D: Domain> PartialOrdSpecImpl for VerificationKeyBytes<D> {
    open spec fn obeys_partial_cmp_spec() -> bool {
        true
    }

    open spec fn partial_cmp_spec(&self, other: &Self) -> Option<Ordering> {
        Some(crate::lexicographic::order(self@, other@))
    }
}

impl<D: Domain> View for VerificationKeyBytes<D> {
    type V = Seq<u8>;

    /// The 32 bytes.
    closed spec fn view(&self) -> Seq<u8> {
        self.bytes@
    }
}

impl<D: Domain> VerificationKeyBytes<D> {
    /// The refinement of the 32 bytes `bytes`.
    pub closed spec fn of_bytes(bytes: Seq<u8>) -> Self {
        choose|vk: Self| vk@ == bytes
    }

    /// The 32 bytes, as an array.
    pub closed spec fn array(self) -> [u8; 32] {
        self.bytes
    }

    /// The refinement is its 32 bytes and nothing more.
    pub proof fn lemma_is_its_bytes(self)
        ensures
            self@.len() == 32,
            self == Self::of_bytes(self@),
    {
        let other = Self::of_bytes(self@);
        assert(other@ == self@);
        assert(other.bytes =~= self.bytes);
    }
}

impl<D: Domain> AsRef<[u8; 32]> for VerificationKeyBytes<D> {
    fn as_ref(&self) -> (r: &[u8; 32])
        ensures
            *r == self.array(),
            r@ == self@,
    {
        &self.bytes
    }
}

impl<D: Domain> From<VerificationKeyBytes<D>> for [u8; 32] {
    /// The 32 bytes.
    fn from(refined: VerificationKeyBytes<D>) -> (bytes: [u8; 32])
        ensures
            bytes@ == refined@,
    {
        refined.bytes
    }
}

impl<D: Domain> FromSpecImpl<VerificationKeyBytes<D>> for [u8; 32] {
    open spec fn obeys_from_spec() -> bool {
        true
    }

    open spec fn from_spec(refined: VerificationKeyBytes<D>) -> [u8; 32] {
        refined.array()
    }
}

impl<D: Domain> From<[u8; 32]> for VerificationKeyBytes<D> {
    /// The refinement of `bytes`.
    fn from(bytes: [u8; 32]) -> (r: VerificationKeyBytes<D>)
        ensures
            r@ == bytes@,
    {
        let r = VerificationKeyBytes { bytes, _marker: PhantomData };
        proof {
            r.lemma_is_its_bytes();
        }
        r
    }
}

impl<D: Domain> FromSpecImpl<[u8; 32]> for VerificationKeyBytes<D> {
    open spec fn obeys_from_spec() -> bool {
        true
    }

    open spec fn from_spec(bytes: [u8; 32]) -> VerificationKeyBytes<D> {
        Self::of_bytes(bytes@)
    }
}

impl<D: Domain> TryFrom<&[u8]> for VerificationKeyBytes<D> {
    type Error = Error;

    /// Reads the encoding of a verification key from a slice, which must have
    /// 32 bytes.
    fn try_from(bytes: &[u8]) -> (r: Result<Self, Error>)
        ensures
            bytes@.len() == 32 ==> r is Ok && r->Ok_0@ == bytes@,
            bytes@.len() != 32 ==> r == Err::<Self, Error>(
                Error::WrongSliceLength { expected: 32, found: bytes@.len() as usize },
            ),
    {
        if bytes.len() == 32 {
            let mut bytes32 = [0u8; 32];
            let mut i: usize = 0;
            while i < 32
                invariant
                    i <= 32,
                    bytes@.len() == 32,
                    forall|j: int| 0 <= j < i ==> bytes32@[j] == bytes@[j],
                decreases 32 - i,
            {
                bytes32[i] = bytes[i];
                i += 1;
            }
            assert(bytes32@ =~= bytes@);
            let r = VerificationKeyBytes { bytes: bytes32, _marker: PhantomData };
            proof {
                r.lemma_is_its_bytes();
            }
            Ok(r)
        } else {
            Err(Error::WrongSliceLength { expected: 32, found: bytes.len() })
        }
    }
}

impl<D: Domain> TryFromSpecImpl<&[u8]> for VerificationKeyBytes<D> {
    open spec fn obeys_try_from_spec() -> bool {
        true
    }

    open spec fn try_from_spec(bytes: &[u8]) -> Result<Self, Error> {
        if bytes@.len() == 32 {
            Ok(Self::of_bytes(bytes@))
        } else {
            Err(Error::WrongSliceLength { expected: 32, found: bytes@.len() as usize })
        }
    }
}

/// A valid `decaf377-rdsa` verification key.
///
/// The key holds the group element beside its encoding. The identity is a
/// valid verification key.
#[derive(Copy, Debug, Eq, Ord, Hash)]
pub struct VerificationKey<D: Domain> {
    point: Element,
    bytes: VerificationKeyBytes<D>,
}

impl<D: Domain> Clone for VerificationKey<D> {
    fn clone(&self) -> (r: Self)
        ensures
            r == *self,
    {
        *self
    }
}

impl<D: Domain> PartialEq for VerificationKey<D> {
    /// Keys are equal when their encodings are.
    fn eq(&self, other: &Self) -> (b: bool) {
        crate::lexicographic::equal(self.bytes.bytes.as_slice(), other.bytes.bytes.as_slice())
    }
}

impl<D: Domain> PartialEqSpecImpl for VerificationKey<D> {
    open spec fn obeys_eq_spec() -> bool {
        true
    }

    open spec fn eq_spec(&self, other: &Self) -> bool {
        self@ == other@
    }
}

impl<D: Domain> PartialOrd for VerificationKey<D> {
    /// Keys are ordered as their encodings are.
    fn partial_cmp(&self, other: &Self) -> (o: Option<Ordering>) {
        Some(
            crate::lexicographic::order_from(
                crate::lexicographic::compare(
                    self.bytes.bytes.as_slice(),
                    other.bytes.bytes.as_slice(),
                ),
            ),
        )
    }
}

impl<D: Domain> PartialOrdSpecImpl for VerificationKey<D> {
    open spec fn obeys_partial_cmp_spec() -> bool {
        true
    }

    open spec fn partial_cmp_spec(&self, other: &Self) -> Option<Ordering> {
        Some(crate::lexicographic::order(self@, other@))
    }
}

impl<D: Domain> View for VerificationKey<D> {
    type V = Seq<u8>;

    /// The encoding of the key.
    closed spec fn view(&self) -> Seq<u8> {
        self.bytes@
    }
}

impl<D: Domain> VerificationKey<D> {
    /// The bytes of a key are the compression of its element.
    #[verifier::type_invariant]
    pub closed spec fn wf(self) -> bool {
        self.point.wf() && self.point.encoding() == self.bytes@
    }

    /// The key that `bytes` encodes.
    pub closed spec fn of_bytes(bytes: Seq<u8>) -> Self {
        choose|vk: Self| vk.wf() && vk@ == bytes
    }

    /// A key is determined by its encoding, which is the encoding of a group
    /// element.
    pub proof fn lemma_is_its_bytes(self)
        requires
            self.wf(),
        ensures
            is_element_encoding(self@),
            self == Self::of_bytes(self@),
    {
        let other = Self::of_bytes(self@);
        assert(other.wf() && other@ == self@);
        other.bytes.lemma_is_its_bytes();
        self.bytes.lemma_is_its_bytes();
        self.point.lemma_is_its_encoding(other.point);
    }

    /// The encoding of the key, as an array.
    pub closed spec fn array(self) -> [u8; 32] {
        self.bytes.array()
    }

    /// The encoding of the key, as a refinement of 32 bytes.
    pub closed spec fn refined(self) -> VerificationKeyBytes<D> {
        self.bytes
    }

    /// Returns the byte encoding of the verification key.
    ///
    /// This is the same as `.into()`, but does not require type inference.
    pub fn to_bytes(&self) -> (bytes: [u8; 32])
        ensures
            bytes == self.array(),
            bytes@ == self@,
            is_element_encoding(bytes@),
    {
        proof {
            use_type_invariant(self);
            self.lemma_is_its_bytes();
        }
        *self.bytes.as_ref()
    }

    /// The verification key of the signing key `s`: the multiple of the
    /// domain's basepoint by `s`.
    pub(crate) fn from_scalar(s: &Fr) -> (vk: VerificationKey<D>)
        ensures
            vk@ == public_key_encoding(D::basepoint_log(), s@),
            encodes(vk@, mul_mod(D::basepoint_log(), s@)),
    {
        let point = D::basepoint().mul(s);
        proof {
            use_type_invariant(&point);
        }
        let bytes = VerificationKeyBytes { bytes: point.vartime_compress(), _marker: PhantomData };
        VerificationKey { bytes, point }
    }

    /// Verify a purported `signature` over `msg` made by this verification key.
    pub fn verify(&self, msg: &[u8], signature: &Signature<D>) -> (r: Result<(), Error>)
        ensures
            r is Ok <==> verifies(D::basepoint_log(), self@, msg@, signature@),
            r is Err ==> r == Err::<(), Error>(Error::InvalidSignature),
    {
        let r_bytes = signature.r_bytes();
        let c = HStar::default().update(r_bytes.as_slice()).update(
            self.bytes.as_ref().as_slice(),
        ).update(msg).finalize();
        assert(Seq::<u8>::empty() + r_bytes@ + self@ + msg@ =~= signature.r_part() + self@ + msg@);
        self.verify_prehashed(signature, c)
    }

    /// Convenience method for identity checks.
    pub fn is_identity(&self) -> (b: bool)
        ensures
            b == (discrete_log(self@) == 0),
    {
        proof {
            use_type_invariant(self);
        }
        self.point.is_identity()
    }

    /// Verify a purported `signature` with a prehashed challenge.
    pub(crate) fn verify_prehashed(&self, signature: &Signature<D>, c: Fr) -> (r: Result<
        (),
        Error,
    >)
        ensures
            r is Ok <==> verifies_prehashed(D::basepoint_log(), self@, signature@, c@),
            r is Err ==> r == Err::<(), Error>(Error::InvalidSignature),
    {
        proof {
            use_type_invariant(self);
        }
        let r_point = match Element::vartime_decompress(&signature.r_bytes()) {
            Some(p) => p,
            None => { return Err(Error::InvalidSignature); },
        };
        let s = match Fr::from_bytes_checked(&signature.s_bytes()) {
            Some(s) => s,
            None => { return Err(Error::InvalidSignature); },
        };
        let s_b = D::basepoint().mul(&s);
        let c_a = self.point.mul(&c);
        let check = s_b.sub(&c_a).sub(&r_point);
        proof {
            use_type_invariant(&r_point);
            lemma_verification_residue(
                D::basepoint_log(),
                s@,
                discrete_log(self@),
                c@,
                discrete_log(signature.r_part()),
            );
        }
        if check.is_identity() {
            Ok(())
        } else {
            Err(Error::InvalidSignature)
        }
    }
}

impl VerificationKey<SpendAuth> {
    /// Randomize this verification key with the given `randomizer`: the key
    /// of the element `A + r * B`, for `B` the `SpendAuth` basepoint.
    ///
    /// Randomization is only supported for `SpendAuth` keys.
    pub fn randomize(&self, randomizer: &Fr) -> (vk: VerificationKey<SpendAuth>)
        ensures
            vk@ == generator_multiple_encoding(add_mod(discrete_log(self@), randomizer@)),
            encodes(vk@, add_mod(discrete_log(self@), randomizer@)),
    {
        proof {
            use_type_invariant(self);
            use_type_invariant(randomizer);
        }
        let point = self.point.add(&SpendAuth::basepoint().mul(randomizer));
        proof {
            use_type_invariant(&point);
            assert(mul_mod(1, randomizer@) == randomizer@) by {
                vstd::arithmetic::div_mod::lemma_small_mod(randomizer@, group_order());
            }
        }
        let bytes = VerificationKeyBytes { bytes: point.vartime_compress(), _marker: PhantomData };
        VerificationKey { bytes, point }
    }
}

impl<D: Domain> TryFrom<VerificationKeyBytes<D>> for VerificationKey<D> {
    type Error = Error;

    /// Decodes a verification key. The identity element is allowed as a
    /// verification key.
    fn try_from(bytes: VerificationKeyBytes<D>) -> (r: Result<Self, Error>)
        ensures
            r is Ok <==> is_element_encoding(bytes@),
            r is Ok ==> r->Ok_0@ == bytes@,
            r is Err ==> r == Err::<Self, Error>(Error::MalformedVerificationKey),
    {
        match Element::vartime_decompress(bytes.as_ref()) {
            Some(point) => {
                proof {
                    use_type_invariant(&point);
                }
                let vk = VerificationKey { point, bytes };
                proof {
                    vk.lemma_is_its_bytes();
                }
                Ok(vk)
            },
            None => Err(Error::MalformedVerificationKey),
        }
    }
}

impl<D: Domain> TryFromSpecImpl<VerificationKeyBytes<D>> for VerificationKey<D> {
    open spec fn obeys_try_from_spec() -> bool {
        true
    }

    open spec fn try_from_spec(bytes: VerificationKeyBytes<D>) -> Result<Self, Error> {
        if is_element_encoding(bytes@) {
            Ok(Self::of_bytes(bytes@))
        } else {
            Err(Error::MalformedVerificationKey)
        }
    }
}

impl<D: Domain> From<VerificationKey<D>> for VerificationKeyBytes<D> {
    /// The encoding of the key.
    fn from(pk: VerificationKey<D>) -> (bytes: VerificationKeyBytes<D>)
        ensures
            bytes@ == pk@,
    {
        pk.bytes
    }
}

impl<D: Domain> FromSpecImpl<VerificationKey<D>> for VerificationKeyBytes<D> {
    open spec fn obeys_from_spec() -> bool {
        true
    }

    open spec fn from_spec(pk: VerificationKey<D>) -> VerificationKeyBytes<D> {
        pk.refined()
    }
}

impl<D: Domain> From<VerificationKey<D>> for [u8; 32] {
    /// The encoding of the key.
    fn from(pk: VerificationKey<D>) -> (bytes: [u8; 32])
        ensures
            bytes@ == pk@,
    {
        pk.to_bytes()
    }
}

impl<D: Domain> FromSpecImpl<VerificationKey<D>> for [u8; 32] {
    open spec fn obeys_from_spec() -> bool {
        true
    }

    open spec fn from_spec(pk: VerificationKey<D>) -> [u8; 32] {
        pk.array()
    }
}

impl<'a, D: Domain> From<&'a VerificationKey<D>> for [u8; 32] {
    /// The encoding of the key.
    fn from(pk: &'a VerificationKey<D>) -> (bytes: [u8; 32])
        ensures
            bytes@ == pk@,
    {
        pk.to_bytes()
    }
}

impl<'a, D: Domain> FromSpecImpl<&'a VerificationKey<D>> for [u8; 32] {
    open spec fn obeys_from_spec() -> bool {
        true
    }

    open spec fn from_spec(pk: &'a VerificationKey<D>) -> [u8; 32] {
        pk.array()
    }
}

impl<D: Domain> AsRef<[u8; 32]> for VerificationKey<D> {
    fn as_ref(&self) -> (r: &[u8; 32])
        ensures
            r@ == self@,
    {
        self.bytes.as_ref()
    }
}

impl<D: Domain> TryFrom<[u8; 32]> for VerificationKey<D> {
    type Error = Error;

    /// Decodes a verification key. The identity element is allowed as a
    /// verification key.
    fn try_from(bytes: [u8; 32]) -> (r: Result<Self, Error>)
        ensures
            r is Ok <==> is_element_encoding(bytes@),
            r is Ok ==> r->Ok_0@ == bytes@,
            r is Err ==> r == Err::<Self, Error>(Error::MalformedVerificationKey),
    {
        let refined = <VerificationKeyBytes<D> as From<[u8; 32]>>::from(bytes);
        <VerificationKey<D> as TryFrom<VerificationKeyBytes<D>>>::try_from(refined)
    }
}

impl<D: Domain> TryFromSpecImpl<[u8; 32]> for VerificationKey<D> {
    open spec fn obeys_try_from_spec() -> bool {
        true
    }

    open spec fn try_from_spec(bytes: [u8; 32]) -> Result<Self, Error> {
        if is_element_encoding(bytes@) {
            Ok(Self::of_bytes(bytes@))
        } else {
            Err(Error::MalformedVerificationKey)
        }
    }
}

impl<D: Domain> TryFrom<&[u8]> for VerificationKey<D> {
    type Error = Error;

    /// Reads a verification key from a slice, which must have 32 bytes, and
    /// decodes it.
    fn try_from(bytes: &[u8]) -> (r: Result<Self, Error>)
        ensures
            r is Ok <==> is_element_encoding(bytes@),
            r is Ok ==> r->Ok_0@ == bytes@,
            bytes@.len() != 32 ==> r == Err::<Self, Error>(
                Error::WrongSliceLength { expected: 32, found: bytes@.len() as usize },
            ),
            bytes@.len() == 32 && !is_element_encoding(bytes@) ==> r == Err::<Self, Error>(
                Error::MalformedVerificationKey,
            ),
    {
        match <VerificationKeyBytes<D> as TryFrom<&[u8]>>::try_from(bytes) {
            Ok(refined) => <VerificationKey<D> as TryFrom<VerificationKeyBytes<D>>>::try_from(
                refined,
            ),
            Err(e) => Err(e),
        }
    }
}

impl<D: Domain> TryFromSpecImpl<&[u8]> for VerificationKey<D> {
    open spec fn obeys_try_from_spec() -> bool {
        true
    }

    open spec fn try_from_spec(bytes: &[u8]) -> Result<Self, Error> {
        if bytes@.len() != 32 {
            Err(Error::WrongSliceLength { expected: 32, found: bytes@.len() as usize })
        } else if is_element_encoding(bytes@) {
            Ok(Self::of_bytes(bytes@))
        } else {
            Err(Error::MalformedVerificationKey)
        }
    }
}

} // verus!
