//! Signatures: 64 bytes, a compressed group element `R` followed by the
//! encoding of a scalar `s`.

use crate::domain::Domain;
use crate::error::Error;
use core::marker::PhantomData;
use vstd::prelude::*;
use vstd::std_specs::cmp::PartialEqSpecImpl;
use vstd::std_specs::convert::{FromSpecImpl, TryFromSpecImpl};

verus! {

/// A `decaf377-rdsa` signature.
///
/// Nothing is checked when a signature is made from bytes: whether the bytes
/// decode is found out when the signature is verified.
#[derive(Copy, Debug, Eq)]
pub struct Signature<D: Domain> {
    bytes: [u8; 64],
    _marker: PhantomData<D>,
}

impl<D: Domain> Clone for Signature<D> {
    fn clone(&self) -> (sig: Self)
        ensures
            sig == *self,
    {
        *self
    }
}

impl<D: Domain> PartialEq for Signature<D> {
    /// Signatures are equal when their bytes are.
    fn eq(&self, other: &Self) -> (b: bool) {
        crate::lexicographic::equal(self.bytes.as_slice(), other.bytes.as_slice())
    }
}

impl<D: Domain> PartialEqSpecImpl for Signature<D> {
    open spec fn obeys_eq_spec() -> bool {
        true
    }

    open spec fn eq_spec(&self, other: &Self) -> bool {
        self@ == other@
    }
}

impl<D: Domain> View for Signature<D> {
    type V = Seq<u8>;

    /// The 64 bytes of the signature.
    closed spec fn view(&self) -> Seq<u8> {
        self.bytes@
    }
}

impl<D: Domain> Signature<D> {
    /// The first half of the signature: the encoding of the element `R`.
    pub open spec fn r_part(self) -> Seq<u8> {
        self@.subrange(0, 32)
    }

    /// The second half of the signature: the encoding of the scalar `s`.
    pub open spec fn s_part(self) -> Seq<u8> {
        self@.subrange(32, 64)
    }

    /// The signature that holds the 64 bytes `bytes`.
    pub closed spec fn of_bytes(bytes: Seq<u8>) -> Self {
        choose|sig: Self| sig@ == bytes
    }

    /// A signature is 64 bytes and nothing more.
    pub proof fn lemma_is_its_bytes(self)
        ensures
            self@.len() == 64,
            self == Self::of_bytes(self@),
    {
        let other = Self::of_bytes(self@);
        assert(other@ == self@);
        assert(other.bytes =~= self.bytes);
    }

    /// The bytes of the signature, as an array.
    pub closed spec fn array(self) -> [u8; 64] {
        self.bytes
    }

    /// Returns the bytes of the signature.
    ///
    /// This is the same as `.into()`, but does not require type inference.
    pub fn to_bytes(&self) -> (bytes: [u8; 64])
        ensures
            bytes == self.array(),
            bytes@ == self@,
    {
        self.bytes
    }

    /// The signature with `r_bytes` as its first half and `s_bytes` as its
    /// second.
    pub fn from_parts(r_bytes: [u8; 32], s_bytes: [u8; 32]) -> (sig: Self)
        ensures
            sig@ == r_bytes@ + s_bytes@,
    {
        let mut bytes = [0u8; 64];
        let mut i: usize = 0;
        while i < 32
            invariant
                i <= 32,
                forall|j: int| 0 <= j < i ==> bytes@[j] == r_bytes@[j],
                forall|j: int| 0 <= j < i ==> bytes@[32 + j] == s_bytes@[j],
            decreases 32 - i,
        {
            bytes[i] = r_bytes[i];
            bytes[32 + i] = s_bytes[i];
            i += 1;
        }
        assert(bytes@ =~= r_bytes@ + s_bytes@);
        Signature { bytes, _marker: PhantomData }
    }

    /// The first half of the signature.
    pub fn r_bytes(&self) -> (r: [u8; 32])
        ensures
            r@ == self.r_part(),
    {
        let mut r = [0u8; 32];
        let mut i: usize = 0;
        while i < 32
            invariant
                i <= 32,
                forall|j: int| 0 <= j < i ==> r@[j] == self.bytes@[j],
            decreases 32 - i,
        {
            r[i] = self.bytes[i];
            i += 1;
        }
        assert(r@ =~= self.r_part());
        r
    }

    /// The second half of the signature.
    pub fn s_bytes(&self) -> (s: [u8; 32])
        ensures
            s@ == self.s_part(),
    {
        let mut s = [0u8; 32];
        let mut i: usize = 0;
        while i < 32
            invariant
                i <= 32,
                forall|j: int| 0 <= j < i ==> s@[j] == self.bytes@[32 + j],
            decreases 32 - i,
        {
            s[i] = self.bytes[32 + i];
            i += 1;
        }
        assert(s@ =~= self.s_part());
        s
    }
}

impl<D: Domain> From<[u8; 64]> for Signature<D> {
    /// The signature that holds `bytes`.
    fn from(bytes: [u8; 64]) -> (sig: Signature<D>)
        ensures
            sig@ == bytes@,
    {
        let sig = Signature { bytes, _marker: PhantomData };
        proof {
            sig.lemma_is_its_bytes();
        }
        sig
    }
}

impl<D: Domain> FromSpecImpl<[u8; 64]> for Signature<D> {
    open spec fn obeys_from_spec() -> bool {
        true
    }

    open spec fn from_spec(bytes: [u8; 64]) -> Signature<D> {
        Self::of_bytes(bytes@)
    }
}

impl<D: Domain> TryFrom<&[u8]> for Signature<D> {
    type Error = Error;

    /// Reads a signature from a slice, which must have 64 bytes.
    fn try_from(bytes: &[u8]) -> (r: Result<Self, Error>)
        ensures
            bytes@.len() == 64 ==> r is Ok && r->Ok_0@ == bytes@,
            bytes@.len() != 64 ==> r == Err::<Self, Error>(
                Error::WrongSliceLength { expected: 64, found: bytes@.len() as usize },
            ),
    {
        if bytes.len() == 64 {
            let mut bytes64 = [0u8; 64];
            let mut i: usize = 0;
            while i < 64
                invariant
                    i <= 64,
                    bytes@.len() == 64,
                    forall|j: int| 0 <= j < i ==> bytes64@[j] == bytes@[j],
                decreases 64 - i,
            {
                bytes64[i] = bytes[i];
                i += 1;
            }
            assert(bytes64@ =~= bytes@);
            let sig = Signature { bytes: bytes64, _marker: PhantomData };
            proof {
                sig.lemma_is_its_bytes();
            }
            Ok(sig)
        } else {
            Err(Error::WrongSliceLength { expected: 64, found: bytes.len() })
        }
    }
}

impl<D: Domain> TryFromSpecImpl<&[u8]> for Signature<D> {
    open spec fn obeys_try_from_spec() -> bool {
        true
    }

    open spec fn try_from_spec(bytes: &[u8]) -> Result<Self, Error> {
        if bytes@.len() == 64 {
            Ok(Self::of_bytes(bytes@))
        } else {
            Err(Error::WrongSliceLength { expected: 64, found: bytes@.len() as usize })
        }
    }
}

impl<D: Domain> From<Signature<D>> for [u8; 64] {
    /// The bytes of the signature.
    fn from(sig: Signature<D>) -> (bytes: [u8; 64])
        ensures
            bytes@ == sig@,
    {
        sig.to_bytes()
    }
}

impl<D: Domain> FromSpecImpl<Signature<D>> for [u8; 64] {
    open spec fn obeys_from_spec() -> bool {
        true
    }

    open spec fn from_spec(sig: Signature<D>) -> [u8; 64] {
        sig.array()
    }
}

impl<D: Domain> AsRef<[u8]> for Signature<D> {
    fn as_ref(&self) -> (bytes: &[u8])
        ensures
            bytes@ == self@,
    {
        self.bytes.as_slice()
    }
}

impl<D: Domain> TryFrom<Vec<u8>> for Signature<D> {
    type Error = Error;

    /// Reads a signature from a vector, which must have 64 bytes.
    fn try_from(value: Vec<u8>) -> (r: Result<Self, Error>)
        ensures
            value@.len() == 64 ==> r is Ok && r->Ok_0@ == value@,
            value@.len() != 64 ==> r == Err::<Self, Error>(
                Error::WrongSliceLength { expected: 64, found: value@.len() as usize },
            ),
    {
        <Signature<D> as TryFrom<&[u8]>>::try_from(value.as_slice())
    }
}

impl<D: Domain> TryFromSpecImpl<Vec<u8>> for Signature<D> {
    open spec fn obeys_try_from_spec() -> bool {
        true
    }

    open spec fn try_from_spec(value: Vec<u8>) -> Result<Self, Error> {
        if value@.len() == 64 {
            Ok(Self::of_bytes(value@))
        } else {
            Err(Error::WrongSliceLength { expected: 64, found: value@.len() as usize })
        }
    }
}

impl<D: Domain> From<Signature<D>> for Vec<u8> {
    /// The bytes of the signature.
    fn from(sig: Signature<D>) -> (bytes: Vec<u8>)
        ensures
            bytes@ == sig@,
    {
        let array = sig.to_bytes();
        vstd::slice::slice_to_vec(array.as_slice())
    }
}

impl<D: Domain> FromSpecImpl<Signature<D>> for Vec<u8> {
    open spec fn obeys_from_spec() -> bool {
        false
    }

    open spec fn from_spec(sig: Signature<D>) -> Vec<u8> {
        arbitrary()
    }
}

} // verus!
