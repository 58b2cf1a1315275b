//! `H^star`, the hash-to-scalar function of the signature scheme.

use crate::little_endian::le_value;
use crate::scalar::{group_order, Fr};
use vstd::prelude::*;

verus! {

/// The 64-byte BLAKE2b digest of `data` under the personalisation `personal`,
/// without key or salt.
pub uninterp spec fn blake2b_512(personal: Seq<u8>, data: Seq<u8>) -> Seq<u8>;

/// `blake2b_simd::Params::hash` with the default parameters but for the
/// personalisation, which may have at most 16 bytes: the 64-byte digest of
/// `data`.
#[verifier::external_body]
pub(crate) fn blake2b(personal: &[u8], data: &[u8]) -> (digest: [u8; 64])
    requires
        personal@.len() <= 16,
    ensures
        digest@ == blake2b_512(personal@, data@),
{
    *blake2b_simd::Params::new().personal(personal).hash(data).as_array()
}

/// The personalisation of `H^star`: the ASCII string `decaf377-rdsa---`.
pub open spec fn personalization() -> Seq<u8> {
    seq![
        0x64u8, 0x65u8, 0x63u8, 0x61u8, 0x66u8, 0x33u8, 0x37u8, 0x37u8,
        0x2du8, 0x72u8, 0x64u8, 0x73u8, 0x61u8, 0x2du8, 0x2du8, 0x2du8,
    ]
}

/// `H^star` of `data`: the personalised BLAKE2b digest of `data`, read as a
/// little-endian number and reduced modulo the group order.
pub open spec fn hstar(data: Seq<u8>) -> nat {
    le_value(blake2b_512(personalization(), data)) % group_order()
}

/// Provides `H^star`, the hash-to-scalar function.
///
/// The state is the input given so far; it is hashed when the scalar is asked
/// for.
pub struct HStar {
    input: Vec<u8>,
}

impl View for HStar {
    type V = Seq<u8>;

    /// The input given so far.
    closed spec fn view(&self) -> Seq<u8> {
        self.input@
    }
}

impl Default for HStar {
    /// A hasher that has been given no input.
    fn default() -> (h: Self)
        ensures
            h@ == Seq::<u8>::empty(),
    {
        HStar { input: Vec::new() }
    }
}

impl HStar {
    /// Add `data` to the hash, and return `Self` for chaining.
    pub fn update(&mut self, data: &[u8]) -> (ret: &mut Self)
        ensures
            ret@ == old(self)@ + data@,
            *final(self) == *final(ret),
    {
        let mut i: usize = 0;
        while i < data.len()
            invariant
                i <= data.len(),
                self.input@ == old(self).input@ + data@.subrange(0, i as int),
            decreases data.len() - i,
        {
            self.input.push(data[i]);
            i += 1;
            assert(data@.subrange(0, i as int) =~= data@.subrange(0, i - 1).push(data@[i - 1]));
        }
        assert(data@.subrange(0, i as int) =~= data@);
        self
    }

    /// Compute the hash output. The state is kept: more input may follow, and
    /// a second call without new input gives the same scalar.
    pub fn finalize(&self) -> (r: Fr)
        ensures
            r@ == hstar(self@),
    {
        let personal: [u8; 16] = [
            0x64, 0x65, 0x63, 0x61, 0x66, 0x33, 0x37, 0x37,
            0x2d, 0x72, 0x64, 0x73, 0x61, 0x2d, 0x2d, 0x2d,
        ];
        assert(personal@ =~= personalization());
        let digest = blake2b(personal.as_slice(), self.input.as_slice());
        Fr::from_le_bytes_mod_order(digest.as_slice())
    }
}

} // verus!
