//! Signing keys, and the making of signatures.

use crate::domain::{Domain, Sealed, SpendAuth};
use crate::error::Error;
use crate::group::{
    discrete_log, encodes, generator_multiple_encoding, is_element_encoding, Element,
};
use crate::hash::{hstar, HStar};
use crate::little_endian::{le_bytes, le_value, lemma_le_bytes_of_le_value};
use crate::modular::{lemma_mul_distributes, lemma_signature_equation};
use crate::scalar::{
    add_mod, group_order, is_canonical_scalar, lemma_scalar_encoding, mul_mod, Fr,
};
use crate::signature::Signature;
use crate::verification_key::{challenge, public_key_encoding, verifies, VerificationKey};
use vstd::prelude::*;
use vstd::std_specs::convert::{FromSpecImpl, TryFromSpecImpl};

verus! {

/// The nonce of a signature: `H^star` of the encoding of the signing key, the
/// bonus randomness, the encoding of the verification key and the message.
///
/// With the signing key and the message in the hash, a failing source of
/// randomness makes signing deterministic, and no worse.
pub open spec fn nonce(sk: nat, bonus_randomness: Seq<u8>, vk_bytes: Seq<u8>, msg: Seq<u8>) -> nat {
    hstar(le_bytes(sk, 32) + bonus_randomness + vk_bytes + msg)
}

/// The signature of the key `sk` on `msg`, made with `bonus_randomness`, in
/// the domain whose basepoint `B` has the discrete logarithm `basepoint`: the
/// encoding of `R = k * B` for the nonce `k`, followed by the encoding of
/// `s = k + c * sk` for the challenge `c`.
pub open spec fn signature_bytes(
    basepoint: nat,
    sk: nat,
    bonus_randomness: Seq<u8>,
    msg: Seq<u8>,
) -> Seq<u8> {
    let vk_bytes = public_key_encoding(basepoint, sk);
    let k = nonce(sk, bonus_randomness, vk_bytes, msg);
    let r_bytes = generator_multiple_encoding(mul_mod(basepoint, k));
    let c = challenge(r_bytes, vk_bytes, msg);
    let s = add_mod(k, mul_mod(c, sk));
    r_bytes + le_bytes(s, 32)
}

/// 48 zero bytes: what deterministic signing has in place of randomness.
pub open spec fn no_randomness() -> Seq<u8> {
    Seq::new(48, |i: int| 0u8)
}

/// A signature verifies under the verification key of the signing key that
/// made it, whatever the message and the randomness are.
///
/// `r` is the commitment of the signature as a group element: the multiple of
/// the domain's basepoint by the nonce, which the signature holds encoded.
pub proof fn lemma_signature_verifies<D: Domain>(
    sk: SigningKey<D>,
    bonus_randomness: Seq<u8>,
    msg: Seq<u8>,
    r: Element,
)
    requires
        sk.wf(),
        r.wf(),
        r@ == mul_mod(
            D::basepoint_log(),
            nonce(sk@, bonus_randomness, sk.verification_key_bytes(), msg),
        ),
    ensures
        r.encoding() + le_bytes(
            add_mod(
                nonce(sk@, bonus_randomness, sk.verification_key_bytes(), msg),
                mul_mod(challenge(r.encoding(), sk.verification_key_bytes(), msg), sk@),
            ),
            32,
        ) == signature_bytes(D::basepoint_log(), sk@, bonus_randomness, msg),
        verifies(
            D::basepoint_log(),
            sk.verification_key_bytes(),
            msg,
            signature_bytes(D::basepoint_log(), sk@, bonus_randomness, msg),
        ),
{
    sk.lemma_valid();
    let vk_bytes = sk.verification_key_bytes();
    let k = nonce(sk@, bonus_randomness, vk_bytes, msg);
    let c = challenge(r.encoding(), vk_bytes, msg);
    let s = add_mod(k, mul_mod(c, sk@));
    let sig = signature_bytes(D::basepoint_log(), sk@, bonus_randomness, msg);
    lemma_scalar_encoding(s);
    assert(sig == r.encoding() + le_bytes(s, 32));
    assert(sig.subrange(0, 32) =~= r.encoding());
    assert(sig.subrange(32, 64) =~= le_bytes(s, 32));
    lemma_signature_equation(D::basepoint_log(), sk@, k, c);
}

/// Decoding a signing key and encoding it again gives the bytes back: the
/// canonical encoding of a scalar is the 32 little-endian bytes of its value.
pub proof fn lemma_signing_key_round_trip(bytes: Seq<u8>)
    requires
        is_canonical_scalar(bytes),
    ensures
        le_bytes(le_value(bytes), 32) == bytes,
{
    lemma_le_bytes_of_le_value(bytes);
}

/// Randomization commutes with taking the verification key: the verification
/// key of the signing key randomized by `randomizer` is the verification key
/// of the signing key, randomized by `randomizer`.
pub proof fn lemma_randomization_commutes(sk: SigningKey<SpendAuth>, randomizer: Fr)
    requires
        sk.wf(),
        randomizer.wf(),
    ensures
        public_key_encoding(SpendAuth::basepoint_log(), add_mod(sk@, randomizer@))
            == generator_multiple_encoding(
            add_mod(discrete_log(sk.verification_key_bytes()), randomizer@),
        ),
{
    sk.lemma_valid();
    lemma_mul_distributes(1, sk@, randomizer@);
    vstd::arithmetic::div_mod::lemma_small_mod(randomizer@, group_order());
}

/// The verification key of the signing key zero is the identity of the
/// group, in either domain, and the identity is a valid verification key.
pub proof fn lemma_zero_key_is_identity<D: Domain>(sk: SigningKey<D>)
    requires
        sk.wf(),
        sk@ == 0,
    ensures
        is_element_encoding(sk.verification_key_bytes()),
        discrete_log(sk.verification_key_bytes()) == 0,
        sk.verification_key_bytes() == generator_multiple_encoding(0),
{
    sk.lemma_valid();
    assert(mul_mod(D::basepoint_log(), 0) == 0) by {
        assert(D::basepoint_log() * 0 == 0) by (nonlinear_arith);
    }
}

/// A `decaf377-rdsa` signing key.
#[derive(Copy, Debug)]
pub struct SigningKey<D: Domain> {
    sk: Fr,
    pk: VerificationKey<D>,
}

impl<D: Domain> Clone for SigningKey<D> {
    fn clone(&self) -> (r: Self)
        ensures
            r == *self,
    {
        *self
    }
}

impl<D: Domain> View for SigningKey<D> {
    type V = nat;

    /// The scalar that is the key.
    closed spec fn view(&self) -> nat {
        self.sk@
    }
}

impl<D: Domain> SigningKey<D> {
    /// The encoding of the verification key that the signing key holds.
    pub closed spec fn verification_key_bytes(self) -> Seq<u8> {
        self.pk@
    }

    /// The signing key with the scalar `sk`.
    pub closed spec fn of_scalar(sk: nat) -> Self {
        choose|key: Self| key.wf() && key@ == sk
    }

    /// A signing key is determined by its scalar.
    pub proof fn lemma_is_its_scalar(self)
        requires
            self.wf(),
        ensures
            self == Self::of_scalar(self@),
    {
        let other = Self::of_scalar(self@);
        assert(other.wf() && other@ == self@);
        self.sk.lemma_is_its_value(other.sk);
        self.pk.lemma_is_its_bytes();
        other.pk.lemma_is_its_bytes();
    }

    /// The verification key that a signing key holds is the multiple of the
    /// domain's basepoint by the key.
    #[verifier::type_invariant]
    pub closed spec fn wf(self) -> bool {
        &&& self.sk.wf()
        &&& self.pk.wf()
        &&& encodes(self.pk@, mul_mod(D::basepoint_log(), self.sk@))
    }

    /// What the validity of a signing key says of its scalar and of its
    /// verification key.
    pub proof fn lemma_valid(self)
        requires
            self.wf(),
        ensures
            self@ < group_order(),
            self.verification_key_bytes() == public_key_encoding(D::basepoint_log(), self@),
            encodes(self.verification_key_bytes(), mul_mod(D::basepoint_log(), self@)),
    {
    }

    /// The encoding of the signing key, as an array.
    pub closed spec fn array(self) -> [u8; 32] {
        self.sk.array()
    }

    /// Returns the byte encoding of the signing key.
    ///
    /// This is the same as `.into()`, but does not require type inference.
    pub fn to_bytes(&self) -> (bytes: [u8; 32])
        ensures
            bytes == self.array(),
            bytes@ == le_bytes(self@, 32),
            is_canonical_scalar(bytes@),
    {
        self.sk.to_bytes()
    }

    /// Create a new signing key from 64 random bytes, reduced modulo the
    /// group order.
    pub fn new(random_bytes: [u8; 64]) -> (sk: SigningKey<D>)
        ensures
            sk@ == le_value(random_bytes@) % group_order(),
            sk.verification_key_bytes() == public_key_encoding(D::basepoint_log(), sk@),
    {
        let sk = Fr::from_le_bytes_mod_order(random_bytes.as_slice());
        Self::new_from_field(sk)
    }

    /// Use the supplied field element as the signing key directly.
    ///
    /// # Warning
    ///
    /// This function exists to allow custom key derivation; it's the caller's
    /// responsibility to ensure that the input was generated securely.
    pub fn new_from_field(sk: Fr) -> (key: SigningKey<D>)
        ensures
            key@ == sk@,
            key == Self::of_scalar(sk@),
            key.verification_key_bytes() == public_key_encoding(D::basepoint_log(), sk@),
    {
        let pk = VerificationKey::from_scalar(&sk);
        proof {
            use_type_invariant(&sk);
            use_type_invariant(&pk);
        }
        let key = SigningKey { sk, pk };
        proof {
            key.lemma_is_its_scalar();
        }
        key
    }

    /// Create a signature for domain `D` on `msg` using this `SigningKey`,
    /// with 48 bytes of fresh randomness mixed into the nonce. The caller
    /// draws them anew for every signature, from a cryptographically secure
    /// source.
    ///
    /// The signature verifies under the key's verification key, whatever the
    /// randomness is.
    pub fn sign(&self, bonus_randomness: [u8; 48], msg: &[u8]) -> (sig: Signature<D>)
        ensures
            sig@ == signature_bytes(D::basepoint_log(), self@, bonus_randomness@, msg@),
            verifies(D::basepoint_log(), self.verification_key_bytes(), msg@, sig@),
    {
        self.sign_inner(&bonus_randomness, msg)
    }

    /// Create a signature for domain `D` on `msg` using this `SigningKey`,
    /// with no randomness: the same key and message give the same signature.
    ///
    /// Prefer `sign`, unless you know you need deterministic signatures.
    pub fn sign_deterministic(&self, msg: &[u8]) -> (sig: Signature<D>)
        ensures
            sig@ == signature_bytes(D::basepoint_log(), self@, no_randomness(), msg@),
            verifies(D::basepoint_log(), self.verification_key_bytes(), msg@, sig@),
    {
        let bonus_randomness = [0u8; 48];
        assert(bonus_randomness@ =~= no_randomness());
        self.sign_inner(&bonus_randomness, msg)
    }

    fn sign_inner(&self, bonus_randomness: &[u8; 48], msg: &[u8]) -> (sig: Signature<D>)
        ensures
            sig@ == signature_bytes(D::basepoint_log(), self@, bonus_randomness@, msg@),
            verifies(D::basepoint_log(), self.verification_key_bytes(), msg@, sig@),
    {
        proof {
            use_type_invariant(self);
        }
        // We deviate from RedDSA as specified in the Zcash protocol and instead
        // use a construction in line with Trevor Perrin's synthetic nonces:
        // https://moderncrypto.org/mail-archive/curves/2017/000925.html
        // Rather than choosing T to be 80 random bytes (\ell_H + 128)/8 as in RedDSA,
        // we choose T to be 32-byte sk || 48-byte bonus_randomness.
        // In this way, even in the case of an RNG failure, we fall back to secure but
        // deterministic signing.
        let sk_bytes = self.sk.to_bytes();
        let pk_bytes = self.pk.to_bytes();
        let nonce = HStar::default().update(sk_bytes.as_slice()).update(
            bonus_randomness.as_slice(),
        ).update(pk_bytes.as_slice()).update(msg).finalize();
        assert(Seq::<u8>::empty() + sk_bytes@ + bonus_randomness@ + pk_bytes@ + msg@
            =~= sk_bytes@ + bonus_randomness@ + pk_bytes@ + msg@);

        let r_point = D::basepoint().mul(&nonce);
        let r_bytes = r_point.vartime_compress();

        let c = HStar::default().update(r_bytes.as_slice()).update(pk_bytes.as_slice()).update(
            msg,
        ).finalize();
        assert(Seq::<u8>::empty() + r_bytes@ + pk_bytes@ + msg@ =~= r_bytes@ + pk_bytes@ + msg@);

        let s = nonce.add(&c.mul(&self.sk));
        let s_bytes = s.to_bytes();
        proof {
            use_type_invariant(&r_point);
            lemma_signature_verifies(*self, bonus_randomness@, msg@, r_point);
        }
        Signature::from_parts(r_bytes, s_bytes)
    }
}

impl SigningKey<SpendAuth> {
    /// Randomize this signing key with the given `randomizer`: the key with
    /// the scalar `sk + r`.
    pub fn randomize(&self, randomizer: &Fr) -> (key: SigningKey<SpendAuth>)
        ensures
            key@ == add_mod(self@, randomizer@),
            key.verification_key_bytes() == public_key_encoding(
                SpendAuth::basepoint_log(),
                add_mod(self@, randomizer@),
            ),
    {
        let sk = self.sk.add(randomizer);
        let pk = VerificationKey::from_scalar(&sk);
        proof {
            use_type_invariant(&sk);
            use_type_invariant(&pk);
        }
        SigningKey { sk, pk }
    }
}

impl<'a, D: Domain> From<&'a SigningKey<D>> for VerificationKey<D> {
    /// The verification key of a signing key.
    fn from(sk: &'a SigningKey<D>) -> (vk: VerificationKey<D>)
        ensures
            vk@ == sk.verification_key_bytes(),
            vk@ == public_key_encoding(D::basepoint_log(), sk@),
    {
        proof {
            use_type_invariant(sk);
            use_type_invariant(&sk.pk);
            sk.pk.lemma_is_its_bytes();
        }
        sk.pk.clone()
    }
}

impl<'a, D: Domain> FromSpecImpl<&'a SigningKey<D>> for VerificationKey<D> {
    open spec fn obeys_from_spec() -> bool {
        true
    }

    open spec fn from_spec(sk: &'a SigningKey<D>) -> VerificationKey<D> {
        VerificationKey::of_bytes(sk.verification_key_bytes())
    }
}

impl<D: Domain> From<SigningKey<D>> for VerificationKey<D> {
    /// The verification key of a signing key.
    fn from(sk: SigningKey<D>) -> (vk: VerificationKey<D>)
        ensures
            vk@ == sk.verification_key_bytes(),
            vk@ == public_key_encoding(D::basepoint_log(), sk@),
    {
        proof {
            use_type_invariant(&sk);
            use_type_invariant(&sk.pk);
            sk.pk.lemma_is_its_bytes();
        }
        sk.pk.clone()
    }
}

impl<D: Domain> FromSpecImpl<SigningKey<D>> for VerificationKey<D> {
    open spec fn obeys_from_spec() -> bool {
        true
    }

    open spec fn from_spec(sk: SigningKey<D>) -> VerificationKey<D> {
        VerificationKey::of_bytes(sk.verification_key_bytes())
    }
}

impl<D: Domain> TryFrom<[u8; 32]> for SigningKey<D> {
    type Error = Error;

    /// Decodes a signing key, refusing an encoding that is not canonical.
    fn try_from(bytes: [u8; 32]) -> (r: Result<Self, Error>)
        ensures
            r is Ok <==> is_canonical_scalar(bytes@),
            r is Ok ==> r->Ok_0@ == le_value(bytes@) && le_bytes(r->Ok_0@, 32) == bytes@,
            r is Err ==> r == Err::<Self, Error>(Error::MalformedSigningKey),
    {
        proof {
            if is_canonical_scalar(bytes@) {
                lemma_signing_key_round_trip(bytes@);
            }
        }
        match Fr::from_bytes_checked(&bytes) {
            Some(sk) => Ok(Self::new_from_field(sk)),
            None => Err(Error::MalformedSigningKey),
        }
    }
}

impl<D: Domain> TryFromSpecImpl<[u8; 32]> for SigningKey<D> {
    open spec fn obeys_try_from_spec() -> bool {
        true
    }

    open spec fn try_from_spec(bytes: [u8; 32]) -> Result<Self, Error> {
        if is_canonical_scalar(bytes@) {
            Ok(Self::of_scalar(le_value(bytes@)))
        } else {
            Err(Error::MalformedSigningKey)
        }
    }
}

impl<D: Domain> TryFrom<&[u8]> for SigningKey<D> {
    type Error = Error;

    /// Reads a signing key from a slice, which must have 32 bytes, and
    /// decodes it.
    fn try_from(bytes: &[u8]) -> (r: Result<Self, Error>)
        ensures
            r is Ok <==> is_canonical_scalar(bytes@),
            r is Ok ==> r->Ok_0@ == le_value(bytes@),
            bytes@.len() != 32 ==> r == Err::<Self, Error>(
                Error::WrongSliceLength { expected: 32, found: bytes@.len() as usize },
            ),
            bytes@.len() == 32 && !is_canonical_scalar(bytes@) ==> r == Err::<Self, Error>(
                Error::MalformedSigningKey,
            ),
    {
        if bytes.len() == 32 {
            let mut bytes32 = [0u8; 32];
            let mut i: usize = 0;
            while i < 32
                invariant
                    i <= 32,
                    bytes@.len() == 32,
                    forall|j: int| 0 <= j < i ==> bytes32@[j] == bytes@[j],
                decreases 32 - i,
            {
                bytes32[i] = bytes[i];
                i += 1;
            }
            assert(bytes32@ =~= bytes@);
            match Fr::from_bytes_checked(&bytes32) {
                Some(sk) => Ok(Self::new_from_field(sk)),
                None => Err(Error::MalformedSigningKey),
            }
        } else {
            Err(Error::WrongSliceLength { expected: 32, found: bytes.len() })
        }
    }
}

impl<D: Domain> TryFromSpecImpl<&[u8]> for SigningKey<D> {
    open spec fn obeys_try_from_spec() -> bool {
        true
    }

    open spec fn try_from_spec(bytes: &[u8]) -> Result<Self, Error> {
        if bytes@.len() != 32 {
            Err(Error::WrongSliceLength { expected: 32, found: bytes@.len() as usize })
        } else if is_canonical_scalar(bytes@) {
            Ok(Self::of_scalar(le_value(bytes@)))
        } else {
            Err(Error::MalformedSigningKey)
        }
    }
}

impl<D: Domain> From<Fr> for SigningKey<D> {
    /// The signing key with the scalar `sk`.
    fn from(sk: Fr) -> (key: Self)
        ensures
            key@ == sk@,
    {
        Self::new_from_field(sk)
    }
}

impl<D: Domain> FromSpecImpl<Fr> for SigningKey<D> {
    open spec fn obeys_from_spec() -> bool {
        true
    }

    open spec fn from_spec(sk: Fr) -> Self {
        Self::of_scalar(sk@)
    }
}

impl<D: Domain> From<SigningKey<D>> for [u8; 32] {
    /// The byte encoding of the signing key.
    fn from(sk: SigningKey<D>) -> (bytes: [u8; 32])
        ensures
            bytes@ == le_bytes(sk@, 32),
    {
        sk.to_bytes()
    }
}

impl<D: Domain> FromSpecImpl<SigningKey<D>> for [u8; 32] {
    open spec fn obeys_from_spec() -> bool {
        true
    }

    open spec fn from_spec(sk: SigningKey<D>) -> [u8; 32] {
        sk.array()
    }
}

} // verus!
