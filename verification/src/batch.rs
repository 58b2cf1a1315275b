//! Performs batch `decaf377-rdsa` signature verification.
//!
//! Batch verification asks whether *all* signatures in some set are valid,
//! rather than asking whether *each* of them is valid. This allows sharing
//! computations among all signature verifications, performing less work overall
//! at the cost of higher latency (the entire batch must complete), complexity of
//! caller code (which must assemble a batch of signatures across work-items),
//! and loss of the ability to easily pinpoint failing signatures.
//!
//! For items `i` with the key `A_i`, the signature `(R_i, s_i)`, the challenge
//! `c_i` and the basepoint `B_i` of their domain, and with a blinding factor
//! `z_i` of 128 random bits for each, the batch is accepted when
//!
//! ```ascii
//! sum(z_i * (R_i + c_i * A_i - s_i * B_i)) = 0
//! ```
//!
//! which is computed as one multiscalar multiplication, with one accumulated
//! coefficient `-sum(z_i * s_i)` for the basepoint of each domain.

use crate::domain::{Binding, Sealed, SpendAuth};
use crate::error::Error;
use crate::group::{
    discrete_log, element_values, is_element_encoding, lemma_linear_combination_concat,
    lemma_linear_combination_push, linear_combination, scalar_values, Element,
};
use crate::hash::HStar;
use crate::little_endian::le_value;
use crate::modular::{lemma_batch_step, lemma_sum_of_multiples, lemma_valid_term};
use crate::scalar::{group_order, is_canonical_scalar, Fr};
use crate::signature::Signature;
use crate::verification_key::{
    challenge, equation_holds, verifies_prehashed, VerificationKey, VerificationKeyBytes,
};
use vstd::prelude::*;
use vstd::std_specs::convert::FromSpecImpl;

verus! {

/// The blinding factor made of two 64-bit words: `lo + hi * 2^64`.
pub open spec fn blinding_factor(lo: u64, hi: u64) -> nat {
    (lo + hi * 0x1_0000_0000_0000_0000) as nat
}

/// The blinding factor of the item at position `i`: the words at the
/// positions `2 * i` and `2 * i + 1` of the randomness.
pub open spec fn blinding(randomness: Seq<u64>, i: int) -> nat {
    blinding_factor(randomness[2 * i], randomness[2 * i + 1])
}

/// The scalar of 128 random bits that two random 64-bit words make.
fn gen_128_bits(lo: u64, hi: u64) -> (z: Fr)
    ensures
        z@ == blinding_factor(lo, hi),
{
    let lo = lo as u128;
    let hi = hi as u128;
    assert(hi << 64 == hi * 0x1_0000_0000_0000_0000) by (bit_vector)
        requires
            hi <= 0xffff_ffff_ffff_ffff,
    ;
    Fr::from_u128(lo + (hi << 64))
}

/// What a batch item holds: the domain, the encoding of the verification key,
/// the signature and the challenge.
pub struct ItemView {
    /// Whether the item is of the `Binding` domain, and not of `SpendAuth`.
    pub binding: bool,
    /// The 32 bytes of the verification key.
    pub vk_bytes: Seq<u8>,
    /// The 64 bytes of the signature.
    pub sig: Seq<u8>,
    /// The challenge, hashed from the signature, the key and the message when
    /// the item was made.
    pub c: nat,
}

impl ItemView {
    /// The discrete logarithm of the basepoint of the item's domain.
    pub open spec fn basepoint(self) -> nat {
        if self.binding {
            Binding::basepoint_log()
        } else {
            SpendAuth::basepoint_log()
        }
    }

    /// Whether the scalar, the element and the key of the item decode.
    pub open spec fn decodes(self) -> bool {
        &&& is_canonical_scalar(self.sig.subrange(32, 64))
        &&& is_element_encoding(self.sig.subrange(0, 32))
        &&& is_element_encoding(self.vk_bytes)
    }

    /// Whether the item is valid by itself: its key decodes, and its
    /// signature verifies under the key with the item's challenge.
    pub open spec fn is_valid(self) -> bool {
        &&& is_element_encoding(self.vk_bytes)
        &&& verifies_prehashed(self.basepoint(), self.vk_bytes, self.sig, self.c)
    }

    /// What the item adds to the batch with the blinding factor `z`:
    /// `z * (R + c * A - s * B)`.
    pub open spec fn term(self, z: nat) -> int {
        z * (discrete_log(self.sig.subrange(0, 32)) + self.c * discrete_log(self.vk_bytes)
            - le_value(self.sig.subrange(32, 64)) * self.basepoint())
    }
}

/// The sum of what the items add to the batch, each with its blinding factor.
pub open spec fn blinded_sum(items: Seq<ItemView>, randomness: Seq<u64>) -> int
    decreases items.len(),
{
    if items.len() == 0 {
        0
    } else {
        blinded_sum(items.drop_last(), randomness) + items.last().term(
            blinding(randomness, items.len() - 1),
        )
    }
}

/// Whether the batch is accepted: every item decodes, and the blinded sum is
/// the identity.
pub open spec fn batch_accepts(items: Seq<ItemView>, randomness: Seq<u64>) -> bool {
    &&& forall|i: int| 0 <= i < items.len() ==> (#[trigger] items[i]).decodes()
    &&& blinded_sum(items, randomness) % (group_order() as int) == 0
}

/// A batch of items that are each valid is accepted, whatever the blinding
/// factors are.
pub proof fn lemma_batch_of_valid_items(items: Seq<ItemView>, randomness: Seq<u64>)
    requires
        forall|i: int| 0 <= i < items.len() ==> (#[trigger] items[i]).is_valid(),
    ensures
        batch_accepts(items, randomness),
    decreases items.len(),
{
    if items.len() > 0 {
        let rest = items.drop_last();
        let item = items.last();
        assert forall|i: int| 0 <= i < rest.len() implies (#[trigger] rest[i]).is_valid() by {
            assert(rest[i] == items[i]);
        }
        lemma_batch_of_valid_items(rest, randomness);
        assert(item.is_valid());
        let z = blinding(randomness, items.len() - 1);
        lemma_valid_term(
            z,
            le_value(item.sig.subrange(32, 64)),
            item.c,
            discrete_log(item.vk_bytes),
            discrete_log(item.sig.subrange(0, 32)),
            item.basepoint(),
        );
        lemma_sum_of_multiples(blinded_sum(rest, randomness), item.term(z));
        assert forall|i: int| 0 <= i < items.len() implies (#[trigger] items[i]).decodes() by {
            assert(items[i].is_valid());
        }
    }
}

/// A batch with an item that does not decode is not accepted.
pub proof fn lemma_batch_with_undecodable_item(
    items: Seq<ItemView>,
    randomness: Seq<u64>,
    i: int,
)
    requires
        0 <= i < items.len(),
        !items[i].decodes(),
    ensures
        !batch_accepts(items, randomness),
{
}

/// What a `SpendAuth` item is made of: the encoding of the verification key,
/// the signature and the message.
pub type SpendAuthEntry<'msg> = (
    VerificationKeyBytes<SpendAuth>,
    Signature<SpendAuth>,
    &'msg [u8],
);

/// What a `Binding` item is made of: the encoding of the verification key, the
/// signature and the message.
pub type BindingEntry<'msg> = (VerificationKeyBytes<Binding>, Signature<Binding>, &'msg [u8]);

#[derive(Copy, Clone, Debug)]
#[allow(inconsistent_fields)]
enum Inner {
    SpendAuth { vk_bytes: VerificationKeyBytes<SpendAuth>, sig: Signature<SpendAuth>, c: Fr },
    Binding { vk_bytes: VerificationKeyBytes<Binding>, sig: Signature<Binding>, c: Fr },
}

/// A batch verification item.
///
/// This struct exists to allow batch processing to be decoupled from the
/// lifetime of the message. This is useful when using the batch verification API
/// in an async context.
#[derive(Debug)]
pub struct Item {
    inner: Inner,
}

impl Clone for Item {
    fn clone(&self) -> (item: Item)
        ensures
            item == *self,
    {
        Item { inner: self.inner }
    }
}

impl View for Item {
    type V = ItemView;

    /// What the item holds.
    closed spec fn view(&self) -> ItemView {
        match self.inner {
            Inner::SpendAuth { vk_bytes, sig, c } => ItemView {
                binding: false,
                vk_bytes: vk_bytes@,
                sig: sig@,
                c: c@,
            },
            Inner::Binding { vk_bytes, sig, c } => ItemView {
                binding: true,
                vk_bytes: vk_bytes@,
                sig: sig@,
                c: c@,
            },
        }
    }
}

impl Item {
    /// The item that holds `view`.
    pub closed spec fn of_view(view: ItemView) -> Item {
        choose|item: Item| item@ == view
    }

    /// An item is what it holds and nothing more.
    pub proof fn lemma_is_its_view(self)
        ensures
            self == Self::of_view(self@),
    {
        let other = Self::of_view(self@);
        assert(other@ == self@);
        match (self.inner, other.inner) {
            (
                Inner::SpendAuth { vk_bytes, sig, c },
                Inner::SpendAuth { vk_bytes: other_vk_bytes, sig: other_sig, c: other_c },
            ) => {
                vk_bytes.lemma_is_its_bytes();
                other_vk_bytes.lemma_is_its_bytes();
                sig.lemma_is_its_bytes();
                other_sig.lemma_is_its_bytes();
                c.lemma_is_its_value(other_c);
            },
            (
                Inner::Binding { vk_bytes, sig, c },
                Inner::Binding { vk_bytes: other_vk_bytes, sig: other_sig, c: other_c },
            ) => {
                vk_bytes.lemma_is_its_bytes();
                other_vk_bytes.lemma_is_its_bytes();
                sig.lemma_is_its_bytes();
                other_sig.lemma_is_its_bytes();
                c.lemma_is_its_value(other_c);
            },
            _ => {},
        }
    }

    /// Perform non-batched verification of this `Item`.
    ///
    /// This is useful (in combination with `Item::clone`) for implementing fallback
    /// logic when batch verification fails. In contrast to
    /// [`VerificationKey::verify`](crate::VerificationKey::verify), which requires
    /// borrowing the message data, the `Item` type is unlinked from the lifetime of
    /// the message.
    pub fn verify_single(self) -> (r: Result<(), Error>)
        ensures
            r is Ok <==> self@.is_valid(),
            !is_element_encoding(self@.vk_bytes) ==> r == Err::<(), Error>(
                Error::MalformedVerificationKey,
            ),
            is_element_encoding(self@.vk_bytes) && !self@.is_valid() ==> r == Err::<(), Error>(
                Error::InvalidSignature,
            ),
    {
        match self.inner {
            Inner::Binding { vk_bytes, sig, c } => {
                match VerificationKey::<Binding>::try_from(vk_bytes) {
                    Ok(vk) => vk.verify_prehashed(&sig, c),
                    Err(e) => Err(e),
                }
            },
            Inner::SpendAuth { vk_bytes, sig, c } => {
                match VerificationKey::<SpendAuth>::try_from(vk_bytes) {
                    Ok(vk) => vk.verify_prehashed(&sig, c),
                    Err(e) => Err(e),
                }
            },
        }
    }
}

impl<'msg> From<SpendAuthEntry<'msg>> for Item {
    /// The item for a `SpendAuth` signature on a message. The challenge is
    /// computed now, so that the item does not depend on the message's
    /// lifetime.
    fn from(tuple: SpendAuthEntry<'msg>) -> (item: Item)
        ensures
            item@ == (ItemView {
                binding: false,
                vk_bytes: tuple.0@,
                sig: tuple.1@,
                c: challenge(tuple.1.r_part(), tuple.0@, tuple.2@),
            }),
    {
        let (vk_bytes, sig, msg) = tuple;
        let r_bytes = sig.r_bytes();
        let c = HStar::default().update(r_bytes.as_slice()).update(
            vk_bytes.as_ref().as_slice(),
        ).update(msg).finalize();
        assert(Seq::<u8>::empty() + r_bytes@ + vk_bytes@ + msg@ =~= sig.r_part() + vk_bytes@
            + msg@);
        let item = Item { inner: Inner::SpendAuth { vk_bytes, sig, c } };
        proof {
            item.lemma_is_its_view();
        }
        item
    }
}

impl<'msg> FromSpecImpl<SpendAuthEntry<'msg>> for Item {
    open spec fn obeys_from_spec() -> bool {
        true
    }

    open spec fn from_spec(tuple: SpendAuthEntry<'msg>) -> Item {
        Item::of_view(
            ItemView {
                binding: false,
                vk_bytes: tuple.0@,
                sig: tuple.1@,
                c: challenge(tuple.1.r_part(), tuple.0@, tuple.2@),
            },
        )
    }
}

impl<'msg> From<BindingEntry<'msg>> for Item {
    /// The item for a `Binding` signature on a message. The challenge is
    /// computed now, so that the item does not depend on the message's
    /// lifetime.
    fn from(tuple: BindingEntry<'msg>) -> (item: Item)
        ensures
            item@ == (ItemView {
                binding: true,
                vk_bytes: tuple.0@,
                sig: tuple.1@,
                c: challenge(tuple.1.r_part(), tuple.0@, tuple.2@),
            }),
    {
        let (vk_bytes, sig, msg) = tuple;
        let r_bytes = sig.r_bytes();
        let c = HStar::default().update(r_bytes.as_slice()).update(
            vk_bytes.as_ref().as_slice(),
        ).update(msg).finalize();
        assert(Seq::<u8>::empty() + r_bytes@ + vk_bytes@ + msg@ =~= sig.r_part() + vk_bytes@
            + msg@);
        let item = Item { inner: Inner::Binding { vk_bytes, sig, c } };
        proof {
            item.lemma_is_its_view();
        }
        item
    }
}

impl<'msg> FromSpecImpl<BindingEntry<'msg>> for Item {
    open spec fn obeys_from_spec() -> bool {
        true
    }

    open spec fn from_spec(tuple: BindingEntry<'msg>) -> Item {
        Item::of_view(
            ItemView {
                binding: true,
                vk_bytes: tuple.0@,
                sig: tuple.1@,
                c: challenge(tuple.1.r_part(), tuple.0@, tuple.2@),
            },
        )
    }
}

/// The items that a sequence of batch items holds.
pub open spec fn item_views(items: Seq<Item>) -> Seq<ItemView> {
    Seq::new(items.len(), |i: int| items[i]@)
}

/// What the multiscalar multiplication of the batch computes: the two
/// accumulated coefficients on the two basepoints, the coefficients of the
/// keys on the keys and the blinding factors on the elements `R`.
pub open spec fn batch_total(
    p_spendauth: nat,
    p_binding: nat,
    vk_coeffs: Seq<Fr>,
    vks: Seq<Element>,
    r_coeffs: Seq<Fr>,
    rs: Seq<Element>,
) -> int {
    (p_spendauth * SpendAuth::basepoint_log() + p_binding * Binding::basepoint_log()
        + linear_combination(scalar_values(vk_coeffs), element_values(vks)) + linear_combination(
        scalar_values(r_coeffs),
        element_values(rs),
    )) as int
}

/// A batch verification context.
pub struct Verifier {
    /// Signature data queued for verification.
    signatures: Vec<Item>,
}

impl Default for Verifier {
    /// A batch verifier with no item queued.
    fn default() -> (v: Verifier)
        ensures
            v@ == Seq::<ItemView>::empty(),
    {
        let v = Verifier { signatures: Vec::new() };
        assert(v@ =~= Seq::<ItemView>::empty());
        v
    }
}

impl View for Verifier {
    type V = Seq<ItemView>;

    /// The items queued, in the order in which they were queued.
    closed spec fn view(&self) -> Seq<ItemView> {
        item_views(self.signatures@)
    }
}

impl Verifier {
    /// Construct a new batch verifier.
    pub fn new() -> (v: Verifier)
        ensures
            v@ == Seq::<ItemView>::empty(),
    {
        Verifier::default()
    }

    /// The number of items queued.
    pub fn len(&self) -> (n: usize)
        ensures
            n == self@.len(),
    {
        self.signatures.len()
    }

    /// Queue an Item for verification.
    pub fn queue(&mut self, item: Item)
        ensures
            final(self)@ == old(self)@.push(item@),
    {
        self.signatures.push(item);
        assert(self@ =~= old(self)@.push(item@));
    }

    /// Perform batch verification, returning `Ok(())` if all signatures were
    /// valid and `Err` otherwise.
    ///
    /// `randomness` holds the words drawn from a source of randomness for this
    /// batch, two for each item queued: the item at position `i` is blinded
    /// with `randomness[2 * i] + randomness[2 * i + 1] * 2^64`. The words must
    /// be fresh for each batch, and unpredictable to whoever chose the
    /// signatures. A batch that is given fewer words than two for each item
    /// is not accepted.
    ///
    /// The batch verification equation is:
    ///
    /// ```ascii
    /// h_G * -[sum(z_i * s_i)]P_G + sum([z_i]R_i + [z_i * c_i]VK_i) = 0_G
    /// ```
    ///
    /// which we split out into:
    ///
    /// ```ascii
    /// h_G * -[sum(z_i * s_i)]P_G + sum([z_i]R_i) + sum([z_i * c_i]VK_i) = 0_G
    /// ```
    ///
    /// so that we can use multiscalar multiplication speedups.
    ///
    /// where for each signature i,
    /// - VK_i is the verification key;
    /// - R_i is the signature's R value;
    /// - s_i is the signature's s value;
    /// - c_i is the hash of the message and other data;
    /// - z_i is a random 128-bit Scalar;
    /// - h_G is the cofactor of the group;
    /// - P_G is the generator of the subgroup;
    ///
    /// Since `decaf377-rdsa` uses a different generator for each signature
    /// domain, we have a separate scalar accumulator for each domain, but we
    /// can still amortize computation nicely in one multiscalar multiplication:
    ///
    /// ```ascii
    /// h_G * ( [-sum(z_i * s_i): i_type == SpendAuth]P_SpendAuth
    ///       + [-sum(z_i * s_i): i_type == Binding]P_Binding
    ///       + sum([z_i]R_i) + sum([z_i * c_i]VK_i) ) = 0_G
    /// ```
    ///
    /// As follows elliptic curve scalar multiplication convention,
    /// scalar variables are lowercase and group point variables
    /// are uppercase.
    pub fn verify(self, randomness: &[u64]) -> (r: Result<(), Error>)
        ensures
            r is Ok <==> 2 * self@.len() <= randomness@.len() && batch_accepts(
                self@,
                randomness@,
            ),
            r is Err ==> r == Err::<(), Error>(Error::InvalidSignature),
    {
        let n = self.signatures.len();
        let available = randomness.len();
        if available / 2 < n {
            return Err(Error::InvalidSignature);
        }
        let ghost items = self@;

        let mut vk_coeffs: Vec<Fr> = Vec::with_capacity(n);
        let mut vks: Vec<Element> = Vec::with_capacity(n);
        let mut r_coeffs: Vec<Fr> = Vec::with_capacity(n);
        let mut rs: Vec<Element> = Vec::with_capacity(n);
        let mut p_spendauth_coeff = Fr::zero();
        let mut p_binding_coeff = Fr::zero();

        assert(items.take(0) =~= Seq::<ItemView>::empty());

        let mut i: usize = 0;
        while i < n
            invariant
                n == self.signatures.len(),
                items == self@,
                items.len() == n,
                available == randomness@.len(),
                available >= 2 * n,
                i <= n,
                vk_coeffs.len() == i,
                vks.len() == i,
                r_coeffs.len() == i,
                rs.len() == i,
                forall|j: int| 0 <= j < i ==> (#[trigger] vk_coeffs[j]).wf(),
                forall|j: int| 0 <= j < i ==> (#[trigger] vks[j]).wf(),
                forall|j: int| 0 <= j < i ==> (#[trigger] r_coeffs[j]).wf(),
                forall|j: int| 0 <= j < i ==> (#[trigger] rs[j]).wf(),
                forall|j: int| 0 <= j < i ==> (#[trigger] items[j]).decodes(),
                batch_total(
                    p_spendauth_coeff@,
                    p_binding_coeff@,
                    vk_coeffs@,
                    vks@,
                    r_coeffs@,
                    rs@,
                ) % (group_order() as int) == blinded_sum(items.take(i as int), randomness@) % (
                group_order() as int),
            decreases n - i,
        {
            let item = &self.signatures[i];
            assert(items[i as int] == item@);
            let (s_bytes, r_bytes, c) = match &item.inner {
                Inner::SpendAuth { sig, c, .. } => (sig.s_bytes(), sig.r_bytes(), *c),
                Inner::Binding { sig, c, .. } => (sig.s_bytes(), sig.r_bytes(), *c),
            };

            let s = match Fr::from_bytes_checked(&s_bytes) {
                Some(s) => s,
                None => { return Err(Error::InvalidSignature); },
            };
            let r = match Element::vartime_decompress(&r_bytes) {
                Some(r) => r,
                None => { return Err(Error::InvalidSignature); },
            };
            let decoded_vk = match &item.inner {
                Inner::SpendAuth { vk_bytes, .. } => Element::vartime_decompress(vk_bytes.as_ref()),
                Inner::Binding { vk_bytes, .. } => Element::vartime_decompress(vk_bytes.as_ref()),
            };
            let vk = match decoded_vk {
                Some(vk) => vk,
                None => { return Err(Error::InvalidSignature); },
            };

            let z = gen_128_bits(randomness[2 * i], randomness[2 * i + 1]);

            let p_coeff = z.mul(&s);
            let ghost p_old = if item@.binding {
                p_binding_coeff@
            } else {
                p_spendauth_coeff@
            };
            let ghost total_old = batch_total(
                p_spendauth_coeff@,
                p_binding_coeff@,
                vk_coeffs@,
                vks@,
                r_coeffs@,
                rs@,
            );
            let ghost sum_old = blinded_sum(items.take(i as int), randomness@);
            let ghost vk_coeffs_old = vk_coeffs@;
            let ghost vks_old = vks@;
            let ghost r_coeffs_old = r_coeffs@;
            let ghost rs_old = rs@;
            match &item.inner {
                Inner::SpendAuth { .. } => {
                    p_spendauth_coeff = p_spendauth_coeff.sub(&p_coeff);
                },
                Inner::Binding { .. } => {
                    p_binding_coeff = p_binding_coeff.sub(&p_coeff);
                },
            };
            let ghost p_new = if item@.binding {
                p_binding_coeff@
            } else {
                p_spendauth_coeff@
            };
            let vk_coeff = z.mul(&c);

            proof {
                use_type_invariant(&z);
                use_type_invariant(&vk_coeff);
                use_type_invariant(&r);
                use_type_invariant(&vk);
            }
            r_coeffs.push(z);
            rs.push(r);
            vk_coeffs.push(vk_coeff);
            vks.push(vk);

            proof {
                let b = item@.basepoint();
                lemma_linear_combination_push(
                    scalar_values(vk_coeffs_old),
                    element_values(vks_old),
                    vk_coeff@,
                    vk@,
                );
                lemma_linear_combination_push(
                    scalar_values(r_coeffs_old),
                    element_values(rs_old),
                    z@,
                    r@,
                );
                assert(scalar_values(vk_coeffs@) =~= scalar_values(vk_coeffs_old).push(vk_coeff@));
                assert(element_values(vks@) =~= element_values(vks_old).push(vk@));
                assert(scalar_values(r_coeffs@) =~= scalar_values(r_coeffs_old).push(z@));
                assert(element_values(rs@) =~= element_values(rs_old).push(r@));
                let total_new = batch_total(
                    p_spendauth_coeff@,
                    p_binding_coeff@,
                    vk_coeffs@,
                    vks@,
                    r_coeffs@,
                    rs@,
                );
                assert((p_new - p_old) * b == p_new * b - p_old * b) by (nonlinear_arith);
                assert(total_new == total_old + (p_new - p_old) * b + vk_coeff@ * vk@ + z@ * r@);
                assert(items.take(i + 1).drop_last() =~= items.take(i as int));
                assert(items.take(i + 1).last() == item@);
                assert(blinded_sum(items.take(i + 1), randomness@) == sum_old + item@.term(z@));
                lemma_batch_step(total_old, sum_old, p_old, z@, s@, c@, vk@, r@, b);
            }
            i += 1;
        }
        assert(items.take(n as int) =~= items);

        let ghost vk_coeffs_seq = vk_coeffs@;
        let ghost vks_seq = vks@;
        let ghost r_coeffs_seq = r_coeffs@;
        let ghost rs_seq = rs@;

        let spendauth_basepoint = SpendAuth::basepoint();
        let binding_basepoint = Binding::basepoint();
        proof {
            use_type_invariant(&p_spendauth_coeff);
            use_type_invariant(&p_binding_coeff);
            use_type_invariant(&spendauth_basepoint);
            use_type_invariant(&binding_basepoint);
        }

        let mut scalars: Vec<Fr> = Vec::new();
        scalars.push(p_spendauth_coeff);
        scalars.push(p_binding_coeff);
        scalars.append(&mut vk_coeffs);
        scalars.append(&mut r_coeffs);

        let mut points: Vec<Element> = Vec::new();
        points.push(spendauth_basepoint);
        points.push(binding_basepoint);
        points.append(&mut vks);
        points.append(&mut rs);

        proof {
            let heads = seq![p_spendauth_coeff@, p_binding_coeff@];
            let bases = seq![spendauth_basepoint@, binding_basepoint@];
            assert(scalar_values(scalars@) =~= heads + scalar_values(vk_coeffs_seq)
                + scalar_values(r_coeffs_seq));
            assert(element_values(points@) =~= bases + element_values(vks_seq) + element_values(
                rs_seq,
            ));
            lemma_linear_combination_concat(
                heads + scalar_values(vk_coeffs_seq),
                bases + element_values(vks_seq),
                scalar_values(r_coeffs_seq),
                element_values(rs_seq),
            );
            lemma_linear_combination_concat(
                heads,
                bases,
                scalar_values(vk_coeffs_seq),
                element_values(vks_seq),
            );
            lemma_linear_combination_push(
                seq![p_spendauth_coeff@],
                seq![spendauth_basepoint@],
                p_binding_coeff@,
                binding_basepoint@,
            );
            lemma_linear_combination_push(
                Seq::<nat>::empty(),
                Seq::<nat>::empty(),
                p_spendauth_coeff@,
                spendauth_basepoint@,
            );
            assert(seq![p_spendauth_coeff@].push(p_binding_coeff@) =~= heads);
            assert(seq![spendauth_basepoint@].push(binding_basepoint@) =~= bases);
            assert(Seq::<nat>::empty().push(p_spendauth_coeff@) =~= seq![p_spendauth_coeff@]);
            assert(Seq::<nat>::empty().push(spendauth_basepoint@) =~= seq![spendauth_basepoint@]);
        }

        let check = Element::vartime_multiscalar_mul(&scalars, &points);

        if check.is_identity() {
            Ok(())
        } else {
            Err(Error::InvalidSignature)
        }
    }
}

} // verus!
