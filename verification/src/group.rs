//! Elements of the decaf377 group.
//!
//! The group has prime order, so every element is a multiple `k * G` of the
//! conventional generator `G` for exactly one `k` below the group order. That
//! `k`, the element's discrete logarithm, is the model of an element here:
//! adding elements adds their logarithms, multiplying an element by a scalar
//! multiplies its logarithm, and the identity is the element with logarithm
//! zero, all modulo the group order.
//!
//! An element is kept in its canonical 32-byte compressed encoding. The curve
//! arithmetic is done by `decaf377`; what it returns is stated here over
//! discrete logarithms and trusted. No discrete logarithm is ever computed:
//! it is what the contracts speak of, not what the code holds.

use crate::little_endian::le_value;
use crate::scalar::{add_mod, group_order, is_canonical_scalar, mul_mod, sub_mod, Fr};
use vstd::prelude::*;
use vstd::std_specs::cmp::PartialEqSpecImpl;

verus! {

/// The compressed encoding of `k * G`, the `k`-fold multiple of the
/// conventional generator.
pub uninterp spec fn generator_multiple_encoding(k: nat) -> Seq<u8>;

/// The compressed encoding of the element that the decaf377 Elligator map
/// gives for the field element `r`.
pub uninterp spec fn encode_to_curve_encoding(r: nat) -> Seq<u8>;

/// The order of the field that the decaf377 curve is defined over, a prime of
/// 253 bits.
pub open spec fn field_modulus() -> nat {
    8444461749428370424248824938781546531375899335154063827935233455917409239041nat
}

/// The discrete logarithm of the element that `encoding` encodes.
pub open spec fn discrete_log(encoding: Seq<u8>) -> nat {
    choose|k: nat| k < group_order() && generator_multiple_encoding(k) == encoding
}

/// Whether `bytes` is the canonical encoding of a group element.
pub open spec fn is_element_encoding(bytes: Seq<u8>) -> bool {
    bytes.len() == 32 && exists|k: nat|
        k < group_order() && #[trigger] generator_multiple_encoding(k) == bytes
}

/// Whether `bytes` is the encoding of `k * G`, with `k` below the group order
/// as its discrete logarithm.
pub open spec fn encodes(bytes: Seq<u8>, k: nat) -> bool {
    &&& bytes.len() == 32
    &&& k < group_order()
    &&& generator_multiple_encoding(k) == bytes
    &&& discrete_log(bytes) == k
}

/// An element encoding is the encoding of the multiple of the generator that
/// its discrete logarithm names.
pub proof fn lemma_element_encoding(bytes: Seq<u8>)
    requires
        is_element_encoding(bytes),
    ensures
        encodes(bytes, discrete_log(bytes)),
{
}

/// The sum of `scalars[i] * points[i]` over the positions that both sequences
/// have.
pub open spec fn linear_combination(scalars: Seq<nat>, points: Seq<nat>) -> nat
    decreases scalars.len(),
{
    if scalars.len() == 0 || points.len() == 0 {
        0
    } else {
        linear_combination(scalars.drop_last(), points.drop_last()) + scalars.last()
            * points.last()
    }
}

/// A linear combination grows by one product when a scalar and a point are
/// appended.
pub proof fn lemma_linear_combination_push(scalars: Seq<nat>, points: Seq<nat>, s: nat, p: nat)
    ensures
        linear_combination(scalars.push(s), points.push(p)) == linear_combination(scalars, points)
            + s * p,
{
    assert(scalars.push(s).drop_last() =~= scalars);
    assert(points.push(p).drop_last() =~= points);
}

/// The linear combination of two concatenations is the sum of the linear
/// combinations of the parts, where the parts align.
pub proof fn lemma_linear_combination_concat(
    scalars: Seq<nat>,
    points: Seq<nat>,
    more_scalars: Seq<nat>,
    more_points: Seq<nat>,
)
    requires
        scalars.len() == points.len(),
        more_scalars.len() == more_points.len(),
    ensures
        linear_combination(scalars + more_scalars, points + more_points) == linear_combination(
            scalars,
            points,
        ) + linear_combination(more_scalars, more_points),
    decreases more_scalars.len(),
{
    if more_scalars.len() == 0 {
        assert(scalars + more_scalars =~= scalars);
        assert(points + more_points =~= points);
    } else {
        lemma_linear_combination_concat(
            scalars,
            points,
            more_scalars.drop_last(),
            more_points.drop_last(),
        );
        assert((scalars + more_scalars).drop_last() =~= scalars + more_scalars.drop_last());
        assert((points + more_points).drop_last() =~= points + more_points.drop_last());
    }
}

/// The numbers that a sequence of scalars stands for.
pub open spec fn scalar_values(scalars: Seq<Fr>) -> Seq<nat> {
    Seq::new(scalars.len(), |i: int| scalars[i]@)
}

/// The discrete logarithms of a sequence of elements.
pub open spec fn element_values(points: Seq<Element>) -> Seq<nat> {
    Seq::new(points.len(), |i: int| points[i]@)
}

/// `decaf377::Encoding::vartime_decompress`: accepts exactly the canonical
/// encodings of group elements. The element it gives is compressed again with
/// `decaf377::Element::vartime_compress`, which returns the accepted bytes.
#[verifier::external_body]
fn element_decompress(bytes: &[u8; 32]) -> (r: Result<[u8; 32], decaf377::EncodingError>)
    ensures
        r is Ok <==> is_element_encoding(bytes@),
        r is Ok ==> r->Ok_0 == *bytes,
{
    decaf377::Encoding(*bytes).vartime_decompress().map(|e| e.vartime_compress().0)
}

/// `decaf377::Element::GENERATOR`, compressed: the encoding of the
/// conventional generator, `1 * G`.
#[verifier::external_body]
fn element_generator() -> (r: [u8; 32])
    ensures
        r@ == generator_multiple_encoding(1),
        discrete_log(r@) == 1,
{
    decaf377::Element::GENERATOR.vartime_compress().0
}

/// `decaf377::Element::default`, compressed: the encoding of the identity,
/// `0 * G`.
#[verifier::external_body]
fn element_identity() -> (r: [u8; 32])
    ensures
        r@ == generator_multiple_encoding(0),
        discrete_log(r@) == 0,
{
    decaf377::Element::default().vartime_compress().0
}

/// The `+` of `decaf377::Element`, on the elements that `a` and `b` decode to,
/// with the sum compressed: the discrete logarithm of a sum is the sum of the
/// discrete logarithms modulo the group order.
#[verifier::external_body]
fn element_add(a: &[u8; 32], b: &[u8; 32]) -> (r: [u8; 32])
    requires
        is_element_encoding(a@),
        is_element_encoding(b@),
    ensures
        is_element_encoding(r@),
        discrete_log(r@) == add_mod(discrete_log(a@), discrete_log(b@)),
{
    let x = decaf377::Encoding(*a).vartime_decompress().unwrap();
    let y = decaf377::Encoding(*b).vartime_decompress().unwrap();
    (x + y).vartime_compress().0
}

/// The `-` of `decaf377::Element`, on the elements that `a` and `b` decode to,
/// with the difference compressed: the discrete logarithm of a difference is
/// the difference of the discrete logarithms modulo the group order.
#[verifier::external_body]
fn element_sub(a: &[u8; 32], b: &[u8; 32]) -> (r: [u8; 32])
    requires
        is_element_encoding(a@),
        is_element_encoding(b@),
    ensures
        is_element_encoding(r@),
        discrete_log(r@) == sub_mod(discrete_log(a@), discrete_log(b@)),
{
    let x = decaf377::Encoding(*a).vartime_decompress().unwrap();
    let y = decaf377::Encoding(*b).vartime_decompress().unwrap();
    (x - y).vartime_compress().0
}

/// The `*` of a `decaf377::Element` and a `decaf377::Fr`, on the element that
/// `p` and the scalar that `s` decode to, with the multiple compressed: the
/// discrete logarithm of the multiple is the product of the element's
/// discrete logarithm and the scalar modulo the group order.
#[verifier::external_body]
fn element_mul(p: &[u8; 32], s: &[u8; 32]) -> (r: [u8; 32])
    requires
        is_element_encoding(p@),
        is_canonical_scalar(s@),
    ensures
        is_element_encoding(r@),
        discrete_log(r@) == mul_mod(discrete_log(p@), le_value(s@)),
{
    let x = decaf377::Encoding(*p).vartime_decompress().unwrap();
    let k = decaf377::Fr::from_bytes_checked(s).unwrap();
    (x * k).vartime_compress().0
}

/// `decaf377::Element::is_identity`, on the element that `p` decodes to:
/// whether the element is `0 * G`.
#[verifier::external_body]
fn element_is_identity(p: &[u8; 32]) -> (b: bool)
    requires
        is_element_encoding(p@),
    ensures
        b == (discrete_log(p@) == 0),
{
    decaf377::Encoding(*p).vartime_decompress().unwrap().is_identity()
}

/// `decaf377::Element::vartime_multiscalar_mul` on as many scalars as points,
/// each decoded from its encoding, with the result compressed: the sum of the
/// multiples `scalars[i] * points[i]`, so that its discrete logarithm is the
/// linear combination of the discrete logarithms modulo the group order.
#[verifier::external_body]
fn element_multiscalar_mul(scalars: &Vec<Fr>, points: &Vec<Element>) -> (r: [u8; 32])
    requires
        scalars.len() == points.len(),
        forall|i: int| 0 <= i < scalars.len() ==> (#[trigger] scalars[i]).wf(),
        forall|i: int| 0 <= i < points.len() ==> (#[trigger] points[i]).wf(),
    ensures
        is_element_encoding(r@),
        discrete_log(r@) == linear_combination(scalar_values(scalars@), element_values(points@))
            % group_order(),
{
    let s = scalars.iter().map(|s| decaf377::Fr::from_bytes_checked(&s.to_bytes()).unwrap());
    let p = points.iter().map(|p| decaf377::Encoding(p.bytes).vartime_decompress().unwrap());
    decaf377::Element::vartime_multiscalar_mul(s, p).vartime_compress().0
}

/// `decaf377::Fq::from_le_bytes_mod_order`: reads a byte string of any length
/// as a little-endian number and reduces it modulo the order of the field.
/// The field element is handed back in its canonical 32-byte encoding.
#[verifier::external_body]
fn field_from_le_bytes_mod_order(bytes: &[u8]) -> (r: [u8; 32])
    ensures
        le_value(r@) == le_value(bytes@) % field_modulus(),
{
    decaf377::Fq::from_le_bytes_mod_order(bytes).to_bytes()
}

/// `decaf377::Element::encode_to_curve`, on the field element that `r`
/// decodes to, with the result compressed: the Elligator map, which gives a
/// group element for every field element.
#[verifier::external_body]
fn element_encode_to_curve(r: &[u8; 32]) -> (e: [u8; 32])
    requires
        le_value(r@) < field_modulus(),
    ensures
        e@ == encode_to_curve_encoding(le_value(r@)),
        is_element_encoding(e@),
{
    let x = decaf377::Fq::from_bytes_checked(r).unwrap();
    decaf377::Element::encode_to_curve(&x).vartime_compress().0
}

/// An element of the decaf377 group.
#[derive(Copy, Clone, Debug, Eq, PartialOrd, Ord, Hash)]
pub struct Element {
    bytes: [u8; 32],
}

impl PartialEq for Element {
    /// Elements are equal when their encodings are.
    fn eq(&self, other: &Self) -> (b: bool) {
        crate::lexicographic::equal(self.bytes.as_slice(), other.bytes.as_slice())
    }
}

impl PartialEqSpecImpl for Element {
    open spec fn obeys_eq_spec() -> bool {
        true
    }

    open spec fn eq_spec(&self, other: &Self) -> bool {
        self.encoding() == other.encoding()
    }
}

impl View for Element {
    type V = nat;

    /// The discrete logarithm of the element.
    closed spec fn view(&self) -> nat {
        discrete_log(self.bytes@)
    }
}

impl Element {
    /// The compressed encoding of the element.
    pub closed spec fn encoding(self) -> Seq<u8> {
        self.bytes@
    }

    /// An element is its encoding and nothing more.
    pub proof fn lemma_is_its_encoding(self, other: Element)
        requires
            self.encoding() == other.encoding(),
        ensures
            self == other,
    {
        assert(self.bytes =~= other.bytes);
    }

    /// The element is held as the encoding of the multiple of the generator
    /// that its discrete logarithm names.
    #[verifier::type_invariant]
    pub open spec fn wf(self) -> bool {
        encodes(self.encoding(), self@)
    }

    /// Decodes an element, refusing bytes that are not the canonical encoding
    /// of one.
    pub fn vartime_decompress(bytes: &[u8; 32]) -> (r: Option<Element>)
        ensures
            r is Some <==> is_element_encoding(bytes@),
            r is Some ==> r->Some_0.encoding() == bytes@,
    {
        match element_decompress(bytes) {
            Ok(canonical) => Some(Element { bytes: canonical }),
            Err(_) => None,
        }
    }

    /// The compressed encoding of the element.
    pub fn vartime_compress(&self) -> (bytes: [u8; 32])
        ensures
            bytes@ == self.encoding(),
    {
        self.bytes
    }

    /// The conventional generator of the group.
    pub fn generator() -> (g: Element)
        ensures
            g@ == 1,
    {
        Element { bytes: element_generator() }
    }

    /// The identity of the group.
    pub fn identity() -> (e: Element)
        ensures
            e@ == 0,
    {
        Element { bytes: element_identity() }
    }

    /// The sum of two elements.
    pub fn add(&self, other: &Element) -> (r: Element)
        ensures
            r@ == add_mod(self@, other@),
    {
        proof {
            use_type_invariant(self);
            use_type_invariant(other);
        }
        Element { bytes: element_add(&self.bytes, &other.bytes) }
    }

    /// The difference of two elements.
    pub fn sub(&self, other: &Element) -> (r: Element)
        ensures
            r@ == sub_mod(self@, other@),
    {
        proof {
            use_type_invariant(self);
            use_type_invariant(other);
        }
        Element { bytes: element_sub(&self.bytes, &other.bytes) }
    }

    /// The multiple of the element by a scalar.
    pub fn mul(&self, scalar: &Fr) -> (r: Element)
        ensures
            r@ == mul_mod(self@, scalar@),
    {
        proof {
            use_type_invariant(self);
        }
        let s = scalar.to_bytes();
        proof {
            use_type_invariant(scalar);
            crate::scalar::lemma_scalar_encoding(scalar@);
        }
        Element { bytes: element_mul(&self.bytes, &s) }
    }

    /// Whether the element is the identity.
    pub fn is_identity(&self) -> (b: bool)
        ensures
            b == (self@ == 0),
    {
        proof {
            use_type_invariant(self);
        }
        element_is_identity(&self.bytes)
    }

    /// The sum of the multiples `scalars[i] * points[i]`, computed in variable
    /// time.
    pub fn vartime_multiscalar_mul(scalars: &Vec<Fr>, points: &Vec<Element>) -> (r: Element)
        requires
            scalars.len() == points.len(),
            forall|i: int| 0 <= i < scalars.len() ==> (#[trigger] scalars[i]).wf(),
            forall|i: int| 0 <= i < points.len() ==> (#[trigger] points[i]).wf(),
        ensures
            r@ == linear_combination(scalar_values(scalars@), element_values(points@))
                % group_order(),
    {
        Element { bytes: element_multiscalar_mul(scalars, points) }
    }

    /// The element that the Elligator map gives for the field element that
    /// `bytes` spells, reduced modulo the order of the field.
    pub fn encode_to_curve(bytes: &[u8]) -> (e: Element)
        ensures
            e.encoding() == encode_to_curve_encoding(le_value(bytes@) % field_modulus()),
    {
        let r = field_from_le_bytes_mod_order(bytes);
        let e = element_encode_to_curve(&r);
        proof {
            lemma_element_encoding(e@);
        }
        Element { bytes: e }
    }
}

} // verus!
