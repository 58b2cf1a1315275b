//! RedDSA signatures over the decaf377 group, in two signature domains:
//! `SpendAuth`, whose keys can be re-randomised, and `Binding`.
//!
//! Every function of this crate is verified against a mathematical model of
//! the scheme. Scalars are integers modulo the group order; group elements are
//! modelled by their discrete logarithm to the conventional generator, so that
//! the group laws become modular arithmetic. What the group and the hash
//! compute is trusted; what the scheme does with them is proved.
//!
//! The library draws no randomness itself: signing and batch verification
//! take the random bytes and words that the caller has drawn for them.

pub mod batch;
mod domain;
pub mod error;
pub mod frost;
pub mod group;
pub mod hash;
pub mod lexicographic;
pub mod little_endian;
pub mod modular;
pub mod scalar;
pub mod signature;
pub mod signing_key;
pub mod verification_key;

pub use domain::{binding_label, hash_to_group_encoding, Binding, Domain, SpendAuth};
pub use error::Error;
pub use group::Element;
pub use hash::HStar;
pub use scalar::Fr;
pub use signature::Signature;
pub use signing_key::SigningKey;
pub use verification_key::{VerificationKey, VerificationKeyBytes};
