//! The errors of the library.

use vstd::prelude::*;

verus! {

/// An error related to `decaf377-rdsa` signatures.
#[derive(Debug, Copy, Clone, Eq, PartialEq, Structural)]
pub enum Error {
    /// The encoding of a signing key was malformed.
    MalformedSigningKey,
    /// The encoding of a verification key was malformed.
    MalformedVerificationKey,
    /// Signature verification failed.
    InvalidSignature,
    /// Occurs when reading from a slice of the wrong length.
    WrongSliceLength { expected: usize, found: usize },
}

/// The character of the decimal digit `d`.
pub open spec fn digit(d: nat) -> char {
    (0x30 + d) as u8 as char
}

/// The decimal numeral of `n`, without leading zeros.
pub open spec fn decimal(n: nat) -> Seq<char>
    decreases n,
{
    if n < 10 {
        seq![digit(n)]
    } else {
        decimal(n / 10).push(digit(n % 10))
    }
}

/// The formatting of a `usize` by `std::fmt::Display`: its decimal numeral.
#[verifier::external_body]
fn usize_to_decimal(n: usize) -> (s: String)
    ensures
        s@ == decimal(n as nat),
{
    format!("{}", n)
}

impl Error {
    /// The message of the error.
    pub open spec fn message(self) -> Seq<char> {
        match self {
            Error::MalformedSigningKey => "Malformed signing key encoding."@,
            Error::MalformedVerificationKey => "Malformed verification key encoding."@,
            Error::InvalidSignature => "Invalid signature."@,
            Error::WrongSliceLength { expected, found } => "Wrong slice length, expected "@
                + decimal(expected as nat) + ", found "@ + decimal(found as nat),
        }
    }

    /// The message of the error, as a string.
    pub fn to_string(&self) -> (s: String)
        ensures
            s@ == self.message(),
    {
        match self {
            Error::MalformedSigningKey => String::from_str("Malformed signing key encoding."),
            Error::MalformedVerificationKey => String::from_str(
                "Malformed verification key encoding.",
            ),
            Error::InvalidSignature => String::from_str("Invalid signature."),
            Error::WrongSliceLength { expected, found } => {
                let mut s = String::from_str("Wrong slice length, expected ");
                s.append(usize_to_decimal(*expected).as_str());
                s.append(", found ");
                s.append(usize_to_decimal(*found).as_str());
                s
            },
        }
    }
}

} // verus!
