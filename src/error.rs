//! The errors of decoding the out-of-band exchange messages.
use vstd::prelude::*;

verus! {

/// Why a message or one of its fields was refused.
#[derive(Clone, Debug, Eq, PartialEq)]
pub enum IdExchangeError {
    /// The document is not a well-formed message of its type.
    Malformed,
    /// A URI is not valid.
    InvalidUri,
    /// The certificate validator refused the embedded identity certificate;
    /// the text is its reason.
    InvalidIdCert(String),
}

} // verus!
