use crate::crypto::error::CryptoError;
use crate::crypto::srp::SRPError;
use crate::interface::author::UnverifiedAuthorError;
use crate::interface::nodes::InvalidNameError;
use vstd::prelude::*;

verus! {

/// Every kind of error that the library reports.
#[derive(Clone, Debug, PartialEq, Eq)]
pub enum SdkError {
    Crypto(CryptoError),
    Srp(SRPError),
    UnverifiedAuthor(UnverifiedAuthorError),
    InvalidName(InvalidNameError),
}

} // verus!
