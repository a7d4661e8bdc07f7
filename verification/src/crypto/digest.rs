use vstd::prelude::*;

verus! {

/// The digests that the author of a revision claims for its content.
#[derive(Clone, Debug, PartialEq, Eq)]
pub struct Digest {
    /// The SHA-1 digest in hexadecimal, where one is claimed.
    pub sha1: Option<String>,
}

} // verus!
