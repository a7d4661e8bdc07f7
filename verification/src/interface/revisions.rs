use crate::crypto::digest::Digest;
use crate::interface::author::Author;
use crate::utils::timestamp::Timestamp;
use vstd::prelude::*;

verus! {

/// Whether a revision is the current content of its file.
#[derive(Clone, Copy, Debug, PartialEq, Eq, Structural)]
pub enum RevisionState {
    Active,
    Superseded,
}

impl RevisionState {
    /// The name of each state.
    pub open spec fn name(self) -> Seq<char> {
        match self {
            RevisionState::Active => "active"@,
            RevisionState::Superseded => "superseded"@,
        }
    }

    /// The state's name as the service spells it.
    pub fn to_string(&self) -> (r: &'static str)
        ensures
            r@ == self.name(),
    {
        match self {
            RevisionState::Active => "active",
            RevisionState::Superseded => "superseded",
        }
    }
}

/// One version of a file's content.
#[derive(Debug, PartialEq, Eq)]
pub struct Revision {
    pub uid: String,
    pub state: RevisionState,
    pub creation_time: Timestamp,
    pub content_author: Author,
    /// Encrypted size of the revision, as stored on the server.
    pub storage_size: u64,
    /// Raw size of the revision, as stored in extended attributes.
    pub claimed_size: Option<u64>,
    pub claimed_modification_time: Timestamp,
    pub claimed_digests: Option<Digest>,
}

} // verus!
