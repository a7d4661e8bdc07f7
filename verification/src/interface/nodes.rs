use crate::interface::author::Author;
use crate::interface::error::SdkError;
use crate::interface::member::{MemberRole, Membership};
use crate::interface::revisions::Revision;
use crate::utils::either::Either;
use crate::utils::timestamp::Timestamp;
use vstd::prelude::*;

verus! {

/// What only a folder has.
#[derive(Clone, Debug, PartialEq, Eq)]
pub struct FolderInfo {
    pub claimed_modification_time: Timestamp,
}

/// What a node has whether or not all of it could be decrypted.
#[derive(Debug, PartialEq, Eq)]
pub struct NodeDetails {
    pub uid: String,
    pub parent_uid: Option<String>,
    pub key_author: Author,
    pub name_author: Author,
    pub direct_role: MemberRole,
    pub membership: Option<Membership>,
    pub node_type: NodeType,
    pub media_type: Option<String>,
    pub is_shared: bool,
    pub deprecated_share_id: Option<String>,
    pub creation_time: Timestamp,
    pub trash_time: Timestamp,
    pub total_storage_size: Option<u64>,
    pub folder: Option<FolderInfo>,
    pub tree_event_scope_id: String,
}

/// A file or folder all of whose fields were decrypted.
#[derive(Debug, PartialEq, Eq)]
pub struct NodeEntity {
    pub details: NodeDetails,
    pub name: String,
    pub active_revision: Option<Revision>,
}

/// A file or folder some of whose fields could not be decrypted. The node
/// can still be used, but not every action is possible on it: with a name
/// that did not decrypt it cannot be renamed or moved, yet its content can
/// still be downloaded and a new revision uploaded.
#[derive(Debug, PartialEq, Eq)]
pub struct DegradedNode {
    pub details: NodeDetails,
    pub name: Result<String, SdkError>,
    pub active_revision: Result<Revision, SdkError>,
    /// Errors that belong to no single field, such as a node key that did
    /// not decrypt while the name did.
    pub errors: Option<Vec<String>>,
}

/// A node, fully decrypted or degraded.
pub type MaybeNode = Either<NodeEntity, DegradedNode>;

/// A node that was asked for and is not there, or not for this user.
#[derive(Clone, Debug, PartialEq, Eq)]
pub struct MissingNode {
    pub uid: String,
}

/// A node, or the notice that it is missing.
pub type MaybeMissingNode = Either<NodeEntity, MissingNode>;

/// What kind of node it is.
#[derive(Clone, Copy, Debug, PartialEq, Eq, Structural)]
pub enum NodeType {
    File,
    Folder,
    /// An album of the photo section. It can be loaded and shared like any
    /// node; nothing that is particular to albums is offered.
    Album,
}

impl NodeType {
    /// The name of each kind.
    pub open spec fn name(self) -> Seq<char> {
        match self {
            NodeType::File => "file"@,
            NodeType::Folder => "folder"@,
            NodeType::Album => "album"@,
        }
    }

    /// The kind's name as the service spells it.
    pub fn to_string(&self) -> (r: &'static str)
        ensures
            r@ == self.name(),
    {
        match self {
            NodeType::File => "file",
            NodeType::Folder => "folder",
            NodeType::Album => "album",
        }
    }
}

/// A node name that holds invalid characters.
#[derive(Clone, Debug, PartialEq, Eq)]
pub struct InvalidNameError {
    /// A placeholder that a client can show in place of the name.
    pub name: String,
    pub error: String,
}

impl InvalidNameError {
    /// The text of the error: what is wrong with the name, then the
    /// placeholder.
    pub open spec fn message(&self) -> Seq<char> {
        "InvalidNameError: "@ + self.error@ + " "@ + self.name@
    }

    /// The error as one line of text.
    pub fn to_string(&self) -> (r: String)
        ensures
            r@ == self.message(),
    {
        let mut text = String::from_str("InvalidNameError: ");
        text.append(self.error.as_str());
        text.append(" ");
        text.append(self.name.as_str());
        text
    }
}

} // verus!
