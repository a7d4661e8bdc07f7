use crate::interface::author::Author;
use crate::utils::timestamp::Timestamp;
use vstd::prelude::*;

verus! {

/// How a node is shared with the user.
#[derive(Debug, PartialEq, Eq)]
pub struct Membership {
    pub role: MemberRole,
    /// When the node was shared with the user.
    pub invite_time: Timestamp,
    /// Who shared the node with the user. Where the author cannot be
    /// verified the invitation may be forged, and the user is to be warned
    /// before accepting it or opening the shared content.
    pub shared_by: Author,
}

/// What a member may do with a shared node.
#[derive(Clone, Copy, Debug, PartialEq, Eq, Structural)]
pub enum MemberRole {
    Viewer,
    Editor,
    Admin,
    Inherited,
}

impl MemberRole {
    /// The name of each role.
    pub open spec fn name(self) -> Seq<char> {
        match self {
            MemberRole::Viewer => "viewer"@,
            MemberRole::Editor => "editor"@,
            MemberRole::Admin => "admin"@,
            MemberRole::Inherited => "inherited"@,
        }
    }

    /// The role's name as the service spells it.
    pub fn to_string(&self) -> (r: &'static str)
        ensures
            r@ == self.name(),
    {
        match self {
            MemberRole::Viewer => "viewer",
            MemberRole::Editor => "editor",
            MemberRole::Admin => "admin",
            MemberRole::Inherited => "inherited",
        }
    }
}

} // verus!
