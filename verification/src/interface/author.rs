use vstd::prelude::*;

verus! {

/// Who wrote something: a verified author (`None` for an anonymous one), or
/// the claim that could not be verified.
pub type Author = Result<Option<String>, UnverifiedAuthorError>;

/// A claimed author whose signature could not be validated.
#[derive(Clone, Debug, PartialEq, Eq)]
pub struct UnverifiedAuthorError {
    pub claimed_author: String,
    pub error: String,
}

impl UnverifiedAuthorError {
    /// The text of the error: what went wrong, then who claimed to be the
    /// author.
    pub open spec fn message(&self) -> Seq<char> {
        "Unverified Author: "@ + self.error@ + " "@ + self.claimed_author@
    }

    /// The error as one line of text.
    pub fn to_string(&self) -> (r: String)
        ensures
            r@ == self.message(),
    {
        let mut text = String::from_str("Unverified Author: ");
        text.append(self.error.as_str());
        text.append(" ");
        text.append(self.claimed_author.as_str());
        text
    }
}

} // verus!
