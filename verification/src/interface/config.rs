use vstd::prelude::*;

verus! {

/// How the client reaches the service.
#[derive(Clone, Copy, Debug, PartialEq, Eq)]
pub struct ProtonDriveConfig {
    /// The base URL of the service, without schema.
    pub base_url: &'static str,
    /// The language of error messages.
    pub language: &'static str,
    /// Identifies the client for an upload. Where an upload fails on an
    /// existing draft, a draft of the same client is cleaned up and the
    /// upload starts again; a draft of another client is kept until the user
    /// agrees to override it.
    pub client_uuid: &'static str,
}

impl Default for ProtonDriveConfig {
    /// The public service, in English, with no client id.
    fn default() -> (r: Self)
        ensures
            r.base_url@ == "drive-api.proton.me"@,
            r.language@ == "en"@,
            r.client_uuid@ == ""@,
    {
        ProtonDriveConfig { base_url: "drive-api.proton.me", language: "en", client_uuid: "" }
    }
}

} // verus!
