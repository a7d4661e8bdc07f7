use crate::crypto::interface::{AnyKey, PublicKey};
use vstd::prelude::*;

verus! {

/// A key of an address, under its id.
pub struct KeyListEntry {
    pub id: String,
    pub key: AnyKey,
}

/// An address of an account, with its keys.
pub struct ProtonDriveAccountAddress {
    pub email: String,
    pub address_id: String,
    pub primary_key_index: u64,
    pub keys: Vec<KeyListEntry>,
}

impl ProtonDriveAccountAddress {
    /// An address that has no keys yet.
    pub fn new(email: &str, address_id: &str) -> (r: Self)
        ensures
            r.email@ == email@,
            r.address_id@ == address_id@,
            r.primary_key_index == 0,
            r.keys@.len() == 0,
    {
        ProtonDriveAccountAddress {
            email: String::from_str(email),
            address_id: String::from_str(address_id),
            primary_key_index: 0,
            keys: Vec::new(),
        }
    }
}

/// What the library asks of the account that it works for. An account that
/// leaves a method alone has no address and knows no keys, and takes every
/// email for one of the service.
pub trait ProtonDriveAccount {
    /// The primary address of the account.
    fn get_own_primary_address() -> (r: Result<ProtonDriveAccountAddress, &'static str>)
        default_ensures
            r matches Err(reason) && reason@ == "address not set"@,
    {
        Err("address not set")
    }

    /// The address of the account with this email or address id.
    fn get_own_address(email_or_address_id: String) -> (r: Option<ProtonDriveAccountAddress>)
        default_ensures
            r is None,
    {
        None
    }

    /// Whether this email belongs to an account of the service.
    fn has_proton_account(email: &str) -> (r: bool)
        default_ensures
            r,
    {
        true
    }

    /// The public keys of this email's address.
    fn get_public_keys(email: &str) -> (r: Vec<PublicKey>)
        default_ensures
            r@.len() == 0,
    {
        Vec::new()
    }
}

/// An account whose addresses are not set.
pub struct ManagedAccount {}

impl ProtonDriveAccount for ManagedAccount {
    fn get_own_primary_address() -> (r: Result<ProtonDriveAccountAddress, &'static str>)
        ensures
            r matches Err(reason) && reason@ == "address not set"@,
    {
        Err("address not set")
    }
}

} // verus!
