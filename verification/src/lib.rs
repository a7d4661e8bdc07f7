//! The cryptographic core of a client for an end-to-end encrypted storage
//! service: keys and session keys, an OpenPGP engine over the primitives of
//! a backend, the client's side of the Secure Remote Password exchange, and
//! the data model that consumes their results.

pub mod crypto;
pub mod interface;
pub mod utils;
