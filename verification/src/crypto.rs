//! Keys, session keys, the OpenPGP engine and the SRP exchange.

pub mod backend;
pub mod digest;
pub mod encoding;
pub mod error;
pub mod interface;
pub mod laws;
pub mod memory;
pub mod openpgp;
pub mod outcomes;
pub mod random;
pub mod srp;
pub mod verification;
