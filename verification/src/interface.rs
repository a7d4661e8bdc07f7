//! The data model around the cryptographic core: accounts, devices, nodes,
//! revisions, members and authors.

pub mod account;
pub mod author;
pub mod config;
pub mod devices;
pub mod error;
pub mod member;
pub mod nodes;
pub mod revisions;
