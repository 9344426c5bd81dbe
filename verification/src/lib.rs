//! Verified core of a secure-networking identity service: a credential
//! exchange handler that checks presented credentials against a set of
//! trusted authorities, and a crash-safe durable value store built on
//! atomic replace-on-write with advisory locking.

pub mod api;
pub mod credential;
pub mod storage;
pub mod worker;
pub mod file_storage;
pub mod value_storage;
pub mod inlet_list;
