//! Directory of room aliases for a federated chat server.
//!
//! The directory maps a human-readable room alias to an authoritative room
//! identifier together with the servers able to resolve it. Three operations
//! are offered — resolve, register, revoke — and the store guarantees that at
//! most one live record exists per alias at any time.

pub mod alias;
pub mod directory;
pub mod endpoints;
pub mod error;
pub mod laws;
pub mod store;
