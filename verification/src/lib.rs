//! Host-identity service core: chassis classification, authorization
//! gating, and the property dispatch rules of a hostname service.
//!
//! The service's I/O edges (the IPC bus, the authorization authority,
//! kernel queries and the persistence store) live outside this crate;
//! the crate receives their raw readings as plain values and makes
//! every decision that the service is trusted with.

pub mod authz;
pub mod chassis;
pub mod host;
pub mod registry;
pub mod text;
