//! Authentication and ticket-update core of a small ticketing backend.
//!
//! The library covers the logic worth specifying precisely: password
//! hashing and verification, issuance and validation of time-bounded
//! bearer tokens, the request gate that turns an `Authorization` header
//! into an authenticated principal, tri-state partial updates of ticket
//! records, and the registration/login/logout flows over a persistence
//! model. HTTP routing, database transport and process bootstrap live
//! outside the library and call into it with plain values.

pub mod auth;
pub mod errors;
pub mod guard;
pub mod hashing;
pub mod jwt;
pub mod patch;
pub mod store;
pub mod tickets;
