//! Credential and session management for a school-administration service.
//!
//! The library decides; it never touches the credential store itself. Each
//! workflow is a small state machine: it names the next request for the store,
//! takes the store's reply, and either names another request or ends with a
//! result. Password hashing and strength scoring are done here, through the
//! `argon2`, `rand` and `zxcvbn` crates.
//!
//! [`store::Store`] is a mathematical model of the credential store, and
//! [`laws`] proves what the workflows achieve when they run against it.

pub mod auth;
pub mod error;
pub mod laws;
pub mod models;
pub mod password;
pub mod status;
pub mod store;
pub mod strength;
