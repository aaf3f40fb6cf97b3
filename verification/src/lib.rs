//! Client library for a fitness-event web API.
//!
//! The heart of the library is an authenticated, paginating API client:
//! it manages a bearer token's lifecycle (acquisition, expiry detection,
//! refresh) and a "list resource" protocol that follows server-provided
//! pagination links until exhaustion.  Network transport is left to the
//! caller: every outgoing request is described by a plain value, and every
//! response is handed back in as plain values, so the decisions themselves
//! are verified.

pub mod client;
pub mod date;
pub mod errors;
pub mod list;
pub mod models;
pub mod requests;
pub mod route;
pub mod state;
pub mod text;
pub mod token;
pub mod wire;
