//! A signup client for the Xornet backend, without the transport.
//!
//! The library builds the one request that registers a machine and decides,
//! from what the transport reports back, what the signup has come to. Sending
//! the request and reading the response are left to the caller.

pub mod json;
pub mod error;
pub mod auth_manager;
