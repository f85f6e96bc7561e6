//! Verified core of a remote job-control gateway.
//!
//! The gateway lets callers start, stop, query and stream jobs that a separate
//! worker executes, over a transport secured with mutual TLS. This library
//! holds the rules of that gateway: which requests reach the worker and with
//! which identifiers, how the worker's answers become replies, how a log
//! stream is cut into chunks, and how the server's TLS identity is obtained
//! and renewed. Network and file access are left to the embedding program,
//! which feeds their results to the functions here.

pub mod api;
pub mod auth;
pub mod bytes;
pub mod crypto;
pub mod error;
pub mod ident;
pub mod stream;
