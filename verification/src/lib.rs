//! A small self-hosted service library: it serves static documents and
//! authenticates login requests against a persistent credential store with
//! automatic backend failover.
//!
//! The storage facade ([`database::db::Database`]) picks a backend once at
//! construction, the query compiler ([`database::sqlite`]) maps typed query
//! requests to parameterized statements, and the request pipeline
//! ([`server::pipeline`]) parses one request, dispatches it, and formats a
//! classified response. I/O (sockets, the document store, the configuration
//! file) stays with the callers; this crate holds the decisions.

pub mod database;
pub mod login;
pub mod server;
pub mod tools;

use vstd::prelude::*;

verus! {

/// Lifecycle of the serving loop: not started, waiting for a connection, or
/// busy with one.
pub enum State {
    Off,
    Idle,
    Processing,
}

/// One accepted request, already split into its tokens: the method token
/// (`GET`, `POST`), the first path segment, the protocol token, the peer
/// address as reported by the transport, and the body (the last line of the
/// read buffer).
#[derive(Debug, Clone)]
pub struct ConnectionData {
    pub method: String,
    pub file: String,
    pub protocol: String,
    pub conn_ip: Option<String>,
    pub body: String,
}

} // verus!
