//! A JSON-RPC router in front of a Zebra node and a Zallet wallet.
//!
//! The router offers the methods of both backends behind one endpoint. At startup it asks each
//! for its OpenRPC schema ([`discover`]) and merges the two ([`schema`]). Each request then goes
//! to the backend that its method belongs to ([`routing`], [`forward`]), and `rpc.discover` is
//! answered with the merged schema ([`handler`], [`response`]).
use vstd::prelude::*;

pub mod config;
pub mod defaults;
pub mod discover;
pub mod forward;
pub mod handler;
pub mod headers;
pub mod json;
pub mod laws;
pub mod package;
pub mod response;
pub mod routing;
pub mod schema;

verus! {

/// What can go wrong in the router itself.
#[derive(Debug)]
pub enum RouterError {
    /// The response of a backend is no JSON document.
    Json(serde_json::Error),
    /// The reply of a backend has too many headers to take those for CORS.
    TooManyHeaders,
}

} // verus!
