//! What the router says of itself in the merged schema.
use vstd::prelude::*;

verus! {

pub const PKG_NAME: &'static str = "rpc-router";

pub const PKG_DESCRIPTION: &'static str = "RPC Router for Zebra, Zallet and Zaino";

pub const PKG_VERSION: &'static str = "0.1.0";

} // verus!
