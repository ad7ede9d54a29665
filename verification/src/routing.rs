//! Routing: which backend a JSON-RPC request belongs to.
use crate::json::{documents, is_text, json, value_at, Json};
use crate::schema::Z3Schema;
use serde_json::Value;
use vstd::prelude::*;

verus! {

/// What the router reads of a JSON-RPC request.
#[derive(Debug)]
pub struct RpcRequest {
    pub method: String,
}

/// Where a request goes.
#[derive(Clone, Copy, Debug, PartialEq, Eq, Structural)]
pub enum Route {
    /// The router answers with the merged schema.
    Discover,
    /// The request goes to Zebra.
    Zebra,
    /// The request goes to Zallet.
    Zallet,
}

/// `methods` lists a method called `name`.
pub open spec fn lists_method(methods: Seq<Json>, name: Seq<char>) -> bool {
    exists|i: int| 0 <= i < methods.len() && (#[trigger] methods[i]).at("name"@) == Json::Text(name)
}

/// Where a request goes, by its method, given the methods of the two backends. A request that
/// names no method, or one that neither backend lists, goes to Zebra.
pub open spec fn route_of(
    method: Option<Seq<char>>,
    zebra_methods: Seq<Json>,
    zallet_methods: Seq<Json>,
) -> Route {
    match method {
        None => Route::Zebra,
        Some(name) => if name == "rpc.discover"@ {
            Route::Discover
        } else if lists_method(zebra_methods, name) {
            Route::Zebra
        } else if lists_method(zallet_methods, name) {
            Route::Zallet
        } else {
            Route::Zebra
        },
    }
}

/// The method that a request names, where one could be read.
pub open spec fn method_of(request: Option<RpcRequest>) -> Option<Seq<char>> {
    match request {
        Some(request) => Some(request.method@),
        None => None,
    }
}

/// Tells whether a list of methods has one with the given name.
pub fn has_method(methods: &Vec<Value>, name: &String) -> (found: bool)
    ensures
        found == lists_method(documents(methods@), name@),
{
    let mut i: usize = 0;
    while i < methods.len()
        invariant
            i <= methods.len(),
            forall|j: int|
                0 <= j < i ==> (#[trigger] documents(methods@)[j]).at("name"@) != Json::Text(name@),
        decreases methods.len() - i,
    {
        if is_text(value_at(&methods[i], "name"), name) {
            assert(documents(methods@)[i as int].at("name"@) == Json::Text(name@));
            return true;
        }
        i += 1;
    }
    false
}

/// Decides where a request goes; `None` is a body that is no JSON-RPC request.
pub fn route(request: &Option<RpcRequest>, z3: &Z3Schema) -> (r: Route)
    ensures
        r == route_of(
            method_of(*request),
            documents(z3.zebra_methods@),
            documents(z3.zallet_methods@),
        ),
{
    match request {
        Some(request) => if request.method == "rpc.discover".to_string() {
            Route::Discover
        } else if has_method(&z3.zebra_methods, &request.method) {
            Route::Zebra
        } else if has_method(&z3.zallet_methods, &request.method) {
            Route::Zallet
        } else {
            Route::Zebra
        },
        None => Route::Zebra,
    }
}

} // verus!
