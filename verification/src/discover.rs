//! The call of `rpc.discover` that the router makes on each backend at startup.
use crate::json::{
    array_value, display_json, displayed, documents, integer_value, json, max_depth, object_value,
    parse_json, parsed, reads_back, text_value, value_at, Json,
};
use crate::schema::{holds_merged, merge_openrpc_schemas, Z3Schema};
use crate::RouterError;
use serde_json::Value;
use vstd::prelude::*;

verus! {

/// The JSON-RPC request that asks a backend for its schema.
pub open spec fn discover_request() -> Json {
    Json::Object(
        map![
            "jsonrpc"@ => Json::Text("2.0"@),
            "id"@ => Json::Integer(1),
            "method"@ => Json::Text("rpc.discover"@),
            "params"@ => Json::Array(Seq::empty()),
        ],
    )
}

/// The JSON-RPC request that asks a backend for its schema.
pub fn discover_request_value() -> (request: Value)
    ensures
        json(request) == discover_request(),
{
    let mut request = serde_json::Map::new();
    request.insert("jsonrpc".to_string(), text_value("2.0".to_string()));
    request.insert("id".to_string(), integer_value(1));
    request.insert("method".to_string(), text_value("rpc.discover".to_string()));
    let params: Vec<Value> = Vec::new();
    assert(documents(params@) =~= Seq::empty());
    request.insert("params".to_string(), array_value(params));
    object_value(request)
}

/// The body of the request that asks a backend for its schema.
pub fn discover_request_body() -> (body: String)
    ensures
        body@ == displayed(discover_request()),
        parsed(body@) == Some(discover_request()),
{
    assert(reads_back(discover_request(), max_depth())) by {
        reveal_with_fuel(reads_back, 3);
    }
    display_json(&discover_request_value())
}

/// Parses the JSON response of a backend.
pub fn parse_discover_response(text: &str) -> (response: Result<Value, RouterError>)
    ensures
        match response {
            Ok(value) => parsed(text@) == Some(json(value)),
            Err(RouterError::Json(_)) => parsed(text@) is None,
            Err(_) => false,
        },
{
    match parse_json(text) {
        Ok(value) => Ok(value),
        Err(error) => Err(RouterError::Json(error)),
    }
}

/// Takes the schema out of the response of a backend.
pub fn discovered_schema(response: &Value) -> (schema: Value)
    ensures
        json(schema) == json(*response).at("result"@),
{
    value_at(response, "result").clone()
}

/// Merges the schemas that the two backends gave in their responses.
pub fn merge_discovered(zebra_response: &Value, zallet_response: &Value) -> (z3: Result<
    Z3Schema,
    RouterError,
>)
    ensures
        z3 matches Ok(z3) && holds_merged(
            z3,
            json(*zebra_response).at("result"@),
            json(*zallet_response).at("result"@),
        ),
{
    merge_openrpc_schemas(discovered_schema(zebra_response), discovered_schema(zallet_response))
}

} // verus!
