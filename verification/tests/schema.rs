use rpc_router::discover::{
    discover_request_body, discovered_schema, merge_discovered, parse_discover_response,
};
use rpc_router::schema::{
    annotate_methods_with_server, extract_methods_array, merge_components_schemas,
    merge_openrpc_schemas,
};
use rpc_router::RouterError;
use serde_json::Value;

fn document(text: &str) -> Value {
    serde_json::from_str(text).unwrap()
}

fn zebra_schema() -> Value {
    document(
        r#"{
            "openrpc": "1.2.6",
            "methods": [
                { "name": "getblock", "params": [] },
                { "name": "getinfo",  "params": [] }
            ],
            "components": {
                "schemas": {
                    "BlockHash": { "type": "string" }
                }
            }
        }"#,
    )
}

fn zallet_schema() -> Value {
    document(
        r#"{
            "openrpc": "1.2.6",
            "methods": [
                { "name": "getwalletinfo", "params": [] },
                { "name": "z_sendmany",    "params": [] }
            ],
            "components": {
                "schemas": {
                    "WalletInfo": { "type": "object" }
                }
            }
        }"#,
    )
}

// --- extract_methods_array ---

#[test]
fn test_extract_methods_array_returns_methods() {
    let schema = zebra_schema();
    let methods = extract_methods_array(&schema);
    assert_eq!(methods.len(), 2);
    assert_eq!(methods[0]["name"], "getblock");
    assert_eq!(methods[1]["name"], "getinfo");
}

#[test]
fn test_extract_methods_array_missing_key_returns_empty() {
    let schema = document(r#"{ "openrpc": "1.2.6" }"#);
    let methods = extract_methods_array(&schema);
    assert!(methods.is_empty());
}

#[test]
fn test_extract_methods_array_of_other_documents_returns_empty() {
    assert!(extract_methods_array(&document(r#"{ "methods": {} }"#)).is_empty());
    assert!(extract_methods_array(&document("null")).is_empty());
    assert!(extract_methods_array(&document("[1, 2]")).is_empty());
}

// --- annotate_methods_with_server ---

#[test]
fn test_annotate_methods_sets_x_server() {
    let mut methods = extract_methods_array(&zebra_schema());
    annotate_methods_with_server(&mut methods, "zebra");
    for m in &methods {
        assert_eq!(m["x-server"], "zebra");
    }
}

#[test]
fn test_annotate_methods_non_object_entry_does_not_panic() {
    // A schema that contains a non-object method entry (e.g. a bare string).
    let schema = document(r#"{ "methods": ["not-an-object", { "name": "getblock" }] }"#);
    let mut methods = extract_methods_array(&schema);
    // Must not panic — the non-object entry is silently skipped.
    annotate_methods_with_server(&mut methods, "zebra");
    assert_eq!(methods[1]["x-server"], "zebra");
}

#[test]
fn test_annotate_methods_keeps_everything_else() {
    let mut methods = vec![
        document(r#""not-an-object""#),
        document(r#"{ "name": "getblock", "x-server": "other", "params": [1, 2.5, null, true] }"#),
    ];
    annotate_methods_with_server(&mut methods, "zallet");
    assert_eq!(methods[0], document(r#""not-an-object""#));
    assert_eq!(
        methods[1],
        document(
            r#"{ "name": "getblock", "x-server": "zallet", "params": [1, 2.5, null, true] }"#
        )
    );
}

#[test]
fn test_annotate_methods_again_replaces_the_server() {
    let mut twice = extract_methods_array(&zebra_schema());
    annotate_methods_with_server(&mut twice, "zebra");
    annotate_methods_with_server(&mut twice, "zallet");
    let mut once = extract_methods_array(&zebra_schema());
    annotate_methods_with_server(&mut once, "zallet");
    assert_eq!(twice, once);
}

// --- merge_components_schemas ---

#[test]
fn test_merge_components_schemas_combines_keys() {
    let mut combined = serde_json::Map::new();
    merge_components_schemas(&zebra_schema(), &mut combined);
    merge_components_schemas(&zallet_schema(), &mut combined);
    assert!(combined.contains_key("BlockHash"));
    assert!(combined.contains_key("WalletInfo"));
}

#[test]
fn test_merge_components_schemas_missing_components_is_noop() {
    let schema = document(r#"{ "methods": [] }"#);
    let mut combined = serde_json::Map::new();
    merge_components_schemas(&schema, &mut combined);
    assert!(combined.is_empty());
}

#[test]
fn test_merge_components_schemas_last_write_wins_on_conflict() {
    let schema_a = document(r#"{ "components": { "schemas": { "Foo": { "type": "string" } } } }"#);
    let schema_b = document(r#"{ "components": { "schemas": { "Foo": { "type": "integer" } } } }"#);
    let mut combined = serde_json::Map::new();
    merge_components_schemas(&schema_a, &mut combined);
    merge_components_schemas(&schema_b, &mut combined);
    assert_eq!(combined["Foo"]["type"], "integer");
}

#[test]
fn test_merge_components_schemas_again_changes_nothing() {
    let mut combined = serde_json::Map::new();
    merge_components_schemas(&zebra_schema(), &mut combined);
    let once = combined.clone();
    merge_components_schemas(&zebra_schema(), &mut combined);
    assert_eq!(combined, once);
}

// --- merge_openrpc_schemas ---

#[test]
fn test_merge_openrpc_schemas_combined_method_count() {
    let z3 = merge_openrpc_schemas(zebra_schema(), zallet_schema()).unwrap();
    assert_eq!(z3.zebra_methods.len(), 2);
    assert_eq!(z3.zallet_methods.len(), 2);
    assert_eq!(z3.merged["methods"].as_array().unwrap().len(), 4);
}

#[test]
fn test_merge_openrpc_schemas_methods_annotated() {
    let z3 = merge_openrpc_schemas(zebra_schema(), zallet_schema()).unwrap();
    for m in &z3.zebra_methods {
        assert_eq!(m["x-server"], "zebra");
    }
    for m in &z3.zallet_methods {
        assert_eq!(m["x-server"], "zallet");
    }
}

#[test]
fn test_merge_openrpc_schemas_components_merged() {
    let z3 = merge_openrpc_schemas(zebra_schema(), zallet_schema()).unwrap();
    let schemas = &z3.merged["components"]["schemas"];
    assert!(schemas.get("BlockHash").is_some());
    assert!(schemas.get("WalletInfo").is_some());
}

#[test]
fn test_merge_openrpc_schemas_info_fields_present() {
    let z3 = merge_openrpc_schemas(zebra_schema(), zallet_schema()).unwrap();
    assert!(z3.merged["info"]["title"].is_string());
    assert!(z3.merged["info"]["version"].is_string());
}

#[test]
fn test_merge_openrpc_schemas_whole_document() {
    let z3 = merge_openrpc_schemas(zebra_schema(), zallet_schema()).unwrap();
    assert_eq!(
        z3.merged,
        document(
            r#"{
                "openrpc": "1.2.6",
                "info": {
                    "title": "rpc-router",
                    "description": "RPC Router for Zebra, Zallet and Zaino",
                    "version": "0.1.0"
                },
                "servers": [ { "name": "router", "url": "http://localhost:8080/" } ],
                "methods": [
                    { "name": "getblock", "params": [], "x-server": "zebra" },
                    { "name": "getinfo", "params": [], "x-server": "zebra" },
                    { "name": "getwalletinfo", "params": [], "x-server": "zallet" },
                    { "name": "z_sendmany", "params": [], "x-server": "zallet" }
                ],
                "components": {
                    "schemas": {
                        "BlockHash": { "type": "string" },
                        "WalletInfo": { "type": "object" }
                    }
                }
            }"#
        )
    );
}

#[test]
fn test_merge_openrpc_schemas_of_empty_documents() {
    let z3 = merge_openrpc_schemas(document("null"), document("[]")).unwrap();
    assert!(z3.zebra_methods.is_empty());
    assert!(z3.zallet_methods.is_empty());
    assert!(z3.merged["openrpc"].is_null());
    assert_eq!(z3.merged["methods"], document("[]"));
    assert_eq!(z3.merged["components"], document(r#"{ "schemas": {} }"#));
}

#[test]
fn test_merge_openrpc_schemas_prefers_zallet_components() {
    let zebra = document(
        r#"{ "components": { "schemas": { "A": 1, "B": 2 } } }"#,
    );
    let zallet = document(
        r#"{ "components": { "schemas": { "B": 3, "C": 4 } } }"#,
    );
    let z3 = merge_openrpc_schemas(zebra, zallet).unwrap();
    assert_eq!(
        z3.merged["components"]["schemas"],
        document(r#"{ "A": 1, "B": 3, "C": 4 }"#)
    );
}

// --- rpc.discover at startup ---

#[test]
fn test_discover_request_body() {
    assert_eq!(
        discover_request_body(),
        r#"{"id":1,"jsonrpc":"2.0","method":"rpc.discover","params":[]}"#
    );
}

#[test]
fn test_discover_response_gives_the_schema() {
    let response =
        parse_discover_response(r#"{ "jsonrpc": "2.0", "id": 1, "result": { "openrpc": "1.2.6" } }"#)
            .unwrap();
    assert_eq!(
        discovered_schema(&response),
        document(r#"{ "openrpc": "1.2.6" }"#)
    );
}

#[test]
fn test_discover_response_without_result_gives_null() {
    let response = parse_discover_response(r#"{ "error": "no" }"#).unwrap();
    assert!(discovered_schema(&response).is_null());
    assert!(discovered_schema(&document("7")).is_null());
}

#[test]
fn test_discover_response_that_is_no_json_is_an_error() {
    assert!(matches!(
        parse_discover_response("<html>"),
        Err(RouterError::Json(_))
    ));
}

#[test]
fn test_merge_discovered_reads_both_results() {
    let zebra = document(r#"{ "result": { "openrpc": "1.3.2", "methods": [ { "name": "a" } ] } }"#);
    let zallet = document(r#"{ "result": { "openrpc": "1.2.6", "methods": [ { "name": "b" } ] } }"#);
    let z3 = merge_discovered(&zebra, &zallet).unwrap();
    assert_eq!(z3.merged["openrpc"], "1.3.2");
    assert_eq!(
        z3.merged["methods"],
        document(
            r#"[ { "name": "a", "x-server": "zebra" }, { "name": "b", "x-server": "zallet" } ]"#
        )
    );
}
