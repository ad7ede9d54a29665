//! The OpenRPC schemas of the two backends, merged into one.
use crate::json::{
    array_value, documents, entries, json, members, object_value, text_value, value_at, Json,
};
use crate::package::{PKG_DESCRIPTION, PKG_NAME, PKG_VERSION};
use crate::RouterError;
use serde_json::Value;
use vstd::prelude::*;

verus! {

/// Merged schema and method lists for routing.
#[derive(Clone)]
pub struct Z3Schema {
    /// The methods of Zebra, each annotated with its server.
    pub zebra_methods: Vec<Value>,
    /// The methods of Zallet, each annotated with its server.
    pub zallet_methods: Vec<Value>,
    /// The schema that the router serves itself.
    pub merged: Value,
}

/// The methods that a schema lists: the items of its `methods`, where that is an array.
pub open spec fn methods_of(schema: Json) -> Seq<Json> {
    schema.at("methods"@).items()
}

/// The component schemas of a schema: the members of `schemas` under its `components`.
pub open spec fn component_schemas_of(schema: Json) -> Map<Seq<char>, Json> {
    schema.at("components"@).at("schemas"@).fields()
}

/// A method with the name of its server under `x-server`; an entry that is no object stays as
/// it is.
pub open spec fn annotated(method: Json, server: Seq<char>) -> Json {
    match method {
        Json::Object(fields) => Json::Object(fields.insert("x-server"@, Json::Text(server))),
        other => other,
    }
}

/// Every method of a list annotated with its server, in the same order.
pub open spec fn all_annotated(methods: Seq<Json>, server: Seq<char>) -> Seq<Json> {
    methods.map_values(|method: Json| annotated(method, server))
}

/// The description of the router itself.
pub open spec fn router_info() -> Json {
    Json::Object(
        map![
            "title"@ => Json::Text(PKG_NAME@),
            "description"@ => Json::Text(PKG_DESCRIPTION@),
            "version"@ => Json::Text(PKG_VERSION@),
        ],
    )
}

/// The servers that the merged schema names: the router alone.
pub open spec fn router_servers() -> Json {
    Json::Array(
        seq![
            Json::Object(
                map![
                    "name"@ => Json::Text("router"@),
                    "url"@ => Json::Text("http://localhost:8080/"@),
                ],
            ),
        ],
    )
}

/// The schema that the router serves, merged from those of Zebra and Zallet: the methods of
/// both, Zebra's first, and the component schemas of both, Zallet's in place of Zebra's where a
/// name occurs twice.
pub open spec fn merged_schema(zebra: Json, zallet: Json) -> Json {
    Json::Object(
        map![
            "openrpc"@ => zebra.at("openrpc"@),
            "info"@ => router_info(),
            "servers"@ => router_servers(),
            "methods"@ => Json::Array(
                all_annotated(methods_of(zebra), "zebra"@) + all_annotated(
                    methods_of(zallet),
                    "zallet"@,
                ),
            ),
            "components"@ => Json::Object(
                map![
                    "schemas"@ => Json::Object(
                        component_schemas_of(zebra).union_prefer_right(component_schemas_of(zallet)),
                    ),
                ],
            ),
        ],
    )
}

/// `z3` holds what was merged from the schemas of Zebra and Zallet.
pub open spec fn holds_merged(z3: Z3Schema, zebra: Json, zallet: Json) -> bool {
    &&& documents(z3.zebra_methods@) == all_annotated(methods_of(zebra), "zebra"@)
    &&& documents(z3.zallet_methods@) == all_annotated(methods_of(zallet), "zallet"@)
    &&& json(z3.merged) == merged_schema(zebra, zallet)
}

/// Extracts the methods array from the OpenRPC schema.
pub fn extract_methods_array(schema: &Value) -> (methods: Vec<Value>)
    ensures
        documents(methods@) == methods_of(json(*schema)),
{
    match value_at(schema, "methods").as_array() {
        Some(items) => {
            let methods = items.clone();
            assert(documents(methods@) =~= documents(items@));
            methods
        },
        None => Vec::new(),
    }
}

/// Annotates each method with its origin server.
pub fn annotate_methods_with_server(methods: &mut Vec<Value>, server_name: &str)
    ensures
        documents(final(methods)@) == all_annotated(documents(old(methods)@), server_name@),
{
    let ghost before = methods@;
    let mut i: usize = 0;
    while i < methods.len()
        invariant
            i <= methods.len(),
            methods.len() == before.len(),
            forall|j: int|
                0 <= j < i ==> json(#[trigger] methods@[j]) == annotated(
                    json(before[j]),
                    server_name@,
                ),
            forall|j: int| i <= j < methods.len() ==> #[trigger] methods@[j] == before[j],
        decreases methods.len() - i,
    {
        let method = &mut methods[i];
        if let Some(fields) = method.as_object_mut() {
            fields.insert("x-server".to_string(), text_value(server_name.to_string()));
        }
        i += 1;
    }
}

/// Merges the components.schemas from the given schema into the combined map.
pub fn merge_components_schemas(schema: &Value, combined: &mut serde_json::Map<String, Value>)
    ensures
        members(*final(combined)) == members(*old(combined)).union_prefer_right(
            component_schemas_of(json(*schema)),
        ),
{
    if let Some(object) = value_at(value_at(schema, "components"), "schemas").as_object() {
        let list = entries(object);
        let ghost before = members(*combined);
        let ghost fields = members(*object);
        let mut i: usize = 0;
        while i < list.len()
            invariant
                i <= list.len(),
                crate::json::lists_members(list@, fields),
                forall|key: Seq<char>| #[trigger]
                    members(*combined).contains_key(key) <==> before.contains_key(key) || (exists|
                        j: int,
                    |
                        0 <= j < i && (#[trigger] list@[j]).0@ == key),
                forall|j: int|
                    0 <= j < i ==> members(*combined)[(#[trigger] list@[j]).0@] == json(*list@[j].1),
                forall|key: Seq<char>|
                    before.contains_key(key) && (forall|j: int|
                        0 <= j < i ==> (#[trigger] list@[j]).0@ != key) ==> #[trigger] members(
                        *combined,
                    )[key] == before[key],
            decreases list.len() - i,
        {
            let (key, value) = list[i];
            combined.insert(key.clone(), value.clone());
            i += 1;
        }
        assert(members(*combined) =~= before.union_prefer_right(fields));
    } else {
        assert(members(*combined) =~= members(*combined).union_prefer_right(Map::empty()));
    }
}

/// The description of the router itself, as a document.
fn router_info_value() -> (info: Value)
    ensures
        json(info) == router_info(),
{
    let mut info = serde_json::Map::new();
    info.insert("title".to_string(), text_value(PKG_NAME.to_string()));
    info.insert("description".to_string(), text_value(PKG_DESCRIPTION.to_string()));
    info.insert("version".to_string(), text_value(PKG_VERSION.to_string()));
    object_value(info)
}

/// The servers of the merged schema, as a document.
fn router_servers_value() -> (servers: Value)
    ensures
        json(servers) == router_servers(),
{
    let mut router = serde_json::Map::new();
    router.insert("name".to_string(), text_value("router".to_string()));
    router.insert("url".to_string(), text_value("http://localhost:8080/".to_string()));
    let servers = vec![object_value(router)];
    assert(documents(servers@) =~= router_servers().items());
    array_value(servers)
}

/// Merges the OpenRPC schemas from Zebra and Zallet.
pub fn merge_openrpc_schemas(zebra: Value, zallet: Value) -> (z3: Result<Z3Schema, RouterError>)
    ensures
        z3 matches Ok(z3) && holds_merged(z3, json(zebra), json(zallet)),
{
    // Extract method arrays
    let mut zebra_methods = extract_methods_array(&zebra);
    let mut zallet_methods = extract_methods_array(&zallet);

    // Annotate each method with its origin
    annotate_methods_with_server(&mut zebra_methods, "zebra");
    annotate_methods_with_server(&mut zallet_methods, "zallet");

    // Merge schemas under components.schemas
    let mut combined_schemas = serde_json::Map::new();
    merge_components_schemas(&zebra, &mut combined_schemas);
    merge_components_schemas(&zallet, &mut combined_schemas);
    assert(members(combined_schemas) =~= component_schemas_of(json(zebra)).union_prefer_right(
        component_schemas_of(json(zallet)),
    ));

    let mut combined_methods = zebra_methods.clone();
    combined_methods.extend_from_slice(zallet_methods.as_slice());
    assert(documents(combined_methods@) =~= documents(zebra_methods@) + documents(
        zallet_methods@,
    ));

    // Build final merged schema
    let mut components = serde_json::Map::new();
    components.insert("schemas".to_string(), object_value(combined_schemas));
    let mut merged = serde_json::Map::new();
    merged.insert("openrpc".to_string(), value_at(&zebra, "openrpc").clone());
    merged.insert("info".to_string(), router_info_value());
    merged.insert("servers".to_string(), router_servers_value());
    merged.insert("methods".to_string(), array_value(combined_methods));
    merged.insert("components".to_string(), object_value(components));

    Ok(Z3Schema { zebra_methods, zallet_methods, merged: object_value(merged) })
}

} // verus!
