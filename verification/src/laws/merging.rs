//! What merging two schemas keeps, adds and leaves out, member by member.
use crate::json::{documents, json, Json};
use crate::laws::merged_schema_members;
use crate::package::{PKG_DESCRIPTION, PKG_NAME, PKG_VERSION};
use crate::schema::{
    all_annotated, annotated, component_schemas_of, holds_merged, merged_schema, methods_of,
    Z3Schema,
};
use serde_json::Value;
use vstd::prelude::*;

verus! {

/// A member that was set is found under its key and leaves the others as they were, and one that
/// was taken away is null, as is every member of what is no object.
pub proof fn members_are_found_by_key(
    members: Map<Seq<char>, Json>,
    key: Seq<char>,
    other: Seq<char>,
    value: Json,
)
    requires
        key != other,
    ensures
        Json::Object(members.insert(key, value)).at(key) == value,
        Json::Object(members.insert(key, value)).at(other) == Json::Object(members).at(other),
        Json::Object(members.remove(key)).at(key) is Null,
        !(value is Object) ==> value.at(key) is Null,
{
}

/// A sequence of values holds their documents, each in its place.
pub proof fn documents_stand_in_their_places(values: Seq<Value>, i: int)
    requires
        0 <= i < values.len(),
    ensures
        documents(values).len() == values.len(),
        documents(values)[i] == json(values[i]),
{
}

/// The methods of a schema are the whole array under `methods`, and none where there is no array.
pub proof fn methods_are_the_whole_array(schema: Json)
    ensures
        match schema.at("methods"@) {
            Json::Array(list) => methods_of(schema) == list,
            _ => methods_of(schema).len() == 0,
        },
{
}

/// The component schemas of a schema are all members of the object under `schemas` in its
/// `components`, and none where there is no object.
pub proof fn components_are_the_whole_object(schema: Json)
    ensures
        match schema.at("components"@).at("schemas"@) {
            Json::Object(members) => component_schemas_of(schema) == members,
            _ => component_schemas_of(schema).dom() == Set::<Seq<char>>::empty(),
        },
{
}

/// Annotating a method adds or replaces the one member `x-server`: every other member that the
/// method had stays, none is made up, and what is no object stays as it is.
pub proof fn annotated_method_keeps_the_rest(method: Json, server: Seq<char>)
    ensures
        match (method, annotated(method, server)) {
            (Json::Object(before), Json::Object(after)) => {
                &&& after.dom() == before.dom().insert("x-server"@)
                &&& after["x-server"@] == Json::Text(server)
                &&& forall|key: Seq<char>|
                    key != "x-server"@ && before.contains_key(key) ==> #[trigger] after[key]
                        == before[key]
            },
            (Json::Object(_), _) => false,
            (before, after) => after == before,
        },
{
    if let Json::Object(before) = method {
        let after = annotated(method, server).fields();
        assert(after.dom() =~= before.dom().insert("x-server"@));
    }
}

/// Annotating a list keeps every method in its place, with every member that it had but
/// `x-server`. A method that is an object names the server there, and what is no object stays as
/// it is.
pub proof fn annotated_list_keeps_its_methods(methods: Seq<Json>, server: Seq<char>, i: int)
    requires
        0 <= i < methods.len(),
    ensures
        all_annotated(methods, server).len() == methods.len(),
        forall|key: Seq<char>|
            key != "x-server"@ ==> #[trigger] all_annotated(methods, server)[i].at(key)
                == methods[i].at(key),
        match (methods[i], all_annotated(methods, server)[i]) {
            (Json::Object(before), Json::Object(after)) => {
                &&& after.dom() == before.dom().insert("x-server"@)
                &&& after["x-server"@] == Json::Text(server)
            },
            (Json::Object(_), _) => false,
            (before, after) => after == before,
        },
{
    annotated_method_keeps_the_rest(methods[i], server);
}

/// The methods of the merged schema are those of Zebra and behind them those of Zallet, all of
/// them and in their order. Each keeps every member that it had but `x-server`, under which an
/// object names the backend that it came from; what is no object stays as it is.
pub proof fn merged_methods_are_those_of_both(
    zebra: Json,
    zallet: Json,
    first: Seq<Json>,
    second: Seq<Json>,
)
    requires
        zebra.at("methods"@) == Json::Array(first) || (!(zebra.at("methods"@) is Array)
            && first.len() == 0),
        zallet.at("methods"@) == Json::Array(second) || (!(zallet.at("methods"@) is Array)
            && second.len() == 0),
    ensures
        match merged_schema(zebra, zallet).at("methods"@) {
            Json::Array(all) => {
                &&& all.len() == first.len() + second.len()
                &&& forall|i: int, key: Seq<char>|
                    0 <= i < all.len() && key != "x-server"@ ==> #[trigger] all[i].at(key) == (
                    first + second)[i].at(key)
                &&& forall|i: int|
                    0 <= i < all.len() && (first + second)[i] is Object ==> {
                        &&& (#[trigger] all[i]) is Object
                        &&& all[i]->Object_0.dom() == (first + second)[i]->Object_0.dom().insert(
                            "x-server"@,
                        )
                        &&& all[i].at("x-server"@) == if i < first.len() {
                            Json::Text("zebra"@)
                        } else {
                            Json::Text("zallet"@)
                        }
                    }
                &&& forall|i: int|
                    0 <= i < all.len() && !((first + second)[i] is Object) ==> #[trigger] all[i]
                        == (first + second)[i]
            },
            _ => false,
        },
{
    merged_schema_members(zebra, zallet);
    assert(methods_of(zebra) =~= first);
    assert(methods_of(zallet) =~= second);
    let all = methods_of(merged_schema(zebra, zallet));
    lemma_merged_methods_is_array(zebra, zallet);
    let both = first + second;
    assert forall|i: int| 0 <= i < all.len() implies (#[trigger] all[i]) == annotated(
        both[i],
        if i < first.len() {
            "zebra"@
        } else {
            "zallet"@
        },
    ) by {}
    assert forall|i: int| 0 <= i < all.len() && both[i] is Object implies {
        &&& (#[trigger] all[i]) is Object
        &&& all[i]->Object_0.dom() == both[i]->Object_0.dom().insert("x-server"@)
        &&& all[i].at("x-server"@) == if i < first.len() {
            Json::Text("zebra"@)
        } else {
            Json::Text("zallet"@)
        }
    } by {
        annotated_method_keeps_the_rest(
            both[i],
            if i < first.len() {
                "zebra"@
            } else {
                "zallet"@
            },
        );
    }
}

/// The methods, the servers and the component schemas of the merged schema stand in it as arrays
/// and objects.
proof fn lemma_merged_methods_is_array(zebra: Json, zallet: Json)
    ensures
        merged_schema(zebra, zallet).at("methods"@) == Json::Array(
            methods_of(merged_schema(zebra, zallet)),
        ),
        merged_schema(zebra, zallet).at("components"@) is Object,
        merged_schema(zebra, zallet).at("components"@).at("schemas"@) == Json::Object(
            component_schemas_of(merged_schema(zebra, zallet)),
        ),
        merged_schema(zebra, zallet).at("servers"@) is Array,
{
    reveal_strlit("openrpc");
    reveal_strlit("info");
    reveal_strlit("servers");
    reveal_strlit("methods");
    reveal_strlit("components");
    assert("info"@.len() == 4 && "components"@.len() == 10);
    assert("openrpc"@.len() == 7 && "openrpc"@[0] == 'o');
    assert("methods"@.len() == 7 && "methods"@[0] == 'm');
    assert("servers"@.len() == 7 && "servers"@[0] == 's');
}

/// The component schemas of the merged schema are those of both backends and no others. Where
/// both have one of a name, it is Zallet's.
pub proof fn merged_components_are_those_of_both(zebra: Json, zallet: Json, name: Seq<char>)
    ensures
        match (
            merged_schema(zebra, zallet).at("components"@).at("schemas"@),
            zebra.at("components"@).at("schemas"@),
            zallet.at("components"@).at("schemas"@),
        ) {
            (Json::Object(all), Json::Object(first), Json::Object(second)) => {
                &&& all.contains_key(name) <==> first.contains_key(name) || second.contains_key(
                    name,
                )
                &&& second.contains_key(name) ==> all[name] == second[name]
                &&& first.contains_key(name) && !second.contains_key(name) ==> all[name]
                    == first[name]
            },
            (Json::Object(all), Json::Object(first), _) => all == first,
            (Json::Object(all), _, Json::Object(second)) => all == second,
            (Json::Object(all), _, _) => all.dom() == Set::<Seq<char>>::empty(),
            _ => false,
        },
{
    merged_schema_members(zebra, zallet);
    lemma_merged_methods_is_array(zebra, zallet);
    let all = component_schemas_of(merged_schema(zebra, zallet));
    let first = component_schemas_of(zebra);
    let second = component_schemas_of(zallet);
    if !(zallet.at("components"@).at("schemas"@) is Object) {
        assert(all =~= first);
    }
    if !(zebra.at("components"@).at("schemas"@) is Object) {
        assert(all =~= second);
    }
}

/// Besides methods and components, the merged schema holds the version of OpenRPC that Zebra
/// names, the description of the router and the router as its one server, and nothing else.
pub proof fn merged_schema_describes_the_router(zebra: Json, zallet: Json)
    ensures
        match merged_schema(zebra, zallet) {
            Json::Object(all) => {
                &&& all.dom() == set![
                    "openrpc"@,
                    "info"@,
                    "servers"@,
                    "methods"@,
                    "components"@,
                ]
                &&& all["openrpc"@] == zebra.at("openrpc"@)
                &&& all["info"@] is Object
                &&& all["info"@]->Object_0.dom() == set!["title"@, "description"@, "version"@]
                &&& all["info"@].at("title"@) == Json::Text(PKG_NAME@)
                &&& all["info"@].at("description"@) == Json::Text(PKG_DESCRIPTION@)
                &&& all["info"@].at("version"@) == Json::Text(PKG_VERSION@)
                &&& all["servers"@] is Array
                &&& all["servers"@]->Array_0.len() == 1
                &&& all["servers"@]->Array_0[0] is Object
                &&& all["servers"@]->Array_0[0]->Object_0.dom() == set!["name"@, "url"@]
                &&& all["servers"@]->Array_0[0].at("name"@) == Json::Text("router"@)
                &&& all["servers"@]->Array_0[0].at("url"@) == Json::Text("http://localhost:8080/"@)
                &&& all["components"@] is Object
                &&& all["components"@]->Object_0.dom() == set!["schemas"@]
            },
            _ => false,
        },
{
    reveal_strlit("openrpc");
    reveal_strlit("info");
    reveal_strlit("servers");
    reveal_strlit("methods");
    reveal_strlit("components");
    assert("info"@.len() == 4 && "components"@.len() == 10);
    assert("openrpc"@.len() == 7 && "openrpc"@[0] == 'o');
    assert("methods"@.len() == 7 && "methods"@[0] == 'm');
    assert("servers"@.len() == 7 && "servers"@[0] == 's');
    reveal_strlit("title");
    reveal_strlit("description");
    reveal_strlit("version");
    assert("title"@.len() == 5 && "description"@.len() == 11 && "version"@.len() == 7);
    reveal_strlit("name");
    reveal_strlit("url");
    assert("name"@.len() == 4 && "url"@.len() == 3);
    let all = merged_schema(zebra, zallet)->Object_0;
    assert(all.dom() =~= set!["openrpc"@, "info"@, "servers"@, "methods"@, "components"@]);
    assert(all["info"@]->Object_0.dom() =~= set!["title"@, "description"@, "version"@]);
    assert(all["servers"@]->Array_0[0]->Object_0.dom() =~= set!["name"@, "url"@]);
    assert(all["components"@]->Object_0.dom() =~= set!["schemas"@]);
}

/// What the router keeps of a merge: the merged schema, and the two parts of its list of methods,
/// by which it routes.
pub proof fn merging_keeps_the_parts_of_the_list(z3: Z3Schema, zebra: Json, zallet: Json)
    requires
        holds_merged(z3, zebra, zallet),
    ensures
        json(z3.merged) == merged_schema(zebra, zallet),
        match json(z3.merged).at("methods"@) {
            Json::Array(all) => {
                &&& all.len() == z3.zebra_methods@.len() + z3.zallet_methods@.len()
                &&& forall|i: int|
                    0 <= i < z3.zebra_methods@.len() ==> json(#[trigger] z3.zebra_methods@[i])
                        == all[i]
                &&& forall|i: int|
                    0 <= i < z3.zallet_methods@.len() ==> json(#[trigger] z3.zallet_methods@[i])
                        == all[z3.zebra_methods@.len() + i]
            },
            _ => false,
        },
        match zebra.at("methods"@) {
            Json::Array(first) => z3.zebra_methods@.len() == first.len(),
            _ => z3.zebra_methods@.len() == 0,
        },
        match zallet.at("methods"@) {
            Json::Array(second) => z3.zallet_methods@.len() == second.len(),
            _ => z3.zallet_methods@.len() == 0,
        },
{
    merged_schema_members(zebra, zallet);
    lemma_merged_methods_is_array(zebra, zallet);
    let first = documents(z3.zebra_methods@);
    let second = documents(z3.zallet_methods@);
    assert(first.len() == z3.zebra_methods@.len());
    assert(second.len() == z3.zallet_methods@.len());
    assert forall|i: int| 0 <= i < z3.zebra_methods@.len() implies json(
        #[trigger] z3.zebra_methods@[i],
    ) == (first + second)[i] by {
        assert(first[i] == json(z3.zebra_methods@[i]));
    }
    assert forall|i: int| 0 <= i < z3.zallet_methods@.len() implies json(
        #[trigger] z3.zallet_methods@[i],
    ) == (first + second)[z3.zebra_methods@.len() + i] by {
        assert(second[i] == json(z3.zallet_methods@[i]));
    }
}

} // verus!
