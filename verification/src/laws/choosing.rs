//! Where a request goes, by the method that it names.
use crate::config::Config;
use crate::forward::RequestHead;
use crate::handler::{follows_body, follows_forwarding, Action, Phase};
use crate::json::{documents, json, Json};
use crate::laws::annotating_keeps_method_names;
use crate::routing::{lists_method, method_of, route_of, Route, RpcRequest};
use crate::schema::{holds_merged, methods_of, Z3Schema};
use serde_json::Value;
use vstd::prelude::*;

verus! {

/// A list of methods has one of the given name where the `name` of one of its entries is exactly
/// that text, and only there.
pub proof fn methods_are_found_by_their_whole_name(methods: Seq<Value>, name: Seq<char>)
    ensures
        lists_method(documents(methods), name) <==> exists|i: int|
            0 <= i < methods.len() && json(#[trigger] methods[i]).at("name"@) == Json::Text(name),
{
    let docs = documents(methods);
    if lists_method(docs, name) {
        let i = choose|i: int|
            0 <= i < docs.len() && (#[trigger] docs[i]).at("name"@) == Json::Text(name);
        assert(json(methods[i]).at("name"@) == Json::Text(name));
    }
    if exists|i: int|
        0 <= i < methods.len() && json(#[trigger] methods[i]).at("name"@) == Json::Text(name) {
        let i = choose|i: int|
            0 <= i < methods.len() && json(#[trigger] methods[i]).at("name"@) == Json::Text(name);
        assert(docs[i].at("name"@) == Json::Text(name));
    }
}

/// A request whose method is the name of one of Zebra's methods goes to Zebra, unless the router
/// answers it itself.
pub proof fn request_for_zebra_goes_to_zebra(request: RpcRequest, z3: Z3Schema, i: int)
    requires
        0 <= i < z3.zebra_methods@.len(),
        json(z3.zebra_methods@[i]).at("name"@) == Json::Text(request.method@),
        request.method@ != "rpc.discover"@,
    ensures
        route_of(
            method_of(Some(request)),
            documents(z3.zebra_methods@),
            documents(z3.zallet_methods@),
        ) == Route::Zebra,
{
    methods_are_found_by_their_whole_name(z3.zebra_methods@, request.method@);
}

/// A request whose method is the name of one of Zallet's methods and of none of Zebra's goes to
/// Zallet, unless the router answers it itself.
pub proof fn request_for_zallet_goes_to_zallet(request: RpcRequest, z3: Z3Schema, i: int)
    requires
        0 <= i < z3.zallet_methods@.len(),
        json(z3.zallet_methods@[i]).at("name"@) == Json::Text(request.method@),
        forall|j: int|
            0 <= j < z3.zebra_methods@.len() ==> json(#[trigger] z3.zebra_methods@[j]).at("name"@)
                != Json::Text(request.method@),
        request.method@ != "rpc.discover"@,
    ensures
        route_of(
            method_of(Some(request)),
            documents(z3.zebra_methods@),
            documents(z3.zallet_methods@),
        ) == Route::Zallet,
{
    methods_are_found_by_their_whole_name(z3.zebra_methods@, request.method@);
    methods_are_found_by_their_whole_name(z3.zallet_methods@, request.method@);
}

/// A request for a method that Zallet does not list goes to Zebra, whether Zebra lists it or not,
/// unless the router answers it itself.
pub proof fn other_requests_go_to_zebra(request: RpcRequest, z3: Z3Schema)
    requires
        forall|j: int|
            0 <= j < z3.zallet_methods@.len() ==> json(#[trigger] z3.zallet_methods@[j]).at(
                "name"@,
            ) != Json::Text(request.method@),
        request.method@ != "rpc.discover"@,
    ensures
        route_of(
            method_of(Some(request)),
            documents(z3.zebra_methods@),
            documents(z3.zallet_methods@),
        ) == Route::Zebra,
{
    methods_are_found_by_their_whole_name(z3.zallet_methods@, request.method@);
}

/// The router answers a request itself where its method is `rpc.discover` and nowhere else,
/// whatever the backends list. A body that is no request goes to Zebra.
pub proof fn only_discover_is_answered_by_the_router(request: Option<RpcRequest>, z3: Z3Schema)
    ensures
        ({
            let to = route_of(
                method_of(request),
                documents(z3.zebra_methods@),
                documents(z3.zallet_methods@),
            );
            &&& to == Route::Discover <==> (request matches Some(request) && request.method@
                == "rpc.discover"@)
            &&& request is None ==> to == Route::Zebra
        }),
{
}

/// Two requests with the same method go to the same place.
pub proof fn route_depends_on_the_method_alone(
    one: RpcRequest,
    other: RpcRequest,
    zebra_methods: Seq<Json>,
    zallet_methods: Seq<Json>,
)
    requires
        one.method@ == other.method@,
    ensures
        route_of(method_of(Some(one)), zebra_methods, zallet_methods) == route_of(
            method_of(Some(other)),
            zebra_methods,
            zallet_methods,
        ),
{
}

/// Once the schemas of the backends are merged, a request is passed on to Zallet's URL where the
/// schema of Zallet lists its method and that of Zebra does not, and to Zebra's URL in every
/// other case but for `rpc.discover`.
pub proof fn request_is_passed_on_by_the_schemas(
    step: (Phase, Action),
    head: RequestHead,
    body: Seq<u8>,
    request: RpcRequest,
    config: Config,
    z3: Z3Schema,
    zebra: Json,
    zallet: Json,
    first: Seq<Json>,
    second: Seq<Json>,
)
    requires
        holds_merged(z3, zebra, zallet),
        follows_body(step, head, body, method_of(Some(request)), config, z3),
        request.method@ != "rpc.discover"@,
        zebra.at("methods"@) == Json::Array(first) || (!(zebra.at("methods"@) is Array)
            && first.len() == 0),
        zallet.at("methods"@) == Json::Array(second) || (!(zallet.at("methods"@) is Array)
            && second.len() == 0),
    ensures
        (exists|i: int|
            0 <= i < second.len() && (#[trigger] second[i]).at("name"@) == Json::Text(
                request.method@,
            )) && (forall|i: int|
            0 <= i < first.len() ==> (#[trigger] first[i]).at("name"@) != Json::Text(
                request.method@,
            )) ==> follows_forwarding(step, head, body, config.zallet_url@, config),
        (exists|i: int|
            0 <= i < first.len() && (#[trigger] first[i]).at("name"@) == Json::Text(
                request.method@,
            )) ==> follows_forwarding(step, head, body, config.zebra_url@, config),
        (forall|i: int|
            0 <= i < second.len() ==> (#[trigger] second[i]).at("name"@) != Json::Text(
                request.method@,
            )) ==> follows_forwarding(step, head, body, config.zebra_url@, config),
{
    let name = request.method@;
    assert(methods_of(zebra) =~= first);
    assert(methods_of(zallet) =~= second);
    annotating_keeps_method_names(first, "zebra"@, name);
    annotating_keeps_method_names(second, "zallet"@, name);
}

/// A body that is no request is passed on to Zebra's URL.
pub proof fn unreadable_body_is_passed_on_to_zebra(
    step: (Phase, Action),
    head: RequestHead,
    body: Seq<u8>,
    config: Config,
    z3: Z3Schema,
)
    requires
        follows_body(step, head, body, method_of(None), config, z3),
    ensures
        follows_forwarding(step, head, body, config.zebra_url@, config),
{
}

} // verus!
