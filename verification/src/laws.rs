//! What holds of the router as a whole, and in the modules below what each part of it gives for
//! what it gets.
use crate::config::{setting, Config};
use crate::defaults::CORS_ORIGIN;
use crate::forward::{basic_auth, forwarded_headers, RequestHead};
use crate::handler::{
    follows_body, follows_forwarding, immediate_response, reply_response, responds, Action, Phase,
};
use crate::headers::is_header_value;
use crate::json::{documents, max_depth, parsed, printed, reads_back, Json};
use crate::response::{
    allowed_origin, discover_response, health_response, preflight_response, with_cors,
    with_cors_headers, Response, ResponseView,
};
use crate::routing::{lists_method, route_of, Route};
use crate::schema::{
    all_annotated, annotated, component_schemas_of, holds_merged, merged_schema, methods_of,
    router_info, router_servers, Z3Schema,
};
use vstd::prelude::*;
use vstd::utf8::{
    char_is_scalar, decode_utf8, encode_scalar, encode_utf8, encode_utf8_decode_utf8,
    has_width_1_encoding, last_continuation_byte, leading_byte_width_1, leading_byte_width_2,
    leading_byte_width_3, leading_byte_width_4, second_last_continuation_byte,
    third_last_continuation_byte,
};

pub mod answering;
pub mod choosing;
pub mod forwarding;
pub mod merging;
pub mod settings;

verus! {

/// Annotating a method changes no member but `x-server`.
pub proof fn annotating_keeps_other_members(method: Json, server: Seq<char>, key: Seq<char>)
    requires
        key != "x-server"@,
    ensures
        annotated(method, server).at(key) == method.at(key),
{
}

/// A method that is an object names its server once annotated.
pub proof fn annotated_method_names_its_server(method: Json, server: Seq<char>)
    requires
        method is Object,
    ensures
        annotated(method, server).at("x-server"@) == Json::Text(server),
{
}

/// A method annotated twice names the later server alone.
pub proof fn annotating_again_replaces_the_server(
    method: Json,
    first: Seq<char>,
    second: Seq<char>,
)
    ensures
        annotated(annotated(method, first), second) == annotated(method, second),
{
    if let Json::Object(fields) = method {
        assert(fields.insert("x-server"@, Json::Text(first)).insert(
            "x-server"@,
            Json::Text(second),
        ) =~= fields.insert("x-server"@, Json::Text(second)));
    }
}

/// Annotating a list of methods changes none of their names.
pub proof fn annotating_keeps_method_names(methods: Seq<Json>, server: Seq<char>, name: Seq<char>)
    ensures
        lists_method(all_annotated(methods, server), name) == lists_method(methods, name),
{
    reveal_strlit("x-server");
    reveal_strlit("name");
    assert("x-server"@.len() == 8 && "name"@.len() == 4);
    let after = all_annotated(methods, server);
    assert forall|i: int| 0 <= i < methods.len() implies (#[trigger] after[i]).at("name"@)
        == methods[i].at("name"@) by {
        annotating_keeps_other_members(methods[i], server, "name"@);
    }
    if lists_method(methods, name) {
        let i = choose|i: int|
            0 <= i < methods.len() && (#[trigger] methods[i]).at("name"@) == Json::Text(name);
        assert(after[i].at("name"@) == Json::Text(name));
    }
    if lists_method(after, name) {
        let i = choose|i: int|
            0 <= i < after.len() && (#[trigger] after[i]).at("name"@) == Json::Text(name);
        assert(methods[i].at("name"@) == Json::Text(name));
    }
}

/// The members of the merged schema.
pub proof fn merged_schema_members(zebra: Json, zallet: Json)
    ensures
        merged_schema(zebra, zallet).at("openrpc"@) == zebra.at("openrpc"@),
        merged_schema(zebra, zallet).at("info"@) == router_info(),
        methods_of(merged_schema(zebra, zallet)) == all_annotated(methods_of(zebra), "zebra"@)
            + all_annotated(methods_of(zallet), "zallet"@),
        component_schemas_of(merged_schema(zebra, zallet)) == component_schemas_of(
            zebra,
        ).union_prefer_right(component_schemas_of(zallet)),
{
    reveal_strlit("openrpc");
    reveal_strlit("info");
    reveal_strlit("servers");
    reveal_strlit("methods");
    reveal_strlit("components");
    reveal_strlit("schemas");
    assert("info"@.len() == 4 && "components"@.len() == 10);
    assert("openrpc"@.len() == 7 && "openrpc"@[0] == 'o');
    assert("methods"@.len() == 7 && "methods"@[0] == 'm');
    assert("servers"@.len() == 7 && "servers"@[0] == 's');
}

/// The merged schema lists as many methods as the two schemas together.
pub proof fn merged_schema_counts_all_methods(zebra: Json, zallet: Json)
    ensures
        methods_of(merged_schema(zebra, zallet)).len() == methods_of(zebra).len() + methods_of(
            zallet,
        ).len(),
{
    merged_schema_members(zebra, zallet);
}

/// The merged schema lists the methods that one of the backends lists, and no others.
pub proof fn merged_schema_lists_both(zebra: Json, zallet: Json, name: Seq<char>)
    ensures
        lists_method(methods_of(merged_schema(zebra, zallet)), name) <==> lists_method(
            methods_of(zebra),
            name,
        ) || lists_method(methods_of(zallet), name),
{
    merged_schema_members(zebra, zallet);
    annotating_keeps_method_names(methods_of(zebra), "zebra"@, name);
    annotating_keeps_method_names(methods_of(zallet), "zallet"@, name);
    let first = all_annotated(methods_of(zebra), "zebra"@);
    let second = all_annotated(methods_of(zallet), "zallet"@);
    let all = first + second;
    if lists_method(first, name) {
        let i = choose|i: int|
            0 <= i < first.len() && (#[trigger] first[i]).at("name"@) == Json::Text(name);
        assert(all[i].at("name"@) == Json::Text(name));
    }
    if lists_method(second, name) {
        let i = choose|i: int|
            0 <= i < second.len() && (#[trigger] second[i]).at("name"@) == Json::Text(name);
        assert(all[first.len() + i].at("name"@) == Json::Text(name));
    }
    if lists_method(all, name) {
        let i = choose|i: int|
            0 <= i < all.len() && (#[trigger] all[i]).at("name"@) == Json::Text(name);
        if i < first.len() {
            assert(first[i].at("name"@) == Json::Text(name));
        } else {
            assert(second[i - first.len()].at("name"@) == Json::Text(name));
        }
    }
}

/// A component schema of the merged schema is Zallet's where Zallet has one of that name, and
/// else Zebra's.
pub proof fn merged_schema_prefers_zallet_components(zebra: Json, zallet: Json, name: Seq<char>)
    ensures
        ({
            let merged = component_schemas_of(merged_schema(zebra, zallet));
            let from_zebra = component_schemas_of(zebra);
            let from_zallet = component_schemas_of(zallet);
            &&& merged.contains_key(name) <==> from_zebra.contains_key(name)
                || from_zallet.contains_key(name)
            &&& from_zallet.contains_key(name) ==> merged[name] == from_zallet[name]
            &&& from_zebra.contains_key(name) && !from_zallet.contains_key(name) ==> merged[name]
                == from_zebra[name]
        }),
{
    merged_schema_members(zebra, zallet);
}

/// A schema without component schemas adds none.
pub proof fn schema_without_components_adds_nothing(schema: Json, combined: Map<Seq<char>, Json>)
    requires
        !(schema.at("components"@).at("schemas"@) is Object),
    ensures
        combined.union_prefer_right(component_schemas_of(schema)) == combined,
{
    assert(combined.union_prefer_right(component_schemas_of(schema)) =~= combined);
}

/// Adding the component schemas of one schema again changes nothing.
pub proof fn components_are_added_once(schema: Json, combined: Map<Seq<char>, Json>)
    ensures
        ({
            let once = combined.union_prefer_right(component_schemas_of(schema));
            once.union_prefer_right(component_schemas_of(schema)) == once
        }),
{
    let once = combined.union_prefer_right(component_schemas_of(schema));
    assert(once.union_prefer_right(component_schemas_of(schema)) =~= once);
}

/// Once the schemas are merged, a method that Zebra lists goes to Zebra. The one exception is
/// `rpc.discover`, which the router answers itself.
pub proof fn zebra_methods_go_to_zebra(z3: Z3Schema, zebra: Json, zallet: Json, name: Seq<char>)
    requires
        holds_merged(z3, zebra, zallet),
        lists_method(methods_of(zebra), name),
        name != "rpc.discover"@,
    ensures
        route_of(Some(name), documents(z3.zebra_methods@), documents(z3.zallet_methods@))
            == Route::Zebra,
{
    annotating_keeps_method_names(methods_of(zebra), "zebra"@, name);
}

/// Once the schemas are merged, a method that Zallet lists goes to Zallet. The exceptions are a
/// method that Zebra lists too, and `rpc.discover`.
pub proof fn zallet_methods_go_to_zallet(z3: Z3Schema, zebra: Json, zallet: Json, name: Seq<char>)
    requires
        holds_merged(z3, zebra, zallet),
        lists_method(methods_of(zallet), name),
        !lists_method(methods_of(zebra), name),
        name != "rpc.discover"@,
    ensures
        route_of(Some(name), documents(z3.zebra_methods@), documents(z3.zallet_methods@))
            == Route::Zallet,
{
    annotating_keeps_method_names(methods_of(zebra), "zebra"@, name);
    annotating_keeps_method_names(methods_of(zallet), "zallet"@, name);
}

/// Once the schemas are merged, a method that neither backend lists goes to Zebra. The one
/// exception is `rpc.discover`.
pub proof fn unknown_methods_go_to_zebra(z3: Z3Schema, zebra: Json, zallet: Json, name: Seq<char>)
    requires
        holds_merged(z3, zebra, zallet),
        !lists_method(methods_of(merged_schema(zebra, zallet)), name),
        name != "rpc.discover"@,
    ensures
        route_of(Some(name), documents(z3.zebra_methods@), documents(z3.zallet_methods@))
            == Route::Zebra,
{
    merged_schema_lists_both(zebra, zallet, name);
    annotating_keeps_method_names(methods_of(zallet), "zallet"@, name);
}

/// A body that is no JSON-RPC request goes to Zebra.
pub proof fn unreadable_requests_go_to_zebra(zebra_methods: Seq<Json>, zallet_methods: Seq<Json>)
    ensures
        route_of(None, zebra_methods, zallet_methods) == Route::Zebra,
{
}

/// An entry of the merged schema names the server that requests for its method go to. The
/// exceptions are an entry of Zallet for a method that Zebra lists too, and `rpc.discover`.
pub proof fn merged_entry_names_the_route(
    z3: Z3Schema,
    zebra: Json,
    zallet: Json,
    i: int,
    name: Seq<char>,
)
    requires
        holds_merged(z3, zebra, zallet),
        0 <= i < methods_of(merged_schema(zebra, zallet)).len(),
        methods_of(merged_schema(zebra, zallet))[i].at("name"@) == Json::Text(name),
        i < methods_of(zebra).len() || !lists_method(methods_of(zebra), name),
        name != "rpc.discover"@,
    ensures
        methods_of(merged_schema(zebra, zallet))[i].at("x-server"@) == Json::Text(
            match route_of(Some(name), documents(z3.zebra_methods@), documents(z3.zallet_methods@)) {
                Route::Zallet => "zallet"@,
                _ => "zebra"@,
            },
        ),
{
    merged_schema_members(zebra, zallet);
    reveal_strlit("x-server");
    reveal_strlit("name");
    assert("x-server"@.len() == 8 && "name"@.len() == 4);
    let first = methods_of(zebra);
    let second = methods_of(zallet);
    if i < first.len() {
        annotating_keeps_other_members(first[i], "zebra"@, "name"@);
        assert(lists_method(first, name));
        zebra_methods_go_to_zebra(z3, zebra, zallet, name);
        annotated_method_names_its_server(first[i], "zebra"@);
    } else {
        let j = i - first.len();
        annotating_keeps_other_members(second[j], "zallet"@, "name"@);
        assert(lists_method(second, name));
        zallet_methods_go_to_zallet(z3, zebra, zallet, name);
        annotated_method_names_its_server(second[j], "zallet"@);
    }
}

/// The server that the merged schema names for a method, in the first of its entries, is the one
/// that requests for the method go to. The one exception is `rpc.discover`.
pub proof fn merged_schema_names_the_route(
    z3: Z3Schema,
    zebra: Json,
    zallet: Json,
    i: int,
    name: Seq<char>,
)
    requires
        holds_merged(z3, zebra, zallet),
        0 <= i < methods_of(merged_schema(zebra, zallet)).len(),
        methods_of(merged_schema(zebra, zallet))[i].at("name"@) == Json::Text(name),
        forall|j: int|
            0 <= j < i ==> (#[trigger] methods_of(merged_schema(zebra, zallet))[j]).at("name"@)
                != Json::Text(name),
        name != "rpc.discover"@,
    ensures
        methods_of(merged_schema(zebra, zallet))[i].at("x-server"@) == Json::Text(
            match route_of(Some(name), documents(z3.zebra_methods@), documents(z3.zallet_methods@)) {
                Route::Zallet => "zallet"@,
                _ => "zebra"@,
            },
        ),
{
    merged_schema_members(zebra, zallet);
    annotating_keeps_method_names(methods_of(zebra), "zebra"@, name);
    let first = all_annotated(methods_of(zebra), "zebra"@);
    if i >= first.len() && lists_method(first, name) {
        let j = choose|j: int|
            0 <= j < first.len() && (#[trigger] first[j]).at("name"@) == Json::Text(name);
        assert(methods_of(merged_schema(zebra, zallet))[j] == first[j]);
    }
    merged_entry_names_the_route(z3, zebra, zallet, i, name);
}

/// Merging loses nothing that could be read: where the schemas of both backends can be written
/// and read again, so can the merged one.
pub proof fn merged_schema_reads_back(zebra: Json, zallet: Json)
    requires
        reads_back(zebra, max_depth()),
        reads_back(zallet, max_depth()),
    ensures
        reads_back(merged_schema(zebra, zallet), max_depth()),
{
    reveal_with_fuel(reads_back, 4);
    let methods = all_annotated(methods_of(zebra), "zebra"@) + all_annotated(
        methods_of(zallet),
        "zallet"@,
    );
    lemma_member_reads_back(zebra, "openrpc"@, 127);
    lemma_member_reads_back(zebra, "methods"@, 127);
    lemma_member_reads_back(zallet, "methods"@, 127);
    assert forall|i: int| 0 <= i < methods.len() implies reads_back(#[trigger] methods[i], 125) by {
        if i < methods_of(zebra).len() {
            lemma_annotated_reads_back(methods_of(zebra)[i], "zebra"@, 125);
        } else {
            lemma_annotated_reads_back(
                methods_of(zallet)[i - methods_of(zebra).len()],
                "zallet"@,
                125,
            );
        }
    }
    assert(reads_back(Json::Array(methods), 126));
    lemma_member_reads_back(zebra, "components"@, 127);
    lemma_member_reads_back(zebra.at("components"@), "schemas"@, 126);
    lemma_member_reads_back(zallet, "components"@, 127);
    lemma_member_reads_back(zallet.at("components"@), "schemas"@, 126);
    let components = component_schemas_of(zebra).union_prefer_right(component_schemas_of(zallet));
    assert(reads_back(Json::Object(components), 125));
    assert(reads_back(Json::Object(map!["schemas"@ => Json::Object(components)]), 126));
    assert(reads_back(router_info(), 126));
    assert(reads_back(router_servers(), 126));
}

/// A member of a document stands one level below it.
proof fn lemma_member_reads_back(document: Json, key: Seq<char>, depth: nat)
    requires
        depth > 0,
        reads_back(document, depth),
    ensures
        reads_back(document.at(key), (depth - 1) as nat),
{
}

/// An annotation is a text, so it adds no level.
proof fn lemma_annotated_reads_back(method: Json, server: Seq<char>, depth: nat)
    requires
        depth > 0,
        reads_back(method, depth),
    ensures
        reads_back(annotated(method, server), depth),
{
    reveal_with_fuel(reads_back, 2);
}

/// `rpc.discover` is answered with the text of the merged schema, whatever the backends list,
/// and is not passed on.
pub proof fn discover_is_answered_with_the_merged_schema(
    step: (Phase, Action),
    head: RequestHead,
    body: Seq<u8>,
    config: Config,
    z3: Z3Schema,
    zebra: Json,
    zallet: Json,
)
    requires
        holds_merged(z3, zebra, zallet),
        follows_body(step, head, body, Some("rpc.discover"@), config, z3),
    ensures
        responds(
            step,
            discover_response(printed(merged_schema(zebra, zallet)), config.cors_origin@),
        ),
{
}

/// A client that reads the body of the answer to `rpc.discover` gets the merged schema. The
/// exceptions are schemas with doubles or with more levels than can be read.
pub proof fn discover_answer_reads_as_the_merged_schema(
    step: (Phase, Action),
    head: RequestHead,
    body: Seq<u8>,
    config: Config,
    z3: Z3Schema,
    zebra: Json,
    zallet: Json,
)
    requires
        holds_merged(z3, zebra, zallet),
        follows_body(step, head, body, Some("rpc.discover"@), config, z3),
        reads_back(zebra, max_depth()),
        reads_back(zallet, max_depth()),
    ensures
        step.1 matches Action::Respond(response) && parsed(decode_utf8(response.body@)) == Some(
            merged_schema(zebra, zallet),
        ),
{
    merged_schema_reads_back(zebra, zallet);
    encode_utf8_decode_utf8(printed(merged_schema(zebra, zallet)));
}

/// A request for a method that Zallet alone lists is passed on to Zallet's URL, and one for any
/// other method to Zebra's, but for `rpc.discover`.
pub proof fn requests_reach_their_backend(
    step: (Phase, Action),
    head: RequestHead,
    body: Seq<u8>,
    config: Config,
    z3: Z3Schema,
    zebra: Json,
    zallet: Json,
    name: Seq<char>,
)
    requires
        holds_merged(z3, zebra, zallet),
        follows_body(step, head, body, Some(name), config, z3),
        name != "rpc.discover"@,
    ensures
        follows_forwarding(
            step,
            head,
            body,
            if lists_method(methods_of(zallet), name) && !lists_method(methods_of(zebra), name) {
                config.zallet_url@
            } else {
                config.zebra_url@
            },
            config,
        ),
{
    annotating_keeps_method_names(methods_of(zebra), "zebra"@, name);
    annotating_keeps_method_names(methods_of(zallet), "zallet"@, name);
}

/// `name` is one of the four CORS headers.
pub open spec fn is_cors_header(name: Seq<char>) -> bool {
    ||| name == "access-control-allow-origin"@
    ||| name == "access-control-allow-methods"@
    ||| name == "access-control-allow-headers"@
    ||| name == "access-control-max-age"@
}

/// The CORS headers of a response, each with one value.
pub open spec fn has_cors_headers(response: ResponseView, cors_origin: Seq<char>) -> bool {
    let headers = response.headers;
    &&& headers.contains_pair("access-control-allow-origin"@, seq![allowed_origin(cors_origin)])
    &&& headers.contains_pair("access-control-allow-methods"@, seq![encode_utf8("POST, OPTIONS"@)])
    &&& headers.contains_pair("access-control-allow-headers"@, seq![encode_utf8("Content-Type"@)])
    &&& headers.contains_pair("access-control-max-age"@, seq![encode_utf8("86400"@)])
}

/// Adding the CORS headers sets the four of them, and leaves the status, the body and every
/// other header as they were.
pub proof fn cors_headers_are_set(response: ResponseView, cors_origin: Seq<char>)
    ensures
        has_cors_headers(with_cors(response, cors_origin), cors_origin),
        with_cors(response, cors_origin).status == response.status,
        with_cors(response, cors_origin).version == response.version,
        with_cors(response, cors_origin).body == response.body,
        forall|name: Seq<char>|
            #![trigger with_cors(response, cors_origin).headers.contains_key(name)]
            !is_cors_header(name) ==> {
                let headers = with_cors(response, cors_origin).headers;
                &&& headers.contains_key(name) <==> response.headers.contains_key(name)
                &&& headers[name] == response.headers[name]
            },
{
    lemma_cors_names_differ();
}

pub(crate) proof fn lemma_cors_names_differ()
    ensures
        "access-control-allow-origin"@ != "access-control-allow-methods"@,
        "access-control-allow-origin"@ != "access-control-allow-headers"@,
        "access-control-allow-origin"@ != "access-control-max-age"@,
        "access-control-allow-methods"@ != "access-control-allow-headers"@,
        "access-control-allow-methods"@ != "access-control-max-age"@,
        "access-control-allow-headers"@ != "access-control-max-age"@,
{
    reveal_strlit("access-control-allow-origin");
    reveal_strlit("access-control-allow-methods");
    reveal_strlit("access-control-allow-headers");
    reveal_strlit("access-control-max-age");
    assert("access-control-allow-origin"@.len() == 27);
    assert("access-control-allow-methods"@.len() == 28);
    assert("access-control-allow-headers"@.len() == 28);
    assert("access-control-max-age"@.len() == 22);
    assert("access-control-allow-methods"@[21] == 'm');
    assert("access-control-allow-headers"@[21] == 'h');
}

/// Adding the CORS headers a second time changes nothing, and a later origin takes the place of
/// an earlier one.
pub proof fn cors_headers_are_set_once(
    response: ResponseView,
    first: Seq<char>,
    second: Seq<char>,
)
    ensures
        with_cors(with_cors(response, first), second) == with_cors(response, second),
{
    lemma_cors_names_differ();
    assert(with_cors_headers(with_cors_headers(response.headers, first), second)
        =~= with_cors_headers(response.headers, second));
}

/// A browser may read the answer to a preflight request, the merged schema and the reply of a
/// backend: each carries the CORS headers.
pub proof fn answers_carry_cors_headers(
    cors_origin: Seq<char>,
    schema: Seq<char>,
    reply: Response,
)
    ensures
        has_cors_headers(preflight_response(cors_origin), cors_origin),
        has_cors_headers(discover_response(schema, cors_origin), cors_origin),
        has_cors_headers(
            reply_response(Ok::<Response, String>(reply), cors_origin),
            cors_origin,
        ),
{
    lemma_cors_names_differ();
}

/// `c` is a tab or no control character.
pub open spec fn is_header_char(c: char) -> bool {
    c == '\t' || (' ' <= c && c != '\u{7f}')
}

/// `text` holds no control characters but tabs.
pub open spec fn has_header_chars(text: Seq<char>) -> bool {
    forall|i: int| 0 <= i < text.len() ==> is_header_char(#[trigger] text[i])
}

/// Two values behind one another are a value of a header where each of them is.
proof fn lemma_header_parts(left: Seq<u8>, right: Seq<u8>)
    ensures
        is_header_value(left + right) <==> is_header_value(left) && is_header_value(right),
{
    let all = left + right;
    assert forall|i: int| 0 <= i < left.len() implies #[trigger] left[i] == all[i] by {}
    assert forall|i: int| 0 <= i < right.len() implies #[trigger] right[i] == all[left.len()
        + i] by {}
}

/// A character can stand in the value of a header where it is no control character but a tab.
proof fn lemma_header_char(c: char)
    ensures
        is_header_value(encode_scalar(c as u32)) <==> is_header_char(c),
{
    let v = c as u32;
    let bytes = encode_scalar(v);
    char_is_scalar(c);
    if has_width_1_encoding(v) {
        assert(leading_byte_width_1(v) == v) by (bit_vector)
            requires
                has_width_1_encoding(v),
        ;
        assert(bytes[0] == v);
    } else {
        assert(leading_byte_width_2(v) >= 128) by (bit_vector);
        assert(leading_byte_width_3(v) >= 128) by (bit_vector);
        assert(leading_byte_width_4(v) >= 128) by (bit_vector);
        assert(third_last_continuation_byte(v) >= 128) by (bit_vector);
        assert(second_last_continuation_byte(v) >= 128) by (bit_vector);
        assert(last_continuation_byte(v) >= 128) by (bit_vector);
    }
}

/// A text can be the value of a header where it holds no control characters but tabs.
proof fn lemma_header_chars(text: Seq<char>)
    ensures
        is_header_value(encode_utf8(text)) <==> has_header_chars(text),
    decreases text.len(),
{
    if text.len() > 0 {
        let rest = text.drop_first();
        lemma_header_char(text[0]);
        lemma_header_chars(rest);
        lemma_header_parts(encode_scalar(text[0] as u32), encode_utf8(rest));
        assert forall|i: int| 0 < i < text.len() implies #[trigger] text[i] == rest[i - 1] by {}
        assert forall|i: int| 0 <= i < rest.len() implies #[trigger] rest[i] == text[i + 1] by {}
    }
}

/// The configured origin is the one that is allowed. An origin that cannot be the value of a
/// header, because it holds a control character such as a line break, allows any.
pub proof fn configured_origin_is_allowed(cors_origin: Seq<char>)
    ensures
        allowed_origin(cors_origin) == if has_header_chars(cors_origin) {
            encode_utf8(cors_origin)
        } else {
            encode_utf8("*"@)
        },
{
    lemma_header_chars(cors_origin);
}

/// Where no origin is configured, the playground is the one that is allowed.
pub proof fn playground_is_allowed_by_default()
    ensures
        allowed_origin(setting(None, CORS_ORIGIN@)) == encode_utf8(
            "https://playground.open-rpc.org"@,
        ),
{
    reveal_strlit("https://playground.open-rpc.org");
    configured_origin_is_allowed(CORS_ORIGIN@);
}

/// A health check is answered whatever its method is.
pub proof fn health_check_takes_any_method(method: Seq<char>, cors_origin: Seq<char>)
    ensures
        immediate_response(method, "/health"@, cors_origin) == Some(health_response()),
{
}

/// Only a POST is read further, and only where it is no health check.
pub proof fn only_posts_are_read(method: Seq<char>, path: Seq<char>, cors_origin: Seq<char>)
    ensures
        immediate_response(method, path, cors_origin) is None <==> method == "POST"@ && path
            != "/health"@,
{
    reveal_strlit("OPTIONS");
    reveal_strlit("POST");
    assert("OPTIONS"@.len() == 7 && "POST"@.len() == 4);
}

/// A backend sees the credentials of the router as the first `authorization`.
pub proof fn credentials_come_first(
    headers: Map<Seq<char>, Seq<Seq<u8>>>,
    rpc_user: Seq<char>,
    rpc_password: Seq<char>,
)
    ensures
        ({
            let out = forwarded_headers(headers, basic_auth(rpc_user, rpc_password));
            &&& out.contains_key("authorization"@)
            &&& out["authorization"@][0] == basic_auth(rpc_user, rpc_password)
        }),
{
}

/// Every other header that came in goes to the backend, with its first value, and no header is
/// made up.
pub proof fn other_headers_are_passed_on(
    headers: Map<Seq<char>, Seq<Seq<u8>>>,
    rpc_user: Seq<char>,
    rpc_password: Seq<char>,
    name: Seq<char>,
)
    requires
        name != "authorization"@,
    ensures
        ({
            let out = forwarded_headers(headers, basic_auth(rpc_user, rpc_password));
            &&& out.contains_key(name) <==> headers.contains_key(name)
            &&& headers.contains_key(name) ==> out[name] == seq![headers[name][0]]
        }),
{
}

} // verus!
