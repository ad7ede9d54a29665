//! What a client gets: status, headers and body of every answer.
use crate::config::Config;
use crate::forward::RequestHead;
use crate::handler::{
    follows_body, follows_head, immediate_response, reply_response, responds, Action, Event, Phase,
};
use crate::headers::{fields, is_header_value};
use crate::json::{json, printed};
use crate::laws::{configured_origin_is_allowed, lemma_cors_names_differ};
use crate::response::{
    allowed_origin, bad_gateway_response, discover_response, has_room_for_cors, health_response,
    not_allowed_response, preflight_response, with_cors, with_cors_headers, HttpVersion, Response,
    ResponseView,
};
use crate::routing::{method_of, RpcRequest};
use crate::schema::Z3Schema;
use vstd::prelude::*;
use vstd::utf8::encode_utf8;

verus! {

/// Two responses that say the same have the same status, version, headers and body.
pub proof fn response_says_all_of_itself(one: Response, other: Response)
    ensures
        one@ == other@ <==> {
            &&& one.status == other.status
            &&& one.version == other.version
            &&& one.body@ == other.body@
            &&& fields(one.headers) == fields(other.headers)
        },
        one@.status == one.status,
        one@.version == one.version,
        one@.body == one.body@,
        one@.headers == fields(one.headers),
{
}

/// The CORS headers, each with one value, take the place of any of the same name: the allowed
/// origin, the methods, the header and the age. Every other header stays, and none is made up.
pub proof fn cors_headers_leave_the_rest(
    headers: Map<Seq<char>, Seq<Seq<u8>>>,
    cors_origin: Seq<char>,
    name: Seq<char>,
)
    ensures
        ({
            let out = with_cors_headers(headers, cors_origin);
            if name == "access-control-allow-origin"@ {
                out.contains_key(name) && out[name] == seq![allowed_origin(cors_origin)]
            } else if name == "access-control-allow-methods"@ {
                out.contains_key(name) && out[name] == seq![encode_utf8("POST, OPTIONS"@)]
            } else if name == "access-control-allow-headers"@ {
                out.contains_key(name) && out[name] == seq![encode_utf8("Content-Type"@)]
            } else if name == "access-control-max-age"@ {
                out.contains_key(name) && out[name] == seq![encode_utf8("86400"@)]
            } else {
                &&& out.contains_key(name) <==> headers.contains_key(name)
                &&& headers.contains_key(name) ==> out[name] == headers[name]
            }
        }),
{
    lemma_cors_names_differ();
}

/// The origin that is allowed is the whole one that was configured, where it holds no control
/// characters but tabs, and any origin where it does.
pub proof fn whole_origin_is_allowed(cors_origin: Seq<char>)
    ensures
        (forall|i: int|
            0 <= i < cors_origin.len() ==> (#[trigger] cors_origin[i]) == '\t' || (' '
                <= cors_origin[i] && cors_origin[i] != '\u{7f}')) ==> allowed_origin(cors_origin)
            == encode_utf8(cors_origin),
        (exists|i: int|
            0 <= i < cors_origin.len() && (#[trigger] cors_origin[i]) != '\t' && (cors_origin[i]
                < ' ' || cors_origin[i] == '\u{7f}')) ==> allowed_origin(cors_origin)
            == encode_utf8("*"@),
{
    configured_origin_is_allowed(cors_origin);
}

/// A value of a header holds no control bytes but tabs.
pub proof fn header_values_hold_no_control_bytes(bytes: Seq<u8>)
    ensures
        is_header_value(bytes) <==> forall|i: int|
            0 <= i < bytes.len() ==> (#[trigger] bytes[i]) == 9 || (32 <= bytes[i] && bytes[i]
                != 127),
{
}

/// Adding the CORS headers changes the headers alone: the status, the version and the whole body
/// of the response stay.
pub proof fn cors_headers_leave_the_response(response: ResponseView, cors_origin: Seq<char>)
    ensures
        with_cors(response, cors_origin).status == response.status,
        with_cors(response, cors_origin).version == response.version,
        with_cors(response, cors_origin).body == response.body,
        with_cors(response, cors_origin).headers == with_cors_headers(
            response.headers,
            cors_origin,
        ),
{
}

/// The CORS headers can be added without fail to up to 6550 header names.
pub proof fn room_for_cors_is_a_matter_of_names(headers: Map<Seq<char>, Seq<Seq<u8>>>)
    ensures
        has_room_for_cors(headers) <==> headers.dom().finite() && headers.dom().len() <= 6550,
{
}

/// The names of the CORS headers are the only ones that are set where there were no headers.
proof fn lemma_cors_names(headers: Map<Seq<char>, Seq<Seq<u8>>>, cors_origin: Seq<char>)
    ensures
        with_cors_headers(headers, cors_origin).dom() == headers.dom().union(
            set![
                "access-control-allow-origin"@,
                "access-control-allow-methods"@,
                "access-control-allow-headers"@,
                "access-control-max-age"@,
            ],
        ),
{
    assert(with_cors_headers(headers, cors_origin).dom() =~= headers.dom().union(
        set![
            "access-control-allow-origin"@,
            "access-control-allow-methods"@,
            "access-control-allow-headers"@,
            "access-control-max-age"@,
        ],
    ));
}

/// A preflight request is answered with 204 and an empty body, and with the CORS headers alone.
pub proof fn preflight_is_answered_without_content(cors_origin: Seq<char>)
    ensures
        preflight_response(cors_origin).status == 204,
        preflight_response(cors_origin).version == HttpVersion::Http11,
        preflight_response(cors_origin).body.len() == 0,
        preflight_response(cors_origin).headers.dom() == set![
            "access-control-allow-origin"@,
            "access-control-allow-methods"@,
            "access-control-allow-headers"@,
            "access-control-max-age"@,
        ],
        preflight_response(cors_origin).headers["access-control-allow-origin"@] == seq![
            allowed_origin(cors_origin),
        ],
        preflight_response(cors_origin).headers["access-control-allow-methods"@] == seq![
            encode_utf8("POST, OPTIONS"@),
        ],
        preflight_response(cors_origin).headers["access-control-allow-headers"@] == seq![
            encode_utf8("Content-Type"@),
        ],
        preflight_response(cors_origin).headers["access-control-max-age"@] == seq![
            encode_utf8("86400"@),
        ],
{
    lemma_cors_names_differ();
    lemma_cors_names(Map::empty(), cors_origin);
    assert(preflight_response(cors_origin).headers.dom() =~= set![
        "access-control-allow-origin"@,
        "access-control-allow-methods"@,
        "access-control-allow-headers"@,
        "access-control-max-age"@,
    ]);
}

/// The merged schema is answered with 200 and its whole text, as JSON and with the CORS headers.
pub proof fn schema_is_answered_whole(schema: Seq<char>, cors_origin: Seq<char>)
    ensures
        discover_response(schema, cors_origin).status == 200,
        discover_response(schema, cors_origin).version == HttpVersion::Http11,
        discover_response(schema, cors_origin).body == encode_utf8(schema),
        discover_response(schema, cors_origin).headers.dom() == set![
            "content-type"@,
            "access-control-allow-origin"@,
            "access-control-allow-methods"@,
            "access-control-allow-headers"@,
            "access-control-max-age"@,
        ],
        discover_response(schema, cors_origin).headers["content-type"@] == seq![
            encode_utf8("application/json"@),
        ],
        discover_response(schema, cors_origin).headers["access-control-allow-origin"@] == seq![
            allowed_origin(cors_origin),
        ],
        discover_response(schema, cors_origin).headers["access-control-allow-methods"@] == seq![
            encode_utf8("POST, OPTIONS"@),
        ],
        discover_response(schema, cors_origin).headers["access-control-allow-headers"@] == seq![
            encode_utf8("Content-Type"@),
        ],
        discover_response(schema, cors_origin).headers["access-control-max-age"@] == seq![
            encode_utf8("86400"@),
        ],
{
    reveal_strlit("content-type");
    reveal_strlit("access-control-allow-origin");
    reveal_strlit("access-control-allow-methods");
    reveal_strlit("access-control-allow-headers");
    reveal_strlit("access-control-max-age");
    assert("content-type"@.len() == 12);
    assert("access-control-allow-origin"@.len() == 27);
    assert("access-control-allow-methods"@.len() == 28);
    assert("access-control-allow-headers"@.len() == 28);
    assert("access-control-max-age"@.len() == 22);
    lemma_cors_names_differ();
    assert(discover_response(schema, cors_origin).headers.dom() =~= set![
        "content-type"@,
        "access-control-allow-origin"@,
        "access-control-allow-methods"@,
        "access-control-allow-headers"@,
        "access-control-max-age"@,
    ]);
}

/// The answers that carry no headers: 200 and `OK` for a health check, 405 and the words of it
/// for a method that is not allowed, and 502 with the whole reason for a request that could not
/// be forwarded.
pub proof fn plain_answers_say_what_they_are(reason: Seq<char>)
    ensures
        health_response().status == 200,
        health_response().version == HttpVersion::Http11,
        health_response().headers.dom() == Set::<Seq<char>>::empty(),
        health_response().body == encode_utf8("OK"@),
        not_allowed_response().status == 405,
        not_allowed_response().version == HttpVersion::Http11,
        not_allowed_response().headers.dom() == Set::<Seq<char>>::empty(),
        not_allowed_response().body == encode_utf8("Method Not Allowed"@),
        bad_gateway_response(reason).status == 502,
        bad_gateway_response(reason).version == HttpVersion::Http11,
        bad_gateway_response(reason).headers.dom() == Set::<Seq<char>>::empty(),
        bad_gateway_response(reason).body == encode_utf8("Bad Gateway: "@ + reason),
{
}

/// The head alone decides on a request for `/health`, on a preflight request and on one that is
/// no POST, each with its status; a POST for any other path is read on.
pub proof fn head_decides_by_path_and_method(
    method: Seq<char>,
    path: Seq<char>,
    cors_origin: Seq<char>,
)
    ensures
        match immediate_response(method, path, cors_origin) {
            Some(response) => {
                &&& path == "/health"@ ==> response.status == 200
                &&& path != "/health"@ && method == "OPTIONS"@ ==> response.status == 204
                    && response.body.len() == 0
                &&& path != "/health"@ && method != "OPTIONS"@ ==> response.status == 405
                    && method != "POST"@
            },
            None => path != "/health"@ && method == "POST"@,
        },
{
    reveal_strlit("OPTIONS");
    reveal_strlit("POST");
    assert("OPTIONS"@.len() == 7 && "POST"@.len() == 4);
}

/// What a client gets on the head of its request: `OK` on a health check, whatever its method is;
/// 204 with the CORS headers alone on a preflight request, for every other path; and 405 on any
/// other method but POST. The body of a POST is read, and nothing of its head is lost.
pub proof fn head_is_answered_or_read_on(step: (Phase, Action), head: RequestHead, config: Config)
    requires
        follows_head(step, head, config),
    ensures
        match step.1 {
            Action::Respond(response) => {
                &&& step.0 is Done
                &&& response.version == HttpVersion::Http11
                &&& if head.path@ == "/health"@ {
                    &&& response.status == 200
                    &&& response.body@ == encode_utf8("OK"@)
                    &&& fields(response.headers).dom() == Set::<Seq<char>>::empty()
                } else if head.method@ == "OPTIONS"@ {
                    &&& response.status == 204
                    &&& response.body@.len() == 0
                    &&& fields(response.headers).dom() == set![
                        "access-control-allow-origin"@,
                        "access-control-allow-methods"@,
                        "access-control-allow-headers"@,
                        "access-control-max-age"@,
                    ]
                    &&& fields(response.headers)["access-control-allow-origin"@] == seq![
                        allowed_origin(config.cors_origin@),
                    ]
                    &&& fields(response.headers)["access-control-allow-methods"@] == seq![
                        encode_utf8("POST, OPTIONS"@),
                    ]
                    &&& fields(response.headers)["access-control-allow-headers"@] == seq![
                        encode_utf8("Content-Type"@),
                    ]
                    &&& fields(response.headers)["access-control-max-age"@] == seq![
                        encode_utf8("86400"@),
                    ]
                } else {
                    &&& head.method@ != "POST"@
                    &&& response.status == 405
                    &&& response.body@ == encode_utf8("Method Not Allowed"@)
                    &&& fields(response.headers).dom() == Set::<Seq<char>>::empty()
                }
            },
            Action::ReadBody => {
                &&& step.0 == Phase::Body(head)
                &&& head.path@ != "/health"@
                &&& head.method@ == "POST"@
            },
            Action::Forward(_) => false,
        },
{
    reveal_strlit("OPTIONS");
    reveal_strlit("POST");
    assert("OPTIONS"@.len() == 7 && "POST"@.len() == 4);
    preflight_is_answered_without_content(config.cors_origin@);
}

/// A client that asks for `rpc.discover` gets 200 and the whole text of the merged schema, as
/// JSON and with the CORS headers.
pub proof fn discover_is_answered_whole(
    step: (Phase, Action),
    head: RequestHead,
    body: Seq<u8>,
    request: RpcRequest,
    config: Config,
    z3: Z3Schema,
)
    requires
        follows_body(step, head, body, method_of(Some(request)), config, z3),
        request.method@ == "rpc.discover"@,
    ensures
        step.0 is Done,
        match step.1 {
            Action::Respond(response) => {
                let headers = fields(response.headers);
                &&& response.status == 200
                &&& response.version == HttpVersion::Http11
                &&& response.body@ == encode_utf8(printed(json(z3.merged)))
                &&& headers.dom() == set![
                    "content-type"@,
                    "access-control-allow-origin"@,
                    "access-control-allow-methods"@,
                    "access-control-allow-headers"@,
                    "access-control-max-age"@,
                ]
                &&& headers["content-type"@] == seq![encode_utf8("application/json"@)]
                &&& headers["access-control-allow-origin"@] == seq![
                    allowed_origin(config.cors_origin@),
                ]
                &&& headers["access-control-allow-methods"@] == seq![encode_utf8("POST, OPTIONS"@)]
                &&& headers["access-control-allow-headers"@] == seq![encode_utf8("Content-Type"@)]
                &&& headers["access-control-max-age"@] == seq![encode_utf8("86400"@)]
            },
            _ => false,
        },
{
    schema_is_answered_whole(printed(json(z3.merged)), config.cors_origin@);
}

/// The answer that follows the reply of a backend has the status, the version and the whole body
/// of the reply, every header of it that is none of the CORS headers, and no other.
pub proof fn reply_is_answered_whole(reply: Response, cors_origin: Seq<char>, name: Seq<char>)
    ensures
        ({
            let answer = reply_response(Ok::<Response, String>(reply), cors_origin);
            let headers = fields(reply.headers);
            &&& answer.status == reply.status
            &&& answer.version == reply.version
            &&& answer.body == reply.body@
            &&& if name == "access-control-allow-origin"@ {
                answer.headers.contains_pair(name, seq![allowed_origin(cors_origin)])
            } else if name == "access-control-allow-methods"@ {
                answer.headers.contains_pair(name, seq![encode_utf8("POST, OPTIONS"@)])
            } else if name == "access-control-allow-headers"@ {
                answer.headers.contains_pair(name, seq![encode_utf8("Content-Type"@)])
            } else if name == "access-control-max-age"@ {
                answer.headers.contains_pair(name, seq![encode_utf8("86400"@)])
            } else {
                &&& answer.headers.contains_key(name) <==> headers.contains_key(name)
                &&& headers.contains_key(name) ==> answer.headers[name] == headers[name]
            }
        }),
{
    cors_headers_leave_the_rest(fields(reply.headers), cors_origin, name);
}

/// A client gets the reply of a backend as it came, but for the CORS headers.
pub proof fn client_gets_the_whole_reply(
    step: (Phase, Action),
    reply: Response,
    config: Config,
    name: Seq<char>,
)
    requires
        responds(step, reply_response(Ok::<Response, String>(reply), config.cors_origin@)),
    ensures
        step.0 is Done,
        match step.1 {
            Action::Respond(response) => {
                let headers = fields(reply.headers);
                let answered = fields(response.headers);
                &&& response.status == reply.status
                &&& response.version == reply.version
                &&& response.body@ == reply.body@
                &&& if name == "access-control-allow-origin"@ {
                    answered.contains_pair(name, seq![allowed_origin(config.cors_origin@)])
                } else if name == "access-control-allow-methods"@ {
                    answered.contains_pair(name, seq![encode_utf8("POST, OPTIONS"@)])
                } else if name == "access-control-allow-headers"@ {
                    answered.contains_pair(name, seq![encode_utf8("Content-Type"@)])
                } else if name == "access-control-max-age"@ {
                    answered.contains_pair(name, seq![encode_utf8("86400"@)])
                } else {
                    &&& answered.contains_key(name) <==> headers.contains_key(name)
                    &&& headers.contains_key(name) ==> answered[name] == headers[name]
                }
            },
            _ => false,
        },
{
    reply_is_answered_whole(reply, config.cors_origin@, name);
}

/// Where a backend gave no reply, a client gets 502 with the whole reason and no headers.
pub proof fn client_gets_the_whole_reason(step: (Phase, Action), reason: String, config: Config)
    requires
        responds(step, reply_response(Err::<Response, String>(reason), config.cors_origin@)),
    ensures
        step.0 is Done,
        match step.1 {
            Action::Respond(response) => {
                &&& response.status == 502
                &&& response.version == HttpVersion::Http11
                &&& response.body@ == encode_utf8("Bad Gateway: "@ + reason@)
                &&& fields(response.headers).dom() == Set::<Seq<char>>::empty()
            },
            _ => false,
        },
{
}

/// Each phase but the last takes any event of its kind and no other, and from the first there are
/// at most three steps to the answer.
pub proof fn each_phase_takes_its_event(phase: Phase, event: Event)
    ensures
        phase.expects(event) <==> match (phase, event) {
            (Phase::Request, Event::Request(_)) => true,
            (Phase::Body(_), Event::Body { .. }) => true,
            (Phase::Reply, Event::Reply(_)) => true,
            _ => false,
        },
        phase.steps_left() <= 3,
        phase.steps_left() == 0 <==> phase is Done,
{
}

} // verus!
