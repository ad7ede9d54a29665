//! The request handler, as a machine that decides what to do next.
//!
//! One request runs from [`Phase::Request`] to [`Phase::Done`]. Reading the body, sending to a
//! backend and writing the response are actions that [`handler`] asks for; what came of them is
//! handed back to it as an event.
use crate::config::Config;
use crate::forward::{
    forward_request, forward_uri, is_forwarded, uri_of, ForwardError, ForwardRequest, RequestHead,
};
use crate::json::{documents, json, max_depth, parsed, print_json, printed, reads_back};
use crate::response::{
    bad_gateway, bad_gateway_response, discover_response, discovered, has_room_for_cors, health,
    health_response, method_not_allowed, not_allowed_response, preflight, preflight_response,
    try_add_cors_headers, with_cors, Response, ResponseView,
};
use crate::routing::{method_of, route, route_of, Route, RpcRequest};
use crate::schema::Z3Schema;
use crate::RouterError;
use vstd::prelude::*;

verus! {

/// How far the handling of a request has come.
pub enum Phase {
    /// Nothing has been read yet.
    Request,
    /// The head has been read, the body not yet.
    Body(RequestHead),
    /// The request has gone to a backend.
    Reply,
    /// The response has been given.
    Done,
}

/// What happened.
pub enum Event {
    /// The head of a request came in.
    Request(RequestHead),
    /// The body was read. `request` is what it says, where it is a JSON-RPC request.
    Body { bytes: Vec<u8>, request: Option<RpcRequest> },
    /// A backend replied, or could not be reached for the reason given.
    Reply(Result<Response, String>),
}

/// What is to be done.
pub enum Action {
    /// Read the body of the request.
    ReadBody,
    /// Send this request to a backend.
    Forward(ForwardRequest),
    /// Answer the request.
    Respond(Response),
}

impl Phase {
    /// The number of steps that are left at most.
    pub open spec fn steps_left(self) -> nat {
        match self {
            Phase::Request => 3,
            Phase::Body(_) => 2,
            Phase::Reply => 1,
            Phase::Done => 0,
        }
    }

    /// `event` is what this phase waits for.
    pub open spec fn expects(self, event: Event) -> bool {
        match self {
            Phase::Request => event is Request,
            Phase::Body(_) => event is Body,
            Phase::Reply => event is Reply,
            Phase::Done => false,
        }
    }
}

/// The answer to a request that needs its head alone: a health check, a CORS preflight request
/// or a request that is no POST.
pub open spec fn immediate_response(
    method: Seq<char>,
    path: Seq<char>,
    cors_origin: Seq<char>,
) -> Option<ResponseView> {
    if path == "/health"@ {
        Some(health_response())
    } else if method == "OPTIONS"@ {
        Some(preflight_response(cors_origin))
    } else if method != "POST"@ {
        Some(not_allowed_response())
    } else {
        None
    }
}

/// `step` answers the request with `response`, and that is the end of it.
pub open spec fn responds(step: (Phase, Action), response: ResponseView) -> bool {
    step.0 is Done && match step.1 {
        Action::Respond(r) => r@ == response,
        _ => false,
    }
}

/// `step` follows the head of a request: it answers where the head is enough, and reads the body
/// where it is not.
pub open spec fn follows_head(step: (Phase, Action), head: RequestHead, config: Config) -> bool {
    match immediate_response(head.method@, head.path@, config.cors_origin@) {
        Some(response) => responds(step, response),
        None => step.0 == Phase::Body(head) && step.1 is ReadBody,
    }
}

/// `step` is what comes of passing a request on: it is sent, or answered with the reason why it
/// cannot be.
pub open spec fn follows_forwarding(
    step: (Phase, Action),
    head: RequestHead,
    body: Seq<u8>,
    target_url: Seq<char>,
    config: Config,
) -> bool {
    exists|sent: Result<ForwardRequest, ForwardError>|
        {
            &&& #[trigger] is_forwarded(
                sent,
                head,
                body,
                uri_of(forward_uri(target_url, head.path_and_query)),
                config.rpc_user@,
                config.rpc_password@,
            )
            &&& match sent {
                Ok(out) => step.0 is Reply && step.1 == Action::Forward(out),
                Err(error) => responds(step, bad_gateway_response(error.text())),
            }
        }
}

/// `step` follows the body of a request, which names `method` where it is a JSON-RPC request: for
/// `rpc.discover` it answers with a text that reads as the merged schema, and for any other
/// method it passes the request on to the backend that the method belongs to.
pub open spec fn follows_body(
    step: (Phase, Action),
    head: RequestHead,
    body: Seq<u8>,
    method: Option<Seq<char>>,
    config: Config,
    z3: Z3Schema,
) -> bool {
    let zebra_methods = documents(z3.zebra_methods@);
    let zallet_methods = documents(z3.zallet_methods@);
    match route_of(method, zebra_methods, zallet_methods) {
        Route::Discover => {
            let text = printed(json(z3.merged));
            &&& responds(step, discover_response(text, config.cors_origin@))
            &&& reads_back(json(z3.merged), max_depth()) ==> parsed(text) == Some(json(z3.merged))
        },
        Route::Zebra => follows_forwarding(step, head, body, config.zebra_url@, config),
        Route::Zallet => follows_forwarding(step, head, body, config.zallet_url@, config),
    }
}

/// The answer that follows the reply of a backend: the reply with the CORS headers, or the
/// reason why there is none.
pub open spec fn reply_response(
    reply: Result<Response, String>,
    cors_origin: Seq<char>,
) -> ResponseView {
    match reply {
        Ok(response) => with_cors(response@, cors_origin),
        Err(reason) => bad_gateway_response(reason@),
    }
}

/// Decides on a request by its head.
pub fn on_head(head: RequestHead, config: &Config) -> (step: (Phase, Action))
    ensures
        follows_head(step, head, *config),
{
    // Health check
    if head.path == "/health".to_string() {
        return (Phase::Done, Action::Respond(health()));
    }

    // Handle CORS preflight
    if head.method == "OPTIONS".to_string() {
        return (Phase::Done, Action::Respond(preflight(config.cors_origin.as_str())));
    }

    // Only handle POST requests for JSON-RPC
    if head.method != "POST".to_string() {
        return (Phase::Done, Action::Respond(method_not_allowed()));
    }
    (Phase::Body(head), Action::ReadBody)
}

/// Passes a request on to a backend.
fn pass_on(head: RequestHead, body: Vec<u8>, target_url: &str, config: &Config) -> (step: (
    Phase,
    Action,
))
    ensures
        follows_forwarding(step, head, body@, target_url@, *config),
{
    let sent = forward_request(
        head,
        body,
        target_url,
        config.rpc_user.as_str(),
        config.rpc_password.as_str(),
    );
    match sent {
        Ok(out) => (Phase::Reply, Action::Forward(out)),
        Err(error) => (
            Phase::Done,
            Action::Respond(bad_gateway(error.message().as_str())),
        ),
    }
}

/// Decides on a request by its body.
pub fn on_body(
    head: RequestHead,
    body: Vec<u8>,
    request: Option<RpcRequest>,
    config: &Config,
    z3: &Z3Schema,
) -> (step: (Phase, Action))
    ensures
        follows_body(step, head, body@, method_of(request), *config, *z3),
{
    match route(&request, z3) {
        Route::Discover => {
            let text = match print_json(&z3.merged) {
                Ok(text) => text,
                Err(_) => vstd::pervasive::unreached(),
            };
            let response = discovered(text.as_str(), config.cors_origin.as_str());
            (Phase::Done, Action::Respond(response))
        },
        Route::Zebra => pass_on(head, body, config.zebra_url.as_str(), config),
        Route::Zallet => pass_on(head, body, config.zallet_url.as_str(), config),
    }
}

/// Answers a request with what came of forwarding it.
pub fn on_reply(reply: Result<Response, String>, config: &Config) -> (r: Result<
    Response,
    RouterError,
>)
    ensures
        match r {
            Ok(response) => response@ == reply_response(reply, config.cors_origin@),
            Err(error) => error is TooManyHeaders && (reply matches Ok(response)
                && !has_room_for_cors(response@.headers)),
        },
{
    match reply {
        Ok(res) => try_add_cors_headers(res, config.cors_origin.as_str()),
        Err(reason) => Ok(bad_gateway(reason.as_str())),
    }
}

/// Main request handler.
pub fn handler(phase: Phase, event: Event, config: &Config, z3: &Z3Schema) -> (step: Result<
    (Phase, Action),
    RouterError,
>)
    requires
        phase.expects(event),
    ensures
        match event {
            Event::Request(head) => step matches Ok(step) && follows_head(step, head, *config),
            Event::Body { bytes, request } => {
                &&& phase matches Phase::Body(head)
                &&& step matches Ok(step)
                &&& follows_body(step, head, bytes@, method_of(request), *config, *z3)
            },
            Event::Reply(reply) => match step {
                Ok(step) => responds(step, reply_response(reply, config.cors_origin@)),
                Err(error) => error is TooManyHeaders && (reply matches Ok(response)
                    && !has_room_for_cors(response@.headers)),
            },
        },
        step matches Ok((next, action)) ==> {
            &&& next.steps_left() < phase.steps_left()
            &&& action is Respond <==> next is Done
            &&& action is ReadBody <==> next is Body
            &&& action is Forward <==> next is Reply
        },
{
    match event {
        Event::Request(head) => Ok(on_head(head, config)),
        Event::Body { bytes, request } => match phase {
            Phase::Body(head) => Ok(on_body(head, bytes, request, config, z3)),
            _ => vstd::pervasive::unreached(),
        },
        Event::Reply(reply) => match on_reply(reply, config) {
            Ok(response) => Ok((Phase::Done, Action::Respond(response))),
            Err(error) => Err(error),
        },
    }
}

} // verus!
