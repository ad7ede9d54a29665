//! HTTP responses: those that the router makes itself, and the CORS headers that it adds.
use crate::headers::{
    fields, has_room, header_name, header_value, insert_header, is_header_value, name_text,
    new_headers, static_value, value_bytes, with_value, MAX_NAMES,
};
use crate::RouterError;
use hyper::header::{HeaderName, HeaderValue};
use hyper::HeaderMap;
use vstd::prelude::*;
use vstd::slice::slice_to_vec;
use vstd::string::StringExecFns;
use vstd::utf8::encode_utf8;

verus! {

/// The version of HTTP that a message is written in.
#[derive(Clone, Copy, Debug, PartialEq, Eq, Structural)]
pub enum HttpVersion {
    Http09,
    Http10,
    Http11,
    Http2,
    Http3,
}

/// An HTTP response whose body is held in memory.
pub struct Response {
    pub status: u16,
    pub version: HttpVersion,
    pub headers: HeaderMap,
    pub body: Vec<u8>,
}

/// What a [`Response`] says.
#[verifier::ext_equal]
pub ghost struct ResponseView {
    pub status: u16,
    pub version: HttpVersion,
    pub headers: Map<Seq<char>, Seq<Seq<u8>>>,
    pub body: Seq<u8>,
}

impl View for Response {
    type V = ResponseView;

    open spec fn view(&self) -> ResponseView {
        ResponseView {
            status: self.status,
            version: self.version,
            headers: fields(self.headers),
            body: self.body@,
        }
    }
}

/// The value of `access-control-allow-origin`: the origin where that can be the value of a
/// header, and any origin where it cannot.
pub open spec fn allowed_origin(cors_origin: Seq<char>) -> Seq<u8> {
    if is_header_value(encode_utf8(cors_origin)) {
        encode_utf8(cors_origin)
    } else {
        encode_utf8("*"@)
    }
}

/// `headers` with the four CORS headers in place of any of the same name.
pub open spec fn with_cors_headers(
    headers: Map<Seq<char>, Seq<Seq<u8>>>,
    cors_origin: Seq<char>,
) -> Map<Seq<char>, Seq<Seq<u8>>> {
    let origin = with_value(
        headers,
        "access-control-allow-origin"@,
        allowed_origin(cors_origin),
    );
    let methods = with_value(
        origin,
        "access-control-allow-methods"@,
        encode_utf8("POST, OPTIONS"@),
    );
    let allowed = with_value(
        methods,
        "access-control-allow-headers"@,
        encode_utf8("Content-Type"@),
    );
    with_value(allowed, "access-control-max-age"@, encode_utf8("86400"@))
}

/// `response` with the CORS headers.
pub open spec fn with_cors(response: ResponseView, cors_origin: Seq<char>) -> ResponseView {
    ResponseView { headers: with_cors_headers(response.headers, cors_origin), ..response }
}

/// The four CORS headers can be added to `headers` without fail.
pub open spec fn has_room_for_cors(headers: Map<Seq<char>, Seq<Seq<u8>>>) -> bool {
    headers.dom().finite() && headers.dom().len() + 3 <= MAX_NAMES
}

/// A response in HTTP/1.1 with no headers.
pub open spec fn plain_response(status: u16, body: Seq<u8>) -> ResponseView {
    ResponseView { status, version: HttpVersion::Http11, headers: Map::empty(), body }
}

/// The answer to a health check.
pub open spec fn health_response() -> ResponseView {
    plain_response(200, encode_utf8("OK"@))
}

/// The answer to a CORS preflight request.
pub open spec fn preflight_response(cors_origin: Seq<char>) -> ResponseView {
    with_cors(plain_response(204, Seq::empty()), cors_origin)
}

/// The answer to a request that is no POST.
pub open spec fn not_allowed_response() -> ResponseView {
    plain_response(405, encode_utf8("Method Not Allowed"@))
}

/// The answer to `rpc.discover`, given the text of the merged schema.
pub open spec fn discover_response(schema: Seq<char>, cors_origin: Seq<char>) -> ResponseView {
    with_cors(
        ResponseView {
            headers: with_value(Map::empty(), "content-type"@, encode_utf8("application/json"@)),
            ..plain_response(200, encode_utf8(schema))
        },
        cors_origin,
    )
}

/// The answer where a request could not be forwarded, given the reason.
pub open spec fn bad_gateway_response(reason: Seq<char>) -> ResponseView {
    plain_response(502, encode_utf8("Bad Gateway: "@ + reason))
}

/// Sets a header to a value; fails where the headers cannot take one more name.
fn set_header(headers: &mut HeaderMap, name: HeaderName, value: HeaderValue) -> (r: Result<
    (),
    RouterError,
>)
    ensures
        match r {
            Ok(_) => fields(*final(headers)) == with_value(
                fields(*old(headers)),
                name_text(name),
                value_bytes(value),
            ),
            Err(error) => error is TooManyHeaders && !has_room(fields(*old(headers))),
        },
{
    match insert_header(headers, name, value) {
        Ok(_) => Ok(()),
        Err(_) => Err(RouterError::TooManyHeaders),
    }
}

/// Adds CORS headers to the response; fails where its headers cannot take four more names.
pub fn try_add_cors_headers(resp: Response, cors_origin: &str) -> (r: Result<
    Response,
    RouterError,
>)
    ensures
        match r {
            Ok(response) => response@ == with_cors(resp@, cors_origin@),
            Err(error) => error is TooManyHeaders && !has_room_for_cors(resp@.headers),
        },
{
    proof {
        reveal_strlit("access-control-allow-origin");
        reveal_strlit("access-control-allow-methods");
        reveal_strlit("access-control-allow-headers");
        reveal_strlit("access-control-max-age");
        reveal_strlit("*");
        reveal_strlit("POST, OPTIONS");
        reveal_strlit("Content-Type");
        reveal_strlit("86400");
    }
    let Response { status, version, mut headers, body } = resp;
    let origin = match header_value(cors_origin) {
        Ok(value) => value,
        Err(_) => static_value("*"),
    };
    set_header(&mut headers, header_name("access-control-allow-origin"), origin)?;
    set_header(
        &mut headers,
        header_name("access-control-allow-methods"),
        static_value("POST, OPTIONS"),
    )?;
    set_header(
        &mut headers,
        header_name("access-control-allow-headers"),
        static_value("Content-Type"),
    )?;
    set_header(&mut headers, header_name("access-control-max-age"), static_value("86400"))?;
    Ok(Response { status, version, headers, body })
}

/// Adds CORS headers to the response.
pub fn add_cors_headers(resp: Response, cors_origin: &str) -> (r: Response)
    requires
        has_room_for_cors(resp@.headers),
    ensures
        r@ == with_cors(resp@, cors_origin@),
{
    match try_add_cors_headers(resp, cors_origin) {
        Ok(response) => response,
        Err(_) => vstd::pervasive::unreached(),
    }
}

/// A response in HTTP/1.1 with no headers.
fn plain(status: u16, body: &str) -> (r: Response)
    ensures
        r@ == plain_response(status, encode_utf8(body@)),
{
    Response {
        status,
        version: HttpVersion::Http11,
        headers: new_headers(),
        body: slice_to_vec(body.as_bytes()),
    }
}

/// Answers a health check.
pub fn health() -> (r: Response)
    ensures
        r@ == health_response(),
{
    plain(200, "OK")
}

/// Answers a CORS preflight request.
pub fn preflight(cors_origin: &str) -> (r: Response)
    ensures
        r@ == preflight_response(cors_origin@),
{
    let resp = Response { body: Vec::new(), ..plain(204, "") };
    add_cors_headers(resp, cors_origin)
}

/// Answers a request that is no POST.
pub fn method_not_allowed() -> (r: Response)
    ensures
        r@ == not_allowed_response(),
{
    plain(405, "Method Not Allowed")
}

/// Answers `rpc.discover` with the text of the merged schema.
pub fn discovered(schema: &str, cors_origin: &str) -> (r: Response)
    ensures
        r@ == discover_response(schema@, cors_origin@),
{
    proof {
        reveal_strlit("content-type");
        reveal_strlit("application/json");
    }
    let mut resp = plain(200, schema);
    let set = set_header(
        &mut resp.headers,
        header_name("content-type"),
        static_value("application/json"),
    );
    assert(set is Ok);
    add_cors_headers(resp, cors_origin)
}

/// Answers a request that could not be forwarded.
pub fn bad_gateway(reason: &str) -> (r: Response)
    ensures
        r@ == bad_gateway_response(reason@),
{
    let text = "Bad Gateway: ".to_string().concat(reason);
    plain(502, text.as_str())
}

} // verus!
