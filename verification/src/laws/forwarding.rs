//! What a backend gets of a request, and what comes of one that cannot be sent.
use crate::config::Config;
use crate::forward::{
    base64_of, basic_auth, forward_uri, forwarded_headers, invalid_uri_text, is_forwarded, six_bits,
    uri_of, ForwardError, ForwardRequest, RequestHead,
};
use crate::handler::{follows_forwarding, Action, Phase};
use crate::headers::{fields, has_room};
use crate::response::HttpVersion;
use hyper::http::uri::InvalidUri;
use hyper::Uri;
use vstd::prelude::*;
use vstd::utf8::encode_utf8;

verus! {

/// A request goes to the whole URL of the backend with path and query behind it as they came in.
/// Where there were none, it goes where a request for `/` does.
pub proof fn path_and_query_stand_behind_the_url(target_url: Seq<char>, text: String)
    ensures
        forward_uri(target_url, Some(text)) == target_url + text@,
        forward_uri(target_url, None) == target_url + "/"@,
{
}

/// Base64 writes three bytes as four characters, each of which stands for six bits by its place
/// in the alphabet. Bits that the last group lacks count as zero, and a character that stands for
/// nothing but these is a `=`.
pub proof fn base64_writes_three_bytes_in_four(bytes: Seq<u8>, group: int)
    requires
        0 <= group,
        3 * group < bytes.len(),
    ensures
        base64_of(bytes).len() == 4 * ((bytes.len() + 2) / 3),
        ({
            let alphabet = "ABCDEFGHIJKLMNOPQRSTUVWXYZabcdefghijklmnopqrstuvwxyz0123456789+/"@;
            let text = base64_of(bytes);
            let first = bytes[3 * group] as int;
            let second = if 3 * group + 1 < bytes.len() {
                bytes[3 * group + 1] as int
            } else {
                0
            };
            let third = if 3 * group + 2 < bytes.len() {
                bytes[3 * group + 2] as int
            } else {
                0
            };
            &&& text[4 * group] == alphabet[first / 4]
            &&& text[4 * group + 1] == alphabet[first % 4 * 16 + second / 16]
            &&& text[4 * group + 2] == if 3 * group + 1 < bytes.len() {
                alphabet[second % 16 * 4 + third / 64]
            } else {
                '='
            }
            &&& text[4 * group + 3] == if 3 * group + 2 < bytes.len() {
                alphabet[third % 64]
            } else {
                '='
            }
        }),
{
    let k = 4 * group;
    let i = 3 * group;
    assert(6 * k / 8 == i && 6 * k % 8 == 0);
    assert(6 * (k + 1) / 8 == i && 6 * (k + 1) % 8 == 6);
    assert(6 * (k + 2) / 8 == i + 1 && 6 * (k + 2) % 8 == 4);
    assert(6 * (k + 3) / 8 == i + 2 && 6 * (k + 3) % 8 == 2);
    let first = bytes[i] as int;
    let second = if i + 1 < bytes.len() {
        bytes[i + 1] as int
    } else {
        0
    };
    let third = if i + 2 < bytes.len() {
        bytes[i + 2] as int
    } else {
        0
    };
    assert(six_bits(bytes, k) == first / 4);
    assert(six_bits(bytes, k + 1) == first % 4 * 16 + second / 16);
    if i + 1 < bytes.len() {
        assert(six_bits(bytes, k + 2) == second % 16 * 4 + third / 64);
    }
    if i + 2 < bytes.len() {
        assert(six_bits(bytes, k + 3) == third % 64);
    }
}

/// The first `authorization` that a backend gets is `Basic` and the base64 of the whole user, a
/// colon and the whole password. One that came in stands behind it, and there are no more.
pub proof fn backend_gets_the_whole_credentials(
    headers: Map<Seq<char>, Seq<Seq<u8>>>,
    rpc_user: Seq<char>,
    rpc_password: Seq<char>,
)
    ensures
        ({
            let out = forwarded_headers(headers, basic_auth(rpc_user, rpc_password));
            let credentials = encode_utf8(
                "Basic "@ + base64_of(encode_utf8(rpc_user + ":"@ + rpc_password)),
            );
            &&& out.contains_key("authorization"@)
            &&& out["authorization"@][0] == credentials
            &&& !headers.contains_key("authorization"@) ==> out["authorization"@].len() == 1
            &&& headers.contains_key("authorization"@) ==> out["authorization"@].len() == 2
                && out["authorization"@][1] == headers["authorization"@][0]
        }),
{
}

/// A backend gets every header that came in, with its first value as it was, and none but these
/// and `authorization`.
pub proof fn backend_gets_every_header(
    headers: Map<Seq<char>, Seq<Seq<u8>>>,
    rpc_user: Seq<char>,
    rpc_password: Seq<char>,
)
    ensures
        ({
            let out = forwarded_headers(headers, basic_auth(rpc_user, rpc_password));
            &&& out.dom() == headers.dom().insert("authorization"@)
            &&& forall|name: Seq<char>|
                name != "authorization"@ && headers.contains_key(name) ==> {
                    &&& (#[trigger] out[name]).len() == 1
                    &&& out[name][0] == headers[name][0]
                }
        }),
{
    let out = forwarded_headers(headers, basic_auth(rpc_user, rpc_password));
    assert(out.dom() =~= headers.dom().insert("authorization"@));
}

/// A request that can be sent is: to that URI, with the method, the version and the whole body
/// that came in, and with the headers that a backend gets. It can be where the URI is one and no
/// more than 6553 header names came in.
pub proof fn request_is_made_as_it_came_in(
    r: Result<ForwardRequest, ForwardError>,
    head: RequestHead,
    body: Seq<u8>,
    uri: Uri,
    rpc_user: Seq<char>,
    rpc_password: Seq<char>,
)
    requires
        is_forwarded(r, head, body, Ok::<Uri, InvalidUri>(uri), rpc_user, rpc_password),
    ensures
        fields(head.headers).dom().finite() && fields(head.headers).dom().len() <= 6553 ==> r is Ok,
        match r {
            Ok(out) => {
                &&& out.uri == uri
                &&& out.method@ == head.method@
                &&& out.version == head.version
                &&& out.body@ == body
                &&& fields(out.headers) == forwarded_headers(
                    fields(head.headers),
                    basic_auth(rpc_user, rpc_password),
                )
            },
            Err(error) => error is TooManyHeaders,
        },
{
}

/// A request is refused for its URI with the reason that the URI was refused for.
pub proof fn request_without_uri_is_refused(
    r: Result<ForwardRequest, ForwardError>,
    head: RequestHead,
    body: Seq<u8>,
    reason: InvalidUri,
    rpc_user: Seq<char>,
    rpc_password: Seq<char>,
)
    requires
        is_forwarded(r, head, body, Err::<Uri, InvalidUri>(reason), rpc_user, rpc_password),
    ensures
        r matches Err(error) && error.text() == invalid_uri_text(reason),
{
}

/// Up to 6553 header names there is room for one more, and with more nothing is promised.
pub proof fn room_is_a_matter_of_names(headers: Map<Seq<char>, Seq<Seq<u8>>>)
    ensures
        has_room(headers) <==> headers.dom().finite() && headers.dom().len() <= 6553,
{
}

/// What passing a request on to a backend's URL comes to, where the URL with path and query makes
/// a URI and no more than 6553 header names came in: the request is sent there, with the method,
/// the version, the whole body and every header that came in, and with the whole credentials of
/// the router.
pub proof fn request_is_sent_whole(
    step: (Phase, Action),
    head: RequestHead,
    body: Seq<u8>,
    target_url: Seq<char>,
    config: Config,
    uri: Uri,
)
    requires
        follows_forwarding(step, head, body, target_url, config),
        match head.path_and_query {
            Some(text) => uri_of(target_url + text@) == Ok::<Uri, InvalidUri>(uri),
            None => uri_of(target_url + "/"@) == Ok::<Uri, InvalidUri>(uri),
        },
        fields(head.headers).dom().finite(),
        fields(head.headers).dom().len() <= 6553,
    ensures
        step.0 is Reply,
        match step.1 {
            Action::Forward(out) => {
                let names = fields(head.headers);
                let sent = fields(out.headers);
                &&& out.uri == uri
                &&& out.method@ == head.method@
                &&& out.version == head.version
                &&& out.body@ == body
                &&& sent.dom() == names.dom().insert("authorization"@)
                &&& sent["authorization"@][0] == encode_utf8(
                    "Basic "@ + base64_of(
                        encode_utf8(config.rpc_user@ + ":"@ + config.rpc_password@),
                    ),
                )
                &&& forall|name: Seq<char>|
                    name != "authorization"@ && names.contains_key(name) ==> (
                    #[trigger] sent[name]).len() == 1 && sent[name][0] == names[name][0]
            },
            _ => false,
        },
{
    let sent = choose|sent: Result<ForwardRequest, ForwardError>|
        {
            &&& #[trigger] is_forwarded(
                sent,
                head,
                body,
                uri_of(forward_uri(target_url, head.path_and_query)),
                config.rpc_user@,
                config.rpc_password@,
            )
            &&& match sent {
                Ok(out) => step.0 is Reply && step.1 == Action::Forward(out),
                Err(error) => crate::handler::responds(
                    step,
                    crate::response::bad_gateway_response(error.text()),
                ),
            }
        };
    backend_gets_every_header(fields(head.headers), config.rpc_user@, config.rpc_password@);
}

/// What passing a request on comes to, where the backend's URL with path and query makes no URI:
/// a 502 that gives the reason, and nothing is sent.
pub proof fn request_without_uri_is_a_bad_gateway(
    step: (Phase, Action),
    head: RequestHead,
    body: Seq<u8>,
    target_url: Seq<char>,
    config: Config,
    reason: InvalidUri,
)
    requires
        follows_forwarding(step, head, body, target_url, config),
        match head.path_and_query {
            Some(text) => uri_of(target_url + text@) == Err::<Uri, InvalidUri>(reason),
            None => uri_of(target_url + "/"@) == Err::<Uri, InvalidUri>(reason),
        },
    ensures
        step.0 is Done,
        match step.1 {
            Action::Respond(response) => {
                &&& response.status == 502
                &&& response.version == HttpVersion::Http11
                &&& response.body@ == encode_utf8("Bad Gateway: "@ + invalid_uri_text(reason))
                &&& fields(response.headers).dom() == Set::<Seq<char>>::empty()
            },
            _ => false,
        },
{
}

/// Whatever came in, passing it on ends in a request to the backend or in a 502. With more than
/// 6553 header names the reason can be that they do not fit.
pub proof fn request_is_sent_or_a_bad_gateway(
    step: (Phase, Action),
    head: RequestHead,
    body: Seq<u8>,
    target_url: Seq<char>,
    config: Config,
)
    requires
        follows_forwarding(step, head, body, target_url, config),
    ensures
        match step.1 {
            Action::Forward(out) => {
                &&& step.0 is Reply
                &&& out.method@ == head.method@
                &&& out.version == head.version
                &&& out.body@ == body
                &&& fields(out.headers) == forwarded_headers(
                    fields(head.headers),
                    basic_auth(config.rpc_user@, config.rpc_password@),
                )
                &&& uri_of(forward_uri(target_url, head.path_and_query)) == Ok::<Uri, InvalidUri>(
                    out.uri,
                )
            },
            Action::Respond(response) => {
                &&& step.0 is Done
                &&& response.status == 502
                &&& fields(response.headers).dom() == Set::<Seq<char>>::empty()
                &&& uri_of(forward_uri(target_url, head.path_and_query)) is Ok ==> response.body@
                    == encode_utf8("Bad Gateway: "@ + "max size reached"@)
            },
            Action::ReadBody => false,
        },
{
}

} // verus!
