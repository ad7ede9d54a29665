//! Forwarding: the request that goes to a backend, made from the one that came in.
use crate::headers::{
    append_header, fields, hands_out, has_room, header_items, header_name, header_value,
    is_header_value, name_text, new_headers, value_bytes, with_added_value,
};
use crate::response::HttpVersion;
use base64::Engine;
use hyper::header::{HeaderName, HeaderValue};
use hyper::http::uri::InvalidUri;
use hyper::{HeaderMap, Uri};
use vstd::prelude::*;
use vstd::string::StringExecFns;
use vstd::utf8::{encode_utf8, is_ascii_chars, is_ascii_chars_encode_utf8};

verus! {

/// `http::Uri`, carried as an opaque value.
#[verifier::external_type_specification]
#[verifier::external_body]
pub struct ExUri(hyper::Uri);

/// `http::uri::InvalidUri`, carried as an opaque value.
#[verifier::external_type_specification]
#[verifier::external_body]
pub struct ExInvalidUri(hyper::http::uri::InvalidUri);

/// What `Uri::from_str` makes of a text.
pub uninterp spec fn uri_of(text: Seq<char>) -> Result<hyper::Uri, hyper::http::uri::InvalidUri>;

/// The text that the `Display` of `InvalidUri` gives.
pub uninterp spec fn invalid_uri_text(error: hyper::http::uri::InvalidUri) -> Seq<char>;

/// The `k`-th group of six bits of `bytes`, with zeros behind its end.
pub open spec fn six_bits(bytes: Seq<u8>, k: int) -> int {
    let i = 6 * k / 8;
    let high = bytes[i] as int;
    let low = if i + 1 < bytes.len() {
        bytes[i + 1] as int
    } else {
        0
    };
    let shift: int = if 6 * k % 8 == 0 {
        1024
    } else if 6 * k % 8 == 2 {
        256
    } else if 6 * k % 8 == 4 {
        64
    } else {
        16
    };
    (high * 256 + low) / shift % 64
}

/// `bytes` in the standard base64 of RFC 4648: a character for each six bits, and padding up to
/// a multiple of four characters.
pub open spec fn base64_of(bytes: Seq<u8>) -> Seq<char> {
    Seq::new(
        4 * ((bytes.len() + 2) / 3),
        |k: int|
            if 6 * k < 8 * bytes.len() {
                "ABCDEFGHIJKLMNOPQRSTUVWXYZabcdefghijklmnopqrstuvwxyz0123456789+/"@[six_bits(
                    bytes,
                    k,
                )]
            } else {
                '='
            },
    )
}

/// `Uri::from_str`: its result is a function of the text, named [`uri_of`].
#[verifier::external_body]
fn parse_uri(text: &str) -> (uri: Result<Uri, InvalidUri>)
    ensures
        uri == uri_of(text@),
{
    text.parse()
}

/// The `Display` of `InvalidUri`: its text is a function of the error, named
/// [`invalid_uri_text`].
#[verifier::external_body]
fn invalid_uri_message(error: &InvalidUri) -> (text: String)
    ensures
        text@ == invalid_uri_text(*error),
{
    error.to_string()
}

/// `general_purpose::STANDARD.encode`: the UTF-8 bytes of the text in standard base64, padded.
#[verifier::external_body]
fn encode_base64(text: &str) -> (encoded: String)
    ensures
        encoded@ == base64_of(encode_utf8(text@)),
{
    base64::engine::general_purpose::STANDARD.encode(text)
}

/// The head of a request that came in: what the router reads of it, and what it passes on.
pub struct RequestHead {
    pub method: String,
    /// The path of the target, without the query.
    pub path: String,
    /// The path and query of the target, where it has them.
    pub path_and_query: Option<String>,
    pub version: HttpVersion,
    pub headers: HeaderMap,
}

/// A request to be sent to a backend.
pub struct ForwardRequest {
    pub method: String,
    pub uri: Uri,
    pub version: HttpVersion,
    pub headers: HeaderMap,
    pub body: Vec<u8>,
}

/// Why a request could not be forwarded.
pub enum ForwardError {
    /// The backend's URL and the path do not make a URI.
    InvalidUri(InvalidUri),
    /// The headers do not fit in one request.
    TooManyHeaders,
}

impl ForwardError {
    /// The reason in words.
    pub open spec fn text(self) -> Seq<char> {
        match self {
            ForwardError::InvalidUri(error) => invalid_uri_text(error),
            ForwardError::TooManyHeaders => "max size reached"@,
        }
    }

    /// The reason in words.
    pub fn message(&self) -> (text: String)
        ensures
            text@ == self.text(),
    {
        match self {
            ForwardError::InvalidUri(error) => invalid_uri_message(error),
            ForwardError::TooManyHeaders => "max size reached".to_string(),
        }
    }
}

/// The URI that a request goes to: the backend's URL, then path and query as they came in, or a
/// slash where there were none.
pub open spec fn forward_uri(target_url: Seq<char>, path_and_query: Option<String>) -> Seq<char> {
    target_url + match path_and_query {
        Some(text) => text@,
        None => "/"@,
    }
}

/// The value of `authorization` for a backend: user and password in base64.
pub open spec fn basic_auth(rpc_user: Seq<char>, rpc_password: Seq<char>) -> Seq<u8> {
    encode_utf8("Basic "@ + base64_of(encode_utf8(rpc_user + ":"@ + rpc_password)))
}

/// The headers that go to a backend: the first value of each that came in, with `auth` before
/// the one of `authorization`.
pub open spec fn forwarded_headers(
    headers: Map<Seq<char>, Seq<Seq<u8>>>,
    auth: Seq<u8>,
) -> Map<Seq<char>, Seq<Seq<u8>>> {
    Map::new(
        |name: Seq<char>| headers.contains_key(name) || name == "authorization"@,
        |name: Seq<char>|
            if name != "authorization"@ {
                seq![headers[name][0]]
            } else if headers.contains_key(name) {
                seq![auth, headers[name][0]]
            } else {
                seq![auth]
            },
    )
}

/// `name` is among those that `items` holds before `end`.
spec fn named_before(
    items: Seq<(Option<HeaderName>, HeaderValue)>,
    end: int,
    name: Seq<char>,
) -> bool {
    exists|j: int|
        0 <= j < end && (#[trigger] items[j]).0 is Some && name_text(items[j].0->0) == name
}

/// The headers that go to a backend, once the items before `end` have been passed on.
spec fn forwarded_before(
    items: Seq<(Option<HeaderName>, HeaderValue)>,
    end: int,
    headers: Map<Seq<char>, Seq<Seq<u8>>>,
    auth: Seq<u8>,
) -> Map<Seq<char>, Seq<Seq<u8>>> {
    forwarded_headers(
        headers.restrict(Set::new(|name: Seq<char>| named_before(items, end, name))),
        auth,
    )
}

/// Passing on one more item adds its value under its name, and an item without a name changes
/// nothing.
proof fn lemma_forward_item(
    items: Seq<(Option<HeaderName>, HeaderValue)>,
    end: int,
    headers: Map<Seq<char>, Seq<Seq<u8>>>,
    auth: Seq<u8>,
)
    requires
        hands_out(items, headers),
        0 <= end < items.len(),
    ensures
        items[end].0 matches Some(name) ==> forwarded_before(items, end + 1, headers, auth)
            == with_added_value(
            forwarded_before(items, end, headers, auth),
            name_text(name),
            value_bytes(items[end].1),
        ),
        items[end].0 is None ==> forwarded_before(items, end + 1, headers, auth)
            == forwarded_before(items, end, headers, auth),
        items[end].0 is Some && has_room(headers) ==> has_room(
            forwarded_before(items, end, headers, auth),
        ),
{
    let before = forwarded_before(items, end, headers, auth);
    let after = forwarded_before(items, end + 1, headers, auth);
    assert forall|name: Seq<char>| #[trigger]
        named_before(items, end + 1, name) <==> named_before(items, end, name) || (items[end].0
            is Some && name_text(items[end].0->0) == name) by {
        if named_before(items, end, name) {
            let j = choose|j: int|
                0 <= j < end && (#[trigger] items[j]).0 is Some && name_text(items[j].0->0) == name;
            assert(items[j].0 is Some);
        }
        if items[end].0 is Some && name_text(items[end].0->0) == name {
            assert(items[end].0 is Some);
        }
    }
    if let Some(key) = items[end].0 {
        let name = name_text(key);
        assert(items[end + 0] == items[end]);
        assert(headers.contains_key(name));
        assert(!named_before(items, end, name));
        let value = headers[name][0];
        assert(seq![auth].push(value) =~= seq![auth, value]);
        assert(after =~= with_added_value(before, name, value_bytes(items[end].1)));
        if has_room(headers) {
            let all = headers.dom().insert("authorization"@);
            assert(before.dom().subset_of(all));
            if name == "authorization"@ {
                assert(all =~= headers.dom());
                vstd::set_lib::lemma_len_subset(before.dom(), headers.dom());
            } else {
                assert(before.dom().subset_of(all.remove(name)));
                vstd::set_lib::lemma_len_subset(before.dom(), all.remove(name));
            }
        }
    } else {
        assert(after =~= before);
    }
}

/// The value of `authorization` can be the value of a header, whatever the credentials are.
proof fn lemma_auth_is_header_value(rpc_user: Seq<char>, rpc_password: Seq<char>)
    ensures
        is_header_value(basic_auth(rpc_user, rpc_password)),
{
    reveal_strlit("Basic ");
    reveal_strlit("ABCDEFGHIJKLMNOPQRSTUVWXYZabcdefghijklmnopqrstuvwxyz0123456789+/");
    let alphabet = "ABCDEFGHIJKLMNOPQRSTUVWXYZabcdefghijklmnopqrstuvwxyz0123456789+/"@;
    let bytes = encode_utf8(rpc_user + ":"@ + rpc_password);
    let encoded = base64_of(bytes);
    assert(alphabet.len() == 64);
    assert forall|i: int| 0 <= i < 64 implies '+' <= #[trigger] alphabet[i] && alphabet[i]
        <= 'z' by {}
    assert forall|k: int| 0 <= k < encoded.len() implies '+' <= #[trigger] encoded[k] && encoded[k]
        <= 'z' by {
        if 6 * k < 8 * bytes.len() {
            assert(0 <= six_bits(bytes, k) < 64);
        }
    }
    let text = "Basic "@ + encoded;
    assert(is_ascii_chars(text));
    is_ascii_chars_encode_utf8(text);
}

/// The headers of the request to a backend: those that came in, and the credentials.
pub fn backend_headers(headers: HeaderMap, rpc_user: &str, rpc_password: &str) -> (r: Result<
    HeaderMap,
    ForwardError,
>)
    ensures
        match r {
            Ok(out) => fields(out) == forwarded_headers(
                fields(headers),
                basic_auth(rpc_user@, rpc_password@),
            ),
            Err(error) => error is TooManyHeaders && !has_room(fields(headers)),
        },
{
    let mut out = new_headers();

    // Inject auth header
    let credentials = rpc_user.to_string().concat(":").concat(rpc_password);
    let auth = "Basic ".to_string().concat(encode_base64(credentials.as_str()).as_str());
    proof {
        lemma_auth_is_header_value(rpc_user@, rpc_password@);
        reveal_strlit("authorization");
    }
    let value = match header_value(auth.as_str()) {
        Ok(value) => value,
        Err(_) => vstd::pervasive::unreached(),
    };
    let ghost auth = value_bytes(value);
    if append_header(&mut out, header_name("authorization"), value).is_err() {
        return Err(ForwardError::TooManyHeaders);
    }

    // Copy other headers
    let ghost incoming = fields(headers);
    let items = header_items(headers);
    assert(fields(out) =~= forwarded_before(items@, 0, incoming, auth));
    for (key, value) in iter: items
        invariant
            iter.seq() == items@,
            incoming == fields(headers),
            hands_out(items@, incoming),
            fields(out) == forwarded_before(items@, iter.index(), incoming, auth),
    {
        proof {
            lemma_forward_item(items@, iter.index(), incoming, auth);
        }
        if let Some(name) = key {
            if append_header(&mut out, name, value).is_err() {
                return Err(ForwardError::TooManyHeaders);
            }
        }
    }
    assert(forwarded_before(items@, items@.len() as int, incoming, auth) =~= forwarded_headers(
        incoming,
        auth,
    ));
    Ok(out)
}

/// `out` passes on a request with this head and body to `uri`, under these credentials.
pub open spec fn passes_on(
    out: ForwardRequest,
    head: RequestHead,
    body: Seq<u8>,
    uri: Uri,
    rpc_user: Seq<char>,
    rpc_password: Seq<char>,
) -> bool {
    &&& out.uri == uri
    &&& out.method@ == head.method@
    &&& out.version == head.version
    &&& fields(out.headers) == forwarded_headers(
        fields(head.headers),
        basic_auth(rpc_user, rpc_password),
    )
    &&& out.body@ == body
}

/// What becomes of a request with this head and body that is to go to `uri` under these
/// credentials: it is passed on, unless there is no such URI or the headers do not fit.
pub open spec fn is_forwarded(
    r: Result<ForwardRequest, ForwardError>,
    head: RequestHead,
    body: Seq<u8>,
    uri: Result<Uri, InvalidUri>,
    rpc_user: Seq<char>,
    rpc_password: Seq<char>,
) -> bool {
    match uri {
        Ok(uri) => match r {
            Ok(out) => passes_on(out, head, body, uri, rpc_user, rpc_password),
            Err(error) => error is TooManyHeaders && !has_room(fields(head.headers)),
        },
        Err(reason) => r == Err::<ForwardRequest, ForwardError>(ForwardError::InvalidUri(reason)),
    }
}

/// Makes the request that goes to a backend, given what its URI was read as.
pub fn forward_to(
    uri: Result<Uri, InvalidUri>,
    head: RequestHead,
    body: Vec<u8>,
    rpc_user: &str,
    rpc_password: &str,
) -> (r: Result<ForwardRequest, ForwardError>)
    ensures
        is_forwarded(r, head, body@, uri, rpc_user@, rpc_password@),
{
    let uri = match uri {
        Ok(uri) => uri,
        Err(error) => {
            return Err(ForwardError::InvalidUri(error));
        },
    };
    match backend_headers(head.headers, rpc_user, rpc_password) {
        Ok(headers) => Ok(
            ForwardRequest { method: head.method, uri, version: head.version, headers, body },
        ),
        Err(error) => Err(error),
    }
}

/// Makes the request that forwards the incoming one to the specified target URL with basic auth.
pub fn forward_request(
    head: RequestHead,
    body: Vec<u8>,
    target_url: &str,
    rpc_user: &str,
    rpc_password: &str,
) -> (r: Result<ForwardRequest, ForwardError>)
    ensures
        is_forwarded(
            r,
            head,
            body@,
            uri_of(forward_uri(target_url@, head.path_and_query)),
            rpc_user@,
            rpc_password@,
        ),
{
    let path_and_query = match &head.path_and_query {
        Some(text) => text.as_str(),
        None => "/",
    };
    let uri_string = target_url.to_string().concat(path_and_query);
    let uri = parse_uri(uri_string.as_str());
    forward_to(uri, head, body, rpc_user, rpc_password)
}

} // verus!
