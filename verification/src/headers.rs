//! HTTP header fields as the `http` crate holds them, reached through `hyper`.
//!
//! A `HeaderMap` is opaque to the verifier. [`fields`] names what it holds, and every contract
//! on headers is stated over that.
use hyper::header::{HeaderName, HeaderValue, InvalidHeaderValue, MaxSizeReached};
use hyper::HeaderMap;
use vstd::prelude::*;
use vstd::utf8::encode_utf8;

verus! {

/// `http::HeaderMap`, carried as an opaque value.
#[verifier::external_type_specification]
#[verifier::external_body]
#[verifier::reject_recursive_types(T)]
pub struct ExHeaderMap<T>(hyper::HeaderMap<T>);

/// `http::HeaderName`, carried as an opaque value.
#[verifier::external_type_specification]
#[verifier::external_body]
pub struct ExHeaderName(hyper::header::HeaderName);

/// `http::HeaderValue`, carried as an opaque value.
#[verifier::external_type_specification]
#[verifier::external_body]
pub struct ExHeaderValue(hyper::header::HeaderValue);

/// `http::header::InvalidHeaderValue`, carried as an opaque value.
#[verifier::external_type_specification]
#[verifier::external_body]
pub struct ExInvalidHeaderValue(hyper::header::InvalidHeaderValue);

/// `http::header::MaxSizeReached`, carried as an opaque value.
#[verifier::external_type_specification]
#[verifier::external_body]
pub struct ExMaxSizeReached(hyper::header::MaxSizeReached);

/// The fields of a `HeaderMap`: by name, in lower case, the values in the order in which they
/// were added.
pub uninterp spec fn fields(headers: hyper::HeaderMap<hyper::header::HeaderValue>) -> Map<
    Seq<char>,
    Seq<Seq<u8>>,
>;

/// The text of a `HeaderName`, in lower case.
pub uninterp spec fn name_text(name: hyper::header::HeaderName) -> Seq<char>;

/// The bytes of a `HeaderValue`.
pub uninterp spec fn value_bytes(value: hyper::header::HeaderValue) -> Seq<u8>;

/// A `HeaderMap` with no more names than this takes one more without fail. Its largest table has
/// 32768 places, and while less than a fifth of them is in use the map never has to grow past it.
pub const MAX_NAMES: usize = 6553;

/// One more name can be added to `headers` without fail.
pub open spec fn has_room(headers: Map<Seq<char>, Seq<Seq<u8>>>) -> bool {
    headers.dom().finite() && headers.dom().len() <= MAX_NAMES
}

/// `bytes` can be the value of a header: every byte is a tab or neither a control character nor
/// DEL.
pub open spec fn is_header_value(bytes: Seq<u8>) -> bool {
    forall|i: int|
        0 <= i < bytes.len() ==> (#[trigger] bytes[i] >= 32 && bytes[i] != 127) || bytes[i] == 9
}

/// `headers` with the single value `value` for `name`.
pub open spec fn with_value(
    headers: Map<Seq<char>, Seq<Seq<u8>>>,
    name: Seq<char>,
    value: Seq<u8>,
) -> Map<Seq<char>, Seq<Seq<u8>>> {
    headers.insert(name, seq![value])
}

/// `headers` with `value` added behind the values that `name` has.
pub open spec fn with_added_value(
    headers: Map<Seq<char>, Seq<Seq<u8>>>,
    name: Seq<char>,
    value: Seq<u8>,
) -> Map<Seq<char>, Seq<Seq<u8>>> {
    headers.insert(
        name,
        if headers.contains_key(name) {
            headers[name].push(value)
        } else {
            seq![value]
        },
    )
}

/// `items` hands out `headers` name by name: each name stands once, with its first value, and
/// its further values follow without a name.
pub open spec fn hands_out(
    items: Seq<(Option<HeaderName>, HeaderValue)>,
    headers: Map<Seq<char>, Seq<Seq<u8>>>,
) -> bool {
    &&& forall|i: int, k: int|
        #![trigger items[i], items[i + k]]
        0 <= i < items.len() && items[i].0 is Some ==> {
            let name = name_text(items[i].0->0);
            &&& headers.contains_key(name)
            &&& 0 < headers[name].len()
            &&& i + headers[name].len() <= items.len()
            &&& 0 <= k < headers[name].len() ==> value_bytes(items[i + k].1) == headers[name][k]
            &&& 0 < k < headers[name].len() ==> items[i + k].0 is None
        }
    &&& forall|name: Seq<char>| #[trigger]
        headers.contains_key(name) ==> exists|i: int|
            0 <= i < items.len() && (#[trigger] items[i]).0 is Some && name_text(items[i].0->0)
                == name
    &&& forall|i: int, j: int|
        0 <= i < j < items.len() && (#[trigger] items[i]).0 is Some && (#[trigger] items[j]).0
            is Some ==> name_text(items[i].0->0) != name_text(items[j].0->0)
}

/// `HeaderMap::new`: no fields.
#[verifier::external_body]
pub(crate) fn new_headers() -> (headers: HeaderMap)
    ensures
        fields(headers) == (Map::<Seq<char>, Seq<Seq<u8>>>::empty()),
{
    HeaderMap::new()
}

/// `HeaderMap::try_insert`: the value takes the place of all that the name had, and the first of
/// these is handed back. The map refuses only when it cannot grow, which is not the case while it
/// has room. With more names it depends on its inner table, of which nothing is said.
#[verifier::external_body]
pub(crate) fn insert_header(headers: &mut HeaderMap, name: HeaderName, value: HeaderValue) -> (r:
    Result<Option<HeaderValue>, MaxSizeReached>)
    ensures
        has_room(fields(*old(headers))) ==> r is Ok,
        r is Ok ==> fields(*final(headers)) == with_value(
            fields(*old(headers)),
            name_text(name),
            value_bytes(value),
        ),
        match r {
            Ok(Some(first)) => fields(*old(headers)).contains_key(name_text(name)) && value_bytes(
                first,
            ) == fields(*old(headers))[name_text(name)][0],
            Ok(None) => !fields(*old(headers)).contains_key(name_text(name)),
            Err(_) => true,
        },
{
    headers.try_insert(name, value)
}

/// `HeaderMap::try_append`: the value goes behind those that the name has, and whether it had
/// any is handed back. The map refuses only when it cannot grow, which is not the case while it
/// has room. With more names it depends on its inner table, of which nothing is said.
#[verifier::external_body]
pub(crate) fn append_header(headers: &mut HeaderMap, name: HeaderName, value: HeaderValue) -> (r:
    Result<bool, MaxSizeReached>)
    ensures
        has_room(fields(*old(headers))) ==> r is Ok,
        r is Ok ==> fields(*final(headers)) == with_added_value(
            fields(*old(headers)),
            name_text(name),
            value_bytes(value),
        ),
        r matches Ok(present) ==> present == fields(*old(headers)).contains_key(name_text(name)),
{
    headers.try_append(name, value)
}

/// `HeaderMap::into_iter`: the fields, name by name.
#[verifier::external_body]
pub(crate) fn header_items(headers: HeaderMap) -> (items: Vec<(Option<HeaderName>, HeaderValue)>)
    ensures
        hands_out(items@, fields(headers)),
{
    headers.into_iter().collect()
}

/// `HeaderName::from_static`: the name with that text.
#[verifier::external_body]
pub(crate) fn header_name(name: &'static str) -> (header: HeaderName)
    requires
        0 < name@.len() < 64,
        forall|i: int|
            0 <= i < name@.len() ==> ('a' <= #[trigger] name@[i] && name@[i] <= 'z') || name@[i]
                == '-',
    ensures
        name_text(header) == name@,
{
    HeaderName::from_static(name)
}

/// `HeaderValue::from_static`: the value with the bytes of that text.
#[verifier::external_body]
pub(crate) fn static_value(text: &'static str) -> (value: HeaderValue)
    requires
        forall|i: int| 0 <= i < text@.len() ==> ' ' <= #[trigger] text@[i] && text@[i] <= '~',
    ensures
        value_bytes(value) == encode_utf8(text@),
{
    HeaderValue::from_static(text)
}

/// `HeaderValue::from_str`: the value with the bytes of that text, where they can be one.
#[verifier::external_body]
pub(crate) fn header_value(text: &str) -> (value: Result<HeaderValue, InvalidHeaderValue>)
    ensures
        match value {
            Ok(value) => is_header_value(encode_utf8(text@)) && value_bytes(value) == encode_utf8(
                text@,
            ),
            Err(_) => !is_header_value(encode_utf8(text@)),
        },
{
    HeaderValue::from_str(text)
}

} // verus!
