//! JSON documents as `serde_json` holds them, and what the router asks of that crate.
//!
//! A `serde_json::Value` is opaque to the verifier. [`json`] names the document it holds and
//! [`members`] names the members of a `serde_json::Map`; every contract on a document is stated
//! over these two.
use serde_json::Value;
use vstd::prelude::*;

verus! {

/// A JSON document as a mathematical value.
#[verifier::ext_equal]
pub ghost enum Json {
    Null,
    Bool(bool),
    /// A number that is held as a 64-bit integer.
    Integer(int),
    /// A number that is held as a double, by the bits of that double.
    Double(u64),
    Text(Seq<char>),
    Array(Seq<Json>),
    Object(Map<Seq<char>, Json>),
}

impl Json {
    /// The member called `key`; null where there is none.
    pub open spec fn at(self, key: Seq<char>) -> Json {
        match self {
            Json::Object(fields) => if fields.contains_key(key) {
                fields[key]
            } else {
                Json::Null
            },
            _ => Json::Null,
        }
    }

    /// The items of an array; none for any other document.
    pub open spec fn items(self) -> Seq<Json> {
        match self {
            Json::Array(items) => items,
            _ => Seq::empty(),
        }
    }

    /// The members of an object; none for any other document.
    pub open spec fn fields(self) -> Map<Seq<char>, Json> {
        match self {
            Json::Object(fields) => fields,
            _ => Map::empty(),
        }
    }
}

/// `serde_json::Value`, carried as an opaque value.
#[verifier::external_type_specification]
#[verifier::external_body]
pub struct ExValue(serde_json::Value);

/// `serde_json::Map`, carried as an opaque value.
#[verifier::external_type_specification]
#[verifier::external_body]
#[verifier::reject_recursive_types(K)]
#[verifier::reject_recursive_types(V)]
pub struct ExMap<K, V>(serde_json::Map<K, V>);

/// `serde_json::Error`, carried as an opaque value.
#[verifier::external_type_specification]
#[verifier::external_body]
pub struct ExJsonError(serde_json::Error);

/// The document that a `serde_json::Value` holds.
pub uninterp spec fn json(value: serde_json::Value) -> Json;

/// The members that a `serde_json::Map` holds, by name.
pub uninterp spec fn members(object: serde_json::Map<String, serde_json::Value>) -> Map<
    Seq<char>,
    Json,
>;

/// The compact text that `serde_json::to_string` gives for a document.
pub uninterp spec fn printed(document: Json) -> Seq<char>;

/// The text that the `Display` of `serde_json::Value` gives for a document.
pub uninterp spec fn displayed(document: Json) -> Seq<char>;

/// The document that `serde_json::from_str` reads from a text; `None` where it fails.
pub uninterp spec fn parsed(text: Seq<char>) -> Option<Json>;

/// The number of arrays and objects within each other that `serde_json` reads.
pub open spec fn max_depth() -> nat {
    127
}

/// `document` can be written and read again without loss: it holds no doubles, which are read
/// with less than their full precision, and no more than `depth` arrays and objects stand within
/// each other.
pub open spec fn reads_back(document: Json, depth: nat) -> bool
    decreases depth,
{
    match document {
        Json::Double(_) => false,
        Json::Array(items) => depth > 0 && forall|i: int|
            0 <= i < items.len() ==> reads_back(#[trigger] items[i], (depth - 1) as nat),
        Json::Object(fields) => depth > 0 && forall|key: Seq<char>| #[trigger]
            fields.contains_key(key) ==> reads_back(fields[key], (depth - 1) as nat),
        _ => true,
    }
}

/// The documents held by a sequence of values.
pub open spec fn documents(values: Seq<Value>) -> Seq<Json> {
    values.map_values(|value: Value| json(value))
}

/// `list` holds each of `fields` once, and nothing else.
pub open spec fn lists_members(
    list: Seq<(&String, &Value)>,
    fields: Map<Seq<char>, Json>,
) -> bool {
    &&& forall|i: int|
        0 <= i < list.len() ==> fields.contains_key((#[trigger] list[i]).0@) && fields[list[i].0@]
            == json(*list[i].1)
    &&& forall|key: Seq<char>| #[trigger]
        fields.contains_key(key) ==> exists|i: int|
            0 <= i < list.len() && (#[trigger] list[i]).0@ == key
    &&& forall|i: int, j: int|
        0 <= i < j < list.len() ==> (#[trigger] list[i]).0@ != (#[trigger] list[j]).0@
}

/// `Value::clone`: the copy holds the same document.
pub assume_specification[ <Value as Clone>::clone ](value: &Value) -> (copy: Value)
    ensures
        json(copy) == json(*value),
;

/// `Value::as_array`: the items of an array, and `None` for any other document.
pub assume_specification[ Value::as_array ](value: &Value) -> (array: Option<&Vec<Value>>)
    ensures
        match array {
            Some(items) => json(*value) == Json::Array(documents(items@)),
            None => !(json(*value) is Array),
        },
;

/// `Value::as_object`: the members of an object, and `None` for any other document.
pub assume_specification[ Value::as_object ](value: &Value) -> (object: Option<
    &serde_json::Map<String, Value>,
>)
    ensures
        match object {
            Some(fields) => json(*value) == Json::Object(members(*fields)),
            None => !(json(*value) is Object),
        },
;

/// `Value::as_object_mut`: the members of an object, to be changed in place, and `None` for any
/// other document, which stays as it is.
pub assume_specification[ Value::as_object_mut ](value: &mut Value) -> (object: Option<
    &mut serde_json::Map<String, Value>,
>)
    ensures
        match object {
            Some(fields) => {
                &&& json(*old(value)) == Json::Object(members(*fields))
                &&& json(*final(value)) == Json::Object(members(*final(fields)))
            },
            None => !(json(*old(value)) is Object) && json(*final(value)) == json(*old(value)),
        },
;

/// `serde_json::Map::new`: no members.
pub assume_specification[ serde_json::Map::<String, Value>::new ]() -> (object: serde_json::Map<
    String,
    Value,
>)
    ensures
        members(object) == (Map::<Seq<char>, Json>::empty()),
;

/// `serde_json::Map::insert`: the member is there afterwards, in place of an earlier one of that
/// name, which is handed back.
pub assume_specification[ serde_json::Map::<String, Value>::insert ](
    object: &mut serde_json::Map<String, Value>,
    k: String,
    v: Value,
) -> (previous: Option<Value>)
    ensures
        members(*final(object)) == members(*old(object)).insert(k@, json(v)),
        match previous {
            Some(value) => members(*old(object)).contains_key(k@) && json(value) == members(
                *old(object),
            )[k@],
            None => !members(*old(object)).contains_key(k@),
        },
;

/// `serde_json::Map::iter`: each member once.
#[verifier::external_body]
pub(crate) fn entries(object: &serde_json::Map<String, Value>) -> (list: Vec<(&String, &Value)>)
    ensures
        lists_members(list@, members(*object)),
{
    object.iter().collect()
}

/// Indexing a `Value` by a string: the member of that name, and null where there is none or the
/// document is no object.
#[verifier::external_body]
pub(crate) fn value_at<'a>(value: &'a Value, key: &str) -> (member: &'a Value)
    ensures
        json(*member) == json(*value).at(key@),
{
    &value[key]
}

/// `==` between a `Value` and a `String`: true of the string with that text alone.
#[verifier::external_body]
pub(crate) fn is_text(value: &Value, text: &String) -> (same: bool)
    ensures
        same == (json(*value) == Json::Text(text@)),
{
    *value == *text
}

/// `Value::from` of a `String`.
#[verifier::external_body]
pub(crate) fn text_value(text: String) -> (value: Value)
    ensures
        json(value) == Json::Text(text@),
{
    Value::from(text)
}

/// `Value::from` of a `u64`.
#[verifier::external_body]
pub(crate) fn integer_value(number: u64) -> (value: Value)
    ensures
        json(value) == Json::Integer(number as int),
{
    Value::from(number)
}

/// `Value::from` of a vector of values.
#[verifier::external_body]
pub(crate) fn array_value(items: Vec<Value>) -> (value: Value)
    ensures
        json(value) == Json::Array(documents(items@)),
{
    Value::from(items)
}

/// `Value::from` of a map.
#[verifier::external_body]
pub(crate) fn object_value(object: serde_json::Map<String, Value>) -> (value: Value)
    ensures
        json(value) == Json::Object(members(object)),
{
    Value::from(object)
}

/// `serde_json::to_string`: its result is a function of the document, named [`printed`]. The text
/// goes to memory and every key is a string, so it does not fail. `serde_json::from_str` reads
/// the same document from it, where that can be read without loss.
#[verifier::external_body]
pub(crate) fn print_json(value: &Value) -> (text: Result<String, serde_json::Error>)
    ensures
        match text {
            Ok(text) => {
                &&& text@ == printed(json(*value))
                &&& reads_back(json(*value), max_depth()) ==> parsed(text@) == Some(json(*value))
            },
            Err(_) => false,
        },
{
    serde_json::to_string(value)
}

/// The `Display` of `Value`: its text is a function of the document, named [`displayed`].
/// `serde_json::from_str` reads the same document from it, where that can be read without loss.
#[verifier::external_body]
pub(crate) fn display_json(value: &Value) -> (text: String)
    ensures
        text@ == displayed(json(*value)),
        reads_back(json(*value), max_depth()) ==> parsed(text@) == Some(json(*value)),
{
    value.to_string()
}

/// `serde_json::from_str` into a `Value`: its result is a function of the text, named
/// [`parsed`].
#[verifier::external_body]
pub(crate) fn parse_json(text: &str) -> (value: Result<Value, serde_json::Error>)
    ensures
        match value {
            Ok(value) => parsed(text@) == Some(json(value)),
            Err(_) => parsed(text@) is None,
        },
{
    serde_json::from_str(text)
}

} // verus!
