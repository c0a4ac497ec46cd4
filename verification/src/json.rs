//! JSON documents. Reading and writing JSON text is `serde_json`'s work; this
//! module says what the library relies on from it. Nothing in this file is
//! proved: each function below hands its arguments to `serde_json`, and its
//! contract is taken from that crate's source and documentation.

use vstd::prelude::*;

verus! {

/// A JSON document as a mathematical value.
pub enum Json {
    Null,
    Bool(bool),
    /// A number: the characters that `serde_json` writes for it, and the bit
    /// pattern of the double-precision number that `serde_json` takes it for.
    Number { written: Seq<char>, bits: u64 },
    String(Seq<char>),
    Array(Seq<Json>),
    /// An object: each name occurs once, and the members have no order of
    /// their own.
    Object(Map<Seq<char>, Json>),
}

impl Json {
    /// The member called `name`, where this is an object that has one.
    pub open spec fn member(self, name: Seq<char>) -> Option<Json> {
        match self {
            Json::Object(members) => if members.contains_key(name) {
                Some(members[name])
            } else {
                None
            },
            _ => None,
        }
    }
}

/// `serde_json::Value`, the document type of `serde_json`.
#[verifier::external_type_specification]
#[verifier::external_body]
pub struct ExValue(serde_json::Value);

/// `serde_json::Error`, what `serde_json` reports when it cannot read a text.
#[verifier::external_type_specification]
#[verifier::external_body]
pub struct ExError(serde_json::Error);

/// The document that a `serde_json::Value` holds.
pub uninterp spec fn document_of(value: serde_json::Value) -> Json;

/// What `serde_json::Error` prints: the message of a failed reading.
pub uninterp spec fn message_of(error: serde_json::Error) -> Seq<char>;

/// What `serde_json::from_slice` makes of a text: the document that the text
/// denotes, or the message that says why it denotes none.
pub uninterp spec fn json_parse(text: Seq<u8>) -> Result<Json, Seq<char>>;

/// What `serde_json` writes for a document, in its compact form.
pub uninterp spec fn json_text(document: Json) -> Seq<char>;

/// Whether `name` is among `names`.
pub open spec fn lists(names: Seq<String>, name: Seq<char>) -> bool {
    exists|i: int| 0 <= i < names.len() && (#[trigger] names[i])@ == name
}

/// `serde_json::from_slice`, reading a `Value`. The same bytes always give
/// the same outcome, which `json_parse` names: a value holding the document
/// read, or an error printing the message.
#[verifier::external_body]
pub(crate) fn parse(text: &[u8]) -> (r: Result<serde_json::Value, serde_json::Error>)
    ensures
        match r {
            Ok(value) => json_parse(text@) == Ok::<Json, Seq<char>>(document_of(value)),
            Err(error) => json_parse(text@) == Err::<Json, Seq<char>>(message_of(error)),
        },
{
    serde_json::from_slice::<serde_json::Value>(text)
}

/// `ToString::to_string` on a `serde_json::Error`: the text that the error
/// prints.
#[verifier::external_body]
pub(crate) fn message(error: &serde_json::Error) -> (s: String)
    ensures
        s@ == message_of(*error),
{
    error.to_string()
}

/// `Value::get` with a string: the member of that name if the value is an
/// object that has one, and nothing otherwise.
#[verifier::external_body]
pub(crate) fn member<'a>(value: &'a serde_json::Value, name: &str) -> (r: Option<
    &'a serde_json::Value,
>)
    ensures
        match r {
            Some(found) => document_of(*value).member(name@) == Some(document_of(*found)),
            None => document_of(*value).member(name@) is None,
        },
{
    value.get(name)
}

/// `Value::as_object` and `Map::keys`: the names of an object's members,
/// each of them and nothing else, or nothing if the value is no object.
#[verifier::external_body]
pub(crate) fn member_names(value: &serde_json::Value) -> (r: Option<Vec<String>>)
    ensures
        match r {
            Some(names) => document_of(*value) matches Json::Object(members) && forall|
                name: Seq<char>,
            |
                members.contains_key(name) <==> lists(names@, name),
            None => !(document_of(*value) is Object),
        },
{
    match value.as_object() {
        Some(members) => Some(members.keys().cloned().collect()),
        None => None,
    }
}

/// `Value::as_str`: the characters of a JSON string, or nothing if the value
/// is no string.
#[verifier::external_body]
pub(crate) fn text_of<'a>(value: &'a serde_json::Value) -> (r: Option<&'a str>)
    ensures
        match r {
            Some(text) => document_of(*value) == Json::String(text@),
            None => !(document_of(*value) is String),
        },
{
    value.as_str()
}

/// `Value::as_f64`, handing out the bits of the double: every JSON number
/// has one, and a value that is no number has none.
#[verifier::external_body]
pub(crate) fn number_of(value: &serde_json::Value) -> (r: Option<u64>)
    ensures
        match r {
            Some(found) => document_of(*value) matches Json::Number { bits, .. } && bits == found,
            None => !(document_of(*value) is Number),
        },
{
    match value.as_f64() {
        Some(number) => Some(number.to_bits()),
        None => None,
    }
}

/// `Value::String`: the JSON string with the characters of `text`.
#[verifier::external_body]
pub(crate) fn string_value(text: &str) -> (value: serde_json::Value)
    ensures
        document_of(value) == Json::String(text@),
{
    serde_json::Value::String(text.to_owned())
}

/// `Value::Bool`: the JSON truth value `flag`.
#[verifier::external_body]
pub(crate) fn bool_value(flag: bool) -> (value: serde_json::Value)
    ensures
        document_of(value) == Json::Bool(flag),
{
    serde_json::Value::Bool(flag)
}

/// `Value::Array`: the JSON array of the documents in `items`, in their
/// order.
#[verifier::external_body]
pub(crate) fn array_value(items: Vec<serde_json::Value>) -> (value: serde_json::Value)
    ensures
        document_of(value) == Json::Array(
            items@.map_values(|item: serde_json::Value| document_of(item)),
        ),
{
    serde_json::Value::Array(items)
}

/// `Value::Object` of `Map::new`: the JSON object without members.
#[verifier::external_body]
pub(crate) fn empty_object() -> (value: serde_json::Value)
    ensures
        document_of(value) == Json::Object(Map::empty()),
{
    serde_json::Value::Object(serde_json::Map::new())
}

/// `Value::as_object_mut` and `Map::insert`: afterwards the object has the
/// member `name` with the document of `member`, in place of an earlier member
/// of that name, and its other members as before. On anything but an object
/// the call panics, so only objects are admitted.
#[verifier::external_body]
pub(crate) fn set_member(object: &mut serde_json::Value, name: &str, member: serde_json::Value)
    requires
        document_of(*old(object)) is Object,
    ensures
        document_of(*final(object)) == Json::Object(
            document_of(*old(object))->Object_0.insert(name@, document_of(member)),
        ),
{
    object.as_object_mut().unwrap().insert(name.to_owned(), member);
}

/// `ToString::to_string` on a `Value`: the compact JSON text of the
/// document. `serde_json` keeps an object's members sorted by name, so the
/// text depends on the document alone.
#[verifier::external_body]
pub(crate) fn render(value: &serde_json::Value) -> (s: String)
    ensures
        s@ == json_text(document_of(*value)),
{
    value.to_string()
}

} // verus!
