//! JSON documents: the model that contracts speak of, and the calls into
//! `serde_json` that build and render them.

use vstd::prelude::*;

verus! {

/// What a JSON value holds.
pub enum JsonDoc {
    Null,
    Bool(bool),
    /// A whole number.
    Integer(int),
    /// Any other number, by the 64 bits that hold it.
    Fraction(u64),
    Text(Seq<char>),
    Array(Seq<JsonDoc>),
    /// The members of an object, by their keys.
    Object(Map<Seq<char>, JsonDoc>),
}

impl JsonDoc {
    /// Whether the document is an object with a member under `key`.
    pub open spec fn has_member(self, key: Seq<char>) -> bool {
        self is Object && self->Object_0.contains_key(key)
    }

    /// The member of an object under `key`.
    pub open spec fn member(self, key: Seq<char>) -> JsonDoc
        recommends
            self.has_member(key),
    {
        self->Object_0[key]
    }
}

/// An object with one member.
pub open spec fn tagged(tag: Seq<char>, content: JsonDoc) -> JsonDoc {
    JsonDoc::Object(Map::empty().insert(tag, content))
}

#[verifier::external_type_specification]
#[verifier::external_body]
pub struct ExJsonValue(serde_json::Value);

/// The document that a `serde_json::Value` holds.
pub uninterp spec fn json_doc(value: serde_json::Value) -> JsonDoc;

/// The compact text that `serde_json` renders a document to.
pub uninterp spec fn json_text(doc: JsonDoc) -> Seq<char>;

/// Calls `serde_json::Value::from` on a `bool`, which gives `Value::Bool`.
/// Trusted: the result holds that boolean.
#[verifier::external_body]
pub(crate) fn json_bool(value: bool) -> (json: serde_json::Value)
    ensures
        json_doc(json) == JsonDoc::Bool(value),
{
    serde_json::Value::from(value)
}

/// Calls `serde_json::Value::from` on an `i64`, which gives `Value::Number`.
/// Trusted: the result holds that whole number.
#[verifier::external_body]
pub(crate) fn json_integer(value: i64) -> (json: serde_json::Value)
    ensures
        json_doc(json) == JsonDoc::Integer(value as int),
{
    serde_json::Value::from(value)
}

/// Calls `serde_json::Value::from` on a `&str`, which gives `Value::String`.
/// Trusted: the result holds that text.
#[verifier::external_body]
pub(crate) fn json_string(value: &str) -> (json: serde_json::Value)
    ensures
        json_doc(json) == JsonDoc::Text(value@),
{
    serde_json::Value::from(value)
}

/// Makes a `serde_json::Value::Object` of `serde_json::Map::new()`.
/// Trusted: the result is an object without members.
#[verifier::external_body]
pub(crate) fn json_object() -> (json: serde_json::Value)
    ensures
        json_doc(json) == JsonDoc::Object(Map::empty()),
{
    serde_json::Value::Object(serde_json::Map::new())
}

/// Assigns through `serde_json::Value`'s `IndexMut` by a string key, which
/// panics on a value that is neither an object nor null. Trusted: in an
/// object the key then stands for `member`, and the other members stay.
#[verifier::external_body]
pub(crate) fn json_set(object: &mut serde_json::Value, key: &str, member: serde_json::Value)
    requires
        json_doc(*old(object)) is Object,
    ensures
        json_doc(*final(object)) == JsonDoc::Object(
            json_doc(*old(object))->Object_0.insert(key@, json_doc(member)),
        ),
{
    object[key] = member;
}

/// Calls `to_string` on a `serde_json::Value`: its `Display`, which writes
/// the compact form. Trusted: the text depends on the document alone.
#[verifier::external_body]
pub(crate) fn json_render(json: &serde_json::Value) -> (text: String)
    ensures
        text@ == json_text(json_doc(*json)),
{
    json.to_string()
}

/// A value that holds the document `tagged(tag, content)`.
pub(crate) fn json_tagged(tag: &str, content: serde_json::Value) -> (json: serde_json::Value)
    ensures
        json_doc(json) == tagged(tag@, json_doc(content)),
{
    let mut json = json_object();
    json_set(&mut json, tag, content);
    json
}

} // verus!
