//! The boundary to `serde_json`.
//!
//! Everything in this module that touches a `serde_json` value is trusted:
//! Verus reads the contracts below and not the code behind them. The rest of
//! the crate builds JSON values and text only through these functions, and
//! reasons about them through the mathematical model [`Json`].

use vstd::prelude::*;

verus! {

/// What a JSON number holds.
pub enum JsonNumber {
    /// A whole number, as `serde_json` keeps every value that fits `u64` or `i64`.
    Integer(int),
    /// A finite double, by its IEEE 754 bit pattern.
    Real(u64),
}

/// The entries of a JSON object: unique keys, each with its document.
pub type Entries = Map<Seq<char>, Json>;

/// A JSON document as a mathematical value. An object is a map: its keys are
/// unique and carry no order.
pub enum Json {
    Null,
    Bool(bool),
    Number(JsonNumber),
    Text(Seq<char>),
    List(Seq<Json>),
    Object(Entries),
}

/// `serde_json::Value`, a JSON value. Nothing inside it is visible here;
/// [`json_of`] names what it holds.
#[verifier::external_type_specification]
#[verifier::external_body]
pub struct ExValue(serde_json::Value);

/// `serde_json::Map`, the map behind a JSON object. Nothing inside it is
/// visible here; [`object_of`] names what it holds.
#[verifier::external_type_specification]
#[verifier::external_body]
#[verifier::reject_recursive_types(K)]
#[verifier::reject_recursive_types(V)]
pub struct ExObject<K, V>(serde_json::Map<K, V>);

/// `serde_json::Error`, carried as it is.
#[verifier::external_type_specification]
#[verifier::external_body]
pub struct ExJsonError(serde_json::Error);

/// The document that a `serde_json::Value` holds, variant for variant:
/// `Null`, `Bool`, `Number`, `String` (as `Text`), `Array` (as `List`, item by
/// item) and `Object` (by [`object_of`]).
pub uninterp spec fn json_of(value: serde_json::Value) -> Json;

/// The entries of a `serde_json::Map`: each key that it holds, with the
/// document of the value stored under it.
pub uninterp spec fn object_of(object: serde_json::Map<String, serde_json::Value>) -> Entries;

/// The compact text that `serde_json::to_string` writes for a document, or
/// `None` where it reports an error instead.
pub uninterp spec fn json_text(document: Json) -> Option<Seq<char>>;

/// The JSON object without entries.
pub open spec fn empty_object() -> Json {
    Json::Object(Entries::empty())
}

/// The text of the JSON object without entries: an opening and a closing
/// brace.
pub open spec fn empty_object_text() -> Seq<char> {
    "{}"@
}

/// `serde_json::Map::new`: a map without entries.
#[verifier::external_body]
pub(crate) fn object_new() -> (created: serde_json::Map<String, serde_json::Value>)
    ensures
        object_of(created) == Entries::empty(),
{
    serde_json::Map::new()
}

/// `serde_json::Map::insert`: afterwards `key` maps to `value`, whether or
/// not the key was present before, and every other entry is as it was. The
/// value that the call hands back is dropped.
#[verifier::external_body]
pub(crate) fn object_insert(
    object: &mut serde_json::Map<String, serde_json::Value>,
    key: String,
    value: serde_json::Value,
)
    ensures
        object_of(*final(object)) == object_of(*old(object)).insert(key@, json_of(value)),
{
    object.insert(key, value);
}

/// `serde_json::Value::Object`: the JSON object with exactly the map's entries.
#[verifier::external_body]
pub(crate) fn json_object(
    object: serde_json::Map<String, serde_json::Value>,
) -> (value: serde_json::Value)
    ensures
        json_of(value) == Json::Object(object_of(object)),
{
    serde_json::Value::Object(object)
}

/// `serde_json::Value::clone`: a value that holds the same document.
#[verifier::external_body]
pub(crate) fn json_clone(value: &serde_json::Value) -> (copy: serde_json::Value)
    ensures
        json_of(copy) == json_of(*value),
{
    value.clone()
}

/// `serde_json::to_string` on a `serde_json::Value`: the text depends on the
/// document alone (an object's entries are written in the order of their
/// keys), and the empty object is written as `{}`, without error.
#[verifier::external_body]
pub(crate) fn json_to_string(
    value: &serde_json::Value,
) -> (written: Result<String, serde_json::Error>)
    ensures
        written is Ok <==> json_text(json_of(*value)) is Some,
        written matches Ok(text) ==> json_text(json_of(*value)) == Some(text@),
        json_of(*value) == empty_object() ==> written is Ok,
        json_of(*value) == empty_object() ==> written->Ok_0@ == empty_object_text(),
{
    serde_json::to_string(value)
}

} // verus!
