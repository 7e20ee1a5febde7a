use vstd::prelude::*;

verus! {

/// What a JSON value is. An object is a map from keys to values: the order
/// of its members is no part of it.
pub enum Json {
    Null,
    Bool(bool),
    /// A number, held as the text that stands for it.
    Number(Seq<char>),
    Text(Seq<char>),
    Array(Seq<Json>),
    Object(Map<Seq<char>, Json>),
}

/// `serde_json::Value`, a JSON value in memory. Nothing of its inside is
/// known but through `json_of`.
#[verifier::external_type_specification]
#[verifier::external_body]
pub struct ExValue(serde_json::Value);

/// `serde_json::Error`, of which nothing is known.
#[verifier::external_type_specification]
#[verifier::external_body]
pub struct ExError(serde_json::Error);

/// What a `serde_json::Value` holds.
pub uninterp spec fn json_of(value: serde_json::Value) -> Json;

/// The value that `serde_json::from_str` reads from a text, or `None` where
/// it reports an error.
pub uninterp spec fn parsed_json(text: Seq<char>) -> Option<Json>;

/// The text that `serde_json::to_string` writes for a value, or `None` where
/// it reports an error.
pub uninterp spec fn rendered_json(json: Json) -> Option<Seq<char>>;

/// What each of a run of values holds, in the same order.
pub open spec fn jsons_of(values: Seq<serde_json::Value>) -> Seq<Json> {
    values.map_values(|v: serde_json::Value| json_of(v))
}

/// No two of the entries have the same key.
pub open spec fn distinct_keys(entries: Seq<(String, serde_json::Value)>) -> bool {
    forall|i: int, j: int|
        0 <= i < j < entries.len() ==> (#[trigger] entries[i]).0@ != (#[trigger] entries[j]).0@
}

/// The map that takes each entry's key to what the entry's value holds.
pub open spec fn members_of(entries: Seq<(String, serde_json::Value)>) -> Map<Seq<char>, Json>
    decreases entries.len(),
{
    if entries.len() == 0 {
        Map::empty()
    } else {
        members_of(entries.drop_last()).insert(entries.last().0@, json_of(entries.last().1))
    }
}

/// Reads a JSON text.
///
/// Trusted: calls `serde_json::from_str` for a `Value`. The contract names
/// the outcome `parsed_json` of the text: which value is read, and for which
/// texts an error comes back, is the parser's business and is not stated
/// here.
#[verifier::external_body]
pub(crate) fn parse_value(text: &str) -> (res: Result<serde_json::Value, serde_json::Error>)
    ensures
        match parsed_json(text@) {
            Some(json) => res is Ok && json_of(res->Ok_0) == json,
            None => res is Err,
        },
{
    serde_json::from_str::<serde_json::Value>(text)
}

/// Writes a value as compact JSON text.
///
/// Trusted: calls `serde_json::to_string`. The contract names the outcome
/// `rendered_json` of what the value holds; this relies on objects being
/// kept sorted by key, as `serde_json` does by default, so that the text
/// does not depend on the order in which members were added.
#[verifier::external_body]
pub(crate) fn render_value(value: &serde_json::Value) -> (res: Result<String, serde_json::Error>)
    ensures
        match rendered_json(json_of(*value)) {
            Some(text) => res is Ok && res->Ok_0@ == text,
            None => res is Err,
        },
{
    serde_json::to_string(value)
}

/// The member of an object under a key.
///
/// Trusted: calls `Value::get` with a string key, which yields the member
/// if the value is an object that has the key and `None` in every other
/// case.
#[verifier::external_body]
pub(crate) fn value_get<'a>(value: &'a serde_json::Value, key: &str) -> (res: Option<
    &'a serde_json::Value,
>)
    ensures
        match json_of(*value) {
            Json::Object(members) if members.contains_key(key@) => res is Some && json_of(
                *res->Some_0,
            ) == members[key@],
            _ => res is None,
        },
{
    value.get(key)
}

/// The text of a string value.
///
/// Trusted: calls `Value::as_str`, which yields the text if the value is a
/// string and `None` otherwise.
#[verifier::external_body]
pub(crate) fn value_as_str<'a>(value: &'a serde_json::Value) -> (res: Option<&'a str>)
    ensures
        match json_of(*value) {
            Json::Text(text) => res is Some && res->Some_0@ == text,
            _ => res is None,
        },
{
    value.as_str()
}

/// The elements of an array value.
///
/// Trusted: calls `Value::as_array`, which yields the vector of elements if
/// the value is an array and `None` otherwise.
#[verifier::external_body]
pub(crate) fn value_as_array<'a>(value: &'a serde_json::Value) -> (res: Option<
    &'a Vec<serde_json::Value>,
>)
    ensures
        match json_of(*value) {
            Json::Array(items) => res is Some && jsons_of(res->Some_0@) == items,
            _ => res is None,
        },
{
    value.as_array()
}

/// The string value that holds `text`.
///
/// Trusted: calls `Value::from` on a `String`, which makes it a
/// `Value::String`.
#[verifier::external_body]
pub(crate) fn value_text(text: String) -> (value: serde_json::Value)
    ensures
        json_of(value) == Json::Text(text@),
{
    serde_json::Value::from(text)
}

/// The array value that holds `items`, in their order.
///
/// Trusted: calls `Value::from` on a `Vec` of values, which makes it a
/// `Value::Array` of the same elements in the same order.
#[verifier::external_body]
pub(crate) fn value_array(items: Vec<serde_json::Value>) -> (value: serde_json::Value)
    ensures
        json_of(value) == Json::Array(jsons_of(items@)),
{
    serde_json::Value::from(items)
}

/// The object value whose members are `entries`.
///
/// Trusted: calls `Value::from_iter` on the pairs of key and value, which
/// makes a `Value::Object` by collecting them into a map. Keys have to be
/// distinct: of two entries under one key the map keeps one only.
#[verifier::external_body]
pub(crate) fn value_object(entries: Vec<(String, serde_json::Value)>) -> (value:
    serde_json::Value)
    requires
        distinct_keys(entries@),
    ensures
        json_of(value) == Json::Object(members_of(entries@)),
{
    serde_json::Value::from_iter(entries)
}

} // verus!
