//! JSON values of `serde_json`, which requests carry through unread, and the
//! `serde_json::Map` that holds the provider-specific extra fields.

use vstd::prelude::*;

verus! {

/// `serde_json::Value`: a JSON document the library carries without reading it.
#[verifier::external_type_specification]
#[verifier::external_body]
pub struct ExJsonValue(serde_json::Value);

/// `serde_json::Error`: the error of a JSON parse or serialisation.
#[verifier::external_type_specification]
#[verifier::external_body]
pub struct ExJsonError(serde_json::Error);

/// `serde_json::Map`: the object type of `serde_json`.
#[verifier::external_type_specification]
#[verifier::external_body]
#[verifier::reject_recursive_types(K)]
#[verifier::reject_recursive_types(V)]
pub struct ExJsonMap<K, V>(serde_json::Map<K, V>);

/// `<serde_json::Value as Clone>::clone` (derived): a copy equal to the
/// value it was made from.
pub assume_specification[ <serde_json::Value as Clone>::clone ](v: &serde_json::Value) -> (r: serde_json::Value)
    ensures
        r == *v,
;

/// The entries of a JSON object, by key.
pub uninterp spec fn json_map_entries(
    m: serde_json::Map<String, serde_json::Value>,
) -> Map<Seq<char>, serde_json::Value>;

/// `<serde_json::Map<String, Value> as Clone>::clone`: a copy with the same
/// entries.
pub assume_specification[ <serde_json::Map<String, serde_json::Value> as Clone>::clone ](
    m: &serde_json::Map<String, serde_json::Value>,
) -> (r: serde_json::Map<String, serde_json::Value>)
    ensures
        json_map_entries(r) == json_map_entries(*m),
;

/// `serde_json::Map::new`: an object with no entries.
#[verifier::external_body]
pub(crate) fn json_map_new() -> (fresh: serde_json::Map<String, serde_json::Value>)
    ensures
        json_map_entries(fresh) =~= Map::empty(),
{
    serde_json::Map::new()
}

/// `serde_json::Map::insert`: sets the entry of `key` to `value`, replacing
/// the one it had, if any.
#[verifier::external_body]
pub(crate) fn json_map_insert(
    m: &mut serde_json::Map<String, serde_json::Value>,
    key: String,
    value: serde_json::Value,
)
    ensures
        json_map_entries(*final(m)) == json_map_entries(*old(m)).insert(key@, value),
{
    m.insert(key, value);
}

/// The compact JSON text of a value, as `serde_json` writes it.
pub uninterp spec fn json_text(v: serde_json::Value) -> Seq<char>;

/// `<serde_json::Value as Display>::to_string`: the compact JSON text of `v`.
/// Claimed: the text is a function of the value alone.
#[verifier::external_body]
pub(crate) fn json_value_text(v: &serde_json::Value) -> (r: String)
    ensures
        r@ == json_text(*v),
{
    v.to_string()
}

/// The JSON document that `text` writes, if it writes one.
pub uninterp spec fn json_parse(text: Seq<char>) -> Option<serde_json::Value>;

/// The member `key` of a JSON object; none when the value is not an object
/// or has no such member.
pub uninterp spec fn json_member(v: serde_json::Value, key: Seq<char>) -> Option<serde_json::Value>;

/// The text of a JSON string; none for any other value.
pub uninterp spec fn json_as_text(v: serde_json::Value) -> Option<Seq<char>>;

/// The elements of a JSON array; none for any other value.
pub uninterp spec fn json_elements(v: serde_json::Value) -> Option<Seq<serde_json::Value>>;

/// `serde_json::from_str::<Value>`: the document that `text` writes, or
/// the parse error when the text is not well-formed JSON. Claimed: whether it
/// succeeds, and the document, are functions of the text.
#[verifier::external_body]
pub(crate) fn parse_json(text: &str) -> (r: core::result::Result<serde_json::Value, serde_json::Error>)
    ensures
        match r {
            Ok(v) => json_parse(text@) == Some(v),
            Err(_) => json_parse(text@) is None,
        },
{
    serde_json::from_str(text)
}

/// `Value::get` with a string key: the member `key` of an object, and none
/// for any other value.
#[verifier::external_body]
pub(crate) fn json_get<'a>(v: &'a serde_json::Value, key: &str) -> (r: Option<&'a serde_json::Value>)
    ensures
        match r {
            Some(m) => json_member(*v, key@) == Some(*m),
            None => json_member(*v, key@) is None,
        },
{
    v.get(key)
}

/// `Value::as_str`: the text of a string, and none for any other value.
#[verifier::external_body]
pub(crate) fn json_str(v: &serde_json::Value) -> (r: Option<&str>)
    ensures
        match r {
            Some(t) => json_as_text(*v) == Some(t@),
            None => json_as_text(*v) is None,
        },
{
    v.as_str()
}

/// `Value::as_array`: the elements of an array, and none for any other
/// value.
#[verifier::external_body]
pub(crate) fn json_array(v: &serde_json::Value) -> (r: Option<&Vec<serde_json::Value>>)
    ensures
        match r {
            Some(a) => json_elements(*v) == Some(a@),
            None => json_elements(*v) is None,
        },
{
    v.as_array()
}

/// The text of the member `key` of `v`, when that member is a string.
pub open spec fn json_text_member(v: serde_json::Value, key: Seq<char>) -> Option<Seq<char>> {
    match json_member(v, key) {
        Some(m) => json_as_text(m),
        None => None,
    }
}

/// The text of the member `key` of `v`, when that member is a string.
pub(crate) fn text_member<'a>(v: &'a serde_json::Value, key: &str) -> (r: Option<&'a str>)
    ensures
        match r {
            Some(t) => json_text_member(*v, key@) == Some(t@),
            None => json_text_member(*v, key@) is None,
        },
{
    match json_get(v, key) {
        Some(m) => json_str(m),
        None => None,
    }
}

} // verus!
