use vstd::prelude::*;

verus! {

/// `serde_json::Map`, a JSON object.
#[verifier::external_type_specification]
#[verifier::external_body]
#[verifier::reject_recursive_types(K)]
#[verifier::reject_recursive_types(V)]
pub struct ExJsonMap<K, V>(serde_json::Map<K, V>);

/// `serde_json::Value`, any JSON value.
#[verifier::external_type_specification]
#[verifier::external_body]
pub struct ExJsonValue(serde_json::Value);

/// The entries of a JSON object whose values are strings, by key.
pub uninterp spec fn json_strings(fields: serde_json::Map<String, serde_json::Value>) -> Map<
    Seq<char>,
    Seq<char>,
>;

/// No string entries at all.
pub open spec fn no_strings() -> Map<Seq<char>, Seq<char>> {
    Map::empty()
}

/// `serde_json::Map::new`: an object without entries.
#[verifier::external_body]
pub(crate) fn json_object_new() -> (r: serde_json::Map<String, serde_json::Value>)
    ensures
        json_strings(r) == no_strings(),
{
    serde_json::Map::new()
}

/// `Clone` for `serde_json::Map`: the copy is an object equal to the one
/// copied.
pub assume_specification[ <serde_json::Map<String, serde_json::Value> as Clone>::clone ](
    fields: &serde_json::Map<String, serde_json::Value>,
) -> (r: serde_json::Map<String, serde_json::Value>)
    ensures
        r == *fields,
;

/// `serde_json::Map::get`, for an entry that holds a string: the string
/// under `key`, or nothing where the object has no such key or holds
/// something other than a string under it.
#[verifier::external_body]
pub(crate) fn json_string_field<'a>(
    fields: &'a serde_json::Map<String, serde_json::Value>,
    key: &str,
) -> (r: Option<&'a str>)
    ensures
        r is Some <==> json_strings(*fields).contains_key(key@),
        r matches Some(s) ==> s@ == json_strings(*fields)[key@],
{
    match fields.get(key) {
        Some(serde_json::Value::String(s)) => Some(s.as_str()),
        _ => None,
    }
}

} // verus!
