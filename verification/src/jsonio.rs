use vstd::prelude::*;
use crate::session::ContentModule;

verus! {

#[verifier::external_type_specification]
#[verifier::external_body]
pub struct ExValue(serde_json::Value);

/// The string held by a top-level field of a JSON document, if the
/// document parses and the field holds a string.
pub uninterp spec fn json_field_str(body: Seq<char>, key: Seq<char>) -> Option<Seq<char>>;

/// Relies on serde_json's `from_str`, `Value::get` and `Value::as_str`:
/// whether a top-level field of a document holds a string, and which
/// string, is a function of the document text and the key alone.
#[verifier::external_body]
pub fn lookup_string_field(body: &str, key: &str) -> (r: Option<String>)
    ensures
        r is Some <==> json_field_str(body@, key@) is Some,
        r matches Some(s) ==> s@ == json_field_str(body@, key@)->0,
{
    let value: serde_json::Value = serde_json::from_str(body).ok()?;
    Some(value.get(key)?.as_str()?.to_string())
}

/// The string held one level down, under an outer object field.
pub uninterp spec fn json_nested_field_str(
    body: Seq<char>,
    outer: Seq<char>,
    key: Seq<char>,
) -> Option<Seq<char>>;

/// Relies on serde_json's `from_str`, `Value::get` and `Value::as_str`:
/// whether the field `key` of the object under `outer` holds a
/// string, and which string, is a function of the document text and
/// the two keys alone.
#[verifier::external_body]
pub fn lookup_nested_string_field(body: &str, outer: &str, key: &str) -> (r: Option<String>)
    ensures
        r is Some <==> json_nested_field_str(body@, outer@, key@) is Some,
        r matches Some(s) ==> s@ == json_nested_field_str(body@, outer@, key@)->0,
{
    let value: serde_json::Value = serde_json::from_str(body).ok()?;
    Some(value.get(outer)?.get(key)?.as_str()?.to_string())
}

/// The `(id, moduleType)` string pairs of the `contentModules` array
/// under the `contents` object of a content document.
pub uninterp spec fn json_content_modules_of(body: Seq<char>) -> Option<
    Seq<(Seq<char>, Seq<char>)>,
>;

/// Relies on serde_json's `from_str`, `Value::get`, `Value::as_array`
/// and `Value::as_str`: the module listing of a content document is a
/// function of the document text alone.
#[verifier::external_body]
pub fn lookup_content_modules(body: &str) -> (r: Option<Vec<ContentModule>>)
    ensures
        r is Some <==> json_content_modules_of(body@) is Some,
        r matches Some(v) ==> v@.len() == json_content_modules_of(body@)->0.len(),
        r matches Some(v) ==> forall|i: int|
            0 <= i < v@.len() ==> (#[trigger] v@[i]).id@ == json_content_modules_of(body@)->0[i].0
                && v@[i].module_type@ == json_content_modules_of(body@)->0[i].1,
{
    let value: serde_json::Value = serde_json::from_str(body).ok()?;
    let arr = value.get("contents")?.get("contentModules")?.as_array()?;
    let mut out = Vec::new();
    for item in arr {
        let id = item.get("id")?.as_str()?;
        let ty = item.get("moduleType")?.as_str()?;
        out.push(ContentModule { id: id.to_string(), module_type: ty.to_string() });
    }
    Some(out)
}

/// How many records the top-level `items` array of an assignments
/// document lists, if the document parses and has one.
pub uninterp spec fn json_items_count(body: Seq<char>) -> Option<nat>;

/// Relies on serde_json's `from_str`, `Value::get` and
/// `Value::as_array`: whether an assignments document holds a
/// top-level `items` array, and how long it is, is a function of the
/// document text alone. The records themselves stay opaque.
#[verifier::external_body]
pub fn lookup_items(body: &str) -> (r: Option<Vec<serde_json::Value>>)
    ensures
        r is Some <==> json_items_count(body@) is Some,
        r matches Some(v) ==> v@.len() == json_items_count(body@)->0,
{
    let value: serde_json::Value = serde_json::from_str(body).ok()?;
    Some(value.get("items")?.as_array()?.to_vec())
}

} // verus!
