//! Trusted boundary to serde_json.
//!
//! The registry body is parsed by serde_json; everything the fetch layer
//! reads out of the parsed document goes through the small wrappers here,
//! whose contracts speak of [`JsonModel`], the mathematical model of a JSON
//! document. The schema logic built on top of them is verified.

use vstd::prelude::*;

verus! {

/// Mathematical model of a JSON document. Object entries appear in the
/// order serde_json's map iterates them (sorted by key); numbers are
/// modelled by their decimal rendering, which nothing here reads.
pub enum JsonModel {
    Null,
    Bool(bool),
    Num(Seq<char>),
    Str(Seq<char>),
    Arr(Seq<JsonModel>),
    Obj(Seq<(Seq<char>, JsonModel)>),
}

#[verifier::external_type_specification]
#[verifier::external_body]
pub struct ExValue(serde_json::Value);

#[verifier::external_type_specification]
#[verifier::external_body]
pub struct ExJsonError(serde_json::Error);

/// The model of a parsed JSON document.
pub uninterp spec fn json_model(v: serde_json::Value) -> JsonModel;

/// What parsing a string as JSON yields: `None` when the input is not
/// well-formed JSON, otherwise the model of the resulting document.
pub uninterp spec fn spec_parse_json(s: Seq<char>) -> Option<JsonModel>;

/// First entry of `es` under `key`, if any. serde_json objects have unique
/// keys, so first-match agrees with map lookup.
pub open spec fn spec_entries_lookup(
    es: Seq<(Seq<char>, JsonModel)>,
    key: Seq<char>,
) -> Option<JsonModel>
    decreases es.len(),
{
    if es.len() == 0 {
        None
    } else if es[0].0 == key {
        Some(es[0].1)
    } else {
        spec_entries_lookup(es.drop_first(), key)
    }
}

/// Field lookup: the entry under `key` when `j` is an object that has one,
/// `None` otherwise.
pub open spec fn spec_obj_lookup(j: JsonModel, key: Seq<char>) -> Option<JsonModel> {
    match j {
        JsonModel::Obj(es) => spec_entries_lookup(es, key),
        _ => None,
    }
}

/// Relies on serde_json::from_str::<Value>: whether a string parses, and
/// what document it parses to, are functions of the string alone.
#[verifier::external_body]
pub fn parse_json(s: &String) -> (r: Result<serde_json::Value, serde_json::Error>)
    ensures
        r is Ok <==> spec_parse_json(s@) is Some,
        r matches Ok(v) ==> Some(json_model(v)) == spec_parse_json(s@),
{
    serde_json::from_str(s)
}

/// Relies on serde_json::Error's Display implementation: renders the parse
/// failure as diagnostic text.
#[verifier::external_body]
pub fn json_error_message(e: &serde_json::Error) -> String {
    format!("{}", e)
}

/// Relies on serde_json::Value::is_object.
#[verifier::external_body]
pub fn json_is_object(v: &serde_json::Value) -> (r: bool)
    ensures
        r == (json_model(*v) is Obj),
{
    v.is_object()
}

/// Relies on serde_json::Value::get with a string index: field lookup in an
/// object, `None` for non-objects and absent keys.
#[verifier::external_body]
pub fn json_get<'a>(v: &'a serde_json::Value, key: &str) -> (r: Option<&'a serde_json::Value>)
    ensures
        match r {
            Some(f) => spec_obj_lookup(json_model(*v), key@) == Some(json_model(*f)),
            None => spec_obj_lookup(json_model(*v), key@) is None,
        },
{
    v.get(key)
}

/// Relies on serde_json::Value::as_str: `Some` exactly for JSON strings.
#[verifier::external_body]
pub fn json_as_str(v: &serde_json::Value) -> (r: Option<String>)
    ensures
        match r {
            Some(s) => json_model(*v) == JsonModel::Str(s@),
            None => !(json_model(*v) is Str),
        },
{
    v.as_str().map(|s| s.to_string())
}

/// Relies on serde_json::Value::as_object and map iteration: hands an
/// object's entries out in iteration order, keys and values cloned.
#[verifier::external_body]
pub fn json_obj_entries(v: &serde_json::Value) -> (r: Option<Vec<(String, serde_json::Value)>>)
    ensures
        match r {
            Some(es) => json_model(*v) matches JsonModel::Obj(m) && es@.len() == m.len()
                && forall|i: int|
                    #![trigger m[i]]
                    0 <= i < m.len() ==> es@[i].0@ == m[i].0 && json_model(es@[i].1) == m[i].1,
            None => !(json_model(*v) is Obj),
        },
{
    v.as_object().map(|m| m.iter().map(|(k, x)| (k.clone(), x.clone())).collect())
}

} // verus!
