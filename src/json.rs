//! Decoding of provider payloads, through serde_json.

use vstd::prelude::*;

verus! {

/// Whether serde_json accepts `s` as a JSON document.
pub uninterp spec fn json_parses(s: Seq<char>) -> bool;

/// The string member `key` of the JSON document `s`, as serde_json reads it:
/// `None` where `s` is no object, has no such member, or the member is no string.
pub uninterp spec fn json_str_member(s: Seq<char>, key: Seq<char>) -> Option<Seq<char>>;

/// The member `key` of the JSON document `s` read as a list of strings by
/// serde_json: `None` where that member is missing or is no such list.
pub uninterp spec fn json_str_list_member(s: Seq<char>, key: Seq<char>) -> Option<
    Seq<Seq<char>>,
>;

pub open spec fn opt_str_view(o: Option<String>) -> Option<Seq<char>> {
    match o {
        Some(s) => Some(s@),
        None => None,
    }
}

pub open spec fn opt_list_view(o: Option<Vec<String>>) -> Option<Seq<Seq<char>>> {
    match o {
        Some(v) => Some(v@.map_values(|s: String| s@)),
        None => None,
    }
}

/// Relies on serde_json::from_str into a `serde_json::Value`, then
/// `Value::get` and `Value::as_str`: the error carries serde_json's diagnostic.
#[verifier::external_body]
pub(crate) fn decode_str_member(text: &str, key: &str) -> (r: Result<Option<String>, String>)
    ensures
        r is Ok <==> json_parses(text@),
        r matches Ok(o) ==> opt_str_view(o) == json_str_member(text@, key@),
{
    match serde_json::from_str::<serde_json::Value>(text) {
        Ok(v) => Ok(v.get(key).and_then(serde_json::Value::as_str).map(String::from)),
        Err(e) => Err(e.to_string()),
    }
}

/// Relies on serde_json::from_str into a `serde_json::Value`, then
/// `Value::get` and serde_json::from_value into `Vec<String>`: the error
/// carries serde_json's diagnostic.
#[verifier::external_body]
pub(crate) fn decode_str_list_member(text: &str, key: &str) -> (r: Result<
    Option<Vec<String>>,
    String,
>)
    ensures
        r is Ok <==> json_parses(text@),
        r matches Ok(o) ==> opt_list_view(o) == json_str_list_member(text@, key@),
{
    match serde_json::from_str::<serde_json::Value>(text) {
        Ok(v) => Ok(v.get(key).cloned().map(serde_json::from_value::<Vec<String>>).and_then(Result::ok)),
        Err(e) => Err(e.to_string()),
    }
}

} // verus!
