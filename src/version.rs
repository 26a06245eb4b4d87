use vstd::prelude::*;

use crate::resolve::string_opt_view;

verus! {

/// The text of the top-level string member `key` of the JSON document
/// `text`, as serde_json reads it; absent when the document does not parse,
/// is not an object, has no such member, or the member is not a string.
pub uninterp spec fn json_string_member(text: Seq<char>, key: Seq<char>) -> Option<Seq<char>>;

/// Relies on `serde_json::from_str::<serde_json::Value>`, then
/// `serde_json::Value::get` with a string key and `serde_json::Value::as_str`:
/// the result depends on the text and the key alone.
#[verifier::external_body]
fn string_member(text: &str, key: &str) -> (r: Option<String>)
    ensures
        string_opt_view(r) == json_string_member(text@, key@),
{
    match serde_json::from_str::<serde_json::Value>(text) {
        Ok(v) => match v.get(key) {
            Some(m) => m.as_str().map(String::from),
            None => None,
        },
        Err(_) => None,
    }
}

/// The version an application reports about itself in the body `json`: the
/// top-level string member `version` of a JSON object, verbatim. Absent when
/// the body is not JSON, is not an object, has no such member, or that member
/// is not a string.
pub fn get_version_from_json(json: &str) -> (r: Option<String>)
    ensures
        string_opt_view(r) == json_string_member(json@, "version"@),
{
    string_member(json, "version")
}

} // verus!
