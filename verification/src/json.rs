//! The trusted seam to the JSON library: named extractions of the few body
//! fields the handshake reads. Everything downstream of these plain values is
//! verified.

use vstd::prelude::*;

verus! {

/// The top-level string field named `key` of the JSON object that `body`
/// parses to: present exactly when `body` is valid JSON whose root holds
/// `key` as a JSON string. A function of `body` and `key` alone.
pub uninterp spec fn json_str_field(body: Seq<char>, key: Seq<char>) -> Option<Seq<char>>;

/// The string field at the fixed path `startup_data.user.user_id` of the JSON
/// object that `body` parses to, under the same convention as `json_str_field`.
pub uninterp spec fn json_user_id_field(body: Seq<char>) -> Option<Seq<char>>;

/// Relies on `serde_json::from_str::<Value>`, `Value::get` and `Value::as_str`:
/// together they read the top-level string field named `key` of the JSON
/// object in `body`, and their answer depends on `body` and `key` alone.
#[verifier::external_body]
pub(crate) fn extract_str_field(body: &str, key: &str) -> (r: Option<String>)
    ensures
        r.deep_view() == json_str_field(body@, key@),
{
    match serde_json::from_str::<serde_json::Value>(body) {
        Ok(v) => v.get(key).and_then(|f| f.as_str()).map(|s| s.to_string()),
        Err(_) => None,
    }
}

/// Relies on the same three functions of the JSON library, walking the fixed
/// path `startup_data.user.user_id`; the answer depends on `body` alone.
#[verifier::external_body]
pub(crate) fn extract_user_id_field(body: &str) -> (r: Option<String>)
    ensures
        r.deep_view() == json_user_id_field(body@),
{
    match serde_json::from_str::<serde_json::Value>(body) {
        Ok(v) => v
            .get("startup_data")
            .and_then(|s| s.get("user"))
            .and_then(|u| u.get("user_id"))
            .and_then(|i| i.as_str())
            .map(|s| s.to_string()),
        Err(_) => None,
    }
}

} // verus!
