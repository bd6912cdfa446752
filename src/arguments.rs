//! Reading a string member out of a JSON object given as text.
use vstd::prelude::*;

verus! {

/// What parsing `json` as a JSON document and looking up the string member
/// `key` of it gives: `None` when `json` is not JSON, `Some(None)` when it has
/// no member `key` holding a string, and `Some(Some(s))` when it does.
pub uninterp spec fn json_string_member(json: Seq<char>, key: Seq<char>) -> Option<Option<Seq<char>>>;

/// Relies on serde_json::from_str (into a `serde_json::Value`),
/// `Value::get` and `Value::as_str`: the outcome depends on the two texts
/// alone.
#[verifier::external_body]
pub(crate) fn string_member(json: &str, key: &str) -> (r: Option<Option<String>>)
    ensures
        json_string_member(json@, key@) == match r {
            None => None,
            Some(None) => Some(None),
            Some(Some(s)) => Some(Some(s@)),
        },
{
    let v: serde_json::Value = match serde_json::from_str(json) {
        Ok(v) => v,
        Err(_) => return None,
    };
    match v.get(key) {
        Some(member) => Some(member.as_str().map(String::from)),
        None => Some(None),
    }
}

} // verus!
