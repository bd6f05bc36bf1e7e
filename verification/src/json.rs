//! The boundary to `serde_json`: JSON values are carried opaquely and read
//! through one lookup whose contract is trusted, not proved.

use vstd::prelude::*;

verus! {

/// `serde_json::Value`, opaque to the verifier.
#[verifier::external_type_specification]
#[verifier::external_body]
pub struct ExJsonValue(serde_json::Value);

/// What a JSON value holds as far as this library reads it: for a JSON
/// object, its members whose value is a JSON string, by key. Any other kind
/// of value has no such member.
pub uninterp spec fn string_members(v: serde_json::Value) -> Map<Seq<char>, Seq<char>>;

/// The entry of `m` under `key`, if there is one.
pub open spec fn member_of(m: Map<Seq<char>, Seq<char>>, key: Seq<char>) -> Option<Seq<char>> {
    if m.contains_key(key) {
        Some(m[key])
    } else {
        None
    }
}

/// The characters of an optional string.
pub open spec fn text_of(s: Option<String>) -> Option<Seq<char>> {
    match s {
        Some(t) => Some(t@),
        None => None,
    }
}

/// Trusted: `serde_json::Value::get` with a string key, then
/// `serde_json::Value::as_str` on what it found. `get` yields a member only
/// of an object and only under an existing key; `as_str` yields text only
/// for a JSON string. The result is a copy of that text, and `None` in
/// every other case.
#[verifier::external_body]
pub(crate) fn string_member(v: &serde_json::Value, key: &str) -> (r: Option<String>)
    ensures
        text_of(r) == member_of(string_members(*v), key@),
{
    match v.get(key) {
        Some(member) => match member.as_str() {
            Some(text) => Some(text.to_string()),
            None => None,
        },
        None => None,
    }
}

} // verus!
