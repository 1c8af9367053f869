//! JSON text for the tunnel's header blocks and message bodies.
//!
//! Both serializations are pure functions of their arguments, carried
//! here as named results that the callers' contracts speak of exactly.

use vstd::prelude::*;

verus! {

pub uninterp spec fn headers_json_of(headers: Seq<(Seq<char>, Seq<char>)>) -> Seq<u8>;

/// Relies on serde_json::to_vec over the JSON object holding the given
/// header names and values: a function of the pairs alone.
#[verifier::external_body]
pub fn headers_to_json(headers: &Vec<(String, String)>) -> (r: Vec<u8>)
    ensures
        r@ == headers_json_of(headers@.map_values(|p: (String, String)| (p.0@, p.1@))),
{
    let mut map = serde_json::Map::new();
    for (k, v) in headers {
        map.insert(k.clone(), serde_json::Value::String(v.clone()));
    }
    serde_json::to_vec(&serde_json::Value::Object(map)).unwrap_or_default()
}

pub uninterp spec fn json_normal_of(s: Seq<char>) -> Option<Seq<char>>;

/// Relies on serde_json: the text parsed back to a JSON value and
/// serialized again — the canonical form of the body, a function of
/// the text alone, absent when the text is not valid JSON.
#[verifier::external_body]
pub fn normalize_json(s: &str) -> (r: Option<String>)
    ensures
        json_normal_of(s@) == (match r {
            Some(t) => Some(t@),
            None => None,
        }),
{
    let value: serde_json::Value = serde_json::from_str(s).ok()?;
    serde_json::to_string(&value).ok()
}

} // verus!
