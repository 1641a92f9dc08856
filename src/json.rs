//! JSON framing of the bodies exchanged with clients and with the backend.
use vstd::prelude::*;

verus! {

#[verifier::external_type_specification]
#[verifier::external_body]
pub struct ExJsonError(serde_json::Error);

/// The JSON string literal (quoted and escaped) that serde_json writes for `s`.
pub uninterp spec fn json_string_literal(s: Seq<char>) -> Seq<char>;

/// Whether serde_json accepts `body` as one JSON document.
pub uninterp spec fn json_accepts(body: Seq<u8>) -> bool;

/// The compact text that serde_json writes for the JSON value parsed from `body`.
pub uninterp spec fn json_compact_text(body: Seq<u8>) -> Seq<char>;

/// Relies on serde_json::to_string on a `str`: it writes the string as one
/// quoted, escaped JSON string literal. Its only error is an I/O error of the
/// in-memory buffer it writes to, which cannot fail, so the result is `Ok`.
#[verifier::external_body]
fn quote_json_string(s: &str) -> (r: Result<String, serde_json::Error>)
    ensures
        r is Ok,
        r is Ok ==> r->Ok_0@ == json_string_literal(s@),
{
    serde_json::to_string(s)
}

/// Relies on serde_json::from_slice into a serde_json::Value, which succeeds
/// exactly on the documents serde_json accepts, and on the value's `Display`
/// impl, which writes it back in compact form.
#[verifier::external_body]
fn reserialize_json(body: &[u8]) -> (r: Option<String>)
    ensures
        r is Some <==> json_accepts(body@),
        r matches Some(t) ==> t@ == json_compact_text(body@),
{
    match serde_json::from_slice::<serde_json::Value>(body) {
        Ok(v) => Some(v.to_string()),
        Err(_) => None,
    }
}

/// `s` as a JSON string literal.
pub fn json_string(s: &str) -> (r: String)
    ensures
        r@ == json_string_literal(s@),
{
    match quote_json_string(s) {
        Ok(t) => t,
        Err(_) => String::new(),
    }
}

/// The compact text of the JSON document in `body`, or `None` where `body` is
/// not one JSON document.
pub fn compact_json(body: &[u8]) -> (r: Option<String>)
    ensures
        r is Some <==> json_accepts(body@),
        r matches Some(t) ==> t@ == json_compact_text(body@),
{
    reserialize_json(body)
}

} // verus!
