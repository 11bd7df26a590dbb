//! What `serde_json` reads out of a JSON document, named over the document's
//! text.
use vstd::prelude::*;

verus! {

/// The string that `serde_json` finds at a JSON pointer of a document; `None`
/// where the text is not JSON, nothing is at the pointer, or it is not a string.
pub uninterp spec fn json_str_at(doc: Seq<char>, pointer: Seq<char>) -> Option<Seq<char>>;

/// The integer that `serde_json` finds at a JSON pointer of a document; `None`
/// where the text is not JSON, nothing is at the pointer, or it is not an
/// integer that fits an `i64`.
pub uninterp spec fn json_i64_at(doc: Seq<char>, pointer: Seq<char>) -> Option<int>;

/// The number of elements of a document that `serde_json` reads as an array;
/// `None` where the text is not JSON or not an array.
pub uninterp spec fn json_array_len(doc: Seq<char>) -> Option<nat>;

/// Relies on `serde_json::from_str`, `Value::pointer` and `Value::as_str`:
/// parses the document and takes the string at the pointer.
#[verifier::external_body]
pub(crate) fn str_in(doc: &str, pointer: &str) -> (r: Option<String>)
    ensures
        match r {
            Some(s) => json_str_at(doc@, pointer@) == Some(s@),
            None => json_str_at(doc@, pointer@) is None,
        },
{
    let v: serde_json::Value = serde_json::from_str(doc).ok()?;
    v.pointer(pointer).and_then(serde_json::Value::as_str).map(|s| s.to_string())
}

/// Relies on `serde_json::from_str`, `Value::pointer` and `Value::as_i64`:
/// parses the document and takes the integer at the pointer.
#[verifier::external_body]
pub(crate) fn i64_in(doc: &str, pointer: &str) -> (r: Option<i64>)
    ensures
        match r {
            Some(n) => json_i64_at(doc@, pointer@) == Some(n as int),
            None => json_i64_at(doc@, pointer@) is None,
        },
{
    let v: serde_json::Value = serde_json::from_str(doc).ok()?;
    v.pointer(pointer).and_then(serde_json::Value::as_i64)
}

/// Relies on `serde_json::from_str` and `Value::as_array`: parses the document
/// and counts the elements of the array it is.
#[verifier::external_body]
pub(crate) fn array_len_in(doc: &str) -> (r: Option<usize>)
    ensures
        match r {
            Some(n) => json_array_len(doc@) == Some(n as nat),
            None => json_array_len(doc@) is None,
        },
{
    let v: serde_json::Value = serde_json::from_str(doc).ok()?;
    v.as_array().map(|a| a.len())
}

/// The view of an optional string.
pub open spec fn opt_view(o: Option<String>) -> Option<Seq<char>> {
    match o {
        Some(s) => Some(s@),
        None => None,
    }
}

} // verus!
