//! The trusted boundary to serde_json: parsing the raw search response,
//! reading its `reprintList` array, and taking each field of a record as
//! compact JSON text.
//!
//! The three uninterpreted names stand for what serde_json computes; every
//! contract about the search response speaks through them.

use vstd::prelude::*;

verus! {

#[verifier::external_type_specification]
#[verifier::external_body]
pub struct ExValue(serde_json::Value);

#[verifier::external_type_specification]
#[verifier::external_body]
pub struct ExJsonError(serde_json::Error);

/// The JSON document a text denotes, or `None` where the parser rejects it.
pub uninterp spec fn json_doc(s: Seq<char>) -> Option<serde_json::Value>;

/// The elements of a document's `reprintList` field, or `None` where that
/// field is absent or not an array.
pub uninterp spec fn json_reprint_list(v: serde_json::Value) -> Option<Seq<serde_json::Value>>;

/// The compact JSON text of the value under `key` in `v` (`null` where `v` is
/// not an object or has no such key).
pub uninterp spec fn json_field_text(v: serde_json::Value, key: Seq<char>) -> Seq<char>;

/// Relies on serde_json::from_str for Value: it parses the whole text as one
/// JSON document, accepts any document shape, and its outcome depends on the
/// text alone.
#[verifier::external_body]
pub(crate) fn parse_json(s: &str) -> (r: Result<serde_json::Value, serde_json::Error>)
    ensures
        r matches Ok(v) ==> json_doc(s@) == Some(v),
        r is Err ==> json_doc(s@) is None,
{
    serde_json::from_str(s)
}

/// Relies on serde_json Value::get and Value::as_array: `Some` exactly where
/// the document is an object whose `reprintList` field is an array, and then
/// the array's elements in order.
#[verifier::external_body]
pub(crate) fn reprint_array(v: &serde_json::Value) -> (r: Option<Vec<serde_json::Value>>)
    ensures
        r matches Some(items) ==> json_reprint_list(*v) == Some(items@),
        r is None ==> json_reprint_list(*v) is None,
{
    v.get("reprintList").and_then(serde_json::Value::as_array).cloned()
}

/// Relies on serde_json's Index for str and to_string: indexing an object by
/// a missing key, or a non-object by any key, yields Null, and to_string
/// renders a value as compact JSON text that depends on the value alone.
#[verifier::external_body]
pub(crate) fn field_text(v: &serde_json::Value, key: &str) -> (r: String)
    ensures
        r@ == json_field_text(*v, key@),
{
    match serde_json::to_string(&v[key]) {
        Ok(t) => t,
        Err(_) => String::new(),
    }
}

} // verus!
