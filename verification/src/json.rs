//! String members of JSON documents, as read by `serde_json`.

use vstd::prelude::*;
use crate::text::opt_string;

verus! {

/// What `serde_json::from_slice::<serde_json::Value>(bytes)`, indexing the
/// value with `key` and `Value::as_str` give together: `None` when `bytes`
/// is not one JSON document; otherwise the text of the top-level member
/// `key` when the document is an object with such a string member, and
/// `Some(None)` when it is not.
pub uninterp spec fn json_text(bytes: Seq<u8>, key: Seq<char>) -> Option<Option<Seq<char>>>;

/// The view of an optional optional string.
pub open spec fn opt_opt_string(v: Option<Option<String>>) -> Option<Option<Seq<char>>> {
    match v {
        Some(s) => Some(opt_string(s)),
        None => None,
    }
}

/// Parses `bytes` with `serde_json::from_slice` into a `serde_json::Value`
/// and reads the string member `key` with `value[key].as_str()`, which
/// gives `Null`, and so no text, for a missing member or a document that is
/// not an object. The result is named (see [`json_text`]); neither call
/// panics.
#[verifier::external_body]
pub(crate) fn text_member(bytes: &[u8], key: &str) -> (r: Option<Option<String>>)
    ensures
        opt_opt_string(r) == json_text(bytes@, key@),
{
    match serde_json::from_slice::<serde_json::Value>(bytes) {
        Ok(value) => Some(value[key].as_str().map(str::to_owned)),
        Err(_) => None,
    }
}

} // verus!
