//! The two JSON facts the logic needs, obtained from serde_json.
//!
//! The store must refuse to persist credentials that are not well-formed
//! JSON, and the success descriptors embed a caller-supplied path as a JSON
//! string literal. Both questions are answered by serde_json; their results
//! are functions of the argument alone, so each is given a name that the
//! callers' contracts are stated over.

use vstd::prelude::*;

verus! {

/// Whether serde_json parses this text as a single JSON document:
/// `json_is_valid` returns exactly this.
pub uninterp spec fn is_valid_json(s: Seq<char>) -> bool;

/// The JSON string literal that serializes this text: opening and closing
/// quotes around the escaped characters. `json_quote` returns exactly this.
pub uninterp spec fn json_string_literal(s: Seq<char>) -> Seq<char>;

/// Relies on serde_json::from_str::<serde_json::Value>: it returns `Ok`
/// exactly when the whole input parses as one JSON document, and the
/// outcome depends on the input text alone.
#[verifier::external_body]
pub(crate) fn json_is_valid(s: &str) -> (r: bool)
    ensures
        r == is_valid_json(s@),
{
    serde_json::from_str::<serde_json::Value>(s).is_ok()
}

/// Relies on serde_json::to_string on a string slice: it emits the JSON
/// string literal for the text, depends on the text alone, and cannot fail,
/// since its serializer for strings writes through an in-memory buffer.
#[verifier::external_body]
pub(crate) fn json_quote(s: &str) -> (r: String)
    ensures
        r@ == json_string_literal(s@),
{
    match serde_json::to_string(s) {
        Ok(q) => q,
        Err(_) => String::new(),
    }
}

} // verus!
