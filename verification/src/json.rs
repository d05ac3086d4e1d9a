//! Decoding of message text, done by `serde_json`.

use vstd::prelude::*;

verus! {

/// A JSON document as `serde_json` holds it. The verifier carries such a
/// value through and sees nothing inside it.
#[verifier::external_type_specification]
#[verifier::external_body]
pub struct ExValue(serde_json::Value);

/// The document that `serde_json::from_str` reads out of `text`, or `None`
/// where it rejects `text`. Nothing more is stated of it: what counts as a
/// JSON document is decided by `serde_json`.
pub uninterp spec fn json_value(text: Seq<char>) -> Option<serde_json::Value>;

/// Calls `serde_json::from_str::<serde_json::Value>` on `text` and drops the
/// error where it fails. Trusted: the outcome depends on the text alone, so it
/// is the named `json_value` of the text.
#[verifier::external_body]
pub(crate) fn decode(text: &str) -> (decoded: Option<serde_json::Value>)
    ensures
        decoded == json_value(text@),
{
    serde_json::from_str::<serde_json::Value>(text).ok()
}

} // verus!
