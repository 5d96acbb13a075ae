//! JSON documents, as the `serde_json` crate reads and writes them.

use vstd::prelude::*;
use crate::text::text_view;

verus! {

/// What `serde_json` makes of the text `text`: where it reads `text` as one
/// JSON document, the document written out again in its indented form, with
/// the keys of each object in sorted order; `None` where it does not.
pub uninterp spec fn json_pretty(text: Seq<char>) -> Option<Seq<char>>;

/// Whether `text` is one JSON document.
pub open spec fn is_json(text: Seq<char>) -> bool {
    json_pretty(text) is Some
}

/// Reads `text` with `serde_json::from_str` as a `serde_json::Value` and, where
/// that succeeds, writes the value with its `Display` in the alternate form,
/// which is the indented one. The contract only gives the outcome its name:
/// the same text always has the same outcome.
#[verifier::external_body]
pub(crate) fn pretty_json(text: &str) -> (r: Option<String>)
    ensures
        text_view(r) == json_pretty(text@),
{
    match serde_json::from_str::<serde_json::Value>(text) {
        Ok(value) => Some(format!("{:#}", value)),
        Err(_) => None,
    }
}

} // verus!
