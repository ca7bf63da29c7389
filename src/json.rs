//! The JSON string literals of texts, as serde_json writes them.
use vstd::prelude::*;

verus! {

/// The JSON string literal of a text, quoted and escaped as serde_json
/// writes it.
pub uninterp spec fn json_string(s: Seq<char>) -> Seq<char>;

/// Relies on `serde_json::to_string` on a `str`: the text as a JSON string
/// literal, which depends on the text alone. It cannot fail there: a string
/// is written into a `Vec`, whose writes never fail, and serde_json reports
/// an error for a string only where its writer does.
#[verifier::external_body]
pub(crate) fn json_quote(s: &str) -> (r: Option<String>)
    ensures
        r is Some,
        r matches Some(q) ==> q@ == json_string(s@),
{
    serde_json::to_string(s).ok()
}

} // verus!
