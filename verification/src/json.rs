//! JSON text of plain values, as `serde_json` writes it.

use vstd::prelude::*;

verus! {

/// The JSON text that `serde_json` writes for the string `s`: the string
/// between double quotes, with the characters escaped that JSON asks for.
pub uninterp spec fn json_string(s: Seq<char>) -> Seq<char>;

/// Calls `serde_json::to_string` on a `str`.
///
/// Trusted: the text returned depends on the characters of `s` alone, and
/// [`json_string`] is the name of that text. Nothing is claimed about what
/// the text holds.
#[verifier::external_body]
pub(crate) fn encode_string(s: &str) -> (text: String)
    ensures
        text@ == json_string(s@),
{
    serde_json::to_string(s).unwrap_or_default()
}

} // verus!
