//! The boundary to the JSON decoder.
//!
//! Whether a piece of text parses as JSON is decided by `serde_json`;
//! the verified code only relies on that decision being a function of
//! the text alone.

use vstd::prelude::*;

verus! {

/// Whether `serde_json` accepts `s` as a well-formed JSON document.
/// The full grammar is not restated here; the name stands for the
/// decoder's verdict, which depends on the characters alone.
pub uninterp spec fn json_accepts(s: Seq<char>) -> bool;

/// Relies on `serde_json::from_str::<serde_json::Value>`: it returns
/// `Ok` exactly on well-formed JSON text, and its verdict depends on
/// the input string alone.
#[verifier::external_body]
pub(crate) fn json_well_formed(s: &str) -> (r: bool)
    ensures
        r == json_accepts(s@),
{
    serde_json::from_str::<serde_json::Value>(s).is_ok()
}

} // verus!
