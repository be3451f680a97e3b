//! The one place where the library consults an outside crate inside its
//! logic: deciding whether a byte sequence is a complete JSON document.
use vstd::prelude::*;

verus! {

/// Whether the byte sequence is a complete, well-formed JSON document.
/// The answer is a function of the bytes alone; it is given by the parser
/// behind [`json_parses`] and not restated here.
pub uninterp spec fn json_wellformed(b: Seq<u8>) -> bool;

/// Relies on `serde_json::from_slice::<serde_json::Value>`: it accepts or
/// rejects a byte sequence as a JSON document, and its verdict depends on
/// the bytes alone.
#[verifier::external_body]
pub(crate) fn json_parses(b: &Vec<u8>) -> (r: bool)
    ensures
        r == json_wellformed(b@),
{
    serde_json::from_slice::<serde_json::Value>(b.as_slice()).is_ok()
}

} // verus!
