use vstd::prelude::*;

pub mod bytestr;
pub mod envelope;
pub mod headers;
pub mod jsoncheck;
pub mod normalize;
pub mod outcome;
pub mod policy;
pub mod translate;
pub mod sanitize;

verus! {

/// A status code in the range that HTTP counts as success.
pub open spec fn is_success_status(status: u16) -> bool {
    200 <= status <= 299
}

/// Executable check for a success status code.
pub fn status_is_success(status: u16) -> (r: bool)
    ensures
        r == is_success_status(status),
{
    200 <= status && status <= 299
}

} // verus!
