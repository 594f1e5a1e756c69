use vstd::prelude::*;

verus! {

/// Relies on `rand::random_range`: a sample from the half-open range
/// `lo..hi`, drawn uniformly by the thread-local generator.  The call
/// panics on an empty range, so one is required to be nonempty here.
#[verifier::external_body]
pub(crate) fn random_in_range(lo: i32, hi: i32) -> (r: i32)
    requires
        lo < hi,
    ensures
        lo <= r < hi,
{
    rand::random_range(lo..hi)
}

} // verus!
