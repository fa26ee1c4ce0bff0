//! The one filesystem probe the library makes itself.

use vstd::prelude::*;

verus! {

/// Relies on std::path::Path::exists: whether the path names an entity
/// that exists on disk at the moment of the call (false also when the
/// check itself fails, say for lack of permission).  Nothing is promised
/// of the result: what is on disk can change between any two calls.
#[verifier::external_body]
pub(crate) fn path_exists(path: &str) -> bool {
    std::path::Path::new(path).exists()
}

} // verus!
