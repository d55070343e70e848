//! Trusted access to the few std functions that vstd gives no contract.
use std::sync::Arc;
use vstd::prelude::*;

verus! {

/// Calls `Arc::clone`, which hands back another pointer to the same
/// allocation, so the clone holds the very value that `a` holds.
#[verifier::external_body]
pub(crate) fn arc_clone<T>(a: &Arc<T>) -> (r: Arc<T>)
    ensures
        r == *a,
{
    Arc::clone(a)
}

/// Calls `std::str::from_utf8`, which succeeds exactly when the bytes are
/// well-formed UTF-8.
#[verifier::external_body]
pub(crate) fn is_utf8(bytes: &[u8]) -> (r: bool)
    ensures
        r == vstd::utf8::valid_utf8(bytes@),
{
    std::str::from_utf8(bytes).is_ok()
}

} // verus!
