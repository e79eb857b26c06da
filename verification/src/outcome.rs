//! The adapter at the boundary: it turns the fault code the engine set during
//! a call into the result of the operation.
//!
//! The engine sets zero when a call succeeds. Every other code is a fault,
//! whether the table knows it or not, and reaches the caller with the code
//! the engine set.

use vstd::prelude::*;
use crate::error::{kind_of, ErrorKind, XError};

verus! {

/// The result of a call: `value` when the engine set no code, else the fault
/// it reported.
pub open spec fn settled<T>(value: T, err: i8) -> Result<T, XError> {
    if err == 0 {
        Ok(value)
    } else {
        Err(XError::Xapian(err))
    }
}

/// Settles a call: `value` is what the engine returned, `err` the code it
/// set.
pub fn settle<T>(value: T, err: i8) -> (result: Result<T, XError>)
    ensures
        result == settled(value, err),
{
    if err == 0 {
        Ok(value)
    } else {
        Err(XError::Xapian(err))
    }
}

/// No fault is swallowed and none is replaced by another: a call succeeds on
/// zero alone, and with every other code it fails with exactly that code,
/// a positive one included.
pub proof fn lemma_fault_is_surfaced<T>(value: T, err: i8)
    ensures
        settled(value, err) is Ok <==> err == 0,
        err == 0 ==> settled(value, err) == Ok::<T, XError>(value),
        err != 0 ==> settled(value, err) == Err::<T, XError>(XError::Xapian(err)),
{
}

/// A fault with a code outside the table reaches the caller as the catch-all
/// member of the taxonomy, not as a success.
pub proof fn lemma_unlisted_fault_is_unknown<T>(value: T, err: i8)
    requires
        err > 0,
    ensures
        settled(value, err) is Err,
        settled(value, err)->Err_0.spec_kind() == ErrorKind::Unknown,
        kind_of(err) == ErrorKind::Unknown,
{
}

} // verus!
