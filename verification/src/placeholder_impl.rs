//! The backend of a target that has no `FIONREAD` request at all.
//!
//! It exists so that a caller can be built for any target. No kernel is
//! asked, so there is no reply to read.

use crate::error::QueryError;
use vstd::prelude::*;

verus! {

/// Fails, always and in the same way: no count, and no platform error
/// either, since no platform was asked.
pub fn fionread_impl() -> (r: Result<usize, QueryError>)
    ensures
        r == Err::<usize, QueryError>(QueryError::NotImplemented),
{
    Err(QueryError::NotImplemented)
}

} // verus!
