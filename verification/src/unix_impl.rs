//! The POSIX backend: reading the reply of `ioctl(fd, FIONREAD, &mut len)`.

use crate::error::QueryError;
use vstd::prelude::*;

verus! {

/// What one `FIONREAD` request on a descriptor left behind.
#[derive(Debug, Clone, Copy, PartialEq, Eq)]
pub struct Reply {
    /// How the call ended: `Ok` with the value that `ioctl` returned, or `Err`
    /// with the error number that the kernel set.
    pub status: Result<i32, i32>,
    /// The output word, a C `int`. The kernel fills it only when the call
    /// succeeds; after a failure it holds whatever the caller put there.
    pub len: i32,
}

/// What a C `int` becomes when it is widened to `usize` with its sign kept:
/// itself when it is not negative, and otherwise the value that lies as far
/// below `usize::MAX + 1` as the word lies below zero.
pub open spec fn widened(len: i32) -> usize {
    if len >= 0 {
        len as usize
    } else {
        (usize::MAX + 1 + len) as usize
    }
}

/// The outcome that a reply stands for. A call that succeeded yields the
/// output word as the count, whatever value `ioctl` returned; a call that
/// failed yields the kernel's error number, whatever the output word holds.
pub open spec fn outcome(reply: Reply) -> Result<usize, QueryError> {
    match reply.status {
        Ok(_) => Ok(widened(reply.len)),
        Err(errno) => Err(QueryError::Os(errno)),
    }
}

/// Two replies say the same thing: both report the same count, or both
/// report the same error number. What a reply holds beyond that is ignored.
pub open spec fn same_answer(first: Reply, second: Reply) -> bool {
    match (first.status, second.status) {
        (Ok(_), Ok(_)) => first.len == second.len,
        (Err(a), Err(b)) => a == b,
        _ => false,
    }
}

fn widen(len: i32) -> (count: usize)
    ensures
        count == widened(len),
{
    if len >= 0 {
        len as usize
    } else {
        let below: i32 = -(len + 1);
        usize::MAX - (below as usize)
    }
}

/// Reads the reply of one `FIONREAD` request on a descriptor.
///
/// Zero is a count like any other. A failure is never read as a count, and
/// its error number is handed on as it came.
pub fn fionread_impl(reply: Reply) -> (r: Result<usize, QueryError>)
    ensures
        r == outcome(reply),
{
    match reply.status {
        Ok(_) => Ok(widen(reply.len)),
        Err(errno) => Err(QueryError::Os(errno)),
    }
}

/// Every count that the output word can report comes back as that count,
/// zero included.
pub proof fn lemma_count_is_kept(returned: i32, n: i32)
    requires
        n >= 0,
    ensures
        outcome(Reply { status: Ok(returned), len: n }) is Ok,
        outcome(Reply { status: Ok(returned), len: n }).unwrap() == n,
{
}

/// A failed call never reads as a count, not even as zero: the outcome is the
/// kernel's error number and nothing else.
pub proof fn lemma_failure_is_kept(errno: i32, len: i32)
    ensures
        outcome(Reply { status: Err(errno), len }) == Err::<usize, QueryError>(
            QueryError::Os(errno),
        ),
{
}

/// Asking twice and hearing the same thing twice gives the same outcome
/// twice, even where the two replies differ in what a reply leaves open.
pub proof fn lemma_same_answer_same_outcome(first: Reply, second: Reply)
    requires
        same_answer(first, second),
    ensures
        outcome(first) == outcome(second),
{
}

} // verus!
