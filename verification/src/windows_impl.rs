//! The Windows backend: reading the reply of
//! `ioctlsocket(socket, FIONREAD, &mut len)`.

use crate::error::QueryError;
use vstd::prelude::*;

verus! {

/// What one `FIONREAD` request on a socket left behind.
#[derive(Debug, Clone, Copy, PartialEq, Eq)]
pub struct Reply {
    /// The value that `ioctlsocket` returned: zero when the call succeeded,
    /// anything else when it did not.
    pub status: i32,
    /// The output word, a C `unsigned long` of 32 bits. The system fills it
    /// only when the call succeeds.
    pub len: u32,
    /// The thread's last error code, read right after the call. It describes
    /// this call only when the call failed.
    pub last_error: i32,
}

/// The outcome that a reply stands for. A call that returned zero yields the
/// output word as the count, whatever the last error code holds; any other
/// call yields the last error code, whatever the output word holds.
pub open spec fn outcome(reply: Reply) -> Result<usize, QueryError> {
    if reply.status == 0 {
        Ok(reply.len as usize)
    } else {
        Err(QueryError::Os(reply.last_error))
    }
}

/// Two replies say the same thing: both report the same count, or both
/// report the same error code. What a reply holds beyond that is ignored.
pub open spec fn same_answer(first: Reply, second: Reply) -> bool {
    if first.status == 0 {
        second.status == 0 && first.len == second.len
    } else {
        second.status != 0 && first.last_error == second.last_error
    }
}

/// Reads the reply of one `FIONREAD` request on a socket.
///
/// Zero is a count like any other. A failure is never read as a count, and
/// its error code is handed on as it came.
pub fn fionread_impl(reply: Reply) -> (r: Result<usize, QueryError>)
    ensures
        r == outcome(reply),
{
    if reply.status == 0 {
        Ok(reply.len as usize)
    } else {
        Err(QueryError::Os(reply.last_error))
    }
}

/// Every count that the output word can report comes back as that count,
/// zero included.
pub proof fn lemma_count_is_kept(n: u32, last_error: i32)
    ensures
        outcome(Reply { status: 0, len: n, last_error }) is Ok,
        outcome(Reply { status: 0, len: n, last_error }).unwrap() == n,
{
}

/// A failed call never reads as a count, not even as zero: the outcome is the
/// system's error code and nothing else.
pub proof fn lemma_failure_is_kept(status: i32, len: u32, last_error: i32)
    requires
        status != 0,
    ensures
        outcome(Reply { status, len, last_error }) == Err::<usize, QueryError>(
            QueryError::Os(last_error),
        ),
{
}

/// Asking twice and hearing the same thing twice gives the same outcome
/// twice, even where the two replies differ in what a reply leaves open.
pub proof fn lemma_same_answer_same_outcome(first: Reply, second: Reply)
    requires
        same_answer(first, second),
    ensures
        outcome(first) == outcome(second),
{
}

} // verus!
