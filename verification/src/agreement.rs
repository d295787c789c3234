//! The two real backends, held against each other.

use crate::unix_impl;
use crate::windows_impl;
use vstd::prelude::*;

verus! {

/// A POSIX reply and a Windows reply report the same state of the kernel:
/// both calls succeeded and found the same number of bytes waiting, or both
/// failed with the same error code.
///
/// A count is a number of bytes, so it is not negative. The POSIX output word
/// is signed, and a reply whose word is negative reports no count that a
/// Windows reply could share.
pub open spec fn same_report(posix: unix_impl::Reply, winsock: windows_impl::Reply) -> bool {
    match posix.status {
        Ok(_) => winsock.status == 0 && posix.len >= 0 && posix.len == winsock.len,
        Err(errno) => winsock.status != 0 && errno == winsock.last_error,
    }
}

/// Given the same state of the kernel, a caller cannot tell the backends
/// apart: both succeed or both fail, with the same count or the same code.
pub proof fn lemma_backends_agree(posix: unix_impl::Reply, winsock: windows_impl::Reply)
    requires
        same_report(posix, winsock),
    ensures
        unix_impl::outcome(posix) == windows_impl::outcome(winsock),
{
}

} // verus!
