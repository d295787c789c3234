use fionread::unix_impl;
use fionread::windows_impl;
use fionread::QueryError;

fn posix(status: Result<i32, i32>, len: i32) -> Result<usize, QueryError> {
    unix_impl::fionread_impl(unix_impl::Reply { status, len })
}

fn winsock(status: i32, len: u32, last_error: i32) -> Result<usize, QueryError> {
    windows_impl::fionread_impl(windows_impl::Reply { status, len, last_error })
}

#[test]
fn backends_agree_on_every_shared_count() {
    for n in [0, 1, 5, 4096, 65_536, 1 << 30, i32::MAX] {
        let expected = Ok(usize::try_from(n).unwrap());
        assert_eq!(posix(Ok(0), n), expected);
        assert_eq!(winsock(0, u32::try_from(n).unwrap(), 0), expected);
    }
}

#[test]
fn backends_agree_on_every_error_code() {
    for code in [1, 9, 22, 25, 10038, 10014, i32::MAX] {
        let expected = Err(QueryError::Os(code));
        assert_eq!(posix(Err(code), 0), expected);
        assert_eq!(winsock(-1, 0, code), expected);
    }
}

#[test]
fn backends_part_where_the_signed_word_is_negative() {
    assert_eq!(posix(Ok(0), -1), Ok(usize::MAX));
    assert_eq!(winsock(0, u32::MAX, 0), Ok(4_294_967_295));
}

#[test]
fn loopback_hello_replayed() {
    // What the kernel says of a stream socket that was just connected, and
    // what it says once the peer has written "hello" and nothing was read.
    let written = b"hello";

    assert_eq!(posix(Ok(0), 0), Ok(0));
    assert_eq!(winsock(0, 0, 0), Ok(0));

    let len = i32::try_from(written.len()).unwrap();
    assert_eq!(posix(Ok(0), len), Ok(5));
    assert_eq!(winsock(0, u32::try_from(written.len()).unwrap(), 0), Ok(5));
}
