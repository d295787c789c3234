use fionread::placeholder_impl::fionread_impl;
use fionread::QueryError;

#[test]
fn placeholder_always_fails() {
    assert_eq!(fionread_impl(), Err(QueryError::NotImplemented));
    assert_eq!(fionread_impl(), fionread_impl());
}

#[test]
fn not_implemented_has_a_fixed_message_and_no_code() {
    let e = fionread_impl().unwrap_err();
    assert_eq!(e.message(), Some("not implemented"));
    assert_eq!(e.raw_os_error(), None);
}

#[test]
fn platform_error_has_a_code_and_no_message() {
    for code in [0, 9, 25, 10038, -1, i32::MIN, i32::MAX] {
        let e = QueryError::Os(code);
        assert_eq!(e.raw_os_error(), Some(code));
        assert_eq!(e.message(), None);
    }
}

#[test]
fn platform_error_turns_into_the_same_io_error() {
    let code = QueryError::Os(9).raw_os_error().unwrap();
    let e = std::io::Error::from_raw_os_error(code);
    assert_eq!(e.raw_os_error(), Some(9));
}
