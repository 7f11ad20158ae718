use emacs_mac_input_source::tis::{wrap_osstatus, OSStatusError};

#[test]
fn zero_status_is_success() {
    assert_eq!(wrap_osstatus(0), Ok(()));
}

#[test]
fn nonzero_status_is_the_error_with_that_code() {
    assert_eq!(wrap_osstatus(42), Err(OSStatusError(42)));
    assert_eq!(wrap_osstatus(42).unwrap_err().code(), 42);
    assert_eq!(wrap_osstatus(1), Err(OSStatusError(1)));
    assert_eq!(wrap_osstatus(-50), Err(OSStatusError(-50)));
    assert_eq!(wrap_osstatus(i32::MAX), Err(OSStatusError(i32::MAX)));
    assert_eq!(wrap_osstatus(i32::MIN), Err(OSStatusError(i32::MIN)));
}

#[test]
fn every_small_nonzero_status_fails_with_itself() {
    let mut status: i32 = -300;
    while status <= 300 {
        let outcome = wrap_osstatus(status);
        if status == 0 {
            assert!(outcome.is_ok());
        } else {
            assert_eq!(outcome, Err(OSStatusError(status)));
        }
        status += 1;
    }
}

#[test]
fn message_names_the_code_in_decimal() {
    assert_eq!(OSStatusError(42).message(), "OSStatus error: 42");
    assert_eq!(OSStatusError(7).message(), "OSStatus error: 7");
    assert_eq!(OSStatusError(10).message(), "OSStatus error: 10");
    assert_eq!(OSStatusError(100).message(), "OSStatus error: 100");
    assert_eq!(OSStatusError(0).message(), "OSStatus error: 0");
    assert_eq!(OSStatusError(-50).message(), "OSStatus error: -50");
    assert_eq!(OSStatusError(i32::MAX).message(), "OSStatus error: 2147483647");
    assert_eq!(OSStatusError(i32::MIN).message(), "OSStatus error: -2147483648");
}

#[test]
fn message_agrees_with_standard_formatting() {
    let codes = [-1234567, -99, -10, -9, -1, 1, 9, 10, 11, 99, 101, 65536, 1234567];
    for code in codes {
        assert_eq!(OSStatusError(code).message(), format!("OSStatus error: {}", code));
    }
}

#[test]
fn error_is_copied_and_compared_by_its_code() {
    let error = OSStatusError(42);
    let copy = error;
    assert_eq!(error, copy);
    assert_ne!(error, OSStatusError(43));
    assert_eq!(format!("{:?}", error), "OSStatusError(42)");
}
