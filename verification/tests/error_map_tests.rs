use robius_authentication::{android, apple, windows, AppleReply, Error};

#[test]
fn android_error_table_matches_documented_codes() {
    let table: [(i32, Error); 14] = [
        (5, Error::SystemCanceled),
        (12, Error::Unavailable),
        (1, Error::Unavailable),
        (7, Error::Exhausted),
        (9, Error::Exhausted),
        (11, Error::Unavailable),
        (14, Error::Unavailable),
        (4, Error::Unknown),
        (15, Error::UpdateRequired),
        (3, Error::Timeout),
        (2, Error::Unknown),
        (10, Error::UserCanceled),
        (8, Error::Unknown),
        (-1, Error::Unavailable),
    ];
    for (code, expected) in table {
        assert_eq!(android::map_error_code(code), expected, "code {code}");
    }
}

#[test]
fn android_unlisted_code_degrades_to_unknown() {
    assert_eq!(android::map_error_code(6), Error::Unknown);
    assert_eq!(android::map_error_code(100), Error::Unknown);
    assert_eq!(android::map_error_code(-2), Error::Unknown);
}

#[test]
fn apple_error_table_matches_documented_codes() {
    let table: [(i64, Error); 15] = [
        (-9, Error::AppCanceled),
        (-1, Error::Authentication),
        (-13, Error::BiometryDisconnected),
        (-8, Error::Exhausted),
        (-6, Error::Unavailable),
        (-7, Error::NotEnrolled),
        (-12, Error::NotPaired),
        (-10, Error::Unknown),
        (-14, Error::InvalidDimensions),
        (-1004, Error::NotInteractive),
        (-5, Error::PasscodeNotSet),
        (-4, Error::SystemCanceled),
        (-2, Error::UserCanceled),
        (-3, Error::UserFallback),
        (-11, Error::CompanionNotAvailable),
    ];
    for (code, expected) in table {
        assert_eq!(apple::map_error_code(code), expected, "code {code}");
    }
}

#[test]
fn apple_unlisted_code_degrades_to_unknown() {
    assert_eq!(apple::map_error_code(0), Error::Unknown);
    assert_eq!(apple::map_error_code(-15), Error::Unknown);
    assert_eq!(apple::map_error_code(1), Error::Unknown);
}

#[test]
fn windows_consent_table_matches_documented_codes() {
    assert_eq!(windows::convert(0), Ok(()));
    assert_eq!(windows::convert(1), Err(Error::Unavailable));
    assert_eq!(windows::convert(2), Err(Error::Unavailable));
    assert_eq!(windows::convert(3), Err(Error::Unavailable));
    assert_eq!(windows::convert(4), Err(Error::Busy));
    assert_eq!(windows::convert(5), Err(Error::Exhausted));
    assert_eq!(windows::convert(6), Err(Error::UserCanceled));
}

#[test]
fn windows_unlisted_code_degrades_to_unknown() {
    assert_eq!(windows::convert(7), Err(Error::Unknown));
    assert_eq!(windows::convert(-1), Err(Error::Unknown));
}

#[test]
fn apple_reply_decisions() {
    // success reports success whatever the code field holds
    assert_eq!(
        apple::evaluate_reply(&AppleReply { success: true, error_code: None }),
        Ok(())
    );
    // a failure with an error object goes through the table
    assert_eq!(
        apple::evaluate_reply(&AppleReply { success: false, error_code: Some(-2) }),
        Err(Error::UserCanceled)
    );
    // a failure with a null error pointer is never dereferenced
    assert_eq!(
        apple::evaluate_reply(&AppleReply { success: false, error_code: None }),
        Err(Error::Unknown)
    );
}
