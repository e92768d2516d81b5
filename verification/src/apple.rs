//! The Apple backend: policy pre-evaluation, the completion block's
//! decision, and the local-authentication error table.
//!
//! The backend owns one native authentication context, reused across
//! attempts. An attempt first asks the context whether the compiled
//! policy can be evaluated at all — a failure there is a submission
//! error, mapped through the same table as any later failure, and the
//! caller's callback never runs. If viable, the native evaluate call is
//! issued with a completion block that the platform runs exactly once;
//! the block's decision — success, a coded failure, or a missing error
//! object — lives here as a verified function of the reply.

use vstd::prelude::*;

use crate::error::Error;

verus! {

/// What the native completion block receives: the success flag and, on
/// failure, the error object's code (`None` models a null error pointer,
/// which is never dereferenced).
#[derive(Debug, Clone, Copy, PartialEq, Eq, Structural)]
pub struct AppleReply {
    pub success: bool,
    pub error_code: Option<i64>,
}

/// Everything the native local-authentication service reports for one
/// attempt: the pre-evaluation check's error code if it failed, and the
/// completion block's reply once it has run (`None` while the prompt is
/// still outstanding).
#[derive(Debug, Clone, Copy, PartialEq, Eq, Structural)]
pub struct AppleResponse {
    /// The error code of a failed "can this policy be evaluated" check;
    /// `None` when the check passed.
    pub precheck_error: Option<i64>,
    /// The completion block's reply.
    pub reply: Option<AppleReply>,
}

/// The outcome the completion block reports: success verbatim; a failure
/// with an error object through the error table; a failure with a null
/// error pointer as [`Error::Unknown`].
pub open spec fn spec_evaluate_reply(reply: AppleReply) -> Result<(), Error> {
    if reply.success {
        Ok(())
    } else {
        match reply.error_code {
            Some(code) => Err(spec_map_error_code(code)),
            None => Err(Error::Unknown),
        }
    }
}

/// Decides the completion block's outcome; see [`spec_evaluate_reply`].
pub fn evaluate_reply(reply: &AppleReply) -> (r: Result<(), Error>)
    ensures
        r == spec_evaluate_reply(*reply),
{
    if reply.success {
        Ok(())
    } else {
        match reply.error_code {
            Some(code) => Err(map_error_code(code)),
            None => Err(Error::Unknown),
        }
    }
}

/// The error code for invalid user credentials.
pub const LA_ERROR_AUTHENTICATION_FAILED: i64 = -1;

/// The error code for a cancellation by the user.
pub const LA_ERROR_USER_CANCEL: i64 = -2;

/// The error code for the user tapping the fallback button.
pub const LA_ERROR_USER_FALLBACK: i64 = -3;

/// The error code for a cancellation by the system.
pub const LA_ERROR_SYSTEM_CANCEL: i64 = -4;

/// The error code for a device without a passcode.
pub const LA_ERROR_PASSCODE_NOT_SET: i64 = -5;

/// The error code for biometry that is not available, including denied
/// access.
pub const LA_ERROR_BIOMETRY_NOT_AVAILABLE: i64 = -6;

/// The error code for biometry with no enrolled identities.
pub const LA_ERROR_BIOMETRY_NOT_ENROLLED: i64 = -7;

/// The error code for biometry locked out after too many failures.
pub const LA_ERROR_BIOMETRY_LOCKOUT: i64 = -8;

/// The error code for a cancellation by the application.
pub const LA_ERROR_APP_CANCEL: i64 = -9;

/// The error code for an invalidated authentication context.
pub const LA_ERROR_INVALID_CONTEXT: i64 = -10;

/// The error code for a companion device that is not available.
pub const LA_ERROR_COMPANION_NOT_AVAILABLE: i64 = -11;

/// The error code for accessory-only biometry with no paired accessory.
pub const LA_ERROR_BIOMETRY_NOT_PAIRED: i64 = -12;

/// The error code for accessory-only biometry with the accessory
/// disconnected.
pub const LA_ERROR_BIOMETRY_DISCONNECTED: i64 = -13;

/// The error code for embedded UI with invalid dimensions.
pub const LA_ERROR_INVALID_DIMENSIONS: i64 = -14;

/// The error code for UI that may not be displayed.
pub const LA_ERROR_NOT_INTERACTIVE: i64 = -1004;

/// The Apple error table: every documented local-authentication error
/// code maps to exactly one taxonomy variant, and every other code
/// degrades to [`Error::Unknown`]. An invalidated-context code also maps
/// to [`Error::Unknown`], since this backend never invalidates its
/// context.
pub open spec fn spec_map_error_code(code: i64) -> Error {
    if code == LA_ERROR_APP_CANCEL {
        Error::AppCanceled
    } else if code == LA_ERROR_AUTHENTICATION_FAILED {
        Error::Authentication
    } else if code == LA_ERROR_BIOMETRY_DISCONNECTED {
        Error::BiometryDisconnected
    } else if code == LA_ERROR_BIOMETRY_LOCKOUT {
        Error::Exhausted
    } else if code == LA_ERROR_BIOMETRY_NOT_AVAILABLE {
        Error::Unavailable
    } else if code == LA_ERROR_BIOMETRY_NOT_ENROLLED {
        Error::NotEnrolled
    } else if code == LA_ERROR_BIOMETRY_NOT_PAIRED {
        Error::NotPaired
    } else if code == LA_ERROR_INVALID_CONTEXT {
        Error::Unknown
    } else if code == LA_ERROR_INVALID_DIMENSIONS {
        Error::InvalidDimensions
    } else if code == LA_ERROR_NOT_INTERACTIVE {
        Error::NotInteractive
    } else if code == LA_ERROR_PASSCODE_NOT_SET {
        Error::PasscodeNotSet
    } else if code == LA_ERROR_SYSTEM_CANCEL {
        Error::SystemCanceled
    } else if code == LA_ERROR_USER_CANCEL {
        Error::UserCanceled
    } else if code == LA_ERROR_USER_FALLBACK {
        Error::UserFallback
    } else if code == LA_ERROR_COMPANION_NOT_AVAILABLE {
        Error::CompanionNotAvailable
    } else {
        Error::Unknown
    }
}

/// Maps a native local-authentication error code into the taxonomy; see
/// [`spec_map_error_code`].
pub fn map_error_code(code: i64) -> (e: Error)
    ensures
        e == spec_map_error_code(code),
{
    match code {
        LA_ERROR_APP_CANCEL => Error::AppCanceled,
        LA_ERROR_AUTHENTICATION_FAILED => Error::Authentication,
        LA_ERROR_BIOMETRY_DISCONNECTED => Error::BiometryDisconnected,
        LA_ERROR_BIOMETRY_LOCKOUT => Error::Exhausted,
        LA_ERROR_BIOMETRY_NOT_AVAILABLE => Error::Unavailable,
        LA_ERROR_BIOMETRY_NOT_ENROLLED => Error::NotEnrolled,
        LA_ERROR_BIOMETRY_NOT_PAIRED => Error::NotPaired,
        LA_ERROR_INVALID_CONTEXT => Error::Unknown,
        LA_ERROR_INVALID_DIMENSIONS => Error::InvalidDimensions,
        LA_ERROR_NOT_INTERACTIVE => Error::NotInteractive,
        LA_ERROR_PASSCODE_NOT_SET => Error::PasscodeNotSet,
        LA_ERROR_SYSTEM_CANCEL => Error::SystemCanceled,
        LA_ERROR_USER_CANCEL => Error::UserCanceled,
        LA_ERROR_USER_FALLBACK => Error::UserFallback,
        LA_ERROR_COMPANION_NOT_AVAILABLE => Error::CompanionNotAvailable,
        _ => Error::Unknown,
    }
}

/// The submission result of one Apple attempt: a failed pre-evaluation
/// check surfaces synchronously, mapped through the error table; once
/// the check passes, the evaluate call itself always submits.
pub open spec fn spec_submission(resp: AppleResponse) -> Result<(), Error> {
    match resp.precheck_error {
        Some(code) => Err(spec_map_error_code(code)),
        None => Ok(()),
    }
}

/// What the completion block delivers to the caller's callback: nothing
/// if the pre-evaluation check already failed (the block is never
/// created) or while the platform has not yet replied; otherwise the
/// reply's outcome, exactly once.
pub open spec fn spec_outcome(resp: AppleResponse) -> Option<Result<(), Error>> {
    if resp.precheck_error is Some {
        None
    } else {
        match resp.reply {
            Some(reply) => Some(spec_evaluate_reply(reply)),
            None => None,
        }
    }
}

} // verus!
