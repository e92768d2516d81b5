//! The unified error taxonomy that every backend maps into.

use vstd::prelude::*;

verus! {

/// An error produced during authentication.
///
/// This is the one closed, platform-independent set of failure reasons.
/// Every native result code a backend can observe maps to exactly one
/// variant; codes outside a backend's table degrade to [`Error::Unknown`]
/// rather than leaking raw platform values.
#[derive(Debug, Clone, Copy, PartialEq, Eq, Structural)]
pub enum Error {
    /// The user failed to provide valid credentials.
    Authentication,
    /// Authentication failed because there were too many failed attempts.
    Exhausted,
    /// The requested authentication method was unavailable.
    Unavailable,
    /// The user canceled authentication.
    UserCanceled,

    /// The app canceled authentication (Apple).
    AppCanceled,
    /// The system canceled authentication (Apple).
    SystemCanceled,
    /// Biometry works only through a removable accessory and the paired
    /// accessory is not connected (Apple).
    BiometryDisconnected,
    /// Biometry works only through a removable accessory and no accessory
    /// is paired (Apple).
    NotPaired,
    /// The user has no enrolled biometric identities (Apple).
    NotEnrolled,
    /// Displaying the required authentication user interface is forbidden
    /// (Apple).
    NotInteractive,
    /// An attempt to authenticate with a companion device failed (Apple).
    CompanionNotAvailable,
    /// The authentication user interface has invalid dimensions (Apple).
    InvalidDimensions,
    /// A passcode is not set on the device (Apple).
    PasscodeNotSet,
    /// The user tapped the fallback button but the policy offers no
    /// fallback method (Apple).
    UserFallback,

    /// A security update is required before biometrics can be used
    /// (Android).
    UpdateRequired,
    /// The verification request timed out (Android).
    Timeout,

    /// The biometric verifier device is busy with another operation
    /// (Windows).
    Busy,
    /// Group policy has disabled the biometric verifier device (Windows).
    DisabledByPolicy,
    /// No biometric verifier device is configured for this user (Windows).
    NotConfigured,

    /// An unknown error occurred.
    Unknown,
}

} // verus!
