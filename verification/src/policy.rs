//! The policy model and its per-platform compilation.
//!
//! A [`PolicyBuilder`] accumulates the authenticator classes a caller will
//! accept. [`PolicyBuilder::build`] compiles those flags, for one target
//! platform, into the discrete policy value that platform can express, or
//! rejects the combination outright. Compilation is total and pure: every
//! flag combination either appears in the platform's legality table and
//! maps to one native policy value, or yields `None`. An unsatisfiable
//! request is never silently relaxed to a weaker one.

use vstd::prelude::*;

use crate::Platform;

verus! {

/// A biometric strength class.
///
/// Only Android distinguishes the two classes; every other platform
/// treats any present value as "enable biometrics".
#[derive(Debug, Clone, Copy, PartialEq, Eq, Structural)]
pub enum BiometricStrength {
    Strong,
    Weak,
}

/// The native policy constants of the Apple local-authentication service.
#[derive(Debug, Clone, Copy, PartialEq, Eq, Structural)]
pub enum ApplePolicy {
    /// Any device-owner authentication: biometrics or passcode.
    Authentication,
    /// Biometric authentication only.
    Biometrics,
    /// Biometric authentication or a paired companion device.
    BiometricsOrCompanion,
    /// A paired companion device only.
    Companion,
    /// Device-owner authentication requiring the watch to be worn.
    AuthenticationWithWristDetection,
}

/// The platform-compiled form of a policy.
#[derive(Debug, Clone, Copy, PartialEq, Eq, Structural)]
pub enum PolicyKind {
    /// Android stores the requested strength and password fallback for the
    /// prompt's allowed-authenticators bitmask.
    Android { strength: BiometricStrength, password: bool },
    /// A policy constant for an Apple phone or desktop target.
    Apple { policy: ApplePolicy },
    /// A policy constant for the Apple watch target.
    AppleWatch { policy: ApplePolicy },
    /// The Windows consent API offers exactly one configuration.
    Windows,
}

impl PolicyKind {
    /// The platform this compiled policy belongs to.
    pub open spec fn platform(self) -> Platform {
        match self {
            PolicyKind::Android { .. } => Platform::Android,
            PolicyKind::Apple { .. } => Platform::Apple,
            PolicyKind::AppleWatch { .. } => Platform::AppleWatch,
            PolicyKind::Windows => Platform::Windows,
        }
    }
}

/// An authentication policy: the immutable result of a successful
/// [`PolicyBuilder::build`]. Only `build` constructs one, so a `Policy`
/// always holds a value from its platform's legality table.
#[derive(Debug, Clone, Copy)]
pub struct Policy {
    pub(crate) kind: PolicyKind,
}

impl View for Policy {
    type V = PolicyKind;

    closed spec fn view(&self) -> PolicyKind {
        self.kind
    }
}

impl Policy {
    /// The compiled form, for the backends' dispatch.
    pub(crate) fn kind(&self) -> (k: PolicyKind)
        ensures
            k == self@,
    {
        self.kind
    }

    /// The platform this policy was compiled for.
    pub fn platform(&self) -> (p: Platform)
        ensures
            p == self@.platform(),
    {
        match self.kind {
            PolicyKind::Android { .. } => Platform::Android,
            PolicyKind::Apple { .. } => Platform::Apple,
            PolicyKind::AppleWatch { .. } => Platform::AppleWatch,
            PolicyKind::Windows => Platform::Windows,
        }
    }
}

/// The compiled form a policy option holds, for stating what the
/// compilation functions return.
pub open spec fn compiled_kind(r: Option<Policy>) -> Option<PolicyKind> {
    match r {
        Some(p) => Some(p@),
        None => None,
    }
}

/// A builder for conveniently defining a policy.
///
/// The default value enables every option, which maximizes the chance
/// that some platform-legal combination remains after compilation; the
/// platforms accept disjoint combinations, so enabling everything is the
/// portable default.
#[derive(Debug, Clone, Copy, PartialEq, Eq, Structural)]
pub struct PolicyBuilder {
    pub biometrics: Option<BiometricStrength>,
    pub password: bool,
    pub companion: bool,
    pub wrist_detection: bool,
}

impl Default for PolicyBuilder {
    /// The default builder enables every option, like [`PolicyBuilder::new`].
    fn default() -> (r: Self)
        ensures
            r.biometrics == Some(BiometricStrength::Strong),
            r.password,
            r.companion,
            r.wrist_detection,
    {
        Self::new()
    }
}

impl PolicyBuilder {
    /// Returns a new builder with every option enabled.
    pub fn new() -> (r: Self)
        ensures
            r.biometrics == Some(BiometricStrength::Strong),
            r.password,
            r.companion,
            r.wrist_detection,
    {
        Self {
            biometrics: Some(BiometricStrength::Strong),
            password: true,
            companion: true,
            wrist_detection: true,
        }
    }

    /// Configures biometric authentication with the given strength, or
    /// disables it with `None`.
    #[must_use]
    pub fn biometrics(self, strength: Option<BiometricStrength>) -> (r: Self)
        ensures
            r.biometrics == strength,
            r.password == self.password,
            r.companion == self.companion,
            r.wrist_detection == self.wrist_detection,
    {
        Self { biometrics: strength, ..self }
    }

    /// Sets whether the policy accepts a password.
    #[must_use]
    pub fn password(self, password: bool) -> (r: Self)
        ensures
            r.biometrics == self.biometrics,
            r.password == password,
            r.companion == self.companion,
            r.wrist_detection == self.wrist_detection,
    {
        Self { password, ..self }
    }

    /// Sets whether the policy accepts a proximity companion device, such
    /// as a paired watch. Only the Apple phone and desktop targets
    /// distinguish this flag.
    #[must_use]
    pub fn companion(self, companion: bool) -> (r: Self)
        ensures
            r.biometrics == self.biometrics,
            r.password == self.password,
            r.companion == companion,
            r.wrist_detection == self.wrist_detection,
    {
        Self { companion, ..self }
    }

    /// Sets whether the companion device must be on the user's wrist.
    /// Only the Apple watch target distinguishes this flag.
    #[must_use]
    pub fn wrist_detection(self, wrist_detection: bool) -> (r: Self)
        ensures
            r.biometrics == self.biometrics,
            r.password == self.password,
            r.companion == self.companion,
            r.wrist_detection == wrist_detection,
    {
        Self { wrist_detection, ..self }
    }

    /// Compiles the accumulated flags for the given target platform.
    ///
    /// Returns `None` exactly when the combination has no legal
    /// representation on that platform.
    #[must_use]
    pub fn build(self, platform: Platform) -> (r: Option<Policy>)
        ensures
            compiled_kind(r) == spec_build(self, platform),
    {
        match platform {
            Platform::Android => compile_android(self),
            Platform::Apple => compile_apple(self),
            Platform::AppleWatch => compile_apple_watch(self),
            Platform::Windows => compile_windows(self),
            Platform::Linux => None,
            Platform::Unsupported => None,
        }
    }
}

/// The full compilation table: what `build` returns for every flag
/// combination on every platform.
pub open spec fn spec_build(b: PolicyBuilder, platform: Platform) -> Option<PolicyKind> {
    match platform {
        Platform::Android => spec_compile_android(b),
        Platform::Apple => spec_compile_apple(b),
        Platform::AppleWatch => spec_compile_apple_watch(b),
        Platform::Windows => spec_compile_windows(b),
        Platform::Linux => None,
        Platform::Unsupported => None,
    }
}

/// Android legality: biometrics requested and password fallback enabled.
pub open spec fn spec_compile_android(b: PolicyBuilder) -> Option<PolicyKind> {
    match b.biometrics {
        Some(strength) => if b.password {
            Some(PolicyKind::Android { strength, password: b.password })
        } else {
            None
        },
        None => None,
    }
}

/// Compiles for the Android target: legal iff biometrics are requested
/// and the password fallback is enabled; the strength class is kept for
/// the prompt's allowed-authenticators bitmask.
pub fn compile_android(b: PolicyBuilder) -> (r: Option<Policy>)
    ensures
        compiled_kind(r) == spec_compile_android(b),
{
    match b.biometrics {
        Some(strength) => if b.password {
            Some(Policy { kind: PolicyKind::Android { strength, password: b.password } })
        } else {
            None
        },
        None => None,
    }
}

/// Apple phone/desktop legality: each legal combination maps to its own
/// native policy constant.
pub open spec fn spec_compile_apple(b: PolicyBuilder) -> Option<PolicyKind> {
    if b.biometrics is Some && b.password {
        Some(PolicyKind::Apple { policy: ApplePolicy::Authentication })
    } else if b.biometrics is Some && !b.password && b.companion {
        Some(PolicyKind::Apple { policy: ApplePolicy::BiometricsOrCompanion })
    } else if b.biometrics is Some && !b.password && !b.companion {
        Some(PolicyKind::Apple { policy: ApplePolicy::Biometrics })
    } else if b.biometrics is None && !b.password && b.companion {
        Some(PolicyKind::Apple { policy: ApplePolicy::Companion })
    } else {
        None
    }
}

/// Compiles for the Apple phone and desktop targets. The legal
/// combinations are biometrics with password, biometrics with companion,
/// biometrics alone, and companion alone; anything else — in particular
/// password alone — is rejected.
pub fn compile_apple(b: PolicyBuilder) -> (r: Option<Policy>)
    ensures
        compiled_kind(r) == spec_compile_apple(b),
{
    if b.biometrics.is_some() && b.password {
        Some(Policy { kind: PolicyKind::Apple { policy: ApplePolicy::Authentication } })
    } else if b.biometrics.is_some() && !b.password && b.companion {
        Some(Policy { kind: PolicyKind::Apple { policy: ApplePolicy::BiometricsOrCompanion } })
    } else if b.biometrics.is_some() && !b.password && !b.companion {
        Some(Policy { kind: PolicyKind::Apple { policy: ApplePolicy::Biometrics } })
    } else if b.biometrics.is_none() && !b.password && b.companion {
        Some(Policy { kind: PolicyKind::Apple { policy: ApplePolicy::Companion } })
    } else {
        None
    }
}

/// Apple watch legality: keyed on the password and wrist-detection flags
/// alone; the biometrics and companion flags are ignored on this target.
pub open spec fn spec_compile_apple_watch(b: PolicyBuilder) -> Option<PolicyKind> {
    if b.password && b.wrist_detection {
        Some(PolicyKind::AppleWatch { policy: ApplePolicy::AuthenticationWithWristDetection })
    } else if b.password && !b.wrist_detection {
        Some(PolicyKind::AppleWatch { policy: ApplePolicy::Authentication })
    } else {
        None
    }
}

/// Compiles for the Apple watch target.
pub fn compile_apple_watch(b: PolicyBuilder) -> (r: Option<Policy>)
    ensures
        compiled_kind(r) == spec_compile_apple_watch(b),
{
    if b.password && b.wrist_detection {
        Some(
            Policy {
                kind: PolicyKind::AppleWatch {
                    policy: ApplePolicy::AuthenticationWithWristDetection,
                },
            },
        )
    } else if b.password && !b.wrist_detection {
        Some(Policy { kind: PolicyKind::AppleWatch { policy: ApplePolicy::Authentication } })
    } else {
        None
    }
}

/// Windows legality: the consent API always offers every configured
/// authenticator, so the request is legal only when both biometrics and
/// password are enabled. There is no native way to express "biometrics
/// only" or "password only", and the builder fails closed rather than
/// silently enabling an unintended fallback.
pub open spec fn spec_compile_windows(b: PolicyBuilder) -> Option<PolicyKind> {
    if b.biometrics is Some && b.password {
        Some(PolicyKind::Windows)
    } else {
        None
    }
}

/// Compiles for the Windows target.
pub fn compile_windows(b: PolicyBuilder) -> (r: Option<Policy>)
    ensures
        compiled_kind(r) == spec_compile_windows(b),
{
    if b.biometrics.is_some() && b.password {
        Some(Policy { kind: PolicyKind::Windows })
    } else {
        None
    }
}

} // verus!
