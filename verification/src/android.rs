//! The Android backend: the native-bridge state machine.
//!
//! Android offers no compile-time registration point for a foreign-language
//! callback, so the backend behaves like a minimal foreign-function host:
//! a helper class is loaded once into the host virtual machine, a native
//! entry point is registered on it once, and each authentication attempt
//! constructs a fresh helper instance carrying an opaque integer handle.
//! The handle names a single-use completion ticket whose ownership passes
//! to the native side until the entry point fires exactly once and
//! reclaims it.
//!
//! The decisions of that protocol live here as verified functions from
//! bridge state and native events to the next state and outcome; the host
//! glue performs the actual virtual-machine calls and reports each call's
//! outcome back as a plain event.

use vstd::prelude::*;

use crate::error::Error;
use crate::policy::{BiometricStrength, Policy, PolicyKind};

verus! {

/// The process-wide progress of loading the helper class and registering
/// the native entry point on it. Both steps happen at most once and are
/// never repeated after success.
#[derive(Debug, Clone, Copy, PartialEq, Eq, Structural)]
pub enum ClassState {
    /// The helper class has not been loaded into the host runtime.
    Uninitialized,
    /// The helper class is loaded but the native entry point is not yet
    /// registered on it.
    ClassLoaded,
    /// The helper class is loaded and the native entry point registered;
    /// attempts can be submitted.
    Registered,
}

/// The outcomes of the one-time setup calls into the host runtime.
#[derive(Debug, Clone, Copy, PartialEq, Eq, Structural)]
pub struct InitEvents {
    /// The in-memory class load returned a class object.
    pub class_loaded: bool,
    /// Registering the native entry point on the class succeeded.
    pub method_registered: bool,
}

/// The outcomes of the per-attempt construction calls into the host
/// runtime, in the order the backend makes them.
#[derive(Debug, Clone, Copy, PartialEq, Eq, Structural)]
pub struct SubmissionEvents {
    /// A fresh helper instance carrying the ticket handle was constructed.
    pub callback_constructed: bool,
    /// The cancellation-signal object was constructed.
    pub signal_constructed: bool,
    /// The host activity supplied its main executor.
    pub executor_obtained: bool,
    /// The native prompt object was built from the policy and text.
    pub prompt_constructed: bool,
    /// The native verification call itself returned without error.
    pub authenticate_accepted: bool,
}

impl SubmissionEvents {
    /// True when every construction step succeeded.
    pub open spec fn all_ok(self) -> bool {
        &&& self.callback_constructed
        &&& self.signal_constructed
        &&& self.executor_obtained
        &&& self.prompt_constructed
        &&& self.authenticate_accepted
    }
}

/// The three signals the platform passes to the registered native entry
/// point when it completes one attempt.
#[derive(Debug, Clone, Copy, PartialEq, Eq, Structural)]
pub struct CompletionSignals {
    /// The platform's error code; zero when no error occurred.
    pub error_code: i32,
    /// The platform reported an authentication failure.
    pub failed: bool,
    /// The platform's help code; zero when no hint was given.
    pub help_code: i32,
}

/// Everything the host runtime reports for one Android attempt: the
/// one-time setup outcomes, the per-attempt construction outcomes, and
/// the completion signals once the platform has finished (`None` while
/// the prompt is still outstanding).
#[derive(Debug, Clone, Copy, PartialEq, Eq, Structural)]
pub struct AndroidResponse {
    pub init: InitEvents,
    pub submission: SubmissionEvents,
    pub completion: Option<CompletionSignals>,
}

/// The arena of single-use completion tickets, one per in-flight attempt.
/// A slot is `true` while its allocation is owned by the native side and
/// `false` once reclaimed; the platform-visible handle is the slot index.
pub struct TicketStore {
    slots: Vec<bool>,
}

impl View for TicketStore {
    type V = Seq<bool>;

    closed spec fn view(&self) -> Seq<bool> {
        self.slots@
    }
}

impl TicketStore {
    /// Creates an empty store.
    pub fn new() -> (r: Self)
        ensures
            r@ == Seq::<bool>::empty(),
    {
        Self { slots: Vec::new() }
    }

    /// True while the ticket named by `handle` is live: allocated and not
    /// yet reclaimed.
    pub open spec fn spec_is_live(tickets: Seq<bool>, handle: int) -> bool {
        0 <= handle < tickets.len() && tickets[handle]
    }

    /// Checks whether the ticket named by `handle` is live.
    pub fn is_live(&self, handle: usize) -> (r: bool)
        ensures
            r == Self::spec_is_live(self@, handle as int),
    {
        handle < self.slots.len() && self.slots[handle]
    }

    /// Allocates a fresh ticket and returns its handle.
    pub(crate) fn issue(&mut self) -> (handle: usize)
        ensures
            final(self)@ == old(self)@.push(true),
            handle == old(self)@.len(),
    {
        let handle = self.slots.len();
        self.slots.push(true);
        handle
    }

    /// Reclaims the ticket that was allocated last, before its handle was
    /// ever handed to the native side.
    pub(crate) fn retract(&mut self)
        requires
            old(self)@.len() > 0,
        ensures
            final(self)@ == old(self)@.drop_last(),
    {
        let _ = self.slots.pop();
    }

    /// Reclaims a live ticket by handle.
    pub(crate) fn consume(&mut self, handle: usize)
        requires
            Self::spec_is_live(old(self)@, handle as int),
        ensures
            final(self)@ == old(self)@.update(handle as int, false),
    {
        self.slots[handle] = false;
    }
}

/// The Android bridge: the memoized class-registration state plus the
/// arena of in-flight completion tickets.
pub struct Bridge {
    pub class_state: ClassState,
    pub tickets: TicketStore,
}

/// The class-registration state after one setup pass with the given
/// event outcomes. Setup is idempotent: once registered, the events are
/// not consulted and nothing is repeated.
pub open spec fn spec_init_state(state: ClassState, ev: InitEvents) -> ClassState {
    match state {
        ClassState::Registered => ClassState::Registered,
        ClassState::ClassLoaded => if ev.method_registered {
            ClassState::Registered
        } else {
            ClassState::ClassLoaded
        },
        ClassState::Uninitialized => if !ev.class_loaded {
            ClassState::Uninitialized
        } else if ev.method_registered {
            ClassState::Registered
        } else {
            ClassState::ClassLoaded
        },
    }
}

impl Bridge {
    /// Creates a bridge with nothing loaded and no tickets outstanding.
    pub fn new() -> (r: Self)
        ensures
            r.class_state == ClassState::Uninitialized,
            r.tickets@ == Seq::<bool>::empty(),
    {
        Self { class_state: ClassState::Uninitialized, tickets: TicketStore::new() }
    }

    /// Runs the one-time setup as far as the host runtime allows: loads
    /// the helper class if not yet loaded, then registers the native
    /// entry point if not yet registered. Succeeds exactly when the
    /// bridge ends up registered; already-completed steps are never
    /// repeated, so the pass is idempotent.
    pub fn initialize(&mut self, ev: &InitEvents) -> (r: Result<(), Error>)
        ensures
            final(self).class_state == spec_init_state(old(self).class_state, *ev),
            final(self).tickets@ == old(self).tickets@,
            r is Ok <==> final(self).class_state == ClassState::Registered,
            r matches Err(e) ==> e == Error::Unknown,
    {
        match self.class_state {
            ClassState::Registered => Ok(()),
            ClassState::ClassLoaded => {
                if ev.method_registered {
                    self.class_state = ClassState::Registered;
                    Ok(())
                } else {
                    Err(Error::Unknown)
                }
            },
            ClassState::Uninitialized => {
                if !ev.class_loaded {
                    Err(Error::Unknown)
                } else if ev.method_registered {
                    self.class_state = ClassState::Registered;
                    Ok(())
                } else {
                    self.class_state = ClassState::ClassLoaded;
                    Err(Error::Unknown)
                }
            },
        }
    }

    /// Submits one authentication attempt: allocates the completion
    /// ticket whose handle the fresh helper instance will carry, then
    /// walks the per-attempt construction steps. If any step fails, the
    /// ticket is reclaimed synchronously — before any native completion
    /// could be scheduled — and the attempt reports a submission error;
    /// no callback will ever fire for it.
    pub fn submit(&mut self, policy: &Policy, ev: &SubmissionEvents) -> (r: Result<usize, Error>)
        requires
            old(self).class_state == ClassState::Registered,
            old(self).tickets@.len() < usize::MAX,
            policy@ is Android,
        ensures
            final(self).class_state == old(self).class_state,
            ev.all_ok() ==> r == Ok::<usize, Error>(old(self).tickets@.len() as usize)
                && final(self).tickets@ == old(self).tickets@.push(true),
            !ev.all_ok() ==> r == Err::<usize, Error>(Error::Unknown)
                && final(self).tickets@ == old(self).tickets@,
    {
        let handle = self.tickets.issue();
        if !ev.callback_constructed || !ev.signal_constructed || !ev.executor_obtained
            || !ev.prompt_constructed || !ev.authenticate_accepted {
            self.tickets.retract();
            proof {
                assert(old(self).tickets@.push(true).drop_last() =~= old(self).tickets@);
            }
            Err(Error::Unknown)
        } else {
            Ok(handle)
        }
    }

    /// The native completion entry point, as seen from the bridge: decode
    /// the handle back into its ticket, reclaim the allocation, classify
    /// the three signals, and hand the outcome on — exactly once. A
    /// handle whose ticket is not live (never allocated, or already
    /// consumed) fires nothing and changes nothing.
    pub fn complete(&mut self, handle: usize, signals: &CompletionSignals) -> (r: Option<
        Result<(), Error>,
    >)
        ensures
            final(self).class_state == old(self).class_state,
            final(self).tickets@ == spec_complete_tickets(old(self).tickets@, handle as int),
            r == spec_complete_fired(old(self).tickets@, handle as int, *signals),
    {
        if self.tickets.is_live(handle) {
            self.tickets.consume(handle);
            Some(classify_completion(signals))
        } else {
            None
        }
    }
}

/// The ticket arena after a completion arrives for `handle`: a live
/// ticket is reclaimed, anything else is left untouched.
pub open spec fn spec_complete_tickets(tickets: Seq<bool>, handle: int) -> Seq<bool> {
    if TicketStore::spec_is_live(tickets, handle) {
        tickets.update(handle, false)
    } else {
        tickets
    }
}

/// What a completion for `handle` delivers to the caller's callback:
/// the classified outcome if the ticket was live, nothing otherwise.
pub open spec fn spec_complete_fired(
    tickets: Seq<bool>,
    handle: int,
    signals: CompletionSignals,
) -> Option<Result<(), Error>> {
    if TicketStore::spec_is_live(tickets, handle) {
        Some(spec_classify(signals))
    } else {
        None
    }
}

/// Law: the completion entry point is single-fire. Starting from a live
/// ticket, the first completion reclaims the allocation and fires the
/// callback; a second completion with the same handle finds the ticket
/// consumed, fires nothing, and leaves the arena unchanged — the
/// allocation is reclaimed exactly once and the callback delivered
/// exactly once, whatever the signals carry.
pub proof fn lemma_single_fire(
    tickets: Seq<bool>,
    handle: int,
    first: CompletionSignals,
    second: CompletionSignals,
)
    requires
        TicketStore::spec_is_live(tickets, handle),
    ensures
        ({
            let after_first = spec_complete_tickets(tickets, handle);
            &&& spec_complete_fired(tickets, handle, first) == Some(spec_classify(first))
            &&& !TicketStore::spec_is_live(after_first, handle)
            &&& spec_complete_fired(after_first, handle, second) is None
            &&& spec_complete_tickets(after_first, handle) == after_first
        }),
{
}

/// Classifies the three completion signals into one outcome: a reported
/// failure is an authentication error; otherwise a nonzero error code
/// maps through the Android error table; a help hint with no error is
/// collapsed to [`Error::Unknown`]; and with none of the three, the
/// verification succeeded.
pub open spec fn spec_classify(signals: CompletionSignals) -> Result<(), Error> {
    if signals.failed {
        Err(Error::Authentication)
    } else if signals.error_code != 0 {
        Err(spec_map_error_code(signals.error_code))
    } else if signals.help_code != 0 {
        Err(Error::Unknown)
    } else {
        Ok(())
    }
}

/// Classifies completion signals; see [`spec_classify`].
pub fn classify_completion(signals: &CompletionSignals) -> (r: Result<(), Error>)
    ensures
        r == spec_classify(*signals),
{
    if signals.failed {
        Err(Error::Authentication)
    } else if signals.error_code != 0 {
        Err(map_error_code(signals.error_code))
    } else if signals.help_code != 0 {
        Err(Error::Unknown)
    } else {
        Ok(())
    }
}

/// The biometric-prompt error code for an operation canceled by the
/// system.
pub const BIOMETRIC_ERROR_CANCELED: i32 = 5;

/// The error code for biometric hardware that is not present.
pub const BIOMETRIC_ERROR_HW_NOT_PRESENT: i32 = 12;

/// The error code for biometric hardware that is currently unavailable.
pub const BIOMETRIC_ERROR_HW_UNAVAILABLE: i32 = 1;

/// The error code for a lockout after too many failed attempts.
pub const BIOMETRIC_ERROR_LOCKOUT: i32 = 7;

/// The error code for a permanent lockout.
pub const BIOMETRIC_ERROR_LOCKOUT_PERMANENT: i32 = 9;

/// The error code for a device with no enrolled biometrics.
pub const BIOMETRIC_ERROR_NO_BIOMETRICS: i32 = 11;

/// The error code for a device with no PIN, pattern or password set.
pub const BIOMETRIC_ERROR_NO_DEVICE_CREDENTIAL: i32 = 14;

/// The error code for insufficient storage to complete enrollment.
pub const BIOMETRIC_ERROR_NO_SPACE: i32 = 4;

/// The error code for a pending security update.
pub const BIOMETRIC_ERROR_SECURITY_UPDATE_REQUIRED: i32 = 15;

/// The error code for a timed-out request.
pub const BIOMETRIC_ERROR_TIMEOUT: i32 = 3;

/// The error code for a sensor that could not process the input.
pub const BIOMETRIC_ERROR_UNABLE_TO_PROCESS: i32 = 2;

/// The error code for an operation canceled by the user.
pub const BIOMETRIC_ERROR_USER_CANCELED: i32 = 10;

/// The error code range reserved for vendor-specific failures.
pub const BIOMETRIC_ERROR_VENDOR: i32 = 8;

/// The sentinel reported when no authentication method is configured.
pub const BIOMETRIC_NO_AUTHENTICATION: i32 = -1;

/// The Android error table: every documented biometric-prompt error code
/// maps to exactly one taxonomy variant, and every other code degrades to
/// [`Error::Unknown`].
pub open spec fn spec_map_error_code(code: i32) -> Error {
    if code == BIOMETRIC_ERROR_CANCELED {
        Error::SystemCanceled
    } else if code == BIOMETRIC_ERROR_HW_NOT_PRESENT {
        Error::Unavailable
    } else if code == BIOMETRIC_ERROR_HW_UNAVAILABLE {
        Error::Unavailable
    } else if code == BIOMETRIC_ERROR_LOCKOUT {
        Error::Exhausted
    } else if code == BIOMETRIC_ERROR_LOCKOUT_PERMANENT {
        Error::Exhausted
    } else if code == BIOMETRIC_ERROR_NO_BIOMETRICS {
        Error::Unavailable
    } else if code == BIOMETRIC_ERROR_NO_DEVICE_CREDENTIAL {
        Error::Unavailable
    } else if code == BIOMETRIC_ERROR_NO_SPACE {
        Error::Unknown
    } else if code == BIOMETRIC_ERROR_SECURITY_UPDATE_REQUIRED {
        Error::UpdateRequired
    } else if code == BIOMETRIC_ERROR_TIMEOUT {
        Error::Timeout
    } else if code == BIOMETRIC_ERROR_UNABLE_TO_PROCESS {
        Error::Unknown
    } else if code == BIOMETRIC_ERROR_USER_CANCELED {
        Error::UserCanceled
    } else if code == BIOMETRIC_ERROR_VENDOR {
        Error::Unknown
    } else if code == BIOMETRIC_NO_AUTHENTICATION {
        Error::Unavailable
    } else {
        Error::Unknown
    }
}

/// Maps a native biometric-prompt error code into the taxonomy; see
/// [`spec_map_error_code`].
pub fn map_error_code(code: i32) -> (e: Error)
    ensures
        e == spec_map_error_code(code),
{
    match code {
        BIOMETRIC_ERROR_CANCELED => Error::SystemCanceled,
        BIOMETRIC_ERROR_HW_NOT_PRESENT => Error::Unavailable,
        BIOMETRIC_ERROR_HW_UNAVAILABLE => Error::Unavailable,
        BIOMETRIC_ERROR_LOCKOUT => Error::Exhausted,
        BIOMETRIC_ERROR_LOCKOUT_PERMANENT => Error::Exhausted,
        BIOMETRIC_ERROR_NO_BIOMETRICS => Error::Unavailable,
        BIOMETRIC_ERROR_NO_DEVICE_CREDENTIAL => Error::Unavailable,
        BIOMETRIC_ERROR_NO_SPACE => Error::Unknown,
        BIOMETRIC_ERROR_SECURITY_UPDATE_REQUIRED => Error::UpdateRequired,
        BIOMETRIC_ERROR_TIMEOUT => Error::Timeout,
        BIOMETRIC_ERROR_UNABLE_TO_PROCESS => Error::Unknown,
        BIOMETRIC_ERROR_USER_CANCELED => Error::UserCanceled,
        BIOMETRIC_ERROR_VENDOR => Error::Unknown,
        BIOMETRIC_NO_AUTHENTICATION => Error::Unavailable,
        _ => Error::Unknown,
    }
}

/// The allowed-authenticator bit for strong biometrics.
pub const AUTHENTICATOR_BIOMETRIC_STRONG: i32 = 0xf;

/// The allowed-authenticator bit for weak biometrics.
pub const AUTHENTICATOR_BIOMETRIC_WEAK: i32 = 0xff;

/// The allowed-authenticator bit for the device credential (PIN, pattern
/// or password).
pub const AUTHENTICATOR_DEVICE_CREDENTIAL: i32 = 0x8000;

/// The allowed-authenticators bitmask the native prompt is configured
/// with: the strength class's bits, plus the device credential when the
/// policy accepts a password.
pub open spec fn spec_allowed_authenticators(strength: BiometricStrength, password: bool) -> i32 {
    (match strength {
        BiometricStrength::Strong => AUTHENTICATOR_BIOMETRIC_STRONG,
        BiometricStrength::Weak => AUTHENTICATOR_BIOMETRIC_WEAK,
    }) | (if password {
        AUTHENTICATOR_DEVICE_CREDENTIAL
    } else {
        0
    })
}

/// Computes the allowed-authenticators bitmask for a compiled Android
/// policy; see [`spec_allowed_authenticators`].
pub fn allowed_authenticators(policy: &Policy) -> (mask: i32)
    requires
        policy@ is Android,
    ensures
        policy@ matches PolicyKind::Android { strength, password } ==> mask
            == spec_allowed_authenticators(strength, password),
{
    match policy.kind() {
        PolicyKind::Android { strength, password } => {
            (match strength {
                BiometricStrength::Strong => AUTHENTICATOR_BIOMETRIC_STRONG,
                BiometricStrength::Weak => AUTHENTICATOR_BIOMETRIC_WEAK,
            }) | (if password {
                AUTHENTICATOR_DEVICE_CREDENTIAL
            } else {
                0
            })
        },
        _ => vstd::pervasive::unreached(),
    }
}

} // verus!
