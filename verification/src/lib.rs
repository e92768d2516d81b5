//! Cross-platform user-verification requests.
//!
//! The crate models one operation — asking the running platform to verify
//! that the current user is who they claim to be — behind a uniform API.
//! A [`PolicyBuilder`] collects the authenticator classes a caller will
//! accept and compiles them, per target platform, into a legal native
//! policy or a definite rejection; a [`Text`] bundle carries the prompt
//! strings with their platform-specific size limits; every backend maps
//! its native result codes into the one shared [`Error`] taxonomy.
//!
//! The native verification services themselves run outside this crate.
//! Each backend is therefore written as a decision core: a function from
//! the request and the plain-value events reported by the native layer
//! (construction outcomes, result codes, completion signals) to the
//! submission result and the single verification outcome. The host glue
//! performs the actual native calls and feeds the events back in as a
//! [`NativeResponse`].
//!
//! Reporting is two-tier by design. The value [`Context::authenticate`]
//! returns says only whether the request was *submitted* — whether the
//! native objects could be constructed and the question posed. Whether
//! the user actually proved their identity arrives separately, through
//! the one delivery into the caller's [`CompletionSink`]; a submission
//! error means that delivery never happens. Callers need the distinction:
//! a submission error calls for fixing the configuration, a verification
//! error for surfacing the outcome to the user.

use vstd::prelude::*;

pub mod android;
pub mod apple;
mod error;
mod policy;
mod sink;
pub mod text;
pub mod windows;

pub use android::{AndroidResponse, Bridge, ClassState, CompletionSignals, InitEvents,
    SubmissionEvents, TicketStore};
pub use apple::{AppleReply, AppleResponse};
pub use error::Error;
pub use policy::{ApplePolicy, BiometricStrength, Policy, PolicyBuilder, PolicyKind};
pub use sink::CompletionSink;
pub use text::{AndroidText, Text, WindowsText};
pub use windows::{FallbackResponse, WindowsResponse};

verus! {

/// The set of target platforms a policy can be compiled for.
#[derive(Debug, Clone, Copy, PartialEq, Eq, Structural)]
pub enum Platform {
    Android,
    Apple,
    AppleWatch,
    Windows,
    Linux,
    Unsupported,
}

/// The plain-value events the native layer reports for one attempt, in
/// the active backend's shape. The host glue performs the native calls
/// the backend directs and records each call's outcome here; a test can
/// script the same values directly.
#[derive(Debug, Clone, PartialEq, Eq)]
pub enum NativeResponse {
    Android(AndroidResponse),
    Apple(AppleResponse),
    Windows(WindowsResponse),
}

impl NativeResponse {
    /// True when the response comes from the backend that serves the
    /// given platform.
    pub open spec fn matches_platform(self, platform: Platform) -> bool {
        match self {
            NativeResponse::Android(_) => platform == Platform::Android,
            NativeResponse::Apple(_) => platform == Platform::Apple || platform
                == Platform::AppleWatch,
            NativeResponse::Windows(_) => platform == Platform::Windows,
        }
    }

    /// True when the native layer has definitively finished: the
    /// completion signals of an accepted request are present. The
    /// blocking entry point waits for exactly this.
    pub open spec fn completes(self) -> bool {
        match self {
            NativeResponse::Android(a) => a.completion is Some,
            NativeResponse::Apple(a) => a.reply is Some,
            NativeResponse::Windows(_) => true,
        }
    }
}

/// What a platform selector for a new [`Context`] looks like.
pub type RawContext = Platform;

/// Holds the state required to run authentication prompts: the target
/// platform and, for the Android backend, the bridge's class-registration
/// state and in-flight completion tickets. One `Context` is meant to live
/// for the whole application; it carries no secret material.
pub struct Context {
    pub platform: Platform,
    pub bridge: Bridge,
}

/// The submission result of one attempt: whether the active backend
/// could pose the question at all, given the native layer's reported
/// events. This is the first tier of the two-tier reporting; it says
/// nothing about whether the user verified.
pub open spec fn spec_submission(ctx: Context, resp: NativeResponse) -> Result<(), Error> {
    match resp {
        NativeResponse::Android(a) => if android::spec_init_state(ctx.bridge.class_state, a.init)
            != ClassState::Registered {
            Err(Error::Unknown)
        } else if a.submission.all_ok() {
            Ok(())
        } else {
            Err(Error::Unknown)
        },
        NativeResponse::Apple(a) => apple::spec_submission(a),
        NativeResponse::Windows(w) => windows::spec_submission(w),
    }
}

/// The verification outcome the native layer delivers for one attempt,
/// if it delivers one: the second tier of the two-tier reporting. It is
/// handed to the caller exactly when submission succeeded.
pub open spec fn spec_outcome(resp: NativeResponse) -> Option<Result<(), Error>> {
    match resp {
        NativeResponse::Android(a) => match a.completion {
            Some(signals) => Some(android::spec_classify(signals)),
            None => None,
        },
        NativeResponse::Apple(a) => apple::spec_outcome(a),
        NativeResponse::Windows(w) => windows::spec_outcome(w),
    }
}

/// What the blocking entry point returns: the submission error if the
/// question could not be posed, otherwise the one verification outcome.
pub open spec fn spec_blocking(ctx: Context, resp: NativeResponse) -> Result<(), Error> {
    match spec_submission(ctx, resp) {
        Err(e) => Err(e),
        Ok(()) => match spec_outcome(resp) {
            Some(outcome) => outcome,
            None => Err(Error::Unknown),
        },
    }
}

impl Context {
    /// Creates a new context for the given platform, with the Android
    /// bridge uninitialized and no attempts in flight.
    pub fn new(raw: RawContext) -> (r: Self)
        ensures
            r.platform == raw,
            r.bridge.class_state == ClassState::Uninitialized,
            r.bridge.tickets@ == Seq::<bool>::empty(),
    {
        Self { platform: raw, bridge: Bridge::new() }
    }

    /// Displays an authentication prompt using the given policy and text,
    /// with the native layer's events supplied as `response`.
    ///
    /// The returned value reports submission only: `Ok(())` means the
    /// prompt was posed, not that the user verified. The verification
    /// outcome is delivered into `sink` — exactly once when submission
    /// succeeded and the native layer completed, and never on a
    /// submission error.
    pub fn authenticate(
        &mut self,
        text: &Text,
        policy: &Policy,
        response: &NativeResponse,
        sink: &mut CompletionSink,
    ) -> (r: Result<(), Error>)
        requires
            policy@.platform() == old(self).platform,
            response.matches_platform(old(self).platform),
            old(sink).is_pending(),
            old(self).bridge.tickets@.len() < usize::MAX,
        ensures
            final(self).platform == old(self).platform,
            r == spec_submission(*old(self), *response),
            ({
                let fired = if r is Ok {
                    spec_outcome(*response)
                } else {
                    None::<Result<(), Error>>
                };
                match fired {
                    Some(outcome) => final(sink).outcome() == Some(outcome),
                    None => final(sink).is_pending(),
                }
            }),
            match *response {
                NativeResponse::Android(a) => final(self).bridge.class_state
                    == android::spec_init_state(old(self).bridge.class_state, a.init) && if r
                    is Ok {
                    final(self).bridge.tickets@ == old(self).bridge.tickets@.push(
                        a.completion is None,
                    )
                } else {
                    final(self).bridge.tickets@ == old(self).bridge.tickets@
                },
                _ => final(self).bridge == old(self).bridge,
            },
    {
        // the prompt text parameterizes the native UI alone: the host
        // glue hands it to the platform, no decision here reads it
        let _ = text;
        match response {
            NativeResponse::Android(a) => {
                match self.bridge.initialize(&a.init) {
                    Ok(()) => {},
                    Err(e) => {
                        return Err(e);
                    },
                }
                let handle = match self.bridge.submit(policy, &a.submission) {
                    Ok(h) => h,
                    Err(e) => {
                        return Err(e);
                    },
                };
                match &a.completion {
                    Some(signals) => {
                        match self.bridge.complete(handle, signals) {
                            Some(outcome) => {
                                sink.deliver(outcome);
                            },
                            None => {},
                        }
                        proof {
                            assert(self.bridge.tickets@ =~= old(self).bridge.tickets@.push(false));
                        }
                    },
                    None => {},
                }
                Ok(())
            },
            NativeResponse::Apple(a) => {
                match a.precheck_error {
                    Some(code) => Err(apple::map_error_code(code)),
                    None => {
                        match &a.reply {
                            Some(reply) => {
                                sink.deliver(apple::evaluate_reply(reply));
                            },
                            None => {},
                        }
                        Ok(())
                    },
                }
            },
            NativeResponse::Windows(w) => {
                if !w.availability_requested {
                    return Err(Error::Unknown);
                }
                let available = match w.availability {
                    Some(code) => code == windows::AVAILABILITY_AVAILABLE,
                    None => false,
                };
                if available {
                    if !w.verification_requested {
                        return Err(Error::Unknown);
                    }
                    match w.verification {
                        Some(code) => {
                            sink.deliver(windows::convert(code));
                            Ok(())
                        },
                        None => Err(Error::Unknown),
                    }
                } else {
                    sink.deliver(windows::fallback_authenticate(&w.fallback));
                    Ok(())
                }
            },
        }
    }

    /// Submits the request and waits for the one verification outcome,
    /// turning the callback back into an ordinary return value. Requires
    /// the native layer to have definitively finished — the blocking
    /// variant never guesses while the prompt is still outstanding.
    pub fn blocking_authenticate(
        &mut self,
        text: &Text,
        policy: &Policy,
        response: &NativeResponse,
    ) -> (r: Result<(), Error>)
        requires
            policy@.platform() == old(self).platform,
            response.matches_platform(old(self).platform),
            response.completes(),
            old(self).bridge.tickets@.len() < usize::MAX,
        ensures
            final(self).platform == old(self).platform,
            r == spec_blocking(*old(self), *response),
    {
        let mut sink = CompletionSink::new();
        let submitted = self.authenticate(text, policy, response, &mut sink);
        match submitted {
            Err(e) => Err(e),
            Ok(()) => match sink.take() {
                Some(outcome) => outcome,
                None => Err(Error::Unknown),
            },
        }
    }
}

} // verus!
