use robius_authentication::{
    AndroidResponse, AndroidText, AppleReply, AppleResponse, BiometricStrength,
    CompletionSignals, CompletionSink, Context, Error, FallbackResponse, InitEvents,
    NativeResponse, Platform, Policy, PolicyBuilder, SubmissionEvents, Text, WindowsResponse,
    WindowsText,
};

fn text() -> Text<'static, 'static, 'static, 'static, 'static, 'static> {
    Text {
        android: AndroidText { title: "Title", subtitle: None, description: None },
        apple: "authenticate",
        windows: WindowsText { title: "Title", description: "Description" },
    }
}

fn strong_policy(platform: Platform) -> Policy {
    PolicyBuilder::new()
        .biometrics(Some(BiometricStrength::Strong))
        .password(true)
        .companion(false)
        .build(platform)
        .unwrap()
}

fn fallback_untouched() -> FallbackResponse {
    FallbackResponse {
        authority_connected: false,
        package_found: false,
        prompt_status: 0,
        buffer_unpacked: false,
        supplied_username: Vec::new(),
        current_user_read: false,
        current_user: Vec::new(),
        username_parsed: false,
        logon_succeeded: false,
    }
}

fn windows_response(availability: Option<i32>, verification: Option<i32>) -> NativeResponse {
    NativeResponse::Windows(WindowsResponse {
        availability_requested: true,
        availability,
        verification_requested: true,
        verification,
        fallback: fallback_untouched(),
    })
}

fn android_response(completion: Option<CompletionSignals>) -> NativeResponse {
    NativeResponse::Android(AndroidResponse {
        init: InitEvents { class_loaded: true, method_registered: true },
        submission: SubmissionEvents {
            callback_constructed: true,
            signal_constructed: true,
            executor_obtained: true,
            prompt_constructed: true,
            authenticate_accepted: true,
        },
        completion,
    })
}

#[test]
fn apple_success_end_to_end() {
    // a fake native layer that always reports success
    let mut ctx = Context::new(Platform::Apple);
    let policy = strong_policy(Platform::Apple);
    let response = NativeResponse::Apple(AppleResponse {
        precheck_error: None,
        reply: Some(AppleReply { success: true, error_code: None }),
    });
    assert_eq!(ctx.blocking_authenticate(&text(), &policy, &response), Ok(()));
}

#[test]
fn windows_canceled_end_to_end() {
    // availability reports available, the verification reports canceled
    let mut ctx = Context::new(Platform::Windows);
    let policy = strong_policy(Platform::Windows);
    let response = windows_response(Some(0), Some(6));
    assert_eq!(
        ctx.blocking_authenticate(&text(), &policy, &response),
        Err(Error::UserCanceled)
    );
}

#[test]
fn windows_verified_end_to_end() {
    let mut ctx = Context::new(Platform::Windows);
    let policy = strong_policy(Platform::Windows);
    let response = windows_response(Some(0), Some(0));
    assert_eq!(ctx.blocking_authenticate(&text(), &policy, &response), Ok(()));
}

#[test]
fn windows_unavailable_takes_the_fallback() {
    let mut ctx = Context::new(Platform::Windows);
    let policy = strong_policy(Platform::Windows);
    let name: Vec<u16> = "host\0user".encode_utf16().collect();
    let response = NativeResponse::Windows(WindowsResponse {
        availability_requested: true,
        availability: Some(1),
        verification_requested: false,
        verification: None,
        fallback: FallbackResponse {
            authority_connected: true,
            package_found: true,
            prompt_status: 0,
            buffer_unpacked: true,
            supplied_username: name.clone(),
            current_user_read: true,
            current_user: name,
            username_parsed: true,
            logon_succeeded: true,
        },
    });
    assert_eq!(ctx.blocking_authenticate(&text(), &policy, &response), Ok(()));
}

#[test]
fn fallback_rejects_a_different_user() {
    let mut ctx = Context::new(Platform::Windows);
    let policy = strong_policy(Platform::Windows);
    let response = NativeResponse::Windows(WindowsResponse {
        availability_requested: true,
        availability: Some(1),
        verification_requested: false,
        verification: None,
        fallback: FallbackResponse {
            authority_connected: true,
            package_found: true,
            prompt_status: 0,
            buffer_unpacked: true,
            supplied_username: "host\0other".encode_utf16().collect(),
            current_user_read: true,
            current_user: "host\0user".encode_utf16().collect(),
            username_parsed: true,
            logon_succeeded: true,
        },
    });
    assert_eq!(
        ctx.blocking_authenticate(&text(), &policy, &response),
        Err(Error::Authentication)
    );
}

#[test]
fn fallback_reports_a_canceled_prompt() {
    let mut ctx = Context::new(Platform::Windows);
    let policy = strong_policy(Platform::Windows);
    let response = NativeResponse::Windows(WindowsResponse {
        availability_requested: true,
        availability: Some(1),
        verification_requested: false,
        verification: None,
        fallback: FallbackResponse { prompt_status: 1223, authority_connected: true, package_found: true, ..fallback_untouched() },
    });
    assert_eq!(
        ctx.blocking_authenticate(&text(), &policy, &response),
        Err(Error::UserCanceled)
    );
}

#[test]
fn fallback_reports_a_failed_logon_as_authentication_error() {
    let mut ctx = Context::new(Platform::Windows);
    let policy = strong_policy(Platform::Windows);
    let name: Vec<u16> = "host\0user".encode_utf16().collect();
    let response = NativeResponse::Windows(WindowsResponse {
        availability_requested: true,
        availability: Some(1),
        verification_requested: false,
        verification: None,
        fallback: FallbackResponse {
            authority_connected: true,
            package_found: true,
            prompt_status: 0,
            buffer_unpacked: true,
            supplied_username: name.clone(),
            current_user_read: true,
            current_user: name,
            username_parsed: true,
            logon_succeeded: false,
        },
    });
    assert_eq!(
        ctx.blocking_authenticate(&text(), &policy, &response),
        Err(Error::Authentication)
    );
}

#[test]
fn windows_availability_poll_failure_takes_the_fallback() {
    // a failed availability poll counts as unavailable, not as a
    // submission error
    let mut ctx = Context::new(Platform::Windows);
    let policy = strong_policy(Platform::Windows);
    let response = NativeResponse::Windows(WindowsResponse {
        availability_requested: true,
        availability: None,
        verification_requested: false,
        verification: None,
        fallback: FallbackResponse { authority_connected: true, package_found: false, ..fallback_untouched() },
    });
    assert_eq!(
        ctx.blocking_authenticate(&text(), &policy, &response),
        Err(Error::Unknown)
    );
}

#[test]
fn windows_verification_poll_failure_is_a_submission_error() {
    let mut ctx = Context::new(Platform::Windows);
    let policy = strong_policy(Platform::Windows);
    let response = windows_response(Some(0), None);
    let mut sink = CompletionSink::new();
    let submitted = ctx.authenticate(&text(), &policy, &response, &mut sink);
    assert_eq!(submitted, Err(Error::Unknown));
    // a submission error never reaches the callback
    assert_eq!(sink.peek(), None);
}

#[test]
fn apple_precheck_failure_is_a_submission_error_without_callback() {
    // the pre-evaluation check fails with "passcode not set": surfaced
    // synchronously through the same table, callback never invoked
    let mut ctx = Context::new(Platform::Apple);
    let policy = strong_policy(Platform::Apple);
    let response = NativeResponse::Apple(AppleResponse {
        precheck_error: Some(-5),
        reply: None,
    });
    let mut sink = CompletionSink::new();
    let submitted = ctx.authenticate(&text(), &policy, &response, &mut sink);
    assert_eq!(submitted, Err(Error::PasscodeNotSet));
    assert_eq!(sink.peek(), None);
}

#[test]
fn apple_watch_policy_authenticates() {
    let mut ctx = Context::new(Platform::AppleWatch);
    let policy = PolicyBuilder::new()
        .password(true)
        .wrist_detection(true)
        .build(Platform::AppleWatch)
        .unwrap();
    let response = NativeResponse::Apple(AppleResponse {
        precheck_error: None,
        reply: Some(AppleReply { success: true, error_code: None }),
    });
    assert_eq!(ctx.blocking_authenticate(&text(), &policy, &response), Ok(()));
}

#[test]
fn android_success_end_to_end() {
    let mut ctx = Context::new(Platform::Android);
    let policy = strong_policy(Platform::Android);
    let response =
        android_response(Some(CompletionSignals { error_code: 0, failed: false, help_code: 0 }));
    assert_eq!(ctx.blocking_authenticate(&text(), &policy, &response), Ok(()));
}

#[test]
fn android_lockout_end_to_end() {
    let mut ctx = Context::new(Platform::Android);
    let policy = strong_policy(Platform::Android);
    let response =
        android_response(Some(CompletionSignals { error_code: 7, failed: false, help_code: 0 }));
    assert_eq!(
        ctx.blocking_authenticate(&text(), &policy, &response),
        Err(Error::Exhausted)
    );
}

#[test]
fn android_submission_failure_returns_synchronously_without_callback() {
    let mut ctx = Context::new(Platform::Android);
    let policy = strong_policy(Platform::Android);
    let response = NativeResponse::Android(AndroidResponse {
        init: InitEvents { class_loaded: true, method_registered: true },
        submission: SubmissionEvents {
            callback_constructed: true,
            signal_constructed: true,
            executor_obtained: true,
            prompt_constructed: false,
            authenticate_accepted: false,
        },
        completion: None,
    });
    let mut sink = CompletionSink::new();
    let submitted = ctx.authenticate(&text(), &policy, &response, &mut sink);
    assert!(submitted.is_err());
    // the callback is not invoked at all
    assert_eq!(sink.peek(), None);
    // and no ticket leaks
    assert!(!ctx.bridge.tickets.is_live(0));
}

#[test]
fn android_class_load_failure_is_a_submission_error() {
    let mut ctx = Context::new(Platform::Android);
    let policy = strong_policy(Platform::Android);
    let response = NativeResponse::Android(AndroidResponse {
        init: InitEvents { class_loaded: false, method_registered: false },
        submission: SubmissionEvents {
            callback_constructed: true,
            signal_constructed: true,
            executor_obtained: true,
            prompt_constructed: true,
            authenticate_accepted: true,
        },
        completion: None,
    });
    let mut sink = CompletionSink::new();
    let submitted = ctx.authenticate(&text(), &policy, &response, &mut sink);
    assert!(submitted.is_err());
    assert_eq!(sink.peek(), None);
}

#[test]
fn android_pending_completion_leaves_the_sink_empty() {
    // submission succeeds but the platform has not called back yet: the
    // attempt is in flight and nothing has been delivered
    let mut ctx = Context::new(Platform::Android);
    let policy = strong_policy(Platform::Android);
    let response = android_response(None);
    let mut sink = CompletionSink::new();
    let submitted = ctx.authenticate(&text(), &policy, &response, &mut sink);
    assert_eq!(submitted, Ok(()));
    assert_eq!(sink.peek(), None);
    assert!(ctx.bridge.tickets.is_live(0));
}
