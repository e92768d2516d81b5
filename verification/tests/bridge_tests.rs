use robius_authentication::{
    Bridge, ClassState, CompletionSignals, Error, InitEvents, Platform, PolicyBuilder,
    SubmissionEvents,
};

fn init_ok() -> InitEvents {
    InitEvents { class_loaded: true, method_registered: true }
}

fn submission_ok() -> SubmissionEvents {
    SubmissionEvents {
        callback_constructed: true,
        signal_constructed: true,
        executor_obtained: true,
        prompt_constructed: true,
        authenticate_accepted: true,
    }
}

fn ready_bridge() -> Bridge {
    let mut bridge = Bridge::new();
    bridge.initialize(&init_ok()).unwrap();
    bridge
}

fn submit_one(bridge: &mut Bridge) -> usize {
    let policy = PolicyBuilder::new().build(Platform::Android).unwrap();
    bridge.submit(&policy, &submission_ok()).unwrap()
}

/// One completion scenario: the entry point must fire the callback
/// exactly once with the expected outcome and reclaim the ticket exactly
/// once.
fn check_single_fire(signals: CompletionSignals, expected: Result<(), Error>) {
    let mut bridge = ready_bridge();
    let handle = submit_one(&mut bridge);
    assert!(bridge.tickets.is_live(handle));

    // the first invocation fires the callback and frees the allocation
    let first = bridge.complete(handle, &signals);
    assert_eq!(first, Some(expected));
    assert!(!bridge.tickets.is_live(handle));

    // a second invocation with the same handle fires nothing
    let second = bridge.complete(handle, &signals);
    assert_eq!(second, None);
    assert!(!bridge.tickets.is_live(handle));
}

#[test]
fn single_fire_on_success_signal() {
    check_single_fire(
        CompletionSignals { error_code: 0, failed: false, help_code: 0 },
        Ok(()),
    );
}

#[test]
fn single_fire_on_failure_signal() {
    check_single_fire(
        CompletionSignals { error_code: 0, failed: true, help_code: 0 },
        Err(Error::Authentication),
    );
}

#[test]
fn single_fire_on_error_code() {
    check_single_fire(
        CompletionSignals { error_code: 10, failed: false, help_code: 0 },
        Err(Error::UserCanceled),
    );
}

#[test]
fn single_fire_on_help_code_only() {
    check_single_fire(
        CompletionSignals { error_code: 0, failed: false, help_code: 3 },
        Err(Error::Unknown),
    );
}

#[test]
fn failure_signal_takes_precedence_over_codes() {
    check_single_fire(
        CompletionSignals { error_code: 10, failed: true, help_code: 3 },
        Err(Error::Authentication),
    );
}

#[test]
fn completion_for_unknown_handle_fires_nothing() {
    let mut bridge = ready_bridge();
    let fired = bridge.complete(
        7,
        &CompletionSignals { error_code: 0, failed: false, help_code: 0 },
    );
    assert_eq!(fired, None);
}

#[test]
fn submission_failure_frees_the_ticket_synchronously() {
    let mut bridge = ready_bridge();
    let policy = PolicyBuilder::new().build(Platform::Android).unwrap();
    for step in 0..5 {
        let events = SubmissionEvents {
            callback_constructed: step != 0,
            signal_constructed: step != 1,
            executor_obtained: step != 2,
            prompt_constructed: step != 3,
            authenticate_accepted: step != 4,
        };
        let submitted = bridge.submit(&policy, &events);
        assert!(submitted.is_err(), "step {step}");
        // the would-be handle of the failed attempt is not live: its
        // allocation was reclaimed before returning
        assert!(!bridge.tickets.is_live(0), "step {step}");
    }
    // a following successful attempt reuses nothing stale
    let handle = bridge.submit(&policy, &submission_ok()).unwrap();
    assert!(bridge.tickets.is_live(handle));
}

#[test]
fn initialization_walks_the_states() {
    let mut bridge = Bridge::new();
    assert_eq!(bridge.class_state, ClassState::Uninitialized);

    // a failed class load leaves the bridge uninitialized
    let failed_load = InitEvents { class_loaded: false, method_registered: false };
    assert!(bridge.initialize(&failed_load).is_err());
    assert_eq!(bridge.class_state, ClassState::Uninitialized);

    // a load without registration stops half way
    let load_only = InitEvents { class_loaded: true, method_registered: false };
    assert!(bridge.initialize(&load_only).is_err());
    assert_eq!(bridge.class_state, ClassState::ClassLoaded);

    // registration completes the setup
    assert!(bridge.initialize(&init_ok()).is_ok());
    assert_eq!(bridge.class_state, ClassState::Registered);
}

#[test]
fn initialization_is_idempotent_once_registered() {
    let mut bridge = ready_bridge();
    // once registered, the setup is never repeated: failing events are
    // not consulted and the pass still succeeds
    let failing = InitEvents { class_loaded: false, method_registered: false };
    assert!(bridge.initialize(&failing).is_ok());
    assert_eq!(bridge.class_state, ClassState::Registered);
}

#[test]
fn concurrent_attempts_hold_independent_tickets() {
    let mut bridge = ready_bridge();
    let first = submit_one(&mut bridge);
    let second = submit_one(&mut bridge);
    assert_ne!(first, second);

    // completing one attempt leaves the other in flight
    let fired = bridge.complete(
        second,
        &CompletionSignals { error_code: 0, failed: false, help_code: 0 },
    );
    assert_eq!(fired, Some(Ok(())));
    assert!(bridge.tickets.is_live(first));
    assert!(!bridge.tickets.is_live(second));
}
