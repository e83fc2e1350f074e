use shackle::app::{App, Command, Flags, Message};
use shackle::auth::fprint::{
    attempt_verification, check_fingerprint, classify_status, wait_for_wakeup, Action, Engine,
    Event, VerifyOutcome, CLAIM_USERNAME, FINGER_NAME, FPRINT_DEVICE_INTERFACE,
    FPRINT_MANAGER_INTERFACE, FPRINT_MANAGER_PATH, FPRINT_SERVICE, LOGIN_MANAGER_INTERFACE,
    LOGIN_MANAGER_PATH, LOGIN_SERVICE,
};
use shackle::auth::UnlockDecision;

fn status(text: &str) -> Event {
    Event::Status(text.to_string())
}

/// Feeds the events to a fresh engine and gives the actions it asked for,
/// the first one included, and the state it ended in.
fn run(await_wakeup: bool, events: &[Event]) -> (Engine, Vec<Action>) {
    let (mut state, first) = check_fingerprint(await_wakeup);
    let mut actions = vec![first];
    for event in events {
        let (next, action) = state.step(event);
        state = next;
        actions.push(action);
    }
    (state, actions)
}

/// Events that bring a fresh engine to the point where an attempt settles.
fn until_settling() -> Vec<Event> {
    vec![
        Event::Completed,
        Event::Completed,
        Event::Completed,
        Event::Completed,
        Event::Completed,
    ]
}

fn count(actions: &[Action], wanted: Action) -> usize {
    actions.iter().filter(|action| **action == wanted).count()
}

#[test]
fn engine_starts_by_connecting() {
    let (state, action) = check_fingerprint(false);
    assert_eq!(state, Engine::Connecting { await_wakeup: false });
    assert_eq!(action, Action::Connect);
    let (state, action) = state.step(&Event::Completed);
    assert_eq!(state, Engine::Discovering);
    assert_eq!(action, Action::GetDefaultDevice);
}

#[test]
fn engine_reaches_settling_call_by_call() {
    let (state, actions) = run(false, &until_settling());
    assert_eq!(state, Engine::AttemptSettling);
    assert_eq!(
        actions,
        vec![
            Action::Connect,
            Action::GetDefaultDevice,
            Action::Claim,
            Action::VerifyStart,
            Action::Subscribe,
            Action::AwaitSignal,
        ]
    );
}

#[test]
fn protocol_names_are_the_daemons() {
    assert_eq!(FPRINT_SERVICE, "net.reactivated.Fprint");
    assert_eq!(FPRINT_MANAGER_PATH, "/net/reactivated/Fprint/Manager");
    assert_eq!(FPRINT_MANAGER_INTERFACE, "net.reactivated.Fprint.Manager");
    assert_eq!(FPRINT_DEVICE_INTERFACE, "net.reactivated.Fprint.Device");
    assert_eq!(LOGIN_SERVICE, "org.freedesktop.login1");
    assert_eq!(LOGIN_MANAGER_PATH, "/org/freedesktop/login1");
    assert_eq!(LOGIN_MANAGER_INTERFACE, "org.freedesktop.login1.Manager");
    assert_eq!(CLAIM_USERNAME, "");
    assert_eq!(FINGER_NAME, "any");
}

#[test]
fn status_strings_are_classified() {
    assert_eq!(classify_status("verify-retry-scan"), None);
    assert_eq!(classify_status("verify-swipe-too-short"), None);
    assert_eq!(classify_status("verify-finger-not-centered"), None);
    assert_eq!(classify_status("verify-remove-and-retry"), None);
    assert_eq!(classify_status("verify-match"), Some(VerifyOutcome::Match));
    assert_eq!(classify_status("verify-no-match"), Some(VerifyOutcome::NoMatch));
    assert_eq!(classify_status("verify-disconnected"), Some(VerifyOutcome::Disconnected));
    assert_eq!(classify_status("verify-unknown-error"), Some(VerifyOutcome::UnknownError));
}

#[test]
fn unknown_status_strings_end_the_attempt_as_errors() {
    for text in ["", "verify-match ", "Verify-Match", "verify", "enroll-completed", "vérify-match"] {
        assert_eq!(classify_status(text), Some(VerifyOutcome::UnknownError), "{text:?}");
    }
}

#[test]
fn signals_settle_the_attempt() {
    assert_eq!(attempt_verification(&status("verify-retry-scan")), None);
    assert_eq!(attempt_verification(&status("verify-match")), Some(VerifyOutcome::Match));
    assert_eq!(attempt_verification(&Event::Sleep(true)), Some(VerifyOutcome::Suspended));
    assert_eq!(attempt_verification(&Event::Sleep(false)), Some(VerifyOutcome::UnexpectedWakeup));
    assert_eq!(attempt_verification(&Event::Malformed), Some(VerifyOutcome::UnknownError));
    assert_eq!(attempt_verification(&Event::Closed), Some(VerifyOutcome::UnknownError));
    assert_eq!(attempt_verification(&Event::Completed), Some(VerifyOutcome::UnknownError));
    assert_eq!(attempt_verification(&Event::Failed), Some(VerifyOutcome::UnknownError));
}

#[test]
fn transient_statuses_leave_the_attempt_running() {
    for text in [
        "verify-retry-scan",
        "verify-swipe-too-short",
        "verify-finger-not-centered",
        "verify-remove-and-retry",
    ] {
        let (state, action) = Engine::AttemptSettling.step(&status(text));
        assert_eq!(state, Engine::AttemptSettling, "{text}");
        assert_eq!(action, Action::AwaitSignal, "{text}");
    }
}

#[test]
fn failed_attempts_are_stopped_once_and_started_anew() {
    let endings = [
        status("verify-no-match"),
        status("verify-unknown-error"),
        status("something-new"),
        Event::Sleep(false),
        Event::Malformed,
        Event::Closed,
    ];
    for ending in endings {
        let (state, action) = Engine::AttemptSettling.step(&ending);
        assert_eq!(state, Engine::Stopping { suspend: false }, "{ending:?}");
        assert_eq!(action, Action::VerifyStop, "{ending:?}");
        // Whether the stop worked does not matter.
        for stopped in [Event::Completed, Event::Failed] {
            let (state, action) = state.step(&stopped);
            assert_eq!(state, Engine::Verifying);
            assert_eq!(action, Action::VerifyStart);
        }
    }
}

#[test]
fn match_releases_once_and_unlocks() {
    let (state, action) = Engine::AttemptSettling.step(&status("verify-match"));
    assert_eq!(state, Engine::Releasing(UnlockDecision::Unlock));
    assert_eq!(action, Action::Release);
    for released in [Event::Completed, Event::Failed] {
        let (state, action) = state.step(&released);
        assert_eq!(state, Engine::Released);
        assert_eq!(action, Action::Finish(UnlockDecision::Unlock));
    }
}

#[test]
fn disconnect_releases_once_and_gives_up() {
    let mut events = until_settling();
    events.push(status("verify-disconnected"));
    events.push(Event::Failed);
    events.push(Event::Completed);
    events.push(status("verify-match"));
    events.push(Event::Sleep(false));
    let (state, actions) = run(false, &events);
    assert_eq!(state, Engine::Released);
    assert_eq!(
        actions[6..],
        [
            Action::Release,
            Action::Finish(UnlockDecision::Ignore),
            Action::Halt,
            Action::Halt,
            Action::Halt,
        ]
    );
    assert_eq!(count(&actions, Action::Release), 1);
    assert_eq!(count(&actions, Action::Claim), 1);
    assert_eq!(count(&actions, Action::VerifyStart), 1);
    assert_eq!(count(&actions, Action::Finish(UnlockDecision::Unlock)), 0);
}

#[test]
fn released_engine_halts_on_every_event() {
    let events = [
        Event::Completed,
        Event::Failed,
        status("verify-match"),
        Event::Sleep(true),
        Event::Sleep(false),
        Event::Malformed,
        Event::Closed,
    ];
    for event in events {
        assert_eq!(Engine::Released.step(&event), (Engine::Released, Action::Halt));
    }
}

#[test]
fn swipe_too_short_then_match_unlocks() {
    let mut events = until_settling();
    events.push(status("verify-swipe-too-short"));
    events.push(status("verify-match"));
    events.push(Event::Completed);
    let (state, actions) = run(false, &events);
    assert_eq!(state, Engine::Released);
    assert_eq!(
        actions[5..],
        [
            Action::AwaitSignal,
            Action::AwaitSignal,
            Action::Release,
            Action::Finish(UnlockDecision::Unlock),
        ]
    );
    assert_eq!(count(&actions, Action::Release), 1);
    assert_eq!(count(&actions, Action::VerifyStart), 1);
    assert_eq!(count(&actions, Action::VerifyStop), 0);

    let (mut app, _) = App::new(Flags::default());
    let command = app.update(Message::from_decision(UnlockDecision::Unlock));
    assert_eq!(command, Command::Unlock);
}

#[test]
fn sleep_before_any_status_suspends_the_engine() {
    let mut events = until_settling();
    events.push(Event::Sleep(true));
    let (state, actions) = run(false, &events);
    assert_eq!(state, Engine::Stopping { suspend: true });
    assert_eq!(actions[6], Action::VerifyStop);

    let (state, action) = state.step(&Event::Failed);
    assert_eq!(state, Engine::Suspended);
    assert_eq!(action, Action::AwaitResume);

    let (state, action) = state.step(&Event::Completed);
    assert_eq!(state, Engine::Verifying);
    assert_eq!(action, Action::VerifyStart);

    let (state, action) = state.step(&Event::Completed);
    assert_eq!(state, Engine::Subscribing);
    assert_eq!(action, Action::Subscribe);
}

#[test]
fn missing_default_device_leaves_the_password_path() {
    let events = [Event::Completed, Event::Failed, Event::Completed, status("verify-match")];
    let (state, actions) = run(false, &events);
    assert_eq!(state, Engine::Released);
    assert_eq!(
        actions,
        vec![
            Action::Connect,
            Action::GetDefaultDevice,
            Action::Finish(UnlockDecision::Ignore),
            Action::Halt,
            Action::Halt,
        ]
    );
    assert_eq!(count(&actions, Action::Claim), 0);
    assert_eq!(count(&actions, Action::VerifyStart), 0);

    let (mut app, _) = App::new(Flags::default());
    assert_eq!(app.update(Message::from_decision(UnlockDecision::Ignore)), Command::Idle);
    assert_eq!(app.update(Message::from_password(true)), Command::Unlock);
}

#[test]
fn await_wakeup_returns_on_a_pending_resume() {
    let (state, action) = check_fingerprint(true);
    assert_eq!(action, Action::Connect);
    let (state, action) = state.step(&Event::Completed);
    assert_eq!(state, Engine::AwaitingWakeup);
    assert_eq!(action, Action::AwaitResume);
    // The resume is the first notification: the wait is over with it.
    assert!(wait_for_wakeup(&Event::Sleep(false)));
    let (state, action) = state.step(&Event::Completed);
    assert_eq!(state, Engine::Discovering);
    assert_eq!(action, Action::GetDefaultDevice);
}

#[test]
fn wait_for_wakeup_skips_only_sleep_announcements() {
    assert!(!wait_for_wakeup(&Event::Sleep(true)));
    assert!(wait_for_wakeup(&Event::Sleep(false)));
    assert!(wait_for_wakeup(&Event::Malformed));
    assert!(wait_for_wakeup(&Event::Closed));
    assert!(wait_for_wakeup(&Event::Failed));
    assert!(wait_for_wakeup(&Event::Completed));
    assert!(wait_for_wakeup(&status("verify-match")));
}

#[test]
fn wait_skips_the_announcement_before_the_resume() {
    let pending = [Event::Sleep(true), Event::Sleep(false), Event::Sleep(true)];
    let taken = pending.iter().position(wait_for_wakeup).map(|at| at + 1);
    assert_eq!(taken, Some(2));
    let pending = [Event::Sleep(false), Event::Sleep(false)];
    let taken = pending.iter().position(wait_for_wakeup).map(|at| at + 1);
    assert_eq!(taken, Some(1));
    let pending = [Event::Sleep(true), Event::Sleep(true)];
    assert_eq!(pending.iter().position(wait_for_wakeup), None);
}

#[test]
fn wait_for_resume_ends_whatever_is_reported() {
    for event in [Event::Completed, Event::Failed, Event::Closed, Event::Sleep(true)] {
        assert_eq!(
            Engine::AwaitingWakeup.step(&event),
            (Engine::Discovering, Action::GetDefaultDevice)
        );
        assert_eq!(Engine::Suspended.step(&event), (Engine::Verifying, Action::VerifyStart));
    }
}

#[test]
fn failed_call_before_the_claim_ends_the_engine_at_once() {
    let states = [
        Engine::Connecting { await_wakeup: false },
        Engine::Connecting { await_wakeup: true },
        Engine::Discovering,
        Engine::Claiming,
    ];
    for state in states {
        for event in [Event::Failed, Event::Closed, Event::Malformed, status("verify-match")] {
            assert_eq!(
                state.step(&event),
                (Engine::Released, Action::Finish(UnlockDecision::Ignore)),
                "{state:?} {event:?}"
            );
        }
    }
}

#[test]
fn failed_start_releases_the_claimed_reader() {
    for state in [Engine::Verifying, Engine::Subscribing] {
        for event in [Event::Failed, Event::Closed, Event::Malformed, status("verify-match")] {
            let (state, action) = state.step(&event);
            assert_eq!(state, Engine::Releasing(UnlockDecision::Ignore), "{event:?}");
            assert_eq!(action, Action::Release, "{event:?}");
            // Whether the release worked does not matter.
            for released in [Event::Completed, Event::Failed] {
                assert_eq!(
                    state.step(&released),
                    (Engine::Released, Action::Finish(UnlockDecision::Ignore))
                );
            }
        }
    }
}

#[test]
fn failed_start_on_a_later_attempt_releases_once() {
    let mut events = until_settling();
    events.push(status("verify-no-match"));
    events.push(Event::Completed); // stop
    events.push(Event::Failed); // start fails
    events.push(Event::Failed); // release fails
    events.push(Event::Completed);
    let (state, actions) = run(false, &events);
    assert_eq!(state, Engine::Released);
    assert_eq!(
        actions[6..],
        [
            Action::VerifyStop,
            Action::VerifyStart,
            Action::Release,
            Action::Finish(UnlockDecision::Ignore),
            Action::Halt,
        ]
    );
    assert_eq!(count(&actions, Action::Release), 1);
    assert_eq!(count(&actions, Action::VerifyStart), 2);
    assert_eq!(count(&actions, Action::Claim), 1);
}

#[test]
fn failed_subscription_releases_the_claimed_reader() {
    let events = [
        Event::Completed, // connect
        Event::Completed, // default device
        Event::Completed, // claim
        Event::Completed, // start
        Event::Failed,    // subscribe
        Event::Completed, // release
    ];
    let (state, actions) = run(false, &events);
    assert_eq!(state, Engine::Released);
    assert_eq!(
        actions[4..],
        [Action::Subscribe, Action::Release, Action::Finish(UnlockDecision::Ignore)]
    );
}

#[test]
fn claim_and_start_carry_their_arguments() {
    assert_eq!(Action::Claim.argument(), Some(""));
    assert_eq!(Action::VerifyStart.argument(), Some("any"));
    for action in [
        Action::Connect,
        Action::AwaitResume,
        Action::GetDefaultDevice,
        Action::Subscribe,
        Action::AwaitSignal,
        Action::VerifyStop,
        Action::Release,
        Action::Finish(UnlockDecision::Unlock),
        Action::Finish(UnlockDecision::Ignore),
        Action::Halt,
    ] {
        assert_eq!(action.argument(), None, "{action:?}");
    }
}

#[test]
fn retry_loop_alternates_start_and_stop() {
    let mut events = until_settling();
    for _ in 0..3 {
        events.push(status("verify-retry-scan"));
        events.push(status("verify-no-match"));
        events.push(Event::Completed); // stop
        events.push(Event::Completed); // start
        events.push(Event::Completed); // subscribe
    }
    events.push(status("verify-match"));
    events.push(Event::Completed);
    let (state, actions) = run(false, &events);
    assert_eq!(state, Engine::Released);
    assert_eq!(count(&actions, Action::VerifyStart), 4);
    assert_eq!(count(&actions, Action::VerifyStop), 3);
    assert_eq!(count(&actions, Action::Subscribe), 4);
    assert_eq!(count(&actions, Action::Claim), 1);
    assert_eq!(count(&actions, Action::Release), 1);
    assert_eq!(*actions.last().unwrap(), Action::Finish(UnlockDecision::Unlock));
    let mut running = false;
    for action in &actions {
        match action {
            Action::VerifyStart => {
                assert!(!running);
                running = true;
            }
            Action::VerifyStop | Action::Release => {
                assert!(running);
                running = false;
            }
            _ => {}
        }
    }
}

#[test]
fn arbitrary_event_streams_keep_the_engine_within_its_laws() {
    // A small generator with a fixed seed keeps the run the same every time.
    let mut seed: u64 = 0x2545_f491_4f6c_dd1d;
    let words = [
        "verify-match",
        "verify-no-match",
        "verify-disconnected",
        "verify-unknown-error",
        "verify-retry-scan",
        "verify-swipe-too-short",
        "bogus",
    ];
    for round in 0..200 {
        let mut events = Vec::new();
        for _ in 0..40 {
            seed ^= seed << 13;
            seed ^= seed >> 7;
            seed ^= seed << 17;
            let event = match seed % 12 {
                0..=4 => Event::Completed,
                5 => Event::Failed,
                6 => Event::Sleep(true),
                7 => Event::Sleep(false),
                8 => Event::Malformed,
                9 => Event::Closed,
                _ => status(words[(seed >> 8) as usize % words.len()]),
            };
            events.push(event);
        }
        let (_, actions) = run(round % 2 == 0, &events);
        assert_eq!(actions.len(), events.len() + 1);
        assert!(count(&actions, Action::Claim) <= 1);
        assert!(count(&actions, Action::Release) <= 1);
        let unlocks = count(&actions, Action::Finish(UnlockDecision::Unlock));
        let ignores = count(&actions, Action::Finish(UnlockDecision::Ignore));
        assert!(unlocks + ignores <= 1);
        if unlocks == 1 {
            assert!(events.iter().any(|event| *event == status("verify-match")));
        }
        let mut running = false;
        let mut held = false;
        let mut finished = false;
        for action in &actions {
            match action {
                Action::Claim => assert!(!held && !finished),
                Action::VerifyStart => {
                    assert!(!running && !finished);
                    running = true;
                    held = true;
                }
                Action::VerifyStop => {
                    assert!(running && held && !finished);
                    running = false;
                }
                Action::Release => {
                    assert!(running && held && !finished);
                    running = false;
                    held = false;
                }
                Action::Finish(_) => {
                    assert!(!held && !running && !finished);
                    finished = true;
                }
                Action::Halt => assert!(finished),
                _ => assert!(!finished),
            }
        }
    }
}
