//! Fingerprint verification against the fingerprint daemon.
//!
//! The engine is a state machine.  Its owner performs the [`Action`] that the
//! machine asks for and reports what came of it as an [`Event`]; the machine
//! answers with the next action.  All bus traffic stays with the owner.

use vstd::prelude::*;
use crate::auth::UnlockDecision;
use crate::text::str_eq;

pub mod trace;

verus! {

/// Bus name of the fingerprint daemon.
pub const FPRINT_SERVICE: &'static str = "net.reactivated.Fprint";

/// Object path of the daemon's device manager.
pub const FPRINT_MANAGER_PATH: &'static str = "/net/reactivated/Fprint/Manager";

/// Interface of the device manager; its `GetDefaultDevice` names the reader.
pub const FPRINT_MANAGER_INTERFACE: &'static str = "net.reactivated.Fprint.Manager";

/// Interface of a reader: `Claim`, `Release`, `VerifyStart`, `VerifyStop`
/// and the signal `VerifyStatus`.
pub const FPRINT_DEVICE_INTERFACE: &'static str = "net.reactivated.Fprint.Device";

/// Bus name of the login manager.
pub const LOGIN_SERVICE: &'static str = "org.freedesktop.login1";

/// Object path of the login manager.
pub const LOGIN_MANAGER_PATH: &'static str = "/org/freedesktop/login1";

/// Interface of the login manager; its signal `PrepareForSleep` announces
/// sleep and resume.
pub const LOGIN_MANAGER_INTERFACE: &'static str = "org.freedesktop.login1.Manager";

/// User name handed to `Claim`; the empty string stands for the caller's own user.
pub const CLAIM_USERNAME: &'static str = "";

/// Finger name handed to `VerifyStart`.
pub const FINGER_NAME: &'static str = "any";

/// How one verification attempt ended.
#[derive(Clone, Copy, Debug, PartialEq, Eq, Structural)]
pub enum VerifyOutcome {
    /// The finger matched.
    Match,
    /// The finger did not match.
    NoMatch,
    /// The reader went away; it must not be used again.
    Disconnected,
    /// The daemon reported an error, or something unreadable arrived.
    UnknownError,
    /// The machine is about to sleep.
    Suspended,
    /// The machine woke up although the engine never saw it go to sleep.
    UnexpectedWakeup,
}

/// What the owner reports back to the engine.
#[derive(Debug, PartialEq, Eq)]
pub enum Event {
    /// The requested call or wait came back without error.
    Completed,
    /// The requested call failed.
    Failed,
    /// The reader sent a `VerifyStatus` signal with this result string.
    Status(String),
    /// The login manager sent `PrepareForSleep`; `true` announces sleep, `false` a resume.
    Sleep(bool),
    /// A signal arrived whose arguments could not be read.
    Malformed,
    /// The signal streams ended.
    Closed,
}

/// What the engine asks its owner to do next.
#[derive(Clone, Copy, Debug, PartialEq, Eq, Structural)]
pub enum Action {
    /// Connect to the system bus and reach the login manager.
    Connect,
    /// Wait until the login manager reports a resume.
    AwaitResume,
    /// Ask the device manager for the default reader and reach it.
    GetDefaultDevice,
    /// Claim the reader for the user that [`argument_of`] names.
    Claim,
    /// Start a verification for the finger that [`argument_of`] names.
    VerifyStart,
    /// Drop the subscriptions of an earlier attempt and subscribe to the
    /// reader's status signal and the login manager's sleep signal.
    Subscribe,
    /// Wait for whichever of the two subscribed signals arrives first.
    AwaitSignal,
    /// Stop the running verification; a failure is of no consequence.
    VerifyStop,
    /// Release the claim on the reader; a failure is of no consequence.
    Release,
    /// Hand the decision to the session and stop driving the engine.
    Finish(UnlockDecision),
    /// Nothing is left to do.
    Halt,
}

/// The argument that goes with an action's call on the bus: the user name
/// with a claim and the finger name with the start of a verification.  The
/// other calls take none.
pub open spec fn argument_of(action: Action) -> Option<Seq<char>> {
    match action {
        Action::Claim => Some(CLAIM_USERNAME@),
        Action::VerifyStart => Some(FINGER_NAME@),
        _ => None,
    }
}

impl Action {
    /// The argument to hand to the call that the action stands for, if it
    /// takes one.
    pub fn argument(&self) -> (argument: Option<&'static str>)
        ensures
            match argument {
                Some(text) => argument_of(*self) == Some(text@),
                None => argument_of(*self) is None,
            },
    {
        match self {
            Action::Claim => Some(CLAIM_USERNAME),
            Action::VerifyStart => Some(FINGER_NAME),
            _ => None,
        }
    }
}

/// The engine's state.  Each state but the last names what the owner is busy with.
#[derive(Clone, Copy, Debug, PartialEq, Eq, Structural)]
pub enum Engine {
    /// Connecting to the bus; `await_wakeup` asks for a resume before the reader is touched.
    Connecting { await_wakeup: bool },
    /// Waiting for a resume before the first use of the reader.
    AwaitingWakeup,
    /// Looking up the default reader.
    Discovering,
    /// Claiming the reader.
    Claiming,
    /// Starting a verification attempt.
    Verifying,
    /// Subscribing to the signals of the attempt just started.
    Subscribing,
    /// Waiting for the attempt to settle.
    AttemptSettling,
    /// Stopping a settled attempt; `suspend` tells that sleep is at hand.
    Stopping { suspend: bool },
    /// Waiting for the machine to resume.
    Suspended,
    /// Releasing the reader before the decision is handed over.
    Releasing(UnlockDecision),
    /// Done; the reader is not claimed and is never touched again.
    Released,
}

/// The status strings that leave an attempt running.
pub open spec fn is_transient_status(status: Seq<char>) -> bool {
    ||| status == "verify-retry-scan"@
    ||| status == "verify-swipe-too-short"@
    ||| status == "verify-finger-not-centered"@
    ||| status == "verify-remove-and-retry"@
}

/// What a status string means for the running attempt: `None` while it goes
/// on, else how it ended.  A string that the protocol does not know ends the
/// attempt like an error of the daemon.
pub open spec fn status_outcome(status: Seq<char>) -> Option<VerifyOutcome> {
    if is_transient_status(status) {
        None
    } else if status == "verify-match"@ {
        Some(VerifyOutcome::Match)
    } else if status == "verify-no-match"@ {
        Some(VerifyOutcome::NoMatch)
    } else if status == "verify-disconnected"@ {
        Some(VerifyOutcome::Disconnected)
    } else {
        Some(VerifyOutcome::UnknownError)
    }
}

/// What an event means for an attempt that is settling.  A status string
/// goes by [`status_outcome`]; the announcement of sleep suspends the attempt,
/// and a resume without one is an unexpected wakeup.  Whatever else arrives
/// (a signal that cannot be read, the end of the streams, anything that is no
/// signal at all) ends the attempt like an error of the daemon.
pub open spec fn settle(event: Event) -> Option<VerifyOutcome> {
    match event {
        Event::Status(status) => status_outcome(status@),
        Event::Sleep(start) => if start {
            Some(VerifyOutcome::Suspended)
        } else {
            Some(VerifyOutcome::UnexpectedWakeup)
        },
        _ => Some(VerifyOutcome::UnknownError),
    }
}

/// Where the engine goes once a settling attempt has seen `outcome`.
pub open spec fn dispatch(outcome: Option<VerifyOutcome>) -> (Engine, Action) {
    match outcome {
        None => (Engine::AttemptSettling, Action::AwaitSignal),
        Some(VerifyOutcome::Match) => (Engine::Releasing(UnlockDecision::Unlock), Action::Release),
        Some(VerifyOutcome::Disconnected) => (
            Engine::Releasing(UnlockDecision::Ignore),
            Action::Release,
        ),
        Some(VerifyOutcome::Suspended) => (Engine::Stopping { suspend: true }, Action::VerifyStop),
        Some(_) => (Engine::Stopping { suspend: false }, Action::VerifyStop),
    }
}

/// The engine's transition function.  A call that the engine depends on
/// (connecting, finding and claiming the reader, starting a verification,
/// subscribing) must have completed, else the engine gives up with `Ignore`.
/// Where it gives up with the reader claimed, it releases the reader first.
/// What comes of a wait for the resume, of a stop and of a release does not
/// matter: the engine goes on whatever is reported.
pub open spec fn next(state: Engine, event: Event) -> (Engine, Action) {
    let give_up = (Engine::Released, Action::Finish(UnlockDecision::Ignore));
    let let_go = (Engine::Releasing(UnlockDecision::Ignore), Action::Release);
    match state {
        Engine::Connecting { await_wakeup } => if event is Completed {
            if await_wakeup {
                (Engine::AwaitingWakeup, Action::AwaitResume)
            } else {
                (Engine::Discovering, Action::GetDefaultDevice)
            }
        } else {
            give_up
        },
        Engine::AwaitingWakeup => (Engine::Discovering, Action::GetDefaultDevice),
        Engine::Discovering => if event is Completed {
            (Engine::Claiming, Action::Claim)
        } else {
            give_up
        },
        Engine::Claiming => if event is Completed {
            (Engine::Verifying, Action::VerifyStart)
        } else {
            give_up
        },
        Engine::Verifying => if event is Completed {
            (Engine::Subscribing, Action::Subscribe)
        } else {
            let_go
        },
        Engine::Subscribing => if event is Completed {
            (Engine::AttemptSettling, Action::AwaitSignal)
        } else {
            let_go
        },
        Engine::AttemptSettling => dispatch(settle(event)),
        Engine::Stopping { suspend } => if suspend {
            (Engine::Suspended, Action::AwaitResume)
        } else {
            (Engine::Verifying, Action::VerifyStart)
        },
        Engine::Suspended => (Engine::Verifying, Action::VerifyStart),
        Engine::Releasing(decision) => (Engine::Released, Action::Finish(decision)),
        Engine::Released => (Engine::Released, Action::Halt),
    }
}

/// Classifies a result string of the reader's `VerifyStatus` signal.
pub fn classify_status(status: &str) -> (outcome: Option<VerifyOutcome>)
    ensures
        outcome == status_outcome(status@),
{
    if str_eq(status, "verify-retry-scan") || str_eq(status, "verify-swipe-too-short") || str_eq(
        status,
        "verify-finger-not-centered",
    ) || str_eq(status, "verify-remove-and-retry") {
        None
    } else if str_eq(status, "verify-match") {
        Some(VerifyOutcome::Match)
    } else if str_eq(status, "verify-no-match") {
        Some(VerifyOutcome::NoMatch)
    } else if str_eq(status, "verify-disconnected") {
        Some(VerifyOutcome::Disconnected)
    } else {
        Some(VerifyOutcome::UnknownError)
    }
}

/// Tells what `event` means for the attempt that is settling: `None` if the
/// attempt goes on, else how it ended.
pub fn attempt_verification(event: &Event) -> (outcome: Option<VerifyOutcome>)
    ensures
        outcome == settle(*event),
{
    match event {
        Event::Status(status) => classify_status(status.as_str()),
        Event::Sleep(start) => if *start {
            Some(VerifyOutcome::Suspended)
        } else {
            Some(VerifyOutcome::UnexpectedWakeup)
        },
        _ => Some(VerifyOutcome::UnknownError),
    }
}

/// Whether `event`, taken from the login manager's sleep notifications, ends
/// a wait for the resume.  Only the announcement of sleep leaves the wait
/// going; a notification that cannot be read, the end of the notifications and
/// a failure to subscribe all end it, so that the engine is never stuck.
pub open spec fn ends_wait(event: Event) -> bool {
    event != Event::Sleep(true)
}

/// The number of notifications that a wait for the resume takes from those
/// in `pending`: the announcements of sleep in front, and the first
/// notification after them if there is one.
pub open spec fn notifications_taken(pending: Seq<Event>) -> nat
    decreases pending.len(),
{
    if pending.len() == 0 {
        0
    } else if ends_wait(pending[0]) {
        1
    } else {
        1 + notifications_taken(pending.drop_first())
    }
}

/// Tells whether the wait for the resume is over once `event` has arrived.
pub fn wait_for_wakeup(event: &Event) -> (done: bool)
    ensures
        done == ends_wait(*event),
{
    match event {
        Event::Sleep(start) => !*start,
        _ => true,
    }
}

/// Starts an engine.  With `await_wakeup` the engine waits for a resume
/// before it looks for the reader.
pub fn check_fingerprint(await_wakeup: bool) -> (start: (Engine, Action))
    ensures
        start == (Engine::Connecting { await_wakeup }, Action::Connect),
{
    (Engine::Connecting { await_wakeup }, Action::Connect)
}

impl Engine {
    /// Takes the engine one step: `event` tells what came of the action last
    /// asked for; the result is the new state and the next action.
    pub fn step(self, event: &Event) -> (moved: (Engine, Action))
        ensures
            moved == next(self, *event),
    {
        let give_up = (Engine::Released, Action::Finish(UnlockDecision::Ignore));
        let let_go = (Engine::Releasing(UnlockDecision::Ignore), Action::Release);
        let completed = matches!(event, Event::Completed);
        match self {
            Engine::Connecting { await_wakeup } => if completed {
                if await_wakeup {
                    (Engine::AwaitingWakeup, Action::AwaitResume)
                } else {
                    (Engine::Discovering, Action::GetDefaultDevice)
                }
            } else {
                give_up
            },
            Engine::AwaitingWakeup => (Engine::Discovering, Action::GetDefaultDevice),
            Engine::Discovering => if completed {
                (Engine::Claiming, Action::Claim)
            } else {
                give_up
            },
            Engine::Claiming => if completed {
                (Engine::Verifying, Action::VerifyStart)
            } else {
                give_up
            },
            Engine::Verifying => if completed {
                (Engine::Subscribing, Action::Subscribe)
            } else {
                let_go
            },
            Engine::Subscribing => if completed {
                (Engine::AttemptSettling, Action::AwaitSignal)
            } else {
                let_go
            },
            Engine::AttemptSettling => match attempt_verification(event) {
                None => (Engine::AttemptSettling, Action::AwaitSignal),
                Some(VerifyOutcome::Match) => (
                    Engine::Releasing(UnlockDecision::Unlock),
                    Action::Release,
                ),
                Some(VerifyOutcome::Disconnected) => (
                    Engine::Releasing(UnlockDecision::Ignore),
                    Action::Release,
                ),
                Some(VerifyOutcome::Suspended) => (
                    Engine::Stopping { suspend: true },
                    Action::VerifyStop,
                ),
                Some(_) => (Engine::Stopping { suspend: false }, Action::VerifyStop),
            },
            Engine::Stopping { suspend } => if suspend {
                (Engine::Suspended, Action::AwaitResume)
            } else {
                (Engine::Verifying, Action::VerifyStart)
            },
            Engine::Suspended => (Engine::Verifying, Action::VerifyStart),
            Engine::Releasing(decision) => (Engine::Released, Action::Finish(decision)),
            Engine::Released => (Engine::Released, Action::Halt),
        }
    }
}

} // verus!
