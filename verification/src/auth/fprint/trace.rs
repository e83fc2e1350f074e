//! Runs of the fingerprint engine, and what holds of every run.
//!
//! A run is the sequence of actions that the engine asks for while it is fed
//! a sequence of events.  The laws below hold for every sequence of events,
//! whether or not a well-behaved owner could produce it.

use vstd::prelude::*;
use crate::auth::UnlockDecision;
use crate::auth::fprint::{
    Action, Engine, Event, VerifyOutcome, ends_wait, is_transient_status, next,
    notifications_taken, settle, status_outcome,
};

verus! {

/// The actions that the engine asks for, one per event, when it starts in
/// `state` and is fed `events` in order.
pub open spec fn actions(state: Engine, events: Seq<Event>) -> Seq<Action>
    decreases events.len(),
{
    if events.len() == 0 {
        Seq::empty()
    } else {
        let (mid, action) = next(state, events[0]);
        seq![action] + actions(mid, events.drop_first())
    }
}

/// The state that the engine is in after it was fed `events` from `state`.
pub open spec fn state_after(state: Engine, events: Seq<Event>) -> Engine
    decreases events.len(),
{
    if events.len() == 0 {
        state
    } else {
        state_after(next(state, events[0]).0, events.drop_first())
    }
}

/// How often `action` stands in `trace`.
pub open spec fn occurrences(trace: Seq<Action>, action: Action) -> nat
    decreases trace.len(),
{
    if trace.len() == 0 {
        0
    } else {
        (if trace[0] == action { 1nat } else { 0nat }) + occurrences(trace.drop_first(), action)
    }
}

/// Whether `trace` asks for nothing at all.
pub open spec fn only_halts(trace: Seq<Action>) -> bool {
    forall|i: int| 0 <= i < trace.len() ==> trace[i] == Action::Halt
}

/// Whether `trace` starts and stops verification attempts in turn.  `running`
/// tells whether an attempt is running when the trace begins.  A release ends
/// a running attempt as a stop does, and signals are awaited only while one
/// is running.  The decision is handed over only when none is running, and
/// nothing is asked for after it.
pub open spec fn attempts_in_turn(trace: Seq<Action>, running: bool) -> bool
    decreases trace.len(),
{
    if trace.len() == 0 {
        true
    } else {
        match trace[0] {
            Action::VerifyStart => !running && attempts_in_turn(trace.drop_first(), true),
            Action::VerifyStop => running && attempts_in_turn(trace.drop_first(), false),
            Action::Release => running && attempts_in_turn(trace.drop_first(), false),
            Action::AwaitSignal => running && attempts_in_turn(trace.drop_first(), running),
            Action::Finish(_) => !running && only_halts(trace.drop_first()),
            _ => attempts_in_turn(trace.drop_first(), running),
        }
    }
}

/// How the engine stands to the claim on the reader.
pub enum Lease {
    /// The reader has not been claimed.
    Free,
    /// The claim has been asked for.
    Asked,
    /// The claim is held.
    Held,
    /// The claim has been given back.
    Returned,
}

/// Whether `trace` uses the reader only under a claim.  `lease` tells how
/// the engine stands to the claim when the trace begins.  The reader is
/// claimed only while it is free; a verification is started only once the
/// claim has been asked for, and from then on the claim counts as held; the
/// verification is watched and stopped, and the reader released, only while
/// the claim is held.  Only a release ends a held claim: the decision is
/// handed over only when the claim is not held, and nothing is asked for
/// after it.
pub open spec fn used_under_claim(trace: Seq<Action>, lease: Lease) -> bool
    decreases trace.len(),
{
    if trace.len() == 0 {
        true
    } else {
        match trace[0] {
            Action::GetDefaultDevice => lease is Free && used_under_claim(
                trace.drop_first(),
                lease,
            ),
            Action::Claim => lease is Free && used_under_claim(trace.drop_first(), Lease::Asked),
            Action::VerifyStart => (lease is Asked || lease is Held) && used_under_claim(
                trace.drop_first(),
                Lease::Held,
            ),
            Action::Subscribe | Action::AwaitSignal | Action::VerifyStop => lease is Held
                && used_under_claim(trace.drop_first(), lease),
            Action::Release => lease is Held && used_under_claim(
                trace.drop_first(),
                Lease::Returned,
            ),
            Action::Finish(_) => lease !is Held && only_halts(trace.drop_first()),
            _ => used_under_claim(trace.drop_first(), lease),
        }
    }
}

/// How the engine stands to the claim in `state`.  Where the engine has come
/// to its end the claim is not held, whether it was ever asked for or not.
pub open spec fn lease_in(state: Engine) -> Lease {
    match state {
        Engine::Connecting { .. } | Engine::AwaitingWakeup | Engine::Discovering => Lease::Free,
        Engine::Claiming => Lease::Asked,
        Engine::Verifying | Engine::Subscribing | Engine::AttemptSettling | Engine::Stopping {
            ..
        } | Engine::Suspended => Lease::Held,
        Engine::Releasing(_) | Engine::Released => Lease::Returned,
    }
}

/// Whether a verification attempt is running in `state`.
pub open spec fn attempt_running(state: Engine) -> bool {
    state is Verifying || state is Subscribing || state is AttemptSettling
}

/// Whether the reader has been given up in `state`.
pub open spec fn reader_given_up(state: Engine) -> bool {
    state is Releasing || state is Released
}

proof fn lemma_actions_unfold(state: Engine, first: Event, rest: Seq<Event>)
    ensures
        actions(state, seq![first] + rest) == seq![next(state, first).1] + actions(
            next(state, first).0,
            rest,
        ),
{
    let events = seq![first] + rest;
    assert(events[0] == first);
    assert(events.drop_first() =~= rest);
}

proof fn lemma_occurrences_unfold(first: Action, rest: Seq<Action>, action: Action)
    ensures
        occurrences(seq![first] + rest, action) == (if first == action {
            1nat
        } else {
            0nat
        }) + occurrences(rest, action),
{
    let trace = seq![first] + rest;
    assert(trace[0] == first);
    assert(trace.drop_first() =~= rest);
}

/// The engine answers every event with one action.
pub proof fn lemma_one_action_per_event(state: Engine, events: Seq<Event>)
    ensures
        actions(state, events).len() == events.len(),
    decreases events.len(),
{
    if events.len() > 0 {
        lemma_one_action_per_event(next(state, events[0]).0, events.drop_first());
    }
}

/// A transient status leaves the attempt as it is: the engine stays in
/// `AttemptSettling` and asks for the next signal, not for a stop or a start.
pub proof fn lemma_transient_status_keeps_settling(status: String)
    requires
        is_transient_status(status@),
    ensures
        next(Engine::AttemptSettling, Event::Status(status)) == (
            Engine::AttemptSettling,
            Action::AwaitSignal,
        ),
{
}

/// Once connected, the engine looks for the reader, and where it was asked
/// to await the wakeup it waits for the resume once, before that.
pub proof fn lemma_wakeup_is_awaited_first(await_wakeup: bool, waited: Event, rest: Seq<Event>)
    ensures
        ({
            let events = seq![Event::Completed, waited] + rest;
            let trace = actions(Engine::Connecting { await_wakeup }, events);
            if await_wakeup {
                trace[0] == Action::AwaitResume && trace[1] == Action::GetDefaultDevice
            } else {
                trace[0] == Action::GetDefaultDevice
            }
        }),
{
    let start = Engine::Connecting { await_wakeup };
    let later = seq![waited] + rest;
    assert(seq![Event::Completed, waited] + rest =~= seq![Event::Completed] + later);
    lemma_actions_unfold(start, Event::Completed, later);
    lemma_actions_unfold(next(start, Event::Completed).0, waited, rest);
}

/// However many transient statuses arrive in a row, the attempt goes on: the
/// engine stays in `AttemptSettling` and asks neither for a stop nor for a
/// start.
pub proof fn lemma_transient_statuses_keep_settling(events: Seq<Event>)
    requires
        forall|i: int| 0 <= i < events.len() ==> #[trigger] settle(events[i]) is None,
    ensures
        state_after(Engine::AttemptSettling, events) == Engine::AttemptSettling,
        occurrences(actions(Engine::AttemptSettling, events), Action::VerifyStop) == 0,
        occurrences(actions(Engine::AttemptSettling, events), Action::VerifyStart) == 0,
        occurrences(actions(Engine::AttemptSettling, events), Action::AwaitSignal) == events.len(),
    decreases events.len(),
{
    if events.len() > 0 {
        let later = events.drop_first();
        assert(settle(events[0]) is None);
        assert forall|i: int| 0 <= i < later.len() implies #[trigger] settle(later[i]) is None by {
            assert(settle(events[i + 1]) is None);
        }
        lemma_transient_statuses_keep_settling(later);
        let tail = actions(Engine::AttemptSettling, later);
        lemma_occurrences_unfold(Action::AwaitSignal, tail, Action::VerifyStop);
        lemma_occurrences_unfold(Action::AwaitSignal, tail, Action::VerifyStart);
        lemma_occurrences_unfold(Action::AwaitSignal, tail, Action::AwaitSignal);
    }
}

/// The status strings of the protocol mean what the protocol says: four of
/// them leave the attempt running, one stands for each of the outcomes
/// `Match`, `NoMatch` and `Disconnected`, and the daemon's own error string
/// stands for `UnknownError`.
pub proof fn lemma_status_table()
    ensures
        status_outcome("verify-retry-scan"@) is None,
        status_outcome("verify-swipe-too-short"@) is None,
        status_outcome("verify-finger-not-centered"@) is None,
        status_outcome("verify-remove-and-retry"@) is None,
        status_outcome("verify-match"@) == Some(VerifyOutcome::Match),
        status_outcome("verify-no-match"@) == Some(VerifyOutcome::NoMatch),
        status_outcome("verify-disconnected"@) == Some(VerifyOutcome::Disconnected),
        status_outcome("verify-unknown-error"@) == Some(VerifyOutcome::UnknownError),
{
    reveal_strlit("verify-retry-scan");
    reveal_strlit("verify-swipe-too-short");
    reveal_strlit("verify-finger-not-centered");
    reveal_strlit("verify-remove-and-retry");
    reveal_strlit("verify-match");
    reveal_strlit("verify-no-match");
    reveal_strlit("verify-disconnected");
    reveal_strlit("verify-unknown-error");
    // The eight strings differ in length.
    assert("verify-retry-scan"@.len() == 17);
    assert("verify-swipe-too-short"@.len() == 22);
    assert("verify-finger-not-centered"@.len() == 26);
    assert("verify-remove-and-retry"@.len() == 23);
    assert("verify-match"@.len() == 12);
    assert("verify-no-match"@.len() == 15);
    assert("verify-disconnected"@.len() == 19);
    assert("verify-unknown-error"@.len() == 20);
}

/// A call that fails before the reader is claimed ends the engine at once:
/// it hands over `Ignore`, and neither claims the reader nor starts a
/// verification afterwards.  There is nothing to release.
pub proof fn lemma_failed_call_gives_up(state: Engine, event: Event, rest: Seq<Event>)
    requires
        state is Connecting || state is Discovering || state is Claiming,
        event !is Completed,
    ensures
        ({
            let trace = actions(state, seq![event] + rest);
            &&& trace[0] == Action::Finish(UnlockDecision::Ignore)
            &&& occurrences(trace, Action::GetDefaultDevice) == 0
            &&& occurrences(trace, Action::Claim) == 0
            &&& occurrences(trace, Action::VerifyStart) == 0
            &&& occurrences(trace, Action::Release) == 0
            &&& occurrences(trace, Action::Finish(UnlockDecision::Unlock)) == 0
        }),
{
    let first = Action::Finish(UnlockDecision::Ignore);
    let tail = actions(Engine::Released, rest);
    lemma_actions_unfold(state, event, rest);
    lemma_given_up_reader_stays_untouched(Engine::Released, rest, Action::GetDefaultDevice);
    lemma_given_up_reader_stays_untouched(Engine::Released, rest, Action::Claim);
    lemma_given_up_reader_stays_untouched(Engine::Released, rest, Action::VerifyStart);
    lemma_given_up_reader_stays_untouched(Engine::Released, rest, Action::Release);
    lemma_decides_at_most_once(Engine::Released, rest);
    lemma_occurrences_unfold(first, tail, Action::GetDefaultDevice);
    lemma_occurrences_unfold(first, tail, Action::Claim);
    lemma_occurrences_unfold(first, tail, Action::VerifyStart);
    lemma_occurrences_unfold(first, tail, Action::Release);
    lemma_occurrences_unfold(first, tail, Action::Finish(UnlockDecision::Unlock));
}

/// Where the start of a verification fails, or the subscription to its
/// signals, the reader is claimed: the engine releases it exactly once,
/// hands over `Ignore`, and starts no verification again.
pub proof fn lemma_failed_start_releases(state: Engine, event: Event, rest: Seq<Event>)
    requires
        state is Verifying || state is Subscribing,
        event !is Completed,
    ensures
        ({
            let trace = actions(state, seq![event] + rest);
            &&& trace[0] == Action::Release
            &&& occurrences(trace, Action::Release) == 1
            &&& occurrences(trace, Action::VerifyStart) == 0
            &&& occurrences(trace, Action::Claim) == 0
            &&& occurrences(trace, Action::Finish(UnlockDecision::Unlock)) == 0
            &&& rest.len() > 0 ==> trace[1] == Action::Finish(UnlockDecision::Ignore)
                && occurrences(trace, Action::Finish(UnlockDecision::Ignore)) == 1
        }),
{
    lemma_release_then_decision(state, event, rest, UnlockDecision::Ignore);
}

/// Once the reader has been given up, the engine asks for nothing but the
/// hand-over of its decision, and then for nothing at all.
pub proof fn lemma_given_up_reader_stays_untouched(
    state: Engine,
    events: Seq<Event>,
    action: Action,
)
    requires
        reader_given_up(state),
        action !is Finish,
        action !is Halt,
    ensures
        occurrences(actions(state, events), action) == 0,
    decreases events.len(),
{
    if events.len() > 0 {
        let (mid, first) = next(state, events[0]);
        lemma_given_up_reader_stays_untouched(mid, events.drop_first(), action);
        lemma_occurrences_unfold(first, actions(mid, events.drop_first()), action);
    }
}

/// `Released` is the end: whatever arrives, the engine stays there.
pub proof fn lemma_released_is_final(events: Seq<Event>)
    ensures
        state_after(Engine::Released, events) == Engine::Released,
    decreases events.len(),
{
    if events.len() > 0 {
        lemma_released_is_final(events.drop_first());
    }
}

/// The engine hands over at most one decision, whatever it is fed.
pub proof fn lemma_decides_at_most_once(state: Engine, events: Seq<Event>)
    ensures
        occurrences(actions(state, events), Action::Finish(UnlockDecision::Unlock)) + occurrences(
            actions(state, events),
            Action::Finish(UnlockDecision::Ignore),
        ) <= (if state is Released {
            0nat
        } else {
            1nat
        }),
    decreases events.len(),
{
    if events.len() > 0 {
        let (mid, first) = next(state, events[0]);
        let rest = actions(mid, events.drop_first());
        lemma_decides_at_most_once(mid, events.drop_first());
        lemma_occurrences_unfold(first, rest, Action::Finish(UnlockDecision::Unlock));
        lemma_occurrences_unfold(first, rest, Action::Finish(UnlockDecision::Ignore));
    }
}

/// The other of the two decisions.
pub open spec fn other_decision(decision: UnlockDecision) -> UnlockDecision {
    match decision {
        UnlockDecision::Unlock => UnlockDecision::Ignore,
        UnlockDecision::Ignore => UnlockDecision::Unlock,
    }
}

/// Where the engine answers `event` with the release of the reader and has
/// `decision` in hand, the run holds that one release, no claim and no start
/// of a verification, and the decision handed over is that one.
proof fn lemma_release_then_decision(
    state: Engine,
    event: Event,
    rest: Seq<Event>,
    decision: UnlockDecision,
)
    requires
        next(state, event) == (Engine::Releasing(decision), Action::Release),
    ensures
        ({
            let trace = actions(state, seq![event] + rest);
            &&& trace[0] == Action::Release
            &&& occurrences(trace, Action::Release) == 1
            &&& occurrences(trace, Action::VerifyStart) == 0
            &&& occurrences(trace, Action::Claim) == 0
            &&& occurrences(trace, Action::Finish(other_decision(decision))) == 0
            &&& rest.len() > 0 ==> trace[1] == Action::Finish(decision) && occurrences(
                trace,
                Action::Finish(decision),
            ) == 1
        }),
{
    let releasing = Engine::Releasing(decision);
    let tail = actions(releasing, rest);
    lemma_actions_unfold(state, event, rest);
    lemma_given_up_reader_stays_untouched(releasing, rest, Action::Release);
    lemma_given_up_reader_stays_untouched(releasing, rest, Action::VerifyStart);
    lemma_given_up_reader_stays_untouched(releasing, rest, Action::Claim);
    lemma_occurrences_unfold(Action::Release, tail, Action::Release);
    lemma_occurrences_unfold(Action::Release, tail, Action::VerifyStart);
    lemma_occurrences_unfold(Action::Release, tail, Action::Claim);
    lemma_occurrences_unfold(Action::Release, tail, Action::Finish(UnlockDecision::Unlock));
    lemma_occurrences_unfold(Action::Release, tail, Action::Finish(UnlockDecision::Ignore));
    lemma_hand_over(decision, rest);
}

/// A match is followed by exactly one release and by no further start of a
/// verification, nor by a claim; the decision handed over is `Unlock`.
pub proof fn lemma_match_releases_once(event: Event, rest: Seq<Event>)
    requires
        settle(event) == Some(VerifyOutcome::Match),
    ensures
        ({
            let trace = actions(Engine::AttemptSettling, seq![event] + rest);
            &&& trace[0] == Action::Release
            &&& occurrences(trace, Action::Release) == 1
            &&& occurrences(trace, Action::VerifyStart) == 0
            &&& occurrences(trace, Action::Claim) == 0
            &&& occurrences(trace, Action::Finish(UnlockDecision::Ignore)) == 0
            &&& rest.len() > 0 ==> trace[1] == Action::Finish(UnlockDecision::Unlock)
                && occurrences(trace, Action::Finish(UnlockDecision::Unlock)) == 1
        }),
{
    lemma_release_then_decision(Engine::AttemptSettling, event, rest, UnlockDecision::Unlock);
}

/// A disconnect is followed by exactly one release; the engine claims no
/// reader and starts no verification again, and never decides to unlock.
pub proof fn lemma_disconnect_releases_once(event: Event, rest: Seq<Event>)
    requires
        settle(event) == Some(VerifyOutcome::Disconnected),
    ensures
        ({
            let trace = actions(Engine::AttemptSettling, seq![event] + rest);
            &&& trace[0] == Action::Release
            &&& occurrences(trace, Action::Release) == 1
            &&& occurrences(trace, Action::VerifyStart) == 0
            &&& occurrences(trace, Action::Claim) == 0
            &&& occurrences(trace, Action::Finish(UnlockDecision::Unlock)) == 0
            &&& rest.len() > 0 ==> trace[1] == Action::Finish(UnlockDecision::Ignore)
                && occurrences(trace, Action::Finish(UnlockDecision::Ignore)) == 1
        }),
{
    lemma_release_then_decision(Engine::AttemptSettling, event, rest, UnlockDecision::Ignore);
}

/// While the reader is being released with `decision` in hand, that decision
/// is the first thing handed over, and the other one never is.
proof fn lemma_hand_over(decision: UnlockDecision, events: Seq<Event>)
    ensures
        ({
            let trace = actions(Engine::Releasing(decision), events);
            &&& occurrences(trace, Action::Finish(other_decision(decision))) == 0
            &&& events.len() > 0 ==> trace[0] == Action::Finish(decision) && occurrences(
                trace,
                Action::Finish(decision),
            ) == 1
        }),
{
    if events.len() > 0 {
        let tail = actions(Engine::Released, events.drop_first());
        lemma_decides_at_most_once(Engine::Released, events.drop_first());
        lemma_occurrences_unfold(Action::Finish(decision), tail, Action::Finish(decision));
        lemma_occurrences_unfold(
            Action::Finish(decision),
            tail,
            Action::Finish(other_decision(decision)),
        );
    }
}

/// An attempt that ends without a match, with the reader still there and no
/// sleep at hand, is stopped exactly once before the next one starts: the
/// engine asks for the stop, and next for the start.
pub proof fn lemma_failed_attempt_stops_once(event: Event, rest: Seq<Event>)
    requires
        settle(event) == Some(VerifyOutcome::NoMatch) || settle(event) == Some(
            VerifyOutcome::UnknownError,
        ) || settle(event) == Some(VerifyOutcome::UnexpectedWakeup),
    ensures
        ({
            let trace = actions(Engine::AttemptSettling, seq![event] + rest);
            &&& trace[0] == Action::VerifyStop
            &&& rest.len() > 0 ==> trace[1] == Action::VerifyStart
        }),
{
    lemma_actions_unfold(Engine::AttemptSettling, event, rest);
    if rest.len() > 0 {
        let stopping = Engine::Stopping { suspend: false };
        assert(actions(stopping, rest)[0] == next(stopping, rest[0]).1);
    }
}

/// An attempt that sleep interrupts is stopped, the engine waits for the
/// resume, and only then starts the next attempt.
pub proof fn lemma_suspended_attempt_waits_for_resume(event: Event, rest: Seq<Event>)
    requires
        settle(event) == Some(VerifyOutcome::Suspended),
    ensures
        ({
            let trace = actions(Engine::AttemptSettling, seq![event] + rest);
            &&& trace[0] == Action::VerifyStop
            &&& rest.len() > 0 ==> trace[1] == Action::AwaitResume
            &&& rest.len() > 1 ==> trace[2] == Action::VerifyStart
        }),
{
    lemma_actions_unfold(Engine::AttemptSettling, event, rest);
    if rest.len() > 0 {
        let stopping = Engine::Stopping { suspend: true };
        let tail = actions(stopping, rest);
        assert(tail[0] == next(stopping, rest[0]).1);
        if rest.len() > 1 {
            let later = rest.drop_first();
            assert(actions(Engine::Suspended, later)[0] == next(Engine::Suspended, later[0]).1);
        }
    }
}

/// The engine claims the reader at most once, and not at all once it has
/// claimed it or given up.
pub proof fn lemma_claims_at_most_once(state: Engine, events: Seq<Event>)
    ensures
        occurrences(actions(state, events), Action::Claim) <= (if state is Connecting
            || state is AwaitingWakeup || state is Discovering {
            1nat
        } else {
            0nat
        }),
    decreases events.len(),
{
    if events.len() > 0 {
        let (mid, first) = next(state, events[0]);
        lemma_claims_at_most_once(mid, events.drop_first());
        lemma_occurrences_unfold(first, actions(mid, events.drop_first()), Action::Claim);
    }
}

/// Once the engine has come to its end it asks for nothing.
pub proof fn lemma_released_only_halts(events: Seq<Event>)
    ensures
        only_halts(actions(Engine::Released, events)),
    decreases events.len(),
{
    if events.len() > 0 {
        let tail = actions(Engine::Released, events.drop_first());
        let trace = actions(Engine::Released, events);
        lemma_released_only_halts(events.drop_first());
        assert(trace == seq![Action::Halt] + tail);
        assert forall|i: int| 0 <= i < trace.len() implies trace[i] == Action::Halt by {
            if i > 0 {
                assert(trace[i] == tail[i - 1]);
            }
        }
    }
}

/// Attempts never overlap: the engine starts a verification only when none
/// is running, stops or releases only a running one, and hands its decision
/// over only when none is running.
pub proof fn lemma_attempts_in_turn(state: Engine, events: Seq<Event>)
    ensures
        attempts_in_turn(actions(state, events), attempt_running(state)),
    decreases events.len(),
{
    if events.len() > 0 {
        let (mid, first) = next(state, events[0]);
        let rest = actions(mid, events.drop_first());
        lemma_attempts_in_turn(mid, events.drop_first());
        lemma_released_only_halts(events.drop_first());
        let trace = seq![first] + rest;
        assert(trace[0] == first);
        assert(trace.drop_first() =~= rest);
    }
}

/// The reader is used only under a claim, and a claim that is held is
/// released before the engine ends: the engine starts, watches and stops
/// verifications and releases the reader only after it has claimed it and
/// before it has released it, and it hands its decision over only when it
/// holds no claim.
pub proof fn lemma_used_under_claim(state: Engine, events: Seq<Event>)
    ensures
        used_under_claim(actions(state, events), lease_in(state)),
    decreases events.len(),
{
    if events.len() > 0 {
        let (mid, first) = next(state, events[0]);
        let rest = actions(mid, events.drop_first());
        lemma_used_under_claim(mid, events.drop_first());
        lemma_released_only_halts(events.drop_first());
        let trace = seq![first] + rest;
        assert(trace[0] == first);
        assert(trace.drop_first() =~= rest);
    }
}

/// The engine decides to unlock only after the reader has reported a match,
/// and only after it has asked for the reader's release.
pub proof fn lemma_unlock_needs_match(state: Engine, events: Seq<Event>)
    requires
        state != Engine::Releasing(UnlockDecision::Unlock),
        occurrences(actions(state, events), Action::Finish(UnlockDecision::Unlock)) > 0,
    ensures
        exists|i: int|
            0 <= i < events.len() && #[trigger] settle(events[i]) == Some(VerifyOutcome::Match),
        occurrences(actions(state, events), Action::Release) > 0,
    decreases events.len(),
{
    if events.len() > 0 {
        let unlock = Action::Finish(UnlockDecision::Unlock);
        let (mid, first) = next(state, events[0]);
        let later = events.drop_first();
        lemma_occurrences_unfold(first, actions(mid, later), unlock);
        lemma_occurrences_unfold(first, actions(mid, later), Action::Release);
        assert(first != unlock);
        if mid == Engine::Releasing(UnlockDecision::Unlock) {
            assert(settle(events[0]) == Some(VerifyOutcome::Match));
        } else {
            lemma_unlock_needs_match(mid, later);
            let j: int = choose|j: int|
                0 <= j < later.len() && #[trigger] settle(later[j]) == Some(VerifyOutcome::Match);
            assert(settle(events[j + 1]) == Some(VerifyOutcome::Match));
        }
    }
}

/// A wait for the resume takes the announcements of sleep that come first
/// and one notification more, and nothing behind that one.
pub proof fn lemma_wait_takes_up_to_resume(pending: Seq<Event>)
    ensures
        ({
            let taken = notifications_taken(pending);
            &&& taken <= pending.len()
            &&& forall|i: int| 0 <= i < taken - 1 ==> pending[i] == Event::Sleep(true)
            &&& taken < pending.len() ==> taken > 0
            &&& taken > 0 ==> ends_wait(pending[taken - 1]) || (taken == pending.len()
                && pending[taken - 1] == Event::Sleep(true))
        }),
    decreases pending.len(),
{
    if pending.len() > 0 && !ends_wait(pending[0]) {
        let later = pending.drop_first();
        lemma_wait_takes_up_to_resume(later);
        let taken = notifications_taken(pending);
        assert forall|i: int| 0 <= i < taken - 1 implies pending[i] == Event::Sleep(true) by {
            if i > 0 {
                assert(pending[i] == later[i - 1]);
            }
        }
        if taken > 1 {
            assert(pending[taken - 1] == later[taken - 2]);
        }
    }
}

/// A resume that is already pending ends the wait at once: the wait takes
/// that notification and none behind it.
pub proof fn lemma_pending_resume_ends_wait(pending: Seq<Event>)
    requires
        pending.len() > 0,
        pending[0] == Event::Sleep(false),
    ensures
        notifications_taken(pending) == 1,
{
}

} // verus!
