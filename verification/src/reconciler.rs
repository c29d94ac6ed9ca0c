//! The activity reconciliation state machine.
//!
//! On every poll tick the reconciler is handed the last display state and
//! the fresh query outcome, and decides whether the displayed activity must
//! be set, updated, cleared, or left untouched. It works in two stages:
//! first it derives the *desired* state purely from state and outcome
//! (`desired_spec`, realized by `desired_state`); then it performs the one
//! channel call that desired state demands, if any, and absorbs a failure
//! into the matching pending state, to be retried on the next tick
//! (`realize_spec`, realized by `apply_call_result`). The only failure that
//! aborts a tick is a failed reconnect.

use vstd::prelude::*;
use crate::channel::clear_channel;
use crate::channel::reconnect_channel;
use crate::channel::set_current_game;
use crate::channel::ChannelError;
use crate::game::same_session;
use crate::game::Game;
use crate::query::QueryOutcome;
use discord_rich_presence::DiscordIpcClient;

verus! {

/// The reconciler's only piece of persisted memory: what the channel
/// currently shows, and whether the last attempt to change it succeeded.
#[derive(Debug)]
pub enum State {
    /// The channel shows this session and the last set attempt succeeded.
    ActivitySet(Game),
    /// This session should be shown, but the last set attempt (or a
    /// prerequisite reconnect) has not yet succeeded; retried next tick.
    ActivityNeedsToBeSet(Game),
    /// The channel shows nothing, and clearing succeeded.
    ActivityCleared,
    /// Nothing should be shown, but the last clear attempt failed;
    /// retried next tick.
    ActivityNeedsToBeCleared,
}

/// Stage one: the display state the tick should reach, derived purely from
/// the current state and the fresh outcome.
///
/// An unchanged session keeps the old entity, so the start instant captured
/// at first observation is preserved; a different identifier replaces the
/// entity. A state that already matches the outcome (`ActivitySet` of the
/// same session, `ActivityCleared` with no game) is returned as is and
/// demands no channel call.
pub open spec fn desired_spec(st: State, out: QueryOutcome) -> State {
    match out {
        QueryOutcome::Playing(g) => match st {
            State::ActivitySet(old_game) => if same_session(old_game, g) {
                State::ActivitySet(old_game)
            } else {
                State::ActivityNeedsToBeSet(g)
            },
            State::ActivityNeedsToBeSet(old_game) => if same_session(old_game, g) {
                State::ActivityNeedsToBeSet(old_game)
            } else {
                State::ActivityNeedsToBeSet(g)
            },
            _ => State::ActivityNeedsToBeSet(g),
        },
        QueryOutcome::NoGameInProgress => match st {
            State::ActivityCleared => State::ActivityCleared,
            _ => State::ActivityNeedsToBeCleared,
        },
    }
}

/// A tick must first re-establish the channel exactly when a set is pending
/// and the user is still playing: the failed set is taken to mean a dropped
/// connection, which is re-established before deciding whether the session
/// actually changed.
pub open spec fn needs_reconnect(st: State, out: QueryOutcome) -> bool {
    st is ActivityNeedsToBeSet && out is Playing
}

/// A tick aborts exactly when it demanded a reconnect and that reconnect
/// failed. Every other tick — one whose reconnect succeeded, or one that
/// demanded none — goes on to the two stages.
pub open spec fn gate_spec(st: State, out: QueryOutcome, reconnect_ok: bool) -> bool {
    needs_reconnect(st, out) && !reconnect_ok
}

/// Executable abort decision; exactly `gate_spec`, threading the state
/// through untouched. `reconnect_ok` is the outcome of the reconnect where
/// the tick demanded one (and `true` where it did not, since no call was
/// made): the tick aborts, surfacing the error beside the unchanged state,
/// if and only if a demanded reconnect failed.
pub fn gate_result(st: State, out: &QueryOutcome, reconnect_ok: bool) -> (r: (
    State,
    Option<ChannelError>,
))
    ensures
        r.0 == st,
        r.1 is Some <==> gate_spec(st, *out, reconnect_ok),
{
    let gated = match (&st, out) {
        (State::ActivityNeedsToBeSet(_), QueryOutcome::Playing(_)) => true,
        _ => false,
    };
    if gated && !reconnect_ok {
        (st, Some(ChannelError))
    } else {
        (st, None)
    }
}

/// Stage two demands a set call exactly for a pending set.
pub open spec fn makes_set_call(desired: State) -> bool {
    desired is ActivityNeedsToBeSet
}

/// Stage two demands a clear call exactly for a pending clear.
pub open spec fn makes_clear_call(desired: State) -> bool {
    desired is ActivityNeedsToBeCleared
}

/// Stage two: the state actually reached, given whether the one channel
/// call the desired state demands succeeded. A failed call leaves the
/// matching pending state in place, to be retried next tick; a state that
/// demands no call is reached as is.
pub open spec fn realize_spec(desired: State, call_ok: bool) -> State {
    match desired {
        State::ActivityNeedsToBeSet(g) => if call_ok {
            State::ActivitySet(g)
        } else {
            State::ActivityNeedsToBeSet(g)
        },
        State::ActivityNeedsToBeCleared => if call_ok {
            State::ActivityCleared
        } else {
            State::ActivityNeedsToBeCleared
        },
        other => other,
    }
}

/// Executable stage one; exactly `desired_spec`.
pub fn desired_state(st: State, out: QueryOutcome) -> (desired: State)
    ensures
        desired == desired_spec(st, out),
{
    match out {
        QueryOutcome::Playing(g) => match st {
            State::ActivitySet(old_game) => if old_game == g {
                State::ActivitySet(old_game)
            } else {
                State::ActivityNeedsToBeSet(g)
            },
            State::ActivityNeedsToBeSet(old_game) => if old_game == g {
                State::ActivityNeedsToBeSet(old_game)
            } else {
                State::ActivityNeedsToBeSet(g)
            },
            _ => State::ActivityNeedsToBeSet(g),
        },
        QueryOutcome::NoGameInProgress => match st {
            State::ActivityCleared => State::ActivityCleared,
            _ => State::ActivityNeedsToBeCleared,
        },
    }
}

/// Executable stage two; exactly `realize_spec`.
pub fn apply_call_result(desired: State, call_ok: bool) -> (next: State)
    ensures
        next == realize_spec(desired, call_ok),
{
    match desired {
        State::ActivityNeedsToBeSet(g) => if call_ok {
            State::ActivitySet(g)
        } else {
            State::ActivityNeedsToBeSet(g)
        },
        State::ActivityNeedsToBeCleared => if call_ok {
            State::ActivityCleared
        } else {
            State::ActivityNeedsToBeCleared
        },
        other => other,
    }
}

/// One reconciliation tick: performs the reconnect where one is demanded
/// and decides by `gate_result` whether the tick aborts; otherwise derives
/// the desired state, performs the channel call it demands, and returns the
/// state actually reached, together with the error to surface when the tick
/// had to be aborted.
///
/// Only a failed reconnect aborts: the state comes back untouched beside
/// the error, and nothing was sent on the channel. Otherwise the result is
/// the realization of the desired state under the one channel call's
/// success or failure; set and clear failures are absorbed into the pending
/// states and never surface. The decision logic on either side of the
/// channel calls is exact: `gate_result` on the reconnect's outcome,
/// `apply_call_result` on the set or clear call's.
pub fn reconcile(st: State, out: QueryOutcome, client: &mut DiscordIpcClient) -> (r: (
    State,
    Option<ChannelError>,
))
    ensures
        r.1 is Some ==> needs_reconnect(st, out) && r.0 == st,
        !needs_reconnect(st, out) ==> r.1 is None,
        r.1 is None ==> exists|call_ok: bool| r.0 == realize_spec(desired_spec(st, out), call_ok),
{
    let reconnect_needed = match (&st, &out) {
        (State::ActivityNeedsToBeSet(_), QueryOutcome::Playing(_)) => true,
        _ => false,
    };
    let reconnect_ok = if reconnect_needed {
        reconnect_channel(client).is_ok()
    } else {
        true
    };
    let (st, aborted) = gate_result(st, &out, reconnect_ok);
    if aborted.is_some() {
        return (st, aborted);
    }
    let desired = desired_state(st, out);
    let next = match desired {
        State::ActivityNeedsToBeSet(g) => {
            let call_ok = set_current_game(client, &g).is_ok();
            apply_call_result(State::ActivityNeedsToBeSet(g), call_ok)
        },
        State::ActivityNeedsToBeCleared => {
            let call_ok = clear_channel(client).is_ok();
            apply_call_result(State::ActivityNeedsToBeCleared, call_ok)
        },
        other => other,
    };
    (next, None)
}

/// Law: an unchanged session on an already-set activity is a no-op. The
/// desired state keeps the old entity — and with it the start instant
/// captured at first observation — demands neither a reconnect nor a set
/// call, and is reached as is whatever the channel would have answered.
pub proof fn lemma_idempotent_tick(s: Game, g: Game, call_ok: bool)
    requires
        same_session(s, g),
    ensures
        desired_spec(State::ActivitySet(s), QueryOutcome::Playing(g)) == State::ActivitySet(s),
        !makes_set_call(desired_spec(State::ActivitySet(s), QueryOutcome::Playing(g))),
        !needs_reconnect(State::ActivitySet(s), QueryOutcome::Playing(g)),
        realize_spec(State::ActivitySet(s), call_ok) == State::ActivitySet(s),
{
}

/// Law: an already-cleared display with no game in progress is a no-op:
/// the desired state demands no clear call and is reached as is.
pub proof fn lemma_cleared_noop(call_ok: bool)
    ensures
        desired_spec(State::ActivityCleared, QueryOutcome::NoGameInProgress)
            == State::ActivityCleared,
        !makes_clear_call(State::ActivityCleared),
        realize_spec(State::ActivityCleared, call_ok) == State::ActivityCleared,
{
}

/// Law: a session with a different identifier replaces the displayed one.
/// The desired state carries the new entity whole — so its own start
/// instant, not the replaced one's, anchors the display — and a successful
/// set reaches `ActivitySet` of it, while a failed set leaves it pending.
pub proof fn lemma_session_replacement(s1: Game, s2: Game)
    requires
        !same_session(s1, s2),
    ensures
        desired_spec(State::ActivitySet(s1), QueryOutcome::Playing(s2))
            == State::ActivityNeedsToBeSet(s2),
        realize_spec(State::ActivityNeedsToBeSet(s2), true) == State::ActivitySet(s2),
        realize_spec(State::ActivityNeedsToBeSet(s2), false) == State::ActivityNeedsToBeSet(s2),
{
}

/// Law: when the user stops playing, the displayed activity is cleared: a
/// successful clear reaches `ActivityCleared`, a failed one leaves the
/// clear pending for the next tick.
pub proof fn lemma_clearing(s: Game)
    ensures
        desired_spec(State::ActivitySet(s), QueryOutcome::NoGameInProgress)
            == State::ActivityNeedsToBeCleared,
        realize_spec(State::ActivityNeedsToBeCleared, true) == State::ActivityCleared,
        realize_spec(State::ActivityNeedsToBeCleared, false) == State::ActivityNeedsToBeCleared,
{
}

/// Law: a pending set with the user still playing is gated on a reconnect,
/// and nothing else is; a failed reconnect aborts that tick, a successful
/// one lets it proceed, and a tick that demanded no reconnect never aborts.
/// Together with `reconcile`'s contract — an error comes back only where a
/// reconnect was needed, and then beside the untouched state — this pins
/// the aborted tick: no set was realized and no state was lost.
pub proof fn lemma_reconnect_gate(s: Game, g: Game)
    ensures
        needs_reconnect(State::ActivityNeedsToBeSet(s), QueryOutcome::Playing(g)),
        forall|st: State, out: QueryOutcome|
            needs_reconnect(st, out) ==> st is ActivityNeedsToBeSet && out is Playing,
        gate_spec(State::ActivityNeedsToBeSet(s), QueryOutcome::Playing(g), false),
        !gate_spec(State::ActivityNeedsToBeSet(s), QueryOutcome::Playing(g), true),
        forall|st: State, out: QueryOutcome, reconnect_ok: bool|
            #[trigger] gate_spec(st, out, reconnect_ok)
                ==> needs_reconnect(st, out) && !reconnect_ok,
{
}

/// Law: retry is unbounded and never escalates. Whatever session a pending
/// set carries and whatever session the user is now playing, a tick whose
/// set call fails realizes a pending set again — there is no error state to
/// fall into, and the next tick retries.
pub proof fn lemma_unbounded_retry(s: Game, g: Game)
    ensures
        realize_spec(
            desired_spec(State::ActivityNeedsToBeSet(s), QueryOutcome::Playing(g)),
            false,
        ) is ActivityNeedsToBeSet,
{
}

} // verus!
