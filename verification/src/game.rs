//! The game-session entity: one continuous observed instance of a user
//! playing a specific identified game.

use vstd::prelude::*;

verus! {

/// One observed remote play session.
///
/// `timestamp` is the session start instant (seconds since the Unix epoch),
/// captured when the session is first observed and never re-captured on later
/// polls, so that the elapsed-time display stays anchored.
#[derive(Debug)]
pub struct Game {
    /// Display title of the game.
    pub name: String,
    /// Stable identifier; the sole key for session equality, and the source
    /// of the derived store link and image key.
    pub app_id: String,
    /// Session start, seconds since the Unix epoch.
    pub timestamp: i64,
}

/// Two observations belong to the same ongoing session iff their `app_id`
/// values match. `name` or `timestamp` drift does not end a session: the
/// title string may change format without a real game change.
pub open spec fn same_session(a: Game, b: Game) -> bool {
    a.app_id@ == b.app_id@
}

impl Game {
    /// Creates the session entity at the moment a poll first observes the
    /// game being played, capturing the start instant once; later polls
    /// reuse the entity instead of re-creating it, so the anchor never
    /// drifts.
    pub fn observe(name: String, app_id: String) -> (g: Game)
        ensures
            g.name@ == name@,
            g.app_id@ == app_id@,
    {
        let timestamp: i64 = unix_now();
        Game { name, app_id, timestamp }
    }
}

/// Relies on chrono::Utc::now: reads the wall clock; `timestamp()` is that
/// instant as whole seconds since the Unix epoch. Nothing can be promised of
/// a value read from the clock, so no clause constrains it.
#[verifier::external_body]
fn unix_now() -> i64 {
    chrono::Utc::now().timestamp()
}

impl Clone for Game {
    /// A session entity is reused, not re-created, across polls; the clone
    /// is the same session in every field, start instant included.
    fn clone(&self) -> (g: Game)
        ensures
            g == *self,
    {
        Game {
            name: self.name.clone(),
            app_id: self.app_id.clone(),
            timestamp: self.timestamp,
        }
    }
}

impl PartialEq for Game {
    fn eq(&self, other: &Self) -> (r: bool) {
        self.app_id == other.app_id
    }
}

impl vstd::std_specs::cmp::PartialEqSpecImpl for Game {
    open spec fn obeys_eq_spec() -> bool {
        true
    }

    open spec fn eq_spec(&self, other: &Game) -> bool {
        same_session(*self, *other)
    }
}

} // verus!
