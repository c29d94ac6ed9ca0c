//! The query-side error taxonomy and the classification of one poll's raw
//! response into a game session or a well-defined failure.
//!
//! The transport itself (the HTTP exchange and the JSON walk) is an external
//! collaborator; it hands this module the plain facts it extracted: the
//! response status, whether the player record was present, and the two
//! optional fields that describe a running game.

use vstd::prelude::*;
use crate::game::Game;

verus! {

/// Why one poll could not produce a game session.
#[derive(Debug, PartialEq, Eq, Structural)]
pub enum SteamError {
    /// The request never produced a response (network or decode failure).
    RequestFailed(),
    /// The player record exists but reports no running game.
    NoGameFound(),
    /// The response carried no player record for the queried identifier.
    PlayerNotFound(),
    /// The service rejected the credential.
    WrongAPIKey(),
    /// The service answered with an unexpected status code.
    RequestStatusError(u16),
}

/// The definite outcome of one successful poll, the only two signals the
/// reconciler is ever invoked with.
#[derive(Debug)]
pub enum QueryOutcome {
    /// The user is playing this session right now.
    Playing(Game),
    /// The user was found and is not playing anything.
    NoGameInProgress,
}

/// Decides what one poll's response means.
///
/// `status` is the HTTP status code of the response; `player_found` says
/// whether the players array held at least one record; `game_name` and
/// `game_id` are the optional fields of that record describing a running
/// game. A new session entity is created only when every check passes; its
/// start instant is captured at this moment.
pub fn classify_query(
    status: u16,
    player_found: bool,
    game_name: Option<String>,
    game_id: Option<String>,
) -> (r: Result<Game, SteamError>)
    ensures
        status == 403 ==> (r matches Err(e) && e == SteamError::WrongAPIKey()),
        status != 403 && status != 200 ==> (r matches Err(e) && e == SteamError::RequestStatusError(status)),
        status == 200 && !player_found ==> (r matches Err(e) && e == SteamError::PlayerNotFound()),
        status == 200 && player_found && (game_name is None || game_id is None)
            ==> (r matches Err(e) && e == SteamError::NoGameFound()),
        status == 200 && player_found ==> (game_name matches Some(n)
            ==> (game_id matches Some(i)
            ==> (r matches Ok(g) && g.name@ == n@ && g.app_id@ == i@))),
{
    if status == 403 {
        return Err(SteamError::WrongAPIKey());
    }
    if status != 200 {
        return Err(SteamError::RequestStatusError(status));
    }
    if !player_found {
        return Err(SteamError::PlayerNotFound());
    }
    match (game_name, game_id) {
        (Some(name), Some(id)) => Ok(Game::observe(name, id)),
        _ => Err(SteamError::NoGameFound()),
    }
}

/// Splits a poll result into the two definite signals the reconciler
/// understands and the failures that must be surfaced instead.
///
/// `NoGameFound` is a meaningful answer — the user is not playing — and
/// becomes `NoGameInProgress`; every other error means the current state
/// could not be determined this tick, so the caller reports it and skips
/// reconciliation, leaving the display state untouched.
pub fn outcome_from_query(result: Result<Game, SteamError>) -> (r: Result<QueryOutcome, SteamError>)
    ensures
        result matches Ok(g) ==> (r matches Ok(o) && o == QueryOutcome::Playing(g)),
        result matches Err(e) && e == SteamError::NoGameFound()
            ==> (r matches Ok(o) && o == QueryOutcome::NoGameInProgress),
        result is Err && result->Err_0 != SteamError::NoGameFound()
            ==> (r is Err && r->Err_0 == result->Err_0),
{
    match result {
        Ok(game) => Ok(QueryOutcome::Playing(game)),
        Err(SteamError::NoGameFound()) => Ok(QueryOutcome::NoGameInProgress),
        Err(e) => Err(e),
    }
}

} // verus!
