use steam_2_discord::query::classify_query;
use steam_2_discord::query::outcome_from_query;
use steam_2_discord::Game;
use steam_2_discord::QueryOutcome;
use steam_2_discord::SteamError;

#[test]
fn forbidden_status_means_wrong_api_key() {
    let r = classify_query(403, true, Some("A".to_string()), Some("1".to_string()));
    assert_eq!(r.unwrap_err(), SteamError::WrongAPIKey());
}

#[test]
fn unexpected_status_is_reported_with_its_code() {
    let r = classify_query(500, true, Some("A".to_string()), Some("1".to_string()));
    assert_eq!(r.unwrap_err(), SteamError::RequestStatusError(500));
    let r = classify_query(301, false, None, None);
    assert_eq!(r.unwrap_err(), SteamError::RequestStatusError(301));
}

#[test]
fn missing_player_record_means_player_not_found() {
    let r = classify_query(200, false, None, None);
    assert_eq!(r.unwrap_err(), SteamError::PlayerNotFound());
}

#[test]
fn player_without_game_fields_means_no_game_found() {
    let r = classify_query(200, true, None, None);
    assert_eq!(r.unwrap_err(), SteamError::NoGameFound());
    let r = classify_query(200, true, Some("Portal 2".to_string()), None);
    assert_eq!(r.unwrap_err(), SteamError::NoGameFound());
    let r = classify_query(200, true, None, Some("620".to_string()));
    assert_eq!(r.unwrap_err(), SteamError::NoGameFound());
}

#[test]
fn complete_player_record_yields_the_session() {
    let r = classify_query(200, true, Some("Portal 2".to_string()), Some("620".to_string()));
    let game = r.unwrap();
    assert_eq!(game.name, "Portal 2");
    assert_eq!(game.app_id, "620");
    // The start instant is captured from the clock at observation time.
    assert!(game.timestamp > 1_600_000_000);
}

#[test]
fn request_failure_passes_through() {
    let r = outcome_from_query(Err(SteamError::RequestFailed()));
    assert_eq!(r.unwrap_err(), SteamError::RequestFailed());
}

#[test]
fn no_game_found_becomes_the_clearing_signal() {
    let r = outcome_from_query(Err(SteamError::NoGameFound()));
    assert!(matches!(r, Ok(QueryOutcome::NoGameInProgress)));
}

#[test]
fn a_session_becomes_the_playing_signal() {
    let game = Game {
        name: "Portal 2".to_string(),
        app_id: "620".to_string(),
        timestamp: 7,
    };
    let r = outcome_from_query(Ok(game));
    match r {
        Ok(QueryOutcome::Playing(g)) => {
            assert_eq!(g.name, "Portal 2");
            assert_eq!(g.app_id, "620");
            assert_eq!(g.timestamp, 7);
        }
        _ => panic!("expected the playing signal"),
    }
}

#[test]
fn other_errors_pass_through_unchanged() {
    for e in [
        SteamError::PlayerNotFound(),
        SteamError::WrongAPIKey(),
        SteamError::RequestStatusError(502),
    ] {
        let r = outcome_from_query(Err(e));
        assert!(r.is_err());
    }
}

#[test]
fn observed_session_captures_its_fields() {
    let g = Game::observe("Factorio".to_string(), "427520".to_string());
    assert_eq!(g.name, "Factorio");
    assert_eq!(g.app_id, "427520");
    assert!(g.timestamp > 1_600_000_000);
}
