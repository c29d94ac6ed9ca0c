//! The presence channel: an opaque, stateful connection on which the
//! reconciler displays, updates, or clears the activity card.
//!
//! The connection itself is `discord_rich_presence::DiscordIpcClient`; every
//! call on it may fail, and nothing can be promised of which calls succeed,
//! so the trusted wrappers here carry no success clause. What the library
//! does own is the shape of the payload: every field of the card is derived
//! from the session by `activity_fields`, which is verified.

use vstd::prelude::*;
use vstd::string::StringExecFns;
use crate::game::Game;
use discord_rich_presence::DiscordIpc;
use discord_rich_presence::DiscordIpcClient;
use discord_rich_presence::activity::Activity;
use discord_rich_presence::activity::Assets;
use discord_rich_presence::activity::Button;
use discord_rich_presence::activity::Timestamps;

verus! {

#[verifier::external_type_specification]
#[verifier::external_body]
pub struct ExDiscordIpcClient(DiscordIpcClient);

#[verifier::external_type_specification]
#[verifier::external_body]
pub struct ExDiscordError(discord_rich_presence::error::Error);

/// An opaque failure of the presence channel. The core needs no subkinds:
/// every channel failure is handled the same way, by retrying on a later
/// tick (or, for a failed reconnect, by surfacing the error and leaving the
/// state untouched).
#[derive(Debug)]
pub struct ChannelError;

/// The store page link shown on the activity card, templated from the
/// session's stable identifier.
pub open spec fn store_url_spec(app_id: Seq<char>) -> Seq<char> {
    "https://store.steampowered.com/app/"@ + app_id + "/"@
}

/// Every field of the activity card: the display title, the elapsed-time
/// anchor and the large-image key, each derived from the session, and the
/// two action buttons — the store page link templated from the session's
/// identifier, and the fixed link to the project repository.
pub struct ActivityFields {
    /// Display title: the session's name.
    pub details: String,
    /// Elapsed-time anchor: the session's start instant.
    pub start: i64,
    /// Large-image key: the session's stable identifier.
    pub large_image: String,
    /// Label of the store page button.
    pub store_label: String,
    /// Store page link, templated from the stable identifier.
    pub store_url: String,
    /// Label of the repository button.
    pub repo_label: String,
    /// The fixed link to the project repository.
    pub repo_url: String,
}

/// Derives the activity card's fields from a session.
pub fn activity_fields(game: &Game) -> (f: ActivityFields)
    ensures
        f.details@ == game.name@,
        f.start == game.timestamp,
        f.large_image@ == game.app_id@,
        f.store_label@ == "Steam Store Page"@,
        f.store_url@ == store_url_spec(game.app_id@),
        f.repo_label@ == "GitHub Repository"@,
        f.repo_url@ == "https://github.com/LennardKittner/Steam2Discord"@,
{
    let url = String::from_str("https://store.steampowered.com/app/");
    let url = url.concat(game.app_id.as_str());
    let url = url.concat("/");
    ActivityFields {
        details: game.name.clone(),
        start: game.timestamp,
        large_image: game.app_id.clone(),
        store_label: String::from_str("Steam Store Page"),
        store_url: url,
        repo_label: String::from_str("GitHub Repository"),
        repo_url: String::from_str("https://github.com/LennardKittner/Steam2Discord"),
    }
}

/// Relies on DiscordIpc::set_activity: packs the given fields into one
/// activity payload and sends it over the connection; it returns an error
/// iff finding or writing to the socket failed, and promises nothing about
/// which outcome occurs.
#[verifier::external_body]
fn send_activity(
    client: &mut DiscordIpcClient,
    fields: &ActivityFields,
) -> Result<(), discord_rich_presence::error::Error> {
    let buttons = vec![
        Button::new(fields.store_label.as_str(), fields.store_url.as_str()),
        Button::new(fields.repo_label.as_str(), fields.repo_url.as_str()),
    ];
    client.set_activity(
        Activity::new()
            .details(fields.details.as_str())
            .timestamps(Timestamps::new().start(fields.start))
            .assets(Assets::new().large_image(fields.large_image.as_str()))
            .buttons(buttons),
    )
}

/// Relies on DiscordIpc::reconnect: closes the active connection, then
/// re-establishes it and re-sends the handshake; may fail at any of those
/// steps, and promises nothing about which outcome occurs.
#[verifier::external_body]
fn reconnect_raw(client: &mut DiscordIpcClient) -> Result<(), discord_rich_presence::error::Error> {
    client.reconnect()
}

/// Relies on DiscordIpc::clear_activity: sends the payload that clears the
/// displayed activity; promises nothing about which outcome occurs.
#[verifier::external_body]
fn clear_activity_raw(client: &mut DiscordIpcClient) -> Result<(), discord_rich_presence::error::Error> {
    client.clear_activity()
}

/// Displays the session on the channel: the card shows the session's name
/// as title, its start instant as the elapsed-time anchor, its identifier
/// as image key, and the two action links — the templated store page and
/// the project repository. The channel may refuse; the caller absorbs a
/// failure by retrying on a later tick.
pub fn set_current_game(client: &mut DiscordIpcClient, game: &Game) -> Result<(), ChannelError> {
    let fields = activity_fields(game);
    match send_activity(client, &fields) {
        Ok(()) => Ok(()),
        Err(_) => Err(ChannelError),
    }
}

/// Re-establishes the channel after a failed display attempt, on the
/// assumption that the failure meant a dropped connection. Only this
/// operation's failure ever aborts a tick.
pub fn reconnect_channel(client: &mut DiscordIpcClient) -> Result<(), ChannelError> {
    match reconnect_raw(client) {
        Ok(()) => Ok(()),
        Err(_) => Err(ChannelError),
    }
}

/// Clears whatever the channel displays. The channel may refuse; the caller
/// absorbs a failure by retrying on a later tick.
pub fn clear_channel(client: &mut DiscordIpcClient) -> Result<(), ChannelError> {
    match clear_activity_raw(client) {
        Ok(()) => Ok(()),
        Err(_) => Err(ChannelError),
    }
}

} // verus!
