//! Bridges a remote "currently playing" query to a local rich-presence
//! channel. The core is the activity reconciliation state machine: on every
//! poll tick it decides whether the displayed activity must be set, updated,
//! cleared, or left untouched, tolerating transient failures of either the
//! query or the channel.

pub mod channel;
pub mod game;
pub mod query;
pub mod reconciler;

pub use channel::ChannelError;
pub use game::Game;
pub use query::QueryOutcome;
pub use query::SteamError;
pub use reconciler::State;
