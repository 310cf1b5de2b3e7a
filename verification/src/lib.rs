//! Tracks what a networked Sonos player is playing and decides which plays
//! are worth recording.
//!
//! The library holds the decisions and performs no I/O. Its caller probes
//! the player, searches the network, fetches the player's answers and keeps
//! the time; the library is handed what came of it, and says what follows.
//!
//! - [`device_manager`]: one device's session, across probe failures and
//!   address changes.
//! - [`sonos`]: what to ask a player and how to read its answer; the play
//!   log; listings and subscriptions.
//! - [`detector`]: which snapshots are new plays.
//! - [`monitor`]: what a tick of the poll loop does.
//! - [`discovery`]: device descriptors.
//! - [`lastfm`]: credentials and scrobbles for the Last.fm sink.
//! - [`text`]: strings as sequences of characters.

pub mod detector;
pub mod device_manager;
pub mod discovery;
pub mod lastfm;
pub mod monitor;
pub mod sonos;
pub mod text;
