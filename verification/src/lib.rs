//! The authoritative core of a two-player duel: match sessions, the registry
//! that owns them, the wire protocol, and the client-side protocol driver.

pub mod connection;
pub mod exactly_once;
pub mod lobby;
pub mod match_id;
pub mod menu;
pub mod outcome;
pub mod player;
pub mod profile;
pub mod protocol;
pub mod registry;
pub mod seating;
pub mod server;
pub mod session;
pub mod shooting;
pub mod states;
