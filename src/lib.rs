//! Interception hooks for relay traffic: room-listing rewrites for the lobby connection,
//! session bookkeeping for the game connection, and fail-open handling of every frame.

pub mod hook;
pub mod lobby;
pub mod message;
pub mod props;
pub mod session;
