//! A room-based chat relay: the presence registry of each room, the registry of
//! live rooms, the per-connection session state machine with its moderation
//! check, and the client's reconciliation of relay events into a local log.

pub mod client;
pub mod config;
pub mod moderation;
pub mod registry;
pub mod room;
pub mod server;
pub mod session;
pub mod types;
