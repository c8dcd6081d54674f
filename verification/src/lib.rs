//! Coordination core of a real-time, multi-client game-session server.
//!
//! Clients connect over a duplex text channel, prove possession of a public
//! key via a signature challenge, register into a shared room, and take part
//! in administered rounds.  Everything that decides — the wire codec, the
//! per-connection session state machine, the client directory, the room with
//! its round state machine, and the pending-request tracker — lives here as
//! verified code.  The surrounding process (sockets, tasks, timers, JSON
//! text) drives these functions from outside.

pub mod codec;
pub mod data_types;
pub mod game_actor;
pub mod ids;
pub mod json;
pub mod pending_tracker;
pub mod room_actor;
pub mod server;
pub mod session_client_actor;
pub mod tools;
