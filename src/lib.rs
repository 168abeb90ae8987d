//! Authoritative match core of a small multiplayer arena shooter.
//!
//! The library holds the server's player registry, the match state machine
//! (lobby, countdown, play, game over), the per-message handlers that turn an
//! inbound client message into outbound server messages, and the client's
//! reconciliation of that message stream into its local mirror. Sockets,
//! timers, JSON and logging are the caller's business: every function here
//! is a pure step from plain values to plain values.

pub mod scalar;
pub mod addr;
pub mod player;
pub mod messages;
pub mod registry;
pub mod game;
pub mod server;
pub mod client;
pub mod laws;
pub mod maze;
