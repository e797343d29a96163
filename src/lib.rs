//! A tick-based multiplayer snake game: the shared vocabulary and the
//! authoritative simulation run by the server.
pub mod game_core;
pub mod server;
pub mod laws;
pub mod scheduler;
