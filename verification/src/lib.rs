//! Core logic of a chat-driven moderation relay for a game server:
//! cross-system identity resolution (player handles, authorization-service
//! identities, game-server player records) and relaying of administrative
//! actions (ban, pardon) to the game server's administrative API.
//!
//! All network and database traffic stays outside this crate; the library
//! works on plain values (status codes, response bodies, rows already read)
//! and every function here is verified against its contract.

pub mod admin;
pub mod commands;
pub mod config;
pub mod directory;
pub mod envelope;
pub mod error;
pub mod ident;
pub mod json;
pub mod orchestrator;
pub mod records;
pub mod text;
pub mod wire;
