//! Lifecycle supervisor for a full node built from independently owned
//! subsystems: a startup sequencer that constructs subsystems in dependency
//! order, background task management, and a shutdown protocol that releases
//! the durable storage handle before the process exits, with a bounded wait.

pub mod address;
pub mod client;
pub mod config;
pub mod errors;
pub mod exit;
pub mod laws;
pub mod records;
pub mod reporter;
pub mod subsystems;
pub mod trace;
pub mod wait;
