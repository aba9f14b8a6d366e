//! Device pairing and relay engine: a registry of player devices, the
//! controller pairing state machine, and the per-connection decision steps of
//! the player and controller sessions.

pub mod config;
pub mod protocol;
pub mod registry;
pub mod session;

pub use config::Config;
pub use protocol::{Command, ControllerState, Event};
pub use registry::{LookupError, Registry};
