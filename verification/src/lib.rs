//! Verified core of a clipboard access and change-watching library.
//!
//! The modules hold the decisions of the library: which formats a snapshot
//! reports, how a Wayland paste message becomes a snapshot, how image payloads
//! are packaged, which failure a caller sees, and how a listener moves between
//! idle and active. Talking to the operating system is left to the caller.

pub mod aggregate;
pub mod codec;
pub mod data;
pub mod environment;
pub mod error;
pub mod format;
pub mod listener;
pub mod manager;
pub mod text;
pub mod wayland;
