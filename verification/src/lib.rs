//! A remote-control agent's core: actions and their results, the session
//! protocol with its confirmation handshake, and the state of the live
//! terminal view with its scrolling viewport.
//!
//! The library performs no input or output. A driver owns the socket, the
//! terminal, the file system and the clock; it hands the library what it
//! received and carries out what the library answers.

pub mod action;
pub mod channel;
pub mod error;
pub mod geometry;
pub mod json;
pub mod line;
pub mod session;
pub mod tui;
pub mod wire;
