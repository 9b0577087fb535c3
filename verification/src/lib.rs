//! Core logic of the `csshd` helpdesk client: text rendering, request
//! building, configuration resolution and the terminal UI state machine.

pub mod text;
pub mod format;
pub mod time;
pub mod client;
pub mod config;
pub mod credentials;
pub mod tui;
pub mod commands;
