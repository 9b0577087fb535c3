//! Subcommand logic.

pub mod comment;
pub mod list;
pub mod login;
pub mod view;
pub mod whoami;
