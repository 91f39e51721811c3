//! The logic of a rapid auto-clicker: click rates, hotkey bindings, the
//! settings file, and the decisions of the clicking and cursor-jitter loops.

pub mod text;
pub mod worker;
pub mod hotkey;
pub mod config;
pub mod jitter;
pub mod winutil;
pub mod session;
