//! Commands of the terminal interface.

pub mod commands;
