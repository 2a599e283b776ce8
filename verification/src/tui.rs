//! The state of the terminal interface.

pub mod state;
pub mod ui;
