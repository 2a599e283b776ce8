//! The command-line front end.

pub mod app;
pub mod inline;
