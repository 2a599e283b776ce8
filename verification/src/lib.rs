//! A sans-I/O core for a personal task-management client.
//!
//! The crate holds the session lifecycle (interactive login with PKCE, token
//! persistence, silent refresh, revocation) and the synchronisation engine that
//! mirrors remote task lists into an in-memory cache.  Nothing here touches the
//! network, the secret store or the terminal: every operation is a step
//! function that receives what the host observed last and answers with the
//! next thing the host has to do.

pub mod args;
pub mod auth;
pub mod cli;
pub mod cmd;
pub mod common;
pub mod error;
pub mod host;
pub mod tui;
