//! The session: interactive login, token persistence, refresh and
//! revocation.

pub mod callback;
pub mod google;
pub mod laws;
pub mod pkce;
