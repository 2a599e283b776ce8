//! The failures that the session and the synchronisation engine report.

use vstd::prelude::*;
use vstd::string::*;

verus! {

/// Why an operation stopped without a result.
#[derive(Debug, PartialEq, Eq, Clone, Copy, Structural)]
pub enum Error {
    /// The client identifier or the client secret is not configured.
    ConfigMissing,
    /// An endpoint address could not be turned into an authorization URL.
    InvalidEndpoint,
    /// The state echoed by the redirect is not the one this attempt generated.
    CsrfMismatch,
    /// The redirect is malformed or carries no `code` or no `state`.
    CallbackMissingParameter,
    /// No redirect arrived while the listener was waiting.
    CallbackTimeout,
    /// The token endpoint refused the authorization code, or granted no
    /// refresh token along with the access token.
    ExchangeFailed,
    /// The secret store does not hold both tokens.
    CredentialsNotFound,
    /// The secret store could not be written or cleared.
    StoreFailed,
    /// The provider refused the refresh token.
    RefreshRejected,
    /// The provider did not confirm the revocation.
    RevocationFailed,
    /// The task API answered 401 again after the one refresh that a call may
    /// spend.
    Unauthorized,
    /// The task API could not be reached.
    RemoteUnavailable,
    /// The task API refused to create the task.
    CreateFailed,
    /// The host answered with something the running operation did not ask for.
    UnexpectedReply,
}

impl Error {
    /// The text that `message` produces.
    pub open spec fn message_spec(self) -> Seq<char> {
        match self {
            Error::ConfigMissing => "client id or client secret is not configured"@,
            Error::InvalidEndpoint => "an endpoint address is not a valid URL"@,
            Error::CsrfMismatch => "the redirect carried a foreign state token"@,
            Error::CallbackMissingParameter => "the redirect lacks a code or a state"@,
            Error::CallbackTimeout => "no redirect arrived in time"@,
            Error::ExchangeFailed => "the authorization code could not be exchanged"@,
            Error::CredentialsNotFound => "no stored session, sign in first"@,
            Error::StoreFailed => "the secret store refused the change"@,
            Error::RefreshRejected => "the refresh token was rejected, sign in again"@,
            Error::RevocationFailed => "the token could not be revoked"@,
            Error::Unauthorized => "the task service rejected the refreshed token"@,
            Error::RemoteUnavailable => "the task service could not be reached"@,
            Error::CreateFailed => "the task service refused to create the task"@,
            Error::UnexpectedReply => "the host sent a reply nobody asked for"@,
        }
    }

    /// True for the failures that only a new interactive login can cure.
    pub open spec fn needs_login_spec(self) -> bool {
        self == Error::CredentialsNotFound || self == Error::RefreshRejected || self
            == Error::Unauthorized
    }

    /// A one-line description for the user.
    pub fn message(&self) -> (text: String)
        ensures
            text@ == self.message_spec(),
    {
        match self {
            Error::ConfigMissing => String::from_str(
                "client id or client secret is not configured",
            ),
            Error::InvalidEndpoint => String::from_str("an endpoint address is not a valid URL"),
            Error::CsrfMismatch => String::from_str("the redirect carried a foreign state token"),
            Error::CallbackMissingParameter => String::from_str(
                "the redirect lacks a code or a state",
            ),
            Error::CallbackTimeout => String::from_str("no redirect arrived in time"),
            Error::ExchangeFailed => String::from_str(
                "the authorization code could not be exchanged",
            ),
            Error::CredentialsNotFound => String::from_str("no stored session, sign in first"),
            Error::StoreFailed => String::from_str("the secret store refused the change"),
            Error::RefreshRejected => String::from_str(
                "the refresh token was rejected, sign in again",
            ),
            Error::RevocationFailed => String::from_str("the token could not be revoked"),
            Error::Unauthorized => String::from_str(
                "the task service rejected the refreshed token",
            ),
            Error::RemoteUnavailable => String::from_str("the task service could not be reached"),
            Error::CreateFailed => String::from_str(
                "the task service refused to create the task",
            ),
            Error::UnexpectedReply => String::from_str("the host sent a reply nobody asked for"),
        }
    }

    /// Whether the user has to sign in again before anything else can work.
    pub fn needs_login(&self) -> (b: bool)
        ensures
            b == self.needs_login_spec(),
    {
        match self {
            Error::CredentialsNotFound | Error::RefreshRejected | Error::Unauthorized => true,
            _ => false,
        }
    }
}

} // verus!
