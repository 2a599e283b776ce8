//! The session with the provider: login, token retrieval, silent refresh and
//! revocation.
//!
//! A session is `Unknown` until the secret store has been probed,
//! `Authenticated` once a token pair has been read or written, and
//! `Unauthenticated` when the store holds none or the provider has turned the
//! tokens down.  `sign_in`, `refresh_token` and `sign_out` are step functions
//! (see [`crate::host`]); a `Reply::Begin` starts an operation whatever was
//! going on before.

use crate::auth::callback::{callback_of, parse_callback, CallbackView};
use crate::auth::pkce::{
    authorization_url, authorization_url_text, PkceAttempt, PkceAttemptView,
};
use crate::common::text::{same_text, text_of};
use crate::error::Error;
use crate::host::{
    OAuthConfig, OAuthConfigView, Reply, ReplyView, Request, RequestView, Step, StepView,
    StoredCredentials, StoredCredentialsView, TokenGrant, TokenGrantView,
};
use vstd::prelude::*;
use vstd::string::*;

verus! {

/// The authorization endpoint.
pub const AUTH_URL: &'static str = "https://accounts.google.com/o/oauth2/v2/auth";

/// The token endpoint.
pub const TOKEN_URL: &'static str = "https://www.googleapis.com/oauth2/v3/token";

/// The revocation endpoint.
pub const REVOCATION_URL: &'static str = "https://oauth2.googleapis.com/revoke";

/// The redirect address that is registered with the provider.
pub const REDIRECT_URL: &'static str = "http://localhost:8080";

/// Where the local listener waits for the redirect.
pub const LISTEN_ON: &'static str = "127.0.0.1:8080";

/// How many seconds the local listener waits for the redirect before the
/// host reports that none arrived.
pub const CALLBACK_WAIT_SECONDS: u64 = 120;

/// The scope that allows reading and changing tasks.
pub const SCOPE_TASKS: &'static str = "https://www.googleapis.com/auth/tasks";

/// The scope that allows reading tasks.
pub const SCOPE_TASKS_READONLY: &'static str = "https://www.googleapis.com/auth/tasks.readonly";

/// The namespace of the application in the secret store.
pub const STORE_SERVICE: &'static str = "tasked";

/// The key of the access token in the secret store.
pub const ACCESS_TOKEN_KEY: &'static str = "access-token";

/// The key of the refresh token in the secret store.
pub const REFRESH_TOKEN_KEY: &'static str = "refresh-token";

/// What is known about the session.
#[derive(Debug, PartialEq, Eq, Clone, Copy, Structural)]
pub enum Session {
    /// The secret store has not been probed yet.
    Unknown,
    /// A token pair has been read from the store or written to it.
    Authenticated,
    /// The store holds no token pair, or the provider turned it down.
    Unauthenticated,
}

/// Where a running operation stands.
#[derive(Debug)]
pub enum AuthPhase {
    /// Nothing is running.
    Idle,
    /// Login: the store is being probed.
    Probing,
    /// Login: the configuration is being read.
    Configuring,
    /// Login: the browser has the authorization URL, the listener waits.
    AwaitingCallback { verifier: String, csrf_state: String },
    /// Login: the authorization code is with the token endpoint.
    Exchanging,
    /// Login: the granted pair is being written to the store.
    StoringLogin { access_token: String, refresh_token: String },
    /// Refresh: the store is being read.
    ReadingForRefresh,
    /// Refresh: the refresh token is with the token endpoint.
    Refreshing { refresh_token: String },
    /// Refresh: the new pair is being written to the store.
    StoringRefresh { access_token: String, refresh_token: String },
    /// Logout: the store is being read.
    ReadingForSignOut,
    /// Logout: the access token is with the revocation endpoint.
    Revoking,
    /// Logout: the store is being cleared.
    Clearing,
}

/// What an `AuthPhase` holds.
pub enum AuthPhaseView {
    Idle,
    Probing,
    Configuring,
    AwaitingCallback { verifier: Seq<char>, csrf_state: Seq<char> },
    Exchanging,
    StoringLogin { access_token: Seq<char>, refresh_token: Seq<char> },
    ReadingForRefresh,
    Refreshing { refresh_token: Seq<char> },
    StoringRefresh { access_token: Seq<char>, refresh_token: Seq<char> },
    ReadingForSignOut,
    Revoking,
    Clearing,
}

/// The session with the provider.
#[derive(Debug)]
pub struct GoogleOAuth {
    pub status: Session,
    pub access_token: String,
    pub refresh_token: String,
    pub phase: AuthPhase,
}

/// What a `GoogleOAuth` holds.
pub struct GoogleOAuthView {
    pub status: Session,
    pub access_token: Seq<char>,
    pub refresh_token: Seq<char>,
    pub phase: AuthPhaseView,
}

/// The secrets of a login attempt together with the authorization URL that
/// was built from them.
#[derive(Debug)]
pub struct Authorization {
    pub attempt: PkceAttempt,
    pub url: Option<String>,
}

/// What an `Authorization` holds.
pub struct AuthorizationView {
    pub attempt: PkceAttemptView,
    pub url: Option<Seq<char>>,
}

impl View for AuthPhase {
    type V = AuthPhaseView;

    open spec fn view(&self) -> AuthPhaseView {
        match *self {
            AuthPhase::Idle => AuthPhaseView::Idle,
            AuthPhase::Probing => AuthPhaseView::Probing,
            AuthPhase::Configuring => AuthPhaseView::Configuring,
            AuthPhase::AwaitingCallback { verifier, csrf_state } => AuthPhaseView::AwaitingCallback {
                verifier: verifier@,
                csrf_state: csrf_state@,
            },
            AuthPhase::Exchanging => AuthPhaseView::Exchanging,
            AuthPhase::StoringLogin { access_token, refresh_token } => AuthPhaseView::StoringLogin {
                access_token: access_token@,
                refresh_token: refresh_token@,
            },
            AuthPhase::ReadingForRefresh => AuthPhaseView::ReadingForRefresh,
            AuthPhase::Refreshing { refresh_token } => AuthPhaseView::Refreshing {
                refresh_token: refresh_token@,
            },
            AuthPhase::StoringRefresh { access_token, refresh_token } => {
                AuthPhaseView::StoringRefresh {
                    access_token: access_token@,
                    refresh_token: refresh_token@,
                }
            },
            AuthPhase::ReadingForSignOut => AuthPhaseView::ReadingForSignOut,
            AuthPhase::Revoking => AuthPhaseView::Revoking,
            AuthPhase::Clearing => AuthPhaseView::Clearing,
        }
    }
}

impl View for GoogleOAuth {
    type V = GoogleOAuthView;

    open spec fn view(&self) -> GoogleOAuthView {
        GoogleOAuthView {
            status: self.status,
            access_token: self.access_token@,
            refresh_token: self.refresh_token@,
            phase: self.phase@,
        }
    }
}

impl View for Authorization {
    type V = AuthorizationView;

    open spec fn view(&self) -> AuthorizationView {
        AuthorizationView { attempt: self.attempt@, url: text_of(self.url) }
    }
}

impl DeepView for Authorization {
    type V = AuthorizationView;

    open spec fn deep_view(&self) -> AuthorizationView {
        self@
    }
}

/// The scopes that a login asks for.
pub open spec fn scopes_spec() -> Seq<Seq<char>> {
    seq![SCOPE_TASKS@, SCOPE_TASKS_READONLY@]
}

/// The access token that a store yields: the stored one where both tokens
/// are there, else nothing.
pub open spec fn tokens_of(stored: StoredCredentialsView) -> Result<Seq<char>, Error> {
    if stored.complete() {
        Ok(stored.access_token->0)
    } else {
        Err(Error::CredentialsNotFound)
    }
}

/// What a secret store holds once the host has carried out `request`.
pub open spec fn stored_after(before: StoredCredentialsView, request: RequestView)
    -> StoredCredentialsView {
    match request {
        RequestView::WriteCredentials { access_token, refresh_token } => StoredCredentialsView {
            access_token: Some(access_token),
            refresh_token: Some(refresh_token),
        },
        RequestView::ClearCredentials => StoredCredentialsView::empty(),
        _ => before,
    }
}

/// The write that persists a grant of the login: both tokens, or a failure
/// where the grant lacks the refresh token.
pub open spec fn write_of(grant: TokenGrantView) -> Result<RequestView, Error> {
    match grant.refresh_token {
        Some(refresh_token) => Ok(
            RequestView::WriteCredentials { access_token: grant.access_token, refresh_token },
        ),
        None => Err(Error::ExchangeFailed),
    }
}

/// The views of a result that carries a request.
pub open spec fn request_view(result: Result<Request, Error>) -> Result<RequestView, Error> {
    match result {
        Ok(request) => Ok(request@),
        Err(error) => Err(error),
    }
}

/// The views of a result that carries a text.
pub open spec fn text_view(result: Result<String, Error>) -> Result<Seq<char>, Error> {
    match result {
        Ok(text) => Ok(text@),
        Err(error) => Err(error),
    }
}

impl AuthorizationView {
    /// The attempt is well formed and the URL is the one that belongs to the
    /// client, the fixed endpoints and scopes, and the secrets of the attempt.
    pub open spec fn fits(self, config: OAuthConfigView) -> bool {
        &&& self.attempt.well_formed()
        &&& self.url == authorization_url_text(
            config.client_id,
            AUTH_URL@,
            REDIRECT_URL@,
            scopes_spec(),
            self.attempt.csrf_state,
            self.attempt.verifier,
        )
    }
}

impl GoogleOAuthView {
    /// A session about which nothing is known yet.
    pub open spec fn fresh() -> GoogleOAuthView {
        GoogleOAuthView {
            status: Session::Unknown,
            access_token: Seq::empty(),
            refresh_token: Seq::empty(),
            phase: AuthPhaseView::Idle,
        }
    }

    /// The same session in another phase.
    pub open spec fn at(self, phase: AuthPhaseView) -> GoogleOAuthView {
        GoogleOAuthView { phase, ..self }
    }

    /// The session with this token pair in memory.
    pub open spec fn holding(self, access_token: Seq<char>, refresh_token: Seq<char>)
        -> GoogleOAuthView {
        GoogleOAuthView { status: Session::Authenticated, access_token, refresh_token, ..self }
    }

    /// The session after the provider or the store has turned it down: the
    /// tokens in memory stay as they are.
    pub open spec fn dropped(self) -> GoogleOAuthView {
        GoogleOAuthView { status: Session::Unauthenticated, ..self }
    }

    /// The session after logout: no tokens in memory.
    pub open spec fn cleared(self) -> GoogleOAuthView {
        GoogleOAuthView {
            status: Session::Unauthenticated,
            access_token: Seq::empty(),
            refresh_token: Seq::empty(),
            ..self
        }
    }

    /// The session after the store has been probed: with both tokens in
    /// memory where the store holds both, else turned down and otherwise
    /// untouched.
    pub open spec fn probed(self, stored: StoredCredentialsView) -> GoogleOAuthView {
        if stored.complete() {
            self.holding(stored.access_token->0, stored.refresh_token->0)
        } else {
            self.dropped()
        }
    }
}

/// Whether a step of the login has to draw the secrets of an attempt.
pub open spec fn draws(pre: GoogleOAuthView, reply: ReplyView) -> bool {
    pre.phase is Configuring && reply matches ReplyView::Config(Some(_))
}

/// What a step of the login may turn a session and a reply into.  The step
/// that draws the secrets of the attempt goes on with secrets that fit the
/// configuration, whichever they are; every other step is determined.
pub open spec fn sign_in_step(
    pre: GoogleOAuthView,
    reply: ReplyView,
    post: GoogleOAuthView,
    step: StepView<()>,
) -> bool {
    if draws(pre, reply) {
        exists|drawn: AuthorizationView|
            #![auto]
            drawn.fits(reply->Config_0->0) && post == sign_in_next(pre, reply, Some(drawn)).0
                && step == sign_in_next(pre, reply, Some(drawn)).1
    } else {
        post == sign_in_next(pre, reply, None).0 && step == sign_in_next(pre, reply, None).1
    }
}

/// What the login does once the redirect has been read.
pub open spec fn after_callback(
    pre: GoogleOAuthView,
    verifier: Seq<char>,
    csrf_state: Seq<char>,
    callback: Result<CallbackView, Error>,
) -> (GoogleOAuthView, StepView<()>) {
    match callback {
        Ok(found) => if found.state == csrf_state {
            (
                pre.at(AuthPhaseView::Exchanging),
                StepView::Ask(RequestView::ExchangeCode { code: found.code, verifier }),
            )
        } else {
            (pre.at(AuthPhaseView::Idle), StepView::Failed(Error::CsrfMismatch))
        },
        Err(error) => (pre.at(AuthPhaseView::Idle), StepView::Failed(error)),
    }
}

/// One step of the login: the session and the answer that follow from a
/// session and a reply.  `drawn` holds the secrets and the URL of the attempt
/// for the one step that needs them.
pub open spec fn sign_in_next(
    pre: GoogleOAuthView,
    reply: ReplyView,
    drawn: Option<AuthorizationView>,
) -> (GoogleOAuthView, StepView<()>) {
    match (pre.phase, reply) {
        (_, ReplyView::Begin) => (
            pre.at(AuthPhaseView::Probing),
            StepView::Ask(RequestView::ReadCredentials),
        ),
        (AuthPhaseView::Probing, ReplyView::Credentials(stored)) => if stored.complete() {
            (pre.probed(stored).at(AuthPhaseView::Idle), StepView::Done(()))
        } else {
            (
                pre.probed(stored).at(AuthPhaseView::Configuring),
                StepView::Ask(RequestView::ReadConfig),
            )
        },
        (AuthPhaseView::Configuring, ReplyView::Config(None)) => (
            pre.at(AuthPhaseView::Idle),
            StepView::Failed(Error::ConfigMissing),
        ),
        (AuthPhaseView::Configuring, ReplyView::Config(Some(_))) => match drawn {
            Some(AuthorizationView { attempt, url: Some(url) }) => (
                pre.at(
                    AuthPhaseView::AwaitingCallback {
                        verifier: attempt.verifier,
                        csrf_state: attempt.csrf_state,
                    },
                ),
                StepView::Ask(RequestView::Authorize { url, listen_on: LISTEN_ON@ }),
            ),
            _ => (pre.at(AuthPhaseView::Idle), StepView::Failed(Error::InvalidEndpoint)),
        },
        (AuthPhaseView::AwaitingCallback { .. }, ReplyView::Callback(None)) => (
            pre.at(AuthPhaseView::Idle),
            StepView::Failed(Error::CallbackTimeout),
        ),
        (
            AuthPhaseView::AwaitingCallback { verifier, csrf_state },
            ReplyView::Callback(Some(line)),
        ) => after_callback(pre, verifier, csrf_state, callback_of(line)),
        (AuthPhaseView::Exchanging, ReplyView::Granted(Some(grant))) => match write_of(grant) {
            Ok(request) => (
                pre.at(
                    AuthPhaseView::StoringLogin {
                        access_token: grant.access_token,
                        refresh_token: grant.refresh_token->0,
                    },
                ),
                StepView::Ask(request),
            ),
            Err(error) => (pre.at(AuthPhaseView::Idle), StepView::Failed(error)),
        },
        (AuthPhaseView::Exchanging, ReplyView::Granted(None)) => (
            pre.at(AuthPhaseView::Idle),
            StepView::Failed(Error::ExchangeFailed),
        ),
        (
            AuthPhaseView::StoringLogin { access_token, refresh_token },
            ReplyView::Stored(ok),
        ) => if ok {
            (
                pre.holding(access_token, refresh_token).at(AuthPhaseView::Idle),
                StepView::Done(()),
            )
        } else {
            (pre.at(AuthPhaseView::Idle), StepView::Failed(Error::StoreFailed))
        },
        _ => (pre.at(AuthPhaseView::Idle), StepView::Failed(Error::UnexpectedReply)),
    }
}

/// One step of the refresh.
pub open spec fn refresh_token_next(pre: GoogleOAuthView, reply: ReplyView) -> (
    GoogleOAuthView,
    StepView<()>,
) {
    match (pre.phase, reply) {
        (_, ReplyView::Begin) => (
            pre.at(AuthPhaseView::ReadingForRefresh),
            StepView::Ask(RequestView::ReadCredentials),
        ),
        (AuthPhaseView::ReadingForRefresh, ReplyView::Credentials(stored)) => if stored.complete() {
            (
                pre.probed(stored).at(
                    AuthPhaseView::Refreshing { refresh_token: stored.refresh_token->0 },
                ),
                StepView::Ask(
                    RequestView::RefreshGrant { refresh_token: stored.refresh_token->0 },
                ),
            )
        } else {
            (
                pre.probed(stored).at(AuthPhaseView::Idle),
                StepView::Failed(Error::CredentialsNotFound),
            )
        },
        (AuthPhaseView::Refreshing { refresh_token }, ReplyView::Granted(Some(grant))) => {
            let kept = match grant.refresh_token {
                Some(rotated) => rotated,
                None => refresh_token,
            };
            (
                pre.at(
                    AuthPhaseView::StoringRefresh {
                        access_token: grant.access_token,
                        refresh_token: kept,
                    },
                ),
                StepView::Ask(
                    RequestView::WriteCredentials {
                        access_token: grant.access_token,
                        refresh_token: kept,
                    },
                ),
            )
        },
        (AuthPhaseView::Refreshing { .. }, ReplyView::Granted(None)) => (
            pre.dropped().at(AuthPhaseView::Idle),
            StepView::Failed(Error::RefreshRejected),
        ),
        (
            AuthPhaseView::StoringRefresh { access_token, refresh_token },
            ReplyView::Stored(ok),
        ) => if ok {
            (
                pre.holding(access_token, refresh_token).at(AuthPhaseView::Idle),
                StepView::Done(()),
            )
        } else {
            (pre.at(AuthPhaseView::Idle), StepView::Failed(Error::StoreFailed))
        },
        _ => (pre.at(AuthPhaseView::Idle), StepView::Failed(Error::UnexpectedReply)),
    }
}

/// One step of the logout.
pub open spec fn sign_out_next(pre: GoogleOAuthView, reply: ReplyView) -> (
    GoogleOAuthView,
    StepView<()>,
) {
    match (pre.phase, reply) {
        (_, ReplyView::Begin) => (
            pre.at(AuthPhaseView::ReadingForSignOut),
            StepView::Ask(RequestView::ReadCredentials),
        ),
        (AuthPhaseView::ReadingForSignOut, ReplyView::Credentials(stored)) => if stored.complete() {
            (
                pre.probed(stored).at(AuthPhaseView::Revoking),
                StepView::Ask(RequestView::Revoke { access_token: stored.access_token->0 }),
            )
        } else {
            (
                pre.probed(stored).at(AuthPhaseView::Idle),
                StepView::Failed(Error::CredentialsNotFound),
            )
        },
        (AuthPhaseView::Revoking, ReplyView::Revoked(ok)) => if ok {
            (pre.at(AuthPhaseView::Clearing), StepView::Ask(RequestView::ClearCredentials))
        } else {
            (pre.at(AuthPhaseView::Idle), StepView::Failed(Error::RevocationFailed))
        },
        (AuthPhaseView::Clearing, ReplyView::Stored(ok)) => if ok {
            (pre.cleared().at(AuthPhaseView::Idle), StepView::Done(()))
        } else {
            (pre.at(AuthPhaseView::Idle), StepView::Failed(Error::StoreFailed))
        },
        _ => (pre.at(AuthPhaseView::Idle), StepView::Failed(Error::UnexpectedReply)),
    }
}

/// The scopes that a login asks for.
pub fn scopes() -> (list: Vec<String>)
    ensures
        list.deep_view() == scopes_spec(),
{
    let mut list: Vec<String> = Vec::new();
    list.push(String::from_str(SCOPE_TASKS));
    list.push(String::from_str(SCOPE_TASKS_READONLY));
    assert(list.deep_view() =~= scopes_spec());
    list
}

impl Authorization {
    /// Draws the secrets of a login attempt and builds the authorization URL
    /// for them.
    pub fn prepare(config: &OAuthConfig) -> (drawn: Authorization)
        ensures
            drawn@.fits(config@),
    {
        let attempt = PkceAttempt::generate();
        let list = scopes();
        let url = authorization_url(
            config.client_id.as_str(),
            AUTH_URL,
            REDIRECT_URL,
            &list,
            attempt.csrf_state.as_str(),
            attempt.verifier.as_str(),
        );
        Authorization { attempt, url }
    }
}

impl GoogleOAuth {
    /// A session about which nothing is known yet.
    pub fn new() -> (session: Self)
        ensures
            session@ == GoogleOAuthView::fresh(),
    {
        GoogleOAuth {
            status: Session::Unknown,
            access_token: String::new(),
            refresh_token: String::new(),
            phase: AuthPhase::Idle,
        }
    }

    /// The write that persists the grant of a login.  Both tokens go to the
    /// store in one request; a grant without a refresh token is refused with
    /// `ExchangeFailed`, so that never one token is written alone.
    pub fn set_tokens(&self, token_response: &TokenGrant) -> (result: Result<Request, Error>)
        ensures
            request_view(result) == write_of(token_response@),
    {
        match &token_response.refresh_token {
            Some(refresh_token) => Ok(
                Request::WriteCredentials {
                    access_token: token_response.access_token.clone(),
                    refresh_token: refresh_token.clone(),
                },
            ),
            None => Err(Error::ExchangeFailed),
        }
    }

    /// Takes the tokens that the store holds into memory and returns the
    /// access token.  Fails with `CredentialsNotFound` exactly where one of
    /// the two is absent; the tokens in memory then stay as they were.
    pub fn get_tokens(&mut self, stored: &StoredCredentials) -> (result: Result<String, Error>)
        ensures
            text_view(result) == tokens_of(stored@),
            final(self)@ == old(self)@.probed(stored@),
    {
        match (&stored.access_token, &stored.refresh_token) {
            (Some(access_token), Some(refresh_token)) => {
                self.access_token = access_token.clone();
                self.refresh_token = refresh_token.clone();
                self.status = Session::Authenticated;
                Ok(access_token.clone())
            },
            _ => {
                self.status = Session::Unauthenticated;
                Err(Error::CredentialsNotFound)
            },
        }
    }

    /// Probes the store and tells whether the session is authenticated.
    pub fn is_connected(&mut self, stored: &StoredCredentials) -> (result: Result<bool, Error>)
        ensures
            final(self)@ == old(self)@.probed(stored@),
            stored@.complete() ==> result == Ok::<bool, Error>(true),
            !stored@.complete() ==> result == Err::<bool, Error>(Error::CredentialsNotFound),
    {
        match self.get_tokens(stored) {
            Ok(_) => Ok(true),
            Err(error) => Err(error),
        }
    }

    /// What is known about the session.
    pub fn status(&self) -> (status: Session)
        ensures
            status == self@.status,
    {
        self.status
    }

    /// Whether no operation is running.
    pub fn is_idle(&self) -> (idle: bool)
        ensures
            idle == (self@.phase is Idle),
    {
        match &self.phase {
            AuthPhase::Idle => true,
            _ => false,
        }
    }

    /// One step of the login, with the secrets of the attempt handed in.
    ///
    /// A session whose store holds both tokens is done after the probe.
    /// Otherwise the configuration is read, the browser is sent to the
    /// authorization URL while the listener waits, the redirect is checked
    /// against the state token of this attempt, the code is exchanged, and
    /// the granted pair is written to the store.
    pub fn sign_in_with(&mut self, reply: Reply, drawn: Option<Authorization>) -> (step: Step<()>)
        ensures
            final(self)@ == sign_in_next(old(self)@, reply@, drawn.deep_view()).0,
            step@ == sign_in_next(old(self)@, reply@, drawn.deep_view()).1,
    {
        let mut phase = AuthPhase::Idle;
        core::mem::swap(&mut self.phase, &mut phase);
        match (phase, reply) {
            (_, Reply::Begin) => {
                self.phase = AuthPhase::Probing;
                Step::Ask(Request::ReadCredentials)
            },
            (AuthPhase::Probing, Reply::Credentials(stored)) => {
                match self.get_tokens(&stored) {
                    Ok(_) => Step::Done(()),
                    Err(_) => {
                        self.phase = AuthPhase::Configuring;
                        Step::Ask(Request::ReadConfig)
                    },
                }
            },
            (AuthPhase::Configuring, Reply::Config(None)) => Step::Failed(Error::ConfigMissing),
            (AuthPhase::Configuring, Reply::Config(Some(_))) => {
                match drawn {
                    Some(Authorization { attempt, url: Some(url) }) => {
                        self.phase = AuthPhase::AwaitingCallback {
                            verifier: attempt.verifier,
                            csrf_state: attempt.csrf_state,
                        };
                        Step::Ask(Request::Authorize { url, listen_on: String::from_str(LISTEN_ON) })
                    },
                    _ => Step::Failed(Error::InvalidEndpoint),
                }
            },
            (AuthPhase::AwaitingCallback { .. }, Reply::Callback(None)) => Step::Failed(
                Error::CallbackTimeout,
            ),
            (AuthPhase::AwaitingCallback { verifier, csrf_state }, Reply::Callback(Some(line))) => {
                match parse_callback(line.as_str()) {
                    Ok(found) => {
                        if same_text(found.state.as_str(), csrf_state.as_str()) {
                            self.phase = AuthPhase::Exchanging;
                            Step::Ask(Request::ExchangeCode { code: found.code, verifier })
                        } else {
                            Step::Failed(Error::CsrfMismatch)
                        }
                    },
                    Err(error) => Step::Failed(error),
                }
            },
            (AuthPhase::Exchanging, Reply::Granted(Some(grant))) => {
                match self.set_tokens(&grant) {
                    Ok(request) => {
                        match grant.refresh_token {
                            Some(refresh_token) => {
                                self.phase = AuthPhase::StoringLogin {
                                    access_token: grant.access_token,
                                    refresh_token,
                                };
                                Step::Ask(request)
                            },
                            None => Step::Failed(Error::ExchangeFailed),
                        }
                    },
                    Err(error) => Step::Failed(error),
                }
            },
            (AuthPhase::Exchanging, Reply::Granted(None)) => Step::Failed(Error::ExchangeFailed),
            (AuthPhase::StoringLogin { access_token, refresh_token }, Reply::Stored(ok)) => {
                if ok {
                    self.access_token = access_token;
                    self.refresh_token = refresh_token;
                    self.status = Session::Authenticated;
                    Step::Done(())
                } else {
                    Step::Failed(Error::StoreFailed)
                }
            },
            _ => Step::Failed(Error::UnexpectedReply),
        }
    }

    /// One step of the login.  Where the step has to draw the secrets of the
    /// attempt, it does so and goes on as `sign_in_with` does with them;
    /// every other step is `sign_in_with` without any.
    pub fn sign_in(&mut self, reply: Reply) -> (step: Step<()>)
        ensures
            sign_in_step(old(self)@, reply@, final(self)@, step@),
    {
        let drawn = match (&self.phase, &reply) {
            (AuthPhase::Configuring, Reply::Config(Some(config))) => Some(
                Authorization::prepare(config),
            ),
            _ => None,
        };
        let ghost handed = drawn.deep_view();
        let step = self.sign_in_with(reply, drawn);
        proof {
            if draws(old(self)@, reply@) {
                assert(handed->0.fits(reply@->Config_0->0));
            } else {
                assert(handed is None);
            }
        }
        step
    }

    /// One step of the refresh: the stored refresh token goes to the token
    /// endpoint once; the granted access token, and the refresh token where
    /// the provider rotated it, are written to the store.  A refusal ends the
    /// operation with `RefreshRejected`; nothing is tried again.
    pub fn refresh_token(&mut self, reply: Reply) -> (step: Step<()>)
        ensures
            final(self)@ == refresh_token_next(old(self)@, reply@).0,
            step@ == refresh_token_next(old(self)@, reply@).1,
    {
        let mut phase = AuthPhase::Idle;
        core::mem::swap(&mut self.phase, &mut phase);
        match (phase, reply) {
            (_, Reply::Begin) => {
                self.phase = AuthPhase::ReadingForRefresh;
                Step::Ask(Request::ReadCredentials)
            },
            (AuthPhase::ReadingForRefresh, Reply::Credentials(stored)) => {
                match self.get_tokens(&stored) {
                    Ok(_) => {
                        self.phase = AuthPhase::Refreshing { refresh_token: self.refresh_token.clone() };
                        Step::Ask(
                            Request::RefreshGrant { refresh_token: self.refresh_token.clone() },
                        )
                    },
                    Err(error) => Step::Failed(error),
                }
            },
            (AuthPhase::Refreshing { refresh_token }, Reply::Granted(Some(grant))) => {
                let kept = match grant.refresh_token {
                    Some(rotated) => rotated,
                    None => refresh_token,
                };
                self.phase = AuthPhase::StoringRefresh {
                    access_token: grant.access_token.clone(),
                    refresh_token: kept.clone(),
                };
                Step::Ask(
                    Request::WriteCredentials {
                        access_token: grant.access_token,
                        refresh_token: kept,
                    },
                )
            },
            (AuthPhase::Refreshing { .. }, Reply::Granted(None)) => {
                self.status = Session::Unauthenticated;
                Step::Failed(Error::RefreshRejected)
            },
            (AuthPhase::StoringRefresh { access_token, refresh_token }, Reply::Stored(ok)) => {
                if ok {
                    self.access_token = access_token;
                    self.refresh_token = refresh_token;
                    self.status = Session::Authenticated;
                    Step::Done(())
                } else {
                    Step::Failed(Error::StoreFailed)
                }
            },
            _ => Step::Failed(Error::UnexpectedReply),
        }
    }

    /// One step of the logout: the stored access token goes to the
    /// revocation endpoint, and only when the provider has confirmed is the
    /// store cleared.  A failed revocation leaves the stored tokens alone.
    pub fn sign_out(&mut self, reply: Reply) -> (step: Step<()>)
        ensures
            final(self)@ == sign_out_next(old(self)@, reply@).0,
            step@ == sign_out_next(old(self)@, reply@).1,
    {
        let mut phase = AuthPhase::Idle;
        core::mem::swap(&mut self.phase, &mut phase);
        match (phase, reply) {
            (_, Reply::Begin) => {
                self.phase = AuthPhase::ReadingForSignOut;
                Step::Ask(Request::ReadCredentials)
            },
            (AuthPhase::ReadingForSignOut, Reply::Credentials(stored)) => {
                match self.get_tokens(&stored) {
                    Ok(access_token) => {
                        self.phase = AuthPhase::Revoking;
                        Step::Ask(Request::Revoke { access_token })
                    },
                    Err(error) => Step::Failed(error),
                }
            },
            (AuthPhase::Revoking, Reply::Revoked(ok)) => {
                if ok {
                    self.phase = AuthPhase::Clearing;
                    Step::Ask(Request::ClearCredentials)
                } else {
                    Step::Failed(Error::RevocationFailed)
                }
            },
            (AuthPhase::Clearing, Reply::Stored(ok)) => {
                if ok {
                    self.access_token = String::new();
                    self.refresh_token = String::new();
                    self.status = Session::Unauthenticated;
                    Step::Done(())
                } else {
                    Step::Failed(Error::StoreFailed)
                }
            },
            _ => Step::Failed(Error::UnexpectedReply),
        }
    }
}

} // verus!
