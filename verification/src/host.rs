//! The boundary between the core and its host.
//!
//! The core never performs I/O.  An operation is driven by calling its step
//! function again and again: the host hands in a [`Reply`], the core answers
//! with a [`Step`].  `Step::Ask` names the one thing the host has to do next;
//! its outcome is the next reply.  `Step::Done` and `Step::Failed` end the
//! operation.

use crate::common::tasks::{Tasks, TasksLists, TasksListsView, TasksResponse, TasksResponseView, TasksView};
use crate::common::text::text_of;
use crate::error::Error;
use vstd::prelude::*;
use vstd::string::*;

verus! {

/// The identifiers under which the application is registered with the
/// provider.
#[derive(Debug)]
pub struct OAuthConfig {
    pub client_id: String,
    pub client_secret: String,
}

/// What an `OAuthConfig` holds.
pub struct OAuthConfigView {
    pub client_id: Seq<char>,
    pub client_secret: Seq<char>,
}

/// What the secret store holds under the two keys of the session.
#[derive(Debug)]
pub struct StoredCredentials {
    pub access_token: Option<String>,
    pub refresh_token: Option<String>,
}

/// What a `StoredCredentials` holds.
pub struct StoredCredentialsView {
    pub access_token: Option<Seq<char>>,
    pub refresh_token: Option<Seq<char>>,
}

/// What the token endpoint grants: an access token and, unless the provider
/// keeps the old one valid, a refresh token.
#[derive(Debug)]
pub struct TokenGrant {
    pub access_token: String,
    pub refresh_token: Option<String>,
}

/// What a `TokenGrant` holds.
pub struct TokenGrantView {
    pub access_token: Seq<char>,
    pub refresh_token: Option<Seq<char>>,
}

/// The one thing the host has to do next.
#[derive(Debug)]
pub enum Request {
    /// Read the client identifier and secret from the process configuration.
    ReadConfig,
    /// Read both tokens from the secret store.
    ReadCredentials,
    /// Write both tokens to the secret store, both or neither.
    WriteCredentials { access_token: String, refresh_token: String },
    /// Delete both tokens from the secret store.
    ClearCredentials,
    /// Bind the listener at `listen_on`, then open `url` in the browser and
    /// wait for the one redirect.
    Authorize { url: String, listen_on: String },
    /// Exchange the authorization code for a token pair.
    ExchangeCode { code: String, verifier: String },
    /// Ask the token endpoint for a new access token.
    RefreshGrant { refresh_token: String },
    /// Ask the provider to revoke the token.
    Revoke { access_token: String },
    /// GET the collection of task lists.
    FetchLists { url: String, bearer: String },
    /// GET the tasks of one list.
    FetchTasks { url: String, bearer: String },
    /// POST a new task to one list.
    CreateTask { url: String, bearer: String, title: String },
}

/// What a `Request` holds.
pub enum RequestView {
    ReadConfig,
    ReadCredentials,
    WriteCredentials { access_token: Seq<char>, refresh_token: Seq<char> },
    ClearCredentials,
    Authorize { url: Seq<char>, listen_on: Seq<char> },
    ExchangeCode { code: Seq<char>, verifier: Seq<char> },
    RefreshGrant { refresh_token: Seq<char> },
    Revoke { access_token: Seq<char> },
    FetchLists { url: Seq<char>, bearer: Seq<char> },
    FetchTasks { url: Seq<char>, bearer: Seq<char> },
    CreateTask { url: Seq<char>, bearer: Seq<char>, title: Seq<char> },
}

/// What the host observed.
#[derive(Debug)]
#[allow(inconsistent_fields)]
pub enum Reply {
    /// Nothing yet: the operation starts.
    Begin,
    /// The configuration, `None` where an identifier is absent.
    Config(Option<OAuthConfig>),
    /// The content of the secret store.
    Credentials(StoredCredentials),
    /// Whether the secret store took the write or the deletion.
    Stored(bool),
    /// The request line of the redirect, `None` where none arrived in time.
    Callback(Option<String>),
    /// The grant of the token endpoint, `None` where it refused.
    Granted(Option<TokenGrant>),
    /// Whether the provider confirmed the revocation.
    Revoked(bool),
    /// The answer to `FetchLists`: the status, `None` where the transport
    /// failed, and the body where it could be read.
    Lists { status: Option<u16>, body: Option<TasksLists> },
    /// The answer to `FetchTasks`.
    Tasks { status: Option<u16>, body: Option<TasksResponse> },
    /// The answer to `CreateTask`.
    Created { status: Option<u16>, body: Option<Tasks> },
}

/// What a `Reply` holds.
#[allow(inconsistent_fields)]
pub enum ReplyView {
    Begin,
    Config(Option<OAuthConfigView>),
    Credentials(StoredCredentialsView),
    Stored(bool),
    Callback(Option<Seq<char>>),
    Granted(Option<TokenGrantView>),
    Revoked(bool),
    Lists { status: Option<u16>, body: Option<TasksListsView> },
    Tasks { status: Option<u16>, body: Option<TasksResponseView> },
    Created { status: Option<u16>, body: Option<TasksView> },
}

/// The answer of a step function.
#[derive(Debug)]
pub enum Step<T> {
    /// The operation goes on once the host has done this.
    Ask(Request),
    /// The operation ended with a result.
    Done(T),
    /// The operation ended without one.
    Failed(Error),
}

/// What a `Step` holds.
pub enum StepView<V> {
    Ask(RequestView),
    Done(V),
    Failed(Error),
}

/// The three classes of answers that the task API gives.
#[derive(Debug, PartialEq, Eq, Clone, Copy, Structural)]
pub enum Outcome {
    /// Status 200.
    Success,
    /// Status 401.
    Unauthorized,
    /// Any other status, or no answer at all.
    Other,
}

impl View for OAuthConfig {
    type V = OAuthConfigView;

    open spec fn view(&self) -> OAuthConfigView {
        OAuthConfigView { client_id: self.client_id@, client_secret: self.client_secret@ }
    }
}

impl DeepView for OAuthConfig {
    type V = OAuthConfigView;

    open spec fn deep_view(&self) -> OAuthConfigView {
        self@
    }
}

impl View for StoredCredentials {
    type V = StoredCredentialsView;

    open spec fn view(&self) -> StoredCredentialsView {
        StoredCredentialsView {
            access_token: text_of(self.access_token),
            refresh_token: text_of(self.refresh_token),
        }
    }
}

impl View for TokenGrant {
    type V = TokenGrantView;

    open spec fn view(&self) -> TokenGrantView {
        TokenGrantView {
            access_token: self.access_token@,
            refresh_token: text_of(self.refresh_token),
        }
    }
}

impl DeepView for TokenGrant {
    type V = TokenGrantView;

    open spec fn deep_view(&self) -> TokenGrantView {
        self@
    }
}

impl View for Request {
    type V = RequestView;

    open spec fn view(&self) -> RequestView {
        match *self {
            Request::ReadConfig => RequestView::ReadConfig,
            Request::ReadCredentials => RequestView::ReadCredentials,
            Request::WriteCredentials { access_token, refresh_token } => {
                RequestView::WriteCredentials {
                    access_token: access_token@,
                    refresh_token: refresh_token@,
                }
            },
            Request::ClearCredentials => RequestView::ClearCredentials,
            Request::Authorize { url, listen_on } => RequestView::Authorize {
                url: url@,
                listen_on: listen_on@,
            },
            Request::ExchangeCode { code, verifier } => RequestView::ExchangeCode {
                code: code@,
                verifier: verifier@,
            },
            Request::RefreshGrant { refresh_token } => RequestView::RefreshGrant {
                refresh_token: refresh_token@,
            },
            Request::Revoke { access_token } => RequestView::Revoke { access_token: access_token@ },
            Request::FetchLists { url, bearer } => RequestView::FetchLists {
                url: url@,
                bearer: bearer@,
            },
            Request::FetchTasks { url, bearer } => RequestView::FetchTasks {
                url: url@,
                bearer: bearer@,
            },
            Request::CreateTask { url, bearer, title } => RequestView::CreateTask {
                url: url@,
                bearer: bearer@,
                title: title@,
            },
        }
    }
}

impl View for Reply {
    type V = ReplyView;

    open spec fn view(&self) -> ReplyView {
        match *self {
            Reply::Begin => ReplyView::Begin,
            Reply::Config(config) => ReplyView::Config(config.deep_view()),
            Reply::Credentials(stored) => ReplyView::Credentials(stored@),
            Reply::Stored(ok) => ReplyView::Stored(ok),
            Reply::Callback(line) => ReplyView::Callback(text_of(line)),
            Reply::Granted(grant) => ReplyView::Granted(grant.deep_view()),
            Reply::Revoked(ok) => ReplyView::Revoked(ok),
            Reply::Lists { status, body } => ReplyView::Lists { status, body: body.deep_view() },
            Reply::Tasks { status, body } => ReplyView::Tasks { status, body: body.deep_view() },
            Reply::Created { status, body } => ReplyView::Created {
                status,
                body: body.deep_view(),
            },
        }
    }
}

impl<T: View> View for Step<T> {
    type V = StepView<T::V>;

    open spec fn view(&self) -> StepView<T::V> {
        match *self {
            Step::Ask(request) => StepView::Ask(request@),
            Step::Done(value) => StepView::Done(value@),
            Step::Failed(error) => StepView::Failed(error),
        }
    }
}

impl StoredCredentialsView {
    /// Whether both tokens are there.
    pub open spec fn complete(self) -> bool {
        self.access_token is Some && self.refresh_token is Some
    }

    /// A store that holds nothing.
    pub open spec fn empty() -> StoredCredentialsView {
        StoredCredentialsView { access_token: None, refresh_token: None }
    }
}

/// How many of `requests` are of the kind `wanted`.
pub open spec fn occurrences(requests: Seq<RequestView>, wanted: spec_fn(RequestView) -> bool) -> nat
    decreases requests.len(),
{
    if requests.len() == 0 {
        0
    } else {
        let rest = occurrences(requests.drop_first(), wanted);
        if wanted(requests[0]) {
            rest + 1
        } else {
            rest
        }
    }
}

/// The requests that open the browser.
pub open spec fn authorize_kind() -> spec_fn(RequestView) -> bool {
    |request: RequestView| request is Authorize
}

/// The requests that go to the token endpoint with an authorization code.
pub open spec fn exchange_kind() -> spec_fn(RequestView) -> bool {
    |request: RequestView| request is ExchangeCode
}

/// The requests that ask the token endpoint for a refresh.
pub open spec fn refresh_kind() -> spec_fn(RequestView) -> bool {
    |request: RequestView| request is RefreshGrant
}

/// The requests that ask the provider to revoke a token.
pub open spec fn revoke_kind() -> spec_fn(RequestView) -> bool {
    |request: RequestView| request is Revoke
}

/// The requests that write to the secret store.
pub open spec fn write_kind() -> spec_fn(RequestView) -> bool {
    |request: RequestView| request is WriteCredentials
}

/// The requests that clear the secret store.
pub open spec fn clear_kind() -> spec_fn(RequestView) -> bool {
    |request: RequestView| request is ClearCredentials
}

/// The requests that fetch from the task API.
pub open spec fn fetch_kind() -> spec_fn(RequestView) -> bool {
    |request: RequestView| request is FetchLists || request is FetchTasks
}

/// No reply of `replies` starts an operation anew.
pub open spec fn no_restart(replies: Seq<ReplyView>) -> bool {
    forall|i: int| 0 <= i < replies.len() ==> !(#[trigger] replies[i] is Begin)
}

/// Counting over a request followed by more requests.
pub proof fn lemma_occurrences_step(
    first: RequestView,
    rest: Seq<RequestView>,
    wanted: spec_fn(RequestView) -> bool,
)
    ensures
        occurrences(seq![first] + rest, wanted) == occurrences(rest, wanted) + (if wanted(first) {
            1nat
        } else {
            0nat
        }),
{
    let all = seq![first] + rest;
    assert(all.drop_first() =~= rest);
    assert(all[0] == first);
}

/// The class of an answer with this status.
pub open spec fn outcome_of(status: Option<u16>) -> Outcome {
    if status == Some(200u16) {
        Outcome::Success
    } else if status == Some(401u16) {
        Outcome::Unauthorized
    } else {
        Outcome::Other
    }
}

/// Whether the status is one of the 2xx family.
pub open spec fn is_success_status(status: Option<u16>) -> bool {
    status is Some && 200 <= status->0 < 300
}

/// Sorts an answer of the task API into its class.
pub fn classify(status: Option<u16>) -> (outcome: Outcome)
    ensures
        outcome == outcome_of(status),
{
    match status {
        Some(code) => {
            if code == 200 {
                Outcome::Success
            } else if code == 401 {
                Outcome::Unauthorized
            } else {
                Outcome::Other
            }
        },
        None => Outcome::Other,
    }
}

impl Clone for OAuthConfig {
    fn clone(&self) -> (copy: Self)
        ensures
            copy@ == self@,
    {
        OAuthConfig {
            client_id: self.client_id.clone(),
            client_secret: self.client_secret.clone(),
        }
    }
}

impl<T> Step<T> {
    /// Whether the step ends the operation.
    pub fn is_final(&self) -> (b: bool)
        ensures
            b == !(*self is Ask),
    {
        match self {
            Step::Ask(_) => false,
            _ => true,
        }
    }
}

} // verus!
