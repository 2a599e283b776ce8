//! An authorized GET against the task API, with the one recovery that a call
//! may spend: after a 401 the access token is refreshed once and the request
//! is sent once more.

use crate::auth::google::{refresh_token_next, AuthPhaseView, GoogleOAuth, GoogleOAuthView};
use crate::error::Error;
use crate::host::{
    classify, fetch_kind, lemma_occurrences_step, no_restart, occurrences, outcome_of,
    refresh_kind, Outcome, Reply, ReplyView, Request, RequestView, Step, StepView,
    StoredCredentialsView, TokenGrantView,
};
use vstd::prelude::*;
use vstd::string::*;

verus! {

/// What a fetch asks the task API for.
#[derive(Debug, PartialEq, Eq, Clone, Copy, Structural)]
pub enum Target {
    /// The collection of task lists.
    Lists,
    /// The tasks of one list.
    Tasks,
}

/// Where a fetch stands.
#[derive(Debug, PartialEq, Eq, Clone, Copy, Structural)]
pub enum FetchPhase {
    /// Nothing is running.
    Idle,
    /// The access token is being read from the store.
    AwaitingCredentials,
    /// The request is with the task API.
    AwaitingAnswer,
    /// The access token is being refreshed.
    Refreshing,
}

/// The state of one fetch.  `retried` is set once the refresh has been
/// spent.
#[derive(Debug, PartialEq, Eq, Clone, Copy, Structural)]
pub struct Fetch {
    pub phase: FetchPhase,
    pub retried: bool,
}

/// The answer of one step of a fetch.
#[derive(Debug)]
pub enum Fetched {
    /// The fetch goes on once the host has done this.
    Ask(Request),
    /// The task API answered, and not with 401.
    Answer(Reply),
    /// The fetch ended without an answer.
    Failed(Error),
}

/// What a `Fetched` holds.
pub enum FetchedView {
    Ask(RequestView),
    Answer(ReplyView),
    Failed(Error),
}

impl View for Fetched {
    type V = FetchedView;

    open spec fn view(&self) -> FetchedView {
        match *self {
            Fetched::Ask(request) => FetchedView::Ask(request@),
            Fetched::Answer(reply) => FetchedView::Answer(reply@),
            Fetched::Failed(error) => FetchedView::Failed(error),
        }
    }
}

/// The request that fetches `target` from `url` with the token `bearer`.
pub open spec fn request_for(target: Target, url: Seq<char>, bearer: Seq<char>) -> RequestView {
    match target {
        Target::Lists => RequestView::FetchLists { url, bearer },
        Target::Tasks => RequestView::FetchTasks { url, bearer },
    }
}

/// Whether `reply` is an answer to a fetch of `target`.
pub open spec fn answers(target: Target, reply: ReplyView) -> bool {
    match target {
        Target::Lists => reply is Lists,
        Target::Tasks => reply is Tasks,
    }
}

/// The status that an answer carries.
pub open spec fn status_of(reply: ReplyView) -> Option<u16> {
    match reply {
        ReplyView::Lists { status, .. } => status,
        ReplyView::Tasks { status, .. } => status,
        ReplyView::Created { status, .. } => status,
        _ => None,
    }
}

impl Fetch {
    /// A fetch that is not running.
    pub open spec fn idle() -> Fetch {
        Fetch { phase: FetchPhase::Idle, retried: false }
    }

    /// The same fetch in another phase.
    pub open spec fn at(self, phase: FetchPhase) -> Fetch {
        Fetch { phase, ..self }
    }
}

/// One step of a fetch: the state of the fetch, the session and the answer
/// that follow from a reply.
pub open spec fn fetch_next(
    pre: Fetch,
    auth: GoogleOAuthView,
    target: Target,
    url: Seq<char>,
    reply: ReplyView,
) -> (Fetch, GoogleOAuthView, FetchedView) {
    if reply is Begin {
        (
            Fetch { phase: FetchPhase::AwaitingCredentials, retried: false },
            auth,
            FetchedView::Ask(RequestView::ReadCredentials),
        )
    } else {
        match pre.phase {
            FetchPhase::Idle => (Fetch::idle(), auth, FetchedView::Failed(Error::UnexpectedReply)),
            FetchPhase::AwaitingCredentials => match reply {
                ReplyView::Credentials(stored) => if stored.complete() {
                    (
                        pre.at(FetchPhase::AwaitingAnswer),
                        auth.probed(stored),
                        FetchedView::Ask(request_for(target, url, stored.access_token->0)),
                    )
                } else {
                    (
                        Fetch::idle(),
                        auth.probed(stored),
                        FetchedView::Failed(Error::CredentialsNotFound),
                    )
                },
                _ => (Fetch::idle(), auth, FetchedView::Failed(Error::UnexpectedReply)),
            },
            FetchPhase::AwaitingAnswer => if !answers(target, reply) {
                (Fetch::idle(), auth, FetchedView::Failed(Error::UnexpectedReply))
            } else if outcome_of(status_of(reply)) != Outcome::Unauthorized {
                (Fetch::idle(), auth, FetchedView::Answer(reply))
            } else if pre.retried {
                (Fetch::idle(), auth, FetchedView::Failed(Error::Unauthorized))
            } else {
                with_refresh(pre, refresh_token_next(auth, ReplyView::Begin))
            },
            FetchPhase::Refreshing => with_refresh(pre, refresh_token_next(auth, reply)),
        }
    }
}

/// How a fetch goes on after one step of the refresh: it waits while the
/// refresh asks for more, reads the fresh token once the refresh is done, and
/// ends where the refresh failed.
pub open spec fn after_refresh_step(pre: Fetch, step: StepView<()>) -> (Fetch, FetchedView) {
    match step {
        StepView::Ask(request) => (pre.at(FetchPhase::Refreshing), FetchedView::Ask(request)),
        StepView::Done(_) => (
            Fetch { phase: FetchPhase::AwaitingCredentials, retried: true },
            FetchedView::Ask(RequestView::ReadCredentials),
        ),
        StepView::Failed(error) => (Fetch::idle(), FetchedView::Failed(error)),
    }
}

/// A step of the refresh as a step of the fetch.
pub open spec fn with_refresh(pre: Fetch, refreshed: (GoogleOAuthView, StepView<()>)) -> (
    Fetch,
    GoogleOAuthView,
    FetchedView,
) {
    (
        after_refresh_step(pre, refreshed.1).0,
        refreshed.0,
        after_refresh_step(pre, refreshed.1).1,
    )
}

/// The requests that a fetch asks of the host while it is fed `replies`, up
/// to the step that ends it.
pub open spec fn asked(
    pre: Fetch,
    auth: GoogleOAuthView,
    target: Target,
    url: Seq<char>,
    replies: Seq<ReplyView>,
) -> Seq<RequestView>
    decreases replies.len(),
{
    if replies.len() == 0 {
        Seq::empty()
    } else {
        let next = fetch_next(pre, auth, target, url, replies[0]);
        match next.2 {
            FetchedView::Ask(request) => seq![request] + asked(
                next.0,
                next.1,
                target,
                url,
                replies.drop_first(),
            ),
            _ => Seq::empty(),
        }
    }
}

/// How many of `requests` go to the task API.
pub open spec fn fetches_in(requests: Seq<RequestView>) -> nat {
    occurrences(requests, fetch_kind())
}

/// How many of `requests` ask the token endpoint for a refresh.
pub open spec fn refreshes_in(requests: Seq<RequestView>) -> nat {
    occurrences(requests, refresh_kind())
}

/// How many requests to the task API a fetch in this state may still send.
pub open spec fn fetches_left(pre: Fetch) -> nat {
    match pre.phase {
        FetchPhase::Idle => 0,
        FetchPhase::AwaitingCredentials => if pre.retried {
            1
        } else {
            2
        },
        FetchPhase::AwaitingAnswer => if pre.retried {
            0
        } else {
            1
        },
        FetchPhase::Refreshing => 1,
    }
}

/// How many refreshes a fetch in this state may still ask for.
pub open spec fn refreshes_left(pre: Fetch, auth: GoogleOAuthView) -> nat {
    match pre.phase {
        FetchPhase::Idle => 0,
        FetchPhase::AwaitingCredentials | FetchPhase::AwaitingAnswer => if pre.retried {
            0
        } else {
            1
        },
        FetchPhase::Refreshing => if auth.phase is ReadingForRefresh {
            1
        } else {
            0
        },
    }
}

/// Whatever the host replies, a fetch that is not started anew sends no more
/// requests to the task API, and asks for no more refreshes, than its state
/// has left.
pub proof fn lemma_budget(
    pre: Fetch,
    auth: GoogleOAuthView,
    target: Target,
    url: Seq<char>,
    replies: Seq<ReplyView>,
)
    requires
        no_restart(replies),
    ensures
        fetches_in(asked(pre, auth, target, url, replies)) <= fetches_left(pre),
        refreshes_in(asked(pre, auth, target, url, replies)) <= refreshes_left(pre, auth),
    decreases replies.len(),
{
    if replies.len() > 0 {
        let next = fetch_next(pre, auth, target, url, replies[0]);
        let rest = replies.drop_first();
        assert(!(replies[0] is Begin));
        assert forall|i: int| 0 <= i < rest.len() implies !(#[trigger] rest[i] is Begin) by {
            assert(rest[i] == replies[i + 1]);
        }
        lemma_budget(next.0, next.1, target, url, rest);
        if let FetchedView::Ask(request) = next.2 {
            let tail = asked(next.0, next.1, target, url, rest);
            lemma_occurrences_step(request, tail, fetch_kind());
            lemma_occurrences_step(request, tail, refresh_kind());
        }
    }
}

/// The retry budget of one call: from its start a fetch sends at most two
/// requests to the task API and asks for at most one refresh, whatever the
/// host replies.
pub proof fn lemma_one_refresh_one_retry(
    pre: Fetch,
    auth: GoogleOAuthView,
    target: Target,
    url: Seq<char>,
    replies: Seq<ReplyView>,
)
    requires
        no_restart(replies),
    ensures
        fetches_in(asked(pre, auth, target, url, seq![ReplyView::Begin] + replies)) <= 2,
        refreshes_in(asked(pre, auth, target, url, seq![ReplyView::Begin] + replies)) <= 1,
{
    let all = seq![ReplyView::Begin] + replies;
    let next = fetch_next(pre, auth, target, url, all[0]);
    assert(all.drop_first() =~= replies);
    lemma_budget(next.0, next.1, target, url, replies);
    let tail = asked(next.0, next.1, target, url, replies);
    lemma_occurrences_step(RequestView::ReadCredentials, tail, fetch_kind());
    lemma_occurrences_step(RequestView::ReadCredentials, tail, refresh_kind());
    assert(asked(pre, auth, target, url, all) == seq![RequestView::ReadCredentials] + tail);
}

/// A 401 that meets a fetch which has not refreshed yet starts the refresh; a
/// 401 that meets one which has ends the fetch with `Unauthorized`, and
/// nothing more is asked of the host.
pub proof fn lemma_unauthorized(
    pre: Fetch,
    auth: GoogleOAuthView,
    target: Target,
    url: Seq<char>,
    reply: ReplyView,
)
    requires
        pre.phase == FetchPhase::AwaitingAnswer,
        answers(target, reply),
        status_of(reply) == Some(401u16),
    ensures
        !pre.retried ==> fetch_next(pre, auth, target, url, reply) == (
            Fetch { phase: FetchPhase::Refreshing, retried: false },
            auth.at(AuthPhaseView::ReadingForRefresh),
            FetchedView::Ask(RequestView::ReadCredentials),
        ),
        pre.retried ==> fetch_next(pre, auth, target, url, reply) == (
            Fetch::idle(),
            auth,
            FetchedView::Failed(Error::Unauthorized),
        ),
        pre.retried ==> forall|more: Seq<ReplyView>| #[trigger]
            no_restart(more) ==> asked(
                fetch_next(pre, auth, target, url, reply).0,
                fetch_next(pre, auth, target, url, reply).1,
                target,
                url,
                more,
            ) == Seq::<RequestView>::empty(),
{
    if pre.retried {
        assert forall|more: Seq<ReplyView>| #[trigger] no_restart(more) implies asked(
            Fetch::idle(),
            auth,
            target,
            url,
            more,
        ) == Seq::<RequestView>::empty() by {
            if more.len() > 0 {
                assert(!(more[0] is Begin));
            }
        }
    }
}

/// The whole recovery, step by step: a 401 that meets a fetch which has not
/// refreshed yet makes it read the stored tokens, ask for exactly one
/// refresh, write the granted pair, read the tokens again and send the
/// request exactly once more, with the fresh access token.
pub proof fn lemma_recovery(
    auth: GoogleOAuthView,
    target: Target,
    url: Seq<char>,
    answer: ReplyView,
    stored: StoredCredentialsView,
    grant: TokenGrantView,
    fresh: StoredCredentialsView,
)
    requires
        answers(target, answer),
        status_of(answer) == Some(401u16),
        stored.complete(),
        fresh.complete(),
    ensures
        ({
            let pre = Fetch { phase: FetchPhase::AwaitingAnswer, retried: false };
            let kept = match grant.refresh_token {
                Some(rotated) => rotated,
                None => stored.refresh_token->0,
            };
            let requests = asked(
                pre,
                auth,
                target,
                url,
                seq![
                    answer,
                    ReplyView::Credentials(stored),
                    ReplyView::Granted(Some(grant)),
                    ReplyView::Stored(true),
                    ReplyView::Credentials(fresh),
                ],
            );
            &&& requests == seq![
                RequestView::ReadCredentials,
                RequestView::RefreshGrant { refresh_token: stored.refresh_token->0 },
                RequestView::WriteCredentials {
                    access_token: grant.access_token,
                    refresh_token: kept,
                },
                RequestView::ReadCredentials,
                request_for(target, url, fresh.access_token->0),
            ]
            &&& fetches_in(requests) == 1
            &&& refreshes_in(requests) == 1
        }),
{
    let pre = Fetch { phase: FetchPhase::AwaitingAnswer, retried: false };
    let kept = match grant.refresh_token {
        Some(rotated) => rotated,
        None => stored.refresh_token->0,
    };
    let r1 = ReplyView::Credentials(stored);
    let r2 = ReplyView::Granted(Some(grant));
    let r3 = ReplyView::Stored(true);
    let r4 = ReplyView::Credentials(fresh);
    let all = seq![answer, r1, r2, r3, r4];
    let n0 = fetch_next(pre, auth, target, url, answer);
    let n1 = fetch_next(n0.0, n0.1, target, url, r1);
    let n2 = fetch_next(n1.0, n1.1, target, url, r2);
    let n3 = fetch_next(n2.0, n2.1, target, url, r3);
    let n4 = fetch_next(n3.0, n3.1, target, url, r4);
    let q0 = RequestView::ReadCredentials;
    let q1 = RequestView::RefreshGrant { refresh_token: stored.refresh_token->0 };
    let q2 = RequestView::WriteCredentials { access_token: grant.access_token, refresh_token: kept };
    let q3 = RequestView::ReadCredentials;
    let q4 = request_for(target, url, fresh.access_token->0);
    assert(n0.2 == FetchedView::Ask(q0));
    assert(n1.2 == FetchedView::Ask(q1));
    assert(n2.2 == FetchedView::Ask(q2));
    assert(n3.2 == FetchedView::Ask(q3));
    assert(n4.2 == FetchedView::Ask(q4));
    let t1 = seq![r1, r2, r3, r4];
    let t2 = seq![r2, r3, r4];
    let t3 = seq![r3, r4];
    let t4 = seq![r4];
    let t5 = Seq::<ReplyView>::empty();
    assert(all.drop_first() =~= t1);
    assert(t1.drop_first() =~= t2);
    assert(t2.drop_first() =~= t3);
    assert(t3.drop_first() =~= t4);
    assert(t4.drop_first() =~= t5);
    let a5 = asked(n4.0, n4.1, target, url, t5);
    let a4 = asked(n3.0, n3.1, target, url, t4);
    let a3 = asked(n2.0, n2.1, target, url, t3);
    let a2 = asked(n1.0, n1.1, target, url, t2);
    let a1 = asked(n0.0, n0.1, target, url, t1);
    let a0 = asked(pre, auth, target, url, all);
    assert(a5 =~= Seq::<RequestView>::empty());
    assert(a4 =~= seq![q4]);
    assert(a3 =~= seq![q3, q4]);
    assert(a2 =~= seq![q2, q3, q4]);
    assert(a1 =~= seq![q1, q2, q3, q4]);
    assert(a0 =~= seq![q0, q1, q2, q3, q4]);
    lemma_occurrences_step(q4, a5, fetch_kind());
    lemma_occurrences_step(q3, a4, fetch_kind());
    lemma_occurrences_step(q2, a3, fetch_kind());
    lemma_occurrences_step(q1, a2, fetch_kind());
    lemma_occurrences_step(q0, a1, fetch_kind());
    lemma_occurrences_step(q4, a5, refresh_kind());
    lemma_occurrences_step(q3, a4, refresh_kind());
    lemma_occurrences_step(q2, a3, refresh_kind());
    lemma_occurrences_step(q1, a2, refresh_kind());
    lemma_occurrences_step(q0, a1, refresh_kind());
    assert(seq![q4] + a5 =~= a4);
    assert(seq![q3] + a4 =~= a3);
    assert(seq![q2] + a3 =~= a2);
    assert(seq![q1] + a2 =~= a1);
    assert(seq![q0] + a1 =~= a0);
}

impl Target {
    fn request(self, url: &str, bearer: String) -> (request: Request)
        ensures
            request@ == request_for(self, url@, bearer@),
    {
        match self {
            Target::Lists => Request::FetchLists { url: String::from_str(url), bearer },
            Target::Tasks => Request::FetchTasks { url: String::from_str(url), bearer },
        }
    }

    fn answered_by(self, reply: &Reply) -> (b: bool)
        ensures
            b == answers(self, reply@),
    {
        match (self, reply) {
            (Target::Lists, Reply::Lists { .. }) => true,
            (Target::Tasks, Reply::Tasks { .. }) => true,
            _ => false,
        }
    }
}

/// The status that an answer carries.
pub fn status(reply: &Reply) -> (status: Option<u16>)
    ensures
        status == status_of(reply@),
{
    match reply {
        Reply::Lists { status, .. } => *status,
        Reply::Tasks { status, .. } => *status,
        Reply::Created { status, .. } => *status,
        _ => None,
    }
}

impl Fetch {
    /// A fetch that is not running.
    pub fn new() -> (fetch: Fetch)
        ensures
            fetch == Fetch::idle(),
    {
        Fetch { phase: FetchPhase::Idle, retried: false }
    }

    fn refreshed(&mut self, step: Step<()>) -> (out: Fetched)
        ensures
            *final(self) == after_refresh_step(*old(self), step@).0,
            out@ == after_refresh_step(*old(self), step@).1,
    {
        match step {
            Step::Ask(request) => {
                self.phase = FetchPhase::Refreshing;
                Fetched::Ask(request)
            },
            Step::Done(_) => {
                self.phase = FetchPhase::AwaitingCredentials;
                self.retried = true;
                Fetched::Ask(Request::ReadCredentials)
            },
            Step::Failed(error) => {
                self.phase = FetchPhase::Idle;
                self.retried = false;
                Fetched::Failed(error)
            },
        }
    }

    /// One step of a fetch of `target` from `url` on behalf of the session
    /// `auth`.
    ///
    /// The access token is read from the store for every request.  An answer
    /// other than 401 is handed out as it is.  The first 401 starts a
    /// refresh, after which the token is read and the request is sent once
    /// more; a 401 to that ends the fetch with `Unauthorized`.
    pub fn advance(&mut self, auth: &mut GoogleOAuth, target: Target, url: &str, reply: Reply) -> (out:
        Fetched)
        ensures
            *final(self) == fetch_next(*old(self), old(auth)@, target, url@, reply@).0,
            final(auth)@ == fetch_next(*old(self), old(auth)@, target, url@, reply@).1,
            out@ == fetch_next(*old(self), old(auth)@, target, url@, reply@).2,
    {
        if let Reply::Begin = reply {
            self.phase = FetchPhase::AwaitingCredentials;
            self.retried = false;
            return Fetched::Ask(Request::ReadCredentials);
        }
        match self.phase {
            FetchPhase::Idle => {
                self.retried = false;
                Fetched::Failed(Error::UnexpectedReply)
            },
            FetchPhase::AwaitingCredentials => {
                match reply {
                    Reply::Credentials(stored) => {
                        match auth.get_tokens(&stored) {
                            Ok(bearer) => {
                                self.phase = FetchPhase::AwaitingAnswer;
                                Fetched::Ask(target.request(url, bearer))
                            },
                            Err(error) => {
                                self.phase = FetchPhase::Idle;
                                self.retried = false;
                                Fetched::Failed(error)
                            },
                        }
                    },
                    _ => {
                        self.phase = FetchPhase::Idle;
                        self.retried = false;
                        Fetched::Failed(Error::UnexpectedReply)
                    },
                }
            },
            FetchPhase::AwaitingAnswer => {
                if !target.answered_by(&reply) {
                    self.phase = FetchPhase::Idle;
                    self.retried = false;
                    Fetched::Failed(Error::UnexpectedReply)
                } else {
                    match classify(status(&reply)) {
                        Outcome::Unauthorized => {
                            if self.retried {
                                self.phase = FetchPhase::Idle;
                                self.retried = false;
                                Fetched::Failed(Error::Unauthorized)
                            } else {
                                let step = auth.refresh_token(Reply::Begin);
                                self.refreshed(step)
                            }
                        },
                        _ => {
                            self.phase = FetchPhase::Idle;
                            self.retried = false;
                            Fetched::Answer(reply)
                        },
                    }
                }
            },
            FetchPhase::Refreshing => {
                let step = auth.refresh_token(reply);
                self.refreshed(step)
            },
        }
    }
}

} // verus!
