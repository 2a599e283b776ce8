//! What holds of the session, whatever the host replies.
//!
//! The laws are stated over the step functions of [`crate::auth::google`].
//! A run of an operation is a sequence of replies that starts the operation
//! once; the requests that the operation asks along a run are counted to show
//! how often it may open the browser, go to the token endpoint, or touch the
//! secret store.

use crate::auth::callback::{callback_of, CallbackView};
use crate::auth::google::{
    refresh_token_next, sign_in_next, sign_out_next, stored_after, tokens_of, write_of,
    AuthPhaseView, AuthorizationView, GoogleOAuthView, Session,
};
use crate::error::Error;
use crate::host::{
    authorize_kind, clear_kind, exchange_kind, lemma_occurrences_step, no_restart, occurrences,
    refresh_kind, revoke_kind, write_kind, ReplyView, RequestView, StepView,
    StoredCredentialsView, TokenGrantView,
};
use vstd::prelude::*;

verus! {

/// A store that holds both tokens yields the stored access token, unchanged,
/// and the session then holds exactly the stored pair.
pub proof fn lemma_stored_pair_is_returned(session: GoogleOAuthView, stored: StoredCredentialsView)
    requires
        stored.complete(),
    ensures
        tokens_of(stored) == Ok::<Seq<char>, Error>(stored.access_token->0),
        session.probed(stored).access_token == stored.access_token->0,
        session.probed(stored).refresh_token == stored.refresh_token->0,
        session.probed(stored).status == Session::Authenticated,
{
}

/// A store that lacks one of the two tokens yields `CredentialsNotFound`, and
/// none of the stored tokens reaches the session: the tokens in memory stay
/// as they were.
pub proof fn lemma_missing_token_is_refused(session: GoogleOAuthView, stored: StoredCredentialsView)
    requires
        !stored.complete(),
    ensures
        tokens_of(stored) == Err::<Seq<char>, Error>(Error::CredentialsNotFound),
        session.probed(stored).access_token == session.access_token,
        session.probed(stored).refresh_token == session.refresh_token,
        session.probed(stored).status == Session::Unauthenticated,
{
}

/// What a login writes to the store is what the session reads back: after
/// the write of a granted pair the store yields the granted access token.
pub proof fn lemma_tokens_round_trip(before: StoredCredentialsView, grant: TokenGrantView)
    requires
        grant.refresh_token is Some,
    ensures
        write_of(grant) is Ok,
        stored_after(before, write_of(grant)->Ok_0).complete(),
        tokens_of(stored_after(before, write_of(grant)->Ok_0)) == Ok::<Seq<char>, Error>(
            grant.access_token,
        ),
{
}

/// A grant without a refresh token is never written: no token reaches the
/// store alone.
pub proof fn lemma_no_partial_write(grant: TokenGrantView)
    ensures
        grant.refresh_token is None ==> write_of(grant) == Err::<RequestView, Error>(
            Error::ExchangeFailed,
        ),
        write_of(grant) is Ok ==> write_of(grant)->Ok_0 is WriteCredentials,
{
}

/// A redirect whose state is not the one of this attempt ends the login with
/// `CsrfMismatch`: the host is asked for nothing, least of all an exchange.
pub proof fn lemma_foreign_state_aborts(
    pre: GoogleOAuthView,
    line: Seq<char>,
    drawn: Option<AuthorizationView>,
)
    requires
        pre.phase is AwaitingCallback,
        callback_of(line) is Ok,
        callback_of(line)->Ok_0.state != pre.phase->csrf_state,
    ensures
        sign_in_next(pre, ReplyView::Callback(Some(line)), drawn) == (
            pre.at(AuthPhaseView::Idle),
            StepView::<()>::Failed(Error::CsrfMismatch),
        ),
{
}

/// The login asks for an exchange in one situation only: the listener was
/// waiting, and the redirect carried a code together with the state of this
/// very attempt.  The exchange then uses that code and the verifier of the
/// attempt.
pub proof fn lemma_exchange_needs_matching_state(
    pre: GoogleOAuthView,
    reply: ReplyView,
    drawn: Option<AuthorizationView>,
)
    requires
        sign_in_next(pre, reply, drawn).1 is Ask,
        sign_in_next(pre, reply, drawn).1->Ask_0 is ExchangeCode,
    ensures
        pre.phase is AwaitingCallback,
        reply is Callback,
        reply->Callback_0 is Some,
        callback_of(reply->Callback_0->0) == Ok::<CallbackView, Error>(
            CallbackView {
                code: sign_in_next(pre, reply, drawn).1->Ask_0->code,
                state: pre.phase->csrf_state,
            },
        ),
        sign_in_next(pre, reply, drawn).1->Ask_0->ExchangeCode_verifier == pre.phase->verifier,
{
    if pre.phase is Exchanging && reply is Granted && reply->Granted_0 is Some {
        assert(write_of(reply->Granted_0->0) is Ok ==> write_of(reply->Granted_0->0)->Ok_0
            is WriteCredentials);
    }
}

/// Logging in twice: with both tokens in the store, as a completed login
/// leaves them, the login is done after the probe.  The host is asked to read
/// the store and for nothing else: no configuration, no browser, no listener.
pub proof fn lemma_sign_in_is_idempotent(
    pre: GoogleOAuthView,
    stored: StoredCredentialsView,
    drawn: Option<AuthorizationView>,
)
    requires
        stored.complete(),
    ensures
        ({
            let first = sign_in_next(pre, ReplyView::Begin, None);
            let second = sign_in_next(first.0, ReplyView::Credentials(stored), drawn);
            &&& first.1 == StepView::<()>::Ask(RequestView::ReadCredentials)
            &&& second.1 == StepView::Done(())
            &&& second.0 == pre.holding(stored.access_token->0, stored.refresh_token->0).at(
                AuthPhaseView::Idle,
            )
        }),
{
}

/// A login that ran to its end has written a complete pair to the store, the
/// pair that the session then holds.
pub proof fn lemma_sign_in_leaves_complete_store(
    pre: GoogleOAuthView,
    grant: TokenGrantView,
    before: StoredCredentialsView,
)
    requires
        pre.phase is Exchanging,
        grant.refresh_token is Some,
    ensures
        ({
            let granted = sign_in_next(pre, ReplyView::Granted(Some(grant)), None);
            let written = sign_in_next(granted.0, ReplyView::Stored(true), None);
            &&& granted.1 is Ask
            &&& stored_after(before, granted.1->Ask_0).complete()
            &&& written.1 == StepView::Done(())
            &&& written.0.status == Session::Authenticated
            &&& stored_after(before, granted.1->Ask_0).access_token == Some(written.0.access_token)
            &&& stored_after(before, granted.1->Ask_0).refresh_token == Some(
                written.0.refresh_token,
            )
        }),
{
}

/// The logout clears the store in one situation only: the provider has
/// confirmed the revocation.  A revocation that failed ends the logout, and
/// the stored tokens stay.
pub proof fn lemma_sign_out_keeps_tokens_on_failure(pre: GoogleOAuthView, reply: ReplyView)
    ensures
        sign_out_next(pre, reply).1 == StepView::<()>::Ask(RequestView::ClearCredentials) ==> pre.phase
            is Revoking && reply == ReplyView::Revoked(true),
        pre.phase is Revoking && reply == ReplyView::Revoked(false) ==> sign_out_next(pre, reply)
            == (pre.at(AuthPhaseView::Idle), StepView::<()>::Failed(Error::RevocationFailed)),
{
}

/// The refresh goes to the token endpoint at most once per run, with the
/// stored refresh token, and a refusal ends it with `RefreshRejected`.
pub proof fn lemma_refresh_does_not_retry(pre: GoogleOAuthView, reply: ReplyView)
    ensures
        refresh_token_next(pre, reply).1 is Ask && refresh_token_next(pre, reply).1->Ask_0
            is RefreshGrant ==> pre.phase is ReadingForRefresh && reply is Credentials
            && reply->Credentials_0.complete() && refresh_token_next(
            pre,
            reply,
        ).1->Ask_0->RefreshGrant_refresh_token == reply->Credentials_0.refresh_token->0,
        pre.phase is Refreshing && reply == ReplyView::Granted(None) ==> refresh_token_next(
            pre,
            reply,
        ) == (pre.dropped().at(AuthPhaseView::Idle), StepView::<()>::Failed(Error::RefreshRejected)),
{
}

/// The requests that a login asks of the host while it is fed `replies`, up
/// to the step that ends it.  `drawn` holds, for each step, the secrets that
/// the step is handed.
pub open spec fn sign_in_asked(
    pre: GoogleOAuthView,
    replies: Seq<ReplyView>,
    drawn: Seq<Option<AuthorizationView>>,
) -> Seq<RequestView>
    decreases replies.len(),
{
    if replies.len() == 0 || drawn.len() != replies.len() {
        Seq::empty()
    } else {
        let next = sign_in_next(pre, replies[0], drawn[0]);
        match next.1 {
            StepView::Ask(request) => seq![request] + sign_in_asked(
                next.0,
                replies.drop_first(),
                drawn.drop_first(),
            ),
            _ => Seq::empty(),
        }
    }
}

/// How often a login in this phase may still open the browser.
pub open spec fn authorizations_left(phase: AuthPhaseView) -> nat {
    if phase is Probing || phase is Configuring {
        1
    } else {
        0
    }
}

/// How often a login in this phase may still ask for an exchange.
pub open spec fn exchanges_left(phase: AuthPhaseView) -> nat {
    if phase is Probing || phase is Configuring || phase is AwaitingCallback {
        1
    } else {
        0
    }
}

/// How often a login in this phase may still write to the store.
pub open spec fn writes_left(phase: AuthPhaseView) -> nat {
    if phase is Probing || phase is Configuring || phase is AwaitingCallback || phase
        is Exchanging {
        1
    } else {
        0
    }
}

/// Whatever the host replies and whichever secrets are drawn, a login that
/// is not started anew asks for no more than its phase has left.
pub proof fn lemma_sign_in_budget(
    pre: GoogleOAuthView,
    replies: Seq<ReplyView>,
    drawn: Seq<Option<AuthorizationView>>,
)
    requires
        no_restart(replies),
    ensures
        occurrences(sign_in_asked(pre, replies, drawn), authorize_kind()) <= authorizations_left(
            pre.phase,
        ),
        occurrences(sign_in_asked(pre, replies, drawn), exchange_kind()) <= exchanges_left(
            pre.phase,
        ),
        occurrences(sign_in_asked(pre, replies, drawn), write_kind()) <= writes_left(pre.phase),
    decreases replies.len(),
{
    if replies.len() > 0 && drawn.len() == replies.len() {
        let next = sign_in_next(pre, replies[0], drawn[0]);
        let rest = replies.drop_first();
        assert(!(replies[0] is Begin));
        assert forall|i: int| 0 <= i < rest.len() implies !(#[trigger] rest[i] is Begin) by {
            assert(rest[i] == replies[i + 1]);
        }
        lemma_sign_in_budget(next.0, rest, drawn.drop_first());
        if let StepView::Ask(request) = next.1 {
            let tail = sign_in_asked(next.0, rest, drawn.drop_first());
            lemma_occurrences_step(request, tail, authorize_kind());
            lemma_occurrences_step(request, tail, exchange_kind());
            lemma_occurrences_step(request, tail, write_kind());
            if pre.phase is Exchanging && replies[0] is Granted && replies[0]->Granted_0 is Some {
                assert(request is WriteCredentials);
            }
        }
    }
}

/// One login opens the browser at most once, asks for at most one exchange
/// and writes to the store at most once, whatever the host replies.
pub proof fn lemma_sign_in_opens_one_browser(
    pre: GoogleOAuthView,
    replies: Seq<ReplyView>,
    drawn: Seq<Option<AuthorizationView>>,
)
    requires
        no_restart(replies),
    ensures
        occurrences(
            sign_in_asked(pre, seq![ReplyView::Begin] + replies, seq![None] + drawn),
            authorize_kind(),
        ) <= 1,
        occurrences(
            sign_in_asked(pre, seq![ReplyView::Begin] + replies, seq![None] + drawn),
            exchange_kind(),
        ) <= 1,
        occurrences(
            sign_in_asked(pre, seq![ReplyView::Begin] + replies, seq![None] + drawn),
            write_kind(),
        ) <= 1,
{
    let all = seq![ReplyView::Begin] + replies;
    let secrets = seq![None::<AuthorizationView>] + drawn;
    if drawn.len() == replies.len() {
        let next = sign_in_next(pre, all[0], secrets[0]);
        assert(all.drop_first() =~= replies);
        assert(secrets.drop_first() =~= drawn);
        lemma_sign_in_budget(next.0, replies, drawn);
        let tail = sign_in_asked(next.0, replies, drawn);
        lemma_occurrences_step(RequestView::ReadCredentials, tail, authorize_kind());
        lemma_occurrences_step(RequestView::ReadCredentials, tail, exchange_kind());
        lemma_occurrences_step(RequestView::ReadCredentials, tail, write_kind());
        assert(sign_in_asked(pre, all, secrets) == seq![RequestView::ReadCredentials] + tail);
    }
}

/// The step function of the refresh.
pub open spec fn refresh_machine() -> spec_fn(GoogleOAuthView, ReplyView) -> (
    GoogleOAuthView,
    StepView<()>,
) {
    |pre: GoogleOAuthView, reply: ReplyView| refresh_token_next(pre, reply)
}

/// The step function of the logout.
pub open spec fn sign_out_machine() -> spec_fn(GoogleOAuthView, ReplyView) -> (
    GoogleOAuthView,
    StepView<()>,
) {
    |pre: GoogleOAuthView, reply: ReplyView| sign_out_next(pre, reply)
}

/// The requests that an operation with the step function `machine` asks of
/// the host while it is fed `replies`, up to the step that ends it.
pub open spec fn session_asked(
    machine: spec_fn(GoogleOAuthView, ReplyView) -> (GoogleOAuthView, StepView<()>),
    pre: GoogleOAuthView,
    replies: Seq<ReplyView>,
) -> Seq<RequestView>
    decreases replies.len(),
{
    if replies.len() == 0 {
        Seq::empty()
    } else {
        let next = machine(pre, replies[0]);
        match next.1 {
            StepView::Ask(request) => seq![request] + session_asked(
                machine,
                next.0,
                replies.drop_first(),
            ),
            _ => Seq::empty(),
        }
    }
}

/// Whatever the host replies, a refresh that is not started anew goes to the
/// token endpoint only if it has not yet, and writes to the store only if it
/// has not yet.
pub proof fn lemma_refresh_budget(pre: GoogleOAuthView, replies: Seq<ReplyView>)
    requires
        no_restart(replies),
    ensures
        occurrences(session_asked(refresh_machine(), pre, replies), refresh_kind()) <= (
        if pre.phase is ReadingForRefresh {
            1nat
        } else {
            0nat
        }),
        occurrences(session_asked(refresh_machine(), pre, replies), write_kind()) <= (
        if pre.phase is ReadingForRefresh || pre.phase is Refreshing {
            1nat
        } else {
            0nat
        }),
    decreases replies.len(),
{
    if replies.len() > 0 {
        let next = refresh_token_next(pre, replies[0]);
        let rest = replies.drop_first();
        assert(!(replies[0] is Begin));
        assert forall|i: int| 0 <= i < rest.len() implies !(#[trigger] rest[i] is Begin) by {
            assert(rest[i] == replies[i + 1]);
        }
        lemma_refresh_budget(next.0, rest);
        if let StepView::Ask(request) = next.1 {
            let tail = session_asked(refresh_machine(), next.0, rest);
            lemma_occurrences_step(request, tail, refresh_kind());
            lemma_occurrences_step(request, tail, write_kind());
        }
    }
}

/// One refresh goes to the token endpoint at most once and writes to the
/// store at most once, whatever the host replies: nothing is tried again.
pub proof fn lemma_refresh_asks_once(pre: GoogleOAuthView, replies: Seq<ReplyView>)
    requires
        no_restart(replies),
    ensures
        occurrences(
            session_asked(refresh_machine(), pre, seq![ReplyView::Begin] + replies),
            refresh_kind(),
        ) <= 1,
        occurrences(
            session_asked(refresh_machine(), pre, seq![ReplyView::Begin] + replies),
            write_kind(),
        ) <= 1,
{
    let all = seq![ReplyView::Begin] + replies;
    let next = refresh_token_next(pre, all[0]);
    assert(all.drop_first() =~= replies);
    lemma_refresh_budget(next.0, replies);
    let tail = session_asked(refresh_machine(), next.0, replies);
    lemma_occurrences_step(RequestView::ReadCredentials, tail, refresh_kind());
    lemma_occurrences_step(RequestView::ReadCredentials, tail, write_kind());
    assert(session_asked(refresh_machine(), pre, all) == seq![RequestView::ReadCredentials] + tail);
}

/// Whatever the host replies, a logout that is not started anew revokes only
/// if it has not yet, and clears the store only if it has not yet.
pub proof fn lemma_sign_out_budget(pre: GoogleOAuthView, replies: Seq<ReplyView>)
    requires
        no_restart(replies),
    ensures
        occurrences(session_asked(sign_out_machine(), pre, replies), revoke_kind()) <= (
        if pre.phase is ReadingForSignOut {
            1nat
        } else {
            0nat
        }),
        occurrences(session_asked(sign_out_machine(), pre, replies), clear_kind()) <= (
        if pre.phase is ReadingForSignOut || pre.phase is Revoking {
            1nat
        } else {
            0nat
        }),
        occurrences(session_asked(sign_out_machine(), pre, replies), write_kind()) == 0,
    decreases replies.len(),
{
    if replies.len() > 0 {
        let next = sign_out_next(pre, replies[0]);
        let rest = replies.drop_first();
        assert(!(replies[0] is Begin));
        assert forall|i: int| 0 <= i < rest.len() implies !(#[trigger] rest[i] is Begin) by {
            assert(rest[i] == replies[i + 1]);
        }
        lemma_sign_out_budget(next.0, rest);
        if let StepView::Ask(request) = next.1 {
            let tail = session_asked(sign_out_machine(), next.0, rest);
            lemma_occurrences_step(request, tail, revoke_kind());
            lemma_occurrences_step(request, tail, clear_kind());
            lemma_occurrences_step(request, tail, write_kind());
        }
    }
}

/// One logout revokes at most once, clears the store at most once and never
/// writes to it, whatever the host replies.
pub proof fn lemma_sign_out_asks_once(pre: GoogleOAuthView, replies: Seq<ReplyView>)
    requires
        no_restart(replies),
    ensures
        occurrences(
            session_asked(sign_out_machine(), pre, seq![ReplyView::Begin] + replies),
            revoke_kind(),
        ) <= 1,
        occurrences(
            session_asked(sign_out_machine(), pre, seq![ReplyView::Begin] + replies),
            clear_kind(),
        ) <= 1,
        occurrences(
            session_asked(sign_out_machine(), pre, seq![ReplyView::Begin] + replies),
            write_kind(),
        ) == 0,
{
    let all = seq![ReplyView::Begin] + replies;
    let next = sign_out_next(pre, all[0]);
    assert(all.drop_first() =~= replies);
    lemma_sign_out_budget(next.0, replies);
    let tail = session_asked(sign_out_machine(), next.0, replies);
    lemma_occurrences_step(RequestView::ReadCredentials, tail, revoke_kind());
    lemma_occurrences_step(RequestView::ReadCredentials, tail, clear_kind());
    lemma_occurrences_step(RequestView::ReadCredentials, tail, write_kind());
    assert(session_asked(sign_out_machine(), pre, all) == seq![RequestView::ReadCredentials]
        + tail);
}

} // verus!
