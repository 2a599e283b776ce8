use tasked::auth::google::{
    Authorization, AuthPhase, GoogleOAuth, Session, ACCESS_TOKEN_KEY, CALLBACK_WAIT_SECONDS,
    LISTEN_ON, REFRESH_TOKEN_KEY, REVOCATION_URL, STORE_SERVICE, TOKEN_URL,
};
use tasked::auth::pkce::PkceAttempt;
use tasked::error::Error;
use tasked::host::{OAuthConfig, Reply, Request, Step, StoredCredentials, TokenGrant};

fn stored(access: Option<&str>, refresh: Option<&str>) -> StoredCredentials {
    StoredCredentials {
        access_token: access.map(|s| s.to_string()),
        refresh_token: refresh.map(|s| s.to_string()),
    }
}

fn grant(access: &str, refresh: Option<&str>) -> TokenGrant {
    TokenGrant { access_token: access.to_string(), refresh_token: refresh.map(|s| s.to_string()) }
}

fn config() -> OAuthConfig {
    OAuthConfig { client_id: "client-123".to_string(), client_secret: "hidden".to_string() }
}

fn drawn(url: Option<&str>) -> Authorization {
    Authorization {
        attempt: PkceAttempt {
            verifier: "v".repeat(43),
            challenge: "c".repeat(43),
            csrf_state: "expected-state".to_string(),
        },
        url: url.map(|s| s.to_string()),
    }
}

fn redirect(code: &str, state: &str) -> Reply {
    Reply::Callback(Some(format!("GET /?code={}&state={} HTTP/1.1\r\n", code, state)))
}

fn waiting_for_callback() -> GoogleOAuth {
    let mut session = GoogleOAuth::new();
    assert!(matches!(session.sign_in(Reply::Begin), Step::Ask(Request::ReadCredentials)));
    assert!(matches!(
        session.sign_in(Reply::Credentials(stored(None, None))),
        Step::Ask(Request::ReadConfig)
    ));
    let step = session.sign_in_with(
        Reply::Config(Some(config())),
        Some(drawn(Some("https://example.test/auth?x=1"))),
    );
    match step {
        Step::Ask(Request::Authorize { url, listen_on }) => {
            assert_eq!(url, "https://example.test/auth?x=1");
            assert_eq!(listen_on, "127.0.0.1:8080");
        }
        other => panic!("unexpected step {:?}", other),
    }
    session
}

#[test]
fn new_session_knows_nothing() {
    let session = GoogleOAuth::new();
    assert_eq!(session.status(), Session::Unknown);
    assert_eq!(session.access_token, "");
    assert_eq!(session.refresh_token, "");
    assert!(session.is_idle());
}

#[test]
fn fixed_addresses_and_keys() {
    assert_eq!(TOKEN_URL, "https://www.googleapis.com/oauth2/v3/token");
    assert_eq!(REVOCATION_URL, "https://oauth2.googleapis.com/revoke");
    assert_eq!(LISTEN_ON, "127.0.0.1:8080");
    assert_eq!(STORE_SERVICE, "tasked");
    assert_eq!(ACCESS_TOKEN_KEY, "access-token");
    assert_eq!(REFRESH_TOKEN_KEY, "refresh-token");
    assert_eq!(CALLBACK_WAIT_SECONDS, 120);
}

#[test]
fn get_tokens_returns_the_stored_access_token_unchanged() {
    let mut session = GoogleOAuth::new();
    let result = session.get_tokens(&stored(Some("ya29.access"), Some("1//refresh")));
    assert_eq!(result, Ok("ya29.access".to_string()));
    assert_eq!(session.access_token, "ya29.access");
    assert_eq!(session.refresh_token, "1//refresh");
    assert_eq!(session.status(), Session::Authenticated);
}

#[test]
fn get_tokens_round_trips_what_set_tokens_writes() {
    let mut session = GoogleOAuth::new();
    let request = session.set_tokens(&grant("tok en/with+odd=chars", Some("r"))).unwrap();
    let kept = match request {
        Request::WriteCredentials { access_token, refresh_token } => {
            StoredCredentials { access_token: Some(access_token), refresh_token: Some(refresh_token) }
        }
        other => panic!("unexpected request {:?}", other),
    };
    assert_eq!(session.get_tokens(&kept), Ok("tok en/with+odd=chars".to_string()));
    assert_eq!(session.refresh_token, "r");
}

#[test]
fn get_tokens_fails_without_the_access_token() {
    let mut session = GoogleOAuth::new();
    let result = session.get_tokens(&stored(None, Some("refresh")));
    assert_eq!(result, Err(Error::CredentialsNotFound));
    assert_eq!(session.access_token, "");
    assert_eq!(session.refresh_token, "");
    assert_eq!(session.status(), Session::Unauthenticated);
}

#[test]
fn get_tokens_fails_without_the_refresh_token() {
    let mut session = GoogleOAuth::new();
    let result = session.get_tokens(&stored(Some("access"), None));
    assert_eq!(result, Err(Error::CredentialsNotFound));
    assert_eq!(session.access_token, "");
    assert_eq!(session.refresh_token, "");
}

#[test]
fn get_tokens_fails_on_an_empty_store_and_keeps_memory() {
    let mut session = GoogleOAuth::new();
    session.get_tokens(&stored(Some("old-a"), Some("old-r"))).unwrap();
    assert_eq!(session.get_tokens(&stored(None, None)), Err(Error::CredentialsNotFound));
    assert_eq!(session.access_token, "old-a");
    assert_eq!(session.refresh_token, "old-r");
    assert_eq!(session.status(), Session::Unauthenticated);
}

#[test]
fn set_tokens_refuses_a_grant_without_refresh_token() {
    let session = GoogleOAuth::new();
    assert!(matches!(session.set_tokens(&grant("a", None)), Err(Error::ExchangeFailed)));
}

#[test]
fn is_connected_probes_the_store() {
    let mut session = GoogleOAuth::new();
    assert_eq!(session.is_connected(&stored(Some("a"), Some("r"))), Ok(true));
    assert_eq!(session.is_connected(&stored(Some("a"), None)), Err(Error::CredentialsNotFound));
}

#[test]
fn sign_in_runs_the_whole_flow() {
    let mut session = waiting_for_callback();
    match session.sign_in(redirect("the-code", "expected-state")) {
        Step::Ask(Request::ExchangeCode { code, verifier }) => {
            assert_eq!(code, "the-code");
            assert_eq!(verifier, "v".repeat(43));
        }
        other => panic!("unexpected step {:?}", other),
    }
    match session.sign_in(Reply::Granted(Some(grant("new-access", Some("new-refresh"))))) {
        Step::Ask(Request::WriteCredentials { access_token, refresh_token }) => {
            assert_eq!(access_token, "new-access");
            assert_eq!(refresh_token, "new-refresh");
        }
        other => panic!("unexpected step {:?}", other),
    }
    assert_eq!(session.status(), Session::Unauthenticated);
    assert!(matches!(session.sign_in(Reply::Stored(true)), Step::Done(())));
    assert_eq!(session.status(), Session::Authenticated);
    assert_eq!(session.access_token, "new-access");
    assert_eq!(session.refresh_token, "new-refresh");
    assert!(session.is_idle());
}

#[test]
fn sign_in_draws_its_own_secrets() {
    let mut session = GoogleOAuth::new();
    session.sign_in(Reply::Begin);
    session.sign_in(Reply::Credentials(stored(None, None)));
    let url = match session.sign_in(Reply::Config(Some(config()))) {
        Step::Ask(Request::Authorize { url, listen_on }) => {
            assert_eq!(listen_on, LISTEN_ON);
            url
        }
        other => panic!("unexpected step {:?}", other),
    };
    let (verifier, csrf_state) = match &session.phase {
        AuthPhase::AwaitingCallback { verifier, csrf_state } => {
            (verifier.clone(), csrf_state.clone())
        }
        other => panic!("unexpected phase {:?}", other),
    };
    assert_eq!(verifier.len(), 43);
    let parsed = url::Url::parse(&url).unwrap();
    let state = parsed.query_pairs().find(|(k, _)| k == "state").unwrap().1.into_owned();
    assert_eq!(state, csrf_state);
    match session.sign_in(redirect("c0de", &csrf_state)) {
        Step::Ask(Request::ExchangeCode { code, verifier: sent }) => {
            assert_eq!(code, "c0de");
            assert_eq!(sent, verifier);
        }
        other => panic!("unexpected step {:?}", other),
    }
}

#[test]
fn sign_in_with_stored_tokens_is_done_after_the_probe() {
    let mut session = GoogleOAuth::new();
    assert!(matches!(session.sign_in(Reply::Begin), Step::Ask(Request::ReadCredentials)));
    let step = session.sign_in(Reply::Credentials(stored(Some("a"), Some("r"))));
    assert!(matches!(step, Step::Done(())));
    assert_eq!(session.status(), Session::Authenticated);
    assert!(session.is_idle());
}

#[test]
fn second_sign_in_performs_no_interactive_flow() {
    let mut session = waiting_for_callback();
    session.sign_in(redirect("the-code", "expected-state"));
    let written = match session.sign_in(Reply::Granted(Some(grant("a1", Some("r1"))))) {
        Step::Ask(Request::WriteCredentials { access_token, refresh_token }) => {
            stored(Some(&access_token), Some(&refresh_token))
        }
        other => panic!("unexpected step {:?}", other),
    };
    assert!(matches!(session.sign_in(Reply::Stored(true)), Step::Done(())));

    let mut requests = Vec::new();
    let mut reply = Reply::Begin;
    loop {
        match session.sign_in(reply) {
            Step::Ask(request) => {
                reply = match &request {
                    Request::ReadCredentials => Reply::Credentials(stored(
                        written.access_token.as_deref(),
                        written.refresh_token.as_deref(),
                    )),
                    other => panic!("second login asked for {:?}", other),
                };
                requests.push(request);
            }
            Step::Done(()) => break,
            Step::Failed(error) => panic!("second login failed: {:?}", error),
        }
    }
    assert_eq!(requests.len(), 1);
    assert_eq!(session.access_token, "a1");
}

#[test]
fn sign_in_without_configuration_fails_before_anything_is_opened() {
    let mut session = GoogleOAuth::new();
    session.sign_in(Reply::Begin);
    session.sign_in(Reply::Credentials(stored(None, None)));
    assert!(matches!(session.sign_in(Reply::Config(None)), Step::Failed(Error::ConfigMissing)));
    assert!(session.is_idle());
}

#[test]
fn sign_in_with_unusable_endpoint_fails() {
    let mut session = GoogleOAuth::new();
    session.sign_in(Reply::Begin);
    session.sign_in(Reply::Credentials(stored(None, None)));
    let step = session.sign_in_with(Reply::Config(Some(config())), Some(drawn(None)));
    assert!(matches!(step, Step::Failed(Error::InvalidEndpoint)));
    let mut other = GoogleOAuth::new();
    other.sign_in(Reply::Begin);
    other.sign_in(Reply::Credentials(stored(None, None)));
    let step = other.sign_in_with(Reply::Config(Some(config())), None);
    assert!(matches!(step, Step::Failed(Error::InvalidEndpoint)));
}

#[test]
fn foreign_state_aborts_before_any_exchange() {
    let mut session = waiting_for_callback();
    let step = session.sign_in(redirect("the-code", "forged-state"));
    assert!(matches!(step, Step::Failed(Error::CsrfMismatch)));
    assert!(session.is_idle());
    assert_eq!(session.status(), Session::Unauthenticated);
    let after = session.sign_in(Reply::Granted(Some(grant("a", Some("r")))));
    assert!(matches!(after, Step::Failed(Error::UnexpectedReply)));
    assert_eq!(session.access_token, "");
}

#[test]
fn state_is_compared_exactly() {
    let mut session = waiting_for_callback();
    let step = session.sign_in(redirect("the-code", "expected-state%20"));
    assert!(matches!(step, Step::Failed(Error::CsrfMismatch)));
    let mut session = waiting_for_callback();
    let step = session.sign_in(redirect("the-code", "Expected-State"));
    assert!(matches!(step, Step::Failed(Error::CsrfMismatch)));
    let mut session = waiting_for_callback();
    let step = session.sign_in(redirect("the-code", "expected%2Dstate"));
    assert!(matches!(step, Step::Ask(Request::ExchangeCode { .. })));
}

#[test]
fn redirect_without_code_aborts() {
    let mut session = waiting_for_callback();
    let step =
        session.sign_in(Reply::Callback(Some("GET /?state=expected-state HTTP/1.1".to_string())));
    assert!(matches!(step, Step::Failed(Error::CallbackMissingParameter)));
    assert!(session.is_idle());
}

#[test]
fn redirect_without_state_aborts() {
    let mut session = waiting_for_callback();
    let step = session.sign_in(Reply::Callback(Some("GET /?code=c HTTP/1.1".to_string())));
    assert!(matches!(step, Step::Failed(Error::CallbackMissingParameter)));
}

#[test]
fn no_redirect_in_time_aborts() {
    let mut session = waiting_for_callback();
    assert!(matches!(session.sign_in(Reply::Callback(None)), Step::Failed(Error::CallbackTimeout)));
    assert!(session.is_idle());
}

#[test]
fn refused_exchange_aborts() {
    let mut session = waiting_for_callback();
    session.sign_in(redirect("c", "expected-state"));
    assert!(matches!(session.sign_in(Reply::Granted(None)), Step::Failed(Error::ExchangeFailed)));
    assert_eq!(session.status(), Session::Unauthenticated);
}

#[test]
fn grant_without_refresh_token_is_not_stored() {
    let mut session = waiting_for_callback();
    session.sign_in(redirect("c", "expected-state"));
    let step = session.sign_in(Reply::Granted(Some(grant("a", None))));
    assert!(matches!(step, Step::Failed(Error::ExchangeFailed)));
    assert!(session.is_idle());
}

#[test]
fn failed_store_write_fails_the_login() {
    let mut session = waiting_for_callback();
    session.sign_in(redirect("c", "expected-state"));
    session.sign_in(Reply::Granted(Some(grant("a", Some("r")))));
    assert!(matches!(session.sign_in(Reply::Stored(false)), Step::Failed(Error::StoreFailed)));
    assert_eq!(session.access_token, "");
    assert_eq!(session.status(), Session::Unauthenticated);
}

#[test]
fn reply_that_nobody_asked_for_ends_the_operation() {
    let mut session = GoogleOAuth::new();
    assert!(matches!(session.sign_in(Reply::Stored(true)), Step::Failed(Error::UnexpectedReply)));
    let mut session = waiting_for_callback();
    assert!(matches!(session.sign_in(Reply::Revoked(true)), Step::Failed(Error::UnexpectedReply)));
    assert!(session.is_idle());
}

#[test]
fn begin_starts_over() {
    let mut session = waiting_for_callback();
    assert!(matches!(session.sign_in(Reply::Begin), Step::Ask(Request::ReadCredentials)));
    assert!(matches!(
        session.sign_in(redirect("c", "expected-state")),
        Step::Failed(Error::UnexpectedReply)
    ));
}

#[test]
fn refresh_keeps_the_old_refresh_token_unless_rotated() {
    let mut session = GoogleOAuth::new();
    assert!(matches!(session.refresh_token(Reply::Begin), Step::Ask(Request::ReadCredentials)));
    match session.refresh_token(Reply::Credentials(stored(Some("old-a"), Some("old-r")))) {
        Step::Ask(Request::RefreshGrant { refresh_token }) => assert_eq!(refresh_token, "old-r"),
        other => panic!("unexpected step {:?}", other),
    }
    match session.refresh_token(Reply::Granted(Some(grant("new-a", None)))) {
        Step::Ask(Request::WriteCredentials { access_token, refresh_token }) => {
            assert_eq!(access_token, "new-a");
            assert_eq!(refresh_token, "old-r");
        }
        other => panic!("unexpected step {:?}", other),
    }
    assert!(matches!(session.refresh_token(Reply::Stored(true)), Step::Done(())));
    assert_eq!(session.access_token, "new-a");
    assert_eq!(session.refresh_token, "old-r");
    assert_eq!(session.status(), Session::Authenticated);
}

#[test]
fn refresh_takes_a_rotated_refresh_token() {
    let mut session = GoogleOAuth::new();
    session.refresh_token(Reply::Begin);
    session.refresh_token(Reply::Credentials(stored(Some("old-a"), Some("old-r"))));
    match session.refresh_token(Reply::Granted(Some(grant("new-a", Some("new-r"))))) {
        Step::Ask(Request::WriteCredentials { access_token, refresh_token }) => {
            assert_eq!(access_token, "new-a");
            assert_eq!(refresh_token, "new-r");
        }
        other => panic!("unexpected step {:?}", other),
    }
    assert!(matches!(session.refresh_token(Reply::Stored(true)), Step::Done(())));
    assert_eq!(session.refresh_token, "new-r");
}

#[test]
fn rejected_refresh_is_final() {
    let mut session = GoogleOAuth::new();
    session.refresh_token(Reply::Begin);
    session.refresh_token(Reply::Credentials(stored(Some("a"), Some("r"))));
    let step = session.refresh_token(Reply::Granted(None));
    assert!(matches!(step, Step::Failed(Error::RefreshRejected)));
    assert_eq!(session.status(), Session::Unauthenticated);
    assert!(session.is_idle());
    assert!(matches!(
        session.refresh_token(Reply::Granted(Some(grant("a2", None)))),
        Step::Failed(Error::UnexpectedReply)
    ));
}

#[test]
fn refresh_without_stored_session_fails() {
    let mut session = GoogleOAuth::new();
    session.refresh_token(Reply::Begin);
    let step = session.refresh_token(Reply::Credentials(stored(Some("a"), None)));
    assert!(matches!(step, Step::Failed(Error::CredentialsNotFound)));
}

#[test]
fn refresh_fails_where_the_store_refuses_the_write() {
    let mut session = GoogleOAuth::new();
    session.refresh_token(Reply::Begin);
    session.refresh_token(Reply::Credentials(stored(Some("a"), Some("r"))));
    session.refresh_token(Reply::Granted(Some(grant("a2", None))));
    assert!(matches!(session.refresh_token(Reply::Stored(false)), Step::Failed(Error::StoreFailed)));
    assert_eq!(session.access_token, "a");
}

#[test]
fn sign_out_revokes_then_clears() {
    let mut session = GoogleOAuth::new();
    assert!(matches!(session.sign_out(Reply::Begin), Step::Ask(Request::ReadCredentials)));
    match session.sign_out(Reply::Credentials(stored(Some("the-access"), Some("the-refresh")))) {
        Step::Ask(Request::Revoke { access_token }) => assert_eq!(access_token, "the-access"),
        other => panic!("unexpected step {:?}", other),
    }
    assert!(matches!(session.sign_out(Reply::Revoked(true)), Step::Ask(Request::ClearCredentials)));
    assert!(matches!(session.sign_out(Reply::Stored(true)), Step::Done(())));
    assert_eq!(session.status(), Session::Unauthenticated);
    assert_eq!(session.access_token, "");
    assert_eq!(session.refresh_token, "");
}

#[test]
fn failed_revocation_leaves_the_session_usable() {
    let mut session = GoogleOAuth::new();
    session.sign_out(Reply::Begin);
    session.sign_out(Reply::Credentials(stored(Some("the-access"), Some("the-refresh"))));
    let step = session.sign_out(Reply::Revoked(false));
    assert!(matches!(step, Step::Failed(Error::RevocationFailed)));
    assert_eq!(session.status(), Session::Authenticated);
    assert_eq!(session.access_token, "the-access");
    assert_eq!(session.refresh_token, "the-refresh");
    assert!(session.is_idle());
}

#[test]
fn sign_out_without_stored_session_fails() {
    let mut session = GoogleOAuth::new();
    session.sign_out(Reply::Begin);
    let step = session.sign_out(Reply::Credentials(stored(None, None)));
    assert!(matches!(step, Step::Failed(Error::CredentialsNotFound)));
}

#[test]
fn sign_out_fails_where_the_store_refuses_to_clear() {
    let mut session = GoogleOAuth::new();
    session.sign_out(Reply::Begin);
    session.sign_out(Reply::Credentials(stored(Some("a"), Some("r"))));
    session.sign_out(Reply::Revoked(true));
    assert!(matches!(session.sign_out(Reply::Stored(false)), Step::Failed(Error::StoreFailed)));
    assert_eq!(session.access_token, "a");
}

#[test]
fn error_messages() {
    assert_eq!(Error::CredentialsNotFound.message(), "no stored session, sign in first");
    assert_eq!(Error::CsrfMismatch.message(), "the redirect carried a foreign state token");
    assert_eq!(Error::ConfigMissing.message(), "client id or client secret is not configured");
    assert_eq!(Error::CallbackTimeout.message(), "no redirect arrived in time");
    assert_eq!(Error::CreateFailed.message(), "the task service refused to create the task");
    assert!(Error::CredentialsNotFound.needs_login());
    assert!(Error::RefreshRejected.needs_login());
    assert!(Error::Unauthorized.needs_login());
    assert!(!Error::RemoteUnavailable.needs_login());
    assert!(!Error::CsrfMismatch.needs_login());
}
