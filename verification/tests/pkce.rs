use tasked::auth::google::{
    Authorization, AUTH_URL, REDIRECT_URL, SCOPE_TASKS, SCOPE_TASKS_READONLY,
};
use tasked::auth::pkce::PkceAttempt;
use tasked::host::OAuthConfig;

fn config() -> OAuthConfig {
    OAuthConfig { client_id: "client-123".to_string(), client_secret: "hidden".to_string() }
}

fn query_value(url: &url::Url, name: &str) -> Option<String> {
    url.query_pairs().find(|(key, _)| key == name).map(|(_, value)| value.into_owned())
}

fn is_url_safe(text: &str) -> bool {
    text.chars().all(|c| c.is_ascii_alphanumeric() || c == '-' || c == '_')
}

#[test]
fn generated_secrets_have_the_documented_shape() {
    let attempt = PkceAttempt::generate();
    assert_eq!(attempt.verifier.len(), 43);
    assert_eq!(attempt.csrf_state.len(), 22);
    assert_eq!(attempt.challenge.len(), 43);
    assert!(is_url_safe(&attempt.verifier));
    assert!(is_url_safe(&attempt.challenge));
    assert!(is_url_safe(&attempt.csrf_state));
}

#[test]
fn challenge_is_the_s256_challenge_of_the_verifier() {
    let attempt = PkceAttempt::generate();
    let verifier = oauth2::PkceCodeVerifier::new(attempt.verifier.clone());
    let expected = oauth2::PkceCodeChallenge::from_code_verifier_sha256(&verifier);
    assert_eq!(attempt.challenge, expected.as_str());
    assert_ne!(attempt.challenge, attempt.verifier);
}

#[test]
fn attempts_do_not_repeat() {
    let first = PkceAttempt::generate();
    let second = PkceAttempt::generate();
    assert_ne!(first.verifier, second.verifier);
    assert_ne!(first.csrf_state, second.csrf_state);
    assert_ne!(first.verifier, first.csrf_state);
}

#[test]
fn authorization_url_carries_the_parameters_of_the_attempt() {
    let drawn = Authorization::prepare(&config());
    let text = drawn.url.clone().unwrap();
    assert!(text.starts_with("https://accounts.google.com/o/oauth2/v2/auth?"));
    assert!(text.starts_with(AUTH_URL));
    let url = url::Url::parse(&text).unwrap();
    assert_eq!(query_value(&url, "response_type"), Some("code".to_string()));
    assert_eq!(query_value(&url, "client_id"), Some("client-123".to_string()));
    assert_eq!(query_value(&url, "state"), Some(drawn.attempt.csrf_state.clone()));
    assert_eq!(query_value(&url, "code_challenge"), Some(drawn.attempt.challenge.clone()));
    assert_eq!(query_value(&url, "code_challenge_method"), Some("S256".to_string()));
    assert_eq!(query_value(&url, "redirect_uri"), Some("http://localhost:8080".to_string()));
    assert_eq!(query_value(&url, "redirect_uri"), Some(REDIRECT_URL.to_string()));
    assert_eq!(
        query_value(&url, "scope"),
        Some(format!("{} {}", SCOPE_TASKS, SCOPE_TASKS_READONLY))
    );
}

#[test]
fn authorization_url_keeps_the_secrets_out() {
    let drawn = Authorization::prepare(&config());
    let text = drawn.url.clone().unwrap();
    assert!(!text.contains(&drawn.attempt.verifier));
    assert!(!text.contains("hidden"));
}
