//! The secrets of one login attempt: a PKCE verifier with its challenge, and
//! the state token that guards the redirect against forgery; and the
//! authorization URL that carries challenge and state to the provider.

use crate::common::text::text_of;
use vstd::prelude::*;
use vstd::string::*;
use vstd::utf8::is_ascii_chars;

verus! {

/// The S256 challenge that belongs to a verifier: the SHA-256 digest of the
/// verifier, base64url-encoded without padding.  It stands for what
/// `oauth2::PkceCodeChallenge::from_code_verifier_sha256` computes.
pub uninterp spec fn s256_challenge(verifier: Seq<char>) -> Seq<char>;

/// The authorization URL that `oauth2` builds for a client identifier, the
/// two endpoint addresses, the scopes, the state token and the challenge of
/// the verifier; `None` where one of the addresses is not a URL.  It stands
/// for what `oauth2::AuthorizationRequest::url` returns.
pub uninterp spec fn authorization_url_text(
    client_id: Seq<char>,
    auth_url: Seq<char>,
    redirect_url: Seq<char>,
    scopes: Seq<Seq<char>>,
    state: Seq<char>,
    verifier: Seq<char>,
) -> Option<Seq<char>>;

/// The characters of the URL-safe base64 alphabet.
pub open spec fn is_base64url_char(c: char) -> bool {
    ('A' <= c <= 'Z') || ('a' <= c <= 'z') || ('0' <= c <= '9') || c == '-' || c == '_'
}

/// Whether a text is made of characters of the URL-safe base64 alphabet.
pub open spec fn is_base64url(text: Seq<char>) -> bool {
    forall|i: int| 0 <= i < text.len() ==> is_base64url_char(#[trigger] text[i])
}

/// Whether a text can serve as a PKCE verifier: ASCII, 43 to 128 characters.
pub open spec fn verifier_fits(verifier: Seq<char>) -> bool {
    is_ascii_chars(verifier) && 43 <= verifier.len() <= 128
}

/// The secrets of one login attempt.  The verifier never leaves memory; the
/// challenge and the state token travel in the authorization URL.
#[derive(Debug)]
pub struct PkceAttempt {
    pub verifier: String,
    pub challenge: String,
    pub csrf_state: String,
}

/// What a `PkceAttempt` holds.
pub struct PkceAttemptView {
    pub verifier: Seq<char>,
    pub challenge: Seq<char>,
    pub csrf_state: Seq<char>,
}

impl View for PkceAttempt {
    type V = PkceAttemptView;

    open spec fn view(&self) -> PkceAttemptView {
        PkceAttemptView {
            verifier: self.verifier@,
            challenge: self.challenge@,
            csrf_state: self.csrf_state@,
        }
    }
}

impl PkceAttemptView {
    /// The verifier is fit for use, the challenge is its S256 challenge, and
    /// verifier and state token are URL-safe.
    pub open spec fn well_formed(self) -> bool {
        &&& verifier_fits(self.verifier)
        &&& is_base64url(self.verifier)
        &&& is_base64url(self.csrf_state)
        &&& self.challenge == s256_challenge(self.verifier)
    }
}

/// Draws a verifier and computes its challenge.
///
/// Trusted: calls `oauth2::PkceCodeChallenge::new_random_sha256`, which
/// encodes 32 random bytes in URL-safe base64 without padding (43
/// characters) and derives the challenge from that verifier with
/// `from_code_verifier_sha256`.  Nothing is claimed about which verifier
/// comes out.
#[verifier::external_body]
fn new_random_sha256() -> (pair: (String, String))
    ensures
        pair.0@ == s256_challenge(pair.1@),
        is_base64url(pair.1@),
        pair.1@.len() == 43,
{
    let (challenge, verifier) = oauth2::PkceCodeChallenge::new_random_sha256();
    (challenge.as_str().to_string(), verifier.secret().clone())
}

/// Draws a state token.
///
/// Trusted: calls `oauth2::CsrfToken::new_random`, which encodes 16 random
/// bytes in URL-safe base64 without padding: 22 characters.  Nothing is
/// claimed about which token comes out.
#[verifier::external_body]
fn new_random_state() -> (state: String)
    ensures
        is_base64url(state@),
        state@.len() == 22,
{
    oauth2::CsrfToken::new_random().secret().clone()
}

/// Builds the authorization URL.
///
/// Trusted: parses the two addresses with `oauth2::AuthUrl::new` and
/// `oauth2::RedirectUrl::new`, sets up an `oauth2::basic::BasicClient`, and
/// asks it for the URL of an authorization request with the given state,
/// scopes and the S256 challenge of the verifier.  The result is `None`
/// exactly where one of the addresses does not parse.  The verifier has to be
/// 43 to 128 bytes long, else `from_code_verifier_sha256` panics.
#[verifier::external_body]
pub(crate) fn authorization_url(
    client_id: &str,
    auth_url: &str,
    redirect_url: &str,
    scopes: &Vec<String>,
    state: &str,
    verifier: &str,
) -> (url: Option<String>)
    requires
        verifier_fits(verifier@),
    ensures
        text_of(url) == authorization_url_text(
            client_id@,
            auth_url@,
            redirect_url@,
            scopes.deep_view(),
            state@,
            verifier@,
        ),
{
    let auth = oauth2::AuthUrl::new(auth_url.to_string()).ok()?;
    let redirect = oauth2::RedirectUrl::new(redirect_url.to_string()).ok()?;
    let client = oauth2::basic::BasicClient::new(oauth2::ClientId::new(client_id.to_string()))
        .set_auth_uri(auth)
        .set_redirect_uri(redirect);
    let secret = oauth2::PkceCodeVerifier::new(verifier.to_string());
    let request = client
        .authorize_url(|| oauth2::CsrfToken::new(state.to_string()))
        .add_scopes(scopes.iter().map(|scope| oauth2::Scope::new(scope.clone())))
        .set_pkce_challenge(oauth2::PkceCodeChallenge::from_code_verifier_sha256(&secret));
    Some(request.url().0.to_string())
}

/// Every character of the URL-safe base64 alphabet is ASCII.
pub proof fn lemma_base64url_is_ascii(text: Seq<char>)
    requires
        is_base64url(text),
    ensures
        is_ascii_chars(text),
{
    assert forall|i: int| 0 <= i < text.len() implies '\0' <= #[trigger] text[i] <= '\u{7f}' by {
        assert(is_base64url_char(text[i]));
    }
}

impl PkceAttempt {
    /// Generates the secrets of a new login attempt.  No two calls need
    /// return the same.
    pub fn generate() -> (attempt: PkceAttempt)
        ensures
            attempt@.well_formed(),
            attempt@.verifier.len() == 43,
            attempt@.csrf_state.len() == 22,
    {
        let (challenge, verifier) = new_random_sha256();
        let csrf_state = new_random_state();
        proof {
            lemma_base64url_is_ascii(verifier@);
        }
        PkceAttempt { verifier, challenge, csrf_state }
    }
}

} // verus!
