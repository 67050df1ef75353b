//! The client's registration with the identity provider, and the
//! authorization URL that starts a login attempt.

use vstd::prelude::*;
use vstd::utf8::is_ascii_chars;
use openidconnect::url::Url;
use openidconnect::{
    AuthUrl, ClientId, CsrfToken, IssuerUrl, Nonce, PkceCodeChallenge, PkceCodeVerifier,
    RedirectUrl, Scope,
};

verus! {

/// Whether `Url::parse` accepts `text`.
pub uninterp spec fn url_parses(text: Seq<char>) -> bool;

/// The authorization URL that the OpenID Connect client library builds for
/// the Authorization Code flow: the provider's authorization endpoint with
/// the client id, the redirect URI, the scope `openid` followed by `scopes`,
/// `state`, `nonce` and the SHA-256 challenge of `pkce_verifier`.
pub uninterp spec fn authorization_url(
    issuer: Seq<char>,
    authorization_endpoint: Seq<char>,
    client_id: Seq<char>,
    redirect_uri: Seq<char>,
    scopes: Seq<Seq<char>>,
    state: Seq<char>,
    nonce: Seq<char>,
    pkce_verifier: Seq<char>,
) -> Seq<char>;

/// The text of each scope in turn.
pub open spec fn scope_names(scopes: Seq<String>) -> Seq<Seq<char>> {
    scopes.map_values(|scope: String| scope@)
}

/// A PKCE verifier of the length that RFC 7636 allows: 43 to 128 ASCII
/// characters.
pub open spec fn usable_pkce_verifier(verifier: Seq<char>) -> bool {
    is_ascii_chars(verifier) && 43 <= verifier.len() <= 128
}

/// `Url::parse`, asked only whether it succeeds.
#[verifier::external_body]
fn parses_as_url(text: &str) -> (accepted: bool)
    ensures
        accepted == url_parses(text@),
{
    Url::parse(text).is_ok()
}

/// `PkceCodeChallenge::new_random_sha256`, of which the verifier is kept:
/// 32 random bytes in unpadded URL-safe base64, which makes 43 ASCII
/// characters.
#[verifier::external_body]
pub(crate) fn random_pkce_verifier() -> (verifier: String)
    ensures
        is_ascii_chars(verifier@),
        verifier@.len() == 43,
{
    PkceCodeChallenge::new_random_sha256().1.secret().clone()
}

/// `CsrfToken::new_random`: 16 random bytes in unpadded URL-safe base64,
/// which makes 22 ASCII characters.
#[verifier::external_body]
pub(crate) fn random_csrf_token() -> (token: String)
    ensures
        is_ascii_chars(token@),
        token@.len() == 22,
{
    CsrfToken::new_random().secret().clone()
}

/// `Nonce::new_random`: 16 random bytes in unpadded URL-safe base64, which
/// makes 22 ASCII characters.
#[verifier::external_body]
pub(crate) fn random_nonce() -> (nonce: String)
    ensures
        is_ascii_chars(nonce@),
        nonce@.len() == 22,
{
    Nonce::new_random().secret().clone()
}

/// `CoreClient::authorize_url` for the Authorization Code flow, with
/// `add_scopes` for `scopes`, `set_pkce_challenge` for the SHA-256 challenge
/// of `pkce_verifier`, and `url`. The client is made by `CoreClient::new`
/// from the strings given, which must parse as URLs; the verifier must have
/// a length that `PkceCodeChallenge::from_code_verifier_sha256` takes.
#[verifier::external_body]
fn build_authorization_url(
    issuer: String,
    authorization_endpoint: String,
    client_id: String,
    redirect_uri: String,
    scopes: Vec<String>,
    state: String,
    nonce: String,
    pkce_verifier: String,
) -> (url: String)
    requires
        url_parses(issuer@),
        url_parses(authorization_endpoint@),
        url_parses(redirect_uri@),
        usable_pkce_verifier(pkce_verifier@),
    ensures
        url@ == authorization_url(
            issuer@,
            authorization_endpoint@,
            client_id@,
            redirect_uri@,
            scope_names(scopes@),
            state@,
            nonce@,
            pkce_verifier@,
        ),
{
    let issuer = IssuerUrl::new(issuer).unwrap();
    let endpoint = AuthUrl::new(authorization_endpoint).unwrap();
    let redirect = RedirectUrl::new(redirect_uri).unwrap();
    let verifier = PkceCodeVerifier::new(pkce_verifier);
    let keys = openidconnect::core::CoreJsonWebKeySet::default();
    let flow = openidconnect::core::CoreAuthenticationFlow::AuthorizationCode;
    openidconnect::core::CoreClient::new(ClientId::new(client_id), None, issuer, endpoint, None, None, keys)
        .set_redirect_uri(redirect)
        .authorize_url(flow, move || CsrfToken::new(state), move || Nonce::new(nonce))
        .add_scopes(scopes.into_iter().map(Scope::new))
        .set_pkce_challenge(PkceCodeChallenge::from_code_verifier_sha256(&verifier))
        .url().0.into()
}

/// What the client knows of itself and of the provider. It is fixed when
/// the process starts.
pub struct ClientConfig {
    issuer: String,
    client_id: String,
    client_secret: String,
    redirect_uri: String,
    authorization_endpoint: String,
}

/// The mathematical value of a [`ClientConfig`].
pub struct ConfigView {
    pub issuer: Seq<char>,
    pub client_id: Seq<char>,
    pub client_secret: Seq<char>,
    pub redirect_uri: Seq<char>,
    pub authorization_endpoint: Seq<char>,
}

impl ConfigView {
    /// The issuer, the redirect URI and the authorization endpoint are URLs.
    pub open spec fn valid(self) -> bool {
        &&& url_parses(self.issuer)
        &&& url_parses(self.redirect_uri)
        &&& url_parses(self.authorization_endpoint)
    }

    /// The authorization URL of a login attempt with these secrets. The
    /// scopes asked for are `email` and `profile`.
    pub open spec fn login_url(self, state: Seq<char>, nonce: Seq<char>, pkce_verifier: Seq<char>) -> Seq<char> {
        authorization_url(
            self.issuer,
            self.authorization_endpoint,
            self.client_id,
            self.redirect_uri,
            seq!["email"@, "profile"@],
            state,
            nonce,
            pkce_verifier,
        )
    }
}

impl View for ClientConfig {
    type V = ConfigView;

    closed spec fn view(&self) -> ConfigView {
        ConfigView {
            issuer: self.issuer@,
            client_id: self.client_id@,
            client_secret: self.client_secret@,
            redirect_uri: self.redirect_uri@,
            authorization_endpoint: self.authorization_endpoint@,
        }
    }
}

impl ClientConfig {
    #[verifier::type_invariant]
    spec fn inv(self) -> bool {
        self@.valid()
    }

    /// Takes the registration if its three URLs parse, and refuses it
    /// otherwise.
    pub fn new(
        issuer: String,
        client_id: String,
        client_secret: String,
        redirect_uri: String,
        authorization_endpoint: String,
    ) -> (config: Option<Self>)
        ensures
            config is Some <==> url_parses(issuer@) && url_parses(redirect_uri@) && url_parses(
                authorization_endpoint@,
            ),
            config matches Some(c) ==> c@ == (ConfigView {
                issuer: issuer@,
                client_id: client_id@,
                client_secret: client_secret@,
                redirect_uri: redirect_uri@,
                authorization_endpoint: authorization_endpoint@,
            }) && c@.valid(),
    {
        if parses_as_url(issuer.as_str()) && parses_as_url(redirect_uri.as_str()) && parses_as_url(
            authorization_endpoint.as_str(),
        ) {
            Some(ClientConfig { issuer, client_id, client_secret, redirect_uri, authorization_endpoint })
        } else {
            None
        }
    }

    /// The issuer URL of the provider.
    pub fn issuer(&self) -> (issuer: &String)
        ensures
            issuer@ == self@.issuer,
    {
        &self.issuer
    }

    /// The id under which the client is registered with the provider.
    pub fn client_id(&self) -> (client_id: &String)
        ensures
            client_id@ == self@.client_id,
    {
        &self.client_id
    }

    /// The secret that the client authenticates to the provider with.
    pub fn client_secret(&self) -> (client_secret: &String)
        ensures
            client_secret@ == self@.client_secret,
    {
        &self.client_secret
    }

    /// Where the provider sends the user back to.
    pub fn redirect_uri(&self) -> (redirect_uri: &String)
        ensures
            redirect_uri@ == self@.redirect_uri,
    {
        &self.redirect_uri
    }

    /// The provider's authorization endpoint.
    pub fn authorization_endpoint(&self) -> (endpoint: &String)
        ensures
            endpoint@ == self@.authorization_endpoint,
    {
        &self.authorization_endpoint
    }

    /// The authorization URL for a login attempt with the given CSRF token,
    /// nonce and PKCE verifier.
    pub fn login_url(&self, state: &String, nonce: &String, pkce_verifier: &String) -> (url: String)
        requires
            usable_pkce_verifier(pkce_verifier@),
        ensures
            url@ == self@.login_url(state@, nonce@, pkce_verifier@),
            self@.valid(),
    {
        proof {
            use_type_invariant(self);
        }
        let scopes = vec!["email".to_owned(), "profile".to_owned()];
        assert(scope_names(scopes@) =~= seq!["email"@, "profile"@]);
        build_authorization_url(
            self.issuer.clone(),
            self.authorization_endpoint.clone(),
            self.client_id.clone(),
            self.redirect_uri.clone(),
            scopes,
            state.clone(),
            nonce.clone(),
            pkce_verifier.clone(),
        )
    }
}

} // verus!
