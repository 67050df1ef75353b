//! The state of one login attempt between its start and its confirmation.

use vstd::prelude::*;

verus! {

/// What a login attempt carries from `init_login` to `login`.
///
/// `created` counts nanoseconds on the clock of the broker that made the
/// context.
pub struct AuthenticationContext {
    auth_url: String,
    pkce_verifier: String,
    csrf_token: String,
    nonce: String,
    created: u128,
}

/// The mathematical value of an [`AuthenticationContext`].
pub struct ContextView {
    pub auth_url: Seq<char>,
    pub pkce_verifier: Seq<char>,
    pub csrf_token: Seq<char>,
    pub nonce: Seq<char>,
    pub created: u128,
}

impl ContextView {
    /// The context has reached the age `ttl` at the time `now`. A context
    /// whose age is exactly `ttl` counts as expired; one made after `now`
    /// has a negative age and never does.
    pub open spec fn expired(self, now: u128, ttl: u128) -> bool {
        now - self.created >= ttl
    }
}

impl View for AuthenticationContext {
    type V = ContextView;

    closed spec fn view(&self) -> ContextView {
        ContextView {
            auth_url: self.auth_url@,
            pkce_verifier: self.pkce_verifier@,
            csrf_token: self.csrf_token@,
            nonce: self.nonce@,
            created: self.created,
        }
    }
}

impl AuthenticationContext {
    /// Puts the parts of a login attempt together.
    pub fn new(
        pkce_verifier: String,
        csrf_token: String,
        nonce: String,
        auth_url: String,
        created: u128,
    ) -> (ctx: Self)
        ensures
            ctx@ == (ContextView {
                auth_url: auth_url@,
                pkce_verifier: pkce_verifier@,
                csrf_token: csrf_token@,
                nonce: nonce@,
                created,
            }),
    {
        AuthenticationContext { pkce_verifier, csrf_token, nonce, auth_url, created }
    }

    /// The CSRF token of the attempt, under which the store files it.
    pub fn csrf_token(&self) -> (token: &String)
        ensures
            token@ == self@.csrf_token,
    {
        &self.csrf_token
    }

    /// The authorization URL that the user is sent to.
    pub fn auth_url(&self) -> (url: &String)
        ensures
            url@ == self@.auth_url,
    {
        &self.auth_url
    }

    /// The nonce that the ID token of the attempt has to carry.
    pub fn nonce(&self) -> (nonce: &String)
        ensures
            nonce@ == self@.nonce,
    {
        &self.nonce
    }

    /// The PKCE verifier to exchange the authorization code with.
    pub fn pkce_verifier(&self) -> (verifier: &String)
        ensures
            verifier@ == self@.pkce_verifier,
    {
        &self.pkce_verifier
    }

    /// When the attempt was started.
    pub fn created(&self) -> (created: u128)
        ensures
            created == self@.created,
    {
        self.created
    }

    /// Whether `state` is the CSRF token of the attempt.
    pub fn matches_state(&self, state: &str) -> (same: bool)
        ensures
            same == (self@.csrf_token == state@),
    {
        let wanted = state.to_owned();
        self.csrf_token == wanted
    }

    /// Whether the context has reached the age `ttl` at the time `now`.
    pub fn expired(&self, now: u128, ttl: u128) -> (gone: bool)
        ensures
            gone == self@.expired(now, ttl),
    {
        now >= self.created && now - self.created >= ttl
    }

    /// Whether the context is younger than `ttl` at the time `now`.
    pub fn alive(&self, now: u128, ttl: u128) -> (alive: bool)
        ensures
            alive == !self@.expired(now, ttl),
    {
        !self.expired(now, ttl)
    }
}

} // verus!
