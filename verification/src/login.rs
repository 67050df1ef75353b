//! The broker: it starts login attempts, hands each one out for a single
//! confirmation, and forgets those that were abandoned.

use vstd::prelude::*;
use vstd::utf8::is_ascii_chars;
use std::time::{Duration, Instant};
use crate::clock::{elapsed_since, nanos_of, present, span_nanos};
use crate::context::{AuthenticationContext, ContextView};
use crate::error::{LoginError, LoginErrorView};
use crate::provider::{
    random_csrf_token, random_nonce, random_pkce_verifier, ClientConfig, ConfigView,
};
use crate::store::{
    expired_keys, one_if, swept, well_keyed, Attempts, PendingAuthenticationStore,
};
use crate::tokens::{
    confirmation, confirmed_view, exchange_view, TokenGrant, TokenGrantView, User,
};

verus! {

/// One operation on the pending attempts.
pub enum Event {
    /// `init_login`, with the attempt that it made.
    Initiate(ContextView),
    /// `login`, with the state that it was asked for.
    Confirm(Seq<char>),
    /// `sweep`, with the time and the age limit.
    Sweep(u128, u128),
}

/// The pending attempts after `event`.
pub open spec fn after(pending: Attempts, event: Event) -> Attempts {
    match event {
        Event::Initiate(context) => pending.insert(context.csrf_token, context),
        Event::Confirm(state) => pending.remove(state),
        Event::Sweep(now, ttl) => swept(pending, now, ttl),
    }
}

/// What asking for the attempt under `state` yields: the attempt, if one is
/// pending there and carries that state.
pub open spec fn claim(pending: Attempts, state: Seq<char>) -> Result<ContextView, LoginErrorView> {
    if !pending.contains_key(state) {
        Err(LoginErrorView::UnknownOrExpiredState)
    } else if pending[state].csrf_token != state {
        Err(LoginErrorView::CsrfMismatch)
    } else {
        Ok(pending[state])
    }
}

/// What the confirmation of the attempt under `state` yields, from the
/// claim to the last check on the provider's answer.
pub open spec fn confirm(
    pending: Attempts,
    state: Seq<char>,
    exchange: Result<TokenGrantView, Seq<char>>,
) -> Result<Seq<char>, LoginErrorView> {
    match claim(pending, state) {
        Err(error) => Err(error),
        Ok(context) => confirmation(context, state, exchange),
    }
}

/// The value of a claim's result: the attempt, or the failure.
pub open spec fn claimed_view(result: Result<AuthenticationContext, LoginError>) -> Result<
    ContextView,
    LoginErrorView,
> {
    match result {
        Ok(context) => Ok(context@),
        Err(error) => Err(error@),
    }
}

/// The secrets of `context` have the form in which the broker draws them:
/// a PKCE verifier of 43 ASCII characters, a CSRF token and a nonce of 22
/// ASCII characters each.
pub open spec fn drawn_secrets(context: ContextView) -> bool {
    &&& is_ascii_chars(context.pkce_verifier) && context.pkce_verifier.len() == 43
    &&& is_ascii_chars(context.csrf_token) && context.csrf_token.len() == 22
    &&& is_ascii_chars(context.nonce) && context.nonce.len() == 22
}

/// `context` is a login attempt of a client registered as `config`, it has
/// been added to `before`, which gave `after`, and `url` sends the user to
/// the provider for it.
pub open spec fn begun(
    before: Attempts,
    config: ConfigView,
    context: ContextView,
    url: Seq<char>,
    after: Attempts,
) -> bool {
    &&& after == before.insert(context.csrf_token, context)
    &&& url == context.auth_url
    &&& drawn_secrets(context)
    &&& context.auth_url == config.login_url(
        context.csrf_token,
        context.nonce,
        context.pkce_verifier,
    )
}

/// The login broker of one client.
pub struct UserAuthenticator {
    config: ClientConfig,
    ongoing_authentifications: PendingAuthenticationStore,
    started: Instant,
}

impl UserAuthenticator {
    /// The attempts that have been started and neither confirmed nor swept.
    pub closed spec fn pending(&self) -> Attempts {
        self.ongoing_authentifications.pending()
    }

    /// The client's registration.
    pub closed spec fn config(&self) -> ConfigView {
        self.config@
    }

    /// A broker for the client registered as `config`, with no attempt
    /// pending. Its clock starts now.
    pub fn new(config: ClientConfig) -> (broker: Self)
        ensures
            broker.pending() == Attempts::empty(),
            broker.config() == config@,
            well_keyed(broker.pending()),
    {
        UserAuthenticator {
            config,
            ongoing_authentifications: PendingAuthenticationStore::new(),
            started: present(),
        }
    }

    /// Nanoseconds on the broker's clock.
    fn now(&self) -> u128 {
        let span = elapsed_since(&self.started);
        nanos_of(&span)
    }

    /// Makes a login attempt with fresh secrets: a PKCE verifier, a CSRF
    /// token and a nonce, the authorization URL that carries them, and the
    /// present time. The attempt is not yet pending.
    pub fn new_auth_context(&self) -> (context: AuthenticationContext)
        ensures
            context@.auth_url == self.config().login_url(
                context@.csrf_token,
                context@.nonce,
                context@.pkce_verifier,
            ),
            drawn_secrets(context@),
    {
        let pkce_verifier = random_pkce_verifier();
        let csrf_token = random_csrf_token();
        let nonce = random_nonce();
        let auth_url = self.config.login_url(&csrf_token, &nonce, &pkce_verifier);
        let created = self.now();
        AuthenticationContext::new(pkce_verifier, csrf_token, nonce, auth_url, created)
    }

    /// Files `context` as pending and returns the URL to send the user to.
    pub fn init_login_with(&mut self, context: AuthenticationContext) -> (url: String)
        ensures
            url@ == context@.auth_url,
            final(self).pending() == old(self).pending().insert(context@.csrf_token, context@),
            final(self).pending() == after(old(self).pending(), Event::Initiate(context@)),
            final(self).pending().len() == old(self).pending().len() + one_if(
                !old(self).pending().contains_key(context@.csrf_token),
            ),
            final(self).config() == old(self).config(),
            well_keyed(final(self).pending()),
    {
        let url = context.auth_url().clone();
        self.ongoing_authentifications.insert(context);
        url
    }

    /// Starts a login attempt: makes it, files it as pending and returns
    /// the URL to send the user to.
    pub fn init_login(&mut self) -> (url: String)
        ensures
            exists|context: ContextView|
                begun(
                    old(self).pending(),
                    old(self).config(),
                    context,
                    url@,
                    final(self).pending(),
                ),
            final(self).config() == old(self).config(),
            well_keyed(final(self).pending()),
    {
        let context = self.new_auth_context();
        let ghost made = context@;
        let url = self.init_login_with(context);
        assert(begun(old(self).pending(), old(self).config(), made, url@, self.pending()));
        url
    }

    /// Claims the attempt that is pending under `state`, for the exchange
    /// of the authorization code that came with it. Whatever is pending
    /// there is gone afterwards: a state is good for one confirmation.
    pub fn login(&mut self, state: &str) -> (claimed: Result<AuthenticationContext, LoginError>)
        ensures
            final(self).pending() == old(self).pending().remove(state@),
            final(self).pending() == after(old(self).pending(), Event::Confirm(state@)),
            final(self).config() == old(self).config(),
            claimed_view(claimed) == claim(old(self).pending(), state@),
            claimed is Ok <==> old(self).pending().contains_key(state@),
            final(self).pending().len() + one_if(claimed is Ok) == old(self).pending().len(),
            well_keyed(final(self).pending()),
    {
        match self.ongoing_authentifications.take(state) {
            None => Err(LoginError::UnknownOrExpiredState),
            Some(context) => if context.matches_state(state) {
                Ok(context)
            } else {
                Err(LoginError::CsrfMismatch)
            },
        }
    }

    /// Decides a claimed attempt from what the provider answered to the
    /// exchange of the authorization code.
    pub fn login_with_context(
        &self,
        context: AuthenticationContext,
        state: &str,
        exchange: Result<TokenGrant, String>,
    ) -> (result: Result<User, LoginError>)
        ensures
            confirmed_view(result) == confirmation(context@, state@, exchange_view(exchange)),
    {
        if !context.matches_state(state) {
            return Err(LoginError::CsrfMismatch);
        }
        let grant = match exchange {
            Err(detail) => {
                return Err(LoginError::TokenExchangeError(detail));
            },
            Ok(grant) => grant,
        };
        let token = match grant.id_token {
            None => {
                return Err(LoginError::TokenVerificationError);
            },
            Some(token) => token,
        };
        if !token.accepted_for(&context) {
            return Err(LoginError::TokenVerificationError);
        }
        let recomputed = token.recompute_hash(&grant.access_token);
        token.conclude(recomputed)
    }

    /// Forgets every attempt whose age at `now` is `ttl` or more, and says
    /// how many went.
    pub fn sweep(&mut self, now: u128, ttl: u128) -> (removed: usize)
        ensures
            final(self).pending() == swept(old(self).pending(), now, ttl),
            final(self).pending() == after(old(self).pending(), Event::Sweep(now, ttl)),
            removed == expired_keys(old(self).pending(), now, ttl).len(),
            final(self).pending().len() + removed == old(self).pending().len(),
            final(self).config() == old(self).config(),
            well_keyed(final(self).pending()),
    {
        self.ongoing_authentifications.sweep(now, ttl)
    }

    /// Forgets every attempt that has reached the age `age_threshold` on
    /// the broker's clock: a sweep with that age limit, at the time that
    /// the clock shows.
    pub fn clear_old_authentifications(&mut self, age_threshold: Duration)
        ensures
            exists|now: u128|
                final(self).pending() == #[trigger] swept(
                    old(self).pending(),
                    now,
                    span_nanos(age_threshold),
                ),
            final(self).config() == old(self).config(),
            well_keyed(final(self).pending()),
    {
        let now = self.now();
        let ttl = nanos_of(&age_threshold);
        self.ongoing_authentifications.sweep(now, ttl);
        assert(self.pending() == swept(old(self).pending(), now, span_nanos(age_threshold)));
    }

    /// The number of pending attempts.
    pub fn pending_count(&self) -> (n: usize)
        ensures
            n == self.pending().len(),
            well_keyed(self.pending()),
    {
        self.ongoing_authentifications.len()
    }
}

} // verus!
