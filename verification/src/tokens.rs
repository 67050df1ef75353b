//! What the provider answers to the exchange of an authorization code, and
//! what that answer is worth to the attempt that asked for it.

use vstd::prelude::*;
use openidconnect::{AccessToken, AccessTokenHash, Nonce};
use serde::de::value::StrDeserializer;
use serde::Deserialize;
use crate::context::{AuthenticationContext, ContextView};
use crate::error::{LoginError, LoginErrorView};

verus! {

/// What the OpenID Connect client reports of an ID token.
#[derive(Debug, Clone)]
pub struct IdTokenReport {
    /// The signature was checked against the provider's published keys, and
    /// issuer, audience and expiry were accepted.
    pub verified: bool,
    /// The nonce claim.
    pub nonce: Option<String>,
    /// The name of the signing algorithm in the token's header, such as
    /// `RS256`, where the token is signed.
    pub signing_alg: Option<String>,
    /// The access-token-hash claim.
    pub access_token_hash: Option<String>,
    /// The email claim.
    pub email: Option<String>,
}

/// The tokens that the provider granted for an authorization code.
#[derive(Debug, Clone)]
pub struct TokenGrant {
    pub access_token: String,
    pub id_token: Option<IdTokenReport>,
}

/// The identity that a confirmed login attempt yields.
#[derive(Debug, Clone, PartialEq, Eq)]
pub struct User {
    pub email: String,
}

/// The mathematical value of an [`IdTokenReport`].
pub struct IdTokenReportView {
    pub verified: bool,
    pub nonce: Option<Seq<char>>,
    pub signing_alg: Option<Seq<char>>,
    pub access_token_hash: Option<Seq<char>>,
    pub email: Option<Seq<char>>,
}

/// The mathematical value of a [`TokenGrant`].
pub struct TokenGrantView {
    pub access_token: Seq<char>,
    pub id_token: Option<IdTokenReportView>,
}

/// The text of an optional string.
pub open spec fn text_of(value: Option<String>) -> Option<Seq<char>> {
    match value {
        Some(text) => Some(text@),
        None => None,
    }
}

impl View for IdTokenReport {
    type V = IdTokenReportView;

    open spec fn view(&self) -> IdTokenReportView {
        IdTokenReportView {
            verified: self.verified,
            nonce: text_of(self.nonce),
            signing_alg: text_of(self.signing_alg),
            access_token_hash: text_of(self.access_token_hash),
            email: text_of(self.email),
        }
    }
}

impl View for TokenGrant {
    type V = TokenGrantView;

    open spec fn view(&self) -> TokenGrantView {
        TokenGrantView {
            access_token: self.access_token@,
            id_token: match self.id_token {
                Some(token) => Some(token@),
                None => None,
            },
        }
    }
}

/// The value of what came back from the exchange: the grant, or the text of
/// the failure.
pub open spec fn exchange_view(exchange: Result<TokenGrant, String>) -> Result<
    TokenGrantView,
    Seq<char>,
> {
    match exchange {
        Ok(grant) => Ok(grant@),
        Err(detail) => Err(detail@),
    }
}

/// The value of a confirmation's result: the user's email, or the failure.
pub open spec fn confirmed_view(result: Result<User, LoginError>) -> Result<
    Seq<char>,
    LoginErrorView,
> {
    match result {
        Ok(user) => Ok(user.email@),
        Err(error) => Err(error@),
    }
}

/// The hash that the OpenID Connect client library computes of an access
/// token for an ID token signed with the algorithm named `alg`, as it
/// stands in the token's access-token-hash claim; `None` where the library
/// knows no algorithm of that name, or the algorithm has no hash.
pub uninterp spec fn access_token_hash(access_token: Seq<char>, alg: Seq<char>) -> Option<
    Seq<char>,
>;

/// The signing algorithms that the client library knows.
type ClientAlg = openidconnect::core::CoreJwsSigningAlgorithm;

/// `AccessTokenHash::from_token`, with the algorithm that the client
/// library reads from the name `alg`, and the hash as text.
#[verifier::external_body]
fn hash_access_token(access_token: &String, alg: &String) -> (hash: Option<String>)
    ensures
        text_of(hash) == access_token_hash(access_token@, alg@),
{
    let name = StrDeserializer::<serde::de::value::Error>::new(alg.as_str());
    let alg = ClientAlg::deserialize(name).ok()?;
    let token = AccessToken::new(access_token.clone());
    AccessTokenHash::from_token(&token, &alg).ok().map(|hash| hash.to_string())
}

/// The `==` of `Nonce`, which compares the two texts in constant time.
#[verifier::external_body]
fn same_nonce(expected: &String, claimed: &String) -> (same: bool)
    ensures
        same == (expected@ == claimed@),
{
    Nonce::new(expected.clone()) == Nonce::new(claimed.clone())
}

/// The email to record where the ID token names none.
pub open spec fn email_or_placeholder(email: Option<Seq<char>>) -> Seq<char> {
    match email {
        Some(address) => address,
        None => "<not provided>"@,
    }
}

/// Whether the ID token belongs to the attempt: it was verified and carries
/// the attempt's nonce.
pub open spec fn token_accepted(context: ContextView, token: IdTokenReportView) -> bool {
    token.verified && token.nonce == Some(context.nonce)
}

/// The hash of the granted access token under the ID token's signing
/// algorithm; `None` where the token names no algorithm, or one that is
/// unknown or has no hash.
pub open spec fn recomputed_hash(access_token: Seq<char>, token: IdTokenReportView) -> Option<
    Seq<char>,
> {
    match token.signing_alg {
        Some(alg) => access_token_hash(access_token, alg),
        None => None,
    }
}

/// What an accepted ID token yields, given the hash recomputed of the
/// access token: without an access-token-hash claim the user; with one, the
/// user if the recomputed hash equals it, `AccessTokenSubstitution` if it
/// differs, and `TokenVerificationError` if none could be computed.
pub open spec fn conclusion(token: IdTokenReportView, recomputed: Option<Seq<char>>) -> Result<
    Seq<char>,
    LoginErrorView,
> {
    match token.access_token_hash {
        None => Ok(email_or_placeholder(token.email)),
        Some(expected) => match recomputed {
            None => Err(LoginErrorView::TokenVerificationError),
            Some(actual) => if actual == expected {
                Ok(email_or_placeholder(token.email))
            } else {
                Err(LoginErrorView::AccessTokenSubstitution)
            },
        },
    }
}

/// What the confirmation of an attempt yields, check by check in this
/// order: the state, the exchange, the ID token, the access token's hash.
pub open spec fn confirmation(
    context: ContextView,
    state: Seq<char>,
    exchange: Result<TokenGrantView, Seq<char>>,
) -> Result<Seq<char>, LoginErrorView> {
    if context.csrf_token != state {
        Err(LoginErrorView::CsrfMismatch)
    } else {
        match exchange {
            Err(detail) => Err(LoginErrorView::TokenExchangeError(detail)),
            Ok(grant) => match grant.id_token {
                None => Err(LoginErrorView::TokenVerificationError),
                Some(token) => if token_accepted(context, token) {
                    conclusion(token, recomputed_hash(grant.access_token, token))
                } else {
                    Err(LoginErrorView::TokenVerificationError)
                },
            },
        }
    }
}

impl IdTokenReport {
    /// Whether the token was verified and carries the nonce of `context`.
    pub fn accepted_for(&self, context: &AuthenticationContext) -> (accepted: bool)
        ensures
            accepted == token_accepted(context@, self@),
    {
        if !self.verified {
            return false;
        }
        match &self.nonce {
            Some(claimed) => same_nonce(context.nonce(), claimed),
            None => false,
        }
    }

    /// Recomputes the hash of `access_token` where the token carries an
    /// access-token-hash claim to compare it with.
    pub fn recompute_hash(&self, access_token: &String) -> (recomputed: Option<String>)
        ensures
            self@.access_token_hash is Some ==> text_of(recomputed) == recomputed_hash(
                access_token@,
                self@,
            ),
            self@.access_token_hash is None ==> recomputed is None,
    {
        if self.access_token_hash.is_none() {
            return None;
        }
        match &self.signing_alg {
            Some(alg) => hash_access_token(access_token, alg),
            None => None,
        }
    }

    /// Decides an accepted token, given the hash recomputed of the access
    /// token that came with it.
    pub fn conclude(&self, recomputed: Option<String>) -> (result: Result<User, LoginError>)
        ensures
            confirmed_view(result) == conclusion(self@, text_of(recomputed)),
    {
        match &self.access_token_hash {
            None => Ok(User { email: self.email_or_placeholder() }),
            Some(expected) => match recomputed {
                None => Err(LoginError::TokenVerificationError),
                Some(actual) => if actual == *expected {
                    Ok(User { email: self.email_or_placeholder() })
                } else {
                    Err(LoginError::AccessTokenSubstitution)
                },
            },
        }
    }

    /// The email claim, or the placeholder where the token has none.
    pub fn email_or_placeholder(&self) -> (email: String)
        ensures
            email@ == email_or_placeholder(self@.email),
    {
        match &self.email {
            Some(address) => address.clone(),
            None => "<not provided>".to_owned(),
        }
    }
}

} // verus!
