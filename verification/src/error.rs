//! The ways in which the confirmation of a login attempt fails.

use vstd::prelude::*;

verus! {

/// Why a login attempt was not confirmed. In every case the attempt is
/// over: a new one has to be started.
#[derive(Debug, Clone, PartialEq, Eq)]
pub enum LoginError {
    /// No attempt is pending under the state given: it was never issued,
    /// has been confirmed already, or was swept.
    UnknownOrExpiredState,
    /// The attempt found does not carry the state given.
    CsrfMismatch,
    /// The provider did not exchange the code; the text is its answer or
    /// the transport's error.
    TokenExchangeError(String),
    /// The ID token is missing, was not verified, or carries another nonce.
    TokenVerificationError,
    /// The access token is not the one that the ID token was issued with.
    AccessTokenSubstitution,
}

/// The mathematical value of a [`LoginError`].
pub enum LoginErrorView {
    UnknownOrExpiredState,
    CsrfMismatch,
    TokenExchangeError(Seq<char>),
    TokenVerificationError,
    AccessTokenSubstitution,
}

impl View for LoginError {
    type V = LoginErrorView;

    open spec fn view(&self) -> LoginErrorView {
        match *self {
            LoginError::UnknownOrExpiredState => LoginErrorView::UnknownOrExpiredState,
            LoginError::CsrfMismatch => LoginErrorView::CsrfMismatch,
            LoginError::TokenExchangeError(detail) => LoginErrorView::TokenExchangeError(detail@),
            LoginError::TokenVerificationError => LoginErrorView::TokenVerificationError,
            LoginError::AccessTokenSubstitution => LoginErrorView::AccessTokenSubstitution,
        }
    }
}

} // verus!
