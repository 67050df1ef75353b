//! Login broker for the Authorization Code flow with PKCE against an OpenID
//! Connect identity provider.
//!
//! The broker keeps one [`AuthenticationContext`] per login attempt that has
//! been started and not yet finished, hands each one out at most once, and
//! decides from the provider's answer whether the attempt yields a [`User`].
//!
//! A login takes three steps. [`UserAuthenticator::init_login`] starts the
//! attempt and returns the URL to send the user to. When the provider sends
//! the user back with a state and a code, [`UserAuthenticator::login`]
//! claims the attempt under that state; the caller exchanges the code with
//! the attempt's PKCE verifier, which is the one step that takes the
//! network. [`UserAuthenticator::login_with_context`] then decides the
//! attempt from what the provider answered. The broker is never borrowed
//! across the exchange, and a state is good for one claim, whatever becomes
//! of it afterwards.
//!
//! `laws` states what holds over any history of these operations.

pub mod clock;
pub mod context;
pub mod error;
pub mod laws;
pub mod login;
pub mod provider;
pub mod records;
pub mod store;
pub mod tokens;

pub use context::AuthenticationContext;
pub use error::LoginError;
pub use login::UserAuthenticator;
pub use provider::ClientConfig;
pub use records::{PetAttribute, PetPhoto};
pub use store::PendingAuthenticationStore;
pub use tokens::{IdTokenReport, TokenGrant, User};
