use lostpaw::context::AuthenticationContext;
use lostpaw::error::LoginError;
use lostpaw::login::UserAuthenticator;
use lostpaw::provider::ClientConfig;
use lostpaw::tokens::{IdTokenReport, TokenGrant, User};
use rayon::iter::{IntoParallelIterator, ParallelIterator};
use std::sync::Mutex;

fn confirm(broker: &Mutex<UserAuthenticator>, state: &str) -> Result<User, LoginError> {
    let claimed = broker.lock().expect("no holder of the lock panics").login(state);
    let context = claimed?;
    let grant = TokenGrant {
        access_token: "access".to_string(),
        id_token: Some(IdTokenReport {
            verified: true,
            nonce: Some(context.nonce().clone()),
            signing_alg: None,
            access_token_hash: None,
            email: Some("a@b.com".to_string()),
        }),
    };
    broker.lock().expect("no holder of the lock panics").login_with_context(context, state, Ok(grant))
}

#[test]
fn of_many_confirmations_at_once_one_succeeds() {
    for callers in [2usize, 3, 8, 32] {
        let config = ClientConfig::new(
            "https://accounts.example.com".to_string(),
            "client".to_string(),
            "secret".to_string(),
            "http://127.0.0.1:5173/login/confirm".to_string(),
            "https://accounts.example.com/o/oauth2/v2/auth".to_string(),
        )
        .expect("the URLs parse");
        let mut broker = UserAuthenticator::new(config);
        broker.init_login_with(AuthenticationContext::new(
            "verifier".to_string(),
            "S1".to_string(),
            "N1".to_string(),
            "https://accounts.example.com/o/oauth2/v2/auth?state=S1".to_string(),
            0,
        ));
        let broker = Mutex::new(broker);
        let results: Vec<_> =
            (0..callers).into_par_iter().map(|_| confirm(&broker, "S1")).collect();
        let won = results.iter().filter(|r| **r == Ok(User { email: "a@b.com".to_string() })).count();
        let lost = results.iter().filter(|r| **r == Err(LoginError::UnknownOrExpiredState)).count();
        assert_eq!(won, 1);
        assert_eq!(lost, callers - 1);
        assert_eq!(broker.lock().expect("no caller panicked").pending_count(), 0);
    }
}
