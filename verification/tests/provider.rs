use lostpaw::provider::ClientConfig;
use openidconnect::url::Url;

const VERIFIER: &str = "aaaaaaaaaaaaaaaaaaaaaaaaaaaaaaaaaaaaaaaaaaa";
const CHALLENGE: &str = "ZtNPunH49FD35FWYhT5Tv8I7vRKQJ8uxMaL0_9eHjNA";

fn config() -> ClientConfig {
    ClientConfig::new(
        "https://accounts.example.com".to_string(),
        "client-1".to_string(),
        "secret-1".to_string(),
        "http://127.0.0.1:5173/login/confirm".to_string(),
        "https://accounts.example.com/o/oauth2/v2/auth".to_string(),
    )
    .expect("the URLs parse")
}

fn query(url: &str) -> Vec<(String, String)> {
    Url::parse(url)
        .expect("the authorization URL parses")
        .query_pairs()
        .map(|(name, value)| (name.into_owned(), value.into_owned()))
        .collect()
}

fn pair(name: &str, value: &str) -> (String, String) {
    (name.to_string(), value.to_string())
}

#[test]
fn config_keeps_what_it_was_given() {
    let config = config();
    assert_eq!(config.issuer(), "https://accounts.example.com");
    assert_eq!(config.client_id(), "client-1");
    assert_eq!(config.client_secret(), "secret-1");
    assert_eq!(config.redirect_uri(), "http://127.0.0.1:5173/login/confirm");
    assert_eq!(config.authorization_endpoint(), "https://accounts.example.com/o/oauth2/v2/auth");
}

#[test]
fn config_refuses_what_is_no_url() {
    let good = "https://accounts.example.com";
    let make = |issuer: &str, redirect: &str, endpoint: &str| {
        ClientConfig::new(
            issuer.to_string(),
            "client-1".to_string(),
            "secret-1".to_string(),
            redirect.to_string(),
            endpoint.to_string(),
        )
    };
    assert!(make(good, good, good).is_some());
    assert!(make("not a url", good, good).is_none());
    assert!(make(good, "/login/confirm", good).is_none());
    assert!(make(good, good, "").is_none());
    assert!(make("", "", "").is_none());
}

#[test]
fn login_url_is_the_endpoint_with_the_request() {
    let url = config().login_url(&"S1".to_string(), &"N1".to_string(), &VERIFIER.to_string());
    assert_eq!(
        url,
        "https://accounts.example.com/o/oauth2/v2/auth?response_type=code&client_id=client-1\
         &state=S1&code_challenge=ZtNPunH49FD35FWYhT5Tv8I7vRKQJ8uxMaL0_9eHjNA\
         &code_challenge_method=S256\
         &redirect_uri=http%3A%2F%2F127.0.0.1%3A5173%2Flogin%2Fconfirm\
         &scope=openid+email+profile&nonce=N1"
    );
}

#[test]
fn login_url_carries_every_parameter_once() {
    let url = config().login_url(&"S1".to_string(), &"N1".to_string(), &VERIFIER.to_string());
    let mut found = query(&url);
    found.sort();
    let mut wanted = vec![
        pair("client_id", "client-1"),
        pair("code_challenge", CHALLENGE),
        pair("code_challenge_method", "S256"),
        pair("nonce", "N1"),
        pair("redirect_uri", "http://127.0.0.1:5173/login/confirm"),
        pair("response_type", "code"),
        pair("scope", "openid email profile"),
        pair("state", "S1"),
    ];
    wanted.sort();
    assert_eq!(found, wanted);
}

#[test]
fn login_url_never_carries_the_verifier_or_the_secret() {
    let url = config().login_url(&"S1".to_string(), &"N1".to_string(), &VERIFIER.to_string());
    assert!(!url.contains(VERIFIER));
    assert!(!url.contains("secret-1"));
}

#[test]
fn login_url_escapes_state_and_nonce() {
    let url = config().login_url(&"a b&c=d".to_string(), &"x/y?z".to_string(), &VERIFIER.to_string());
    let found = query(&url);
    assert!(found.contains(&pair("state", "a b&c=d")));
    assert!(found.contains(&pair("nonce", "x/y?z")));
    assert_eq!(found.len(), 8);
}

#[test]
fn login_url_takes_the_longest_verifier() {
    let longest = "b".repeat(128);
    let url = config().login_url(&"S1".to_string(), &"N1".to_string(), &longest);
    let found = query(&url);
    assert!(found.contains(&pair("code_challenge_method", "S256")));
    assert!(!found.contains(&pair("code_challenge", CHALLENGE)));
}
