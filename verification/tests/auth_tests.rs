use card_router::auth::controller::{login, logout};
use card_router::auth::entity::{Auth0Config, Claims, ClaimsEvent, ClaimsStage, ClaimsStep, ClaimsFailure, claims_failure, claims_step, select_key, token_read, KeySetEntry, RsaComponents};
use card_router::auth::error::AuthError;
use card_router::auth::jwt::{jwt_claims, jwt_from_header};

fn claims(permissions: Option<Vec<&str>>) -> Claims {
    Claims {
        permissions: permissions.map(|p| p.into_iter().map(|s| s.to_string()).collect()),
        sub: None,
        role: None,
        exp: None,
        scope: None,
    }
}

fn strings(v: &[&str]) -> Vec<String> {
    v.iter().map(|s| s.to_string()).collect()
}

#[test]
fn permissions_must_all_be_held() {
    let c = claims(Some(vec!["read:cards", "write:cards"]));
    assert!(c.validate_permissions(&strings(&["read:cards"])));
    assert!(c.validate_permissions(&strings(&["write:cards", "read:cards"])));
    assert!(c.validate_permissions(&strings(&[])));
    assert!(!c.validate_permissions(&strings(&["read:cards", "admin"])));
    assert!(!claims(None).validate_permissions(&strings(&[])));
    assert!(!claims(Some(vec![])).validate_permissions(&strings(&["read:cards"])));
}

#[test]
fn fewer_permissions_are_granted_too() {
    let c = claims(Some(vec!["a", "b", "c"]));
    let required = strings(&["a", "c"]);
    assert!(c.validate_permissions(&required));
    assert!(c.validate_permissions(&strings(&["c"])));
}

#[test]
fn bearer_token_is_read_from_the_header() {
    assert_eq!("abc.def", jwt_from_header(Some(b"Bearer abc.def")).unwrap());
    assert_eq!("abc", jwt_from_header(Some(b"Bearer Bearer abc")).unwrap());
    assert_eq!("", jwt_from_header(Some(b"Bearer ")).unwrap());
    let e = jwt_from_header(None).unwrap_err();
    assert_eq!(401, e.status_code);
    assert_eq!("No auth header", e.message);
    let e = jwt_from_header(Some(&[0xff, 0xfe])).unwrap_err();
    assert_eq!(401, e.status_code);
    assert_eq!("No auth header", e.message);
    let e = jwt_from_header(Some(b"Basic abc")).unwrap_err();
    assert_eq!(401, e.status_code);
    assert_eq!("Invalid auth header", e.message);
    let e = jwt_from_header(Some(b"bearer abc")).unwrap_err();
    assert_eq!("Invalid auth header", e.message);
}

#[test]
fn issued_tokens_expire_a_minute_later() {
    let c = jwt_claims("user-1", "User", 1_700_000_000);
    assert_eq!(Some("user-1".to_string()), c.sub);
    assert_eq!(Some("User".to_string()), c.role);
    assert_eq!(Some(1_700_000_060usize), c.exp);
    assert!(c.permissions.is_none());
    assert!(c.scope.is_none());
}

#[test]
fn login_answers() {
    let e = login(false, None).unwrap_err();
    assert_eq!((401, "Invalid user".to_string()), (e.status_code, e.message));
    let e = login(false, Some("t".to_string())).unwrap_err();
    assert_eq!("Invalid user", e.message);
    let e = login(true, None).unwrap_err();
    assert_eq!((401, "Invalid credentials".to_string()), (e.status_code, e.message));
    assert_eq!("t", login(true, Some("t".to_string())).unwrap().token);
    let e = logout().unwrap_err();
    assert_eq!((500, "Not implemented".to_string()), (e.status_code, e.message));
}

fn unauthorized(step: ClaimsStep) -> String {
    match step {
        ClaimsStep::Done(Err(AuthError::Unauthorized(m))) => m,
        other => panic!("unexpected {:?}", other),
    }
}

fn rsa_key(kid: &str, n: &str) -> KeySetEntry {
    KeySetEntry { key_id: Some(kid.to_string()), rsa: Some(RsaComponents { n: n.to_string(), e: "AQAB".to_string() }) }
}

fn other_key(kid: &str) -> KeySetEntry {
    KeySetEntry { key_id: Some(kid.to_string()), rsa: None }
}

fn unnamed_key() -> KeySetEntry {
    KeySetEntry { key_id: None, rsa: Some(RsaComponents { n: "n".to_string(), e: "AQAB".to_string() }) }
}

#[test]
fn key_id_selects_the_first_key_naming_it() {
    let keys = vec![unnamed_key(), rsa_key("a", "n1"), rsa_key("b", "n2"), rsa_key("b", "n3")];
    assert_eq!(Some(2), select_key(&keys, "b"));
    assert_eq!(Some(1), select_key(&keys, "a"));
    assert_eq!(None, select_key(&keys, "c"));
    assert_eq!(None, select_key(&vec![], "a"));
}

const TOKEN_WITH_KID: &str = "eyJhbGciOiJSUzI1NiIsImtpZCI6ImtpZC0xIn0.e30.c2ln";
const TOKEN_WITHOUT_KID: &str = "eyJhbGciOiJSUzI1NiJ9.e30.c2ln";

#[test]
fn reading_claims_walks_the_stages() {
    let config = Auth0Config::new("api://cards".to_string(), "example.auth0.com".to_string());
    assert_eq!("Config not found", unauthorized(claims_step(ClaimsStage::Start, ClaimsEvent::Config(None))));
    let stage = match claims_step(ClaimsStage::Start, ClaimsEvent::Config(Some(config.clone()))) {
        ClaimsStep::Next(s) => s,
        other => panic!("unexpected {:?}", other),
    };
    assert_eq!("Can't get credentials", unauthorized(claims_step(stage.clone(), ClaimsEvent::Token(None))));
    assert_eq!("Can't decode", unauthorized(claims_step(stage.clone(), ClaimsEvent::Token(Some("tok".to_string())))));
    assert_eq!("Can't get KID", unauthorized(claims_step(stage.clone(), ClaimsEvent::Token(Some(TOKEN_WITHOUT_KID.to_string())))));
    let bad_domain = ClaimsStage::NeedToken(Auth0Config::new("aud".to_string(), "bad domain".to_string()));
    assert_eq!("Can't get well known", unauthorized(claims_step(bad_domain, ClaimsEvent::Token(Some(TOKEN_WITH_KID.to_string())))));
    let stage = match claims_step(stage, ClaimsEvent::Token(Some(TOKEN_WITH_KID.to_string()))) {
        ClaimsStep::Next(ClaimsStage::NeedKeySet { config, token, kid, url }) => {
            assert_eq!("https://example.auth0.com/.well-known/jwks.json", url);
            assert_eq!(TOKEN_WITH_KID, token);
            assert_eq!("kid-1", kid);
            ClaimsStage::NeedKeySet { config, token, kid, url }
        },
        other => panic!("unexpected {:?}", other),
    };
    let fetch = |f, keys| claims_step(stage.clone(), ClaimsEvent::KeySet { fetched: f, keys });
    assert_eq!("JWKS Not found", unauthorized(fetch(false, Some(vec![rsa_key("kid-1", "n1")]))));
    assert_eq!("Can't deserialize JWKS", unauthorized(fetch(true, None)));
    assert_eq!("Can't find JWK", unauthorized(fetch(true, Some(vec![rsa_key("other", "n0"), unnamed_key()]))));
    assert_eq!("Can't decode", unauthorized(fetch(true, Some(vec![other_key("kid-1"), rsa_key("kid-1", "n2")]))));
    let stage = match fetch(true, Some(vec![rsa_key("other", "n0"), rsa_key("kid-1", "n1"), rsa_key("kid-1", "n2")])) {
        ClaimsStep::Next(ClaimsStage::NeedClaims { validation, token, key }) => {
            assert_eq!("RS256", validation.algorithm);
            assert_eq!("api://cards", validation.audience);
            assert_eq!("https://example.auth0.com/", validation.issuer);
            assert_eq!(TOKEN_WITH_KID, token);
            assert_eq!(("n1", "AQAB"), (key.n.as_str(), key.e.as_str()));
            ClaimsStage::NeedClaims { validation, token, key }
        },
        other => panic!("unexpected {:?}", other),
    };
    assert_eq!("Can't get decoding key", unauthorized(claims_step(stage.clone(), ClaimsEvent::Decoded { key_made: false, claims: None })));
    assert_eq!("Can't get claims", unauthorized(claims_step(stage.clone(), ClaimsEvent::Decoded { key_made: true, claims: None })));
    match claims_step(stage, ClaimsEvent::Decoded { key_made: true, claims: Some(claims(Some(vec!["x"]))) }) {
        ClaimsStep::Done(Ok(c)) => assert_eq!(Some(vec!["x".to_string()]), c.permissions),
        other => panic!("unexpected {:?}", other),
    }
    assert!(matches!(claims_step(ClaimsStage::Start, ClaimsEvent::Token(None)), ClaimsStep::OutOfOrder));
}

#[test]
fn token_read_follows_the_header() {
    let config = Auth0Config::new("aud".to_string(), "tenant.example".to_string());
    assert_eq!("Can't decode", unauthorized(token_read(config.clone(), "t".to_string(), None, true)));
    assert_eq!("Can't get KID", unauthorized(token_read(config.clone(), "t".to_string(), Some(None), true)));
    assert_eq!("Can't get well known", unauthorized(token_read(config.clone(), "t".to_string(), Some(Some("k".to_string())), false)));
    assert!(matches!(
        token_read(config, "t".to_string(), Some(Some("k".to_string())), true),
        ClaimsStep::Next(ClaimsStage::NeedKeySet { ref kid, ref url, .. }) if kid == "k" && url == "https://tenant.example/.well-known/jwks.json"
    ));
}

#[test]
fn every_claims_failure_is_unauthorized() {
    assert!(matches!(claims_failure(ClaimsFailure::NoKeyId), AuthError::Unauthorized(m) if m == "Can't get KID"));
    assert_eq!(401, claims_failure(ClaimsFailure::ClaimsNotDecoded).status_code());
}

#[test]
fn key_set_address_follows_the_domain() {
    let config = Auth0Config::new("aud".to_string(), "tenant.example".to_string());
    assert_eq!("https://tenant.example/.well-known/jwks.json", config.jwks_url());
    assert_eq!("tenant.example", config.domain());
}
