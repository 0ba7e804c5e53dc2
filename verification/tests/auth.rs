use hive_gateway::auth::{
    key_refresh, read_bearer_token, select_key, verification_rules, Claims, KeyRefresh, SigningAlgorithm, TokenError,
    KEY_REFRESH_SECONDS,
};

const RS256_HEADER: &str = "eyJhbGciOiJSUzI1NiIsImtpZCI6ImsxIiwidHlwIjoiSldUIn0";
const ES256_NO_KID: &str = "eyJhbGciOiJFUzI1NiIsInR5cCI6IkpXVCJ9";

fn bearer(token: &str) -> Option<Vec<u8>> {
    Some(format!("Bearer {}", token).into_bytes())
}

#[test]
fn bearer_token_header_is_decoded() {
    let token = format!("{}.e30.c2ln", RS256_HEADER);
    let read = read_bearer_token(bearer(&token)).unwrap();
    assert_eq!(read.token, token);
    assert_eq!(read.algorithm, SigningAlgorithm::RS256);
    assert_eq!(read.key_id, "k1");
}

#[test]
fn missing_authorization_header() {
    assert_eq!(read_bearer_token(None).err(), Some(TokenError::MissingHeader));
}

#[test]
fn authorization_header_must_be_text() {
    assert_eq!(read_bearer_token(Some(b"Bearer \xe2\x82\xac".to_vec())).err(), Some(TokenError::HeaderNotText));
}

#[test]
fn authorization_must_use_bearer_scheme() {
    assert_eq!(read_bearer_token(Some(b"Basic abc".to_vec())).err(), Some(TokenError::NotBearer));
    assert_eq!(read_bearer_token(Some(b"bearer abc".to_vec())).err(), Some(TokenError::NotBearer));
    assert_eq!(read_bearer_token(Some(b"Bearer".to_vec())).err(), Some(TokenError::NotBearer));
}

#[test]
fn malformed_tokens_are_refused() {
    assert_eq!(read_bearer_token(bearer("abc")).err(), Some(TokenError::MalformedToken));
    assert_eq!(read_bearer_token(bearer(&format!("{}.e30", RS256_HEADER))).err(), Some(TokenError::MalformedToken));
    assert_eq!(read_bearer_token(bearer("!!.e30.c2ln")).err(), Some(TokenError::MalformedToken));
}

#[test]
fn token_without_key_id_is_refused() {
    let token = format!("{}.e30.c2ln", ES256_NO_KID);
    assert_eq!(read_bearer_token(bearer(&token)).err(), Some(TokenError::MissingKeyId));
}

#[test]
fn first_key_with_the_id_is_chosen() {
    let ids = vec![None, Some("k0".to_string()), Some("k1".to_string()), Some("k1".to_string())];
    assert_eq!(select_key(&ids, &"k1".to_string()), Ok(2));
    assert_eq!(select_key(&ids, &"k0".to_string()), Ok(1));
    assert_eq!(select_key(&ids, &"k9".to_string()), Err(TokenError::UnknownKey));
    assert_eq!(select_key(&Vec::new(), &"k1".to_string()), Err(TokenError::UnknownKey));
}

#[test]
fn tokens_are_checked_for_the_proxy_audience() {
    let token = format!("{}.e30.c2ln", RS256_HEADER);
    let read = read_bearer_token(bearer(&token)).unwrap();
    let rules = verification_rules(&read);
    assert_eq!(rules.algorithm, SigningAlgorithm::RS256);
    assert_eq!(rules.audiences, vec!["proxy".to_string()]);
}

#[test]
fn claims_hold_subject_expiry_and_email() {
    let claims = Claims { sub: "user-1".to_string(), exp: 1_900_000_000, email: Some("a@b.c".to_string()) };
    assert_eq!(claims.sub, "user-1");
    assert_eq!(claims.exp, 1_900_000_000);
    assert_eq!(claims.email.as_deref(), Some("a@b.c"));
}

#[test]
fn a_fetched_key_set_replaces_the_cache() {
    assert!(matches!(key_refresh::<Vec<u8>, String>(Ok(vec![1, 2])), KeyRefresh::Replace(v) if v == vec![1, 2]));
    assert!(matches!(key_refresh::<Vec<u8>, String>(Err("down".to_string())), KeyRefresh::Keep(e) if e == "down"));
    assert_eq!(KEY_REFRESH_SECONDS, 300);
}
