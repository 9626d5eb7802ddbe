use todo_api::error::AuthError;
use todo_api::login::issue_token;
use todo_api::models::Claims;
use todo_api::token::{claims_from_decoded, extract_bearer, validate};

const SECRET: &str = "a-secret-of-the-service";

fn claims(sub: &str, exp: usize) -> Claims {
    Claims { sub: sub.to_string(), exp }
}

fn bearer(token: &str) -> String {
    format!("Bearer {}", token)
}

fn signed(payload: serde_json::Value, secret: &str) -> String {
    jsonwebtoken::encode(
        &jsonwebtoken::Header::default(),
        &payload,
        &jsonwebtoken::EncodingKey::from_secret(secret.as_bytes()),
    )
    .unwrap()
}

fn object(entries: Vec<(&str, serde_json::Value)>) -> serde_json::Value {
    let mut map = serde_json::Map::new();
    for (key, value) in entries {
        map.insert(key.to_string(), value);
    }
    serde_json::Value::Object(map)
}

#[test]
fn missing_header_is_missing_auth() {
    assert_eq!(validate(None, SECRET), Err(AuthError::MissingAuth));
}

#[test]
fn header_without_bearer_prefix_is_invalid_format() {
    let token = issue_token(&claims("someone", 4102444800), SECRET).unwrap();
    for header in [
        "",
        "Bearer",
        "bearer abc",
        "BEARER abc",
        "Basic dXNlcjpwYXNz",
        " Bearer abc",
        "Bearerabc",
        token.as_str(),
    ] {
        assert_eq!(validate(Some(header), SECRET), Err(AuthError::InvalidFormat), "{:?}", header);
    }
}

#[test]
fn valid_token_yields_its_claims() {
    let issued = claims("550e8400-e29b-41d4-a716-446655440000", 4102444800);
    let token = issue_token(&issued, SECRET).unwrap();
    assert_eq!(validate(Some(&bearer(&token)), SECRET), Ok(issued));
}

#[test]
fn expired_token_is_still_accepted() {
    let long_ago = claims("550e8400-e29b-41d4-a716-446655440000", 1);
    let token = issue_token(&long_ago, SECRET).unwrap();
    assert_eq!(validate(Some(&bearer(&token)), SECRET), Ok(long_ago));

    let yesterday = claims("someone", 1_700_000_000);
    let token = issue_token(&yesterday, SECRET).unwrap();
    assert_eq!(validate(Some(&bearer(&token)), SECRET), Ok(yesterday));
}

#[test]
fn token_in_field_order_of_a_struct_is_accepted() {
    let token = signed(
        object(vec![
            ("sub", serde_json::Value::from("someone")),
            ("exp", serde_json::Value::from(1_u64)),
            ("role", serde_json::Value::from("admin")),
        ]),
        SECRET,
    );
    assert_eq!(validate(Some(&bearer(&token)), SECRET), Ok(claims("someone", 1)));
}

#[test]
fn token_signed_with_another_secret_is_unauthorized() {
    let token = issue_token(&claims("someone", 4102444800), "another secret").unwrap();
    assert_eq!(
        validate(Some(&bearer(&token)), SECRET),
        Err(AuthError::Unauthorized("Invalid token: InvalidSignature".to_string()))
    );
}

#[test]
fn tampered_token_is_unauthorized() {
    let token = issue_token(&claims("someone", 4102444800), SECRET).unwrap();
    let other = issue_token(&claims("someone else", 4102444800), SECRET).unwrap();
    let parts: Vec<&str> = token.split('.').collect();
    let other_parts: Vec<&str> = other.split('.').collect();
    let forged = format!("{}.{}.{}", parts[0], other_parts[1], parts[2]);
    assert_eq!(
        validate(Some(&bearer(&forged)), SECRET),
        Err(AuthError::Unauthorized("Invalid token: InvalidSignature".to_string()))
    );
}

#[test]
fn malformed_token_is_unauthorized() {
    for token in ["", "abc", "a.b", "a.b.c.d"] {
        match validate(Some(&bearer(token)), SECRET) {
            Err(AuthError::Unauthorized(message)) => {
                assert!(message.starts_with("Invalid token: "), "{:?}", message);
            }
            other => panic!("{:?} gave {:?}", token, other),
        }
    }
    assert_eq!(
        validate(Some("Bearer abc"), SECRET),
        Err(AuthError::Unauthorized("Invalid token: InvalidToken".to_string()))
    );
}

#[test]
fn diagnostic_does_not_hold_the_secret() {
    let secret = "Zx9-very-private-key-material-17";
    let token = issue_token(&claims("someone", 4102444800), "another secret").unwrap();
    for header in [bearer(&token), bearer("abc"), bearer("a.b.c")] {
        match validate(Some(&header), secret) {
            Err(AuthError::Unauthorized(message)) => assert!(!message.contains(secret)),
            other => panic!("{:?}", other),
        }
    }
}

#[test]
fn token_without_subject_is_unauthorized() {
    let token = signed(object(vec![("exp", serde_json::Value::from(4102444800_u64))]), SECRET);
    assert_eq!(
        validate(Some(&bearer(&token)), SECRET),
        Err(AuthError::Unauthorized("Invalid token: no usable subject".to_string()))
    );
    let token = signed(
        object(vec![
            ("sub", serde_json::Value::from(17_u64)),
            ("exp", serde_json::Value::from(4102444800_u64)),
        ]),
        SECRET,
    );
    assert!(matches!(validate(Some(&bearer(&token)), SECRET), Err(AuthError::Unauthorized(_))));
}

#[test]
fn token_without_expiration_is_unauthorized() {
    let token = signed(object(vec![("sub", serde_json::Value::from("someone"))]), SECRET);
    assert_eq!(
        validate(Some(&bearer(&token)), SECRET),
        Err(AuthError::Unauthorized("Invalid token: Missing required claim: exp".to_string()))
    );
}

#[test]
fn token_with_an_audience_is_unauthorized() {
    let token = signed(
        object(vec![
            ("sub", serde_json::Value::from("someone")),
            ("exp", serde_json::Value::from(4102444800_u64)),
            ("aud", serde_json::Value::from("somebody")),
        ]),
        SECRET,
    );
    assert_eq!(
        validate(Some(&bearer(&token)), SECRET),
        Err(AuthError::Unauthorized("Invalid token: InvalidAudience".to_string()))
    );
}

#[test]
fn token_of_another_algorithm_is_unauthorized() {
    let token = jsonwebtoken::encode(
        &jsonwebtoken::Header::new(jsonwebtoken::Algorithm::HS512),
        &object(vec![
            ("sub", serde_json::Value::from("someone")),
            ("exp", serde_json::Value::from(4102444800_u64)),
        ]),
        &jsonwebtoken::EncodingKey::from_secret(SECRET.as_bytes()),
    )
    .unwrap();
    assert_eq!(
        validate(Some(&bearer(&token)), SECRET),
        Err(AuthError::Unauthorized("Invalid token: InvalidAlgorithm".to_string()))
    );
}

#[test]
fn bearer_extraction() {
    assert_eq!(extract_bearer("Bearer abc.def.ghi"), Some("abc.def.ghi".to_string()));
    assert_eq!(extract_bearer("Bearer "), Some(String::new()));
    assert_eq!(extract_bearer("Bearer  two spaces"), Some(" two spaces".to_string()));
    assert_eq!(extract_bearer("Bearer ünï"), Some("ünï".to_string()));
    assert_eq!(extract_bearer("Bearer"), None);
    assert_eq!(extract_bearer("bearer abc"), None);
    assert_eq!(extract_bearer(""), None);
}

#[test]
fn claims_from_each_decoding_outcome() {
    assert_eq!(
        claims_from_decoded(Ok((Some("someone".to_string()), Some(7)))),
        Ok(claims("someone", 7))
    );
    assert_eq!(
        claims_from_decoded(Ok((Some("someone".to_string()), Some(0)))),
        Ok(claims("someone", 0))
    );
    assert_eq!(
        claims_from_decoded(Ok((Some("someone".to_string()), None))),
        Err(AuthError::Unauthorized("Invalid token: no usable expiration time".to_string()))
    );
    assert_eq!(
        claims_from_decoded(Ok((None, Some(7)))),
        Err(AuthError::Unauthorized("Invalid token: no usable subject".to_string()))
    );
    assert_eq!(
        claims_from_decoded(Ok((None, None))),
        Err(AuthError::Unauthorized("Invalid token: no usable subject".to_string()))
    );
    assert_eq!(
        claims_from_decoded(Err("ExpiredSignature".to_string())),
        Err(AuthError::Unauthorized("Invalid token: ExpiredSignature".to_string()))
    );
}
