use storefront::auth::{Claims, TokenKeys};
use storefront::user::entity::Role;

fn keys() -> TokenKeys {
    TokenKeys { secret: "a-test-signing-secret".to_string(), kid: "key-1".to_string() }
}

#[test]
fn admin_token_lives_thirty_minutes() {
    let c = Claims::new("admin@example.com".to_string(), Role::Admin);
    assert_eq!(c.exp - c.iat, 30 * 60);
}

#[test]
fn user_token_lives_one_day() {
    let c = Claims::new("user@example.com".to_string(), Role::User);
    assert_eq!(c.exp - c.iat, 24 * 60 * 60);
}

#[test]
fn validate_accepts_issued_token_with_same_subject_and_role() {
    let k = keys();
    let claims = Claims::new("alice@example.com".to_string(), Role::Admin);
    let token = claims.jwt(&k).unwrap();
    let validated = Claims::validate(&k, token.as_str(), claims.iat).unwrap();
    assert_eq!(validated.id, "alice@example.com");
    assert_eq!(validated.role, Role::Admin);
    assert_eq!(validated.iat, claims.iat);
    assert_eq!(validated.exp, claims.exp);
}

#[test]
fn validate_round_trip_keeps_user_role() {
    let k = keys();
    let claims = Claims::new("bob@example.com".to_string(), Role::User);
    let token = claims.jwt(&k).unwrap();
    let validated = Claims::validate(&k, token.as_str(), claims.iat).unwrap();
    assert_eq!(validated.id, "bob@example.com");
    assert_eq!(validated.role, Role::User);
}

#[test]
fn altering_one_byte_of_the_signature_is_rejected() {
    let k = keys();
    let claims = Claims::new("alice@example.com".to_string(), Role::User);
    let token = claims.jwt(&k).unwrap();
    // The signature is the final dot-separated segment; flip one byte well
    // inside it.
    let mut bytes = token.into_bytes();
    let dot = bytes.iter().rposition(|&b| b == b'.').unwrap();
    let target = dot + 5;
    bytes[target] = if bytes[target] == b'A' { b'B' } else { b'A' };
    let tampered = String::from_utf8(bytes).unwrap();
    let r = Claims::validate(&k, tampered.as_str(), claims.iat);
    assert!(matches!(r, Err(storefront::api::errors::ApiError::Unauthorized(_))));
}

#[test]
fn expired_token_is_rejected() {
    let k = keys();
    let claims = Claims::new("alice@example.com".to_string(), Role::User);
    let token = claims.jwt(&k).unwrap();
    // Validating at the expiry instant (or after) must fail.
    let r = Claims::validate(&k, token.as_str(), claims.exp);
    assert!(matches!(r, Err(storefront::api::errors::ApiError::Unauthorized(_))));
}

#[test]
fn wrong_secret_is_rejected() {
    let k = keys();
    let other = TokenKeys { secret: "another-secret".to_string(), kid: "key-1".to_string() };
    let claims = Claims::new("alice@example.com".to_string(), Role::User);
    let token = claims.jwt(&k).unwrap();
    let r = Claims::validate(&other, token.as_str(), claims.iat);
    assert!(matches!(r, Err(storefront::api::errors::ApiError::Unauthorized(_))));
}

#[test]
fn garbage_token_is_rejected() {
    let k = keys();
    let r = Claims::validate(&k, "not.a.token", 0);
    assert!(matches!(r, Err(storefront::api::errors::ApiError::Unauthorized(_))));
}
