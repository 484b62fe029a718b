use auth_core::errors::AuthError;
use auth_core::jwt::{JwtService, TOKEN_TTL_SECS};

const NOW: i64 = 1_000_000;

#[test]
fn issued_token_verifies_one_second_later() {
    let svc = JwtService::new("test-secret".to_string());
    let token = svc.create_token("42", "editor", NOW).unwrap();
    let claims = svc.verify_token(&token, NOW + 1).unwrap();
    assert_eq!(claims.sub, "42");
    assert_eq!(claims.role, "editor");
    assert_eq!(claims.iat, NOW);
    assert_eq!(claims.exp, NOW + TOKEN_TTL_SECS);
}

#[test]
fn token_still_valid_at_expiry_instant() {
    let svc = JwtService::new("test-secret".to_string());
    let token = svc.create_token("42", "editor", NOW).unwrap();
    assert!(svc.verify_token(&token, NOW + TOKEN_TTL_SECS).is_ok());
}

#[test]
fn token_expired_one_second_past_ttl() {
    let svc = JwtService::new("test-secret".to_string());
    let token = svc.create_token("42", "editor", NOW).unwrap();
    let err = svc.verify_token(&token, NOW + TOKEN_TTL_SECS + 1).unwrap_err();
    assert_eq!(err, AuthError::TokenExpired);
}

#[test]
fn flipped_signature_byte_fails_despite_valid_claims() {
    let svc = JwtService::new("test-secret".to_string());
    let token = svc.create_token("42", "editor", NOW).unwrap();
    let dot = token.rfind('.').unwrap();
    let mut bytes = token.into_bytes();
    let idx = dot + 5;
    bytes[idx] = if bytes[idx] == b'A' { b'B' } else { b'A' };
    let tampered = String::from_utf8(bytes).unwrap();
    let err = svc.verify_token(&tampered, NOW + 1).unwrap_err();
    assert_eq!(err, AuthError::TokenSignatureInvalid);
}

#[test]
fn tampered_payload_fails_signature_check() {
    let svc = JwtService::new("test-secret".to_string());
    let token = svc.create_token("42", "editor", NOW).unwrap();
    let first_dot = token.find('.').unwrap();
    let mut bytes = token.into_bytes();
    let idx = first_dot + 3;
    bytes[idx] = if bytes[idx] == b'A' { b'B' } else { b'A' };
    let tampered = String::from_utf8(bytes).unwrap();
    assert!(svc.verify_token(&tampered, NOW + 1).is_err());
}

#[test]
fn wrong_secret_fails_signature_check() {
    let signer = JwtService::new("test-secret".to_string());
    let other = JwtService::new("another-secret".to_string());
    let token = signer.create_token("42", "editor", NOW).unwrap();
    let err = other.verify_token(&token, NOW + 1).unwrap_err();
    assert_eq!(err, AuthError::TokenSignatureInvalid);
}

#[test]
fn unparseable_token_is_malformed() {
    let svc = JwtService::new("test-secret".to_string());
    let err = svc.verify_token("not-a-token", NOW).unwrap_err();
    assert_eq!(err, AuthError::TokenMalformed);
    let err = svc.verify_token("", NOW).unwrap_err();
    assert_eq!(err, AuthError::TokenMalformed);
}

#[test]
fn issuing_is_deterministic_per_claim_set() {
    let svc = JwtService::new("test-secret".to_string());
    let t1 = svc.create_token("42", "editor", NOW).unwrap();
    let t2 = svc.create_token("42", "editor", NOW).unwrap();
    assert_eq!(t1, t2);
    let t3 = svc.create_token("43", "editor", NOW).unwrap();
    assert_ne!(t1, t3);
}
