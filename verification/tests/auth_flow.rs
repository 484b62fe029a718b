use auth_core::auth_service::AuthService;
use auth_core::errors::AuthError;
use auth_core::jwt::{Claims, JwtService};
use auth_core::middleware::{
    jwt_validator, AuthnDecision, AuthzDecision, RequestContext, RequireRole,
};
use auth_core::password::{generate_salt, hash_password, verify_password};
use auth_core::user::{CreateUserRequest, LoginRequest, SysUser};

const NOW: i64 = 1_000_000;

fn claims_with_role(role: &str) -> Claims {
    Claims { sub: "1".to_string(), role: role.to_string(), exp: NOW + 60, iat: NOW }
}

#[test]
fn hash_then_verify_accepts() {
    let hash = hash_password("secret-pw", "SALTSALTSALTSALT").unwrap();
    assert!(verify_password("secret-pw", "SALTSALTSALTSALT", &hash));
}

#[test]
fn wrong_password_or_salt_rejected() {
    let hash = hash_password("secret-pw", "SALTSALTSALTSALT").unwrap();
    assert!(!verify_password("other-pw", "SALTSALTSALTSALT", &hash));
    assert!(!verify_password("secret-pw", "TLASTLASTLASTLAS", &hash));
}

#[test]
fn malformed_stored_hash_rejected_not_raised() {
    assert!(!verify_password("secret-pw", "SALTSALTSALTSALT", "not-a-bcrypt-hash"));
    assert!(!verify_password("secret-pw", "SALTSALTSALTSALT", ""));
}

#[test]
fn distinct_salts_give_distinct_hashes() {
    let h1 = hash_password("secret-pw", "AAAAAAAAAAAAAAAA").unwrap();
    let h2 = hash_password("secret-pw", "BBBBBBBBBBBBBBBB").unwrap();
    assert_ne!(h1, h2);
}

#[test]
fn generated_salt_is_16_alphanumeric() {
    let salt = generate_salt();
    assert_eq!(salt.len(), 16);
    assert!(salt.chars().all(|c| c.is_ascii_alphanumeric()));
    assert_ne!(generate_salt(), salt);
}

#[test]
fn fresh_credential_round_trips() {
    let auth = AuthService::new("test-secret".to_string());
    let (salt, hash) = auth.fresh_credential("admin123").unwrap();
    assert_eq!(salt.len(), 16);
    assert!(verify_password("admin123", &salt, &hash));
    assert!(!verify_password("admin124", &salt, &hash));
}

#[test]
fn create_user_rejects_existing_username() {
    let auth = AuthService::new("test-secret".to_string());
    let request = CreateUserRequest {
        username: "demo".to_string(),
        password: "user123".to_string(),
        role_ids: vec![2],
    };
    let err = auth.create_user(&request, 1).unwrap_err();
    assert_eq!(err, AuthError::UserAlreadyExists);
}

#[test]
fn create_user_prepares_salted_record() {
    let auth = AuthService::new("test-secret".to_string());
    let request = CreateUserRequest {
        username: "demo".to_string(),
        password: "user123".to_string(),
        role_ids: vec![2, 3],
    };
    let record = auth.create_user(&request, 0).unwrap();
    assert_eq!(record.username, "demo");
    assert_eq!(record.role_ids, vec![2, 3]);
    assert_eq!(record.salt.len(), 16);
    assert_ne!(record.password_hash, "user123");
    assert!(verify_password("user123", &record.salt, &record.password_hash));
}

#[test]
fn login_end_to_end_with_roles_and_permissions() {
    let auth = AuthService::new("test-secret".to_string());
    let request = CreateUserRequest {
        username: "demo".to_string(),
        password: "user123".to_string(),
        role_ids: vec![2],
    };
    let record = auth.create_user(&request, 0).unwrap();
    let user = SysUser {
        id: 7,
        username: record.username.clone(),
        password_hash: record.password_hash.clone(),
        salt: record.salt.clone(),
        status: 1,
        created_at: NOW,
    };
    let login_data =
        LoginRequest { username: "demo".to_string(), password: "user123".to_string() };
    let response = auth
        .login(
            Some(&user),
            vec!["editor".to_string()],
            vec!["task:read".to_string()],
            &login_data,
            NOW,
        )
        .unwrap();
    assert_eq!(response.user.id, 7);
    assert_eq!(response.user.username, "demo");
    assert_eq!(response.user.roles, vec!["editor".to_string()]);
    assert_eq!(response.user.permissions, vec!["task:read".to_string()]);
    let claims = auth.jwt_service.verify_token(&response.token, NOW + 1).unwrap();
    assert_eq!(claims.sub, "7");
    assert_eq!(claims.role, "editor");
}

#[test]
fn login_without_roles_claims_empty_role() {
    let auth = AuthService::new("test-secret".to_string());
    let (salt, hash) = auth.fresh_credential("user123").unwrap();
    let user = SysUser {
        id: 8,
        username: "demo".to_string(),
        password_hash: hash,
        salt,
        status: 1,
        created_at: NOW,
    };
    let login_data =
        LoginRequest { username: "demo".to_string(), password: "user123".to_string() };
    let response = auth.login(Some(&user), vec![], vec![], &login_data, NOW).unwrap();
    let claims = auth.jwt_service.verify_token(&response.token, NOW + 1).unwrap();
    assert_eq!(claims.role, "");
}

#[test]
fn disabled_user_cannot_login() {
    let auth = AuthService::new("test-secret".to_string());
    let (salt, hash) = auth.fresh_credential("user123").unwrap();
    let user = SysUser {
        id: 9,
        username: "demo".to_string(),
        password_hash: hash,
        salt,
        status: 0,
        created_at: NOW,
    };
    let login_data =
        LoginRequest { username: "demo".to_string(), password: "user123".to_string() };
    let err = auth.login(Some(&user), vec![], vec![], &login_data, NOW).unwrap_err();
    assert_eq!(err, AuthError::InvalidCredentials);
}

#[test]
fn login_failures_share_one_error_shape() {
    let auth = AuthService::new("test-secret".to_string());
    let record = auth
        .create_user(
            &CreateUserRequest {
                username: "demo".to_string(),
                password: "user123".to_string(),
                role_ids: vec![],
            },
            0,
        )
        .unwrap();
    let user = SysUser {
        id: 7,
        username: record.username.clone(),
        password_hash: record.password_hash.clone(),
        salt: record.salt.clone(),
        status: 1,
        created_at: NOW,
    };
    let wrong_password =
        LoginRequest { username: "demo".to_string(), password: "wrong".to_string() };
    let unknown_user =
        LoginRequest { username: "nobody".to_string(), password: "user123".to_string() };
    let e1 = auth.login(Some(&user), vec![], vec![], &wrong_password, NOW).unwrap_err();
    let e2 = auth.login(None, vec![], vec![], &unknown_user, NOW).unwrap_err();
    assert_eq!(e1, e2);
    assert_eq!(e1, AuthError::InvalidCredentials);
}

#[test]
fn authorization_gate_role_matrix() {
    let gate = RequireRole::new("editor").into_middleware();
    let editor = claims_with_role("editor");
    let admin = claims_with_role("admin");
    let viewer = claims_with_role("viewer");
    assert_eq!(gate.authorize(Some(&editor)), AuthzDecision::Allow);
    assert_eq!(gate.authorize(Some(&admin)), AuthzDecision::Allow);
    assert_eq!(gate.authorize(Some(&viewer)), AuthzDecision::Forbidden);
    assert_eq!(gate.authorize(None), AuthzDecision::Unauthorized);
}

#[test]
fn authentication_gate_attaches_or_rejects() {
    let svc = JwtService::new("test-secret".to_string());
    let token = svc.create_token("42", "editor", NOW).unwrap();
    match jwt_validator(&svc, Some(&token), NOW + 1) {
        AuthnDecision::ClaimsAttached(c) => {
            assert_eq!(c.sub, "42");
            assert_eq!(c.role, "editor");
        }
        AuthnDecision::Rejected => panic!("valid token was rejected"),
    }
    assert!(matches!(jwt_validator(&svc, None, NOW), AuthnDecision::Rejected));
    assert!(matches!(jwt_validator(&svc, Some("garbage"), NOW), AuthnDecision::Rejected));
    assert!(matches!(
        jwt_validator(&svc, Some(&token), NOW + auth_core::jwt::TOKEN_TTL_SECS + 1),
        AuthnDecision::Rejected
    ));
}

#[test]
fn request_context_carries_claims() {
    let mut ctx = RequestContext::new();
    assert!(ctx.current_claims().is_none());
    ctx.attach(claims_with_role("editor"));
    let attached = ctx.current_claims().unwrap();
    assert_eq!(attached.role, "editor");
}
