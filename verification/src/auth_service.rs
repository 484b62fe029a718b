//! The login and user-administration decisions.
//!
//! The credential store itself (user lookup, role and permission queries,
//! inserts) is an external collaborator; this service receives the
//! store's answers as plain values and makes every decision here: password
//! verification, token issuance, the uniform invalid-credentials error,
//! and the preparation of new user records.

use vstd::prelude::*;

use crate::decimal::{dec_int, i64_to_dec_string};
use crate::errors::AuthError;
use crate::jwt::{decoded_ok, token_of, JwtService, TOKEN_TTL_SECS};
use crate::password::{
    generate_salt, hash_password, is_salt_char, password_accepted, verify_password,
};
use crate::user::{CreateUserRequest, LoginRequest, LoginResponse, SysUser, UserResponse};

verus! {

/// Whether a submitted password is accepted against a stored user record.
pub open spec fn spec_credentials_ok(user: SysUser, password: Seq<char>) -> bool {
    password_accepted(password, user.salt@, user.password_hash@)
}

/// The primary role key resolved for a user: the first of the store's
/// role keys, or the empty string when the user holds none. This is the
/// role a freshly issued token claims.
pub open spec fn spec_primary_role(roles: Seq<String>) -> Seq<char> {
    if roles.len() > 0 {
        roles[0]@
    } else {
        Seq::empty()
    }
}

/// The error a login attempt is owed, or None when it must succeed: an
/// unknown username, a disabled account and a wrong password are reported
/// by one and the same error.
pub open spec fn spec_login_error(
    user_found: bool,
    user_active: bool,
    credentials_ok: bool,
) -> Option<AuthError> {
    if !user_found || !user_active || !credentials_ok {
        Some(AuthError::InvalidCredentials)
    } else {
        None
    }
}

/// A prepared user record, ready for the credential store: the password
/// arrives hashed under a fresh salt, never in plaintext.
#[derive(Clone, Debug)]
pub struct NewUserRecord {
    pub username: String,
    pub password_hash: String,
    pub salt: String,
    pub role_ids: Vec<i64>,
}

/// The authentication service: owns the token service and implements the
/// credential decisions.
pub struct AuthService {
    pub jwt_service: JwtService,
}

impl AuthService {
    /// An authentication service whose tokens are signed with `secret`.
    pub fn new(secret: String) -> (r: Self)
        ensures
            r.jwt_service.secret@ == secret@,
    {
        AuthService { jwt_service: JwtService::new(secret) }
    }

    /// Decide a login attempt. `user` is the credential store's answer to
    /// a lookup by the submitted username; `roles` and `permissions` are
    /// the keys the store resolved for that user. A missing user, a
    /// disabled account and a rejected password produce the identical
    /// error, so a caller learns nothing about which failed; an accepted
    /// password yields the user payload and a token whose subject is the
    /// user id and whose role claim is the user's primary role key.
    pub fn login(
        &self,
        user: Option<&SysUser>,
        roles: Vec<String>,
        permissions: Vec<String>,
        login_data: &LoginRequest,
        now: i64,
    ) -> (r: Result<LoginResponse, AuthError>)
        requires
            0 <= now,
            now + TOKEN_TTL_SECS <= i64::MAX,
        ensures
            user is None ==> (r matches Err(e) && e == AuthError::InvalidCredentials),
            user matches Some(u) ==> ((u.status != 1 || !spec_credentials_ok(
                *u,
                login_data.password@,
            )) ==> (r matches Err(e) && e == AuthError::InvalidCredentials)),
            user matches Some(u) ==> ((u.status == 1 && spec_credentials_ok(
                *u,
                login_data.password@,
            )) ==> (r matches Ok(resp) && resp.user.id == u.id && resp.user.username@
                == u.username@ && resp.user.roles@ == roles@ && resp.user.permissions@
                == permissions@ && resp.token@ == token_of(
                self.jwt_service.secret@,
                dec_int(u.id as int),
                spec_primary_role(roles@),
                now as int,
                now + TOKEN_TTL_SECS,
            ) && decoded_ok(
                self.jwt_service.secret@,
                resp.token@,
                dec_int(u.id as int),
                spec_primary_role(roles@),
                now as int,
                now + TOKEN_TTL_SECS,
            ))),
    {
        match user {
            None => Err(AuthError::InvalidCredentials),
            Some(u) => {
                if u.status == 1 && verify_password(
                    login_data.password.as_str(),
                    u.salt.as_str(),
                    u.password_hash.as_str(),
                ) {
                    let subject = i64_to_dec_string(u.id);
                    let role_claim = if roles.len() > 0 {
                        roles[0].clone()
                    } else {
                        String::new()
                    };
                    match self.jwt_service.create_token(
                        subject.as_str(),
                        role_claim.as_str(),
                        now,
                    ) {
                        Ok(token) => Ok(
                            LoginResponse {
                                token,
                                user: UserResponse {
                                    id: u.id,
                                    username: u.username.clone(),
                                    roles,
                                    permissions,
                                },
                            },
                        ),
                        Err(_) => Err(AuthError::SigningFailed),
                    }
                } else {
                    Err(AuthError::InvalidCredentials)
                }
            },
        }
    }

    /// A fresh salt together with the hash of `password` under it, for
    /// creating a user or resetting a stored credential.
    pub fn fresh_credential(&self, password: &str) -> (r: Result<(String, String), AuthError>)
        ensures
            r matches Ok(p) ==> p.0@.len() == 16 && (forall|i: int|
                0 <= i < 16 ==> is_salt_char(#[trigger] p.0@[i])) && password_accepted(
                password@,
                p.0@,
                p.1@,
            ),
            r matches Err(e) ==> e == AuthError::HashingFailed,
    {
        let salt = generate_salt();
        match hash_password(password, salt.as_str()) {
            Ok(hash) => Ok((salt, hash)),
            Err(e) => Err(e),
        }
    }

    /// Prepare a user-creation request for the store. `existing_count` is
    /// the store's count of users with the requested username: any
    /// positive count rejects the request. Otherwise the password is
    /// hashed under a fresh salt and the record is returned for insertion.
    pub fn create_user(&self, user_data: &CreateUserRequest, existing_count: i64) -> (r: Result<
        NewUserRecord,
        AuthError,
    >)
        ensures
            existing_count > 0 ==> (r matches Err(e) && e == AuthError::UserAlreadyExists),
            (r matches Err(e) && e == AuthError::UserAlreadyExists) ==> existing_count > 0,
            r matches Ok(rec) ==> existing_count <= 0 && rec.username@ == user_data.username@
                && rec.role_ids@ == user_data.role_ids@ && rec.salt@.len() == 16 && (forall|i: int|
                0 <= i < 16 ==> is_salt_char(#[trigger] rec.salt@[i])) && password_accepted(
                user_data.password@,
                rec.salt@,
                rec.password_hash@,
            ),
            r matches Err(e) ==> e == AuthError::UserAlreadyExists || e == AuthError::HashingFailed,
    {
        if existing_count > 0 {
            return Err(AuthError::UserAlreadyExists);
        }
        match self.fresh_credential(user_data.password.as_str()) {
            Ok((salt, password_hash)) => Ok(
                NewUserRecord {
                    username: user_data.username.clone(),
                    password_hash,
                    salt,
                    role_ids: user_data.role_ids.clone(),
                },
            ),
            Err(e) => Err(e),
        }
    }
}

/// Failed logins are indistinguishable: an unknown username, a disabled
/// account and a wrong password owe the caller exactly the same error.
pub proof fn lemma_login_failures_indistinguishable(user_active: bool, credentials_ok: bool)
    ensures
        spec_login_error(false, user_active, credentials_ok) == spec_login_error(true, true, false),
        spec_login_error(true, false, credentials_ok) == spec_login_error(true, true, false),
        spec_login_error(false, user_active, credentials_ok) matches Some(e) && e
            == AuthError::InvalidCredentials,
{
}

} // verus!
