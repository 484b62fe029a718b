//! User, role and permission records, and the request/response shapes of
//! the authentication routes.
//!
//! Timestamps are plain seconds since epoch; status columns use 1 for
//! active.

use vstd::prelude::*;

verus! {

/// A stored user record: credentials live here as a one-way hash and a
/// per-user salt.
#[derive(Clone, Debug)]
pub struct SysUser {
    pub id: i64,
    pub username: String,
    pub password_hash: String,
    pub salt: String,
    pub status: i8,
    pub created_at: i64,
}

/// A role, identified by a stable key such as "admin".
#[derive(Clone, Debug)]
pub struct SysRole {
    pub id: i64,
    pub role_key: String,
    pub role_name: String,
    pub status: i8,
    pub created_at: i64,
}

/// A permission, read-only leaf entity.
#[derive(Clone, Debug)]
pub struct SysPermission {
    pub id: i64,
    pub perm_key: String,
    pub perm_name: String,
}

/// A user together with the role and permission keys resolved for them.
#[derive(Clone, Debug)]
pub struct UserWithRoles {
    pub id: i64,
    pub username: String,
    pub status: i8,
    pub roles: Vec<String>,
    pub permissions: Vec<String>,
}

/// The body of a login request.
#[derive(Clone, Debug)]
pub struct LoginRequest {
    pub username: String,
    pub password: String,
}

/// What a successful login returns: a bearer token and the user payload.
#[derive(Clone, Debug)]
pub struct LoginResponse {
    pub token: String,
    pub user: UserResponse,
}

/// The user payload of a successful login: identity plus resolved role and
/// permission keys.
#[derive(Clone, Debug)]
pub struct UserResponse {
    pub id: i64,
    pub username: String,
    pub roles: Vec<String>,
    pub permissions: Vec<String>,
}

/// The body of an admin-only user-creation request.
#[derive(Clone, Debug)]
pub struct CreateUserRequest {
    pub username: String,
    pub password: String,
    pub role_ids: Vec<i64>,
}

} // verus!
