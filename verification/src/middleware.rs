//! The two request-pipeline gates.
//!
//! The authentication gate turns a bearer credential into claims attached
//! to the request context, or rejects the request before any protected
//! handler runs. The authorization gate wraps a route subgroup with a
//! required role and lets a request through only if the authenticated
//! role matches it or is the administrative override. Both are pure
//! decisions over (request data, secret, current time); emitting the
//! actual response and running the wrapped handler belong to the HTTP
//! layer around this crate.

use vstd::prelude::*;
use vstd::string::StrSliceExecFns;

use crate::jwt::{spec_verify_token, Claims, JwtService};

verus! {

/// The role name that satisfies any role requirement.
pub open spec fn spec_admin_role() -> Seq<char> {
    "admin"@
}

/// Terminal states of the authentication gate: either claims are attached
/// and the pipeline continues, or the request is rejected with a generic
/// unauthorized outcome that does not say which validation step failed.
#[derive(Clone, Debug)]
pub enum AuthnDecision {
    ClaimsAttached(Claims),
    Rejected,
}

/// The authorization gate's verdict on one request.
#[derive(Clone, Copy, Debug, PartialEq, Eq, Structural)]
pub enum AuthzDecision {
    /// Forward the request unchanged to the wrapped handler.
    Allow,
    /// Claims are present but the role is insufficient: respond forbidden.
    Forbidden,
    /// No claims are present at all. The authentication gate always runs
    /// first, so reaching this is a composition defect, not a normal path.
    Unauthorized,
}

/// The authorization rule: a role is accepted exactly when it equals the
/// required role or is the administrative override.
pub open spec fn spec_authorize(role: Seq<char>, required: Seq<char>) -> AuthzDecision {
    if role == required || role == spec_admin_role() {
        AuthzDecision::Allow
    } else {
        AuthzDecision::Forbidden
    }
}

/// The per-request context the authentication gate writes claims into and
/// downstream handlers read them from. Claims are keyed by their type:
/// one slot, overwritable within a single request only.
#[derive(Clone, Debug)]
pub struct RequestContext {
    claims: Option<Claims>,
}

impl RequestContext {
    /// A fresh context with no identity attached.
    pub fn new() -> (r: Self)
        ensures
            r.claims() is None,
    {
        RequestContext { claims: None }
    }

    /// The claims attached to this request, if any.
    pub closed spec fn claims(&self) -> Option<Claims> {
        self.claims
    }

    /// Attach verified claims, replacing any earlier ones.
    pub fn attach(&mut self, claims: Claims)
        ensures
            final(self).claims() matches Some(c) && c == claims,
    {
        self.claims = Some(claims);
    }

    /// Typed accessor for downstream handlers.
    pub fn current_claims(&self) -> (r: Option<&Claims>)
        ensures
            (match r {
                Some(c) => self.claims() matches Some(c2) && c2 == *c,
                None => self.claims() is None,
            }),
    {
        self.claims.as_ref()
    }
}

/// The authentication gate's decision for one request: with no bearer
/// credential the request is rejected outright; otherwise the token is
/// verified against the service's secret at time `now`, and any failure —
/// malformed token, bad signature or expiry alike — is collapsed into the
/// same rejection.
pub fn jwt_validator(service: &JwtService, bearer: Option<&str>, now: i64) -> (r: AuthnDecision)
    ensures
        bearer is None ==> r is Rejected,
        bearer matches Some(t) ==> (match spec_verify_token(service.secret@, t@, now as int) {
            Ok(fields) => r matches AuthnDecision::ClaimsAttached(c) && c.model() == fields,
            Err(_) => r is Rejected,
        }),
{
    match bearer {
        None => AuthnDecision::Rejected,
        Some(token) => match service.verify_token(token, now) {
            Ok(claims) => AuthnDecision::ClaimsAttached(claims),
            Err(_) => AuthnDecision::Rejected,
        },
    }
}

/// Configuration for the authorization gate: the role a route subgroup
/// requires.
#[derive(Clone, Debug)]
pub struct RequireRole {
    pub required_role: String,
}

impl RequireRole {
    /// A gate requiring `role`.
    pub fn new(role: &str) -> (r: Self)
        ensures
            r.required_role@ == role@,
    {
        RequireRole { required_role: role.to_owned() }
    }

    /// The pipeline stage this configuration produces.
    pub fn into_middleware(&self) -> (r: RequireRoleMiddleware)
        ensures
            r.required_role@ == self.required_role@,
    {
        RequireRoleMiddleware { required_role: self.required_role.clone() }
    }
}

/// The authorization gate itself, wrapping one route subgroup.
#[derive(Clone, Debug)]
pub struct RequireRoleMiddleware {
    pub required_role: String,
}

impl RequireRoleMiddleware {
    /// Decide one request from the claims the authentication gate attached:
    /// allow on a role match or the administrative override, forbid an
    /// insufficient role, and report missing claims as unauthorized.
    pub fn authorize(&self, claims: Option<&Claims>) -> (r: AuthzDecision)
        ensures
            claims is None ==> r == AuthzDecision::Unauthorized,
            claims matches Some(c) ==> r == spec_authorize(c.role@, self.required_role@),
    {
        match claims {
            None => AuthzDecision::Unauthorized,
            Some(c) => {
                let admin = "admin".to_owned();
                if c.role == self.required_role || c.role == admin {
                    AuthzDecision::Allow
                } else {
                    AuthzDecision::Forbidden
                }
            },
        }
    }
}

/// The administrative override bypasses any specific role requirement.
pub proof fn lemma_admin_override(required: Seq<char>)
    ensures
        spec_authorize(spec_admin_role(), required) == AuthzDecision::Allow,
{
}

/// A role always satisfies its own requirement.
pub proof fn lemma_exact_role_allowed(role: Seq<char>)
    ensures
        spec_authorize(role, role) == AuthzDecision::Allow,
{
}

/// Any other role is denied as forbidden, never as unauthorized.
pub proof fn lemma_other_role_forbidden(role: Seq<char>, required: Seq<char>)
    ensures
        (role != required && role != spec_admin_role()) ==> spec_authorize(role, required)
            == AuthzDecision::Forbidden,
{
}

} // verus!
