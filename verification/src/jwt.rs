//! Token service: issuance and verification of signed, time-bounded
//! identity tokens.
//!
//! A token is a compact signed-claims string in three parts (header, claim
//! payload, signature), HMAC-signed with a symmetric secret held by the
//! service. The claim payload carries `sub` (user id as string), `role`,
//! `iat` and `exp` (seconds since epoch). Signing and signature checking are
//! done by the jsonwebtoken crate behind trusted wrappers; the expiry rule —
//! a token is valid until `exp`, expired strictly after it — is checked
//! here, in verified code, against an explicit `now` supplied by the caller.

use vstd::prelude::*;

use crate::errors::AuthError;

verus! {

/// Token lifetime: 24 hours, in seconds.
pub const TOKEN_TTL_SECS: i64 = 86400;

/// How the signed-claims decoder can fail before the expiry check runs.
#[derive(Clone, Copy, Debug, PartialEq, Eq, Structural)]
pub enum TokenFault {
    /// The signature does not authenticate the header and payload.
    Signature,
    /// The token cannot be parsed, or its claim set lacks a usable
    /// `sub`, `role`, `iat` or `exp` field.
    Malformed,
}

/// The decoded, verified payload of a token: who the caller is, with which
/// role, and in which time window.
#[derive(Clone, Debug)]
pub struct Claims {
    /// Subject: the user id, in decimal string form.
    pub sub: String,
    /// The role claimed for the subject.
    pub role: String,
    /// Expiry, seconds since epoch; the token is invalid strictly after it.
    pub exp: i64,
    /// Issue time, seconds since epoch.
    pub iat: i64,
}

impl Claims {
    /// The claim set as a mathematical value: (sub, role, iat, exp).
    pub open spec fn model(&self) -> (Seq<char>, Seq<char>, int, int) {
        (self.sub@, self.role@, self.iat as int, self.exp as int)
    }
}

/// The token string that signing a claim set under a secret produces. The
/// encoder is deterministic: the same secret and claims give the same
/// string.
pub uninterp spec fn token_of(
    secret: Seq<char>,
    sub: Seq<char>,
    role: Seq<char>,
    iat: int,
    exp: int,
) -> Seq<char>;

/// What signature-checked decoding of a token under a secret yields: the
/// claim fields (sub, role, iat, exp) when the signature authenticates the
/// token and the payload carries all four, or the fault class otherwise.
/// Decoding reads no clock and is a deterministic function of secret and
/// token.
pub uninterp spec fn decoded_of(secret: Seq<char>, token: Seq<char>) -> Result<
    (Seq<char>, Seq<char>, int, int),
    TokenFault,
>;

/// The claim fields held by a decoded payload value, if all four are
/// present with the right types.
pub uninterp spec fn payload_fields_of(v: serde_json::Value) -> Option<
    (Seq<char>, Seq<char>, int, int),
>;

/// A payload without the four claim fields is a malformed token.
pub open spec fn fields_outcome(fields: Option<(Seq<char>, Seq<char>, int, int)>) -> Result<
    (Seq<char>, Seq<char>, int, int),
    TokenFault,
> {
    match fields {
        Some(f) => Ok(f),
        None => Err(TokenFault::Malformed),
    }
}

/// The decode pipeline yields exactly the given claim fields.
pub open spec fn decoded_ok(
    secret: Seq<char>,
    token: Seq<char>,
    sub: Seq<char>,
    role: Seq<char>,
    iat: int,
    exp: int,
) -> bool {
    decoded_of(secret, token) == Ok::<(Seq<char>, Seq<char>, int, int), TokenFault>(
        (sub, role, iat, exp),
    )
}

/// The decode pipeline fails with the given fault.
pub open spec fn decoded_err(secret: Seq<char>, token: Seq<char>, fault: TokenFault) -> bool {
    decoded_of(secret, token) == Err::<(Seq<char>, Seq<char>, int, int), TokenFault>(fault)
}

/// Declares serde_json::Value, the decoded claim payload's carrier type,
/// so it may appear in signatures; the value is opaque here and is read
/// only through `payload_fields`.
#[verifier::external_type_specification]
#[verifier::external_body]
pub struct ExSerdeJsonValue(serde_json::Value);

/// Relies on jsonwebtoken::encode with a default (HS256) header: serializes
/// the claim object (with deterministic key order), signs header.payload
/// with HMAC-SHA256 under the secret, and appends the encoded signature.
/// With an HMAC key and this fixed claim shape the encoder cannot fail —
/// HMAC signing is unconditional and a string-keyed map of strings and
/// integers always serializes — so a token is always produced.
/// jsonwebtoken::decode of the result under the same secret checks out and
/// returns the same claims, which the last ensures records.
#[verifier::external_body]
fn jwt_encode(secret: &str, sub: &str, role: &str, iat: i64, exp: i64) -> (r: Option<String>)
    requires
        0 <= iat,
        0 <= exp,
    ensures
        r is Some,
        r matches Some(t) ==> t@ == token_of(secret@, sub@, role@, iat as int, exp as int),
        r matches Some(t) ==> decoded_ok(secret@, t@, sub@, role@, iat as int, exp as int),
{
    let mut payload = serde_json::Map::new();
    payload.insert("sub".to_string(), serde_json::Value::from(sub));
    payload.insert("role".to_string(), serde_json::Value::from(role));
    payload.insert("iat".to_string(), serde_json::Value::from(iat));
    payload.insert("exp".to_string(), serde_json::Value::from(exp));
    jsonwebtoken::encode(
        &jsonwebtoken::Header::default(),
        &serde_json::Value::Object(payload),
        &jsonwebtoken::EncodingKey::from_secret(secret.as_bytes()),
    )
    .ok()
}

/// Relies on jsonwebtoken::decode over HS256, with expiry validation turned
/// off so that decoding reads no clock: it parses the three-part token,
/// checks the HMAC signature over header.payload, and returns the claim
/// payload. A signature mismatch is the one fault reported as
/// `Signature`; every other failure — parse, shape, or another claim
/// validation of the decoder — is `Malformed`.
#[verifier::external_body]
fn jwt_decode_payload(secret: &str, token: &str) -> (r: Result<serde_json::Value, TokenFault>)
    ensures
        r matches Ok(v) ==> decoded_of(secret@, token@) == fields_outcome(payload_fields_of(v)),
        r matches Err(f) ==> decoded_err(secret@, token@, f),
{
    let mut validation = jsonwebtoken::Validation::new(jsonwebtoken::Algorithm::HS256);
    validation.validate_exp = false;
    let key = jsonwebtoken::DecodingKey::from_secret(secret.as_bytes());
    match jsonwebtoken::decode::<serde_json::Value>(token, &key, &validation) {
        Ok(data) => Ok(data.claims),
        Err(e) => Err(match e.kind() {
            jsonwebtoken::errors::ErrorKind::InvalidSignature => TokenFault::Signature,
            _ => TokenFault::Malformed,
        }),
    }
}

/// Relies on serde_json::Value::{get, as_str, as_i64}: reads the four claim
/// fields out of a decoded payload, or reports their absence.
#[verifier::external_body]
fn payload_fields(v: &serde_json::Value) -> (r: Option<(String, String, i64, i64)>)
    ensures
        r matches Some(f) ==> payload_fields_of(*v) matches Some(g) && g == (
            f.0@,
            f.1@,
            f.2 as int,
            f.3 as int,
        ),
        r is None ==> payload_fields_of(*v) is None,
{
    match (
        v.get("sub").and_then(serde_json::Value::as_str),
        v.get("role").and_then(serde_json::Value::as_str),
        v.get("iat").and_then(serde_json::Value::as_i64),
        v.get("exp").and_then(serde_json::Value::as_i64),
    ) {
        (Some(sub), Some(role), Some(iat), Some(exp)) => {
            Some((sub.to_string(), role.to_string(), iat, exp))
        },
        _ => None,
    }
}

/// The whole verification decision as a mathematical function of secret,
/// token and clock: decode, then apply the expiry rule — a token is expired
/// strictly after its `exp`. Each fault class maps to its own error;
/// callers at the API boundary collapse all three to one generic
/// unauthorized outcome.
pub open spec fn spec_verify_token(secret: Seq<char>, token: Seq<char>, now: int) -> Result<
    (Seq<char>, Seq<char>, int, int),
    AuthError,
> {
    match decoded_of(secret, token) {
        Ok(fields) => if now > fields.3 {
            Err(AuthError::TokenExpired)
        } else {
            Ok(fields)
        },
        Err(TokenFault::Signature) => Err(AuthError::TokenSignatureInvalid),
        Err(TokenFault::Malformed) => Err(AuthError::TokenMalformed),
    }
}

/// Issues and verifies signed identity tokens under one symmetric secret,
/// fixed at construction.
pub struct JwtService {
    /// The symmetric signing secret.
    pub secret: String,
}

impl JwtService {
    /// A token service signing with `secret`.
    pub fn new(secret: String) -> (r: Self)
        ensures
            r.secret@ == secret@,
    {
        JwtService { secret }
    }

    /// Issue a token for `user_id` with `role`, valid from `now` for
    /// `TOKEN_TTL_SECS`. Issuance always succeeds: HMAC signing of this
    /// fixed claim shape has no failure path.
    pub fn create_token(&self, user_id: &str, role: &str, now: i64) -> (r: Result<
        String,
        AuthError,
    >)
        requires
            0 <= now,
            now + TOKEN_TTL_SECS <= i64::MAX,
        ensures
            r is Ok,
            r matches Ok(t) ==> t@ == token_of(
                self.secret@,
                user_id@,
                role@,
                now as int,
                now + TOKEN_TTL_SECS,
            ),
            r matches Ok(t) ==> decoded_ok(
                self.secret@,
                t@,
                user_id@,
                role@,
                now as int,
                now + TOKEN_TTL_SECS,
            ),
    {
        let exp = now + TOKEN_TTL_SECS;
        match jwt_encode(self.secret.as_str(), user_id, role, now, exp) {
            Some(t) => Ok(t),
            None => Err(AuthError::SigningFailed),
        }
    }

    /// Verify a token against this service's secret at time `now`: the
    /// result is exactly `spec_verify_token` — signature and shape first,
    /// then the expiry rule.
    pub fn verify_token(&self, token: &str, now: i64) -> (r: Result<Claims, AuthError>)
        ensures
            (match spec_verify_token(self.secret@, token@, now as int) {
                Ok(fields) => r matches Ok(c) && c.model() == fields,
                Err(e) => r matches Err(e2) && e2 == e,
            }),
    {
        match jwt_decode_payload(self.secret.as_str(), token) {
            Ok(v) => match payload_fields(&v) {
                Some((sub, role, iat, exp)) => {
                    if now > exp {
                        Err(AuthError::TokenExpired)
                    } else {
                        Ok(Claims { sub, role, exp, iat })
                    }
                },
                None => Err(AuthError::TokenMalformed),
            },
            Err(TokenFault::Signature) => Err(AuthError::TokenSignatureInvalid),
            Err(TokenFault::Malformed) => Err(AuthError::TokenMalformed),
        }
    }
}

/// A token issued at time `iat` still verifies one second later, and
/// returns the subject and role it was issued with: issuance pins the
/// decoded claim set, and one second is well inside the token lifetime.
pub proof fn lemma_issue_then_verify(
    secret: Seq<char>,
    sub: Seq<char>,
    role: Seq<char>,
    iat: int,
    token: Seq<char>,
)
    ensures
        decoded_ok(secret, token, sub, role, iat, iat + TOKEN_TTL_SECS) ==> (
        spec_verify_token(secret, token, iat + 1) matches Ok(f) && f == (
            sub,
            role,
            iat,
            iat + TOKEN_TTL_SECS,
        )),
{
}

/// A token whose signature does not authenticate its header and payload
/// fails verification at every time, with the signature-class error: the
/// expiry check never runs, so no claim content can rescue it. (That
/// flipping a signature byte produces such a fault is the HMAC's doing and
/// is exercised by test.)
pub proof fn lemma_bad_signature_rejected(secret: Seq<char>, token: Seq<char>, now: int)
    ensures
        decoded_err(secret, token, TokenFault::Signature) ==> (spec_verify_token(
            secret,
            token,
            now,
        ) matches Err(e) && e == AuthError::TokenSignatureInvalid),
{
}

/// A token verified at any time strictly after `iat + TOKEN_TTL_SECS`
/// fails with the expiry-class error, whatever its claims say.
pub proof fn lemma_expired_token_rejected(
    secret: Seq<char>,
    sub: Seq<char>,
    role: Seq<char>,
    iat: int,
    token: Seq<char>,
    now: int,
)
    ensures
        (decoded_ok(secret, token, sub, role, iat, iat + TOKEN_TTL_SECS) && now > iat
            + TOKEN_TTL_SECS) ==> (spec_verify_token(secret, token, now) matches Err(e) && e
            == AuthError::TokenExpired),
{
}

} // verus!
