//! Password verifier: salted one-way hashing and verification.
//!
//! A plaintext password is always combined with a per-user salt (password
//! followed by salt) before it reaches the hash algorithm. The algorithm
//! itself adds its own internal randomness, so two hashes of the same input
//! are not byte-identical; what is stable is the verification relation, which
//! `bcrypt_matches` names.

use rand::Rng;
use vstd::prelude::*;
use vstd::string::StringExecFns;

use crate::errors::AuthError;

verus! {

/// The input handed to the hash algorithm: plaintext followed by salt.
pub open spec fn salted_input(password: Seq<char>, salt: Seq<char>) -> Seq<char> {
    password + salt
}

/// Whether bcrypt's verification routine accepts `input` against the stored
/// string `hashed`. This is a deterministic function of the two arguments:
/// verification re-runs the hash with the cost and salt embedded in `hashed`
/// and compares the outcome. A malformed `hashed` is simply not matched by
/// any input.
pub uninterp spec fn bcrypt_matches(input: Seq<char>, hashed: Seq<char>) -> bool;

/// The condition under which `verify_password` accepts: the salted input
/// derived from `password` and `salt` matches the stored hash.
pub open spec fn password_accepted(password: Seq<char>, salt: Seq<char>, stored: Seq<char>) -> bool {
    bcrypt_matches(salted_input(password, salt), stored)
}

/// A character that may appear in a generated salt.
pub open spec fn is_salt_char(c: char) -> bool {
    ('a' <= c && c <= 'z') || ('A' <= c && c <= 'Z') || ('0' <= c && c <= '9')
}

/// Relies on bcrypt::hash: on success the result is a stored-hash string
/// that bcrypt::verify accepts for the hashed input. The algorithm
/// salts itself internally, so the string differs between calls; the
/// verification relation is all that is promised.
#[verifier::external_body]
fn bcrypt_hash(input: &str) -> (r: Option<String>)
    ensures
        r matches Some(h) ==> bcrypt_matches(input@, h@),
{
    bcrypt::hash(input, bcrypt::DEFAULT_COST).ok()
}

/// Relies on bcrypt::verify: deterministically re-derives the hash of
/// `input` under the parameters stored in `hashed` and compares. An error on
/// a malformed `hashed` is reported as a non-match, as the login path treats
/// it.
#[verifier::external_body]
fn bcrypt_check(input: &str, hashed: &str) -> (r: bool)
    ensures
        r == bcrypt_matches(input@, hashed@),
{
    bcrypt::verify(input, hashed).unwrap_or(false)
}

/// Relies on rand's thread-local generator with the Alphanumeric
/// distribution: every sampled byte is one of a-z, A-Z, 0-9. Nothing is
/// promised about which characters come out, only their count and alphabet.
#[verifier::external_body]
fn random_alphanumeric_16() -> (r: String)
    ensures
        r@.len() == 16,
        forall|i: int| 0 <= i < 16 ==> is_salt_char(#[trigger] r@[i]),
{
    rand::thread_rng()
        .sample_iter(&rand::distributions::Alphanumeric)
        .take(16)
        .map(char::from)
        .collect()
}

/// Combine a plaintext password with a salt, password first.
fn combine_password_salt(password: &str, salt: &str) -> (r: String)
    ensures
        r@ == salted_input(password@, salt@),
{
    let mut combined = password.to_owned();
    combined.append(salt);
    combined
}

/// Hash a plaintext password under the given salt. Returns the stored-hash
/// string, or `HashingFailed` if the hash algorithm itself fails (treated as
/// fatal by the calling operation).
pub fn hash_password(password: &str, salt: &str) -> (r: Result<String, AuthError>)
    ensures
        r matches Ok(h) ==> bcrypt_matches(salted_input(password@, salt@), h@),
        r matches Err(e) ==> e == AuthError::HashingFailed,
{
    let combined = combine_password_salt(password, salt);
    match bcrypt_hash(combined.as_str()) {
        Some(h) => Ok(h),
        None => Err(AuthError::HashingFailed),
    }
}

/// Check a plaintext password and salt against a stored hash. Never fails:
/// a malformed stored hash is reported as a non-match, indistinguishable
/// from a wrong password.
pub fn verify_password(password: &str, salt: &str, stored_hash: &str) -> (r: bool)
    ensures
        r == password_accepted(password@, salt@, stored_hash@),
{
    let combined = combine_password_salt(password, salt);
    bcrypt_check(combined.as_str(), stored_hash)
}

/// Produce a fresh 16-character alphanumeric salt from an unpredictable
/// source.
pub fn generate_salt() -> (r: String)
    ensures
        r@.len() == 16,
        forall|i: int| 0 <= i < 16 ==> is_salt_char(#[trigger] r@[i]),
{
    random_alphanumeric_16()
}

/// A password hashed under a salt is verified by the same password and salt:
/// the match relation that `hash_password` establishes for its result is the
/// acceptance condition that `verify_password` checks, so verification of a
/// freshly hashed password always returns true.
pub proof fn lemma_hash_then_verify(password: Seq<char>, salt: Seq<char>, hashed: Seq<char>)
    ensures
        bcrypt_matches(salted_input(password, salt), hashed) ==> password_accepted(
            password,
            salt,
            hashed,
        ),
{
}

/// Two different salts give two different hash inputs for the same password,
/// so the stored hashes are derived from distinct strings. (That the hash
/// strings themselves differ is a probabilistic property of the algorithm's
/// internal randomness and is exercised by test, not proved.)
pub proof fn lemma_distinct_salts_distinct_inputs(
    password: Seq<char>,
    salt1: Seq<char>,
    salt2: Seq<char>,
)
    requires
        salt1 != salt2,
    ensures
        salted_input(password, salt1) != salted_input(password, salt2),
{
    if salted_input(password, salt1) == salted_input(password, salt2) {
        assert(salted_input(password, salt1).len() == password.len() + salt1.len());
        assert(salted_input(password, salt2).len() == password.len() + salt2.len());
        assert(salt1.len() == salt2.len());
        assert forall|i: int| 0 <= i < salt1.len() implies salt1[i] == salt2[i] by {
            assert(salted_input(password, salt1)[password.len() + i] == salt1[i]);
            assert(salted_input(password, salt2)[password.len() + i] == salt2[i]);
        }
        assert(salt1 =~= salt2);
    }
}

} // verus!
