//! Error taxonomy of the authentication and authorization core.

use vstd::prelude::*;

verus! {

/// Every failure the auth core can report.
///
/// `InvalidCredentials` covers both a bad username and a bad password, so a
/// caller cannot tell which was wrong. The three token errors are
/// distinguishable internally but are all surfaced as one generic
/// "unauthorized" outcome at the API boundary. `InsufficientRole` surfaces as
/// "forbidden". `UserAlreadyExists`, `HashingFailed` and `SigningFailed` are
/// terminal failures of the user-creation and token-issuance paths.
#[derive(Clone, Copy, Debug, PartialEq, Eq, Structural)]
pub enum AuthError {
    InvalidCredentials,
    TokenMalformed,
    TokenExpired,
    TokenSignatureInvalid,
    InsufficientRole,
    UserAlreadyExists,
    HashingFailed,
    SigningFailed,
}

} // verus!
