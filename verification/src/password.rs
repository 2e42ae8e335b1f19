//! Salted one-way hashing of passwords, and their verification.
//!
//! The work is bcrypt's. Its two entry points stand here behind contracts that
//! are believed, not proved; everything else is proved from them.

use crate::error::{AppError, AppErrorView, INTERNAL_SERVER_ERROR};
use vstd::prelude::*;
use vstd::string::*;

verus! {

#[verifier::external_type_specification]
#[verifier::external_body]
pub struct ExBcryptError(bcrypt::BcryptError);

/// What `bcrypt::verify` answers for a password and a digest: `Some(true)` if
/// the digest was made from the password, `Some(false)` if it was made from
/// another one, `None` if the digest cannot be read as one.
pub uninterp spec fn bcrypt_answer(password: Seq<u8>, digest: Seq<char>) -> Option<bool>;

/// Calls `bcrypt::verify`. The contract claims that its answer depends on the
/// password and the digest alone, and gives that answer its name.
#[verifier::external_body]
fn bcrypt_verify(password: &[u8], digest: &str) -> (r: Result<bool, bcrypt::BcryptError>)
    ensures
        bcrypt_answer(password@, digest@) == (match r {
            Ok(same) => Some(same),
            Err(_) => None,
        }),
{
    bcrypt::verify(password, digest)
}

/// Calls `bcrypt::hash` at bcrypt's default cost. The salt is drawn at random,
/// so two calls on one password differ. The contract claims of every digest
/// that comes back only that `bcrypt::verify` accepts the password against it:
/// the digest carries its cost and salt, and verifying recomputes with both.
#[verifier::external_body]
fn bcrypt_hash(password: &[u8]) -> (r: Result<String, bcrypt::BcryptError>)
    ensures
        r matches Ok(digest) ==> bcrypt_answer(password@, digest@) == Some(true),
{
    bcrypt::hash(password, bcrypt::DEFAULT_COST)
}

/// Whether `digest` was made from `plaintext`.
pub open spec fn password_matches(plaintext: Seq<char>, digest: Seq<char>) -> bool {
    bcrypt_answer(vstd::utf8::encode_utf8(plaintext), digest) == Some(true)
}

/// The error that reports that a password could not be hashed.
pub open spec fn hash_failure() -> AppErrorView {
    AppErrorView::HttpError(INTERNAL_SERVER_ERROR, "Failed to hash password"@)
}

/// The error that reports that a password could not be held against a digest.
pub open spec fn verify_failure() -> AppErrorView {
    AppErrorView::HttpError(INTERNAL_SERVER_ERROR, "Failed to verify password"@)
}

/// What verifying answers, given what bcrypt answered: the answer itself, or an
/// internal error where there is none. A wrong password is `Ok(false)`, never
/// an error.
pub open spec fn verification(answer: Option<bool>) -> Result<bool, AppErrorView> {
    match answer {
        Some(same) => Ok(same),
        None => Err(verify_failure()),
    }
}

/// The view of what verifying returned.
pub open spec fn verified_view(r: Result<bool, AppError>) -> Result<bool, AppErrorView> {
    match r {
        Ok(same) => Ok(same),
        Err(e) => Err(e@),
    }
}

/// Hashes a password with a fresh salt. Every digest handed out matches the
/// password; where the primitive fails, the error says so.
pub fn hash_password(plaintext: &str) -> (r: Result<String, AppError>)
    ensures
        match r {
            Ok(digest) => password_matches(plaintext@, digest@),
            Err(e) => e@ == hash_failure(),
        },
{
    match bcrypt_hash(plaintext.as_bytes()) {
        Ok(digest) => Ok(digest),
        Err(_) => Err(
            AppError::HttpError(INTERNAL_SERVER_ERROR, "Failed to hash password".to_owned()),
        ),
    }
}

/// Holds a password against a digest.
pub fn verify_password(plaintext: &str, digest: &str) -> (r: Result<bool, AppError>)
    ensures
        verified_view(r) == verification(
            bcrypt_answer(vstd::utf8::encode_utf8(plaintext@), digest@),
        ),
{
    match bcrypt_verify(plaintext.as_bytes(), digest) {
        Ok(same) => Ok(same),
        Err(_) => Err(
            AppError::HttpError(INTERNAL_SERVER_ERROR, "Failed to verify password".to_owned()),
        ),
    }
}

} // verus!
