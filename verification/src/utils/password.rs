//! Credentials: a secret is stored as a slow, salted digest and compared
//! against it. Both are the work of `bcrypt`.

use crate::constants::INVALID_CREDENTIALS;
use crate::errors::{AppError, Failure};
use crate::views::unit_view;
use vstd::prelude::*;

verus! {

/// What `bcrypt::verify` makes of a secret and a digest: whether they
/// match, or nothing where the digest is none that it can read.
pub uninterp spec fn bcrypt_verified(plain: Seq<char>, digest: Seq<char>) -> Option<bool>;

/// `bcrypt::verify`.
///
/// Trusted: the result is a function of the arguments.
#[verifier::external_body]
fn bcrypt_verify(plain: &str, digest: &str) -> (r: Option<bool>)
    ensures
        r == bcrypt_verified(plain@, digest@),
{
    bcrypt::verify(plain, digest).ok()
}

/// `bcrypt::hash` at `bcrypt::DEFAULT_COST`. The salt is drawn at random,
/// so two calls on one secret differ.
///
/// Trusted: whatever digest comes back is one that `bcrypt::verify`
/// matches with the secret it was made from.
#[verifier::external_body]
fn bcrypt_hash(plain: &str) -> (r: Option<String>)
    ensures
        r matches Some(digest) ==> bcrypt_verified(plain@, digest@) == Some(true),
{
    bcrypt::hash(plain, bcrypt::DEFAULT_COST).ok()
}

/// Whether `digest` is one that the secret `plain` matches.
pub open spec fn password_matches(digest: Seq<char>, plain: Seq<char>) -> bool {
    bcrypt_verified(plain, digest) == Some(true)
}

/// What a comparison comes to for the caller: a digest that cannot be
/// read and a secret that does not match are told in the same words.
pub open spec fn comparison_outcome(verified: Option<bool>) -> Result<(), Failure> {
    if verified == Some(true) {
        Ok(())
    } else {
        Err(Failure::Unauthorized(INVALID_CREDENTIALS@))
    }
}

/// The digest of a secret. A failure is the service's own.
pub fn hash_password(plain: &str) -> (r: Result<String, AppError>)
    ensures
        r matches Ok(digest) ==> password_matches(digest@, plain@),
        r matches Err(e) ==> e@ == Failure::Internal,
{
    match bcrypt_hash(plain) {
        Some(digest) => Ok(digest),
        None => Err(AppError::Internal),
    }
}

/// Judges what a comparison gave.
pub fn judge_comparison(verified: Option<bool>) -> (r: Result<(), AppError>)
    ensures
        unit_view(r) == comparison_outcome(verified),
{
    match verified {
        Some(true) => Ok(()),
        _ => Err(AppError::Unauthorized(INVALID_CREDENTIALS.to_owned())),
    }
}

/// Compares a secret against a stored digest.
pub fn verify_password(hash: &str, plain: &str) -> (r: Result<(), AppError>)
    ensures
        unit_view(r) == comparison_outcome(bcrypt_verified(plain@, hash@)),
        r is Ok <==> password_matches(hash@, plain@),
{
    judge_comparison(bcrypt_verify(plain, hash))
}

} // verus!
