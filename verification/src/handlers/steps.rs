//! Decisions that several endpoints share.

use crate::constants::EMAIL_ALREADY_EXISTS;
use crate::errors::{AppError, Failure};
use crate::models::response::{says, HttpReply, Response};
use crate::models::user::{User, UserId, UserView};
use crate::views::{failure_of, option_view, result_view, unit_view};
use vstd::prelude::*;

verus! {

/// The view of an answer of the user store to a search for one record.
pub open spec fn found_view(found: Result<Option<User>, AppError>) -> Result<
    Option<UserView>,
    Failure,
> {
    match found {
        Ok(record) => Ok(option_view(record)),
        Err(e) => Err(e@),
    }
}

/// The record that a search must have found: the failure of the store
/// goes through as it is, and a search that found nothing fails as `missing`.
pub open spec fn required(found: Result<Option<UserView>, Failure>, missing: Failure) -> Result<
    UserView,
    Failure,
> {
    match found {
        Ok(Some(user)) => Ok(user),
        Ok(None) => Err(missing),
        Err(e) => Err(e),
    }
}

/// An e-mail address must not be taken: a search for it that found a
/// record is a conflict.
pub open spec fn free(found: Result<Option<UserView>, Failure>) -> Result<(), Failure> {
    match found {
        Ok(Some(_)) => Err(Failure::Conflict(EMAIL_ALREADY_EXISTS@)),
        Ok(None) => Ok(()),
        Err(e) => Err(e),
    }
}

/// A new record: the digest must have been made; the session version
/// starts at 0.
pub open spec fn new_record(
    id: Seq<char>,
    email: Seq<char>,
    username: Seq<char>,
    digest: Result<Seq<char>, Failure>,
    is_admin: bool,
) -> Result<UserView, Failure> {
    match digest {
        Ok(password_hash) => Ok(
            UserView { id, email, username, password_hash, is_admin, token_version: 0 },
        ),
        Err(e) => Err(e),
    }
}

/// Replies to a write that the store has answered.
pub fn acknowledge(sent: Result<(), AppError>, status: u16, message: &str) -> (r: Result<
    HttpReply<()>,
    AppError,
>)
    ensures
        failure_of(r) == failure_of(sent),
        r matches Ok(reply) ==> says(reply, status as int, message@) && reply.body.data is None,
{
    match sent {
        Ok(_) => Ok(HttpReply { status, body: Response { msg: message.to_owned(), data: None } }),
        Err(e) => Err(e),
    }
}

/// The record that a search must have found.
pub fn require_found(found: Result<Option<User>, AppError>, missing: AppError) -> (r: Result<
    User,
    AppError,
>)
    ensures
        result_view(r) == required(found_view(found), missing@),
{
    match found {
        Ok(Some(user)) => Ok(user),
        Ok(None) => Err(missing),
        Err(e) => Err(e),
    }
}

/// An e-mail address must not be taken.
pub fn require_free(found: Result<Option<User>, AppError>) -> (r: Result<(), AppError>)
    ensures
        unit_view(r) == free(found_view(found)),
{
    match found {
        Ok(Some(_)) => Err(AppError::Conflict(EMAIL_ALREADY_EXISTS.to_owned())),
        Ok(None) => Ok(()),
        Err(e) => Err(e),
    }
}

/// A new record.
pub fn new_user(
    id: UserId,
    email: &str,
    username: &str,
    digest: Result<String, AppError>,
    is_admin: bool,
) -> (r: Result<User, AppError>)
    ensures
        result_view(r) == new_record(id@, email@, username@, result_view(digest), is_admin),
{
    match digest {
        Ok(password_hash) => Ok(
            User {
                id,
                email: email.to_owned(),
                username: username.to_owned(),
                password_hash,
                is_admin,
                token_version: 0,
            },
        ),
        Err(e) => Err(e),
    }
}

} // verus!
