//! What a user may do with their own account.

use crate::auth::user::AuthenticatedUser;
use crate::constants::{
    EMAIL_UPDATED, INVALID_OLD_PASSWORD, PASSWORD_UPDATED, PROFILE_FETCHED, STATUS_OK,
    USERNAME_UPDATED, USER_NOT_FOUND,
};
use crate::database::repository::{
    lookup, StoreRequest, StoreRequestView, UserChangeView, UserFilterView, UserRepository,
};
use crate::errors::{AppError, Failure};
use crate::handlers::steps::{
    acknowledge, found_view, free, require_found, require_free, required,
};
use crate::models::request::{
    validation_outcome, UpdateEmailRequest, UpdatePasswordRequest, UpdateUsernameRequest,
};
use crate::models::response::{says, AboutMe, HttpReply, Response};
use crate::models::user::{caller_id, parse_caller_id, User, UserView};
use crate::utils::password::{hash_password, password_matches, verify_password};
use crate::views::{error_of, failure_of, result_view};
use vstd::prelude::*;

verus! {

/// The request that changes one field of the record under `id`.
pub open spec fn change_of(id: Seq<char>, change: UserChangeView) -> StoreRequestView {
    StoreRequestView::UpdateOne { filter: UserFilterView::ById(id), change }
}

/// The first decision of "who am I": the caller's identifier must name
/// a record; then the store is asked for it.
pub open spec fn own_lookup(user_id: Seq<char>) -> Result<StoreRequestView, Failure> {
    match caller_id(user_id) {
        Ok(id) => Ok(lookup(id)),
        Err(e) => Err(e),
    }
}

/// The first decision of a change of address: the address must have its
/// form; then the store is asked whether it is taken.
pub open spec fn email_lookup(payload: UpdateEmailRequest) -> Result<StoreRequestView, Failure> {
    match validation_outcome(payload.complaints()) {
        Ok(_) => Ok(StoreRequestView::FindOne { filter: UserFilterView::ByEmail(payload.email@) }),
        Err(e) => Err(e),
    }
}

/// The second decision of a change of address: the address must be free
/// and the caller's identifier must name a record; then the store is asked
/// to write the address.
pub open spec fn email_change(
    user_id: Seq<char>,
    payload: UpdateEmailRequest,
    found: Result<Option<UserView>, Failure>,
) -> Result<StoreRequestView, Failure> {
    match free(found) {
        Err(e) => Err(e),
        Ok(_) => match caller_id(user_id) {
            Ok(id) => Ok(change_of(id, UserChangeView::SetEmail(payload.email@))),
            Err(e) => Err(e),
        },
    }
}

/// The first decision of a change of name.
pub open spec fn username_change(user_id: Seq<char>, payload: UpdateUsernameRequest) -> Result<
    StoreRequestView,
    Failure,
> {
    match validation_outcome(payload.complaints()) {
        Err(e) => Err(e),
        Ok(_) => match caller_id(user_id) {
            Ok(id) => Ok(change_of(id, UserChangeView::SetUsername(payload.username@))),
            Err(e) => Err(e),
        },
    }
}

/// The first decision of a change of password: the new password must
/// have its length and the caller's identifier must name a record; then the
/// store is asked for the record.
pub open spec fn password_lookup(user_id: Seq<char>, payload: UpdatePasswordRequest) -> Result<
    StoreRequestView,
    Failure,
> {
    match validation_outcome(payload.complaints()) {
        Err(e) => Err(e),
        Ok(_) => own_lookup(user_id),
    }
}

/// The second decision of a change of password, up to the new digest:
/// there must be a record, and the old password must match its digest.
pub open spec fn old_password_checked(
    payload: UpdatePasswordRequest,
    found: Result<Option<UserView>, Failure>,
) -> Result<Seq<char>, Failure> {
    match required(found, Failure::Unauthorized(USER_NOT_FOUND@)) {
        Err(e) => Err(e),
        Ok(user) => if password_matches(user.password_hash, payload.old_password@) {
            Ok(user.id)
        } else {
            Err(Failure::Unauthorized(INVALID_OLD_PASSWORD@))
        },
    }
}

/// The request that writes a new digest, given the digest.
pub open spec fn password_change(id: Result<Seq<char>, Failure>, digest: Result<Seq<char>, Failure>) -> Result<
    StoreRequestView,
    Failure,
> {
    match id {
        Err(e) => Err(e),
        Ok(id) => match digest {
            Ok(d) => Ok(change_of(id, UserChangeView::SetPasswordHash(d))),
            Err(e) => Err(e),
        },
    }
}

/// "Who am I", first decision.
pub fn get_me(repo: &UserRepository, user: &AuthenticatedUser) -> (r: Result<
    StoreRequest,
    AppError,
>)
    ensures
        result_view(r) == own_lookup(user.user_id@),
{
    match parse_caller_id(user.user_id.as_str()) {
        Ok(id) => Ok(repo.find_by_id(&id)),
        Err(e) => Err(e),
    }
}

/// "Who am I", second decision: the reply.
pub fn get_me_reply(found: Result<Option<User>, AppError>) -> (r: Result<
    HttpReply<AboutMe>,
    AppError,
>)
    ensures
        failure_of(r) == error_of(
            required(found_view(found), Failure::Unauthorized(USER_NOT_FOUND@)),
        ),
        r matches Ok(reply) ==> says(reply, STATUS_OK as int, PROFILE_FETCHED@),
        r matches Ok(reply) ==> reply.body.data matches Some(me) && found matches Ok(Some(user))
            && me.email@ == user.email@ && me.username@ == user.username@,
{
    match require_found(found, AppError::Unauthorized(USER_NOT_FOUND.to_owned())) {
        Ok(user) => Ok(
            HttpReply {
                status: STATUS_OK,
                body: Response {
                    msg: PROFILE_FETCHED.to_owned(),
                    data: Some(AboutMe { email: user.email, username: user.username }),
                },
            },
        ),
        Err(e) => Err(e),
    }
}

/// Change of address, first decision.
pub fn update_email(repo: &UserRepository, payload: &UpdateEmailRequest) -> (r: Result<
    StoreRequest,
    AppError,
>)
    ensures
        result_view(r) == email_lookup(*payload),
{
    match payload.validate() {
        Ok(_) => Ok(repo.find_by_email(payload.email.as_str())),
        Err(e) => Err(e),
    }
}

/// Change of address, second decision.
pub fn update_email_found(
    repo: &UserRepository,
    user: &AuthenticatedUser,
    payload: &UpdateEmailRequest,
    found: Result<Option<User>, AppError>,
) -> (r: Result<StoreRequest, AppError>)
    ensures
        result_view(r) == email_change(user.user_id@, *payload, found_view(found)),
{
    match require_free(found) {
        Err(e) => Err(e),
        Ok(_) => match parse_caller_id(user.user_id.as_str()) {
            Ok(id) => Ok(repo.update_email(&id, payload.email.as_str())),
            Err(e) => Err(e),
        },
    }
}

/// Change of address, third decision: the reply.
pub fn update_email_reply(sent: Result<(), AppError>) -> (r: Result<HttpReply<()>, AppError>)
    ensures
        failure_of(r) == failure_of(sent),
        r matches Ok(reply) ==> says(reply, STATUS_OK as int, EMAIL_UPDATED@) && reply.body.data
            is None,
{
    acknowledge(sent, STATUS_OK, EMAIL_UPDATED)
}

/// Change of name, first decision.
pub fn update_username(
    repo: &UserRepository,
    user: &AuthenticatedUser,
    payload: &UpdateUsernameRequest,
) -> (r: Result<StoreRequest, AppError>)
    ensures
        result_view(r) == username_change(user.user_id@, *payload),
{
    match payload.validate() {
        Err(e) => Err(e),
        Ok(_) => match parse_caller_id(user.user_id.as_str()) {
            Ok(id) => Ok(repo.update_username(&id, payload.username.as_str())),
            Err(e) => Err(e),
        },
    }
}

/// Change of name, second decision: the reply.
pub fn update_username_reply(sent: Result<(), AppError>) -> (r: Result<HttpReply<()>, AppError>)
    ensures
        failure_of(r) == failure_of(sent),
        r matches Ok(reply) ==> says(reply, STATUS_OK as int, USERNAME_UPDATED@) && reply.body.data
            is None,
{
    acknowledge(sent, STATUS_OK, USERNAME_UPDATED)
}

/// Change of password, first decision.
pub fn update_password(
    repo: &UserRepository,
    user: &AuthenticatedUser,
    payload: &UpdatePasswordRequest,
) -> (r: Result<StoreRequest, AppError>)
    ensures
        result_view(r) == password_lookup(user.user_id@, *payload),
{
    match payload.validate() {
        Err(e) => Err(e),
        Ok(_) => get_me(repo, user),
    }
}

/// Change of password, second decision: the request that writes the
/// digest of the new password.
pub fn update_password_found(
    repo: &UserRepository,
    payload: &UpdatePasswordRequest,
    found: Result<Option<User>, AppError>,
) -> (r: Result<StoreRequest, AppError>)
    ensures
        old_password_checked(*payload, found_view(found)) matches Err(e) ==> failure_of(r) == Some(
            e,
        ),
        old_password_checked(*payload, found_view(found)) is Ok ==> r is Ok || failure_of(r)
            == Some(Failure::Internal),
        r matches Ok(request) ==> exists|digest: Seq<char>|
            password_matches(digest, payload.new_password@) && #[trigger] password_change(
                old_password_checked(*payload, found_view(found)),
                Ok(digest),
            ) == Ok::<StoreRequestView, Failure>(request@),
{
    let user = match require_found(found, AppError::Unauthorized(USER_NOT_FOUND.to_owned())) {
        Ok(user) => user,
        Err(e) => {
            return Err(e);
        },
    };
    if verify_password(user.password_hash.as_str(), payload.old_password.as_str()).is_err() {
        return Err(AppError::Unauthorized(INVALID_OLD_PASSWORD.to_owned()));
    }
    match hash_password(payload.new_password.as_str()) {
        Ok(digest) => {
            let request = repo.update_password(&user.id, digest.as_str());
            assert(password_change(
                old_password_checked(*payload, found_view(found)),
                Ok(digest@),
            ) == Ok::<StoreRequestView, Failure>(request@));
            Ok(request)
        },
        Err(e) => Err(e),
    }
}

/// Change of password, third decision: the reply.
pub fn update_password_reply(sent: Result<(), AppError>) -> (r: Result<HttpReply<()>, AppError>)
    ensures
        failure_of(r) == failure_of(sent),
        r matches Ok(reply) ==> says(reply, STATUS_OK as int, PASSWORD_UPDATED@) && reply.body.data
            is None,
{
    acknowledge(sent, STATUS_OK, PASSWORD_UPDATED)
}

} // verus!
