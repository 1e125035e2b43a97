//! What an administrator may do with any account.

use crate::constants::{
    ADMIN_SET_AS_USER, STATUS_CREATED, STATUS_OK, USER_CREATED, USER_DELETED, USER_INFOS_FETCHED,
    USER_INFO_FETCHED, USER_NOT_FOUND, USER_SET_AS_ADMIN, USER_UPDATED,
};
use crate::database::repository::{
    lookup, StoreRequest, StoreRequestView, UserChangeView, UserFilterView, UserRepository,
};
use crate::errors::{AppError, Failure};
use crate::handlers::steps::{
    acknowledge, found_view, free, new_record, new_user, require_found, require_free, required,
};
use crate::handlers::user::change_of;
use crate::models::request::{
    validation_outcome, CreateUserRequest, SetRoleRequest, UpdateUserRequest,
};
use crate::models::response::{says, HttpReply, Response, UserInfo};
use crate::models::user::{parse_requested_id, requested_id, User, UserId, UserView};
use crate::text::same_text;
use crate::utils::password::{hash_password, password_matches};
use crate::views::{error_of, failure_of, result_view};
use vstd::prelude::*;

verus! {

/// Whether `info` is what an administrator is shown of `user`.
pub open spec fn describes(info: UserInfo, user: UserView) -> bool {
    &&& info.id@ == user.id
    &&& info.email@ == user.email
    &&& info.username@ == user.username
    &&& info.is_admin == user.is_admin
}

/// The failure in place of the record that an administrator asks for: a
/// record that is not there is not found.
pub open spec fn wanted(found: Result<Option<UserView>, Failure>) -> Result<UserView, Failure> {
    required(found, Failure::NotFound(USER_NOT_FOUND@))
}

/// The first decision of every request about one account: the address
/// must name a record; then the store is asked for it.
pub open spec fn account_lookup(id: Seq<char>) -> Result<StoreRequestView, Failure> {
    match requested_id(id) {
        Ok(id) => Ok(lookup(id)),
        Err(e) => Err(e),
    }
}

/// The first decision of the creation of an account.
pub open spec fn creation_lookup(payload: CreateUserRequest) -> Result<StoreRequestView, Failure> {
    match validation_outcome(payload.complaints()) {
        Ok(_) => Ok(StoreRequestView::FindOne { filter: UserFilterView::ByEmail(payload.email@) }),
        Err(e) => Err(e),
    }
}

/// The second decision of the creation of an account, given the digest
/// of the password: the address must be free; the role is the one asked for.
pub open spec fn created(
    payload: CreateUserRequest,
    found: Result<Option<UserView>, Failure>,
    id: Seq<char>,
    digest: Result<Seq<char>, Failure>,
) -> Result<UserView, Failure> {
    match free(found) {
        Ok(_) => new_record(id, payload.email@, payload.username@, digest, payload.is_admin),
        Err(e) => Err(e),
    }
}

/// The first decision of a change to an account: the fields that are
/// there must have their form, and the address must name a record.
pub open spec fn update_lookup(id: Seq<char>, payload: UpdateUserRequest) -> Result<
    StoreRequestView,
    Failure,
> {
    match validation_outcome(payload.complaints()) {
        Ok(_) => account_lookup(id),
        Err(e) => Err(e),
    }
}

/// Whether a change to an account changes its e-mail address.
pub open spec fn changes_email(payload: UpdateUserRequest, user: UserView) -> bool {
    payload.email matches Some(email) && email@ != user.email
}

/// The question that the second decision of a change to an account may
/// raise: a new address must be asked for at the store.
pub open spec fn email_question(payload: UpdateUserRequest, user: UserView) -> Option<
    StoreRequestView,
> {
    if changes_email(payload, user) {
        Some(StoreRequestView::FindOne { filter: UserFilterView::ByEmail(payload.email->0@) })
    } else {
        None
    }
}

/// The changes to send for a change to an account, in this order: the
/// address, if it is a new one, which must then be free; the name, if one
/// is given; the digest of the password, if one is given.
pub open spec fn planned(
    payload: UpdateUserRequest,
    user: UserView,
    email_found: Result<Option<UserView>, Failure>,
    digest: Result<Seq<char>, Failure>,
) -> Result<Seq<StoreRequestView>, Failure> {
    let email_part = if changes_email(payload, user) {
        seq![change_of(user.id, UserChangeView::SetEmail(payload.email->0@))]
    } else {
        Seq::empty()
    };
    let username_part = match payload.username {
        Some(name) => seq![change_of(user.id, UserChangeView::SetUsername(name@))],
        None => Seq::empty(),
    };
    if changes_email(payload, user) && free(email_found) is Err {
        Err(free(email_found)->Err_0)
    } else if payload.password is Some && digest is Err {
        Err(digest->Err_0)
    } else {
        let password_part = if payload.password is Some {
            seq![change_of(user.id, UserChangeView::SetPasswordHash(digest->Ok_0))]
        } else {
            Seq::empty()
        };
        Ok(email_part + username_part + password_part)
    }
}

/// The views of a list of requests.
pub open spec fn requests_view(requests: Seq<StoreRequest>) -> Seq<StoreRequestView> {
    Seq::new(requests.len(), |i: int| requests[i]@)
}

/// The view of a plan, or the failure in its place.
pub open spec fn plan_view(plan: Result<Vec<StoreRequest>, AppError>) -> Result<
    Seq<StoreRequestView>,
    Failure,
> {
    match plan {
        Ok(requests) => Ok(requests_view(requests@)),
        Err(e) => Err(e@),
    }
}

/// What an administrator is shown of an account.
pub fn user_info(user: &User) -> (r: UserInfo)
    ensures
        describes(r, user@),
{
    UserInfo {
        id: user.id.to_hex(),
        email: user.email.clone(),
        username: user.username.clone(),
        is_admin: user.is_admin,
    }
}

/// List of accounts, first decision: the store is asked for all of them.
pub fn get_all_users(repo: &UserRepository) -> (r: StoreRequest)
    ensures
        r@ == StoreRequestView::FindAll,
{
    repo.find_all()
}

/// List of accounts, second decision: the reply shows every account, in
/// the order in which the store gave them.
pub fn get_all_users_reply(found: Result<Vec<User>, AppError>) -> (r: Result<
    HttpReply<Vec<UserInfo>>,
    AppError,
>)
    ensures
        failure_of(r) == failure_of(found),
        r matches Ok(reply) ==> says(reply, STATUS_OK as int, USER_INFOS_FETCHED@),
        r matches Ok(reply) ==> reply.body.data matches Some(infos) && found matches Ok(users)
            && infos@.len() == users@.len() && forall|i: int|
            0 <= i < users@.len() ==> describes(#[trigger] infos@[i], users@[i]@),
{
    let users = match found {
        Ok(users) => users,
        Err(e) => {
            return Err(e);
        },
    };
    let mut infos: Vec<UserInfo> = Vec::new();
    let mut i: usize = 0;
    while i < users.len()
        invariant
            i <= users.len(),
            infos@.len() == i,
            forall|j: int| 0 <= j < i ==> describes(#[trigger] infos@[j], users@[j]@),
        decreases users.len() - i,
    {
        infos.push(user_info(&users[i]));
        i = i + 1;
    }
    Ok(
        HttpReply {
            status: STATUS_OK,
            body: Response { msg: USER_INFOS_FETCHED.to_owned(), data: Some(infos) },
        },
    )
}

/// Creation of an account, first decision.
pub fn create_user(repo: &UserRepository, payload: &CreateUserRequest) -> (r: Result<
    StoreRequest,
    AppError,
>)
    ensures
        result_view(r) == creation_lookup(*payload),
{
    match payload.validate() {
        Ok(_) => Ok(repo.find_by_email(payload.email.as_str())),
        Err(e) => Err(e),
    }
}

/// Creation of an account, second decision: the record to create, under
/// the identifier `id`, which the caller has drawn for it.
pub fn create_user_found(
    payload: &CreateUserRequest,
    found: Result<Option<User>, AppError>,
    id: UserId,
) -> (r: Result<User, AppError>)
    ensures
        free(found_view(found)) matches Err(e) ==> failure_of(r) == Some(e),
        free(found_view(found)) is Ok ==> r is Ok || failure_of(r) == Some(Failure::Internal),
        r matches Ok(user) ==> created(*payload, found_view(found), id@, Ok(user.password_hash@))
            == Ok::<UserView, Failure>(user@),
        r matches Ok(user) ==> password_matches(user.password_hash@, payload.password@),
{
    match require_free(found) {
        Ok(_) => new_user(
            id,
            payload.email.as_str(),
            payload.username.as_str(),
            hash_password(payload.password.as_str()),
            payload.is_admin,
        ),
        Err(e) => Err(e),
    }
}

/// Creation of an account, third decision: the reply.
pub fn create_user_reply(sent: Result<(), AppError>) -> (r: Result<HttpReply<()>, AppError>)
    ensures
        failure_of(r) == failure_of(sent),
        r matches Ok(reply) ==> says(reply, STATUS_CREATED as int, USER_CREATED@)
            && reply.body.data is None,
{
    acknowledge(sent, STATUS_CREATED, USER_CREATED)
}

/// One account, first decision.
pub fn get_user_by_id(repo: &UserRepository, id: &str) -> (r: Result<StoreRequest, AppError>)
    ensures
        result_view(r) == account_lookup(id@),
{
    match parse_requested_id(id) {
        Ok(id) => Ok(repo.find_by_id(&id)),
        Err(e) => Err(e),
    }
}

/// One account, second decision: the reply.
pub fn get_user_by_id_reply(found: Result<Option<User>, AppError>) -> (r: Result<
    HttpReply<UserInfo>,
    AppError,
>)
    ensures
        failure_of(r) == error_of(wanted(found_view(found))),
        r matches Ok(reply) ==> says(reply, STATUS_OK as int, USER_INFO_FETCHED@),
        r matches Ok(reply) ==> reply.body.data matches Some(info) && found matches Ok(Some(user))
            && describes(info, user@),
{
    match require_found(found, AppError::NotFound(USER_NOT_FOUND.to_owned())) {
        Ok(user) => Ok(
            HttpReply {
                status: STATUS_OK,
                body: Response { msg: USER_INFO_FETCHED.to_owned(), data: Some(user_info(&user)) },
            },
        ),
        Err(e) => Err(e),
    }
}

/// Change to an account, first decision.
pub fn update_user(repo: &UserRepository, id: &str, payload: &UpdateUserRequest) -> (r: Result<
    StoreRequest,
    AppError,
>)
    ensures
        result_view(r) == update_lookup(id@, *payload),
{
    match payload.validate() {
        Ok(_) => get_user_by_id(repo, id),
        Err(e) => Err(e),
    }
}

/// Change to an account, second decision: the account, and the question
/// to ask the store about a new address, if there is one to ask.
pub fn update_user_found(
    repo: &UserRepository,
    payload: &UpdateUserRequest,
    found: Result<Option<User>, AppError>,
) -> (r: Result<(User, Option<StoreRequest>), AppError>)
    ensures
        failure_of(r) == error_of(wanted(found_view(found))),
        r matches Ok(pair) ==> wanted(found_view(found)) == Ok::<UserView, Failure>(pair.0@),
        r matches Ok(pair) ==> crate::views::option_view(pair.1) == email_question(
            *payload,
            pair.0@,
        ),
{
    let user = match require_found(found, AppError::NotFound(USER_NOT_FOUND.to_owned())) {
        Ok(user) => user,
        Err(e) => {
            return Err(e);
        },
    };
    let question = match &payload.email {
        Some(email) => if same_text(email.as_str(), user.email.as_str()) {
            None
        } else {
            Some(repo.find_by_email(email.as_str()))
        },
        None => None,
    };
    Ok((user, question))
}

/// Change to an account, third decision, given the digest of the new
/// password: the changes to send, one after the other; a change that fails
/// ends the sending.
///
/// `email_found` is the store's answer to the question of the second
/// decision, and `digest` the digest of `payload.password`; either is read
/// only where the payload calls for it.
pub fn plan_changes(
    repo: &UserRepository,
    payload: &UpdateUserRequest,
    user: &User,
    email_found: Result<Option<User>, AppError>,
    digest: Result<String, AppError>,
) -> (r: Result<Vec<StoreRequest>, AppError>)
    ensures
        plan_view(r) == planned(*payload, user@, found_view(email_found), result_view(digest)),
{
    let mut requests: Vec<StoreRequest> = Vec::new();
    match &payload.email {
        Some(email) => if !same_text(email.as_str(), user.email.as_str()) {
            match require_free(email_found) {
                Ok(_) => {
                    requests.push(repo.update_email(&user.id, email.as_str()));
                },
                Err(e) => {
                    return Err(e);
                },
            }
        },
        None => {},
    }
    match &payload.username {
        Some(name) => {
            requests.push(repo.update_username(&user.id, name.as_str()));
        },
        None => {},
    }
    match &payload.password {
        Some(_) => match digest {
            Ok(d) => {
                requests.push(repo.update_password(&user.id, d.as_str()));
            },
            Err(e) => {
                return Err(e);
            },
        },
        None => {},
    }
    assert(requests_view(requests@) =~= planned(
        *payload,
        user@,
        found_view(email_found),
        result_view(digest),
    )->Ok_0);
    Ok(requests)
}

/// Change to an account, third decision.
pub fn update_user_changes(
    repo: &UserRepository,
    payload: &UpdateUserRequest,
    user: &User,
    email_found: Result<Option<User>, AppError>,
) -> (r: Result<Vec<StoreRequest>, AppError>)
    ensures
        exists|digest: Result<Seq<char>, Failure>|
            (digest matches Ok(d) ==> payload.password matches Some(p) ==> password_matches(d, p@))
                && plan_view(r) == #[trigger] planned(
                *payload,
                user@,
                found_view(email_found),
                digest,
            ),
{
    let digest = match &payload.password {
        Some(password) => hash_password(password.as_str()),
        None => Err(AppError::Internal),
    };
    let ghost witness = result_view(digest);
    let r = plan_changes(repo, payload, user, email_found, digest);
    assert(plan_view(r) == planned(*payload, user@, found_view(email_found), witness));
    r
}

/// Change to an account, fourth decision: the reply.
pub fn update_user_reply(sent: Result<(), AppError>) -> (r: Result<HttpReply<()>, AppError>)
    ensures
        failure_of(r) == failure_of(sent),
        r matches Ok(reply) ==> says(reply, STATUS_OK as int, USER_UPDATED@) && reply.body.data
            is None,
{
    acknowledge(sent, STATUS_OK, USER_UPDATED)
}

/// Removal of an account, first decision.
pub fn delete_user(repo: &UserRepository, id: &str) -> (r: Result<StoreRequest, AppError>)
    ensures
        result_view(r) == account_lookup(id@),
{
    get_user_by_id(repo, id)
}

/// The second decision of a removal: there must be such an account;
/// then the store is asked to remove it.
pub open spec fn removal(found: Result<Option<UserView>, Failure>) -> Result<
    StoreRequestView,
    Failure,
> {
    match wanted(found) {
        Ok(user) => Ok(StoreRequestView::DeleteOne { filter: UserFilterView::ById(user.id) }),
        Err(e) => Err(e),
    }
}

/// Removal of an account, second decision.
pub fn delete_user_found(repo: &UserRepository, found: Result<Option<User>, AppError>) -> (r:
    Result<StoreRequest, AppError>)
    ensures
        result_view(r) == removal(found_view(found)),
{
    match require_found(found, AppError::NotFound(USER_NOT_FOUND.to_owned())) {
        Ok(user) => Ok(repo.delete_by_id(&user.id)),
        Err(e) => Err(e),
    }
}

/// Removal of an account, third decision: the reply.
pub fn delete_user_reply(sent: Result<(), AppError>) -> (r: Result<HttpReply<()>, AppError>)
    ensures
        failure_of(r) == failure_of(sent),
        r matches Ok(reply) ==> says(reply, STATUS_OK as int, USER_DELETED@) && reply.body.data
            is None,
{
    acknowledge(sent, STATUS_OK, USER_DELETED)
}

/// Change of role, first decision.
pub fn set_admin(repo: &UserRepository, id: &str) -> (r: Result<StoreRequest, AppError>)
    ensures
        result_view(r) == account_lookup(id@),
{
    get_user_by_id(repo, id)
}

/// The second decision of a change of role: there must be such an
/// account; then the store is asked to write the role.
pub open spec fn role_change(is_admin: bool, found: Result<Option<UserView>, Failure>) -> Result<
    StoreRequestView,
    Failure,
> {
    match wanted(found) {
        Ok(user) => Ok(change_of(user.id, UserChangeView::SetAdmin(is_admin))),
        Err(e) => Err(e),
    }
}

/// The message that acknowledges a change of role.
pub open spec fn role_message(is_admin: bool) -> Seq<char> {
    if is_admin {
        USER_SET_AS_ADMIN@
    } else {
        ADMIN_SET_AS_USER@
    }
}

/// Change of role, second decision.
pub fn set_admin_found(
    repo: &UserRepository,
    payload: &SetRoleRequest,
    found: Result<Option<User>, AppError>,
) -> (r: Result<StoreRequest, AppError>)
    ensures
        result_view(r) == role_change(payload.is_admin, found_view(found)),
{
    match require_found(found, AppError::NotFound(USER_NOT_FOUND.to_owned())) {
        Ok(user) => Ok(repo.set_admin(&user.id, payload.is_admin)),
        Err(e) => Err(e),
    }
}

/// Change of role, third decision: the reply.
pub fn set_admin_reply(payload: &SetRoleRequest, sent: Result<(), AppError>) -> (r: Result<
    HttpReply<()>,
    AppError,
>)
    ensures
        failure_of(r) == failure_of(sent),
        r matches Ok(reply) ==> says(reply, STATUS_OK as int, role_message(payload.is_admin))
            && reply.body.data is None,
{
    let message = if payload.is_admin {
        USER_SET_AS_ADMIN
    } else {
        ADMIN_SET_AS_USER
    };
    acknowledge(sent, STATUS_OK, message)
}

} // verus!
