//! Registration, login and logout.

use crate::auth::user::AuthenticatedUser;
use crate::config::app_config::AppConfig;
use crate::constants::{
    INVALID_CREDENTIALS, LOGIN_SUCCESS, LOGOUT_SUCCESS, REGISTER_SUCCESS, STATUS_OK,
};
use crate::database::ledger::{revocation, LedgerCommand, TokenBlacklist};
use crate::database::repository::{
    version_bump, StoreRequest, StoreRequestView, UserFilterView, UserRepository, Users,
};
use crate::errors::{AppError, Failure};
use crate::handlers::steps::{found_view, free, new_record, new_user, require_free};
use crate::models::request::{validation_outcome, LoginRequest, RegisterRequest};
use crate::models::response::{says, HttpReply, Response, Token};
use crate::models::user::{User, UserId, UserView};
use crate::utils::password::{
    bcrypt_verified, comparison_outcome, hash_password, password_matches, verify_password,
};
use crate::utils::token::{generate_token_at, issued_claims, issued_token};
use crate::views::{failure_of, option_view, result_view};
use vstd::prelude::*;

verus! {

/// The token that a reply carries, or the failure in place of a reply.
pub open spec fn token_view(outcome: Result<HttpReply<Token>, AppError>) -> Result<
    Seq<char>,
    Failure,
> {
    match outcome {
        Ok(reply) => match reply.body.data {
            Some(t) => Ok(t.token@),
            None => Err(Failure::Internal),
        },
        Err(e) => Err(e@),
    }
}

/// The first decision of a registration: the fields must have their
/// form; then the store is asked for the e-mail address.
pub open spec fn register_lookup(payload: RegisterRequest) -> Result<StoreRequestView, Failure> {
    match validation_outcome(payload.complaints()) {
        Ok(_) => Ok(StoreRequestView::FindOne { filter: UserFilterView::ByEmail(payload.email@) }),
        Err(e) => Err(e),
    }
}

/// The second decision of a registration, given the digest of the
/// password: the address must be free; the new account is no administrator.
pub open spec fn registered(
    payload: RegisterRequest,
    found: Result<Option<UserView>, Failure>,
    id: Seq<char>,
    digest: Result<Seq<char>, Failure>,
) -> Result<UserView, Failure> {
    match free(found) {
        Ok(_) => new_record(id, payload.email@, payload.username@, digest, false),
        Err(e) => Err(e),
    }
}

/// The token for a user once the store has acknowledged a write: the
/// failure of the store goes through; else a token is issued at the second
/// `now` for the given session version.
pub open spec fn token_after(
    sent: Option<Failure>,
    secret: Seq<char>,
    hours: int,
    id: Seq<char>,
    version: int,
    now: int,
) -> Result<Seq<char>, Failure> {
    match sent {
        Some(e) => Err(e),
        None => issued_token(secret, hours, id, version, now),
    }
}

/// The first decision of a login: the address must have its form; then
/// the store is asked for it.
pub open spec fn login_lookup(payload: LoginRequest) -> Result<StoreRequestView, Failure> {
    match validation_outcome(payload.complaints()) {
        Ok(_) => Ok(StoreRequestView::FindOne { filter: UserFilterView::ByEmail(payload.email@) }),
        Err(e) => Err(e),
    }
}

/// The second decision of a login: there must be an account, and the
/// password must match its digest. An unknown account and a wrong
/// password are refused in the same words. A session version that cannot
/// be raised any further is a failure of the service: the login fails and
/// the store is asked for nothing. Else the store is asked to raise the
/// session version.
pub open spec fn login_checked(payload: LoginRequest, found: Result<Option<UserView>, Failure>) -> Result<
    Seq<char>,
    Failure,
> {
    match found {
        Err(e) => Err(e),
        Ok(None) => Err(Failure::Unauthorized(INVALID_CREDENTIALS@)),
        Ok(Some(user)) => match comparison_outcome(
            bcrypt_verified(payload.password@, user.password_hash),
        ) {
            Ok(_) => if user.token_version < i32::MAX {
                Ok(user.id)
            } else {
                Err(Failure::Internal)
            },
            Err(e) => Err(e),
        },
    }
}

/// The third decision of a login, given the session version that the
/// store reports: a record that is gone is an unknown account; else a
/// token is issued that carries the reported version.
pub open spec fn login_issued(
    secret: Seq<char>,
    hours: int,
    id: Seq<char>,
    bumped: Result<Option<i32>, Failure>,
    now: int,
) -> Result<Seq<char>, Failure> {
    match bumped {
        Err(e) => Err(e),
        Ok(None) => Err(Failure::Unauthorized(INVALID_CREDENTIALS@)),
        Ok(Some(version)) => issued_token(secret, hours, id, version as int, now),
    }
}

/// The view of the store's report on a raised session version.
pub open spec fn bumped_view(bumped: Result<Option<i32>, AppError>) -> Result<Option<i32>, Failure> {
    match bumped {
        Ok(v) => Ok(v),
        Err(e) => Err(e@),
    }
}

/// For how long a token that expires at `exp` is revoked at the second
/// `now`: for the rest of its life, and never for more seconds than the
/// ledger can count.
pub open spec fn logout_seconds(exp: nat, now: int) -> int {
    if exp - now > i64::MAX {
        i64::MAX as int
    } else {
        exp - now
    }
}

/// Registration, first decision.
pub fn register(repo: &UserRepository, payload: &RegisterRequest) -> (r: Result<
    StoreRequest,
    AppError,
>)
    ensures
        result_view(r) == register_lookup(*payload),
{
    match payload.validate() {
        Ok(_) => Ok(repo.find_by_email(payload.email.as_str())),
        Err(e) => Err(e),
    }
}

/// Registration, second decision: the record to create, under the
/// identifier `id`, which the caller has drawn for it.
pub fn register_user(
    payload: &RegisterRequest,
    found: Result<Option<User>, AppError>,
    id: UserId,
) -> (r: Result<User, AppError>)
    ensures
        free(found_view(found)) matches Err(e) ==> failure_of(r) == Some(e),
        free(found_view(found)) is Ok ==> r is Ok || failure_of(r) == Some(Failure::Internal),
        r matches Ok(user) ==> registered(
            *payload,
            found_view(found),
            id@,
            Ok(user.password_hash@),
        ) == Ok::<UserView, Failure>(user@),
        r matches Ok(user) ==> password_matches(user.password_hash@, payload.password@),
{
    match require_free(found) {
        Ok(_) => new_user(
            id,
            payload.email.as_str(),
            payload.username.as_str(),
            hash_password(payload.password.as_str()),
            false,
        ),
        Err(e) => Err(e),
    }
}

/// Registration, third decision: the reply, once the store has
/// acknowledged the new record.
pub fn register_reply(cfg: &AppConfig, user: &User, sent: Result<(), AppError>, now: i64) -> (r:
    Result<HttpReply<Token>, AppError>)
    ensures
        token_view(r) == token_after(
            failure_of(sent),
            cfg.jwt_secret@,
            cfg.jwt_exp_hours as int,
            user.id@,
            user.token_version as int,
            now as int,
        ),
        r matches Ok(reply) ==> says(reply, STATUS_OK as int, REGISTER_SUCCESS@),
        r matches Ok(reply) ==> reply.body.data is Some,
{
    match sent {
        Ok(_) => token_reply(cfg, &user.id, user.token_version, now, REGISTER_SUCCESS),
        Err(e) => Err(e),
    }
}

/// Issues a token and wraps it into a reply.
fn token_reply(cfg: &AppConfig, id: &UserId, version: i32, now: i64, message: &str) -> (r: Result<
    HttpReply<Token>,
    AppError,
>)
    ensures
        token_view(r) == issued_token(
            cfg.jwt_secret@,
            cfg.jwt_exp_hours as int,
            id@,
            version as int,
            now as int,
        ),
        r matches Ok(reply) ==> says(reply, STATUS_OK as int, message@),
        r matches Ok(reply) ==> reply.body.data is Some,
{
    match generate_token_at(cfg, id.to_hex().as_str(), version, now) {
        Ok(token) => Ok(
            HttpReply {
                status: STATUS_OK,
                body: Response { msg: message.to_owned(), data: Some(Token { token }) },
            },
        ),
        Err(e) => Err(e),
    }
}

/// Login, first decision.
pub fn login(repo: &UserRepository, payload: &LoginRequest) -> (r: Result<StoreRequest, AppError>)
    ensures
        result_view(r) == login_lookup(*payload),
{
    match payload.validate() {
        Ok(_) => Ok(repo.find_by_email(payload.email.as_str())),
        Err(e) => Err(e),
    }
}

/// Login, second decision: whose session version the store is to raise.
/// The request for it is [`UserRepository::update_token_version`].
pub fn login_check(payload: &LoginRequest, found: Result<Option<User>, AppError>) -> (r: Result<
    UserId,
    AppError,
>)
    ensures
        result_view(r) == login_checked(*payload, found_view(found)),
{
    match found {
        Err(e) => Err(e),
        Ok(None) => Err(AppError::Unauthorized(INVALID_CREDENTIALS.to_owned())),
        Ok(Some(user)) => match verify_password(
            user.password_hash.as_str(),
            payload.password.as_str(),
        ) {
            Ok(_) => if user.token_version < i32::MAX {
                Ok(user.id)
            } else {
                Err(AppError::Internal)
            },
            Err(e) => Err(e),
        },
    }
}

/// Login, third decision: the reply, once the store has reported the
/// raised session version.
pub fn login_reply(cfg: &AppConfig, id: &UserId, bumped: Result<Option<i32>, AppError>, now: i64) -> (r:
    Result<HttpReply<Token>, AppError>)
    ensures
        token_view(r) == login_issued(
            cfg.jwt_secret@,
            cfg.jwt_exp_hours as int,
            id@,
            bumped_view(bumped),
            now as int,
        ),
        r matches Ok(reply) ==> says(reply, STATUS_OK as int, LOGIN_SUCCESS@),
        r matches Ok(reply) ==> reply.body.data is Some,
{
    match bumped {
        Err(e) => Err(e),
        Ok(None) => Err(AppError::Unauthorized(INVALID_CREDENTIALS.to_owned())),
        Ok(Some(version)) => token_reply(cfg, id, version, now, LOGIN_SUCCESS),
    }
}

/// For how many seconds to revoke a token that expires at `exp`.
fn seconds_left(exp: usize, now: i64) -> (r: i64)
    ensures
        r == logout_seconds(exp as nat, now as int),
{
    let exp_wide: i128 = exp as i128;
    let left: i128 = exp_wide - now as i128;
    if left > i64::MAX as i128 {
        i64::MAX
    } else {
        left as i64
    }
}

/// Logout, first decision: the command that revokes the caller's token
/// for the rest of its life. A token whose life is over needs none.
pub fn logout(blacklist: &TokenBlacklist, user: &AuthenticatedUser, now: i64) -> (r: Option<
    LedgerCommand,
>)
    ensures
        option_view(r) == revocation(
            blacklist.prefix(),
            user.token@,
            logout_seconds(user.exp as nat, now as int),
        ),
{
    blacklist.add_token(user.token.as_str(), seconds_left(user.exp, now))
}

/// Logout, second decision: the reply, once the ledger has answered, or
/// at once where nothing was sent. A ledger that fails is a failure of the
/// service.
pub fn logout_reply(sent: Option<Result<(), AppError>>) -> (r: Result<HttpReply<()>, AppError>)
    ensures
        r is Ok <==> !(sent matches Some(Err(_))),
        r matches Err(e) ==> e@ == Failure::Internal,
        r matches Ok(reply) ==> says(reply, STATUS_OK as int, LOGOUT_SUCCESS@) && reply.body.data
            is None,
{
    match sent {
        Some(Err(_)) => Err(AppError::Internal),
        _ => Ok(
            HttpReply {
                status: STATUS_OK,
                body: Response { msg: LOGOUT_SUCCESS.to_owned(), data: None },
            },
        ),
    }
}

/// Two logins of one user, each of which has the
/// store raise the session version, are issued tokens that carry two
/// different versions, whenever and in whichever order the store serves
/// them; and once both are served the record carries the version of the one
/// served last.
pub proof fn lemma_concurrent_logins(
    users: Users,
    id: Seq<char>,
    hours: int,
    first_now: int,
    second_now: int,
)
    requires
        users.records.contains_key(id),
        issued_claims(hours, id, users.next_version(id)->0, first_now) is Some,
        issued_claims(
            hours,
            id,
            users.after(version_bump(id)).next_version(id)->0,
            second_now,
        ) is Some,
    ensures
        ({
            let between = users.after(version_bump(id));
            let end = between.after(version_bump(id));
            let first = issued_claims(hours, id, users.next_version(id)->0, first_now)->0;
            let second = issued_claims(hours, id, between.next_version(id)->0, second_now)->0;
            &&& first.ver != second.ver
            &&& first.ver == users.records[id].token_version + 1
            &&& second.ver == users.records[id].token_version + 2
            &&& end.find_one(UserFilterView::ById(id)) matches Some(u) && u.token_version
                == second.ver && u.token_version != first.ver
        }),
{
    crate::database::repository::lemma_bumps_are_distinct(users, id);
}

} // verus!
