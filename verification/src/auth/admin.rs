//! Authorizing a request that only an administrator may make.

use crate::auth::user::{
    presented, record_view, secret_of, session_user, AuthenticatedUser, PresentedToken, Unrevoked,
    UnrevokedToken,
};
use crate::config::app_config::AppConfig;
use crate::constants::PERMISSION_DENIED;
use crate::database::ledger::TokenBlacklist;
use crate::database::repository::UserRepository;
use crate::errors::{AppError, Failure};
use crate::models::user::{User, UserView};
use crate::views::{result_view, text_view};
use vstd::prelude::*;

verus! {

/// The proof that the caller of a request is an administrator.
#[derive(Debug, Clone, PartialEq, Eq)]
pub struct AdminUser {}

/// The last step of authorization: the caller must be authenticated
/// as for any request, and the record must carry the role. A caller
/// without the role is forbidden, which is not the answer that a caller
/// without identity gets.
pub open spec fn authorized(token: Unrevoked, answer: Result<Option<UserView>, Failure>) -> Result<
    (),
    Failure,
> {
    match session_user(token, answer) {
        Ok(user) => if user.is_admin {
            Ok(())
        } else {
            Err(Failure::Forbidden(PERMISSION_DENIED@))
        },
        Err(e) => Err(e),
    }
}

/// The view of an authorization's outcome.
pub open spec fn admin_view(outcome: Result<AdminUser, AppError>) -> Result<(), Failure> {
    match outcome {
        Ok(_) => Ok(()),
        Err(e) => Err(e@),
    }
}

impl AdminUser {
    /// The first step of authorization, at the second `now`: that of
    /// authentication.
    pub fn from_request(
        cfg: Option<&AppConfig>,
        blacklist: Option<&TokenBlacklist>,
        repo: Option<&UserRepository>,
        header: Option<&str>,
        now: i64,
    ) -> (r: Result<PresentedToken, AppError>)
        ensures
            result_view(r) == presented(
                cfg is Some && blacklist is Some && repo is Some,
                text_view(header),
                secret_of(cfg),
                now as int,
            ),
    {
        AuthenticatedUser::from_request(cfg, blacklist, repo, header, now)
    }

    /// The last step of authorization: reads the store's answer. The
    /// steps before it are those of authentication.
    pub fn from_record(token: UnrevokedToken, answer: Result<Option<User>, AppError>) -> (r: Result<
        AdminUser,
        AppError,
    >)
        ensures
            admin_view(r) == authorized(token@, record_view(answer)),
    {
        match token.session_user(answer) {
            Ok(user) => if user.is_admin {
                Ok(AdminUser {  })
            } else {
                Err(AppError::Forbidden(PERMISSION_DENIED.to_owned()))
            },
            Err(e) => Err(e),
        }
    }
}

} // verus!
