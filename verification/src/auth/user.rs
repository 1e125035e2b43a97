//! Authenticating a request.

use crate::config::app_config::AppConfig;
use crate::constants::{AUTH_REQUIRED, BEARER_PREFIX};
use crate::database::ledger::{answer_view, inquiry, revoked, LedgerCommand, TokenBlacklist};
use crate::database::repository::{lookup, StoreRequest, UserRepository};
use crate::errors::{AppError, Failure};
use crate::models::user::{object_id_of, User, UserId, UserView};
use crate::text::{chars_of, has_prefix_at};
use crate::utils::token::{
    auth_required, decode_token_at, decoded_claims, jwt_decoded, Claims, ClaimsView,
};
use crate::views::{option_view, result_view, text_view};
use vstd::prelude::*;
use vstd::string::StrSliceExecFns;

verus! {

/// The caller of a request, once authenticated. The token and its expiry
/// are kept so that a logout can revoke the token for exactly as long as
/// it would still live.
#[derive(Debug, Clone, PartialEq, Eq)]
pub struct AuthenticatedUser {
    pub user_id: String,
    pub token: String,
    pub exp: usize,
}

/// The mathematical value of an [`AuthenticatedUser`].
pub struct Identity {
    pub user_id: Seq<char>,
    pub token: Seq<char>,
    pub exp: nat,
}

impl View for AuthenticatedUser {
    type V = Identity;

    open spec fn view(&self) -> Identity {
        Identity { user_id: self.user_id@, token: self.token@, exp: self.exp as nat }
    }
}

/// The token that an `Authorization` header presents: the header must
/// begin with the word `Bearer` and one space, and the token is all that
/// follows. Nothing is trimmed and nothing is skipped: a header that
/// repeats the word, or sets white space around the token, presents a text
/// that no check of a signature will pass.
pub open spec fn bearer_of(header: Seq<char>) -> Option<Seq<char>> {
    if BEARER_PREFIX@.is_prefix_of(header) {
        Some(header.skip(BEARER_PREFIX@.len() as int))
    } else {
        None
    }
}

/// The header that presents `token`.
pub open spec fn bearer_header(token: Seq<char>) -> Seq<char> {
    BEARER_PREFIX@ + token
}

/// The header made for a token presents that token, whatever the token holds.
pub proof fn lemma_header_presents_its_token(token: Seq<char>)
    ensures
        bearer_of(bearer_header(token)) == Some(token),
{
    let header = bearer_header(token);
    let n = BEARER_PREFIX@.len() as int;
    assert(header.subrange(0, n) =~= BEARER_PREFIX@);
    assert(header.skip(n) =~= token);
}

/// The token that an `Authorization` header presents, if it presents one.
pub fn bearer_token(header: &str) -> (r: Option<String>)
    ensures
        option_view(r) == bearer_of(header@),
{
    let chars = chars_of(header);
    let prefix = chars_of(BEARER_PREFIX);
    assert(chars@.skip(0) =~= chars@);
    if !has_prefix_at(&chars, 0, &prefix) {
        return None;
    }
    assert(chars@.skip(prefix.len() as int) =~= chars@.subrange(
        prefix.len() as int,
        chars.len() as int,
    ));
    Some(header.substring_char(prefix.len(), chars.len()).to_owned())
}

/// A token whose signature and expiry have been checked.
pub struct Presented {
    pub token: Seq<char>,
    pub claims: ClaimsView,
}

/// A checked token that the ledger does not hold, and whose subject
/// names a record.
pub struct Unrevoked {
    pub token: Seq<char>,
    pub claims: ClaimsView,
    pub user_id: Seq<char>,
}

/// The first step: the service must be set up, the header must present
/// a token, and the token must pass the check of signature and expiry at the
/// second `now`.
pub open spec fn presented(
    configured: bool,
    header: Option<Seq<char>>,
    secret: Seq<char>,
    now: int,
) -> Result<Presented, Failure> {
    if !configured {
        Err(Failure::Internal)
    } else if header is None || bearer_of(header->0) is None {
        Err(Failure::Unauthorized(AUTH_REQUIRED@))
    } else {
        let token = bearer_of(header->0)->0;
        match decoded_claims(jwt_decoded(secret, token), now) {
            Ok(claims) => Ok(Presented { token, claims }),
            Err(e) => Err(e),
        }
    }
}

/// The second step: the ledger's answer must clear the token. A ledger
/// that could not be asked clears nothing. Then the subject must name a
/// record. A token that is revoked is refused in the same words as one
/// that is expired or forged: the caller is not told which.
pub open spec fn unrevoked(token: Presented, answer: Result<Option<Seq<char>>, Failure>) -> Result<
    Unrevoked,
    Failure,
> {
    match revoked(answer) {
        Err(_) => Err(Failure::Unauthorized(AUTH_REQUIRED@)),
        Ok(true) => Err(Failure::Unauthorized(AUTH_REQUIRED@)),
        Ok(false) => match object_id_of(token.claims.sub) {
            None => Err(Failure::Unauthorized(AUTH_REQUIRED@)),
            Some(user_id) => Ok(Unrevoked { token: token.token, claims: token.claims, user_id }),
        },
    }
}

/// The third step, up to the record: the store must answer with a
/// record, and the record's session version must be the token's. A store
/// that fails is not told apart from a record that is missing.
pub open spec fn session_user(token: Unrevoked, answer: Result<Option<UserView>, Failure>) -> Result<
    UserView,
    Failure,
> {
    match answer {
        Ok(Some(user)) => if user.token_version == token.claims.ver {
            Ok(user)
        } else {
            Err(Failure::Unauthorized(AUTH_REQUIRED@))
        },
        _ => Err(Failure::Unauthorized(AUTH_REQUIRED@)),
    }
}

/// The third step: the caller's identity.
pub open spec fn identified(token: Unrevoked, answer: Result<Option<UserView>, Failure>) -> Result<
    Identity,
    Failure,
> {
    match session_user(token, answer) {
        Ok(_) => Ok(
            Identity { user_id: token.claims.sub, token: token.token, exp: token.claims.exp },
        ),
        Err(e) => Err(e),
    }
}

/// The view of an answer of the user store to a search for one record.
pub open spec fn record_view(answer: Result<Option<User>, AppError>) -> Result<
    Option<UserView>,
    Failure,
> {
    match answer {
        Ok(found) => Ok(option_view(found)),
        Err(e) => Err(e@),
    }
}

/// The signing secret of the service, where it has its settings.
pub open spec fn secret_of(cfg: Option<&AppConfig>) -> Seq<char> {
    match cfg {
        Some(c) => c.jwt_secret@,
        None => Seq::empty(),
    }
}

/// A token that has passed the check of signature and expiry.
#[derive(Debug)]
pub struct PresentedToken {
    token: String,
    claims: Claims,
}

impl View for PresentedToken {
    type V = Presented;

    closed spec fn view(&self) -> Presented {
        Presented { token: self.token@, claims: self.claims@ }
    }
}

/// A token that has also been cleared by the ledger.
#[derive(Debug)]
pub struct UnrevokedToken {
    token: String,
    claims: Claims,
    user_id: UserId,
}

impl View for UnrevokedToken {
    type V = Unrevoked;

    closed spec fn view(&self) -> Unrevoked {
        Unrevoked { token: self.token@, claims: self.claims@, user_id: self.user_id@ }
    }
}

impl PresentedToken {
    /// The token as it was presented.
    pub fn token(&self) -> (r: &str)
        ensures
            r@ == self@.token,
    {
        self.token.as_str()
    }

    /// The question for the ledger: is this token revoked?
    pub fn inquiry(&self, blacklist: &TokenBlacklist) -> (r: LedgerCommand)
        ensures
            r@ == inquiry(blacklist.prefix(), self@.token),
    {
        blacklist.is_blacklisted(self.token.as_str())
    }

    /// Reads the ledger's answer.
    pub fn after_ledger(self, answer: &Result<Option<String>, AppError>) -> (r: Result<
        UnrevokedToken,
        AppError,
    >)
        ensures
            result_view(r) == unrevoked(self@, answer_view(*answer)),
    {
        match TokenBlacklist::is_blacklisted_reply(answer) {
            Err(_) => Err(auth_required()),
            Ok(true) => Err(auth_required()),
            Ok(false) => match UserId::parse_str(self.claims.sub.as_str()) {
                None => Err(auth_required()),
                Some(user_id) => Ok(
                    UnrevokedToken { token: self.token, claims: self.claims, user_id },
                ),
            },
        }
    }
}

impl UnrevokedToken {
    /// The question for the user store: which record does the token speak of?
    pub fn lookup(&self, repo: &UserRepository) -> (r: StoreRequest)
        ensures
            r@ == lookup(self@.user_id),
    {
        repo.find_by_id(&self.user_id)
    }

    /// Reads the store's answer: the record, if the token's session is
    /// the record's current one.
    pub fn session_user(&self, answer: Result<Option<User>, AppError>) -> (r: Result<
        User,
        AppError,
    >)
        ensures
            result_view(r) == session_user(self@, record_view(answer)),
    {
        match answer {
            Ok(Some(user)) => if user.token_version == self.claims.ver {
                Ok(user)
            } else {
                Err(auth_required())
            },
            _ => Err(auth_required()),
        }
    }
}

impl AuthenticatedUser {
    /// The first step of authentication, at the second `now`.
    ///
    /// A service that lacks its settings or one of its stores refuses
    /// every request as its own failure.
    pub fn from_request(
        cfg: Option<&AppConfig>,
        blacklist: Option<&TokenBlacklist>,
        repo: Option<&UserRepository>,
        header: Option<&str>,
        now: i64,
    ) -> (r: Result<PresentedToken, AppError>)
        ensures
            result_view(r) == presented(
                cfg is Some && blacklist is Some && repo is Some,
                text_view(header),
                secret_of(cfg),
                now as int,
            ),
    {
        let cfg = match cfg {
            Some(c) => c,
            None => {
                return Err(AppError::Internal);
            },
        };
        if blacklist.is_none() || repo.is_none() {
            return Err(AppError::Internal);
        }
        let token = match header {
            Some(h) => match bearer_token(h) {
                Some(t) => t,
                None => {
                    return Err(auth_required());
                },
            },
            None => {
                return Err(auth_required());
            },
        };
        match decode_token_at(cfg, token.as_str(), now) {
            Ok(claims) => Ok(PresentedToken { token, claims }),
            Err(e) => Err(e),
        }
    }

    /// The last step of authentication: reads the store's answer.
    pub fn from_record(token: UnrevokedToken, answer: Result<Option<User>, AppError>) -> (r: Result<
        AuthenticatedUser,
        AppError,
    >)
        ensures
            result_view(r) == identified(token@, record_view(answer)),
    {
        match token.session_user(answer) {
            Ok(_) => Ok(
                AuthenticatedUser {
                    user_id: token.claims.sub,
                    token: token.token,
                    exp: token.claims.exp,
                },
            ),
            Err(e) => Err(e),
        }
    }
}

} // verus!
