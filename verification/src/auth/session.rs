//! Authentication as a whole, against stores that do what they are
//! taken to do, and what follows for logout, for a new login and for the
//! role check.

use crate::auth::admin::authorized;
use crate::auth::user::{
    bearer_header, bearer_of, identified, lemma_header_presents_its_token, presented,
    session_user, unrevoked, Identity, Unrevoked,
};
use crate::constants::{AUTH_REQUIRED, PERMISSION_DENIED};
use crate::database::ledger::{
    inquiry, key_of, lemma_revoked_token_is_held, revocation, Ledger,
};
use crate::database::repository::{version_bump, UserFilterView, Users};
use crate::errors::Failure;
use crate::models::user::{object_id_of, UserView};
use crate::utils::token::{
    accepted_as, jwt_decoded, never_accepted, verified_claims, ClaimsView,
};
use vstd::prelude::*;

verus! {

/// The service and its two stores at one moment.
pub struct World {
    /// The secret with which tokens are signed.
    pub secret: Seq<char>,
    /// The prefix of the ledger's keys.
    pub prefix: Seq<char>,
    pub ledger: Ledger,
    pub users: Users,
}

impl World {
    /// The steps of authentication up to the ledger's answer.
    pub open spec fn cleared(self, header: Option<Seq<char>>, now: int) -> Result<
        Unrevoked,
        Failure,
    > {
        match presented(true, header, self.secret, now) {
            Ok(token) => unrevoked(
                token,
                Ok(self.ledger.answer(inquiry(self.prefix, token.token), now)),
            ),
            Err(e) => Err(e),
        }
    }

    /// What the user store answers when asked for the record that a
    /// cleared token speaks of.
    pub open spec fn record_of(self, token: Unrevoked) -> Result<Option<UserView>, Failure> {
        Ok(self.users.find_one(UserFilterView::ById(token.user_id)))
    }

    /// Authentication of a request with the given `Authorization` header
    /// at the second `now`.
    pub open spec fn authenticate(self, header: Option<Seq<char>>, now: int) -> Result<
        Identity,
        Failure,
    > {
        match self.cleared(header, now) {
            Ok(token) => identified(token, self.record_of(token)),
            Err(e) => Err(e),
        }
    }

    /// Authorization of a request that only an administrator may make.
    pub open spec fn authorize_admin(self, header: Option<Seq<char>>, now: int) -> Result<
        (),
        Failure,
    > {
        match self.cleared(header, now) {
            Ok(token) => authorized(token, self.record_of(token)),
            Err(e) => Err(e),
        }
    }

    /// The record of the caller of an authenticated request.
    pub open spec fn caller(self, header: Option<Seq<char>>, now: int) -> UserView {
        session_user(
            self.cleared(header, now)->Ok_0,
            self.record_of(self.cleared(header, now)->Ok_0),
        )->Ok_0
    }

    /// Whether `token` is, at the second `now`, a live session with the
    /// claims `claims`: it passes the check of signature and expiry and
    /// holds these claims, the ledger does not hold it, and its subject
    /// names a record whose session version is the token's.
    pub open spec fn is_live(self, token: Seq<char>, claims: ClaimsView, now: int) -> bool {
        &&& accepted_as(self.secret, token, now, claims)
        &&& self.ledger.get(key_of(self.prefix, token), now) is None
        &&& object_id_of(claims.sub) is Some
        &&& self.users.records.contains_key(object_id_of(claims.sub)->0)
        &&& self.users.records[object_id_of(claims.sub)->0].token_version == claims.ver
    }

    /// The claims that `token` holds when it passes the check at the
    /// second `now`.
    pub open spec fn claims_of(self, token: Seq<char>, now: int) -> ClaimsView {
        verified_claims(jwt_decoded(self.secret, token), now)->Ok_0
    }

    /// The world after the token of an authenticated request has been
    /// revoked at the second `now` for `seconds` seconds.
    pub open spec fn after_revoking(self, header: Option<Seq<char>>, seconds: int, now: int) -> World {
        World {
            ledger: self.ledger.after(
                revocation(self.prefix, bearer_of(header->0)->0, seconds)->0,
                now,
            ),
            ..self
        }
    }

    /// The world after the store has raised the session version of the
    /// record under `id`.
    pub open spec fn after_login_of(self, id: Seq<char>) -> World {
        World { users: self.users.after(version_bump(id)), ..self }
    }
}

/// The identity that a live session gives.
pub open spec fn identity_of(token: Seq<char>, claims: ClaimsView) -> Identity {
    Identity { user_id: claims.sub, token, exp: claims.exp }
}

/// A request is authenticated exactly if its header is the word
/// `Bearer`, a space and a token that is a live session; the identity is
/// then the token's subject, the token and its expiry.
pub proof fn lemma_who_authenticates(
    world: World,
    header: Option<Seq<char>>,
    token: Seq<char>,
    claims: ClaimsView,
    now: int,
)
    ensures
        world.is_live(token, claims, now) ==> world.authenticate(Some(bearer_header(token)), now)
            == Ok::<Identity, Failure>(identity_of(token, claims)),
        world.is_live(token, claims, now) && header == Some(bearer_header(token))
            ==> world.authenticate(header, now) == Ok::<Identity, Failure>(
            identity_of(token, claims),
        ),
        world.authenticate(header, now) is Ok ==> {
            &&& header is Some
            &&& bearer_of(header->0) is Some
            &&& header->0 == bearer_header(bearer_of(header->0)->0)
            &&& world.is_live(
                bearer_of(header->0)->0,
                world.claims_of(bearer_of(header->0)->0, now),
                now,
            )
            &&& world.authenticate(header, now)->Ok_0 == identity_of(
                bearer_of(header->0)->0,
                world.claims_of(bearer_of(header->0)->0, now),
            )
        },
{
    lemma_header_presents_its_token(token);
    if world.is_live(token, claims, now) {
        world.users.lemma_find_by_id(object_id_of(claims.sub)->0);
    }
    if world.authenticate(header, now) is Ok {
        let h = header->0;
        let t = bearer_of(h)->0;
        let n = crate::constants::BEARER_PREFIX@.len() as int;
        assert(h.subrange(0, n) == crate::constants::BEARER_PREFIX@);
        assert(h =~= bearer_header(t));
        let c = world.claims_of(t, now);
        world.users.lemma_find_by_id(object_id_of(c.sub)->0);
    }
}

/// Whoever is not authenticated is refused in the same words, whatever
/// the reason: no header, no token, a forged, expired or revoked token, an
/// unknown user or a stale session. The role check refuses in these words
/// too, or else forbids.
pub proof fn lemma_uniform_refusal(world: World, header: Option<Seq<char>>, now: int)
    ensures
        world.authenticate(header, now) matches Err(e) ==> e == Failure::Unauthorized(
            AUTH_REQUIRED@,
        ),
        world.authorize_admin(header, now) matches Err(e) ==> e == Failure::Unauthorized(
            AUTH_REQUIRED@,
        ) || e == Failure::Forbidden(PERMISSION_DENIED@),
{
}

/// A token that is never accepted, such as a token in which the signature
/// was changed, authenticates no request.
pub proof fn lemma_forged_token_is_refused(world: World, token: Seq<char>, now: int)
    requires
        never_accepted(world.secret, token),
    ensures
        world.authenticate(Some(bearer_header(token)), now) == Err::<Identity, Failure>(
            Failure::Unauthorized(AUTH_REQUIRED@),
        ),
{
    lemma_header_presents_its_token(token);
}

/// A request that is not authenticated is refused by the role
/// check with the very same failure; one that is authenticated passes
/// the role check exactly if the caller is an administrator, and is
/// otherwise forbidden, not unauthenticated.
pub proof fn lemma_role_gate(world: World, header: Option<Seq<char>>, now: int)
    ensures
        world.authenticate(header, now) matches Err(e) ==> world.authorize_admin(header, now)
            == Err::<(), Failure>(e),
        world.authenticate(header, now) is Ok && world.caller(header, now).is_admin
            ==> world.authorize_admin(header, now) == Ok::<(), Failure>(()),
        world.authenticate(header, now) is Ok && !world.caller(header, now).is_admin
            ==> world.authorize_admin(header, now) == Err::<(), Failure>(
            Failure::Forbidden(PERMISSION_DENIED@),
        ),
{
}

/// Once the token of an authenticated request is revoked for `seconds`
/// seconds, every request that presents it within that time is refused, in
/// the words in which every unauthenticated request is refused. A request
/// that presents another token is answered as if nothing had been revoked;
/// so another token that is a live session, such as one issued to the same
/// user afterwards, still authenticates.
pub proof fn lemma_revocation(
    world: World,
    header: Option<Seq<char>>,
    other: Seq<char>,
    claims: ClaimsView,
    seconds: int,
    now: int,
    later: int,
)
    requires
        world.authenticate(header, now) is Ok,
        seconds > 0,
        now <= later < now + seconds,
        Some(other) != bearer_of(header->0),
    ensures
        world.after_revoking(header, seconds, now).authenticate(header, later) == Err::<
            Identity,
            Failure,
        >(Failure::Unauthorized(AUTH_REQUIRED@)),
        world.after_revoking(header, seconds, now).authenticate(Some(bearer_header(other)), later)
            == world.authenticate(Some(bearer_header(other)), later),
        world.is_live(other, claims, later) ==> world.after_revoking(
            header,
            seconds,
            now,
        ).authenticate(Some(bearer_header(other)), later) == Ok::<Identity, Failure>(
            identity_of(other, claims),
        ),
{
    let token = bearer_of(header->0)->0;
    lemma_header_presents_its_token(other);
    lemma_revoked_token_is_held(world.ledger, world.prefix, token, other, seconds, now, later);
    lemma_revoked_token_is_held(world.ledger, world.prefix, token, token, seconds, now, later);
    lemma_who_authenticates(world, None, other, claims, later);
}

/// A token revoked until its own expiry is never accepted again.
pub proof fn lemma_revoked_until_expiry(
    world: World,
    header: Option<Seq<char>>,
    now: int,
    later: int,
)
    requires
        world.authenticate(header, now) is Ok,
        now <= later,
    ensures
        world.after_revoking(header, world.authenticate(header, now)->Ok_0.exp - now, now).authenticate(
            header,
            later,
        ) == Err::<Identity, Failure>(Failure::Unauthorized(AUTH_REQUIRED@)),
{
    let exp = world.authenticate(header, now)->Ok_0.exp;
    let token = bearer_of(header->0)->0;
    if later < exp {
        lemma_revoked_token_is_held(world.ledger, world.prefix, token, token, exp - now, now, later);
    }
}

/// When the store raises a user's session version, as it does at every
/// login, a request that was authenticated with a token of the old version
/// is refused from then on, although the token is neither expired nor
/// revoked; a token of the same user that passes the check, is not
/// revoked and carries the new version, such as the one issued by that
/// login, authenticates.
pub proof fn lemma_version_invalidation(
    world: World,
    old_header: Option<Seq<char>>,
    fresh: Seq<char>,
    claims: ClaimsView,
    now: int,
)
    requires
        world.authenticate(old_header, now) is Ok,
        accepted_as(world.secret, fresh, now, claims),
        world.ledger.get(key_of(world.prefix, fresh), now) is None,
        object_id_of(claims.sub) == Some(world.cleared(old_header, now)->Ok_0.user_id),
        claims.ver == world.caller(old_header, now).token_version + 1,
    ensures
        world.after_login_of(world.cleared(old_header, now)->Ok_0.user_id).authenticate(
            old_header,
            now,
        ) == Err::<Identity, Failure>(Failure::Unauthorized(AUTH_REQUIRED@)),
        world.after_login_of(world.cleared(old_header, now)->Ok_0.user_id).authenticate(
            Some(bearer_header(fresh)),
            now,
        ) == Ok::<Identity, Failure>(identity_of(fresh, claims)),
{
    let id = world.cleared(old_header, now)->Ok_0.user_id;
    world.users.lemma_find_by_id(id);
    let after = world.after_login_of(id);
    after.users.lemma_find_by_id(id);
    assert(after.is_live(fresh, claims, now));
    lemma_who_authenticates(after, None, fresh, claims, now);
}

} // verus!
