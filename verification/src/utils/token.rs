//! Issuing signed tokens and checking presented ones.
//!
//! A token binds a user to a validity window and to the user's session
//! version at the moment of issue. Signing and signature checking are the
//! work of `jsonwebtoken`; what a token must hold, and until when it is
//! good, is decided here.

use crate::config::app_config::AppConfig;
use crate::constants::{AUTH_REQUIRED, SECONDS_PER_HOUR};
use crate::errors::{AppError, Failure};
use crate::utils::clock::unix_now;
use crate::views::{ok_view, option_view, result_view};
use jsonwebtoken::errors::ErrorKind;
use jsonwebtoken::{decode, encode, DecodingKey, EncodingKey, Header, Validation};
use serde_json::Value;
use vstd::prelude::*;

verus! {

/// What a token asserts.
#[derive(Debug, Clone, PartialEq, Eq)]
pub struct Claims {
    /// The user the token was issued to.
    pub sub: String,
    /// The second, counted from the epoch, from which the token is no longer good.
    pub exp: usize,
    /// The second at which the token was issued.
    pub iat: usize,
    /// The user's session version when the token was issued.
    pub ver: i32,
}

/// The mathematical value of [`Claims`].
pub struct ClaimsView {
    pub sub: Seq<char>,
    pub exp: nat,
    pub iat: nat,
    pub ver: int,
}

impl View for Claims {
    type V = ClaimsView;

    open spec fn view(&self) -> ClaimsView {
        ClaimsView { sub: self.sub@, exp: self.exp as nat, iat: self.iat as nat, ver: self.ver as int }
    }
}

/// The payload of a token whose signature holds, member by member, before
/// any rule is applied to it. A member that is missing, or is not of the
/// kind named, is `None`.
#[derive(Debug, Clone, PartialEq, Eq)]
pub struct RawClaims {
    /// The member `sub`, where it is a text.
    pub sub: Option<String>,
    /// The member `exp`, where it is a whole number from 0 to 2^64 - 1.
    pub exp: Option<u64>,
    /// The member `iat`, where it is a whole number from 0 to 2^64 - 1.
    pub iat: Option<u64>,
    /// The member `ver`, where there is one; in it the number, where that
    /// member is a whole number from -2^63 to 2^63 - 1.
    pub ver: Option<Option<i64>>,
}

/// The mathematical value of [`RawClaims`].
pub struct RawClaimsView {
    pub sub: Option<Seq<char>>,
    pub exp: Option<u64>,
    pub iat: Option<u64>,
    pub ver: Option<Option<i64>>,
}

impl View for RawClaims {
    type V = RawClaimsView;

    open spec fn view(&self) -> RawClaimsView {
        RawClaimsView {
            sub: match self.sub {
                Some(s) => Some(s@),
                None => None,
            },
            exp: self.exp,
            iat: self.iat,
            ver: self.ver,
        }
    }
}

/// Why a presented token is not accepted. The distinction serves
/// diagnostics; a caller is told none of it.
#[derive(Debug, Clone, Copy, PartialEq, Eq, Structural)]
pub enum TokenFailure {
    /// The text is no token, or its payload does not hold the claims.
    Malformed,
    /// The token was good once; its time is over.
    Expired,
    /// The signature is not the one that the secret gives.
    BadSignature,
}

/// The token that `jsonwebtoken::encode` makes of four claims under a
/// secret, with the default header.
pub uninterp spec fn jwt_encoded(
    secret: Seq<char>,
    sub: Seq<char>,
    exp: u64,
    iat: u64,
    ver: i64,
) -> Seq<char>;

/// What `jsonwebtoken::decode` makes of a text under a secret, when it
/// checks the signature and not the time.
pub uninterp spec fn jwt_decoded(secret: Seq<char>, token: Seq<char>) -> Result<
    RawClaimsView,
    TokenFailure,
>;

/// The payload in which all four members stand with the given values.
pub open spec fn full_payload(sub: Seq<char>, exp: u64, iat: u64, ver: i64) -> RawClaimsView {
    RawClaimsView { sub: Some(sub), exp: Some(exp), iat: Some(iat), ver: Some(Some(ver)) }
}

/// Whether decoding `token` under `secret` gives `payload`.
pub open spec fn reads_back(secret: Seq<char>, token: Seq<char>, payload: RawClaimsView) -> bool {
    jwt_decoded(secret, token) == Ok::<RawClaimsView, TokenFailure>(payload)
}

/// Whether `k` is where the signature of `token` begins: right after its
/// last full stop.
pub open spec fn signature_starts_at(token: Seq<char>, k: int) -> bool {
    &&& 0 < k <= token.len()
    &&& token[k - 1] == '.'
    &&& forall|i: int| k <= i < token.len() ==> token[i] != '.'
}

/// Whether `other` is `token` with something else in place of its
/// signature: the two agree up to the last full stop of `token` and are
/// not the same text.
pub open spec fn differs_in_signature(token: Seq<char>, other: Seq<char>) -> bool {
    exists|k: int| #[trigger]
        signature_starts_at(token, k) && other.len() >= k && other.take(k) == token.take(k)
            && other != token
}

/// Whether `token` is refused under `secret`, whenever it is presented.
pub open spec fn never_accepted(secret: Seq<char>, token: Seq<char>) -> bool {
    jwt_decoded(secret, token) is Err
}

/// `jsonwebtoken::encode`, with the default header (HS256) and the secret's
/// bytes as the key, on a payload with the members `sub`, `exp`, `iat` and
/// `ver`.
///
/// Trusted: the call succeeds, for an HMAC key is taken as it is and a
/// payload of one text and three whole numbers always has a JSON form;
/// the result is a function of the arguments; and a token so made is one
/// that `jsonwebtoken::decode` accepts under the same secret and reads the
/// same four members from.
#[verifier::external_body]
fn jwt_encode(secret: &str, sub: &str, exp: u64, iat: u64, ver: i64) -> (r: Option<String>)
    ensures
        r is Some,
        r matches Some(token) ==> token@ == jwt_encoded(secret@, sub@, exp, iat, ver),
        r matches Some(token) ==> reads_back(secret@, token@, full_payload(sub@, exp, iat, ver)),
{
    let mut payload = serde_json::Map::new();
    payload.insert("sub".to_string(), Value::from(sub));
    payload.insert("exp".to_string(), Value::from(exp));
    payload.insert("iat".to_string(), Value::from(iat));
    payload.insert("ver".to_string(), Value::from(ver));
    encode(&Header::default(), &payload, &EncodingKey::from_secret(secret.as_bytes())).ok()
}

/// `jsonwebtoken::decode`, with the default validation (HS256) but for the
/// check of `exp` against the clock, which is switched off, and the
/// secret's bytes as the key.
///
/// Trusted: the result is a function of the arguments. A signature that
/// does not match is told apart from every other refusal. And where a
/// token is accepted, no text that differs from it after its last full
/// stop is: the signature is compared, character by character, with the one
/// that the secret gives for what stands before it.
#[verifier::external_body]
fn jwt_decode(secret: &str, token: &str) -> (r: Result<RawClaims, TokenFailure>)
    ensures
        ok_view(r) == jwt_decoded(secret@, token@),
        r is Ok ==> forall|other: Seq<char>|
            differs_in_signature(token@, other) ==> #[trigger] never_accepted(secret@, other),
{
    let mut validation = Validation::default();
    validation.validate_exp = false;
    match decode::<Value>(token, &DecodingKey::from_secret(secret.as_bytes()), &validation) {
        Ok(data) => Ok(RawClaims {
            sub: data.claims.get("sub").and_then(Value::as_str).map(str::to_owned),
            exp: data.claims.get("exp").and_then(Value::as_u64),
            iat: data.claims.get("iat").and_then(Value::as_u64),
            ver: data.claims.get("ver").map(Value::as_i64),
        }),
        Err(e) => match e.kind() {
            ErrorKind::InvalidSignature => Err(TokenFailure::BadSignature),
            _ => Err(TokenFailure::Malformed),
        },
    }
}

/// The session version of a token that names none.
pub fn default_claims_ver() -> (v: i32)
    ensures
        v == 0,
{
    0
}

/// The claims that a payload holds: `sub`, `exp` and `iat` must be there,
/// each of its kind and within the machine's range; `ver` may be missing,
/// and then counts as 0, but where it is there it must be a 32-bit number.
pub open spec fn claims_of(raw: RawClaimsView) -> Option<ClaimsView> {
    if raw.sub is Some && raw.exp is Some && raw.iat is Some && raw.exp->0 <= usize::MAX
        && raw.iat->0 <= usize::MAX && (raw.ver matches Some(member) ==> member is Some && i32::MIN
        <= member->0 <= i32::MAX) {
        Some(
            ClaimsView {
                sub: raw.sub->0,
                exp: raw.exp->0 as nat,
                iat: raw.iat->0 as nat,
                ver: match raw.ver {
                    Some(member) => member->0 as int,
                    None => 0,
                },
            },
        )
    } else {
        None
    }
}

/// What checking a token comes to at the second `now`, given what its
/// decoding gave: the claims, if the signature held, the payload holds
/// them and `exp` lies after `now`.
pub open spec fn verified_claims(decoded: Result<RawClaimsView, TokenFailure>, now: int) -> Result<
    ClaimsView,
    TokenFailure,
> {
    match decoded {
        Err(f) => Err(f),
        Ok(raw) => match claims_of(raw) {
            None => Err(TokenFailure::Malformed),
            Some(claims) => if claims.exp > now {
                Ok(claims)
            } else {
                Err(TokenFailure::Expired)
            },
        },
    }
}

/// The claims of a token issued at the second `now` to `user_id`, whose
/// session version is `ver`, for a lifetime of `hours`: none if the
/// lifetime is not positive or a timestamp leaves the machine's range.
pub open spec fn issued_claims(hours: int, user_id: Seq<char>, ver: int, now: int) -> Option<
    ClaimsView,
> {
    let exp = now + hours * SECONDS_PER_HOUR;
    if hours > 0 && 0 <= now && exp <= i64::MAX && exp <= usize::MAX {
        Some(ClaimsView { sub: user_id, exp: exp as nat, iat: now as nat, ver })
    } else {
        None
    }
}

/// The token that signing `claims` under `secret` gives.
pub open spec fn signed(secret: Seq<char>, claims: ClaimsView) -> Seq<char> {
    jwt_encoded(secret, claims.sub, claims.exp as u64, claims.iat as u64, claims.ver as i64)
}

/// What issuing a token comes to: the signed claims, where there are
/// claims to sign; else a failure of the service.
pub open spec fn issued_token(
    secret: Seq<char>,
    hours: int,
    user_id: Seq<char>,
    ver: int,
    now: int,
) -> Result<Seq<char>, Failure> {
    match issued_claims(hours, user_id, ver, now) {
        Some(claims) => Ok(signed(secret, claims)),
        None => Err(Failure::Internal),
    }
}

/// What checking a token comes to for the caller: the claims, or the
/// uniform refusal, which does not say why.
pub open spec fn decoded_claims(decoded: Result<RawClaimsView, TokenFailure>, now: int) -> Result<
    ClaimsView,
    Failure,
> {
    match verified_claims(decoded, now) {
        Ok(claims) => Ok(claims),
        Err(_) => Err(Failure::Unauthorized(AUTH_REQUIRED@)),
    }
}

/// Whether `token`, presented at the second `now`, is accepted under
/// `secret` and holds `claims`.
pub open spec fn accepted_as(secret: Seq<char>, token: Seq<char>, now: int, claims: ClaimsView) -> bool {
    verified_claims(jwt_decoded(secret, token), now) == Ok::<ClaimsView, TokenFailure>(claims)
}

/// Whether `token`, presented at the second `now`, is refused under
/// `secret` for the reason `why`.
pub open spec fn refused_as(secret: Seq<char>, token: Seq<char>, now: int, why: TokenFailure) -> bool {
    verified_claims(jwt_decoded(secret, token), now) == Err::<ClaimsView, TokenFailure>(why)
}

/// Whatever the decoding of a token gave, if the claims it holds
/// place the expiry at or before the second `now`, the token is refused;
/// so a token past its time is refused whether or not its signature holds.
pub proof fn lemma_expired_token_is_refused(decoded: Result<RawClaimsView, TokenFailure>, now: int)
    requires
        decoded matches Ok(raw) ==> (claims_of(raw) matches Some(claims) ==> claims.exp <= now),
    ensures
        verified_claims(decoded, now) is Err,
        decoded_claims(decoded, now) == Err::<ClaimsView, Failure>(
            Failure::Unauthorized(AUTH_REQUIRED@),
        ),
{
}

/// A token in which one character of the signature is changed differs
/// from it in the signature.
pub proof fn lemma_changed_signature_differs(token: Seq<char>, k: int, at: int, c: char)
    requires
        signature_starts_at(token, k),
        k <= at < token.len(),
        c != token[at],
    ensures
        differs_in_signature(token, token.update(at, c)),
{
    let other = token.update(at, c);
    assert(other.take(k) =~= token.take(k));
    assert(other[at] != token[at]);
    assert(signature_starts_at(token, k) && other.len() >= k && other.take(k) == token.take(k)
        && other != token);
}

/// A text that is never accepted is refused at every second, and the
/// caller is told no more than that authentication is required.
pub proof fn lemma_never_accepted_is_refused(secret: Seq<char>, token: Seq<char>, now: int)
    requires
        never_accepted(secret, token),
    ensures
        verified_claims(jwt_decoded(secret, token), now) is Err,
        decoded_claims(jwt_decoded(secret, token), now) == Err::<ClaimsView, Failure>(
            Failure::Unauthorized(AUTH_REQUIRED@),
        ),
{
}

/// The uniform refusal of a caller who is not authenticated.
pub fn auth_required() -> (e: AppError)
    ensures
        e@ == Failure::Unauthorized(AUTH_REQUIRED@),
{
    AppError::Unauthorized(AUTH_REQUIRED.to_owned())
}

/// The claims that a payload holds.
pub fn claims_from_raw(raw: RawClaims) -> (r: Option<Claims>)
    ensures
        option_view(r) == claims_of(raw@),
{
    let sub = match raw.sub {
        Some(s) => s,
        None => {
            return None;
        },
    };
    let exp = match raw.exp {
        Some(n) => n,
        None => {
            return None;
        },
    };
    let iat = match raw.iat {
        Some(n) => n,
        None => {
            return None;
        },
    };
    if exp > usize::MAX as u64 || iat > usize::MAX as u64 {
        return None;
    }
    let ver: i32 = match raw.ver {
        Some(Some(v)) => {
            if v < i32::MIN as i64 || v > i32::MAX as i64 {
                return None;
            }
            v as i32
        },
        Some(None) => {
            return None;
        },
        None => default_claims_ver(),
    };
    Some(Claims { sub, exp: exp as usize, iat: iat as usize, ver })
}

/// Whether `exp` lies after the second `now`.
fn still_good(exp: usize, now: i64) -> (r: bool)
    ensures
        r == (exp > now),
{
    now < 0 || exp as u64 > now as u64
}

/// Checks the outcome of a decoding at the second `now`.
pub fn check_decoded(decoded: Result<RawClaims, TokenFailure>, now: i64) -> (r: Result<
    Claims,
    TokenFailure,
>)
    ensures
        ok_view(r) == verified_claims(ok_view(decoded), now as int),
{
    match decoded {
        Err(f) => Err(f),
        Ok(raw) => match claims_from_raw(raw) {
            None => Err(TokenFailure::Malformed),
            Some(claims) => if still_good(claims.exp, now) {
                Ok(claims)
            } else {
                Err(TokenFailure::Expired)
            },
        },
    }
}

/// Checks a presented token at the second `now`: its signature under the
/// configured secret, that it holds the claims, and that it has not expired.
/// No store is consulted.
pub fn verify_token_at(cfg: &AppConfig, token: &str, now: i64) -> (r: Result<Claims, TokenFailure>)
    ensures
        ok_view(r) == verified_claims(jwt_decoded(cfg.jwt_secret@, token@), now as int),
        // Where the token is accepted, the same token with anything else
        // in place of its signature is refused, whenever it is presented.
        r is Ok ==> forall|other: Seq<char>|
            differs_in_signature(token@, other) ==> #[trigger] never_accepted(
                cfg.jwt_secret@,
                other,
            ),
{
    check_decoded(jwt_decode(cfg.jwt_secret.as_str(), token), now)
}

/// Checks a presented token at the second `now`, and tells the caller no
/// more than that authentication is required.
pub fn decode_token_at(cfg: &AppConfig, token: &str, now: i64) -> (r: Result<Claims, AppError>)
    ensures
        result_view(r) == decoded_claims(jwt_decoded(cfg.jwt_secret@, token@), now as int),
        r is Ok ==> forall|other: Seq<char>|
            differs_in_signature(token@, other) ==> #[trigger] never_accepted(
                cfg.jwt_secret@,
                other,
            ),
{
    match verify_token_at(cfg, token, now) {
        Ok(claims) => Ok(claims),
        Err(_) => Err(auth_required()),
    }
}

/// Checks a presented token against the clock.
pub fn decode_token(cfg: &AppConfig, token: &str) -> (r: Result<Claims, AppError>)
    ensures
        exists|now: i64|
            result_view(r) == #[trigger] decoded_claims(
                jwt_decoded(cfg.jwt_secret@, token@),
                now as int,
            ),
{
    let now = unix_now();
    decode_token_at(cfg, token, now)
}

/// The claims of a token issued at the second `now`.
pub fn issue_claims(cfg: &AppConfig, user_id: &str, token_version: i32, now: i64) -> (r: Option<
    Claims,
>)
    ensures
        option_view(r) == issued_claims(
            cfg.jwt_exp_hours as int,
            user_id@,
            token_version as int,
            now as int,
        ),
{
    if cfg.jwt_exp_hours <= 0 || now < 0 {
        return None;
    }
    let lifetime = match cfg.jwt_exp_hours.checked_mul(SECONDS_PER_HOUR) {
        Some(s) => s,
        None => {
            return None;
        },
    };
    let exp = match now.checked_add(lifetime) {
        Some(e) => e,
        None => {
            return None;
        },
    };
    if exp as u64 > usize::MAX as u64 {
        return None;
    }
    Some(Claims { sub: user_id.to_owned(), exp: exp as usize, iat: now as usize, ver: token_version })
}

/// Issues a token at the second `now` to `user_id`, whose session version
/// is `token_version`. The version is the caller's to fetch: no store is
/// consulted here.
///
/// A token is issued whenever the lifetime is positive and the two
/// timestamps are within the machine's range. A failure is the service's
/// own, never the user's.
pub fn generate_token_at(cfg: &AppConfig, user_id: &str, token_version: i32, now: i64) -> (r:
    Result<String, AppError>)
    ensures
        result_view(r) == issued_token(
            cfg.jwt_secret@,
            cfg.jwt_exp_hours as int,
            user_id@,
            token_version as int,
            now as int,
        ),
        r is Ok <==> issued_claims(
            cfg.jwt_exp_hours as int,
            user_id@,
            token_version as int,
            now as int,
        ) is Some,
        // The token issued is accepted for as long as it lives, and names
        // the user and the version it was issued for.
        r matches Ok(token) ==> forall|later: int|
            later < now + cfg.jwt_exp_hours * SECONDS_PER_HOUR ==> #[trigger] accepted_as(
                cfg.jwt_secret@,
                token@,
                later,
                issued_claims(cfg.jwt_exp_hours as int, user_id@, token_version as int, now as int)->0,
            ),
        // From the second of its expiry on it is refused as expired.
        r matches Ok(token) ==> forall|later: int|
            later >= now + cfg.jwt_exp_hours * SECONDS_PER_HOUR ==> #[trigger] refused_as(
                cfg.jwt_secret@,
                token@,
                later,
                TokenFailure::Expired,
            ),
{
    let claims = match issue_claims(cfg, user_id, token_version, now) {
        Some(c) => c,
        None => {
            return Err(AppError::Internal);
        },
    };
    match jwt_encode(
        cfg.jwt_secret.as_str(),
        claims.sub.as_str(),
        claims.exp as u64,
        claims.iat as u64,
        claims.ver as i64,
    ) {
        Some(token) => Ok(token),
        None => Err(AppError::Internal),
    }
}

/// Issues a token at the moment of the call.
pub fn generate_token(cfg: &AppConfig, user_id: &str, token_version: i32) -> (r: Result<
    String,
    AppError,
>)
    ensures
        exists|now: i64|
            result_view(r) == #[trigger] issued_token(
                cfg.jwt_secret@,
                cfg.jwt_exp_hours as int,
                user_id@,
                token_version as int,
                now as int,
            ),
{
    let now = unix_now();
    generate_token_at(cfg, user_id, token_version, now)
}

} // verus!
