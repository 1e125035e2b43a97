//! The revocation ledger: tokens that are refused although signature and
//! expiry would let them pass.
//!
//! The ledger itself is a key/value store with per-key expiry, reached
//! over the network. This module says what is asked of it and reads its
//! answers; [`Ledger`] states what such a store is taken to do.

use crate::constants::{BLACKLIST_MARK, BLACKLIST_PREFIX};
use crate::errors::{AppError, Failure};
use crate::views::option_view;
use vstd::prelude::*;
use vstd::string::StringExecFns;

verus! {

/// A command for the ledger.
#[derive(Debug, Clone, PartialEq, Eq)]
pub enum LedgerCommand {
    /// `SETEX key seconds value`: hold `value` under `key` for `seconds` seconds.
    SetEx { key: String, seconds: i64, value: String },
    /// `GET key`: the value held under `key`, if any.
    Get { key: String },
}

/// The mathematical value of a [`LedgerCommand`].
pub enum LedgerCommandView {
    SetEx { key: Seq<char>, seconds: int, value: Seq<char> },
    Get { key: Seq<char> },
}

impl View for LedgerCommand {
    type V = LedgerCommandView;

    open spec fn view(&self) -> LedgerCommandView {
        match self {
            LedgerCommand::SetEx { key, seconds, value } => LedgerCommandView::SetEx {
                key: key@,
                seconds: *seconds as int,
                value: value@,
            },
            LedgerCommand::Get { key } => LedgerCommandView::Get { key: key@ },
        }
    }
}

/// What the ledger holds under a key, and from which second on it holds
/// it no longer.
pub struct LedgerEntry {
    pub value: Seq<char>,
    pub lapses_at: int,
}

/// What a ledger is taken to do: it holds each value until its time is
/// over and forgets it by itself.
pub struct Ledger {
    pub entries: Map<Seq<char>, LedgerEntry>,
}

impl Ledger {
    /// What the ledger answers at the second `now` when asked for `key`.
    pub open spec fn get(self, key: Seq<char>, now: int) -> Option<Seq<char>> {
        if self.entries.contains_key(key) && now < self.entries[key].lapses_at {
            Some(self.entries[key].value)
        } else {
            None
        }
    }

    /// The ledger after it has carried out `command` at the second `now`.
    /// A time to live that is not positive is refused and changes nothing.
    pub open spec fn after(self, command: LedgerCommandView, now: int) -> Ledger {
        match command {
            LedgerCommandView::SetEx { key, seconds, value } => if seconds > 0 {
                Ledger {
                    entries: self.entries.insert(
                        key,
                        LedgerEntry { value, lapses_at: now + seconds },
                    ),
                }
            } else {
                self
            },
            LedgerCommandView::Get { key } => self,
        }
    }

    /// What the ledger answers to `command` at the second `now`.
    pub open spec fn answer(self, command: LedgerCommandView, now: int) -> Option<Seq<char>> {
        match command {
            LedgerCommandView::SetEx { key, seconds, value } => None,
            LedgerCommandView::Get { key } => self.get(key, now),
        }
    }
}

/// The service's side of the revocation ledger.
#[derive(Debug, Clone)]
pub struct TokenBlacklist {
    prefix: String,
}

/// The key under which a token is recorded.
pub open spec fn key_of(prefix: Seq<char>, token: Seq<char>) -> Seq<char> {
    prefix + token
}

/// The command that records `token` for `seconds` seconds; none where
/// the time is not positive, for then the token is dead already.
pub open spec fn revocation(prefix: Seq<char>, token: Seq<char>, seconds: int) -> Option<
    LedgerCommandView,
> {
    if seconds > 0 {
        Some(LedgerCommandView::SetEx { key: key_of(prefix, token), seconds, value: BLACKLIST_MARK@ })
    } else {
        None
    }
}

/// The command that asks whether `token` is recorded.
pub open spec fn inquiry(prefix: Seq<char>, token: Seq<char>) -> LedgerCommandView {
    LedgerCommandView::Get { key: key_of(prefix, token) }
}

/// What an answer of the ledger says: a token is revoked exactly if
/// something is held under its key. A ledger that could not be asked
/// revokes nothing and clears nothing: that is a failure of the service.
pub open spec fn revoked(answer: Result<Option<Seq<char>>, Failure>) -> Result<bool, Failure> {
    match answer {
        Ok(held) => Ok(held is Some),
        Err(_) => Err(Failure::Internal),
    }
}

/// The view of an answer of the ledger.
pub open spec fn answer_view(answer: Result<Option<String>, AppError>) -> Result<
    Option<Seq<char>>,
    Failure,
> {
    match answer {
        Ok(held) => Ok(option_view(held)),
        Err(e) => Err(e@),
    }
}

/// The view of a judgement on an answer.
pub open spec fn judgement_view(judgement: Result<bool, AppError>) -> Result<bool, Failure> {
    match judgement {
        Ok(b) => Ok(b),
        Err(e) => Err(e@),
    }
}

impl TokenBlacklist {
    /// The prefix of every key of this ledger.
    pub closed spec fn prefix(&self) -> Seq<char> {
        self.prefix@
    }

    pub fn new() -> (r: Self)
        ensures
            r.prefix() == BLACKLIST_PREFIX@,
    {
        TokenBlacklist { prefix: BLACKLIST_PREFIX.to_owned() }
    }

    /// The key under which `token` is recorded.
    pub fn key(&self, token: &str) -> (r: String)
        ensures
            r@ == key_of(self.prefix(), token@),
    {
        self.prefix.clone().concat(token)
    }

    /// Revokes `token` for `exp_seconds` seconds: the command to send to
    /// the ledger. Sending it twice does no harm. Where the time is not
    /// positive there is nothing to send.
    pub fn add_token(&self, token: &str, exp_seconds: i64) -> (r: Option<LedgerCommand>)
        ensures
            option_view(r) == revocation(self.prefix(), token@, exp_seconds as int),
    {
        if exp_seconds > 0 {
            Some(
                LedgerCommand::SetEx {
                    key: self.key(token),
                    seconds: exp_seconds,
                    value: BLACKLIST_MARK.to_owned(),
                },
            )
        } else {
            None
        }
    }

    /// Asks whether `token` is revoked: the command to send to the ledger.
    pub fn is_blacklisted(&self, token: &str) -> (r: LedgerCommand)
        ensures
            r@ == inquiry(self.prefix(), token@),
    {
        LedgerCommand::Get { key: self.key(token) }
    }

    /// Reads the ledger's answer to [`TokenBlacklist::is_blacklisted`].
    pub fn is_blacklisted_reply(answer: &Result<Option<String>, AppError>) -> (r: Result<
        bool,
        AppError,
    >)
        ensures
            judgement_view(r) == revoked(answer_view(*answer)),
    {
        match answer {
            Ok(held) => Ok(held.is_some()),
            Err(_) => Err(AppError::Internal),
        }
    }
}

/// A token that was revoked is answered for as long as it was revoked
/// for, whatever the ledger held before; other tokens are answered for as before.
pub proof fn lemma_revoked_token_is_held(
    ledger: Ledger,
    prefix: Seq<char>,
    token: Seq<char>,
    other: Seq<char>,
    seconds: int,
    now: int,
    later: int,
)
    requires
        seconds > 0,
    ensures
        now <= later < now + seconds ==> ledger.after(
            revocation(prefix, token, seconds)->0,
            now,
        ).answer(inquiry(prefix, token), later) is Some,
        other != token ==> ledger.after(revocation(prefix, token, seconds)->0, now).answer(
            inquiry(prefix, other),
            later,
        ) == ledger.answer(inquiry(prefix, other), later),
{
    if other != token {
        lemma_keys_differ(prefix, token, other);
    }
}

/// Two tokens have two keys.
pub proof fn lemma_keys_differ(prefix: Seq<char>, a: Seq<char>, b: Seq<char>)
    requires
        a != b,
    ensures
        key_of(prefix, a) != key_of(prefix, b),
{
    let ka = key_of(prefix, a);
    let kb = key_of(prefix, b);
    if ka == kb {
        assert(ka.skip(prefix.len() as int) =~= a);
        assert(kb.skip(prefix.len() as int) =~= b);
    }
}

} // verus!
