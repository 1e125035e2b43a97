//! The record that the user store keeps of an account, and the
//! identifier by which it is found.

use crate::constants::INVALID_USER_ID;
use crate::errors::{AppError, Failure};
use crate::views::{option_view, result_view};
use vstd::prelude::*;

verus! {

/// Whether `c` is a hexadecimal digit, in either case.
pub open spec fn is_hex_digit(c: char) -> bool {
    ('0' <= c && c <= '9') || ('a' <= c && c <= 'f') || ('A' <= c && c <= 'F')
}

/// Whether a text names a record: 24 hexadecimal digits.
pub open spec fn is_object_id(text: Seq<char>) -> bool {
    text.len() == 24 && forall|i: int| 0 <= i < text.len() ==> is_hex_digit(#[trigger] text[i])
}

/// A hexadecimal digit in lower case; any other character as it is.
pub open spec fn lower_digit(c: char) -> char {
    if 'A' <= c && c <= 'F' {
        ((c as u8) + 32) as char
    } else {
        c
    }
}

/// The form in which the store writes an identifier: its digits in lower
/// case. Two texts name the same record exactly if they agree in it.
pub open spec fn canonical_id(text: Seq<char>) -> Seq<char> {
    text.map_values(|c: char| lower_digit(c))
}

/// The identifier that a text names, in the store's form, if it names one.
pub open spec fn object_id_of(text: Seq<char>) -> Option<Seq<char>> {
    if is_object_id(text) {
        Some(canonical_id(text))
    } else {
        None
    }
}

/// `bson::oid::ObjectId::parse_str`, and on success `to_hex`: the text is
/// decoded as 12 bytes of hexadecimal, in either case, and written out
/// again in lower case.
#[verifier::external_body]
fn parse_object_id(text: &str) -> (r: Option<String>)
    ensures
        option_view(r) == object_id_of(text@),
{
    bson::oid::ObjectId::parse_str(text).ok().map(|id| id.to_hex())
}

/// The store's form of an identifier is an identifier, and is its own
/// store's form.
pub proof fn lemma_canonical_id(text: Seq<char>)
    requires
        is_object_id(text),
    ensures
        is_object_id(canonical_id(text)),
        canonical_id(canonical_id(text)) == canonical_id(text),
{
    let c = canonical_id(text);
    assert forall|i: int| 0 <= i < c.len() implies is_hex_digit(#[trigger] c[i]) && lower_digit(
        c[i],
    ) == c[i] by {
        assert(is_hex_digit(text[i]));
        assert(c[i] == lower_digit(text[i]));
    }
    assert(canonical_id(c) =~= c);
}

/// The identifier of a record.
#[derive(Debug, PartialEq, Eq)]
pub struct UserId {
    hex: String,
}

impl View for UserId {
    type V = Seq<char>;

    closed spec fn view(&self) -> Seq<char> {
        self.hex@
    }
}

impl Clone for UserId {
    fn clone(&self) -> (r: Self)
        ensures
            r@ == self@,
    {
        proof {
            use_type_invariant(self);
        }
        UserId { hex: self.hex.clone() }
    }
}

impl UserId {
    #[verifier::type_invariant]
    spec fn well_formed(&self) -> bool {
        object_id_of(self.hex@) == Some(self.hex@)
    }

    /// Reads an identifier. The text must be 24 hexadecimal digits.
    pub fn parse_str(text: &str) -> (r: Option<UserId>)
        ensures
            option_view(r) == object_id_of(text@),
    {
        match parse_object_id(text) {
            Some(hex) => {
                proof {
                    lemma_canonical_id(text@);
                }
                Some(UserId { hex })
            },
            None => None,
        }
    }

    /// The identifier as 24 hexadecimal digits in lower case.
    pub fn to_hex(&self) -> (r: String)
        ensures
            r@ == self@,
            object_id_of(r@) == Some(r@),
    {
        proof {
            use_type_invariant(self);
        }
        self.hex.clone()
    }

}

/// What reading the identifier of a caller comes to: a text that names
/// no record does not authenticate anyone.
pub open spec fn caller_id(text: Seq<char>) -> Result<Seq<char>, Failure> {
    match object_id_of(text) {
        Some(id) => Ok(id),
        None => Err(Failure::Unauthorized(INVALID_USER_ID@)),
    }
}

/// What reading an identifier out of a request's address comes to.
pub open spec fn requested_id(text: Seq<char>) -> Result<Seq<char>, Failure> {
    match object_id_of(text) {
        Some(id) => Ok(id),
        None => Err(Failure::BadRequest(INVALID_USER_ID@)),
    }
}

/// Reads the identifier that an authenticated caller goes by.
pub fn parse_caller_id(text: &str) -> (r: Result<UserId, AppError>)
    ensures
        result_view(r) == caller_id(text@),
{
    match UserId::parse_str(text) {
        Some(id) => Ok(id),
        None => Err(AppError::Unauthorized(INVALID_USER_ID.to_owned())),
    }
}

/// Reads the identifier that a request names in its address.
pub fn parse_requested_id(text: &str) -> (r: Result<UserId, AppError>)
    ensures
        result_view(r) == requested_id(text@),
{
    match UserId::parse_str(text) {
        Some(id) => Ok(id),
        None => Err(AppError::BadRequest(INVALID_USER_ID.to_owned())),
    }
}

/// The record of an account.
#[derive(Debug, PartialEq, Eq)]
pub struct User {
    pub id: UserId,
    pub email: String,
    pub username: String,
    /// The digest of the account's secret.
    pub password_hash: String,
    pub is_admin: bool,
    /// The session version: a token is good only while it carries this number.
    pub token_version: i32,
}

/// The mathematical value of a [`User`].
pub struct UserView {
    pub id: Seq<char>,
    pub email: Seq<char>,
    pub username: Seq<char>,
    pub password_hash: Seq<char>,
    pub is_admin: bool,
    pub token_version: int,
}

impl View for User {
    type V = UserView;

    open spec fn view(&self) -> UserView {
        UserView {
            id: self.id@,
            email: self.email@,
            username: self.username@,
            password_hash: self.password_hash@,
            is_admin: self.is_admin,
            token_version: self.token_version as int,
        }
    }
}

impl Clone for User {
    fn clone(&self) -> (r: Self)
        ensures
            r@ == self@,
    {
        User {
            id: self.id.clone(),
            email: self.email.clone(),
            username: self.username.clone(),
            password_hash: self.password_hash.clone(),
            is_admin: self.is_admin,
            token_version: self.token_version,
        }
    }
}

} // verus!
