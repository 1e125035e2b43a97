//! What a handler answers with.

use vstd::prelude::*;

verus! {

/// The envelope of every answer: a message and, where there is one, a payload.
#[derive(Debug, Clone, PartialEq, Eq)]
pub struct Response<T> {
    pub msg: String,
    pub data: Option<T>,
}

/// A freshly issued bearer token.
#[derive(Debug, Clone, PartialEq, Eq)]
pub struct Token {
    pub token: String,
}

/// What a user is shown of their own account.
#[derive(Debug, Clone, PartialEq, Eq)]
pub struct AboutMe {
    pub email: String,
    pub username: String,
}

/// What an administrator is shown of an account.
#[derive(Debug, Clone, PartialEq, Eq)]
pub struct UserInfo {
    pub id: String,
    pub email: String,
    pub username: String,
    pub is_admin: bool,
}

/// An answer and the HTTP status it goes out with.
#[derive(Debug, Clone, PartialEq, Eq)]
pub struct HttpReply<T> {
    pub status: u16,
    pub body: Response<T>,
}

/// Whether a reply has the given status and message.
pub open spec fn says<T>(reply: HttpReply<T>, status: int, message: Seq<char>) -> bool {
    reply.status == status && reply.body.msg@ == message
}

} // verus!
