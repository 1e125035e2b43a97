//! What callers send, and the form each field must have.

use crate::constants::{
    INVALID_EMAIL_FORMAT, MAX_USERNAME_LENGTH, MIN_PASSWORD_LENGTH, MIN_USERNAME_LENGTH,
    PASSWORD_LENGTH, USERNAME_LENGTH,
};
use crate::errors::{AppError, Failure};
use crate::views::{option_view, text_view, unit_view};
use vstd::prelude::*;
use vstd::string::{StrSliceExecFns, StringExecFns};

verus! {

#[derive(Debug, Clone, PartialEq, Eq)]
pub struct RegisterRequest {
    pub email: String,
    pub username: String,
    pub password: String,
}

#[derive(Debug, Clone, PartialEq, Eq)]
pub struct LoginRequest {
    pub email: String,
    pub password: String,
}

#[derive(Debug, Clone, PartialEq, Eq)]
pub struct UpdateEmailRequest {
    pub email: String,
}

#[derive(Debug, Clone, PartialEq, Eq)]
pub struct UpdateUsernameRequest {
    pub username: String,
}

#[derive(Debug, Clone, PartialEq, Eq)]
pub struct UpdatePasswordRequest {
    pub old_password: String,
    pub new_password: String,
}

#[derive(Debug, Clone, PartialEq, Eq)]
pub struct CreateUserRequest {
    pub email: String,
    pub username: String,
    pub password: String,
    pub is_admin: bool,
}

/// A change to an account; a field that is `None` is left as it is.
#[derive(Debug, Clone, PartialEq, Eq)]
pub struct UpdateUserRequest {
    pub email: Option<String>,
    pub username: Option<String>,
    pub password: Option<String>,
}

#[derive(Debug, Clone, PartialEq, Eq)]
pub struct SetRoleRequest {
    pub is_admin: bool,
}

/// Whether `validator` takes a text for an e-mail address.
pub uninterp spec fn email_accepted(text: Seq<char>) -> bool;

/// `validator::ValidateEmail::validate_email` on a text.
///
/// Trusted: the result is a function of the text.
#[verifier::external_body]
fn email_is_valid(text: &str) -> (r: bool)
    ensures
        r == email_accepted(text@),
{
    validator::ValidateEmail::validate_email(&text)
}

/// A user name has from 3 to 30 characters.
pub open spec fn username_accepted(text: Seq<char>) -> bool {
    MIN_USERNAME_LENGTH <= text.len() <= MAX_USERNAME_LENGTH
}

/// A password has at least 8 characters.
pub open spec fn password_accepted(text: Seq<char>) -> bool {
    text.len() >= MIN_PASSWORD_LENGTH
}

/// The complaints so far, with one more where `ok` does not hold: the
/// field's name, a colon and the message, each complaint on a line of its own.
pub open spec fn noted(
    so_far: Option<Seq<char>>,
    ok: bool,
    field: Seq<char>,
    message: Seq<char>,
) -> Option<Seq<char>> {
    if ok {
        so_far
    } else {
        match so_far {
            None => Some(field + ": "@ + message),
            Some(text) => Some(text + "\n"@ + field + ": "@ + message),
        }
    }
}

/// The complaints about the fields of a request, in the order e-mail
/// address, user name, password; a field that is not there raises none.
pub open spec fn complaints(
    email_ok: Option<bool>,
    username: Option<Seq<char>>,
    password: Option<Seq<char>>,
    password_field: Seq<char>,
) -> Option<Seq<char>> {
    let after_email = noted(None, email_ok != Some(false), "email"@, INVALID_EMAIL_FORMAT@);
    let after_username = noted(
        after_email,
        username matches Some(u) ==> username_accepted(u),
        "username"@,
        USERNAME_LENGTH@,
    );
    noted(
        after_username,
        password matches Some(p) ==> password_accepted(p),
        password_field,
        PASSWORD_LENGTH@,
    )
}

/// What a validation comes to: a request with a complaint is a bad request.
pub open spec fn validation_outcome(complaints: Option<Seq<char>>) -> Result<(), Failure> {
    match complaints {
        None => Ok(()),
        Some(text) => Err(Failure::BadRequest(text)),
    }
}

fn note(so_far: Option<String>, ok: bool, field: &str, message: &str) -> (r: Option<String>)
    ensures
        option_view(r) == noted(
            option_view(so_far),
            ok,
            field@,
            message@,
        ),
{
    if ok {
        so_far
    } else {
        match so_far {
            None => Some(field.to_owned().concat(": ").concat(message)),
            Some(text) => Some(text.concat("\n").concat(field).concat(": ").concat(message)),
        }
    }
}

/// Judges the fields of a request, given what the e-mail check said of
/// its address.
pub fn judge_fields(
    email_ok: Option<bool>,
    username: Option<&str>,
    password: Option<&str>,
    password_field: &str,
) -> (r: Result<(), AppError>)
    ensures
        unit_view(r) == validation_outcome(
            complaints(email_ok, text_view(username), text_view(password), password_field@),
        ),
{
    let email_fine = match email_ok {
        Some(false) => false,
        _ => true,
    };
    let after_email = note(None, email_fine, "email", INVALID_EMAIL_FORMAT);
    let username_fine = match username {
        Some(u) => {
            let n = u.unicode_len();
            MIN_USERNAME_LENGTH <= n && n <= MAX_USERNAME_LENGTH
        },
        None => true,
    };
    let after_username = note(after_email, username_fine, "username", USERNAME_LENGTH);
    let password_fine = match password {
        Some(p) => p.unicode_len() >= MIN_PASSWORD_LENGTH,
        None => true,
    };
    match note(after_username, password_fine, password_field, PASSWORD_LENGTH) {
        None => Ok(()),
        Some(text) => Err(AppError::BadRequest(text)),
    }
}

impl RegisterRequest {
    pub open spec fn complaints(&self) -> Option<Seq<char>> {
        complaints(
            Some(email_accepted(self.email@)),
            Some(self.username@),
            Some(self.password@),
            "password"@,
        )
    }

    /// Checks the form of every field.
    pub fn validate(&self) -> (r: Result<(), AppError>)
        ensures
            unit_view(r) == validation_outcome(self.complaints()),
    {
        judge_fields(
            Some(email_is_valid(self.email.as_str())),
            Some(self.username.as_str()),
            Some(self.password.as_str()),
            "password",
        )
    }
}

impl LoginRequest {
    pub open spec fn complaints(&self) -> Option<Seq<char>> {
        complaints(Some(email_accepted(self.email@)), None, None, "password"@)
    }

    /// Checks the form of the e-mail address.
    pub fn validate(&self) -> (r: Result<(), AppError>)
        ensures
            unit_view(r) == validation_outcome(self.complaints()),
    {
        judge_fields(Some(email_is_valid(self.email.as_str())), None, None, "password")
    }
}

impl UpdateEmailRequest {
    pub open spec fn complaints(&self) -> Option<Seq<char>> {
        complaints(Some(email_accepted(self.email@)), None, None, "password"@)
    }

    /// Checks the form of the e-mail address.
    pub fn validate(&self) -> (r: Result<(), AppError>)
        ensures
            unit_view(r) == validation_outcome(self.complaints()),
    {
        judge_fields(Some(email_is_valid(self.email.as_str())), None, None, "password")
    }
}

impl UpdateUsernameRequest {
    pub open spec fn complaints(&self) -> Option<Seq<char>> {
        complaints(None, Some(self.username@), None, "password"@)
    }

    /// Checks the length of the user name.
    pub fn validate(&self) -> (r: Result<(), AppError>)
        ensures
            unit_view(r) == validation_outcome(self.complaints()),
    {
        judge_fields(None, Some(self.username.as_str()), None, "password")
    }
}

impl UpdatePasswordRequest {
    pub open spec fn complaints(&self) -> Option<Seq<char>> {
        complaints(None, None, Some(self.new_password@), "new_password"@)
    }

    /// Checks the length of the new password; the old one is not judged.
    pub fn validate(&self) -> (r: Result<(), AppError>)
        ensures
            unit_view(r) == validation_outcome(self.complaints()),
    {
        judge_fields(None, None, Some(self.new_password.as_str()), "new_password")
    }
}

impl CreateUserRequest {
    pub open spec fn complaints(&self) -> Option<Seq<char>> {
        complaints(
            Some(email_accepted(self.email@)),
            Some(self.username@),
            Some(self.password@),
            "password"@,
        )
    }

    /// Checks the form of every field.
    pub fn validate(&self) -> (r: Result<(), AppError>)
        ensures
            unit_view(r) == validation_outcome(self.complaints()),
    {
        judge_fields(
            Some(email_is_valid(self.email.as_str())),
            Some(self.username.as_str()),
            Some(self.password.as_str()),
            "password",
        )
    }
}

impl UpdateUserRequest {
    pub open spec fn complaints(&self) -> Option<Seq<char>> {
        complaints(
            match self.email {
                Some(e) => Some(email_accepted(e@)),
                None => None,
            },
            option_view(self.username),
            option_view(self.password),
            "password"@,
        )
    }

    /// Checks the form of the fields that are there.
    pub fn validate(&self) -> (r: Result<(), AppError>)
        ensures
            unit_view(r) == validation_outcome(self.complaints()),
    {
        let email_ok = match &self.email {
            Some(e) => Some(email_is_valid(e.as_str())),
            None => None,
        };
        let username = match &self.username {
            Some(u) => Some(u.as_str()),
            None => None,
        };
        let password = match &self.password {
            Some(p) => Some(p.as_str()),
            None => None,
        };
        judge_fields(email_ok, username, password, "password")
    }
}

} // verus!
