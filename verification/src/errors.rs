//! The failures a request can end in, and how each is answered.

use crate::constants::INTERNAL_SERVER_ERROR;
use crate::models::response::Response;
use vstd::prelude::*;
use vstd::string::StringExecFns;

verus! {

/// A failure of a request.
///
/// `Unauthorized` gathers every reason for which a caller is not
/// authenticated; `Forbidden` is kept apart, because there the caller's
/// identity was valid and only the permission was missing.
#[derive(Debug, Clone, PartialEq, Eq)]
pub enum AppError {
    BadRequest(String),
    Unauthorized(String),
    Forbidden(String),
    NotFound(String),
    Conflict(String),
    /// The user store failed; the text is the store's own account of it.
    Database(String),
    /// The revocation ledger failed; the text is the ledger's own account of it.
    Redis(String),
    Internal,
}

/// The mathematical value of an [`AppError`].
pub enum Failure {
    BadRequest(Seq<char>),
    Unauthorized(Seq<char>),
    Forbidden(Seq<char>),
    NotFound(Seq<char>),
    Conflict(Seq<char>),
    Database(Seq<char>),
    Redis(Seq<char>),
    Internal,
}

impl View for AppError {
    type V = Failure;

    open spec fn view(&self) -> Failure {
        match self {
            AppError::BadRequest(m) => Failure::BadRequest(m@),
            AppError::Unauthorized(m) => Failure::Unauthorized(m@),
            AppError::Forbidden(m) => Failure::Forbidden(m@),
            AppError::NotFound(m) => Failure::NotFound(m@),
            AppError::Conflict(m) => Failure::Conflict(m@),
            AppError::Database(m) => Failure::Database(m@),
            AppError::Redis(m) => Failure::Redis(m@),
            AppError::Internal => Failure::Internal,
        }
    }
}

impl Failure {
    /// The HTTP status with which the failure is answered.
    pub open spec fn status(self) -> int {
        match self {
            Failure::BadRequest(_) => 400,
            Failure::Unauthorized(_) => 401,
            Failure::Forbidden(_) => 403,
            Failure::NotFound(_) => 404,
            Failure::Conflict(_) => 409,
            Failure::Database(_) => 500,
            Failure::Redis(_) => 500,
            Failure::Internal => 500,
        }
    }

    /// The message shown to the caller. Failures inside the service show
    /// one fixed message, whatever caused them.
    pub open spec fn public_message(self) -> Seq<char> {
        match self {
            Failure::BadRequest(m) => m,
            Failure::Unauthorized(m) => m,
            Failure::Forbidden(m) => m,
            Failure::NotFound(m) => m,
            Failure::Conflict(m) => m,
            Failure::Database(_) => INTERNAL_SERVER_ERROR@,
            Failure::Redis(_) => INTERNAL_SERVER_ERROR@,
            Failure::Internal => INTERNAL_SERVER_ERROR@,
        }
    }

    /// Whether the failure lies in the service itself, and is therefore
    /// reported at error severity.
    pub open spec fn is_internal(self) -> bool {
        self is Database || self is Redis || self is Internal
    }

    /// The failure written out, for diagnostics.
    pub open spec fn description(self) -> Seq<char> {
        match self {
            Failure::BadRequest(m) => "BadRequest: "@ + m,
            Failure::Unauthorized(m) => "Unauthorized: "@ + m,
            Failure::Forbidden(m) => "Forbidden: "@ + m,
            Failure::NotFound(m) => "NotFound: "@ + m,
            Failure::Conflict(m) => "Conflict: "@ + m,
            Failure::Database(m) => "Database error: "@ + m,
            Failure::Redis(m) => "Redis error: "@ + m,
            Failure::Internal => "Internal server error"@,
        }
    }
}

/// The answer to a failed request: a status, a body, and whether the
/// failure is to be logged as an error.
#[derive(Debug, Clone, PartialEq, Eq)]
pub struct ErrorResponse {
    pub status: u16,
    pub body: Response<()>,
    pub log_as_error: bool,
}

impl AppError {
    /// The answer that this failure is given.
    pub fn error_response(&self) -> (r: ErrorResponse)
        ensures
            r.status == self@.status(),
            r.body.msg@ == self@.public_message(),
            r.body.data is None,
            r.log_as_error == self@.is_internal(),
    {
        match self {
            AppError::BadRequest(msg) => ErrorResponse {
                status: 400,
                body: Response { msg: msg.clone(), data: None },
                log_as_error: false,
            },
            AppError::Unauthorized(msg) => ErrorResponse {
                status: 401,
                body: Response { msg: msg.clone(), data: None },
                log_as_error: false,
            },
            AppError::Forbidden(msg) => ErrorResponse {
                status: 403,
                body: Response { msg: msg.clone(), data: None },
                log_as_error: false,
            },
            AppError::NotFound(msg) => ErrorResponse {
                status: 404,
                body: Response { msg: msg.clone(), data: None },
                log_as_error: false,
            },
            AppError::Conflict(msg) => ErrorResponse {
                status: 409,
                body: Response { msg: msg.clone(), data: None },
                log_as_error: false,
            },
            AppError::Database(_) => ErrorResponse {
                status: 500,
                body: Response { msg: INTERNAL_SERVER_ERROR.to_owned(), data: None },
                log_as_error: true,
            },
            AppError::Redis(_) => ErrorResponse {
                status: 500,
                body: Response { msg: INTERNAL_SERVER_ERROR.to_owned(), data: None },
                log_as_error: true,
            },
            AppError::Internal => ErrorResponse {
                status: 500,
                body: Response { msg: INTERNAL_SERVER_ERROR.to_owned(), data: None },
                log_as_error: true,
            },
        }
    }

    /// The failure written out, for diagnostics.
    pub fn to_string(&self) -> (s: String)
        ensures
            s@ == self@.description(),
    {
        match self {
            AppError::BadRequest(msg) => "BadRequest: ".to_owned().concat(msg.as_str()),
            AppError::Unauthorized(msg) => "Unauthorized: ".to_owned().concat(msg.as_str()),
            AppError::Forbidden(msg) => "Forbidden: ".to_owned().concat(msg.as_str()),
            AppError::NotFound(msg) => "NotFound: ".to_owned().concat(msg.as_str()),
            AppError::Conflict(msg) => "Conflict: ".to_owned().concat(msg.as_str()),
            AppError::Database(msg) => "Database error: ".to_owned().concat(msg.as_str()),
            AppError::Redis(msg) => "Redis error: ".to_owned().concat(msg.as_str()),
            AppError::Internal => "Internal server error".to_owned(),
        }
    }
}

} // verus!
