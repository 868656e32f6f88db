//! The error taxonomy and the status line each error surfaces as.

use vstd::prelude::*;

use crate::text::optional_text;

verus! {

/// Why a request could not be authenticated.
#[derive(Debug, Clone, Copy, PartialEq, Eq, Structural)]
pub enum AuthError {
    /// No `Authorization` header, or one that does not start with `Bearer `.
    MissingBearer,
    /// Wrong username, wrong password, or a token that is malformed or badly signed.
    InvalidCredentials,
    /// The token has run out, or its session was revoked.
    ExpiredCredentials,
    /// A failure that is not the caller's fault. It carries no detail, so
    /// that nothing internal can leak to the caller.
    UnexpectedError,
}

/// A stored password hash that is not a PHC string.
#[derive(Debug, Clone, Copy, PartialEq, Eq, Structural)]
pub struct HashFormatError;

/// Why a password change was refused before any identity check.
#[derive(Debug, Clone, Copy, PartialEq, Eq, Structural)]
pub enum ChangePasswordError {
    /// The new password and its confirmation differ.
    NewPasswordMissingMatch,
    /// The new password equals the current one.
    NewPasswordMustBeDifferent,
}

/// Why a customer could not be stored.
#[derive(Debug, Clone, Copy, PartialEq, Eq, Structural)]
pub enum CustomerError {
    /// Another customer already has this email or phone.
    CustomerIsExist,
}

/// The text of a result that holds a text.
pub open spec fn text_result(r: Result<String, AuthError>) -> Result<Seq<char>, AuthError> {
    match r {
        Ok(t) => Ok(t@),
        Err(e) => Err(e),
    }
}

/// The ways a JSON request body can be turned down.
#[derive(Debug, Clone, Copy, PartialEq, Eq, Structural)]
pub enum JsonRejectionKind {
    /// The body is JSON but does not fit the expected shape.
    JsonDataError,
    /// The body is not JSON.
    JsonSyntaxError,
    /// The request lacks a JSON content type.
    MissingJsonContentType,
    /// Any other failure while reading the body.
    Other,
}

/// Everything a handler can answer with instead of a result.
#[derive(Debug)]
pub enum AppError {
    /// The request does not pass validation; the text says why.
    BadArguments(String),
    /// The search keyword of a listing cannot be decoded.
    DecodeSearchParameterFailed,
    Customer(CustomerError),
    Auth(AuthError),
    ChangePassword(ChangePasswordError),
    /// A failure that is not the caller's fault. The text describes it for
    /// the log; the caller is not shown it.
    UnexpectedError(String),
    /// The body of the request was turned down; the text says why. The
    /// caller is shown it unless the failure is the server's.
    JsonExtractorRejection(JsonRejectionKind, String),
}

/// An `AppError` with its texts as sequences of characters.
pub enum AppErrorView {
    BadArguments(Seq<char>),
    DecodeSearchParameterFailed,
    Customer(CustomerError),
    Auth(AuthError),
    ChangePassword(ChangePasswordError),
    UnexpectedError(Seq<char>),
    JsonExtractorRejection(JsonRejectionKind, Seq<char>),
}

impl View for AppError {
    type V = AppErrorView;

    open spec fn view(&self) -> AppErrorView {
        match *self {
            AppError::BadArguments(text) => AppErrorView::BadArguments(text@),
            AppError::DecodeSearchParameterFailed => AppErrorView::DecodeSearchParameterFailed,
            AppError::Customer(e) => AppErrorView::Customer(e),
            AppError::Auth(e) => AppErrorView::Auth(e),
            AppError::ChangePassword(e) => AppErrorView::ChangePassword(e),
            AppError::UnexpectedError(detail) => AppErrorView::UnexpectedError(detail@),
            AppError::JsonExtractorRejection(kind, text) => AppErrorView::JsonExtractorRejection(
                kind,
                text@,
            ),
        }
    }
}

pub const STATUS_BAD_REQUEST: u16 = 400;

pub const STATUS_UNAUTHORIZED: u16 = 401;

pub const STATUS_CONFLICT: u16 = 409;

pub const STATUS_UNSUPPORTED_MEDIA_TYPE: u16 = 415;

pub const STATUS_INTERNAL_SERVER_ERROR: u16 = 500;

/// The one text that every failure of the server answers with, whatever
/// went wrong inside.
pub const UNEXPECTED_ERROR_TEXT: &'static str = "unexpected error";

impl AuthError {
    /// The text shown for this error.
    pub open spec fn message_text(self) -> Seq<char> {
        match self {
            AuthError::MissingBearer => "Missing bearer header"@,
            AuthError::InvalidCredentials => "Invalid credentials"@,
            AuthError::ExpiredCredentials => "expired credentials"@,
            AuthError::UnexpectedError => UNEXPECTED_ERROR_TEXT@,
        }
    }

    /// The HTTP status this error surfaces as: 500 for an unexpected
    /// failure, 401 for every failed check.
    pub open spec fn status_code(self) -> u16 {
        match self {
            AuthError::UnexpectedError => STATUS_INTERNAL_SERVER_ERROR,
            _ => STATUS_UNAUTHORIZED,
        }
    }

    /// The text shown for this error.
    pub fn message(&self) -> (text: String)
        ensures
            text@ == self.message_text(),
    {
        match self {
            AuthError::MissingBearer => "Missing bearer header".to_owned(),
            AuthError::InvalidCredentials => "Invalid credentials".to_owned(),
            AuthError::ExpiredCredentials => "expired credentials".to_owned(),
            AuthError::UnexpectedError => UNEXPECTED_ERROR_TEXT.to_owned(),
        }
    }

    /// The HTTP status this error surfaces as.
    pub fn status(&self) -> (code: u16)
        ensures
            code == self.status_code(),
    {
        match self {
            AuthError::UnexpectedError => STATUS_INTERNAL_SERVER_ERROR,
            _ => STATUS_UNAUTHORIZED,
        }
    }
}

impl ChangePasswordError {
    /// The text shown for this error.
    pub open spec fn message_text(self) -> Seq<char> {
        match self {
            ChangePasswordError::NewPasswordMissingMatch => "New password miss match"@,
            ChangePasswordError::NewPasswordMustBeDifferent =>
                "new password should be difference between old password"@,
        }
    }

    /// The text shown for this error.
    pub fn message(&self) -> (text: String)
        ensures
            text@ == self.message_text(),
    {
        match self {
            ChangePasswordError::NewPasswordMissingMatch => "New password miss match".to_owned(),
            ChangePasswordError::NewPasswordMustBeDifferent =>
                "new password should be difference between old password".to_owned(),
        }
    }
}

impl CustomerError {
    /// The text shown for this error.
    pub open spec fn message_text(self) -> Seq<char> {
        "customer is exist."@
    }

    /// The text shown for this error.
    pub fn message(&self) -> (text: String)
        ensures
            text@ == self.message_text(),
    {
        "customer is exist.".to_owned()
    }
}

impl AppError {
    /// The text of the `error_message` field of the response body. A
    /// failure of the server answers with one fixed text: what went wrong
    /// inside is not shown.
    pub open spec fn message_text(self) -> Seq<char> {
        match self {
            AppError::BadArguments(text) => text@,
            AppError::DecodeSearchParameterFailed => "decode search parameter failed"@,
            AppError::Customer(e) => e.message_text(),
            AppError::Auth(e) => e.message_text(),
            AppError::ChangePassword(e) => e.message_text(),
            AppError::UnexpectedError(_) => UNEXPECTED_ERROR_TEXT@,
            AppError::JsonExtractorRejection(kind, text) => match kind {
                JsonRejectionKind::Other => UNEXPECTED_ERROR_TEXT@,
                _ => text@,
            },
        }
    }

    /// What went wrong inside, for the log: the text that a failure of the
    /// server carries and its answer does not show.
    pub open spec fn detail_text(self) -> Option<Seq<char>> {
        match self {
            AppError::UnexpectedError(detail) => Some(detail@),
            AppError::JsonExtractorRejection(kind, text) => match kind {
                JsonRejectionKind::Other => Some(text@),
                _ => None,
            },
            _ => None,
        }
    }

    /// The HTTP status of the response.
    pub open spec fn status_code(self) -> u16 {
        match self {
            AppError::BadArguments(_) => STATUS_BAD_REQUEST,
            AppError::DecodeSearchParameterFailed => STATUS_BAD_REQUEST,
            AppError::Customer(_) => STATUS_CONFLICT,
            AppError::Auth(e) => e.status_code(),
            AppError::ChangePassword(_) => STATUS_BAD_REQUEST,
            AppError::UnexpectedError(_) => STATUS_INTERNAL_SERVER_ERROR,
            AppError::JsonExtractorRejection(kind, _) => match kind {
                JsonRejectionKind::JsonDataError => STATUS_BAD_REQUEST,
                JsonRejectionKind::JsonSyntaxError => STATUS_BAD_REQUEST,
                JsonRejectionKind::MissingJsonContentType => STATUS_UNSUPPORTED_MEDIA_TYPE,
                JsonRejectionKind::Other => STATUS_INTERNAL_SERVER_ERROR,
            },
        }
    }

    /// The text shown for this error.
    pub fn message(&self) -> (text: String)
        ensures
            text@ == self.message_text(),
    {
        match self {
            AppError::BadArguments(text) => text.clone(),
            AppError::DecodeSearchParameterFailed => "decode search parameter failed".to_owned(),
            AppError::Customer(e) => e.message(),
            AppError::Auth(e) => e.message(),
            AppError::ChangePassword(e) => e.message(),
            AppError::UnexpectedError(_) => UNEXPECTED_ERROR_TEXT.to_owned(),
            AppError::JsonExtractorRejection(kind, text) => match kind {
                JsonRejectionKind::Other => UNEXPECTED_ERROR_TEXT.to_owned(),
                _ => text.clone(),
            },
        }
    }

    /// What went wrong inside, for the log.
    pub fn detail(&self) -> (text: Option<String>)
        ensures
            optional_text(text) == self.detail_text(),
    {
        match self {
            AppError::UnexpectedError(detail) => Some(detail.clone()),
            AppError::JsonExtractorRejection(kind, text) => match kind {
                JsonRejectionKind::Other => Some(text.clone()),
                _ => None,
            },
            _ => None,
        }
    }

    /// The HTTP status this error surfaces as.
    pub fn status(&self) -> (code: u16)
        ensures
            code == self.status_code(),
    {
        match self {
            AppError::BadArguments(_) => STATUS_BAD_REQUEST,
            AppError::DecodeSearchParameterFailed => STATUS_BAD_REQUEST,
            AppError::Customer(_) => STATUS_CONFLICT,
            AppError::Auth(e) => e.status(),
            AppError::ChangePassword(_) => STATUS_BAD_REQUEST,
            AppError::UnexpectedError(_) => STATUS_INTERNAL_SERVER_ERROR,
            AppError::JsonExtractorRejection(kind, _) => match kind {
                JsonRejectionKind::JsonDataError => STATUS_BAD_REQUEST,
                JsonRejectionKind::JsonSyntaxError => STATUS_BAD_REQUEST,
                JsonRejectionKind::MissingJsonContentType => STATUS_UNSUPPORTED_MEDIA_TYPE,
                JsonRejectionKind::Other => STATUS_INTERNAL_SERVER_ERROR,
            },
        }
    }

    /// The status and the message the response is built from. Where the
    /// status is 500 the message is the one fixed text.
    pub fn into_response(self) -> (response: (u16, String))
        ensures
            response.0 == self.status_code(),
            response.1@ == self.message_text(),
    {
        let status = self.status();
        let text = self.message();
        (status, text)
    }
}

/// A failure of the server shows nothing of what went wrong inside: every
/// answer with the status 500 carries the same text, and every error that
/// holds a detail for the log answers with that status.
pub proof fn lemma_server_errors_show_no_detail(error: AppError)
    ensures
        error.status_code() == STATUS_INTERNAL_SERVER_ERROR ==> error.message_text()
            == UNEXPECTED_ERROR_TEXT@,
        error.detail_text() is Some ==> error.status_code() == STATUS_INTERNAL_SERVER_ERROR,
{
}

} // verus!
