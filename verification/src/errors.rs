//! The error taxonomy: stable message identifiers and the status+message
//! pair every failing operation surfaces.

use vstd::prelude::*;

verus! {

/// A structured failure body: a status label and a human-readable message.
#[derive(Clone, Debug)]
pub struct ErrorResponse {
    pub status: String,
    pub message: String,
}

/// The stable identifiers of the failure conditions the library reports.
#[derive(Clone, Copy, PartialEq, Eq, Structural, Debug)]
pub enum ErrorMessage {
    EmptyPassword,
    ExceededMaxPasswordLength(usize),
    PasswordTooShort(usize),
    InvalidHashFormat,
    HashingError,
    InvalidToken,
    ServerError,
    WrongeCredentials,
    EmailExit,
    UserNoLongerExists,
    TokenNotProvided,
    PermissionDenied,
}

/// The wire text of each error identifier.
pub open spec fn message_text(m: ErrorMessage) -> Seq<char> {
    match m {
        ErrorMessage::EmptyPassword => "EmptyPassword"@,
        ErrorMessage::ExceededMaxPasswordLength(_) => "ExceededMaxPasswordLength"@,
        ErrorMessage::PasswordTooShort(_) => "PasswordTooShort"@,
        ErrorMessage::InvalidHashFormat => "InvalidHashFormat"@,
        ErrorMessage::HashingError => "HashingError"@,
        ErrorMessage::InvalidToken => "InvalidToken"@,
        ErrorMessage::ServerError => "ServerError"@,
        ErrorMessage::WrongeCredentials => "WrongeCredentials"@,
        ErrorMessage::EmailExit => "EmailExit"@,
        ErrorMessage::UserNoLongerExists => "UserNoLongerExists"@,
        ErrorMessage::TokenNotProvided => "TokenNotProvided"@,
        ErrorMessage::PermissionDenied => "PermissionDenied"@,
    }
}

impl ErrorMessage {
    /// The wire text of this error identifier.
    pub fn to_str(&self) -> (r: String)
        ensures
            r@ == message_text(*self),
    {
        match self {
            ErrorMessage::EmptyPassword => String::from_str("EmptyPassword"),
            ErrorMessage::ExceededMaxPasswordLength(_) => String::from_str(
                "ExceededMaxPasswordLength",
            ),
            ErrorMessage::PasswordTooShort(_) => String::from_str("PasswordTooShort"),
            ErrorMessage::InvalidHashFormat => String::from_str("InvalidHashFormat"),
            ErrorMessage::HashingError => String::from_str("HashingError"),
            ErrorMessage::InvalidToken => String::from_str("InvalidToken"),
            ErrorMessage::ServerError => String::from_str("ServerError"),
            ErrorMessage::WrongeCredentials => String::from_str("WrongeCredentials"),
            ErrorMessage::EmailExit => String::from_str("EmailExit"),
            ErrorMessage::UserNoLongerExists => String::from_str("UserNoLongerExists"),
            ErrorMessage::TokenNotProvided => String::from_str("TokenNotProvided"),
            ErrorMessage::PermissionDenied => String::from_str("PermissionDenied"),
        }
    }
}

/// An operation failure: an HTTP-style status code and a message.
#[derive(Clone, Debug)]
pub struct HttpError {
    pub status: u16,
    pub message: String,
}

impl HttpError {
    /// A failure with the given status code and message.
    pub fn new(status: u16, message: String) -> (r: HttpError)
        ensures
            r.status == status,
            r.message == message,
    {
        HttpError { status, message }
    }

    /// An uncategorized store or internal failure (500).
    pub fn server_error(message: String) -> (r: HttpError)
        ensures
            r.status == 500,
            r.message == message,
    {
        Self::new(500, message)
    }

    /// An input-validation failure (400).
    pub fn bad_request(message: String) -> (r: HttpError)
        ensures
            r.status == 400,
            r.message == message,
    {
        Self::new(400, message)
    }

    /// An authentication or authorization failure (401).
    pub fn unauthorized(message: String) -> (r: HttpError)
        ensures
            r.status == 401,
            r.message == message,
    {
        Self::new(401, message)
    }

    /// A unique-constraint violation (409).
    pub fn unique_constraint_violation(message: String) -> (r: HttpError)
        ensures
            r.status == 409,
            r.message == message,
    {
        Self::new(409, message)
    }

    /// The structured response body for this failure.
    pub fn into_error_response(self) -> (r: ErrorResponse)
        ensures
            r.status@ == "failed"@,
            r.message == self.message,
    {
        ErrorResponse { status: String::from_str("failed"), message: self.message }
    }
}

/// Whether `e` is the 401 failure carrying the wire text of `m`.
pub open spec fn is_unauthorized(e: HttpError, m: ErrorMessage) -> bool {
    e.status == 401 && e.message@ == message_text(m)
}

/// Whether `e` is a 500 failure carrying the generic store-failure text.
pub open spec fn is_server_error(e: HttpError) -> bool {
    e.status == 500 && e.message@ == message_text(ErrorMessage::ServerError)
}

/// Whether `e` is the 400 failure carrying the wire text of `m`.
pub open spec fn is_bad_request(e: HttpError, m: ErrorMessage) -> bool {
    e.status == 400 && e.message@ == message_text(m)
}

} // verus!
