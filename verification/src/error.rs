//! Errors that requests end in, with the messages and HTTP statuses they are answered with.

use vstd::prelude::*;

verus! {

/// HTTP status 401.
pub const UNAUTHORIZED: u16 = 401;

/// HTTP status 400.
pub const BAD_REQUEST: u16 = 400;

/// HTTP status 404.
pub const NOT_FOUND: u16 = 404;

/// HTTP status 500.
pub const INTERNAL_SERVER_ERROR: u16 = 500;

/// Failures of authentication tokens.
#[derive(Debug, Clone)]
pub enum TokenError {
    InvalidToken(String),
    TokenExpired,
    MissingToken,
    AuthExpired,
    TokenCreationError(String),
}

/// The message shown to the user for an error.
pub open spec fn token_error_message(e: TokenError) -> Seq<char> {
    match e {
        TokenError::InvalidToken(_) => "The token is invalid. Please try again."@,
        TokenError::TokenExpired => "Your token has expired. Please log in again."@,
        TokenError::MissingToken => "Token is missing. Please provide a valid token."@,
        TokenError::AuthExpired => "Authentication is expired. Please try again"@,
        TokenError::TokenCreationError(s) => "Token error: "@ + s@,
    }
}

/// The HTTP status with which an error is answered.
pub open spec fn token_error_status(e: TokenError) -> u16 {
    match e {
        TokenError::InvalidToken(_) => UNAUTHORIZED,
        TokenError::TokenExpired => UNAUTHORIZED,
        TokenError::MissingToken => UNAUTHORIZED,
        TokenError::AuthExpired => UNAUTHORIZED,
        TokenError::TokenCreationError(_) => INTERNAL_SERVER_ERROR,
    }
}

impl TokenError {
    /// The message shown to the user.
    pub fn to_string(&self) -> (m: String)
        ensures
            m@ == token_error_message(*self),
    {
        match self {
            TokenError::InvalidToken(_) => String::from_str("The token is invalid. Please try again."),
            TokenError::TokenExpired => String::from_str("Your token has expired. Please log in again."),
            TokenError::MissingToken => String::from_str("Token is missing. Please provide a valid token."),
            TokenError::AuthExpired => String::from_str("Authentication is expired. Please try again"),
            TokenError::TokenCreationError(s) => {
                let mut m = String::from_str("Token error: ");
                m.append(s.as_str());
                m
            },
        }
    }

    /// The HTTP status with which the error is answered.
    pub fn status_code(&self) -> (code: u16)
        ensures
            code == token_error_status(*self),
    {
        match self {
            TokenError::InvalidToken(_) => UNAUTHORIZED,
            TokenError::TokenExpired => UNAUTHORIZED,
            TokenError::MissingToken => UNAUTHORIZED,
            TokenError::AuthExpired => UNAUTHORIZED,
            TokenError::TokenCreationError(_) => INTERNAL_SERVER_ERROR,
        }
    }
}

/// Failures of file uploads.
#[derive(Debug, Clone)]
pub enum UploadError {
    FailedProcessData,
    NoFileProvided,
    SomethingWentWrong(String),
}

/// The message shown to the user for an error.
pub open spec fn upload_error_message(e: UploadError) -> Seq<char> {
    match e {
        UploadError::FailedProcessData => "There was an issue processing the data. Please try again."@,
        UploadError::NoFileProvided => "No file provided. Please upload a file."@,
        UploadError::SomethingWentWrong(s) => "Something went wrong: "@ + s@ + "."@,
    }
}

/// The HTTP status with which an error is answered.
pub open spec fn upload_error_status(e: UploadError) -> u16 {
    match e {
        UploadError::FailedProcessData => INTERNAL_SERVER_ERROR,
        UploadError::NoFileProvided => BAD_REQUEST,
        UploadError::SomethingWentWrong(_) => INTERNAL_SERVER_ERROR,
    }
}

impl UploadError {
    /// The message shown to the user.
    pub fn to_string(&self) -> (m: String)
        ensures
            m@ == upload_error_message(*self),
    {
        match self {
            UploadError::FailedProcessData => String::from_str("There was an issue processing the data. Please try again."),
            UploadError::NoFileProvided => String::from_str("No file provided. Please upload a file."),
            UploadError::SomethingWentWrong(s) => {
                let mut m = String::from_str("Something went wrong: ");
                m.append(s.as_str());
                m.append(".");
                m
            },
        }
    }

    /// The HTTP status with which the error is answered.
    pub fn status_code(&self) -> (code: u16)
        ensures
            code == upload_error_status(*self),
    {
        match self {
            UploadError::FailedProcessData => INTERNAL_SERVER_ERROR,
            UploadError::NoFileProvided => BAD_REQUEST,
            UploadError::SomethingWentWrong(_) => INTERNAL_SERVER_ERROR,
        }
    }
}

/// Failures of account operations.
#[derive(Debug, Clone)]
pub enum UserError {
    CantCreateUser,
    UserNotFound,
    UserAlreadyExists,
    InvalidPassword,
    UsernameAlreadyExists,
    EmailNotVerified,
    TempUserNotFound,
    InvalidPasskey,
    ExpiredPasskey,
    CantSendEmail,
    EmailAlreadyUsed,
    EmailNotMatch,
    TryOtherMethod,
    RoleNotAllowed,
    SomethingWentWrong(String),
}

/// The message shown to the user for an error.
pub open spec fn user_error_message(e: UserError) -> Seq<char> {
    match e {
        UserError::CantCreateUser => "Unable to create your account."@,
        UserError::UserNotFound => "Account not found."@,
        UserError::UserAlreadyExists => "Account already exists."@,
        UserError::InvalidPassword => "Incorrect password. Please try again."@,
        UserError::UsernameAlreadyExists => "Username already exists. Please choose a different one."@,
        UserError::EmailNotVerified => "Please verify your email to continue."@,
        UserError::TempUserNotFound => "Temporary account not found."@,
        UserError::InvalidPasskey => "Invalid code. Please check and try again."@,
        UserError::ExpiredPasskey => "Code expired. Please request a new one."@,
        UserError::CantSendEmail => "Unable to send the email. Please try again."@,
        UserError::EmailAlreadyUsed => "This email is already in use."@,
        UserError::EmailNotMatch => "Email does not match. Please check and try again."@,
        UserError::TryOtherMethod => "You've already used this email to login with Google. Please use the 'Continue with Google'"@,
        UserError::RoleNotAllowed => "This role is not allowed"@,
        UserError::SomethingWentWrong(s) => s@,
    }
}

/// The HTTP status with which an error is answered.
pub open spec fn user_error_status(e: UserError) -> u16 {
    match e {
        UserError::CantCreateUser => BAD_REQUEST,
        UserError::UserNotFound => NOT_FOUND,
        UserError::UserAlreadyExists => BAD_REQUEST,
        UserError::InvalidPassword => BAD_REQUEST,
        UserError::UsernameAlreadyExists => BAD_REQUEST,
        UserError::EmailNotVerified => BAD_REQUEST,
        UserError::TempUserNotFound => NOT_FOUND,
        UserError::InvalidPasskey => BAD_REQUEST,
        UserError::ExpiredPasskey => BAD_REQUEST,
        UserError::CantSendEmail => BAD_REQUEST,
        UserError::EmailAlreadyUsed => BAD_REQUEST,
        UserError::EmailNotMatch => BAD_REQUEST,
        UserError::TryOtherMethod => BAD_REQUEST,
        UserError::RoleNotAllowed => BAD_REQUEST,
        UserError::SomethingWentWrong(_) => INTERNAL_SERVER_ERROR,
    }
}

impl UserError {
    /// The message shown to the user.
    pub fn to_string(&self) -> (m: String)
        ensures
            m@ == user_error_message(*self),
    {
        match self {
            UserError::CantCreateUser => String::from_str("Unable to create your account."),
            UserError::UserNotFound => String::from_str("Account not found."),
            UserError::UserAlreadyExists => String::from_str("Account already exists."),
            UserError::InvalidPassword => String::from_str("Incorrect password. Please try again."),
            UserError::UsernameAlreadyExists => String::from_str("Username already exists. Please choose a different one."),
            UserError::EmailNotVerified => String::from_str("Please verify your email to continue."),
            UserError::TempUserNotFound => String::from_str("Temporary account not found."),
            UserError::InvalidPasskey => String::from_str("Invalid code. Please check and try again."),
            UserError::ExpiredPasskey => String::from_str("Code expired. Please request a new one."),
            UserError::CantSendEmail => String::from_str("Unable to send the email. Please try again."),
            UserError::EmailAlreadyUsed => String::from_str("This email is already in use."),
            UserError::EmailNotMatch => String::from_str("Email does not match. Please check and try again."),
            UserError::TryOtherMethod => String::from_str("You've already used this email to login with Google. Please use the 'Continue with Google'"),
            UserError::RoleNotAllowed => String::from_str("This role is not allowed"),
            UserError::SomethingWentWrong(s) => {
                let mut m = String::new();
                m.append(s.as_str());
                assert(m@ =~= s@);
                m
            },
        }
    }

    /// The HTTP status with which the error is answered.
    pub fn status_code(&self) -> (code: u16)
        ensures
            code == user_error_status(*self),
    {
        match self {
            UserError::CantCreateUser => BAD_REQUEST,
            UserError::UserNotFound => NOT_FOUND,
            UserError::UserAlreadyExists => BAD_REQUEST,
            UserError::InvalidPassword => BAD_REQUEST,
            UserError::UsernameAlreadyExists => BAD_REQUEST,
            UserError::EmailNotVerified => BAD_REQUEST,
            UserError::TempUserNotFound => NOT_FOUND,
            UserError::InvalidPasskey => BAD_REQUEST,
            UserError::ExpiredPasskey => BAD_REQUEST,
            UserError::CantSendEmail => BAD_REQUEST,
            UserError::EmailAlreadyUsed => BAD_REQUEST,
            UserError::EmailNotMatch => BAD_REQUEST,
            UserError::TryOtherMethod => BAD_REQUEST,
            UserError::RoleNotAllowed => BAD_REQUEST,
            UserError::SomethingWentWrong(_) => INTERNAL_SERVER_ERROR,
        }
    }
}

/// A failure reported by the storage layer, with its description.
#[derive(Debug, Clone)]
pub enum DbError {
    Str(String),
}

/// Any failure that a service call ends in.
#[derive(Debug, Clone)]
pub enum ApiError {
    DbError(DbError),
    UserError(UserError),
    TokenError(TokenError),
    UploadError(UploadError),
}

/// A storage failure with the given description.
pub fn db_error(message: &str) -> (e: ApiError)
    ensures
        e matches ApiError::DbError(DbError::Str(m)) && m@ == message@,
{
    ApiError::DbError(DbError::Str(String::from_str(message)))
}

/// Whether `e` is the storage failure described by `message`.
pub open spec fn is_db_error(e: ApiError, message: Seq<char>) -> bool {
    e matches ApiError::DbError(DbError::Str(m)) && m@ == message
}

} // verus!
