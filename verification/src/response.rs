//! What the service answers: response bodies, the stable error codes and
//! the HTTP status that goes with each.

use vstd::prelude::*;

verus! {

/// HTTP status codes that the service answers with.
pub const STATUS_OK: u16 = 200;

pub const STATUS_CREATED: u16 = 201;

pub const STATUS_FOUND: u16 = 302;

pub const STATUS_BAD_REQUEST: u16 = 400;

pub const STATUS_UNAUTHORIZED: u16 = 401;

pub const STATUS_NOT_FOUND: u16 = 404;

pub const STATUS_CONFLICT: u16 = 409;

pub const STATUS_GONE: u16 = 410;

pub const STATUS_INTERNAL_SERVER_ERROR: u16 = 500;

/// The error codes of the service. Clients match on their text, so it never
/// changes.
#[derive(Clone, Copy, Debug, PartialEq, Eq, Structural)]
pub enum ErrorCode {
    InvalidCredentials,
    UserNotFound,
    UserDisabled,
    EmailInUse,
    EmailAlreadyInUse,
    InvalidEmail,
    InvalidPassword,
    WeakPassword,
    BadHeader,
    NotAuthenticated,
    BadToken,
    InvalidJwt,
    ExpiredJwt,
    InvalidToken,
    ExpiredToken,
    AlreadyVerified,
    EmailNotConfigured,
    UserAlreadyExists,
    UserDoesNotExist,
    InternalServerError,
}

impl ErrorCode {
    /// The code as clients see it.
    pub open spec fn text(self) -> Seq<char> {
        match self {
            ErrorCode::InvalidCredentials => "INVALID_CREDENTIALS"@,
            ErrorCode::UserNotFound => "USER_NOT_FOUND"@,
            ErrorCode::UserDisabled => "USER_DISABLED"@,
            ErrorCode::EmailInUse => "EMAIL_IN_USE"@,
            ErrorCode::EmailAlreadyInUse => "EMAIL_ALREADY_IN_USE"@,
            ErrorCode::InvalidEmail => "INVALID_EMAIL"@,
            ErrorCode::InvalidPassword => "INVALID_PASSWORD"@,
            ErrorCode::WeakPassword => "WEAK_PASSWORD"@,
            ErrorCode::BadHeader => "BAD_HEADER"@,
            ErrorCode::NotAuthenticated => "NOT_AUTHENTICATED"@,
            ErrorCode::BadToken => "BAD_TOKEN"@,
            ErrorCode::InvalidJwt => "INVALID_JWT"@,
            ErrorCode::ExpiredJwt => "EXPIRED_JWT"@,
            ErrorCode::InvalidToken => "INVALID_TOKEN"@,
            ErrorCode::ExpiredToken => "EXPIRED_TOKEN"@,
            ErrorCode::AlreadyVerified => "ALREADY_VERIFIED"@,
            ErrorCode::EmailNotConfigured => "EMAIL_NOT_CONFIGURED"@,
            ErrorCode::UserAlreadyExists => "USER_ALREADY_EXISTS"@,
            ErrorCode::UserDoesNotExist => "USER_DOES_NOT_EXIST"@,
            ErrorCode::InternalServerError => "INTERNAL_SERVER_ERROR"@,
        }
    }

    /// The code as clients see it.
    pub fn to_text(self) -> (r: String)
        ensures
            r@ == self.text(),
    {
        match self {
            ErrorCode::InvalidCredentials => "INVALID_CREDENTIALS".to_string(),
            ErrorCode::UserNotFound => "USER_NOT_FOUND".to_string(),
            ErrorCode::UserDisabled => "USER_DISABLED".to_string(),
            ErrorCode::EmailInUse => "EMAIL_IN_USE".to_string(),
            ErrorCode::EmailAlreadyInUse => "EMAIL_ALREADY_IN_USE".to_string(),
            ErrorCode::InvalidEmail => "INVALID_EMAIL".to_string(),
            ErrorCode::InvalidPassword => "INVALID_PASSWORD".to_string(),
            ErrorCode::WeakPassword => "WEAK_PASSWORD".to_string(),
            ErrorCode::BadHeader => "BAD_HEADER".to_string(),
            ErrorCode::NotAuthenticated => "NOT_AUTHENTICATED".to_string(),
            ErrorCode::BadToken => "BAD_TOKEN".to_string(),
            ErrorCode::InvalidJwt => "INVALID_JWT".to_string(),
            ErrorCode::ExpiredJwt => "EXPIRED_JWT".to_string(),
            ErrorCode::InvalidToken => "INVALID_TOKEN".to_string(),
            ErrorCode::ExpiredToken => "EXPIRED_TOKEN".to_string(),
            ErrorCode::AlreadyVerified => "ALREADY_VERIFIED".to_string(),
            ErrorCode::EmailNotConfigured => "EMAIL_NOT_CONFIGURED".to_string(),
            ErrorCode::UserAlreadyExists => "USER_ALREADY_EXISTS".to_string(),
            ErrorCode::UserDoesNotExist => "USER_DOES_NOT_EXIST".to_string(),
            ErrorCode::InternalServerError => "INTERNAL_SERVER_ERROR".to_string(),
        }
    }
}

/// The body of a response.
#[derive(Debug)]
#[allow(inconsistent_fields)]
pub enum ApiResponse {
    ApiError { message: String, error_code: String },
    SignupResponse { uid: String },
    LoginResponse {
        uid: String,
        token: String,
        expiry: i64,
        refresh_token: String,
        email_verified: bool,
        metadata: String,
    },
    RefreshResponse { uid: String, access_token: String, refresh_token: String, expiry: i64 },
    UserResponse {
        uid: String,
        email: String,
        created_at: i64,
        updated_at: i64,
        last_login: Option<i64>,
        active: bool,
        metadata: Option<String>,
        email_verified: bool,
    },
}

/// A response body as contracts speak of it: texts in place of strings.
#[allow(inconsistent_fields)]
pub ghost enum ApiResponseView {
    ApiError { message: Seq<char>, error_code: Seq<char> },
    SignupResponse { uid: Seq<char> },
    LoginResponse {
        uid: Seq<char>,
        token: Seq<char>,
        expiry: i64,
        refresh_token: Seq<char>,
        email_verified: bool,
        metadata: Seq<char>,
    },
    RefreshResponse {
        uid: Seq<char>,
        access_token: Seq<char>,
        refresh_token: Seq<char>,
        expiry: i64,
    },
    UserResponse {
        uid: Seq<char>,
        email: Seq<char>,
        created_at: i64,
        updated_at: i64,
        last_login: Option<i64>,
        active: bool,
        metadata: Option<Seq<char>>,
        email_verified: bool,
    },
}

/// The text of an optional string.
pub open spec fn text_of(s: Option<String>) -> Option<Seq<char>> {
    match s {
        Some(t) => Some(t@),
        None => None,
    }
}

impl View for ApiResponse {
    type V = ApiResponseView;

    open spec fn view(&self) -> ApiResponseView {
        match *self {
            ApiResponse::ApiError { message, error_code } => ApiResponseView::ApiError {
                message: message@,
                error_code: error_code@,
            },
            ApiResponse::SignupResponse { uid } => ApiResponseView::SignupResponse { uid: uid@ },
            ApiResponse::LoginResponse {
                uid,
                token,
                expiry,
                refresh_token,
                email_verified,
                metadata,
            } => ApiResponseView::LoginResponse {
                uid: uid@,
                token: token@,
                expiry,
                refresh_token: refresh_token@,
                email_verified,
                metadata: metadata@,
            },
            ApiResponse::RefreshResponse {
                uid,
                access_token,
                refresh_token,
                expiry,
            } => ApiResponseView::RefreshResponse {
                uid: uid@,
                access_token: access_token@,
                refresh_token: refresh_token@,
                expiry,
            },
            ApiResponse::UserResponse {
                uid,
                email,
                created_at,
                updated_at,
                last_login,
                active,
                metadata,
                email_verified,
            } => ApiResponseView::UserResponse {
                uid: uid@,
                email: email@,
                created_at,
                updated_at,
                last_login,
                active,
                metadata: text_of(metadata),
                email_verified,
            },
        }
    }
}

/// The error body with the given message and code.
pub fn api_error(message: String, error_code: String) -> (r: ApiResponse)
    ensures
        r@ == (ApiResponseView::ApiError { message: message@, error_code: error_code@ }),
{
    ApiResponse::ApiError { message, error_code }
}

/// The error body that carries `code` and `message`, as contracts speak of
/// it.
pub open spec fn error_view(code: ErrorCode, message: Seq<char>) -> ApiResponseView {
    ApiResponseView::ApiError { message, error_code: code.text() }
}

/// The error body that carries `code` and `message`.
pub fn error_body(code: ErrorCode, message: &str) -> (r: ApiResponse)
    ensures
        r@ == error_view(code, message@),
{
    api_error(message.to_string(), code.to_text())
}

/// What is sent back for a request: a JSON body with a status, a bare
/// status, or a redirect to another address.
#[derive(Debug)]
pub enum Reply {
    Json(ApiResponse, u16),
    Empty(u16),
    Redirect(String),
}

/// A reply as contracts speak of it.
pub ghost enum ReplyView {
    Json(ApiResponseView, u16),
    Empty(u16),
    Redirect(Seq<char>),
}

impl View for Reply {
    type V = ReplyView;

    open spec fn view(&self) -> ReplyView {
        match *self {
            Reply::Json(body, status) => ReplyView::Json(body@, status),
            Reply::Empty(status) => ReplyView::Empty(status),
            Reply::Redirect(location) => ReplyView::Redirect(location@),
        }
    }
}

impl Reply {
    /// The HTTP status of the reply; a redirect is 302.
    pub open spec fn status(self) -> u16 {
        match self {
            Reply::Json(_, status) => status,
            Reply::Empty(status) => status,
            Reply::Redirect(_) => STATUS_FOUND,
        }
    }

    /// The HTTP status of the reply.
    pub fn status_code(&self) -> (r: u16)
        ensures
            r == self.status(),
    {
        match self {
            Reply::Json(_, status) => *status,
            Reply::Empty(status) => *status,
            Reply::Redirect(_) => STATUS_FOUND,
        }
    }
}

/// The errors that the operations answer with, each with its code, its
/// message and its status.
#[derive(Clone, Copy, Debug, PartialEq, Eq, Structural)]
pub enum Failure {
    InvalidEmail,
    EmptyPassword,
    InvalidPassword,
    EmailAlreadyInUse,
    EmailInUse,
    InvalidCredentials,
    PasswordMismatch,
    UserDisabled,
    UserMissing,
    UserNotFound,
    UserNotFoundBadRequest,
    UserAbsent,
    UserAlreadyExists,
    UserDoesNotExist,
    ResetTokenExpired,
    TokenInvalid,
    TokenUnreadable,
    TokenExpired,
    AlreadyVerified,
    EmailNotConfigured,
    Internal,
    InternalAdmin,
    InternalOccurred,
    InternalFindingUser,
    InternalChangingPassword,
}

impl Failure {
    /// The error code that clients see.
    pub open spec fn code(self) -> ErrorCode {
        match self {
            Failure::InvalidEmail => ErrorCode::InvalidEmail,
            Failure::EmptyPassword => ErrorCode::InvalidPassword,
            Failure::InvalidPassword => ErrorCode::InvalidPassword,
            Failure::EmailAlreadyInUse => ErrorCode::EmailAlreadyInUse,
            Failure::EmailInUse => ErrorCode::EmailInUse,
            Failure::InvalidCredentials => ErrorCode::InvalidCredentials,
            Failure::PasswordMismatch => ErrorCode::InvalidCredentials,
            Failure::UserDisabled => ErrorCode::UserDisabled,
            Failure::UserMissing => ErrorCode::UserNotFound,
            Failure::UserNotFound => ErrorCode::UserNotFound,
            Failure::UserNotFoundBadRequest => ErrorCode::UserNotFound,
            Failure::UserAbsent => ErrorCode::UserNotFound,
            Failure::UserAlreadyExists => ErrorCode::UserAlreadyExists,
            Failure::UserDoesNotExist => ErrorCode::UserDoesNotExist,
            Failure::ResetTokenExpired => ErrorCode::InvalidToken,
            Failure::TokenInvalid => ErrorCode::InvalidToken,
            Failure::TokenUnreadable => ErrorCode::InvalidToken,
            Failure::TokenExpired => ErrorCode::ExpiredToken,
            Failure::AlreadyVerified => ErrorCode::AlreadyVerified,
            Failure::EmailNotConfigured => ErrorCode::EmailNotConfigured,
            Failure::Internal => ErrorCode::InternalServerError,
            Failure::InternalAdmin => ErrorCode::InternalServerError,
            Failure::InternalOccurred => ErrorCode::InternalServerError,
            Failure::InternalFindingUser => ErrorCode::InternalServerError,
            Failure::InternalChangingPassword => ErrorCode::InternalServerError,
        }
    }

    /// The message that clients see.
    pub open spec fn message(self) -> Seq<char> {
        match self {
            Failure::InvalidEmail => "The provided email is invalid."@,
            Failure::EmptyPassword => "An empty password was provided."@,
            Failure::InvalidPassword => "An invalid password was provided."@,
            Failure::EmailAlreadyInUse => "This email is already in use."@,
            Failure::EmailInUse => "The email provided is already in use."@,
            Failure::InvalidCredentials => "The email or password is invalid"@,
            Failure::PasswordMismatch => "The provided email and password do not match."@,
            Failure::UserDisabled => "The user has been disabled by an administrator."@,
            Failure::UserMissing => "The user does not exist."@,
            Failure::UserNotFound => "The user was not found."@,
            Failure::UserNotFoundBadRequest => "The user was not found."@,
            Failure::UserAbsent => "The user was not found"@,
            Failure::UserAlreadyExists => "The user already exists."@,
            Failure::UserDoesNotExist => "The user does not exist."@,
            Failure::ResetTokenExpired => "The password reset token has already expired"@,
            Failure::TokenInvalid => "The provided token is invalid."@,
            Failure::TokenUnreadable => "The provided was invalid."@,
            Failure::TokenExpired => "The token has already expired"@,
            Failure::AlreadyVerified => "The user is already verified."@,
            Failure::EmailNotConfigured => "The server is not configured to send emails."@,
            Failure::Internal => "Internal Server Error"@,
            Failure::InternalAdmin => "Internal Server Error."@,
            Failure::InternalOccurred => "An internal server error occurred."@,
            Failure::InternalFindingUser => "An error occurred when finding user."@,
            Failure::InternalChangingPassword => "Failed to change user password."@,
        }
    }

    /// The HTTP status that goes with the error.
    pub open spec fn status(self) -> u16 {
        match self {
            Failure::EmailAlreadyInUse | Failure::EmailInUse => STATUS_CONFLICT,
            Failure::InvalidCredentials | Failure::PasswordMismatch | Failure::UserDisabled =>
                STATUS_UNAUTHORIZED,
            Failure::UserMissing | Failure::UserNotFound | Failure::UserAbsent => STATUS_NOT_FOUND,
            Failure::Internal
            | Failure::InternalAdmin
            | Failure::InternalOccurred
            | Failure::InternalFindingUser
            | Failure::InternalChangingPassword => STATUS_INTERNAL_SERVER_ERROR,
            _ => STATUS_BAD_REQUEST,
        }
    }

    /// The error as a response body with its status, as contracts speak of
    /// it.
    pub open spec fn reply(self) -> (ApiResponseView, u16) {
        (error_view(self.code(), self.message()), self.status())
    }

    fn wording(self) -> (r: String)
        ensures
            r@ == self.message(),
    {
        match self {
            Failure::InvalidEmail => "The provided email is invalid.".to_string(),
            Failure::EmptyPassword => "An empty password was provided.".to_string(),
            Failure::InvalidPassword => "An invalid password was provided.".to_string(),
            Failure::EmailAlreadyInUse => "This email is already in use.".to_string(),
            Failure::EmailInUse => "The email provided is already in use.".to_string(),
            Failure::InvalidCredentials => "The email or password is invalid".to_string(),
            Failure::PasswordMismatch => "The provided email and password do not match.".to_string(),
            Failure::UserDisabled => "The user has been disabled by an administrator.".to_string(),
            Failure::UserMissing => "The user does not exist.".to_string(),
            Failure::UserNotFound => "The user was not found.".to_string(),
            Failure::UserNotFoundBadRequest => "The user was not found.".to_string(),
            Failure::UserAbsent => "The user was not found".to_string(),
            Failure::UserAlreadyExists => "The user already exists.".to_string(),
            Failure::UserDoesNotExist => "The user does not exist.".to_string(),
            Failure::ResetTokenExpired => "The password reset token has already expired".to_string(),
            Failure::TokenInvalid => "The provided token is invalid.".to_string(),
            Failure::TokenUnreadable => "The provided was invalid.".to_string(),
            Failure::TokenExpired => "The token has already expired".to_string(),
            Failure::AlreadyVerified => "The user is already verified.".to_string(),
            Failure::EmailNotConfigured => "The server is not configured to send emails.".to_string(),
            Failure::Internal => "Internal Server Error".to_string(),
            Failure::InternalAdmin => "Internal Server Error.".to_string(),
            Failure::InternalOccurred => "An internal server error occurred.".to_string(),
            Failure::InternalFindingUser => "An error occurred when finding user.".to_string(),
            Failure::InternalChangingPassword => "Failed to change user password.".to_string(),
        }
    }

    fn code_of(self) -> (r: ErrorCode)
        ensures
            r == self.code(),
    {
        match self {
            Failure::InvalidEmail => ErrorCode::InvalidEmail,
            Failure::EmptyPassword => ErrorCode::InvalidPassword,
            Failure::InvalidPassword => ErrorCode::InvalidPassword,
            Failure::EmailAlreadyInUse => ErrorCode::EmailAlreadyInUse,
            Failure::EmailInUse => ErrorCode::EmailInUse,
            Failure::InvalidCredentials => ErrorCode::InvalidCredentials,
            Failure::PasswordMismatch => ErrorCode::InvalidCredentials,
            Failure::UserDisabled => ErrorCode::UserDisabled,
            Failure::UserMissing => ErrorCode::UserNotFound,
            Failure::UserNotFound => ErrorCode::UserNotFound,
            Failure::UserNotFoundBadRequest => ErrorCode::UserNotFound,
            Failure::UserAbsent => ErrorCode::UserNotFound,
            Failure::UserAlreadyExists => ErrorCode::UserAlreadyExists,
            Failure::UserDoesNotExist => ErrorCode::UserDoesNotExist,
            Failure::ResetTokenExpired => ErrorCode::InvalidToken,
            Failure::TokenInvalid => ErrorCode::InvalidToken,
            Failure::TokenUnreadable => ErrorCode::InvalidToken,
            Failure::TokenExpired => ErrorCode::ExpiredToken,
            Failure::AlreadyVerified => ErrorCode::AlreadyVerified,
            Failure::EmailNotConfigured => ErrorCode::EmailNotConfigured,
            Failure::Internal => ErrorCode::InternalServerError,
            Failure::InternalAdmin => ErrorCode::InternalServerError,
            Failure::InternalOccurred => ErrorCode::InternalServerError,
            Failure::InternalFindingUser => ErrorCode::InternalServerError,
            Failure::InternalChangingPassword => ErrorCode::InternalServerError,
        }
    }

    /// The HTTP status that goes with the error.
    pub fn status_code(self) -> (r: u16)
        ensures
            r == self.status(),
    {
        match self {
            Failure::EmailAlreadyInUse | Failure::EmailInUse => STATUS_CONFLICT,
            Failure::InvalidCredentials | Failure::PasswordMismatch | Failure::UserDisabled =>
                STATUS_UNAUTHORIZED,
            Failure::UserMissing | Failure::UserNotFound | Failure::UserAbsent => STATUS_NOT_FOUND,
            Failure::Internal
            | Failure::InternalAdmin
            | Failure::InternalOccurred
            | Failure::InternalFindingUser
            | Failure::InternalChangingPassword => STATUS_INTERNAL_SERVER_ERROR,
            _ => STATUS_BAD_REQUEST,
        }
    }

    /// The response that tells the client of this error.
    pub fn response(self) -> (r: (ApiResponse, u16))
        ensures
            (r.0@, r.1) == self.reply(),
    {
        (api_error(self.wording(), self.code_of().to_text()), self.status_code())
    }

    /// The error as a reply, as contracts speak of it.
    pub open spec fn refusal(self) -> ReplyView {
        ReplyView::Json(self.reply().0, self.reply().1)
    }

    /// The reply that tells the client of this error.
    pub fn refuse(self) -> (r: Reply)
        ensures
            r@ == self.refusal(),
    {
        let (body, status) = self.response();
        Reply::Json(body, status)
    }
}

/// The answer to a request body that could not be read as JSON.
#[derive(Debug)]
pub struct JsonError {
    pub message: String,
    pub error_code: String,
}

impl JsonError {
    /// The status that goes with a body that could not be read: 400.
    pub fn status_code(&self) -> (r: u16)
        ensures
            r == STATUS_BAD_REQUEST,
    {
        STATUS_BAD_REQUEST
    }

    /// The response body: the message and the code, unchanged.
    pub fn error_response(&self) -> (r: ApiResponse)
        ensures
            r@ == (ApiResponseView::ApiError {
                message: self.message@,
                error_code: self.error_code@,
            }),
    {
        api_error(self.message.clone(), self.error_code.clone())
    }
}

} // verus!
