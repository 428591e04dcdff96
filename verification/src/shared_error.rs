use vstd::prelude::*;

use crate::status::{
    create_json_error_response, reason_phrase, ErrorResponse, BAD_REQUEST, FORBIDDEN,
    INTERNAL_SERVER_ERROR, NOT_FOUND, UNAUTHORIZED,
};

verus! {

/// Errors shared by the service and the website.
#[derive(Clone, Debug, PartialEq, Eq)]
pub enum Error {
    AnyError(String),
    BadRequest(String),
    Forbidden(String),
    ValidationError(String),
    MissingUploadFile(String),
    FileTypeNotAllowed,
    NotFound(String),
    InvalidAuthToken,
    InsufficientAuthScope,
    NoAuthToken,
    InvalidClient,
    RequiresAuth,
    HashPasswordError(String),
    VerifyPasswordHashError(String),
    InvalidPassword,
    InactiveUser,
    UserNotFound,
    ConfigError(String),
    LoginFailed(String),
    InvalidCaptcha(String),
    CaptchaResponseError(String),
    LoginRequired(String),
    NoDefaultBucket,
    AlbumNotFound,
    PhotoNotFound,
    NoAuthCookie,
    InvalidCsrfToken,
    JsonParseError(String),
    ServiceError(String),
}

/// Whether an error belongs to the website (login, albums, photos, forms).
pub open spec fn is_website_error(e: Error) -> bool {
    match e {
        Error::LoginFailed(..) => true,
        Error::InvalidCaptcha(..) => true,
        Error::CaptchaResponseError(..) => true,
        Error::LoginRequired(..) => true,
        Error::NoDefaultBucket => true,
        Error::AlbumNotFound => true,
        Error::PhotoNotFound => true,
        Error::NoAuthCookie => true,
        Error::InvalidCsrfToken => true,
        Error::JsonParseError(..) => true,
        Error::ServiceError(..) => true,
        _ => false,
    }
}

/// The HTTP status that an error maps to.
pub open spec fn status_of(e: Error) -> u16 {
    match e {
        Error::AnyError(..) => INTERNAL_SERVER_ERROR,
        Error::BadRequest(..) => BAD_REQUEST,
        Error::Forbidden(..) => FORBIDDEN,
        Error::ValidationError(..) => BAD_REQUEST,
        Error::MissingUploadFile(..) => BAD_REQUEST,
        Error::FileTypeNotAllowed => BAD_REQUEST,
        Error::NotFound(..) => NOT_FOUND,
        Error::InvalidAuthToken => UNAUTHORIZED,
        Error::InsufficientAuthScope => UNAUTHORIZED,
        Error::NoAuthToken => UNAUTHORIZED,
        Error::InvalidClient => UNAUTHORIZED,
        Error::RequiresAuth => UNAUTHORIZED,
        Error::HashPasswordError(..) => INTERNAL_SERVER_ERROR,
        Error::VerifyPasswordHashError(..) => INTERNAL_SERVER_ERROR,
        Error::InvalidPassword => UNAUTHORIZED,
        Error::InactiveUser => UNAUTHORIZED,
        Error::UserNotFound => UNAUTHORIZED,
        Error::ConfigError(..) => INTERNAL_SERVER_ERROR,
        Error::LoginFailed(..) => UNAUTHORIZED,
        Error::InvalidCaptcha(..) => BAD_REQUEST,
        Error::CaptchaResponseError(..) => INTERNAL_SERVER_ERROR,
        Error::LoginRequired(..) => UNAUTHORIZED,
        Error::NoDefaultBucket => INTERNAL_SERVER_ERROR,
        Error::AlbumNotFound => NOT_FOUND,
        Error::PhotoNotFound => NOT_FOUND,
        Error::NoAuthCookie => UNAUTHORIZED,
        Error::InvalidCsrfToken => BAD_REQUEST,
        Error::JsonParseError(..) => INTERNAL_SERVER_ERROR,
        Error::ServiceError(..) => INTERNAL_SERVER_ERROR,
    }
}

/// The text an error displays as.
pub open spec fn message_of(e: Error) -> Seq<char> {
    match e {
        Error::AnyError(val) => val@,
        Error::BadRequest(val) => val@,
        Error::Forbidden(val) => val@,
        Error::ValidationError(val) => val@,
        Error::MissingUploadFile(val) => val@,
        Error::FileTypeNotAllowed => "File type not allowed"@,
        Error::NotFound(val) => val@,
        Error::InvalidAuthToken => "Invalid auth token"@,
        Error::InsufficientAuthScope => "Insufficient auth scope"@,
        Error::NoAuthToken => "No auth token"@,
        Error::InvalidClient => "Invalid client"@,
        Error::RequiresAuth => "Requires authentication"@,
        Error::HashPasswordError(val) => val@,
        Error::VerifyPasswordHashError(val) => val@,
        Error::InvalidPassword => "Invalid password"@,
        Error::InactiveUser => "Inactive user"@,
        Error::UserNotFound => "User not found"@,
        Error::ConfigError(val) => val@,
        Error::LoginFailed(val) => val@,
        Error::InvalidCaptcha(val) => val@,
        Error::CaptchaResponseError(val) => val@,
        Error::LoginRequired(val) => val@,
        Error::NoDefaultBucket => "No default bucket configured"@,
        Error::AlbumNotFound => "Album not found"@,
        Error::PhotoNotFound => "Photo not found"@,
        Error::NoAuthCookie => "Login to continue"@,
        Error::InvalidCsrfToken => "Stale form data. Refresh the page and try again"@,
        Error::JsonParseError(val) => val@,
        Error::ServiceError(val) => val@,
    }
}

/// The status of the JSON body that an error is answered with.
pub open spec fn json_status_of(e: Error) -> u16 {
    match e {
        Error::AnyError(..) => INTERNAL_SERVER_ERROR,
        Error::BadRequest(..) => BAD_REQUEST,
        Error::Forbidden(..) => FORBIDDEN,
        Error::ValidationError(..) => BAD_REQUEST,
        Error::MissingUploadFile(..) => BAD_REQUEST,
        Error::FileTypeNotAllowed => BAD_REQUEST,
        Error::NotFound(..) => NOT_FOUND,
        Error::InvalidAuthToken => UNAUTHORIZED,
        Error::InsufficientAuthScope => UNAUTHORIZED,
        Error::NoAuthToken => UNAUTHORIZED,
        Error::InvalidClient => UNAUTHORIZED,
        Error::RequiresAuth => UNAUTHORIZED,
        Error::HashPasswordError(..) => INTERNAL_SERVER_ERROR,
        Error::VerifyPasswordHashError(..) => INTERNAL_SERVER_ERROR,
        Error::InvalidPassword => UNAUTHORIZED,
        Error::InactiveUser => UNAUTHORIZED,
        Error::UserNotFound => UNAUTHORIZED,
        Error::ConfigError(..) => INTERNAL_SERVER_ERROR,
        _ => INTERNAL_SERVER_ERROR,
    }
}

/// The message of the JSON body that an error is answered with.
pub open spec fn json_message_of(e: Error) -> Seq<char> {
    match e {
        Error::AnyError(val) => val@,
        Error::BadRequest(val) => val@,
        Error::Forbidden(val) => val@,
        Error::ValidationError(val) => val@,
        Error::MissingUploadFile(val) => val@,
        Error::FileTypeNotAllowed => "File type not allowed"@,
        Error::NotFound(val) => val@,
        Error::InvalidAuthToken => "Unauthorized"@,
        Error::InsufficientAuthScope => "Unauthorized"@,
        Error::NoAuthToken => "Unauthorized"@,
        Error::InvalidClient => "Unauthorized"@,
        Error::RequiresAuth => "Unauthorized"@,
        Error::HashPasswordError(val) => val@,
        Error::VerifyPasswordHashError(val) => val@,
        Error::InvalidPassword => "Invalid username or password"@,
        Error::InactiveUser => "Inactive user"@,
        Error::UserNotFound => "Unauthorized"@,
        Error::ConfigError(val) => val@,
        _ => "Internal Server Error"@,
    }
}

impl Error {
    /// The HTTP status this error maps to.
    pub fn status_code(&self) -> (r: u16)
        ensures
            r == status_of(*self),
    {
        match self {
            Error::AnyError(..) => INTERNAL_SERVER_ERROR,
            Error::BadRequest(..) => BAD_REQUEST,
            Error::Forbidden(..) => FORBIDDEN,
            Error::ValidationError(..) => BAD_REQUEST,
            Error::MissingUploadFile(..) => BAD_REQUEST,
            Error::FileTypeNotAllowed => BAD_REQUEST,
            Error::NotFound(..) => NOT_FOUND,
            Error::InvalidAuthToken => UNAUTHORIZED,
            Error::InsufficientAuthScope => UNAUTHORIZED,
            Error::NoAuthToken => UNAUTHORIZED,
            Error::InvalidClient => UNAUTHORIZED,
            Error::RequiresAuth => UNAUTHORIZED,
            Error::HashPasswordError(..) => INTERNAL_SERVER_ERROR,
            Error::VerifyPasswordHashError(..) => INTERNAL_SERVER_ERROR,
            Error::InvalidPassword => UNAUTHORIZED,
            Error::InactiveUser => UNAUTHORIZED,
            Error::UserNotFound => UNAUTHORIZED,
            Error::ConfigError(..) => INTERNAL_SERVER_ERROR,
            Error::LoginFailed(..) => UNAUTHORIZED,
            Error::InvalidCaptcha(..) => BAD_REQUEST,
            Error::CaptchaResponseError(..) => INTERNAL_SERVER_ERROR,
            Error::LoginRequired(..) => UNAUTHORIZED,
            Error::NoDefaultBucket => INTERNAL_SERVER_ERROR,
            Error::AlbumNotFound => NOT_FOUND,
            Error::PhotoNotFound => NOT_FOUND,
            Error::NoAuthCookie => UNAUTHORIZED,
            Error::InvalidCsrfToken => BAD_REQUEST,
            Error::JsonParseError(..) => INTERNAL_SERVER_ERROR,
            Error::ServiceError(..) => INTERNAL_SERVER_ERROR,
        }
    }

    /// The text this error displays as.
    pub fn message(&self) -> (r: String)
        ensures
            r@ == message_of(*self),
    {
        match self {
            Error::AnyError(val) => val.clone(),
            Error::BadRequest(val) => val.clone(),
            Error::Forbidden(val) => val.clone(),
            Error::ValidationError(val) => val.clone(),
            Error::MissingUploadFile(val) => val.clone(),
            Error::FileTypeNotAllowed => "File type not allowed".to_owned(),
            Error::NotFound(val) => val.clone(),
            Error::InvalidAuthToken => "Invalid auth token".to_owned(),
            Error::InsufficientAuthScope => "Insufficient auth scope".to_owned(),
            Error::NoAuthToken => "No auth token".to_owned(),
            Error::InvalidClient => "Invalid client".to_owned(),
            Error::RequiresAuth => "Requires authentication".to_owned(),
            Error::HashPasswordError(val) => val.clone(),
            Error::VerifyPasswordHashError(val) => val.clone(),
            Error::InvalidPassword => "Invalid password".to_owned(),
            Error::InactiveUser => "Inactive user".to_owned(),
            Error::UserNotFound => "User not found".to_owned(),
            Error::ConfigError(val) => val.clone(),
            Error::LoginFailed(val) => val.clone(),
            Error::InvalidCaptcha(val) => val.clone(),
            Error::CaptchaResponseError(val) => val.clone(),
            Error::LoginRequired(val) => val.clone(),
            Error::NoDefaultBucket => "No default bucket configured".to_owned(),
            Error::AlbumNotFound => "Album not found".to_owned(),
            Error::PhotoNotFound => "Photo not found".to_owned(),
            Error::NoAuthCookie => "Login to continue".to_owned(),
            Error::InvalidCsrfToken => "Stale form data. Refresh the page and try again".to_owned(),
            Error::JsonParseError(val) => val.clone(),
            Error::ServiceError(val) => val.clone(),
        }
    }

    /// An error that carries a bare message.
    pub fn from_message(val: &str) -> (r: Error)
        ensures
            r matches Error::AnyError(m) && m@ == val@,
    {
        Error::AnyError(val.to_owned())
    }
}

/// The JSON error body that answers a failed request; website errors are
/// answered as internal errors.
pub fn to_json_error_response(error: Error) -> (r: ErrorResponse)
    ensures
        r.status_code == json_status_of(error),
        r.message@ == json_message_of(error),
        r.error@ == reason_phrase(json_status_of(error)),
{
    match error {
        Error::AnyError(val) => create_json_error_response(INTERNAL_SERVER_ERROR, val.as_str(), "Internal Server Error"),
        Error::BadRequest(val) => create_json_error_response(BAD_REQUEST, val.as_str(), "Bad Request"),
        Error::Forbidden(val) => create_json_error_response(FORBIDDEN, val.as_str(), "Forbidden"),
        Error::ValidationError(val) => create_json_error_response(BAD_REQUEST, val.as_str(), "Bad Request"),
        Error::MissingUploadFile(val) => create_json_error_response(BAD_REQUEST, val.as_str(), "Bad Request"),
        Error::FileTypeNotAllowed => create_json_error_response(BAD_REQUEST, "File type not allowed", "Bad Request"),
        Error::NotFound(val) => create_json_error_response(NOT_FOUND, val.as_str(), "Not Found"),
        Error::InvalidAuthToken => create_json_error_response(UNAUTHORIZED, "Unauthorized", "Unauthorized"),
        Error::InsufficientAuthScope => create_json_error_response(UNAUTHORIZED, "Unauthorized", "Unauthorized"),
        Error::NoAuthToken => create_json_error_response(UNAUTHORIZED, "Unauthorized", "Unauthorized"),
        Error::InvalidClient => create_json_error_response(UNAUTHORIZED, "Unauthorized", "Unauthorized"),
        Error::RequiresAuth => create_json_error_response(UNAUTHORIZED, "Unauthorized", "Unauthorized"),
        Error::HashPasswordError(val) => create_json_error_response(INTERNAL_SERVER_ERROR, val.as_str(), "Internal Server Error"),
        Error::VerifyPasswordHashError(val) => create_json_error_response(INTERNAL_SERVER_ERROR, val.as_str(), "Internal Server Error"),
        Error::InvalidPassword => create_json_error_response(UNAUTHORIZED, "Invalid username or password", "Unauthorized"),
        Error::InactiveUser => create_json_error_response(UNAUTHORIZED, "Inactive user", "Unauthorized"),
        Error::UserNotFound => create_json_error_response(UNAUTHORIZED, "Unauthorized", "Unauthorized"),
        Error::ConfigError(val) => create_json_error_response(INTERNAL_SERVER_ERROR, val.as_str(), "Internal Server Error"),
        _ => create_json_error_response(
            INTERNAL_SERVER_ERROR,
            "Internal Server Error",
            "Internal Server Error",
        ),
    }
}

/// Outside the website errors, an error is answered with the status it maps to.
pub proof fn lemma_json_status_agrees(e: Error)
    requires
        !is_website_error(e),
    ensures
        json_status_of(e) == status_of(e),
{
}

impl From<String> for Error {
    fn from(val: String) -> (r: Error) {
        Error::AnyError(val)
    }
}

impl vstd::std_specs::convert::FromSpecImpl<String> for Error {
    open spec fn obeys_from_spec() -> bool {
        true
    }

    open spec fn from_spec(val: String) -> Error {
        Error::AnyError(val)
    }
}

} // verus!
