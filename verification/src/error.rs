use vstd::prelude::*;

use crate::status::{
    create_json_error_response, reason_phrase, ErrorResponse, BAD_REQUEST, FORBIDDEN,
    INTERNAL_SERVER_ERROR, NOT_FOUND, UNAUTHORIZED,
};
use crate::text::{concat2, concat3};

verus! {

/// Errors of the file service. Where a failure carries an underlying cause,
/// the cause is held as its rendered text.
#[derive(Clone, Debug, PartialEq, Eq)]
pub enum Error {
    ConfigFile { source: String },
    ConfigParse { source: String },
    UploadDir { source: String },
    Config { msg: String },
    DbPool { source: String },
    DbInteract { source: String },
    DbQuery { table: String, source: String },
    Db { source: String },
    Storage { source: String },
    PasswordPrompt { msg: String, source: String },
    Validation { msg: String },
    MaxClientsReached,
    MaxUsersReached,
    MaxBucketsReached,
    MaxDirsReached,
    MaxFilesReached,
    Google { msg: String },
    BadRequest { msg: String },
    Forbidden { msg: String },
    JsonRejection { msg: String, source: String },
    MissingUploadFile { msg: String },
    /// `path` is the debug rendering of the file's path.
    CreateFile { path: String, source: String },
    FileTypeNotAllowed,
    NotFound { msg: String },
    InvalidAuthToken,
    InsufficientAuthScope,
    NoAuthToken,
    InvalidClient,
    RequiresAuth,
    HashPassword { msg: String },
    VerifyPasswordHash { msg: String },
    InvalidPassword,
    InactiveUser,
    UserNotFound,
    InvalidRoles { source: String },
    InvalidPermissions { source: String },
    Base64Decode { source: String },
    JwtClaimsParse { source: String },
    UploadToken,
    Whatever { msg: String },
}

/// The HTTP status that an error maps to.
pub open spec fn status_of(e: Error) -> u16 {
    match e {
        Error::Validation { .. } => BAD_REQUEST,
        Error::MaxClientsReached => BAD_REQUEST,
        Error::MaxUsersReached => BAD_REQUEST,
        Error::MaxBucketsReached => BAD_REQUEST,
        Error::MaxDirsReached => BAD_REQUEST,
        Error::MaxFilesReached => BAD_REQUEST,
        Error::BadRequest { .. } => BAD_REQUEST,
        Error::Forbidden { .. } => FORBIDDEN,
        Error::JsonRejection { .. } => BAD_REQUEST,
        Error::MissingUploadFile { .. } => BAD_REQUEST,
        Error::CreateFile { .. } => INTERNAL_SERVER_ERROR,
        Error::FileTypeNotAllowed => BAD_REQUEST,
        Error::NotFound { .. } => NOT_FOUND,
        Error::InvalidAuthToken => UNAUTHORIZED,
        Error::InsufficientAuthScope => UNAUTHORIZED,
        Error::NoAuthToken => UNAUTHORIZED,
        Error::InvalidClient => UNAUTHORIZED,
        Error::RequiresAuth => UNAUTHORIZED,
        Error::InvalidPassword => UNAUTHORIZED,
        Error::InactiveUser => UNAUTHORIZED,
        Error::UserNotFound => UNAUTHORIZED,
        Error::InvalidRoles { .. } => BAD_REQUEST,
        Error::InvalidPermissions { .. } => BAD_REQUEST,
        _ => INTERNAL_SERVER_ERROR,
    }
}

/// The text an error displays as.
pub open spec fn message_of(e: Error) -> Seq<char> {
    match e {
        Error::ConfigFile { source } => "Error reading config file: "@ + source@,
        Error::ConfigParse { source } => "Error parsing config file: "@ + source@,
        Error::UploadDir { source } => "Unable to create upload dir: "@ + source@,
        Error::Config { msg } => "Config error: "@ + msg@,
        Error::DbPool { source } => "Error getting db connection: "@ + source@,
        Error::DbInteract { source } => "Error using the db connection: "@ + source@,
        Error::DbQuery { table, source } => "Error querying "@ + table@ + ": "@ + source@,
        Error::Db { source } => source@,
        Error::Storage { source } => source@,
        Error::PasswordPrompt { msg, source } => msg@ + " - "@ + source@,
        Error::Validation { msg } => msg@,
        Error::MaxClientsReached => "Maximum number of clients reached: 10"@,
        Error::MaxUsersReached => "Maximum number of users reached: 100"@,
        Error::MaxBucketsReached => "Maximum number of buckets reached: 50"@,
        Error::MaxDirsReached => "Maximum number of directories reached: 1000"@,
        Error::MaxFilesReached => "Maximum number of files reached: 1000"@,
        Error::Google { msg } => "Google Cloud error: "@ + msg@,
        Error::BadRequest { msg } => msg@,
        Error::Forbidden { msg } => msg@,
        Error::JsonRejection { msg, .. } => msg@,
        Error::MissingUploadFile { msg } => msg@,
        Error::CreateFile { path, .. } => "Unable to create file: "@ + path@,
        Error::FileTypeNotAllowed => "File type not allowed"@,
        Error::NotFound { msg } => msg@,
        Error::InvalidAuthToken => "Invalid auth token"@,
        Error::InsufficientAuthScope => "Insufficient auth scope"@,
        Error::NoAuthToken => "No auth token"@,
        Error::InvalidClient => "Invalid client"@,
        Error::RequiresAuth => "Requires authentication"@,
        Error::HashPassword { msg } => msg@,
        Error::VerifyPasswordHash { msg } => msg@,
        Error::InvalidPassword => "Invalid username or password"@,
        Error::InactiveUser => "Inactive user"@,
        Error::UserNotFound => "User not found"@,
        Error::InvalidRoles { source } => source@,
        Error::InvalidPermissions { source } => source@,
        Error::Base64Decode { source } => "Unable to decode auth token: "@ + source@,
        Error::JwtClaimsParse { source } => "Unable to parse auth token claims: "@ + source@,
        Error::UploadToken => "Invalid upload token"@,
        Error::Whatever { msg } => msg@,
    }
}

/// The status of the JSON body that an error is answered with.
pub open spec fn json_status_of(e: Error) -> u16 {
    match e {
        Error::Validation { .. } => BAD_REQUEST,
        Error::MaxClientsReached => BAD_REQUEST,
        Error::MaxUsersReached => BAD_REQUEST,
        Error::MaxBucketsReached => BAD_REQUEST,
        Error::MaxDirsReached => BAD_REQUEST,
        Error::MaxFilesReached => BAD_REQUEST,
        Error::Google { .. } => INTERNAL_SERVER_ERROR,
        Error::BadRequest { .. } => BAD_REQUEST,
        Error::Forbidden { .. } => FORBIDDEN,
        Error::JsonRejection { .. } => BAD_REQUEST,
        Error::MissingUploadFile { .. } => BAD_REQUEST,
        Error::CreateFile { .. } => INTERNAL_SERVER_ERROR,
        Error::FileTypeNotAllowed => BAD_REQUEST,
        Error::NotFound { .. } => NOT_FOUND,
        Error::InvalidAuthToken => UNAUTHORIZED,
        Error::InsufficientAuthScope => UNAUTHORIZED,
        Error::NoAuthToken => UNAUTHORIZED,
        Error::InvalidClient => UNAUTHORIZED,
        Error::RequiresAuth => UNAUTHORIZED,
        Error::InvalidPassword => UNAUTHORIZED,
        Error::InactiveUser => UNAUTHORIZED,
        Error::UserNotFound => UNAUTHORIZED,
        Error::InvalidRoles { .. } => BAD_REQUEST,
        Error::InvalidPermissions { .. } => BAD_REQUEST,
        _ => INTERNAL_SERVER_ERROR,
    }
}

/// The message of the JSON body that an error is answered with.
pub open spec fn json_message_of(e: Error) -> Seq<char> {
    match e {
        Error::Validation { msg } => msg@,
        Error::MaxClientsReached => "Maximum number of clients reached: 10"@,
        Error::MaxUsersReached => "Maximum number of users reached: 100"@,
        Error::MaxBucketsReached => "Maximum number of buckets reached: 50"@,
        Error::MaxDirsReached => "Maximum number of directories reached: 1000"@,
        Error::MaxFilesReached => "Maximum number of files reached: 1000"@,
        Error::Google { msg } => msg@,
        Error::BadRequest { msg } => msg@,
        Error::Forbidden { msg } => msg@,
        Error::JsonRejection { msg, .. } => msg@,
        Error::MissingUploadFile { msg } => msg@,
        Error::CreateFile { .. } => "Unable to create file"@,
        Error::FileTypeNotAllowed => "File type not allowed"@,
        Error::NotFound { msg } => msg@,
        Error::InvalidAuthToken => "Invalid auth token"@,
        Error::InsufficientAuthScope => "Insufficient auth scope"@,
        Error::NoAuthToken => "No auth token"@,
        Error::InvalidClient => "Invalid client"@,
        Error::RequiresAuth => "Requires authentication"@,
        Error::InvalidPassword => "Invalid username or password"@,
        Error::InactiveUser => "Inactive user"@,
        Error::UserNotFound => "User not found"@,
        Error::InvalidRoles { .. } => "Invalid roles"@,
        Error::InvalidPermissions { .. } => "Invalid permissions"@,
        _ => "Internal Server Error"@,
    }
}

/// Whether an error of this kind carries the backtrace captured where it
/// arose.
pub open spec fn carries_backtrace(e: Error) -> bool {
    match e {
        Error::ConfigFile { .. } => true,
        Error::ConfigParse { .. } => true,
        Error::UploadDir { .. } => true,
        Error::DbPool { .. } => true,
        Error::DbInteract { .. } => true,
        Error::DbQuery { .. } => true,
        Error::PasswordPrompt { .. } => true,
        Error::JsonRejection { .. } => true,
        Error::CreateFile { .. } => true,
        Error::InvalidRoles { .. } => true,
        Error::InvalidPermissions { .. } => true,
        _ => false,
    }
}

impl Error {
    /// An error that carries a bare message, as a text converts to.
    pub fn from_message(val: &str) -> (r: Error)
        ensures
            r matches Error::Whatever { msg } && msg@ == val@,
    {
        Error::Whatever { msg: val.to_owned() }
    }

    /// Whether this error carries the backtrace captured where it arose.
    pub fn carries_backtrace(&self) -> (r: bool)
        ensures
            r == carries_backtrace(*self),
    {
        match self {
            Error::ConfigFile { .. } => true,
            Error::ConfigParse { .. } => true,
            Error::UploadDir { .. } => true,
            Error::DbPool { .. } => true,
            Error::DbInteract { .. } => true,
            Error::DbQuery { .. } => true,
            Error::PasswordPrompt { .. } => true,
            Error::JsonRejection { .. } => true,
            Error::CreateFile { .. } => true,
            Error::InvalidRoles { .. } => true,
            Error::InvalidPermissions { .. } => true,
            _ => false,
        }
    }

    /// The HTTP status this error maps to.
    pub fn status_code(&self) -> (r: u16)
        ensures
            r == status_of(*self),
    {
        match self {
            Error::Validation { .. } => BAD_REQUEST,
            Error::MaxClientsReached => BAD_REQUEST,
            Error::MaxUsersReached => BAD_REQUEST,
            Error::MaxBucketsReached => BAD_REQUEST,
            Error::MaxDirsReached => BAD_REQUEST,
            Error::MaxFilesReached => BAD_REQUEST,
            Error::BadRequest { .. } => BAD_REQUEST,
            Error::Forbidden { .. } => FORBIDDEN,
            Error::JsonRejection { .. } => BAD_REQUEST,
            Error::MissingUploadFile { .. } => BAD_REQUEST,
            Error::CreateFile { .. } => INTERNAL_SERVER_ERROR,
            Error::FileTypeNotAllowed => BAD_REQUEST,
            Error::NotFound { .. } => NOT_FOUND,
            Error::InvalidAuthToken => UNAUTHORIZED,
            Error::InsufficientAuthScope => UNAUTHORIZED,
            Error::NoAuthToken => UNAUTHORIZED,
            Error::InvalidClient => UNAUTHORIZED,
            Error::RequiresAuth => UNAUTHORIZED,
            Error::InvalidPassword => UNAUTHORIZED,
            Error::InactiveUser => UNAUTHORIZED,
            Error::UserNotFound => UNAUTHORIZED,
            Error::InvalidRoles { .. } => BAD_REQUEST,
            Error::InvalidPermissions { .. } => BAD_REQUEST,
            _ => INTERNAL_SERVER_ERROR,
        }
    }

    /// The text this error displays as.
    pub fn message(&self) -> (r: String)
        ensures
            r@ == message_of(*self),
    {
        match self {
            Error::ConfigFile { source } => concat2("Error reading config file: ", source.as_str()),
            Error::ConfigParse { source } => concat2("Error parsing config file: ", source.as_str()),
            Error::UploadDir { source } => concat2("Unable to create upload dir: ", source.as_str()),
            Error::Config { msg } => concat2("Config error: ", msg.as_str()),
            Error::DbPool { source } => concat2("Error getting db connection: ", source.as_str()),
            Error::DbInteract { source } => concat2(
                "Error using the db connection: ",
                source.as_str(),
            ),
            Error::DbQuery { table, source } => {
                let head = concat3("Error querying ", table.as_str(), ": ");
                concat2(head.as_str(), source.as_str())
            },
            Error::Db { source } => source.clone(),
            Error::Storage { source } => source.clone(),
            Error::PasswordPrompt { msg, source } => concat3(msg.as_str(), " - ", source.as_str()),
            Error::Validation { msg } => msg.clone(),
            Error::MaxClientsReached => "Maximum number of clients reached: 10".to_owned(),
            Error::MaxUsersReached => "Maximum number of users reached: 100".to_owned(),
            Error::MaxBucketsReached => "Maximum number of buckets reached: 50".to_owned(),
            Error::MaxDirsReached => "Maximum number of directories reached: 1000".to_owned(),
            Error::MaxFilesReached => "Maximum number of files reached: 1000".to_owned(),
            Error::Google { msg } => concat2("Google Cloud error: ", msg.as_str()),
            Error::BadRequest { msg } => msg.clone(),
            Error::Forbidden { msg } => msg.clone(),
            Error::JsonRejection { msg, .. } => msg.clone(),
            Error::MissingUploadFile { msg } => msg.clone(),
            Error::CreateFile { path, .. } => concat2("Unable to create file: ", path.as_str()),
            Error::FileTypeNotAllowed => "File type not allowed".to_owned(),
            Error::NotFound { msg } => msg.clone(),
            Error::InvalidAuthToken => "Invalid auth token".to_owned(),
            Error::InsufficientAuthScope => "Insufficient auth scope".to_owned(),
            Error::NoAuthToken => "No auth token".to_owned(),
            Error::InvalidClient => "Invalid client".to_owned(),
            Error::RequiresAuth => "Requires authentication".to_owned(),
            Error::HashPassword { msg } => msg.clone(),
            Error::VerifyPasswordHash { msg } => msg.clone(),
            Error::InvalidPassword => "Invalid username or password".to_owned(),
            Error::InactiveUser => "Inactive user".to_owned(),
            Error::UserNotFound => "User not found".to_owned(),
            Error::InvalidRoles { source } => source.clone(),
            Error::InvalidPermissions { source } => source.clone(),
            Error::Base64Decode { source } => concat2(
                "Unable to decode auth token: ",
                source.as_str(),
            ),
            Error::JwtClaimsParse { source } => concat2(
                "Unable to parse auth token claims: ",
                source.as_str(),
            ),
            Error::UploadToken => "Invalid upload token".to_owned(),
            Error::Whatever { msg } => msg.clone(),
        }
    }
}

/// The JSON error body that answers a failed request.
pub fn to_json_error_response(error: Error) -> (r: ErrorResponse)
    ensures
        r.status_code == json_status_of(error),
        r.message@ == json_message_of(error),
        r.error@ == reason_phrase(json_status_of(error)),
{
    match error {
        Error::Validation { msg } => create_json_error_response(
            BAD_REQUEST,
            msg.as_str(),
            "Bad Request",
        ),
        Error::MaxClientsReached => create_json_error_response(
            BAD_REQUEST,
            "Maximum number of clients reached: 10",
            "Bad Request",
        ),
        Error::MaxUsersReached => create_json_error_response(
            BAD_REQUEST,
            "Maximum number of users reached: 100",
            "Bad Request",
        ),
        Error::MaxBucketsReached => create_json_error_response(
            BAD_REQUEST,
            "Maximum number of buckets reached: 50",
            "Bad Request",
        ),
        Error::MaxDirsReached => create_json_error_response(
            BAD_REQUEST,
            "Maximum number of directories reached: 1000",
            "Bad Request",
        ),
        Error::MaxFilesReached => create_json_error_response(
            BAD_REQUEST,
            "Maximum number of files reached: 1000",
            "Bad Request",
        ),
        Error::Google { msg } => create_json_error_response(
            INTERNAL_SERVER_ERROR,
            msg.as_str(),
            "Internal Server Error",
        ),
        Error::BadRequest { msg } => create_json_error_response(
            BAD_REQUEST,
            msg.as_str(),
            "Bad Request",
        ),
        Error::Forbidden { msg } => create_json_error_response(
            FORBIDDEN,
            msg.as_str(),
            "Forbidden",
        ),
        Error::JsonRejection { msg, .. } => create_json_error_response(
            BAD_REQUEST,
            msg.as_str(),
            "Bad Request",
        ),
        Error::MissingUploadFile { msg } => create_json_error_response(
            BAD_REQUEST,
            msg.as_str(),
            "Bad Request",
        ),
        Error::CreateFile { .. } => create_json_error_response(
            INTERNAL_SERVER_ERROR,
            "Unable to create file",
            "Internal Server Error",
        ),
        Error::FileTypeNotAllowed => create_json_error_response(
            BAD_REQUEST,
            "File type not allowed",
            "Bad Request",
        ),
        Error::NotFound { msg } => create_json_error_response(
            NOT_FOUND,
            msg.as_str(),
            "Not Found",
        ),
        Error::InvalidAuthToken => create_json_error_response(
            UNAUTHORIZED,
            "Invalid auth token",
            "Unauthorized",
        ),
        Error::InsufficientAuthScope => create_json_error_response(
            UNAUTHORIZED,
            "Insufficient auth scope",
            "Unauthorized",
        ),
        Error::NoAuthToken => create_json_error_response(
            UNAUTHORIZED,
            "No auth token",
            "Unauthorized",
        ),
        Error::InvalidClient => create_json_error_response(
            UNAUTHORIZED,
            "Invalid client",
            "Unauthorized",
        ),
        Error::RequiresAuth => create_json_error_response(
            UNAUTHORIZED,
            "Requires authentication",
            "Unauthorized",
        ),
        Error::InvalidPassword => create_json_error_response(
            UNAUTHORIZED,
            "Invalid username or password",
            "Unauthorized",
        ),
        Error::InactiveUser => create_json_error_response(
            UNAUTHORIZED,
            "Inactive user",
            "Unauthorized",
        ),
        Error::UserNotFound => create_json_error_response(
            UNAUTHORIZED,
            "User not found",
            "Unauthorized",
        ),
        Error::InvalidRoles { .. } => create_json_error_response(
            BAD_REQUEST,
            "Invalid roles",
            "Bad Request",
        ),
        Error::InvalidPermissions { .. } => create_json_error_response(
            BAD_REQUEST,
            "Invalid permissions",
            "Bad Request",
        ),
        _ => create_json_error_response(
            INTERNAL_SERVER_ERROR,
            "Internal Server Error",
            "Internal Server Error",
        ),
    }
}

/// The status of each kind of error, in its mapping and in its JSON body:
/// errors caused by the request itself (failed rules, reached limits, bad or
/// unreadable request data, a missing upload, a disallowed file type, unknown
/// roles or permissions) are 400; a refused permission is 403; a missing
/// record is 404; missing, invalid or insufficient credentials are 401; every
/// other error is a failure of the service, 500.
pub proof fn lemma_error_statuses(e: Error)
    ensures
        (e is Validation || e is MaxClientsReached || e is MaxUsersReached || e is MaxBucketsReached
            || e is MaxDirsReached || e is MaxFilesReached || e is BadRequest || e is JsonRejection
            || e is MissingUploadFile || e is FileTypeNotAllowed || e is InvalidRoles
            || e is InvalidPermissions) ==> (status_of(e) == 400 && json_status_of(e) == 400),
        e is Forbidden ==> (status_of(e) == 403 && json_status_of(e) == 403),
        e is NotFound ==> (status_of(e) == 404 && json_status_of(e) == 404),
        (e is InvalidAuthToken || e is InsufficientAuthScope || e is NoAuthToken || e is InvalidClient
            || e is RequiresAuth || e is InvalidPassword || e is InactiveUser || e is UserNotFound)
            ==> (status_of(e) == 401 && json_status_of(e) == 401),
        (e is ConfigFile || e is ConfigParse || e is UploadDir || e is Config || e is DbPool
            || e is DbInteract || e is DbQuery || e is Db || e is Storage || e is PasswordPrompt
            || e is Google || e is CreateFile || e is HashPassword || e is VerifyPasswordHash
            || e is Base64Decode || e is JwtClaimsParse || e is UploadToken || e is Whatever) ==> (
        status_of(e) == 500 && json_status_of(e) == 500),
{
}

/// The status written in an error's JSON body is the status the error maps to.
pub proof fn lemma_json_status_agrees(e: Error)
    ensures
        json_status_of(e) == status_of(e),
{
}

impl From<String> for Error {
    fn from(val: String) -> (r: Error) {
        Error::Whatever { msg: val }
    }
}

impl vstd::std_specs::convert::FromSpecImpl<String> for Error {
    open spec fn obeys_from_spec() -> bool {
        true
    }

    open spec fn from_spec(val: String) -> Error {
        Error::Whatever { msg: val }
    }
}

} // verus!
