use vstd::prelude::*;

use crate::error::{
    carries_backtrace, json_message_of, json_status_of, message_of, to_json_error_response, Error,
};
use crate::status::{create_json_error_response, reason_phrase, ErrorResponse, NOT_FOUND};

verus! {

/// The name and version the service reports about itself.
#[derive(Clone, Debug, PartialEq, Eq)]
pub struct AppMeta {
    pub name: String,
    pub version: String,
}

/// What the service reports about itself.
pub fn home_meta() -> (r: AppMeta)
    ensures
        r.name@ == "memo-rs"@,
        r.version@ == "0.1.0"@,
{
    AppMeta { name: "memo-rs".to_owned(), version: "0.1.0".to_owned() }
}

/// The answer to an address that no route serves.
pub fn not_found_response() -> (r: ErrorResponse)
    ensures
        r.status_code == NOT_FOUND,
        r.message@ == "Not Found"@,
        r.error@ == "Not Found"@,
{
    create_json_error_response(NOT_FOUND, "Not Found", "Not Found")
}

/// The path parameter naming a directory kind.
#[derive(Clone, Debug, PartialEq, Eq)]
pub struct DirTypeParams {
    pub dir_type: String,
}

/// The path parameters addressing a directory.
#[derive(Clone, Debug, PartialEq, Eq)]
pub struct DirParams {
    pub dir_type: String,
    pub dir_id: String,
}

/// The path parameters addressing a file.
#[derive(Clone, Debug, PartialEq, Eq)]
pub struct FileParams {
    pub dir_type: String,
    pub dir_id: String,
    pub file_id: String,
}

/// What the service logs of a failed request: the error's text and, when one
/// was captured, a backtrace.
#[derive(Clone, Debug, PartialEq, Eq)]
pub struct ErrorInfo {
    pub message: String,
    pub backtrace: Option<String>,
}

impl Error {
    /// The answer to a request that failed with this error, together with
    /// what is logged of it: the error's text and, for the kinds of error
    /// that carry one, the backtrace `captured` where it arose.
    pub fn into_response(self, captured: String) -> (r: (ErrorResponse, ErrorInfo))
        ensures
            r.0.status_code == json_status_of(self),
            r.0.message@ == json_message_of(self),
            r.0.error@ == reason_phrase(json_status_of(self)),
            r.1.message@ == message_of(self),
            r.1.backtrace == (if carries_backtrace(self) {
                Some(captured)
            } else {
                None
            }),
    {
        let message = self.message();
        let backtrace = if self.carries_backtrace() {
            Some(captured)
        } else {
            None
        };
        let res = to_json_error_response(self);
        (res, ErrorInfo { message, backtrace })
    }
}

} // verus!
