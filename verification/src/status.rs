use vstd::prelude::*;

verus! {

/// HTTP status codes used by the service.
pub const OK: u16 = 200;
pub const CREATED: u16 = 201;
pub const NO_CONTENT: u16 = 204;
pub const BAD_REQUEST: u16 = 400;
pub const UNAUTHORIZED: u16 = 401;
pub const FORBIDDEN: u16 = 403;
pub const NOT_FOUND: u16 = 404;
pub const INTERNAL_SERVER_ERROR: u16 = 500;
pub const SERVICE_UNAVAILABLE: u16 = 503;

/// The standard reason phrase of the error statuses this service answers with.
pub open spec fn reason_phrase(status: u16) -> Seq<char> {
    if status == BAD_REQUEST {
        "Bad Request"@
    } else if status == UNAUTHORIZED {
        "Unauthorized"@
    } else if status == FORBIDDEN {
        "Forbidden"@
    } else if status == NOT_FOUND {
        "Not Found"@
    } else {
        "Internal Server Error"@
    }
}

/// The body of an error answer: its status, a human readable message and the
/// reason phrase of the status.
#[derive(Clone, Debug, PartialEq, Eq)]
pub struct ErrorResponse {
    pub status_code: u16,
    pub message: String,
    pub error: String,
}

/// A JSON answer: a status, its content type and the serialised body.
#[derive(Clone, Debug, PartialEq, Eq)]
pub struct JsonResponse {
    pub status: u16,
    pub content_type: String,
    pub body: String,
}

/// Builds an error body from its three parts.
pub fn create_json_error_response(status: u16, message: &str, error: &str) -> (r: ErrorResponse)
    ensures
        r.status_code == status,
        r.message@ == message@,
        r.error@ == error@,
{
    ErrorResponse { status_code: status, message: message.to_owned(), error: error.to_owned() }
}

/// Wraps an already serialised JSON body into an answer with the JSON content type.
pub fn create_json_response(status: u16, body: String) -> (r: JsonResponse)
    ensures
        r.status == status,
        r.content_type@ == "application/json"@,
        r.body@ == body@,
{
    JsonResponse { status, content_type: "application/json".to_owned(), body }
}

} // verus!
