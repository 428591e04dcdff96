use memo::db_error;
use memo::error::{to_json_error_response, Error};
use memo::shared_error;
use memo::status::{create_json_response, BAD_REQUEST, FORBIDDEN, INTERNAL_SERVER_ERROR, NOT_FOUND, UNAUTHORIZED};

#[test]
fn validation_errors_are_bad_requests() {
    let e = Error::Validation { msg: "name: length".to_string() };
    assert_eq!(e.status_code(), BAD_REQUEST);
    assert_eq!(e.message(), "name: length");
    let body = to_json_error_response(e);
    assert_eq!(body.status_code, 400);
    assert_eq!(body.message, "name: length");
    assert_eq!(body.error, "Bad Request");
}

#[test]
fn limit_errors_name_the_limit() {
    assert_eq!(Error::MaxDirsReached.message(), "Maximum number of directories reached: 1000");
    assert_eq!(Error::MaxClientsReached.message(), "Maximum number of clients reached: 10");
    let body = to_json_error_response(Error::MaxBucketsReached);
    assert_eq!(body.status_code, 400);
    assert_eq!(body.message, "Maximum number of buckets reached: 50");
}

#[test]
fn auth_errors_are_unauthorized() {
    for e in [Error::InvalidAuthToken, Error::InvalidClient, Error::InvalidPassword, Error::InactiveUser, Error::UserNotFound] {
        let status = e.status_code();
        let body = to_json_error_response(e);
        assert_eq!(status, UNAUTHORIZED);
        assert_eq!(body.status_code, UNAUTHORIZED);
        assert_eq!(body.error, "Unauthorized");
    }
    assert_eq!(to_json_error_response(Error::InvalidPassword).message, "Invalid username or password");
}

#[test]
fn other_statuses() {
    let e = Error::Forbidden { msg: "Insufficient permissions".to_string() };
    assert_eq!(e.status_code(), FORBIDDEN);
    assert_eq!(to_json_error_response(e).error, "Forbidden");
    let e = Error::NotFound { msg: "Directory not found".to_string() };
    assert_eq!(e.status_code(), NOT_FOUND);
    let body = to_json_error_response(e);
    assert_eq!(body.message, "Directory not found");
    assert_eq!(body.error, "Not Found");
}

#[test]
fn internal_errors_hide_their_cause() {
    let e = Error::Db { source: "disk on fire".to_string() };
    assert_eq!(e.status_code(), INTERNAL_SERVER_ERROR);
    assert_eq!(e.message(), "disk on fire");
    let body = to_json_error_response(e);
    assert_eq!(body.status_code, 500);
    assert_eq!(body.message, "Internal Server Error");
    let body = to_json_error_response(Error::CreateFile { path: "\"/tmp/x\"".to_string(), source: "denied".to_string() });
    assert_eq!(body.message, "Unable to create file");
}

#[test]
fn google_errors_keep_their_text_in_the_body() {
    let e = Error::Google { msg: "quota".to_string() };
    assert_eq!(e.message(), "Google Cloud error: quota");
    let body = to_json_error_response(e);
    assert_eq!(body.status_code, 500);
    assert_eq!(body.message, "quota");
}

#[test]
fn strings_become_whatever_errors() {
    let e: Error = "Invalid auth token.".to_string().into();
    assert_eq!(e, Error::Whatever { msg: "Invalid auth token.".to_string() });
    assert_eq!(e.message(), "Invalid auth token.");
    let from_text = Error::from_message("Invalid auth token.");
    assert_eq!(from_text, e);
    assert_eq!(from_text.status_code(), INTERNAL_SERVER_ERROR);
}

#[test]
fn every_error_body_agrees_with_its_status() {
    let all = vec![
        Error::Config { msg: "x".to_string() },
        Error::Validation { msg: "v".to_string() },
        Error::MaxUsersReached,
        Error::BadRequest { msg: "b".to_string() },
        Error::JsonRejection { msg: "Invalid request payload".to_string(), source: "eof".to_string() },
        Error::MissingUploadFile { msg: "Missing upload file".to_string() },
        Error::FileTypeNotAllowed,
        Error::InsufficientAuthScope,
        Error::NoAuthToken,
        Error::RequiresAuth,
        Error::InvalidRoles { source: "r".to_string() },
        Error::Base64Decode { source: "bad".to_string() },
        Error::UploadToken,
    ];
    for e in all {
        let status = e.status_code();
        assert_eq!(to_json_error_response(e).status_code, status);
    }
}

#[test]
fn storage_layer_messages() {
    let e = db_error::Error::DbValue { source: "not text".to_string() };
    assert_eq!(e.message(), "DB Value error: not text");
    assert_eq!(db_error::Error::Validation { msg: "page: range".to_string() }.message(), "page: range");
    assert_eq!(db_error::Error::from_message("boom"), db_error::Error::Whatever { msg: "boom".to_string() });
}

#[test]
fn shared_errors_map_statuses() {
    let e = shared_error::Error::from_message("oops");
    assert_eq!(e.status_code(), INTERNAL_SERVER_ERROR);
    let body = shared_error::to_json_error_response(shared_error::Error::InvalidPassword);
    assert_eq!(body.status_code, UNAUTHORIZED);
    assert_eq!(body.message, "Invalid username or password");
}

#[test]
fn json_responses_carry_the_json_type() {
    let r = create_json_response(201, "{}".to_string());
    assert_eq!(r.status, 201);
    assert_eq!(r.content_type, "application/json");
    assert_eq!(r.body, "{}");
}
