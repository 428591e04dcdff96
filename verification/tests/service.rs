use memo::bucket::{BucketDto, UpdateBucket};
use memo::dir::{DirDto, DirType};
use memo::error::Error;
use memo::file::FilePayload;
use memo::service::{
    auth_header_token, bearer_token, bucket_after_update, check_auth_scope, check_client_rename,
    check_dir_capacity, check_dir_in_bucket, check_dir_type_param, check_file_in_dir,
    check_json_payload, check_permissions, check_user_capacity, check_username_free,
    require_dir_after_update, require_upload, validation_outcome,
};
use memo::validate::FieldError;

fn dir(bucket: &str) -> DirDto {
    DirDto {
        id: "d1".to_string(),
        bucket_id: bucket.to_string(),
        name: "docs".to_string(),
        label: "Docs".to_string(),
        file_count: 0,
        created_at: 1,
        updated_at: 1,
    }
}

fn not_found(msg: &str) -> Error {
    Error::NotFound { msg: msg.to_string() }
}

#[test]
fn bearer_tokens() {
    assert_eq!(bearer_token("Bearer abc.def"), Ok("abc.def".to_string()));
    assert_eq!(bearer_token("Bearer Bearer x"), Ok("x".to_string()));
    assert_eq!(bearer_token("Basic abc"), Err(Error::InvalidAuthToken));
    assert_eq!(bearer_token("Bearer"), Err(Error::InvalidAuthToken));
    assert_eq!(auth_header_token(None), Ok(None));
    assert_eq!(auth_header_token(Some("Bearer t")), Ok(Some("t".to_string())));
    assert_eq!(auth_header_token(Some("t")), Err(Error::InvalidAuthToken));
    for t in ["x", "a.b.c", ""] {
        assert_eq!(bearer_token(&format!("Bearer {}", t)), Ok(t.to_string()));
    }
}

#[test]
fn dir_type_parameters() {
    assert_eq!(check_dir_type_param("photos"), Ok(DirType::Photos));
    assert_eq!(check_dir_type_param("music"), Err(Error::BadRequest { msg: "Invalid dir type: music".to_string() }));
}

#[test]
fn directories_belong_to_their_bucket() {
    assert_eq!(check_dir_in_bucket(Some(dir("b1")), "b1"), Ok(dir("b1")));
    assert_eq!(check_dir_in_bucket(Some(dir("b2")), "b1"), Err(not_found("Directory not found")));
    assert_eq!(check_dir_in_bucket(None, "b1"), Err(not_found("Directory not found")));
}

#[test]
fn files_belong_to_their_directory() {
    assert_eq!(check_file_in_dir(Some("d1"), "d1"), Ok(()));
    assert_eq!(check_file_in_dir(Some("d2"), "d1"), Err(not_found("File not found")));
    assert_eq!(check_file_in_dir(None, "d1"), Err(not_found("File not found")));
}

#[test]
fn permissions_and_scope() {
    assert_eq!(check_permissions(true), Ok(()));
    assert_eq!(check_permissions(false), Err(Error::Forbidden { msg: "Insufficient permissions".to_string() }));
    assert_eq!(check_auth_scope(false), Err(Error::InsufficientAuthScope));
    assert_eq!(check_auth_scope(true), Ok(()));
}

#[test]
fn limits() {
    assert_eq!(check_dir_capacity(999), Ok(()));
    assert_eq!(check_dir_capacity(1000), Err(Error::MaxDirsReached));
    assert_eq!(check_user_capacity(49), Ok(()));
    assert_eq!(check_user_capacity(50), Err(Error::MaxUsersReached));
    assert_eq!(check_username_free(true), Err(Error::Validation { msg: "Username already exists".to_string() }));
}

#[test]
fn renaming_to_ones_own_name_is_allowed() {
    assert_eq!(check_client_rename("c1", &None), Ok(()));
    let c = memo::client::ClientDto {
        id: "c1".to_string(),
        name: "acme".to_string(),
        default_bucket_id: None,
        status: "active".to_string(),
        admin: false,
        created_at: 0,
    };
    assert_eq!(check_client_rename("c1", &Some(c.clone())), Ok(()));
    assert!(check_client_rename("c2", &Some(c)).is_err());
}

#[test]
fn request_bodies_and_uploads() {
    assert_eq!(check_json_payload::<i32>(Ok(3)), Ok(3));
    assert_eq!(
        check_json_payload::<i32>(Err("missing field `name`".to_string())),
        Err(Error::JsonRejection {
            msg: "Invalid request payload".to_string(),
            source: "missing field `name`".to_string()
        })
    );
    assert_eq!(require_upload(None), Err(Error::MissingUploadFile { msg: "Missing upload file".to_string() }));
    let p = FilePayload {
        upload_dir: "/u".to_string(),
        name: "a.txt".to_string(),
        filename: "x-a.txt".to_string(),
        path: "/u/orig/x-a.txt".to_string(),
        size: 3,
    };
    assert_eq!(require_upload(Some(p.clone())), Ok(p));
    assert_eq!(require_dir_after_update(None), Err(Error::Whatever { msg: "Error getting directory".to_string() }));
}

#[test]
fn validation_outcomes() {
    assert_eq!(validation_outcome(Ok(())), Ok(()));
    let errs = vec![FieldError { field: "label".to_string(), code: "length".to_string() }];
    assert_eq!(validation_outcome(Err(errs)), Err(Error::Validation { msg: "label: length".to_string() }));
}

#[test]
fn bucket_answer_after_an_update() {
    let b = BucketDto {
        id: "b1".to_string(),
        client_id: "c1".to_string(),
        name: "photos".to_string(),
        label: "Photos".to_string(),
        images_only: false,
        created_at: 0,
    };
    let changed = bucket_after_update(b.clone(), &UpdateBucket { label: Some("Pics".to_string()) }, true);
    assert_eq!(changed.label, "Pics");
    assert_eq!(changed.name, "photos");
    let kept = bucket_after_update(b.clone(), &UpdateBucket { label: Some("Pics".to_string()) }, false);
    assert_eq!(kept, b);
    assert_eq!(bucket_after_update(b.clone(), &UpdateBucket { label: None }, true), b);
}
