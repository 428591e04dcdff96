use memo::dir::{DirMeta, DirType};
use memo::storage::{dir_object_path, DownloadRequest, UploadUrlRequest};
use memo::config::{optional_env, parse_usize, required_env, Config, EnvSnapshot};
use memo::error::Error;
use memo::migrate_ids;
use memo::migrate_turso::{check_target_counts, next_dirs_offset};
use memo::migrate_turso;
use memo::storage::{bucket_resource_name, map_cloud_error, object_path, read_bucket_error};

fn env() -> EnvSnapshot {
    EnvSnapshot {
        database_dir: Some("/data".to_string()),
        database_pool_size: None,
        jwt_secret: Some("s3cret".to_string()),
        upload_dir: Some("/uploads".to_string()),
        google_project_id: Some("proj".to_string()),
        google_application_credentials: Some("/creds.json".to_string()),
        google_storage_bucket: Some("bucket".to_string()),
        server_address: Some("0.0.0.0:8080".to_string()),
        auth_api_base_url: Some("https://auth".to_string()),
    }
}

fn config_msg(r: Result<Config, Error>) -> String {
    match r {
        Err(Error::Config { msg }) => msg,
        other => panic!("unexpected {:?}", other),
    }
}

#[test]
fn full_environment_builds() {
    let c = Config::build(env(), true, true).unwrap();
    assert_eq!(c.db.dir, "/data");
    assert_eq!(c.db.pool_size, 4);
    assert_eq!(c.jwt_secret, "s3cret");
    assert_eq!(c.cloud.bucket, "bucket");
    assert_eq!(c.server.address, "0.0.0.0:8080");
    assert_eq!(c.auth.api_url, "https://auth");
}

#[test]
fn pool_size_parsing() {
    for (raw, want) in [("8", 8), ("+8", 8), (" 8", 4), ("", 4), ("  ", 4), ("x", 4), ("99999999999999999999999", 4)] {
        let mut e = env();
        e.database_pool_size = Some(raw.to_string());
        assert_eq!(Config::build(e, true, true).unwrap().db.pool_size, want, "{:?}", raw);
    }
    assert_eq!(parse_usize("007"), Some(7));
    assert_eq!(parse_usize("+"), None);
    assert_eq!(parse_usize("-1"), None);
    assert_eq!(parse_usize("18446744073709551615"), Some(usize::MAX));
}

#[test]
fn configuration_errors_come_in_order() {
    let mut e = env();
    e.database_dir = None;
    e.jwt_secret = None;
    assert_eq!(config_msg(Config::build(e, true, true)), "DATABASE_DIR is required.");
    assert_eq!(config_msg(Config::build(env(), false, false)), "Database directory does not exist.");
    let mut e = env();
    e.jwt_secret = Some(String::new());
    assert_eq!(config_msg(Config::build(e, true, true)), "Jwt secret is required.");
    let mut e = env();
    e.auth_api_base_url = None;
    assert_eq!(config_msg(Config::build(e, true, false)), "AUTH_API_BASE_URL is required.");
    assert_eq!(config_msg(Config::build(env(), true, false)), "Upload directory does not exist.");
}

#[test]
fn environment_helpers() {
    assert_eq!(optional_env(Some(" \t".to_string())), None);
    assert_eq!(optional_env(Some(" x ".to_string())), Some(" x ".to_string()));
    assert_eq!(
        required_env("JWT_SECRET", None),
        Err(Error::Config { msg: "JWT_SECRET is required.".to_string() })
    );
}

#[test]
fn migration_configurations() {
    assert_eq!(migrate_ids::Config::build(Some("/db".to_string()), true).unwrap().db_dir, "/db");
    assert!(migrate_ids::Config::build(Some("/db".to_string()), false).is_err());
    let c = migrate_turso::Config::build(Some("a.db".to_string()), Some("b.db".to_string()), true, true).unwrap();
    assert_eq!((c.source_db_path.as_str(), c.target_db_path.as_str()), ("a.db", "b.db"));
    match migrate_turso::Config::build(Some("a.db".to_string()), None, false, false) {
        Err(Error::Config { msg }) => assert_eq!(msg, "TARGET_DB_PATH is required."),
        other => panic!("unexpected {:?}", other),
    }
}

#[test]
fn target_must_be_empty() {
    assert_eq!(check_target_counts(0, 0, 0, 0, 0), Ok(()));
    assert_eq!(check_target_counts(0, 1, 1, 0, 0), Err("Target database should have no users".to_string()));
    assert_eq!(check_target_counts(0, 0, 0, 0, 3), Err("Target database should have no files".to_string()));
}

#[test]
fn dir_pages_advance_until_short() {
    assert_eq!(next_dirs_offset(100, 100, 0), Some(100));
    assert_eq!(next_dirs_offset(99, 100, 100), None);
    assert_eq!(next_dirs_offset(0, 100, 200), None);
}

#[test]
fn bucket_resource_names() {
    assert_eq!(bucket_resource_name("photos"), "projects/_/buckets/photos");
    assert_eq!(bucket_resource_name("projects/p1/buckets/photos"), "projects/p1/buckets/photos");
    assert_eq!(bucket_resource_name("projects/p1"), "projects/_/buckets/projects/p1");
    let once = bucket_resource_name("x");
    assert_eq!(bucket_resource_name(&once), once);
}

#[test]
fn object_paths() {
    assert_eq!(object_path("org", "photos", "trip", "orig", "a.jpg"), "org/photos/trip/orig/a.jpg");
}

#[test]
fn cloud_errors() {
    assert_eq!(map_cloud_error(Some(404), "nope", "Failed"), Error::Validation { msg: "nope".to_string() });
    assert_eq!(map_cloud_error(Some(503), "down", "Failed"), Error::Google { msg: "down".to_string() });
    assert_eq!(
        map_cloud_error(None, "io", "Failed to delete object from cloud storage."),
        Error::Google { msg: "Failed to delete object from cloud storage.: io".to_string() }
    );
    assert_eq!(read_bucket_error(Some(403), "x"), Error::Validation { msg: "Cloud Storage: Forbidden".to_string() });
    assert_eq!(read_bucket_error(Some(404), "x"), Error::Validation { msg: "Cloud Storage: Bucket not found".to_string() });
    assert_eq!(read_bucket_error(Some(409), "x"), Error::Validation { msg: "x".to_string() });
    assert_eq!(read_bucket_error(None, "x"), Error::Google { msg: "x".to_string() });
    assert_eq!(map_cloud_error(Some(429), "slow", "f").status_code(), 400);
}

#[test]
fn request_object_paths() {
    let dir = DirMeta {
        bucket_name: "b".to_string(),
        org_id: "org1".to_string(),
        dir_type: DirType::Documents,
        dir_name: "taxes".to_string(),
    };
    assert_eq!(dir_object_path(&dir, "orig", "f.pdf"), "org1/documents/taxes/orig/f.pdf");
    let req = DownloadRequest {
        bucket_name: "b",
        org_id: "o",
        dir_type: "photos",
        dir_name: "trip",
        version: "thumb",
        orig_filename: "a.jpg",
        new_filename: "x-a.jpg",
        upload_dir: "/tmp/up",
    };
    assert_eq!(req.object_path(), "o/photos/trip/thumb/x-a.jpg");
    let up = UploadUrlRequest {
        bucket_name: "b",
        org_id: "o",
        dir_type: "videos",
        dir_name: "clips",
        version: "orig",
        filename: "v.mp4",
        content_type: "video/mp4",
    };
    assert_eq!(up.object_path(), "o/videos/clips/orig/v.mp4");
}

#[test]
fn usize_parsing_agrees_with_std() {
    for s in ["0", "42", "+42", "-0", "", "+", "++1", "1_000", " 1", "1 ", "18446744073709551615", "18446744073709551616", "٣", "00000000000000000000001"] {
        assert_eq!(parse_usize(s), s.parse::<usize>().ok(), "{:?}", s);
    }
}
