use memo::user::UpdateUserRoles;
use memo::client::{Client, ClientDto, NewClient, UpdateClient};
use memo::dir::DirDto;
use memo::file::{ListFilesParams, PhotoExif};
use memo::migrate_ids::renamed_dir;
use memo::migrate_turso::LegacyUserRow;
use memo::sql::{row_integer, row_text, opt_row_text, Row, SqlValue};
use memo::store::migrate::{migrate_client_insert_query, migrate_dirs_select_query, MIGRATE_CLIENT_INSERT_SQL};
use memo::user::{new_user_record, ChangeCurrentPassword, NewUser, UpdateUserPassword, UpdateUserStatus};
use memo::web::{home_meta, not_found_response};
use memo::error::Error;

fn t(s: &str) -> SqlValue {
    SqlValue::Text(s.to_string())
}

#[test]
fn client_conversions() {
    let dto = ClientDto {
        id: "c1".to_string(),
        name: "acme".to_string(),
        default_bucket_id: None,
        status: "active".to_string(),
        admin: true,
        created_at: 3,
    };
    let stored: Client = dto.clone().into();
    assert_eq!(stored.admin, Some(1));
    let back: ClientDto = stored.into();
    assert_eq!(back, dto);
    let odd = Client {
        id: "c".to_string(),
        name: "n".to_string(),
        default_bucket_id: None,
        status: "active".to_string(),
        admin: None,
        created_at: 0,
    };
    let served: ClientDto = odd.into();
    assert!(!served.admin);
}

#[test]
fn client_rows_are_read_by_position() {
    let row = Row { values: vec![t("c1"), t("acme"), t("active"), SqlValue::Integer(1), SqlValue::Null, t("x"), SqlValue::Integer(5)] };
    let c = ClientDto::from_row(&row).unwrap();
    assert_eq!((c.id.as_str(), c.name.as_str(), c.status.as_str()), ("c1", "acme", "active"));
    assert!(c.admin);
    assert_eq!(c.default_bucket_id, None);
    assert_eq!(c.created_at, 5);
    let row = Row { values: vec![t("c1"), t("acme"), t("active"), SqlValue::Integer(0), t("b1"), SqlValue::Null, SqlValue::Integer(5)] };
    assert_eq!(ClientDto::from_row(&row).unwrap().default_bucket_id, Some("b1".to_string()));
    let row = Row { values: vec![t("c1"), t("acme"), t("active"), SqlValue::Integer(0), SqlValue::Integer(4), SqlValue::Null, SqlValue::Integer(5)] };
    assert!(ClientDto::from_row(&row).is_err());
}

#[test]
fn client_length_rules() {
    let ok = NewClient { name: "acme".to_string(), default_bucket_id: Some("b1".to_string()), status: "active".to_string() };
    assert!(ok.validate().is_ok());
    let bad = NewClient { name: String::new(), default_bucket_id: None, status: "s".repeat(51) };
    let fields: Vec<String> = bad.validate().unwrap_err().into_iter().map(|e| e.field).collect();
    assert_eq!(fields, vec!["name".to_string(), "status".to_string()]);
    let clear = UpdateClient { name: None, default_bucket_id: Some(None), status: None };
    assert!(clear.validate().is_ok());
    let empty_bucket = UpdateClient { name: None, default_bucket_id: Some(Some(String::new())), status: None };
    assert!(empty_bucket.validate().is_err());
}

#[test]
fn user_rules() {
    assert!(UpdateUserStatus { status: "active".to_string() }.validate().is_ok());
    assert!(UpdateUserStatus { status: String::new() }.validate().is_err());
    assert!(UpdateUserPassword { password: "12345678".to_string() }.validate().is_ok());
    assert!(UpdateUserPassword { password: "1234567".to_string() }.validate().is_err());
    assert!(UpdateUserPassword { password: "x".repeat(61) }.validate().is_err());
    let c = ChangeCurrentPassword { current_password: "12345678".to_string(), new_password: "1".to_string() };
    let errs = c.validate().unwrap_err();
    assert_eq!(errs.len(), 1);
    assert_eq!(errs[0].field, "new_password");
}

#[test]
fn new_users_start_active() {
    let data = NewUser { username: "alice".to_string(), password: "plain".to_string(), roles: "Admin,User".to_string() };
    let u = new_user_record("u1".to_string(), "c1", &data, "$argon".to_string(), 77);
    assert_eq!(u.status, "active");
    assert_eq!(u.password, "$argon");
    assert_eq!(u.roles, "Admin,User");
    assert_eq!((u.created_at, u.updated_at), (77, 77));
}

#[test]
fn legacy_user_rows() {
    let row = Row {
        values: vec![t("u1"), t("c1"), t("alice"), t("$h"), t("active"), t("Admin"), SqlValue::Integer(1), SqlValue::Integer(2)],
    };
    let u = LegacyUserRow::from_row(&row).unwrap();
    assert_eq!(u.username, "alice");
    assert_eq!(u.updated_at, 2);
    let short = Row { values: vec![t("u1")] };
    assert!(LegacyUserRow::from_row(&short).is_err());
}

#[test]
fn row_readers() {
    let row = Row { values: vec![t("a"), SqlValue::Integer(4), SqlValue::Null, SqlValue::Real(1.5f64.to_bits())] };
    assert_eq!(row_text(&row, 0), Ok("a".to_string()));
    assert!(row_text(&row, 1).is_err());
    assert_eq!(row_integer(&row, 1), Ok(4));
    assert_eq!(opt_row_text(&row, 2), Ok(None));
    assert!(opt_row_text(&row, 3).is_err());
    assert!(row_text(&row, 9).is_err());
}

#[test]
fn migration_statements() {
    let c = ClientDto {
        id: "c1".to_string(),
        name: "acme".to_string(),
        default_bucket_id: Some("b1".to_string()),
        status: "active".to_string(),
        admin: false,
        created_at: 3,
    };
    let s = migrate_client_insert_query(c);
    assert_eq!(s.sql, MIGRATE_CLIENT_INSERT_SQL);
    assert_eq!(s.params[4].value, SqlValue::Integer(0));
    assert_eq!(s.params[2].value, t("b1"));
    let page = migrate_dirs_select_query(100, 200);
    assert_eq!(page.params[0].value, SqlValue::Integer(100));
    assert_eq!(page.params[1].value, SqlValue::Integer(200));
}

#[test]
fn renamed_dirs_keep_their_contents() {
    let d = DirDto {
        id: "old".to_string(),
        bucket_id: "b1".to_string(),
        name: "docs".to_string(),
        label: "Docs".to_string(),
        file_count: 4,
        created_at: 1,
        updated_at: 2,
    };
    let r = renamed_dir(d.clone(), "new".to_string());
    assert_eq!(r.id, "new");
    assert_eq!(DirDto { id: "old".to_string(), ..r }, d);
}

#[test]
fn file_listing_rules_and_defaults() {
    assert!(ListFilesParams { page: Some(1), per_page: Some(50), keyword: None }.validate().is_ok());
    assert!(ListFilesParams { page: Some(1001), per_page: None, keyword: None }.validate().is_err());
    let exif = PhotoExif::default();
    assert_eq!((exif.orientation, exif.img_taken_at), (1, None));
}

#[test]
fn web_answers() {
    let meta = home_meta();
    assert_eq!((meta.name.as_str(), meta.version.as_str()), ("memo-rs", "0.1.0"));
    let nf = not_found_response();
    assert_eq!((nf.status_code, nf.message.as_str(), nf.error.as_str()), (404, "Not Found", "Not Found"));
    let (body, info) = Error::NotFound { msg: "File not found".to_string() }.into_response("bt".to_string());
    assert_eq!(body.status_code, 404);
    assert_eq!(info.message, "File not found");
    assert_eq!(info.backtrace, None);
    let (body, info) = Error::DbQuery { table: "dirs".to_string(), source: "x".to_string() }
        .into_response("bt".to_string());
    assert_eq!(body.status_code, 500);
    assert_eq!(info.message, "Error querying dirs: x");
    assert_eq!(info.backtrace, Some("bt".to_string()));
}

#[test]
fn new_user_and_role_rules() {
    assert!(NewUser { username: "a".repeat(30), password: "x".repeat(8), roles: "Admin".to_string() }.validate().is_ok());
    let errs = NewUser { username: "a".repeat(31), password: "x".repeat(61), roles: String::new() }.validate().unwrap_err();
    let fields: Vec<String> = errs.into_iter().map(|e| e.field).collect();
    assert_eq!(fields, vec!["username".to_string(), "password".to_string(), "roles".to_string()]);
    assert!(UpdateUserRoles { roles: "r".repeat(100) }.validate().is_ok());
    assert!(UpdateUserRoles { roles: "r".repeat(101) }.validate().is_err());
}
