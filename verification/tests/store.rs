use memo::bucket::{NewBucket, UpdateBucket};
use memo::client::{NewClient, UpdateClient};
use memo::dir::{NewDir, UpdateDir};
use memo::sql::{QueryParam, SqlValue, Statement};
use memo::store::bucket::{bucket_create_query, bucket_update_statement, BUCKET_CREATE_SQL, BUCKET_UPDATE_SQL};
use memo::store::client::{client_create_query, client_list_query, client_update_statement, CLIENT_LIST_SQL};
use memo::store::dir::{dir_count_query, dir_create_query, dir_listing_count_query, dir_update_statement, DIR_COUNT_SQL, DIR_LISTING_COUNT_SQL, DIR_KEYWORD_FILTER_SQL};
use memo::store::file::{file_listing_count_query, FILE_KEYWORD_FILTER_SQL, FILE_LISTING_COUNT_SQL};

fn pairs(s: &Statement) -> Vec<(String, SqlValue)> {
    s.params.iter().map(|QueryParam { name, value }| (name.clone(), value.clone())).collect()
}

fn t(s: &str) -> SqlValue {
    SqlValue::Text(s.to_string())
}

#[test]
fn dir_count_binds_the_bucket() {
    let s = dir_count_query("b9");
    assert_eq!(s.sql, DIR_COUNT_SQL);
    assert_eq!(pairs(&s), vec![(":bucket_id".to_string(), t("b9"))]);
}

#[test]
fn dir_insert_starts_empty() {
    let data = NewDir { name: "docs".to_string(), label: "Docs".to_string() };
    let s = dir_create_query("d1", "b1", &data, 1700);
    let p = pairs(&s);
    assert_eq!(p.len(), 7);
    assert_eq!(p[4], (":file_count".to_string(), SqlValue::Integer(0)));
    assert_eq!(p[5], (":created_at".to_string(), SqlValue::Integer(1700)));
    assert_eq!(p[6], (":updated_at".to_string(), SqlValue::Integer(1700)));
}

#[test]
fn dir_listing_count_with_keyword() {
    let s = dir_listing_count_query("b1", &Some("x y".to_string()));
    assert_eq!(s.sql, format!("{}{}", DIR_LISTING_COUNT_SQL, DIR_KEYWORD_FILTER_SQL));
    assert_eq!(pairs(&s)[1], (":keyword".to_string(), t("%x y%")));
    let s = dir_listing_count_query("b1", &None);
    assert_eq!(s.sql, DIR_LISTING_COUNT_SQL);
    assert_eq!(s.params.len(), 1);
}

#[test]
fn file_listing_count_with_keyword() {
    let s = file_listing_count_query("d1", &Some("a".to_string()));
    assert_eq!(s.sql, format!("{}{}", FILE_LISTING_COUNT_SQL, FILE_KEYWORD_FILTER_SQL));
    assert_eq!(pairs(&s), vec![(":dir_id".to_string(), t("d1")), (":keyword".to_string(), t("%a%"))]);
}

#[test]
fn updates_without_changes_do_nothing() {
    assert!(dir_update_statement("d1", &UpdateDir { label: None }).is_none());
    assert!(bucket_update_statement("b1", &UpdateBucket { label: None }).is_none());
    let none = UpdateClient { name: None, default_bucket_id: None, status: None };
    assert!(client_update_statement("c1", none).is_none());
}

#[test]
fn bucket_label_update() {
    let s = bucket_update_statement("b1", &UpdateBucket { label: Some("New".to_string()) }).unwrap();
    assert_eq!(s.sql, BUCKET_UPDATE_SQL);
    assert_eq!(pairs(&s), vec![(":label".to_string(), t("New")), (":id".to_string(), t("b1"))]);
}

#[test]
fn bucket_insert_stores_the_flag_as_a_number() {
    let data = NewBucket { name: "photos".to_string(), label: "Photos".to_string(), images_only: true };
    let s = bucket_create_query("b1", "c1", &data, 5);
    assert_eq!(s.sql, BUCKET_CREATE_SQL);
    assert!(pairs(&s).contains(&(":images_only".to_string(), SqlValue::Integer(1))));
}

#[test]
fn client_update_joins_the_given_fields() {
    let data = UpdateClient {
        name: Some("acme".to_string()),
        default_bucket_id: Some(None),
        status: Some("inactive".to_string()),
    };
    let s = client_update_statement("c1", data).unwrap();
    assert_eq!(
        s.sql,
        "UPDATE clients SET name = :name, default_bucket_id = :default_bucket_id, status = :status WHERE id = :id"
    );
    assert_eq!(
        pairs(&s),
        vec![
            (":name".to_string(), t("acme")),
            (":default_bucket_id".to_string(), SqlValue::Null),
            (":status".to_string(), t("inactive")),
            (":id".to_string(), t("c1")),
        ]
    );
    let only_bucket = UpdateClient { name: None, default_bucket_id: Some(Some("b2".to_string())), status: None };
    let s = client_update_statement("c1", only_bucket).unwrap();
    assert_eq!(s.sql, "UPDATE clients SET default_bucket_id = :default_bucket_id WHERE id = :id");
    assert_eq!(pairs(&s)[0], (":default_bucket_id".to_string(), t("b2")));
}

#[test]
fn client_insert_and_list() {
    let data = NewClient { name: "acme".to_string(), default_bucket_id: None, status: "active".to_string() };
    let s = client_create_query("c1", &data, true, 9);
    let p = pairs(&s);
    assert!(p.contains(&(":admin".to_string(), SqlValue::Integer(1))));
    assert!(p.contains(&(":default_bucket_id".to_string(), SqlValue::Null)));
    let all = client_list_query(None);
    assert_eq!(all.sql, CLIENT_LIST_SQL);
    assert!(all.params.is_empty());
    let one = client_list_query(Some("c1".to_string()));
    assert_eq!(one.sql, format!("{} WHERE id = :id", CLIENT_LIST_SQL));
    assert_eq!(pairs(&one), vec![("id".to_string(), t("c1"))]);
}

#[test]
fn migration_scripts_split_into_statements() {
    let script = "CREATE TABLE a (x INT);\n\n  CREATE INDEX i ON a (x) ;\n;  \n";
    assert_eq!(
        memo::store::schema::migration_statements(script),
        vec!["CREATE TABLE a (x INT)".to_string(), "CREATE INDEX i ON a (x)".to_string()]
    );
    assert!(memo::store::schema::migration_statements("").is_empty());
    assert_eq!(memo::store::schema::migration_statements("SELECT 1"), vec!["SELECT 1".to_string()]);
}

#[test]
fn an_empty_keyword_counts_like_none() {
    assert_eq!(file_listing_count_query("d1", &Some(String::new())), file_listing_count_query("d1", &None));
    assert_eq!(dir_listing_count_query("b1", &Some(String::new())), dir_listing_count_query("b1", &None));
    let narrowed = file_listing_count_query("d1", &Some("x".to_string()));
    let all = file_listing_count_query("d1", &None);
    assert_eq!(narrowed.sql, format!("{}{}", all.sql, FILE_KEYWORD_FILTER_SQL));
    assert_eq!(narrowed.params[..1], all.params[..]);
    assert_eq!(narrowed.params[1].value, t("%x%"));
}
