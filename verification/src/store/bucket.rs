use vstd::prelude::*;

use crate::sql::{
    int_pv, integer_param, new_query_params, opt_int_pv, opt_integer_param, opt_text_param,
    opt_text_pv, text_param, text_pv, SqlValueView, Statement,
};

use crate::bucket::{BucketDto, NewBucket, UpdateBucket};

verus! {

/// The text of the bucket listing of a client.
pub const BUCKET_LIST_SQL: &'static str = "\n            SELECT\n                id,\n                client_id,\n                name,\n                label,\n                images_only,\n                created_at,\n                updated_at\n            FROM buckets\n            WHERE client_id = :client_id AND deleted_at IS NULL\n            ORDER BY name ASC\n        ";

/// Lists the live buckets of a client by name.
pub fn bucket_list_query(client_id: &str) -> (r: Statement)
    ensures
        r@ == (BUCKET_LIST_SQL@, seq![text_pv(":client_id"@, client_id@)]),
{
    let mut params = new_query_params();
    params.push(text_param(":client_id", client_id.to_owned()));
    let r = Statement { sql: BUCKET_LIST_SQL.to_owned(), params };
    assert(r@.1 =~= seq![text_pv(":client_id"@, client_id@)]);
    r
}

/// The text of a bucket insertion.
pub const BUCKET_CREATE_SQL: &'static str = "\n            INSERT INTO buckets\n            (\n                id,\n                client_id,\n                name,\n                label,\n                images_only,\n                created_at,\n                updated_at,\n                deleted_at\n            )\n            VALUES\n            (\n                :id,\n                :client_id,\n                :name,\n                :label,\n                :images_only,\n                :created_at,\n                NULL\n            )\n        ";

/// Inserts a new bucket with id `id`, created at `today`.
pub fn bucket_create_query(id: &str, client_id: &str, data: &NewBucket, today: i64) -> (r: Statement)
    ensures
        r@ == (BUCKET_CREATE_SQL@, seq![text_pv(":id"@, id@), text_pv(":client_id"@, client_id@), text_pv(":name"@, data.name@), text_pv(":label"@, data.label@), int_pv(":images_only"@, if data.images_only { 1i64 } else { 0i64 }), int_pv(":created_at"@, today), int_pv(":updated_at"@, today)]),
{
    let mut params = new_query_params();
    params.push(text_param(":id", id.to_owned()));
    params.push(text_param(":client_id", client_id.to_owned()));
    params.push(text_param(":name", data.name.clone()));
    params.push(text_param(":label", data.label.clone()));
    params.push(integer_param(":images_only", if data.images_only { 1 } else { 0 }));
    params.push(integer_param(":created_at", today));
    params.push(integer_param(":updated_at", today));
    let r = Statement { sql: BUCKET_CREATE_SQL.to_owned(), params };
    assert(r@.1 =~= seq![text_pv(":id"@, id@), text_pv(":client_id"@, client_id@), text_pv(":name"@, data.name@), text_pv(":label"@, data.label@), int_pv(":images_only"@, if data.images_only { 1i64 } else { 0i64 }), int_pv(":created_at"@, today), int_pv(":updated_at"@, today)]);
    r
}

/// The bucket that an insertion stores, created at `today`.
pub fn bucket_created(id: String, client_id: &str, data: &NewBucket, today: i64) -> (r: BucketDto)
    ensures
        r.id == id,
        r.client_id@ == client_id@,
        r.name@ == data.name@,
        r.label@ == data.label@,
        r.images_only == data.images_only,
        r.created_at == today,
{
    BucketDto {
        id,
        client_id: client_id.to_owned(),
        name: data.name.clone(),
        label: data.label.clone(),
        images_only: data.images_only,
        created_at: today,
    }
}

/// The text of a bucket lookup by id.
pub const BUCKET_GET_SQL: &'static str = "\n            SELECT\n                id,\n                client_id,\n                name,\n                label,\n                images_only,\n                created_at,\n                updated_at\n            FROM buckets\n            WHERE id = :id AND deleted_at IS NULL\n            LIMIT 1\n        ";

/// Finds a live bucket by id.
pub fn bucket_get_query(id: &str) -> (r: Statement)
    ensures
        r@ == (BUCKET_GET_SQL@, seq![text_pv(":id"@, id@)]),
{
    let mut params = new_query_params();
    params.push(text_param(":id", id.to_owned()));
    let r = Statement { sql: BUCKET_GET_SQL.to_owned(), params };
    assert(r@.1 =~= seq![text_pv(":id"@, id@)]);
    r
}

/// The text of a bucket lookup by name.
pub const BUCKET_FIND_BY_NAME_SQL: &'static str = "\n            SELECT\n                id,\n                client_id,\n                name,\n                label,\n                images_only,\n                created_at,\n                updated_at\n            FROM buckets\n            WHERE\n                client_id = :client_id\n                AND name = :name\n                AND deleted_at IS NULL\n            LIMIT 1\n        ";

/// Finds a live bucket of a client by name.
pub fn bucket_find_by_name_query(client_id: &str, name: &str) -> (r: Statement)
    ensures
        r@ == (BUCKET_FIND_BY_NAME_SQL@, seq![text_pv(":client_id"@, client_id@), text_pv(":name"@, name@)]),
{
    let mut params = new_query_params();
    params.push(text_param(":client_id", client_id.to_owned()));
    params.push(text_param(":name", name.to_owned()));
    let r = Statement { sql: BUCKET_FIND_BY_NAME_SQL.to_owned(), params };
    assert(r@.1 =~= seq![text_pv(":client_id"@, client_id@), text_pv(":name"@, name@)]);
    r
}

/// The text of the bucket count of a client.
pub const BUCKET_COUNT_BY_CLIENT_SQL: &'static str = "\n            SELECT COUNT(*) AS total_count\n            FROM buckets\n            WHERE client_id = :client_id AND deleted_at IS NULL\n        ";

/// Counts the live buckets of a client.
pub fn bucket_count_by_client_query(client_id: &str) -> (r: Statement)
    ensures
        r@ == (BUCKET_COUNT_BY_CLIENT_SQL@, seq![text_pv(":client_id"@, client_id@)]),
{
    let mut params = new_query_params();
    params.push(text_param(":client_id", client_id.to_owned()));
    let r = Statement { sql: BUCKET_COUNT_BY_CLIENT_SQL.to_owned(), params };
    assert(r@.1 =~= seq![text_pv(":client_id"@, client_id@)]);
    r
}

/// The text of a bucket label change.
pub const BUCKET_UPDATE_SQL: &'static str = "\n            UPDATE buckets\n            SET label = :label\n            WHERE id = :id AND deleted_at IS NULL\n        ";

/// Sets the label of a live bucket.
pub fn bucket_update_query(id: &str, label: String) -> (r: Statement)
    ensures
        r@ == (BUCKET_UPDATE_SQL@, seq![text_pv(":label"@, label@), text_pv(":id"@, id@)]),
{
    let mut params = new_query_params();
    params.push(text_param(":label", label));
    params.push(text_param(":id", id.to_owned()));
    let r = Statement { sql: BUCKET_UPDATE_SQL.to_owned(), params };
    assert(r@.1 =~= seq![text_pv(":label"@, label@), text_pv(":id"@, id@)]);
    r
}

/// The text of a bucket removal.
pub const BUCKET_DELETE_SQL: &'static str = "\n            UPDATE buckets\n            SET deleted_at = :deleted_at\n            WHERE id = :id AND deleted_at IS NULL\n        ";

/// Marks a live bucket deleted at `today`.
pub fn bucket_delete_query(id: &str, today: i64) -> (r: Statement)
    ensures
        r@ == (BUCKET_DELETE_SQL@, seq![opt_int_pv(":deleted_at"@, Some(today)), text_pv(":id"@, id@)]),
{
    let mut params = new_query_params();
    params.push(opt_integer_param(":deleted_at", Some(today)));
    params.push(text_param(":id", id.to_owned()));
    let r = Statement { sql: BUCKET_DELETE_SQL.to_owned(), params };
    assert(r@.1 =~= seq![opt_int_pv(":deleted_at"@, Some(today)), text_pv(":id"@, id@)]);
    r
}

/// The text of the readiness probe of the bucket table.
pub const BUCKET_TEST_READ_SQL: &'static str = "\n            SELECT\n                id,\n                client_id,\n                name,\n                label,\n                images_only,\n                created_at,\n                updated_at\n            FROM buckets\n            LIMIT 1\n        ";

/// Reads one bucket, live or not.
pub fn bucket_test_read_query() -> (r: Statement)
    ensures
        r@ == (BUCKET_TEST_READ_SQL@, Seq::<(Seq<char>, SqlValueView)>::empty()),
{
    let mut params = new_query_params();
    let r = Statement { sql: BUCKET_TEST_READ_SQL.to_owned(), params };
    assert(r@.1 =~= Seq::<(Seq<char>, SqlValueView)>::empty());
    r
}
/// The statement that changes a bucket: none when the change sets nothing.
pub fn bucket_update_statement(id: &str, data: &UpdateBucket) -> (r: Option<Statement>)
    ensures
        match data.label {
            Some(label) => r matches Some(s) && s@ == (BUCKET_UPDATE_SQL@, seq![text_pv(":label"@, label@), text_pv(":id"@, id@)]),
            None => r is None,
        },
{
    match &data.label {
        Some(label) => Some(bucket_update_query(id, label.clone())),
        None => None,
    }
}

} // verus!
