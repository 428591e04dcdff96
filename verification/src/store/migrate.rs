use vstd::prelude::*;

use crate::sql::{
    int_pv, integer_param, new_query_params, opt_int_pv, opt_integer_param, opt_text_param,
    opt_text_pv, text_param, text_pv, SqlValueView, Statement,
};

use crate::bucket::BucketDto;
use crate::client::ClientDto;
use crate::dir::DirDto;
use crate::migrate_turso::LegacyUserRow;
use crate::validate::opt_view;

verus! {

/// The text of the client export.
pub const MIGRATE_CLIENTS_SELECT_SQL: &'static str = "\n        SELECT\n            id,\n            name,\n            default_bucket_id,\n            status,\n            admin,\n            created_at\n        FROM\n            clients\n    ";

/// Reads every client of the source store.
pub fn migrate_clients_select_query() -> (r: Statement)
    ensures
        r@ == (MIGRATE_CLIENTS_SELECT_SQL@, Seq::<(Seq<char>, SqlValueView)>::empty()),
{
    let mut params = new_query_params();
    let r = Statement { sql: MIGRATE_CLIENTS_SELECT_SQL.to_owned(), params };
    assert(r@.1 =~= Seq::<(Seq<char>, SqlValueView)>::empty());
    r
}

/// The text of a client import.
pub const MIGRATE_CLIENT_INSERT_SQL: &'static str = "\n        INSERT INTO clients (\n            id,\n            name,\n            default_bucket_id,\n            status,\n            admin,\n            created_at\n        ) VALUES (\n            :id,\n            :name,\n            :default_bucket_id,\n            :status,\n            :admin,\n            :created_at\n        )\n    ";

/// Writes one client into the target store, its admin flag as 1 or 0.
pub fn migrate_client_insert_query(client: ClientDto) -> (r: Statement)
    ensures
        r@ == (MIGRATE_CLIENT_INSERT_SQL@, seq![text_pv(":id"@, client.id@), text_pv(":name"@, client.name@), opt_text_pv(":default_bucket_id"@, opt_view(client.default_bucket_id)), text_pv(":status"@, client.status@), int_pv(":admin"@, if client.admin { 1i64 } else { 0i64 }), int_pv(":created_at"@, client.created_at)]),
{
    let mut params = new_query_params();
    params.push(text_param(":id", client.id));
    params.push(text_param(":name", client.name));
    params.push(opt_text_param(":default_bucket_id", client.default_bucket_id));
    params.push(text_param(":status", client.status));
    params.push(integer_param(":admin", if client.admin { 1 } else { 0 }));
    params.push(integer_param(":created_at", client.created_at));
    let r = Statement { sql: MIGRATE_CLIENT_INSERT_SQL.to_owned(), params };
    assert(r@.1 =~= seq![text_pv(":id"@, client.id@), text_pv(":name"@, client.name@), opt_text_pv(":default_bucket_id"@, opt_view(client.default_bucket_id)), text_pv(":status"@, client.status@), int_pv(":admin"@, if client.admin { 1i64 } else { 0i64 }), int_pv(":created_at"@, client.created_at)]);
    r
}

/// The text of the user export.
pub const MIGRATE_USERS_SELECT_SQL: &'static str = "\n        SELECT\n            id,\n            client_id,\n            username,\n            password,\n            status,\n            roles,\n            created_at,\n            updated_at\n        FROM\n            users\n    ";

/// Reads every user of the source store.
pub fn migrate_users_select_query() -> (r: Statement)
    ensures
        r@ == (MIGRATE_USERS_SELECT_SQL@, Seq::<(Seq<char>, SqlValueView)>::empty()),
{
    let mut params = new_query_params();
    let r = Statement { sql: MIGRATE_USERS_SELECT_SQL.to_owned(), params };
    assert(r@.1 =~= Seq::<(Seq<char>, SqlValueView)>::empty());
    r
}

/// The text of a user import.
pub const MIGRATE_USER_INSERT_SQL: &'static str = "\n        INSERT INTO users (\n            id,\n            client_id,\n            username,\n            password,\n            status,\n            roles,\n            created_at,\n            updated_at\n        ) VALUES (\n            :id,\n            :client_id,\n            :username,\n            :password,\n            :status,\n            :roles,\n            :created_at,\n            :updated_at\n        )\n    ";

/// Writes one user into the target store.
pub fn migrate_user_insert_query(user: LegacyUserRow) -> (r: Statement)
    ensures
        r@ == (MIGRATE_USER_INSERT_SQL@, seq![text_pv(":id"@, user.id@), text_pv(":client_id"@, user.client_id@), text_pv(":username"@, user.username@), text_pv(":password"@, user.password@), text_pv(":status"@, user.status@), text_pv(":roles"@, user.roles@), int_pv(":created_at"@, user.created_at), int_pv(":updated_at"@, user.updated_at)]),
{
    let mut params = new_query_params();
    params.push(text_param(":id", user.id));
    params.push(text_param(":client_id", user.client_id));
    params.push(text_param(":username", user.username));
    params.push(text_param(":password", user.password));
    params.push(text_param(":status", user.status));
    params.push(text_param(":roles", user.roles));
    params.push(integer_param(":created_at", user.created_at));
    params.push(integer_param(":updated_at", user.updated_at));
    let r = Statement { sql: MIGRATE_USER_INSERT_SQL.to_owned(), params };
    assert(r@.1 =~= seq![text_pv(":id"@, user.id@), text_pv(":client_id"@, user.client_id@), text_pv(":username"@, user.username@), text_pv(":password"@, user.password@), text_pv(":status"@, user.status@), text_pv(":roles"@, user.roles@), int_pv(":created_at"@, user.created_at), int_pv(":updated_at"@, user.updated_at)]);
    r
}

/// The text of the bucket export.
pub const MIGRATE_BUCKETS_SELECT_SQL: &'static str = "\n        SELECT\n            id,\n            client_id,\n            name,\n            label,\n            images_only,\n            created_at\n        FROM\n            buckets\n    ";

/// Reads every bucket of the source store.
pub fn migrate_buckets_select_query() -> (r: Statement)
    ensures
        r@ == (MIGRATE_BUCKETS_SELECT_SQL@, Seq::<(Seq<char>, SqlValueView)>::empty()),
{
    let mut params = new_query_params();
    let r = Statement { sql: MIGRATE_BUCKETS_SELECT_SQL.to_owned(), params };
    assert(r@.1 =~= Seq::<(Seq<char>, SqlValueView)>::empty());
    r
}

/// The text of a bucket import.
pub const MIGRATE_BUCKET_INSERT_SQL: &'static str = "\n        INSERT INTO buckets (\n            id,\n            client_id,\n            name,\n            label,\n            images_only,\n            created_at\n        ) VALUES (\n            :id,\n            :client_id,\n            :name,\n            :label,\n            :images_only,\n            :created_at\n        )\n    ";

/// Writes one bucket into the target store, its images flag as 1 or 0.
pub fn migrate_bucket_insert_query(bucket: BucketDto) -> (r: Statement)
    ensures
        r@ == (MIGRATE_BUCKET_INSERT_SQL@, seq![text_pv(":id"@, bucket.id@), text_pv(":client_id"@, bucket.client_id@), text_pv(":name"@, bucket.name@), text_pv(":label"@, bucket.label@), int_pv(":images_only"@, if bucket.images_only { 1i64 } else { 0i64 }), int_pv(":created_at"@, bucket.created_at)]),
{
    let mut params = new_query_params();
    params.push(text_param(":id", bucket.id));
    params.push(text_param(":client_id", bucket.client_id));
    params.push(text_param(":name", bucket.name));
    params.push(text_param(":label", bucket.label));
    params.push(integer_param(":images_only", if bucket.images_only { 1 } else { 0 }));
    params.push(integer_param(":created_at", bucket.created_at));
    let r = Statement { sql: MIGRATE_BUCKET_INSERT_SQL.to_owned(), params };
    assert(r@.1 =~= seq![text_pv(":id"@, bucket.id@), text_pv(":client_id"@, bucket.client_id@), text_pv(":name"@, bucket.name@), text_pv(":label"@, bucket.label@), int_pv(":images_only"@, if bucket.images_only { 1i64 } else { 0i64 }), int_pv(":created_at"@, bucket.created_at)]);
    r
}

/// The text of a directory import.
pub const MIGRATE_DIR_INSERT_SQL: &'static str = "\n        INSERT INTO dirs (\n            id,\n            bucket_id,\n            name,\n            label,\n            file_count,\n            created_at,\n            updated_at\n        ) VALUES (\n            :id,\n            :bucket_id,\n            :name,\n            :label,\n            :file_count,\n            :created_at,\n            :updated_at\n        )\n    ";

/// Writes one directory into the target store.
pub fn migrate_dir_insert_query(dir: DirDto) -> (r: Statement)
    ensures
        r@ == (MIGRATE_DIR_INSERT_SQL@, seq![text_pv(":id"@, dir.id@), text_pv(":bucket_id"@, dir.bucket_id@), text_pv(":name"@, dir.name@), text_pv(":label"@, dir.label@), int_pv(":file_count"@, dir.file_count as i64), int_pv(":created_at"@, dir.created_at), int_pv(":updated_at"@, dir.updated_at)]),
{
    let mut params = new_query_params();
    params.push(text_param(":id", dir.id));
    params.push(text_param(":bucket_id", dir.bucket_id));
    params.push(text_param(":name", dir.name));
    params.push(text_param(":label", dir.label));
    params.push(integer_param(":file_count", dir.file_count as i64));
    params.push(integer_param(":created_at", dir.created_at));
    params.push(integer_param(":updated_at", dir.updated_at));
    let r = Statement { sql: MIGRATE_DIR_INSERT_SQL.to_owned(), params };
    assert(r@.1 =~= seq![text_pv(":id"@, dir.id@), text_pv(":bucket_id"@, dir.bucket_id@), text_pv(":name"@, dir.name@), text_pv(":label"@, dir.label@), int_pv(":file_count"@, dir.file_count as i64), int_pv(":created_at"@, dir.created_at), int_pv(":updated_at"@, dir.updated_at)]);
    r
}

/// The text of one page of the directory export.
pub const MIGRATE_DIRS_SELECT_SQL: &'static str = "\n            SELECT\n                id,\n                bucket_id,\n                name,\n                label,\n                file_count,\n                created_at,\n                updated_at\n            FROM\n                dirs\n            ORDER BY\n                created_at ASC,\n                id ASC\n            LIMIT :limit OFFSET :offset\n        ";

/// Reads one page of the directories of the source store, oldest first.
pub fn migrate_dirs_select_query(limit: i64, offset: i64) -> (r: Statement)
    ensures
        r@ == (MIGRATE_DIRS_SELECT_SQL@, seq![int_pv(":limit"@, limit), int_pv(":offset"@, offset)]),
{
    let mut params = new_query_params();
    params.push(integer_param(":limit", limit));
    params.push(integer_param(":offset", offset));
    let r = Statement { sql: MIGRATE_DIRS_SELECT_SQL.to_owned(), params };
    assert(r@.1 =~= seq![int_pv(":limit"@, limit), int_pv(":offset"@, offset)]);
    r
}

/// The text of the clients count of the target store.
pub const MIGRATE_COUNT_CLIENTS_SQL: &'static str = "SELECT COUNT(*) AS total_count FROM clients";

/// Counts the clients of the target store.
pub fn migrate_count_clients_query() -> (r: Statement)
    ensures
        r@ == (MIGRATE_COUNT_CLIENTS_SQL@, Seq::<(Seq<char>, SqlValueView)>::empty()),
{
    let mut params = new_query_params();
    let r = Statement { sql: MIGRATE_COUNT_CLIENTS_SQL.to_owned(), params };
    assert(r@.1 =~= Seq::<(Seq<char>, SqlValueView)>::empty());
    r
}

/// The text of the users count of the target store.
pub const MIGRATE_COUNT_USERS_SQL: &'static str = "SELECT COUNT(*) AS total_count FROM users";

/// Counts the users of the target store.
pub fn migrate_count_users_query() -> (r: Statement)
    ensures
        r@ == (MIGRATE_COUNT_USERS_SQL@, Seq::<(Seq<char>, SqlValueView)>::empty()),
{
    let mut params = new_query_params();
    let r = Statement { sql: MIGRATE_COUNT_USERS_SQL.to_owned(), params };
    assert(r@.1 =~= Seq::<(Seq<char>, SqlValueView)>::empty());
    r
}

/// The text of the buckets count of the target store.
pub const MIGRATE_COUNT_BUCKETS_SQL: &'static str = "SELECT COUNT(*) AS total_count FROM buckets";

/// Counts the buckets of the target store.
pub fn migrate_count_buckets_query() -> (r: Statement)
    ensures
        r@ == (MIGRATE_COUNT_BUCKETS_SQL@, Seq::<(Seq<char>, SqlValueView)>::empty()),
{
    let mut params = new_query_params();
    let r = Statement { sql: MIGRATE_COUNT_BUCKETS_SQL.to_owned(), params };
    assert(r@.1 =~= Seq::<(Seq<char>, SqlValueView)>::empty());
    r
}

/// The text of the dirs count of the target store.
pub const MIGRATE_COUNT_DIRS_SQL: &'static str = "SELECT COUNT(*) AS total_count FROM dirs";

/// Counts the dirs of the target store.
pub fn migrate_count_dirs_query() -> (r: Statement)
    ensures
        r@ == (MIGRATE_COUNT_DIRS_SQL@, Seq::<(Seq<char>, SqlValueView)>::empty()),
{
    let mut params = new_query_params();
    let r = Statement { sql: MIGRATE_COUNT_DIRS_SQL.to_owned(), params };
    assert(r@.1 =~= Seq::<(Seq<char>, SqlValueView)>::empty());
    r
}

/// The text of the files count of the target store.
pub const MIGRATE_COUNT_FILES_SQL: &'static str = "SELECT COUNT(*) AS total_count FROM files";

/// Counts the files of the target store.
pub fn migrate_count_files_query() -> (r: Statement)
    ensures
        r@ == (MIGRATE_COUNT_FILES_SQL@, Seq::<(Seq<char>, SqlValueView)>::empty()),
{
    let mut params = new_query_params();
    let r = Statement { sql: MIGRATE_COUNT_FILES_SQL.to_owned(), params };
    assert(r@.1 =~= Seq::<(Seq<char>, SqlValueView)>::empty());
    r
}
} // verus!
