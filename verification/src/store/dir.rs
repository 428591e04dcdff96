use vstd::prelude::*;

use crate::sql::{
    int_pv, integer_param, new_query_params, opt_int_pv, opt_integer_param, opt_text_param,
    opt_text_pv, text_param, text_pv, SqlValueView, Statement,
};

use crate::dir::{DirDto, NewDir, UpdateDir};
use crate::sql::{params_view, QueryParam};
use crate::text::concat3;
use vstd::string::*;

verus! {

/// The text of the directory count of a bucket.
pub const DIR_COUNT_SQL: &'static str = "\n            SELECT COUNT(*) AS total_count\n            FROM dirs\n            WHERE bucket_id = :bucket_id AND deleted_at IS NULL\n        ";

/// Counts the live directories of a bucket.
pub fn dir_count_query(bucket_id: &str) -> (r: Statement)
    ensures
        r@ == (DIR_COUNT_SQL@, seq![text_pv(":bucket_id"@, bucket_id@)]),
{
    let mut params = new_query_params();
    params.push(text_param(":bucket_id", bucket_id.to_owned()));
    let r = Statement { sql: DIR_COUNT_SQL.to_owned(), params };
    assert(r@.1 =~= seq![text_pv(":bucket_id"@, bucket_id@)]);
    r
}

/// The text of a directory insertion.
pub const DIR_CREATE_SQL: &'static str = "\n            INSERT INTO dirs\n            (\n                id,\n                bucket_id,\n                name,\n                label,\n                file_count,\n                created_at,\n                updated_at,\n                deleted_at\n            )\n            VALUES\n            (\n                :id,\n                :bucket_id,\n                :name,\n                :label,\n                :file_count,\n                :created_at,\n                :updated_at,\n                NULL\n            )\n        ";

/// Inserts a new, empty directory with id `id`, created at `today`.
pub fn dir_create_query(id: &str, bucket_id: &str, data: &NewDir, today: i64) -> (r: Statement)
    ensures
        r@ == (DIR_CREATE_SQL@, seq![text_pv(":id"@, id@), text_pv(":bucket_id"@, bucket_id@), text_pv(":name"@, data.name@), text_pv(":label"@, data.label@), int_pv(":file_count"@, 0i64), int_pv(":created_at"@, today), int_pv(":updated_at"@, today)]),
{
    let mut params = new_query_params();
    params.push(text_param(":id", id.to_owned()));
    params.push(text_param(":bucket_id", bucket_id.to_owned()));
    params.push(text_param(":name", data.name.clone()));
    params.push(text_param(":label", data.label.clone()));
    params.push(integer_param(":file_count", 0));
    params.push(integer_param(":created_at", today));
    params.push(integer_param(":updated_at", today));
    let r = Statement { sql: DIR_CREATE_SQL.to_owned(), params };
    assert(r@.1 =~= seq![text_pv(":id"@, id@), text_pv(":bucket_id"@, bucket_id@), text_pv(":name"@, data.name@), text_pv(":label"@, data.label@), int_pv(":file_count"@, 0i64), int_pv(":created_at"@, today), int_pv(":updated_at"@, today)]);
    r
}

/// The directory that an insertion stores: empty, created and changed at `today`.
pub fn dir_created(id: String, bucket_id: &str, data: &NewDir, today: i64) -> (r: DirDto)
    ensures
        r.id == id,
        r.bucket_id@ == bucket_id@,
        r.name@ == data.name@,
        r.label@ == data.label@,
        r.file_count == 0,
        r.created_at == today,
        r.updated_at == today,
{
    DirDto {
        id,
        bucket_id: bucket_id.to_owned(),
        name: data.name.clone(),
        label: data.label.clone(),
        file_count: 0,
        created_at: today,
        updated_at: today,
    }
}

/// The text of a directory lookup by id.
pub const DIR_GET_SQL: &'static str = "\n            SELECT\n                id,\n                bucket_id,\n                name,\n                label,\n                file_count,\n                created_at,\n                updated_at\n            FROM dirs\n            WHERE id = :id AND deleted_at IS NULL\n            LIMIT 1\n        ";

/// Finds a live directory by id.
pub fn dir_get_query(id: &str) -> (r: Statement)
    ensures
        r@ == (DIR_GET_SQL@, seq![text_pv(":id"@, id@)]),
{
    let mut params = new_query_params();
    params.push(text_param(":id", id.to_owned()));
    let r = Statement { sql: DIR_GET_SQL.to_owned(), params };
    assert(r@.1 =~= seq![text_pv(":id"@, id@)]);
    r
}

/// The text of a directory lookup by name.
pub const DIR_FIND_BY_NAME_SQL: &'static str = "\n            SELECT\n                id,\n                bucket_id,\n                name,\n                label,\n                file_count,\n                created_at,\n                updated_at\n            FROM\n                dirs\n            WHERE\n                bucket_id = :bucket_id\n                AND name = :name\n                AND deleted_at IS NULL\n            LIMIT 1\n        ";

/// Finds a live directory of a bucket by name.
pub fn dir_find_by_name_query(bucket_id: &str, name: &str) -> (r: Statement)
    ensures
        r@ == (DIR_FIND_BY_NAME_SQL@, seq![text_pv(":bucket_id"@, bucket_id@), text_pv(":name"@, name@)]),
{
    let mut params = new_query_params();
    params.push(text_param(":bucket_id", bucket_id.to_owned()));
    params.push(text_param(":name", name.to_owned()));
    let r = Statement { sql: DIR_FIND_BY_NAME_SQL.to_owned(), params };
    assert(r@.1 =~= seq![text_pv(":bucket_id"@, bucket_id@), text_pv(":name"@, name@)]);
    r
}

/// The text of a directory label change.
pub const DIR_UPDATE_SQL: &'static str = "\n            UPDATE dirs\n            SET label = :label\n            WHERE id = :id AND deleted_at IS NULL\n        ";

/// Sets the label of a live directory.
pub fn dir_update_query(id: &str, label: String) -> (r: Statement)
    ensures
        r@ == (DIR_UPDATE_SQL@, seq![text_pv(":label"@, label@), text_pv(":id"@, id@)]),
{
    let mut params = new_query_params();
    params.push(text_param(":label", label));
    params.push(text_param(":id", id.to_owned()));
    let r = Statement { sql: DIR_UPDATE_SQL.to_owned(), params };
    assert(r@.1 =~= seq![text_pv(":label"@, label@), text_pv(":id"@, id@)]);
    r
}

/// The text of a directory time stamp change.
pub const DIR_UPDATE_TIMESTAMP_SQL: &'static str = "\n            UPDATE dirs\n            SET updated_at = :updated_at\n            WHERE id = :id AND deleted_at IS NULL\n        ";

/// Sets the update time of a live directory.
pub fn dir_update_timestamp_query(id: &str, timestamp: i64) -> (r: Statement)
    ensures
        r@ == (DIR_UPDATE_TIMESTAMP_SQL@, seq![int_pv(":updated_at"@, timestamp), text_pv(":id"@, id@)]),
{
    let mut params = new_query_params();
    params.push(integer_param(":updated_at", timestamp));
    params.push(text_param(":id", id.to_owned()));
    let r = Statement { sql: DIR_UPDATE_TIMESTAMP_SQL.to_owned(), params };
    assert(r@.1 =~= seq![int_pv(":updated_at"@, timestamp), text_pv(":id"@, id@)]);
    r
}

/// The text of a directory removal.
pub const DIR_DELETE_SQL: &'static str = "\n            UPDATE dirs\n            SET deleted_at = :deleted_at\n            WHERE id = :id AND deleted_at IS NULL\n        ";

/// Marks a live directory deleted at `today`.
pub fn dir_delete_query(id: &str, today: i64) -> (r: Statement)
    ensures
        r@ == (DIR_DELETE_SQL@, seq![opt_int_pv(":deleted_at"@, Some(today)), text_pv(":id"@, id@)]),
{
    let mut params = new_query_params();
    params.push(opt_integer_param(":deleted_at", Some(today)));
    params.push(text_param(":id", id.to_owned()));
    let r = Statement { sql: DIR_DELETE_SQL.to_owned(), params };
    assert(r@.1 =~= seq![opt_int_pv(":deleted_at"@, Some(today)), text_pv(":id"@, id@)]);
    r
}
/// The text of the directory count of a listing, before any keyword filter.
pub const DIR_LISTING_COUNT_SQL: &'static str = "\n            SELECT\n                COUNT(*) AS total_count\n            FROM\n                dirs\n            WHERE\n                bucket_id = :bucket_id\n                AND deleted_at IS NULL\n        ";

/// The text of a directory listing page, before any keyword filter.
pub const DIR_LISTING_SQL: &'static str = "\n            SELECT\n                id,\n                bucket_id,\n                name,\n                label,\n                file_count,\n                created_at,\n                updated_at\n            FROM dirs\n            WHERE bucket_id = :bucket_id AND deleted_at IS NULL\n        ";

/// The filter that a listing keyword adds.
pub const DIR_KEYWORD_FILTER_SQL: &'static str = " AND (name LIKE :keyword OR label LIKE :keyword)";

/// The order and window of a directory listing page.
pub const DIR_LISTING_PAGE_SQL: &'static str = " ORDER BY updated_at DESC LIMIT :per_page OFFSET :offset";

/// The keyword a listing filters by: a given, non-empty keyword.
pub open spec fn active_keyword(keyword: Option<String>) -> Option<Seq<char>> {
    match keyword {
        Some(k) => if k@.len() > 0 {
            Some(k@)
        } else {
            None
        },
        None => None,
    }
}

/// The LIKE pattern that matches names holding `k`.
pub open spec fn like_pattern(k: Seq<char>) -> Seq<char> {
    "%"@ + k + "%"@
}

/// The text a keyword filter adds, if any.
pub open spec fn filter_sql(keyword: Option<Seq<char>>, clause: Seq<char>) -> Seq<char> {
    match keyword {
        Some(_) => clause,
        None => Seq::empty(),
    }
}

/// The parameter a keyword filter binds, if any.
pub open spec fn filter_params(keyword: Option<Seq<char>>) -> Seq<(Seq<char>, SqlValueView)> {
    match keyword {
        Some(k) => seq![text_pv(":keyword"@, like_pattern(k))],
        None => Seq::empty(),
    }
}

/// The keyword a listing filters by, if any.
pub fn keyword_of(keyword: &Option<String>) -> (r: Option<String>)
    ensures
        match active_keyword(*keyword) {
            Some(k) => r matches Some(s) && s@ == k,
            None => r is None,
        },
{
    match keyword {
        Some(k) => if k.as_str().is_empty() {
            None
        } else {
            Some(k.clone())
        },
        None => None,
    }
}

/// Adds the keyword filter of a listing to a statement.
pub fn add_keyword_filter(sql: &mut String, params: &mut Vec<QueryParam>, keyword: &Option<String>, clause: &str)
    ensures
        final(sql)@ == old(sql)@ + filter_sql(active_keyword(*keyword), clause@),
        params_view(final(params)@) == params_view(old(params)@) + filter_params(active_keyword(*keyword)),
{
    match keyword_of(keyword) {
        Some(k) => {
            sql.append(clause);
            params.push(text_param(":keyword", concat3("%", k.as_str(), "%")));
        },
        None => {},
    }
    assert(params_view(params@) =~= params_view(old(params)@) + filter_params(active_keyword(*keyword)));
}

/// The view of the statement that counts the directories a listing shows.
pub open spec fn dir_count_view(bucket_id: Seq<char>, keyword: Option<String>) -> (Seq<char>, Seq<(Seq<char>, SqlValueView)>) {
    (DIR_LISTING_COUNT_SQL@ + filter_sql(active_keyword(keyword), DIR_KEYWORD_FILTER_SQL@),
        seq![text_pv(":bucket_id"@, bucket_id)] + filter_params(active_keyword(keyword)))
}

/// A keyword narrows a directory count only when it is non-empty: an empty
/// keyword counts with the statement of no keyword, and a non-empty one adds
/// the name-or-label filter to that statement's text and the pattern
/// `%keyword%` to its parameters.
pub proof fn lemma_dir_count_keyword(bucket_id: Seq<char>, keyword: Option<String>)
    ensures
        match keyword {
            Some(k) => if k@.len() == 0 {
                dir_count_view(bucket_id, keyword) == dir_count_view(bucket_id, None)
            } else {
                dir_count_view(bucket_id, keyword).0 == dir_count_view(bucket_id, None).0
                    + DIR_KEYWORD_FILTER_SQL@ && dir_count_view(bucket_id, keyword).1
                    == dir_count_view(bucket_id, None).1.push(text_pv(":keyword"@, like_pattern(k@)))
            },
            None => true,
        },
{
    let base = dir_count_view(bucket_id, None);
    assert(base.0 =~= DIR_LISTING_COUNT_SQL@);
    assert(base.1 =~= seq![text_pv(":bucket_id"@, bucket_id)]);
    match keyword {
        Some(k) => {
            if k@.len() > 0 {
                assert(dir_count_view(bucket_id, keyword).1 =~= base.1.push(text_pv(":keyword"@, like_pattern(k@))));
            }
        },
        None => {},
    }
}

/// Counts the live directories of a bucket that a listing shows.
pub fn dir_listing_count_query(bucket_id: &str, keyword: &Option<String>) -> (r: Statement)
    ensures
        r@ == dir_count_view(bucket_id@, *keyword),
{
    let mut sql = DIR_LISTING_COUNT_SQL.to_owned();
    let mut params = new_query_params();
    params.push(text_param(":bucket_id", bucket_id.to_owned()));
    add_keyword_filter(&mut sql, &mut params, keyword, DIR_KEYWORD_FILTER_SQL);
    let r = Statement { sql, params };
    assert(r@.1 =~= seq![text_pv(":bucket_id"@, bucket_id@)] + filter_params(active_keyword(*keyword)));
    r
}

/// One page of the live directories of a bucket, most recently changed first.
pub fn dir_listing_query(bucket_id: &str, keyword: &Option<String>, per_page: i32, offset: i64) -> (r: Statement)
    ensures
        r@ == (DIR_LISTING_SQL@ + filter_sql(active_keyword(*keyword), DIR_KEYWORD_FILTER_SQL@) + DIR_LISTING_PAGE_SQL@,
            seq![text_pv(":bucket_id"@, bucket_id@)] + filter_params(active_keyword(*keyword))
            + seq![int_pv(":per_page"@, per_page as i64), int_pv(":offset"@, offset)]),
{
    let mut sql = DIR_LISTING_SQL.to_owned();
    let mut params = new_query_params();
    params.push(text_param(":bucket_id", bucket_id.to_owned()));
    add_keyword_filter(&mut sql, &mut params, keyword, DIR_KEYWORD_FILTER_SQL);
    sql.append(DIR_LISTING_PAGE_SQL);
    let ghost before = params@;
    params.push(integer_param(":per_page", per_page as i64));
    params.push(integer_param(":offset", offset));
    let r = Statement { sql, params };
    assert(params_view(r.params@) =~= params_view(before) + seq![int_pv(":per_page"@, per_page as i64), int_pv(":offset"@, offset)]);
    r
}

/// The statement that changes a directory: none when the change sets nothing.
pub fn dir_update_statement(id: &str, data: &UpdateDir) -> (r: Option<Statement>)
    ensures
        match data.label {
            Some(label) => r matches Some(s) && s@ == (DIR_UPDATE_SQL@, seq![text_pv(":label"@, label@), text_pv(":id"@, id@)]),
            None => r is None,
        },
{
    match &data.label {
        Some(label) => Some(dir_update_query(id, label.clone())),
        None => None,
    }
}

} // verus!
