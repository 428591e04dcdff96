use vstd::prelude::*;

use crate::sql::{
    int_pv, integer_param, new_query_params, opt_int_pv, opt_integer_param, opt_text_param,
    opt_text_pv, text_param, text_pv, SqlValueView, Statement,
};

use crate::file::FileObject;
use crate::sql::params_view;
use crate::store::dir::{active_keyword, add_keyword_filter, filter_params, filter_sql, like_pattern};
use crate::validate::opt_view;
use vstd::string::*;

verus! {

/// The text of a file insertion.
pub const FILE_CREATE_SQL: &'static str = "\n            INSERT INTO files\n            (\n                id,\n                dir_id,\n                name,\n                filename,\n                content_type,\n                size,\n                is_image,\n                img_versions,\n                img_taken_at,\n                created_at,\n                updated_at\n            )\n            VALUES\n            (\n                :id,\n                :dir_id,\n                :name,\n                :filename,\n                :content_type,\n                :size,\n                :is_image,\n                :img_versions,\n                :img_taken_at,\n                :created_at,\n                :updated_at\n            )\n        ";

/// Inserts a stored file.
pub fn file_create_query(file: &FileObject) -> (r: Statement)
    ensures
        r@ == (FILE_CREATE_SQL@, seq![text_pv(":id"@, file.id@), text_pv(":dir_id"@, file.dir_id@), text_pv(":name"@, file.name@), text_pv(":filename"@, file.filename@), text_pv(":content_type"@, file.content_type@), int_pv(":size"@, file.size), int_pv(":is_image"@, file.is_image as i64), opt_text_pv(":img_versions"@, opt_view(file.img_versions)), opt_int_pv(":img_taken_at"@, file.img_taken_at), int_pv(":created_at"@, file.created_at), int_pv(":updated_at"@, file.updated_at)]),
{
    let mut params = new_query_params();
    params.push(text_param(":id", file.id.clone()));
    params.push(text_param(":dir_id", file.dir_id.clone()));
    params.push(text_param(":name", file.name.clone()));
    params.push(text_param(":filename", file.filename.clone()));
    params.push(text_param(":content_type", file.content_type.clone()));
    params.push(integer_param(":size", file.size));
    params.push(integer_param(":is_image", file.is_image as i64));
    params.push(opt_text_param(":img_versions", file.img_versions.clone()));
    params.push(opt_integer_param(":img_taken_at", file.img_taken_at));
    params.push(integer_param(":created_at", file.created_at));
    params.push(integer_param(":updated_at", file.updated_at));
    let r = Statement { sql: FILE_CREATE_SQL.to_owned(), params };
    assert(r@.1 =~= seq![text_pv(":id"@, file.id@), text_pv(":dir_id"@, file.dir_id@), text_pv(":name"@, file.name@), text_pv(":filename"@, file.filename@), text_pv(":content_type"@, file.content_type@), int_pv(":size"@, file.size), int_pv(":is_image"@, file.is_image as i64), opt_text_pv(":img_versions"@, opt_view(file.img_versions)), opt_int_pv(":img_taken_at"@, file.img_taken_at), int_pv(":created_at"@, file.created_at), int_pv(":updated_at"@, file.updated_at)]);
    r
}

/// The text of a file lookup by id.
pub const FILE_GET_SQL: &'static str = "\n            SELECT\n                id,\n                dir_id,\n                name,\n                filename,\n                content_type,\n                size,\n                is_image,\n                img_versions,\n                img_taken_at,\n                created_at,\n                updated_at\n            FROM files\n            WHERE id = :id\n            LIMIT 1\n        ";

/// Finds a file by id.
pub fn file_get_query(id: &str) -> (r: Statement)
    ensures
        r@ == (FILE_GET_SQL@, seq![text_pv(":id"@, id@)]),
{
    let mut params = new_query_params();
    params.push(text_param(":id", id.to_owned()));
    let r = Statement { sql: FILE_GET_SQL.to_owned(), params };
    assert(r@.1 =~= seq![text_pv(":id"@, id@)]);
    r
}

/// The text of a file lookup by name.
pub const FILE_FIND_BY_NAME_SQL: &'static str = "\n            SELECT\n                id,\n                dir_id,\n                name,\n                filename,\n                content_type,\n                size,\n                is_image,\n                img_versions,\n                img_taken_at,\n                created_at,\n                updated_at\n            FROM files\n            WHERE dir_id = :dir_id AND name = :name\n            LIMIT 1\n        ";

/// Finds a file of a directory by name.
pub fn file_find_by_name_query(dir_id: &str, name: &str) -> (r: Statement)
    ensures
        r@ == (FILE_FIND_BY_NAME_SQL@, seq![text_pv(":dir_id"@, dir_id@), text_pv(":name"@, name@)]),
{
    let mut params = new_query_params();
    params.push(text_param(":dir_id", dir_id.to_owned()));
    params.push(text_param(":name", name.to_owned()));
    let r = Statement { sql: FILE_FIND_BY_NAME_SQL.to_owned(), params };
    assert(r@.1 =~= seq![text_pv(":dir_id"@, dir_id@), text_pv(":name"@, name@)]);
    r
}

/// The text of the file count of a directory.
pub const FILE_COUNT_BY_DIR_SQL: &'static str = "\n            SELECT COUNT(*) AS total_count\n            FROM files\n            WHERE dir_id = :dir_id\n        ";

/// Counts the files of a directory.
pub fn file_count_by_dir_query(dir_id: &str) -> (r: Statement)
    ensures
        r@ == (FILE_COUNT_BY_DIR_SQL@, seq![text_pv(":dir_id"@, dir_id@)]),
{
    let mut params = new_query_params();
    params.push(text_param(":dir_id", dir_id.to_owned()));
    let r = Statement { sql: FILE_COUNT_BY_DIR_SQL.to_owned(), params };
    assert(r@.1 =~= seq![text_pv(":dir_id"@, dir_id@)]);
    r
}

/// The text of a file removal.
pub const FILE_DELETE_SQL: &'static str = "DELETE FROM files WHERE id = :id";

/// Removes a file.
pub fn file_delete_query(id: &str) -> (r: Statement)
    ensures
        r@ == (FILE_DELETE_SQL@, seq![text_pv(":id"@, id@)]),
{
    let mut params = new_query_params();
    params.push(text_param(":id", id.to_owned()));
    let r = Statement { sql: FILE_DELETE_SQL.to_owned(), params };
    assert(r@.1 =~= seq![text_pv(":id"@, id@)]);
    r
}
/// The text of the file count of a listing, before any keyword filter.
pub const FILE_LISTING_COUNT_SQL: &'static str = "SELECT COUNT(*) AS total_count FROM files WHERE dir_id = :dir_id";

/// The text of a file listing page, before any keyword filter.
pub const FILE_LISTING_SQL: &'static str = "\n            SELECT\n                id,\n                dir_id,\n                name,\n                filename,\n                content_type,\n                size,\n                is_image,\n                img_versions,\n                img_taken_at,\n                created_at,\n                updated_at\n            FROM files\n            WHERE dir_id = :dir_id\n        ";

/// The filter that a listing keyword adds.
pub const FILE_KEYWORD_FILTER_SQL: &'static str = " AND name LIKE :keyword";

/// The order and window of a file listing page.
pub const FILE_LISTING_PAGE_SQL: &'static str = " ORDER BY created_at DESC LIMIT :per_page OFFSET :offset";

/// Counts the files of a directory that a listing shows.
pub fn file_listing_count_query(dir_id: &str, keyword: &Option<String>) -> (r: Statement)
    ensures
        r@ == file_count_view(dir_id@, *keyword),
{
    let mut sql = FILE_LISTING_COUNT_SQL.to_owned();
    let mut params = new_query_params();
    params.push(text_param(":dir_id", dir_id.to_owned()));
    add_keyword_filter(&mut sql, &mut params, keyword, FILE_KEYWORD_FILTER_SQL);
    let r = Statement { sql, params };
    assert(r@.1 =~= seq![text_pv(":dir_id"@, dir_id@)] + filter_params(active_keyword(*keyword)));
    r
}

/// The view of the statement that counts the files a listing shows.
pub open spec fn file_count_view(dir_id: Seq<char>, keyword: Option<String>) -> (Seq<char>, Seq<(Seq<char>, SqlValueView)>) {
    (FILE_LISTING_COUNT_SQL@ + filter_sql(active_keyword(keyword), FILE_KEYWORD_FILTER_SQL@),
        seq![text_pv(":dir_id"@, dir_id)] + filter_params(active_keyword(keyword)))
}

/// A keyword narrows a file count only when it is non-empty: an empty keyword
/// counts with the statement of no keyword, and a non-empty one adds the name
/// filter to that statement's text and the pattern `%keyword%` to its
/// parameters, so it counts a subset of the same files.
pub proof fn lemma_file_count_keyword(dir_id: Seq<char>, keyword: Option<String>)
    ensures
        match keyword {
            Some(k) => if k@.len() == 0 {
                file_count_view(dir_id, keyword) == file_count_view(dir_id, None)
            } else {
                file_count_view(dir_id, keyword).0 == file_count_view(dir_id, None).0
                    + FILE_KEYWORD_FILTER_SQL@ && file_count_view(dir_id, keyword).1
                    == file_count_view(dir_id, None).1.push(text_pv(":keyword"@, like_pattern(k@)))
            },
            None => true,
        },
{
    let base = file_count_view(dir_id, None);
    assert(base.0 =~= FILE_LISTING_COUNT_SQL@);
    assert(base.1 =~= seq![text_pv(":dir_id"@, dir_id)]);
    match keyword {
        Some(k) => {
            if k@.len() > 0 {
                assert(file_count_view(dir_id, keyword).1 =~= base.1.push(text_pv(":keyword"@, like_pattern(k@))));
            }
        },
        None => {},
    }
}

/// One page of the files of a directory, newest first.
pub fn file_listing_query(dir_id: &str, keyword: &Option<String>, per_page: i32, offset: i64) -> (r: Statement)
    ensures
        r@ == (FILE_LISTING_SQL@ + filter_sql(active_keyword(*keyword), FILE_KEYWORD_FILTER_SQL@) + FILE_LISTING_PAGE_SQL@,
            seq![text_pv(":dir_id"@, dir_id@)] + filter_params(active_keyword(*keyword))
            + seq![int_pv(":per_page"@, per_page as i64), int_pv(":offset"@, offset)]),
{
    let mut sql = FILE_LISTING_SQL.to_owned();
    let mut params = new_query_params();
    params.push(text_param(":dir_id", dir_id.to_owned()));
    add_keyword_filter(&mut sql, &mut params, keyword, FILE_KEYWORD_FILTER_SQL);
    sql.append(FILE_LISTING_PAGE_SQL);
    let ghost before = params@;
    params.push(integer_param(":per_page", per_page as i64));
    params.push(integer_param(":offset", offset));
    let r = Statement { sql, params };
    assert(params_view(r.params@) =~= params_view(before) + seq![int_pv(":per_page"@, per_page as i64), int_pv(":offset"@, offset)]);
    r
}

} // verus!
