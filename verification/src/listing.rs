use vstd::prelude::*;

use crate::db_error;
use crate::dir::{dir_in_row, DirDto};
use crate::pagination::{chosen_per_page, is_page_count, page_window, PageWindow, Paginated};
use crate::sql::{is_value_error, Row};
use crate::sql::{int_pv, text_pv, SqlValueView, Statement};
use crate::store::dir::{
    active_keyword, dir_listing_query, filter_params, filter_sql, DIR_KEYWORD_FILTER_SQL,
    DIR_LISTING_PAGE_SQL, DIR_LISTING_SQL,
};
use crate::validate::{failures_view, flatten_errors, FieldError};
use crate::service::validation_message;
use crate::store::file::{
    file_listing_query, FILE_KEYWORD_FILTER_SQL, FILE_LISTING_PAGE_SQL, FILE_LISTING_SQL,
};

verus! {

/// A listing's query must pass its rules; the failures, flattened into one
/// line, make the storage layer's validation error.
pub fn check_listing_params(res: Result<(), Vec<FieldError>>) -> (r: Result<(), db_error::Error>)
    ensures
        match res {
            Ok(_) => r is Ok,
            Err(errs) => r matches Err(e) && e matches db_error::Error::Validation { msg } && msg@
                == validation_message(failures_view(errs@)),
        },
{
    match res {
        Ok(()) => Ok(()),
        Err(errs) => Err(db_error::Error::Validation { msg: flatten_errors(&errs) }),
    }
}

/// Whether `w` is the page a listing answers with for the page and page size
/// asked for, out of `total` records.
pub open spec fn is_window_for(w: PageWindow, page: Option<i32>, per_page: Option<i32>, total: i64) -> bool {
    &&& w.per_page == chosen_per_page(per_page)
    &&& is_page_count(w.total_pages as int, total as int, w.per_page as int)
    &&& match page {
        Some(p) => if 0 < p && p <= w.total_pages {
            w.page == p && w.offset == (p - 1) * w.per_page
        } else {
            w.page == 1 && w.offset == 0
        },
        None => w.page == 1 && w.offset == 0,
    }
}

/// The view of a directory listing page statement.
pub open spec fn dir_page_view(bucket_id: Seq<char>, keyword: Option<String>, w: PageWindow) -> (Seq<char>, Seq<(Seq<char>, SqlValueView)>) {
    (DIR_LISTING_SQL@ + filter_sql(active_keyword(keyword), DIR_KEYWORD_FILTER_SQL@) + DIR_LISTING_PAGE_SQL@,
        seq![text_pv(":bucket_id"@, bucket_id)] + filter_params(active_keyword(keyword))
        + seq![int_pv(":per_page"@, w.per_page as i64), int_pv(":offset"@, w.offset)])
}

/// The view of a file listing page statement.
pub open spec fn file_page_view(dir_id: Seq<char>, keyword: Option<String>, w: PageWindow) -> (Seq<char>, Seq<(Seq<char>, SqlValueView)>) {
    (FILE_LISTING_SQL@ + filter_sql(active_keyword(keyword), FILE_KEYWORD_FILTER_SQL@) + FILE_LISTING_PAGE_SQL@,
        seq![text_pv(":dir_id"@, dir_id)] + filter_params(active_keyword(keyword))
        + seq![int_pv(":per_page"@, w.per_page as i64), int_pv(":offset"@, w.offset)])
}

/// The page of a directory listing, and the statement that reads its
/// directories: none when the listing is empty.
pub fn dir_listing_step(
    bucket_id: &str,
    page: Option<i32>,
    per_page: Option<i32>,
    keyword: &Option<String>,
    total_records: i64,
) -> (r: (PageWindow, Option<Statement>))
    ensures
        is_window_for(r.0, page, per_page, total_records),
        r.0.total_pages == 0 ==> r.1 is None,
        r.0.total_pages != 0 ==> (r.1 matches Some(s) && s@ == dir_page_view(bucket_id@, *keyword, r.0)),
{
    let w = page_window(page, per_page, total_records);
    if w.total_pages == 0 {
        return (w, None);
    }
    let s = dir_listing_query(bucket_id, keyword, w.per_page, w.offset);
    (w, Some(s))
}

/// The page of a file listing, and the statement that reads its files: none
/// when the listing is empty.
pub fn file_listing_step(
    dir_id: &str,
    page: Option<i32>,
    per_page: Option<i32>,
    keyword: &Option<String>,
    total_records: i64,
) -> (r: (PageWindow, Option<Statement>))
    ensures
        is_window_for(r.0, page, per_page, total_records),
        r.0.total_pages == 0 ==> r.1 is None,
        r.0.total_pages != 0 ==> (r.1 matches Some(s) && s@ == file_page_view(dir_id@, *keyword, r.0)),
{
    let w = page_window(page, per_page, total_records);
    if w.total_pages == 0 {
        return (w, None);
    }
    let s = file_listing_query(dir_id, keyword, w.per_page, w.offset);
    (w, Some(s))
}

/// A page count is fixed by the number of records and the page size.
proof fn lemma_page_count_unique(k1: int, k2: int, total: int, per_page: int)
    requires
        per_page >= 1,
        is_page_count(k1, total, per_page),
        is_page_count(k2, total, per_page),
    ensures
        k1 == k2,
{
    if k1 < k2 {
        assert((k2 - 1) * per_page >= k1 * per_page) by (nonlinear_arith)
            requires
                k1 <= k2 - 1,
                per_page >= 1,
        ;
    }
    if k2 < k1 {
        assert((k1 - 1) * per_page >= k2 * per_page) by (nonlinear_arith)
            requires
                k2 <= k1 - 1,
                per_page >= 1,
        ;
    }
}

/// Asking for a page outside a listing gives the same page as asking for no
/// page: the first one, read by the same statement.
pub proof fn lemma_out_of_range_page_is_first(
    w_asked: PageWindow,
    w_none: PageWindow,
    page: i32,
    per_page: Option<i32>,
    total: i64,
    parent_id: Seq<char>,
    keyword: Option<String>,
)
    requires
        is_window_for(w_asked, Some(page), per_page, total),
        is_window_for(w_none, None, per_page, total),
        !(0 < page && page <= w_asked.total_pages),
    ensures
        w_asked == w_none,
        w_asked.page == 1 && w_asked.offset == 0,
        dir_page_view(parent_id, keyword, w_asked) == dir_page_view(parent_id, keyword, w_none),
        file_page_view(parent_id, keyword, w_asked) == file_page_view(parent_id, keyword, w_none),
{
    lemma_page_count_unique(
        w_asked.total_pages as int,
        w_none.total_pages as int,
        total as int,
        w_asked.per_page as int,
    );
}

/// The page of a listing: the records read for its window, out of
/// `total_records`.
pub fn listing_page<T>(w: &PageWindow, total_records: i64, items: Vec<T>) -> (r: Paginated<T>)
    ensures
        r.data@ == items@,
        r.meta.page == w.page,
        r.meta.per_page == w.per_page,
        r.meta.total_records == total_records,
{
    Paginated::new(items, w.page, w.per_page, total_records)
}

/// Whether every row holds a directory.
pub open spec fn rows_hold_dirs(rows: Seq<Row>) -> bool {
    forall|i: int| 0 <= i < rows.len() ==> (#[trigger] dir_in_row(rows[i])) is Some
}

/// The directories that rows hold, in order; a value error when a row holds
/// none.
pub fn dirs_from_rows(rows: &Vec<Row>) -> (r: Result<Vec<DirDto>, db_error::Error>)
    ensures
        match r {
            Ok(dirs) => rows_hold_dirs(rows@) && dirs@.len() == rows@.len() && forall|i: int|
                0 <= i < rows@.len() ==> dir_in_row(rows@[i]) == Some(#[trigger] dirs@[i]),
            Err(e) => !rows_hold_dirs(rows@) && is_value_error(e),
        },
{
    let mut dirs: Vec<DirDto> = Vec::new();
    let mut i: usize = 0;
    while i < rows.len()
        invariant
            i <= rows@.len(),
            dirs@.len() == i,
            forall|k: int| 0 <= k < i ==> dir_in_row(rows@[k]) == Some(#[trigger] dirs@[k]),
        decreases rows@.len() - i,
    {
        match DirDto::from_row(&rows[i]) {
            Ok(d) => dirs.push(d),
            Err(e) => {
                assert(dir_in_row(rows@[i as int]) is None);
                return Err(e);
            },
        }
        i = i + 1;
    }
    assert forall|k: int| 0 <= k < rows@.len() implies (#[trigger] dir_in_row(rows@[k])) is Some by {
        assert(dir_in_row(rows@[k]) == Some(dirs@[k]));
    }
    Ok(dirs)
}

/// The page of a directory listing from the rows its statement read (none
/// when the listing is empty and nothing was read): the directories of the
/// rows, in order, with the window's page and size and the listing's total.
pub fn dir_listing_page(w: &PageWindow, total_records: i64, rows: &Vec<Row>) -> (r: Result<
    Paginated<DirDto>,
    db_error::Error,
>)
    ensures
        match r {
            Ok(p) => rows_hold_dirs(rows@) && p.meta.page == w.page && p.meta.per_page == w.per_page
                && p.meta.total_records == total_records && p.data@.len() == rows@.len() && forall|
                i: int,
            | 0 <= i < rows@.len() ==> dir_in_row(rows@[i]) == Some(#[trigger] p.data@[i]),
            Err(e) => !rows_hold_dirs(rows@) && is_value_error(e),
        },
{
    let dirs = dirs_from_rows(rows)?;
    Ok(listing_page(w, total_records, dirs))
}

} // verus!
