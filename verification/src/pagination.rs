use vstd::prelude::*;

verus! {

/// The page size used when none, or an unusable one, is asked for.
pub const DEFAULT_PER_PAGE: i32 = 50;

/// Where a page lies in a listing.
#[derive(Clone, Debug, PartialEq, Eq)]
pub struct PaginationMeta {
    pub page: i32,
    pub per_page: i32,
    pub total_records: i64,
}

/// One page of a listing and where it lies.
#[derive(Clone, Debug, PartialEq, Eq)]
pub struct Paginated<T> {
    pub meta: PaginationMeta,
    pub data: Vec<T>,
}

impl<T> Paginated<T> {
    /// A page holding `data`.
    pub fn new(data: Vec<T>, page: i32, per_page: i32, total_records: i64) -> (r: Paginated<T>)
        ensures
            r.data@ == data@,
            r.meta.page == page,
            r.meta.per_page == per_page,
            r.meta.total_records == total_records,
    {
        Paginated { meta: PaginationMeta { page, per_page, total_records }, data }
    }
}

/// The page that a listing answers with: its number, its size, the number of
/// records it skips and the number of pages of the whole listing.
#[derive(Clone, Debug, PartialEq, Eq)]
pub struct PageWindow {
    pub page: i32,
    pub per_page: i32,
    pub offset: i64,
    pub total_pages: i64,
}

/// `k` is the number of pages of `per_page` records that `total` records fill:
/// the smallest whole number of pages that holds them.
pub open spec fn is_page_count(k: int, total: int, per_page: int) -> bool {
    k * per_page >= total && (k - 1) * per_page < total
}

/// The page size a listing uses for the size it was asked for.
pub open spec fn chosen_per_page(per_page_param: Option<i32>) -> i32 {
    match per_page_param {
        Some(p) => if 0 < p && p <= DEFAULT_PER_PAGE {
            p
        } else {
            DEFAULT_PER_PAGE
        },
        None => DEFAULT_PER_PAGE,
    }
}

/// The number of pages of `per_page` records that `total` records fill.
pub fn page_count(total: i64, per_page: i32) -> (k: i64)
    requires
        per_page > 0,
    ensures
        is_page_count(k as int, total as int, per_page as int),
{
    let t = total as i128;
    let p = per_page as i128;
    let k: i128 = if t >= 0 {
        let q = (t + p - 1) / p;
        assert(q * p >= t && (q - 1) * p < t) by (nonlinear_arith)
            requires
                t >= 0,
                p > 0,
                q == (t + p - 1) / (p as int),
        ;
        q
    } else {
        let q = (-t) / p;
        assert(-q * p >= t && (-q - 1) * p < t) by (nonlinear_arith)
            requires
                t < 0,
                p > 0,
                q == (-t) / (p as int),
        ;
        -q
    };
    assert(i64::MIN <= k <= i64::MAX) by (nonlinear_arith)
        requires
            k * p >= t,
            (k - 1) * p < t,
            p >= 1,
            i64::MIN <= t <= i64::MAX,
    ;
    k as i64
}

/// The page a listing of `total_records` records answers with, for the page
/// and page size it was asked for. A page size outside 1 to 50 gives way to 50;
/// a page outside the listing gives way to the first page.
pub fn page_window(page_param: Option<i32>, per_page_param: Option<i32>, total_records: i64) -> (w: PageWindow)
    ensures
        w.per_page == chosen_per_page(per_page_param),
        is_page_count(w.total_pages as int, total_records as int, w.per_page as int),
        match page_param {
            Some(p) => if 0 < p && p <= w.total_pages {
                w.page == p && w.offset == (p - 1) * w.per_page
            } else {
                w.page == 1 && w.offset == 0
            },
            None => w.page == 1 && w.offset == 0,
        },
{
    let mut per_page: i32 = DEFAULT_PER_PAGE;
    if let Some(p) = per_page_param {
        if p > 0 && p <= DEFAULT_PER_PAGE {
            per_page = p;
        }
    }
    let total_pages = page_count(total_records, per_page);
    let mut page: i32 = 1;
    let mut offset: i64 = 0;
    if let Some(p) = page_param {
        let p64 = p as i64;
        if p64 > 0 && p64 <= total_pages {
            page = p;
            assert(0 <= (p64 - 1) * (per_page as i64) <= i32::MAX * 50) by (nonlinear_arith)
                requires
                    1 <= p64 <= i32::MAX,
                    1 <= per_page <= 50,
            ;
            offset = (p64 - 1) * per_page as i64;
        }
    }
    PageWindow { page, per_page, offset, total_pages }
}

/// Pages of one listing do not overlap: the records of page `a` all come
/// before those of a later page `b`.
pub proof fn lemma_pages_disjoint(a: int, b: int, per_page: int)
    requires
        1 <= a < b,
        per_page >= 1,
    ensures
        (a - 1) * per_page + per_page <= (b - 1) * per_page,
{
    assert((a - 1) * per_page + per_page <= (b - 1) * per_page) by (nonlinear_arith)
        requires
            1 <= a < b,
            per_page >= 1,
    ;
}

/// Every record of a non-empty listing lies on exactly one page within the
/// page count: record `i` (counting from 0) lies on page `i / per_page + 1`.
pub proof fn lemma_record_on_page(i: int, total: int, per_page: int, k: int)
    requires
        0 <= i < total,
        per_page >= 1,
        is_page_count(k, total, per_page),
    ensures
        1 <= i / per_page + 1 <= k,
        (i / per_page) * per_page <= i < (i / per_page) * per_page + per_page,
{
    assert(1 <= i / per_page + 1 <= k && (i / per_page) * per_page <= i < (i / per_page) * per_page
        + per_page) by (nonlinear_arith)
        requires
            0 <= i < total,
            per_page >= 1,
            k * per_page >= total,
            (k - 1) * per_page < total,
    ;
}

} // verus!
