use memo::listing::{dir_listing_page, listing_page};
use memo::sql::Row;
use memo::listing::{check_listing_params, dir_listing_step, file_listing_step};
use memo::pagination::{page_count, page_window, Paginated};
use memo::sql::SqlValue;
use memo::store::dir::{DIR_KEYWORD_FILTER_SQL, DIR_LISTING_PAGE_SQL, DIR_LISTING_SQL};
use memo::store::file::{FILE_LISTING_PAGE_SQL, FILE_LISTING_SQL};
use memo::validate::FieldError;
use memo::db_error;

#[test]
fn page_counts_round_up() {
    assert_eq!(page_count(0, 50), 0);
    assert_eq!(page_count(1, 50), 1);
    assert_eq!(page_count(50, 50), 1);
    assert_eq!(page_count(51, 50), 2);
    assert_eq!(page_count(101, 10), 11);
    assert_eq!(page_count(i64::MAX, 1), i64::MAX);
    assert_eq!(page_count(i64::MAX, 50), i64::MAX / 50 + 1);
}

#[test]
fn negative_totals_give_no_pages() {
    assert_eq!(page_count(-1, 50), 0);
    assert_eq!(page_count(-50, 50), -1);
}

#[test]
fn page_window_defaults() {
    let w = page_window(None, None, 120);
    assert_eq!((w.page, w.per_page, w.offset, w.total_pages), (1, 50, 0, 3));
    let w = page_window(Some(3), Some(50), 120);
    assert_eq!((w.page, w.offset), (3, 100));
    let w = page_window(Some(4), Some(50), 120);
    assert_eq!((w.page, w.offset), (1, 0));
    let w = page_window(Some(0), Some(0), 120);
    assert_eq!((w.page, w.per_page), (1, 50));
    let w = page_window(Some(2), Some(51), 120);
    assert_eq!((w.page, w.per_page, w.offset), (2, 50, 50));
    let w = page_window(Some(2), Some(-3), 10);
    assert_eq!((w.page, w.per_page, w.total_pages), (1, 50, 1));
}

#[test]
fn pages_do_not_overlap() {
    let total = 95;
    let mut seen = vec![0u32; total as usize];
    let pages = page_count(total, 10);
    for p in 1..=pages {
        let w = page_window(Some(p as i32), Some(10), total);
        for i in w.offset..(w.offset + w.per_page as i64).min(total) {
            seen[i as usize] += 1;
        }
    }
    assert!(seen.iter().all(|&n| n == 1));
}

#[test]
fn empty_listing_reads_nothing() {
    let (w, stmt) = dir_listing_step("b1", Some(2), Some(10), &None, 0);
    assert_eq!(w.total_pages, 0);
    assert_eq!(w.page, 1);
    assert!(stmt.is_none());
}

#[test]
fn dir_listing_statement() {
    let (w, stmt) = dir_listing_step("b1", Some(2), Some(10), &Some("cat".to_string()), 25);
    assert_eq!((w.page, w.per_page, w.offset, w.total_pages), (2, 10, 10, 3));
    let s = stmt.unwrap();
    assert_eq!(s.sql, format!("{}{}{}", DIR_LISTING_SQL, DIR_KEYWORD_FILTER_SQL, DIR_LISTING_PAGE_SQL));
    let names: Vec<&str> = s.params.iter().map(|p| p.name.as_str()).collect();
    assert_eq!(names, vec![":bucket_id", ":keyword", ":per_page", ":offset"]);
    assert_eq!(s.params[1].value, SqlValue::Text("%cat%".to_string()));
    assert_eq!(s.params[2].value, SqlValue::Integer(10));
    assert_eq!(s.params[3].value, SqlValue::Integer(10));
}

#[test]
fn file_listing_ignores_an_empty_keyword() {
    let (w, stmt) = file_listing_step("d1", None, None, &Some(String::new()), 7);
    assert_eq!((w.page, w.per_page, w.offset, w.total_pages), (1, 50, 0, 1));
    let s = stmt.unwrap();
    assert_eq!(s.sql, format!("{}{}", FILE_LISTING_SQL, FILE_LISTING_PAGE_SQL));
    assert_eq!(s.params.len(), 3);
    assert_eq!(s.params[0].value, SqlValue::Text("d1".to_string()));
}

#[test]
fn listing_params_failures_become_one_message() {
    assert_eq!(check_listing_params(Ok(())), Ok(()));
    let errs = vec![
        FieldError { field: "page".to_string(), code: "range".to_string() },
        FieldError { field: "keyword".to_string(), code: "length".to_string() },
    ];
    assert_eq!(
        check_listing_params(Err(errs)),
        Err(db_error::Error::Validation { msg: "page: range, keyword: length".to_string() })
    );
}

#[test]
fn paginated_keeps_its_parts() {
    let p = Paginated::new(vec![1, 2, 3], 2, 3, 9);
    assert_eq!(p.data, vec![1, 2, 3]);
    assert_eq!((p.meta.page, p.meta.per_page, p.meta.total_records), (2, 3, 9));
}

#[test]
fn out_of_range_pages_are_the_first_page() {
    for total in [0i64, 1, 49, 50, 51, 500] {
        let none = dir_listing_step("b1", None, Some(20), &None, total);
        for page in [-1, 0, 1000] {
            let asked = dir_listing_step("b1", Some(page), Some(20), &None, total);
            assert_eq!(asked, none);
        }
    }
}

#[test]
fn dir_listing_pages_from_rows() {
    let row = |id: &str| Row {
        values: vec![
            SqlValue::Text(id.to_string()),
            SqlValue::Text("b1".to_string()),
            SqlValue::Text("n".to_string()),
            SqlValue::Text("l".to_string()),
            SqlValue::Integer(0),
            SqlValue::Integer(1),
            SqlValue::Integer(2),
        ],
    };
    let w = page_window(Some(2), Some(2), 5);
    let p = dir_listing_page(&w, 5, &vec![row("d3"), row("d4")]).unwrap();
    assert_eq!((p.meta.page, p.meta.per_page, p.meta.total_records), (2, 2, 5));
    let ids: Vec<String> = p.data.into_iter().map(|d| d.id).collect();
    assert_eq!(ids, vec!["d3".to_string(), "d4".to_string()]);
    let bad = Row { values: vec![SqlValue::Null] };
    assert!(dir_listing_page(&w, 5, &vec![row("d3"), bad]).is_err());
    let empty = page_window(None, None, 0);
    let p = dir_listing_page(&empty, 0, &vec![]).unwrap();
    assert!(p.data.is_empty());
    assert_eq!(listing_page(&w, 5, vec![7]).data, vec![7]);
}
