use memo::bucket::{Bucket, BucketDto, ListBucketsParams, NewBucket, UpdateBucket};
use memo::sql::{Row, SqlValue};

#[test]
fn bucket_test_new_bucket() {
    let data = NewBucket {
        name: "hello-world".to_string(),
        label: "Hello World".to_string(),
        images_only: false,
    };
    assert!(data.validate().is_ok());

    let data = NewBucket {
        name: "hello_world".to_string(),
        label: "Hello World".to_string(),
        images_only: false,
    };
    assert!(data.validate().is_err());

    let data = NewBucket {
        name: "".to_string(),
        label: "".to_string(),
        images_only: false,
    };
    assert!(data.validate().is_err());
}

#[test]
fn bucket_names_must_be_slugs() {
    for good in ["a", "a1", "photos-2024", "x-y-z"] {
        let data = NewBucket { name: good.to_string(), label: "L".to_string(), images_only: true };
        assert!(data.validate().is_ok(), "{}", good);
    }
    for bad in ["-a", "a-", "a--b", "A", "a b", "á"] {
        let data = NewBucket { name: bad.to_string(), label: "L".to_string(), images_only: true };
        let errs = data.validate().unwrap_err();
        assert_eq!(errs.len(), 1, "{}", bad);
        assert_eq!(errs[0].code, "sluggable");
    }
}

#[test]
fn update_bucket_and_listing_rules() {
    assert!(UpdateBucket { label: None }.validate().is_ok());
    assert!(UpdateBucket { label: Some("x".repeat(61)) }.validate().is_err());
    let p = ListBucketsParams { page: Some(1), per_page: Some(0), keyword: Some("k".repeat(51)) };
    let codes: Vec<String> = p.validate().unwrap_err().into_iter().map(|e| e.code).collect();
    assert_eq!(codes, vec!["range".to_string(), "length".to_string()]);
}

fn dto(images_only: bool) -> BucketDto {
    BucketDto {
        id: "b1".to_string(),
        client_id: "c1".to_string(),
        name: "photos".to_string(),
        label: "Photos".to_string(),
        images_only,
        created_at: 42,
    }
}

#[test]
fn bucket_flag_conversions() {
    let stored: Bucket = dto(true).into();
    assert_eq!(stored.images_only, 1);
    let stored: Bucket = dto(false).into();
    assert_eq!(stored.images_only, 0);
    let back: BucketDto = stored.into();
    assert!(!back.images_only);
    assert_eq!(back.created_at, 42);
    let odd = Bucket {
        id: "b".to_string(),
        client_id: "c".to_string(),
        name: "n".to_string(),
        label: "l".to_string(),
        images_only: 2,
        created_at: 0,
    };
    let served: BucketDto = odd.into();
    assert!(!served.images_only);
}

#[test]
fn bucket_from_row() {
    let row = Row {
        values: vec![
            SqlValue::Text("b1".to_string()),
            SqlValue::Text("c1".to_string()),
            SqlValue::Text("photos".to_string()),
            SqlValue::Text("Photos".to_string()),
            SqlValue::Integer(1),
            SqlValue::Integer(7),
            SqlValue::Integer(8),
        ],
    };
    let b = BucketDto::from_row(&row).unwrap();
    assert!(b.images_only);
    assert_eq!(b.created_at, 7);
    let row = Row { values: vec![SqlValue::Null] };
    assert!(BucketDto::from_row(&row).is_err());
}
