use memo::dir::{Dir, DirDto, DirType, ListDirsParams, NewDir, UpdateDir};
use memo::sql::{Row, SqlValue};

#[test]
fn dir_test_new_dir() {
    let data = NewDir {
        name: "hello-world".to_string(),
        label: "Hello World".to_string(),
    };
    assert!(data.validate().is_ok());

    let data = NewDir {
        name: "hello_world".to_string(),
        label: "Hello World".to_string(),
    };
    assert!(data.validate().is_err());

    let data = NewDir {
        name: "".to_string(),
        label: "Hello World".to_string(),
    };
    assert!(data.validate().is_err());
}

#[test]
fn new_dir_failures_are_listed_in_field_order() {
    let data = NewDir { name: "".to_string(), label: "".to_string() };
    let errs = data.validate().unwrap_err();
    let pairs: Vec<(String, String)> = errs.into_iter().map(|e| (e.field, e.code)).collect();
    assert_eq!(
        pairs,
        vec![
            ("name".to_string(), "length".to_string()),
            ("name".to_string(), "sluggable".to_string()),
            ("label".to_string(), "length".to_string()),
        ]
    );
}

#[test]
fn new_dir_length_counts_characters() {
    let data = NewDir { name: "a".repeat(50), label: "é".repeat(60) };
    assert!(data.validate().is_ok());
    let data = NewDir { name: "a".repeat(51), label: "x".to_string() };
    assert!(data.validate().is_err());
    let data = NewDir { name: "ab".to_string(), label: "é".repeat(61) };
    assert!(data.validate().is_err());
}

#[test]
fn update_dir_label_is_optional() {
    assert!(UpdateDir { label: None }.validate().is_ok());
    assert!(UpdateDir { label: Some("".to_string()) }.validate().is_err());
    assert!(UpdateDir { label: Some("Photos".to_string()) }.validate().is_ok());
}

#[test]
fn list_dirs_params_ranges() {
    let ok = ListDirsParams { page: Some(1000), per_page: Some(50), keyword: Some("".to_string()) };
    assert!(ok.validate().is_ok());
    let bad = ListDirsParams { page: Some(0), per_page: Some(51), keyword: None };
    let errs = bad.validate().unwrap_err();
    let fields: Vec<String> = errs.into_iter().map(|e| e.field).collect();
    assert_eq!(fields, vec!["page".to_string(), "per_page".to_string()]);
    let none = ListDirsParams { page: None, per_page: None, keyword: None };
    assert!(none.validate().is_ok());
}

#[test]
fn dir_type_names_round_trip() {
    for t in [DirType::Photos, DirType::Videos, DirType::Documents] {
        let name = t.to_string();
        assert_eq!(DirType::try_from(name.as_str()), Ok(t));
    }
    assert_eq!(DirType::Photos.to_string(), "photos");
    assert_eq!(DirType::Documents.to_string(), "documents");
    assert_eq!(DirType::try_from("videos"), Ok(DirType::Videos));
    assert_eq!(
        DirType::try_from("Photos"),
        Err("Invalid dir type: Photos".to_string())
    );
    assert_eq!(DirType::try_from(""), Err("Invalid dir type: ".to_string()));
}

fn sample_dir_dto() -> DirDto {
    DirDto {
        id: "d1".to_string(),
        bucket_id: "b1".to_string(),
        name: "photos-2024".to_string(),
        label: "Photos 2024".to_string(),
        file_count: 3,
        created_at: 100,
        updated_at: 200,
    }
}

#[test]
fn dir_conversions_keep_every_field() {
    let dir: Dir = sample_dir_dto().into();
    assert_eq!(dir.id, "d1");
    assert_eq!(dir.file_count, 3);
    let back: DirDto = dir.into();
    assert_eq!(back.bucket_id, "b1");
    assert_eq!(back.label, "Photos 2024");
    assert_eq!(back.created_at, 100);
    assert_eq!(back.updated_at, 200);
}

#[test]
fn dir_from_row_reads_columns() {
    let row = Row {
        values: vec![
            SqlValue::Text("d1".to_string()),
            SqlValue::Text("b1".to_string()),
            SqlValue::Text("docs".to_string()),
            SqlValue::Text("Docs".to_string()),
            SqlValue::Integer(4_294_967_297),
            SqlValue::Integer(5),
            SqlValue::Integer(6),
        ],
    };
    let dto = DirDto::from_row(&row).unwrap();
    assert_eq!(dto.name, "docs");
    assert_eq!(dto.file_count, 1);
    assert_eq!(dto.updated_at, 6);

    let short = Row { values: vec![SqlValue::Text("d1".to_string())] };
    assert!(DirDto::from_row(&short).is_err());
    let wrong = Row {
        values: vec![
            SqlValue::Integer(1),
            SqlValue::Text("b1".to_string()),
            SqlValue::Text("docs".to_string()),
            SqlValue::Text("Docs".to_string()),
            SqlValue::Integer(0),
            SqlValue::Integer(5),
            SqlValue::Integer(6),
        ],
    };
    assert!(DirDto::from_row(&wrong).is_err());
}
