use memo::file::ListFilesParams;
use memo::fixtures::{
    clients_with_id, create_test_admin_client, create_test_client, create_test_new_client, first_with_name,
    ClientTestRepo, FileTestRepo, TEST_ADMIN_CLIENT_ID, TEST_CLIENT_ID,
};

#[test]
fn test_clients() {
    let c = create_test_client(5);
    assert_eq!(c.id, TEST_CLIENT_ID);
    assert_eq!(c.name, "Test Client");
    assert_eq!(c.admin, None);
    assert_eq!(create_test_admin_client(5).admin, Some(1));
    assert_eq!(create_test_new_client(5).id, TEST_ADMIN_CLIENT_ID);
}

#[test]
fn test_client_store() {
    let repo = ClientTestRepo {};
    let all = repo.list(None, 9);
    assert_eq!(all.len(), 2);
    assert!(!all[0].admin);
    assert!(all[1].admin);
    let one = repo.list(Some(TEST_CLIENT_ID.to_string()), 9);
    assert_eq!(one.len(), 1);
    assert_eq!(one[0].name, "Test Client");
    assert!(repo.list(Some("nope".to_string()), 9).is_empty());
    assert_eq!(repo.get(TEST_ADMIN_CLIENT_ID, 9).unwrap().name, "Test Admin Client");
    assert!(repo.get("nope", 9).is_none());
    assert_eq!(repo.find_by_name("Test Client", 9).unwrap().id, TEST_CLIENT_ID);
    assert!(repo.find_by_name("test client", 9).is_none());
    assert!(repo.find_admin(9).unwrap().admin);
    assert_eq!(repo.create(9).name, "Test New Client");
    assert!(repo.update());
    assert_eq!(repo.count(), 2);
}

#[test]
fn filters_keep_order() {
    let repo = ClientTestRepo {};
    let mut all = repo.list(None, 1);
    all.extend(repo.list(None, 2));
    let ids = clients_with_id(all.clone(), TEST_CLIENT_ID);
    assert_eq!(ids.len(), 2);
    assert_eq!((ids[0].created_at, ids[1].created_at), (1, 2));
    let first = first_with_name(all, "Test Admin Client").unwrap();
    assert_eq!(first.created_at, 1);
}

#[test]
fn test_file_store() {
    let repo = FileTestRepo {};
    let page = repo.list(&ListFilesParams { page: None, per_page: None, keyword: None });
    assert!(page.data.is_empty());
    assert_eq!((page.meta.page, page.meta.per_page, page.meta.total_records), (1, 10, 0));
    assert!(repo.get("f").is_none());
    assert!(repo.find_by_name("d", "n").is_none());
    assert_eq!(repo.count_by_dir("d"), 0);
    assert!(repo.create(memo::file::FileObject {
        id: "f".to_string(),
        dir_id: "d".to_string(),
        name: "n".to_string(),
        filename: "n".to_string(),
        content_type: "text/plain".to_string(),
        size: 1,
        is_image: 0,
        img_versions: None,
        img_taken_at: None,
        created_at: 0,
        updated_at: 0,
    })
    .is_err());
}
