use memo::validate::FieldError;
use memo::flow::user::{create_user_step, roles_name_system_admin, CreateUserAction, CreateUserEvent};
use memo::user::NewUser;
use memo::flow::user::{update_roles_step, UpdateRolesAction, UpdateRolesEvent};
use memo::user::UpdateUserRoles;
use memo::bucket::BucketDto;
use memo::client::{ClientDto, NewClient, UpdateClient};
use memo::dir::{DirDto, NewDir};
use memo::error::Error;
use memo::flow::auth::{login_step, token_step, LoginAction, LoginEvent, TokenAction, TokenEvent, UserRef};
use memo::flow::client::{
    create_client_step, delete_client_step, update_client_step, CreateClientAction, CreateClientEvent,
    DeleteClientAction, DeleteClientEvent, UpdateClientAction, UpdateClientEvent,
};
use memo::flow::dir::{create_dir_step, delete_dir_step, CreateDirAction, CreateDirEvent, DeleteDirAction, DeleteDirEvent};
use memo::flow::setup::{setup_step, SetupAction, SetupEvent};
use memo::flow::user::{
    change_password_step, check_update_password, check_update_user_status, ChangePasswordAction,
    ChangePasswordEvent, PasswordCheck,
};
use memo::service::ActorPayload;
use memo::user::{ChangeCurrentPassword, UpdateUserPassword, UpdateUserStatus};

fn validation(msg: &str) -> Error {
    Error::Validation { msg: msg.to_string() }
}

fn dir(bucket: &str) -> DirDto {
    DirDto {
        id: "d1".to_string(),
        bucket_id: bucket.to_string(),
        name: "docs".to_string(),
        label: "Docs".to_string(),
        file_count: 0,
        created_at: 1,
        updated_at: 1,
    }
}

fn client(id: &str, status: &str, admin: bool) -> ClientDto {
    ClientDto {
        id: id.to_string(),
        name: "acme".to_string(),
        default_bucket_id: Some("b1".to_string()),
        status: status.to_string(),
        admin,
        created_at: 1,
    }
}

#[test]
fn creating_a_directory() {
    let ok = NewDir { name: "docs".to_string(), label: "Docs".to_string() };
    assert!(matches!(create_dir_step(&ok, CreateDirEvent::Start), CreateDirAction::CountDirs));
    assert!(matches!(create_dir_step(&ok, CreateDirEvent::Counted(999)), CreateDirAction::FindByName));
    assert!(matches!(create_dir_step(&ok, CreateDirEvent::Counted(1000)), CreateDirAction::Fail(Error::MaxDirsReached)));
    assert!(matches!(create_dir_step(&ok, CreateDirEvent::Found(None)), CreateDirAction::Create));
    match create_dir_step(&ok, CreateDirEvent::Found(Some(dir("b1")))) {
        CreateDirAction::Fail(e) => assert_eq!(e, validation("Directory name already exists")),
        other => panic!("unexpected {:?}", other),
    }
    let bad = NewDir { name: "Docs_1".to_string(), label: String::new() };
    match create_dir_step(&bad, CreateDirEvent::Start) {
        CreateDirAction::Fail(e) => assert_eq!(e, validation("name: sluggable, label: length")),
        other => panic!("unexpected {:?}", other),
    }
}

#[test]
fn deleting_a_directory() {
    assert!(matches!(delete_dir_step(DeleteDirEvent::Start), DeleteDirAction::CountFiles));
    assert!(matches!(delete_dir_step(DeleteDirEvent::Counted(0)), DeleteDirAction::Delete));
    match delete_dir_step(DeleteDirEvent::Counted(2)) {
        DeleteDirAction::Fail(e) => assert_eq!(e, validation("Cannot delete directory with files inside")),
        other => panic!("unexpected {:?}", other),
    }
}

#[test]
fn creating_a_client() {
    let data = NewClient { name: "acme".to_string(), default_bucket_id: None, status: "active".to_string() };
    assert!(matches!(create_client_step(&data, CreateClientEvent::Start), CreateClientAction::CountClients));
    assert!(matches!(create_client_step(&data, CreateClientEvent::Counted(10)), CreateClientAction::Fail(Error::MaxClientsReached)));
    assert!(matches!(create_client_step(&data, CreateClientEvent::Counted(9)), CreateClientAction::FindByName));
    match create_client_step(&data, CreateClientEvent::Found(Some(client("c2", "active", false)))) {
        CreateClientAction::Fail(e) => assert_eq!(e, validation("Client name already exists")),
        other => panic!("unexpected {:?}", other),
    }
    let long = NewClient { name: "n".repeat(51), default_bucket_id: Some(String::new()), status: "active".to_string() };
    match create_client_step(&long, CreateClientEvent::Start) {
        CreateClientAction::Fail(e) => assert_eq!(e, validation("name: length, default_bucket_id: length")),
        other => panic!("unexpected {:?}", other),
    }
}

#[test]
fn changing_a_client() {
    let set_bucket = UpdateClient { name: Some("acme".to_string()), default_bucket_id: Some(Some("b7".to_string())), status: None };
    match update_client_step("c1", &set_bucket, UpdateClientEvent::Start) {
        UpdateClientAction::GetBucket(b) => assert_eq!(b, "b7"),
        other => panic!("unexpected {:?}", other),
    }
    match update_client_step("c1", &set_bucket, UpdateClientEvent::BucketFound(None)) {
        UpdateClientAction::Fail(e) => assert_eq!(e, validation("Default bucket not found")),
        other => panic!("unexpected {:?}", other),
    }
    let bucket = BucketDto {
        id: "b7".to_string(),
        client_id: "c1".to_string(),
        name: "photos".to_string(),
        label: "Photos".to_string(),
        images_only: true,
        created_at: 0,
    };
    match update_client_step("c1", &set_bucket, UpdateClientEvent::BucketFound(Some(bucket))) {
        UpdateClientAction::FindByName(n) => assert_eq!(n, "acme"),
        other => panic!("unexpected {:?}", other),
    }
    assert!(matches!(
        update_client_step("c1", &set_bucket, UpdateClientEvent::NameFound(Some(client("c1", "active", false)))),
        UpdateClientAction::Update
    ));
    match update_client_step("c1", &set_bucket, UpdateClientEvent::NameFound(Some(client("c2", "active", false)))) {
        UpdateClientAction::Fail(e) => assert_eq!(e, validation("Client name already exists")),
        other => panic!("unexpected {:?}", other),
    }
    let clear = UpdateClient { name: None, default_bucket_id: Some(None), status: Some("inactive".to_string()) };
    assert!(matches!(update_client_step("c1", &clear, UpdateClientEvent::Start), UpdateClientAction::Update));
}

#[test]
fn deleting_a_client() {
    assert!(matches!(delete_client_step(DeleteClientEvent::Start), DeleteClientAction::GetClient));
    match delete_client_step(DeleteClientEvent::Found(None)) {
        DeleteClientAction::Fail(e) => assert_eq!(e, validation("Client not found")),
        other => panic!("unexpected {:?}", other),
    }
    match delete_client_step(DeleteClientEvent::Found(Some(client("c1", "active", true)))) {
        DeleteClientAction::Fail(e) => assert_eq!(e, validation("Cannot delete admin client")),
        other => panic!("unexpected {:?}", other),
    }
    assert!(matches!(delete_client_step(DeleteClientEvent::Found(Some(client("c1", "active", false)))), DeleteClientAction::CountBuckets));
    match delete_client_step(DeleteClientEvent::BucketsCounted(1)) {
        DeleteClientAction::Fail(e) => assert_eq!(e, validation("Client still has buckets")),
        other => panic!("unexpected {:?}", other),
    }
    assert!(matches!(delete_client_step(DeleteClientEvent::BucketsCounted(0)), DeleteClientAction::CountUsers));
    match delete_client_step(DeleteClientEvent::UsersCounted(3)) {
        DeleteClientAction::Fail(e) => assert_eq!(e, validation("Client still has users")),
        other => panic!("unexpected {:?}", other),
    }
    assert!(matches!(delete_client_step(DeleteClientEvent::UsersCounted(0)), DeleteClientAction::Delete));
}

#[test]
fn signing_in() {
    assert!(matches!(login_step(LoginEvent::Start), LoginAction::CheckCredentials));
    assert!(matches!(login_step(LoginEvent::CredentialsChecked(Ok(()))), LoginAction::FindUser));
    let errs = vec![FieldError { field: "username".to_string(), code: "length".to_string() }];
    match login_step(LoginEvent::CredentialsChecked(Err(errs))) {
        LoginAction::Fail(e) => assert_eq!(e, validation("username: length")),
        other => panic!("unexpected {:?}", other),
    }
    assert!(matches!(login_step(LoginEvent::UserFound(None)), LoginAction::Fail(Error::InvalidPassword)));
    let inactive = UserRef { id: "u1".to_string(), client_id: "c1".to_string(), status: "inactive".to_string() };
    assert!(matches!(login_step(LoginEvent::UserFound(Some(inactive))), LoginAction::Fail(Error::InactiveUser)));
    let user = UserRef { id: "u1".to_string(), client_id: "c1".to_string(), status: "active".to_string() };
    match login_step(LoginEvent::UserFound(Some(user))) {
        LoginAction::GetClient { user_id, client_id } => assert_eq!((user_id.as_str(), client_id.as_str()), ("u1", "c1")),
        other => panic!("unexpected {:?}", other),
    }
    let c = client("c1", "active", false);
    assert!(matches!(
        login_step(LoginEvent::ClientFound { user_id: "u1".to_string(), client: Some(client("c1", "disabled", false)) }),
        LoginAction::Fail(Error::InvalidClient)
    ));
    assert!(matches!(
        login_step(LoginEvent::ClientFound { user_id: "u1".to_string(), client: Some(c.clone()) }),
        LoginAction::GetPassword { .. }
    ));
    match login_step(LoginEvent::HashFound { user_id: "u1".to_string(), client: c.clone(), hash: None }) {
        LoginAction::Fail(e) => assert_eq!(e, Error::Whatever { msg: "Unable to re-query user.".to_string() }),
        other => panic!("unexpected {:?}", other),
    }
    assert!(matches!(
        login_step(LoginEvent::Checked { user_id: "u1".to_string(), client: c.clone(), matched: false }),
        LoginAction::Fail(Error::InvalidPassword)
    ));
    match login_step(LoginEvent::Checked { user_id: "u1".to_string(), client: c, matched: true }) {
        LoginAction::IssueToken(a) => assert_eq!(
            a,
            ActorPayload {
                id: "u1".to_string(),
                client_id: "c1".to_string(),
                default_bucket_id: Some("b1".to_string()),
                scope: "auth files".to_string(),
            }
        ),
        other => panic!("unexpected {:?}", other),
    }
}

#[test]
fn accepting_a_token() {
    let actor = ActorPayload { id: "u1".to_string(), client_id: "c1".to_string(), default_bucket_id: None, scope: "auth files".to_string() };
    assert!(matches!(token_step(TokenEvent::Start(actor.clone())), TokenAction::GetClient(_)));
    assert!(matches!(
        token_step(TokenEvent::ClientFound { actor: actor.clone(), client: None }),
        TokenAction::Fail(Error::InvalidClient)
    ));
    assert!(matches!(
        token_step(TokenEvent::UserFound { actor: actor.clone(), client_id: "c1".to_string(), user_client_id: Some("c2".to_string()) }),
        TokenAction::Fail(Error::UserNotFound)
    ));
    match token_step(TokenEvent::UserFound { actor: actor.clone(), client_id: "c1".to_string(), user_client_id: Some("c1".to_string()) }) {
        TokenAction::Accept(a) => assert_eq!(a, actor),
        other => panic!("unexpected {:?}", other),
    }
}

#[test]
fn user_changes() {
    assert_eq!(check_update_user_status(&UpdateUserStatus { status: "inactive".to_string() }), Ok(()));
    assert_eq!(
        check_update_user_status(&UpdateUserStatus { status: "banned".to_string() }),
        Err(validation("User status must be active or inactive"))
    );
    assert_eq!(
        check_update_user_status(&UpdateUserStatus { status: "deactivated".to_string() }),
        Err(validation("status: length"))
    );
    assert_eq!(check_update_password(&UpdateUserPassword { password: "short".to_string() }), Err(validation("password: length")));
    assert_eq!(check_update_password(&UpdateUserPassword { password: "long enough".to_string() }), Ok(()));
}

#[test]
fn changing_ones_password() {
    let data = ChangeCurrentPassword { current_password: "old-password".to_string(), new_password: "new-password".to_string() };
    assert!(matches!(change_password_step(&data, ChangePasswordEvent::Start), ChangePasswordAction::GetPassword));
    match change_password_step(&data, ChangePasswordEvent::HashFound(Some("$hash".to_string()))) {
        ChangePasswordAction::Verify(h) => assert_eq!(h, "$hash"),
        other => panic!("unexpected {:?}", other),
    }
    match change_password_step(&data, ChangePasswordEvent::Checked(PasswordCheck::Mismatched)) {
        ChangePasswordAction::Fail(e) => assert_eq!(e, validation("Current password is incorrect")),
        other => panic!("unexpected {:?}", other),
    }
    match change_password_step(&data, ChangePasswordEvent::Checked(PasswordCheck::Failed("bad hash".to_string()))) {
        ChangePasswordAction::Fail(e) => assert_eq!(e, Error::Whatever { msg: "bad hash".to_string() }),
        other => panic!("unexpected {:?}", other),
    }
    match change_password_step(&data, ChangePasswordEvent::Checked(PasswordCheck::Matched)) {
        ChangePasswordAction::Update(u) => assert_eq!(u.password, "new-password"),
        other => panic!("unexpected {:?}", other),
    }
    let short = ChangeCurrentPassword { current_password: "x".to_string(), new_password: "y".to_string() };
    match change_password_step(&short, ChangePasswordEvent::Start) {
        ChangePasswordAction::Fail(e) => assert_eq!(e, validation("current_password: length, new_password: length")),
        other => panic!("unexpected {:?}", other),
    }
}

#[test]
fn setting_up() {
    assert!(matches!(setup_step("admin", "pw", SetupEvent::Start), SetupAction::FindAdmin));
    match setup_step("admin", "pw", SetupEvent::AdminFound(None)) {
        SetupAction::CreateAdminClient(c) => {
            assert_eq!(c.name, "system-admin");
            assert_eq!(c.status, "active");
            assert_eq!(c.default_bucket_id, None);
        },
        other => panic!("unexpected {:?}", other),
    }
    match setup_step("admin", "pw", SetupEvent::AdminFound(Some(client("c9", "active", true)))) {
        SetupAction::ListUsers(id) => assert_eq!(id, "c9"),
        other => panic!("unexpected {:?}", other),
    }
    assert!(matches!(
        setup_step("admin", "pw", SetupEvent::UsersListed { client_id: "c9".to_string(), count: 1 }),
        SetupAction::AlreadySetUp
    ));
    match setup_step(" admin\n", "  secret pw \n", SetupEvent::UsersListed { client_id: "c9".to_string(), count: 0 }) {
        SetupAction::CreateAdminUser { client_id, user } => {
            assert_eq!(client_id, "c9");
            assert_eq!(user.username, "admin");
            assert_eq!(user.password, "secret pw");
            assert_eq!(user.roles, "SystemAdmin");
        },
        other => panic!("unexpected {:?}", other),
    }
}

#[test]
fn creating_a_user() {
    let data = NewUser { username: "alice".to_string(), password: "password1".to_string(), roles: "Admin,SystemAdmin".to_string() };
    assert!(matches!(create_user_step(&data, false, CreateUserEvent::Start), CreateUserAction::CountUsers));
    assert!(matches!(create_user_step(&data, false, CreateUserEvent::Counted(50)), CreateUserAction::Fail(Error::MaxUsersReached)));
    assert!(matches!(create_user_step(&data, false, CreateUserEvent::Counted(49)), CreateUserAction::FindByUsername));
    match create_user_step(&data, false, CreateUserEvent::UsernameTaken(true)) {
        CreateUserAction::Fail(e) => assert_eq!(e, validation("Username already exists")),
        other => panic!("unexpected {:?}", other),
    }
    match create_user_step(&data, false, CreateUserEvent::UsernameTaken(false)) {
        CreateUserAction::CheckRoles(names) => assert_eq!(names, vec!["Admin".to_string(), "SystemAdmin".to_string()]),
        other => panic!("unexpected {:?}", other),
    }
    match create_user_step(&data, false, CreateUserEvent::RolesChecked(Err("Unknown role".to_string()))) {
        CreateUserAction::Fail(e) => assert_eq!(e, Error::InvalidRoles { source: "Unknown role".to_string() }),
        other => panic!("unexpected {:?}", other),
    }
    match create_user_step(&data, false, CreateUserEvent::RolesChecked(Ok(()))) {
        CreateUserAction::Fail(e) => assert_eq!(e, validation("Creating a system admin not allowed")),
        other => panic!("unexpected {:?}", other),
    }
    assert!(matches!(create_user_step(&data, true, CreateUserEvent::RolesChecked(Ok(()))), CreateUserAction::Create));
    let plain = NewUser { roles: "Admin,User".to_string(), ..data };
    assert!(matches!(create_user_step(&plain, false, CreateUserEvent::RolesChecked(Ok(()))), CreateUserAction::Create));
    let bad = NewUser { username: String::new(), password: "short".to_string(), roles: "r".repeat(101) };
    match create_user_step(&bad, true, CreateUserEvent::Start) {
        CreateUserAction::Fail(e) => assert_eq!(e, validation("username: length, password: length, roles: length")),
        other => panic!("unexpected {:?}", other),
    }
    assert!(roles_name_system_admin("SystemAdmin"));
    assert!(!roles_name_system_admin("SystemAdmins,systemadmin"));
}

#[test]
fn changing_roles() {
    let data = UpdateUserRoles { roles: "Admin".to_string() };
    assert!(matches!(update_roles_step(&data, UpdateRolesEvent::Start), UpdateRolesAction::CheckRoles(_)));
    assert!(matches!(update_roles_step(&data, UpdateRolesEvent::RolesChecked(Ok(()))), UpdateRolesAction::Update));
    let admin = UpdateUserRoles { roles: "User,SystemAdmin".to_string() };
    match update_roles_step(&admin, UpdateRolesEvent::RolesChecked(Ok(()))) {
        UpdateRolesAction::Fail(e) => assert_eq!(e, validation("Creating a system admin not allowed")),
        other => panic!("unexpected {:?}", other),
    }
    match update_roles_step(&UpdateUserRoles { roles: String::new() }, UpdateRolesEvent::Start) {
        UpdateRolesAction::Fail(e) => assert_eq!(e, validation("roles: length")),
        other => panic!("unexpected {:?}", other),
    }
}

#[test]
fn setup_twice_creates_nothing_the_second_time() {
    // first run: no admin client, so a client and then a user are created
    assert!(matches!(setup_step("a", "p", SetupEvent::AdminFound(None)), SetupAction::CreateAdminClient(_)));
    assert!(matches!(
        setup_step("a", "p", SetupEvent::UsersListed { client_id: "c1".to_string(), count: 0 }),
        SetupAction::CreateAdminUser { .. }
    ));
    // second run: the admin client and its user are found
    assert!(matches!(setup_step("a", "p", SetupEvent::AdminFound(Some(client("c1", "active", true)))), SetupAction::ListUsers(_)));
    assert!(matches!(
        setup_step("a", "p", SetupEvent::UsersListed { client_id: "c1".to_string(), count: 1 }),
        SetupAction::AlreadySetUp
    ));
}
