use vstd::prelude::*;

use crate::client::{ClientDto, NewClient};
use crate::text::{trim, trimmed};
use crate::user::NewUser;

verus! {

/// The admin user that setup creates: the name and password as typed, without
/// surrounding white space, holding the `SystemAdmin` role.
pub fn setup_admin_user(username: &str, password: &str) -> (r: NewUser)
    ensures
        r.username@ == trimmed(username@),
        r.password@ == trimmed(password@),
        r.roles@ == "SystemAdmin"@,
{
    NewUser { username: trim(username), password: trim(password), roles: "SystemAdmin".to_owned() }
}

/// The admin client that setup creates when there is none: active, named
/// `system-admin`, without a default bucket.
pub fn setup_admin_client() -> (r: NewClient)
    ensures
        r.name@ == "system-admin"@,
        r.status@ == "active"@,
        r.default_bucket_id is None,
{
    NewClient {
        name: "system-admin".to_owned(),
        default_bucket_id: None,
        status: "active".to_owned(),
    }
}

/// Whether setup creates the admin client: there is none yet.
pub open spec fn setup_creates_client(admin_found: bool) -> bool {
    !admin_found
}

/// Whether setup creates the admin user: the admin client has no user yet.
pub open spec fn setup_creates_user(admin_users: nat) -> bool {
    admin_users == 0
}

/// The store as setup leaves it, seen as whether the admin client exists and
/// how many users it has: creating the admin client gives a client with no
/// user, and creating the admin user adds one user to it.
pub open spec fn store_after_setup(admin_found: bool, admin_users: nat) -> (bool, nat) {
    let users: nat = if setup_creates_client(admin_found) {
        0
    } else {
        admin_users
    };
    if setup_creates_user(users) {
        (true, users + 1)
    } else {
        (true, users)
    }
}

/// Setup run a second time finds the admin client and its user, creates
/// nothing and leaves the store as it was.
pub proof fn lemma_setup_idempotent(admin_found: bool, admin_users: nat)
    ensures
        ({
            let after = store_after_setup(admin_found, admin_users);
            &&& !setup_creates_client(after.0)
            &&& !setup_creates_user(after.1)
            &&& store_after_setup(after.0, after.1) == after
        }),
{
}

/// What setup learned last.
pub enum SetupEvent {
    /// Nothing yet.
    Start,
    /// The admin client, if there is one.
    AdminFound(Option<ClientDto>),
    /// The admin client just created.
    AdminCreated(ClientDto),
    /// How many users the admin client has.
    UsersListed { client_id: String, count: usize },
}

/// What setup does next.
#[derive(Debug)]
pub enum SetupAction {
    /// Look up the admin client.
    FindAdmin,
    /// Create this client as the admin client.
    CreateAdminClient(NewClient),
    /// List the users of this client.
    ListUsers(String),
    /// Stop: the admin user exists already.
    AlreadySetUp,
    /// Create this user in this client, as setup may create a system admin.
    CreateAdminUser { client_id: String, user: NewUser },
}

/// One step of setup: find the admin client or create one; then, unless the
/// admin client has users already, create the admin user in it.
pub fn setup_step(username: &str, password: &str, event: SetupEvent) -> (r: SetupAction)
    ensures
        match event {
            SetupEvent::Start => r is FindAdmin,
            SetupEvent::AdminFound(found) => (r is CreateAdminClient) == setup_creates_client(
                found is Some,
            ) && match found {
                Some(c) => r == SetupAction::ListUsers(c.id),
                None => r matches SetupAction::CreateAdminClient(n) && n.name@ == "system-admin"@
                    && n.status@ == "active"@ && n.default_bucket_id is None,
            },
            SetupEvent::AdminCreated(c) => r == SetupAction::ListUsers(c.id),
            SetupEvent::UsersListed { client_id, count } => (r is CreateAdminUser)
                == setup_creates_user(count as nat) && if count > 0 {
                r is AlreadySetUp
            } else {
                r matches SetupAction::CreateAdminUser { client_id: id, user } && id == client_id
                    && user.username@ == trimmed(username@) && user.password@ == trimmed(password@)
                    && user.roles@ == "SystemAdmin"@
            },
        },
{
    match event {
        SetupEvent::Start => SetupAction::FindAdmin,
        SetupEvent::AdminFound(found) => match found {
            Some(c) => SetupAction::ListUsers(c.id),
            None => SetupAction::CreateAdminClient(setup_admin_client()),
        },
        SetupEvent::AdminCreated(c) => SetupAction::ListUsers(c.id),
        SetupEvent::UsersListed { client_id, count } => if count > 0 {
            SetupAction::AlreadySetUp
        } else {
            SetupAction::CreateAdminUser {
                client_id,
                user: setup_admin_user(username, password),
            }
        },
    }
}

} // verus!
