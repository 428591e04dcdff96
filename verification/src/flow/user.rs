use vstd::prelude::*;

use crate::error::Error;
use crate::service::{
    check_user_capacity, check_user_status, check_username_free, refused_with, validation_message,
    validation_outcome, MAX_USERS_PER_CLIENT,
};
use crate::text::{split_on, split_on_char, str_eq};
use crate::user::{
    change_current_password_failures, new_user_failures, update_user_password_failures,
    update_user_roles_failures, update_user_status_failures, ChangeCurrentPassword, NewUser,
    UpdateUserPassword, UpdateUserRoles, UpdateUserStatus,
};

verus! {

/// Checks a change of a user's status: the data must pass its rules and the
/// status must be `active` or `inactive`.
pub fn check_update_user_status(data: &UpdateUserStatus) -> (r: Result<(), Error>)
    ensures
        update_user_status_failures(*data).len() != 0 ==> refused_with(
            r,
            validation_message(update_user_status_failures(*data)),
        ),
        update_user_status_failures(*data).len() == 0 ==> (if data.status@ == "active"@
            || data.status@ == "inactive"@ {
            r is Ok
        } else {
            refused_with(r, "User status must be active or inactive"@)
        }),
{
    validation_outcome(data.validate())?;
    check_user_status(data.status.as_str())
}

/// Checks a new password for a user.
pub fn check_update_password(data: &UpdateUserPassword) -> (r: Result<(), Error>)
    ensures
        r is Ok <==> update_user_password_failures(*data).len() == 0,
        r is Err ==> refused_with(r, validation_message(update_user_password_failures(*data))),
{
    validation_outcome(data.validate())
}

/// How a password compared with a stored hash.
pub enum PasswordCheck {
    /// The password matches the hash.
    Matched,
    /// The password does not match the hash.
    Mismatched,
    /// The comparison failed; the text says why.
    Failed(String),
}

/// What a user changing their own password learned last.
pub enum ChangePasswordEvent {
    /// Nothing yet.
    Start,
    /// The stored password hash of the user, if the user is still there.
    HashFound(Option<String>),
    /// How the current password compared with the stored hash.
    Checked(PasswordCheck),
}

/// What a user changing their own password does next.
#[derive(Debug)]
pub enum ChangePasswordAction {
    /// Read the stored password hash of the user.
    GetPassword,
    /// Compare the current password with this hash.
    Verify(String),
    /// Store this new password.
    Update(UpdateUserPassword),
    /// Stop with this error.
    Fail(Error),
}

/// One step of a user changing their own password: the data must pass its
/// rules, the user's hash must still be there, and the current password must
/// match it; then the new password is stored.
pub fn change_password_step(data: &ChangeCurrentPassword, event: ChangePasswordEvent) -> (r:
    ChangePasswordAction)
    ensures
        match event {
            ChangePasswordEvent::Start => if change_current_password_failures(*data).len() == 0 {
                r is GetPassword
            } else {
                r matches ChangePasswordAction::Fail(e) && refused_with(
                    Err::<(), Error>(e),
                    validation_message(change_current_password_failures(*data)),
                )
            },
            ChangePasswordEvent::HashFound(hash) => match hash {
                Some(h) => r matches ChangePasswordAction::Verify(g) && g == h,
                None => r matches ChangePasswordAction::Fail(e) && e matches Error::Whatever { msg }
                    && msg@ == "Unable to re-query user"@,
            },
            ChangePasswordEvent::Checked(check) => match check {
                PasswordCheck::Matched => r matches ChangePasswordAction::Update(u) && u.password@
                    == data.new_password@,
                PasswordCheck::Mismatched => r matches ChangePasswordAction::Fail(e) && refused_with(
                    Err::<(), Error>(e),
                    "Current password is incorrect"@,
                ),
                PasswordCheck::Failed(why) => r matches ChangePasswordAction::Fail(e)
                    && e == Error::Whatever { msg: why },
            },
        },
{
    match event {
        ChangePasswordEvent::Start => match validation_outcome(data.validate()) {
            Ok(()) => ChangePasswordAction::GetPassword,
            Err(e) => ChangePasswordAction::Fail(e),
        },
        ChangePasswordEvent::HashFound(hash) => match hash {
            Some(h) => ChangePasswordAction::Verify(h),
            None => ChangePasswordAction::Fail(
                Error::Whatever { msg: "Unable to re-query user".to_owned() },
            ),
        },
        ChangePasswordEvent::Checked(check) => match check {
            PasswordCheck::Matched => ChangePasswordAction::Update(
                UpdateUserPassword { password: data.new_password.clone() },
            ),
            PasswordCheck::Mismatched => ChangePasswordAction::Fail(
                Error::Validation { msg: "Current password is incorrect".to_owned() },
            ),
            PasswordCheck::Failed(why) => ChangePasswordAction::Fail(Error::Whatever { msg: why }),
        },
    }
}

/// The name of the role that only setup may give.
pub const SYSTEM_ADMIN_ROLE: &'static str = "SystemAdmin";

/// The role names of a comma-separated role list.
pub open spec fn role_names(roles: Seq<char>) -> Seq<Seq<char>> {
    split_on(roles, ',')
}

/// Whether a role list names the system admin role.
pub open spec fn names_system_admin(roles: Seq<char>) -> bool {
    role_names(roles).contains(SYSTEM_ADMIN_ROLE@)
}

/// The role names of a role list, in order.
pub fn role_names_of(roles: &str) -> (r: Vec<String>)
    ensures
        r@.map_values(|p: String| p@) == role_names(roles@),
{
    split_on_char(roles, ',')
}

/// Whether a list of role names holds the system admin role.
pub fn holds_system_admin(names: &Vec<String>) -> (r: bool)
    ensures
        r == names@.map_values(|p: String| p@).contains(SYSTEM_ADMIN_ROLE@),
{
    let ghost views = names@.map_values(|p: String| p@);
    let mut i: usize = 0;
    while i < names.len()
        invariant
            views == names@.map_values(|p: String| p@),
            i <= names@.len(),
            forall|j: int| 0 <= j < i ==> views[j] != SYSTEM_ADMIN_ROLE@,
        decreases names@.len() - i,
    {
        if str_eq(names[i].as_str(), SYSTEM_ADMIN_ROLE) {
            assert(views[i as int] == SYSTEM_ADMIN_ROLE@);
            return true;
        }
        i = i + 1;
    }
    false
}

/// Whether a role list names the system admin role.
pub fn roles_name_system_admin(roles: &str) -> (r: bool)
    ensures
        r == names_system_admin(roles@),
{
    let names = role_names_of(roles);
    holds_system_admin(&names)
}

/// What creating a user learned last.
pub enum CreateUserEvent {
    /// Nothing yet.
    Start,
    /// How many users the client has.
    Counted(i64),
    /// Whether a user already has the new username.
    UsernameTaken(bool),
    /// Whether every role name of the list names a role; the reason when not.
    RolesChecked(Result<(), String>),
}

/// What creating a user does next.
#[derive(Debug)]
pub enum CreateUserAction {
    /// Count the users of the client.
    CountUsers,
    /// Look up a user by the new username.
    FindByUsername,
    /// Check that each of these role names names a role.
    CheckRoles(Vec<String>),
    /// Store the new user.
    Create,
    /// Stop with this error.
    Fail(Error),
}

/// One step of creating a user in a client: the data must pass its length
/// rules, the client must have fewer users than the limit, the username must
/// be unused and every role name must name a role; outside setup, the roles
/// must not include the system admin role.
pub fn create_user_step(data: &NewUser, is_setup: bool, event: CreateUserEvent) -> (r:
    CreateUserAction)
    ensures
        match event {
            CreateUserEvent::Start => if new_user_failures(*data).len() == 0 {
                r is CountUsers
            } else {
                r matches CreateUserAction::Fail(e) && refused_with(
                    Err::<(), Error>(e),
                    validation_message(new_user_failures(*data)),
                )
            },
            CreateUserEvent::Counted(n) => if n < MAX_USERS_PER_CLIENT {
                r is FindByUsername
            } else {
                r matches CreateUserAction::Fail(e) && e is MaxUsersReached
            },
            CreateUserEvent::UsernameTaken(taken) => if taken {
                r matches CreateUserAction::Fail(e) && refused_with(
                    Err::<(), Error>(e),
                    "Username already exists"@,
                )
            } else {
                r matches CreateUserAction::CheckRoles(names) && names@.map_values(|p: String| p@)
                    == role_names(data.roles@)
            },
            CreateUserEvent::RolesChecked(checked) => match checked {
                Err(why) => r matches CreateUserAction::Fail(e) && e == Error::InvalidRoles {
                    source: why,
                },
                Ok(_) => if !is_setup && names_system_admin(data.roles@) {
                    r matches CreateUserAction::Fail(e) && refused_with(
                        Err::<(), Error>(e),
                        "Creating a system admin not allowed"@,
                    )
                } else {
                    r is Create
                },
            },
        },
{
    match event {
        CreateUserEvent::Start => match validation_outcome(data.validate()) {
            Ok(()) => CreateUserAction::CountUsers,
            Err(e) => CreateUserAction::Fail(e),
        },
        CreateUserEvent::Counted(n) => match check_user_capacity(n) {
            Ok(()) => CreateUserAction::FindByUsername,
            Err(e) => CreateUserAction::Fail(e),
        },
        CreateUserEvent::UsernameTaken(taken) => match check_username_free(taken) {
            Ok(()) => CreateUserAction::CheckRoles(role_names_of(data.roles.as_str())),
            Err(e) => CreateUserAction::Fail(e),
        },
        CreateUserEvent::RolesChecked(checked) => match checked {
            Err(why) => CreateUserAction::Fail(Error::InvalidRoles { source: why }),
            Ok(()) => if !is_setup && roles_name_system_admin(data.roles.as_str()) {
                CreateUserAction::Fail(
                    Error::Validation { msg: "Creating a system admin not allowed".to_owned() },
                )
            } else {
                CreateUserAction::Create
            },
        },
    }
}

/// What changing a user's roles learned last.
pub enum UpdateRolesEvent {
    /// Nothing yet.
    Start,
    /// Whether every role name of the list names a role; the reason when not.
    RolesChecked(Result<(), String>),
}

/// What changing a user's roles does next.
#[derive(Debug)]
pub enum UpdateRolesAction {
    /// Check that each of these role names names a role.
    CheckRoles(Vec<String>),
    /// Store the new roles.
    Update,
    /// Stop with this error.
    Fail(Error),
}

/// One step of changing a user's roles: the list must pass its length rule
/// and name only roles, and must not include the system admin role.
pub fn update_roles_step(data: &UpdateUserRoles, event: UpdateRolesEvent) -> (r: UpdateRolesAction)
    ensures
        match event {
            UpdateRolesEvent::Start => if update_user_roles_failures(*data).len() == 0 {
                r matches UpdateRolesAction::CheckRoles(names) && names@.map_values(|p: String| p@)
                    == role_names(data.roles@)
            } else {
                r matches UpdateRolesAction::Fail(e) && refused_with(
                    Err::<(), Error>(e),
                    validation_message(update_user_roles_failures(*data)),
                )
            },
            UpdateRolesEvent::RolesChecked(checked) => match checked {
                Err(why) => r matches UpdateRolesAction::Fail(e) && e == Error::InvalidRoles {
                    source: why,
                },
                Ok(_) => if names_system_admin(data.roles@) {
                    r matches UpdateRolesAction::Fail(e) && refused_with(
                        Err::<(), Error>(e),
                        "Creating a system admin not allowed"@,
                    )
                } else {
                    r is Update
                },
            },
        },
{
    match event {
        UpdateRolesEvent::Start => match validation_outcome(data.validate()) {
            Ok(()) => UpdateRolesAction::CheckRoles(role_names_of(data.roles.as_str())),
            Err(e) => UpdateRolesAction::Fail(e),
        },
        UpdateRolesEvent::RolesChecked(checked) => match checked {
            Err(why) => UpdateRolesAction::Fail(Error::InvalidRoles { source: why }),
            Ok(()) => if roles_name_system_admin(data.roles.as_str()) {
                UpdateRolesAction::Fail(
                    Error::Validation { msg: "Creating a system admin not allowed".to_owned() },
                )
            } else {
                UpdateRolesAction::Update
            },
        },
    }
}

} // verus!
