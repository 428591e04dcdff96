use vstd::prelude::*;

use crate::validate::{check_length, failures_view, finish, length_failures, FieldError};

verus! {

/// A user as it is stored, with its password hash.
#[derive(Clone, Debug, PartialEq, Eq)]
pub struct User {
    pub id: String,
    pub client_id: String,
    pub username: String,
    pub password: String,
    pub status: String,
    pub roles: String,
    pub created_at: i64,
    pub updated_at: i64,
}

/// The data to create a user; `roles` is a comma-separated list of role names.
#[derive(Clone, Debug, PartialEq, Eq)]
pub struct NewUser {
    pub username: String,
    pub password: String,
    pub roles: String,
}

/// The data to change a user's status.
#[derive(Clone, Debug, PartialEq, Eq)]
pub struct UpdateUserStatus {
    pub status: String,
}

/// The data to change a user's roles, comma-separated.
#[derive(Clone, Debug, PartialEq, Eq)]
pub struct UpdateUserRoles {
    pub roles: String,
}

/// The data to set a user's password.
#[derive(Clone, Debug, PartialEq, Eq)]
pub struct UpdateUserPassword {
    pub password: String,
}

/// The data of a user changing their own password.
#[derive(Clone, Debug, PartialEq, Eq)]
pub struct ChangeCurrentPassword {
    pub current_password: String,
    pub new_password: String,
}

/// The length rules a new user breaks, in field order.
pub open spec fn new_user_failures(data: NewUser) -> Seq<(Seq<char>, Seq<char>)> {
    length_failures("username"@, data.username@, 1, 30) + length_failures(
        "password"@,
        data.password@,
        8,
        60,
    ) + length_failures("roles"@, data.roles@, 1, 100)
}

/// The length rule a change of roles breaks.
pub open spec fn update_user_roles_failures(data: UpdateUserRoles) -> Seq<(Seq<char>, Seq<char>)> {
    length_failures("roles"@, data.roles@, 1, 100)
}

/// The rules a status change breaks.
pub open spec fn update_user_status_failures(data: UpdateUserStatus) -> Seq<(Seq<char>, Seq<char>)> {
    length_failures("status"@, data.status@, 1, 10)
}

/// The rules a password change breaks.
pub open spec fn update_user_password_failures(data: UpdateUserPassword) -> Seq<
    (Seq<char>, Seq<char>),
> {
    length_failures("password"@, data.password@, 8, 60)
}

/// The rules a change of one's own password breaks, in field order.
pub open spec fn change_current_password_failures(data: ChangeCurrentPassword) -> Seq<
    (Seq<char>, Seq<char>),
> {
    length_failures("current_password"@, data.current_password@, 8, 60) + length_failures(
        "new_password"@,
        data.new_password@,
        8,
        60,
    )
}

impl NewUser {
    /// Checks the lengths of the fields: the username holds 1 to 30
    /// characters, the password 8 to 60 and the roles 1 to 100. The formats of
    /// the username and of the role list are not checked here.
    pub fn validate(&self) -> (r: Result<(), Vec<FieldError>>)
        ensures
            r is Ok <==> new_user_failures(*self).len() == 0,
            r matches Err(e) ==> failures_view(e@) == new_user_failures(*self),
    {
        let mut errs: Vec<FieldError> = Vec::new();
        check_length(&mut errs, "username", self.username.as_str(), 1, 30);
        check_length(&mut errs, "password", self.password.as_str(), 8, 60);
        check_length(&mut errs, "roles", self.roles.as_str(), 1, 100);
        assert(failures_view(errs@) =~= new_user_failures(*self));
        finish(errs)
    }
}

impl UpdateUserRoles {
    /// Checks the length of the role list (1 to 100 characters). Its format is
    /// not checked here.
    pub fn validate(&self) -> (r: Result<(), Vec<FieldError>>)
        ensures
            r is Ok <==> update_user_roles_failures(*self).len() == 0,
            r matches Err(e) ==> failures_view(e@) == update_user_roles_failures(*self),
    {
        let mut errs: Vec<FieldError> = Vec::new();
        check_length(&mut errs, "roles", self.roles.as_str(), 1, 100);
        assert(failures_view(errs@) =~= update_user_roles_failures(*self));
        finish(errs)
    }
}

impl UpdateUserStatus {
    /// Checks the status (1 to 10 characters).
    pub fn validate(&self) -> (r: Result<(), Vec<FieldError>>)
        ensures
            r is Ok <==> update_user_status_failures(*self).len() == 0,
            r matches Err(e) ==> failures_view(e@) == update_user_status_failures(*self),
    {
        let mut errs: Vec<FieldError> = Vec::new();
        check_length(&mut errs, "status", self.status.as_str(), 1, 10);
        assert(failures_view(errs@) =~= update_user_status_failures(*self));
        finish(errs)
    }
}

impl UpdateUserPassword {
    /// Checks the password (8 to 60 characters).
    pub fn validate(&self) -> (r: Result<(), Vec<FieldError>>)
        ensures
            r is Ok <==> update_user_password_failures(*self).len() == 0,
            r matches Err(e) ==> failures_view(e@) == update_user_password_failures(*self),
    {
        let mut errs: Vec<FieldError> = Vec::new();
        check_length(&mut errs, "password", self.password.as_str(), 8, 60);
        assert(failures_view(errs@) =~= update_user_password_failures(*self));
        finish(errs)
    }
}

impl ChangeCurrentPassword {
    /// Checks the current and the new password (8 to 60 characters each).
    pub fn validate(&self) -> (r: Result<(), Vec<FieldError>>)
        ensures
            r is Ok <==> change_current_password_failures(*self).len() == 0,
            r matches Err(e) ==> failures_view(e@) == change_current_password_failures(*self),
    {
        let mut errs: Vec<FieldError> = Vec::new();
        check_length(&mut errs, "current_password", self.current_password.as_str(), 8, 60);
        check_length(&mut errs, "new_password", self.new_password.as_str(), 8, 60);
        assert(failures_view(errs@) =~= change_current_password_failures(*self));
        finish(errs)
    }
}

/// The record of a new user: active, created and changed at `now`, holding
/// the password hash in place of the password.
pub fn new_user_record(id: String, client_id: &str, data: &NewUser, hashed: String, now: i64) -> (r: User)
    ensures
        r.id == id,
        r.client_id@ == client_id@,
        r.username@ == data.username@,
        r.password == hashed,
        r.status@ == "active"@,
        r.roles@ == data.roles@,
        r.created_at == now,
        r.updated_at == now,
{
    User {
        id,
        client_id: client_id.to_owned(),
        username: data.username.clone(),
        password: hashed,
        status: "active".to_owned(),
        roles: data.roles.clone(),
        created_at: now,
        updated_at: now,
    }
}


/// The rules of user data, by their bounds: usernames of 1 to 30 characters,
/// passwords of 8 to 60, role lists of 1 to 100 and statuses of 1 to 10.
pub proof fn lemma_user_rules(
    n: NewUser,
    r: UpdateUserRoles,
    s: UpdateUserStatus,
    p: UpdateUserPassword,
    c: ChangeCurrentPassword,
)
    ensures
        new_user_failures(n).len() == 0 <==> (1 <= n.username@.len() <= 30 && 8
            <= n.password@.len() <= 60 && 1 <= n.roles@.len() <= 100),
        update_user_roles_failures(r).len() == 0 <==> 1 <= r.roles@.len() <= 100,
        update_user_status_failures(s).len() == 0 <==> 1 <= s.status@.len() <= 10,
        update_user_password_failures(p).len() == 0 <==> 8 <= p.password@.len() <= 60,
        change_current_password_failures(c).len() == 0 <==> (8 <= c.current_password@.len() <= 60
            && 8 <= c.new_password@.len() <= 60),
{
}

} // verus!
