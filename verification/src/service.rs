use vstd::prelude::*;

use crate::bucket::{update_bucket_failures, BucketDto, UpdateBucket};
use crate::client::{ClientDto, MAX_CLIENTS};
use crate::dir::{
    dir_type_named, new_dir_failures, update_dir_failures, DirDto, DirType, NewDir, UpdateDir,
    MAX_DIRS,
};
use crate::error::Error;
use crate::file::FilePayload;
use crate::text::{
    concat2, join_with, lemma_replace_absent, occurs_at, occurs_in, replace, replace_all,
    starts_with, str_eq,
};
use vstd::string::*;
use crate::validate::{failure_text, flatten_errors, FieldError};

verus! {

/// The most users a client may have.
pub const MAX_USERS_PER_CLIENT: i32 = 50;

/// The message of a failed validation.
pub open spec fn validation_message(fails: Seq<(Seq<char>, Seq<char>)>) -> Seq<char> {
    join_with(fails.map_values(|f: (Seq<char>, Seq<char>)| failure_text(f)), ", "@)
}

/// The service's answer to a validation outcome.
pub fn validation_outcome(res: Result<(), Vec<FieldError>>) -> (r: Result<(), Error>)
    ensures
        match res {
            Ok(_) => r is Ok,
            Err(errs) => r matches Err(e) && e matches Error::Validation { msg } && msg@
                == validation_message(crate::validate::failures_view(errs@)),
        },
{
    match res {
        Ok(()) => Ok(()),
        Err(errs) => Err(Error::Validation { msg: flatten_errors(&errs) }),
    }
}

/// A validation error with a fixed message.
fn refuse(msg: &str) -> (r: Error)
    ensures
        r matches Error::Validation { msg: m } && m@ == msg@,
{
    Error::Validation { msg: msg.to_owned() }
}

/// Whether a result is a validation error with the given message.
pub open spec fn refused_with<T>(r: Result<T, Error>, msg: Seq<char>) -> bool {
    r matches Err(e) && e matches Error::Validation { msg: m } && m@ == msg
}

/// Checks a new directory before anything is looked up.
pub fn check_new_dir(data: &NewDir) -> (r: Result<(), Error>)
    ensures
        r is Ok <==> new_dir_failures(*data).len() == 0,
        r is Err ==> refused_with(r, validation_message(new_dir_failures(*data))),
{
    validation_outcome(data.validate())
}

/// Checks a directory change.
pub fn check_update_dir(data: &UpdateDir) -> (r: Result<(), Error>)
    ensures
        r is Ok <==> update_dir_failures(*data).len() == 0,
        r is Err ==> refused_with(r, validation_message(update_dir_failures(*data))),
{
    validation_outcome(data.validate())
}

/// Checks a bucket change.
pub fn check_update_bucket(data: &UpdateBucket) -> (r: Result<(), Error>)
    ensures
        r is Ok <==> update_bucket_failures(*data).len() == 0,
        r is Err ==> refused_with(r, validation_message(update_bucket_failures(*data))),
{
    validation_outcome(data.validate())
}

/// A bucket may receive another directory while it holds fewer than the limit.
pub fn check_dir_capacity(count: i64) -> (r: Result<(), Error>)
    ensures
        r is Ok <==> count < MAX_DIRS,
        r is Err ==> (r matches Err(e) && e is MaxDirsReached),
{
    if count < MAX_DIRS as i64 {
        Ok(())
    } else {
        Err(Error::MaxDirsReached)
    }
}

/// A directory name must be unused within its bucket.
pub fn check_dir_name_free(existing: &Option<DirDto>) -> (r: Result<(), Error>)
    ensures
        r is Ok <==> existing is None,
        r is Err ==> refused_with(r, "Directory name already exists"@),
{
    match existing {
        None => Ok(()),
        Some(_) => Err(refuse("Directory name already exists")),
    }
}

/// A directory may be removed only once it holds no file.
pub fn check_dir_empty(file_count: i64) -> (r: Result<(), Error>)
    ensures
        r is Ok <==> file_count == 0,
        r is Err ==> refused_with(r, "Cannot delete directory with files inside"@),
{
    if file_count == 0 {
        Ok(())
    } else {
        Err(refuse("Cannot delete directory with files inside"))
    }
}

/// Another client may be created while there are fewer than the limit.
pub fn check_client_capacity(count: i64) -> (r: Result<(), Error>)
    ensures
        r is Ok <==> count < MAX_CLIENTS,
        r is Err ==> (r matches Err(e) && e is MaxClientsReached),
{
    if count < MAX_CLIENTS as i64 {
        Ok(())
    } else {
        Err(Error::MaxClientsReached)
    }
}

/// A new client's name must be unused.
pub fn check_client_name_free(existing: &Option<ClientDto>) -> (r: Result<(), Error>)
    ensures
        r is Ok <==> existing is None,
        r is Err ==> refused_with(r, "Client name already exists"@),
{
    match existing {
        None => Ok(()),
        Some(_) => Err(refuse("Client name already exists")),
    }
}

/// A client may take a name that no other client uses.
pub fn check_client_rename(id: &str, existing: &Option<ClientDto>) -> (r: Result<(), Error>)
    ensures
        r is Ok <==> (match existing {
            Some(c) => c.id@ == id@,
            None => true,
        }),
        r is Err ==> refused_with(r, "Client name already exists"@),
{
    match existing {
        None => Ok(()),
        Some(c) => if str_eq(c.id.as_str(), id) {
            Ok(())
        } else {
            Err(refuse("Client name already exists"))
        },
    }
}

/// A client's default bucket must exist.
pub fn check_default_bucket(found: &Option<BucketDto>) -> (r: Result<(), Error>)
    ensures
        r is Ok <==> found is Some,
        r is Err ==> refused_with(r, "Default bucket not found"@),
{
    match found {
        Some(_) => Ok(()),
        None => Err(refuse("Default bucket not found")),
    }
}

/// A client may be removed when it exists and is not the admin client.
pub fn check_client_deletable(client: &Option<ClientDto>) -> (r: Result<(), Error>)
    ensures
        match client {
            None => refused_with(r, "Client not found"@),
            Some(c) => if c.admin {
                refused_with(r, "Cannot delete admin client"@)
            } else {
                r is Ok
            },
        },
{
    match client {
        None => Err(refuse("Client not found")),
        Some(c) => if c.admin {
            Err(refuse("Cannot delete admin client"))
        } else {
            Ok(())
        },
    }
}

/// A client may be removed only once it owns no bucket.
pub fn check_client_has_no_buckets(bucket_count: i64) -> (r: Result<(), Error>)
    ensures
        r is Ok <==> bucket_count == 0,
        r is Err ==> refused_with(r, "Client still has buckets"@),
{
    if bucket_count == 0 {
        Ok(())
    } else {
        Err(refuse("Client still has buckets"))
    }
}

/// A client may be removed only once it has no user.
pub fn check_client_has_no_users(users_count: i64) -> (r: Result<(), Error>)
    ensures
        r is Ok <==> users_count == 0,
        r is Err ==> refused_with(r, "Client still has users"@),
{
    if users_count == 0 {
        Ok(())
    } else {
        Err(refuse("Client still has users"))
    }
}

/// A client may receive another user while it has fewer than the limit.
pub fn check_user_capacity(count: i64) -> (r: Result<(), Error>)
    ensures
        r is Ok <==> count < MAX_USERS_PER_CLIENT,
        r is Err ==> (r matches Err(e) && e is MaxUsersReached),
{
    if count < MAX_USERS_PER_CLIENT as i64 {
        Ok(())
    } else {
        Err(Error::MaxUsersReached)
    }
}

/// A new user's name must be unused.
pub fn check_username_free(exists: bool) -> (r: Result<(), Error>)
    ensures
        r is Ok <==> !exists,
        r is Err ==> refused_with(r, "Username already exists"@),
{
    if exists {
        Err(refuse("Username already exists"))
    } else {
        Ok(())
    }
}

/// A user's status is either `active` or `inactive`.
pub fn check_user_status(status: &str) -> (r: Result<(), Error>)
    ensures
        r is Ok <==> (status@ == "active"@ || status@ == "inactive"@),
        r is Err ==> refused_with(r, "User status must be active or inactive"@),
{
    if str_eq(status, "active") || str_eq(status, "inactive") {
        Ok(())
    } else {
        Err(refuse("User status must be active or inactive"))
    }
}

/// The token of an authorization header: the header must start with
/// `Bearer `, and every occurrence of `Bearer ` is removed from it.
pub fn bearer_token(header: &str) -> (r: Result<String, Error>)
    ensures
        occurs_at(header@, "Bearer "@, 0) ==> (r matches Ok(t) && t@ == replace_all(
            header@,
            "Bearer "@,
            ""@,
        )),
        !occurs_at(header@, "Bearer "@, 0) ==> (r matches Err(e) && e is InvalidAuthToken),
{
    if !starts_with(header, "Bearer ") {
        return Err(Error::InvalidAuthToken);
    }
    Ok(replace(header, "Bearer ", ""))
}

/// A header made of `Bearer ` and a token gives the token back, for a token
/// that does not itself hold `Bearer `.
pub proof fn lemma_bearer_token_round_trip(token: Seq<char>)
    requires
        !occurs_in(token, "Bearer "@),
    ensures
        occurs_at("Bearer "@ + token, "Bearer "@, 0),
        replace_all("Bearer "@ + token, "Bearer "@, ""@) == token,
{
    reveal_strlit("Bearer ");
    reveal_strlit("");
    let h = "Bearer "@ + token;
    assert(h.subrange(0, 7) =~= "Bearer "@);
    assert(h.skip(7) =~= token);
    lemma_replace_absent(token, "Bearer "@, ""@);
    assert(""@ + token =~= token);
}

/// The token that a request's authorization header carries: none without a
/// header, which leaves the request anonymous; a header must hold a bearer
/// token.
pub fn auth_header_token(header: Option<&str>) -> (r: Result<Option<String>, Error>)
    ensures
        match header {
            None => r == Ok::<Option<String>, Error>(None),
            Some(h) => if occurs_at(h@, "Bearer "@, 0) {
                r matches Ok(Some(t)) && t@ == replace_all(h@, "Bearer "@, ""@)
            } else {
                r matches Err(e) && e is InvalidAuthToken
            },
        },
{
    match header {
        None => Ok(None),
        Some(h) => match bearer_token(h) {
            Ok(t) => Ok(Some(t)),
            Err(e) => Err(e),
        },
    }
}

/// A request needs the permissions its route asks for; `allowed` says whether
/// the actor holds them.
pub fn check_permissions(allowed: bool) -> (r: Result<(), Error>)
    ensures
        r is Ok <==> allowed,
        !allowed ==> (r matches Err(e) && e matches Error::Forbidden { msg } && msg@
            == "Insufficient permissions"@),
{
    if allowed {
        Ok(())
    } else {
        Err(Error::Forbidden { msg: "Insufficient permissions".to_owned() })
    }
}

/// A protected route needs an actor signed in with the service's scope;
/// `has_scope` says whether the actor is.
pub fn check_auth_scope(has_scope: bool) -> (r: Result<(), Error>)
    ensures
        r is Ok <==> has_scope,
        !has_scope ==> (r matches Err(e) && e is InsufficientAuthScope),
{
    if has_scope {
        Ok(())
    } else {
        Err(Error::InsufficientAuthScope)
    }
}

/// The file a request addresses must exist and lie in the addressed
/// directory, else it is not found. `file_dir_id` is the directory of the
/// file found, if any.
pub fn check_file_in_dir(file_dir_id: Option<&str>, dir_id: &str) -> (r: Result<(), Error>)
    ensures
        r is Ok <==> (match file_dir_id {
            Some(d) => d@ == dir_id@,
            None => false,
        }),
        r is Err ==> (r matches Err(e) && e matches Error::NotFound { msg } && msg@
            == "File not found"@),
{
    match file_dir_id {
        Some(d) => if str_eq(d, dir_id) {
            Ok(())
        } else {
            Err(Error::NotFound { msg: "File not found".to_owned() })
        },
        None => Err(Error::NotFound { msg: "File not found".to_owned() }),
    }
}

/// The body of a request as it was read: a body that could not be read as
/// the expected data is refused, its reason kept.
pub fn check_json_payload<T>(payload: Result<T, String>) -> (r: Result<T, Error>)
    ensures
        match payload {
            Ok(v) => r == Ok::<T, Error>(v),
            Err(why) => r matches Err(e) && e matches Error::JsonRejection { msg, source } && msg@
                == "Invalid request payload"@ && source == why,
        },
{
    match payload {
        Ok(v) => Ok(v),
        Err(why) => Err(
            Error::JsonRejection { msg: "Invalid request payload".to_owned(), source: why },
        ),
    }
}

/// An upload must carry a file field.
pub fn require_upload(payload: Option<FilePayload>) -> (r: Result<FilePayload, Error>)
    ensures
        match payload {
            Some(p) => r == Ok::<FilePayload, Error>(p),
            None => r matches Err(e) && e matches Error::MissingUploadFile { msg } && msg@
                == "Missing upload file"@,
        },
{
    match payload {
        Some(p) => Ok(p),
        None => Err(Error::MissingUploadFile { msg: "Missing upload file".to_owned() }),
    }
}

/// A directory read back after a change must be there.
pub fn require_dir_after_update(dir: Option<DirDto>) -> (r: Result<DirDto, Error>)
    ensures
        match dir {
            Some(d) => r == Ok::<DirDto, Error>(d),
            None => r matches Err(e) && e matches Error::Whatever { msg } && msg@
                == "Error getting directory"@,
        },
{
    match dir {
        Some(d) => Ok(d),
        None => Err(Error::Whatever { msg: "Error getting directory".to_owned() }),
    }
}

/// The directory kind a path names; a bad request otherwise.
pub fn check_dir_type_param(dir_type: &str) -> (r: Result<DirType, Error>)
    ensures
        match dir_type_named(dir_type@) {
            Some(t) => r == Ok::<DirType, Error>(t),
            None => r matches Err(e) && e matches Error::BadRequest { msg } && msg@
                == "Invalid dir type: "@ + dir_type@,
        },
{
    match DirType::try_from(dir_type) {
        Ok(t) => Ok(t),
        Err(_) => Err(Error::BadRequest { msg: concat2("Invalid dir type: ", dir_type) }),
    }
}

/// The directory a request addresses: it must exist and belong to the
/// addressed bucket, else it is not found.
pub fn check_dir_in_bucket(dir: Option<DirDto>, bucket_id: &str) -> (r: Result<DirDto, Error>)
    ensures
        match dir {
            Some(d) => if d.bucket_id@ == bucket_id@ {
                r == Ok::<DirDto, Error>(d)
            } else {
                r matches Err(e) && e matches Error::NotFound { msg } && msg@ == "Directory not found"@
            },
            None => r matches Err(e) && e matches Error::NotFound { msg } && msg@ == "Directory not found"@,
        },
{
    match dir {
        Some(d) => if str_eq(d.bucket_id.as_str(), bucket_id) {
            Ok(d)
        } else {
            Err(Error::NotFound { msg: "Directory not found".to_owned() })
        },
        None => Err(Error::NotFound { msg: "Directory not found".to_owned() }),
    }
}

/// The bucket that a change answers with: when the change went through and
/// set a label, the bucket with that label; otherwise the bucket as it was.
pub fn bucket_after_update(bucket: BucketDto, data: &UpdateBucket, updated: bool) -> (r: BucketDto)
    ensures
        (updated && data.label is Some) ==> r == (BucketDto { label: data.label->0, ..bucket }),
        !(updated && data.label is Some) ==> r == bucket,
{
    if updated {
        let mut b = bucket;
        if let Some(label) = &data.label {
            b.label = label.clone();
        }
        b
    } else {
        bucket
    }
}

} // verus!

verus! {

/// Who a successful login acts as, and within which scope.
#[derive(Clone, Debug, PartialEq, Eq)]
pub struct ActorPayload {
    pub id: String,
    pub client_id: String,
    pub default_bucket_id: Option<String>,
    pub scope: String,
}

/// A login needs a user, and an active one. `user_status` is the status of
/// the user found under the given name, if any.
pub fn check_login_user(user_status: Option<&str>) -> (r: Result<(), Error>)
    ensures
        match user_status {
            None => r matches Err(e) && e is InvalidPassword,
            Some(s) => if s@ == "active"@ {
                r is Ok
            } else {
                r matches Err(e) && e is InactiveUser
            },
        },
{
    match user_status {
        None => Err(Error::InvalidPassword),
        Some(s) => if str_eq(s, "active") {
            Ok(())
        } else {
            Err(Error::InactiveUser)
        },
    }
}

/// A login or a token needs the user's client to exist and be active.
pub fn check_active_client(client: Option<ClientDto>) -> (r: Result<ClientDto, Error>)
    ensures
        match client {
            Some(c) => if c.status@ == "active"@ {
                r == Ok::<ClientDto, Error>(c)
            } else {
                r matches Err(e) && e is InvalidClient
            },
            None => r matches Err(e) && e is InvalidClient,
        },
{
    match client {
        Some(c) => if str_eq(c.status.as_str(), "active") {
            Ok(c)
        } else {
            Err(Error::InvalidClient)
        },
        None => Err(Error::InvalidClient),
    }
}

/// The stored password hash of a user found a moment before must still be there.
pub fn check_stored_password(hash: Option<String>) -> (r: Result<String, Error>)
    ensures
        match hash {
            Some(h) => r == Ok::<String, Error>(h),
            None => r matches Err(e) && e matches Error::Whatever { msg } && msg@
                == "Unable to re-query user."@,
        },
{
    match hash {
        Some(h) => Ok(h),
        None => Err(Error::Whatever { msg: "Unable to re-query user.".to_owned() }),
    }
}

/// A login fails when the password does not match the stored hash.
pub fn check_password_match(matched: bool) -> (r: Result<(), Error>)
    ensures
        r is Ok <==> matched,
        !matched ==> (r matches Err(e) && e is InvalidPassword),
{
    if matched {
        Ok(())
    } else {
        Err(Error::InvalidPassword)
    }
}

/// Who a successful login acts as: the user, within its client, with the
/// client's default bucket and the `auth files` scope.
pub fn login_actor(user_id: String, client: &ClientDto) -> (r: ActorPayload)
    ensures
        r.id == user_id,
        r.client_id == client.id,
        r.default_bucket_id == client.default_bucket_id,
        r.scope@ == "auth files"@,
{
    ActorPayload {
        id: user_id,
        client_id: client.id.clone(),
        default_bucket_id: client.default_bucket_id.clone(),
        scope: "auth files".to_owned(),
    }
}

/// A token's user must exist and belong to the token's client.
/// `user_client_id` is the client of the user the token names, if found.
pub fn check_token_user(user_client_id: Option<&str>, client_id: &str) -> (r: Result<(), Error>)
    ensures
        match user_client_id {
            Some(u) => if u@ == client_id@ {
                r is Ok
            } else {
                r matches Err(e) && e is UserNotFound
            },
            None => r matches Err(e) && e is UserNotFound,
        },
{
    match user_client_id {
        Some(u) => if str_eq(u, client_id) {
            Ok(())
        } else {
            Err(Error::UserNotFound)
        },
        None => Err(Error::UserNotFound),
    }
}

} // verus!
