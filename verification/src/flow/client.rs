use vstd::prelude::*;

use crate::bucket::BucketDto;
use crate::client::{
    new_client_failures, update_client_failures, ClientDto, NewClient, UpdateClient, MAX_CLIENTS,
};
use crate::error::Error;
use crate::service::{
    check_client_capacity, check_client_deletable, check_client_has_no_buckets,
    check_client_has_no_users, check_client_name_free, check_client_rename, check_default_bucket,
    refused_with, validation_message, validation_outcome,
};

verus! {

/// What creating a client learned last.
pub enum CreateClientEvent {
    /// Nothing yet.
    Start,
    /// How many clients there are.
    Counted(i64),
    /// The client that has the new name, if any.
    Found(Option<ClientDto>),
}

/// What creating a client does next.
#[derive(Debug)]
pub enum CreateClientAction {
    /// Count the clients.
    CountClients,
    /// Look up a client by the new name.
    FindByName,
    /// Store the new client.
    Create,
    /// Stop with this error.
    Fail(Error),
}

/// One step of creating a client: the data must pass its rules, there must be
/// fewer clients than the limit, and the name must be unused.
pub fn create_client_step(data: &NewClient, event: CreateClientEvent) -> (r: CreateClientAction)
    ensures
        match event {
            CreateClientEvent::Start => if new_client_failures(*data).len() == 0 {
                r is CountClients
            } else {
                r matches CreateClientAction::Fail(e) && refused_with(
                    Err::<(), Error>(e),
                    validation_message(new_client_failures(*data)),
                )
            },
            CreateClientEvent::Counted(n) => if n < MAX_CLIENTS {
                r is FindByName
            } else {
                r matches CreateClientAction::Fail(e) && e is MaxClientsReached
            },
            CreateClientEvent::Found(existing) => if existing is None {
                r is Create
            } else {
                r matches CreateClientAction::Fail(e) && refused_with(
                    Err::<(), Error>(e),
                    "Client name already exists"@,
                )
            },
        },
{
    match event {
        CreateClientEvent::Start => match validation_outcome(data.validate()) {
            Ok(()) => CreateClientAction::CountClients,
            Err(e) => CreateClientAction::Fail(e),
        },
        CreateClientEvent::Counted(n) => match check_client_capacity(n) {
            Ok(()) => CreateClientAction::FindByName,
            Err(e) => CreateClientAction::Fail(e),
        },
        CreateClientEvent::Found(existing) => match check_client_name_free(&existing) {
            Ok(()) => CreateClientAction::Create,
            Err(e) => CreateClientAction::Fail(e),
        },
    }
}

/// What changing a client learned last.
pub enum UpdateClientEvent {
    /// Nothing yet.
    Start,
    /// The bucket that the change makes the default, if it exists.
    BucketFound(Option<BucketDto>),
    /// The client that has the new name, if any.
    NameFound(Option<ClientDto>),
}

/// What changing a client does next.
#[derive(Debug)]
pub enum UpdateClientAction {
    /// Look up the bucket with this id.
    GetBucket(String),
    /// Look up a client by this name.
    FindByName(String),
    /// Store the change.
    Update,
    /// Stop with this error.
    Fail(Error),
}

/// Whether an action looks up the name that a client change sets, or,
/// where it sets none, stores the change.
pub open spec fn name_check_or_update(data: UpdateClient, r: UpdateClientAction) -> bool {
    match data.name {
        Some(n) => r matches UpdateClientAction::FindByName(m) && m@ == n@,
        None => r is Update,
    }
}

/// One step of changing a client: the data must pass its rules; a default
/// bucket being set must exist; a name being set must not belong to another
/// client. A change that clears the default bucket needs no lookup.
pub fn update_client_step(id: &str, data: &UpdateClient, event: UpdateClientEvent) -> (r:
    UpdateClientAction)
    ensures
        match event {
            UpdateClientEvent::Start => if update_client_failures(*data).len() != 0 {
                r matches UpdateClientAction::Fail(e) && refused_with(
                    Err::<(), Error>(e),
                    validation_message(update_client_failures(*data)),
                )
            } else {
                match data.default_bucket_id {
                    Some(Some(b)) => r matches UpdateClientAction::GetBucket(c) && c@ == b@,
                    _ => name_check_or_update(*data, r),
                }
            },
            UpdateClientEvent::BucketFound(found) => if found is None {
                r matches UpdateClientAction::Fail(e) && refused_with(
                    Err::<(), Error>(e),
                    "Default bucket not found"@,
                )
            } else {
                name_check_or_update(*data, r)
            },
            UpdateClientEvent::NameFound(existing) => match existing {
                Some(c) => if c.id@ == id@ {
                    r is Update
                } else {
                    r matches UpdateClientAction::Fail(e) && refused_with(
                        Err::<(), Error>(e),
                        "Client name already exists"@,
                    )
                },
                None => r is Update,
            },
        },
{
    match event {
        UpdateClientEvent::Start => {
            if let Err(e) = validation_outcome(data.validate()) {
                return UpdateClientAction::Fail(e);
            }
            match &data.default_bucket_id {
                Some(Some(b)) => UpdateClientAction::GetBucket(b.clone()),
                _ => name_check_or_update_action(data),
            }
        },
        UpdateClientEvent::BucketFound(found) => match check_default_bucket(&found) {
            Ok(()) => name_check_or_update_action(data),
            Err(e) => UpdateClientAction::Fail(e),
        },
        UpdateClientEvent::NameFound(existing) => match check_client_rename(id, &existing) {
            Ok(()) => UpdateClientAction::Update,
            Err(e) => UpdateClientAction::Fail(e),
        },
    }
}

/// Looks up the name a change sets, or stores a change that sets none.
fn name_check_or_update_action(data: &UpdateClient) -> (r: UpdateClientAction)
    ensures
        name_check_or_update(*data, r),
{
    match &data.name {
        Some(n) => UpdateClientAction::FindByName(n.clone()),
        None => UpdateClientAction::Update,
    }
}

/// What deleting a client learned last.
pub enum DeleteClientEvent {
    /// Nothing yet.
    Start,
    /// The client, if it exists.
    Found(Option<ClientDto>),
    /// How many buckets the client owns.
    BucketsCounted(i64),
    /// How many users the client has.
    UsersCounted(i64),
}

/// What deleting a client does next.
#[derive(Debug)]
pub enum DeleteClientAction {
    /// Look up the client.
    GetClient,
    /// Count the buckets of the client.
    CountBuckets,
    /// Count the users of the client.
    CountUsers,
    /// Remove the client.
    Delete,
    /// Stop with this error.
    Fail(Error),
}

/// One step of deleting a client: it must exist, must not be the admin
/// client, and must own no bucket and have no user.
pub fn delete_client_step(event: DeleteClientEvent) -> (r: DeleteClientAction)
    ensures
        match event {
            DeleteClientEvent::Start => r is GetClient,
            DeleteClientEvent::Found(client) => match client {
                None => r matches DeleteClientAction::Fail(e) && refused_with(
                    Err::<(), Error>(e),
                    "Client not found"@,
                ),
                Some(c) => if c.admin {
                    r matches DeleteClientAction::Fail(e) && refused_with(
                        Err::<(), Error>(e),
                        "Cannot delete admin client"@,
                    )
                } else {
                    r is CountBuckets
                },
            },
            DeleteClientEvent::BucketsCounted(n) => if n == 0 {
                r is CountUsers
            } else {
                r matches DeleteClientAction::Fail(e) && refused_with(
                    Err::<(), Error>(e),
                    "Client still has buckets"@,
                )
            },
            DeleteClientEvent::UsersCounted(n) => if n == 0 {
                r is Delete
            } else {
                r matches DeleteClientAction::Fail(e) && refused_with(
                    Err::<(), Error>(e),
                    "Client still has users"@,
                )
            },
        },
{
    match event {
        DeleteClientEvent::Start => DeleteClientAction::GetClient,
        DeleteClientEvent::Found(client) => match check_client_deletable(&client) {
            Ok(()) => DeleteClientAction::CountBuckets,
            Err(e) => DeleteClientAction::Fail(e),
        },
        DeleteClientEvent::BucketsCounted(n) => match check_client_has_no_buckets(n) {
            Ok(()) => DeleteClientAction::CountUsers,
            Err(e) => DeleteClientAction::Fail(e),
        },
        DeleteClientEvent::UsersCounted(n) => match check_client_has_no_users(n) {
            Ok(()) => DeleteClientAction::Delete,
            Err(e) => DeleteClientAction::Fail(e),
        },
    }
}

} // verus!
