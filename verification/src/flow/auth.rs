use vstd::prelude::*;

use crate::client::ClientDto;
use crate::error::Error;
use crate::service::{
    check_active_client, check_login_user, check_password_match, check_stored_password,
    check_token_user, login_actor, refused_with, validation_message, validation_outcome,
    ActorPayload,
};
use crate::validate::{failures_view, FieldError};

verus! {

/// The parts of a user that signing in reads.
#[derive(Clone, Debug, PartialEq, Eq)]
pub struct UserRef {
    pub id: String,
    pub client_id: String,
    pub status: String,
}

/// What signing in learned last. Each event carries back what the action
/// that asked for it carried.
pub enum LoginEvent {
    /// Nothing yet.
    Start,
    /// The outcome of checking the credentials against their rules.
    CredentialsChecked(Result<(), Vec<FieldError>>),
    /// The user with the given name, if any.
    UserFound(Option<UserRef>),
    /// The client of the user, if it exists.
    ClientFound { user_id: String, client: Option<ClientDto> },
    /// The stored password hash of the user, if the user is still there.
    HashFound { user_id: String, client: ClientDto, hash: Option<String> },
    /// Whether the given password matches the hash.
    Checked { user_id: String, client: ClientDto, matched: bool },
}

/// What signing in does next.
#[derive(Debug)]
pub enum LoginAction {
    /// Check the credentials against their rules.
    CheckCredentials,
    /// Look up the user by the given name.
    FindUser,
    /// Look up the client `client_id` of the user `user_id`.
    GetClient { user_id: String, client_id: String },
    /// Read the stored password hash of the user.
    GetPassword { user_id: String, client: ClientDto },
    /// Compare the given password with the hash.
    Verify { user_id: String, client: ClientDto, hash: String },
    /// Issue a token for this actor.
    IssueToken(ActorPayload),
    /// Stop with this error.
    Fail(Error),
}

/// One step of signing in: the credentials must pass their rules, the user must exist and be active, its client must
/// exist and be active, its hash must still be there and the password must
/// match it; then a token is issued for the user, within its client, with the
/// client's default bucket and the `auth files` scope.
pub fn login_step(event: LoginEvent) -> (r: LoginAction)
    ensures
        match event {
            LoginEvent::Start => r is CheckCredentials,
            LoginEvent::CredentialsChecked(checked) => match checked {
                Ok(_) => r is FindUser,
                Err(errs) => r matches LoginAction::Fail(e) && refused_with(
                    Err::<(), Error>(e),
                    validation_message(failures_view(errs@)),
                ),
            },
            LoginEvent::UserFound(user) => match user {
                None => r matches LoginAction::Fail(e) && e is InvalidPassword,
                Some(u) => if u.status@ == "active"@ {
                    r matches LoginAction::GetClient { user_id, client_id } && user_id == u.id
                        && client_id == u.client_id
                } else {
                    r matches LoginAction::Fail(e) && e is InactiveUser
                },
            },
            LoginEvent::ClientFound { user_id, client } => match client {
                Some(c) => if c.status@ == "active"@ {
                    r == LoginAction::GetPassword { user_id, client: c }
                } else {
                    r matches LoginAction::Fail(e) && e is InvalidClient
                },
                None => r matches LoginAction::Fail(e) && e is InvalidClient,
            },
            LoginEvent::HashFound { user_id, client, hash } => match hash {
                Some(h) => r == LoginAction::Verify { user_id, client, hash: h },
                None => r matches LoginAction::Fail(e) && e matches Error::Whatever { msg } && msg@
                    == "Unable to re-query user."@,
            },
            LoginEvent::Checked { user_id, client, matched } => if matched {
                r matches LoginAction::IssueToken(a) && a.id == user_id && a.client_id == client.id
                    && a.default_bucket_id == client.default_bucket_id && a.scope@ == "auth files"@
            } else {
                r matches LoginAction::Fail(e) && e is InvalidPassword
            },
        },
{
    match event {
        LoginEvent::Start => LoginAction::CheckCredentials,
        LoginEvent::CredentialsChecked(checked) => match validation_outcome(checked) {
            Ok(()) => LoginAction::FindUser,
            Err(e) => LoginAction::Fail(e),
        },
        LoginEvent::UserFound(user) => match user {
            None => LoginAction::Fail(Error::InvalidPassword),
            Some(u) => match check_login_user(Some(u.status.as_str())) {
                Ok(()) => LoginAction::GetClient { user_id: u.id, client_id: u.client_id },
                Err(e) => LoginAction::Fail(e),
            },
        },
        LoginEvent::ClientFound { user_id, client } => match check_active_client(client) {
            Ok(c) => LoginAction::GetPassword { user_id, client: c },
            Err(e) => LoginAction::Fail(e),
        },
        LoginEvent::HashFound { user_id, client, hash } => match check_stored_password(hash) {
            Ok(h) => LoginAction::Verify { user_id, client, hash: h },
            Err(e) => LoginAction::Fail(e),
        },
        LoginEvent::Checked { user_id, client, matched } => match check_password_match(matched) {
            Ok(()) => LoginAction::IssueToken(login_actor(user_id, &client)),
            Err(e) => LoginAction::Fail(e),
        },
    }
}

/// What accepting a verified token learned last.
pub enum TokenEvent {
    /// The actor that the token names.
    Start(ActorPayload),
    /// The actor's client, if it exists.
    ClientFound { actor: ActorPayload, client: Option<ClientDto> },
    /// The client of the actor's user, if the user exists.
    UserFound { actor: ActorPayload, client_id: String, user_client_id: Option<String> },
}

/// What accepting a verified token does next.
#[derive(Debug)]
pub enum TokenAction {
    /// Look up the actor's client.
    GetClient(ActorPayload),
    /// Look up the actor's user, whose client must be `client_id`.
    GetUser { actor: ActorPayload, client_id: String },
    /// Accept the actor.
    Accept(ActorPayload),
    /// Stop with this error.
    Fail(Error),
}

/// One step of accepting a verified token: the actor's client must exist and
/// be active, and the actor's user must exist and belong to that client.
pub fn token_step(event: TokenEvent) -> (r: TokenAction)
    ensures
        match event {
            TokenEvent::Start(a) => r == TokenAction::GetClient(a),
            TokenEvent::ClientFound { actor, client } => match client {
                Some(c) => if c.status@ == "active"@ {
                    r == TokenAction::GetUser { actor, client_id: c.id }
                } else {
                    r matches TokenAction::Fail(e) && e is InvalidClient
                },
                None => r matches TokenAction::Fail(e) && e is InvalidClient,
            },
            TokenEvent::UserFound { actor, client_id, user_client_id } => match user_client_id {
                Some(u) => if u@ == client_id@ {
                    r == TokenAction::Accept(actor)
                } else {
                    r matches TokenAction::Fail(e) && e is UserNotFound
                },
                None => r matches TokenAction::Fail(e) && e is UserNotFound,
            },
        },
{
    match event {
        TokenEvent::Start(a) => TokenAction::GetClient(a),
        TokenEvent::ClientFound { actor, client } => match check_active_client(client) {
            Ok(c) => TokenAction::GetUser { actor, client_id: c.id },
            Err(e) => TokenAction::Fail(e),
        },
        TokenEvent::UserFound { actor, client_id, user_client_id } => {
            let res = match &user_client_id {
                Some(u) => check_token_user(Some(u.as_str()), client_id.as_str()),
                None => check_token_user(None, client_id.as_str()),
            };
            match res {
                Ok(()) => TokenAction::Accept(actor),
                Err(e) => TokenAction::Fail(e),
            }
        },
    }
}

} // verus!
