use vstd::prelude::*;

use crate::db_error;
use crate::sql::{
    integer_at, is_value_error, null_at, opt_row_text, row_integer, row_text, text_at, Row, SqlValue,
};
use crate::validate::{
    check_length, check_opt_length, failures_view, finish, length_failures, opt_length_failures,
    opt_view, FieldError,
};

verus! {

/// The most clients the service keeps.
pub const MAX_CLIENTS: i32 = 10;

/// A client as the service hands it out.
#[derive(Clone, Debug, PartialEq, Eq)]
pub struct ClientDto {
    pub id: String,
    pub name: String,
    pub default_bucket_id: Option<String>,
    pub status: String,
    pub admin: bool,
    pub created_at: i64,
}

/// A client as it is stored: `admin` is `Some(1)` for the admin client.
#[derive(Clone, Debug, PartialEq, Eq)]
pub struct Client {
    pub id: String,
    pub name: String,
    pub default_bucket_id: Option<String>,
    pub status: String,
    pub admin: Option<i32>,
    pub created_at: i64,
}

/// The data to create a client.
#[derive(Clone, Debug, PartialEq, Eq)]
pub struct NewClient {
    pub name: String,
    pub default_bucket_id: Option<String>,
    pub status: String,
}

/// The data to change a client; `default_bucket_id` is `Some(None)` to clear it.
#[derive(Clone, Debug, PartialEq, Eq)]
pub struct UpdateClient {
    pub name: Option<String>,
    pub default_bucket_id: Option<Option<String>>,
    pub status: Option<String>,
}

/// The data to set the default bucket of a client.
#[derive(Clone, Debug, PartialEq, Eq)]
pub struct ClientDefaultBucket {
    pub default_bucket_id: Option<String>,
}

/// The stored change of a client's default bucket; `None` clears it.
#[derive(Clone, Debug, PartialEq, Eq)]
pub struct UpdateClientBucket {
    pub default_bucket_id: Option<String>,
}

/// The stored form of a client.
pub open spec fn stored_client(dto: ClientDto) -> Client {
    Client {
        id: dto.id,
        name: dto.name,
        default_bucket_id: dto.default_bucket_id,
        status: dto.status,
        admin: if dto.admin {
            Some(1i32)
        } else {
            Some(0i32)
        },
        created_at: dto.created_at,
    }
}

/// The served form of a stored client.
pub open spec fn served_client(client: Client) -> ClientDto {
    ClientDto {
        id: client.id,
        name: client.name,
        default_bucket_id: client.default_bucket_id,
        status: client.status,
        admin: client.admin == Some(1i32),
        created_at: client.created_at,
    }
}

impl From<ClientDto> for Client {
    fn from(dto: ClientDto) -> (r: Client) {
        Client {
            id: dto.id,
            name: dto.name,
            default_bucket_id: dto.default_bucket_id,
            status: dto.status,
            admin: if dto.admin {
                Some(1)
            } else {
                Some(0)
            },
            created_at: dto.created_at,
        }
    }
}

impl vstd::std_specs::convert::FromSpecImpl<ClientDto> for Client {
    open spec fn obeys_from_spec() -> bool {
        true
    }

    open spec fn from_spec(dto: ClientDto) -> Client {
        stored_client(dto)
    }
}

impl From<Client> for ClientDto {
    fn from(client: Client) -> (r: ClientDto) {
        let admin = match client.admin {
            Some(1) => true,
            _ => false,
        };
        ClientDto {
            id: client.id,
            name: client.name,
            default_bucket_id: client.default_bucket_id,
            status: client.status,
            admin,
            created_at: client.created_at,
        }
    }
}

impl vstd::std_specs::convert::FromSpecImpl<Client> for ClientDto {
    open spec fn obeys_from_spec() -> bool {
        true
    }

    open spec fn from_spec(client: Client) -> ClientDto {
        served_client(client)
    }
}

/// Storing a client and reading it back gives the same client; a stored
/// client survives the trip the other way exactly when its flag is stored as
/// `Some(0)` or `Some(1)`.
pub proof fn lemma_client_round_trip(dto: ClientDto, client: Client)
    ensures
        served_client(stored_client(dto)) == dto,
        (stored_client(served_client(client)) == client) <==> (client.admin == Some(0i32)
            || client.admin == Some(1i32)),
{
}

/// The client that a result row holds, read from the columns at positions 0
/// (id), 1 (name), 4 (default bucket, nullable), 2 (status), 3 (admin flag)
/// and 6 (creation time).
pub open spec fn client_in_row(row: Row) -> Option<ClientDto> {
    let bucket_ok = null_at(row, 4) || text_at(row, 4) is Some;
    if text_at(row, 0) is Some && text_at(row, 1) is Some && bucket_ok && text_at(row, 2) is Some
        && integer_at(row, 3) is Some && integer_at(row, 6) is Some {
        Some(
            ClientDto {
                id: text_at(row, 0)->0,
                name: text_at(row, 1)->0,
                default_bucket_id: if null_at(row, 4) {
                    None
                } else {
                    text_at(row, 4)
                },
                status: text_at(row, 2)->0,
                admin: integer_at(row, 3)->0 == 1,
                created_at: integer_at(row, 6)->0,
            },
        )
    } else {
        None
    }
}

impl ClientDto {
    /// Reads a client from a result row.
    pub fn from_row(row: &Row) -> (r: Result<ClientDto, db_error::Error>)
        ensures
            match client_in_row(*row) {
                Some(c) => r == Ok::<ClientDto, db_error::Error>(c),
                None => r matches Err(e) && is_value_error(e),
            },
            r is Ok <==> ((*row).values@.len() >= 7 && (*row).values@[0] is Text && (*row).values@[1] is Text && (*row).values@[2] is Text && (*row).values@[3] is Integer && ((*row).values@[4] is Text || (*row).values@[4] is Null) && (*row).values@[6] is Integer),
            r matches Ok(v) ==> ((*row).values@[0] == SqlValue::Text(v.id) && (*row).values@[1] == SqlValue::Text(v.name) && (*row).values@[2] == SqlValue::Text(v.status) && v.admin == ((*row).values@[3] == SqlValue::Integer(1)) && (*row).values@[4] == (match v.default_bucket_id { Some(b) => SqlValue::Text(b), None => SqlValue::Null }) && (*row).values@[6] == SqlValue::Integer(v.created_at)),
    {
        let id = row_text(row, 0)?;
        let name = row_text(row, 1)?;
        let default_bucket_id = opt_row_text(row, 4)?;
        let status = row_text(row, 2)?;
        let admin = row_integer(row, 3)? == 1;
        let created_at = row_integer(row, 6)?;
        Ok(ClientDto { id, name, default_bucket_id, status, admin, created_at })
    }
}

/// The bucket id that a client change sets, when it sets one.
pub open spec fn set_bucket_view(value: Option<Option<String>>) -> Option<Seq<char>> {
    match value {
        Some(Some(b)) => Some(b@),
        _ => None,
    }
}

/// The length rules a new client breaks, in field order.
pub open spec fn new_client_failures(data: NewClient) -> Seq<(Seq<char>, Seq<char>)> {
    length_failures("name"@, data.name@, 1, 50) + opt_length_failures(
        "default_bucket_id"@,
        opt_view(data.default_bucket_id),
        1,
        50,
    ) + length_failures("status"@, data.status@, 1, 50)
}

/// The length rules a client change breaks, in field order.
pub open spec fn update_client_failures(data: UpdateClient) -> Seq<(Seq<char>, Seq<char>)> {
    opt_length_failures("name"@, opt_view(data.name), 1, 50) + opt_length_failures(
        "default_bucket_id"@,
        set_bucket_view(data.default_bucket_id),
        1,
        50,
    ) + opt_length_failures("status"@, opt_view(data.status), 1, 50)
}

impl NewClient {
    /// Checks the lengths of the fields: the name, the default bucket id when
    /// given, and the status each hold 1 to 50 characters. The formats of
    /// these fields are not checked here.
    pub fn validate(&self) -> (r: Result<(), Vec<FieldError>>)
        ensures
            r is Ok <==> new_client_failures(*self).len() == 0,
            r matches Err(e) ==> failures_view(e@) == new_client_failures(*self),
    {
        let mut errs: Vec<FieldError> = Vec::new();
        check_length(&mut errs, "name", self.name.as_str(), 1, 50);
        check_opt_length(&mut errs, "default_bucket_id", &self.default_bucket_id, 1, 50);
        check_length(&mut errs, "status", self.status.as_str(), 1, 50);
        assert(failures_view(errs@) =~= new_client_failures(*self));
        finish(errs)
    }
}

impl UpdateClient {
    /// Checks the lengths of the fields that are given: the name, the default
    /// bucket id being set, and the status each hold 1 to 50 characters. The
    /// formats of these fields are not checked here.
    pub fn validate(&self) -> (r: Result<(), Vec<FieldError>>)
        ensures
            r is Ok <==> update_client_failures(*self).len() == 0,
            r matches Err(e) ==> failures_view(e@) == update_client_failures(*self),
    {
        let mut errs: Vec<FieldError> = Vec::new();
        check_opt_length(&mut errs, "name", &self.name, 1, 50);
        match &self.default_bucket_id {
            Some(Some(b)) => check_length(&mut errs, "default_bucket_id", b.as_str(), 1, 50),
            _ => {},
        }
        check_opt_length(&mut errs, "status", &self.status, 1, 50);
        assert(failures_view(errs@) =~= update_client_failures(*self));
        finish(errs)
    }
}

/// A client is read from a row with texts in columns 0, 1 and 2, an integer in
/// column 3, a text or NULL in column 4 and an integer in column 6: id from
/// column 0, name from 1, status from 2, the admin flag from 3 (set exactly
/// when it holds 1), the default bucket from 4 (none for NULL) and the
/// creation time from 6.
pub proof fn lemma_client_row_columns(row: Row)
    ensures
        client_in_row(row) is Some <==> (row.values@.len() >= 7 && row.values@[0] is Text && row.values@[1] is Text && row.values@[2] is Text && row.values@[3] is Integer && (row.values@[4] is Text || row.values@[4] is Null) && row.values@[6] is Integer),
        client_in_row(row) matches Some(v) ==> (row.values@[0] == SqlValue::Text(v.id) && row.values@[1] == SqlValue::Text(v.name) && row.values@[2] == SqlValue::Text(v.status) && v.admin == (row.values@[3] == SqlValue::Integer(1)) && row.values@[4] == (match v.default_bucket_id { Some(b) => SqlValue::Text(b), None => SqlValue::Null }) && row.values@[6] == SqlValue::Integer(v.created_at)),
{
}


/// The length rules of client data: name and status of 1 to 50 characters, and
/// a default bucket id of 1 to 50 characters when one is given or set.
pub proof fn lemma_client_rules(n: NewClient, u: UpdateClient)
    ensures
        new_client_failures(n).len() == 0 <==> (1 <= n.name@.len() <= 50 && (match n.default_bucket_id { Some(v) => 1 <= v@.len() && v@.len() <= 50, None => true })
            && 1 <= n.status@.len() <= 50),
        update_client_failures(u).len() == 0 <==> ((match u.name { Some(v) => 1 <= v@.len() && v@.len() <= 50, None => true }) && (match u.default_bucket_id {
            Some(Some(b)) => 1 <= b@.len() <= 50,
            _ => true,
        }) && (match u.status { Some(v) => 1 <= v@.len() && v@.len() <= 50, None => true })),
{
}

} // verus!
