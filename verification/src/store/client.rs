use vstd::prelude::*;

use crate::sql::{
    int_pv, integer_param, new_query_params, opt_int_pv, opt_integer_param, opt_text_param,
    opt_text_pv, text_param, text_pv, SqlValueView, Statement,
};

use crate::client::{ClientDto, NewClient, UpdateClient};
use crate::text::{
    join_strs, join_with, lemma_join_ends_with, lemma_join_holds, lemma_join_starts_with,
    lemma_occurs_in_context, occurs_in,
};
use crate::validate::opt_view;
use vstd::string::*;

verus! {

/// The text of the admin client lookup.
pub const CLIENT_FIND_ADMIN_SQL: &'static str = "\n            SELECT\n                id,\n                name,\n                default_bucket_id,\n                status,\n                admin,\n                created_at\n            FROM clients\n            WHERE admin = 1\n            LIMIT 1\n        ";

/// Finds the admin client.
pub fn client_find_admin_query() -> (r: Statement)
    ensures
        r@ == (CLIENT_FIND_ADMIN_SQL@, Seq::<(Seq<char>, SqlValueView)>::empty()),
{
    let mut params = new_query_params();
    let r = Statement { sql: CLIENT_FIND_ADMIN_SQL.to_owned(), params };
    assert(r@.1 =~= Seq::<(Seq<char>, SqlValueView)>::empty());
    r
}

/// The text of a client insertion.
pub const CLIENT_CREATE_SQL: &'static str = "\n            INSERT INTO clients\n            (\n                id,\n                name,\n                default_bucket_id,\n                status,\n                admin,\n                created_at,\n            )\n            VALUES\n            (\n                :id,\n                :name,\n                :default_bucket_id,\n                :status,\n                :admin,\n                :created_at,\n            )\n        ";

/// Inserts a new client with id `id`, created at `today`, flagged admin or not.
pub fn client_create_query(id: &str, data: &NewClient, admin: bool, today: i64) -> (r: Statement)
    ensures
        r@ == (CLIENT_CREATE_SQL@, seq![text_pv(":id"@, id@), text_pv(":name"@, data.name@), opt_text_pv(":default_bucket_id"@, opt_view(data.default_bucket_id)), text_pv(":status"@, data.status@), opt_int_pv(":admin"@, if admin { Some(1i64) } else { Some(0i64) }), int_pv(":created_at"@, today)]),
{
    let mut params = new_query_params();
    params.push(text_param(":id", id.to_owned()));
    params.push(text_param(":name", data.name.clone()));
    params.push(opt_text_param(":default_bucket_id", data.default_bucket_id.clone()));
    params.push(text_param(":status", data.status.clone()));
    params.push(opt_integer_param(":admin", if admin { Some(1) } else { Some(0) }));
    params.push(integer_param(":created_at", today));
    let r = Statement { sql: CLIENT_CREATE_SQL.to_owned(), params };
    assert(r@.1 =~= seq![text_pv(":id"@, id@), text_pv(":name"@, data.name@), opt_text_pv(":default_bucket_id"@, opt_view(data.default_bucket_id)), text_pv(":status"@, data.status@), opt_int_pv(":admin"@, if admin { Some(1i64) } else { Some(0i64) }), int_pv(":created_at"@, today)]);
    r
}

/// The client that an insertion stores, created at `today`.
pub fn client_created(id: String, data: NewClient, admin: bool, today: i64) -> (r: ClientDto)
    ensures
        r.id == id,
        r.name == data.name,
        r.default_bucket_id == data.default_bucket_id,
        r.status == data.status,
        r.admin == admin,
        r.created_at == today,
{
    ClientDto {
        id,
        name: data.name,
        default_bucket_id: data.default_bucket_id,
        status: data.status,
        admin,
        created_at: today,
    }
}

/// The text of a client lookup by id.
pub const CLIENT_GET_SQL: &'static str = "\n            SELECT\n                id,\n                name,\n                default_bucket_id,\n                status,\n                admin,\n                created_at\n            FROM clients\n            WHERE id = :id\n            LIMIT 1\n        ";

/// Finds a client by id.
pub fn client_get_query(id: &str) -> (r: Statement)
    ensures
        r@ == (CLIENT_GET_SQL@, seq![text_pv(":id"@, id@)]),
{
    let mut params = new_query_params();
    params.push(text_param(":id", id.to_owned()));
    let r = Statement { sql: CLIENT_GET_SQL.to_owned(), params };
    assert(r@.1 =~= seq![text_pv(":id"@, id@)]);
    r
}

/// The text of a client lookup by name.
pub const CLIENT_FIND_BY_NAME_SQL: &'static str = "\n            SELECT\n                id,\n                name,\n                default_bucket_id,\n                status,\n                admin,\n                created_at\n            FROM clients\n            WHERE name = :name\n            LIMIT 1\n        ";

/// Finds a client by name.
pub fn client_find_by_name_query(name: &str) -> (r: Statement)
    ensures
        r@ == (CLIENT_FIND_BY_NAME_SQL@, seq![text_pv(":name"@, name@)]),
{
    let mut params = new_query_params();
    params.push(text_param(":name", name.to_owned()));
    let r = Statement { sql: CLIENT_FIND_BY_NAME_SQL.to_owned(), params };
    assert(r@.1 =~= seq![text_pv(":name"@, name@)]);
    r
}

/// The text of the client count.
pub const CLIENT_COUNT_SQL: &'static str = "\n            SELECT COUNT(*) AS total_count\n            FROM clients\n        ";

/// Counts all clients.
pub fn client_count_query() -> (r: Statement)
    ensures
        r@ == (CLIENT_COUNT_SQL@, Seq::<(Seq<char>, SqlValueView)>::empty()),
{
    let mut params = new_query_params();
    let r = Statement { sql: CLIENT_COUNT_SQL.to_owned(), params };
    assert(r@.1 =~= Seq::<(Seq<char>, SqlValueView)>::empty());
    r
}

/// The text of a client removal.
pub const CLIENT_DELETE_SQL: &'static str = "DELETE clients WHERE id = :id";

/// Removes a client.
pub fn client_delete_query(id: &str) -> (r: Statement)
    ensures
        r@ == (CLIENT_DELETE_SQL@, seq![text_pv(":id"@, id@)]),
{
    let mut params = new_query_params();
    params.push(text_param(":id", id.to_owned()));
    let r = Statement { sql: CLIENT_DELETE_SQL.to_owned(), params };
    assert(r@.1 =~= seq![text_pv(":id"@, id@)]);
    r
}
/// The text of the client listing, before any id filter.
pub const CLIENT_LIST_SQL: &'static str = "\n            SELECT\n                id,\n                name,\n                default_bucket_id,\n                status,\n                admin,\n                created_at\n            FROM clients\n        ";

/// The filter that restricts the client listing to one id.
pub const CLIENT_ID_FILTER_SQL: &'static str = " WHERE id = :id";

/// Lists all clients, or only the one with the given id. The id is bound to
/// the parameter named `id`.
pub fn client_list_query(client_id: Option<String>) -> (r: Statement)
    ensures
        r@ == match client_id {
            Some(cid) => (CLIENT_LIST_SQL@ + CLIENT_ID_FILTER_SQL@, seq![text_pv("id"@, cid@)]),
            None => (CLIENT_LIST_SQL@, Seq::<(Seq<char>, SqlValueView)>::empty()),
        },
{
    let mut sql = CLIENT_LIST_SQL.to_owned();
    let mut params = new_query_params();
    match client_id {
        Some(cid) => {
            sql.append(CLIENT_ID_FILTER_SQL);
            params.push(text_param("id", cid));
        },
        None => {},
    }
    let r = Statement { sql, params };
    assert(r@.1 =~= match client_id {
        Some(cid) => seq![text_pv("id"@, cid@)],
        None => Seq::<(Seq<char>, SqlValueView)>::empty(),
    });
    r
}

/// The statement head of a client change.
pub const CLIENT_UPDATE_SQL: &'static str = "UPDATE clients SET ";

/// The filter of a client change.
pub const CLIENT_UPDATE_WHERE_SQL: &'static str = " WHERE id = :id";

/// The assignments a client change makes, in field order.
pub open spec fn client_set_parts(data: UpdateClient) -> Seq<Seq<char>> {
    (if data.name is Some { seq!["name = :name"@] } else { Seq::empty() })
    + (if data.default_bucket_id is Some { seq!["default_bucket_id = :default_bucket_id"@] } else { Seq::empty() })
    + (if data.status is Some { seq!["status = :status"@] } else { Seq::empty() })
}

/// The parameters a client change binds, in field order, then the id.
pub open spec fn client_set_params(id: Seq<char>, data: UpdateClient) -> Seq<(Seq<char>, SqlValueView)> {
    (match data.name { Some(n) => seq![text_pv(":name"@, n@)], None => Seq::empty() })
    + (match data.default_bucket_id { Some(b) => seq![opt_text_pv(":default_bucket_id"@, opt_view(b))], None => Seq::empty() })
    + (match data.status { Some(s) => seq![text_pv(":status"@, s@)], None => Seq::empty() })
    + seq![text_pv(":id"@, id)]
}

/// A client change binds every field it gives: the statement exists exactly
/// when the change gives a field; it assigns the name first and binds it
/// first, assigns the status last and binds it just before the id, and
/// assigns and binds a given default bucket; it always ends by selecting the
/// client by its id.
pub proof fn lemma_client_update_fields(id: Seq<char>, data: UpdateClient)
    ensures
        ({
            let parts = client_set_parts(data);
            let sql = CLIENT_UPDATE_SQL@ + join_with(parts, ", "@) + CLIENT_UPDATE_WHERE_SQL@;
            let params = client_set_params(id, data);
            &&& (data.name is Some || data.default_bucket_id is Some || data.status is Some) <==> parts.len() > 0
            &&& params.len() > 0 && params.last() == text_pv(":id"@, id)
            &&& data.name is Some ==> (params[0] == text_pv(":name"@, data.name->0@) && (exists|
                rest: Seq<char>,
            | sql == CLIENT_UPDATE_SQL@ + "name = :name"@ + rest))
            &&& data.default_bucket_id is Some ==> ((exists|i: int|
                0 <= i < params.len() && params[i] == opt_text_pv(":default_bucket_id"@, opt_view(data.default_bucket_id->0)))
                && occurs_in(sql, "default_bucket_id = :default_bucket_id"@))
            &&& data.status is Some ==> ((exists|pre: Seq<char>|
                sql == pre + "status = :status"@ + CLIENT_UPDATE_WHERE_SQL@) && (exists|
                pp: Seq<(Seq<char>, SqlValueView)>,
            | params == pp + seq![text_pv(":status"@, data.status->0@), text_pv(":id"@, id)]))
        }),
{
    let parts = client_set_parts(data);
    let j = join_with(parts, ", "@);
    let sql = CLIENT_UPDATE_SQL@ + j + CLIENT_UPDATE_WHERE_SQL@;
    let params = client_set_params(id, data);
    let np = match data.name { Some(n) => seq![text_pv(":name"@, n@)], None => Seq::<(Seq<char>, SqlValueView)>::empty() };
    let bp = match data.default_bucket_id { Some(b) => seq![opt_text_pv(":default_bucket_id"@, opt_view(b))], None => Seq::<(Seq<char>, SqlValueView)>::empty() };
    let sp = match data.status { Some(st) => seq![text_pv(":status"@, st@)], None => Seq::<(Seq<char>, SqlValueView)>::empty() };
    assert(params == np + bp + sp + seq![text_pv(":id"@, id)]);
    if let Some(n) = data.name {
        assert(parts[0] == "name = :name"@);
        lemma_join_starts_with(parts, ", "@);
        let rest = choose|rest: Seq<char>| j == parts[0] + rest;
        assert(sql =~= CLIENT_UPDATE_SQL@ + "name = :name"@ + (rest + CLIENT_UPDATE_WHERE_SQL@));
        assert(params[0] == text_pv(":name"@, n@));
    }
    if let Some(b) = data.default_bucket_id {
        let i: int = if data.name is Some { 1 } else { 0 };
        assert(parts[i] == "default_bucket_id = :default_bucket_id"@);
        lemma_join_holds(parts, ", "@, i);
        lemma_occurs_in_context(CLIENT_UPDATE_SQL@, j, CLIENT_UPDATE_WHERE_SQL@, parts[i]);
        assert(params[i] == opt_text_pv(":default_bucket_id"@, opt_view(b)));
    }
    if let Some(st) = data.status {
        assert(parts.last() == "status = :status"@);
        lemma_join_ends_with(parts, ", "@);
        let pre = choose|pre: Seq<char>| j == pre + parts.last();
        assert(sql =~= (CLIENT_UPDATE_SQL@ + pre) + "status = :status"@ + CLIENT_UPDATE_WHERE_SQL@);
        assert(params =~= (np + bp) + seq![text_pv(":status"@, st@), text_pv(":id"@, id)]);
    }
}

/// The statement that changes a client: none when the change sets nothing,
/// else the assignments of the given fields, joined by commas, for the client `id`.
pub fn client_update_statement(id: &str, data: UpdateClient) -> (r: Option<Statement>)
    ensures
        client_set_parts(data).len() == 0 ==> r is None,
        client_set_parts(data).len() > 0 ==> (r matches Some(s) && s@ == (
            CLIENT_UPDATE_SQL@ + join_with(client_set_parts(data), ", "@) + CLIENT_UPDATE_WHERE_SQL@,
            client_set_params(id@, data))),
        (data.name is Some || data.default_bucket_id is Some || data.status is Some) <==> r is Some,
        r matches Some(s) ==> s@.1.len() > 0 && s@.1.last() == text_pv(":id"@, id@) && (exists|
            mid: Seq<char>,
        | s@.0 == CLIENT_UPDATE_SQL@ + mid + CLIENT_UPDATE_WHERE_SQL@),
        data.name is Some ==> (r matches Some(s) && s@.1[0] == text_pv(":name"@, data.name->0@)
            && (exists|rest: Seq<char>| s@.0 == CLIENT_UPDATE_SQL@ + "name = :name"@ + rest)),
        data.default_bucket_id is Some ==> (r matches Some(s) && (exists|i: int|
            0 <= i < s@.1.len() && s@.1[i] == opt_text_pv(":default_bucket_id"@, opt_view(data.default_bucket_id->0)))
            && occurs_in(s@.0, "default_bucket_id = :default_bucket_id"@)),
        data.status is Some ==> (r matches Some(s) && (exists|pre: Seq<char>|
            s@.0 == pre + "status = :status"@ + CLIENT_UPDATE_WHERE_SQL@) && (exists|
            pp: Seq<(Seq<char>, SqlValueView)>,
        | s@.1 == pp + seq![text_pv(":status"@, data.status->0@), text_pv(":id"@, id@)])),
{
    proof {
        lemma_client_update_fields(id@, data);
    }
    if data.name.is_none() && data.default_bucket_id.is_none() && data.status.is_none() {
        return None;
    }
    let ghost d = data;
    let mut set_parts: Vec<&str> = Vec::new();
    let mut params = new_query_params();
    if let Some(name) = data.name {
        set_parts.push("name = :name");
        params.push(text_param(":name", name));
    }
    if let Some(default_bucket_id) = data.default_bucket_id {
        set_parts.push("default_bucket_id = :default_bucket_id");
        params.push(opt_text_param(":default_bucket_id", default_bucket_id));
    }
    if let Some(status) = data.status {
        set_parts.push("status = :status");
        params.push(text_param(":status", status));
    }
    assert(set_parts@.map_values(|p: &str| p@) =~= client_set_parts(d));
    let mut sql = CLIENT_UPDATE_SQL.to_owned();
    let joined = join_strs(&set_parts, ", ");
    sql.append(joined.as_str());
    sql.append(CLIENT_UPDATE_WHERE_SQL);
    params.push(text_param(":id", id.to_owned()));
    let r = Statement { sql, params };
    assert(r@.1 =~= client_set_params(id@, d));
    Some(r)
}

} // verus!
