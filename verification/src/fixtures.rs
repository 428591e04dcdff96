use vstd::prelude::*;

use crate::client::{served_client, Client, ClientDto};
use crate::db_error;
use crate::file::{FileObject, ListFilesParams};
use crate::pagination::Paginated;
use crate::text::str_eq;

verus! {

/// The id of the ordinary test client.
pub const TEST_CLIENT_ID: &'static str = "0196d19e01b1745980a8419edd88e3d1";

/// The id of the test admin client.
pub const TEST_ADMIN_CLIENT_ID: &'static str = "0196d1a2784a72959c97eef5dbc69dc7";

/// The id a test client creation answers with.
pub const TEST_NEW_CLIENT_ID: &'static str = "0196d1a2784a72959c97eef5dbc69dc7";

/// Whether a stored client is an active test client without a default
/// bucket, with the given id, name and admin flag, created at `today`.
pub open spec fn is_test_client(c: Client, id: &str, name: Seq<char>, admin: Option<i32>, today: i64) -> bool {
    &&& c.id@ == id@
    &&& c.name@ == name
    &&& c.default_bucket_id is None
    &&& c.status@ == "active"@
    &&& c.admin == admin
    &&& c.created_at == today
}

/// The ordinary test client, created at `today`.
pub fn create_test_client(today: i64) -> (r: Client)
    ensures
        is_test_client(r, TEST_CLIENT_ID, "Test Client"@, None, today),
{
    Client {
        id: TEST_CLIENT_ID.to_owned(),
        name: "Test Client".to_owned(),
        default_bucket_id: None,
        status: "active".to_owned(),
        admin: None,
        created_at: today,
    }
}

/// The test admin client, created at `today`.
pub fn create_test_admin_client(today: i64) -> (r: Client)
    ensures
        is_test_client(r, TEST_ADMIN_CLIENT_ID, "Test Admin Client"@, Some(1i32), today),
{
    Client {
        id: TEST_ADMIN_CLIENT_ID.to_owned(),
        name: "Test Admin Client".to_owned(),
        default_bucket_id: None,
        status: "active".to_owned(),
        admin: Some(1),
        created_at: today,
    }
}

/// The client a test creation answers with, created at `today`.
pub fn create_test_new_client(today: i64) -> (r: Client)
    ensures
        is_test_client(r, TEST_NEW_CLIENT_ID, "Test New Client"@, None, today),
{
    Client {
        id: TEST_NEW_CLIENT_ID.to_owned(),
        name: "Test New Client".to_owned(),
        default_bucket_id: None,
        status: "active".to_owned(),
        admin: None,
        created_at: today,
    }
}

/// The clients whose id is `id`, in order.
pub open spec fn with_id(clients: Seq<ClientDto>, id: Seq<char>) -> Seq<ClientDto> {
    clients.filter(|c: ClientDto| c.id@ == id)
}

/// Whether `r` is the first client of `clients` that `pred` holds of, or
/// nothing when it holds of none.
pub open spec fn is_first_match(clients: Seq<ClientDto>, pred: spec_fn(ClientDto) -> bool, r: Option<ClientDto>) -> bool {
    match r {
        Some(c) => exists|i: int|
            0 <= i < clients.len() && clients[i] == c && pred(c) && forall|j: int|
                0 <= j < i ==> !pred(#[trigger] clients[j]),
        None => forall|j: int| 0 <= j < clients.len() ==> !pred(#[trigger] clients[j]),
    }
}

/// The clients whose id is `id`, in order.
pub fn clients_with_id(clients: Vec<ClientDto>, id: &str) -> (r: Vec<ClientDto>)
    ensures
        r@ == with_id(clients@, id@),
{
    let ghost pred = |c: ClientDto| c.id@ == id@;
    let ghost all = clients@;
    let n = clients.len();
    let mut out: Vec<ClientDto> = Vec::new();
    let mut rest = clients;
    let mut i: usize = 0;
    proof {
        reveal_with_fuel(Seq::<ClientDto>::filter, 1);
        assert(all.take(0) =~= Seq::<ClientDto>::empty());
        assert(all.skip(0) =~= all);
    }
    while rest.len() > 0
        invariant
            pred == (|c: ClientDto| c.id@ == id@),
            all.len() == n,
            i <= all.len(),
            rest@ == all.skip(i as int),
            out@ == all.take(i as int).filter(pred),
        decreases rest@.len(),
    {
        let c = rest.remove(0);
        let ghost prefix = all.take(i as int);
        let ghost next = all.take(i + 1);
        proof {
            assert(c == all[i as int]);
            assert(next.drop_last() =~= prefix);
            assert(next.last() == c);
            assert(rest@ =~= all.skip(i + 1));
            reveal_with_fuel(Seq::<ClientDto>::filter, 1);
            assert(next.filter(pred) == if pred(c) {
                prefix.filter(pred).push(c)
            } else {
                prefix.filter(pred)
            });
        }
        if str_eq(c.id.as_str(), id) {
            out.push(c);
        }
        i = i + 1;
    }
    proof {
        assert(all.take(i as int) =~= all);
    }
    out
}

/// The first client whose id is `id`, if any.
pub fn first_with_id(clients: Vec<ClientDto>, id: &str) -> (r: Option<ClientDto>)
    ensures
        is_first_match(clients@, |c: ClientDto| c.id@ == id@, r),
{
    let ghost pred = |c: ClientDto| c.id@ == id@;
    let mut i: usize = 0;
    while i < clients.len()
        invariant
            pred == (|c: ClientDto| c.id@ == id@),
            i <= clients@.len(),
            forall|j: int| 0 <= j < i ==> #[trigger] clients@[j].id@ != id@,
        decreases clients@.len() - i,
    {
        if str_eq(clients[i].id.as_str(), id) {
            let ghost all = clients@;
            let ghost k = i as int;
            let mut v = clients;
            let c = v.swap_remove(i);
            proof {
                assert(c == all[k]);
                assert(pred(all[k]));
                assert(forall|j: int| 0 <= j < k ==> !pred(#[trigger] all[j]));
                assert(0 <= k < all.len() && all[k] == c && pred(c) && forall|j: int|
                    0 <= j < k ==> !pred(#[trigger] all[j]));
            }
            return Some(c);
        }
        i = i + 1;
    }
    proof {
        assert(forall|j: int| 0 <= j < clients@.len() ==> !pred(#[trigger] clients@[j]));
    }
    None
}

/// The first client whose name is `name`, if any.
pub fn first_with_name(clients: Vec<ClientDto>, name: &str) -> (r: Option<ClientDto>)
    ensures
        is_first_match(clients@, |c: ClientDto| c.name@ == name@, r),
{
    let ghost pred = |c: ClientDto| c.name@ == name@;
    let mut i: usize = 0;
    while i < clients.len()
        invariant
            pred == (|c: ClientDto| c.name@ == name@),
            i <= clients@.len(),
            forall|j: int| 0 <= j < i ==> #[trigger] clients@[j].name@ != name@,
        decreases clients@.len() - i,
    {
        if str_eq(clients[i].name.as_str(), name) {
            let ghost all = clients@;
            let ghost k = i as int;
            let mut v = clients;
            let c = v.swap_remove(i);
            proof {
                assert(c == all[k]);
                assert(pred(all[k]));
                assert(forall|j: int| 0 <= j < k ==> !pred(#[trigger] all[j]));
                assert(0 <= k < all.len() && all[k] == c && pred(c) && forall|j: int|
                    0 <= j < k ==> !pred(#[trigger] all[j]));
            }
            return Some(c);
        }
        i = i + 1;
    }
    proof {
        assert(forall|j: int| 0 <= j < clients@.len() ==> !pred(#[trigger] clients@[j]));
    }
    None
}

/// The clients a test store holds: the ordinary and the admin test client,
/// created at `today`, as handed out.
pub open spec fn test_clients_hold(clients: Seq<ClientDto>, today: i64) -> bool {
    &&& clients.len() == 2
    &&& exists|c: Client| #![trigger served_client(c)]
        is_test_client(c, TEST_CLIENT_ID, "Test Client"@, None, today) && clients[0] == served_client(c)
    &&& exists|c: Client| #![trigger served_client(c)]
        is_test_client(c, TEST_ADMIN_CLIENT_ID, "Test Admin Client"@, Some(1i32), today)
            && clients[1] == served_client(c)
}

/// A client store that holds the two test clients and changes nothing. The
/// clients it hands out are created at the `today` that each call is given.
#[derive(Clone, Debug, PartialEq, Eq)]
pub struct ClientTestRepo {}

impl ClientTestRepo {
    /// The test clients, or only those with the given id.
    pub fn list(&self, client_id: Option<String>, today: i64) -> (r: Vec<ClientDto>)
        ensures
            exists|all: Seq<ClientDto>| #[trigger] test_clients_hold(all, today) && match client_id {
                Some(cid) => r@ == with_id(all, cid@),
                None => r@ == all,
            },
    {
        let c1 = create_test_client(today);
        let c2 = create_test_admin_client(today);
        let ghost g1 = c1;
        let ghost g2 = c2;
        let mut clients: Vec<ClientDto> = Vec::new();
        clients.push(ClientDto::from(c1));
        clients.push(ClientDto::from(c2));
        let ghost all = clients@;
        proof {
            assert(all[0] == served_client(g1));
            assert(all[1] == served_client(g2));
            assert(test_clients_hold(all, today));
        }
        match client_id {
            Some(cid) => clients_with_id(clients, cid.as_str()),
            None => clients,
        }
    }

    /// The test admin client.
    pub fn find_admin(&self, today: i64) -> (r: Option<ClientDto>)
        ensures
            exists|c: Client| #![trigger served_client(c)]
                is_test_client(c, TEST_ADMIN_CLIENT_ID, "Test Admin Client"@, Some(1i32), today) && r
                    == Some(served_client(c)),
    {
        let c = create_test_admin_client(today);
        let ghost g = c;
        let r = Some(ClientDto::from(c));
        assert(r == Some(served_client(g)));
        r
    }

    /// The client a creation answers with, whatever was asked.
    pub fn create(&self, today: i64) -> (r: ClientDto)
        ensures
            exists|c: Client| #![trigger served_client(c)]
                is_test_client(c, TEST_NEW_CLIENT_ID, "Test New Client"@, None, today) && r
                    == served_client(c),
    {
        let c = create_test_new_client(today);
        let ghost g = c;
        let r = ClientDto::from(c);
        assert(r == served_client(g));
        r
    }

    /// The first test client with the given id, if any.
    pub fn get(&self, id: &str, today: i64) -> (r: Option<ClientDto>)
        ensures
            exists|all: Seq<ClientDto>| #[trigger] test_clients_hold(all, today) && is_first_match(
                all,
                |c: ClientDto| c.id@ == id@,
                r,
            ),
    {
        let clients = self.list(None, today);
        first_with_id(clients, id)
    }

    /// A change always goes through.
    pub fn update(&self) -> (r: bool)
        ensures
            r,
    {
        true
    }

    /// The first test client with the given name, if any.
    pub fn find_by_name(&self, name: &str, today: i64) -> (r: Option<ClientDto>)
        ensures
            exists|all: Seq<ClientDto>| #[trigger] test_clients_hold(all, today) && is_first_match(
                all,
                |c: ClientDto| c.name@ == name@,
                r,
            ),
    {
        let clients = self.list(None, today);
        first_with_name(clients, name)
    }

    /// The number of test clients.
    pub fn count(&self) -> (r: i64)
        ensures
            r == 2,
    {
        2
    }
}

/// A file store that holds no file and stores none.
#[derive(Clone, Debug, PartialEq, Eq)]
pub struct FileTestRepo {}

impl FileTestRepo {
    /// An empty first page of ten.
    pub fn list(&self, _params: &ListFilesParams) -> (r: Paginated<FileObject>)
        ensures
            r.data@.len() == 0,
            r.meta.page == 1,
            r.meta.per_page == 10,
            r.meta.total_records == 0,
    {
        Paginated::new(Vec::new(), 1, 10, 0)
    }

    /// Storing a file is refused.
    pub fn create(&self, _file: FileObject) -> (r: Result<FileObject, db_error::Error>)
        ensures
            r matches Err(e) && e matches db_error::Error::Whatever { msg } && msg@ == "Not supported"@,
    {
        Err(db_error::Error::Whatever { msg: "Not supported".to_owned() })
    }

    /// No file is found by id.
    pub fn get(&self, _id: &str) -> (r: Option<FileObject>)
        ensures
            r is None,
    {
        None
    }

    /// No file is found by name.
    pub fn find_by_name(&self, _dir_id: &str, _name: &str) -> (r: Option<FileObject>)
        ensures
            r is None,
    {
        None
    }

    /// A directory holds no file.
    pub fn count_by_dir(&self, _dir_id: &str) -> (r: i64)
        ensures
            r == 0,
    {
        0
    }
}

} // verus!
