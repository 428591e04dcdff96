# memo

The core of a file storage service — buckets of directories of files, owned by
clients and their users — written in Verus, with every function's behaviour
stated in its contract and proved.

## Layout

- `src/` — the verified library.
  - `bucket`, `dir`, `client`, `user`, `file`: the records, their stored forms,
    their conversions and row decoders, and the rules their input data must
    pass (`validate`).
  - `store/`: the SQL statements of every store operation, with their bound
    parameters, and the splitting of migration scripts into statements.
  - `pagination`, `listing`: page windows and listing statements.
  - `service`: the checks the service makes between lookups.
  - `flow/`: each multi-step operation (creating or deleting a directory or a
    client, changing a client, creating a user or changing its roles, signing
    in, accepting a token, changing a password, first-time setup) as a step function from what was learned last
    to what to do next.
  - `error`, `shared_error`, `db_error`, `status`, `web`: errors, their HTTP
    statuses and JSON answers.
  - `config`, `migrate_ids`, `migrate_turso`: configuration and migration
    decisions.
  - `token`, `storage`, `text`, `validate`, `sql`: tokens, storage paths and
    error mapping, text helpers, validation rules, SQL values.
  - `fixtures`: the in-memory test stores.
- `tests/`: tests of the library on concrete values.
- `app/`: the programs around the library: reading the environment, running
  the statements on a database, the store operations that drive the directory,
  bucket and client flows, an HTTP server for the public routes, and the store
  migration. The protected routes need an account service's permission model
  and Google Cloud Storage, which the programs do not link.
