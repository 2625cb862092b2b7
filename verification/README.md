# actix-crud

A small user CRUD service on actix-web and PostgreSQL. The logic of the
service is a library verified with Verus; the HTTP server and the database
access around it are ordinary Rust under `app/`.

## Library (`src/`)

- `text`: decimal numbers, `$n` placeholders and separator joins, with their
  models.
- `criteria`: WHERE conditions (`=`, `<`, `IN`, `IS NULL`, ...) and their
  conjunction, numbering the placeholders consecutively.
- `builder`: the INSERT, UPDATE, DELETE, SELECT and SELECT COUNT(*) builders;
  each `sql_query` states the exact statement, or when it is refused.
- `attributes`: typed user attributes and the reads of them.
- `user`, `user_table`: the user entity and the USERS table.
- `user_repo`: the statements of the user store and the reading of its answers.
- `user_api`: the API's decisions, as replies and as small state machines that
  the server drives.
- `context`: the context of one request.
- `runtime`: the clock and random identifiers.
- `laws`: properties that span functions.

## Server (`app/`)

Configuration from the environment (`PG_HOST`, `PG_PORT`, `PG_USER`,
`PG_PASSWORD`, `PG_DBNAME`, `PG_POOL_MAX_SIZE`, `PG_CONNECTION_TIMEOUT_SECS`,
`PG_POOL_TIMEOUTS_WAIT_NANOS`, `SERVER_HOST`, `SERVER_PORT`), the routes under
`/api/v1/actix-boilerplate`, the repository on a deadpool connection pool, and
the JSON shapes of the API.
