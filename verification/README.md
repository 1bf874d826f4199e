# better-auth-diesel-sqlite

A `SQLite` storage adapter for the `better-auth` authentication framework,
built on `diesel`, whose deciding and computing core is verified with Verus.

- `src/` — the verified library: pool configuration and connection settings
  (`config`), the mapping of storage failures onto database errors (`error`),
  instants and their RFC 3339 text (`time`), identifiers (`ids`), JSON
  metadata (`json`), the table rows (`models`), the entities the framework
  stores (`types`), and every conversion between rows and entities, with the
  laws they keep (`conversions`).
- `app/` — the adapter itself: the connection behind a mutex, the blocking
  thread for each query, the `diesel` schema and queries, and the framework's
  session, account, verification, organization, member, invitation,
  two-factor, API-key and passkey operations, each built on the library's
  conversions.
- `tests/` — tests of the library on concrete values.
