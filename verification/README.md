# kv_storage

A key-value store kept in one SQLite file, with its logic proved against its contracts.
Keys live in numbered domains; each domain has a unique id and a unique name,
and each key is written once in its domain. The file carries SQLite's
application id `0x42654b56` ("BeKV") and user version 1, and a metadata table
holding the identity the store was created with. Pages are verified by
SQLite's checksum VFS.

Layout:

- `src/db/`: a connection with the record of the calls made on it. The
  `rusqlite` calls are trusted wrappers in `src/db/sqlite.rs`, a module
  private to `db`; each call is made through a function of `db` that records
  it, with its statement, its parameters and SQLite's answer.
- `src/error.rs`: the error type; tagging `rusqlite` errors.
- `src/init.rs`: connection setup, version, schema and metadata checks, and
  the laws relating the writer's checks to the reader's.
- `src/writer/`, `src/reader/`: writing domains and keys; looking them up.
- `src/model.rs`: what the store's statements do to a file's contents, and
  the laws on the file after each operation: what a write leaves, that a
  refused write changes nothing, that what was written reads back, that
  creating the tables twice changes nothing, and that opening a store
  again keeps its data, refuses another identity and reads back its own.
- `src/register.rs`: the decisions of the once-per-process registration of
  the checksum VFS.
- `src/actor.rs`: the requests a writer serves as an actor.
- `app/`: the program, and what the library cannot hold: the raw SQLite C
  calls, the atomics of the registration, opening files, and the actor
  plumbing.

Each SQLite step is specified as a function of SQLite's answers: a
`..._result` spec function gives what the step returns for given answers, a
`..._calls` spec function the calls it makes for them, with the answers, and
the step's contract says that the calls it added to the record are those, and
its result is the one those recorded answers give.
