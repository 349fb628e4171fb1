//! What the store's statements do to a store file, and the laws that follow
//! for its operations.
//!
//! The contents of a store file are modelled by `StoreFile`. `apply_call`
//! says what each statement the store runs does to them, read as SQL defines
//! it, once SQLite ran it; statements it does not name (reads, durability
//! pragmas, `vacuum`, table creation) are taken to leave the modelled
//! contents as they are. A transaction's statements take effect only when a
//! commit of it went through.
//!
//! The `..._on_file` laws take an operation's result and the record of calls
//! as its contract states them, and a file whose contents the answers
//! recorded there reflect (`answers_from`, `reads_from`, `lookups_from`);
//! they say what the operation returned and what the file holds after it.
//! `no_failure` says that no recorded call failed: the laws say what an
//! operation gives then, which is where the store owes success. The laws on opening a store (`law_prepare_writer_on_file`,
//! `law_prepare_reader_on_store`, `law_writer_then_reader`) put the steps
//! of opening together.
use vstd::prelude::*;
use rusqlite::Error as SqliteError;
use crate::{MAGIC, VERSION, COUNT_TABLES, SET_MAGIC_STMT, SET_VERSION_STMT, METADATA_SCHEMA, DOMAINS_SCHEMA, STORAGE_SCHEMA, Metadata};
use crate::error::Error;
use crate::db::{SqlCall, SqlValue, SqlAnswer, flag_answer, i32_answer, u32_answer, changed_answer, row_answer, done_answer, bytes_answer, text_answer};
use crate::init::{
    no_rows_changed_done, no_rows_changed_result, set_synchronous_done, set_synchronous_calls,
    set_synchronous_result, checksum_check_done, checksum_check_result, init_schema_done, init_schema_calls,
    init_schema_result,
    INSERT_METADATA,
    check_or_write_version_result, check_or_write_version_calls, check_or_write_version_done,
    check_version_result, check_version_calls, check_version_done, check_or_write_metadata_result,
    check_or_write_metadata_calls, check_or_write_metadata_done, read_metadata_result, read_metadata_calls, read_metadata_done, insert_metadata_call,
};
use crate::reader::{
    DOMAIN_NAME_BY_ID, DOMAIN_ID_BY_NAME, VALUE_BY_KEY, KEY_BY_VALUE, lookup_result, lookup_calls,
    bytes_lookup_done, id_lookup_done, reader_open_steps, reader_open_result, reader_prepared,
};
use crate::writer::{
    writer_open_steps, writer_open_result, writer_prepared,
    INSERT_DOMAIN, INSERT_KV, DOMAIN_ID_EXISTS, DOMAIN_NAME_EXISTS, KEY_EXISTS, write_domain_result,
    write_domain_calls, write_domain_done, write_kv_result, write_kv_calls, write_kv_done, commits,
    law_write_kv_calls, law_write_domain_calls,
};

verus! {

/// The contents of a store file.
pub struct StoreFile {
    /// SQLite's application id.
    pub application_id: i32,
    /// SQLite's user version.
    pub user_version: u32,
    /// How many tables the file holds.
    pub table_count: nat,
    /// Which of the store's tables (`metadata`, `domains`, `storage`) the
    /// file holds, by name.
    pub store_tables: Set<Seq<char>>,
    /// The `ident` column of the metadata table's rows, in query order.
    pub metadata: Seq<Seq<u8>>,
    /// The name of each domain, by id.
    pub domains: Map<u32, Seq<u8>>,
    /// The value stored under each (domain id, key).
    pub storage: Map<(u32, Seq<u8>), Seq<u8>>,
}

/// The integer a bound value holds, if it is one that fits a domain id.
pub open spec fn domain_id_value(v: SqlValue) -> Option<u32> {
    match v {
        SqlValue::Integer(i) => if 0 <= i <= u32::MAX { Some(i as u32) } else { None },
        SqlValue::Blob(_) => None,
    }
}

/// The bytes a bound value holds, if it is a blob.
pub open spec fn blob_value(v: SqlValue) -> Option<Seq<u8>> {
    match v {
        SqlValue::Blob(b) => Some(b),
        SqlValue::Integer(_) => None,
    }
}

/// The store's table that `sql` creates where it is missing, if it is one of
/// the store's `CREATE TABLE IF NOT EXISTS` statements.
pub open spec fn created_table(sql: Seq<char>) -> Option<Seq<char>> {
    if sql == METADATA_SCHEMA@ {
        Some("metadata"@)
    } else if sql == DOMAINS_SCHEMA@ {
        Some("domains"@)
    } else if sql == STORAGE_SCHEMA@ {
        Some("storage"@)
    } else {
        None
    }
}

/// Whether the file holds all three of the store's tables.
pub open spec fn has_store_tables(f: StoreFile) -> bool {
    &&& f.store_tables.contains("metadata"@)
    &&& f.store_tables.contains("domains"@)
    &&& f.store_tables.contains("storage"@)
}

/// A file that holds one of the store's tables holds some table.
pub open spec fn tables_wf(f: StoreFile) -> bool {
    f.table_count == 0 ==> forall|name: Seq<char>| !f.store_tables.contains(name)
}

/// A store file with identity `ident`: tagged with the store's application
/// id and version, holding the store's tables, and one metadata row.
pub open spec fn is_store(f: StoreFile, ident: Seq<u8>) -> bool {
    &&& f.application_id == MAGIC
    &&& f.user_version == VERSION
    &&& f.table_count != 0
    &&& has_store_tables(f)
    &&& f.metadata == seq![ident]
}

/// A store file, with whatever identity.
pub open spec fn is_store_file(f: StoreFile) -> bool {
    f.metadata.len() == 1 && is_store(f, f.metadata[0])
}

/// A new file: no table, no application id, no user version, no metadata.
pub open spec fn is_new_file(f: StoreFile) -> bool {
    &&& f.table_count == 0
    &&& f.application_id == 0
    &&& f.user_version == 0
    &&& f.metadata.len() == 0
}

/// SQLite's answer recorded in a call.
pub open spec fn answer_of(call: SqlCall) -> SqlAnswer {
    match call {
        SqlCall::Execute(_, _, a) => a,
        SqlCall::QueryOne(_, _, a) => a,
        SqlCall::Prepare(_, a) => a,
        SqlCall::StatementQueryOne(_, a) => a,
        SqlCall::StatementQuery(_, a) => a,
        SqlCall::NextRow(_, a) => a,
        SqlCall::Begin(a) => a,
        SqlCall::Commit(a) => a,
        SqlCall::Close(a) => a,
    }
}

/// No call recorded in `calls` failed.
pub open spec fn no_failure(calls: Seq<SqlCall>) -> bool {
    forall|j: int| 0 <= j < calls.len() ==> !(answer_of(#[trigger] calls[j]) is Failed)
}

/// What one call does to the file's contents: a statement that SQLite ran
/// (it answered with a row count) has its effect; anything else has none.
pub open spec fn apply_call(f: StoreFile, call: SqlCall) -> StoreFile {
    match call {
        SqlCall::Execute(sql, params, SqlAnswer::Changed(_)) => {
            if sql == INSERT_KV@ && params.len() == 3 && domain_id_value(params[0]) is Some
                && blob_value(params[1]) is Some && blob_value(params[2]) is Some {
                StoreFile {
                    storage: f.storage.insert(
                        (domain_id_value(params[0])->0, blob_value(params[1])->0),
                        blob_value(params[2])->0,
                    ),
                    ..f
                }
            } else if sql == INSERT_DOMAIN@ && params.len() == 2 && domain_id_value(params[0]) is Some
                && blob_value(params[1]) is Some {
                StoreFile { domains: f.domains.insert(domain_id_value(params[0])->0, blob_value(params[1])->0), ..f }
            } else if sql == INSERT_METADATA@ && params.len() == 2
                && blob_value(params[1]) is Some {
                StoreFile { metadata: f.metadata.push(blob_value(params[1])->0), ..f }
            } else if sql == SET_MAGIC_STMT@ {
                StoreFile { application_id: MAGIC, ..f }
            } else if sql == SET_VERSION_STMT@ {
                StoreFile { user_version: VERSION, ..f }
            } else if params.len() == 0 && created_table(sql) is Some {
                let name = created_table(sql)->0;
                if f.store_tables.contains(name) {
                    f
                } else {
                    StoreFile { store_tables: f.store_tables.insert(name), table_count: f.table_count + 1, ..f }
                }
            } else {
                f
            }
        },
        _ => f,
    }
}

/// What a sequence of calls does to the file's contents, in order.
pub open spec fn apply_calls(f: StoreFile, calls: Seq<SqlCall>) -> StoreFile
    decreases calls.len(),
{
    if calls.len() == 0 {
        f
    } else {
        apply_call(apply_calls(f, calls.drop_last()), calls.last())
    }
}

/// The contents after a transaction that made `calls`: their effect when a
/// commit among them went through, else the contents before (the
/// transaction was rolled back).
pub open spec fn after_transaction(f: StoreFile, calls: Seq<SqlCall>) -> StoreFile {
    if calls.contains(SqlCall::Commit(SqlAnswer::Done)) { apply_calls(f, calls) } else { f }
}

/// Whether some domain of `f` is named `name`.
pub open spec fn name_taken(f: StoreFile, name: Seq<u8>) -> bool {
    exists|id: u32| #[trigger] f.domains.contains_key(id) && f.domains[id] == name
}

/// What the store keeps true of a file: no two domains share a name, and
/// every stored key belongs to an existing domain.
pub open spec fn store_invariant(f: StoreFile) -> bool {
    &&& forall|a: u32, b: u32|
        #![trigger f.domains.contains_key(a), f.domains.contains_key(b)]
        f.domains.contains_key(a) && f.domains.contains_key(b) && f.domains[a] == f.domains[b] ==> a == b
    &&& forall|id: u32, key: Seq<u8>| #[trigger] f.storage.contains_key((id, key)) ==> f.domains.contains_key(id)
}

/// `write_kv(domain_id, key, value)` on a file `f`, SQLite answering its two
/// queries from `f`: an unknown domain gives `UnknownDomainId`, a taken key
/// `DuplicateKey`, and both leave the file as it was; otherwise, once the
/// insert changed one row and the commit succeeded, the result is `Ok` and
/// the file holds `value` under the key, with nothing else changed; every
/// failure leaves the file as it was. The store's invariant is kept.
pub proof fn law_write_kv_effect(
    f: StoreFile,
    domain_id: u32,
    key: Seq<u8>,
    value: Seq<u8>,
    inserted: core::result::Result<usize, SqliteError>,
    committed: core::result::Result<(), SqliteError>,
)
    ensures
        ({
            let d = Ok::<bool, SqliteError>(f.domains.contains_key(domain_id));
            let k = Ok::<bool, SqliteError>(f.storage.contains_key((domain_id, key)));
            let r = write_kv_result(Ok(()), d, k, inserted, committed);
            let after = after_transaction(f, write_kv_calls(Ok(()), d, k, inserted, committed, domain_id, key, value));
            &&& !f.domains.contains_key(domain_id) ==> (r matches Err(Error::UnknownDomainId))
            &&& f.domains.contains_key(domain_id) && f.storage.contains_key((domain_id, key))
                ==> (r matches Err(Error::DuplicateKey))
            &&& f.domains.contains_key(domain_id) && !f.storage.contains_key((domain_id, key))
                && inserted == Ok::<usize, SqliteError>(1) && committed is Ok ==> r is Ok
            &&& r is Err ==> after == f
            &&& r is Ok ==> after == StoreFile { storage: f.storage.insert((domain_id, key), value), ..f }
            &&& store_invariant(f) ==> store_invariant(after)
        }),
{
    let d = Ok::<bool, SqliteError>(f.domains.contains_key(domain_id));
    let k = Ok::<bool, SqliteError>(f.storage.contains_key((domain_id, key)));
    let calls = write_kv_calls(Ok(()), d, k, inserted, committed, domain_id, key, value);
    let r = write_kv_result(Ok(()), d, k, inserted, committed);
    if r is Ok {
        reveal_with_fuel(apply_calls, 6);
        assert(calls.contains(SqlCall::Commit(SqlAnswer::Done))) by {
            assert(calls[4] == SqlCall::Commit(SqlAnswer::Done));
        }
        let after = apply_calls(f, calls);
        assert(after.storage =~= f.storage.insert((domain_id, key), value));
    } else if calls.contains(SqlCall::Commit(SqlAnswer::Done)) {
        let j = choose|j: int| 0 <= j < calls.len() && calls[j] == SqlCall::Commit(SqlAnswer::Done);
        assert(calls.len() == 5);
    }
}

/// `write_domain(domain_id, domain)` on a file `f`, SQLite answering its two
/// queries from `f`: a taken id gives `DuplicateDomainId`, a taken name
/// `DuplicateDomainName`, and both leave the file as it was; otherwise, once
/// the insert changed one row and the commit succeeded, the result is `Ok`
/// and the file holds the new domain, with nothing else changed; every
/// failure leaves the file as it was. The store's invariant is kept, and in
/// the file after a success the new id is the only one with that name.
pub proof fn law_write_domain_effect(
    f: StoreFile,
    domain_id: u32,
    domain: Seq<u8>,
    inserted: core::result::Result<usize, SqliteError>,
    committed: core::result::Result<(), SqliteError>,
)
    ensures
        ({
            let i = Ok::<bool, SqliteError>(f.domains.contains_key(domain_id));
            let n = Ok::<bool, SqliteError>(name_taken(f, domain));
            let r = write_domain_result(Ok(()), i, n, inserted, committed);
            let after = after_transaction(f, write_domain_calls(Ok(()), i, n, inserted, committed, domain_id, domain));
            &&& f.domains.contains_key(domain_id) ==> (r matches Err(Error::DuplicateDomainId))
            &&& !f.domains.contains_key(domain_id) && name_taken(f, domain) ==> (r matches Err(Error::DuplicateDomainName))
            &&& !f.domains.contains_key(domain_id) && !name_taken(f, domain)
                && inserted == Ok::<usize, SqliteError>(1) && committed is Ok ==> r is Ok
            &&& r is Err ==> after == f
            &&& r is Ok ==> after == StoreFile { domains: f.domains.insert(domain_id, domain), ..f }
            &&& store_invariant(f) ==> store_invariant(after)
            &&& r is Ok ==> forall|other: u32| #[trigger] after.domains.contains_key(other)
                && after.domains[other] == domain ==> other == domain_id
        }),
{
    let i = Ok::<bool, SqliteError>(f.domains.contains_key(domain_id));
    let n = Ok::<bool, SqliteError>(name_taken(f, domain));
    let calls = write_domain_calls(Ok(()), i, n, inserted, committed, domain_id, domain);
    let r = write_domain_result(Ok(()), i, n, inserted, committed);
    if r is Ok {
        reveal_with_fuel(apply_calls, 6);
        assert(calls.contains(SqlCall::Commit(SqlAnswer::Done))) by {
            assert(calls[4] == SqlCall::Commit(SqlAnswer::Done));
        }
        let after = apply_calls(f, calls);
        assert(after.domains =~= f.domains.insert(domain_id, domain));
        assert forall|a: u32, b: u32|
            after.domains.contains_key(a) && after.domains.contains_key(b) && after.domains[a] == after.domains[b]
            implies a == b || !store_invariant(f) by {
            if a != domain_id && b == domain_id {
                assert(f.domains.contains_key(a) && f.domains[a] == domain);
            } else if a == domain_id && b != domain_id {
                assert(f.domains.contains_key(b) && f.domains[b] == domain);
            }
        }
        assert forall|other: u32| #[trigger] after.domains.contains_key(other) && after.domains[other] == domain
            implies other == domain_id by {
            if other != domain_id {
                assert(f.domains.contains_key(other) && f.domains[other] == domain);
            }
        }
    } else if calls.contains(SqlCall::Commit(SqlAnswer::Done)) {
        let j = choose|j: int| 0 <= j < calls.len() && calls[j] == SqlCall::Commit(SqlAnswer::Done);
        assert(calls.len() == 5);
    }
}


/// Calls that run no statement (queries, preparations, the start of a
/// transaction) leave the file as it is.
pub proof fn lemma_reads_leave_file(f: StoreFile, calls: Seq<SqlCall>)
    requires
        forall|j: int| 0 <= j < calls.len() ==> !((#[trigger] calls[j]) is Execute),
    ensures
        apply_calls(f, calls) == f,
    decreases calls.len(),
{
    if calls.len() > 0 {
        lemma_reads_leave_file(f, calls.drop_last());
    }
}

// ---------------------------------------------------------------------------
// The operations as their contracts state them, on a file whose contents
// SQLite's recorded answers reflect.

/// Whether SQLite's answer recorded in `call` is the one the file `f` gives,
/// for the store's existence queries and for the reads of the application
/// id, the user version and the count of tables; whether the row count
/// SQLite reports for a statement is the one it has: one row for each of the
/// store's inserts, none for a statement without parameters (the setup
/// statements and pragmas, which run before any row is written on the
/// connection); and, the checksum VFS being registered as opening a store
/// requires, that `PRAGMA checksum_verification` answers "1". Other calls,
/// and failed ones, are not constrained.
pub open spec fn answered_from(f: StoreFile, call: SqlCall) -> bool {
    match call {
        SqlCall::QueryOne(sql, params, SqlAnswer::Flag(found)) => {
            if sql == DOMAIN_ID_EXISTS@ && params.len() == 1 && domain_id_value(params[0]) is Some {
                found == f.domains.contains_key(domain_id_value(params[0])->0)
            } else if sql == DOMAIN_NAME_EXISTS@ && params.len() == 1 && blob_value(params[0]) is Some {
                found == name_taken(f, blob_value(params[0])->0)
            } else if sql == KEY_EXISTS@ && params.len() == 2 && domain_id_value(params[0]) is Some
                && blob_value(params[1]) is Some {
                found == f.storage.contains_key((domain_id_value(params[0])->0, blob_value(params[1])->0))
            } else {
                true
            }
        },
        SqlCall::Execute(sql, params, SqlAnswer::Changed(n)) => {
            if params.len() == 0 {
                n == 0
            } else if sql == INSERT_KV@ || sql == INSERT_DOMAIN@ || sql == INSERT_METADATA@ {
                n == 1
            } else {
                true
            }
        },
        SqlCall::QueryOne(sql, params, SqlAnswer::Text(t)) => {
            sql == "PRAGMA checksum_verification;"@ ==> t == "1"@
        },
        SqlCall::QueryOne(sql, params, SqlAnswer::Integer(n)) => {
            if sql == "PRAGMA application_id;"@ {
                n == f.application_id as int
            } else if sql == "PRAGMA user_version;"@ {
                n == f.user_version as int
            } else if sql == COUNT_TABLES@ {
                n == f.table_count as int
            } else {
                true
            }
        },
        _ => true,
    }
}

/// Every answer recorded in `calls` is one the file `f` gives.
pub open spec fn answers_from(f: StoreFile, calls: Seq<SqlCall>) -> bool {
    forall|j: int| 0 <= j < calls.len() ==> answered_from(f, #[trigger] calls[j])
}

/// A transaction that committed nothing leaves the file as it was.
proof fn lemma_no_commit_no_change(f: StoreFile, calls: Seq<SqlCall>)
    requires
        forall|j: int| 0 <= j < calls.len() && commits(#[trigger] calls[j]) ==> calls[j] != SqlCall::Commit(SqlAnswer::Done),
    ensures
        after_transaction(f, calls) == f,
{
    if calls.contains(SqlCall::Commit(SqlAnswer::Done)) {
        let j = choose|j: int| 0 <= j < calls.len() && calls[j] == SqlCall::Commit(SqlAnswer::Done);
        assert(commits(calls[j]));
    }
}

/// A call of `write_kv(domain_id, key, value)` that met its contract, the
/// record going from `before` to `after`, on a file `f` that SQLite's
/// answers reflect: it succeeds only when the domain exists and the key is
/// new, and then the file holds `value` under the key with nothing else
/// changed; every failure leaves the file as it was; an unknown domain
/// gives `UnknownDomainId` and a taken key `DuplicateKey`, unless a SQLite
/// call failed first; the store's invariant is kept.
pub proof fn law_write_kv_on_file(
    f: StoreFile,
    r: Result<(), Error>,
    before: Seq<SqlCall>,
    after: Seq<SqlCall>,
    domain_id: u32,
    key: Seq<u8>,
    value: Seq<u8>,
)
    requires
        write_kv_done(r, before, after, domain_id, key, value),
        answers_from(f, after.skip(before.len() as int)),
    ensures
        ({
            let f2 = after_transaction(f, after.skip(before.len() as int));
            &&& r is Ok ==> f.domains.contains_key(domain_id) && !f.storage.contains_key((domain_id, key))
                && f2 == StoreFile { storage: f.storage.insert((domain_id, key), value), ..f }
            &&& r is Err ==> f2 == f
            &&& !f.domains.contains_key(domain_id) ==>
                (r matches Err(Error::UnknownDomainId) || r matches Err(Error::Rusqlite(_, _)))
            &&& f.domains.contains_key(domain_id) && f.storage.contains_key((domain_id, key)) ==>
                (r matches Err(Error::DuplicateKey) || r matches Err(Error::Rusqlite(_, _)))
            &&& f.domains.contains_key(domain_id) && !f.storage.contains_key((domain_id, key)) ==>
                (r is Ok || r matches Err(Error::Rusqlite(_, _)))
            &&& store_invariant(f) ==> store_invariant(f2)
            &&& no_failure(after.skip(before.len() as int)) ==> !(r matches Err(Error::Rusqlite(_, _)))
            &&& f.domains.contains_key(domain_id) && !f.storage.contains_key((domain_id, key))
                && no_failure(after.skip(before.len() as int)) ==> r is Ok
        }),
{
    let (b, d, k, w, c): (
        core::result::Result<(), SqliteError>,
        core::result::Result<bool, SqliteError>,
        core::result::Result<bool, SqliteError>,
        core::result::Result<usize, SqliteError>,
        core::result::Result<(), SqliteError>,
    ) = choose|
        b: core::result::Result<(), SqliteError>,
        d: core::result::Result<bool, SqliteError>,
        k: core::result::Result<bool, SqliteError>,
        w: core::result::Result<usize, SqliteError>,
        c: core::result::Result<(), SqliteError>,
    | #[trigger] write_kv_result(b, d, k, w, c) == r
        && after == before + write_kv_calls(b, d, k, w, c, domain_id, key, value);
    let calls = write_kv_calls(b, d, k, w, c, domain_id, key, value);
    assert(after.skip(before.len() as int) =~= calls);
    if no_failure(calls) {
        assert(answer_of(calls[0]) == done_answer(b));
        if calls.len() > 1 { assert(answer_of(calls[1]) == flag_answer(d)); }
        if calls.len() > 2 { assert(answer_of(calls[2]) == flag_answer(k)); }
        if calls.len() > 3 { assert(answer_of(calls[3]) == changed_answer(w)); }
        if calls.len() > 4 { assert(answer_of(calls[4]) == done_answer(c)); }
    }
    law_write_kv_calls(b, d, k, w, c, domain_id, key, value);
    if b is Ok && d is Ok {
        assert(answered_from(f, calls[1]));
        assert(domain_id_value(SqlValue::Integer(domain_id as int)) == Some(domain_id));
        if d == Ok::<bool, SqliteError>(true) && k is Ok {
            assert(answered_from(f, calls[2]));
            assert(blob_value(SqlValue::Blob(key)) == Some(key));
            if k == Ok::<bool, SqliteError>(false) {
                assert(answered_from(f, calls[3]));
            }
        }
    }
    if r is Ok {
        law_write_kv_effect(f, domain_id, key, value, w, c);
    } else {
        lemma_no_commit_no_change(f, calls);
    }
}

/// A call of `write_domain(domain_id, domain)` that met its contract, on a
/// file `f` that SQLite's answers reflect: it succeeds only when the id and
/// the name are both new, and then the file holds the new domain with
/// nothing else changed, and the name belongs to no other id; every failure
/// leaves the file as it was; a taken id gives `DuplicateDomainId` and a
/// taken name `DuplicateDomainName`, unless a SQLite call failed first; the
/// store's invariant is kept.
pub proof fn law_write_domain_on_file(
    f: StoreFile,
    r: Result<(), Error>,
    before: Seq<SqlCall>,
    after: Seq<SqlCall>,
    domain_id: u32,
    domain: Seq<u8>,
)
    requires
        write_domain_done(r, before, after, domain_id, domain),
        answers_from(f, after.skip(before.len() as int)),
    ensures
        ({
            let f2 = after_transaction(f, after.skip(before.len() as int));
            &&& r is Ok ==> !f.domains.contains_key(domain_id) && !name_taken(f, domain)
                && f2 == StoreFile { domains: f.domains.insert(domain_id, domain), ..f }
            &&& r is Err ==> f2 == f
            &&& f.domains.contains_key(domain_id) ==>
                (r matches Err(Error::DuplicateDomainId) || r matches Err(Error::Rusqlite(_, _)))
            &&& !f.domains.contains_key(domain_id) && name_taken(f, domain) ==>
                (r matches Err(Error::DuplicateDomainName) || r matches Err(Error::Rusqlite(_, _)))
            &&& !f.domains.contains_key(domain_id) && !name_taken(f, domain) ==>
                (r is Ok || r matches Err(Error::Rusqlite(_, _)))
            &&& store_invariant(f) ==> store_invariant(f2)
            &&& no_failure(after.skip(before.len() as int)) ==> !(r matches Err(Error::Rusqlite(_, _)))
            &&& !f.domains.contains_key(domain_id) && !name_taken(f, domain)
                && no_failure(after.skip(before.len() as int)) ==> r is Ok
            &&& r is Ok ==> forall|other: u32| #[trigger] f2.domains.contains_key(other)
                && f2.domains[other] == domain ==> other == domain_id
        }),
{
    let (b, i, n, w, c): (
        core::result::Result<(), SqliteError>,
        core::result::Result<bool, SqliteError>,
        core::result::Result<bool, SqliteError>,
        core::result::Result<usize, SqliteError>,
        core::result::Result<(), SqliteError>,
    ) = choose|
        b: core::result::Result<(), SqliteError>,
        i: core::result::Result<bool, SqliteError>,
        n: core::result::Result<bool, SqliteError>,
        w: core::result::Result<usize, SqliteError>,
        c: core::result::Result<(), SqliteError>,
    | #[trigger] write_domain_result(b, i, n, w, c) == r
        && after == before + write_domain_calls(b, i, n, w, c, domain_id, domain);
    let calls = write_domain_calls(b, i, n, w, c, domain_id, domain);
    assert(after.skip(before.len() as int) =~= calls);
    if no_failure(calls) {
        assert(answer_of(calls[0]) == done_answer(b));
        if calls.len() > 1 { assert(answer_of(calls[1]) == flag_answer(i)); }
        if calls.len() > 2 { assert(answer_of(calls[2]) == flag_answer(n)); }
        if calls.len() > 3 { assert(answer_of(calls[3]) == changed_answer(w)); }
        if calls.len() > 4 { assert(answer_of(calls[4]) == done_answer(c)); }
    }
    law_write_domain_calls(b, i, n, w, c, domain_id, domain);
    if b is Ok && i is Ok {
        assert(answered_from(f, calls[1]));
        assert(domain_id_value(SqlValue::Integer(domain_id as int)) == Some(domain_id));
        if i == Ok::<bool, SqliteError>(false) && n is Ok {
            assert(answered_from(f, calls[2]));
            assert(blob_value(SqlValue::Blob(domain)) == Some(domain));
            if n == Ok::<bool, SqliteError>(false) {
                assert(answered_from(f, calls[3]));
            }
        }
    }
    if r is Ok {
        law_write_domain_effect(f, domain_id, domain, w, c);
    } else {
        lemma_no_commit_no_change(f, calls);
    }
}

/// The three version reads, recorded with answers that a file reflects,
/// read that file's application id, user version and count of tables.
proof fn lemma_version_reads(
    f: StoreFile,
    m: core::result::Result<i32, SqliteError>,
    v: core::result::Result<u32, SqliteError>,
    t: core::result::Result<u32, SqliteError>,
)
    requires
        answered_from(f, SqlCall::QueryOne("PRAGMA application_id;"@, Seq::empty(), i32_answer(m))),
        m is Ok ==> answered_from(f, SqlCall::QueryOne("PRAGMA user_version;"@, Seq::empty(), u32_answer(v))),
        m is Ok && v is Ok ==> answered_from(f, SqlCall::QueryOne(COUNT_TABLES@, Seq::empty(), u32_answer(t))),
    ensures
        m is Ok ==> m == Ok::<i32, SqliteError>(f.application_id),
        m is Ok && v is Ok ==> v == Ok::<u32, SqliteError>(f.user_version),
        m is Ok && v is Ok && t is Ok ==> (t matches Ok(n) && n == f.table_count),
{
    reveal_strlit("PRAGMA application_id;");
    reveal_strlit("PRAGMA user_version;");
    reveal_strlit("SELECT count(*) FROM sqlite_master WHERE type='table';");
    assert("PRAGMA user_version;"@ != "PRAGMA application_id;"@) by {
        assert("PRAGMA user_version;"@.len() != "PRAGMA application_id;"@.len());
    }
    assert(COUNT_TABLES@ != "PRAGMA application_id;"@) by {
        assert(COUNT_TABLES@.len() != "PRAGMA application_id;"@.len());
    }
    assert(COUNT_TABLES@ != "PRAGMA user_version;"@) by {
        assert(COUNT_TABLES@.len() != "PRAGMA user_version;"@.len());
    }
}

/// A call of the writer's version check that met its contract, on a file
/// `f` that SQLite's answers reflect: it succeeds only on a file with no
/// table, no application id and no user version, which it then leaves
/// tagged with the store's id and version, or on a file with tables
/// carrying the store's id and version, which it leaves as it is; it changes
/// no other file; on a file with tables and the store's id but another
/// version it gives `VersionNotMatch` with the library's version and the
/// file's, and on any other file but an untagged new one `NotABeKVDatabase`,
/// unless a SQLite call failed first.
pub proof fn law_check_or_write_version_on_file(f: StoreFile, r: Result<(), Error>, before: Seq<SqlCall>, after: Seq<SqlCall>)
    requires
        check_or_write_version_done(r, before, after),
        answers_from(f, after.skip(before.len() as int)),
    ensures
        ({
            let f2 = apply_calls(f, after.skip(before.len() as int));
            let untagged_new = f.table_count == 0 && f.application_id == 0 && f.user_version == 0;
            let tagged = f.table_count != 0 && f.application_id == MAGIC && f.user_version == VERSION;
            &&& r is Ok ==> untagged_new || tagged
            &&& f2 == StoreFile { application_id: f2.application_id, user_version: f2.user_version, ..f }
            &&& untagged_new ==> (r is Ok || r matches Err(Error::Rusqlite(_, _)))
            &&& (untagged_new || tagged) && no_failure(after.skip(before.len() as int)) ==> r is Ok
            &&& no_failure(after.skip(before.len() as int)) ==> !(r matches Err(Error::Rusqlite(_, _)))
            &&& untagged_new && r is Ok ==> f2 == StoreFile { application_id: MAGIC, user_version: VERSION, ..f }
            &&& !untagged_new ==> f2 == f
            &&& tagged ==> (r is Ok || r matches Err(Error::Rusqlite(_, _)))
            &&& f.table_count != 0 && f.application_id == MAGIC && f.user_version != VERSION ==>
                ((r matches Err(Error::VersionNotMatch { exp, cur }) && exp == VERSION && cur == f.user_version)
                    || r matches Err(Error::Rusqlite(_, _)))
            &&& !untagged_new && !(f.table_count != 0 && f.application_id == MAGIC) ==>
                (r matches Err(Error::NotABeKVDatabase) || r matches Err(Error::Rusqlite(_, _)))
        }),
{
    let (m, v, t, a, b): (
        core::result::Result<i32, SqliteError>,
        core::result::Result<u32, SqliteError>,
        core::result::Result<u32, SqliteError>,
        core::result::Result<usize, SqliteError>,
        core::result::Result<usize, SqliteError>,
    ) = choose|
        m: core::result::Result<i32, SqliteError>,
        v: core::result::Result<u32, SqliteError>,
        t: core::result::Result<u32, SqliteError>,
        a: core::result::Result<usize, SqliteError>,
        b: core::result::Result<usize, SqliteError>,
    | #[trigger] check_or_write_version_result(m, v, t, a, b) == r
        && after == before + check_or_write_version_calls(m, v, t, a, b);
    let calls = check_or_write_version_calls(m, v, t, a, b);
    assert(after.skip(before.len() as int) =~= calls);
    assert(answered_from(f, calls[0]));
    if m is Ok {
        assert(answered_from(f, calls[1]));
    }
    if m is Ok && v is Ok {
        assert(answered_from(f, calls[2]));
    }
    if no_failure(calls) {
        assert(answer_of(calls[0]) == i32_answer(m));
        if m is Ok {
            assert(answer_of(calls[1]) == u32_answer(v));
        }
        if m is Ok && v is Ok {
            assert(answer_of(calls[2]) == u32_answer(t));
        }
        if calls.len() > 3 {
            assert(answer_of(calls[3]) == changed_answer(a));
        }
        if calls.len() > 4 {
            assert(answer_of(calls[4]) == changed_answer(b));
        }
    }
    lemma_version_reads(f, m, v, t);
    let read_magic = SqlCall::QueryOne("PRAGMA application_id;"@, Seq::empty(), i32_answer(m));
    let read_version = SqlCall::QueryOne("PRAGMA user_version;"@, Seq::empty(), u32_answer(v));
    let reads = seq![read_magic, read_version, SqlCall::QueryOne(COUNT_TABLES@, Seq::empty(), u32_answer(t))];
    lemma_reads_leave_file(f, reads);
    let untagged_new = f.table_count == 0 && f.application_id == 0 && f.user_version == 0;
    if m is Ok && v is Ok && t is Ok && untagged_new {
        let set_magic = SqlCall::Execute(SET_MAGIC_STMT@, Seq::empty(), changed_answer(a));
        let set_version = SqlCall::Execute(SET_VERSION_STMT@, Seq::empty(), changed_answer(b));
        reveal_strlit("PRAGMA application_id=0x42654b56;");
        reveal_strlit("PRAGMA user_version=1;");
        assert(SET_MAGIC_STMT@ != SET_VERSION_STMT@) by {
            assert(SET_MAGIC_STMT@.len() != SET_VERSION_STMT@.len());
        }
        assert(answered_from(f, calls[3]));
        if a == Ok::<usize, SqliteError>(0) {
            assert(answered_from(f, calls[4]));
        }
        if calls.len() == 5 {
            assert(calls == reads + seq![set_magic, set_version]);
            assert(calls.drop_last() =~= reads.push(set_magic));
            assert(calls.drop_last().drop_last() =~= reads);
            assert(apply_calls(f, calls.drop_last()) == apply_call(apply_calls(f, reads), set_magic));
            assert(apply_calls(f, calls) == apply_call(apply_call(f, set_magic), set_version));
        } else {
            assert(calls == reads.push(set_magic));
            assert(calls.drop_last() =~= reads);
            assert(apply_calls(f, calls) == apply_call(apply_calls(f, reads), set_magic));
        }
    } else {
        if m is Ok && v is Ok && t is Ok {
            assert(calls == reads);
        } else {
            lemma_reads_leave_file(f, calls);
        }
    }
}

/// A call of the reader's version check that met its contract, on a file
/// `f` that SQLite's answers reflect: it changes nothing; it succeeds only
/// on a file with tables carrying the store's id and version, and on such a
/// file it succeeds unless a SQLite call failed; on a file with tables it
/// gives what the writer's check gives there.
pub proof fn law_check_version_on_file(f: StoreFile, r: Result<(), Error>, before: Seq<SqlCall>, after: Seq<SqlCall>)
    requires
        check_version_done(r, before, after),
        answers_from(f, after.skip(before.len() as int)),
    ensures
        apply_calls(f, after.skip(before.len() as int)) == f,
        r is Ok ==> f.table_count != 0 && f.application_id == MAGIC && f.user_version == VERSION,
        f.table_count != 0 && f.application_id == MAGIC && f.user_version == VERSION ==>
            (r is Ok || r matches Err(Error::Rusqlite(_, _))),
        f.table_count != 0 && f.application_id == MAGIC && f.user_version != VERSION ==>
            ((r matches Err(Error::VersionNotMatch { exp, cur }) && exp == VERSION && cur == f.user_version)
                || r matches Err(Error::Rusqlite(_, _))),
        !(f.table_count != 0 && f.application_id == MAGIC) ==>
            (r matches Err(Error::NotABeKVDatabase) || r matches Err(Error::Rusqlite(_, _))),
        f.table_count != 0 && f.application_id == MAGIC && f.user_version == VERSION
            && no_failure(after.skip(before.len() as int)) ==> r is Ok,
        no_failure(after.skip(before.len() as int)) ==> !(r matches Err(Error::Rusqlite(_, _))),
{
    let (m, v, t): (
        core::result::Result<i32, SqliteError>,
        core::result::Result<u32, SqliteError>,
        core::result::Result<u32, SqliteError>,
    ) = choose|
        m: core::result::Result<i32, SqliteError>,
        v: core::result::Result<u32, SqliteError>,
        t: core::result::Result<u32, SqliteError>,
    | #[trigger] check_version_result(m, v, t) == r && after == before + check_version_calls(m, v, t);
    let calls = check_version_calls(m, v, t);
    assert(after.skip(before.len() as int) =~= calls);
    assert(answered_from(f, calls[0]));
    if m is Ok {
        assert(answered_from(f, calls[1]));
    }
    if m is Ok && v is Ok {
        assert(answered_from(f, calls[2]));
    }
    if no_failure(calls) {
        assert(answer_of(calls[0]) == i32_answer(m));
        if m is Ok {
            assert(answer_of(calls[1]) == u32_answer(v));
        }
        if m is Ok && v is Ok {
            assert(answer_of(calls[2]) == u32_answer(t));
        }
    }
    lemma_version_reads(f, m, v, t);
    lemma_reads_leave_file(f, calls);
}

/// The answers to the reads of rows that `calls` record, in order.
pub open spec fn rows_read(calls: Seq<SqlCall>) -> Seq<SqlAnswer>
    decreases calls.len(),
{
    if calls.len() == 0 {
        Seq::empty()
    } else {
        match calls.last() {
            SqlCall::NextRow(_, a) => rows_read(calls.drop_last()).push(a),
            _ => rows_read(calls.drop_last()),
        }
    }
}

/// Whether the `k`-th read of a query's rows answers from `rows`, the rows
/// the query found when it started: that row, or that there is none, unless
/// the read failed.
pub open spec fn row_read_from(rows: Seq<Seq<u8>>, k: int, a: SqlAnswer) -> bool {
    a is Failed || (if k < rows.len() { a == SqlAnswer::Bytes(rows[k]) } else { a == SqlAnswer::NoRow })
}

/// Whether every read of rows answers from `rows`, in order.
pub open spec fn reads_from(rows: Seq<Seq<u8>>, answers: Seq<SqlAnswer>) -> bool {
    forall|k: int| 0 <= k < answers.len() ==> row_read_from(rows, k, #[trigger] answers[k])
}

proof fn lemma_rows_read_push(calls: Seq<SqlCall>, c: SqlCall)
    ensures
        rows_read(calls.push(c)) == (match c {
            SqlCall::NextRow(_, a) => rows_read(calls).push(a),
            _ => rows_read(calls),
        }),
{
    assert(calls.push(c).drop_last() =~= calls);
}

/// A call of the writer's metadata check with identity `ident` that met its
/// contract, on a file `f` whose metadata rows SQLite's reads reflect: a
/// table holding rows is left as it is, and the check succeeds when it holds
/// exactly one row with `ident`, gives `IdentNotMatch` with `ident` and the
/// stored identity when the first row differs, and
/// `Invariant("more than 1 rows in metadata table")` when a matching first
/// row is followed by another; an empty table, once the check succeeded,
/// holds exactly the row with `ident`. Failed SQLite calls aside, these are
/// the only outcomes; a failed read of a second row counts as a second row.
pub proof fn law_check_or_write_metadata_on_file(
    f: StoreFile,
    r: Result<(), Error>,
    before: Seq<SqlCall>,
    after: Seq<SqlCall>,
    ident: Box<[u8]>,
)
    requires
        check_or_write_metadata_done(r, before, after, ident),
        reads_from(f.metadata, rows_read(after.skip(before.len() as int))),
        answers_from(f, after.skip(before.len() as int)),
    ensures
        ({
            let f2 = apply_calls(f, after.skip(before.len() as int));
            &&& f2 == StoreFile { metadata: f2.metadata, ..f }
            &&& r is Ok ==> f.metadata.len() == 0 || (f.metadata.len() == 1 && f.metadata[0] == ident@)
            &&& f.metadata.len() == 0 ==> (r is Ok || r matches Err(Error::Rusqlite(_, _))
                || (r matches Err(Error::Invariant(msg)) && msg == "more than 1 rows in metadata table"))
            &&& f.metadata.len() == 0 && r is Ok ==> f2 == StoreFile { metadata: seq![ident@], ..f }
            &&& no_failure(after.skip(before.len() as int)) ==> {
                &&& f.metadata.len() == 0 ==> r is Ok
                &&& f.metadata.len() == 1 && f.metadata[0] == ident@ ==> r is Ok
                &&& f.metadata.len() > 0 && f.metadata[0] != ident@ ==>
                    (r matches Err(Error::IdentNotMatch { exp, cur }) && exp == ident && cur@ == f.metadata[0])
            }
            &&& f.metadata.len() > 0 ==> f2 == f
            &&& f.metadata.len() > 0 && f.metadata[0] != ident@ ==>
                ((r matches Err(Error::IdentNotMatch { exp, cur }) && exp == ident && cur@ == f.metadata[0])
                    || r matches Err(Error::Rusqlite(_, _)))
            &&& f.metadata.len() == 1 && f.metadata[0] == ident@ ==>
                (r is Ok || r matches Err(Error::Rusqlite(_, _))
                    || (r matches Err(Error::Invariant(msg)) && msg == "more than 1 rows in metadata table"))
            &&& f.metadata.len() > 1 && f.metadata[0] == ident@ ==>
                ((r matches Err(Error::Invariant(msg)) && msg == "more than 1 rows in metadata table")
                    || r matches Err(Error::Rusqlite(_, _)))
        }),
{
    let (p, s, fr, i, sec): (
        core::result::Result<(), SqliteError>,
        core::result::Result<(), SqliteError>,
        Option<core::result::Result<Box<[u8]>, SqliteError>>,
        core::result::Result<usize, SqliteError>,
        Option<core::result::Result<Box<[u8]>, SqliteError>>,
    ) = choose|
        p: core::result::Result<(), SqliteError>,
        s: core::result::Result<(), SqliteError>,
        fr: Option<core::result::Result<Box<[u8]>, SqliteError>>,
        i: core::result::Result<usize, SqliteError>,
        sec: Option<core::result::Result<Box<[u8]>, SqliteError>>,
    | #[trigger] check_or_write_metadata_result(p, s, fr, i, sec, ident) == r
        && after == before + check_or_write_metadata_calls(p, s, fr, i, sec, ident);
    let calls = check_or_write_metadata_calls(p, s, fr, i, sec, ident);
    assert(after.skip(before.len() as int) =~= calls);
    let c0 = SqlCall::Prepare("SELECT * FROM metadata"@, done_answer(p));
    let c1 = SqlCall::StatementQuery(Seq::empty(), done_answer(s));
    let c2 = SqlCall::NextRow(1, row_answer(fr));
    let c3 = insert_metadata_call(ident@, i);
    let c4 = SqlCall::NextRow(1, row_answer(sec));
    let e = Seq::<SqlCall>::empty();
    lemma_rows_read_push(e, c0);
    lemma_rows_read_push(e.push(c0), c1);
    lemma_rows_read_push(e.push(c0).push(c1), c2);
    lemma_rows_read_push(e.push(c0).push(c1).push(c2), c3);
    lemma_rows_read_push(e.push(c0).push(c1).push(c2), c4);
    lemma_rows_read_push(e.push(c0).push(c1).push(c2).push(c3), c4);
    assert(rows_read(e) =~= Seq::<SqlAnswer>::empty());
    if no_failure(calls) {
        assert(answer_of(calls[0]) == done_answer(p));
        if p is Ok {
            assert(answer_of(calls[1]) == done_answer(s));
        }
    }
    if p is Ok && s is Ok {
        let h = e.push(c0).push(c1).push(c2);
        assert(rows_read(h) =~= seq![row_answer(fr)]);
        let head = seq![c0, c1, c2];
        assert(head =~= h);
        lemma_reads_leave_file(f, head);
        let first_ok = crate::init::first_metadata_row_result(fr, i, ident) is Ok;
        if fr is None {
            assert(calls[3] == c3);
            assert(answered_from(f, c3));
        }
        if fr is None && first_ok {
            assert(calls =~= h.push(c3).push(c4));
            assert(rows_read(calls) =~= seq![row_answer(fr), row_answer(sec)]);
        } else if fr is None {
            assert(calls =~= h.push(c3));
            assert(rows_read(calls) =~= seq![row_answer(fr)]);
        } else if first_ok {
            assert(calls =~= h.push(c4));
            assert(rows_read(calls) =~= seq![row_answer(fr), row_answer(sec)]);
        } else {
            assert(calls =~= h);
        }
        if no_failure(calls) {
            assert(answer_of(calls[2]) == row_answer(fr));
            if fr is None && calls.len() > 3 {
                assert(answer_of(calls[3]) == changed_answer(i));
            }
            if calls.len() == 5 {
                assert(answer_of(calls[4]) == row_answer(sec));
            }
            if fr is Some && calls.len() == 4 {
                assert(answer_of(calls[3]) == row_answer(sec));
            }
        }
        let answers = rows_read(calls);
        assert(answers[0] == row_answer(fr));
        assert(row_read_from(f.metadata, 0, answers[0]));
        if first_ok {
            assert(answers[1] == row_answer(sec));
            assert(row_read_from(f.metadata, 1, answers[1]));
        }
        if fr is None {
            reveal_strlit("INSERT INTO metadata (id, ident) VALUES (?, ?)");
            reveal_strlit("INSERT INTO domains (domain_id, domain) VALUES (?, ?)");
            assert(INSERT_METADATA@ != INSERT_DOMAIN@) by {
                assert(INSERT_METADATA@.len() != INSERT_DOMAIN@.len());
            }
            if first_ok {
                assert(calls.drop_last().drop_last() =~= head);
                assert(calls.drop_last() =~= head.push(c3));
                assert(apply_calls(f, calls.drop_last()) == apply_call(apply_calls(f, head), c3));
                assert(apply_calls(f, calls) == apply_call(apply_calls(f, calls.drop_last()), calls.last()));
                assert(f.metadata.push(ident@) =~= seq![ident@]);
            } else {
                assert(calls.drop_last() =~= head);
                assert(apply_calls(f, calls) == apply_call(apply_calls(f, head), c3));
            }
        } else {
            lemma_reads_leave_file(f, calls);
        }
    } else {
        lemma_reads_leave_file(f, calls);
    }
}

// ---------------------------------------------------------------------------
// Lookups, and reading back what was written.

/// Whether SQLite's answer `a` to the lookup `sql` with `params` is one the
/// file `f` gives: the row the file holds for it, or a failure (which is
/// also what SQLite answers when the file holds no such row).
pub open spec fn lookup_answered_from(f: StoreFile, sql: Seq<char>, params: Seq<SqlValue>, a: SqlAnswer) -> bool {
    if sql == VALUE_BY_KEY@ && params.len() == 2 && domain_id_value(params[0]) is Some && blob_value(params[1]) is Some {
        let k = (domain_id_value(params[0])->0, blob_value(params[1])->0);
        a is Failed || (f.storage.contains_key(k) && a == SqlAnswer::Bytes(f.storage[k]))
    } else if sql == DOMAIN_NAME_BY_ID@ && params.len() == 1 && domain_id_value(params[0]) is Some {
        let id = domain_id_value(params[0])->0;
        a is Failed || (f.domains.contains_key(id) && a == SqlAnswer::Bytes(f.domains[id]))
    } else if sql == DOMAIN_ID_BY_NAME@ && params.len() == 1 && blob_value(params[0]) is Some {
        let name = blob_value(params[0])->0;
        a is Failed || (a matches SqlAnswer::Integer(n) && 0 <= n <= u32::MAX
            && f.domains.contains_key(n as u32) && f.domains[n as u32] == name
            && forall|m: u32| #[trigger] f.domains.contains_key(m) && f.domains[m] == name ==> m == n as u32)
    } else if sql == KEY_BY_VALUE@ && params.len() == 2 && domain_id_value(params[0]) is Some
        && blob_value(params[1]) is Some {
        let id = domain_id_value(params[0])->0;
        a is Failed || (a matches SqlAnswer::Bytes(k) && f.storage.contains_key((id, k))
            && f.storage[(id, k)] == blob_value(params[1])->0
            && forall|k2: Seq<u8>| #[trigger] f.storage.contains_key((id, k2))
                && f.storage[(id, k2)] == blob_value(params[1])->0 ==> k2 == k)
    } else {
        true
    }
}

/// Whether some key holds `value` in domain `id` of the file `f`.
pub open spec fn value_held(f: StoreFile, id: u32, value: Seq<u8>) -> bool {
    exists|k: Seq<u8>| #[trigger] f.storage.contains_key((id, k)) && f.storage[(id, k)] == value
}

/// Every answer to a run of the prepared lookup `sql` that `calls` record is
/// one the file `f` gives.
pub open spec fn lookups_from(f: StoreFile, sql: Seq<char>, calls: Seq<SqlCall>) -> bool {
    forall|j: int| 0 <= j < calls.len() ==> (#[trigger] calls[j] matches SqlCall::StatementQueryOne(ps, a)
        ==> lookup_answered_from(f, sql, ps, a))
}

/// The calls of a lookup, on a file whose contents its answer reflects,
/// leave the file as it is, and what the lookup gives is the answer.
proof fn lemma_lookup_calls(
    f: StoreFile,
    p: core::result::Result<(), SqliteError>,
    a: SqlAnswer,
    sql: Seq<char>,
    params: Seq<SqlValue>,
)
    requires
        lookups_from(f, sql, lookup_calls(p, a, sql, params)),
    ensures
        apply_calls(f, lookup_calls(p, a, sql, params)) == f,
        p is Ok ==> lookup_answered_from(f, sql, params, a),
        no_failure(lookup_calls(p, a, sql, params)) ==> p is Ok && !(a is Failed),
{
    let calls = lookup_calls(p, a, sql, params);
    lemma_reads_leave_file(f, calls);
    assert(answer_of(calls[0]) == done_answer(p));
    if p is Ok {
        assert(calls[1] == SqlCall::StatementQueryOne(params, a));
        assert(answer_of(calls[1]) == a);
    }
}

/// A call of `get_value_by_key(domain_id, key)` that met its contract, on a
/// file `f` its answer reflects: it changes nothing, and a value it gives is
/// the one the file holds under the key; when the file holds none, it fails.
pub proof fn law_get_value_by_key_on_file(
    f: StoreFile,
    r: Result<Box<[u8]>, Error>,
    before: Seq<SqlCall>,
    after: Seq<SqlCall>,
    domain_id: u32,
    key: Seq<u8>,
)
    requires
        bytes_lookup_done(r, before, after, VALUE_BY_KEY@, seq![SqlValue::Integer(domain_id as int), SqlValue::Blob(key)],
            "get_value_by_key: prepare", "get_value_by_key: get"),
        lookups_from(f, VALUE_BY_KEY@, after.skip(before.len() as int)),
    ensures
        apply_calls(f, after.skip(before.len() as int)) == f,
        r matches Ok(v) ==> f.storage.contains_key((domain_id, key)) && v@ == f.storage[(domain_id, key)],
        !f.storage.contains_key((domain_id, key)) ==> r matches Err(Error::Rusqlite(_, _)),
        f.storage.contains_key((domain_id, key)) && no_failure(after.skip(before.len() as int)) ==> r is Ok,
{
    let params = seq![SqlValue::Integer(domain_id as int), SqlValue::Blob(key)];
    let (p, fo): (core::result::Result<(), SqliteError>, core::result::Result<Box<[u8]>, SqliteError>) =
        choose|p: core::result::Result<(), SqliteError>, fo: core::result::Result<Box<[u8]>, SqliteError>|
            #[trigger] lookup_result(p, fo, "get_value_by_key: prepare", "get_value_by_key: get") == r
                && after == before + lookup_calls(p, bytes_answer(fo), VALUE_BY_KEY@, params);
    assert(after.skip(before.len() as int) =~= lookup_calls(p, bytes_answer(fo), VALUE_BY_KEY@, params));
    lemma_lookup_calls(f, p, bytes_answer(fo), VALUE_BY_KEY@, params);
    assert(domain_id_value(params[0]) == Some(domain_id));
    assert(blob_value(params[1]) == Some(key));
}

/// A call of `get_key_by_value(domain_id, value)` that met its contract, on
/// a file `f` its answer reflects: it changes nothing, and a key it gives is
/// one under which the file holds `value` in that domain.
pub proof fn law_get_key_by_value_on_file(
    f: StoreFile,
    r: Result<Box<[u8]>, Error>,
    before: Seq<SqlCall>,
    after: Seq<SqlCall>,
    domain_id: u32,
    value: Seq<u8>,
)
    requires
        bytes_lookup_done(r, before, after, KEY_BY_VALUE@, seq![SqlValue::Integer(domain_id as int), SqlValue::Blob(value)],
            "get_key_by_value: prepare", "get_key_by_value: get"),
        lookups_from(f, KEY_BY_VALUE@, after.skip(before.len() as int)),
    ensures
        apply_calls(f, after.skip(before.len() as int)) == f,
        r matches Ok(k) ==> f.storage.contains_key((domain_id, k@)) && f.storage[(domain_id, k@)] == value,
        r matches Ok(k) ==> forall|k2: Seq<u8>| #[trigger] f.storage.contains_key((domain_id, k2))
            && f.storage[(domain_id, k2)] == value ==> k2 == k@,
        !value_held(f, domain_id, value) ==> r matches Err(Error::Rusqlite(_, _)),
        no_failure(after.skip(before.len() as int)) ==> r is Ok,
{
    let params = seq![SqlValue::Integer(domain_id as int), SqlValue::Blob(value)];
    let (p, fo): (core::result::Result<(), SqliteError>, core::result::Result<Box<[u8]>, SqliteError>) =
        choose|p: core::result::Result<(), SqliteError>, fo: core::result::Result<Box<[u8]>, SqliteError>|
            #[trigger] lookup_result(p, fo, "get_key_by_value: prepare", "get_key_by_value: get") == r
                && after == before + lookup_calls(p, bytes_answer(fo), KEY_BY_VALUE@, params);
    assert(after.skip(before.len() as int) =~= lookup_calls(p, bytes_answer(fo), KEY_BY_VALUE@, params));
    lemma_lookup_calls(f, p, bytes_answer(fo), KEY_BY_VALUE@, params);
    assert(domain_id_value(params[0]) == Some(domain_id));
    assert(blob_value(params[1]) == Some(value));
    reveal_strlit("SELECT value FROM storage WHERE domain_id = ? AND key = ?");
    reveal_strlit("SELECT key FROM storage WHERE domain_id = ? AND value = ?");
    assert(KEY_BY_VALUE@ != VALUE_BY_KEY@) by {
        assert(KEY_BY_VALUE@[7] != VALUE_BY_KEY@[7]);
    }
}

/// A call of `get_domain_name_by_id(domain_id)` that met its contract, on a
/// file `f` its answer reflects: it changes nothing, and a name it gives is
/// the one the file holds for the id; an unknown id fails.
pub proof fn law_get_domain_name_by_id_on_file(
    f: StoreFile,
    r: Result<Box<[u8]>, Error>,
    before: Seq<SqlCall>,
    after: Seq<SqlCall>,
    domain_id: u32,
)
    requires
        bytes_lookup_done(r, before, after, DOMAIN_NAME_BY_ID@, seq![SqlValue::Integer(domain_id as int)],
            "get_domain_name_by_id: prepare", "get_domain_name_by_id: get"),
        lookups_from(f, DOMAIN_NAME_BY_ID@, after.skip(before.len() as int)),
    ensures
        apply_calls(f, after.skip(before.len() as int)) == f,
        r matches Ok(name) ==> f.domains.contains_key(domain_id) && name@ == f.domains[domain_id],
        !f.domains.contains_key(domain_id) ==> r matches Err(Error::Rusqlite(_, _)),
        f.domains.contains_key(domain_id) && no_failure(after.skip(before.len() as int)) ==> r is Ok,
{
    let params = seq![SqlValue::Integer(domain_id as int)];
    let (p, fo): (core::result::Result<(), SqliteError>, core::result::Result<Box<[u8]>, SqliteError>) =
        choose|p: core::result::Result<(), SqliteError>, fo: core::result::Result<Box<[u8]>, SqliteError>|
            #[trigger] lookup_result(p, fo, "get_domain_name_by_id: prepare", "get_domain_name_by_id: get") == r
                && after == before + lookup_calls(p, bytes_answer(fo), DOMAIN_NAME_BY_ID@, params);
    assert(after.skip(before.len() as int) =~= lookup_calls(p, bytes_answer(fo), DOMAIN_NAME_BY_ID@, params));
    lemma_lookup_calls(f, p, bytes_answer(fo), DOMAIN_NAME_BY_ID@, params);
    assert(domain_id_value(params[0]) == Some(domain_id));
}

/// A call of `get_domain_id_by_name(domain)` that met its contract, on a
/// file `f` its answer reflects: it changes nothing, and an id it gives is
/// one the file names `domain`; a name the file does not hold fails.
pub proof fn law_get_domain_id_by_name_on_file(
    f: StoreFile,
    r: Result<u32, Error>,
    before: Seq<SqlCall>,
    after: Seq<SqlCall>,
    domain: Seq<u8>,
)
    requires
        id_lookup_done(r, before, after, DOMAIN_ID_BY_NAME@, seq![SqlValue::Blob(domain)],
            "get_domain_id_by_name: prepare", "get_domain_id_by_name: get"),
        lookups_from(f, DOMAIN_ID_BY_NAME@, after.skip(before.len() as int)),
    ensures
        apply_calls(f, after.skip(before.len() as int)) == f,
        r matches Ok(id) ==> f.domains.contains_key(id) && f.domains[id] == domain,
        r matches Ok(id) ==> forall|m: u32| #[trigger] f.domains.contains_key(m) && f.domains[m] == domain ==> m == id,
        !name_taken(f, domain) ==> r matches Err(Error::Rusqlite(_, _)),
        no_failure(after.skip(before.len() as int)) ==> r is Ok,
{
    let params = seq![SqlValue::Blob(domain)];
    let (p, fo): (core::result::Result<(), SqliteError>, core::result::Result<u32, SqliteError>) =
        choose|p: core::result::Result<(), SqliteError>, fo: core::result::Result<u32, SqliteError>|
            #[trigger] lookup_result(p, fo, "get_domain_id_by_name: prepare", "get_domain_id_by_name: get") == r
                && after == before + lookup_calls(p, u32_answer(fo), DOMAIN_ID_BY_NAME@, params);
    assert(after.skip(before.len() as int) =~= lookup_calls(p, u32_answer(fo), DOMAIN_ID_BY_NAME@, params));
    lemma_lookup_calls(f, p, u32_answer(fo), DOMAIN_ID_BY_NAME@, params);
    assert(blob_value(params[0]) == Some(domain));
    reveal_strlit("SELECT value FROM storage WHERE domain_id = ? AND key = ?");
    reveal_strlit("SELECT domain FROM domains WHERE domain_id = ?");
    reveal_strlit("SELECT domain_id FROM domains WHERE domain = ?");
    assert(DOMAIN_ID_BY_NAME@ != VALUE_BY_KEY@) by {
        assert(DOMAIN_ID_BY_NAME@.len() != VALUE_BY_KEY@.len());
    }
    assert(DOMAIN_ID_BY_NAME@ != DOMAIN_NAME_BY_ID@) by {
        assert(DOMAIN_ID_BY_NAME@[13] != DOMAIN_NAME_BY_ID@[13]);
    }
    if p is Ok {
        if let Ok(n) = fo {
            assert(f.domains.contains_key(n) && f.domains[n] == domain);
        }
    }
}

/// Writing a value and reading it back: once `write_kv(domain_id, key,
/// value)` succeeded on a file that SQLite's answers reflect,
/// `get_value_by_key(domain_id, key)` on the file it left gives `value`,
/// unless a SQLite call failed.
pub proof fn law_write_kv_then_read(
    f: StoreFile,
    written: Result<(), Error>,
    before_write: Seq<SqlCall>,
    after_write: Seq<SqlCall>,
    read: Result<Box<[u8]>, Error>,
    before_read: Seq<SqlCall>,
    after_read: Seq<SqlCall>,
    domain_id: u32,
    key: Seq<u8>,
    value: Seq<u8>,
)
    requires
        write_kv_done(written, before_write, after_write, domain_id, key, value),
        answers_from(f, after_write.skip(before_write.len() as int)),
        written is Ok,
        bytes_lookup_done(read, before_read, after_read, VALUE_BY_KEY@,
            seq![SqlValue::Integer(domain_id as int), SqlValue::Blob(key)], "get_value_by_key: prepare", "get_value_by_key: get"),
        lookups_from(
            after_transaction(f, after_write.skip(before_write.len() as int)),
            VALUE_BY_KEY@,
            after_read.skip(before_read.len() as int),
        ),
    ensures
        read matches Ok(v) ==> v@ == value,
        read is Ok || read matches Err(Error::Rusqlite(_, _)),
{
    law_write_kv_on_file(f, written, before_write, after_write, domain_id, key, value);
    let f2 = after_transaction(f, after_write.skip(before_write.len() as int));
    assert(f2.storage.contains_key((domain_id, key)));
    law_get_value_by_key_on_file(f2, read, before_read, after_read, domain_id, key);
}

/// Adding a domain and looking it up both ways: once `write_domain(domain_id,
/// domain)` succeeded on a file that SQLite's answers reflect, on the file
/// it left `get_domain_id_by_name(domain)` gives `domain_id` and
/// `get_domain_name_by_id(domain_id)` gives `domain`, unless a SQLite call
/// failed.
pub proof fn law_write_domain_then_read(
    f: StoreFile,
    written: Result<(), Error>,
    before_write: Seq<SqlCall>,
    after_write: Seq<SqlCall>,
    id_read: Result<u32, Error>,
    before_id: Seq<SqlCall>,
    after_id: Seq<SqlCall>,
    name_read: Result<Box<[u8]>, Error>,
    before_name: Seq<SqlCall>,
    after_name: Seq<SqlCall>,
    domain_id: u32,
    domain: Seq<u8>,
)
    requires
        write_domain_done(written, before_write, after_write, domain_id, domain),
        answers_from(f, after_write.skip(before_write.len() as int)),
        written is Ok,
        id_lookup_done(id_read, before_id, after_id, DOMAIN_ID_BY_NAME@, seq![SqlValue::Blob(domain)],
            "get_domain_id_by_name: prepare", "get_domain_id_by_name: get"),
        lookups_from(
            after_transaction(f, after_write.skip(before_write.len() as int)),
            DOMAIN_ID_BY_NAME@,
            after_id.skip(before_id.len() as int),
        ),
        bytes_lookup_done(name_read, before_name, after_name, DOMAIN_NAME_BY_ID@,
            seq![SqlValue::Integer(domain_id as int)], "get_domain_name_by_id: prepare", "get_domain_name_by_id: get"),
        lookups_from(
            after_transaction(f, after_write.skip(before_write.len() as int)),
            DOMAIN_NAME_BY_ID@,
            after_name.skip(before_name.len() as int),
        ),
    ensures
        id_read matches Ok(id) ==> id == domain_id,
        name_read matches Ok(name) ==> name@ == domain,
        name_read is Ok || name_read matches Err(Error::Rusqlite(_, _)),
{
    law_write_domain_on_file(f, written, before_write, after_write, domain_id, domain);
    let f2 = after_transaction(f, after_write.skip(before_write.len() as int));
    law_get_domain_id_by_name_on_file(f2, id_read, before_id, after_id, domain);
    law_get_domain_name_by_id_on_file(f2, name_read, before_name, after_name, domain_id);
}

/// A call of `read_metadata` that met its contract, on a file `f` whose
/// metadata rows SQLite's reads reflect: it changes nothing; metadata it
/// gives is the table's one row; an empty table gives
/// `Invariant("0 row in metadata table when read metadata")`; failed SQLite
/// calls aside (a failed read of a second row counts as a second row), a
/// table of one row gives that row.
pub proof fn law_read_metadata_on_file(f: StoreFile, r: Result<Metadata, Error>, before: Seq<SqlCall>, after: Seq<SqlCall>)
    requires
        read_metadata_done(r, before, after),
        reads_from(f.metadata, rows_read(after.skip(before.len() as int))),
    ensures
        apply_calls(f, after.skip(before.len() as int)) == f,
        r matches Ok(m) ==> f.metadata.len() == 1 && m.ident@ == f.metadata[0],
        f.metadata.len() == 0 ==>
            ((r matches Err(Error::Invariant(msg)) && msg == "0 row in metadata table when read metadata")
                || r matches Err(Error::Rusqlite(_, _))),
        f.metadata.len() == 1 ==>
            ((r matches Ok(m) && m.ident@ == f.metadata[0]) || r matches Err(Error::Rusqlite(_, _))
                || (r matches Err(Error::Invariant(msg)) && msg == "more than 1 rows in metadata table")),
        f.metadata.len() == 1 && no_failure(after.skip(before.len() as int)) ==>
            (r matches Ok(m) && m.ident@ == f.metadata[0]),
{
    let (p, s, fr, sec): (
        core::result::Result<(), SqliteError>,
        core::result::Result<(), SqliteError>,
        Option<core::result::Result<Box<[u8]>, SqliteError>>,
        Option<core::result::Result<Box<[u8]>, SqliteError>>,
    ) = choose|
        p: core::result::Result<(), SqliteError>,
        s: core::result::Result<(), SqliteError>,
        fr: Option<core::result::Result<Box<[u8]>, SqliteError>>,
        sec: Option<core::result::Result<Box<[u8]>, SqliteError>>,
    | #[trigger] read_metadata_result(p, s, fr, sec) == r && after == before + read_metadata_calls(p, s, fr, sec);
    let calls = read_metadata_calls(p, s, fr, sec);
    assert(after.skip(before.len() as int) =~= calls);
    lemma_reads_leave_file(f, calls);
    if no_failure(calls) {
        assert(answer_of(calls[0]) == done_answer(p));
        if p is Ok {
            assert(answer_of(calls[1]) == done_answer(s));
        }
        if p is Ok && s is Ok {
            assert(answer_of(calls[2]) == row_answer(fr));
            if calls.len() > 3 {
                assert(answer_of(calls[3]) == row_answer(sec));
            }
        }
    }
    if p is Ok && s is Ok {
        let c0 = SqlCall::Prepare("SELECT * FROM metadata"@, done_answer(p));
        let c1 = SqlCall::StatementQuery(Seq::empty(), done_answer(s));
        let c2 = SqlCall::NextRow(1, row_answer(fr));
        let c3 = SqlCall::NextRow(1, row_answer(sec));
        let e = Seq::<SqlCall>::empty();
        lemma_rows_read_push(e, c0);
        lemma_rows_read_push(e.push(c0), c1);
        lemma_rows_read_push(e.push(c0).push(c1), c2);
        lemma_rows_read_push(e.push(c0).push(c1).push(c2), c3);
        assert(rows_read(e) =~= Seq::<SqlAnswer>::empty());
        let h = e.push(c0).push(c1).push(c2);
        if fr matches Some(Ok(_)) {
            assert(calls =~= h.push(c3));
            assert(rows_read(calls) =~= seq![row_answer(fr), row_answer(sec)]);
            assert(row_read_from(f.metadata, 1, rows_read(calls)[1]));
        } else {
            assert(calls =~= h);
            assert(rows_read(calls) =~= seq![row_answer(fr)]);
        }
        assert(row_read_from(f.metadata, 0, rows_read(calls)[0]));
    }
}

/// Opening a store again with the same identity: once the writer's metadata
/// check with `ident` succeeded on a file whose rows SQLite's reads reflect,
/// a second check with `ident` on the file it left changes nothing and,
/// when no SQLite call of it failed, succeeds; and `read_metadata` on that
/// file gives back `ident`, when no SQLite call of it failed.
pub proof fn law_metadata_check_twice_and_read_back(
    f: StoreFile,
    ident: Box<[u8]>,
    first: Result<(), Error>,
    before_first: Seq<SqlCall>,
    after_first: Seq<SqlCall>,
    second: Result<(), Error>,
    before_second: Seq<SqlCall>,
    after_second: Seq<SqlCall>,
    read: Result<Metadata, Error>,
    before_read: Seq<SqlCall>,
    after_read: Seq<SqlCall>,
)
    requires
        check_or_write_metadata_done(first, before_first, after_first, ident),
        reads_from(f.metadata, rows_read(after_first.skip(before_first.len() as int))),
        answers_from(f, after_first.skip(before_first.len() as int)),
        first is Ok,
        check_or_write_metadata_done(second, before_second, after_second, ident),
        reads_from(
            apply_calls(f, after_first.skip(before_first.len() as int)).metadata,
            rows_read(after_second.skip(before_second.len() as int)),
        ),
        answers_from(
            apply_calls(f, after_first.skip(before_first.len() as int)),
            after_second.skip(before_second.len() as int),
        ),
        read_metadata_done(read, before_read, after_read),
        reads_from(
            apply_calls(f, after_first.skip(before_first.len() as int)).metadata,
            rows_read(after_read.skip(before_read.len() as int)),
        ),
    ensures
        ({
            let f2 = apply_calls(f, after_first.skip(before_first.len() as int));
            &&& f2.metadata == seq![ident@]
            &&& apply_calls(f2, after_second.skip(before_second.len() as int)) == f2
            &&& second is Ok || second matches Err(Error::Rusqlite(_, _))
                || (second matches Err(Error::Invariant(msg)) && msg == "more than 1 rows in metadata table")
            &&& no_failure(after_second.skip(before_second.len() as int)) ==> second is Ok
            &&& read matches Ok(m) ==> m.ident@ == ident@
            &&& no_failure(after_read.skip(before_read.len() as int)) ==> (read matches Ok(m) && m.ident@ == ident@)
            &&& read is Ok || read matches Err(Error::Rusqlite(_, _))
                || (read matches Err(Error::Invariant(msg)) && msg == "more than 1 rows in metadata table")
        }),
{
    law_check_or_write_metadata_on_file(f, first, before_first, after_first, ident);
    let f2 = apply_calls(f, after_first.skip(before_first.len() as int));
    assert(f2.metadata =~= seq![ident@]);
    law_check_or_write_metadata_on_file(f2, second, before_second, after_second, ident);
    law_read_metadata_on_file(f2, read, before_read, after_read);
}

// ---------------------------------------------------------------------------
// Setting up a connection, and creating the tables.

/// A statement the model gives no effect: neither a tagging pragma nor one
/// of the store's `CREATE TABLE` statements.
pub open spec fn inert(sql: Seq<char>) -> bool {
    sql != SET_MAGIC_STMT@ && sql != SET_VERSION_STMT@ && created_table(sql) is None
}

/// A call that leaves the file as it is: anything but a statement, or a
/// statement without parameters that the model gives no effect.
pub open spec fn leaves_file(call: SqlCall) -> bool {
    match call {
        SqlCall::Execute(sql, params, _) => params.len() == 0 && inert(sql),
        _ => true,
    }
}

proof fn lemma_leaving_calls(f: StoreFile, calls: Seq<SqlCall>)
    requires
        forall|j: int| 0 <= j < calls.len() ==> leaves_file(#[trigger] calls[j]),
    ensures
        apply_calls(f, calls) == f,
    decreases calls.len(),
{
    if calls.len() > 0 {
        lemma_leaving_calls(f, calls.drop_last());
        assert(leaves_file(calls[calls.len() - 1]));
    }
}

/// The statements that set a connection up, and the tagging pragmas, are
/// told apart from the store's `CREATE TABLE` statements, which create the
/// table each names.
proof fn lemma_statements_differ()
    ensures
        inert("vacuum;"@),
        inert("PRAGMA synchronous = EXTRA;"@),
        inert("PRAGMA fullfsync = true;"@),
        inert("PRAGMA foreign_keys = ON;"@),
        METADATA_SCHEMA@ != SET_MAGIC_STMT@ && METADATA_SCHEMA@ != SET_VERSION_STMT@,
        DOMAINS_SCHEMA@ != SET_MAGIC_STMT@ && DOMAINS_SCHEMA@ != SET_VERSION_STMT@,
        STORAGE_SCHEMA@ != SET_MAGIC_STMT@ && STORAGE_SCHEMA@ != SET_VERSION_STMT@,
        created_table(METADATA_SCHEMA@) == Some("metadata"@),
        created_table(DOMAINS_SCHEMA@) == Some("domains"@),
        created_table(STORAGE_SCHEMA@) == Some("storage"@),
        "metadata"@ != "domains"@ && "metadata"@ != "storage"@ && "domains"@ != "storage"@,
{
    reveal_strlit("vacuum;");
    reveal_strlit("PRAGMA synchronous = EXTRA;");
    reveal_strlit("PRAGMA fullfsync = true;");
    reveal_strlit("PRAGMA foreign_keys = ON;");
    reveal_strlit("PRAGMA application_id=0x42654b56;");
    reveal_strlit("PRAGMA user_version=1;");
    reveal_strlit("CREATE TABLE IF NOT EXISTS metadata (
    id INTEGER NOT NULL PRIMARY KEY,
    ident BLOB NOT NULL,
    check (id = 0)
) WITHOUT ROWID;");
    reveal_strlit("CREATE TABLE IF NOT EXISTS domains (
    domain_id INTEGER NOT NULL PRIMARY KEY,
    domain BLOB NOT NULL
) WITHOUT ROWID;");
    reveal_strlit("CREATE TABLE IF NOT EXISTS storage (
    domain_id INTEGER NOT NULL,
    key BLOB NOT NULL,
    value BLOB NOT NULL,
    PRIMARY KEY (domain_id, key)
    FOREIGN KEY (domain_id) REFERENCES domains(domain_id)
        ON DELETE RESTRICT
        ON UPDATE RESTRICT
) WITHOUT ROWID;");
    reveal_strlit("metadata");
    reveal_strlit("domains");
    reveal_strlit("storage");
    assert("vacuum;"@[0] != METADATA_SCHEMA@[0]);
    assert("PRAGMA synchronous = EXTRA;"@[0] != METADATA_SCHEMA@[0]);
    assert("PRAGMA fullfsync = true;"@[0] != METADATA_SCHEMA@[0]);
    assert("PRAGMA foreign_keys = ON;"@[0] != METADATA_SCHEMA@[0]);
    assert("vacuum;"@.len() != SET_MAGIC_STMT@.len() && "vacuum;"@.len() != SET_VERSION_STMT@.len());
    assert("PRAGMA synchronous = EXTRA;"@.len() != SET_MAGIC_STMT@.len());
    assert("PRAGMA synchronous = EXTRA;"@.len() != SET_VERSION_STMT@.len());
    assert("PRAGMA fullfsync = true;"@.len() != SET_MAGIC_STMT@.len());
    assert("PRAGMA fullfsync = true;"@.len() != SET_VERSION_STMT@.len());
    assert("PRAGMA foreign_keys = ON;"@.len() != SET_MAGIC_STMT@.len());
    assert("PRAGMA foreign_keys = ON;"@.len() != SET_VERSION_STMT@.len());
    assert(METADATA_SCHEMA@[0] != SET_MAGIC_STMT@[0]);
    assert(DOMAINS_SCHEMA@[27] != METADATA_SCHEMA@[27]);
    assert(STORAGE_SCHEMA@[27] != METADATA_SCHEMA@[27]);
    assert(STORAGE_SCHEMA@[27] != DOMAINS_SCHEMA@[27]);
    assert("metadata"@[0] != "domains"@[0]);
    assert("metadata"@[0] != "storage"@[0]);
    assert("domains"@[0] != "storage"@[0]);
}

/// One setup statement that must change no row, on a file that SQLite's
/// answer reflects: it leaves the file as it is, and it succeeds unless the
/// call failed.
proof fn lemma_setup_statement_on_file(
    f: StoreFile,
    r: Result<(), Error>,
    before: Seq<SqlCall>,
    after: Seq<SqlCall>,
    sql: Seq<char>,
    msg: &'static str,
)
    requires
        no_rows_changed_done(r, before, after, sql, msg),
        answers_from(f, after.skip(before.len() as int)),
        inert(sql),
    ensures
        after.len() >= before.len(),
        after.subrange(0, before.len() as int) == before,
        apply_calls(f, after.skip(before.len() as int)) == f,
        no_failure(after.skip(before.len() as int)) ==> r is Ok,
{
    let o = choose|o: core::result::Result<usize, SqliteError>|
        #[trigger] no_rows_changed_result(o, msg) == r
            && after == before.push(SqlCall::Execute(sql, Seq::empty(), changed_answer(o)));
    let calls = after.skip(before.len() as int);
    assert(calls =~= seq![SqlCall::Execute(sql, Seq::empty(), changed_answer(o))]);
    assert(after.subrange(0, before.len() as int) =~= before);
    assert(answered_from(f, calls[0]));
    assert(answer_of(calls[0]) == changed_answer(o));
    lemma_leaving_calls(f, calls);
}

/// `set_synchronous`, on a file that SQLite's answers reflect: it leaves the
/// file as it is, and it succeeds unless a call failed.
proof fn lemma_set_synchronous_on_file(f: StoreFile, r: Result<(), Error>, before: Seq<SqlCall>, after: Seq<SqlCall>)
    requires
        set_synchronous_done(r, before, after),
        answers_from(f, after.skip(before.len() as int)),
    ensures
        after.len() >= before.len(),
        after.subrange(0, before.len() as int) == before,
        apply_calls(f, after.skip(before.len() as int)) == f,
        no_failure(after.skip(before.len() as int)) ==> r is Ok,
{
    let (a, b): (core::result::Result<usize, SqliteError>, core::result::Result<usize, SqliteError>) =
        choose|a: core::result::Result<usize, SqliteError>, b: core::result::Result<usize, SqliteError>|
            #[trigger] set_synchronous_result(a, b) == r && after == before + set_synchronous_calls(a, b);
    let calls = after.skip(before.len() as int);
    assert(calls =~= set_synchronous_calls(a, b));
    assert(after.subrange(0, before.len() as int) =~= before);
    lemma_statements_differ();
    assert(answered_from(f, calls[0]));
    assert(answer_of(calls[0]) == changed_answer(a));
    if calls.len() > 1 {
        assert(answered_from(f, calls[1]));
        assert(answer_of(calls[1]) == changed_answer(b));
    }
    lemma_leaving_calls(f, calls);
}

/// The checksum check, on a connection with the checksum VFS registered:
/// it leaves the file as it is, and it succeeds unless the call failed.
proof fn lemma_checksum_on_file(f: StoreFile, r: Result<(), Error>, before: Seq<SqlCall>, after: Seq<SqlCall>)
    requires
        checksum_check_done(r, before, after),
        answers_from(f, after.skip(before.len() as int)),
    ensures
        after.len() >= before.len(),
        after.subrange(0, before.len() as int) == before,
        apply_calls(f, after.skip(before.len() as int)) == f,
        no_failure(after.skip(before.len() as int)) ==> r is Ok,
{
    let o = choose|o: core::result::Result<String, SqliteError>|
        #[trigger] checksum_check_result(o) == r
            && after == before.push(SqlCall::QueryOne("PRAGMA checksum_verification;"@, Seq::empty(), text_answer(o)));
    let calls = after.skip(before.len() as int);
    assert(calls =~= seq![SqlCall::QueryOne("PRAGMA checksum_verification;"@, Seq::empty(), text_answer(o))]);
    assert(after.subrange(0, before.len() as int) =~= before);
    assert(answered_from(f, calls[0]));
    assert(answer_of(calls[0]) == text_answer(o));
    lemma_leaving_calls(f, calls);
}

/// A call of `init_schema` that met its contract, on a file that SQLite's
/// answers reflect: it creates the store's tables that are missing, and
/// changes nothing else; once it succeeded the file holds all three; on a
/// file that holds them it changes nothing; it succeeds unless a call
/// failed. Running it again after it succeeded therefore changes nothing.
pub proof fn law_init_schema_on_file(f: StoreFile, r: Result<(), Error>, before: Seq<SqlCall>, after: Seq<SqlCall>)
    requires
        init_schema_done(r, before, after),
        answers_from(f, after.skip(before.len() as int)),
    ensures
        ({
            let f2 = apply_calls(f, after.skip(before.len() as int));
            &&& f2 == StoreFile { store_tables: f2.store_tables, table_count: f2.table_count, ..f }
            &&& r is Ok ==> has_store_tables(f2)
            &&& has_store_tables(f) ==> f2 == f
            &&& tables_wf(f) ==> tables_wf(f2)
            &&& no_failure(after.skip(before.len() as int)) ==> r is Ok
        }),
        after.len() >= before.len(),
        after.subrange(0, before.len() as int) == before,
{
    let (a, b, c): (
        core::result::Result<usize, SqliteError>,
        core::result::Result<usize, SqliteError>,
        core::result::Result<usize, SqliteError>,
    ) = choose|
        a: core::result::Result<usize, SqliteError>,
        b: core::result::Result<usize, SqliteError>,
        c: core::result::Result<usize, SqliteError>,
    | #[trigger] init_schema_result(a, b, c) == r && after == before + init_schema_calls(a, b, c);
    let calls = after.skip(before.len() as int);
    assert(calls =~= init_schema_calls(a, b, c));
    assert(after.subrange(0, before.len() as int) =~= before);
    lemma_statements_differ();
    assert(answered_from(f, calls[0]));
    assert(answer_of(calls[0]) == changed_answer(a));
    if calls.len() > 1 {
        assert(answered_from(f, calls[1]));
        assert(answer_of(calls[1]) == changed_answer(b));
    }
    if calls.len() > 2 {
        assert(answered_from(f, calls[2]));
        assert(answer_of(calls[2]) == changed_answer(c));
    }
    reveal_with_fuel(apply_calls, 4);
    let c0 = SqlCall::Execute(METADATA_SCHEMA@, Seq::empty(), changed_answer(a));
    let c1 = SqlCall::Execute(DOMAINS_SCHEMA@, Seq::empty(), changed_answer(b));
    let c2 = SqlCall::Execute(STORAGE_SCHEMA@, Seq::empty(), changed_answer(c));
    assert(seq![c0].drop_last() =~= Seq::<SqlCall>::empty());
    assert(seq![c0, c1].drop_last() =~= seq![c0]);
    assert(seq![c0, c1, c2].drop_last() =~= seq![c0, c1]);
    let f1 = apply_call(f, c0);
    let f2 = apply_call(f1, c1);
    let f3 = apply_call(f2, c2);
    assert(tables_wf(f) ==> tables_wf(f1));
    assert(tables_wf(f1) ==> tables_wf(f2));
    assert(tables_wf(f2) ==> tables_wf(f3));
}

// ---------------------------------------------------------------------------
// Records of calls, cut into the steps that made them.

/// `a` is the record `b` starts with.
pub open spec fn prefix(a: Seq<SqlCall>, b: Seq<SqlCall>) -> bool {
    a.len() <= b.len() && b.subrange(0, a.len() as int) == a
}

proof fn lemma_prefix_append(a: Seq<SqlCall>, x: Seq<SqlCall>)
    ensures
        prefix(a, a + x),
        (a + x).skip(a.len() as int) == x,
{
    assert((a + x).subrange(0, a.len() as int) =~= a);
    assert((a + x).skip(a.len() as int) =~= x);
}

proof fn lemma_split(a: Seq<SqlCall>, b: Seq<SqlCall>, c: Seq<SqlCall>)
    requires
        prefix(a, b),
        prefix(b, c),
    ensures
        prefix(a, c),
        c.skip(a.len() as int) == b.skip(a.len() as int) + c.skip(b.len() as int),
{
    assert forall|i: int| 0 <= i < a.len() implies c.subrange(0, a.len() as int)[i] == a[i] by {
        assert(c.subrange(0, b.len() as int)[i] == b[i]);
        assert(b.subrange(0, a.len() as int)[i] == a[i]);
    }
    assert(c.subrange(0, a.len() as int) =~= a);
    assert forall|i: int| 0 <= i < b.len() - a.len() implies c.skip(a.len() as int)[i] == b.skip(a.len() as int)[i] by {
        assert(c.subrange(0, b.len() as int)[a.len() + i] == b[a.len() + i]);
    }
    assert(c.skip(a.len() as int) =~= b.skip(a.len() as int) + c.skip(b.len() as int));
}

proof fn lemma_apply_append(f: StoreFile, a: Seq<SqlCall>, b: Seq<SqlCall>)
    ensures
        apply_calls(f, a + b) == apply_calls(apply_calls(f, a), b),
    decreases b.len(),
{
    if b.len() == 0 {
        assert(a + b =~= a);
    } else {
        lemma_apply_append(f, a, b.drop_last());
        assert((a + b).drop_last() =~= a + b.drop_last());
        assert((a + b).last() == b.last());
    }
}

proof fn lemma_rows_read_append(a: Seq<SqlCall>, b: Seq<SqlCall>)
    ensures
        rows_read(a + b) == rows_read(a) + rows_read(b),
    decreases b.len(),
{
    if b.len() == 0 {
        assert(a + b =~= a);
        assert(rows_read(a) + rows_read(b) =~= rows_read(a));
    } else {
        lemma_rows_read_append(a, b.drop_last());
        assert((a + b).drop_last() =~= a + b.drop_last());
        assert((a + b).last() == b.last());
        match b.last() {
            SqlCall::NextRow(_, x) => {
                assert(rows_read(a) + rows_read(b.drop_last()).push(x) =~= (rows_read(a) + rows_read(b.drop_last())).push(x));
            },
            _ => {},
        }
    }
}

proof fn lemma_no_rows_read(s: Seq<SqlCall>)
    requires
        forall|j: int| 0 <= j < s.len() ==> !((#[trigger] s[j]) is NextRow),
    ensures
        rows_read(s) == Seq::<SqlAnswer>::empty(),
    decreases s.len(),
{
    if s.len() > 0 {
        lemma_no_rows_read(s.drop_last());
        assert(!(s[s.len() - 1] is NextRow));
    }
}

proof fn lemma_parts_append(f: StoreFile, a: Seq<SqlCall>, b: Seq<SqlCall>)
    ensures
        answers_from(f, a + b) ==> answers_from(f, a) && answers_from(f, b),
        no_failure(a + b) ==> no_failure(a) && no_failure(b),
{
    if answers_from(f, a + b) {
        assert forall|j: int| 0 <= j < a.len() implies answered_from(f, #[trigger] a[j]) by {
            assert((a + b)[j] == a[j]);
        }
        assert forall|j: int| 0 <= j < b.len() implies answered_from(f, #[trigger] b[j]) by {
            assert((a + b)[a.len() + j] == b[j]);
        }
    }
    if no_failure(a + b) {
        assert forall|j: int| 0 <= j < a.len() implies !(answer_of(#[trigger] a[j]) is Failed) by {
            assert((a + b)[j] == a[j]);
        }
        assert forall|j: int| 0 <= j < b.len() implies !(answer_of(#[trigger] b[j]) is Failed) by {
            assert((a + b)[a.len() + j] == b[j]);
        }
    }
}

/// Answers to anything but one-row queries do not depend on the file.
proof fn lemma_answers_other_file(f: StoreFile, g: StoreFile, s: Seq<SqlCall>)
    requires
        answers_from(f, s),
        forall|j: int| 0 <= j < s.len() ==> !((#[trigger] s[j]) is QueryOne),
    ensures
        answers_from(g, s),
{
    assert forall|j: int| 0 <= j < s.len() implies answered_from(g, #[trigger] s[j]) by {
        assert(answered_from(f, s[j]));
        assert(!(s[j] is QueryOne));
    }
}

/// The shape of the calls each step of opening a store adds: the record it
/// starts from is kept; no step but the metadata check or read reads rows;
/// the schema and metadata steps make no one-row query.
proof fn lemma_setup_shape(r: Result<(), Error>, before: Seq<SqlCall>, after: Seq<SqlCall>, sql: Seq<char>, msg: &'static str)
    requires
        no_rows_changed_done(r, before, after, sql, msg),
    ensures
        prefix(before, after),
        rows_read(after.skip(before.len() as int)) == Seq::<SqlAnswer>::empty(),
{
    let o = choose|o: core::result::Result<usize, SqliteError>|
        #[trigger] no_rows_changed_result(o, msg) == r
            && after == before.push(SqlCall::Execute(sql, Seq::empty(), changed_answer(o)));
    let x = seq![SqlCall::Execute(sql, Seq::empty(), changed_answer(o))];
    assert(after == before + x);
    lemma_prefix_append(before, x);
    lemma_no_rows_read(x);
}

proof fn lemma_synchronous_shape(r: Result<(), Error>, before: Seq<SqlCall>, after: Seq<SqlCall>)
    requires
        set_synchronous_done(r, before, after),
    ensures
        prefix(before, after),
        rows_read(after.skip(before.len() as int)) == Seq::<SqlAnswer>::empty(),
{
    let (a, b): (core::result::Result<usize, SqliteError>, core::result::Result<usize, SqliteError>) =
        choose|a: core::result::Result<usize, SqliteError>, b: core::result::Result<usize, SqliteError>|
            #[trigger] set_synchronous_result(a, b) == r && after == before + set_synchronous_calls(a, b);
    lemma_prefix_append(before, set_synchronous_calls(a, b));
    lemma_no_rows_read(set_synchronous_calls(a, b));
}

proof fn lemma_checksum_shape(r: Result<(), Error>, before: Seq<SqlCall>, after: Seq<SqlCall>)
    requires
        checksum_check_done(r, before, after),
    ensures
        prefix(before, after),
        rows_read(after.skip(before.len() as int)) == Seq::<SqlAnswer>::empty(),
{
    let o = choose|o: core::result::Result<String, SqliteError>|
        #[trigger] checksum_check_result(o) == r
            && after == before.push(SqlCall::QueryOne("PRAGMA checksum_verification;"@, Seq::empty(), text_answer(o)));
    let x = seq![SqlCall::QueryOne("PRAGMA checksum_verification;"@, Seq::empty(), text_answer(o))];
    assert(after == before + x);
    lemma_prefix_append(before, x);
    lemma_no_rows_read(x);
}

proof fn lemma_version_shape(r: Result<(), Error>, before: Seq<SqlCall>, after: Seq<SqlCall>)
    requires
        check_or_write_version_done(r, before, after),
    ensures
        prefix(before, after),
        rows_read(after.skip(before.len() as int)) == Seq::<SqlAnswer>::empty(),
{
    let (m, v, t, a, b): (
        core::result::Result<i32, SqliteError>,
        core::result::Result<u32, SqliteError>,
        core::result::Result<u32, SqliteError>,
        core::result::Result<usize, SqliteError>,
        core::result::Result<usize, SqliteError>,
    ) = choose|
        m: core::result::Result<i32, SqliteError>,
        v: core::result::Result<u32, SqliteError>,
        t: core::result::Result<u32, SqliteError>,
        a: core::result::Result<usize, SqliteError>,
        b: core::result::Result<usize, SqliteError>,
    | #[trigger] check_or_write_version_result(m, v, t, a, b) == r
        && after == before + check_or_write_version_calls(m, v, t, a, b);
    lemma_prefix_append(before, check_or_write_version_calls(m, v, t, a, b));
    lemma_no_rows_read(check_or_write_version_calls(m, v, t, a, b));
}

proof fn lemma_check_version_shape(r: Result<(), Error>, before: Seq<SqlCall>, after: Seq<SqlCall>)
    requires
        check_version_done(r, before, after),
    ensures
        prefix(before, after),
        rows_read(after.skip(before.len() as int)) == Seq::<SqlAnswer>::empty(),
{
    let (m, v, t): (
        core::result::Result<i32, SqliteError>,
        core::result::Result<u32, SqliteError>,
        core::result::Result<u32, SqliteError>,
    ) = choose|
        m: core::result::Result<i32, SqliteError>,
        v: core::result::Result<u32, SqliteError>,
        t: core::result::Result<u32, SqliteError>,
    | #[trigger] check_version_result(m, v, t) == r && after == before + check_version_calls(m, v, t);
    lemma_prefix_append(before, check_version_calls(m, v, t));
    lemma_no_rows_read(check_version_calls(m, v, t));
}

proof fn lemma_schema_shape(r: Result<(), Error>, before: Seq<SqlCall>, after: Seq<SqlCall>)
    requires
        init_schema_done(r, before, after),
    ensures
        prefix(before, after),
        rows_read(after.skip(before.len() as int)) == Seq::<SqlAnswer>::empty(),
        forall|j: int| 0 <= j < after.skip(before.len() as int).len()
            ==> !((#[trigger] after.skip(before.len() as int)[j]) is QueryOne),
{
    let (a, b, c): (
        core::result::Result<usize, SqliteError>,
        core::result::Result<usize, SqliteError>,
        core::result::Result<usize, SqliteError>,
    ) = choose|
        a: core::result::Result<usize, SqliteError>,
        b: core::result::Result<usize, SqliteError>,
        c: core::result::Result<usize, SqliteError>,
    | #[trigger] init_schema_result(a, b, c) == r && after == before + init_schema_calls(a, b, c);
    lemma_prefix_append(before, init_schema_calls(a, b, c));
    lemma_no_rows_read(init_schema_calls(a, b, c));
}

proof fn lemma_metadata_shape(r: Result<(), Error>, before: Seq<SqlCall>, after: Seq<SqlCall>, ident: Box<[u8]>)
    requires
        check_or_write_metadata_done(r, before, after, ident),
    ensures
        prefix(before, after),
        forall|j: int| 0 <= j < after.skip(before.len() as int).len()
            ==> !((#[trigger] after.skip(before.len() as int)[j]) is QueryOne),
{
    let (p, s, fr, i, sec): (
        core::result::Result<(), SqliteError>,
        core::result::Result<(), SqliteError>,
        Option<core::result::Result<Box<[u8]>, SqliteError>>,
        core::result::Result<usize, SqliteError>,
        Option<core::result::Result<Box<[u8]>, SqliteError>>,
    ) = choose|
        p: core::result::Result<(), SqliteError>,
        s: core::result::Result<(), SqliteError>,
        fr: Option<core::result::Result<Box<[u8]>, SqliteError>>,
        i: core::result::Result<usize, SqliteError>,
        sec: Option<core::result::Result<Box<[u8]>, SqliteError>>,
    | #[trigger] check_or_write_metadata_result(p, s, fr, i, sec, ident) == r
        && after == before + check_or_write_metadata_calls(p, s, fr, i, sec, ident);
    lemma_prefix_append(before, check_or_write_metadata_calls(p, s, fr, i, sec, ident));
}

proof fn lemma_read_metadata_shape(r: Result<Metadata, Error>, before: Seq<SqlCall>, after: Seq<SqlCall>)
    requires
        read_metadata_done(r, before, after),
    ensures
        prefix(before, after),
        forall|j: int| 0 <= j < after.skip(before.len() as int).len()
            ==> !((#[trigger] after.skip(before.len() as int)[j]) is QueryOne),
{
    let (p, s, fr, sec): (
        core::result::Result<(), SqliteError>,
        core::result::Result<(), SqliteError>,
        Option<core::result::Result<Box<[u8]>, SqliteError>>,
        Option<core::result::Result<Box<[u8]>, SqliteError>>,
    ) = choose|
        p: core::result::Result<(), SqliteError>,
        s: core::result::Result<(), SqliteError>,
        fr: Option<core::result::Result<Box<[u8]>, SqliteError>>,
        sec: Option<core::result::Result<Box<[u8]>, SqliteError>>,
    | #[trigger] read_metadata_result(p, s, fr, sec) == r && after == before + read_metadata_calls(p, s, fr, sec);
    lemma_prefix_append(before, read_metadata_calls(p, s, fr, sec));
}

proof fn lemma_prefix_refl(a: Seq<SqlCall>)
    ensures
        prefix(a, a),
        a.skip(a.len() as int) == Seq::<SqlCall>::empty(),
{
    assert(a.subrange(0, a.len() as int) =~= a);
    assert(a.skip(a.len() as int) =~= Seq::<SqlCall>::empty());
}

// ---------------------------------------------------------------------------
// Opening a store.

/// A record cut at `c1` to `c6` into seven parts, each `s_k` being what
/// `c_k` adds to `c_(k-1)`: the answers, failures, rows read and effect of the
/// whole are those of the parts, in order.
proof fn lemma_seven_parts(
    f: StoreFile,
    c0: Seq<SqlCall>, c1: Seq<SqlCall>, c2: Seq<SqlCall>, c3: Seq<SqlCall>,
    c4: Seq<SqlCall>, c5: Seq<SqlCall>, c6: Seq<SqlCall>, c7: Seq<SqlCall>,
)
    requires
        prefix(c0, c1), prefix(c1, c2), prefix(c2, c3), prefix(c3, c4),
        prefix(c4, c5), prefix(c5, c6), prefix(c6, c7),
    ensures
        ({
            let new = c7.skip(c0.len() as int);
            let s1 = c1.skip(c0.len() as int);
            let s2 = c2.skip(c1.len() as int);
            let s3 = c3.skip(c2.len() as int);
            let s4 = c4.skip(c3.len() as int);
            let s5 = c5.skip(c4.len() as int);
            let s6 = c6.skip(c5.len() as int);
            let s7 = c7.skip(c6.len() as int);
            &&& answers_from(f, new) ==> answers_from(f, s1) && answers_from(f, s2) && answers_from(f, s3)
                && answers_from(f, s4) && answers_from(f, s5) && answers_from(f, s6) && answers_from(f, s7)
            &&& no_failure(new) ==> no_failure(s1) && no_failure(s2) && no_failure(s3)
                && no_failure(s4) && no_failure(s5) && no_failure(s6) && no_failure(s7)
            &&& apply_calls(f, new) == apply_calls(apply_calls(apply_calls(apply_calls(apply_calls(apply_calls(
                apply_calls(f, s1), s2), s3), s4), s5), s6), s7)
            &&& rows_read(new) == rows_read(s1) + rows_read(s2) + rows_read(s3) + rows_read(s4)
                + rows_read(s5) + rows_read(s6) + rows_read(s7)
        }),
{
    let s1 = c1.skip(c0.len() as int);
    let s2 = c2.skip(c1.len() as int);
    let s3 = c3.skip(c2.len() as int);
    let s4 = c4.skip(c3.len() as int);
    let s5 = c5.skip(c4.len() as int);
    let s6 = c6.skip(c5.len() as int);
    let s7 = c7.skip(c6.len() as int);
    lemma_split(c0, c1, c2);
    lemma_split(c0, c2, c3);
    lemma_split(c0, c3, c4);
    lemma_split(c0, c4, c5);
    lemma_split(c0, c5, c6);
    lemma_split(c0, c6, c7);
    let x2 = c2.skip(c0.len() as int);
    let x3 = c3.skip(c0.len() as int);
    let x4 = c4.skip(c0.len() as int);
    let x5 = c5.skip(c0.len() as int);
    let x6 = c6.skip(c0.len() as int);
    let new = c7.skip(c0.len() as int);
    lemma_parts_append(f, x6, s7);
    lemma_parts_append(f, x5, s6);
    lemma_parts_append(f, x4, s5);
    lemma_parts_append(f, x3, s4);
    lemma_parts_append(f, x2, s3);
    lemma_parts_append(f, s1, s2);
    lemma_apply_append(f, x6, s7);
    lemma_apply_append(f, x5, s6);
    lemma_apply_append(f, x4, s5);
    lemma_apply_append(f, x3, s4);
    lemma_apply_append(f, x2, s3);
    lemma_apply_append(f, s1, s2);
    lemma_rows_read_append(x6, s7);
    lemma_rows_read_append(x5, s6);
    lemma_rows_read_append(x4, s5);
    lemma_rows_read_append(x3, s4);
    lemma_rows_read_append(x2, s3);
    lemma_rows_read_append(s1, s2);
}

/// The steps of preparing a connection for writing, as its contract states
/// them: the record they make, cut into the steps' parts.
proof fn lemma_writer_steps_shape(
    vac: Result<(), Error>, syn: Result<(), Error>, fk: Result<(), Error>, ck: Result<(), Error>,
    ver: Result<(), Error>, sch: Result<(), Error>, met: Result<(), Error>,
    c0: Seq<SqlCall>, c1: Seq<SqlCall>, c2: Seq<SqlCall>, c3: Seq<SqlCall>,
    c4: Seq<SqlCall>, c5: Seq<SqlCall>, c6: Seq<SqlCall>, c7: Seq<SqlCall>,
    ident: Box<[u8]>,
)
    requires
        writer_open_steps(vac, syn, fk, ck, ver, sch, met, c0, c1, c2, c3, c4, c5, c6, c7, ident),
    ensures
        prefix(c0, c1), prefix(c1, c2), prefix(c2, c3), prefix(c3, c4),
        prefix(c4, c5), prefix(c5, c6), prefix(c6, c7),
        rows_read(c1.skip(c0.len() as int)) == Seq::<SqlAnswer>::empty(),
        rows_read(c2.skip(c1.len() as int)) == Seq::<SqlAnswer>::empty(),
        rows_read(c3.skip(c2.len() as int)) == Seq::<SqlAnswer>::empty(),
        rows_read(c4.skip(c3.len() as int)) == Seq::<SqlAnswer>::empty(),
        rows_read(c5.skip(c4.len() as int)) == Seq::<SqlAnswer>::empty(),
        rows_read(c6.skip(c5.len() as int)) == Seq::<SqlAnswer>::empty(),
        forall|j: int| 0 <= j < c6.skip(c5.len() as int).len() ==> !((#[trigger] c6.skip(c5.len() as int)[j]) is QueryOne),
        forall|j: int| 0 <= j < c7.skip(c6.len() as int).len() ==> !((#[trigger] c7.skip(c6.len() as int)[j]) is QueryOne),
{
    lemma_setup_shape(vac, c0, c1, "vacuum;"@, "run vacuum");
    if vac is Ok { lemma_synchronous_shape(syn, c1, c2); } else { lemma_prefix_refl(c1); }
    if vac is Ok && syn is Ok {
        lemma_setup_shape(fk, c2, c3, "PRAGMA foreign_keys = ON;"@, "enable foreign_keys");
    } else {
        lemma_prefix_refl(c2);
    }
    if vac is Ok && syn is Ok && fk is Ok { lemma_checksum_shape(ck, c3, c4); } else { lemma_prefix_refl(c3); }
    if vac is Ok && syn is Ok && fk is Ok && ck is Ok { lemma_version_shape(ver, c4, c5); } else { lemma_prefix_refl(c4); }
    if vac is Ok && syn is Ok && fk is Ok && ck is Ok && ver is Ok {
        lemma_schema_shape(sch, c5, c6);
    } else {
        lemma_prefix_refl(c5);
    }
    if vac is Ok && syn is Ok && fk is Ok && ck is Ok && ver is Ok && sch is Ok {
        lemma_metadata_shape(met, c6, c7, ident);
    } else {
        lemma_prefix_refl(c6);
    }
}

/// The first four steps of preparing a connection for writing (`vacuum`,
/// durability, foreign keys, the checksum check), on a file that SQLite's
/// answers reflect, leave it as it is, and pass when no call failed.
proof fn lemma_writer_first_steps_on_file(
    f: StoreFile,
    vac: Result<(), Error>, syn: Result<(), Error>, fk: Result<(), Error>, ck: Result<(), Error>,
    ver: Result<(), Error>, sch: Result<(), Error>, met: Result<(), Error>,
    c0: Seq<SqlCall>, c1: Seq<SqlCall>, c2: Seq<SqlCall>, c3: Seq<SqlCall>,
    c4: Seq<SqlCall>, c5: Seq<SqlCall>, c6: Seq<SqlCall>, c7: Seq<SqlCall>,
    ident: Box<[u8]>,
)
    requires
        writer_open_steps(vac, syn, fk, ck, ver, sch, met, c0, c1, c2, c3, c4, c5, c6, c7, ident),
        answers_from(f, c1.skip(c0.len() as int)),
        answers_from(f, c2.skip(c1.len() as int)),
        answers_from(f, c3.skip(c2.len() as int)),
        answers_from(f, c4.skip(c3.len() as int)),
    ensures
        apply_calls(apply_calls(apply_calls(apply_calls(f, c1.skip(c0.len() as int)), c2.skip(c1.len() as int)),
            c3.skip(c2.len() as int)), c4.skip(c3.len() as int)) == f,
        no_failure(c1.skip(c0.len() as int)) && no_failure(c2.skip(c1.len() as int))
            && no_failure(c3.skip(c2.len() as int)) && no_failure(c4.skip(c3.len() as int))
            ==> vac is Ok && syn is Ok && fk is Ok && ck is Ok,
{
    lemma_statements_differ();
    lemma_setup_statement_on_file(f, vac, c0, c1, "vacuum;"@, "run vacuum");
    if vac is Ok {
        lemma_set_synchronous_on_file(f, syn, c1, c2);
    } else {
        lemma_prefix_refl(c1);
    }
    if vac is Ok && syn is Ok {
        lemma_setup_statement_on_file(f, fk, c2, c3, "PRAGMA foreign_keys = ON;"@, "enable foreign_keys");
    } else {
        lemma_prefix_refl(c2);
    }
    if vac is Ok && syn is Ok && fk is Ok {
        lemma_checksum_on_file(f, ck, c3, c4);
    } else {
        lemma_prefix_refl(c3);
    }
}

/// Preparing a connection for writing with identity `ident`
/// (`prepare_writer`, which `Writer::open` runs), as its contract states
/// it, on a file that SQLite's answers and reads reflect:
/// - once it succeeded, the file is a store with identity `ident`;
/// - on a store file it changes nothing, whatever the identity: reopening
///   keeps all data;
/// - on a store file with identity `ident` it succeeds, and on one with
///   another identity it gives `IdentNotMatch` with `ident` and the file's
///   identity, when no SQLite call failed;
/// - on a new file it succeeds when no SQLite call failed;
/// - it succeeds only on a new, untagged file or on a file with tables
///   carrying the store's id and version; on a file with tables and the
///   store's id but another version it gives `VersionNotMatch` with the
///   library's version and the file's, and on any other file
///   `NotABeKVDatabase`, when no SQLite call failed.
#[verifier::rlimit(50)]
pub proof fn law_prepare_writer_on_file(
    f: StoreFile,
    r: Result<(), Error>,
    before: Seq<SqlCall>,
    after: Seq<SqlCall>,
    ident: Box<[u8]>,
)
    requires
        writer_prepared(r, before, after, ident),
        answers_from(f, after.skip(before.len() as int)),
        reads_from(f.metadata, rows_read(after.skip(before.len() as int))),
        tables_wf(f),
    ensures
        ({
            let new = after.skip(before.len() as int);
            let f2 = apply_calls(f, new);
            &&& r is Ok ==> is_store(f2, ident@)
            &&& is_store_file(f) ==> f2 == f
            &&& is_store(f, ident@) && no_failure(new) ==> r is Ok
            &&& is_store_file(f) && f.metadata[0] != ident@ && no_failure(new) ==>
                (r matches Err(Error::IdentNotMatch { exp, cur }) && exp == ident && cur@ == f.metadata[0])
            &&& is_new_file(f) && no_failure(new) ==> r is Ok
            &&& tables_wf(f2)
            &&& r is Ok ==> (f.table_count == 0 && f.application_id == 0 && f.user_version == 0)
                || (f.table_count != 0 && f.application_id == MAGIC && f.user_version == VERSION)
            &&& f.table_count != 0 && f.application_id == MAGIC && f.user_version != VERSION && no_failure(new) ==>
                (r matches Err(Error::VersionNotMatch { exp, cur }) && exp == VERSION && cur == f.user_version)
            &&& !(f.table_count == 0 && f.application_id == 0 && f.user_version == 0)
                && !(f.table_count != 0 && f.application_id == MAGIC) && no_failure(new) ==>
                (r matches Err(Error::NotABeKVDatabase))
        }),
{
    let (vac, syn, fk, ck, ver, sch, met, c1, c2, c3, c4, c5, c6): (
        Result<(), Error>, Result<(), Error>, Result<(), Error>, Result<(), Error>,
        Result<(), Error>, Result<(), Error>, Result<(), Error>,
        Seq<SqlCall>, Seq<SqlCall>, Seq<SqlCall>, Seq<SqlCall>, Seq<SqlCall>, Seq<SqlCall>,
    ) = choose|a: Result<(), Error>, b: Result<(), Error>, c: Result<(), Error>, d: Result<(), Error>,
        e: Result<(), Error>, f: Result<(), Error>, g: Result<(), Error>,
        c1: Seq<SqlCall>, c2: Seq<SqlCall>, c3: Seq<SqlCall>, c4: Seq<SqlCall>, c5: Seq<SqlCall>, c6: Seq<SqlCall>|
        #[trigger] writer_open_steps(a, b, c, d, e, f, g, before, c1, c2, c3, c4, c5, c6, after, ident)
        && writer_open_result(a, b, c, d, e, f, g) == r;
    let c0 = before;
    let c7 = after;
    let new = c7.skip(c0.len() as int);
    let s5 = c5.skip(c4.len() as int);
    let s6 = c6.skip(c5.len() as int);
    let s7 = c7.skip(c6.len() as int);
    lemma_writer_steps_shape(vac, syn, fk, ck, ver, sch, met, c0, c1, c2, c3, c4, c5, c6, c7, ident);
    lemma_seven_parts(f, c0, c1, c2, c3, c4, c5, c6, c7);
    assert(rows_read(new) =~= rows_read(s7));
    lemma_writer_first_steps_on_file(f, vac, syn, fk, ck, ver, sch, met, c0, c1, c2, c3, c4, c5, c6, c7, ident);
    let run5 = vac is Ok && syn is Ok && fk is Ok && ck is Ok;
    let f5 = apply_calls(f, s5);
    if run5 {
        law_check_or_write_version_on_file(f, ver, c4, c5);
    } else {
        lemma_prefix_refl(c4);
    }
    let f6 = apply_calls(f5, s6);
    if run5 && ver is Ok {
        lemma_answers_other_file(f, f5, s6);
        law_init_schema_on_file(f5, sch, c5, c6);
    } else {
        lemma_prefix_refl(c5);
    }
    let f7 = apply_calls(f6, s7);
    if run5 && ver is Ok && sch is Ok {
        lemma_answers_other_file(f, f6, s7);
        law_check_or_write_metadata_on_file(f6, met, c6, c7, ident);
    } else {
        lemma_prefix_refl(c6);
    }
    assert(apply_calls(f, new) == f7);
    assert(tables_wf(f5));
    if run5 && ver is Ok {
        assert(tables_wf(f6));
    }
    assert(f7.store_tables == f6.store_tables && f7.table_count == f6.table_count);
    if r is Ok {
        assert(has_store_tables(f6));
        assert(f6.store_tables.contains("metadata"@));
        assert(f6.table_count != 0);
        if f.metadata.len() == 0 {
            assert(f7.metadata == seq![ident@]);
        } else {
            assert(f.metadata =~= seq![ident@]);
        }
        assert(is_store(f7, ident@));
    }
}

/// The steps of preparing a connection for reading, as its contract states
/// them: the record they make, cut into the steps' parts.
proof fn lemma_reader_steps_shape(
    syn: Result<(), Error>, fk: Result<(), Error>, ck: Result<(), Error>,
    ver: Result<(), Error>, sch: Result<(), Error>, met: Result<Metadata, Error>,
    c0: Seq<SqlCall>, c1: Seq<SqlCall>, c2: Seq<SqlCall>, c3: Seq<SqlCall>,
    c4: Seq<SqlCall>, c5: Seq<SqlCall>, c6: Seq<SqlCall>,
)
    requires
        reader_open_steps(syn, fk, ck, ver, sch, met, c0, c1, c2, c3, c4, c5, c6),
    ensures
        prefix(c0, c1), prefix(c1, c2), prefix(c2, c3), prefix(c3, c4), prefix(c4, c5), prefix(c5, c6),
        rows_read(c1.skip(c0.len() as int)) == Seq::<SqlAnswer>::empty(),
        rows_read(c2.skip(c1.len() as int)) == Seq::<SqlAnswer>::empty(),
        rows_read(c3.skip(c2.len() as int)) == Seq::<SqlAnswer>::empty(),
        rows_read(c4.skip(c3.len() as int)) == Seq::<SqlAnswer>::empty(),
        rows_read(c5.skip(c4.len() as int)) == Seq::<SqlAnswer>::empty(),
{
    lemma_synchronous_shape(syn, c0, c1);
    if syn is Ok {
        lemma_setup_shape(fk, c1, c2, "PRAGMA foreign_keys = ON;"@, "enable foreign_keys");
    } else {
        lemma_prefix_refl(c1);
    }
    if syn is Ok && fk is Ok { lemma_checksum_shape(ck, c2, c3); } else { lemma_prefix_refl(c2); }
    if syn is Ok && fk is Ok && ck is Ok { lemma_check_version_shape(ver, c3, c4); } else { lemma_prefix_refl(c3); }
    if syn is Ok && fk is Ok && ck is Ok && ver is Ok { lemma_schema_shape(sch, c4, c5); } else { lemma_prefix_refl(c4); }
    if syn is Ok && fk is Ok && ck is Ok && ver is Ok && sch is Ok {
        lemma_read_metadata_shape(met, c5, c6);
    } else {
        lemma_prefix_refl(c5);
    }
}

/// Preparing a connection for reading (`prepare_reader`, which
/// `Reader::open` runs), as its contract states it, on a store file with
/// identity `ident` that SQLite's answers and reads reflect: it changes
/// nothing; metadata it gives is the store's identity; and it gives it when
/// no SQLite call failed.
pub proof fn law_prepare_reader_on_store(
    f: StoreFile,
    r: Result<Metadata, Error>,
    before: Seq<SqlCall>,
    after: Seq<SqlCall>,
    ident: Seq<u8>,
)
    requires
        reader_prepared(r, before, after),
        answers_from(f, after.skip(before.len() as int)),
        reads_from(f.metadata, rows_read(after.skip(before.len() as int))),
        is_store(f, ident),
    ensures
        apply_calls(f, after.skip(before.len() as int)) == f,
        r matches Ok(m) ==> m.ident@ == ident,
        no_failure(after.skip(before.len() as int)) ==> (r matches Ok(m) && m.ident@ == ident),
{
    let (syn, fk, ck, ver, sch, met, c1, c2, c3, c4, c5): (
        Result<(), Error>, Result<(), Error>, Result<(), Error>, Result<(), Error>,
        Result<(), Error>, Result<Metadata, Error>,
        Seq<SqlCall>, Seq<SqlCall>, Seq<SqlCall>, Seq<SqlCall>, Seq<SqlCall>,
    ) = choose|a: Result<(), Error>, b: Result<(), Error>, c: Result<(), Error>, d: Result<(), Error>,
        e: Result<(), Error>, f: Result<Metadata, Error>,
        c1: Seq<SqlCall>, c2: Seq<SqlCall>, c3: Seq<SqlCall>, c4: Seq<SqlCall>, c5: Seq<SqlCall>|
        #[trigger] reader_open_steps(a, b, c, d, e, f, before, c1, c2, c3, c4, c5, after)
        && reader_open_result(a, b, c, d, e, f) == r;
    let c0 = before;
    let c6 = after;
    let new = c6.skip(c0.len() as int);
    lemma_reader_steps_shape(syn, fk, ck, ver, sch, met, c0, c1, c2, c3, c4, c5, c6);
    lemma_prefix_refl(c6);
    lemma_seven_parts(f, c0, c1, c2, c3, c4, c5, c6, c6);
    let s6 = c6.skip(c5.len() as int);
    assert(rows_read(new) =~= rows_read(s6));
    assert(apply_calls(f, c6.skip(c6.len() as int)) == f);
    lemma_statements_differ();
    lemma_set_synchronous_on_file(f, syn, c0, c1);
    if syn is Ok {
        lemma_setup_statement_on_file(f, fk, c1, c2, "PRAGMA foreign_keys = ON;"@, "enable foreign_keys");
    }
    if syn is Ok && fk is Ok {
        lemma_checksum_on_file(f, ck, c2, c3);
    }
    if syn is Ok && fk is Ok && ck is Ok {
        law_check_version_on_file(f, ver, c3, c4);
    }
    if syn is Ok && fk is Ok && ck is Ok && ver is Ok {
        law_init_schema_on_file(f, sch, c4, c5);
    }
    if syn is Ok && fk is Ok && ck is Ok && ver is Ok && sch is Ok {
        law_read_metadata_on_file(f, met, c5, c6);
    }
    assert(apply_calls(f, new) == f);
}

/// Preparing a connection for reading (`prepare_reader`, which
/// `Reader::open` runs), as its contract states it, on any file that
/// SQLite's answers and reads reflect: it succeeds only on a file with
/// tables carrying the store's application id and version, and the
/// metadata it then gives is the file's one metadata row; on a file with
/// tables and the store's id but another version it gives
/// `VersionNotMatch` with the library's version and the file's, and on a
/// file without tables or with another application id `NotABeKVDatabase`,
/// when no SQLite call failed.
#[verifier::rlimit(50)]
pub proof fn law_prepare_reader_on_file(
    f: StoreFile,
    r: Result<Metadata, Error>,
    before: Seq<SqlCall>,
    after: Seq<SqlCall>,
)
    requires
        reader_prepared(r, before, after),
        answers_from(f, after.skip(before.len() as int)),
        reads_from(f.metadata, rows_read(after.skip(before.len() as int))),
    ensures
        r is Ok ==> f.table_count != 0 && f.application_id == MAGIC && f.user_version == VERSION,
        r matches Ok(m) ==> f.metadata.len() == 1 && m.ident@ == f.metadata[0],
        f.table_count != 0 && f.application_id == MAGIC && f.user_version != VERSION
            && no_failure(after.skip(before.len() as int)) ==>
            (r matches Err(Error::VersionNotMatch { exp, cur }) && exp == VERSION && cur == f.user_version),
        !(f.table_count != 0 && f.application_id == MAGIC) && no_failure(after.skip(before.len() as int)) ==>
            (r matches Err(Error::NotABeKVDatabase)),
{
    let (syn, fk, ck, ver, sch, met, c1, c2, c3, c4, c5): (
        Result<(), Error>, Result<(), Error>, Result<(), Error>, Result<(), Error>,
        Result<(), Error>, Result<Metadata, Error>,
        Seq<SqlCall>, Seq<SqlCall>, Seq<SqlCall>, Seq<SqlCall>, Seq<SqlCall>,
    ) = choose|a: Result<(), Error>, b: Result<(), Error>, c: Result<(), Error>, d: Result<(), Error>,
        e: Result<(), Error>, f: Result<Metadata, Error>,
        c1: Seq<SqlCall>, c2: Seq<SqlCall>, c3: Seq<SqlCall>, c4: Seq<SqlCall>, c5: Seq<SqlCall>|
        #[trigger] reader_open_steps(a, b, c, d, e, f, before, c1, c2, c3, c4, c5, after)
        && reader_open_result(a, b, c, d, e, f) == r;
    let c0 = before;
    let c6 = after;
    let new = c6.skip(c0.len() as int);
    lemma_reader_steps_shape(syn, fk, ck, ver, sch, met, c0, c1, c2, c3, c4, c5, c6);
    lemma_prefix_refl(c6);
    lemma_seven_parts(f, c0, c1, c2, c3, c4, c5, c6, c6);
    let s5 = c5.skip(c4.len() as int);
    let s6 = c6.skip(c5.len() as int);
    assert(rows_read(new) =~= rows_read(s6));
    lemma_statements_differ();
    lemma_set_synchronous_on_file(f, syn, c0, c1);
    if syn is Ok {
        lemma_setup_statement_on_file(f, fk, c1, c2, "PRAGMA foreign_keys = ON;"@, "enable foreign_keys");
    }
    if syn is Ok && fk is Ok {
        lemma_checksum_on_file(f, ck, c2, c3);
    }
    if syn is Ok && fk is Ok && ck is Ok {
        law_check_version_on_file(f, ver, c3, c4);
    }
    let f5 = apply_calls(f, s5);
    if syn is Ok && fk is Ok && ck is Ok && ver is Ok {
        law_init_schema_on_file(f, sch, c4, c5);
        assert(f5.metadata == f.metadata);
    }
    if syn is Ok && fk is Ok && ck is Ok && ver is Ok && sch is Ok {
        lemma_answers_other_file(f, f5, s6);
        law_read_metadata_on_file(f5, met, c5, c6);
    }
}

/// Opening a store for writing and then for reading: once preparing a
/// connection for writing with identity `ident` succeeded on a file that
/// SQLite's answers reflect (a new file, or a store), preparing one for
/// reading on the file it left, which closing the writer does not change,
/// gives back `ident`, when no SQLite call of it failed; and it never gives
/// another identity.
pub proof fn law_writer_then_reader(
    f: StoreFile,
    written: Result<(), Error>,
    before_write: Seq<SqlCall>,
    after_write: Seq<SqlCall>,
    ident: Box<[u8]>,
    read: Result<Metadata, Error>,
    before_read: Seq<SqlCall>,
    after_read: Seq<SqlCall>,
)
    requires
        writer_prepared(written, before_write, after_write, ident),
        answers_from(f, after_write.skip(before_write.len() as int)),
        reads_from(f.metadata, rows_read(after_write.skip(before_write.len() as int))),
        tables_wf(f),
        written is Ok,
        reader_prepared(read, before_read, after_read),
        answers_from(apply_calls(f, after_write.skip(before_write.len() as int)), after_read.skip(before_read.len() as int)),
        reads_from(
            apply_calls(f, after_write.skip(before_write.len() as int)).metadata,
            rows_read(after_read.skip(before_read.len() as int)),
        ),
    ensures
        read matches Ok(m) ==> m.ident@ == ident@,
        no_failure(after_read.skip(before_read.len() as int)) ==> (read matches Ok(m) && m.ident@ == ident@),
{
    law_prepare_writer_on_file(f, written, before_write, after_write, ident);
    let f2 = apply_calls(f, after_write.skip(before_write.len() as int));
    law_prepare_reader_on_store(f2, read, before_read, after_read, ident@);
}

/// Looking a domain up by id and then by the name found, on a file that
/// SQLite's answers reflect and whose domain names are unique (as the
/// writer keeps them, `store_invariant`): the id found by name is the id the
/// name was found by, and it is found when no SQLite call of the second
/// lookup failed.
pub proof fn law_name_then_id(
    f: StoreFile,
    name_read: Result<Box<[u8]>, Error>,
    before_name: Seq<SqlCall>,
    after_name: Seq<SqlCall>,
    domain_id: u32,
    id_read: Result<u32, Error>,
    before_id: Seq<SqlCall>,
    after_id: Seq<SqlCall>,
    name: Seq<u8>,
)
    requires
        bytes_lookup_done(name_read, before_name, after_name, DOMAIN_NAME_BY_ID@,
            seq![SqlValue::Integer(domain_id as int)], "get_domain_name_by_id: prepare", "get_domain_name_by_id: get"),
        lookups_from(f, DOMAIN_NAME_BY_ID@, after_name.skip(before_name.len() as int)),
        name_read matches Ok(n) && n@ == name,
        id_lookup_done(id_read, before_id, after_id, DOMAIN_ID_BY_NAME@, seq![SqlValue::Blob(name)],
            "get_domain_id_by_name: prepare", "get_domain_id_by_name: get"),
        lookups_from(f, DOMAIN_ID_BY_NAME@, after_id.skip(before_id.len() as int)),
        store_invariant(f),
    ensures
        id_read matches Ok(i) ==> i == domain_id,
        no_failure(after_id.skip(before_id.len() as int)) ==> id_read == Ok::<u32, Error>(domain_id),
{
    law_get_domain_name_by_id_on_file(f, name_read, before_name, after_name, domain_id);
    law_get_domain_id_by_name_on_file(f, id_read, before_id, after_id, name);
    if let Ok(i) = id_read {
        assert(f.domains.contains_key(i) && f.domains.contains_key(domain_id));
    }
}

} // verus!
