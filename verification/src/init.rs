//! The steps that prepare a connection for the store and check that the file
//! is a store of the right version and identity.
//!
//! Each step runs one or a few SQL statements. What SQLite answers depends on
//! the database file, so each step is given as a function of those answers:
//! a `..._result` spec function says what the step returns for given
//! answers, a `..._calls` spec function which calls it makes for them, with
//! the answers; the step's contract says that its result and the calls it
//! added to the connection's record are those of the answers SQLite gave.
use vstd::prelude::*;
use rusqlite::Connection;
use rusqlite::Error as SqliteError;
use crate::{MAGIC, VERSION, COUNT_TABLES, SET_MAGIC_STMT, SET_VERSION_STMT, METADATA_SCHEMA, DOMAINS_SCHEMA, STORAGE_SCHEMA, Metadata};
use crate::error::{Error, ErrorContext, with_context};
use crate::db::SqlParam;
use crate::db::{
    Db, SqlCall, SqlValue, SqlAnswer, sql_values, execute, query_string, query_u32, query_i32, prepare,
    statement_rows, next_row_bytes, done_answer, changed_answer, i32_answer, u32_answer, text_answer, row_answer,
};

verus! {

/// Two steps run one after the other: the first error, if any.
pub open spec fn then_result(first: Result<(), Error>, second: Result<(), Error>) -> Result<(), Error> {
    if first is Err { first } else { second }
}

// ---------------------------------------------------------------------------
// Statements that must change no row.

/// What a statement that must change no row gives, from the count of rows
/// SQLite reports it changed.
pub open spec fn no_rows_changed_result(outcome: core::result::Result<usize, SqliteError>, msg: &'static str) -> Result<(), Error> {
    match outcome {
        Err(e) => Err(Error::Rusqlite(e, msg)),
        Ok(n) => if n == 0 { Ok(()) } else { Err(Error::InvariantUpdatedRowNot0(msg)) },
    }
}

/// Checks the count of rows a statement changed: it must be 0.
pub fn no_rows_changed(outcome: core::result::Result<usize, SqliteError>, msg: &'static str) -> (r: Result<(), Error>)
    ensures
        r == no_rows_changed_result(outcome, msg),
{
    match outcome.context(msg) {
        Err(e) => Err(e),
        Ok(updated_rows) => {
            if updated_rows == 0 {
                Ok(())
            } else {
                Err(Error::InvariantUpdatedRowNot0(msg))
            }
        },
    }
}

/// `r` is what a statement that must change no row gives for some answer of
/// SQLite, and the calls went from `before` to `after` by running `sql`,
/// without parameters.
pub open spec fn no_rows_changed_done(
    r: Result<(), Error>,
    before: Seq<SqlCall>,
    after: Seq<SqlCall>,
    sql: Seq<char>,
    msg: &'static str,
) -> bool {
    exists|o: core::result::Result<usize, SqliteError>|
        #[trigger] no_rows_changed_result(o, msg) == r
            && after == before.push(SqlCall::Execute(sql, Seq::empty(), changed_answer(o)))
}

/// Runs `stmt`, which must change no row.
fn run_and_check_update_rows(db: &mut Db, stmt: &str, msg: &'static str) -> (r: Result<(), Error>)
    ensures
        final(db).conn == old(db).conn,
        no_rows_changed_done(r, old(db).log.calls(), final(db).log.calls(), stmt@, msg),
{
    let no_params: [SqlParam; 0] = [];
    assert(sql_values(no_params@) =~= Seq::<SqlValue>::empty());
    let outcome = execute(&db.conn, &mut db.log, stmt, &no_params);
    let ghost o = outcome;
    let r = no_rows_changed(outcome, msg);
    assert(no_rows_changed_result(o, msg) == r);
    assert(db.log.calls() == old(db).log.calls().push(SqlCall::Execute(stmt@, Seq::empty(), changed_answer(o))));
    r
}

/// Rebuilds the database file (`vacuum`).
pub fn run_vacuum(db: &mut Db) -> (r: Result<(), Error>)
    ensures
        final(db).conn == old(db).conn,
        no_rows_changed_done(r, old(db).log.calls(), final(db).log.calls(), "vacuum;"@, "run vacuum"),
{
    run_and_check_update_rows(db, "vacuum;", "run vacuum")
}

/// What `set_synchronous` gives for SQLite's answers to its two pragmas.
pub open spec fn set_synchronous_result(
    synchronous: core::result::Result<usize, SqliteError>,
    fullfsync: core::result::Result<usize, SqliteError>,
) -> Result<(), Error> {
    then_result(no_rows_changed_result(synchronous, "set synchronous"), no_rows_changed_result(fullfsync, "set fullfsync"))
}

/// The calls `set_synchronous` makes, with SQLite's answers: the second
/// pragma only once the first passed.
pub open spec fn set_synchronous_calls(
    synchronous: core::result::Result<usize, SqliteError>,
    fullfsync: core::result::Result<usize, SqliteError>,
) -> Seq<SqlCall> {
    let first = SqlCall::Execute("PRAGMA synchronous = EXTRA;"@, Seq::empty(), changed_answer(synchronous));
    if no_rows_changed_result(synchronous, "set synchronous") is Ok {
        seq![first, SqlCall::Execute("PRAGMA fullfsync = true;"@, Seq::empty(), changed_answer(fullfsync))]
    } else {
        seq![first]
    }
}

/// `r` is what `set_synchronous` gives for the answers SQLite gave, which
/// the calls from `before` to `after` record.
pub open spec fn set_synchronous_done(r: Result<(), Error>, before: Seq<SqlCall>, after: Seq<SqlCall>) -> bool {
    exists|a: core::result::Result<usize, SqliteError>, b: core::result::Result<usize, SqliteError>|
        #[trigger] set_synchronous_result(a, b) == r && after == before + set_synchronous_calls(a, b)
}

/// Makes every commit durable: `synchronous = EXTRA`, then `fullfsync`.
pub fn set_synchronous(db: &mut Db) -> (r: Result<(), Error>)
    ensures
        final(db).conn == old(db).conn,
        set_synchronous_done(r, old(db).log.calls(), final(db).log.calls()),
{
    let ghost before = db.log.calls();
    let r1 = run_and_check_update_rows(db, "PRAGMA synchronous = EXTRA;", "set synchronous");
    let ghost a = choose|o: core::result::Result<usize, SqliteError>|
        #[trigger] no_rows_changed_result(o, "set synchronous") == r1
            && db.log.calls() == before.push(SqlCall::Execute("PRAGMA synchronous = EXTRA;"@, Seq::empty(), changed_answer(o)));
    match r1 {
        Err(e) => {
            let r = Err(e);
            assert(db.log.calls() =~= before + set_synchronous_calls(a, Ok(0usize)));
            assert(set_synchronous_result(a, Ok(0usize)) == r);
            r
        },
        Ok(()) => {
            let ghost mid = db.log.calls();
            let r = run_and_check_update_rows(db, "PRAGMA fullfsync = true;", "set fullfsync");
            let ghost b = choose|o: core::result::Result<usize, SqliteError>|
                #[trigger] no_rows_changed_result(o, "set fullfsync") == r
                    && db.log.calls() == mid.push(SqlCall::Execute("PRAGMA fullfsync = true;"@, Seq::empty(), changed_answer(o)));
            assert(db.log.calls() =~= before + set_synchronous_calls(a, b));
            assert(set_synchronous_result(a, b) == r);
            r
        },
    }
}

/// Turns on foreign-key enforcement.
pub fn enable_foreign_keys(db: &mut Db) -> (r: Result<(), Error>)
    ensures
        final(db).conn == old(db).conn,
        no_rows_changed_done(r, old(db).log.calls(), final(db).log.calls(), "PRAGMA foreign_keys = ON;"@, "enable foreign_keys"),
{
    run_and_check_update_rows(db, "PRAGMA foreign_keys = ON;", "enable foreign_keys")
}

// ---------------------------------------------------------------------------
// The checksum VFS.

/// What the checksum check gives for SQLite's answer to
/// `PRAGMA checksum_verification`.
pub open spec fn checksum_check_result(outcome: core::result::Result<String, SqliteError>) -> Result<(), Error> {
    match outcome {
        Err(e) => Err(Error::Rusqlite(e, "check checksum_verification")),
        Ok(enabled) => if enabled@ == "1"@ { Ok(()) } else { Err(Error::Invariant("checksum_verification not enabled")) },
    }
}

/// Checks SQLite's answer to `PRAGMA checksum_verification`: it must be "1".
pub fn checksum_check(outcome: core::result::Result<String, SqliteError>) -> (r: Result<(), Error>)
    ensures
        r == checksum_check_result(outcome),
{
    match outcome.context("check checksum_verification") {
        Err(e) => Err(e),
        Ok(enabled) => {
            if enabled == "1".to_owned() {
                Ok(())
            } else {
                Err(Error::Invariant("checksum_verification not enabled"))
            }
        },
    }
}

/// `r` is what the checksum check gives for the answer SQLite gave to
/// `PRAGMA checksum_verification`, which the calls from `before` to `after`
/// record.
pub open spec fn checksum_check_done(r: Result<(), Error>, before: Seq<SqlCall>, after: Seq<SqlCall>) -> bool {
    exists|o: core::result::Result<String, SqliteError>|
        #[trigger] checksum_check_result(o) == r
            && after == before.push(SqlCall::QueryOne("PRAGMA checksum_verification;"@, Seq::empty(), text_answer(o)))
}

/// Checks that the checksum VFS verifies the pages this connection reads.
pub fn ensure_checksum_enabled(db: &mut Db) -> (r: Result<(), Error>)
    ensures
        final(db).conn == old(db).conn,
        checksum_check_done(r, old(db).log.calls(), final(db).log.calls()),
{
    let no_params: [SqlParam; 0] = [];
    assert(sql_values(no_params@) =~= Seq::<SqlValue>::empty());
    let outcome = query_string(&db.conn, &mut db.log, "PRAGMA checksum_verification;", &no_params);
    let ghost o = outcome;
    let r = checksum_check(outcome);
    assert(checksum_check_result(o) == r);
    assert(db.log.calls() == old(db).log.calls().push(
        SqlCall::QueryOne("PRAGMA checksum_verification;"@, Seq::empty(), text_answer(o))));
    r
}

// ---------------------------------------------------------------------------
// Format version and application id.

/// What a database being new means, from SQLite's count of its tables.
pub open spec fn database_is_new_result(outcome: core::result::Result<u32, SqliteError>) -> Result<bool, Error> {
    match outcome {
        Err(e) => Err(Error::Rusqlite(e, "check if database is new")),
        Ok(count) => Ok(count == 0),
    }
}

/// A database is new when it holds no table.
pub fn database_is_new(outcome: core::result::Result<u32, SqliteError>) -> (r: Result<bool, Error>)
    ensures
        r == database_is_new_result(outcome),
{
    match outcome.context("check if database is new") {
        Err(e) => Err(e),
        Ok(count) => Ok(count == 0),
    }
}

/// `r` is what the newness check gives for the count of tables SQLite gave,
/// which the calls from `before` to `after` record.
pub open spec fn database_is_new_done(r: Result<bool, Error>, before: Seq<SqlCall>, after: Seq<SqlCall>) -> bool {
    exists|o: core::result::Result<u32, SqliteError>|
        #[trigger] database_is_new_result(o) == r
            && after == before.push(SqlCall::QueryOne(COUNT_TABLES@, Seq::empty(), u32_answer(o)))
}

fn check_if_database_is_new(db: &mut Db) -> (r: Result<bool, Error>)
    ensures
        final(db).conn == old(db).conn,
        database_is_new_done(r, old(db).log.calls(), final(db).log.calls()),
{
    let no_params: [SqlParam; 0] = [];
    assert(sql_values(no_params@) =~= Seq::<SqlValue>::empty());
    let outcome = query_u32(&db.conn, &mut db.log, COUNT_TABLES, &no_params);
    let ghost o = outcome;
    let r = database_is_new(outcome);
    assert(database_is_new_result(o) == r);
    assert(db.log.calls() == old(db).log.calls().push(SqlCall::QueryOne(COUNT_TABLES@, Seq::empty(), u32_answer(o))));
    r
}

/// What the writer does with a database, once its version is known.
pub enum VersionAction {
    /// A new, untagged database: tag it with the store's id and version.
    Initialise,
    /// A database of this store at this version: use it as it is.
    Accept,
}

/// The writer's decision on a database: whether it is new (holds no table),
/// and its application id and user version.
pub open spec fn version_decision_result(is_new: bool, magic: i32, version: u32) -> Result<VersionAction, Error> {
    if is_new && magic == 0 && version == 0 {
        Ok(VersionAction::Initialise)
    } else if !is_new && magic == MAGIC && version == VERSION {
        Ok(VersionAction::Accept)
    } else if !is_new && magic == MAGIC {
        Err(Error::VersionNotMatch { exp: VERSION, cur: version })
    } else {
        Err(Error::NotABeKVDatabase)
    }
}

/// Decides, for the writer, what to do with a database.
pub fn version_decision(is_new: bool, magic: i32, version: u32) -> (r: Result<VersionAction, Error>)
    ensures
        r == version_decision_result(is_new, magic, version),
{
    if is_new && magic == 0 && version == 0 {
        Ok(VersionAction::Initialise)
    } else if !is_new && magic == MAGIC && version == VERSION {
        Ok(VersionAction::Accept)
    } else if !is_new && magic == MAGIC {
        Err(Error::VersionNotMatch { exp: VERSION, cur: version })
    } else {
        Err(Error::NotABeKVDatabase)
    }
}

/// The reader's decision on a database: it must already be a store of this
/// version; a new database is no store.
pub open spec fn check_version_decision_result(is_new: bool, magic: i32, version: u32) -> Result<(), Error> {
    if !is_new && magic == MAGIC && version == VERSION {
        Ok(())
    } else if !is_new && magic == MAGIC {
        Err(Error::VersionNotMatch { exp: VERSION, cur: version })
    } else {
        Err(Error::NotABeKVDatabase)
    }
}

/// Decides, for the reader, whether a database can be read.
pub fn check_version_decision(is_new: bool, magic: i32, version: u32) -> (r: Result<(), Error>)
    ensures
        r == check_version_decision_result(is_new, magic, version),
{
    if !is_new && magic == MAGIC && version == VERSION {
        Ok(())
    } else if !is_new && magic == MAGIC {
        Err(Error::VersionNotMatch { exp: VERSION, cur: version })
    } else {
        Err(Error::NotABeKVDatabase)
    }
}

/// What `check_or_write_version` gives for SQLite's answers: the application
/// id, the user version, the count of tables, and, when it tags the
/// database, the row counts of the two tagging pragmas.
pub open spec fn check_or_write_version_result(
    magic: core::result::Result<i32, SqliteError>,
    version: core::result::Result<u32, SqliteError>,
    tables: core::result::Result<u32, SqliteError>,
    set_magic: core::result::Result<usize, SqliteError>,
    set_version: core::result::Result<usize, SqliteError>,
) -> Result<(), Error> {
    match with_context(magic, "get magic") {
        Err(e) => Err(e),
        Ok(m) => match with_context(version, "get version") {
            Err(e) => Err(e),
            Ok(v) => match database_is_new_result(tables) {
                Err(e) => Err(e),
                Ok(is_new) => match version_decision_result(is_new, m, v) {
                    Err(e) => Err(e),
                    Ok(VersionAction::Accept) => Ok(()),
                    Ok(VersionAction::Initialise) => then_result(
                        no_rows_changed_result(set_magic, "set magic"),
                        no_rows_changed_result(set_version, "set version"),
                    ),
                },
            },
        },
    }
}

/// The calls `check_or_write_version` makes, with SQLite's answers: it reads
/// the application id, the user version and the count of tables, each once
/// the previous read succeeded; then it runs the two tagging pragmas, the
/// second once the first passed, only when it decided to tag the file.
pub open spec fn check_or_write_version_calls(
    magic: core::result::Result<i32, SqliteError>,
    version: core::result::Result<u32, SqliteError>,
    tables: core::result::Result<u32, SqliteError>,
    set_magic: core::result::Result<usize, SqliteError>,
    set_version: core::result::Result<usize, SqliteError>,
) -> Seq<SqlCall> {
    let read_magic = SqlCall::QueryOne("PRAGMA application_id;"@, Seq::empty(), i32_answer(magic));
    let read_version = SqlCall::QueryOne("PRAGMA user_version;"@, Seq::empty(), u32_answer(version));
    let reads = seq![read_magic, read_version, SqlCall::QueryOne(COUNT_TABLES@, Seq::empty(), u32_answer(tables))];
    let tag_magic = SqlCall::Execute(SET_MAGIC_STMT@, Seq::empty(), changed_answer(set_magic));
    let tag_version = SqlCall::Execute(SET_VERSION_STMT@, Seq::empty(), changed_answer(set_version));
    match (magic, version) {
        (Err(_), _) => seq![read_magic],
        (Ok(_), Err(_)) => seq![read_magic, read_version],
        (Ok(m), Ok(v)) => match database_is_new_result(tables) {
            Ok(is_new) => if version_decision_result(is_new, m, v) matches Ok(VersionAction::Initialise) {
                if no_rows_changed_result(set_magic, "set magic") is Ok {
                    reads + seq![tag_magic, tag_version]
                } else {
                    reads + seq![tag_magic]
                }
            } else {
                reads
            },
            Err(_) => reads,
        },
    }
}

/// `r` is what `check_or_write_version` gives for the answers SQLite gave,
/// which the calls from `before` to `after` record.
pub open spec fn check_or_write_version_done(r: Result<(), Error>, before: Seq<SqlCall>, after: Seq<SqlCall>) -> bool {
    exists|
        m: core::result::Result<i32, SqliteError>,
        v: core::result::Result<u32, SqliteError>,
        t: core::result::Result<u32, SqliteError>,
        a: core::result::Result<usize, SqliteError>,
        b: core::result::Result<usize, SqliteError>,
    | #[trigger] check_or_write_version_result(m, v, t, a, b) == r
        && after == before + check_or_write_version_calls(m, v, t, a, b)
}

/// For the writer: accepts a store of this version, tags a new database with
/// the store's application id and version, and refuses anything else.
pub fn check_or_write_version(db: &mut Db) -> (r: Result<(), Error>)
    ensures
        final(db).conn == old(db).conn,
        check_or_write_version_done(r, old(db).log.calls(), final(db).log.calls()),
{
    let ghost before = db.log.calls();
    let no_params: [SqlParam; 0] = [];
    assert(sql_values(no_params@) =~= Seq::<SqlValue>::empty());
    let magic = query_i32(&db.conn, &mut db.log, "PRAGMA application_id;", &no_params);
    let ghost m = magic;
    let magic = match magic.context("get magic") {
        Err(e) => {
            let r = Err(e);
            assert(db.log.calls() =~= before + check_or_write_version_calls(m, Ok(0u32), Ok(0u32), Ok(0usize), Ok(0usize)));
            assert(check_or_write_version_result(m, Ok(0u32), Ok(0u32), Ok(0usize), Ok(0usize)) == r);
            return r;
        },
        Ok(magic) => magic,
    };
    let version = query_u32(&db.conn, &mut db.log, "PRAGMA user_version;", &no_params);
    let ghost v = version;
    let version = match version.context("get version") {
        Err(e) => {
            let r = Err(e);
            assert(db.log.calls() =~= before + check_or_write_version_calls(m, v, Ok(0u32), Ok(0usize), Ok(0usize)));
            assert(check_or_write_version_result(m, v, Ok(0u32), Ok(0usize), Ok(0usize)) == r);
            return r;
        },
        Ok(version) => version,
    };
    let ghost mid = db.log.calls();
    let is_new = check_if_database_is_new(db);
    let ghost t = choose|o: core::result::Result<u32, SqliteError>|
        #[trigger] database_is_new_result(o) == is_new
            && db.log.calls() == mid.push(SqlCall::QueryOne(COUNT_TABLES@, Seq::empty(), u32_answer(o)));
    let is_new = match is_new {
        Err(e) => {
            let r = Err(e);
            assert(db.log.calls() =~= before + check_or_write_version_calls(m, v, t, Ok(0usize), Ok(0usize)));
            assert(check_or_write_version_result(m, v, t, Ok(0usize), Ok(0usize)) == r);
            return r;
        },
        Ok(is_new) => is_new,
    };
    match version_decision(is_new, magic, version) {
        Err(e) => {
            let r = Err(e);
            assert(db.log.calls() =~= before + check_or_write_version_calls(m, v, t, Ok(0usize), Ok(0usize)));
            assert(check_or_write_version_result(m, v, t, Ok(0usize), Ok(0usize)) == r);
            r
        },
        Ok(VersionAction::Accept) => {
            let r = Ok(());
            assert(db.log.calls() =~= before + check_or_write_version_calls(m, v, t, Ok(0usize), Ok(0usize)));
            assert(check_or_write_version_result(m, v, t, Ok(0usize), Ok(0usize)) == r);
            r
        },
        Ok(VersionAction::Initialise) => {
            let ghost mid2 = db.log.calls();
            let r1 = run_and_check_update_rows(db, SET_MAGIC_STMT, "set magic");
            let ghost a = choose|o: core::result::Result<usize, SqliteError>|
                #[trigger] no_rows_changed_result(o, "set magic") == r1
                    && db.log.calls() == mid2.push(SqlCall::Execute(SET_MAGIC_STMT@, Seq::empty(), changed_answer(o)));
            if r1.is_err() {
                assert(db.log.calls() =~= before + check_or_write_version_calls(m, v, t, a, Ok(0usize)));
                assert(check_or_write_version_result(m, v, t, a, Ok(0usize)) == r1);
                return r1;
            }
            let ghost mid3 = db.log.calls();
            let r = run_and_check_update_rows(db, SET_VERSION_STMT, "set version");
            let ghost b = choose|o: core::result::Result<usize, SqliteError>|
                #[trigger] no_rows_changed_result(o, "set version") == r
                    && db.log.calls() == mid3.push(SqlCall::Execute(SET_VERSION_STMT@, Seq::empty(), changed_answer(o)));
            assert(db.log.calls() =~= before + check_or_write_version_calls(m, v, t, a, b));
            assert(check_or_write_version_result(m, v, t, a, b) == r);
            r
        },
    }
}

/// What `check_version` gives for SQLite's answers: the application id, the
/// user version and the count of tables.
pub open spec fn check_version_result(
    magic: core::result::Result<i32, SqliteError>,
    version: core::result::Result<u32, SqliteError>,
    tables: core::result::Result<u32, SqliteError>,
) -> Result<(), Error> {
    match with_context(magic, "get magic") {
        Err(e) => Err(e),
        Ok(m) => match with_context(version, "get version") {
            Err(e) => Err(e),
            Ok(v) => match database_is_new_result(tables) {
                Err(e) => Err(e),
                Ok(is_new) => check_version_decision_result(is_new, m, v),
            },
        },
    }
}

/// The calls `check_version` makes, with SQLite's answers: the same three
/// reads as the writer's check, each once the previous one succeeded, and
/// nothing else.
pub open spec fn check_version_calls(
    magic: core::result::Result<i32, SqliteError>,
    version: core::result::Result<u32, SqliteError>,
    tables: core::result::Result<u32, SqliteError>,
) -> Seq<SqlCall> {
    let read_magic = SqlCall::QueryOne("PRAGMA application_id;"@, Seq::empty(), i32_answer(magic));
    let read_version = SqlCall::QueryOne("PRAGMA user_version;"@, Seq::empty(), u32_answer(version));
    if magic is Err {
        seq![read_magic]
    } else if version is Err {
        seq![read_magic, read_version]
    } else {
        seq![read_magic, read_version, SqlCall::QueryOne(COUNT_TABLES@, Seq::empty(), u32_answer(tables))]
    }
}

/// `r` is what `check_version` gives for the answers SQLite gave, which the
/// calls from `before` to `after` record.
pub open spec fn check_version_done(r: Result<(), Error>, before: Seq<SqlCall>, after: Seq<SqlCall>) -> bool {
    exists|
        m: core::result::Result<i32, SqliteError>,
        v: core::result::Result<u32, SqliteError>,
        t: core::result::Result<u32, SqliteError>,
    | #[trigger] check_version_result(m, v, t) == r && after == before + check_version_calls(m, v, t)
}

/// For the reader: accepts a store of this version only.
pub fn check_version(db: &mut Db) -> (r: Result<(), Error>)
    ensures
        final(db).conn == old(db).conn,
        check_version_done(r, old(db).log.calls(), final(db).log.calls()),
{
    let ghost before = db.log.calls();
    let no_params: [SqlParam; 0] = [];
    assert(sql_values(no_params@) =~= Seq::<SqlValue>::empty());
    let magic = query_i32(&db.conn, &mut db.log, "PRAGMA application_id;", &no_params);
    let ghost m = magic;
    let magic = match magic.context("get magic") {
        Err(e) => {
            let r = Err(e);
            assert(db.log.calls() =~= before + check_version_calls(m, Ok(0u32), Ok(0u32)));
            assert(check_version_result(m, Ok(0u32), Ok(0u32)) == r);
            return r;
        },
        Ok(magic) => magic,
    };
    let version = query_u32(&db.conn, &mut db.log, "PRAGMA user_version;", &no_params);
    let ghost v = version;
    let version = match version.context("get version") {
        Err(e) => {
            let r = Err(e);
            assert(db.log.calls() =~= before + check_version_calls(m, v, Ok(0u32)));
            assert(check_version_result(m, v, Ok(0u32)) == r);
            return r;
        },
        Ok(version) => version,
    };
    let ghost mid = db.log.calls();
    let is_new = check_if_database_is_new(db);
    let ghost t = choose|o: core::result::Result<u32, SqliteError>|
        #[trigger] database_is_new_result(o) == is_new
            && db.log.calls() == mid.push(SqlCall::QueryOne(COUNT_TABLES@, Seq::empty(), u32_answer(o)));
    let r = match is_new {
        Err(e) => Err(e),
        Ok(is_new) => check_version_decision(is_new, magic, version),
    };
    assert(db.log.calls() =~= before + check_version_calls(m, v, t));
    assert(check_version_result(m, v, t) == r);
    r
}

// ---------------------------------------------------------------------------
// Schema.

/// What `init_schema` gives for SQLite's answers to its three statements.
pub open spec fn init_schema_result(
    metadata: core::result::Result<usize, SqliteError>,
    domains: core::result::Result<usize, SqliteError>,
    storage: core::result::Result<usize, SqliteError>,
) -> Result<(), Error> {
    then_result(
        no_rows_changed_result(metadata, "init metadata schema"),
        then_result(
            no_rows_changed_result(domains, "init domains schema"),
            no_rows_changed_result(storage, "init storage schema"),
        ),
    )
}

/// The calls `init_schema` makes, with SQLite's answers: each
/// `CREATE TABLE` once the previous one passed.
pub open spec fn init_schema_calls(
    metadata: core::result::Result<usize, SqliteError>,
    domains: core::result::Result<usize, SqliteError>,
    storage: core::result::Result<usize, SqliteError>,
) -> Seq<SqlCall> {
    let create_metadata = SqlCall::Execute(METADATA_SCHEMA@, Seq::empty(), changed_answer(metadata));
    let create_domains = SqlCall::Execute(DOMAINS_SCHEMA@, Seq::empty(), changed_answer(domains));
    if no_rows_changed_result(metadata, "init metadata schema") is Err {
        seq![create_metadata]
    } else if no_rows_changed_result(domains, "init domains schema") is Err {
        seq![create_metadata, create_domains]
    } else {
        seq![create_metadata, create_domains, SqlCall::Execute(STORAGE_SCHEMA@, Seq::empty(), changed_answer(storage))]
    }
}

/// `r` is what `init_schema` gives for the answers SQLite gave, which the
/// calls from `before` to `after` record.
pub open spec fn init_schema_done(r: Result<(), Error>, before: Seq<SqlCall>, after: Seq<SqlCall>) -> bool {
    exists|
        a: core::result::Result<usize, SqliteError>,
        b: core::result::Result<usize, SqliteError>,
        c: core::result::Result<usize, SqliteError>,
    | #[trigger] init_schema_result(a, b, c) == r && after == before + init_schema_calls(a, b, c)
}

/// Creates the store's three tables where they are missing.
pub fn init_schema(db: &mut Db) -> (r: Result<(), Error>)
    ensures
        final(db).conn == old(db).conn,
        init_schema_done(r, old(db).log.calls(), final(db).log.calls()),
{
    let ghost before = db.log.calls();
    let r1 = run_and_check_update_rows(db, METADATA_SCHEMA, "init metadata schema");
    let ghost a = choose|o: core::result::Result<usize, SqliteError>|
        #[trigger] no_rows_changed_result(o, "init metadata schema") == r1
            && db.log.calls() == before.push(SqlCall::Execute(METADATA_SCHEMA@, Seq::empty(), changed_answer(o)));
    if r1.is_err() {
        assert(db.log.calls() =~= before + init_schema_calls(a, Ok(0usize), Ok(0usize)));
        assert(init_schema_result(a, Ok(0usize), Ok(0usize)) == r1);
        return r1;
    }
    let ghost mid = db.log.calls();
    let r2 = run_and_check_update_rows(db, DOMAINS_SCHEMA, "init domains schema");
    let ghost b = choose|o: core::result::Result<usize, SqliteError>|
        #[trigger] no_rows_changed_result(o, "init domains schema") == r2
            && db.log.calls() == mid.push(SqlCall::Execute(DOMAINS_SCHEMA@, Seq::empty(), changed_answer(o)));
    if r2.is_err() {
        assert(db.log.calls() =~= before + init_schema_calls(a, b, Ok(0usize)));
        assert(init_schema_result(a, b, Ok(0usize)) == r2);
        return r2;
    }
    let ghost mid2 = db.log.calls();
    let r = run_and_check_update_rows(db, STORAGE_SCHEMA, "init storage schema");
    let ghost c = choose|o: core::result::Result<usize, SqliteError>|
        #[trigger] no_rows_changed_result(o, "init storage schema") == r
            && db.log.calls() == mid2.push(SqlCall::Execute(STORAGE_SCHEMA@, Seq::empty(), changed_answer(o)));
    assert(db.log.calls() =~= before + init_schema_calls(a, b, c));
    assert(init_schema_result(a, b, c) == r);
    r
}

// ---------------------------------------------------------------------------
// Metadata.

/// Whether two byte strings are equal.
pub fn bytes_eq(a: &[u8], b: &[u8]) -> (r: bool)
    ensures
        r == (a@ == b@),
{
    if a.len() != b.len() {
        return false;
    }
    let mut i: usize = 0;
    while i < a.len()
        invariant
            a@.len() == b@.len(),
            i <= a@.len(),
            forall|j: int| 0 <= j < i ==> a@[j] == b@[j],
        decreases a@.len() - i,
    {
        if a[i] != b[i] {
            return false;
        }
        i = i + 1;
    }
    assert(a@ =~= b@);
    true
}

/// What comparing the identity a store was opened with (`exp`) with the one
/// its file holds (`cur`) gives.
pub open spec fn ident_check_result(exp: Box<[u8]>, cur: Box<[u8]>) -> Result<(), Error> {
    if exp@ == cur@ { Ok(()) } else { Err(Error::IdentNotMatch { exp, cur }) }
}

/// Checks that the file holds the identity the store was opened with.
pub fn ident_check(exp: Box<[u8]>, cur: Box<[u8]>) -> (r: Result<(), Error>)
    ensures
        r == ident_check_result(exp, cur),
{
    if bytes_eq(&exp, &cur) {
        Ok(())
    } else {
        Err(Error::IdentNotMatch { exp, cur })
    }
}

/// What an insert that must add exactly one row gives, from the count of rows
/// SQLite reports it changed.
pub open spec fn one_row_inserted_result(
    outcome: core::result::Result<usize, SqliteError>,
    context: &'static str,
    msg: &'static str,
) -> Result<(), Error> {
    match outcome {
        Err(e) => Err(Error::Rusqlite(e, context)),
        Ok(n) => if n == 1 { Ok(()) } else { Err(Error::Invariant(msg)) },
    }
}

/// Checks the count of rows an insert changed: it must be 1.
pub fn one_row_inserted(
    outcome: core::result::Result<usize, SqliteError>,
    context: &'static str,
    msg: &'static str,
) -> (r: Result<(), Error>)
    ensures
        r == one_row_inserted_result(outcome, context, msg),
{
    match outcome.context(context) {
        Err(e) => Err(e),
        Ok(updated_rows) => {
            if updated_rows != 1 {
                Err(Error::Invariant(msg))
            } else {
                Ok(())
            }
        },
    }
}

/// The next row of a `SELECT * FROM metadata` query, reduced to its `ident`
/// column: `None` once the rows are exhausted. The read is recorded with its
/// answer.
fn next_ident(rows: &mut rusqlite::Rows, log: &mut crate::db::CallLog) -> (r: Option<core::result::Result<Box<[u8]>, SqliteError>>)
    ensures
        final(log).calls() == old(log).calls().push(SqlCall::NextRow(1, row_answer(r))),
{
    next_row_bytes(rows, log, 1)
}

/// What the writer's metadata check does with the first row of the metadata
/// table: none, so it writes its own (and `inserted` is SQLite's row count);
/// one that could not be read; or one whose identity must match.
pub open spec fn first_metadata_row_result(
    first: Option<core::result::Result<Box<[u8]>, SqliteError>>,
    inserted: core::result::Result<usize, SqliteError>,
    ident: Box<[u8]>,
) -> Result<(), Error> {
    match first {
        None => one_row_inserted_result(inserted, "write metadata", "write metadata updated_rows not 1"),
        Some(Err(e)) => Err(Error::Rusqlite(e, "check metadata: get")),
        Some(Ok(cur)) => ident_check_result(ident, cur),
    }
}

/// What `check_or_write_metadata` gives for SQLite's answers: whether the
/// query could be prepared and started, its first row, the row count of the
/// insert it makes when there is none, and the row read after that.
pub open spec fn check_or_write_metadata_result(
    prepared: core::result::Result<(), SqliteError>,
    started: core::result::Result<(), SqliteError>,
    first: Option<core::result::Result<Box<[u8]>, SqliteError>>,
    inserted: core::result::Result<usize, SqliteError>,
    second: Option<core::result::Result<Box<[u8]>, SqliteError>>,
    ident: Box<[u8]>,
) -> Result<(), Error> {
    match prepared {
        Err(e) => Err(Error::Rusqlite(e, "check metadata: prepare")),
        Ok(_) => match started {
            Err(e) => Err(Error::Rusqlite(e, "check metadata: query")),
            Ok(_) => match first_metadata_row_result(first, inserted, ident) {
                Err(e) => Err(e),
                Ok(_) => if second is Some {
                    Err(Error::Invariant("more than 1 rows in metadata table"))
                } else {
                    Ok(())
                },
            },
        },
    }
}

/// Adds the metadata row.
pub const INSERT_METADATA: &'static str = "INSERT INTO metadata (id, ident) VALUES (?, ?)";

/// The insert the writer makes into an empty metadata table: row 0 with
/// `ident`, and SQLite's answer.
pub open spec fn insert_metadata_call(ident: Seq<u8>, inserted: core::result::Result<usize, SqliteError>) -> SqlCall {
    SqlCall::Execute(
        INSERT_METADATA@,
        seq![SqlValue::Integer(0), SqlValue::Blob(ident)],
        changed_answer(inserted),
    )
}

/// The calls `check_or_write_metadata` makes, with SQLite's answers: it
/// prepares `SELECT * FROM metadata`, runs it once prepared, reads the first
/// row once it started; it inserts its own row only when there was none;
/// and, once the first row passed, it reads one row more.
pub open spec fn check_or_write_metadata_calls(
    prepared: core::result::Result<(), SqliteError>,
    started: core::result::Result<(), SqliteError>,
    first: Option<core::result::Result<Box<[u8]>, SqliteError>>,
    inserted: core::result::Result<usize, SqliteError>,
    second: Option<core::result::Result<Box<[u8]>, SqliteError>>,
    ident: Box<[u8]>,
) -> Seq<SqlCall> {
    let prepare_select = SqlCall::Prepare("SELECT * FROM metadata"@, done_answer(prepared));
    let start = SqlCall::StatementQuery(Seq::empty(), done_answer(started));
    let read_first = SqlCall::NextRow(1, row_answer(first));
    let checked = if first is None {
        seq![prepare_select, start, read_first, insert_metadata_call(ident@, inserted)]
    } else {
        seq![prepare_select, start, read_first]
    };
    if prepared is Err {
        seq![prepare_select]
    } else if started is Err {
        seq![prepare_select, start]
    } else if first_metadata_row_result(first, inserted, ident) is Err {
        checked
    } else {
        checked.push(SqlCall::NextRow(1, row_answer(second)))
    }
}

/// `r` is what `check_or_write_metadata` gives for the answers SQLite gave,
/// which the calls from `before` to `after` record.
pub open spec fn check_or_write_metadata_done(
    r: Result<(), Error>,
    before: Seq<SqlCall>,
    after: Seq<SqlCall>,
    ident: Box<[u8]>,
) -> bool {
    exists|
        p: core::result::Result<(), SqliteError>,
        s: core::result::Result<(), SqliteError>,
        f: Option<core::result::Result<Box<[u8]>, SqliteError>>,
        i: core::result::Result<usize, SqliteError>,
        second: Option<core::result::Result<Box<[u8]>, SqliteError>>,
    | #[trigger] check_or_write_metadata_result(p, s, f, i, second, ident) == r
        && after == before + check_or_write_metadata_calls(p, s, f, i, second, ident)
}

/// For the writer: a database with no metadata gets `metadata`; one with
/// metadata must hold the same identity, in one row only.
pub fn check_or_write_metadata(db: &mut Db, metadata: Metadata) -> (r: Result<(), Error>)
    ensures
        final(db).conn == old(db).conn,
        check_or_write_metadata_done(r, old(db).log.calls(), final(db).log.calls(), metadata.ident),
{
    let ghost ident = metadata.ident;
    let ghost before = db.log.calls();
    let ghost none: Option<core::result::Result<Box<[u8]>, SqliteError>> = None;
    let no_params: [SqlParam; 0] = [];
    assert(sql_values(no_params@) =~= Seq::<SqlValue>::empty());
    let mut stmt = match prepare(&db.conn, &mut db.log, "SELECT * FROM metadata") {
        Err(e) => {
            let r = Err(Error::Rusqlite(e, "check metadata: prepare"));
            assert(db.log.calls() =~= before + check_or_write_metadata_calls(Err(e), Ok(()), none, Ok(1usize), none, ident));
            assert(check_or_write_metadata_result(Err(e), Ok(()), none, Ok(1usize), none, ident) == r);
            return r;
        },
        Ok(stmt) => stmt,
    };
    let mut rows = match statement_rows(&mut stmt, &mut db.log, &no_params) {
        Err(e) => {
            let r = Err(Error::Rusqlite(e, "check metadata: query"));
            assert(db.log.calls() =~= before + check_or_write_metadata_calls(Ok(()), Err(e), none, Ok(1usize), none, ident));
            assert(check_or_write_metadata_result(Ok(()), Err(e), none, Ok(1usize), none, ident) == r);
            return r;
        },
        Ok(rows) => rows,
    };
    let first = next_ident(&mut rows, &mut db.log);
    let ghost f = first;
    let ghost mut i: core::result::Result<usize, SqliteError> = Ok(1usize);
    let checked = match first {
        None => {
            let params = [SqlParam::Integer(0), SqlParam::Blob(&metadata.ident)];
            assert(sql_values(params@) =~= seq![SqlValue::Integer(0), SqlValue::Blob(ident@)]);
            let outcome = execute(&db.conn, &mut db.log, INSERT_METADATA, &params);
            proof { i = outcome; }
            one_row_inserted(outcome, "write metadata", "write metadata updated_rows not 1")
        },
        Some(cur) => match cur.context("check metadata: get") {
            Err(e) => Err(e),
            Ok(cur) => ident_check(metadata.ident, cur),
        },
    };
    assert(first_metadata_row_result(f, i, ident) == checked);
    if let Err(e) = checked {
        let r = Err(e);
        assert(db.log.calls() =~= before + check_or_write_metadata_calls(Ok(()), Ok(()), f, i, none, ident));
        assert(check_or_write_metadata_result(Ok(()), Ok(()), f, i, none, ident) == r);
        return r;
    }
    let second = next_ident(&mut rows, &mut db.log);
    let ghost g = second;
    assert(db.log.calls() =~= before + check_or_write_metadata_calls(Ok(()), Ok(()), f, i, g, ident));
    if second.is_some() {
        let r = Err(Error::Invariant("more than 1 rows in metadata table"));
        assert(check_or_write_metadata_result(Ok(()), Ok(()), f, i, g, ident) == r);
        return r;
    }
    let r = Ok(());
    assert(check_or_write_metadata_result(Ok(()), Ok(()), f, i, g, ident) == r);
    r
}

/// What `read_metadata` gives for SQLite's answers: whether the query could
/// be prepared and started, its first row, and the row read after that.
pub open spec fn read_metadata_result(
    prepared: core::result::Result<(), SqliteError>,
    started: core::result::Result<(), SqliteError>,
    first: Option<core::result::Result<Box<[u8]>, SqliteError>>,
    second: Option<core::result::Result<Box<[u8]>, SqliteError>>,
) -> Result<Metadata, Error> {
    match prepared {
        Err(e) => Err(Error::Rusqlite(e, "read metadata: prepare")),
        Ok(_) => match started {
            Err(e) => Err(Error::Rusqlite(e, "read metadata: query")),
            Ok(_) => match first {
                None => Err(Error::Invariant("0 row in metadata table when read metadata")),
                Some(Err(e)) => Err(Error::Rusqlite(e, "read metadata: get")),
                Some(Ok(ident)) => if second is Some {
                    Err(Error::Invariant("more than 1 rows in metadata table"))
                } else {
                    Ok(Metadata { ident })
                },
            },
        },
    }
}

/// The calls `read_metadata` makes, with SQLite's answers: it prepares
/// `SELECT * FROM metadata`, runs it once prepared, reads the first row once
/// it started, and one row more once the first was read; nothing else.
pub open spec fn read_metadata_calls(
    prepared: core::result::Result<(), SqliteError>,
    started: core::result::Result<(), SqliteError>,
    first: Option<core::result::Result<Box<[u8]>, SqliteError>>,
    second: Option<core::result::Result<Box<[u8]>, SqliteError>>,
) -> Seq<SqlCall> {
    let prepare_select = SqlCall::Prepare("SELECT * FROM metadata"@, done_answer(prepared));
    let start = SqlCall::StatementQuery(Seq::empty(), done_answer(started));
    if prepared is Err {
        seq![prepare_select]
    } else if started is Err {
        seq![prepare_select, start]
    } else if first matches Some(Ok(_)) {
        seq![prepare_select, start, SqlCall::NextRow(1, row_answer(first)), SqlCall::NextRow(1, row_answer(second))]
    } else {
        seq![prepare_select, start, SqlCall::NextRow(1, row_answer(first))]
    }
}

/// `r` is what `read_metadata` gives for the answers SQLite gave, which the
/// calls from `before` to `after` record.
pub open spec fn read_metadata_done(r: Result<Metadata, Error>, before: Seq<SqlCall>, after: Seq<SqlCall>) -> bool {
    exists|
        p: core::result::Result<(), SqliteError>,
        s: core::result::Result<(), SqliteError>,
        f: Option<core::result::Result<Box<[u8]>, SqliteError>>,
        second: Option<core::result::Result<Box<[u8]>, SqliteError>>,
    | #[trigger] read_metadata_result(p, s, f, second) == r && after == before + read_metadata_calls(p, s, f, second)
}

/// Reads the store's metadata: the one row of the metadata table.
pub fn read_metadata(db: &mut Db) -> (r: Result<Metadata, Error>)
    ensures
        final(db).conn == old(db).conn,
        read_metadata_done(r, old(db).log.calls(), final(db).log.calls()),
{
    let ghost before = db.log.calls();
    let ghost none: Option<core::result::Result<Box<[u8]>, SqliteError>> = None;
    let no_params: [SqlParam; 0] = [];
    assert(sql_values(no_params@) =~= Seq::<SqlValue>::empty());
    let mut stmt = match prepare(&db.conn, &mut db.log, "SELECT * FROM metadata") {
        Err(e) => {
            let r = Err(Error::Rusqlite(e, "read metadata: prepare"));
            assert(db.log.calls() =~= before + read_metadata_calls(Err(e), Ok(()), none, none));
            assert(read_metadata_result(Err(e), Ok(()), none, none) == r);
            return r;
        },
        Ok(stmt) => stmt,
    };
    let mut rows = match statement_rows(&mut stmt, &mut db.log, &no_params) {
        Err(e) => {
            let r = Err(Error::Rusqlite(e, "read metadata: query"));
            assert(db.log.calls() =~= before + read_metadata_calls(Ok(()), Err(e), none, none));
            assert(read_metadata_result(Ok(()), Err(e), none, none) == r);
            return r;
        },
        Ok(rows) => rows,
    };
    let first = next_ident(&mut rows, &mut db.log);
    let ghost f = first;
    let ident = match first {
        None => {
            let r = Err(Error::Invariant("0 row in metadata table when read metadata"));
            assert(db.log.calls() =~= before + read_metadata_calls(Ok(()), Ok(()), f, none));
            assert(read_metadata_result(Ok(()), Ok(()), f, none) == r);
            return r;
        },
        Some(Err(e)) => {
            let r = Err(Error::Rusqlite(e, "read metadata: get"));
            assert(db.log.calls() =~= before + read_metadata_calls(Ok(()), Ok(()), f, none));
            assert(read_metadata_result(Ok(()), Ok(()), f, none) == r);
            return r;
        },
        Some(Ok(ident)) => ident,
    };
    let second = next_ident(&mut rows, &mut db.log);
    let ghost g = second;
    assert(db.log.calls() =~= before + read_metadata_calls(Ok(()), Ok(()), f, g));
    if second.is_some() {
        let r = Err(Error::Invariant("more than 1 rows in metadata table"));
        assert(read_metadata_result(Ok(()), Ok(()), f, g) == r);
        return r;
    }
    let r = Ok(Metadata { ident });
    assert(read_metadata_result(Ok(()), Ok(()), f, g) == r);
    r
}

// ---------------------------------------------------------------------------
// Laws.

/// On a file that already holds tables, the writer's version check and the
/// reader's give the same answer, and the writer writes nothing; the writer
/// tags a file only when it holds no table and carries no application id and
/// no user version; the reader refuses every file that holds no table.
pub proof fn law_version_checks_agree(
    magic: core::result::Result<i32, SqliteError>,
    version: core::result::Result<u32, SqliteError>,
    tables: core::result::Result<u32, SqliteError>,
    set_magic: core::result::Result<usize, SqliteError>,
    set_version: core::result::Result<usize, SqliteError>,
)
    ensures
        database_is_new_result(tables) != Ok::<bool, Error>(true) ==>
            check_or_write_version_result(magic, version, tables, set_magic, set_version)
                == check_version_result(magic, version, tables),
        forall|is_new: bool, m: i32, v: u32|
            #[trigger] version_decision_result(is_new, m, v) matches Ok(VersionAction::Initialise)
                ==> is_new && m == 0 && v == 0,
        forall|m: i32, v: u32| #[trigger] check_version_decision_result(true, m, v) is Err,
{
}

// ---------------------------------------------------------------------------
// Laws over the calls the steps make.

/// Whether a call can change the file: a statement run with `execute`, or a
/// commit.
pub open spec fn writes(call: SqlCall) -> bool {
    call is Execute || call is Commit
}

/// The writer's version check writes only to a file that SQLite reported as
/// holding no table and carrying no application id and no user version, and
/// what it runs then is the two tagging pragmas, in order; on a file that
/// holds tables it makes only the three reads.
pub proof fn law_check_or_write_version_calls(
    magic: core::result::Result<i32, SqliteError>,
    version: core::result::Result<u32, SqliteError>,
    tables: core::result::Result<u32, SqliteError>,
    set_magic: core::result::Result<usize, SqliteError>,
    set_version: core::result::Result<usize, SqliteError>,
)
    ensures
        ({
            let calls = check_or_write_version_calls(magic, version, tables, set_magic, set_version);
            &&& (exists|j: int| 0 <= j < calls.len() && writes(#[trigger] calls[j])) ==>
                magic == Ok::<i32, SqliteError>(0) && version == Ok::<u32, SqliteError>(0)
                    && database_is_new_result(tables) == Ok::<bool, Error>(true)
            &&& forall|j: int| 0 <= j < calls.len() && writes(#[trigger] calls[j]) ==>
                calls[j] == SqlCall::Execute(SET_MAGIC_STMT@, Seq::empty(), changed_answer(set_magic))
                    || calls[j] == SqlCall::Execute(SET_VERSION_STMT@, Seq::empty(), changed_answer(set_version))
            &&& database_is_new_result(tables) == Ok::<bool, Error>(false) && magic is Ok && version is Ok ==>
                calls == seq![
                    SqlCall::QueryOne("PRAGMA application_id;"@, Seq::empty(), i32_answer(magic)),
                    SqlCall::QueryOne("PRAGMA user_version;"@, Seq::empty(), u32_answer(version)),
                    SqlCall::QueryOne(COUNT_TABLES@, Seq::empty(), u32_answer(tables)),
                ]
        }),
{
    let calls = check_or_write_version_calls(magic, version, tables, set_magic, set_version);
    if exists|j: int| 0 <= j < calls.len() && writes(#[trigger] calls[j]) {
        let j = choose|j: int| 0 <= j < calls.len() && writes(#[trigger] calls[j]);
        assert(calls.len() > 3);
    }
}

/// The reader's checks write nothing: the version check and the metadata
/// read make no call that can change the file, whatever SQLite answers.
pub proof fn law_reader_checks_write_nothing(
    magic: core::result::Result<i32, SqliteError>,
    version: core::result::Result<u32, SqliteError>,
    tables: core::result::Result<u32, SqliteError>,
    prepared: core::result::Result<(), SqliteError>,
    started: core::result::Result<(), SqliteError>,
    first: Option<core::result::Result<Box<[u8]>, SqliteError>>,
    second: Option<core::result::Result<Box<[u8]>, SqliteError>>,
)
    ensures
        forall|j: int| 0 <= j < check_version_calls(magic, version, tables).len()
            ==> !writes(#[trigger] check_version_calls(magic, version, tables)[j]),
        forall|j: int| 0 <= j < read_metadata_calls(prepared, started, first, second).len()
            ==> !writes(#[trigger] read_metadata_calls(prepared, started, first, second)[j]),
{
}

/// The writer's metadata check writes only when the query ran and found no
/// row, and then it inserts exactly row 0 with the writer's identity; when
/// the table holds a row, it makes no call that can change the file.
pub proof fn law_check_or_write_metadata_calls(
    prepared: core::result::Result<(), SqliteError>,
    started: core::result::Result<(), SqliteError>,
    first: Option<core::result::Result<Box<[u8]>, SqliteError>>,
    inserted: core::result::Result<usize, SqliteError>,
    second: Option<core::result::Result<Box<[u8]>, SqliteError>>,
    ident: Box<[u8]>,
)
    ensures
        ({
            let calls = check_or_write_metadata_calls(prepared, started, first, inserted, second, ident);
            &&& forall|j: int| 0 <= j < calls.len() && writes(#[trigger] calls[j]) ==>
                prepared is Ok && started is Ok && first is None
                    && calls[j] == insert_metadata_call(ident@, inserted)
            &&& first is Some ==> forall|j: int| 0 <= j < calls.len() ==> !writes(#[trigger] calls[j])
        }),
{
}

} // verus!
