//! Writing to a store: opening it for writing, adding domains and keys.
use vstd::prelude::*;
use rusqlite::Connection;
use rusqlite::Error as SqliteError;
use crate::Metadata;
use crate::error::{Error, ErrorContext, with_context};
use crate::init::{
    then_result, no_rows_changed_done, set_synchronous_done, checksum_check_done,
    check_or_write_version_done, init_schema_done, check_or_write_metadata_done,
    one_row_inserted, one_row_inserted_result,
    run_vacuum, set_synchronous, enable_foreign_keys, ensure_checksum_enabled,
    check_or_write_version, init_schema, check_or_write_metadata,
};
use crate::db::{Db, CallLog, close, close_answer, SqlCall, SqlValue, SqlAnswer, sql_values, execute, query_bool, begin, commit, done_answer, changed_answer, flag_answer};
use crate::db::{SqlParam, tx_connection};

verus! {

/// What an existence query gives when the thing must not exist yet: SQLite's
/// answer, the step it belongs to, and the error for "it exists".
pub open spec fn must_be_absent_result(
    outcome: core::result::Result<bool, SqliteError>,
    context: &'static str,
    exists_error: Error,
) -> Result<(), Error> {
    match outcome {
        Err(e) => Err(Error::Rusqlite(e, context)),
        Ok(true) => Err(exists_error),
        Ok(false) => Ok(()),
    }
}

/// Checks an existence query's answer where the thing must not exist yet.
pub fn must_be_absent(
    outcome: core::result::Result<bool, SqliteError>,
    context: &'static str,
    exists_error: Error,
) -> (r: Result<(), Error>)
    ensures
        r == must_be_absent_result(outcome, context, exists_error),
{
    match outcome.context(context) {
        Err(e) => Err(e),
        Ok(true) => Err(exists_error),
        Ok(false) => Ok(()),
    }
}

/// What an existence query gives when the thing must exist: SQLite's answer,
/// the step it belongs to, and the error for "it is missing".
pub open spec fn must_be_present_result(
    outcome: core::result::Result<bool, SqliteError>,
    context: &'static str,
    missing_error: Error,
) -> Result<(), Error> {
    match outcome {
        Err(e) => Err(Error::Rusqlite(e, context)),
        Ok(true) => Ok(()),
        Ok(false) => Err(missing_error),
    }
}

/// Checks an existence query's answer where the thing must exist.
pub fn must_be_present(
    outcome: core::result::Result<bool, SqliteError>,
    context: &'static str,
    missing_error: Error,
) -> (r: Result<(), Error>)
    ensures
        r == must_be_present_result(outcome, context, missing_error),
{
    match outcome.context(context) {
        Err(e) => Err(e),
        Ok(true) => Ok(()),
        Ok(false) => Err(missing_error),
    }
}

/// What `write_domain` gives for SQLite's answers: whether the transaction
/// began, whether the id is taken, whether the name is taken, the row count
/// of the insert, and whether the commit went through.
pub open spec fn write_domain_result(
    begun: core::result::Result<(), SqliteError>,
    id_taken: core::result::Result<bool, SqliteError>,
    name_taken: core::result::Result<bool, SqliteError>,
    inserted: core::result::Result<usize, SqliteError>,
    committed: core::result::Result<(), SqliteError>,
) -> Result<(), Error> {
    match with_context(begun, "write domain: begin transaction") {
        Err(e) => Err(e),
        Ok(_) => match must_be_absent_result(id_taken, "write domain: check if domain exists", Error::DuplicateDomainId) {
            Err(e) => Err(e),
            Ok(_) => match must_be_absent_result(name_taken, "write domain: check if domain name exists", Error::DuplicateDomainName) {
                Err(e) => Err(e),
                Ok(_) => match one_row_inserted_result(inserted, "write domain: write", "write domain updated_rows not 1") {
                    Err(e) => Err(e),
                    Ok(_) => with_context(committed, "write domain: commit"),
                },
            },
        },
    }
}

/// What `write_kv` gives for SQLite's answers: whether the transaction began,
/// whether the domain exists, whether the key is taken in it, the row count
/// of the insert, and whether the commit went through.
pub open spec fn write_kv_result(
    begun: core::result::Result<(), SqliteError>,
    domain_known: core::result::Result<bool, SqliteError>,
    key_taken: core::result::Result<bool, SqliteError>,
    inserted: core::result::Result<usize, SqliteError>,
    committed: core::result::Result<(), SqliteError>,
) -> Result<(), Error> {
    match with_context(begun, "write kv: begin transaction") {
        Err(e) => Err(e),
        Ok(_) => match must_be_present_result(domain_known, "write kv: check if domain exists", Error::UnknownDomainId) {
            Err(e) => Err(e),
            Ok(_) => match must_be_absent_result(key_taken, "write kv: check if key exists", Error::DuplicateKey) {
                Err(e) => Err(e),
                Ok(_) => match one_row_inserted_result(inserted, "write kv: write", "write kv updated_rows not 1") {
                    Err(e) => Err(e),
                    Ok(_) => with_context(committed, "write kv: commit"),
                },
            },
        },
    }
}

/// Whether a domain with a given id exists.
pub const DOMAIN_ID_EXISTS: &'static str = "SELECT EXISTS (SELECT 1 FROM domains WHERE domain_id = ?)";
/// Whether a domain with a given name exists.
pub const DOMAIN_NAME_EXISTS: &'static str = "SELECT EXISTS (SELECT 1 FROM domains WHERE domain = ?)";
/// Adds a domain.
pub const INSERT_DOMAIN: &'static str = "INSERT INTO domains (domain_id, domain) VALUES (?, ?)";
/// Whether a key is stored in a domain.
pub const KEY_EXISTS: &'static str = "SELECT EXISTS (SELECT 1 FROM storage WHERE (domain_id, key) = (?, ?))";
/// Stores a value under a key in a domain.
pub const INSERT_KV: &'static str = "INSERT INTO storage (domain_id, key, value) VALUES (?, ?, ?)";

/// The calls `write_domain` makes for SQLite's answers: it begins a
/// transaction, asks whether the id is taken, then whether the name is
/// taken, then inserts the domain, then commits, each only once the
/// previous step passed.
pub open spec fn write_domain_calls(
    begun: core::result::Result<(), SqliteError>,
    id_taken: core::result::Result<bool, SqliteError>,
    name_taken: core::result::Result<bool, SqliteError>,
    inserted: core::result::Result<usize, SqliteError>,
    committed: core::result::Result<(), SqliteError>,
    domain_id: u32,
    domain: Seq<u8>,
) -> Seq<SqlCall> {
    let start = SqlCall::Begin(done_answer(begun));
    let ask_id = SqlCall::QueryOne(DOMAIN_ID_EXISTS@, seq![SqlValue::Integer(domain_id as int)], flag_answer(id_taken));
    let ask_name = SqlCall::QueryOne(DOMAIN_NAME_EXISTS@, seq![SqlValue::Blob(domain)], flag_answer(name_taken));
    let insert = SqlCall::Execute(
        INSERT_DOMAIN@,
        seq![SqlValue::Integer(domain_id as int), SqlValue::Blob(domain)],
        changed_answer(inserted),
    );
    if begun is Err {
        seq![start]
    } else if must_be_absent_result(id_taken, "write domain: check if domain exists", Error::DuplicateDomainId) is Err {
        seq![start, ask_id]
    } else if must_be_absent_result(name_taken, "write domain: check if domain name exists", Error::DuplicateDomainName) is Err {
        seq![start, ask_id, ask_name]
    } else if one_row_inserted_result(inserted, "write domain: write", "write domain updated_rows not 1") is Err {
        seq![start, ask_id, ask_name, insert]
    } else {
        seq![start, ask_id, ask_name, insert, SqlCall::Commit(done_answer(committed))]
    }
}

/// `r` is what `write_domain(domain_id, domain)` gives for some answers, and
/// the calls went from `before` to `after` by the calls it makes for them.
pub open spec fn write_domain_done(
    r: Result<(), Error>,
    before: Seq<SqlCall>,
    after: Seq<SqlCall>,
    domain_id: u32,
    domain: Seq<u8>,
) -> bool {
    exists|
        b: core::result::Result<(), SqliteError>,
        i: core::result::Result<bool, SqliteError>,
        n: core::result::Result<bool, SqliteError>,
        w: core::result::Result<usize, SqliteError>,
        c: core::result::Result<(), SqliteError>,
    | #[trigger] write_domain_result(b, i, n, w, c) == r
        && after == before + write_domain_calls(b, i, n, w, c, domain_id, domain)
}

/// The calls `write_kv` makes for SQLite's answers: it begins a transaction,
/// asks whether the domain exists, then whether the key is taken in it, then
/// inserts the key and value, then commits, each only once the previous step
/// passed.
pub open spec fn write_kv_calls(
    begun: core::result::Result<(), SqliteError>,
    domain_known: core::result::Result<bool, SqliteError>,
    key_taken: core::result::Result<bool, SqliteError>,
    inserted: core::result::Result<usize, SqliteError>,
    committed: core::result::Result<(), SqliteError>,
    domain_id: u32,
    key: Seq<u8>,
    value: Seq<u8>,
) -> Seq<SqlCall> {
    let start = SqlCall::Begin(done_answer(begun));
    let ask_domain = SqlCall::QueryOne(DOMAIN_ID_EXISTS@, seq![SqlValue::Integer(domain_id as int)], flag_answer(domain_known));
    let ask_key = SqlCall::QueryOne(
        KEY_EXISTS@,
        seq![SqlValue::Integer(domain_id as int), SqlValue::Blob(key)],
        flag_answer(key_taken),
    );
    let insert = SqlCall::Execute(
        INSERT_KV@,
        seq![SqlValue::Integer(domain_id as int), SqlValue::Blob(key), SqlValue::Blob(value)],
        changed_answer(inserted),
    );
    if begun is Err {
        seq![start]
    } else if must_be_present_result(domain_known, "write kv: check if domain exists", Error::UnknownDomainId) is Err {
        seq![start, ask_domain]
    } else if must_be_absent_result(key_taken, "write kv: check if key exists", Error::DuplicateKey) is Err {
        seq![start, ask_domain, ask_key]
    } else if one_row_inserted_result(inserted, "write kv: write", "write kv updated_rows not 1") is Err {
        seq![start, ask_domain, ask_key, insert]
    } else {
        seq![start, ask_domain, ask_key, insert, SqlCall::Commit(done_answer(committed))]
    }
}

/// `r` is what `write_kv(domain_id, key, value)` gives for some answers, and
/// the calls went from `before` to `after` by the calls it makes for them.
pub open spec fn write_kv_done(
    r: Result<(), Error>,
    before: Seq<SqlCall>,
    after: Seq<SqlCall>,
    domain_id: u32,
    key: Seq<u8>,
    value: Seq<u8>,
) -> bool {
    exists|
        b: core::result::Result<(), SqliteError>,
        d: core::result::Result<bool, SqliteError>,
        k: core::result::Result<bool, SqliteError>,
        w: core::result::Result<usize, SqliteError>,
        c: core::result::Result<(), SqliteError>,
    | #[trigger] write_kv_result(b, d, k, w, c) == r
        && after == before + write_kv_calls(b, d, k, w, c, domain_id, key, value)
}

/// What closing gives for `Connection::close`'s outcome.
pub open spec fn close_result(outcome: core::result::Result<(), (Connection, SqliteError)>) -> Result<(), Error> {
    match outcome {
        Ok(()) => Ok(()),
        Err((_, e)) => Err(Error::Rusqlite(e, "close file")),
    }
}

/// Maps `Connection::close`'s outcome to the store's result: the error, if
/// any, tagged "close file"; the connection handed back is dropped.
pub fn close_outcome(outcome: core::result::Result<(), (Connection, SqliteError)>) -> (r: Result<(), Error>)
    ensures
        r == close_result(outcome),
{
    match outcome {
        Ok(()) => Ok(()),
        Err((_conn, err)) => Err(Error::Rusqlite(err, "close file")),
    }
}

/// Closes the connection of `db` (`Connection::close`) and hands back the
/// record with that call added: the result is what `close_outcome` gives for
/// the outcome recorded.
pub fn close_db(db: Db) -> (r: (Result<(), Error>, CallLog))
    ensures
        exists|o: core::result::Result<(), (Connection, SqliteError)>|
            #[trigger] close_result(o) == r.0 && r.1.calls() == db.log.calls().push(SqlCall::Close(close_answer(o))),
{
    let Db { conn, log } = db;
    let mut log = log;
    let outcome = close(conn, &mut log);
    let ghost o = outcome;
    let r = close_outcome(outcome);
    assert(close_result(o) == r);
    (r, log)
}

/// What `Writer::open` gives from the results of its steps, run in order:
/// the first error, or success once every step passed.
pub open spec fn writer_open_result(
    vacuum: Result<(), Error>,
    synchronous: Result<(), Error>,
    foreign_keys: Result<(), Error>,
    checksum: Result<(), Error>,
    version: Result<(), Error>,
    schema: Result<(), Error>,
    metadata: Result<(), Error>,
) -> Result<(), Error> {
    then_result(vacuum, then_result(synchronous, then_result(foreign_keys,
        then_result(checksum, then_result(version, then_result(schema, metadata))))))
}

/// The steps of preparing a connection for writing, run in order on a
/// record of calls that starts as `c0`: each step that runs (every earlier
/// step passed) gives what the answers SQLite gave it give, and adds the
/// calls it makes for them; `c1` to `c7` are the record after each step,
/// and a step that does not run adds nothing.
pub open spec fn writer_open_steps(
    vacuum: Result<(), Error>,
    synchronous: Result<(), Error>,
    foreign_keys: Result<(), Error>,
    checksum: Result<(), Error>,
    version: Result<(), Error>,
    schema: Result<(), Error>,
    metadata: Result<(), Error>,
    c0: Seq<SqlCall>,
    c1: Seq<SqlCall>,
    c2: Seq<SqlCall>,
    c3: Seq<SqlCall>,
    c4: Seq<SqlCall>,
    c5: Seq<SqlCall>,
    c6: Seq<SqlCall>,
    c7: Seq<SqlCall>,
    ident: Box<[u8]>,
) -> bool {
    &&& no_rows_changed_done(vacuum, c0, c1, "vacuum;"@, "run vacuum")
    &&& vacuum is Ok ==> set_synchronous_done(synchronous, c1, c2)
    &&& vacuum is Ok && synchronous is Ok ==>
        no_rows_changed_done(foreign_keys, c2, c3, "PRAGMA foreign_keys = ON;"@, "enable foreign_keys")
    &&& vacuum is Ok && synchronous is Ok && foreign_keys is Ok ==> {
        checksum_check_done(checksum, c3, c4)
    }
    &&& vacuum is Ok && synchronous is Ok && foreign_keys is Ok && checksum is Ok
        ==> check_or_write_version_done(version, c4, c5)
    &&& vacuum is Ok && synchronous is Ok && foreign_keys is Ok && checksum is Ok && version is Ok
        ==> init_schema_done(schema, c5, c6)
    &&& vacuum is Ok && synchronous is Ok && foreign_keys is Ok && checksum is Ok && version is Ok
        && schema is Ok ==> check_or_write_metadata_done(metadata, c6, c7, ident)
    &&& vacuum is Err ==> c2 == c1
    &&& !(vacuum is Ok && synchronous is Ok) ==> c3 == c2
    &&& !(vacuum is Ok && synchronous is Ok && foreign_keys is Ok) ==> c4 == c3
    &&& !(vacuum is Ok && synchronous is Ok && foreign_keys is Ok && checksum is Ok) ==> c5 == c4
    &&& !(vacuum is Ok && synchronous is Ok && foreign_keys is Ok && checksum is Ok && version is Ok) ==> c6 == c5
    &&& !(vacuum is Ok && synchronous is Ok && foreign_keys is Ok && checksum is Ok && version is Ok
        && schema is Ok) ==> c7 == c6
}

/// `r` is what preparing a connection for writing with identity `ident`
/// gives for the answers SQLite gave, which the calls from `before` to
/// `after` record.
pub open spec fn writer_prepared(r: Result<(), Error>, before: Seq<SqlCall>, after: Seq<SqlCall>, ident: Box<[u8]>) -> bool {
    exists|a: Result<(), Error>, b: Result<(), Error>, c: Result<(), Error>, d: Result<(), Error>,
        e: Result<(), Error>, f: Result<(), Error>, g: Result<(), Error>,
        c1: Seq<SqlCall>, c2: Seq<SqlCall>, c3: Seq<SqlCall>, c4: Seq<SqlCall>, c5: Seq<SqlCall>, c6: Seq<SqlCall>|
        #[trigger] writer_open_steps(a, b, c, d, e, f, g, before, c1, c2, c3, c4, c5, c6, after, ident)
        && writer_open_result(a, b, c, d, e, f, g) == r
}

/// Prepares the connection of `db` for writing and checks the file, as
/// `Writer::open` does, with `metadata` as the store's identity.
pub fn prepare_writer(db: &mut Db, metadata: Metadata) -> (r: Result<(), Error>)
    ensures
        final(db).conn == old(db).conn,
        writer_prepared(r, old(db).log.calls(), final(db).log.calls(), metadata.ident),
{
    let ghost ident = metadata.ident;
    let ghost before = db.log.calls();
    let ghost pass: Result<(), Error> = Ok(());
    let a = run_vacuum(db);
    let ghost ga = a;
    let ghost c1 = db.log.calls();
    if let Err(err) = a {
        assert(writer_open_steps(ga, pass, pass, pass, pass, pass, pass, before, c1, c1, c1, c1, c1, c1, c1, ident));
        assert(writer_open_result(ga, pass, pass, pass, pass, pass, pass) == Err::<(), Error>(err));
        return Err(err);
    }
    let b = set_synchronous(db);
    let ghost gb = b;
    let ghost c2 = db.log.calls();
    if let Err(err) = b {
        assert(writer_open_steps(ga, gb, pass, pass, pass, pass, pass, before, c1, c2, c2, c2, c2, c2, c2, ident));
        assert(writer_open_result(ga, gb, pass, pass, pass, pass, pass) == Err::<(), Error>(err));
        return Err(err);
    }
    let c = enable_foreign_keys(db);
    let ghost gc = c;
    let ghost c3 = db.log.calls();
    if let Err(err) = c {
        assert(writer_open_steps(ga, gb, gc, pass, pass, pass, pass, before, c1, c2, c3, c3, c3, c3, c3, ident));
        assert(writer_open_result(ga, gb, gc, pass, pass, pass, pass) == Err::<(), Error>(err));
        return Err(err);
    }
    let d = ensure_checksum_enabled(db);
    let ghost gd = d;
    let ghost c4 = db.log.calls();
    if let Err(err) = d {
        assert(writer_open_steps(ga, gb, gc, gd, pass, pass, pass, before, c1, c2, c3, c4, c4, c4, c4, ident));
        assert(writer_open_result(ga, gb, gc, gd, pass, pass, pass) == Err::<(), Error>(err));
        return Err(err);
    }
    let e = check_or_write_version(db);
    let ghost ge = e;
    let ghost c5 = db.log.calls();
    if let Err(err) = e {
        assert(writer_open_steps(ga, gb, gc, gd, ge, pass, pass, before, c1, c2, c3, c4, c5, c5, c5, ident));
        assert(writer_open_result(ga, gb, gc, gd, ge, pass, pass) == Err::<(), Error>(err));
        return Err(err);
    }
    let f = init_schema(db);
    let ghost gf = f;
    let ghost c6 = db.log.calls();
    if let Err(err) = f {
        assert(writer_open_steps(ga, gb, gc, gd, ge, gf, pass, before, c1, c2, c3, c4, c5, c6, c6, ident));
        assert(writer_open_result(ga, gb, gc, gd, ge, gf, pass) == Err::<(), Error>(err));
        return Err(err);
    }
    let g = check_or_write_metadata(db, metadata);
    let ghost gg = g;
    let ghost c7 = db.log.calls();
    assert(writer_open_steps(ga, gb, gc, gd, ge, gf, gg, before, c1, c2, c3, c4, c5, c6, c7, ident));
    if let Err(err) = g {
        assert(writer_open_result(ga, gb, gc, gd, ge, gf, gg) == Err::<(), Error>(err));
        return Err(err);
    }
    assert(writer_open_result(ga, gb, gc, gd, ge, gf, gg) == Ok::<(), Error>(()));
    Ok(())
}

/// A result of opening a writer, with the writer itself left out.
pub open spec fn opened(r: Result<Writer, Error>) -> Result<(), Error> {
    match r {
        Ok(_) => Ok(()),
        Err(e) => Err(e),
    }
}

/// A store opened for writing.
pub struct Writer {
    db: Db,
}

impl Writer {
    /// The connection the writer writes through.
    pub closed spec fn connection(self) -> Connection {
        self.db.conn
    }

    /// The calls the writer made since it was opened, `open`'s included.
    pub closed spec fn calls(self) -> Seq<SqlCall> {
        self.db.log.calls()
    }

    /// Prepares `conn` for writing and checks the file: rebuilds it, makes
    /// commits durable, enforces foreign keys, requires page checksums, tags
    /// a new file with the store's id and version (or checks them), creates
    /// the tables, and writes `metadata` into a new file (or checks it).
    ///
    /// `conn` must be open on the file, with the checksum VFS registered and
    /// 8 reserve bytes per page set.
    pub fn open(conn: Connection, metadata: Metadata) -> (r: Result<Writer, Error>)
        ensures
            exists|c: Seq<SqlCall>|
                #[trigger] writer_prepared(opened(r), Seq::empty(), c, metadata.ident)
                && (r matches Ok(w) ==> w.calls() == c),
            r matches Ok(w) ==> w.connection() == conn,
    {
        let ghost ident = metadata.ident;
        let mut db = Db::new(conn);
        let prepared = prepare_writer(&mut db, metadata);
        let ghost c = db.log.calls();
        match prepared {
            Err(err) => {
                assert(writer_prepared(opened(Err(err)), Seq::empty(), c, ident));
                Err(err)
            },
            Ok(()) => {
                let r = Ok(Writer { db });
                assert(writer_prepared(opened(r), Seq::empty(), c, ident));
                r
            },
        }
    }

    /// Adds domain `domain_id` named `domain`, in one transaction: the id and
    /// the name must both be new. The transaction is committed only once
    /// both checks and the insert passed; otherwise it is dropped, which
    /// rolls it back.
    pub fn write_domain(&mut self, domain_id: u32, domain: &[u8]) -> (r: Result<(), Error>)
        ensures
            write_domain_done(r, old(self).calls(), final(self).calls(), domain_id, domain@),
            final(self).connection() == old(self).connection(),
    {
        let ghost before = self.db.log.calls();
        let tr = match begin(&mut self.db.conn, &mut self.db.log) {
            Err(e) => {
                let r = Err(Error::Rusqlite(e, "write domain: begin transaction"));
                assert(self.db.log.calls() =~= before + write_domain_calls(Err(e), Ok(false), Ok(false), Ok(1usize), Ok(()), domain_id, domain@));
                assert(write_domain_result(Err(e), Ok(false), Ok(false), Ok(1usize), Ok(())) == r);
                return r;
            },
            Ok(tr) => tr,
        };
        let conn = tx_connection(&tr);

        let params = [SqlParam::Integer(domain_id as i64)];
        assert(sql_values(params@) =~= seq![SqlValue::Integer(domain_id as int)]);
        let id_taken = query_bool(conn, &mut self.db.log, DOMAIN_ID_EXISTS, &params);
        let ghost i = id_taken;
        if let Err(e) = must_be_absent(id_taken, "write domain: check if domain exists", Error::DuplicateDomainId) {
            let r = Err(e);
            assert(self.db.log.calls() =~= before + write_domain_calls(Ok(()), i, Ok(false), Ok(1usize), Ok(()), domain_id, domain@));
            assert(write_domain_result(Ok(()), i, Ok(false), Ok(1usize), Ok(())) == r);
            return r;
        }

        let params = [SqlParam::Blob(domain)];
        assert(sql_values(params@) =~= seq![SqlValue::Blob(domain@)]);
        let name_taken = query_bool(conn, &mut self.db.log, DOMAIN_NAME_EXISTS, &params);
        let ghost n = name_taken;
        if let Err(e) = must_be_absent(name_taken, "write domain: check if domain name exists", Error::DuplicateDomainName) {
            let r = Err(e);
            assert(self.db.log.calls() =~= before + write_domain_calls(Ok(()), i, n, Ok(1usize), Ok(()), domain_id, domain@));
            assert(write_domain_result(Ok(()), i, n, Ok(1usize), Ok(())) == r);
            return r;
        }

        let params = [SqlParam::Integer(domain_id as i64), SqlParam::Blob(domain)];
        assert(sql_values(params@) =~= seq![SqlValue::Integer(domain_id as int), SqlValue::Blob(domain@)]);
        let inserted = execute(conn, &mut self.db.log, INSERT_DOMAIN, &params);
        let ghost w = inserted;
        if let Err(e) = one_row_inserted(inserted, "write domain: write", "write domain updated_rows not 1") {
            let r = Err(e);
            assert(self.db.log.calls() =~= before + write_domain_calls(Ok(()), i, n, w, Ok(()), domain_id, domain@));
            assert(write_domain_result(Ok(()), i, n, w, Ok(())) == r);
            return r;
        }

        let committed = commit(tr, &mut self.db.log);
        let ghost c = committed;
        let r = committed.context("write domain: commit");
        assert(self.db.log.calls() =~= before + write_domain_calls(Ok(()), i, n, w, c, domain_id, domain@));
        assert(write_domain_result(Ok(()), i, n, w, c) == r);
        r
    }

    /// Stores `value` under `key` in domain `domain_id`, in one transaction:
    /// the domain must exist and the key must be new in it. The transaction
    /// is committed only once both checks and the insert passed; otherwise it
    /// is dropped, which rolls it back.
    pub fn write_kv(&mut self, domain_id: u32, key: &[u8], value: &[u8]) -> (r: Result<(), Error>)
        ensures
            write_kv_done(r, old(self).calls(), final(self).calls(), domain_id, key@, value@),
            final(self).connection() == old(self).connection(),
    {
        let ghost before = self.db.log.calls();
        let tr = match begin(&mut self.db.conn, &mut self.db.log) {
            Err(e) => {
                let r = Err(Error::Rusqlite(e, "write kv: begin transaction"));
                assert(self.db.log.calls() =~= before + write_kv_calls(Err(e), Ok(true), Ok(false), Ok(1usize), Ok(()), domain_id, key@, value@));
                assert(write_kv_result(Err(e), Ok(true), Ok(false), Ok(1usize), Ok(())) == r);
                return r;
            },
            Ok(tr) => tr,
        };
        let conn = tx_connection(&tr);

        let params = [SqlParam::Integer(domain_id as i64)];
        assert(sql_values(params@) =~= seq![SqlValue::Integer(domain_id as int)]);
        let domain_known = query_bool(conn, &mut self.db.log, DOMAIN_ID_EXISTS, &params);
        let ghost d = domain_known;
        if let Err(e) = must_be_present(domain_known, "write kv: check if domain exists", Error::UnknownDomainId) {
            let r = Err(e);
            assert(self.db.log.calls() =~= before + write_kv_calls(Ok(()), d, Ok(false), Ok(1usize), Ok(()), domain_id, key@, value@));
            assert(write_kv_result(Ok(()), d, Ok(false), Ok(1usize), Ok(())) == r);
            return r;
        }

        let params = [SqlParam::Integer(domain_id as i64), SqlParam::Blob(key)];
        assert(sql_values(params@) =~= seq![SqlValue::Integer(domain_id as int), SqlValue::Blob(key@)]);
        let key_taken = query_bool(conn, &mut self.db.log, KEY_EXISTS, &params);
        let ghost k = key_taken;
        if let Err(e) = must_be_absent(key_taken, "write kv: check if key exists", Error::DuplicateKey) {
            let r = Err(e);
            assert(self.db.log.calls() =~= before + write_kv_calls(Ok(()), d, k, Ok(1usize), Ok(()), domain_id, key@, value@));
            assert(write_kv_result(Ok(()), d, k, Ok(1usize), Ok(())) == r);
            return r;
        }

        let params = [SqlParam::Integer(domain_id as i64), SqlParam::Blob(key), SqlParam::Blob(value)];
        assert(sql_values(params@) =~= seq![SqlValue::Integer(domain_id as int), SqlValue::Blob(key@), SqlValue::Blob(value@)]);
        let inserted = execute(conn, &mut self.db.log, INSERT_KV, &params);
        let ghost w = inserted;
        if let Err(e) = one_row_inserted(inserted, "write kv: write", "write kv updated_rows not 1") {
            let r = Err(e);
            assert(self.db.log.calls() =~= before + write_kv_calls(Ok(()), d, k, w, Ok(()), domain_id, key@, value@));
            assert(write_kv_result(Ok(()), d, k, w, Ok(())) == r);
            return r;
        }

        let committed = commit(tr, &mut self.db.log);
        let ghost c = committed;
        let r = committed.context("write kv: commit");
        assert(self.db.log.calls() =~= before + write_kv_calls(Ok(()), d, k, w, c, domain_id, key@, value@));
        assert(write_kv_result(Ok(()), d, k, w, c) == r);
        r
    }

    /// Closes the connection: the result is `Connection::close`'s outcome,
    /// its error tagged "close file" (`close_db` states the call it makes).
    pub fn close(self) -> (r: Result<(), Error>)
        ensures
            exists|o: core::result::Result<(), (Connection, SqliteError)>| #[trigger] close_result(o) == r,
    {
        let (r, _log) = close_db(self.db);
        r
    }
}

// ---------------------------------------------------------------------------
// Laws over SQLite's answers.

/// A write that SQLite's existence queries refuse fails with the store's own
/// error, whatever the insert and commit would have given: a taken id with
/// `DuplicateDomainId`, a taken name with `DuplicateDomainName`, an unknown
/// domain with `UnknownDomainId`, a taken key with `DuplicateKey`.
pub proof fn law_refused_writes(
    id_taken: core::result::Result<bool, SqliteError>,
    name_taken_answer: core::result::Result<bool, SqliteError>,
    domain_known: core::result::Result<bool, SqliteError>,
    key_taken: core::result::Result<bool, SqliteError>,
    inserted: core::result::Result<usize, SqliteError>,
    committed: core::result::Result<(), SqliteError>,
)
    ensures
        id_taken == Ok::<bool, SqliteError>(true) ==>
            write_domain_result(Ok(()), id_taken, name_taken_answer, inserted, committed) matches Err(Error::DuplicateDomainId),
        id_taken == Ok::<bool, SqliteError>(false) && name_taken_answer == Ok::<bool, SqliteError>(true) ==>
            write_domain_result(Ok(()), id_taken, name_taken_answer, inserted, committed) matches Err(Error::DuplicateDomainName),
        domain_known == Ok::<bool, SqliteError>(false) ==>
            write_kv_result(Ok(()), domain_known, key_taken, inserted, committed) matches Err(Error::UnknownDomainId),
        domain_known == Ok::<bool, SqliteError>(true) && key_taken == Ok::<bool, SqliteError>(true) ==>
            write_kv_result(Ok(()), domain_known, key_taken, inserted, committed) matches Err(Error::DuplicateKey),
{
}


// ---------------------------------------------------------------------------
// Laws over the calls the writes make.

/// Whether a call commits a transaction.
pub open spec fn commits(call: SqlCall) -> bool {
    call is Commit
}

/// `write_kv` commits only after SQLite said the domain exists and the key
/// is new and the insert changed one row; the only statement it runs that
/// writes is the insert of `(domain_id, key, value)`; a success made exactly
/// the five calls begin, domain query, key query, insert, commit, each with
/// SQLite's answer; and a failure made no commit, unless the commit itself
/// failed.
pub proof fn law_write_kv_calls(
    b: core::result::Result<(), SqliteError>,
    d: core::result::Result<bool, SqliteError>,
    k: core::result::Result<bool, SqliteError>,
    w: core::result::Result<usize, SqliteError>,
    c: core::result::Result<(), SqliteError>,
    domain_id: u32,
    key: Seq<u8>,
    value: Seq<u8>,
)
    ensures
        ({
            let calls = write_kv_calls(b, d, k, w, c, domain_id, key, value);
            let insert = SqlCall::Execute(
                INSERT_KV@,
                seq![SqlValue::Integer(domain_id as int), SqlValue::Blob(key), SqlValue::Blob(value)],
                changed_answer(w),
            );
            &&& (exists|j: int| 0 <= j < calls.len() && commits(#[trigger] calls[j])) ==>
                b is Ok && d == Ok::<bool, SqliteError>(true) && k == Ok::<bool, SqliteError>(false)
                    && w == Ok::<usize, SqliteError>(1)
            &&& forall|j: int| 0 <= j < calls.len() && (#[trigger] calls[j]) is Execute ==> calls[j] == insert
            &&& write_kv_result(b, d, k, w, c) is Ok ==> calls == seq![
                SqlCall::Begin(SqlAnswer::Done),
                SqlCall::QueryOne(DOMAIN_ID_EXISTS@, seq![SqlValue::Integer(domain_id as int)], SqlAnswer::Flag(true)),
                SqlCall::QueryOne(
                    KEY_EXISTS@,
                    seq![SqlValue::Integer(domain_id as int), SqlValue::Blob(key)],
                    SqlAnswer::Flag(false),
                ),
                SqlCall::Execute(
                    INSERT_KV@,
                    seq![SqlValue::Integer(domain_id as int), SqlValue::Blob(key), SqlValue::Blob(value)],
                    SqlAnswer::Changed(1),
                ),
                SqlCall::Commit(SqlAnswer::Done),
            ]
            &&& write_kv_result(b, d, k, w, c) is Err ==>
                forall|j: int| 0 <= j < calls.len() && commits(#[trigger] calls[j]) ==> calls[j] != SqlCall::Commit(SqlAnswer::Done)
        }),
{
    let calls = write_kv_calls(b, d, k, w, c, domain_id, key, value);
    if exists|j: int| 0 <= j < calls.len() && commits(#[trigger] calls[j]) {
        let j = choose|j: int| 0 <= j < calls.len() && commits(#[trigger] calls[j]);
        assert(calls.len() == 5);
    }
}

/// `write_domain` commits only after SQLite said the id and the name are both
/// free and the insert changed one row; the only statement it runs that
/// writes is the insert of `(domain_id, domain)`; a success made exactly the
/// five calls begin, id query, name query, insert, commit, each with SQLite's
/// answer; and a failure made no commit that went through.
pub proof fn law_write_domain_calls(
    b: core::result::Result<(), SqliteError>,
    i: core::result::Result<bool, SqliteError>,
    n: core::result::Result<bool, SqliteError>,
    w: core::result::Result<usize, SqliteError>,
    c: core::result::Result<(), SqliteError>,
    domain_id: u32,
    domain: Seq<u8>,
)
    ensures
        ({
            let calls = write_domain_calls(b, i, n, w, c, domain_id, domain);
            let insert = SqlCall::Execute(
                INSERT_DOMAIN@,
                seq![SqlValue::Integer(domain_id as int), SqlValue::Blob(domain)],
                changed_answer(w),
            );
            &&& (exists|j: int| 0 <= j < calls.len() && commits(#[trigger] calls[j])) ==>
                b is Ok && i == Ok::<bool, SqliteError>(false) && n == Ok::<bool, SqliteError>(false)
                    && w == Ok::<usize, SqliteError>(1)
            &&& forall|j: int| 0 <= j < calls.len() && (#[trigger] calls[j]) is Execute ==> calls[j] == insert
            &&& write_domain_result(b, i, n, w, c) is Ok ==> calls == seq![
                SqlCall::Begin(SqlAnswer::Done),
                SqlCall::QueryOne(DOMAIN_ID_EXISTS@, seq![SqlValue::Integer(domain_id as int)], SqlAnswer::Flag(false)),
                SqlCall::QueryOne(DOMAIN_NAME_EXISTS@, seq![SqlValue::Blob(domain)], SqlAnswer::Flag(false)),
                SqlCall::Execute(
                    INSERT_DOMAIN@,
                    seq![SqlValue::Integer(domain_id as int), SqlValue::Blob(domain)],
                    SqlAnswer::Changed(1),
                ),
                SqlCall::Commit(SqlAnswer::Done),
            ]
            &&& write_domain_result(b, i, n, w, c) is Err ==>
                forall|j: int| 0 <= j < calls.len() && commits(#[trigger] calls[j]) ==> calls[j] != SqlCall::Commit(SqlAnswer::Done)
        }),
{
    let calls = write_domain_calls(b, i, n, w, c, domain_id, domain);
    if exists|j: int| 0 <= j < calls.len() && commits(#[trigger] calls[j]) {
        let j = choose|j: int| 0 <= j < calls.len() && commits(#[trigger] calls[j]);
        assert(calls.len() == 5);
    }
}

} // verus!
