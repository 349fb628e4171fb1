//! Reading a store: opening it read-only and looking up domains and keys.
use vstd::prelude::*;
use rusqlite::Connection;
use rusqlite::Error as SqliteError;
use crate::Metadata;
use crate::error::{Error, ErrorContext, with_context};
use crate::init::{
    then_result, no_rows_changed_done, set_synchronous_done, checksum_check_done,
    check_version_done, init_schema_done, read_metadata_done,
    set_synchronous, enable_foreign_keys, ensure_checksum_enabled, check_version, init_schema,
    read_metadata,
};
use crate::db::{Db, SqlCall, SqlValue, SqlAnswer, sql_values, prepare, statement_query_bytes, statement_query_u32, done_answer, bytes_answer, u32_answer};
use crate::db::SqlParam;

verus! {

/// The name of a domain, by id.
pub const DOMAIN_NAME_BY_ID: &'static str = "SELECT domain FROM domains WHERE domain_id = ?";
/// The id of a domain, by name.
pub const DOMAIN_ID_BY_NAME: &'static str = "SELECT domain_id FROM domains WHERE domain = ?";
/// The value stored under a key of a domain.
pub const VALUE_BY_KEY: &'static str = "SELECT value FROM storage WHERE domain_id = ? AND key = ?";
/// The key under which a value is stored in a domain.
pub const KEY_BY_VALUE: &'static str = "SELECT key FROM storage WHERE domain_id = ? AND value = ?";

/// What a one-row lookup gives for SQLite's answers: whether its statement
/// could be prepared, and the value of the one row it found.
pub open spec fn lookup_result<T>(
    prepared: core::result::Result<(), SqliteError>,
    found: core::result::Result<T, SqliteError>,
    prepare_context: &'static str,
    get_context: &'static str,
) -> Result<T, Error> {
    match prepared {
        Err(e) => Err(Error::Rusqlite(e, prepare_context)),
        Ok(_) => with_context(found, get_context),
    }
}

/// The calls a lookup makes, with SQLite's answers: it prepares `sql`, then,
/// once prepared, runs it with `params`; nothing else.
pub open spec fn lookup_calls(
    prepared: core::result::Result<(), SqliteError>,
    found: SqlAnswer,
    sql: Seq<char>,
    params: Seq<SqlValue>,
) -> Seq<SqlCall> {
    if prepared is Err {
        seq![SqlCall::Prepare(sql, done_answer(prepared))]
    } else {
        seq![SqlCall::Prepare(sql, done_answer(prepared)), SqlCall::StatementQueryOne(params, found)]
    }
}

/// `r` is what a lookup of `sql` with `params`, reading bytes, gives for the
/// answers SQLite gave, which the calls from `before` to `after` record.
pub open spec fn bytes_lookup_done(
    r: Result<Box<[u8]>, Error>,
    before: Seq<SqlCall>,
    after: Seq<SqlCall>,
    sql: Seq<char>,
    params: Seq<SqlValue>,
    prepare_context: &'static str,
    get_context: &'static str,
) -> bool {
    exists|p: core::result::Result<(), SqliteError>, f: core::result::Result<Box<[u8]>, SqliteError>|
        #[trigger] lookup_result(p, f, prepare_context, get_context) == r
            && after == before + lookup_calls(p, bytes_answer(f), sql, params)
}

/// `r` is what a lookup of `sql` with `params`, reading an id, gives for the
/// answers SQLite gave, which the calls from `before` to `after` record.
pub open spec fn id_lookup_done(
    r: Result<u32, Error>,
    before: Seq<SqlCall>,
    after: Seq<SqlCall>,
    sql: Seq<char>,
    params: Seq<SqlValue>,
    prepare_context: &'static str,
    get_context: &'static str,
) -> bool {
    exists|p: core::result::Result<(), SqliteError>, f: core::result::Result<u32, SqliteError>|
        #[trigger] lookup_result(p, f, prepare_context, get_context) == r
            && after == before + lookup_calls(p, u32_answer(f), sql, params)
}

/// What `Reader::open` gives from the results of its steps, run in order:
/// the first error, or the metadata once every step passed.
pub open spec fn reader_open_result(
    synchronous: Result<(), Error>,
    foreign_keys: Result<(), Error>,
    checksum: Result<(), Error>,
    version: Result<(), Error>,
    schema: Result<(), Error>,
    metadata: Result<Metadata, Error>,
) -> Result<Metadata, Error> {
    match then_result(synchronous, then_result(foreign_keys, then_result(checksum, then_result(version, schema)))) {
        Err(e) => Err(e),
        Ok(_) => metadata,
    }
}

/// The steps of preparing a connection for reading, run in order on a record
/// of calls that starts as `c0`: each step that runs (every earlier step
/// passed) gives what the answers SQLite gave it give, and adds the calls it
/// makes for them; `c1` to `c6` are the record after each step, and a step
/// that does not run adds nothing.
pub open spec fn reader_open_steps(
    synchronous: Result<(), Error>,
    foreign_keys: Result<(), Error>,
    checksum: Result<(), Error>,
    version: Result<(), Error>,
    schema: Result<(), Error>,
    metadata: Result<Metadata, Error>,
    c0: Seq<SqlCall>,
    c1: Seq<SqlCall>,
    c2: Seq<SqlCall>,
    c3: Seq<SqlCall>,
    c4: Seq<SqlCall>,
    c5: Seq<SqlCall>,
    c6: Seq<SqlCall>,
) -> bool {
    &&& set_synchronous_done(synchronous, c0, c1)
    &&& synchronous is Ok ==>
        no_rows_changed_done(foreign_keys, c1, c2, "PRAGMA foreign_keys = ON;"@, "enable foreign_keys")
    &&& synchronous is Ok && foreign_keys is Ok ==> {
        checksum_check_done(checksum, c2, c3)
    }
    &&& synchronous is Ok && foreign_keys is Ok && checksum is Ok ==> check_version_done(version, c3, c4)
    &&& synchronous is Ok && foreign_keys is Ok && checksum is Ok && version is Ok ==> init_schema_done(schema, c4, c5)
    &&& synchronous is Ok && foreign_keys is Ok && checksum is Ok && version is Ok && schema is Ok
        ==> read_metadata_done(metadata, c5, c6)
    &&& synchronous is Err ==> c2 == c1
    &&& !(synchronous is Ok && foreign_keys is Ok) ==> c3 == c2
    &&& !(synchronous is Ok && foreign_keys is Ok && checksum is Ok) ==> c4 == c3
    &&& !(synchronous is Ok && foreign_keys is Ok && checksum is Ok && version is Ok) ==> c5 == c4
    &&& !(synchronous is Ok && foreign_keys is Ok && checksum is Ok && version is Ok && schema is Ok) ==> c6 == c5
}

/// `r` is what preparing a connection for reading gives for the answers
/// SQLite gave, which the calls from `before` to `after` record.
pub open spec fn reader_prepared(r: Result<Metadata, Error>, before: Seq<SqlCall>, after: Seq<SqlCall>) -> bool {
    exists|a: Result<(), Error>, b: Result<(), Error>, c: Result<(), Error>, d: Result<(), Error>,
        e: Result<(), Error>, f: Result<Metadata, Error>,
        c1: Seq<SqlCall>, c2: Seq<SqlCall>, c3: Seq<SqlCall>, c4: Seq<SqlCall>, c5: Seq<SqlCall>|
        #[trigger] reader_open_steps(a, b, c, d, e, f, before, c1, c2, c3, c4, c5, after)
        && reader_open_result(a, b, c, d, e, f) == r
}

/// Prepares the connection of `db` for reading and checks the file, as
/// `Reader::open` does, and gives the store's metadata.
pub fn prepare_reader(db: &mut Db) -> (r: Result<Metadata, Error>)
    ensures
        final(db).conn == old(db).conn,
        reader_prepared(r, old(db).log.calls(), final(db).log.calls()),
{
    let ghost before = db.log.calls();
    let ghost pass: Result<(), Error> = Ok(());
    let ghost none: Result<Metadata, Error> = Err(Error::NotABeKVDatabase);
    let a = set_synchronous(db);
    let ghost ga = a;
    let ghost c1 = db.log.calls();
    if let Err(err) = a {
        assert(reader_open_steps(ga, pass, pass, pass, pass, none, before, c1, c1, c1, c1, c1, c1));
        assert(reader_open_result(ga, pass, pass, pass, pass, none) == Err::<Metadata, Error>(err));
        return Err(err);
    }
    let b = enable_foreign_keys(db);
    let ghost gb = b;
    let ghost c2 = db.log.calls();
    if let Err(err) = b {
        assert(reader_open_steps(ga, gb, pass, pass, pass, none, before, c1, c2, c2, c2, c2, c2));
        assert(reader_open_result(ga, gb, pass, pass, pass, none) == Err::<Metadata, Error>(err));
        return Err(err);
    }
    let c = ensure_checksum_enabled(db);
    let ghost gc = c;
    let ghost c3 = db.log.calls();
    if let Err(err) = c {
        assert(reader_open_steps(ga, gb, gc, pass, pass, none, before, c1, c2, c3, c3, c3, c3));
        assert(reader_open_result(ga, gb, gc, pass, pass, none) == Err::<Metadata, Error>(err));
        return Err(err);
    }
    let d = check_version(db);
    let ghost gd = d;
    let ghost c4 = db.log.calls();
    if let Err(err) = d {
        assert(reader_open_steps(ga, gb, gc, gd, pass, none, before, c1, c2, c3, c4, c4, c4));
        assert(reader_open_result(ga, gb, gc, gd, pass, none) == Err::<Metadata, Error>(err));
        return Err(err);
    }
    let e = init_schema(db);
    let ghost ge = e;
    let ghost c5 = db.log.calls();
    if let Err(err) = e {
        assert(reader_open_steps(ga, gb, gc, gd, ge, none, before, c1, c2, c3, c4, c5, c5));
        assert(reader_open_result(ga, gb, gc, gd, ge, none) == Err::<Metadata, Error>(err));
        return Err(err);
    }
    let f = read_metadata(db);
    let ghost gf = f;
    let ghost c6 = db.log.calls();
    assert(reader_open_steps(ga, gb, gc, gd, ge, gf, before, c1, c2, c3, c4, c5, c6));
    match f {
        Err(err) => {
            assert(reader_open_result(ga, gb, gc, gd, ge, gf) == Err::<Metadata, Error>(err));
            Err(err)
        },
        Ok(metadata) => {
            let r = Ok(metadata);
            assert(reader_open_result(ga, gb, gc, gd, ge, gf) == r);
            r
        },
    }
}

/// A result of opening a reader, with the reader itself left out.
pub open spec fn reader_opened(r: Result<(Reader, Metadata), Error>) -> Result<Metadata, Error> {
    match r {
        Ok((_, m)) => Ok(m),
        Err(e) => Err(e),
    }
}

/// A store opened for reading.
pub struct Reader {
    db: Db,
}

impl Reader {
    /// The connection the reader reads through.
    pub closed spec fn connection(self) -> Connection {
        self.db.conn
    }

    /// The calls the reader made since it was opened, `open`'s included.
    pub closed spec fn calls(self) -> Seq<SqlCall> {
        self.db.log.calls()
    }

    /// Prepares `conn` for reading and checks the file: makes commits
    /// durable, enforces foreign keys, requires page checksums, requires the
    /// store's id and version, makes sure the tables exist, and reads the
    /// store's metadata, which it returns with the reader.
    ///
    /// `conn` must be open read-only on the file, with the checksum VFS
    /// registered and 8 reserve bytes per page set.
    pub fn open(conn: Connection) -> (r: Result<(Reader, Metadata), Error>)
        ensures
            exists|c: Seq<SqlCall>|
                #[trigger] reader_prepared(reader_opened(r), Seq::empty(), c)
                && (r matches Ok((rd, _)) ==> rd.calls() == c),
            r matches Ok((rd, _)) ==> rd.connection() == conn,
    {
        let mut db = Db::new(conn);
        let m = prepare_reader(&mut db);
        let ghost c = db.log.calls();
        match m {
            Err(err) => {
                assert(reader_prepared(reader_opened(Err(err)), Seq::empty(), c));
                Err(err)
            },
            Ok(metadata) => {
                let r = Ok((Reader { db }, metadata));
                assert(reader_prepared(reader_opened(r), Seq::empty(), c));
                r
            },
        }
    }

    /// The name of domain `domain_id`.
    pub fn get_domain_name_by_id(&mut self, domain_id: u32) -> (r: Result<Box<[u8]>, Error>)
        ensures
            bytes_lookup_done(r, old(self).calls(), final(self).calls(), DOMAIN_NAME_BY_ID@, seq![SqlValue::Integer(domain_id as int)], "get_domain_name_by_id: prepare", "get_domain_name_by_id: get"),
    {
        let ghost before = self.db.log.calls();
        let mut stmt = match prepare(&self.db.conn, &mut self.db.log, DOMAIN_NAME_BY_ID) {
            Err(e) => {
                let r = Err(Error::Rusqlite(e, "get_domain_name_by_id: prepare"));
                assert(self.db.log.calls() =~= before + lookup_calls(Err(e), SqlAnswer::Done, DOMAIN_NAME_BY_ID@, seq![SqlValue::Integer(domain_id as int)]));
                assert(lookup_result::<Box<[u8]>>(Err(e), Err(e), "get_domain_name_by_id: prepare", "get_domain_name_by_id: get") == r);
                return r;
            },
            Ok(stmt) => stmt,
        };
        let params = [SqlParam::Integer(domain_id as i64)];
        assert(sql_values(params@) =~= seq![SqlValue::Integer(domain_id as int)]);
        let found = statement_query_bytes(&mut stmt, &mut self.db.log, &params);
        let ghost f = found;
        let r = found.context("get_domain_name_by_id: get");
        assert(self.db.log.calls() =~= before + lookup_calls(Ok(()), bytes_answer(f), DOMAIN_NAME_BY_ID@, seq![SqlValue::Integer(domain_id as int)]));
        assert(lookup_result(Ok(()), f, "get_domain_name_by_id: prepare", "get_domain_name_by_id: get") == r);
        r
    }

    /// The id of the domain named `domain`.
    pub fn get_domain_id_by_name(&mut self, domain: &[u8]) -> (r: Result<u32, Error>)
        ensures
            id_lookup_done(r, old(self).calls(), final(self).calls(), DOMAIN_ID_BY_NAME@, seq![SqlValue::Blob(domain@)], "get_domain_id_by_name: prepare", "get_domain_id_by_name: get"),
    {
        let ghost before = self.db.log.calls();
        let mut stmt = match prepare(&self.db.conn, &mut self.db.log, DOMAIN_ID_BY_NAME) {
            Err(e) => {
                let r = Err(Error::Rusqlite(e, "get_domain_id_by_name: prepare"));
                assert(self.db.log.calls() =~= before + lookup_calls(Err(e), SqlAnswer::Done, DOMAIN_ID_BY_NAME@, seq![SqlValue::Blob(domain@)]));
                assert(lookup_result::<u32>(Err(e), Err(e), "get_domain_id_by_name: prepare", "get_domain_id_by_name: get") == r);
                return r;
            },
            Ok(stmt) => stmt,
        };
        let params = [SqlParam::Blob(domain)];
        assert(sql_values(params@) =~= seq![SqlValue::Blob(domain@)]);
        let found = statement_query_u32(&mut stmt, &mut self.db.log, &params);
        let ghost f = found;
        let r = found.context("get_domain_id_by_name: get");
        assert(self.db.log.calls() =~= before + lookup_calls(Ok(()), u32_answer(f), DOMAIN_ID_BY_NAME@, seq![SqlValue::Blob(domain@)]));
        assert(lookup_result(Ok(()), f, "get_domain_id_by_name: prepare", "get_domain_id_by_name: get") == r);
        r
    }

    /// The value stored under `key` in domain `domain_id`.
    pub fn get_value_by_key(&mut self, domain_id: u32, key: &[u8]) -> (r: Result<Box<[u8]>, Error>)
        ensures
            bytes_lookup_done(r, old(self).calls(), final(self).calls(), VALUE_BY_KEY@, seq![SqlValue::Integer(domain_id as int), SqlValue::Blob(key@)], "get_value_by_key: prepare", "get_value_by_key: get"),
    {
        let ghost before = self.db.log.calls();
        let mut stmt = match prepare(&self.db.conn, &mut self.db.log, VALUE_BY_KEY) {
            Err(e) => {
                let r = Err(Error::Rusqlite(e, "get_value_by_key: prepare"));
                assert(self.db.log.calls() =~= before + lookup_calls(Err(e), SqlAnswer::Done, VALUE_BY_KEY@, seq![SqlValue::Integer(domain_id as int), SqlValue::Blob(key@)]));
                assert(lookup_result::<Box<[u8]>>(Err(e), Err(e), "get_value_by_key: prepare", "get_value_by_key: get") == r);
                return r;
            },
            Ok(stmt) => stmt,
        };
        let params = [SqlParam::Integer(domain_id as i64), SqlParam::Blob(key)];
        assert(sql_values(params@) =~= seq![SqlValue::Integer(domain_id as int), SqlValue::Blob(key@)]);
        let found = statement_query_bytes(&mut stmt, &mut self.db.log, &params);
        let ghost f = found;
        let r = found.context("get_value_by_key: get");
        assert(self.db.log.calls() =~= before + lookup_calls(Ok(()), bytes_answer(f), VALUE_BY_KEY@, seq![SqlValue::Integer(domain_id as int), SqlValue::Blob(key@)]));
        assert(lookup_result(Ok(()), f, "get_value_by_key: prepare", "get_value_by_key: get") == r);
        r
    }

    /// The key under which `value` is stored in domain `domain_id`.
    pub fn get_key_by_value(&mut self, domain_id: u32, value: &[u8]) -> (r: Result<Box<[u8]>, Error>)
        ensures
            bytes_lookup_done(r, old(self).calls(), final(self).calls(), KEY_BY_VALUE@, seq![SqlValue::Integer(domain_id as int), SqlValue::Blob(value@)], "get_key_by_value: prepare", "get_key_by_value: get"),
    {
        let ghost before = self.db.log.calls();
        let mut stmt = match prepare(&self.db.conn, &mut self.db.log, KEY_BY_VALUE) {
            Err(e) => {
                let r = Err(Error::Rusqlite(e, "get_key_by_value: prepare"));
                assert(self.db.log.calls() =~= before + lookup_calls(Err(e), SqlAnswer::Done, KEY_BY_VALUE@, seq![SqlValue::Integer(domain_id as int), SqlValue::Blob(value@)]));
                assert(lookup_result::<Box<[u8]>>(Err(e), Err(e), "get_key_by_value: prepare", "get_key_by_value: get") == r);
                return r;
            },
            Ok(stmt) => stmt,
        };
        let params = [SqlParam::Integer(domain_id as i64), SqlParam::Blob(value)];
        assert(sql_values(params@) =~= seq![SqlValue::Integer(domain_id as int), SqlValue::Blob(value@)]);
        let found = statement_query_bytes(&mut stmt, &mut self.db.log, &params);
        let ghost f = found;
        let r = found.context("get_key_by_value: get");
        assert(self.db.log.calls() =~= before + lookup_calls(Ok(()), bytes_answer(f), KEY_BY_VALUE@, seq![SqlValue::Integer(domain_id as int), SqlValue::Blob(value@)]));
        assert(lookup_result(Ok(()), f, "get_key_by_value: prepare", "get_key_by_value: get") == r);
        r
    }
}

} // verus!
