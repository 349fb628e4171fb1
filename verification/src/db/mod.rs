//! A connection together with the record of the SQL calls the store made on
//! it. Every call the store makes goes through one of the functions here,
//! which makes the call and appends it, with its statement and parameters,
//! to the record; the store's contracts say which calls each operation makes.
use vstd::prelude::*;
use rusqlite::Connection;
use rusqlite::Error as SqliteError;
mod sqlite;

pub use self::sqlite::{SqlParam, sqlite_failure_error};
pub(crate) use self::sqlite::{sqlite_failure, tx_connection};
use self::sqlite::{
    conn_execute, conn_query_one, conn_prepare, stmt_query_one, stmt_query,
    conn_transaction, tx_commit, rows_next, row_get, conn_close,
};

verus! {

/// A parameter value as bound to a statement.
pub enum SqlValue {
    Integer(int),
    Blob(Seq<u8>),
}

/// The value a parameter binds.
pub open spec fn sql_value(p: SqlParam) -> SqlValue {
    match p {
        SqlParam::Integer(i) => SqlValue::Integer(i as int),
        SqlParam::Blob(b) => SqlValue::Blob(b@),
    }
}

/// The values a parameter list binds, in order.
pub open spec fn sql_values(params: Seq<SqlParam>) -> Seq<SqlValue> {
    params.map_values(|p: SqlParam| sql_value(p))
}

/// What SQLite answered to a call.
pub enum SqlAnswer {
    /// The call failed with this error.
    Failed(SqliteError),
    /// The call succeeded and gave nothing to read.
    Done,
    /// A statement ran and changed this many rows.
    Changed(usize),
    /// A query gave this truth value.
    Flag(bool),
    /// A query gave this integer.
    Integer(int),
    /// A query gave this text.
    Text(Seq<char>),
    /// A query or a row gave these bytes.
    Bytes(Seq<u8>),
    /// The query had no more rows.
    NoRow,
}

/// The answer to a call that gives nothing to read.
pub open spec fn done_answer<T>(o: core::result::Result<T, SqliteError>) -> SqlAnswer {
    match o { Ok(_) => SqlAnswer::Done, Err(e) => SqlAnswer::Failed(e) }
}

/// The answer to a statement run with `execute`.
pub open spec fn changed_answer(o: core::result::Result<usize, SqliteError>) -> SqlAnswer {
    match o { Ok(n) => SqlAnswer::Changed(n), Err(e) => SqlAnswer::Failed(e) }
}

/// The answer to a query read as a truth value.
pub open spec fn flag_answer(o: core::result::Result<bool, SqliteError>) -> SqlAnswer {
    match o { Ok(b) => SqlAnswer::Flag(b), Err(e) => SqlAnswer::Failed(e) }
}

/// The answer to a query read as an `i32`.
pub open spec fn i32_answer(o: core::result::Result<i32, SqliteError>) -> SqlAnswer {
    match o { Ok(i) => SqlAnswer::Integer(i as int), Err(e) => SqlAnswer::Failed(e) }
}

/// The answer to a query read as a `u32`.
pub open spec fn u32_answer(o: core::result::Result<u32, SqliteError>) -> SqlAnswer {
    match o { Ok(i) => SqlAnswer::Integer(i as int), Err(e) => SqlAnswer::Failed(e) }
}

/// The answer to a query read as text.
pub open spec fn text_answer(o: core::result::Result<String, SqliteError>) -> SqlAnswer {
    match o { Ok(t) => SqlAnswer::Text(t@), Err(e) => SqlAnswer::Failed(e) }
}

/// The answer to a query read as bytes.
pub open spec fn bytes_answer(o: core::result::Result<Box<[u8]>, SqliteError>) -> SqlAnswer {
    match o { Ok(b) => SqlAnswer::Bytes(b@), Err(e) => SqlAnswer::Failed(e) }
}

/// The answer to reading the next row's bytes.
pub open spec fn row_answer(o: Option<core::result::Result<Box<[u8]>, SqliteError>>) -> SqlAnswer {
    match o { None => SqlAnswer::NoRow, Some(r) => bytes_answer(r) }
}

/// The answer to closing a connection.
pub open spec fn close_answer(o: core::result::Result<(), (Connection, SqliteError)>) -> SqlAnswer {
    match o { Ok(_) => SqlAnswer::Done, Err((_, e)) => SqlAnswer::Failed(e) }
}

/// One call the store made on SQLite, with SQLite's answer.
pub enum SqlCall {
    /// `Connection::execute` of a statement with these parameter values.
    Execute(Seq<char>, Seq<SqlValue>, SqlAnswer),
    /// `Connection::query_one` of a query with these parameter values.
    QueryOne(Seq<char>, Seq<SqlValue>, SqlAnswer),
    /// `Connection::prepare` of a statement.
    Prepare(Seq<char>, SqlAnswer),
    /// `Statement::query_one` of the statement prepared last, with these values.
    StatementQueryOne(Seq<SqlValue>, SqlAnswer),
    /// `Statement::query` of the statement prepared last, with these values.
    StatementQuery(Seq<SqlValue>, SqlAnswer),
    /// Reading the next row of the running query, reduced to the column of
    /// this index.
    NextRow(usize, SqlAnswer),
    /// `Connection::transaction`: begin a transaction.
    Begin(SqlAnswer),
    /// `Transaction::commit`.
    Commit(SqlAnswer),
    /// `Connection::close`.
    Close(SqlAnswer),
}

/// The record of the calls made on a connection. Only the functions of this
/// module add to it, and only `Db::new` starts one, for the connection it
/// takes; the raw calls live in a module private to this one, so a call
/// that is not recorded cannot be made.
pub struct CallLog {
    calls: Ghost<Seq<SqlCall>>,
}

impl CallLog {
    /// The calls recorded, in order.
    pub closed spec fn calls(self) -> Seq<SqlCall> {
        self.calls@
    }

    /// A record with no call.
    fn new() -> (log: CallLog)
        ensures
            log.calls() == Seq::<SqlCall>::empty(),
    {
        CallLog { calls: Ghost(Seq::empty()) }
    }

    fn record(&mut self, call: Ghost<SqlCall>)
        ensures
            final(self).calls() == old(self).calls().push(call@),
    {
        self.calls = Ghost(self.calls@.push(call@));
    }
}

/// A connection together with the record of the calls made on it.
pub struct Db {
    pub conn: Connection,
    pub log: CallLog,
}

impl Db {
    /// Takes `conn`, with no call made yet.
    pub fn new(conn: Connection) -> (db: Db)
        ensures
            db.conn == conn,
            db.log.calls() == Seq::<SqlCall>::empty(),
    {
        Db { conn, log: CallLog::new() }
    }

    /// The connection.
    pub fn connection(&self) -> (conn: &Connection)
        ensures
            *conn == self.conn,
    {
        &self.conn
    }
}

/// Runs `sql` with `params` (`Connection::execute`), and records the call with its answer.
pub(crate) fn execute(conn: &Connection, log: &mut CallLog, sql: &str, params: &[SqlParam]) -> (r: core::result::Result<usize, SqliteError>)
    ensures
        final(log).calls() == old(log).calls().push(SqlCall::Execute(sql@, sql_values(params@), changed_answer(r))),
{
    let r = conn_execute(conn, sql, params);
    log.record(Ghost(SqlCall::Execute(sql@, sql_values(params@), changed_answer(r))));
    r
}

/// Runs the query `sql` that must give one row, reads column 0 as a `bool`, and records the call with its answer.
pub(crate) fn query_bool(conn: &Connection, log: &mut CallLog, sql: &str, params: &[SqlParam]) -> (r: core::result::Result<bool, SqliteError>)
    ensures
        final(log).calls() == old(log).calls().push(SqlCall::QueryOne(sql@, sql_values(params@), flag_answer(r))),
{
    let r = conn_query_one(conn, sql, params);
    log.record(Ghost(SqlCall::QueryOne(sql@, sql_values(params@), flag_answer(r))));
    r
}

/// As `query_bool`, reading an `i32`.
pub(crate) fn query_i32(conn: &Connection, log: &mut CallLog, sql: &str, params: &[SqlParam]) -> (r: core::result::Result<i32, SqliteError>)
    ensures
        final(log).calls() == old(log).calls().push(SqlCall::QueryOne(sql@, sql_values(params@), i32_answer(r))),
{
    let r = conn_query_one(conn, sql, params);
    log.record(Ghost(SqlCall::QueryOne(sql@, sql_values(params@), i32_answer(r))));
    r
}

/// As `query_bool`, reading a `u32`.
pub(crate) fn query_u32(conn: &Connection, log: &mut CallLog, sql: &str, params: &[SqlParam]) -> (r: core::result::Result<u32, SqliteError>)
    ensures
        final(log).calls() == old(log).calls().push(SqlCall::QueryOne(sql@, sql_values(params@), u32_answer(r))),
{
    let r = conn_query_one(conn, sql, params);
    log.record(Ghost(SqlCall::QueryOne(sql@, sql_values(params@), u32_answer(r))));
    r
}

/// As `query_bool`, reading a `String`.
pub(crate) fn query_string(conn: &Connection, log: &mut CallLog, sql: &str, params: &[SqlParam]) -> (r: core::result::Result<String, SqliteError>)
    ensures
        final(log).calls() == old(log).calls().push(SqlCall::QueryOne(sql@, sql_values(params@), text_answer(r))),
{
    let r = conn_query_one(conn, sql, params);
    log.record(Ghost(SqlCall::QueryOne(sql@, sql_values(params@), text_answer(r))));
    r
}

/// Prepares `sql` (`Connection::prepare`), and records the call with its answer.
pub(crate) fn prepare<'c>(conn: &'c Connection, log: &mut CallLog, sql: &str) -> (r: core::result::Result<rusqlite::Statement<'c>, SqliteError>)
    ensures
        final(log).calls() == old(log).calls().push(SqlCall::Prepare(sql@, done_answer(r))),
{
    let r = conn_prepare(conn, sql);
    log.record(Ghost(SqlCall::Prepare(sql@, done_answer(r))));
    r
}

/// Runs a prepared query that must give one row, reads column 0 as bytes, and records the call with its answer.
pub(crate) fn statement_query_bytes(stmt: &mut rusqlite::Statement, log: &mut CallLog, params: &[SqlParam]) -> (r: core::result::Result<Box<[u8]>, SqliteError>)
    ensures
        final(log).calls() == old(log).calls().push(SqlCall::StatementQueryOne(sql_values(params@), bytes_answer(r))),
{
    let r = stmt_query_one(stmt, params);
    log.record(Ghost(SqlCall::StatementQueryOne(sql_values(params@), bytes_answer(r))));
    r
}

/// As `statement_query_bytes`, reading a `u32`.
pub(crate) fn statement_query_u32(stmt: &mut rusqlite::Statement, log: &mut CallLog, params: &[SqlParam]) -> (r: core::result::Result<u32, SqliteError>)
    ensures
        final(log).calls() == old(log).calls().push(SqlCall::StatementQueryOne(sql_values(params@), u32_answer(r))),
{
    let r = stmt_query_one(stmt, params);
    log.record(Ghost(SqlCall::StatementQueryOne(sql_values(params@), u32_answer(r))));
    r
}

/// Starts a prepared query (`Statement::query`), and records the call with its answer.
pub(crate) fn statement_rows<'s, 'c>(stmt: &'s mut rusqlite::Statement<'c>, log: &mut CallLog, params: &[SqlParam]) -> (r: core::result::Result<rusqlite::Rows<'s>, SqliteError>)
    ensures
        final(log).calls() == old(log).calls().push(SqlCall::StatementQuery(sql_values(params@), done_answer(r))),
{
    let r = stmt_query(stmt, params);
    log.record(Ghost(SqlCall::StatementQuery(sql_values(params@), done_answer(r))));
    r
}

/// Begins a transaction (`Connection::transaction`), and records the call with its answer.
pub(crate) fn begin<'c>(conn: &'c mut Connection, log: &mut CallLog) -> (r: core::result::Result<rusqlite::Transaction<'c>, SqliteError>)
    ensures
        final(log).calls() == old(log).calls().push(SqlCall::Begin(done_answer(r))),
        *final(conn) == *old(conn),
{
    let r = conn_transaction(conn);
    log.record(Ghost(SqlCall::Begin(done_answer(r))));
    r
}

/// Commits a transaction, and records the call with its answer.
pub(crate) fn commit(tr: rusqlite::Transaction, log: &mut CallLog) -> (r: core::result::Result<(), SqliteError>)
    ensures
        final(log).calls() == old(log).calls().push(SqlCall::Commit(done_answer(r))),
{
    let r = tx_commit(tr);
    log.record(Ghost(SqlCall::Commit(done_answer(r))));
    r
}

/// Reads the next row of a running query (`Rows::next`) and, if there is
/// one, its column `idx` as bytes (`Row::get`); records the read with its
/// answer.
pub(crate) fn next_row_bytes(rows: &mut rusqlite::Rows, log: &mut CallLog, idx: usize) -> (r: Option<core::result::Result<Box<[u8]>, SqliteError>>)
    ensures
        final(log).calls() == old(log).calls().push(SqlCall::NextRow(idx, row_answer(r))),
{
    let r = match rows_next(rows) {
        Err(e) => Some(Err(e)),
        Ok(None) => None,
        Ok(Some(row)) => Some(row_get(row, idx)),
    };
    log.record(Ghost(SqlCall::NextRow(idx, row_answer(r))));
    r
}

/// Closes `conn` (`Connection::close`), and records the call with its answer.
pub(crate) fn close(conn: Connection, log: &mut CallLog) -> (r: core::result::Result<(), (Connection, SqliteError)>)
    ensures
        final(log).calls() == old(log).calls().push(SqlCall::Close(close_answer(r))),
{
    let r = conn_close(conn);
    log.record(Ghost(SqlCall::Close(close_answer(r))));
    r
}

} // verus!
