//! The SQLite calls the store makes, through `rusqlite`.
//!
//! Every function here is trusted: its contract is believed and its body is
//! not read. The module is private to `db`, so every call the store makes on
//! SQLite goes through `db`, which records it. What a query returns depends on the database file on disk,
//! so the query and statement functions promise nothing of their results;
//! `db` records each call with what came back, and the verified code that
//! makes the calls states its result in terms of that record.
use vstd::prelude::*;
use rusqlite::types::FromSql;
use rusqlite::Error as SqliteError;

verus! {

/// An open SQLite database connection.
#[verifier::external_type_specification]
#[verifier::external_body]
pub struct ExConnection(rusqlite::Connection);

/// An open transaction on a connection; dropping it uncommitted rolls it back.
#[verifier::external_type_specification]
#[verifier::external_body]
pub struct ExTransaction<'conn>(rusqlite::Transaction<'conn>);

/// A prepared SQL statement.
#[verifier::external_type_specification]
#[verifier::external_body]
pub struct ExStatement<'conn>(rusqlite::Statement<'conn>);

/// The rows a running query yields, one at a time.
#[verifier::external_type_specification]
#[verifier::external_body]
pub struct ExRows<'stmt>(rusqlite::Rows<'stmt>);

/// One row of a query's result.
#[verifier::external_type_specification]
#[verifier::external_body]
pub struct ExRow<'stmt>(rusqlite::Row<'stmt>);

/// An error reported by `rusqlite` or by SQLite.
#[verifier::external_type_specification]
#[verifier::external_body]
pub struct ExSqliteError(SqliteError);

/// A value bound to a `?` placeholder of a statement: an integer or a blob.
pub enum SqlParam<'a> {
    Integer(i64),
    Blob(&'a [u8]),
}

/// The error that `rusqlite::ffi::Error::new(code)` wrapped in
/// `rusqlite::Error::SqliteFailure` with the message `msg` is.
pub uninterp spec fn sqlite_failure_error(code: i32, msg: Seq<char>) -> SqliteError;

/// Builds `rusqlite::Error::SqliteFailure(ffi::Error::new(code), Some(msg))`.
/// The contract names the result: the same code and message give the same
/// error value; nothing more of it is stated.
#[verifier::external_body]
pub(crate) fn sqlite_failure(code: i32, msg: &str) -> (e: SqliteError)
    ensures
        e == sqlite_failure_error(code, msg@),
{
    rusqlite::Error::SqliteFailure(rusqlite::ffi::Error::new(code), Some(msg.to_owned()))
}

/// `Connection::execute`: runs one statement with the given parameters and
/// returns the number of rows it changed. What it returns, and what it does
/// to the database, depends on the database: nothing is stated.
#[verifier::external_body]
pub(super) fn conn_execute(conn: &rusqlite::Connection, sql: &str, params: &[SqlParam]) -> (r: Result<usize, SqliteError>)
{
    conn.execute(sql, rusqlite::params_from_iter(params.iter().map(|p| match p {
        SqlParam::Integer(i) => rusqlite::types::Value::Integer(*i),
        SqlParam::Blob(b) => rusqlite::types::Value::Blob(b.to_vec()),
    })))
}

/// `Connection::query_one` reading column 0: runs a query that must return
/// exactly one row (else `QueryReturnedNoRows` or
/// `QueryReturnedMoreThanOneRow`) and converts column 0 of it. The row comes
/// from the database: nothing is stated of the result.
#[verifier::external_body]
pub(super) fn conn_query_one<T: FromSql>(conn: &rusqlite::Connection, sql: &str, params: &[SqlParam]) -> (r: Result<T, SqliteError>)
{
    conn.query_one(sql, rusqlite::params_from_iter(params.iter().map(|p| match p {
        SqlParam::Integer(i) => rusqlite::types::Value::Integer(*i),
        SqlParam::Blob(b) => rusqlite::types::Value::Blob(b.to_vec()),
    })), |row| row.get(0))
}

/// `Connection::prepare`: compiles `sql` into a statement. Nothing is stated
/// of whether it succeeds.
#[verifier::external_body]
pub(super) fn conn_prepare<'c>(conn: &'c rusqlite::Connection, sql: &str) -> (r: Result<rusqlite::Statement<'c>, SqliteError>)
{
    conn.prepare(sql)
}

/// `Statement::query_one` reading column 0, as `conn_query_one` does for a
/// statement prepared beforehand. Nothing is stated of the result.
#[verifier::external_body]
pub(super) fn stmt_query_one<T: FromSql>(stmt: &mut rusqlite::Statement, params: &[SqlParam]) -> (r: Result<T, SqliteError>)
{
    stmt.query_one(rusqlite::params_from_iter(params.iter().map(|p| match p {
        SqlParam::Integer(i) => rusqlite::types::Value::Integer(*i),
        SqlParam::Blob(b) => rusqlite::types::Value::Blob(b.to_vec()),
    })), |row| row.get(0))
}

/// `Statement::query`: starts the statement and hands back its rows, to be
/// read one at a time. Nothing is stated of the result.
#[verifier::external_body]
pub(super) fn stmt_query<'s, 'c>(stmt: &'s mut rusqlite::Statement<'c>, params: &[SqlParam]) -> (r: Result<rusqlite::Rows<'s>, SqliteError>)
{
    stmt.query(rusqlite::params_from_iter(params.iter().map(|p| match p {
        SqlParam::Integer(i) => rusqlite::types::Value::Integer(*i),
        SqlParam::Blob(b) => rusqlite::types::Value::Blob(b.to_vec()),
    })))
}

/// `Rows::next`: the next row, `None` once all rows were read. Nothing is
/// stated of the result.
#[verifier::external_body]
pub(super) fn rows_next<'r, 's>(rows: &'r mut rusqlite::Rows<'s>) -> (r: Result<Option<&'r rusqlite::Row<'s>>, SqliteError>)
{
    rows.next()
}

/// `Row::get`: column `idx` of a row, converted to `T`. Nothing is stated of
/// the result.
#[verifier::external_body]
pub(super) fn row_get<T: FromSql>(row: &rusqlite::Row, idx: usize) -> (r: Result<T, SqliteError>)
{
    row.get(idx)
}

/// `Connection::transaction`: begins a deferred transaction. Nothing is
/// stated of whether it succeeds. The contract says that the connection is
/// the same one afterwards: `transaction` takes `&mut self` only to keep the
/// connection to the transaction, which holds it as `&Connection`, and
/// assigns nothing to it.
#[verifier::external_body]
pub(super) fn conn_transaction(conn: &mut rusqlite::Connection) -> (r: Result<rusqlite::Transaction<'_>, SqliteError>)
    ensures
        *final(conn) == *old(conn),
{
    conn.transaction()
}

/// The connection a transaction runs on (`Deref` of `Transaction`).
#[verifier::external_body]
pub(crate) fn tx_connection<'a, 'c>(tr: &'a rusqlite::Transaction<'c>) -> (conn: &'a rusqlite::Connection)
{
    tr
}

/// `Transaction::commit`. Nothing is stated of whether it succeeds.
#[verifier::external_body]
pub(super) fn tx_commit(tr: rusqlite::Transaction) -> (r: Result<(), SqliteError>)
{
    tr.commit()
}

/// `Connection::close`; on failure it hands the connection back with the
/// error. Nothing is stated of whether it succeeds.
#[verifier::external_body]
pub(super) fn conn_close(conn: rusqlite::Connection) -> (r: Result<(), (rusqlite::Connection, SqliteError)>)
{
    conn.close()
}

} // verus!
