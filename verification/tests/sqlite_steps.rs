use kv_storage::error::Error;
use kv_storage::init::{
    check_or_write_metadata, check_or_write_version, check_version, enable_foreign_keys,
    ensure_checksum_enabled, init_schema, read_metadata, run_vacuum, set_synchronous,
};
use kv_storage::db::Db;
use kv_storage::reader::{prepare_reader, Reader};
use kv_storage::writer::{close_db, prepare_writer, Writer};
use kv_storage::{Metadata, MAGIC, VERSION};
use rusqlite::Connection;

fn metadata(ident: &[u8]) -> Metadata {
    Metadata { ident: ident.to_vec().into_boxed_slice() }
}

fn application_id(conn: &Connection) -> i32 {
    conn.query_row("PRAGMA application_id;", [], |r| r.get(0)).unwrap()
}

fn user_version(conn: &Connection) -> u32 {
    conn.query_row("PRAGMA user_version;", [], |r| r.get(0)).unwrap()
}

#[test]
fn connection_setup_steps_pass() {
    let mut db = Db::new(Connection::open_in_memory().unwrap());
    assert!(run_vacuum(&mut db).is_ok());
    assert!(set_synchronous(&mut db).is_ok());
    assert!(enable_foreign_keys(&mut db).is_ok());
    let fk: i64 = db.connection().query_row("PRAGMA foreign_keys;", [], |r| r.get(0)).unwrap();
    assert_eq!(fk, 1);
}

#[test]
fn checksum_required_without_cksumvfs() {
    // Plain SQLite knows no `checksum_verification` pragma: it answers no row.
    let mut db = Db::new(Connection::open_in_memory().unwrap());
    assert!(matches!(
        ensure_checksum_enabled(&mut db),
        Err(Error::Rusqlite(rusqlite::Error::QueryReturnedNoRows, "check checksum_verification"))
    ));
}

#[test]
fn writer_open_stops_at_checksum_check() {
    assert!(matches!(
        Writer::open(Connection::open_in_memory().unwrap(), metadata(b"test")),
        Err(Error::Rusqlite(rusqlite::Error::QueryReturnedNoRows, "check checksum_verification"))
    ));
}

#[test]
fn reader_open_stops_at_checksum_check() {
    assert!(matches!(
        Reader::open(Connection::open_in_memory().unwrap()),
        Err(Error::Rusqlite(rusqlite::Error::QueryReturnedNoRows, "check checksum_verification"))
    ));
}

#[test]
fn new_database_is_tagged_then_accepted() {
    let mut db = Db::new(Connection::open_in_memory().unwrap());
    assert!(check_or_write_version(&mut db).is_ok());
    assert_eq!(application_id(db.connection()), MAGIC);
    assert_eq!(user_version(db.connection()), VERSION);
    // Tagged but still without tables: the reader finds no store yet.
    assert!(matches!(check_version(&mut db), Err(Error::NotABeKVDatabase)));
    assert!(init_schema(&mut db).is_ok());
    assert!(check_version(&mut db).is_ok());
    assert!(check_or_write_version(&mut db).is_ok());
}

#[test]
fn new_database_is_not_a_store_for_the_reader() {
    let mut db = Db::new(Connection::open_in_memory().unwrap());
    assert!(matches!(check_version(&mut db), Err(Error::NotABeKVDatabase)));
    assert_eq!(application_id(db.connection()), 0);
}

#[test]
fn other_application_is_refused() {
    let mut db = Db::new(Connection::open_in_memory().unwrap());
    db.connection().execute_batch("PRAGMA application_id=7; CREATE TABLE t (x);").unwrap();
    assert!(matches!(check_or_write_version(&mut db), Err(Error::NotABeKVDatabase)));
    assert!(matches!(check_version(&mut db), Err(Error::NotABeKVDatabase)));
}

#[test]
fn untagged_database_with_tables_is_refused() {
    let mut db = Db::new(Connection::open_in_memory().unwrap());
    db.connection().execute_batch("CREATE TABLE t (x);").unwrap();
    assert!(matches!(check_or_write_version(&mut db), Err(Error::NotABeKVDatabase)));
}

#[test]
fn other_version_is_refused() {
    let mut db = Db::new(Connection::open_in_memory().unwrap());
    assert!(check_or_write_version(&mut db).is_ok());
    assert!(init_schema(&mut db).is_ok());
    db.connection().execute_batch("PRAGMA user_version=2;").unwrap();
    assert!(matches!(
        check_or_write_version(&mut db),
        Err(Error::VersionNotMatch { exp: 1, cur: 2 })
    ));
    assert!(matches!(check_version(&mut db), Err(Error::VersionNotMatch { exp: 1, cur: 2 })));
}

#[test]
fn init_schema_creates_tables_once() {
    let mut db = Db::new(Connection::open_in_memory().unwrap());
    assert!(init_schema(&mut db).is_ok());
    assert!(init_schema(&mut db).is_ok());
    let n: u32 = db
        .connection()
        .query_row("SELECT count(*) FROM sqlite_master WHERE type='table';", [], |r| r.get(0))
        .unwrap();
    assert_eq!(n, 3);
}

#[test]
fn metadata_written_then_read_back() {
    let mut db = Db::new(Connection::open_in_memory().unwrap());
    assert!(init_schema(&mut db).is_ok());
    assert!(matches!(
        read_metadata(&mut db),
        Err(Error::Invariant("0 row in metadata table when read metadata"))
    ));
    assert!(check_or_write_metadata(&mut db, metadata(b"test")).is_ok());
    assert_eq!(read_metadata(&mut db).unwrap().ident.as_ref(), b"test");
    assert!(check_or_write_metadata(&mut db, metadata(b"test")).is_ok());
    assert_eq!(read_metadata(&mut db).unwrap().ident.as_ref(), b"test");
}

#[test]
fn metadata_of_other_identity_is_refused() {
    let mut db = Db::new(Connection::open_in_memory().unwrap());
    assert!(init_schema(&mut db).is_ok());
    assert!(check_or_write_metadata(&mut db, metadata(b"test")).is_ok());
    match check_or_write_metadata(&mut db, metadata(b"other")) {
        Err(Error::IdentNotMatch { exp, cur }) => {
            assert_eq!(exp.as_ref(), b"other");
            assert_eq!(cur.as_ref(), b"test");
        }
        other => panic!("unexpected {:?}", other),
    }
}

#[test]
fn metadata_without_table_fails_to_prepare() {
    let mut db = Db::new(Connection::open_in_memory().unwrap());
    assert!(matches!(
        check_or_write_metadata(&mut db, metadata(b"test")),
        Err(Error::Rusqlite(_, "check metadata: prepare"))
    ));
    assert!(matches!(read_metadata(&mut db), Err(Error::Rusqlite(_, "read metadata: prepare"))));
}

#[test]
fn metadata_check_leaves_existing_row() {
    let mut db = Db::new(Connection::open_in_memory().unwrap());
    assert!(init_schema(&mut db).is_ok());
    assert!(check_or_write_metadata(&mut db, metadata(b"test")).is_ok());
    assert!(check_or_write_metadata(&mut db, metadata(b"prod")).is_err());
    let rows: u32 = db
        .connection()
        .query_row("SELECT count(*) FROM metadata;", [], |r| r.get(0))
        .unwrap();
    assert_eq!(rows, 1);
    assert_eq!(read_metadata(&mut db).unwrap().ident.as_ref(), b"test");
}

#[test]
fn version_check_leaves_foreign_file() {
    let mut db = Db::new(Connection::open_in_memory().unwrap());
    db.connection().execute_batch("PRAGMA application_id=7; CREATE TABLE t (x);").unwrap();
    assert!(check_or_write_version(&mut db).is_err());
    assert_eq!(application_id(db.connection()), 7);
    assert_eq!(user_version(db.connection()), 0);
}

#[test]
fn prepare_writer_runs_setup_then_stops_at_checksum_check() {
    let mut db = Db::new(Connection::open_in_memory().unwrap());
    assert!(matches!(
        prepare_writer(&mut db, metadata(b"test")),
        Err(Error::Rusqlite(rusqlite::Error::QueryReturnedNoRows, "check checksum_verification"))
    ));
    // The steps before the checksum check ran: foreign keys are enforced,
    // and nothing was tagged yet.
    let fk: i64 = db.connection().query_row("PRAGMA foreign_keys;", [], |r| r.get(0)).unwrap();
    assert_eq!(fk, 1);
    assert_eq!(application_id(db.connection()), 0);
}

#[test]
fn prepare_reader_stops_at_checksum_check() {
    let mut db = Db::new(Connection::open_in_memory().unwrap());
    assert!(matches!(
        prepare_reader(&mut db),
        Err(Error::Rusqlite(rusqlite::Error::QueryReturnedNoRows, "check checksum_verification"))
    ));
    assert_eq!(user_version(db.connection()), 0);
}

#[test]
fn close_db_closes_an_open_connection() {
    let db = Db::new(Connection::open_in_memory().unwrap());
    let (closed, _log) = close_db(db);
    assert!(closed.is_ok());
}
