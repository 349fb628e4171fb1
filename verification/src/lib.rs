//! A key-value store kept in one SQLite file. Keys live in numbered domains.
//! The writer refuses a domain whose id or name is taken and a key already
//! stored in its domain, and commits a write only once its checks passed.
//! The file is tagged with an application id and a format version, and holds
//! the identity it was created with.
//!
//! Every SQL call the store makes is recorded with SQLite's answer (`db`),
//! and each operation's contract says which calls, with which statements and
//! parameters, it made, and what it returns for the answers recorded.
//! `model` says what the statements do to a file's contents and proves, for
//! an operation that met its contract on a file that SQLite's answers
//! reflect, what the file holds afterwards: domain names stay unique, a
//! stored value is never replaced, a refused write changes nothing, and what
//! was written reads back.
use vstd::prelude::*;

pub mod db;
pub mod error;
pub mod init;
pub mod writer;
pub mod reader;
pub mod register;
pub mod actor;
pub mod model;

verus! {

/// The SQLite application id that marks a database of this store ("BeKV").
pub const MAGIC: i32 = 0x42654b56;
/// The store's format version, kept as SQLite's user version.
pub const VERSION: u32 = 1;

/// Counts the tables of a database.
pub const COUNT_TABLES: &'static str = "SELECT count(*) FROM sqlite_master WHERE type='table';";

/// Tags a database with the store's application id.
pub const SET_MAGIC_STMT: &'static str = "PRAGMA application_id=0x42654b56;";
/// Tags a database with the store's format version.
pub const SET_VERSION_STMT: &'static str = "PRAGMA user_version=1;";

/// Creates the metadata table.
pub const METADATA_SCHEMA: &'static str = "CREATE TABLE IF NOT EXISTS metadata (
    id INTEGER NOT NULL PRIMARY KEY,
    ident BLOB NOT NULL,
    check (id = 0)
) WITHOUT ROWID;";

/// Creates the domains table.
pub const DOMAINS_SCHEMA: &'static str = "CREATE TABLE IF NOT EXISTS domains (
    domain_id INTEGER NOT NULL PRIMARY KEY,
    domain BLOB NOT NULL
) WITHOUT ROWID;";

/// Creates the storage table.
pub const STORAGE_SCHEMA: &'static str = "CREATE TABLE IF NOT EXISTS storage (
    domain_id INTEGER NOT NULL,
    key BLOB NOT NULL,
    value BLOB NOT NULL,
    PRIMARY KEY (domain_id, key)
    FOREIGN KEY (domain_id) REFERENCES domains(domain_id)
        ON DELETE RESTRICT
        ON UPDATE RESTRICT
) WITHOUT ROWID;";

/// The metadata record a store keeps: the identity it was created with.
pub struct Metadata {
    pub ident: Box<[u8]>,
}

} // verus!
