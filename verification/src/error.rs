//! The store's error type, and how `rusqlite` errors become one.
use vstd::prelude::*;
use rusqlite::Error as SqliteError;
use crate::db::{sqlite_failure, sqlite_failure_error};

verus! {

/// SQLite's success result code (`SQLITE_OK`).
pub const SQLITE_OK: i32 = 0;

/// Why an operation on the store failed.
#[derive(Debug)]
#[allow(inconsistent_fields)]
pub enum Error {
    /// A SQLite call failed; the text says which step of which operation.
    Rusqlite(SqliteError, &'static str),
    /// The database broke an expectation the store relies on.
    Invariant(&'static str),
    /// A statement that must change no row changed some.
    InvariantUpdatedRowNot0(&'static str),
    /// The key is already stored in that domain.
    DuplicateKey,
    /// A domain with that id already exists.
    DuplicateDomainId,
    /// A domain with that name already exists.
    DuplicateDomainName,
    /// No domain has that id.
    UnknownDomainId,
    /// The file is not a database of this store.
    NotABeKVDatabase,
    /// The database was written by another version of the store.
    VersionNotMatch { exp: u32, cur: u32 },
    /// The database was created with another identity.
    IdentNotMatch { exp: Box<[u8]>, cur: Box<[u8]> },
    /// The writer actor has stopped.
    ActorClosed,
}

/// The result of an operation on the store.
pub type Result<T> = core::result::Result<T, Error>;

/// What `rusqlite` result `r` becomes once its error is tagged with `context`.
pub open spec fn with_context<T>(r: core::result::Result<T, SqliteError>, context: &'static str) -> core::result::Result<T, Error> {
    match r {
        Ok(v) => Ok(v),
        Err(e) => Err(Error::Rusqlite(e, context)),
    }
}

/// Tags a `rusqlite` error with the step it came from.
pub(crate) trait ErrorContext<T>: Sized {
    spec fn source(self) -> core::result::Result<T, SqliteError>;

    fn context(self, context: &'static str) -> (r: core::result::Result<T, Error>)
        ensures
            r == with_context(self.source(), context),
    ;
}

impl<T> ErrorContext<T> for core::result::Result<T, SqliteError> {
    open spec fn source(self) -> core::result::Result<T, SqliteError> {
        self
    }

    fn context(self, context: &'static str) -> (r: core::result::Result<T, Error>) {
        match self {
            Ok(v) => Ok(v),
            Err(e) => Err(Error::Rusqlite(e, context)),
        }
    }
}

/// Turns the result code of a raw SQLite call into a `rusqlite` result:
/// success for `SQLITE_OK`, else a `SqliteFailure` carrying the code and `msg`.
pub fn make_rusqlite_result(result_code: i32, msg: &str) -> (r: core::result::Result<(), SqliteError>)
    ensures
        r is Ok <==> result_code == SQLITE_OK,
        r matches Err(e) ==> e == sqlite_failure_error(result_code, msg@),
{
    if result_code == SQLITE_OK {
        Ok(())
    } else {
        Err(sqlite_failure(result_code, msg))
    }
}

} // verus!
