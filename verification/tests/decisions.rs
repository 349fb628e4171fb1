use kv_storage::error::{make_rusqlite_result, Error, SQLITE_OK};
use kv_storage::init::{
    bytes_eq, check_version_decision, checksum_check, database_is_new, ident_check,
    no_rows_changed, one_row_inserted, version_decision, VersionAction,
};
use kv_storage::writer::{close_outcome, must_be_absent, must_be_present};
use kv_storage::{MAGIC, VERSION};

fn boxed(b: &[u8]) -> Box<[u8]> {
    b.to_vec().into_boxed_slice()
}

#[test]
fn make_rusqlite_result_ok_code() {
    assert!(make_rusqlite_result(SQLITE_OK, "unused").is_ok());
}

#[test]
fn make_rusqlite_result_failure_carries_code_and_message() {
    match make_rusqlite_result(5, "error calling sqlite3_register_cksumvfs") {
        Err(rusqlite::Error::SqliteFailure(e, Some(msg))) => {
            assert_eq!(e.extended_code, 5);
            assert_eq!(e.code, rusqlite::ErrorCode::DatabaseBusy);
            assert_eq!(msg, "error calling sqlite3_register_cksumvfs");
        }
        other => panic!("unexpected {:?}", other),
    }
}

#[test]
fn no_rows_changed_accepts_zero() {
    assert!(no_rows_changed(Ok(0), "run vacuum").is_ok());
}

#[test]
fn no_rows_changed_refuses_changed_rows() {
    assert!(matches!(
        no_rows_changed(Ok(2), "set magic"),
        Err(Error::InvariantUpdatedRowNot0("set magic"))
    ));
}

#[test]
fn no_rows_changed_tags_sqlite_error() {
    assert!(matches!(
        no_rows_changed(Err(rusqlite::Error::QueryReturnedNoRows), "init storage schema"),
        Err(Error::Rusqlite(rusqlite::Error::QueryReturnedNoRows, "init storage schema"))
    ));
}

#[test]
fn one_row_inserted_cases() {
    assert!(one_row_inserted(Ok(1), "write kv: write", "write kv updated_rows not 1").is_ok());
    assert!(matches!(
        one_row_inserted(Ok(0), "write kv: write", "write kv updated_rows not 1"),
        Err(Error::Invariant("write kv updated_rows not 1"))
    ));
    assert!(matches!(
        one_row_inserted(Ok(2), "write domain: write", "write domain updated_rows not 1"),
        Err(Error::Invariant("write domain updated_rows not 1"))
    ));
    assert!(matches!(
        one_row_inserted(Err(rusqlite::Error::InvalidQuery), "write metadata", "write metadata updated_rows not 1"),
        Err(Error::Rusqlite(rusqlite::Error::InvalidQuery, "write metadata"))
    ));
}

#[test]
fn checksum_check_cases() {
    assert!(checksum_check(Ok("1".to_string())).is_ok());
    assert!(matches!(
        checksum_check(Ok("0".to_string())),
        Err(Error::Invariant("checksum_verification not enabled"))
    ));
    assert!(matches!(
        checksum_check(Ok("11".to_string())),
        Err(Error::Invariant("checksum_verification not enabled"))
    ));
    assert!(matches!(
        checksum_check(Err(rusqlite::Error::QueryReturnedNoRows)),
        Err(Error::Rusqlite(rusqlite::Error::QueryReturnedNoRows, "check checksum_verification"))
    ));
}

#[test]
fn database_is_new_cases() {
    assert!(matches!(database_is_new(Ok(0)), Ok(true)));
    assert!(matches!(database_is_new(Ok(3)), Ok(false)));
    assert!(matches!(
        database_is_new(Err(rusqlite::Error::QueryReturnedNoRows)),
        Err(Error::Rusqlite(_, "check if database is new"))
    ));
}

#[test]
fn version_decision_initialises_only_new_untagged() {
    assert!(matches!(version_decision(true, 0, 0), Ok(VersionAction::Initialise)));
    assert!(matches!(version_decision(true, MAGIC, VERSION), Err(Error::NotABeKVDatabase)));
    assert!(matches!(version_decision(true, 0, 1), Err(Error::NotABeKVDatabase)));
    assert!(matches!(version_decision(false, 0, 0), Err(Error::NotABeKVDatabase)));
}

#[test]
fn version_decision_existing_files() {
    assert!(matches!(version_decision(false, MAGIC, VERSION), Ok(VersionAction::Accept)));
    assert!(matches!(
        version_decision(false, MAGIC, 7),
        Err(Error::VersionNotMatch { exp: 1, cur: 7 })
    ));
    assert!(matches!(version_decision(false, 0x1234, VERSION), Err(Error::NotABeKVDatabase)));
}

#[test]
fn check_version_decision_cases() {
    assert!(check_version_decision(false, 0x42654b56, 1).is_ok());
    assert!(matches!(
        check_version_decision(false, MAGIC, 0),
        Err(Error::VersionNotMatch { exp: 1, cur: 0 })
    ));
    assert!(matches!(check_version_decision(true, 0, 0), Err(Error::NotABeKVDatabase)));
    assert!(matches!(check_version_decision(true, MAGIC, VERSION), Err(Error::NotABeKVDatabase)));
    assert!(matches!(check_version_decision(false, 5, 1), Err(Error::NotABeKVDatabase)));
}

#[test]
fn version_checks_agree_on_existing_files() {
    for magic in [0, MAGIC, 17, -1] {
        for version in [0u32, VERSION, 2, u32::MAX] {
            let writer = version_decision(false, magic, version);
            let reader = check_version_decision(false, magic, version);
            assert_eq!(format!("{:?}", writer.map(|_| ())), format!("{:?}", reader));
        }
    }
}

#[test]
fn bytes_eq_cases() {
    assert!(bytes_eq(b"test", b"test"));
    assert!(bytes_eq(b"", b""));
    assert!(!bytes_eq(b"test", b"tes"));
    assert!(!bytes_eq(b"test", b"tesT"));
}

#[test]
fn ident_check_cases() {
    assert!(ident_check(boxed(b"test"), boxed(b"test")).is_ok());
    match ident_check(boxed(b"test"), boxed(b"other")) {
        Err(Error::IdentNotMatch { exp, cur }) => {
            assert_eq!(exp.as_ref(), b"test");
            assert_eq!(cur.as_ref(), b"other");
        }
        other => panic!("unexpected {:?}", other),
    }
}

#[test]
fn existence_checks() {
    assert!(must_be_absent(Ok(false), "write domain: check if domain exists", Error::DuplicateDomainId).is_ok());
    assert!(matches!(
        must_be_absent(Ok(true), "write domain: check if domain exists", Error::DuplicateDomainId),
        Err(Error::DuplicateDomainId)
    ));
    assert!(matches!(
        must_be_absent(Ok(true), "write domain: check if domain name exists", Error::DuplicateDomainName),
        Err(Error::DuplicateDomainName)
    ));
    assert!(matches!(
        must_be_absent(Ok(true), "write kv: check if key exists", Error::DuplicateKey),
        Err(Error::DuplicateKey)
    ));
    assert!(matches!(
        must_be_absent(Err(rusqlite::Error::InvalidQuery), "write kv: check if key exists", Error::DuplicateKey),
        Err(Error::Rusqlite(rusqlite::Error::InvalidQuery, "write kv: check if key exists"))
    ));
    assert!(must_be_present(Ok(true), "write kv: check if domain exists", Error::UnknownDomainId).is_ok());
    assert!(matches!(
        must_be_present(Ok(false), "write kv: check if domain exists", Error::UnknownDomainId),
        Err(Error::UnknownDomainId)
    ));
}

#[test]
fn close_outcome_cases() {
    assert!(close_outcome(Ok(())).is_ok());
    let conn = rusqlite::Connection::open_in_memory().unwrap();
    assert!(matches!(
        close_outcome(Err((conn, rusqlite::Error::InvalidQuery))),
        Err(Error::Rusqlite(rusqlite::Error::InvalidQuery, "close file"))
    ));
}
