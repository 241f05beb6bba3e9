use bmw_toolbox_lib::db::migrations::{apply_all, migrations, next_step, MigrationStep};
use bmw_toolbox_lib::db::{open_and_migrate, DbError};
use rusqlite::Connection;

#[test]
fn applies_migrations_once_and_is_idempotent() {
    let conn = Connection::open_in_memory().unwrap();

    apply_all(&conn).outcome.unwrap();
    apply_all(&conn).outcome.unwrap(); // running twice must not fail or duplicate rows

    let vehicles_table_exists: bool = conn
        .query_row(
            "SELECT EXISTS(SELECT 1 FROM sqlite_master WHERE type='table' AND name='vehicles')",
            [],
            |row| row.get(0),
        )
        .unwrap();
    assert!(vehicles_table_exists);

    let applied_count: i64 = conn
        .query_row("SELECT COUNT(*) FROM schema_migrations", [], |row| row.get(0))
        .unwrap();
    assert_eq!(applied_count, 1);
}

#[test]
fn opens_in_memory_db_and_applies_migrations() {
    let conn = open_and_migrate(":memory:").result.unwrap();
    let vehicles_table_exists: bool = conn
        .query_row(
            "SELECT EXISTS(SELECT 1 FROM sqlite_master WHERE type='table' AND name='vehicles')",
            [],
            |row| row.get(0),
        )
        .unwrap();
    assert!(vehicles_table_exists);
}

#[test]
fn migration_list_is_the_init_migration() {
    let all = migrations();
    assert_eq!(all.len(), 1);
    assert_eq!(all[0].name, "001_init");
}

#[test]
fn vehicles_table_enforces_unique_vin() {
    let conn = open_and_migrate(":memory:").result.unwrap();
    conn.execute("INSERT INTO vehicles (vin, platform) VALUES ('WBA1', 'F-Series')", []).unwrap();
    assert!(conn.execute("INSERT INTO vehicles (vin, platform) VALUES ('WBA1', 'E-Series')", []).is_err());
}

#[test]
fn failing_migration_is_reported_as_migration_error() {
    let conn = Connection::open_in_memory().unwrap();
    // A table named like the one the first migration creates, but not
    // recorded in the ledger, makes that migration fail.
    conn.execute_batch("CREATE TABLE vehicles (x INTEGER);").unwrap();
    assert!(apply_all(&conn).outcome.is_err());
}

#[test]
fn db_error_messages() {
    assert_eq!(DbError::Connection("locked".to_string()).message(), "database connection failed: locked");
    assert_eq!(DbError::Migration("bad sql".to_string()).message(), "migration failed: bad sql");
}

#[test]
fn unopenable_path_is_a_connection_error() {
    let run = open_and_migrate("/nonexistent-directory-for-tests/sub/db.sqlite");
    assert!(matches!(run.result, Err(DbError::Connection(_))));
    assert!(run.issued.is_empty());
}

#[test]
fn ledger_answer_decides_the_step() {
    assert_eq!(next_step(true), MigrationStep::Skip);
    assert_eq!(next_step(false), MigrationStep::Apply);
}

#[test]
fn receipts_list_each_statement_of_a_run() {
    let conn = Connection::open_in_memory().unwrap();
    // First run: the ledger, the query, the migration and its recording.
    let first = apply_all(&conn);
    assert!(first.outcome.is_ok());
    assert_eq!(first.issued.len(), 4);
    // Second run: the ledger and the query only; the migration is listed.
    let second = apply_all(&conn);
    assert!(second.outcome.is_ok());
    assert_eq!(second.issued.len(), 2);
}

#[test]
fn failing_migration_stops_before_recording() {
    let conn = Connection::open_in_memory().unwrap();
    conn.execute_batch("CREATE TABLE vehicles (x INTEGER);").unwrap();
    let run = apply_all(&conn);
    assert!(run.outcome.is_err());
    // The ledger, the query and the failing migration; no recording.
    assert_eq!(run.issued.len(), 3);
    let recorded: i64 = conn
        .query_row("SELECT COUNT(*) FROM schema_migrations", [], |row| row.get(0))
        .unwrap();
    assert_eq!(recorded, 0);
}

#[test]
fn opened_database_comes_with_a_completed_run() {
    let run = open_and_migrate(":memory:");
    assert!(run.result.is_ok());
    assert_eq!(run.issued.len(), 4);
}
