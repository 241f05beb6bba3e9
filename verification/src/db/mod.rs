//! SQLite connection and migration runner. Each module owns its own tables;
//! nothing here queries across module boundaries.

pub mod migrations;
pub mod statements;

use migrations::{completed_run, failed_run, statements};
use rusqlite::Connection;
use statements::{open_connection, Issued, Opened, Opening};
use vstd::prelude::*;

verus! {

#[verifier::external_type_specification]
#[verifier::external_body]
pub struct ExConnection(rusqlite::Connection);

#[verifier::external_type_specification]
#[verifier::external_body]
pub struct ExSqliteError(rusqlite::Error);

#[derive(Debug)]
pub enum DbError {
    Connection(String),
    Migration(String),
}

/// The human-readable text of a database error.
pub open spec fn db_error_text(e: &DbError) -> Seq<char> {
    match e {
        DbError::Connection(reason) => "database connection failed: "@ + reason@,
        DbError::Migration(reason) => "migration failed: "@ + reason@,
    }
}

impl DbError {
    /// The human-readable text of this error.
    pub fn message(&self) -> (r: String)
        ensures
            r@ == db_error_text(self),
    {
        match self {
            DbError::Connection(reason) => {
                let mut s = String::from_str("database connection failed: ");
                s.append(reason.as_str());
                s
            },
            DbError::Migration(reason) => {
                let mut s = String::from_str("migration failed: ");
                s.append(reason.as_str());
                s
            },
        }
    }
}

/// The `Display` text of a `rusqlite::Error`. It is made from the error
/// value, whose contents Verus does not see, so nothing is stated of it.
#[verifier::external_body]
pub(crate) fn sqlite_error_text(e: &rusqlite::Error) -> String {
    e.to_string()
}

/// What opening and migrating the database came to, with the receipts of
/// the statements the migration run handed to SQLite.
pub struct OpenRun {
    pub result: Result<Connection, DbError>,
    pub issued: Vec<Issued>,
    /// The receipt of the database opened at the path, when it opened.
    pub opened: Option<Opened>,
}

/// Opens the app database at `path` (`:memory:` for an in-memory one) and
/// applies any pending migrations. A failure to open is reported as
/// `DbError::Connection`, and then no statement was handed to SQLite; a
/// failing migration run as `DbError::Migration`, each with SQLite's text.
/// The connection is returned only after a completed migration run on it,
/// and it is the connection opened on the database at `path`: every
/// statement of the run went to that database.
pub fn open_and_migrate(path: &str) -> (r: OpenRun)
    ensures
        r.result matches Err(DbError::Connection(_)) <==> r.opened is None,
        r.opened matches Some(o) ==> o@.path == path@,
        r.result matches Ok(conn) ==> r.opened matches Some(o) && o@.conn == conn,
        r.opened matches Some(o) ==> forall|p: int|
            0 <= p < r.issued@.len() ==> #[trigger] statements(r.issued@)[p].conn == o@.conn,
        r.result matches Err(DbError::Migration(_)) ==> r.opened matches Some(o) && failed_run(
            o@.conn,
            statements(r.issued@),
        ),
        r.result matches Err(DbError::Connection(_)) <==> r.issued@.len() == 0,
        r.result matches Ok(conn) ==> completed_run(conn, statements(r.issued@)),
        r.result matches Err(DbError::Migration(_)) ==> failed_run(
            statements(r.issued@)[0].conn,
            statements(r.issued@),
        ),
{
    let (conn, opened) = match open_connection(path) {
        Ok(c) => c,
        Err(e) => {
            return OpenRun {
                result: Err(DbError::Connection(sqlite_error_text(&e))),
                issued: Vec::new(),
                opened: None,
            };
        },
    };
    let run = migrations::apply_all(&conn);
    proof {
        migrations::lemma_run_starts_on_its_connection(conn, statements(run.issued@));
        migrations::lemma_run_stays_on_its_connection(conn, statements(run.issued@));
    }
    match run.outcome {
        Ok(()) => OpenRun { result: Ok(conn), issued: run.issued, opened: Some(opened) },
        Err(e) => OpenRun {
            result: Err(DbError::Migration(sqlite_error_text(&e))),
            issued: run.issued,
            opened: Some(opened),
        },
    }
}

} // verus!
