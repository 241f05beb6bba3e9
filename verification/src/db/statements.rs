//! Statements handed to SQLite, and the receipts that record them. A
//! receipt is made only by the functions of this module, each of which
//! hands one statement to SQLite; its contents say which statement went to
//! which connection, and what SQLite made of it.

use rusqlite::Connection;
use vstd::prelude::*;

verus! {

/// What SQLite made of a statement.
pub enum Outcome {
    /// It failed with an error.
    Failed,
    /// It was carried out.
    Done,
    /// It was a query for a flag, and SQLite answered the flag.
    Answered(bool),
}

/// One statement handed to SQLite: the connection, the SQL, its parameter
/// if it has one, and the outcome.
pub struct Statement {
    pub conn: Connection,
    pub sql: Seq<char>,
    pub param: Option<Seq<char>>,
    pub outcome: Outcome,
}

/// The receipt of one statement handed to SQLite.
pub struct Issued {
    statement: Ghost<Statement>,
}

impl View for Issued {
    type V = Statement;

    closed spec fn view(&self) -> Statement {
        self.statement@
    }
}

/// A database opened on a connection: the connection, and the path it was
/// opened at.
pub struct Opening {
    pub conn: Connection,
    pub path: Seq<char>,
}

/// The receipt of a database opened at a path.
pub struct Opened {
    opening: Ghost<Opening>,
}

impl View for Opened {
    type V = Opening;

    closed spec fn view(&self) -> Opening {
        self.opening@
    }
}

/// `rusqlite::Connection::open`: opens (creating if needed) the database
/// at `path`. Whether it succeeds depends on the file system; on success
/// the receipt records the connection and the path it was opened at.
#[verifier::external_body]
pub fn open_connection(path: &str) -> (r: Result<(Connection, Opened), rusqlite::Error>)
    ensures
        r matches Ok((conn, opened)) ==> opened@ == (Opening { conn, path: path@ }),
{
    match Connection::open(path) {
        Ok(conn) => {
            let opened = Opened { opening: Ghost(Opening { conn: conn, path: path@ }) };
            Ok((conn, opened))
        },
        Err(e) => Err(e),
    }
}

/// The outcome of a statement that either fails or is carried out.
pub open spec fn done_or_failed<T, E>(r: Result<T, E>) -> Outcome {
    if r is Ok {
        Outcome::Done
    } else {
        Outcome::Failed
    }
}

/// `rusqlite::Connection::execute_batch`: runs the statements in `sql`. The
/// outcome depends on the database's contents; the receipt records the
/// call and whether it succeeded.
#[verifier::external_body]
pub fn execute_batch(conn: &Connection, sql: &str) -> (r: (Result<(), rusqlite::Error>, Issued))
    ensures
        r.1@ == (Statement { conn: *conn, sql: sql@, param: None, outcome: done_or_failed(r.0) }),
{
    let result = conn.execute_batch(sql);
    let issued = Issued {
        statement: Ghost(Statement { conn: *conn, sql: sql@, param: None, outcome: done_or_failed(result) }),
    };
    (result, issued)
}

/// `rusqlite::Connection::query_row` of a one-parameter query whose single
/// row holds a boolean, picked from column 0. The answer depends on the
/// database's contents; the receipt records the call and the answer.
#[verifier::external_body]
pub fn query_flag(conn: &Connection, sql: &str, param: &str) -> (r: (Result<bool, rusqlite::Error>, Issued))
    ensures
        r.1@ == (Statement {
            conn: *conn,
            sql: sql@,
            param: Some(param@),
            outcome: match r.0 {
                Ok(flag) => Outcome::Answered(flag),
                Err(_) => Outcome::Failed,
            },
        }),
{
    let result = conn.query_row(sql, [param], |row| row.get(0));
    let issued = Issued {
        statement: Ghost(Statement {
            conn: *conn,
            sql: sql@,
            param: Some(param@),
            outcome: match result { Ok(flag) => Outcome::Answered(flag), Err(_) => Outcome::Failed },
        }),
    };
    (result, issued)
}

/// `rusqlite::Connection::execute` of a one-parameter statement, which
/// returns the number of changed rows. The outcome depends on the
/// database's contents; the receipt records the call and whether it
/// succeeded.
#[verifier::external_body]
pub fn execute_with(conn: &Connection, sql: &str, param: &str) -> (r: (Result<usize, rusqlite::Error>, Issued))
    ensures
        r.1@ == (Statement { conn: *conn, sql: sql@, param: Some(param@), outcome: done_or_failed(r.0) }),
{
    let result = conn.execute(sql, [param]);
    let issued = Issued {
        statement: Ghost(Statement { conn: *conn, sql: sql@, param: Some(param@), outcome: done_or_failed(result) }),
    };
    (result, issued)
}

} // verus!
