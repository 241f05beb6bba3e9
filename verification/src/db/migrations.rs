//! Numbered, sequential SQLite migrations. An applied migration is never
//! edited; a change is a new migration. Each applied migration is recorded
//! by name in the `schema_migrations` ledger, so running the migrations
//! again applies only those not yet recorded.

use crate::db::statements::{done_or_failed, execute_batch, execute_with, query_flag, Issued, Outcome, Statement};
use rusqlite::Connection;
use vstd::prelude::*;

verus! {

/// One migration: its unique name and the SQL it runs.
#[derive(Debug, Clone, Copy)]
pub struct Migration {
    pub name: &'static str,
    pub sql: &'static str,
}

/// The ledger of applied migrations.
pub const LEDGER_SQL: &'static str = "CREATE TABLE IF NOT EXISTS schema_migrations (
            name TEXT PRIMARY KEY,
            applied_at TEXT NOT NULL DEFAULT (datetime('now'))
        );";

/// Whether the ledger lists a migration (parameter `?1`: its name).
pub const IS_APPLIED_SQL: &'static str = "SELECT EXISTS(SELECT 1 FROM schema_migrations WHERE name = ?1)";

/// Records a migration in the ledger (parameter `?1`: its name).
pub const RECORD_SQL: &'static str = "INSERT INTO schema_migrations (name) VALUES (?1)";

/// `001_init`: the vehicles table, owned by the Vehicle Info module.
pub const INIT_SQL: &'static str = "CREATE TABLE vehicles (
    id INTEGER PRIMARY KEY AUTOINCREMENT,
    vin TEXT UNIQUE NOT NULL,
    platform TEXT NOT NULL,
    created_at TEXT NOT NULL DEFAULT (datetime('now'))
);";

/// The names of the migrations, in the order they are applied.
pub open spec fn migration_names() -> Seq<Seq<char>> {
    seq!["001_init"@]
}

/// The SQL of the migrations, in the order they are applied.
pub open spec fn migration_sqls() -> Seq<Seq<char>> {
    seq![INIT_SQL@]
}

/// The migrations, in the order they are applied.
pub fn migrations() -> (m: Vec<Migration>)
    ensures
        m@.len() == migration_names().len(),
        forall|i: int| 0 <= i < m@.len() ==> #[trigger] m@[i].name@ == migration_names()[i],
        forall|i: int| 0 <= i < m@.len() ==> #[trigger] m@[i].sql@ == migration_sqls()[i],
{
    let m = vec![Migration { name: "001_init", sql: INIT_SQL }];
    m
}

/// What to do with a migration, given whether the ledger lists it.
#[derive(Debug, Clone, Copy, PartialEq, Eq, Structural)]
pub enum MigrationStep {
    /// Already applied: leave it.
    Skip,
    /// Not applied yet: run its SQL, then record its name.
    Apply,
}

/// A migration the ledger lists is skipped; any other is applied.
pub fn next_step(already_applied: bool) -> (s: MigrationStep)
    ensures
        s == (if already_applied { MigrationStep::Skip } else { MigrationStep::Apply }),
{
    if already_applied {
        MigrationStep::Skip
    } else {
        MigrationStep::Apply
    }
}

/// The ledger statement, as carried out on `conn`.
pub open spec fn ledger_statement(conn: Connection) -> Statement {
    Statement { conn, sql: LEDGER_SQL@, param: None, outcome: Outcome::Done }
}

/// The ledger query for migration `i`, answered `listed`.
pub open spec fn query_statement(conn: Connection, i: int, listed: bool) -> Statement {
    Statement {
        conn,
        sql: IS_APPLIED_SQL@,
        param: Some(migration_names()[i]),
        outcome: Outcome::Answered(listed),
    }
}

/// Migration `i`'s SQL, carried out.
pub open spec fn apply_statement(conn: Connection, i: int) -> Statement {
    Statement { conn, sql: migration_sqls()[i], param: None, outcome: Outcome::Done }
}

/// The recording of migration `i`'s name, carried out.
pub open spec fn record_statement(conn: Connection, i: int) -> Statement {
    Statement { conn, sql: RECORD_SQL@, param: Some(migration_names()[i]), outcome: Outcome::Done }
}

/// The statements for migration `i` when the ledger answers `listed`: the
/// query alone for a listed migration; else the query, the migration's SQL
/// and the recording of its name.
pub open spec fn migration_block(conn: Connection, i: int, listed: bool) -> Seq<Statement> {
    if listed {
        seq![query_statement(conn, i, true)]
    } else {
        seq![query_statement(conn, i, false), apply_statement(conn, i), record_statement(conn, i)]
    }
}

/// The statements for the first `answers.len()` migrations, in order, when
/// the ledger answers `answers[i]` for migration `i`.
pub open spec fn migration_blocks(conn: Connection, answers: Seq<bool>) -> Seq<Statement>
    decreases answers.len(),
{
    if answers.len() == 0 {
        Seq::empty()
    } else {
        migration_blocks(conn, answers.drop_last()) + migration_block(
            conn,
            answers.len() - 1,
            answers.last(),
        )
    }
}

/// The statements of a run on `conn` that gets through the first
/// `answers.len()` migrations: the ledger, then each migration's block.
pub open spec fn transcript(conn: Connection, answers: Seq<bool>) -> Seq<Statement> {
    seq![ledger_statement(conn)] + migration_blocks(conn, answers)
}

/// The views of a list of receipts.
pub open spec fn statements(issued: Seq<Issued>) -> Seq<Statement> {
    issued.map_values(|x: Issued| x@)
}

/// A run on `conn` that succeeded: every migration was asked of the
/// ledger, in order, and exactly those the ledger did not list were run
/// and then recorded, every statement carried out.
pub open spec fn completed_run(conn: Connection, log: Seq<Statement>) -> bool {
    exists|answers: Seq<bool>|
        answers.len() == migration_names().len() && log == #[trigger] transcript(conn, answers)
}

/// A run on `conn` that failed: it followed the transcript for some
/// answers of the ledger, every statement carried out, up to its last
/// statement, which is the next one of the transcript and failed. So the
/// migration being applied when the error came is not recorded, and the
/// earlier ones stay applied.
pub open spec fn failed_run(conn: Connection, log: Seq<Statement>) -> bool {
    exists|answers: Seq<bool>|
        #![trigger transcript(conn, answers)]
        {
            &&& answers.len() <= migration_names().len()
            &&& 1 <= log.len() <= transcript(conn, answers).len()
            &&& log.drop_last() == transcript(conn, answers).take(log.len() - 1)
            &&& log.last().conn == conn
            &&& log.last().sql == transcript(conn, answers)[log.len() - 1].sql
            &&& log.last().param == transcript(conn, answers)[log.len() - 1].param
            &&& log.last().outcome is Failed
        }
}

/// The receipts of a migration run, and how it ended.
pub struct MigrationRun {
    pub issued: Vec<Issued>,
    pub outcome: Result<(), rusqlite::Error>,
}

proof fn lemma_blocks_push(conn: Connection, answers: Seq<bool>, listed: bool)
    ensures
        migration_blocks(conn, answers.push(listed)) == migration_blocks(conn, answers)
            + migration_block(conn, answers.len() as int, listed),
{
    assert(answers.push(listed).drop_last() =~= answers);
}

proof fn lemma_transcript_push(conn: Connection, answers: Seq<bool>, listed: bool)
    ensures
        transcript(conn, answers.push(listed)) == transcript(conn, answers)
            + migration_block(conn, answers.len() as int, listed),
{
    lemma_blocks_push(conn, answers, listed);
    assert(transcript(conn, answers.push(listed)) =~= transcript(conn, answers) + migration_block(
        conn,
        answers.len() as int,
        listed,
    ));
}

/// A migration is recorded only right after its SQL was carried out, and
/// that only right after the ledger said it was not listed: in the
/// statements of a run, a recording of migration `i`'s name is preceded by
/// migration `i`'s SQL and, before that, by the ledger query for `i`
/// answered "not listed". So a migration whose SQL fails is not recorded.
pub proof fn lemma_recorded_only_after_applied(conn: Connection, answers: Seq<bool>, p: int, i: int)
    requires
        answers.len() <= migration_names().len(),
        0 <= i < migration_names().len(),
        0 <= p < transcript(conn, answers).len(),
        transcript(conn, answers)[p] == record_statement(conn, i),
    ensures
        2 <= p,
        transcript(conn, answers)[p - 1] == apply_statement(conn, i),
        transcript(conn, answers)[p - 2] == query_statement(conn, i, false),
    decreases answers.len(),
{
    let t = transcript(conn, answers);
    if answers.len() == 0 {
        assert(migration_blocks(conn, answers) =~= Seq::<Statement>::empty());
        assert(t[p] == ledger_statement(conn));
    } else {
        let prev = answers.drop_last();
        let k = prev.len() as int;
        let listed = answers.last();
        assert(prev.push(listed) =~= answers);
        lemma_transcript_push(conn, prev, listed);
        let tp = transcript(conn, prev);
        if p < tp.len() {
            assert(t[p] == tp[p]);
            lemma_recorded_only_after_applied(conn, prev, p, i);
            assert(t[p - 1] == tp[p - 1]);
            assert(t[p - 2] == tp[p - 2]);
        } else {
            let q = p - tp.len();
            let block = migration_block(conn, k, listed);
            assert(t[p] == block[q]);
            if !listed && q == 2 {
                assert(migration_names()[k] == migration_names()[i]);
                assert(k == i);
                assert(t[p - 1] == block[1]);
                assert(t[p - 2] == block[0]);
            }
        }
    }
}

/// In the statements of a completed or a failed run, every recording of a
/// migration's name that was carried out comes right after that
/// migration's SQL was carried out, which comes right after the ledger
/// said the migration was not listed.
pub proof fn lemma_run_records_only_applied(conn: Connection, log: Seq<Statement>, p: int, i: int)
    requires
        completed_run(conn, log) || failed_run(conn, log),
        0 <= i < migration_names().len(),
        0 <= p < log.len(),
        log[p] == record_statement(conn, i),
    ensures
        2 <= p,
        log[p - 1] == apply_statement(conn, i),
        log[p - 2] == query_statement(conn, i, false),
{
    if completed_run(conn, log) {
        let answers = choose|answers: Seq<bool>|
            answers.len() == migration_names().len() && log == #[trigger] transcript(conn, answers);
        lemma_recorded_only_after_applied(conn, answers, p, i);
    } else {
        let answers = choose|answers: Seq<bool>|
            #![trigger transcript(conn, answers)]
            {
                &&& answers.len() <= migration_names().len()
                &&& 1 <= log.len() <= transcript(conn, answers).len()
                &&& log.drop_last() == transcript(conn, answers).take(log.len() - 1)
                &&& log.last().conn == conn
                &&& log.last().sql == transcript(conn, answers)[log.len() - 1].sql
                &&& log.last().param == transcript(conn, answers)[log.len() - 1].param
                &&& log.last().outcome is Failed
            };
        let t = transcript(conn, answers);
        assert(p < log.len() - 1);
        assert(log[p] == log.drop_last()[p]);
        assert(t[p] == log[p]);
        lemma_recorded_only_after_applied(conn, answers, p, i);
        assert(log[p - 1] == log.drop_last()[p - 1]);
        assert(log[p - 2] == log.drop_last()[p - 2]);
    }
}

/// When the ledger lists every migration, a run hands SQLite the ledger
/// statement and one query per migration, and nothing else: it runs and
/// records no migration.
pub proof fn lemma_listed_migrations_are_skipped(conn: Connection, answers: Seq<bool>)
    requires
        forall|i: int| 0 <= i < answers.len() ==> #[trigger] answers[i],
    ensures
        transcript(conn, answers).len() == answers.len() + 1,
        transcript(conn, answers)[0] == ledger_statement(conn),
        forall|p: int|
            1 <= p < transcript(conn, answers).len() ==> #[trigger] transcript(conn, answers)[p]
                == query_statement(conn, p - 1, true),
    decreases answers.len(),
{
    if answers.len() == 0 {
        assert(migration_blocks(conn, answers) =~= Seq::<Statement>::empty());
    } else {
        let prev = answers.drop_last();
        assert(prev.push(answers.last()) =~= answers);
        assert(answers.last() == answers[answers.len() - 1]);
        lemma_listed_migrations_are_skipped(conn, prev);
        lemma_transcript_push(conn, prev, true);
        let t = transcript(conn, answers);
        let tp = transcript(conn, prev);
        assert forall|p: int| 1 <= p < t.len() implies #[trigger] t[p] == query_statement(conn, p - 1, true) by {
            if p < tp.len() {
                assert(t[p] == tp[p]);
            }
        }
    }
}

/// Every run starts with the ledger statement on its connection.
pub proof fn lemma_run_starts_on_its_connection(conn: Connection, log: Seq<Statement>)
    requires
        completed_run(conn, log) || failed_run(conn, log),
    ensures
        log.len() >= 1,
        log[0].conn == conn,
{
    if completed_run(conn, log) {
        let answers = choose|answers: Seq<bool>|
            answers.len() == migration_names().len() && log == #[trigger] transcript(conn, answers);
        assert(log[0] == ledger_statement(conn));
    } else {
        let answers = choose|answers: Seq<bool>|
            #![trigger transcript(conn, answers)]
            {
                &&& answers.len() <= migration_names().len()
                &&& 1 <= log.len() <= transcript(conn, answers).len()
                &&& log.drop_last() == transcript(conn, answers).take(log.len() - 1)
                &&& log.last().conn == conn
                &&& log.last().sql == transcript(conn, answers)[log.len() - 1].sql
                &&& log.last().param == transcript(conn, answers)[log.len() - 1].param
                &&& log.last().outcome is Failed
            };
        if log.len() > 1 {
            assert(log[0] == log.drop_last()[0]);
            assert(transcript(conn, answers)[0] == ledger_statement(conn));
        }
    }
}

/// Every statement of a transcript goes to its connection.
proof fn lemma_transcript_on_its_connection(conn: Connection, answers: Seq<bool>)
    ensures
        forall|p: int| 0 <= p < transcript(conn, answers).len() ==> #[trigger] transcript(conn, answers)[p].conn == conn,
    decreases answers.len(),
{
    if answers.len() == 0 {
        assert(migration_blocks(conn, answers) =~= Seq::<Statement>::empty());
    } else {
        let prev = answers.drop_last();
        assert(prev.push(answers.last()) =~= answers);
        lemma_transcript_on_its_connection(conn, prev);
        lemma_transcript_push(conn, prev, answers.last());
        let t = transcript(conn, answers);
        let tp = transcript(conn, prev);
        assert forall|p: int| 0 <= p < t.len() implies #[trigger] t[p].conn == conn by {
            if p < tp.len() {
                assert(t[p] == tp[p]);
            }
        }
    }
}

/// A run stays on one database: every statement of a completed or a failed
/// run on `conn` went to `conn`.
pub proof fn lemma_run_stays_on_its_connection(conn: Connection, log: Seq<Statement>)
    requires
        completed_run(conn, log) || failed_run(conn, log),
    ensures
        forall|p: int| 0 <= p < log.len() ==> #[trigger] log[p].conn == conn,
{
    if completed_run(conn, log) {
        let answers = choose|answers: Seq<bool>|
            answers.len() == migration_names().len() && log == #[trigger] transcript(conn, answers);
        lemma_transcript_on_its_connection(conn, answers);
    } else {
        let answers = choose|answers: Seq<bool>|
            #![trigger transcript(conn, answers)]
            {
                &&& answers.len() <= migration_names().len()
                &&& 1 <= log.len() <= transcript(conn, answers).len()
                &&& log.drop_last() == transcript(conn, answers).take(log.len() - 1)
                &&& log.last().conn == conn
                &&& log.last().sql == transcript(conn, answers)[log.len() - 1].sql
                &&& log.last().param == transcript(conn, answers)[log.len() - 1].param
                &&& log.last().outcome is Failed
            };
        lemma_transcript_on_its_connection(conn, answers);
        assert forall|p: int| 0 <= p < log.len() implies #[trigger] log[p].conn == conn by {
            if p < log.len() - 1 {
                assert(log[p] == log.drop_last()[p]);
                assert(transcript(conn, answers)[p] == log.drop_last()[p]);
            }
        }
    }
}

/// Adds a receipt to the list.
fn keep(issued: &mut Vec<Issued>, receipt: Issued)
    ensures
        statements(final(issued)@) == statements(old(issued)@).push(receipt@),
{
    issued.push(receipt);
    assert(statements(issued@) =~= statements(old(issued)@).push(receipt@));
}

/// Creates the ledger if missing (`LEDGER_SQL`), then walks the
/// migrations in order: each one is looked up in the ledger, and each one
/// the ledger does not list has its SQL run and is then recorded. Stops at
/// the first SQLite error, which it returns. The receipts list every
/// statement handed to SQLite, in order.
pub fn apply_all(conn: &Connection) -> (run: MigrationRun)
    ensures
        run.outcome is Ok ==> completed_run(*conn, statements(run.issued@)),
        run.outcome is Err ==> failed_run(*conn, statements(run.issued@)),
{
    let mut issued: Vec<Issued> = Vec::new();
    let (created, receipt) = execute_batch(conn, LEDGER_SQL);
    keep(&mut issued, receipt);
    if let Err(e) = created {
        proof {
            let answers = Seq::<bool>::empty();
            assert(migration_blocks(*conn, answers) =~= Seq::<Statement>::empty());
            assert(statements(issued@).drop_last() =~= transcript(*conn, answers).take(0));
        }
        return MigrationRun { issued, outcome: Err(e) };
    }
    let all = migrations();
    let ghost mut answers: Seq<bool> = Seq::empty();
    proof {
        assert(migration_blocks(*conn, answers) =~= Seq::<Statement>::empty());
        assert(statements(issued@) =~= transcript(*conn, answers));
    }
    let mut i: usize = 0;
    while i < all.len()
        invariant
            i <= all@.len(),
            all@.len() == migration_names().len(),
            forall|j: int| 0 <= j < all@.len() ==> #[trigger] all@[j].name@ == migration_names()[j],
            forall|j: int| 0 <= j < all@.len() ==> #[trigger] all@[j].sql@ == migration_sqls()[j],
            answers.len() == i,
            statements(issued@) == transcript(*conn, answers),
        decreases all@.len() - i,
    {
        let m = all[i];
        assert(m.name@ == migration_names()[i as int]);
        assert(m.sql@ == migration_sqls()[i as int]);
        let ghost before = statements(issued@);
        let (asked, receipt) = query_flag(conn, IS_APPLIED_SQL, m.name);
        keep(&mut issued, receipt);
        let already_applied = match asked {
            Ok(flag) => flag,
            Err(e) => {
                proof {
                    let failed_answers = answers.push(false);
                    lemma_transcript_push(*conn, answers, false);
                    assert(statements(issued@).drop_last() =~= before);
                    assert(before =~= transcript(*conn, failed_answers).take(before.len() as int));
                }
                return MigrationRun { issued, outcome: Err(e) };
            },
        };
        proof {
            lemma_transcript_push(*conn, answers, already_applied);
        }
        match next_step(already_applied) {
            MigrationStep::Skip => {
                proof {
                    assert(statements(issued@) =~= transcript(*conn, answers.push(true)));
                }
            },
            MigrationStep::Apply => {
                let (ran, receipt) = execute_batch(conn, m.sql);
                keep(&mut issued, receipt);
                if let Err(e) = ran {
                    proof {
                        let t = transcript(*conn, answers.push(false));
                        assert(statements(issued@).drop_last() =~= t.take(before.len() as int + 1));
                    }
                    return MigrationRun { issued, outcome: Err(e) };
                }
                let (recorded, receipt) = execute_with(conn, RECORD_SQL, m.name);
                keep(&mut issued, receipt);
                if let Err(e) = recorded {
                    proof {
                        let t = transcript(*conn, answers.push(false));
                        assert(statements(issued@).drop_last() =~= t.take(before.len() as int + 2));
                    }
                    return MigrationRun { issued, outcome: Err(e) };
                }
                proof {
                    assert(statements(issued@) =~= transcript(*conn, answers.push(false)));
                }
            },
        }
        proof {
            answers = answers.push(already_applied);
        }
        i = i + 1;
    }
    MigrationRun { issued, outcome: Ok(()) }
}

} // verus!
