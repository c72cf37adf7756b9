//! Durable append-only store of completed work sessions.
//!
//! One SQLite table holds one row per completed work interval. Rows are only
//! ever appended — no update or delete path exists — and the one query counts
//! the rows that began at or after a given instant. The table's contents are
//! modelled as a sequence of `(started_at, completed_at, duration_seconds)`
//! triples, each instant in UTC seconds since the Unix epoch.

use vstd::prelude::*;
use vstd::string::StringExecFns;

use crate::models::{valid_timestamp, WorkSession, TS_MAX};

verus! {

#[verifier::external_type_specification]
#[verifier::external_body]
pub struct ExConnection(rusqlite::Connection);

#[verifier::external_type_specification]
#[verifier::external_body]
pub struct ExRusqliteError(rusqlite::Error);

/// What the session table of an open connection holds: one
/// `(started_at, completed_at, duration_seconds)` triple per row, each
/// instant in UTC seconds since the Unix epoch, in insertion order. A
/// connection whose session table does not exist yet holds the empty
/// sequence.
pub uninterp spec fn db_rows(conn: rusqlite::Connection) -> Seq<(int, int, int)>;

/// How many of the given rows began at or after the given instant.
pub open spec fn count_started_at_or_after(rows: Seq<(int, int, int)>, threshold: int) -> int {
    rows.filter(|r: (int, int, int)| r.0 >= threshold).len() as int
}

/// Relies on `rusqlite::Connection::open_in_memory`: a fresh in-memory
/// database holds no tables at all, so its session table holds no rows.
#[verifier::external_body]
fn open_memory_conn() -> (r: Result<rusqlite::Connection, rusqlite::Error>)
    ensures
        r is Ok ==> db_rows(r->Ok_0) == Seq::<(int, int, int)>::empty(),
{
    rusqlite::Connection::open_in_memory()
}

/// Relies on `rusqlite::Connection::open`: opens the database file at the
/// given path, creating the file if it is absent. What an existing file
/// already holds is unknown here, so nothing is promised of the rows.
#[verifier::external_body]
fn open_conn(path: &str) -> (r: Result<rusqlite::Connection, rusqlite::Error>) {
    rusqlite::Connection::open(path)
}

/// Relies on `rusqlite::Connection::execute` running `CREATE TABLE IF NOT
/// EXISTS` for the session table: an existing table keeps its rows, an
/// absent one comes into being empty, and a failed call creates nothing —
/// in every case the held rows are unchanged.
#[verifier::external_body]
fn exec_create_table(conn: &mut rusqlite::Connection) -> (r: Result<(), rusqlite::Error>)
    ensures
        db_rows(*final(conn)) == db_rows(*old(conn)),
{
    let r = conn.execute(
        "CREATE TABLE IF NOT EXISTS work_sessions (
            id INTEGER PRIMARY KEY AUTOINCREMENT,
            started_at TEXT NOT NULL,
            completed_at TEXT NOT NULL,
            duration_seconds INTEGER NOT NULL
        )",
        [],
    );
    match r {
        Ok(_) => Ok(()),
        Err(e) => Err(e),
    }
}

/// Relies on `rusqlite::Connection::execute` running an `INSERT` of one
/// row, with the two instants formatted by chrono's
/// `DateTime::from_timestamp` and `to_rfc3339`. Within `[0, TS_MAX)` that
/// text is fixed-width UTC RFC3339 (`YYYY-MM-DDTHH:MM:SS+00:00`), the form
/// every row of the table carries, so the stored text orders exactly as the
/// seconds do. A successful call appends exactly the given row; a failed
/// one appends nothing.
#[verifier::external_body]
fn insert_session_row(
    conn: &mut rusqlite::Connection,
    started_at: i64,
    completed_at: i64,
    duration_seconds: i64,
) -> (r: Result<(), rusqlite::Error>)
    requires
        valid_timestamp(started_at as int),
        valid_timestamp(completed_at as int),
    ensures
        r is Ok ==> db_rows(*final(conn)) == db_rows(*old(conn)).push(
            (started_at as int, completed_at as int, duration_seconds as int),
        ),
        r is Err ==> db_rows(*final(conn)) == db_rows(*old(conn)),
{
    let s = chrono::DateTime::from_timestamp(started_at, 0).unwrap().to_rfc3339();
    let c = chrono::DateTime::from_timestamp(completed_at, 0).unwrap().to_rfc3339();
    let r = conn.execute(
        "INSERT INTO work_sessions (started_at, completed_at, duration_seconds)
         VALUES (?1, ?2, ?3)",
        (s, c, duration_seconds),
    );
    match r {
        Ok(_) => Ok(()),
        Err(e) => Err(e),
    }
}

/// Relies on `rusqlite::Connection::query_row` running `SELECT COUNT(*)
/// ... WHERE started_at >= ?1`, with the threshold formatted exactly as
/// stored rows are (see `insert_session_row`), so SQLite's text comparison
/// agrees with numeric comparison of the instants: a successful call
/// returns the number of rows that began at or after the threshold.
#[verifier::external_body]
fn query_count_started_since(conn: &rusqlite::Connection, threshold: i64) -> (r: Result<
    usize,
    rusqlite::Error,
>)
    requires
        valid_timestamp(threshold as int),
    ensures
        r is Ok ==> r->Ok_0 == count_started_at_or_after(db_rows(*conn), threshold as int),
{
    let t = chrono::DateTime::from_timestamp(threshold, 0).unwrap().to_rfc3339();
    let n: Result<i64, rusqlite::Error> = conn.query_row(
        "SELECT COUNT(*) FROM work_sessions WHERE started_at >= ?1",
        [t],
        |row| row.get(0),
    );
    match n {
        Ok(c) => Ok(c as usize),
        Err(e) => Err(e),
    }
}

/// The store's error: which operation failed. The underlying storage
/// error's detail is not kept.
#[derive(Debug, Clone, Copy, PartialEq, Eq, Structural)]
pub enum DbError {
    /// The storage could not be opened.
    Open,
    /// The session table could not be created.
    Schema,
    /// A row could not be appended.
    Insert,
    /// The count query failed, or no local midnight could be determined.
    Query,
}

/// The session store: a handle on the database holding the session table.
pub struct Database {
    conn: rusqlite::Connection,
}

impl Database {
    /// The rows of this store's session table, as
    /// `(started_at, completed_at, duration_seconds)` triples in insertion
    /// order.
    pub closed spec fn rows(self) -> Seq<(int, int, int)> {
        db_rows(self.conn)
    }

    /// The store's fixed per-user location beneath the given home
    /// directory. Resolving the home directory itself is the host's job.
    pub fn get_db_path(home: &str) -> (p: String)
        ensures
            p@ == home@ + "/Library/Application Support/pocket_flow/sessions.db"@,
    {
        String::from_str(home).concat("/Library/Application Support/pocket_flow/sessions.db")
    }

    /// Open (or create) the durable store at the given file path and make
    /// sure the session table exists. The file may already hold sessions
    /// from earlier runs, so nothing is said of the rows.
    pub fn new(path: &str) -> (r: Result<Database, DbError>)
        ensures
            r is Err ==> (r->Err_0 == DbError::Open || r->Err_0 == DbError::Schema),
    {
        let conn = match open_conn(path) {
            Ok(c) => c,
            Err(_) => { return Err(DbError::Open) },
        };
        let mut db = Database { conn };
        match db.initialize() {
            Ok(_) => Ok(db),
            Err(e) => Err(e),
        }
    }

    /// A store on a fresh in-memory database: it starts with no rows.
    pub fn new_in_memory() -> (r: Result<Database, DbError>)
        ensures
            r is Ok ==> r->Ok_0.rows() == Seq::<(int, int, int)>::empty(),
            r is Err ==> (r->Err_0 == DbError::Open || r->Err_0 == DbError::Schema),
    {
        let conn = match open_memory_conn() {
            Ok(c) => c,
            Err(_) => { return Err(DbError::Open) },
        };
        let mut db = Database { conn };
        match db.initialize() {
            Ok(_) => Ok(db),
            Err(e) => Err(e),
        }
    }

    /// Idempotently create the session table; the held rows are unchanged.
    fn initialize(&mut self) -> (r: Result<(), DbError>)
        ensures
            final(self).rows() == old(self).rows(),
            r is Err ==> r->Err_0 == DbError::Schema,
    {
        match exec_create_table(&mut self.conn) {
            Ok(_) => Ok(()),
            Err(_) => Err(DbError::Schema),
        }
    }

    /// Append one completed session. On success exactly the given record's
    /// row is appended; on failure the store is unchanged — no retry, and
    /// existing rows are never touched either way.
    pub fn save_work_session(&mut self, session: &WorkSession) -> (r: Result<(), DbError>)
        requires
            valid_timestamp(session.started_at as int),
            valid_timestamp(session.completed_at as int),
        ensures
            r is Ok ==> final(self).rows() == old(self).rows().push(
                (
                    session.started_at as int,
                    session.completed_at as int,
                    session.duration_seconds as int,
                ),
            ),
            r is Err ==> final(self).rows() == old(self).rows() && r->Err_0 == DbError::Insert,
    {
        match insert_session_row(
            &mut self.conn,
            session.started_at,
            session.completed_at,
            session.duration_seconds,
        ) {
            Ok(_) => Ok(()),
            Err(_) => Err(DbError::Insert),
        }
    }

    /// The number of stored sessions that began at or after the given UTC
    /// instant.
    pub fn count_started_since(&self, threshold: i64) -> (r: Result<usize, DbError>)
        requires
            valid_timestamp(threshold as int),
        ensures
            r is Ok ==> r->Ok_0 == count_started_at_or_after(self.rows(), threshold as int),
            r is Err ==> r->Err_0 == DbError::Query,
    {
        match query_count_started_since(&self.conn, threshold) {
            Ok(n) => Ok(n),
            Err(_) => Err(DbError::Query),
        }
    }

    /// The number of stored sessions that began at or after the most recent
    /// local midnight. Which instant that is depends on the machine's clock
    /// and time zone, so the contract promises only that the result counts
    /// from some storable instant.
    pub fn get_sessions_count_for_today(&self) -> (r: Result<usize, DbError>)
        ensures
            r is Ok ==> exists|m: int|
                valid_timestamp(m) && r->Ok_0 == count_started_at_or_after(self.rows(), m),
            r is Err ==> r->Err_0 == DbError::Query,
    {
        let midnight = match crate::clock::local_midnight_epoch() {
            Some(m) => m,
            None => { return Err(DbError::Query) },
        };
        let clamped: i64 = if midnight < 0 {
            0
        } else if midnight >= TS_MAX {
            TS_MAX - 1
        } else {
            midnight
        };
        match self.count_started_since(clamped) {
            Ok(n) => {
                proof {
                    assert(valid_timestamp(clamped as int) && n == count_started_at_or_after(
                        self.rows(),
                        clamped as int,
                    ));
                }
                Ok(n)
            },
            Err(e) => Err(e),
        }
    }
}

/// Saving sessions that all began at or after an instant, into a store
/// holding none that did, leaves the count at that instant equal to the
/// number of saves.
pub proof fn lemma_count_after_saves(
    rows0: Seq<(int, int, int)>,
    added: Seq<(int, int, int)>,
    threshold: int,
)
    requires
        count_started_at_or_after(rows0, threshold) == 0,
        forall|i: int| 0 <= i < added.len() ==> (#[trigger] added[i]).0 >= threshold,
    ensures
        count_started_at_or_after(rows0 + added, threshold) == added.len(),
    decreases added.len(),
{
    reveal(Seq::filter);
    if added.len() == 0 {
        assert(rows0 + added =~= rows0);
    } else {
        lemma_count_after_saves(rows0, added.drop_last(), threshold);
        let all = rows0 + added;
        assert(all.drop_last() =~= rows0 + added.drop_last());
        assert(all.last() == added.last());
        assert(added.last().0 >= threshold);
    }
}

} // verus!
