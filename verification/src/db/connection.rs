//! The database handle and the query cursor, with their records. Their
//! fields are private to this module, and outside it the records change
//! only through the calls that run statements and hand out rows: the record
//! of a handle is what was run on its connection, and the record of a
//! cursor is what it handed out.

use vstd::prelude::*;
use crate::db::sqlite::{read_table_info_rows, read_texts, rows_to_come, row_cells, SqlCell, StatementLog, TableInfoRow};

verus! {

/// A connection to an SQLite database, with the record of the statements
/// run on it and the rows the last query yielded.
pub struct Database {
    conn: rusqlite::Connection,
    log: Ghost<StatementLog>,
    rows: Ghost<Seq<Seq<SqlCell>>>,
}

/// The rows of a started query, with the record of the rows handed out so
/// far.
pub struct QueryRows<'s> {
    rows: rusqlite::Rows<'s>,
    read: Ghost<Seq<Seq<SqlCell>>>,
}

impl<'s> QueryRows<'s> {
    /// The rows handed out so far, each as its cells, in order.
    pub closed spec fn read(&self) -> Seq<Seq<SqlCell>> {
        self.read@
    }

    /// The rows still to be handed out, each as its cells, in order.
    pub open spec fn to_come(&self) -> Seq<Seq<SqlCell>> {
        rows_to_come(*self)
    }
}

/// From `before` to `after`, the cursor handed out `r`: a row is the first
/// of the rows to come, which are then the rest, and it joins the rows
/// read; `None` comes only when no row is left; nothing is read otherwise.
pub open spec fn advanced<'r, 's>(
    before: QueryRows<'s>,
    after: QueryRows<'s>,
    r: Result<Option<&'r rusqlite::Row<'s>>, rusqlite::Error>,
) -> bool {
    match r {
        Ok(Some(row)) => {
            &&& before.to_come().len() > 0
            &&& row_cells(*row) == before.to_come()[0]
            &&& after.to_come() == before.to_come().drop_first()
            &&& after.read() == before.read().push(row_cells(*row))
        },
        Ok(None) => before.to_come().len() == 0 && after.read() == before.read(),
        Err(_) => after.read() == before.read(),
    }
}

/// Calls `rusqlite::Connection::execute` on the handle's connection with
/// `sql` and no parameters. Trusted: the handle's record gains exactly
/// `sql`, with whether it ran without error; what it does depends on the
/// database and is not stated.
#[verifier::external_body]
pub(crate) fn execute_statement(db: &mut Database, sql: &str) -> (r: Result<usize, rusqlite::Error>)
    ensures
        final(db).log() == old(db).log().push((sql@, r is Ok)),
        final(db).last_rows() == old(db).last_rows(),
{
    db.conn.execute(sql, [])
}

/// Calls `rusqlite::Connection::prepare`. No clause is given.
#[verifier::external_body]
fn prepare_statement<'c>(conn: &'c rusqlite::Connection, sql: &str) -> (r: Result<rusqlite::Statement<'c>, rusqlite::Error>) {
    conn.prepare(sql)
}

/// Calls `rusqlite::Statement::query` with no parameters. Trusted: the
/// cursor has handed out nothing yet; which rows it will yield depends on
/// the database and is not stated.
#[verifier::external_body]
fn start_query<'s, 'c>(stmt: &'s mut rusqlite::Statement<'c>) -> (r: Result<QueryRows<'s>, rusqlite::Error>)
    ensures
        r matches Ok(c) ==> c.read() == Seq::<Seq<SqlCell>>::empty(),
{
    match stmt.query([]) {
        Ok(rows) => Ok(QueryRows { rows, read: Ghost(Seq::empty()) }),
        Err(e) => Err(e),
    }
}

/// Calls `rusqlite::Rows::next`. Trusted: see `advanced`.
#[verifier::external_body]
pub(crate) fn next_row<'r, 's>(c: &'r mut QueryRows<'s>) -> (r: Result<Option<&'r rusqlite::Row<'s>>, rusqlite::Error>)
    ensures
        advanced(*old(c), *final(c), r),
        r matches Ok(Some(row)) ==> row_cells(*row) == rows_to_come(*old(c))[0],
{
    c.rows.next()
}

impl Database {
    /// Each statement run on this handle's connection, in order, with
    /// whether it ran without error.
    pub closed spec fn log(&self) -> StatementLog {
        self.log@
    }

    /// The rows that the last query run on this handle yielded, each as its
    /// cells (none before the first query, or if it could not start).
    pub closed spec fn last_rows(&self) -> Seq<Seq<SqlCell>> {
        self.rows@
    }

    /// A handle on `conn` that has run nothing yet.
    pub fn new(conn: rusqlite::Connection) -> (db: Database)
        ensures
            db.log() == Seq::<(Seq<char>, bool)>::empty(),
            db.last_rows() == Seq::<Seq<SqlCell>>::empty(),
    {
        Database { conn, log: Ghost(Seq::empty()), rows: Ghost(Seq::empty()) }
    }

    /// Runs query `sql` and reads the first column of each row as text;
    /// records the query and the rows it yielded.
    pub(crate) fn query_texts(&mut self, sql: &str) -> (r: Result<Vec<String>, rusqlite::Error>)
        ensures
            final(self).log() == old(self).log().push((sql@, r is Ok)),
            r matches Ok(v) ==> crate::db::sqlite::texts_in_column(final(self).last_rows(), 0, v@.map_values(|s: String| s@)),
    {
        let ghost mut yielded: Seq<Seq<SqlCell>> = Seq::empty();
        let r = match prepare_statement(&self.conn, sql) {
            Err(e) => Err(e),
            Ok(mut stmt) => match start_query(&mut stmt) {
                Err(e) => Err(e),
                Ok(mut c) => {
                    let r = read_texts(&mut c);
                    proof {
                        yielded = c.read();
                    }
                    r
                },
            },
        };
        self.log = Ghost(self.log@.push((sql@, r is Ok)));
        self.rows = Ghost(yielded);
        r
    }

    /// Runs the `PRAGMA table_info` query `sql` and reads its rows; records
    /// the query and the rows it yielded.
    pub(crate) fn query_table_info_rows(&mut self, sql: &str) -> (r: Result<Vec<TableInfoRow>, rusqlite::Error>)
        ensures
            final(self).log() == old(self).log().push((sql@, r is Ok)),
            r matches Ok(v) ==> v@.len() == final(self).last_rows().len() && forall|i: int|
                0 <= i < v@.len() ==> #[trigger] crate::db::sqlite::cells_hold_info_row(final(self).last_rows()[i], v@[i]),
    {
        let ghost mut yielded: Seq<Seq<SqlCell>> = Seq::empty();
        let r = match prepare_statement(&self.conn, sql) {
            Err(e) => Err(e),
            Ok(mut stmt) => match start_query(&mut stmt) {
                Err(e) => Err(e),
                Ok(mut c) => {
                    let r = read_table_info_rows(&mut c);
                    proof {
                        yielded = c.read();
                    }
                    r
                },
            },
        };
        self.log = Ghost(self.log@.push((sql@, r is Ok)));
        self.rows = Ghost(yielded);
        r
    }
}

} // verus!
