//! Calls into SQLite through `rusqlite`, and the `Database` handle that
//! keeps a record of every statement sent through it. What a statement does
//! and which rows a query yields depend on the database; what is stated is
//! how the rows a query yields are read.

use vstd::prelude::*;
pub use crate::db::connection::Database;
use crate::db::connection::{execute_statement, next_row, QueryRows};

verus! {

#[verifier::external_type_specification]
#[verifier::external_body]
pub struct ExConnection(rusqlite::Connection);

#[verifier::external_type_specification]
#[verifier::external_body]
pub struct ExSqliteError(rusqlite::Error);

#[verifier::external_type_specification]
#[verifier::external_body]
pub struct ExStatement<'conn>(rusqlite::Statement<'conn>);

#[verifier::external_type_specification]
#[verifier::external_body]
pub struct ExRows<'stmt>(rusqlite::Rows<'stmt>);

#[verifier::external_type_specification]
#[verifier::external_body]
pub struct ExRow<'stmt>(rusqlite::Row<'stmt>);

/// One cell of a result row, as `rusqlite` reads it: NULL, an integer, text
/// that is valid UTF-8 (as its characters), or anything else (a real, a
/// blob, or text that is not UTF-8).
pub enum SqlCell {
    Null,
    Integer(i64),
    Text(Seq<char>),
    Other,
}

/// The cells of result row `row`, one per column of the query, in order.
pub uninterp spec fn row_cells(row: rusqlite::Row<'_>) -> Seq<SqlCell>;

/// The rows that the cursor `rows` has still to hand out, each as its
/// cells, in the order `Rows::next` hands them out.
pub uninterp spec fn rows_to_come(rows: QueryRows<'_>) -> Seq<Seq<SqlCell>>;

/// One row of `PRAGMA table_info`: cid, name, type, notnull, default, pk.
pub type TableInfoRow = (i32, String, String, i32, Option<String>, i32);

/// `s` is the display text of some SQLite error.
pub open spec fn is_sqlite_error_text(s: String) -> bool {
    exists|e: rusqlite::Error| #[trigger] vstd::string::to_string_from_display_ensures::<rusqlite::Error>(&e, s)
}

/// The record of a database handle: each statement sent, in order, with
/// whether it ran without error.
pub type StatementLog = Seq<(Seq<char>, bool)>;

/// `texts` is the text in column `col` of each of `rows`, in order.
pub open spec fn texts_in_column(rows: Seq<Seq<SqlCell>>, col: int, texts: Seq<Seq<char>>) -> bool {
    &&& texts.len() == rows.len()
    &&& forall|i: int| 0 <= i < rows.len() ==> col < #[trigger] rows[i].len() && rows[i][col] == SqlCell::Text(texts[i])
}

/// `cells` hold the `PRAGMA table_info` row `row`: integers in columns 0, 3
/// and 5, text in columns 1 and 2, and NULL or text in column 4.
pub open spec fn cells_hold_info_row(cells: Seq<SqlCell>, row: TableInfoRow) -> bool {
    &&& cells.len() > 5
    &&& cells[0] == SqlCell::Integer(row.0 as i64)
    &&& cells[1] == SqlCell::Text(row.1@)
    &&& cells[2] == SqlCell::Text(row.2@)
    &&& cells[3] == SqlCell::Integer(row.3 as i64)
    &&& match row.4 {
        None => cells[4] == SqlCell::Null,
        Some(d) => cells[4] == SqlCell::Text(d@),
    }
    &&& cells[5] == SqlCell::Integer(row.5 as i64)
}

/// `r` is what reading cell `idx` of `cells` as text gives: the text, where
/// the cell exists and holds text, else an error.
pub open spec fn reads_text(r: Result<String, rusqlite::Error>, cells: Seq<SqlCell>, idx: int) -> bool {
    match r {
        Ok(s) => 0 <= idx < cells.len() && cells[idx] == SqlCell::Text(s@),
        Err(_) => !(0 <= idx < cells.len() && cells[idx] is Text),
    }
}

/// `r` is what reading cell `idx` of `cells` as `i32` gives: the integer,
/// where the cell exists and holds an integer in the range of `i32`, else an
/// error.
pub open spec fn reads_i32(r: Result<i32, rusqlite::Error>, cells: Seq<SqlCell>, idx: int) -> bool {
    match r {
        Ok(n) => 0 <= idx < cells.len() && cells[idx] == SqlCell::Integer(n as i64),
        Err(_) => !(0 <= idx < cells.len() && (cells[idx] matches SqlCell::Integer(i) && i32::MIN <= i <= i32::MAX)),
    }
}

/// `r` is what reading cell `idx` of `cells` as optional text gives: `None`
/// for NULL, the text for text, and an error where the cell does not exist
/// or holds anything else.
pub open spec fn reads_optional_text(r: Result<Option<String>, rusqlite::Error>, cells: Seq<SqlCell>, idx: int) -> bool {
    match r {
        Ok(None) => 0 <= idx < cells.len() && cells[idx] == SqlCell::Null,
        Ok(Some(s)) => 0 <= idx < cells.len() && cells[idx] == SqlCell::Text(s@),
        Err(_) => !(0 <= idx < cells.len() && (cells[idx] is Null || cells[idx] is Text)),
    }
}

/// Calls `rusqlite::Row::get` as `String`. Trusted: it succeeds exactly when
/// column `idx` exists and holds UTF-8 text, and then returns that text.
#[verifier::external_body]
pub(crate) fn column_text(row: &rusqlite::Row, idx: usize) -> (r: Result<String, rusqlite::Error>)
    ensures
        reads_text(r, row_cells(*row), idx as int),
{
    row.get(idx)
}

/// Calls `rusqlite::Row::get` as `i32`. Trusted: it succeeds exactly when
/// column `idx` exists and holds an integer in the range of `i32`, and then
/// returns that integer.
#[verifier::external_body]
pub(crate) fn column_i32(row: &rusqlite::Row, idx: usize) -> (r: Result<i32, rusqlite::Error>)
    ensures
        reads_i32(r, row_cells(*row), idx as int),
{
    row.get(idx)
}

/// Calls `rusqlite::Row::get` as `Option<String>`. Trusted: it succeeds
/// exactly when column `idx` exists and holds NULL (giving `None`) or UTF-8
/// text (giving that text).
#[verifier::external_body]
pub(crate) fn column_optional_text(row: &rusqlite::Row, idx: usize) -> (r: Result<Option<String>, rusqlite::Error>)
    ensures
        reads_optional_text(r, row_cells(*row), idx as int),
{
    row.get(idx)
}

/// Reads the first column of every row `c` hands out as text, in order,
/// until no row is left; stops at the first error. Every row handed out is
/// read, so on success the texts are one per row the query yielded.
pub(crate) fn read_texts(c: &mut QueryRows) -> (r: Result<Vec<String>, rusqlite::Error>)
    requires
        old(c).read().len() == 0,
    ensures
        r is Ok ==> final(c).read() == old(c).to_come(),
        r matches Ok(v) ==> texts_in_column(final(c).read(), 0, v@.map_values(|s: String| s@)),
{
    let ghost all = c.to_come();
    let mut out: Vec<String> = Vec::new();
    proof {
        assert(c.read() + c.to_come() =~= all);
    }
    loop
        invariant_except_break
            c.read() + c.to_come() == all,
        invariant
            texts_in_column(c.read(), 0, out@.map_values(|s: String| s@)),
        ensures
            c.read() == all,
            texts_in_column(c.read(), 0, out@.map_values(|s: String| s@)),
        decreases c.to_come().len(),
    {
        let ghost to_come0 = c.to_come();
        let ghost before = out@.map_values(|s: String| s@);
        let ghost read0 = c.read();
        match next_row(c) {
            Err(e) => return Err(e),
            Ok(None) => {
                proof {
                    assert(read0 + to_come0 =~= read0);
                }
                break;
            },
            Ok(Some(row)) => {
                let ghost cells = row_cells(*row);
                proof {
                    assert(read0.push(cells) + to_come0.drop_first() =~= read0 + to_come0);
                }
                match column_text(row, 0) {
                    Err(e) => return Err(e),
                    Ok(s) => {
                        proof {
                            lemma_texts_grow(read0, before, cells, s@);
                        }
                        out.push(s);
                        proof {
                            assert(out@.map_values(|s: String| s@) =~= before.push(s@));
                        }
                    },
                }
            },
        }
    }
    Ok(out)
}

/// One more row, with text `t` in column 0, extends the texts by `t`.
proof fn lemma_texts_grow(rows: Seq<Seq<SqlCell>>, texts: Seq<Seq<char>>, cells: Seq<SqlCell>, t: Seq<char>)
    requires
        texts_in_column(rows, 0, texts),
        0 < cells.len(),
        cells[0] == SqlCell::Text(t),
    ensures
        texts_in_column(rows.push(cells), 0, texts.push(t)),
{
    assert forall|i: int| 0 <= i < rows.len() + 1 implies 0 < #[trigger] rows.push(cells)[i].len()
        && rows.push(cells)[i][0] == SqlCell::Text(texts.push(t)[i]) by {
        if i < rows.len() {
            assert(rows.push(cells)[i] == rows[i]);
        }
    }
}

/// Reads the six `PRAGMA table_info` columns of every row `c` hands out, in
/// order, until no row is left; stops at the first error. Every row handed
/// out is read, so on success there is one entry per row the query yielded.
pub(crate) fn read_table_info_rows(c: &mut QueryRows) -> (r: Result<Vec<TableInfoRow>, rusqlite::Error>)
    requires
        old(c).read().len() == 0,
    ensures
        r is Ok ==> final(c).read() == old(c).to_come(),
        r matches Ok(v) ==> v@.len() == final(c).read().len() && forall|i: int|
            0 <= i < v@.len() ==> #[trigger] cells_hold_info_row(final(c).read()[i], v@[i]),
{
    let ghost all = c.to_come();
    let mut out: Vec<TableInfoRow> = Vec::new();
    proof {
        assert(c.read() + c.to_come() =~= all);
    }
    loop
        invariant_except_break
            c.read() + c.to_come() == all,
        invariant
            out@.len() == c.read().len(),
            forall|i: int| 0 <= i < out@.len() ==> #[trigger] cells_hold_info_row(c.read()[i], out@[i]),
        ensures
            c.read() == all,
            out@.len() == c.read().len(),
            forall|i: int| 0 <= i < out@.len() ==> #[trigger] cells_hold_info_row(c.read()[i], out@[i]),
        decreases c.to_come().len(),
    {
        let ghost read0 = c.read();
        let ghost to_come0 = c.to_come();
        let ghost out0 = out@;
        match next_row(c) {
            Err(e) => return Err(e),
            Ok(None) => {
                proof {
                    assert(read0 + to_come0 =~= read0);
                }
                break;
            },
            Ok(Some(row)) => {
                let ghost cells = row_cells(*row);
                proof {
                    assert(read0.push(cells) + to_come0.drop_first() =~= read0 + to_come0);
                }
                let cid = match column_i32(row, 0) {
                    Ok(v) => v,
                    Err(e) => return Err(e),
                };
                let name = match column_text(row, 1) {
                    Ok(v) => v,
                    Err(e) => return Err(e),
                };
                let col_type = match column_text(row, 2) {
                    Ok(v) => v,
                    Err(e) => return Err(e),
                };
                let notnull = match column_i32(row, 3) {
                    Ok(v) => v,
                    Err(e) => return Err(e),
                };
                let default_value = match column_optional_text(row, 4) {
                    Ok(v) => v,
                    Err(e) => return Err(e),
                };
                let pk = match column_i32(row, 5) {
                    Ok(v) => v,
                    Err(e) => return Err(e),
                };
                let info: TableInfoRow = (cid, name, col_type, notnull, default_value, pk);
                assert(cells_hold_info_row(cells, info));
                out.push(info);
                proof {
                    assert forall|i: int| 0 <= i < out@.len() implies #[trigger] cells_hold_info_row(c.read()[i], out@[i]) by {
                        if i < out0.len() {
                            assert(c.read()[i] == read0[i]);
                            assert(out@[i] == out0[i]);
                        }
                    }
                }
            },
        }
    }
    Ok(out)
}

impl Database {
    /// Executes statement `sql`, which the record gains.
    pub(crate) fn execute(&mut self, sql: &str) -> (r: Result<usize, rusqlite::Error>)
        ensures
            final(self).log() == old(self).log().push((sql@, r is Ok)),
            final(self).last_rows() == old(self).last_rows(),
    {
        execute_statement(self, sql)
    }
}

} // verus!
