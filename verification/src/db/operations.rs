//! Schema operations on an SQLite database: identifier validation and the
//! statements that create, drop and alter tables.

use vstd::prelude::*;
use crate::db::pattern::{compile_pattern, pattern_is_match};
use crate::db::sqlite::{Database, TableInfoRow};
#[allow(unused_imports)]
use crate::db::sqlite::{is_sqlite_error_text, texts_in_column, SqlCell, StatementLog};
use crate::text::{ascii_upper, ascii_upper_char, concat3, concat5, str_equals, to_uppercase};
#[allow(unused_imports)]
use crate::text::unicode_uppercase;

verus! {

/// `r` is an error whose message is `msg`.
pub open spec fn fails_with<T>(r: Result<T, String>, msg: Seq<char>) -> bool {
    r matches Err(m) && m@ == msg
}

/// SQLite's own tables, which no identifier may name (compared without case).
pub open spec fn is_reserved_name(s: Seq<char>) -> bool {
    ||| ascii_upper(s) == "SQLITE_MASTER"@
    ||| ascii_upper(s) == "SQLITE_SEQUENCE"@
    ||| ascii_upper(s) == "SQLITE_TEMP_MASTER"@
}

/// Names that `validate_identifier` accepts.
pub open spec fn is_valid_identifier(s: Seq<char>) -> bool {
    crate::db::pattern::matches_identifier_pattern(s) && !is_reserved_name(s)
}

/// The message with which `validate_identifier` rejects `name`.
pub open spec fn identifier_error(name: Seq<char>) -> Seq<char> {
    if !crate::db::pattern::matches_identifier_pattern(name) {
        "Invalid identifier '"@ + name + "': must match ^[a-zA-Z_][a-zA-Z0-9_]*$"@
    } else {
        "'"@ + name + "' is a reserved name"@
    }
}

/// Whether the ASCII upper-casing of `s` equals `target`.
fn ascii_upper_equals(s: &str, target: &str) -> (r: bool)
    ensures
        r == (ascii_upper(s@) == target@),
{
    let n = s.unicode_len();
    let m = target.unicode_len();
    if n != m {
        proof {
            assert(ascii_upper(s@).len() != target@.len());
        }
        return false;
    }
    let mut i: usize = 0;
    while i < n
        invariant
            n == s@.len(),
            m == target@.len(),
            n == m,
            i <= n,
            forall|j: int| 0 <= j < i ==> ascii_upper_char(s@[j]) == target@[j],
        decreases n - i,
    {
        let c = s.get_char(i);
        let t = target.get_char(i);
        let u = if 'a' <= c && c <= 'z' {
            ((c as u8) - 32) as char
        } else {
            c
        };
        assert(u == ascii_upper_char(c));
        if u != t {
            proof {
                assert(ascii_upper(s@)[i as int] != target@[i as int]);
            }
            return false;
        }
        i = i + 1;
    }
    proof {
        assert(ascii_upper(s@) =~= target@);
    }
    true
}

/// Checks that `name` can be used as a table or column name: it must match
/// `^[a-zA-Z_][a-zA-Z0-9_]*$` and must not name one of SQLite's own tables.
pub fn validate_identifier(name: &str) -> (r: Result<(), String>)
    ensures
        r is Ok <==> is_valid_identifier(name@),
        r matches Err(msg) ==> msg@ == identifier_error(name@),
{
    let pattern = match compile_pattern("^[a-zA-Z_][a-zA-Z0-9_]*$") {
        Ok(p) => p,
        Err(_) => {
            proof {
                assert(false);
            }
            return Err(String::new());
        },
    };
    if !pattern_is_match(&pattern, name) {
        let mut msg = String::from_str("Invalid identifier '");
        msg.append(name);
        msg.append("': must match ^[a-zA-Z_][a-zA-Z0-9_]*$");
        return Err(msg);
    }
    // The name has matched the pattern, so it is ASCII, and its ASCII
    // upper-casing is its upper-casing.
    if ascii_upper_equals(name, "SQLITE_MASTER") || ascii_upper_equals(name, "SQLITE_SEQUENCE")
        || ascii_upper_equals(name, "SQLITE_TEMP_MASTER") {
        let mut msg = String::from_str("'");
        msg.append(name);
        msg.append("' is a reserved name");
        return Err(msg);
    }
    Ok(())
}

/// A table of the database, as `list_tables` reports it.
#[derive(Debug, Clone)]
pub struct TableInfo {
    pub name: String,
}

/// A column of a table, as `PRAGMA table_info` describes it.
#[derive(Debug, Clone)]
pub struct ColumnInfo {
    pub cid: i32,
    pub name: String,
    pub col_type: String,
    pub notnull: bool,
    pub default_value: Option<String>,
    pub pk: bool,
}

/// The column described by one row of `PRAGMA table_info`.
pub open spec fn column_of_row(row: TableInfoRow) -> ColumnInfo {
    ColumnInfo {
        cid: row.0,
        name: row.1,
        col_type: row.2,
        notnull: row.3 != 0,
        default_value: row.4,
        pk: row.5 != 0,
    }
}

/// The statement that creates table `name` with only an `id` key column.
pub open spec fn create_table_sql(name: Seq<char>) -> Seq<char> {
    "CREATE TABLE \""@ + name + "\" (id INTEGER PRIMARY KEY AUTOINCREMENT)"@
}

/// The statement that drops table `name` if it exists.
pub open spec fn drop_table_sql(name: Seq<char>) -> Seq<char> {
    "DROP TABLE IF EXISTS \""@ + name + "\""@
}

/// The statement that adds column `column` of type `col_type` to `table`.
pub open spec fn add_column_sql(table: Seq<char>, column: Seq<char>, col_type: Seq<char>) -> Seq<char> {
    "ALTER TABLE \""@ + table + "\" ADD COLUMN \""@ + column + "\" "@ + col_type
}

/// The statement that drops column `column` from `table`.
pub open spec fn drop_column_sql(table: Seq<char>, column: Seq<char>) -> Seq<char> {
    "ALTER TABLE \""@ + table + "\" DROP COLUMN \""@ + column + "\""@
}

/// The query that lists the user's tables by name.
pub open spec fn list_tables_sql() -> Seq<char> {
    "SELECT name FROM sqlite_master WHERE type='table' AND name NOT LIKE 'sqlite_%' ORDER BY name"@
}

/// The query that describes the columns of `table`.
pub open spec fn table_info_sql(table: Seq<char>) -> Seq<char> {
    "PRAGMA table_info(\""@ + table + "\")"@
}

/// The column types that `add_column` accepts, after upper-casing.
pub open spec fn is_allowed_column_type(t: Seq<char>) -> bool {
    ||| t == "TEXT"@
    ||| t == "INTEGER"@
    ||| t == "REAL"@
    ||| t == "BLOB"@
    ||| t == "NUMERIC"@
}

/// The message with which `add_column` rejects the column type `t`.
pub open spec fn column_type_error(t: Seq<char>) -> Seq<char> {
    "Invalid column type '"@ + t
        + "': must be one of [\"TEXT\", \"INTEGER\", \"REAL\", \"BLOB\", \"NUMERIC\"]"@
}

/// The text of `create_table_sql(name)`.
pub fn create_table_statement(name: &str) -> (r: String)
    ensures
        r@ == create_table_sql(name@),
{
    let r = concat3("CREATE TABLE \"", name, "\" (id INTEGER PRIMARY KEY AUTOINCREMENT)");
    proof {
        assert(r@ =~= create_table_sql(name@));
    }
    r
}

/// The text of `drop_table_sql(name)`.
pub fn drop_table_statement(name: &str) -> (r: String)
    ensures
        r@ == drop_table_sql(name@),
{
    let r = concat3("DROP TABLE IF EXISTS \"", name, "\"");
    proof {
        assert(r@ =~= drop_table_sql(name@));
    }
    r
}

/// The text of `add_column_sql(table, column, col_type)`.
pub fn add_column_statement(table: &str, column: &str, col_type: &str) -> (r: String)
    ensures
        r@ == add_column_sql(table@, column@, col_type@),
{
    let mut r = concat5("ALTER TABLE \"", table, "\" ADD COLUMN \"", column, "\" ");
    r.append(col_type);
    proof {
        assert(r@ =~= add_column_sql(table@, column@, col_type@));
    }
    r
}

/// The text of `drop_column_sql(table, column)`.
pub fn drop_column_statement(table: &str, column: &str) -> (r: String)
    ensures
        r@ == drop_column_sql(table@, column@),
{
    let r = concat5("ALTER TABLE \"", table, "\" DROP COLUMN \"", column, "\"");
    proof {
        assert(r@ =~= drop_column_sql(table@, column@));
    }
    r
}

/// The text of `list_tables_sql()`.
pub fn list_tables_statement() -> (r: &'static str)
    ensures
        r@ == list_tables_sql(),
{
    "SELECT name FROM sqlite_master WHERE type='table' AND name NOT LIKE 'sqlite_%' ORDER BY name"
}

/// The text of `table_info_sql(table)`.
pub fn table_info_statement(table: &str) -> (r: String)
    ensures
        r@ == table_info_sql(table@),
{
    let r = concat3("PRAGMA table_info(\"", table, "\")");
    proof {
        assert(r@ =~= table_info_sql(table@));
    }
    r
}

/// Wraps each table name in a `TableInfo`, keeping the order.
pub fn table_infos(names: Vec<String>) -> (r: Vec<TableInfo>)
    ensures
        r@ == names@.map_values(|n: String| TableInfo { name: n }),
{
    let mut r: Vec<TableInfo> = Vec::new();
    let mut i: usize = 0;
    while i < names.len()
        invariant
            i <= names@.len(),
            r@ == names@.take(i as int).map_values(|n: String| TableInfo { name: n }),
        decreases names.len() - i,
    {
        r.push(TableInfo { name: names[i].clone() });
        proof {
            assert(names@.take(i + 1) =~= names@.take(i as int).push(names@[i as int]));
        }
        i = i + 1;
    }
    proof {
        assert(names@.take(names@.len() as int) =~= names@);
    }
    r
}

/// Turns the rows of `PRAGMA table_info` into column descriptions, keeping
/// the order; `notnull` and `pk` are true where the row holds a non-zero value.
pub fn columns_from_rows(rows: Vec<TableInfoRow>) -> (r: Vec<ColumnInfo>)
    ensures
        r@ == rows@.map_values(|row: TableInfoRow| column_of_row(row)),
{
    let mut r: Vec<ColumnInfo> = Vec::new();
    let mut i: usize = 0;
    while i < rows.len()
        invariant
            i <= rows@.len(),
            r@ == rows@.take(i as int).map_values(|row: TableInfoRow| column_of_row(row)),
        decreases rows.len() - i,
    {
        let row = &rows[i];
        let default_value = match &row.4 {
            Some(d) => Some(d.clone()),
            None => None,
        };
        let col = ColumnInfo {
            cid: row.0,
            name: row.1.clone(),
            col_type: row.2.clone(),
            notnull: row.3 != 0,
            default_value,
            pk: row.5 != 0,
        };
        assert(col == column_of_row(rows@[i as int]));
        r.push(col);
        proof {
            assert(rows@.take(i + 1) =~= rows@.take(i as int).push(rows@[i as int]));
        }
        i = i + 1;
    }
    proof {
        assert(rows@.take(rows@.len() as int) =~= rows@);
    }
    r
}

/// The record after one more statement: unchanged for an input refused
/// before anything is sent, else `sql` with whether it ran without error.
pub open spec fn sent_if(valid: bool, before: StatementLog, after: StatementLog, sql: Seq<char>, ok: bool) -> bool {
    if valid {
        after == before.push((sql, ok))
    } else {
        after == before
    }
}

/// `r` is `Ok`, or an error carrying the text of a SQLite error.
pub open spec fn ok_or_sqlite_error<T>(r: Result<T, String>) -> bool {
    r matches Err(e) ==> is_sqlite_error_text(e)
}

/// `tables` are named, in order, by the text in the first column of each of
/// `rows`.
pub open spec fn tables_of_rows(rows: Seq<Seq<SqlCell>>, tables: Seq<TableInfo>) -> bool {
    texts_in_column(rows, 0, tables.map_values(|t: TableInfo| t.name@))
}

/// `col` is the column that the `PRAGMA table_info` row `cells` describes:
/// cid, name and type from the first three cells; `notnull` and `pk` true
/// where their integer cells are non-zero; the default NULL or text.
pub open spec fn cells_describe_column(cells: Seq<SqlCell>, col: ColumnInfo) -> bool {
    &&& cells.len() > 5
    &&& cells[0] == SqlCell::Integer(col.cid as i64)
    &&& cells[1] == SqlCell::Text(col.name@)
    &&& cells[2] == SqlCell::Text(col.col_type@)
    &&& cells[3] matches SqlCell::Integer(k) && i32::MIN <= k <= i32::MAX && (k != 0) == col.notnull
    &&& match col.default_value {
        None => cells[4] == SqlCell::Null,
        Some(d) => cells[4] == SqlCell::Text(d@),
    }
    &&& cells[5] matches SqlCell::Integer(k) && i32::MIN <= k <= i32::MAX && (k != 0) == col.pk
}

/// `cols` are the columns that `rows` describe, in order.
pub open spec fn columns_of_rows(rows: Seq<Seq<SqlCell>>, cols: Seq<ColumnInfo>) -> bool {
    &&& cols.len() == rows.len()
    &&& forall|i: int| 0 <= i < rows.len() ==> #[trigger] cells_describe_column(rows[i], cols[i])
}

/// Lists the user's tables (those not named `sqlite_%`), ordered by name:
/// sends `list_tables_sql()` and returns one `TableInfo` per row it yields,
/// named by the row's first column.
pub fn list_tables(db: &mut Database) -> (r: Result<Vec<TableInfo>, rusqlite::Error>)
    ensures
        final(db).log() == old(db).log().push((list_tables_sql(), r is Ok)),
        r matches Ok(ts) ==> tables_of_rows(final(db).last_rows(), ts@),
{
    let names = db.query_texts(list_tables_statement())?;
    let tables = table_infos(names);
    proof {
        assert(tables@.map_values(|t: TableInfo| t.name@) =~= names@.map_values(|s: String| s@));
    }
    Ok(tables)
}

/// Describes the columns of `table_name`, which must be a valid identifier:
/// sends `table_info_sql(table_name)` and returns the column each row it
/// yields describes.
pub fn list_columns(db: &mut Database, table_name: &str) -> (r: Result<Vec<ColumnInfo>, String>)
    ensures
        sent_if(is_valid_identifier(table_name@), old(db).log(), final(db).log(), table_info_sql(table_name@), r is Ok),
        !is_valid_identifier(table_name@) ==> fails_with(r, identifier_error(table_name@)),
        is_valid_identifier(table_name@) ==> ok_or_sqlite_error(r),
        r matches Ok(cs) ==> columns_of_rows(final(db).last_rows(), cs@),
{
    validate_identifier(table_name)?;
    let query = table_info_statement(table_name);
    match db.query_table_info_rows(query.as_str()) {
        Ok(rows) => {
            let cols = columns_from_rows(rows);
            proof {
                let cells = db.last_rows();
                assert forall|i: int| 0 <= i < cells.len() implies #[trigger] cells_describe_column(cells[i], cols@[i]) by {
                    assert(crate::db::sqlite::cells_hold_info_row(cells[i], rows@[i]));
                    assert(cols@[i] == column_of_row(rows@[i]));
                }
            }
            Ok(cols)
        },
        Err(e) => Err(e.to_string()),
    }
}

/// Sends `sql`, turning SQLite's error into its text.
fn execute_change(db: &mut Database, sql: &str) -> (r: Result<(), String>)
    ensures
        final(db).log() == old(db).log().push((sql@, r is Ok)),
        ok_or_sqlite_error(r),
{
    match db.execute(sql) {
        Ok(_) => Ok(()),
        Err(e) => Err(e.to_string()),
    }
}

/// Creates table `table_name` with an auto-incrementing `id` primary key,
/// by sending `create_table_sql(table_name)`.
pub fn create_table(db: &mut Database, table_name: &str) -> (r: Result<(), String>)
    ensures
        sent_if(is_valid_identifier(table_name@), old(db).log(), final(db).log(), create_table_sql(table_name@), r is Ok),
        !is_valid_identifier(table_name@) ==> fails_with(r, identifier_error(table_name@)),
        is_valid_identifier(table_name@) ==> ok_or_sqlite_error(r),
{
    validate_identifier(table_name)?;
    let sql = create_table_statement(table_name);
    execute_change(db, sql.as_str())
}

/// Drops table `table_name` if it exists, by sending
/// `drop_table_sql(table_name)`.
pub fn drop_table(db: &mut Database, table_name: &str) -> (r: Result<(), String>)
    ensures
        sent_if(is_valid_identifier(table_name@), old(db).log(), final(db).log(), drop_table_sql(table_name@), r is Ok),
        !is_valid_identifier(table_name@) ==> fails_with(r, identifier_error(table_name@)),
        is_valid_identifier(table_name@) ==> ok_or_sqlite_error(r),
{
    validate_identifier(table_name)?;
    let sql = drop_table_statement(table_name);
    execute_change(db, sql.as_str())
}

/// Checks that `column_type`, upper-cased, is one of the allowed types, and
/// returns the upper-cased type.
pub fn checked_column_type(column_type: &str) -> (r: Result<String, String>)
    ensures
        r is Ok <==> is_allowed_column_type(unicode_uppercase(column_type@)),
        r matches Ok(t) ==> t@ == unicode_uppercase(column_type@),
        r is Err ==> fails_with(r, column_type_error(column_type@)),
{
    let upper = to_uppercase(column_type);
    let u = upper.as_str();
    if str_equals(u, "TEXT") || str_equals(u, "INTEGER") || str_equals(u, "REAL")
        || str_equals(u, "BLOB") || str_equals(u, "NUMERIC") {
        Ok(upper)
    } else {
        let msg = concat3(
            "Invalid column type '",
            column_type,
            "': must be one of [\"TEXT\", \"INTEGER\", \"REAL\", \"BLOB\", \"NUMERIC\"]",
        );
        Err(msg)
    }
}

/// Adds column `column_name` of type `column_type` (one of TEXT, INTEGER,
/// REAL, BLOB, NUMERIC, in any case) to `table_name`, by sending
/// `add_column_sql` with the upper-cased type.
pub fn add_column(
    db: &mut Database,
    table_name: &str,
    column_name: &str,
    column_type: &str,
) -> (r: Result<(), String>)
    ensures
        sent_if(
            is_valid_identifier(table_name@) && is_valid_identifier(column_name@)
                && is_allowed_column_type(unicode_uppercase(column_type@)),
            old(db).log(),
            final(db).log(),
            add_column_sql(table_name@, column_name@, unicode_uppercase(column_type@)),
            r is Ok,
        ),
        !is_valid_identifier(table_name@) ==> fails_with(r, identifier_error(table_name@)),
        is_valid_identifier(table_name@) && !is_valid_identifier(column_name@) ==> fails_with(
            r,
            identifier_error(column_name@),
        ),
        is_valid_identifier(table_name@) && is_valid_identifier(column_name@)
            && !is_allowed_column_type(unicode_uppercase(column_type@)) ==> fails_with(
            r,
            column_type_error(column_type@),
        ),
        is_valid_identifier(table_name@) && is_valid_identifier(column_name@)
            && is_allowed_column_type(unicode_uppercase(column_type@)) ==> ok_or_sqlite_error(r),
{
    validate_identifier(table_name)?;
    validate_identifier(column_name)?;
    let col_type_upper = checked_column_type(column_type)?;
    let sql = add_column_statement(table_name, column_name, col_type_upper.as_str());
    execute_change(db, sql.as_str())
}

/// Drops column `column_name` from `table_name`, by sending
/// `drop_column_sql(table_name, column_name)`.
pub fn drop_column(db: &mut Database, table_name: &str, column_name: &str) -> (r: Result<(), String>)
    ensures
        sent_if(
            is_valid_identifier(table_name@) && is_valid_identifier(column_name@),
            old(db).log(),
            final(db).log(),
            drop_column_sql(table_name@, column_name@),
            r is Ok,
        ),
        !is_valid_identifier(table_name@) ==> fails_with(r, identifier_error(table_name@)),
        is_valid_identifier(table_name@) && !is_valid_identifier(column_name@) ==> fails_with(
            r,
            identifier_error(column_name@),
        ),
        is_valid_identifier(table_name@) && is_valid_identifier(column_name@) ==> ok_or_sqlite_error(r),
{
    validate_identifier(table_name)?;
    validate_identifier(column_name)?;
    let sql = drop_column_statement(table_name, column_name);
    execute_change(db, sql.as_str())
}

/// A valid identifier holds no double quote, no space and no semicolon: in
/// every statement built above, the quotes around it close where it ends.
pub proof fn lemma_valid_identifier_stays_quoted(name: Seq<char>)
    requires
        is_valid_identifier(name),
    ensures
        forall|i: int| 0 <= i < name.len() ==> #[trigger] name[i] != '"' && name[i] != ' ' && name[i] != ';',
{
    assert forall|i: int| 0 <= i < name.len() implies #[trigger] name[i] != '"' && name[i] != ' ' && name[i]
        != ';' by {
        if i > 0 {
            assert(crate::db::pattern::is_identifier_char(name[i]));
        }
    }
}

proof fn lemma_upper_char_same_class(a: char, b: char)
    requires
        ascii_upper_char(a) == ascii_upper_char(b),
    ensures
        crate::db::pattern::is_identifier_start(a) <==> crate::db::pattern::is_identifier_start(b),
        crate::db::pattern::is_identifier_char(a) <==> crate::db::pattern::is_identifier_char(b),
{
}

/// Whether a name is accepted does not depend on the case of its ASCII
/// letters.
pub proof fn lemma_validity_ignores_case(s: Seq<char>, t: Seq<char>)
    requires
        ascii_upper(s) == ascii_upper(t),
    ensures
        is_valid_identifier(s) <==> is_valid_identifier(t),
{
    assert(s.len() == ascii_upper(s).len());
    assert(t.len() == ascii_upper(t).len());
    assert forall|i: int| 0 <= i < s.len() implies ascii_upper_char(s[i]) == ascii_upper_char(t[i]) by {
        assert(ascii_upper(s)[i] == ascii_upper_char(s[i]));
        assert(ascii_upper(t)[i] == ascii_upper_char(t[i]));
        assert(ascii_upper(s)[i] == ascii_upper(t)[i]);
    }
    if s.len() > 0 {
        lemma_upper_char_same_class(s[0], t[0]);
    }
    assert forall|i: int| 1 <= i < s.len() implies (#[trigger] crate::db::pattern::is_identifier_char(s[i])
        <==> crate::db::pattern::is_identifier_char(t[i])) by {
        lemma_upper_char_same_class(s[i], t[i]);
    }
    assert forall|i: int| 1 <= i < t.len() implies (#[trigger] crate::db::pattern::is_identifier_char(t[i])
        <==> crate::db::pattern::is_identifier_char(s[i])) by {
        lemma_upper_char_same_class(s[i], t[i]);
    }
}

/// In `s`, the double-quoted identifier that opens just before `start` ends
/// exactly `len` characters later: no `"` inside, and a `"` right after.
pub open spec fn quote_closes_at(s: Seq<char>, start: int, len: int) -> bool {
    &&& 0 < start
    &&& start + len < s.len()
    &&& s[start - 1] == '"'
    &&& s[start + len] == '"'
    &&& forall|i: int| start <= i < start + len ==> s[i] != '"'
}

proof fn lemma_quoted_name_closes(prefix: Seq<char>, name: Seq<char>, suffix: Seq<char>)
    requires
        prefix.len() > 0,
        prefix[prefix.len() - 1] == '"',
        suffix.len() > 0,
        suffix[0] == '"',
        is_valid_identifier(name),
    ensures
        quote_closes_at(prefix + name + suffix, prefix.len() as int, name.len() as int),
{
    lemma_valid_identifier_stays_quoted(name);
    let s = prefix + name + suffix;
    assert(s[prefix.len() - 1] == prefix[prefix.len() - 1]);
    assert(s[(prefix.len() + name.len()) as int] == suffix[0]);
    assert forall|i: int| prefix.len() <= i < prefix.len() + name.len() implies s[i] != '"' by {
        assert(s[i] == name[i - prefix.len()]);
    }
}

/// In every statement sent for valid identifiers, each identifier sits
/// between a pair of double quotes that it cannot close early: user input
/// cannot end the quoted name and inject SQL.
pub proof fn lemma_statements_quote_identifiers(table: Seq<char>, column: Seq<char>, col_type: Seq<char>)
    requires
        is_valid_identifier(table),
        is_valid_identifier(column),
    ensures
        quote_closes_at(create_table_sql(table), 14, table.len() as int),
        quote_closes_at(drop_table_sql(table), 22, table.len() as int),
        quote_closes_at(table_info_sql(table), 19, table.len() as int),
        quote_closes_at(add_column_sql(table, column, col_type), 13, table.len() as int),
        quote_closes_at(add_column_sql(table, column, col_type), (13 + table.len() + 14) as int, column.len() as int),
        quote_closes_at(drop_column_sql(table, column), 13, table.len() as int),
        quote_closes_at(drop_column_sql(table, column), (13 + table.len() + 15) as int, column.len() as int),
{
    reveal_strlit("CREATE TABLE \"");
    reveal_strlit("\" (id INTEGER PRIMARY KEY AUTOINCREMENT)");
    reveal_strlit("DROP TABLE IF EXISTS \"");
    reveal_strlit("\"");
    reveal_strlit("PRAGMA table_info(\"");
    reveal_strlit("\")");
    reveal_strlit("ALTER TABLE \"");
    reveal_strlit("\" ADD COLUMN \"");
    reveal_strlit("\" ");
    reveal_strlit("\" DROP COLUMN \"");
    lemma_quoted_name_closes("CREATE TABLE \""@, table, "\" (id INTEGER PRIMARY KEY AUTOINCREMENT)"@);
    lemma_quoted_name_closes("DROP TABLE IF EXISTS \""@, table, "\""@);
    lemma_quoted_name_closes("PRAGMA table_info(\""@, table, "\")"@);
    let add_tail = "\" ADD COLUMN \""@ + column + "\" "@ + col_type;
    assert(add_column_sql(table, column, col_type) =~= "ALTER TABLE \""@ + table + add_tail);
    lemma_quoted_name_closes("ALTER TABLE \""@, table, add_tail);
    let add_head = "ALTER TABLE \""@ + table + "\" ADD COLUMN \""@;
    assert(add_column_sql(table, column, col_type) =~= add_head + column + ("\" "@ + col_type));
    lemma_quoted_name_closes(add_head, column, "\" "@ + col_type);
    let drop_tail = "\" DROP COLUMN \""@ + column + "\""@;
    assert(drop_column_sql(table, column) =~= "ALTER TABLE \""@ + table + drop_tail);
    lemma_quoted_name_closes("ALTER TABLE \""@, table, drop_tail);
    let drop_head = "ALTER TABLE \""@ + table + "\" DROP COLUMN \""@;
    assert(drop_column_sql(table, column) =~= drop_head + column + "\""@);
    lemma_quoted_name_closes(drop_head, column, "\""@);
}

/// A table listing read from the rows a query yields has one table per
/// row, at the row's position, named by the text in the row's first
/// column, and two listings read from the same rows name the same tables in
/// the same order.
pub proof fn law_table_listing_has_every_row(rows: Seq<Seq<SqlCell>>, ts: Seq<TableInfo>, us: Seq<TableInfo>)
    requires
        tables_of_rows(rows, ts),
        tables_of_rows(rows, us),
    ensures
        ts.len() == rows.len(),
        forall|j: int| 0 <= j < rows.len() ==> #[trigger] rows[j][0] == SqlCell::Text(ts[j].name@),
        forall|i: int| 0 <= i < ts.len() ==> #[trigger] ts[i].name@ == us[i].name@,
{
    assert forall|j: int| 0 <= j < rows.len() implies #[trigger] rows[j][0] == SqlCell::Text(ts[j].name@) by {
        assert(0 < rows[j].len());
        assert(ts.map_values(|x: TableInfo| x.name@)[j] == ts[j].name@);
    }
    assert forall|i: int| 0 <= i < ts.len() implies #[trigger] ts[i].name@ == us[i].name@ by {
        assert(0 < rows[i].len());
        assert(ts.map_values(|x: TableInfo| x.name@)[i] == ts[i].name@);
        assert(us.map_values(|x: TableInfo| x.name@)[i] == us[i].name@);
    }
}

/// A column listing read from the rows of `PRAGMA table_info` has one
/// column per row, at the row's position, named by the text in the row's
/// second column and numbered by the integer in its first, and two listings
/// read from the same rows describe the same columns in the same order.
pub proof fn law_column_listing_has_every_row(rows: Seq<Seq<SqlCell>>, cs: Seq<ColumnInfo>, ds: Seq<ColumnInfo>)
    requires
        columns_of_rows(rows, cs),
        columns_of_rows(rows, ds),
    ensures
        cs.len() == rows.len(),
        forall|j: int|
            0 <= j < rows.len() ==> #[trigger] rows[j][1] == SqlCell::Text(cs[j].name@) && rows[j][0]
                == SqlCell::Integer(cs[j].cid as i64),
        forall|i: int|
            0 <= i < cs.len() ==> {
                &&& #[trigger] cs[i].cid == ds[i].cid
                &&& cs[i].name@ == ds[i].name@
                &&& cs[i].col_type@ == ds[i].col_type@
                &&& cs[i].notnull == ds[i].notnull
                &&& cs[i].pk == ds[i].pk
            },
{
    assert forall|j: int| 0 <= j < rows.len() implies #[trigger] rows[j][1] == SqlCell::Text(cs[j].name@) && rows[j][0]
        == SqlCell::Integer(cs[j].cid as i64) by {
        assert(cells_describe_column(rows[j], cs[j]));
    }
    assert forall|i: int| 0 <= i < cs.len() implies {
        &&& #[trigger] cs[i].cid == ds[i].cid
        &&& cs[i].name@ == ds[i].name@
        &&& cs[i].col_type@ == ds[i].col_type@
        &&& cs[i].notnull == ds[i].notnull
        &&& cs[i].pk == ds[i].pk
    } by {
        assert(cells_describe_column(rows[i], cs[i]));
        assert(cells_describe_column(rows[i], ds[i]));
    }
}

/// The statements that create and drop a table name it exactly as given
/// (same letters, same case), between the double quotes.
pub proof fn law_table_statements_keep_name(name: Seq<char>)
    ensures
        create_table_sql(name).subrange(14, 14 + name.len() as int) == name,
        drop_table_sql(name).subrange(22, 22 + name.len() as int) == name,
{
    reveal_strlit("CREATE TABLE \"");
    reveal_strlit("DROP TABLE IF EXISTS \"");
    assert(create_table_sql(name).subrange(14, 14 + name.len() as int) =~= name);
    assert(drop_table_sql(name).subrange(22, 22 + name.len() as int) =~= name);
}

/// The statement that adds a column ends with the column's type: after the
/// quoted column name come one space and the type, and nothing else (no
/// default, no constraint).
pub proof fn law_add_column_statement_ends_with_type(table: Seq<char>, column: Seq<char>, col_type: Seq<char>)
    ensures
        ({
            let s = add_column_sql(table, column, col_type);
            &&& s.subrange(s.len() - col_type.len(), s.len() as int) == col_type
            &&& s[s.len() - col_type.len() - 1] == ' '
            &&& s[s.len() - col_type.len() - 2] == '"'
        }),
{
    reveal_strlit("\" ");
    let s = add_column_sql(table, column, col_type);
    let head = "ALTER TABLE \""@ + table + "\" ADD COLUMN \""@ + column;
    assert(s =~= head + "\" "@ + col_type);
    assert(s.subrange(s.len() - col_type.len(), s.len() as int) =~= col_type);
}

} // verus!
