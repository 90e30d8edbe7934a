use rusqlite::Connection;
use sqlite_editor::db::sqlite::Database;
use sqlite_editor::db::operations::{
    add_column, add_column_statement, checked_column_type, create_table, create_table_statement,
    drop_column, drop_column_statement, drop_table, drop_table_statement, list_columns, list_tables,
    list_tables_statement, table_info_statement, validate_identifier,
};

fn setup_db() -> Database {
    let conn = Connection::open_in_memory().unwrap();
    conn.execute_batch("PRAGMA journal_mode=WAL;").unwrap();
    Database::new(conn)
}

#[test]
fn test_validate_identifier_valid() {
    assert!(validate_identifier("users").is_ok());
    assert!(validate_identifier("_private").is_ok());
    assert!(validate_identifier("Table123").is_ok());
}

#[test]
fn test_validate_identifier_invalid() {
    assert!(validate_identifier("123abc").is_err());
    assert!(validate_identifier("user-name").is_err());
    assert!(validate_identifier("DROP TABLE;").is_err());
    assert!(validate_identifier("").is_err());
    assert!(validate_identifier("a b").is_err());
}

#[test]
fn test_create_and_list_tables() {
    let mut db = setup_db();
    create_table(&mut db, "users").unwrap();
    create_table(&mut db, "posts").unwrap();
    let tables = list_tables(&mut db).unwrap();
    assert_eq!(tables.len(), 2);
    assert_eq!(tables[0].name, "posts");
    assert_eq!(tables[1].name, "users");
}

#[test]
fn test_drop_table() {
    let mut db = setup_db();
    create_table(&mut db, "temp_table").unwrap();
    assert_eq!(list_tables(&mut db).unwrap().len(), 1);
    drop_table(&mut db, "temp_table").unwrap();
    assert_eq!(list_tables(&mut db).unwrap().len(), 0);
}

#[test]
fn test_add_and_list_columns() {
    let mut db = setup_db();
    create_table(&mut db, "users").unwrap();
    add_column(&mut db, "users", "name", "TEXT").unwrap();
    add_column(&mut db, "users", "age", "INTEGER").unwrap();
    let cols = list_columns(&mut db, "users").unwrap();
    assert_eq!(cols.len(), 3);
    assert_eq!(cols[0].name, "id");
    assert_eq!(cols[1].name, "name");
    assert_eq!(cols[1].col_type, "TEXT");
    assert_eq!(cols[2].name, "age");
}

#[test]
fn test_drop_column() {
    let mut db = setup_db();
    create_table(&mut db, "users").unwrap();
    add_column(&mut db, "users", "name", "TEXT").unwrap();
    add_column(&mut db, "users", "temp_col", "TEXT").unwrap();
    drop_column(&mut db, "users", "temp_col").unwrap();
    let cols = list_columns(&mut db, "users").unwrap();
    assert_eq!(cols.len(), 2);
}

#[test]
fn test_add_column_invalid_type() {
    let mut db = setup_db();
    create_table(&mut db, "users").unwrap();
    let result = add_column(&mut db, "users", "name", "VARCHAR(255)");
    assert!(result.is_err());
}

#[test]
fn test_sql_injection_prevented() {
    let mut db = setup_db();
    let result = create_table(&mut db, "users; DROP TABLE users;--");
    assert!(result.is_err());
}

#[test]
fn identifier_error_messages() {
    assert_eq!(
        validate_identifier("9lives").unwrap_err(),
        "Invalid identifier '9lives': must match ^[a-zA-Z_][a-zA-Z0-9_]*$"
    );
    assert_eq!(validate_identifier("sqlite_master").unwrap_err(), "'sqlite_master' is a reserved name");
    assert_eq!(validate_identifier("SQLite_Sequence").unwrap_err(), "'SQLite_Sequence' is a reserved name");
    assert_eq!(validate_identifier("SQLITE_TEMP_MASTER").unwrap_err(), "'SQLITE_TEMP_MASTER' is a reserved name");
    assert!(validate_identifier("sqlite_masters").is_ok());
}

#[test]
fn identifier_anchors_and_ascii_only() {
    assert!(validate_identifier("abc\n").is_err());
    assert!(validate_identifier("\nabc").is_err());
    assert!(validate_identifier("café").is_err());
    assert!(validate_identifier("a\"b").is_err());
    assert!(validate_identifier("_").is_ok());
    assert!(validate_identifier("Z9_z").is_ok());
}

#[test]
fn validity_ignores_ascii_case() {
    for (a, b) in [("users", "USERS"), ("sqlite_master", "SQLITE_MASTER"), ("Ab_1", "aB_1"), ("1ab", "1AB")] {
        assert_eq!(validate_identifier(a).is_ok(), validate_identifier(b).is_ok());
    }
}

#[test]
fn statement_texts() {
    assert_eq!(create_table_statement("t").as_str(), "CREATE TABLE \"t\" (id INTEGER PRIMARY KEY AUTOINCREMENT)");
    assert_eq!(drop_table_statement("t").as_str(), "DROP TABLE IF EXISTS \"t\"");
    assert_eq!(add_column_statement("t", "c", "REAL").as_str(), "ALTER TABLE \"t\" ADD COLUMN \"c\" REAL");
    assert_eq!(drop_column_statement("t", "c").as_str(), "ALTER TABLE \"t\" DROP COLUMN \"c\"");
    assert_eq!(table_info_statement("t").as_str(), "PRAGMA table_info(\"t\")");
    assert_eq!(
        list_tables_statement(),
        "SELECT name FROM sqlite_master WHERE type='table' AND name NOT LIKE 'sqlite_%' ORDER BY name"
    );
}

#[test]
fn column_type_is_upper_cased() {
    assert_eq!(checked_column_type("text").unwrap(), "TEXT");
    assert_eq!(checked_column_type("Numeric").unwrap(), "NUMERIC");
    assert_eq!(
        checked_column_type("varchar").unwrap_err(),
        "Invalid column type 'varchar': must be one of [\"TEXT\", \"INTEGER\", \"REAL\", \"BLOB\", \"NUMERIC\"]"
    );
    let mut db = setup_db();
    create_table(&mut db, "t").unwrap();
    add_column(&mut db, "t", "b", "blob").unwrap();
    let cols = list_columns(&mut db, "t").unwrap();
    assert_eq!(cols[1].col_type, "BLOB");
}

#[test]
fn add_column_reports_first_failing_check() {
    let mut db = setup_db();
    create_table(&mut db, "t").unwrap();
    assert_eq!(
        add_column(&mut db, "bad name", "also bad", "nope").unwrap_err(),
        "Invalid identifier 'bad name': must match ^[a-zA-Z_][a-zA-Z0-9_]*$"
    );
    assert_eq!(
        add_column(&mut db, "t", "also bad", "nope").unwrap_err(),
        "Invalid identifier 'also bad': must match ^[a-zA-Z_][a-zA-Z0-9_]*$"
    );
    assert!(add_column(&mut db, "t", "c", "nope").unwrap_err().starts_with("Invalid column type 'nope'"));
    assert_eq!(
        drop_column(&mut db, "t", "sqlite_sequence").unwrap_err(),
        "'sqlite_sequence' is a reserved name"
    );
}

#[test]
fn column_flags_and_defaults() {
    let conn = Connection::open_in_memory().unwrap();
    conn.execute_batch("CREATE TABLE k (a TEXT NOT NULL DEFAULT 'x', b INTEGER)").unwrap();
    let mut db = Database::new(conn);
    let cols = list_columns(&mut db, "k").unwrap();
    assert_eq!(cols.len(), 2);
    assert_eq!(cols[0].cid, 0);
    assert!(cols[0].notnull);
    assert_eq!(cols[0].default_value.as_deref(), Some("'x'"));
    assert!(!cols[0].pk);
    assert!(!cols[1].notnull);
    assert_eq!(cols[1].default_value, None);
    let id_cols = {
        create_table(&mut db, "p").unwrap();
        list_columns(&mut db, "p").unwrap()
    };
    assert!(id_cols[0].pk);
    assert_eq!(id_cols[0].col_type, "INTEGER");
}

#[test]
fn database_errors_are_reported_as_text() {
    let mut db = setup_db();
    create_table(&mut db, "t").unwrap();
    let e = create_table(&mut db, "t").unwrap_err();
    assert!(e.contains("already exists"));
    assert!(drop_table(&mut db, "missing").is_ok());
    assert!(drop_column(&mut db, "t", "nothing").is_err());
    assert_eq!(list_columns(&mut db, "missing").unwrap().len(), 0);
    assert!(list_tables(&mut db).unwrap().iter().all(|t| !t.name.starts_with("sqlite_")));
}

#[test]
fn statements_quote_identifiers() {
    let check = |s: &str, start: usize, len: usize| {
        let chars: Vec<char> = s.chars().collect();
        assert_eq!(chars[start - 1], '"');
        assert_eq!(chars[start + len], '"');
        assert!(chars[start..start + len].iter().all(|c| *c != '"'));
    };
    check(&create_table_statement("users"), 14, 5);
    check(&drop_table_statement("users"), 22, 5);
    check(&table_info_statement("users"), 19, 5);
    let add = add_column_statement("users", "age", "INTEGER");
    check(&add, 13, 5);
    check(&add, 13 + 5 + 14, 3);
    let drop = drop_column_statement("users", "age");
    check(&drop, 13, 5);
    check(&drop, 13 + 5 + 15, 3);
}
