use sqlite_editor::auth::middleware::AuthorizationHeader;
use sqlite_editor::routes::pages::index;
use sqlite_editor::routes::reply::rendered_page_reply;
use sqlite_editor::routes::tables::{
    admit_request, after_column_change, after_table_change, auth_check, columns_outcome, required_field, serve_authorized,
    serve_request, tables_outcome, token_rejected, Outcome, TableRoute,
};
use sqlite_editor::db::operations::TableInfo;
use sqlite_editor::db::sqlite::Database;
use sqlite_editor::routes::well_known::{jwks, rsa_signing_jwk};

#[test]
fn handler_auth_check_replies() {
    let r = auth_check(&AuthorizationHeader::Missing).err().unwrap();
    assert_eq!((r.status, r.body.as_str()), (401, "Missing Authorization header"));
    let r = auth_check(&AuthorizationHeader::NotText).err().unwrap();
    assert_eq!((r.status, r.body.as_str()), (401, "Invalid header"));
    let r = auth_check(&AuthorizationHeader::Text("Token x".to_string())).err().unwrap();
    assert_eq!((r.status, r.body.as_str()), (401, "Invalid Authorization scheme"));
    let t = auth_check(&AuthorizationHeader::Text("Bearer a.b.c".to_string())).ok().unwrap();
    assert_eq!(t, "a.b.c");
    let r = token_rejected("InvalidIssuer");
    assert_eq!((r.status, r.body.as_str()), (401, "Invalid token: InvalidIssuer"));
}

#[test]
fn form_fields_and_pages() {
    assert_eq!(required_field(Some("users".to_string()), "Missing table_name").ok().unwrap(), "users");
    let r = required_field(None, "Missing column_type").err().unwrap();
    assert_eq!((r.status, r.body.as_str()), (400, "Missing column_type"));
    let ok = rendered_page_reply(Ok("<ul></ul>".to_string()));
    assert_eq!((ok.status, ok.content_type.as_deref(), ok.body.as_str()), (200, Some("text/html"), "<ul></ul>"));
    let bad = rendered_page_reply(Err("no template".to_string()));
    assert_eq!((bad.status, bad.content_type, bad.body.as_str()), (500, None, "Template error: no template"));
    let i = index();
    assert_eq!(i.status, 200);
    assert!(i.body.contains("window.location.href = '/dashboard'"));
}

#[test]
fn jwk_encodes_key_parts() {
    let k = rsa_signing_jwk(&[0xfb, 0xff, 0x01], &[0x01, 0x00, 0x01]);
    assert_eq!(k.kty, "RSA");
    assert_eq!(k.use_, "sig");
    assert_eq!(k.alg, "RS256");
    assert_eq!(k.e, "AQAB");
    assert_eq!(k.n, "-_8B");
    assert_eq!(k.kid, "sqlite-editor-key-1");
    assert_eq!(rsa_signing_jwk(&[0xff], &[]).n, "_w");
    let s = jwks(&[1, 2], &[3]);
    assert_eq!(s.keys.len(), 1);
    assert_eq!(s.keys[0].n, "AQI");
    assert_eq!(s.keys[0].e, "Aw");
}

fn mem_db() -> Database {
    Database::new(rusqlite::Connection::open_in_memory().unwrap())
}

fn finished(o: Outcome) -> (u16, String) {
    match o {
        Outcome::Finished(r) => (r.status, r.body),
        Outcome::Tables(_) => panic!("unexpected table list"),
        Outcome::Columns(..) => panic!("unexpected column list"),
    }
}

#[test]
fn serving_table_requests() {
    let mut db = mem_db();
    let o = serve_authorized(&mut db, TableRoute::CreateTable { table_name: None });
    assert_eq!(finished(o), (400, "Missing table_name".to_string()));
    let o = serve_authorized(&mut db, TableRoute::CreateTable { table_name: Some("a-b".to_string()) });
    assert_eq!(
        finished(o),
        (400, "Invalid identifier 'a-b': must match ^[a-zA-Z_][a-zA-Z0-9_]*$".to_string())
    );
    match serve_authorized(&mut db, TableRoute::CreateTable { table_name: Some("users".to_string()) }) {
        Outcome::Tables(t) => {
            assert_eq!(t.len(), 1);
            assert_eq!(t[0].name, "users");
        }
        _ => panic!("expected the table list"),
    }
    let o = serve_authorized(&mut db, TableRoute::CreateTable { table_name: Some("users".to_string()) });
    let (status, body) = finished(o);
    assert_eq!(status, 400);
    assert!(body.contains("already exists"));
    match serve_authorized(&mut db, TableRoute::ListTables) {
        Outcome::Tables(t) => assert_eq!(t.len(), 1),
        _ => panic!("expected the table list"),
    }
    match serve_authorized(&mut db, TableRoute::DeleteTable { table_name: "users".to_string() }) {
        Outcome::Tables(t) => assert!(t.is_empty()),
        _ => panic!("expected the table list"),
    }
}

#[test]
fn serving_column_requests() {
    let conn = rusqlite::Connection::open_in_memory().unwrap();
    conn.execute_batch("CREATE TABLE t (id INTEGER PRIMARY KEY)").unwrap();
    let mut db = Database::new(conn);
    let mut add = |c: Option<&str>, ty: Option<&str>| {
        serve_authorized(&mut db, TableRoute::AddColumn {
            table_name: "t".to_string(),
            column_name: c.map(str::to_string),
            column_type: ty.map(str::to_string),
        })
    };
    assert_eq!(finished(add(None, None)), (400, "Missing column_name".to_string()));
    assert_eq!(finished(add(Some("c"), None)), (400, "Missing column_type".to_string()));
    assert_eq!(
        finished(add(Some("c"), Some("date"))),
        (
            400,
            "Invalid column type 'date': must be one of [\"TEXT\", \"INTEGER\", \"REAL\", \"BLOB\", \"NUMERIC\"]"
                .to_string()
        )
    );
    match add(Some("c"), Some("real")) {
        Outcome::Columns(name, cols) => {
            assert_eq!(name, "t");
            assert_eq!(cols.len(), 2);
            assert_eq!(cols[1].col_type, "REAL");
        }
        _ => panic!("expected the column list"),
    }
    match serve_authorized(&mut db, TableRoute::ListColumns { table_name: "t".to_string() }) {
        Outcome::Columns(_, cols) => assert_eq!(cols.len(), 2),
        _ => panic!("expected the column list"),
    }
    let o = serve_authorized(&mut db, TableRoute::ListColumns { table_name: "sqlite_master".to_string() });
    assert_eq!(finished(o), (400, "'sqlite_master' is a reserved name".to_string()));
    match serve_authorized(&mut db, TableRoute::DeleteColumn { table_name: "t".to_string(), column_name: "c".to_string() }) {
        Outcome::Columns(_, cols) => assert_eq!(cols.len(), 1),
        _ => panic!("expected the column list"),
    }
    let o = serve_authorized(&mut db, TableRoute::DeleteColumn { table_name: "t".to_string(), column_name: "x y".to_string() });
    assert_eq!(
        finished(o),
        (400, "Invalid identifier 'x y': must match ^[a-zA-Z_][a-zA-Z0-9_]*$".to_string())
    );    let (status, body) =
        finished(serve_authorized(&mut db, TableRoute::DeleteColumn { table_name: "t".to_string(), column_name: "nothing".to_string() }));
    assert_eq!(status, 400);
    assert!(body.contains("nothing"));
    let (status, _) = finished(serve_authorized(&mut db, TableRoute::ListColumns { table_name: "x-y".to_string() }));
    assert_eq!(status, 400);
}

#[test]
fn requests_are_authorised_before_serving() {
    let mut db = mem_db();
    let validate = |t: String| if t == "good" { Ok(()) } else { Err("InvalidSignature".to_string()) };
    let create = || TableRoute::CreateTable { table_name: Some("users".to_string()) };
    let o = serve_request(&mut db, &AuthorizationHeader::Missing, validate, create());
    assert_eq!(finished(o), (401, "Missing Authorization header".to_string()));
    let o = serve_request(&mut db, &AuthorizationHeader::Text("Basic good".to_string()), validate, create());
    assert_eq!(finished(o), (401, "Invalid Authorization scheme".to_string()));
    let o = serve_request(&mut db, &AuthorizationHeader::Text("Bearer bad".to_string()), validate, create());
    assert_eq!(finished(o), (401, "Invalid token: InvalidSignature".to_string()));
    match serve_authorized(&mut db, TableRoute::ListTables) {
        Outcome::Tables(t) => assert!(t.is_empty()),
        _ => panic!("expected the table list"),
    }
    match serve_request(&mut db, &AuthorizationHeader::Text("Bearer good".to_string()), validate, create()) {
        Outcome::Tables(t) => assert_eq!(t[0].name, "users"),
        _ => panic!("expected the table list"),
    }
    let o = serve_request(&mut db, &AuthorizationHeader::NotText, validate, TableRoute::ListTables);
    assert_eq!(finished(o), (401, "Invalid header".to_string()));
}

#[test]
fn listing_and_change_outcomes() {
    match tables_outcome(Ok(vec![TableInfo { name: "a".to_string() }])) {
        Outcome::Tables(t) => assert_eq!(t[0].name, "a"),
        _ => panic!("expected the table list"),
    }
    let o = tables_outcome(Err(rusqlite::Error::QueryReturnedNoRows));
    assert_eq!(finished(o), (500, rusqlite::Error::QueryReturnedNoRows.to_string()));
    match columns_outcome("t".to_string(), Ok(vec![])) {
        Outcome::Columns(name, cols) => {
            assert_eq!(name, "t");
            assert!(cols.is_empty());
        }
        _ => panic!("expected the column list"),
    }
    assert_eq!(finished(columns_outcome("t".to_string(), Err("gone".to_string()))), (400, "gone".to_string()));
    let mut db = mem_db();
    let o = after_table_change(&mut db, Err("table \"a\" already exists".to_string()));
    assert_eq!(finished(o), (400, "table \"a\" already exists".to_string()));
    match after_table_change(&mut db, Ok(())) {
        Outcome::Tables(t) => assert!(t.is_empty()),
        _ => panic!("expected the table list"),
    }
    let o = after_column_change(&mut db, "t".to_string(), Err("no such column".to_string()));
    assert_eq!(finished(o), (400, "no such column".to_string()));
    let o = after_column_change(&mut db, "a b".to_string(), Ok(()));
    assert_eq!(
        finished(o),
        (400, "Invalid identifier 'a b': must match ^[a-zA-Z_][a-zA-Z0-9_]*$".to_string())
    );
}

#[test]
fn admission_checks_header_token_then_fields() {
    let validate = |t: String| if t == "good" { Ok(()) } else { Err("ExpiredSignature".to_string()) };
    let good = AuthorizationHeader::Text("Bearer good".to_string());
    let o = admit_request(&AuthorizationHeader::Missing, validate, TableRoute::CreateTable { table_name: None });
    assert_eq!(finished(o.err().unwrap()), (401, "Missing Authorization header".to_string()));
    let bad = AuthorizationHeader::Text("Bearer bad".to_string());
    let o = admit_request(&bad, validate, TableRoute::CreateTable { table_name: None });
    assert_eq!(finished(o.err().unwrap()), (401, "Invalid token: ExpiredSignature".to_string()));
    let o = admit_request(&good, validate, TableRoute::CreateTable { table_name: None });
    assert_eq!(finished(o.err().unwrap()), (400, "Missing table_name".to_string()));
    let add = |c: Option<&str>, ty: Option<&str>| TableRoute::AddColumn {
        table_name: "t".to_string(),
        column_name: c.map(str::to_string),
        column_type: ty.map(str::to_string),
    };
    let o = admit_request(&good, validate, add(None, Some("TEXT")));
    assert_eq!(finished(o.err().unwrap()), (400, "Missing column_name".to_string()));
    let o = admit_request(&good, validate, add(Some("c"), None));
    assert_eq!(finished(o.err().unwrap()), (400, "Missing column_type".to_string()));
    match admit_request(&good, validate, add(Some("c"), Some("TEXT"))) {
        Ok(TableRoute::AddColumn { table_name, column_name, column_type }) => {
            assert_eq!(table_name, "t");
            assert_eq!(column_name.as_deref(), Some("c"));
            assert_eq!(column_type.as_deref(), Some("TEXT"));
        }
        _ => panic!("expected the request back"),
    }
    assert!(matches!(admit_request(&good, validate, TableRoute::ListTables), Ok(TableRoute::ListTables)));
}
