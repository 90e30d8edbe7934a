//! The table and column handlers: the authorisation check on the
//! `Authorization` header, and the serving of an authorised request against
//! the database, up to the listing that is rendered or the reply that is sent.

use vstd::prelude::*;
use crate::auth::middleware::{bearer_token_of, AuthorizationHeader};
use crate::db::operations::{self, ColumnInfo, TableInfo};
use crate::db::sqlite::Database;
#[allow(unused_imports)]
use crate::db::sqlite::{is_sqlite_error_text, SqlCell, StatementLog};
use crate::routes::reply::{plain_reply, Reply};

verus! {

/// What the handlers' authorisation check makes of a header: the bearer
/// token, or the body of the 401 reply.
pub open spec fn route_auth_outcome(header: AuthorizationHeader) -> Result<Seq<char>, Seq<char>> {
    match header {
        AuthorizationHeader::Missing => Err("Missing Authorization header"@),
        AuthorizationHeader::NotText => Err("Invalid header"@),
        AuthorizationHeader::Text(s) => match crate::auth::middleware::bearer_token(s@) {
            Some(t) => Ok(t),
            None => Err("Invalid Authorization scheme"@),
        },
    }
}

/// Checks a handler's `Authorization` header: returns the bearer token to be
/// validated, or the 401 reply.
pub fn auth_check(header: &AuthorizationHeader) -> (r: Result<String, Reply>)
    ensures
        match (r, route_auth_outcome(*header)) {
            (Ok(t), Ok(s)) => t@ == s,
            (Err(reply), Err(body)) => crate::routes::reply::is_plain_reply(reply, 401, body),
            _ => false,
        },
{
    match header {
        AuthorizationHeader::Missing => Err(
            plain_reply(401, String::from_str("Missing Authorization header")),
        ),
        AuthorizationHeader::NotText => Err(plain_reply(401, String::from_str("Invalid header"))),
        AuthorizationHeader::Text(s) => match bearer_token_of(s.as_str()) {
            Some(t) => Ok(t),
            None => Err(plain_reply(401, String::from_str("Invalid Authorization scheme"))),
        },
    }
}

/// The 401 reply for a bearer token that did not validate, naming why.
pub fn token_rejected(detail: &str) -> (r: Reply)
    ensures
        crate::routes::reply::is_plain_reply(r, 401, "Invalid token: "@ + detail@),
{
    let mut body = String::from_str("Invalid token: ");
    body.append(detail);
    plain_reply(401, body)
}

/// Takes a required form field: its value, or the 400 reply with the
/// message `missing`.
pub fn required_field(value: Option<String>, missing: &str) -> (r: Result<String, Reply>)
    ensures
        value matches Some(v) ==> r == Ok::<String, Reply>(v),
        value is None ==> (r matches Err(reply) && crate::routes::reply::is_plain_reply(reply, 400, missing@)),
{
    match value {
        Some(v) => Ok(v),
        None => Err(plain_reply(400, String::from_str(missing))),
    }
}

/// A table or column request of the API, with what its path and form hold.
pub enum TableRoute {
    /// `GET /api/tables`
    ListTables,
    /// `POST /api/tables` with form field `table_name`
    CreateTable { table_name: Option<String> },
    /// `DELETE /api/tables/{table_name}`
    DeleteTable { table_name: String },
    /// `GET /api/tables/{table_name}/columns`
    ListColumns { table_name: String },
    /// `POST /api/tables/{table_name}/columns` with form fields `column_name`, `column_type`
    AddColumn { table_name: String, column_name: Option<String>, column_type: Option<String> },
    /// `DELETE /api/tables/{table_name}/columns/{column_name}`
    DeleteColumn { table_name: String, column_name: String },
}

/// What an authorised request comes to: a listing to render, or a reply.
pub enum Outcome {
    /// Render the table list with these tables.
    Tables(Vec<TableInfo>),
    /// Render the column list of this table with these columns.
    Columns(String, Vec<ColumnInfo>),
    /// Send this reply as it is.
    Finished(Reply),
}

/// `o` is the plain reply with `status` and `body`.
pub open spec fn finishes_with(o: Outcome, status: u16, body: Seq<char>) -> bool {
    o matches Outcome::Finished(reply) && crate::routes::reply::is_plain_reply(reply, status, body)
}

/// The outcome that sends the reply with `status`, no content type, and
/// `body`.
pub open spec fn finished_plain(status: u16, body: String) -> Outcome {
    Outcome::Finished(Reply { status, content_type: None, body })
}

/// `o` is a table list, or a 500 reply (the database could not be read).
pub open spec fn lists_tables(o: Outcome) -> bool {
    ||| o is Tables
    ||| (o matches Outcome::Finished(reply) && reply.status == 500 && reply.content_type is None)
}

/// `o` is the column list of `table`, or a 400 reply (it could not be read).
pub open spec fn lists_columns(o: Outcome, table: Seq<char>) -> bool {
    ||| (o matches Outcome::Columns(name, _) && name@ == table)
    ||| (o matches Outcome::Finished(reply) && reply.status == 400 && reply.content_type is None)
}

/// `o` is a reply with `status` whose body is the text of a SQLite error.
pub open spec fn finishes_with_sqlite_error(o: Outcome, status: u16) -> bool {
    &&& o matches Outcome::Finished(reply)
    &&& reply.status == status
    &&& reply.content_type is None
    &&& is_sqlite_error_text(reply.body)
}

/// The tables were listed: the listing query was sent, and `o` is the table
/// list, named by the `rows` the query yielded, or, where the query failed,
/// the 500 reply with SQLite's message.
pub open spec fn tables_listed(before: StatementLog, after: StatementLog, rows: Seq<Seq<SqlCell>>, o: Outcome) -> bool {
    &&& after == before.push((operations::list_tables_sql(), o is Tables))
    &&& lists_tables(o)
    &&& (o matches Outcome::Tables(ts) ==> operations::tables_of_rows(rows, ts@))
    &&& (o is Finished ==> finishes_with_sqlite_error(o, 500))
}

/// The columns of `table` were listed: for a valid name, its `PRAGMA
/// table_info` query was sent, and `o` is the column list that the `rows`
/// the query yielded describe, or, where the query failed, the 400 reply
/// with SQLite's message; for an invalid name, nothing was sent and `o` is
/// the 400 reply saying why.
pub open spec fn columns_listed(
    before: StatementLog,
    after: StatementLog,
    rows: Seq<Seq<SqlCell>>,
    table: Seq<char>,
    o: Outcome,
) -> bool {
    &&& lists_columns(o, table)
    &&& (o matches Outcome::Columns(_, cs) ==> operations::columns_of_rows(rows, cs@))
    &&& if operations::is_valid_identifier(table) {
        &&& after == before.push((operations::table_info_sql(table), o is Columns))
        &&& (o is Finished ==> finishes_with_sqlite_error(o, 400))
    } else {
        &&& after == before
        &&& finishes_with(o, 400, operations::identifier_error(table))
    }
}

/// The change `sql` was sent: if SQLite refused it, `o` is the 400 reply
/// with SQLite's message and nothing more was sent; else `listed` holds of
/// what followed.
pub open spec fn changed_then(
    before: StatementLog,
    after: StatementLog,
    sql: Seq<char>,
    o: Outcome,
    listed: spec_fn(StatementLog, StatementLog, Outcome) -> bool,
) -> bool {
    ||| (after == before.push((sql, false)) && finishes_with_sqlite_error(o, 400))
    ||| listed(before.push((sql, true)), after, o)
}

/// The outcome of listing the tables: the list that was read, or the 500
/// reply with the text of the error.
pub fn tables_outcome(listed: Result<Vec<TableInfo>, rusqlite::Error>) -> (r: Outcome)
    ensures
        listed matches Ok(ts) ==> r == Outcome::Tables(ts),
        listed matches Err(e) ==> (r matches Outcome::Finished(reply) && reply.status == 500
            && reply.content_type is None
            && vstd::string::to_string_from_display_ensures::<rusqlite::Error>(&e, reply.body)),
        listed is Err ==> finishes_with_sqlite_error(r, 500),
{
    match listed {
        Ok(tables) => Outcome::Tables(tables),
        Err(e) => Outcome::Finished(plain_reply(500, e.to_string())),
    }
}

/// The outcome of listing the columns of `table_name`: the columns that
/// were read, or the 400 reply with the reason they could not be.
pub fn columns_outcome(table_name: String, listed: Result<Vec<ColumnInfo>, String>) -> (r: Outcome)
    ensures
        listed matches Ok(cs) ==> r == Outcome::Columns(table_name, cs),
        listed matches Err(e) ==> r == finished_plain(400, e),
{
    match listed {
        Ok(columns) => Outcome::Columns(table_name, columns),
        Err(e) => Outcome::Finished(plain_reply(400, e)),
    }
}

/// Lists the tables.
pub fn table_listing(db: &mut Database) -> (r: Outcome)
    ensures
        tables_listed(old(db).log(), final(db).log(), final(db).last_rows(), r),
{
    tables_outcome(operations::list_tables(db))
}

/// Lists the columns of `table_name`.
pub fn column_listing(db: &mut Database, table_name: String) -> (r: Outcome)
    ensures
        columns_listed(old(db).log(), final(db).log(), final(db).last_rows(), table_name@, r),
{
    let listed = operations::list_columns(db, table_name.as_str());
    columns_outcome(table_name, listed)
}

/// Answers a change to the tables: a refused change is answered 400 with
/// its reason and nothing more is sent; a change made is answered with the
/// table list.
pub fn after_table_change(db: &mut Database, changed: Result<(), String>) -> (r: Outcome)
    ensures
        changed matches Err(e) ==> r == finished_plain(400, e) && final(db).log() == old(db).log(),
        changed is Ok ==> tables_listed(old(db).log(), final(db).log(), final(db).last_rows(), r),
{
    match changed {
        Ok(()) => table_listing(db),
        Err(e) => Outcome::Finished(plain_reply(400, e)),
    }
}

/// Answers a change to the columns of `table_name`: a refused change is
/// answered 400 with its reason and nothing more is sent; a change made is
/// answered with the column list of the table.
pub fn after_column_change(db: &mut Database, table_name: String, changed: Result<(), String>) -> (r: Outcome)
    ensures
        changed matches Err(e) ==> r == finished_plain(400, e) && final(db).log() == old(db).log(),
        changed is Ok ==> columns_listed(old(db).log(), final(db).log(), final(db).last_rows(), table_name@, r),
{
    match changed {
        Ok(()) => column_listing(db, table_name),
        Err(e) => Outcome::Finished(plain_reply(400, e)),
    }
}

/// What serving `route` comes to: the reply `r`, with the record of the
/// database going from `before` to `after`. A refused input sends nothing;
/// a change refused by SQLite is answered 400 with its message and nothing
/// is listed after it; a change made is answered with the listing.
pub open spec fn serves(
    route: TableRoute,
    before: StatementLog,
    after: StatementLog,
    rows: Seq<Seq<SqlCell>>,
    r: Outcome,
) -> bool {
    match route {
        TableRoute::ListTables => tables_listed(before, after, rows, r),
        TableRoute::CreateTable { table_name: None } => finishes_with(r, 400, "Missing table_name"@)
            && after == before,
        TableRoute::CreateTable { table_name: Some(t) } => if operations::is_valid_identifier(t@) {
            changed_then(before, after, operations::create_table_sql(t@), r,
                |b: StatementLog, a: StatementLog, o: Outcome| tables_listed(b, a, rows, o))
        } else {
            finishes_with(r, 400, operations::identifier_error(t@)) && after == before
        },
        TableRoute::DeleteTable { table_name: t } => if operations::is_valid_identifier(t@) {
            changed_then(before, after, operations::drop_table_sql(t@), r,
                |b: StatementLog, a: StatementLog, o: Outcome| tables_listed(b, a, rows, o))
        } else {
            finishes_with(r, 400, operations::identifier_error(t@)) && after == before
        },
        TableRoute::ListColumns { table_name: t } => columns_listed(before, after, rows, t@, r),
        TableRoute::AddColumn { table_name: t, column_name: c, column_type: ty } => match (c, ty) {
            (None, _) => finishes_with(r, 400, "Missing column_name"@) && after == before,
            (Some(_), None) => finishes_with(r, 400, "Missing column_type"@) && after == before,
            (Some(c), Some(ty)) => if !operations::is_valid_identifier(t@) {
                finishes_with(r, 400, operations::identifier_error(t@)) && after == before
            } else if !operations::is_valid_identifier(c@) {
                finishes_with(r, 400, operations::identifier_error(c@)) && after == before
            } else if !operations::is_allowed_column_type(crate::text::unicode_uppercase(ty@)) {
                finishes_with(r, 400, operations::column_type_error(ty@)) && after == before
            } else {
                changed_then(before, after,
                    operations::add_column_sql(t@, c@, crate::text::unicode_uppercase(ty@)), r,
                    |b: StatementLog, a: StatementLog, o: Outcome| columns_listed(b, a, rows, t@, o))
            },
        },
        TableRoute::DeleteColumn { table_name: t, column_name: c } => if !operations::is_valid_identifier(t@) {
            finishes_with(r, 400, operations::identifier_error(t@)) && after == before
        } else if !operations::is_valid_identifier(c@) {
            finishes_with(r, 400, operations::identifier_error(c@)) && after == before
        } else {
            changed_then(before, after, operations::drop_column_sql(t@, c@), r,
                |b: StatementLog, a: StatementLog, o: Outcome| columns_listed(b, a, rows, t@, o))
        },
    }
}

/// Serves a request whose token has been validated: checks its form fields,
/// makes its change to the schema, and lists the tables or the columns of
/// the table. A change refused for its input, or by SQLite, is answered 400
/// with its reason, and nothing is listed after it.
pub fn serve_authorized(db: &mut Database, route: TableRoute) -> (r: Outcome)
    ensures
        serves(route, old(db).log(), final(db).log(), final(db).last_rows(), r),
{
    match route {
        TableRoute::ListTables => table_listing(db),
        TableRoute::CreateTable { table_name } => {
            let table_name = match required_field(table_name, "Missing table_name") {
                Ok(n) => n,
                Err(reply) => return Outcome::Finished(reply),
            };
            let changed = operations::create_table(db, table_name.as_str());
            after_table_change(db, changed)
        },
        TableRoute::DeleteTable { table_name } => {
            let changed = operations::drop_table(db, table_name.as_str());
            after_table_change(db, changed)
        },
        TableRoute::ListColumns { table_name } => column_listing(db, table_name),
        TableRoute::AddColumn { table_name, column_name, column_type } => {
            let column_name = match required_field(column_name, "Missing column_name") {
                Ok(n) => n,
                Err(reply) => return Outcome::Finished(reply),
            };
            let column_type = match required_field(column_type, "Missing column_type") {
                Ok(t) => t,
                Err(reply) => return Outcome::Finished(reply),
            };
            let changed = operations::add_column(db, table_name.as_str(), column_name.as_str(), column_type.as_str());
            after_column_change(db, table_name, changed)
        },
        TableRoute::DeleteColumn { table_name, column_name } => {
            let changed = operations::drop_column(db, table_name.as_str(), column_name.as_str());
            after_column_change(db, table_name, changed)
        },
    }
}

/// The message of the 400 reply for a request whose form lacks a required
/// field, if it does.
pub open spec fn missing_field(route: TableRoute) -> Option<Seq<char>> {
    match route {
        TableRoute::CreateTable { table_name: None } => Some("Missing table_name"@),
        TableRoute::AddColumn { column_name: None, .. } => Some("Missing column_name"@),
        TableRoute::AddColumn { column_name: Some(_), column_type: None, .. } => Some("Missing column_type"@),
        _ => None,
    }
}

/// What admitting `route` comes to once its bearer token is known to be
/// `token`: if `validate` could reject it with some message, the 401 reply
/// naming that message; if it could accept it, the 400 reply for a missing
/// field, or else the request itself.
pub open spec fn admitted_after_token<F: Fn(String) -> Result<(), String>>(
    validate: F,
    token: Seq<char>,
    route: TableRoute,
    r: Result<TableRoute, Outcome>,
) -> bool {
    ||| exists|t: String, d: String|
        #![trigger validate.ensures((t,), Err::<(), String>(d))]
        t@ == token && validate.ensures((t,), Err::<(), String>(d)) && (r matches Err(o) && finishes_with(
            o,
            401,
            "Invalid token: "@ + d@,
        ))
    ||| exists|t: String|
        #![trigger validate.ensures((t,), Ok::<(), String>(()))]
        t@ == token && validate.ensures((t,), Ok::<(), String>(())) && match missing_field(route) {
            Some(m) => r matches Err(o) && finishes_with(o, 400, m),
            None => r == Ok::<TableRoute, Outcome>(route),
        }
}

/// The 400 reply for a request whose form lacks a required field, if it does.
fn check_fields(route: &TableRoute) -> (r: Option<Outcome>)
    ensures
        match missing_field(*route) {
            Some(m) => r matches Some(o) && finishes_with(o, 400, m),
            None => r is None,
        },
{
    match route {
        TableRoute::CreateTable { table_name: None } => Some(
            Outcome::Finished(plain_reply(400, String::from_str("Missing table_name"))),
        ),
        TableRoute::AddColumn { column_name: None, .. } => Some(
            Outcome::Finished(plain_reply(400, String::from_str("Missing column_name"))),
        ),
        TableRoute::AddColumn { column_name: Some(_), column_type: None, .. } => Some(
            Outcome::Finished(plain_reply(400, String::from_str("Missing column_type"))),
        ),
        _ => None,
    }
}

/// Admits a table or column request before the database is touched: checks
/// its `Authorization` header, has `validate` check the bearer token, then
/// checks its form fields. Gives the request back, or the 401 or 400 reply.
pub fn admit_request<F: Fn(String) -> Result<(), String>>(
    header: &AuthorizationHeader,
    validate: F,
    route: TableRoute,
) -> (r: Result<TableRoute, Outcome>)
    requires
        forall|t: String| validate.requires((t,)),
    ensures
        match route_auth_outcome(*header) {
            Err(body) => r matches Err(o) && finishes_with(o, 401, body),
            Ok(token) => admitted_after_token(validate, token, route, r),
        },
{
    let token = match auth_check(header) {
        Ok(t) => t,
        Err(reply) => return Err(Outcome::Finished(reply)),
    };
    let ghost t0 = token;
    let checked = validate(token);
    match checked {
        Ok(u) => {
            // The only value of `()` is `()`.
            assert(u == ());
            assert(validate.ensures((t0,), Ok::<(), String>(())));
            match check_fields(&route) {
                Some(o) => Err(o),
                None => Ok(route),
            }
        },
        Err(detail) => {
            let r = Outcome::Finished(token_rejected(detail.as_str()));
            assert(validate.ensures((t0,), Err::<(), String>(detail)));
            Err(r)
        },
    }
}

/// What a request comes to once its token is known to be `token`: if
/// `validate` could reject it with some message, the 401 reply naming that
/// message with nothing sent; if it could accept it, the request served.
pub open spec fn served_after_token<F: Fn(String) -> Result<(), String>>(
    validate: F,
    token: Seq<char>,
    route: TableRoute,
    before: StatementLog,
    after: StatementLog,
    rows: Seq<Seq<SqlCell>>,
    r: Outcome,
) -> bool {
    ||| exists|t: String, d: String|
        #![trigger validate.ensures((t,), Err::<(), String>(d))]
        t@ == token && validate.ensures((t,), Err::<(), String>(d)) && finishes_with(r, 401, "Invalid token: "@ + d@)
            && after == before
    ||| exists|t: String|
        #![trigger validate.ensures((t,), Ok::<(), String>(()))]
        t@ == token && validate.ensures((t,), Ok::<(), String>(())) && serves(route, before, after, rows, r)
}

/// Serves a table or column request: admits it (header, token, form
/// fields), and only then touches the database. A request that fails the
/// header or token check is answered 401 and sends nothing.
pub fn serve_request<F: Fn(String) -> Result<(), String>>(
    db: &mut Database,
    header: &AuthorizationHeader,
    validate: F,
    route: TableRoute,
) -> (r: Outcome)
    requires
        forall|t: String| validate.requires((t,)),
    ensures
        match route_auth_outcome(*header) {
            Err(body) => finishes_with(r, 401, body) && final(db).log() == old(db).log(),
            Ok(token) => served_after_token(
                validate,
                token,
                route,
                old(db).log(),
                final(db).log(),
                final(db).last_rows(),
                r,
            ),
        },
{
    match admit_request(header, validate, route) {
        Err(o) => o,
        Ok(admitted) => serve_authorized(db, admitted),
    }
}

} // verus!
