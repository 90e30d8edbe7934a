//! Verified core of a small web-based SQLite schema editor: identifier
//! validation, the SQL text that schema changes send to SQLite, bearer-token
//! extraction, token claims, and the replies that the HTTP handlers give.

pub mod auth;
pub mod db;
pub mod routes;
pub mod text;
