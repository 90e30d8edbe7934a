pub mod operations;
pub mod pattern;
pub mod sqlite;
pub mod connection;
