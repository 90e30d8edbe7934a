pub mod jwt;
pub mod middleware;
pub mod keys;
