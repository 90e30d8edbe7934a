[package]
name = "sqlite_editor"
version = "0.1.0"
edition = "2021"
publish = false

[dependencies]
regex = "=1.13.1"
rusqlite = { version = "=0.31.0", features = ["bundled"] }
base64 = "=0.22.1"
jsonwebtoken = "=9.3.1"
chrono = "=0.4.45"
rsa = "=0.9.10"
rand = "=0.8.8"
serde = { version = "=1.0.229", features = ["derive"] }
actix-web = { version = "=4.18.1", default-features = false, features = ["macros"] }
actix-files = "=0.6.10"
tera = { version = "=1.20.1", default-features = false }
env_logger = "=0.11.11"
log = "=0.4.35"

[dev-dependencies]
serde_json = "=1.0.154"
tempfile = "=3.27.0"
