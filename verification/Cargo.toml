[package]
name = "observatory"
version = "0.1.0"
edition = "2021"
publish = false

[dependencies]
askama = "0.12"
chrono = "=0.4.45"
diesel = { version = "2", features = ["sqlite", "chrono"] }
diesel_migrations = "2"
pbkdf2 = "=0.12.2"
rand = "=0.8.8"
rocket = "0.5"
rocket_sync_db_pools = { version = "0.1", features = ["diesel_sqlite_pool"] }
rust-embed = "8"
serde = { version = "1", features = ["derive"] }
serde_derive = "1"
sha2 = "=0.10.9"
