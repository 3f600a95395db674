[package]
name = "waitlist"
version = "0.1.0"
edition = "2021"
publish = false

[dependencies]
rocket = "0.5"
rocket_sync_db_pools = { version = "0.1", features = ["diesel_sqlite_pool"] }
rocket_dyn_templates = { version = "0.2", features = ["tera"] }
diesel = { version = "2", features = ["sqlite"] }
libsqlite3-sys = { version = "*", features = ["bundled"] }
