[package]
name = "autograph"
version = "0.1.0"
edition = "2021"
publish = false

[dependencies]
chrono = { version = "=0.4.45", features = ["serde"] }
time = { version = "=0.3.55", features = ["parsing", "formatting", "serde"] }
uuid = { version = "=1.29.0", features = ["v4", "serde"] }
serde = { version = "=1.0.229", features = ["derive"] }
serde_json = "=1.0.154"
sea-orm = { version = "=1.1.20", default-features = false, features = ["sqlx-sqlite", "runtime-tokio", "with-chrono", "with-uuid", "with-json", "with-time"] }
sea-orm-migration = { version = "=1.1.20", default-features = false, features = ["sqlx-sqlite"] }
async-trait = "0.1"
sqlx = { version = "=0.8.6", default-features = false, features = ["sqlite", "runtime-tokio", "chrono", "uuid"] }
tokio = { version = "=1.54.1", features = ["rt", "macros"] }
