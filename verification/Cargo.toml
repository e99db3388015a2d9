[package]
name = "batch_archive"
version = "0.1.0"
edition = "2021"
publish = false

[dependencies]
chrono = "0.4"
config = "0.14"
sqlx = { version = "0.6", features = ["mssql", "runtime-tokio-rustls"] }
tokio = { version = "1", features = ["macros", "rt-multi-thread"] }
walkdir = "2"

[dev-dependencies]
regex = "1"
