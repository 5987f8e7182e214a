[package]
name = "dbcore"
version = "0.1.0"
edition = "2021"
publish = false

[dependencies]
sqlx = { version = "=0.9.0", default-features = false, features = ["mysql", "postgres", "sqlite", "runtime-tokio", "chrono", "json"] }
mongodb = "=2.8.2"
bson = "=2.15.0"
chrono = "=0.4.45"
tokio = { version = "=1.53.2", features = ["rt-multi-thread", "macros"] }
reqwest = { version = "=0.13.5", default-features = false, features = ["json"] }
serde = { version = "=1.0.229", features = ["derive"] }
serde_json = "=1.0.151"
anyhow = "=1.0.104"
thiserror = "=1.0.69"
