[package]
name = "sea-orm"
version = "0.1.0"
edition = "2021"
publish = false

[dependencies]
futures = "0.3"
sea-query = { version = "=0.20.0", features = ["sqlx-postgres", "thread-safe"] }
sqlx = { version = "0.7", default-features = false, features = ["postgres", "runtime-tokio"] }
