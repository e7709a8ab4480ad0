[package]
name = "test_db"
version = "0.1.0"
edition = "2021"
publish = false

[dependencies]
anyhow = "1"
futures = "0.3"
sqlx = { version = "0.8", default-features = false, features = ["postgres", "runtime-async-std", "migrate"] }
uuid = { version = "1", features = ["v4"] }
