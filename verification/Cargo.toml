[package]
name = "rust_bot"
version = "0.1.0"
edition = "2021"
publish = false

[dependencies]
anyhow = "1"
azalea = "*"
dotenv = "0.15"
sqlx = { version = "*", default-features = false, features = ["sqlite", "runtime-tokio"] }
tokio = { version = "1", default-features = false, features = ["macros", "rt-multi-thread", "time", "sync"] }
