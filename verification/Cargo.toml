[package]
name = "minidialog"
version = "0.1.0"
edition = "2021"
publish = false

[dependencies]
bincode = "1.3"
itertools = "*"
serde = { version = "1", features = ["derive"] }
serde_json = "1"
sqlx = { version = "0.8", default-features = false, features = ["sqlite", "runtime-tokio", "derive"] }
strum = "*"
strum_macros = "*"
tokio = { version = "1", features = ["rt-multi-thread", "macros"] }
uuid = { version = "1", features = ["v4"] }
