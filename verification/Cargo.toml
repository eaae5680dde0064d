[package]
name = "relay_engine"
version = "0.1.0"
edition = "2021"
publish = false

[dependencies]
prost = "=0.13.5"
tendermint-proto = "=0.40.4"
tokio = { version = "*", features = ["rt", "sync", "time", "macros"] }
serde = { version = "*", features = ["derive"] }
serde_json = "*"
sqlx = { version = "*", default-features = false, features = ["runtime-tokio", "postgres"] }
tracing = "*"
