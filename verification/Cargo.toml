[package]
name = "a2a_core"
version = "0.1.0"
edition = "2021"
publish = false

[dependencies]
uuid = { version = "=1.29.0", features = ["v4"] }
chrono = "=0.4.45"
serde = { version = "=1.0.229", features = ["derive"] }
serde_json = "=1.0.154"
tokio = { version = "=1.54.1", features = ["sync", "rt", "rt-multi-thread", "macros", "net", "fs"] }
axum = "=0.8.9"
tower-http = { version = "=0.7.1", features = ["cors"] }
anyhow = "=1.0.104"
toml = "=1.1.8"
tracing = "=0.1.44"
async-trait = "=0.1.92"
sqlx = { version = "*", default-features = false, features = ["sqlite", "runtime-tokio"] }
qmd = "*"
