[package]
name = "crud_rust"
version = "0.1.0"
edition = "2021"
publish = false

[dependencies]
uuid = { version = "*", features = ["v4"] }
axum = "*"
tokio = { version = "*", features = ["full"] }
serde = { version = "*", features = ["derive"] }
serde_json = "*"
hyper = "*"
tracing = "*"
tracing-subscriber = "*"
async-trait = "*"
sqlx = { version = "*", features = ["postgres", "runtime-tokio"], default-features = false }
