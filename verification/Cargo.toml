[package]
name = "vpn_hub"
version = "0.1.0"
edition = "2021"
publish = false

[dependencies]
uuid = { version = "1", features = ["v4"] }
chrono = "0.4"
rand = "0.9"
validator = { version = "0.20", features = ["derive"] }
async-trait = "0.1"
serde = { version = "1", features = ["derive"] }
serde_json = "1"
tokio = { version = "1", features = ["rt-multi-thread", "macros", "sync", "time"] }
axum = { version = "0.8", features = ["ws"] }
futures-util = "0.3"
sqlx = { version = "0.8", default-features = false, features = ["postgres", "runtime-tokio", "chrono", "uuid", "macros"] }
tracing = "0.1"
parking_lot = "0.12"
utoipa = "5"
thiserror = "2"
