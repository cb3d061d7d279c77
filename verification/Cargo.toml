[package]
name = "prussian_studio"
version = "0.1.0"
edition = "2021"
publish = false

[dependencies]
regex = "1"
crossbeam-channel = "0.5"
serde = { version = "1", features = ["derive"] }
serde_json = "1"
tokio-modbus = { version = "*", features = ["tcp-sync", "rtu-sync"] }
tokio-serial = "*"
tungstenite = "*"
url = "2"
axum = { version = "*", features = ["ws"] }
tokio = { version = "1", features = ["full"] }
futures = "0.3"
tower-http = { version = "*", features = ["fs"] }
uuid = { version = "1", features = ["v4"] }
chrono = "0.4"
sqlx = { version = "*", default-features = false, features = ["sqlite", "runtime-tokio"] }
colored = "*"
tracing = "0.1"
tracing-subscriber = { version = "0.3", features = ["env-filter"] }
anyhow = "1"
