[package]
name = "opcode_web"
version = "0.1.0"
edition = "2021"
publish = false

[dependencies]
axum = { version = "*", features = ["ws"] }
chrono = "*"
futures-util = "*"
serde = { version = "*", features = ["derive"] }
serde_json = "*"
tokio = { version = "*", features = ["full"] }
tower-http = { version = "*", features = ["cors", "fs"] }
uuid = { version = "*", features = ["v4"] }
which = "*"
