[package]
name = "qrlink"
version = "0.1.0"
edition = "2021"
publish = false

[dependencies]
qrcode = { version = "*", default-features = false }
image = { version = "*", default-features = false, features = ["png", "jpeg"] }
rand = "*"
url = "*"
uuid = { version = "*", features = ["v4"] }
chrono = { version = "*", default-features = false, features = ["clock", "std"] }
serde = { version = "*", features = ["derive"] }
serde_json = "*"
axum = "*"
tokio = { version = "*", features = ["macros", "rt-multi-thread", "sync", "net", "time"] }
tower-http = { version = "*", features = ["cors", "fs", "trace"] }
sqlx = { version = "*", default-features = false, features = ["runtime-tokio", "sqlite"] }
resvg = "*"
dotenvy = "*"
thiserror = "*"
tracing = "*"
tracing-subscriber = "*"
