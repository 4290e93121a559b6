[package]
name = "taskhost"
version = "0.1.0"
edition = "2021"
publish = false

[dependencies]
portable-pty = "=0.8.1"
tokio = { version = "=1.53.2", features = ["sync", "rt-multi-thread", "macros", "time", "net", "io-util", "process"] }
serde_json = "=1.0.151"
serde = { version = "=1.0.229", features = ["derive"] }
axum = { version = "=0.7.9", features = ["ws"] }
sqlx = { version = "=0.8.6", features = ["sqlite", "runtime-tokio", "chrono"] }
chrono = { version = "=0.4.45", features = ["serde"] }
uuid = { version = "=1.27.0", features = ["v4"] }
jsonwebtoken = "=9.3.1"
sysinfo = "=0.30.13"
users = "=0.11.0"
pam = "=0.7.0"
lettre = { version = "=0.11.23", default-features = false, features = ["smtp-transport", "builder", "tokio1", "tokio1-rustls-tls"] }
futures = "=0.3.34"
tower-http = { version = "=0.6.11", features = ["fs", "cors"] }
anyhow = "=1.0.104"
