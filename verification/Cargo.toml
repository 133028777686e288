[package]
name = "util_libs"
version = "0.1.0"
edition = "2021"
publish = false

[dependencies]
url = "2"
bson = "2"
async-nats = "*"
tokio = { version = "1", features = ["full"] }
serde = { version = "1", features = ["derive"] }
serde_json = "1"
anyhow = "1"
log = "0.4"
futures = "0.3"
bytes = "1"
reqwest = { version = "*", default-features = false, features = ["json", "rustls-tls"] }
axum = "*"
tower-http = { version = "*", features = ["cors"] }
tracing = "0.1"
tracing-subscriber = "0.3"
clap = { version = "4", features = ["derive", "env"] }
mongodb = "*"
thiserror = "*"
async-trait = "0.1"
semver = "1"
strum = { version = "*", features = ["derive"] }
strum_macros = "*"
backhand = { version = "*", default-features = false }
uuid = { version = "1", features = ["v4"] }
rand = "*"
tempfile = "3"
