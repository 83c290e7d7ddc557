[package]
name = "crater_ohos"
version = "0.1.0"
edition = "2021"
publish = false

[dependencies]
anyhow = "1"
async-trait = "0.1"
axum = "0.7"
chrono = { version = "0.4", default-features = false, features = ["clock", "std"] }
clap = { version = "4", features = ["derive"] }
env_logger = "0.11"
flate2 = "1"
hmac = "0.12"
lazy_static = "1"
log = "0.4"
mime = "0.3"
r2d2 = "0.8"
r2d2_sqlite = "*"
reqwest = { version = "0.12", default-features = false, features = ["blocking", "json"] }
rusqlite = "*"
serde = { version = "1", features = ["derive"] }
serde_json = "1"
sha2 = "0.10"
tera = { version = "1", default-features = false }
tokio = { version = "1", features = ["rt-multi-thread", "macros", "net", "signal"] }
toml = "0.8"
tower-http = { version = "0.5", features = ["cors", "fs"] }
uuid = { version = "1", features = ["v4"] }
