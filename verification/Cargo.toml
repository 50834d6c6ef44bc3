[package]
name = "operit"
version = "0.1.0"
edition = "2021"
publish = false

[dependencies]
sha2 = "0.10"
hmac = "0.12"
base64 = "0.22"
x25519-dalek = { version = "2", features = ["static_secrets"] }
rand_core = { version = "0.6", features = ["getrandom"] }
serde = { version = "1", features = ["derive"] }
serde_json = "1"
uuid = { version = "1", features = ["v4"] }
tokio = { version = "1", features = ["rt-multi-thread", "macros", "net", "sync", "time"] }
axum = { version = "0.7", features = ["ws"] }
futures-util = "0.3"
reqwest = { version = "0.12", default-features = false, features = ["json"] }
mdns-sd = "*"
ratatui = "*"
crossterm = "*"
chrono = "0.4"
zip = { version = "*", default-features = false, features = ["deflate"] }
