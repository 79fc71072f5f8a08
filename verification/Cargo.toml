[package]
name = "server_manager"
version = "0.1.0"
edition = "2021"
publish = false

[dependencies]
anyhow = "1"
bcrypt = "0.15"
chrono = "0.4"
futures-util = "0.3"
log = "0.4"
reqwest = { version = "0.12", default-features = false, features = ["json", "stream", "rustls-tls"] }
rusqlite = { version = "0.31", features = ["bundled"] }
serde = { version = "1", features = ["derive"] }
serde_json = "1"
sysinfo = "0.30"
tokio = { version = "1", features = ["rt", "time"] }
uuid = { version = "1", features = ["v4"] }
walkdir = "2"
zip = "0.6"
