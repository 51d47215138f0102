[package]
name = "katal_github_client"
version = "0.1.0"
edition = "2021"
publish = false

[dependencies]
bytes = { version = "1", features = ["serde"] }
chrono = { version = "0.4", features = ["serde"] }
compact_str = { version = "*", features = ["serde"] }
demurgos_headers = "*"
futures = "0.3"
http = "1"
http-body = "1"
http-body-util = "0.1"
serde = { version = "1", features = ["derive"] }
serde_json = "1"
thiserror = "*"
tower-service = "0.3"
url = { version = "2", features = ["serde"] }
