[package]
name = "google_apis_ex"
version = "0.1.0"
edition = "2021"
publish = false

[dependencies]
gcp_auth = "0.7"
tonic = { version = "0.8", features = ["tls"] }
prost = "0.11"
http = "0.2"
reqwest = { version = "0.11", default-features = false, features = ["rustls-tls", "json"] }
tokio = { version = "1", features = ["rt-multi-thread", "macros"] }
serde = { version = "1", features = ["derive"] }
serde_json = "1"
mime = "0.3"
url = "2"
clap = { version = "3.2", features = ["derive"] }
thiserror = "1"
