[package]
name = "static_directory_server"
version = "0.1.0"
edition = "2021"
publish = false

[dependencies]
axum = { version = "=0.7.9", default-features = false, features = ["http1", "tokio"] }
percent-encoding = "=2.3.2"
reqwest = { version = "=0.12.28", default-features = false }
thiserror = "=1.0.69"
tokio = { version = "=1.54.1", features = ["net", "rt", "sync"] }
tower-http = { version = "=0.5.2", features = ["fs"] }
