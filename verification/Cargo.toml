[package]
name = "content_store"
version = "0.1.0"
edition = "2021"
publish = false

[dependencies]
base64 = "0.22"
sha1 = "0.10"
percent-encoding = "2"
reqwest = { version = "0.12", default-features = false, features = ["multipart", "stream"] }
tokio = { version = "1", features = ["fs", "io-util"] }
futures = "0.3"
serde = { version = "1", features = ["derive"] }
log = "0.4"
