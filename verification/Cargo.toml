[package]
name = "ffnodes"
version = "0.1.0"
edition = "2021"
publish = false

[dependencies]
sha2 = "=0.10.9"
shlex = "=1.3.0"
urlencoding = "=2.1.3"
encoding_rs = "=0.8.44"
url = "=2.5.8"
uuid = { version = "=1.29.0", features = ["v4"] }
chrono = "=0.4.45"
base64 = "=0.22.1"
serde = { version = "=1.0.229", features = ["derive"] }
serde_json = "=1.0.154"
tokio = { version = "=1.54.1", features = ["full"] }
anyhow = "=1.0.104"
reqwest = { version = "=0.12.28", default-features = false, features = ["json", "multipart", "stream"] }
