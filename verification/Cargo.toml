[package]
name = "rdashboard"
version = "0.1.0"
edition = "2021"
publish = false

[dependencies]
base64 = "0.22"
ed25519-dalek = "2"
fs2 = "0.4"
futures-util = "0.3"
minicbor = { version = "*", features = ["alloc", "std", "derive"] }
regex = "1"
reqwest = { version = "0.12", default-features = false, features = ["stream"] }
rusqlite = { version = "*", features = ["bundled"] }
schemars = "1"
serde = { version = "1", features = ["derive"] }
serde_jcs = "*"
serde_json = "1"
sha2 = "0.10"
thiserror = "2"
tokio = { version = "1", features = ["full"] }
tracing = "0.1"
url = "2"
uuid = { version = "1", features = ["v4", "serde"] }
zeroize = "1"

[dev-dependencies]
tempfile = "3"
