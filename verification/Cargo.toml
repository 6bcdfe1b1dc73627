[package]
name = "securexe_launcher"
version = "0.1.0"
edition = "2021"
publish = false

[dependencies]
base64 = "0.22"
dirs = "*"
ed25519-dalek = "2"
futures-util = "0.3"
hex = "0.4"
plist = "1"
rand = "0.8"
reqwest = { version = "0.12", default-features = false, features = ["json", "stream", "rustls-tls"] }
semver = "1"
serde = { version = "1", features = ["derive"] }
serde_json = "1"
sha2 = "0.10"
tokio = { version = "1", features = ["fs", "io-util", "process", "time", "rt", "rt-multi-thread", "macros", "sync"] }
url = "2"
zip = { version = "*", default-features = false, features = ["deflate"] }
