[package]
name = "mxu_core"
version = "0.1.0"
edition = "2021"
publish = false

[dependencies]
base64 = "*"
semver = "*"
regex = "*"
serde = { version = "*", features = ["derive"] }
serde_json = "*"
chrono = "*"
flate2 = "*"
tar = "*"
zip = { version = "*", default-features = false, features = ["deflate"] }
log = "*"
reqwest = { version = "*", default-features = false, features = ["stream"] }
tokio = { version = "*", features = ["rt-multi-thread", "macros", "time", "sync"] }
futures-util = "*"
