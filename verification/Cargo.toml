[package]
name = "twelvedata"
version = "0.1.0"
edition = "2021"
publish = false

[dependencies]
async-trait = "=0.1.92"
chrono = { version = "=0.4.45", default-features = false, features = ["std"] }
reqwest = { version = "=0.12.28", default-features = false }
serde_json = "=1.0.154"
serde_urlencoded = "=0.7.1"
surf = { version = "2", default-features = false }
wreq = { version = "=0.15.3", default-features = false }
