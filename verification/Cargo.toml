[package]
name = "rigging"
version = "0.1.0"
edition = "2021"
publish = false

[dependencies]
url = "2"
bincode = "1"
serde = { version = "1", features = ["derive"] }
tokio = { version = "1", features = ["net", "io-util"] }
hyper = "1"
futures = "0.3"
tower-service = "0.3"
log = "0.4"
thiserror = "1"
