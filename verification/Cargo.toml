[package]
name = "esrc"
version = "0.1.0"
edition = "2021"
publish = false

[dependencies]
uuid = { version = "1", features = ["v4"] }
sha2 = "0.10"
serde = { version = "1", features = ["derive"] }
serde_json = "1"
async-nats = "*"
tokio = { version = "1", features = ["full"] }
tokio-util = { version = "0.7", features = ["rt"] }
futures = "0.3"
stream-cancel = "0.8"
bytes = "1"
tracing = "0.1"
thiserror = "*"
time = { version = "0.3", features = ["serde"] }
trait-variant = "0.1"
kurrentdb = "*"
