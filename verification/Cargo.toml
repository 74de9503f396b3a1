[package]
name = "tonic_pool"
version = "0.1.0"
edition = "2021"
publish = false

[dependencies]
tonic = { version = "=0.13.1", features = ["transport"] }
bb8 = "=0.9.1"
futures = "=0.3.34"

[dev-dependencies]
tokio = { version = "*", features = ["rt", "net", "time"] }
