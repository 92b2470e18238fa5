[package]
name = "origin_sdk"
version = "0.1.0"
edition = "2021"
publish = false

[dependencies]
aes = "=0.8.4"
ecb = { version = "=0.1.2", features = ["alloc"] }
hex = "=0.4.3"
serde = { version = "=1.0.229", features = ["derive"] }
quick-xml = { version = "=0.42.0", features = ["serialize"] }
tokio = { version = "=1.53.2", features = ["rt-multi-thread", "net", "io-util", "sync", "time", "macros", "signal"] }
