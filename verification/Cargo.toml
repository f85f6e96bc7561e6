[package]
name = "stevedore"
version = "0.1.0"
edition = "2021"
publish = false

[dependencies]
uuid = { version = "1", features = ["v4"] }
openssl = "0.10"
tonic = { version = "0.12", features = ["tls"] }
prost = "0.13"
tokio = { version = "1", features = ["macros", "rt-multi-thread"] }
futures = "0.3"
async-stream = "0.3"
