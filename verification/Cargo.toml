[package]
name = "autodep"
version = "0.1.0"
edition = "2021"
publish = false

[dependencies]
actix-web = "4"
anyhow = "1"
base64 = "0.21"
config = "0.13"
image = { version = "0.24", default-features = false, features = ["png", "jpeg"] }
port_scanner = "0.1"
prost = "0.12"
serde = { version = "1", features = ["derive"] }
serde_json = "1"
tch = "0.13"
tokio = { version = "1", features = ["rt-multi-thread", "macros", "time"] }
tonic = "0.10"
tracing = "0.1"
tracing-subscriber = "0.3"
