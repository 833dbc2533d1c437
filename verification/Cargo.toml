[package]
name = "longport_core"
version = "0.1.0"
edition = "2021"
publish = false

[dependencies]
jni = "0.21"
prost = "*"
rust_decimal = "1"
serde_json = "1"
time = { version = "0.3", features = ["formatting"] }
tokio = { version = "1", features = ["rt-multi-thread"] }
