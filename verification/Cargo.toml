[package]
name = "restate-szamlazz"
version = "0.1.0"
edition = "2021"
publish = false

[dependencies]
rust_decimal = "1"
jiff = "0.2"
unicode-normalization = "0.1"
serde = { version = "1", features = ["derive"] }
serde_json = "1"
restate-sdk = "*"
tokio = { version = "1", features = ["full"] }
tracing = "0.1"
thiserror = "2"
bytes = "1"
