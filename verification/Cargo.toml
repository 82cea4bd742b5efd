[package]
name = "ferrumc"
version = "0.1.0"
edition = "2021"
publish = false

[dependencies]
serde_json = "=1.0.154"
zip = { version = "=9.2.2", default-features = false, features = ["deflate"] }
tracing = "=0.1.44"
bitcode = { version = "=0.6.9", features = ["derive"] }
thiserror = "=2.0.21"
serde = { version = "1", features = ["derive"] }
