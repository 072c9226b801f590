[package]
name = "backend"
version = "0.1.0"
edition = "2021"
publish = false

[dependencies]
jsonwebtoken = { version = "=11.1.0", features = ["rust_crypto"] }
serde_json = "*"
chrono = "*"
tokio = { version = "*", features = ["rt-multi-thread", "macros", "sync", "time"] }
reqwest = { version = "*", default-features = false, features = ["rustls-tls", "json"] }
sqlx = { version = "*", default-features = false, features = ["postgres", "runtime-tokio"] }
tonic = "=0.14.6"
tonic-prost = "*"
prost = "=0.14.4"
