[package]
name = "concurrency"
version = "0.1.0"
edition = "2021"
publish = false

[dependencies]
pbkdf2 = { version = "=0.12.2", features = ["simple"] }
rand_core = { version = "=0.6.4", features = ["getrandom"] }
uuid = { version = "=1.27.0", features = ["v4"] }
chrono = "=0.4.45"
serde = { version = "=1.0.229", features = ["derive"] }
thiserror = "=2.0.21"
syn = { version = "=2.0.119", features = ["full"] }
quote = "=1.0.47"
proc-macro2 = "=1.0.107"
