[package]
name = "jmap"
version = "0.1.0"
edition = "2021"
publish = false

[dependencies]
chrono = { version = "0.4", default-features = false, features = ["std"] }
rustc-serialize = "0.3"
uuid = { version = "1", features = ["v4"] }
