[package]
name = "pessimal"
version = "0.1.0"
edition = "2021"
publish = false

[dependencies]
chrono = { version = "0.4", default-features = false, features = ["clock", "serde", "std"] }
uuid = { version = "1", features = ["v7", "serde"] }
serde = { version = "1", features = ["derive"] }
serde_json = "1"
thiserror = "*"
async-trait = "0.1"
tokio = { version = "1", features = ["sync", "rt", "macros"] }
reqwest = { version = "*", default-features = false, features = ["json"] }
rustls = { version = "0.23", default-features = false, features = ["ring", "std"] }
uniffi = { version = "*", features = ["tokio"] }
