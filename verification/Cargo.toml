[package]
name = "kowalski_rlm"
version = "0.1.0"
edition = "2021"
publish = false

[dependencies]
regex = "1"
chrono = { version = "0.4", default-features = false, features = ["clock", "std"] }
serde_json = "1"
serde = { version = "1", features = ["derive"] }
tokio = { version = "1", features = ["full"] }
reqwest = { version = "0.12", default-features = false, features = ["json", "blocking"] }
async-trait = "0.1"
uuid = { version = "1", features = ["v4"] }
tempfile = "3"
thiserror = "1"
