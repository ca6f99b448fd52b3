[package]
name = "synrinth"
version = "0.1.0"
edition = "2021"
publish = false

[dependencies]
serde = { version = "1", features = ["derive"] }
serde_json = "1"
zip = { version = "2", default-features = false, features = ["deflate"] }
reqwest = { version = "0.12", default-features = false }
tokio = { version = "1", features = ["fs", "rt", "macros"] }
thiserror = "2"
