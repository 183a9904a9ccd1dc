[package]
name = "volc_asr"
version = "0.1.0"
edition = "2021"
publish = false

[dependencies]
url = "=2.5.8"
serde = { version = "=1.0.229", features = ["derive"] }
serde_json = "=1.0.151"
http = "=1.5.0"
dotenv = "=0.15.0"
tokio = { version = "=1.53.2", features = ["rt", "time", "macros"] }
reqwest = { version = "=0.12.28", default-features = false, features = ["json"] }
