[package]
name = "capture_ai"
version = "0.1.0"
edition = "2021"
publish = false

[dependencies]
chrono = { version = "*", default-features = false, features = ["clock"] }
image = { version = "*", default-features = false, features = ["png"] }
leptess = "*"
ollama-rs = { version = "*", default-features = false }
tokio = { version = "*", default-features = false, features = ["rt", "macros"] }
