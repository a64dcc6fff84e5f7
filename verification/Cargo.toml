[package]
name = "ollama_pipeline"
version = "0.1.0"
edition = "2021"
publish = false

[dependencies]
rustrict = "=0.7.39"
chrono = "=0.4.45"
serde = { version = "=1.0.229", features = ["derive"] }
serde_json = "=1.0.151"
ollama-rs = { version = "=0.3.6", default-features = false, features = ["stream"] }
tokio = { version = "=1.53.2", features = ["rt-multi-thread", "macros", "time"] }
futures = "=0.3.34"
crossbeam-channel = "=0.5.17"
reqwest = { version = "=0.12.28", default-features = false, features = ["json"] }
webbrowser = "*"
