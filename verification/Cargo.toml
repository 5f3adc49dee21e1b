[package]
name = "gemini_server"
version = "0.1.0"
edition = "2021"
publish = false

[dependencies]
dashmap = "5"
percent-encoding = "2"
pulldown-cmark = { version = "0.9", default-features = false }
rustls = "0.21"
rustls-pemfile = "1"
url = "2"
tokio = { version = "1", features = ["full"] }
tokio-rustls = "0.24"
anyhow = "1"
tracing = "0.1"
tracing-subscriber = "0.3"

[dev-dependencies]
rcgen = "0.11"
