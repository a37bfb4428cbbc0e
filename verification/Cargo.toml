[package]
name = "sandbox_agent"
version = "0.1.0"
edition = "2021"
publish = false

[dependencies]
serde_json = "*"
time = { version = "*", features = ["formatting"] }
serde = { version = "*", features = ["derive"] }
axum = "*"
tokio = { version = "*", features = ["rt-multi-thread", "macros", "sync", "process", "io-util", "time"] }
tokio-stream = { version = "*", features = ["sync"] }
futures = "*"
reqwest = { version = "*", default-features = false, features = ["json", "stream"] }
url = "*"
tempfile = "*"
tar = "*"
flate2 = "*"
zip = { version = "*", default-features = false }
