[package]
name = "sgl_router"
version = "0.1.0"
edition = "2021"
publish = false

[dependencies]
axum = "=0.8.9"
http = "=1.5.0"
reqwest = { version = "=0.12.28", default-features = false, features = ["json", "stream"] }
serde = "=1.0.229"
serde_json = "=1.0.154"
tokio = { version = "=1.54.1", features = ["macros", "net", "rt-multi-thread", "signal", "sync"] }
tower-http = { version = "=0.6.11", features = ["cors", "limit"] }
tracing = "=0.1.44"
