[package]
name = "linker"
version = "0.1.0"
edition = "2021"
publish = false

[dependencies]
ahash = "0.8"
anyhow = "1"
arrayvec = { version = "0.7", features = ["serde"] }
axum = "0.6"
color-eyre = "0.6"
futures-util = "0.3"
mimalloc = "0.1"
moka = { version = "0.12", features = ["sync"] }
prometheus-client = "0.22"
rand = "0.8"
serde = { version = "1", features = ["derive"] }
serde_json = "1"
sqlx = { version = "0.7", default-features = false, features = ["postgres", "runtime-tokio", "migrate"] }
tokio = { version = "1", features = ["rt", "net"] }
tower-http = { version = "0.4", features = ["cors", "trace"] }
tracing = "0.1"
tracing-subscriber = { version = "0.3", features = ["json", "time"] }
url = { version = "2", features = ["serde"] }
