[package]
name = "ory_selfservice_rust"
version = "0.1.0"
edition = "2021"
publish = false

[dependencies]
serde_urlencoded = "0.7"
url = "2"
http = "1"
axum = "0.8"
axum-extra = { version = "0.10", features = ["form"] }
tokio = { version = "1", features = ["full"] }
reqwest = { version = "0.12", default-features = false, features = ["json"] }
reqwest-middleware = "0.4"
reqwest-tracing = "0.5"
serde = { version = "1", features = ["derive"] }
serde_json = "1"
leptos = { version = "0.8", features = ["ssr"] }
clap = { version = "4", features = ["derive"] }
thiserror = "2"
tracing = "0.1"
tracing-subscriber = { version = "0.3", features = ["env-filter"] }
tower-http = { version = "0.6", features = ["trace"] }
mimalloc = "0.1"
config = "0.15"
