[package]
name = "signals_visualizer"
version = "0.1.0"
edition = "2021"
publish = false

[dependencies]
atomic_float = "*"
askama = "*"
async-trait = "0.1"
axum = { version = "0.8", features = ["ws"] }
futures-util = { version = "0.3", features = ["sink"] }
serde = { version = "1", features = ["derive"] }
serde_json = "1"
tokio = { version = "1", features = ["full"] }
tower-http = { version = "0.6", features = ["fs"] }
