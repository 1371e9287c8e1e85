[package]
name = "cursor_routing"
version = "0.1.0"
edition = "2021"
publish = false

[dependencies]
axum = "0.8"
parking_lot = "0.12"
prost = "0.13"
serde = { version = "1", features = ["derive"] }
serde_json = "1"
serde_yaml = "0.9"
sha2 = "0.10"
tokio = { version = "1", features = ["fs", "macros", "rt-multi-thread", "sync", "time"] }
tokio-util = "0.7"
tower-http = { version = "0.6", features = ["decompression-full"] }
tracing = "0.1"
