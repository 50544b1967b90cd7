[package]
name = "catalog_core"
version = "0.1.0"
edition = "2021"
publish = false

[dependencies]
anyhow = "1"
chrono = { version = "0.4", features = ["serde"] }
ffmpeg-sidecar = "2"
log = "0.4"
once_cell = "1"
serde = { version = "1", features = ["derive"] }
serde_json = "1"
sqlx = { version = "0.8", default-features = false, features = ["sqlite", "runtime-tokio", "chrono", "macros", "migrate"] }
tokio = { version = "1", features = ["rt-multi-thread", "sync", "fs"] }
