[package]
name = "contrast_heatmap"
version = "0.1.0"
edition = "2021"
publish = false

[dependencies]
image = "*"
base64 = "*"
anyhow = "*"
axum = "*"
tokio = { version = "*", features = ["rt-multi-thread", "net", "sync", "macros"] }
tower-http = { version = "*", features = ["cors"] }
uuid = { version = "*", features = ["v4"] }
serde = { version = "*", features = ["derive"] }
clap = { version = "*", features = ["derive"] }
