[package]
name = "zaiko_edge"
version = "0.1.0"
edition = "2021"
publish = false

[dependencies]
anyhow = "=1.0.104"
axum = "=0.7.9"
clap = { version = "=4.6.7", features = ["derive"] }
html-escape = "=0.2.15"
image = { version = "=0.25.10", default-features = false, features = ["bmp", "gif", "ico", "jpeg", "png", "pnm", "tga", "tiff", "webp"] }
regex = "=1.13.1"
reqwest = { version = "=0.12.28", default-features = false, features = ["rustls-tls"] }
serde = { version = "=1.0.229", features = ["derive"] }
tokio = { version = "=1.54.1", features = ["macros", "rt-multi-thread", "net", "sync", "time"] }
tower-http = { version = "=0.5.2", features = ["cors"] }
tracing-subscriber = "=0.3.23"
url = "=2.5.8"
