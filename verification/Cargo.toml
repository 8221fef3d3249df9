[package]
name = "catalog"
version = "0.1.0"
edition = "2021"
publish = false

[dependencies]
anyhow = "=1.0.104"
battery = "0.7"
chrono = "=0.4.45"
iced = { version = "=0.14.0", default-features = false, features = ["advanced", "image-without-codecs", "tiny-skia", "tokio", "x11"] }
serde = { version = "=1.0.229", features = ["derive"] }
serde_json = "=1.0.154"
sqlx = { version = "=0.8.6", default-features = false, features = ["runtime-tokio", "sqlite"] }
symphonia = { version = "=0.5.5", default-features = false, features = ["flac"] }
thiserror = "=2.0.21"
tokio = { version = "=1.54.1", features = ["rt-multi-thread", "macros", "fs", "sync"] }
tracing = "=0.1.44"
tracing-subscriber = "=0.3.23"
