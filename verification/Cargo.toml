[package]
name = "music_separator"
version = "0.1.0"
edition = "2021"
publish = false

[dependencies]
clap = { version = "4", features = ["derive"] }
serde = { version = "1", features = ["derive"] }
serde_json = "1"
thiserror = "1"
tracing = "0.1"
tracing-subscriber = { version = "0.3", features = ["env-filter", "fmt"] }
indicatif = "0.17"
hound = "3"
rustfft = "6"
uuid = { version = "1", features = ["v4"] }
ffmpeg-next = "8"
ort = "=2.0.0-rc.12"
