[package]
name = "jamstream_client"
version = "0.1.0"
edition = "2021"
publish = false

[dependencies]
data-encoding = "2"
image = { version = "0.25", default-features = false, features = ["png", "jpeg"] }
keyring = { version = "3", default-features = false }
serde = { version = "1", features = ["derive"] }
serde_json = "1"
tokio = { version = "1", features = ["rt-multi-thread", "time", "sync"] }
tracing = "0.1"
tracing-subscriber = { version = "0.3", features = ["env-filter"] }
rfd = { version = "*", default-features = false, features = ["xdg-portal"] }
egui = { version = "*", default-features = false }
eframe = { version = "*", default-features = false }
