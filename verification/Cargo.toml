[package]
name = "remoteplay_inviter"
version = "0.1.0"
edition = "2021"
publish = false

[dependencies]
anyhow = "1"
clipboard = "0.5"
crossterm = "0.28"
futures = "0.3"
futures-util = "0.3"
http = "1"
indoc = "2"
rand = "0.8"
serde = { version = "1", features = ["derive"] }
serde_json = "1"
tokio = { version = "1", features = ["macros", "rt-multi-thread", "signal", "sync", "time"] }
tokio-tungstenite = "0.24"
toml = "0.8"
uuid = { version = "1", features = ["v4"] }
webbrowser = "1"
