[package]
name = "cooee"
version = "0.1.0"
edition = "2021"
publish = false

[dependencies]
anyhow = "1"
chrono = { version = "0.4", features = ["serde"] }
clap = { version = "4", features = ["derive"] }
gtk4 = { version = "0.9", features = ["v4_12"] }
gtk4-layer-shell = "0.4"
notify = "6"
rodio = "0.19"
serde = { version = "1", features = ["derive"] }
serde_json = "1"
speech-dispatcher = "0.16"
tokio = { version = "1", features = ["full"] }
toml = "0.8"
zbus = { version = "4", features = ["tokio"] }

[dev-dependencies]
tempfile = "3"
