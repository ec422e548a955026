[package]
name = "nos_autoclicker"
version = "0.1.0"
edition = "2021"
publish = false

[dependencies]
chrono = { version = "=0.4.45", features = ["serde"] }
uuid = { version = "=1.29.1", features = ["v4"] }
rand = "=0.8.8"
serde = { version = "=1.0.229", features = ["derive"] }
serde_json = "=1.0.154"
toml = "=0.8.23"
thiserror = "=1.0.69"
tracing = "=0.1.44"
tracing-subscriber = { version = "=0.3.23", features = ["env-filter"] }
global-hotkey = { version = "0.6", default-features = false }
egui = { version = "0.31", default-features = false, features = ["default_fonts"] }
eframe = { version = "0.31", default-features = false, features = ["default_fonts", "glow", "x11"] }

[dev-dependencies]
tempfile = "=3.27.0"
