[package]
name = "control_centre"
version = "0.1.0"
edition = "2021"
publish = false

[dependencies]
regex = "1"
serde = { version = "1", features = ["derive"] }
tokio = { version = "1", default-features = false, features = ["process", "time", "macros", "rt"] }
log = "0.4"
env_logger = { version = "0.11", default-features = false }
thiserror = "1"
tauri = { version = "2", default-features = false, features = ["wry"] }
