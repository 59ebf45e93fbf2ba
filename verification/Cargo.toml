[package]
name = "wave_os_shell"
version = "1.0.0"
edition = "2021"
publish = false

[dependencies]
tauri = { version = "=2.12.5", default-features = false }
reqwest = { version = "=0.12.28", default-features = false, features = ["json"] }
serde = { version = "=1.0.229", features = ["derive"] }
serde_json = "=1.0.154"
winreg = "=0.52.0"
log = "=0.4.35"
env_logger = { version = "=0.11.11", default-features = false }
sha2 = "0.10"
