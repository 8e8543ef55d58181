[package]
name = "ds_controller"
version = "0.1.0"
edition = "2021"
publish = false

[dependencies]
serde = { version = "1", features = ["derive"] }
serde_json = "1"
evdev = "0.13"
vigem-client = "0.1"
tauri = { version = "2", default-features = false }
tauri-plugin-updater = { version = "2", default-features = false }
