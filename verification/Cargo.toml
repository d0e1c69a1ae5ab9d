[package]
name = "desktop_commands"
version = "0.1.0"
edition = "2021"
publish = false

[dependencies]
tauri = { version = "=2.12.5", default-features = false }
tauri-plugin-deep-link = { version = "=2.6.2", default-features = false }
tauri-plugin-fs = { version = "2", default-features = false }
tauri-plugin-process = { version = "=2.4.0", default-features = false }
