[package]
name = "portable_store"
version = "0.1.0"
edition = "2021"
publish = false

[dependencies]
log = "0.4"
tauri = { version = "2", features = ["wry"], default-features = false }
tauri-plugin-log = "2"
