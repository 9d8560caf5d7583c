[package]
name = "applekit"
version = "0.1.0"
edition = "2021"
publish = false

[dependencies]
cocoa = "=0.26.1"
serde = { version = "=1.0.229", features = ["derive"] }
tauri = { version = "=2.12.5", default-features = false }
tauri-utils = "=2.10.2"
thiserror = "=2.0.21"
