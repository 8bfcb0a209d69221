[package]
name = "deeplink_shell"
version = "0.1.0"
edition = "2021"
publish = false

[dependencies]
url = "*"
tauri = { version = "*", default-features = false }
tauri-plugin-deep-link = "*"
