[package]
name = "alauncher"
version = "0.1.0"
edition = "2021"
publish = false

[dependencies]
chrono = "0.4"
dotenvy = "0.15"
tauri = { version = "2", default-features = false }
