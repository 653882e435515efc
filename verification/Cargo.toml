[package]
name = "act_bootstrap"
version = "0.1.0"
edition = "2021"
publish = false

[dependencies]
dirs = "*"
tauri = { version = "*", default-features = false }
