[package]
name = "minigit_supervisor"
version = "0.1.0"
edition = "2021"
publish = false

[dependencies]
tauri = { version = "=2.12.5", default-features = false, features = ["wry", "compression", "common-controls-v6", "dynamic-acl"] }
