[package]
name = "tussle_core"
version = "0.1.0"
edition = "2021"
publish = false

[dependencies]
plist = "1"
anyhow = "1"
clap = { version = "4", features = ["derive"] }
serde = { version = "1", features = ["derive"] }
serde_json = "1"
tabled = "*"
dirs = "*"
thiserror = "*"
accessibility-sys = "*"
core-foundation = "*"
core-graphics = "*"
objc2-app-kit = "*"
