[package]
name = "nix-installer"
version = "0.1.0"
edition = "2021"
publish = false

[dependencies]
plist = "1"
serde = { version = "1", features = ["derive"] }
thiserror = "1"
tokio = { version = "1", features = ["process", "fs", "rt", "macros"] }
tracing = "0.1"
