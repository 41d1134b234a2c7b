[package]
name = "scoop_manifest"
version = "0.1.0"
edition = "2021"
publish = false

[dependencies]
anyhow = "1"
clap = { version = "4", features = ["derive"] }
colored = "*"
home = "*"
path-clean = "*"
serde = { version = "1", features = ["derive"] }
serde_json = "1"
sha256 = { version = "1", default-features = false }
toml = "*"
