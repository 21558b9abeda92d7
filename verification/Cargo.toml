[package]
name = "rrelayer_core"
version = "0.1.0"
edition = "2021"
publish = false

[dependencies]
alloy = { version = "1", default-features = false, features = ["std", "consensus", "eips", "network", "sol-types", "serde", "kzg"] }
alloy-eips = { version = "1", features = ["kzg"] }
serde = { version = "1", features = ["derive"] }
serde_json = "1"
serde_yaml = "0.9"
thiserror = "2"
chrono = { version = "0.4", features = ["serde"] }
