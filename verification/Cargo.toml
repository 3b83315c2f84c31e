[package]
name = "charted_helm_plugin"
version = "0.1.0"
edition = "2021"
publish = false

[dependencies]
base64 = "*"
url = "*"
serde = { version = "1", features = ["derive"] }
serde_yaml_ng = "*"
serde_json = "1"
toml = "*"
clap = { version = "4", features = ["derive"] }
etcetera = "*"
eyre = "*"
