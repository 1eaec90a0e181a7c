[package]
name = "config_loader"
version = "0.1.0"
edition = "2021"
publish = false

[dependencies]
console = "0.15"
lexa-env = "*"
lexa-prompt = "*"
log = "0.4"
serde = "1"
serde_json = "1"
serde_yaml = "0.9"
toml = "0.8"
