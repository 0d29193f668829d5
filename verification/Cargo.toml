[package]
name = "telemetry_node"
version = "0.1.0"
edition = "2021"
publish = false

[dependencies]
anyhow = "1"
embedded-svc = "0.27"
esp-idf-svc = "0.48"
log = "0.4"
rgb = "0.8"
toml-cfg = "0.1"
