[package]
name = "type_reg"
version = "0.1.0"
edition = "2021"
publish = false

[dependencies]
downcast-rs = "*"
dyn-clone = "*"
erased-serde = "*"
indexmap = "*"
resman = "*"
serde = { version = "1", features = ["derive"] }
serde_tagged = "*"

[dev-dependencies]
serde_json = "1"
serde_yaml = "*"
serde_yaml_ng = "*"
