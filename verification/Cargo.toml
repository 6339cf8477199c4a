[package]
name = "json_formatter"
version = "0.1.0"
edition = "2021"
publish = false

[dependencies]
dyn-fmt = "*"
eyre = "*"
fluvio-smartmodule = "*"
json_value_merge = "*"
once_cell = "*"
serde = { version = "*", features = ["derive"] }
serde_json = { version = "*", features = ["preserve_order"] }
