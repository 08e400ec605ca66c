[package]
name = "arrow_ipc_read"
version = "0.1.0"
edition = "2021"
publish = false

[dependencies]
polars-arrow-format = { version = "*", features = ["ipc"] }
polars-error = "*"
polars-utils = "*"
