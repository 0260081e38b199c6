[package]
name = "uds_rs"
version = "0.2.1"
edition = "2021"
publish = false

[dependencies]
log = "0.4"
thiserror = "*"
tokio = { version = "1", features = ["time", "rt", "macros"] }
tokio-socketcan-isotp = "*"
num_enum = "*"
