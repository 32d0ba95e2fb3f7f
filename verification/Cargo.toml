[package]
name = "offst_funder"
version = "0.1.0"
edition = "2021"
publish = false

[dependencies]
im = "15"
base64 = "*"
toml = "*"
serde = { version = "1", features = ["derive"] }
futures = "0.3"
log = "0.4"
