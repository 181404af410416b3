[package]
name = "openworkspace_api"
version = "0.1.0"
edition = "2021"
publish = false

[dependencies]
base64 = "=0.22.1"
bcrypt = "*"
jsonwebtoken = "=9.3.1"
rand = "=0.8.8"
rustix = { version = "=1.1.6", features = ["fs"] }
serde = { version = "=1.0.229", features = ["derive"] }
serde_json = { version = "=1.0.154", features = ["raw_value"] }
uuid = "=1.29.0"
