[package]
name = "flowplane"
version = "0.1.0"
edition = "2021"
publish = false

[dependencies]
envoy-types = "*"
prost = "*"
url = "*"
uuid = { version = "*", features = ["v4"] }
chrono = "*"
axum = "*"
serde = { version = "*", features = ["derive"] }
serde_json = "*"
serde_yaml = "*"
http-body-util = "*"

[dev-dependencies]
