[package]
name = "fetch_with_render"
version = "0.1.0"
edition = "2021"
publish = false

[dependencies]
serde = { version = "*", features = ["derive"] }
serde_json = "*"
napi = "*"
napi-derive = "*"
tao = "*"
wry = "*"
