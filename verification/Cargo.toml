[package]
name = "webviewjs"
version = "0.1.0"
edition = "2021"
publish = false

[dependencies]
napi = { version = "=3.15.0", features = ["napi9"] }
napi-derive = "=3.6.13"
serde_json = "=1.0.154"
tao = "=0.34.8"
wry = "=0.53.5"
