[package]
name = "wasm_shim"
version = "0.1.0"
edition = "2021"
publish = false

[dependencies]
log = "0.4"
protobuf = "2.28"
proxy-wasm = "0.2"
serde_json = "1"
