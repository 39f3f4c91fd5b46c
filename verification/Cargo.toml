[package]
name = "wasm_scripting"
version = "0.1.0"
edition = "2021"
publish = false

[dependencies]
wasmer = { version = "=6.1.0", default-features = false, features = ["sys", "wat", "singlepass"] }
wat = "=1.261.0"
bevy = { version = "=0.9.1", default-features = false, features = ["bevy_asset"] }
