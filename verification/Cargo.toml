[package]
name = "wasi_shim"
version = "0.1.0"
edition = "2021"
publish = false

[dependencies]
log = "0.4"
futures-io = "0.3"
raw-window-handle = "0.6"
