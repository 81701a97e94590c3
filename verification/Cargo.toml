[package]
name = "hostcall"
version = "0.1.0"
edition = "2021"
publish = false

[dependencies]
serde_json = "=1.0.154"
anyhow = "=1.0.104"
lazy_static = "=1.5.1"
structopt = "=0.3.26"
wasmtime = "=45.0.3"
wasmtime-wasi = "=45.0.3"
