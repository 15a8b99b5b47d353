[package]
name = "wasm_harness"
version = "0.1.0"
edition = "2021"
publish = false

[dependencies]
wasmparser = "=0.262.0"
wasmtime = { version = "=36.0.19", default-features = false, features = ["cranelift", "runtime", "std"] }
clap = { version = "=4.6.7", features = ["derive"] }
env_logger = "=0.11.11"
log = "=0.4.34"
serde_json = { version = "=1.0.154", features = ["preserve_order", "arbitrary_precision"] }

[dev-dependencies]
wat = "=1.262.0"
