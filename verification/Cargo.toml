[package]
name = "wasm_bridge"
version = "0.1.0"
edition = "2021"
publish = false

[dependencies]
wasmtime = { version = "*", default-features = false, features = ["async", "cranelift", "wat", "runtime", "std", "signals-based-traps"] }
