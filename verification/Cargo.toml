[package]
name = "circuit_boundary"
version = "0.1.0"
edition = "2021"
publish = false

[dependencies]
circom-prover = "=0.1.4"
console_error_panic_hook = "=0.1.7"
serde_json = "1"
wasm-bindgen = "=0.2.129"
wasm-bindgen-rayon = "=1.3.0"

[dev-dependencies]
num-bigint = "0.4"
