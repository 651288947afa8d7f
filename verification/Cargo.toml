[package]
name = "toolkit"
version = "0.1.0"
edition = "2021"
publish = false

[dependencies]
async-trait = "*"
bcder = "0.7"
bytes = "*"
c2pa = "0.32"
console_error_panic_hook = "*"
console_log = "*"
js-sys = "*"
log = "*"
serde = { version = "*", features = ["derive"] }
serde_bytes = "*"
serde_json = "*"
serde-wasm-bindgen = "*"
wasm-bindgen = "*"
wasm-bindgen-futures = "*"
x509-certificate = "*"
