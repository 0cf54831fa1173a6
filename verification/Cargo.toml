[package]
name = "tiny_adventure"
version = "0.1.0"
edition = "2021"
publish = false

[dependencies]
macroquad = { version = "=0.4.16", default-features = false }
macroquad-tiled = "=0.2.1"
miniquad = "=0.4.11"
shipyard = "0.7"
emitter-rs = "=0.0.5"
wasm-bindgen = "=0.2.130"
wasm-bindgen-futures = "=0.4.80"
js-sys = "=0.3.107"
serde-wasm-bindgen = "=0.6.5"
console_error_panic_hook = "=0.1.7"
wasm-logger = "=0.2.0"
log = "=0.4.35"
solana-pubkey = { version = "=2.4.0", features = ["serde"] }
solana-keypair = "=2.2.3"
solana-signer = "=2.2.1"
