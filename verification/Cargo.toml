[package]
name = "muscle_attention"
version = "0.1.0"
edition = "2021"
publish = false

[dependencies]
bytemuck = "*"
libm = "*"
rustc_apfloat = "*"
serde_json = "*"
wasm-bindgen = "*"
nalgebra = "*"
rapier2d = "*"
console_error_panic_hook = "*"
