[package]
name = "ruxel"
version = "0.1.0"
edition = "2021"
publish = false

[dependencies]
bytemuck = { version = "=1.25.2", features = ["derive"] }
cfg-if = "=1.0.5"
console_error_panic_hook = "=0.1.7"
console_log = "=1.1.0"
env_logger = "=0.10.2"
glam = "=0.23.0"
log = "=0.4.34"
noise = "=0.8.2"
pollster = { version = "=0.3.0", features = ["macro"] }
rand = "=0.8.8"
wasm-bindgen = "=0.2.129"
web-sys = { version = "=0.3.72", features = ["Document", "Element", "Window"] }
wgpu = "=0.16.3"
wgpu_text = "=0.7.1"
winit = "=0.28.7"
