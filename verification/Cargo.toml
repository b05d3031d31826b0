[package]
name = "pathland"
version = "0.1.0"
edition = "2021"
publish = false

[dependencies]
bytemuck = { version = "1", features = ["derive"] }
claxon = "0.4"
console_error_panic_hook = "0.1"
console_log = "0.2"
fern = { version = "0.6", features = ["colored"] }
image = { version = "0.24", default-features = false }
log = "0.4"
tokio = { version = "1", features = ["rt"] }
wasm-bindgen = "0.2"
wasm-bindgen-futures = "0.4"
web-sys = { version = "0.3", features = ["HtmlCanvasElement"] }
wgpu = "0.13"
winit = "0.27"
