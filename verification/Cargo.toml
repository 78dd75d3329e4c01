[package]
name = "web_painter"
version = "0.1.0"
edition = "2021"
publish = false

[dependencies]
egui = "*"
egui_glow = "*"
log = "*"
wasm-bindgen = "*"
web-sys = { version = "*", features = ["HtmlCanvasElement", "Window", "Navigator", "WebGlRenderingContext", "WebGl2RenderingContext", "WebglDebugRendererInfo"] }
