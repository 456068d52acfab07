[package]
name = "raycaster"
version = "0.1.0"
edition = "2021"
publish = false

[dependencies]
wasm-bindgen = "*"
web-sys = { version = "*", features = ["Window", "Document", "Element", "EventTarget", "HtmlCanvasElement", "CanvasRenderingContext2d", "KeyboardEvent"] }
