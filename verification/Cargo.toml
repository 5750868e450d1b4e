[package]
name = "rav1e_js"
version = "0.1.0"
edition = "2021"
publish = false

[dependencies]
dcv-color-primitives = "=1.0.0"
rav1e = { version = "=0.8.1", default-features = false }
wasm-bindgen = "=0.2.129"
web-sys = { version = "=0.3.106", features = ["Window", "Document", "Element", "HtmlCanvasElement", "CanvasRenderingContext2d", "ImageData", "HtmlVideoElement", "HtmlImageElement", "Event", "EventTarget", "console"] }
