[package]
name = "com-croftsoft-lib-animation"
version = "0.1.0"
edition = "2021"
publish = false

[dependencies]
anyhow = "1"
com-croftsoft-lib-role = "*"
futures = "0.3"
js-sys = "0.3"
wasm-bindgen = "0.2"
wasm-bindgen-futures = "0.4"
web-sys = { version = "0.3", features = ["CanvasRenderingContext2d", "Document", "DomRect", "Element", "Event", "EventTarget", "HtmlCanvasElement", "HtmlElement", "MouseEvent", "Window", "console"] }
