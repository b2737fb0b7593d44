[package]
name = "studio_faces"
version = "0.1.0"
edition = "2021"
publish = false

[dependencies]
dioxus = { version = "=0.7.10", default-features = false, features = ["lib"] }
dioxus-icons = "=0.1.0"
gloo-timers = { version = "0.3", features = ["futures"] }
js-sys = "0.3"
log = "0.4"
wasm-bindgen = "0.2"
wasm-bindgen-futures = "0.4"
web-sys = { version = "0.3", features = ["Blob", "BlobPropertyBag", "CanvasRenderingContext2d", "Clipboard", "CssStyleDeclaration", "Document", "DomRect", "Element", "Event", "EventTarget", "HtmlAnchorElement", "HtmlCanvasElement", "HtmlElement", "ImageData", "MouseEvent", "Navigator", "Performance", "PointerEvent", "ResizeObserver", "Url", "Window"] }
