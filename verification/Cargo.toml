[package]
name = "copland"
version = "0.1.0"
edition = "2021"
publish = false

[dependencies]
futures = "0.3"
gloo = "0.8"
js-sys = "0.3"
log = "0.4"
rand = "0.8"
serde = { version = "1", features = ["derive"] }
serde_json = "1"
urlencoding = "2"
wasm-bindgen = "0.2"
wasm-bindgen-futures = "0.4"
wasm-logger = "0.2"
web-sys = { version = "0.3", features = ["Document", "DomRect", "Element", "Event", "EventTarget", "HtmlElement", "HtmlMediaElement", "HtmlTextAreaElement", "HtmlVideoElement", "MouseEvent", "Node", "Touch", "TouchEvent", "TouchList", "Window"] }
yew = "0.19"
