[package]
name = "presenter"
version = "0.1.0"
edition = "2021"
publish = false

[dependencies]
dodrio = "0.2"
futures = "0.3"
gloo-events = "0.2"
wasm-bindgen = "0.2"
wasm-bindgen-futures = "0.4"
web-sys = { version = "0.3", features = ["Document", "Element", "Event", "EventTarget", "HtmlElement", "HtmlInputElement", "KeyboardEvent", "Window"] }
