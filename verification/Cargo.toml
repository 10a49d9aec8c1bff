[package]
name = "railops"
version = "0.1.0"
edition = "2021"
publish = false

[dependencies]
chrono = "0.4"
rust_decimal = "1"
uuid = { version = "1", features = ["serde"] }
hmac = "0.12"
sha2 = "0.10"
hex = "0.4"
serde = { version = "1", features = ["derive"] }
serde_json = "1"
yew = { version = "0.21", features = ["csr"] }
yew-router = "0.18"
gloo-net = "0.5"
gloo-storage = "0.3"
gloo-timers = "0.3"
wasm-bindgen = "0.2"
wasm-bindgen-futures = "0.4"
js-sys = "0.3"
web-sys = { version = "0.3", features = ["HtmlInputElement", "HtmlSelectElement", "HtmlTextAreaElement", "FormData", "Blob", "File", "FileList", "Event", "EventTarget", "InputEvent", "KeyboardEvent", "MouseEvent", "SubmitEvent"] }
futures = "0.3"
wasm-logger = "0.2"
