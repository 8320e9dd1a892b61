[package]
name = "yewchat"
version = "0.1.0"
edition = "2021"
publish = false

[dependencies]
log = "0.4"
serde = { version = "1", features = ["derive"] }
serde_json = "1"
wasm-bindgen = "0.2"
web-sys = { version = "0.3", features = ["HtmlInputElement", "InputEvent", "MessageEvent", "WebSocket"] }
yew = "0.19"
yew-agent = "0.1"
yew-router = "0.16"
