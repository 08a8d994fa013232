[package]
name = "yewchat"
version = "0.1.0"
edition = "2021"
publish = false

[dependencies]
serde_json = "1"
serde = { version = "1", features = ["derive"] }
log = "0.4"
yew = "0.19"
yew-agent = "0.1"
yew-router = "0.16"
web-sys = { version = "0.3", features = ["HtmlInputElement"] }
wasm-bindgen-futures = "0.4"
wasm-logger = "0.2"
reqwasm = "0.4"
futures = "0.3"
