[package]
name = "crate_info"
version = "0.1.0"
edition = "2021"
publish = false

[dependencies]
viewbuilder = { version = "=0.10.0-alpha.5", features = ["full"] }
web-sys = { version = "0.3", features = ["Document", "Element", "HtmlElement", "Window"] }
tracing = "=0.1.44"
tracing-wasm = "=0.2.1"
console_error_panic_hook = "=0.1.7"
wasm-rs-async-executor = "=0.9.0"
