[package]
name = "secret_share"
version = "0.1.0"
edition = "2021"
publish = false

[dependencies]
aes-gcm-siv = "0.10"
sha2 = "0.10"
flate2 = "1"
base64 = "0.13"
rand_core = { version = "0.6", features = ["getrandom"] }
redis = { version = "0.21", features = ["tokio-comp", "connection-manager"] }
tokio = { version = "1", features = ["macros", "rt-multi-thread"] }
warp = "0.3"
structopt = "0.3"
pretty_env_logger = "0.4"
wasm-bindgen = "0.2"
wasm-bindgen-futures = "0.4"
web-sys = { version = "0.3", features = ["Document", "Element", "HtmlAnchorElement", "HtmlButtonElement", "HtmlElement", "HtmlTextAreaElement", "Location", "Node", "NodeList", "Request", "RequestInit", "RequestMode", "Response", "Window"] }
console_error_panic_hook = "0.1"
wee_alloc = "0.4"
