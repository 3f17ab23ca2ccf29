[package]
name = "web_host"
version = "0.1.0"
edition = "2021"
publish = false

[dependencies]
axum = "=0.8.9"
base64 = "=0.22.1"
console_error_panic_hook = "=0.1.7"
dotenvy = "=0.15.7"
gloo-timers = { version = "=0.4.0", features = ["futures"] }
http = "=1.5.0"
include_dir = "=0.7.4"
js-sys = "=0.3.106"
leptos = { version = "=0.8.22", features = ["csr"] }
leptos_router = "=0.8.17"
postcard = { version = "=1.1.3", default-features = false, features = ["alloc"] }
rand = "=0.9.5"
serde = { version = "=1.0.229", features = ["derive"] }
serde_json = "=1.0.154"
sqlx = { version = "=0.8.6", default-features = false, features = ["runtime-tokio", "sqlite"] }
thiserror = "=2.0.21"
tiny_http = "=0.12.0"
tokio = { version = "=1.54.1", features = ["full"] }
tower = "=0.5.3"
tower-http = { version = "=0.6.11", features = ["cors", "trace"] }
tracing = "=0.1.44"
tracing-subscriber = { version = "=0.3.23", features = ["env-filter"] }
uuid = { version = "=1.29.0", features = ["v4"] }
wasm-bindgen = "=0.2.129"
wasm-bindgen-futures = "=0.4.79"
web-sys = { version = "=0.3.106", features = ["Document", "DomRect", "Element", "Event", "EventTarget", "Headers", "HtmlElement", "KeyboardEvent", "Location", "MouseEvent", "Node", "NodeList", "Request", "RequestInit", "RequestMode", "Response", "Window"] }
