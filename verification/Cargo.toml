[package]
name = "agentic_afk"
version = "0.1.0"
edition = "2021"
publish = false

[dependencies]
serde = { version = "1", features = ["derive"] }
serde_json = "1"
sha2 = "0.10"
thiserror = "2"
tokio = { version = "1", features = ["rt-multi-thread", "macros", "process", "time", "signal", "sync"] }
gix = { version = "*", default-features = false, features = ["sha1", "status"] }
dioxus = { version = "0.6", default-features = false, features = ["web", "router", "macro", "html", "signals", "hooks", "launch", "document", "asset"] }
gloo-net = { version = "*", default-features = false, features = ["http", "json"] }
wasm-bindgen = "0.2"
wasm-bindgen-futures = "0.4"
web-sys = { version = "0.3", features = ["EventSource", "MessageEvent"] }
utoipa = "5"
