[package]
name = "sre_audit"
version = "0.1.0"
edition = "2021"
publish = false

[dependencies]
serde = { version = "1", features = ["derive"] }
serde_json = "1"
dioxus = { version = "0.6", features = ["web", "router"] }
dioxus-router = "0.6"
gloo-storage = "0.3"
js-sys = "0.3"
reqwest = { version = "0.12", default-features = false, features = ["json"] }
wasm-bindgen = "0.2"
wasm-bindgen-futures = "0.4"
web-sys = { version = "0.3", features = ["Window", "Document", "Storage", "Navigator", "Element", "HtmlElement", "HtmlScriptElement", "HtmlHeadElement", "Blob", "Url", "Node"] }
