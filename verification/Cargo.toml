[package]
name = "file_transfer"
version = "0.1.0"
edition = "2021"
publish = false

[dependencies]
rand = "0.8"
uuid = { version = "1", features = ["v4"] }
tokio = { version = "1", default-features = false, features = ["sync", "rt", "macros"] }
tokio-util = { version = "0.7", default-features = false }
wasm-bindgen = "0.2"
js-sys = "0.3"
web-sys = { version = "0.3", features = ["Blob", "Document", "Element", "File", "FileList", "HtmlAnchorElement", "HtmlElement", "HtmlInputElement", "Location", "Node", "Storage", "Url", "Window", "console"] }
leptos = { version = "0.6", default-features = false, features = ["csr"] }
leptos_meta = { version = "0.6", default-features = false, features = ["csr"] }
leptos_router = { version = "0.6", default-features = false, features = ["csr"] }
log = "0.4"
wasm-logger = "0.2"
console_error_panic_hook = "0.1"
serde = { version = "1", features = ["derive"] }
gloo-utils = { version = "0.2", features = ["serde"] }
thiserror = "1"
git-version = "0.3"
