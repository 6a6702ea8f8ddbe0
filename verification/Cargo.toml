[package]
name = "bookup_client"
version = "0.1.0"
edition = "2021"
publish = false

[dependencies]
serde_json = "1"
serde = { version = "1", features = ["derive"] }
anyhow = "1"
log = "0.4"
console_log = "1"
console_error_panic_hook = "0.1"
gloo-net = { version = "0.6", default-features = false, features = ["http", "json"] }
web-sys = { version = "0.3", features = ["Window", "Storage", "Location", "Crypto", "UrlSearchParams"] }
leptos = { version = "0.8", features = ["csr"] }
leptos_router = "0.8"
