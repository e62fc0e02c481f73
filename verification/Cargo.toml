[package]
name = "pali-server"
version = "0.1.0"
edition = "2021"
publish = false

[dependencies]
axum = { version = "0.7", default-features = false }
chrono = { version = "0.4", default-features = false, features = ["now"] }
console_error_panic_hook = "0.1"
hex = "0.4"
pbkdf2 = "0.12"
rand = "0.8"
serde = { version = "1", features = ["derive"] }
serde_json = "1"
sha2 = "0.10"
tower-service = "0.3"
uuid = { version = "1", features = ["v4"] }
wasm-bindgen = "0.2"
worker = { version = "0.4", features = ["http", "axum", "d1"] }
