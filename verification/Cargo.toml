[package]
name = "rust_chatbot"
version = "0.1.0"
edition = "2021"
publish = false

[dependencies]
actix-files = "0.6"
actix-web = { version = "4", default-features = false, features = ["macros"] }
console_error_panic_hook = "0.1"
leptos = { version = "0.6", features = ["ssr"] }
leptos_actix = "0.6"
wasm-bindgen = "0.2"
