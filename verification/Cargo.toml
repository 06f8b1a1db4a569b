[package]
name = "azapptoolkit_views"
version = "0.1.0"
edition = "2021"
publish = false

[dependencies]
chrono = "0.4"
js-sys = "0.3"
leptos = { version = "0.8", features = ["csr"] }
serde = { version = "1", features = ["derive"] }
serde_json = "1"
thaw = "*"
wasm-bindgen = "0.2"
wasm-bindgen-futures = "0.4"
web-sys = "0.3"
