[package]
name = "glassbox"
version = "0.1.0"
edition = "2021"
publish = false

[dependencies]
bcrypt = "0.15"
chrono = { version = "0.4", features = ["serde"] }
console_error_panic_hook = "0.1"
gloo-timers = { version = "0.3", features = ["futures"] }
leptos = { version = "0.7", features = ["csr"] }
leptos_meta = "0.7"
leptos_router = "0.7"
reqwest = { version = "0.12", default-features = false, features = ["json"] }
serde = { version = "1", features = ["derive"] }
web-sys = { version = "0.3", features = ["KeyboardEvent", "Location", "Storage", "Window"] }
