[package]
name = "trip_browser"
version = "0.1.0"
edition = "2021"
publish = false

[dependencies]
dioxus = { version = "0.6", default-features = false, features = ["macro", "html", "signals", "hooks", "launch"] }
reqwest = { version = "0.12", features = ["json"] }
serde = { version = "1", features = ["derive"] }
