[package]
name = "gamesim"
version = "0.1.0"
edition = "2021"
publish = false

[dependencies]
vulkan-bindings = "=1.3.238"
vector_mapp = { version = "=0.3.3", features = ["serde"] }
serde = { version = "=1.0.229", features = ["derive"] }
anyhow = "=1.0.104"
ron = "0.8"
libloading = "0.8"
