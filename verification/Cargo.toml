[package]
name = "nexusmods"
version = "0.1.0"
edition = "2021"
publish = false

[dependencies]
serde_json = "=1.0.151"
time = { version = "=0.3.55", features = ["parsing"] }
reqwest = { version = "=0.13.5", default-features = false, features = ["query", "form"] }
