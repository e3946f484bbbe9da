[package]
name = "cloak"
version = "0.1.0"
edition = "2021"
publish = false

[dependencies]
windows = { version = "0.44", features = ["Win32_Foundation", "Win32_System_Com"] }
