[package]
name = "devices_view"
version = "0.1.0"
edition = "2021"
publish = false

[dependencies]
gtk = { version = "0.8", features = ["v3_22"] }
