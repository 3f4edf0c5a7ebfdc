[package]
name = "led_glyph"
version = "0.1.0"
edition = "2021"
publish = false

[dependencies]
serde = { version = "*", features = ["derive"] }
serde_json = "*"
nanoid = "*"
clap = { version = "*", features = ["derive"] }
chrono = { version = "*", features = ["serde"] }
dirs = "*"
reqwest = { version = "*", default-features = false, features = ["blocking", "json"] }
