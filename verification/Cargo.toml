[package]
name = "tinygui"
version = "0.1.0"
edition = "2021"
publish = false

[dependencies]
chrono = "*"
embedded-graphics = "0.4"
nalgebra = "*"
rand = "0.8"
rascam = "*"
reqwest = { version = "0.11", default-features = false, features = ["blocking", "json", "rustls-tls"] }
rppal = { version = "0.13", features = ["hal"] }
serde = { version = "*", features = ["derive"] }
serde_json = "*"
ssd1306 = "0.2"
