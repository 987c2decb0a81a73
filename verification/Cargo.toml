[package]
name = "empress"
version = "0.1.0"
edition = "2021"
publish = false

[dependencies]
anyhow = "1"
gtk4 = { version = "*", features = ["v4_12"] }
libadwaita = { version = "*", features = ["v1_4"] }
mpris = "2"
reqwest = { version = "*", features = ["blocking"] }
urlencoding = "2"
