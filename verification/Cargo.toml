[package]
name = "qaqh_apps"
version = "0.1.0"
edition = "2021"
publish = false

[dependencies]
dirs = "5"
eframe = { version = "0.29", default-features = false, features = ["default_fonts", "glow"] }
hex = "0.4"
regex-lite = "0.1"
serde = { version = "1", features = ["derive"] }
serde_json = "1"
sha2 = "0.10"
tokio = { version = "1", features = ["rt", "time"] }
zip = { version = "2", default-features = false, features = ["deflate"] }
