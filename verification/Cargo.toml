[package]
name = "kerralla"
version = "0.1.0"
edition = "2021"
publish = false

[dependencies]
trie-rs = { version = "0.4.2", features = ["serde"] }
postcard = { version = "1.1.3", features = ["use-std"] }
serde = { version = "1", features = ["derive"] }
serde_json = "1"
eyre = "0.6"
eframe = { version = "*", default-features = false, features = ["glow", "default_fonts", "x11"] }
