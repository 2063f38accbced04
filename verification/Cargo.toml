[package]
name = "termusic"
version = "0.1.0"
edition = "2021"
publish = false

[dependencies]
serde_json = "=1.0.151"
regex = "=1.13.1"
shell-words = "=1.1.1"
serde = { version = "=1.0.229", features = ["derive"] }
bincode = "=1.3.3"
anyhow = "=1.0.104"
id3 = "=1.17.2"
walkdir = "=2.5.0"
ytd-rs = "=0.1.7"
reqwest = { version = "=0.12.28", default-features = false, features = ["blocking"] }
