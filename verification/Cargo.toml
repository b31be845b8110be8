[package]
name = "durian"
version = "0.1.0"
edition = "2021"
publish = false

[dependencies]
ciftl-rs = "*"
ring = "0.17"
hex = "0.4"
rusqlite = { version = "*", features = ["bundled"] }
serde = { version = "1", features = ["derive"] }
serde_json = "1"
reqwest = { version = "0.12", default-features = false, features = ["blocking", "json"] }
dirs = "*"
once_cell = "1"
