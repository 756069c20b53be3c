[package]
name = "deadball"
version = "0.1.0"
edition = "2021"
publish = false

[dependencies]
rand = "0.8"
itertools = "*"
name_maker = "*"
serde = { version = "1", features = ["derive"] }
serde_json = "1"
rusqlite = { version = "*", features = ["bundled"] }
inquire = "*"
