[package]
name = "cw2981_leveling"
version = "0.1.0"
edition = "2021"
publish = false

[dependencies]
cosmwasm-std = "1"
serde = { version = "1", features = ["derive"] }
