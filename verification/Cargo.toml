[package]
name = "wot_td_embedded"
version = "0.1.0"
edition = "2021"
publish = false

[dependencies]
hashbrown = "0.14"
heapless = "0.8"
serde = { version = "1", features = ["derive"] }
serde_with = "3"
