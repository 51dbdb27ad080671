[package]
name = "randomizer"
version = "0.1.0"
edition = "2021"
publish = false

[dependencies]
anchor-lang = { version = "0.31", features = ["init-if-needed"] }
arcium-anchor = "=0.2.0"
arcium-client = { version = "=0.2.0", default-features = false }
