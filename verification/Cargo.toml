[package]
name = "pythia_markets"
version = "0.1.0"
edition = "2021"
publish = false

[dependencies]
anchor-lang = { version = "0.31.1", features = ["init-if-needed"] }
arcium-anchor = "0.3"
arcium-client = { version = "0.3", default-features = false }
arcis-imports = "0.3"
