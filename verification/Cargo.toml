[package]
name = "plex_norm"
version = "0.1.0"
edition = "2021"
publish = false

[dependencies]
chrono = "0.4"
uuid = "1"
quick-xml = "0.37"
reqwest = { version = "0.12", default-features = false }
async-std = "1"
clap = "4"

[dev-dependencies]
semver = "1"
