[package]
name = "dmc3_randomizer"
version = "0.1.0"
edition = "2021"
publish = false

[dependencies]
bimap = "0.6"
rand = "0.9"
serde = { version = "1", features = ["derive"] }
serde_json = "1"
serde_path_to_error = "0.1"
anyhow = "1"
log = "0.4"
