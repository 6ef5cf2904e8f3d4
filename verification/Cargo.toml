[package]
name = "seed_maker"
version = "0.1.0"
edition = "2021"
publish = false

[dependencies]
rayon = "=1.12.0"
serde = { version = "=1.0.229", features = ["derive"] }
serde_json = "=1.0.151"
anyhow = "=1.0.104"
clap = { version = "=4.6.7", features = ["derive"] }
cliclack = "=0.5.6"
