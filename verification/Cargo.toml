[package]
name = "tracer"
version = "0.1.0"
edition = "2021"
publish = false

[dependencies]
anyhow = "1"
image = "*"
indicatif = "*"
json5 = "*"
mimalloc = "*"
rand = "0.8"
rayon = "1"
ron = "*"
serde = { version = "1", features = ["derive"] }
serde_yaml = "*"
structopt = "0.3"
thiserror = "1"
