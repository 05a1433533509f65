[package]
name = "fiff"
version = "0.1.0"
edition = "2021"
publish = false

[dependencies]
anyhow = "1"
atty = "0.2"
chrono = { version = "0.4", default-features = false, features = ["std"] }
clap = { version = "4", features = ["derive"] }
csv = "1"
env_logger = "0.10"
log = "0.4"
nom = "7"
petgraph = "0.6"
serde = { version = "1", features = ["derive"] }
termtree = "0.4"
