[package]
name = "ports_scanner"
version = "0.1.0"
edition = "2021"
publish = false

[dependencies]
anyhow = "1"
clap = { version = "4", features = ["derive"] }
crossbeam-channel = "0.5"
csv = "1"
ipnet = "2"
num_cpus = "1"
serde = { version = "1", features = ["derive"] }
