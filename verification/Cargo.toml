[package]
name = "eterm"
version = "0.0.1"
edition = "2021"
publish = false

[dependencies]
anyhow = "1"
argh = "*"
bincode = "1"
egui = { version = "0.21", features = ["serde"] }
itertools = "*"
log = "0.4"
parking_lot = "0.12"
serde = { version = "1", features = ["derive"] }
simple_logger = "*"
tracing = "0.1"
zstd = "*"
