[package]
name = "wordvm"
version = "0.1.0"
edition = "2021"
publish = false

[dependencies]
anyhow = "1"
clap = "2"
fern = { version = "0.6", features = ["colored"] }
log = "0.4"
