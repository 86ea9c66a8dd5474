[package]
name = "twine"
version = "0.1.0"
edition = "2021"
publish = false

[dependencies]
anyhow = "1"
clap = { version = "4", features = ["derive"] }
minreq = { version = "2", features = ["https"] }
regex = "1"
reqwest = { version = "0.12", features = ["blocking"] }
url = "2"
