[package]
name = "pdmers"
version = "0.1.0"
edition = "2021"
publish = false

[dependencies]
lopdf = "0.38"
colored = "*"
clap = { version = "4", features = ["derive"] }
