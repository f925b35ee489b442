[package]
name = "deployer"
version = "0.1.0"
edition = "2021"
publish = false

[dependencies]
clap = { version = "4", features = ["derive"] }
notify = "6"
reqwest = { version = "0.12", default-features = false, features = ["blocking"] }
