[package]
name = "words_cli"
version = "0.1.0"
edition = "2021"
publish = false

[dependencies]
atty = "*"
clap = { version = "*", features = ["derive"] }
ispell = "*"
reqwest = { version = "*", default-features = false, features = ["blocking"] }
serde = { version = "*", features = ["derive"] }
serde_json = "*"
toml = "*"
