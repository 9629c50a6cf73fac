[package]
name = "colored_json"
version = "0.1.0"
edition = "2021"
publish = false

[dependencies]
atty = "0.2"
serde = "1"
serde_json = "1"
yansi = "0.5"
