[package]
name = "rover_output"
version = "0.1.0"
edition = "2021"
publish = false

[dependencies]
termimad = "*"
atty = "*"
calm_io = "*"
console = "*"
dialoguer = "*"
serde = { version = "*", features = ["derive"] }
serde_json = "*"
reqwest = { version = "*", default-features = false, features = ["blocking", "json"] }
