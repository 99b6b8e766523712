[package]
name = "ddc_tournement_planer"
version = "0.1.0"
edition = "2021"
publish = false

[dependencies]
argon2 = "*"
rand = "0.8"
serde = { version = "*", features = ["derive"] }
