[package]
name = "aion_server"
version = "1.1.0"
edition = "2021"
publish = false

[dependencies]
chrono = "*"
serde = { version = "*", features = ["derive"] }
actix-web = "*"
enigo = "*"
env_logger = "*"
