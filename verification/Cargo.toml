[package]
name = "noemoji"
version = "0.1.0"
edition = "2021"
publish = false

[dependencies]
env_logger = "*"
lexopt = "*"
log = "*"
serde = { version = "*", features = ["derive"] }
thiserror = "*"
toml = "*"
