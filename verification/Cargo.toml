[package]
name = "bois"
version = "0.1.0"
edition = "2021"
publish = false

[dependencies]
anyhow = "1"
better-panic = "*"
clap = { version = "4", features = ["derive"] }
comfy-table = "*"
crossterm = "*"
dirs = "*"
dotenv = "*"
file-owner = "*"
hostname = "*"
inquire = "*"
log = "0.4"
minijinja = { version = "2", features = ["custom_syntax"] }
nix = { version = "*", features = ["user"] }
pretty_env_logger = "*"
serde = { version = "1", features = ["derive"] }
serde_yaml = "0.9"
shellexpand = "3"
thiserror = "*"
whoami = "*"

[dev-dependencies]
winnow = "0.7"
