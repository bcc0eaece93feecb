[package]
name = "pilock"
version = "0.1.0"
edition = "2021"
publish = false

[dependencies]
bitvec = "1"
memmap2 = "0.9"
gpiod = "*"
time = "0.3"
serde = { version = "1", features = ["derive"] }
serde_json = "1"
dotenv = "0.15"
eyre = "0.6"
log = "0.4"
pretty_env_logger = "0.5"
thiserror = "1"
