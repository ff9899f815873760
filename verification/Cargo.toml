[package]
name = "starkli"
version = "0.1.0"
edition = "2021"
publish = false

[dependencies]
anyhow = "1"
async-trait = "0.1"
clap = { version = "4", features = ["derive", "env", "string"] }
colored = "2"
env_logger = "0.10"
log = "0.4"
rand = "0.8"
rayon = "1"
rpassword = "7"
shellexpand = "3"
starknet = "0.9"
thiserror = "1"
