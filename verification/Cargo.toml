[package]
name = "crync"
version = "0.1.0"
edition = "2021"
publish = false

[dependencies]
crust = "*"
hex = "=0.4.3"
maidsafe_utilities = "*"
rust_sodium = "*"
safe_crypto = "*"
serde_json = "=1.0.154"
structopt = "=0.3.7"
