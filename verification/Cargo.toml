[package]
name = "cptra_imgtool"
version = "0.1.0"
edition = "2021"
publish = false

[dependencies]
anyhow = "=1.0.104"
clap = "=4.5.61"
hex = "=0.4.3"
p384 = { version = "=0.13.1", features = ["ecdsa", "pem"] }
sec1 = "=0.7.3"
serde = "=1.0.229"
serde_derive = "=1.0.229"
sha2 = "=0.10.9"
toml = "=0.8.23"
