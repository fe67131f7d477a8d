[package]
name = "milika"
version = "0.1.0"
edition = "2021"
publish = false

[dependencies]
nom = "7.1"
anyhow = "1"
ariadne = "0.4.1"
melior = "0.15"
train-map = "*"
tokio = { version = "1", features = ["rt", "time"] }
rand = "0.8"
rand_chacha = "0.3"
