[package]
name = "musicbox"
version = "0.1.0"
edition = "2021"
publish = false

[dependencies]
clap = { version = "4", features = ["derive"] }
kira = "0.8"
kittyaudio = "*"
openmpt = "*"
rand = "0.8"
souvlaki = "*"
