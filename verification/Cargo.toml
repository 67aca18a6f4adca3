[package]
name = "cameraunit"
version = "0.1.0"
edition = "2021"
publish = false

[dependencies]
image = "*"
fitsio = "*"
ini = "*"
chrono = "*"
ctrlc = "*"
log = "*"
