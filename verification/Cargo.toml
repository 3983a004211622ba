[package]
name = "relativistic_ray_tracing"
version = "0.1.0"
edition = "2021"
publish = false

[dependencies]
ang = "*"
clap = { version = "3", features = ["cargo"] }
image = { version = "0.24", default-features = false, features = ["png"] }
ndarray = "0.15"
noise = { version = "0.7", default-features = false }
num-integer = "0.1"
rand = "0.8"
rayon = "1"
