[package]
name = "raytracing"
version = "0.1.0"
edition = "2021"
publish = false

[dependencies]
anyhow = "1"
clap = { version = "4", features = ["derive"] }
dyn-clonable = "0.9"
image = { version = "0.24", default-features = false, features = ["png", "jpeg"] }
indicatif = "0.17"
nalgebra = "0.32"
num_cpus = "1"
overload = "0.1"
prettytable-rs = "0.10"
rand = "0.8"
rand_chacha = "0.3"
rayon = "1"
thiserror = "1"
