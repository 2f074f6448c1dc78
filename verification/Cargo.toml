[package]
name = "sidequest"
version = "0.1.0"
edition = "2021"
publish = false

[dependencies]
imgref = "1"
palette = "0.7"
nalgebra = "0.30"
ncollide3d = "0.33"
rand = "0.8"
crossbeam-channel = "0.5"
dynpool = "0.0.2"
failure = "0.1"
num_cpus = "1"
num-traits = "0.2"
structopt = "0.3"
indicatif = "0.17"
serde = { version = "1", features = ["derive"] }
