[package]
name = "procgen_types"
version = "0.1.0"
edition = "2021"
publish = false

[dependencies]
rand = "0.8"
rand_pcg = "0.3"
ndarray = { version = "0.15", features = ["serde"] }
bresenham = "0.1"
nalgebra = "0.29"
palette = "0.5"
noise = { version = "0.7", default-features = false }
float-ord = "*"
lerp = "*"
num = "0.4"
approx = "0.5"
regex = "1"
lazy_static = "1"
serde = { version = "1", features = ["derive"] }
serde_json = "1"
walkdir = "2"
log = "0.4"
failure = "0.1"
image = { version = "0.23", default-features = false }
