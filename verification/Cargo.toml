[package]
name = "voxel_world"
version = "0.1.0"
edition = "2021"
publish = false

[dependencies]
mca-parser = "=1.0.2"
miniz_oxide = "=0.7.4"

[dev-dependencies]
flate2 = "=1.1.10"
