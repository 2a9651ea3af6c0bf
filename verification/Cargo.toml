[package]
name = "las_points"
version = "0.1.0"
edition = "2021"
publish = false

[dependencies]
anyhow = "1"
byteorder = "1"
las = "0.7"
laz = "0.5"
pasture-core = "0.1"
