[package]
name = "raytracer"
version = "0.1.0"
edition = "2021"

[dependencies]
png = "0.14"
rand = "=0.7.3"
