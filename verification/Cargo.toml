[package]
name = "rutherford"
version = "0.1.0"
edition = "2021"
publish = false

[dependencies]
glam = "0.27"
macroquad = "0.4"
