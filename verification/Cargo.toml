[package]
name = "shooter_core"
version = "0.1.0"
edition = "2021"
publish = false

[dependencies]
macroquad = "0.4"
macroquad-particles = "0.2"
miniquad = "0.4"
