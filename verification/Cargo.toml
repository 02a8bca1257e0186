[package]
name = "little_games"
version = "0.1.0"
edition = "2021"
publish = false

[dependencies]
nalgebra = "0.33"
rapier2d = "0.22"
raylib = "5"
