[package]
name = "toy_hover_battle"
version = "0.1.0"
edition = "2021"
publish = false

[dependencies]
macroquad = "0.4"
gilrs = "*"
rand = "*"
rand_xoshiro = "*"
fastnoise-lite = "*"
