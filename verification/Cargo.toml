[package]
name = "missile_intercept"
version = "0.1.0"
edition = "2021"
publish = false

[dependencies]
godot = "*"
