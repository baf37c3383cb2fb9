[package]
name = "tic_tac_toe"
version = "0.1.0"
edition = "2021"
publish = false

[dependencies]
rand = "0.8"
eframe = { version = "0.23", default-features = false, features = ["default_fonts", "glow"] }
