[package]
name = "chessian_gui"
version = "0.1.0"
edition = "2021"
publish = false

[dependencies]
chess = "3.2"
macroquad = "0.4"
