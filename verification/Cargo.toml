[package]
name = "chess_controller"
version = "0.1.0"
edition = "2021"
publish = false

[dependencies]
chessboard = "*"
raylib = "3.7"
