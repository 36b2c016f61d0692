[package]
name = "space_game_client"
version = "0.1.0"
edition = "2021"
publish = false

[dependencies]
url = "=2.5.8"
