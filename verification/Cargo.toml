[package]
name = "explorer_nico"
version = "0.1.0"
edition = "2021"
publish = false

[dependencies]
common-game = "3.0.0"
crossbeam-channel = "0.5.17"
rand = "0.9.5"
