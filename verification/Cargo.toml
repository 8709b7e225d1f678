[package]
name = "chord_quiz"
version = "0.1.0"
edition = "2021"
publish = false

[dependencies]
colored = "*"
dialoguer = { version = "*", default-features = false }
midir = "*"
rand = "0.7"
wmidi = "*"
