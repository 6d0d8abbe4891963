[package]
name = "treasure_hunt"
version = "0.1.0"
edition = "2021"
publish = false

[dependencies]
rand = "=0.8.8"
read_input = "=0.8.6"
termcolor = "=1.4.1"

[dev-dependencies]
regex = "1"
