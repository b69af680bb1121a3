[package]
name = "starsoldier_bytecode_playground"
version = "0.1.0"
edition = "2021"
publish = false

[dependencies]
parse_int = "=0.6.0"
itertools = "=0.10.5"
eyre = "=0.6.14"
macroquad = { version = "=0.3.26", default-features = false }
