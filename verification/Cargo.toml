[package]
name = "darling_installer"
version = "0.1.0"
edition = "2021"
publish = false

[dependencies]
anyhow = "1"
colored = "*"
convert_case = "*"
dialoguer = "*"
which = "*"

[dev-dependencies]
regex = "1"
