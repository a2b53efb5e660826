[package]
name = "cargo_msrv"
version = "0.1.0"
edition = "2021"
publish = false

[dependencies]
once_cell = "=1.21.4"
clap = { version = "=4.6.7", features = ["derive"] }
console = "=0.15.11"
indicatif = "=0.17.11"
rust-releases = { version = "=0.34.0", features = ["ureq"] }
toml_edit = "=0.25.15"
