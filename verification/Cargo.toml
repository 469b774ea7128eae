[package]
name = "ncpv"
version = "0.1.0"
edition = "2021"
publish = false

[dependencies]
chrono = "0.4"
crossterm = "0.27"
getopts = "0.2"
nix = { version = "0.28", features = ["fs"] }
ratatui = "0.26"
