[package]
name = "rusman"
version = "0.1.0"
edition = "2021"
publish = false

[dependencies]
clap = "=4.6.7"
ncurses = "=5.101.0"
toml = "=1.1.7"
