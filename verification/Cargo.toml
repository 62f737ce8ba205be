[package]
name = "bobbin"
version = "0.1.0"
edition = "2021"
publish = false

[dependencies]
sha1 = "0.2"
clap = "2"
termcolor = "1"
toml = "0.4"
