[package]
name = "rubigo_yes"
version = "0.1.0"
edition = "2021"
publish = false

[dependencies]
getopts = "0.2"
clap = "2"

[dev-dependencies]
regex = "1"
