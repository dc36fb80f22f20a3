[package]
name = "seqdedup"
version = "0.1.0"
edition = "2021"
publish = false

[dependencies]
csv = "*"
bio = "*"
clap = "*"
