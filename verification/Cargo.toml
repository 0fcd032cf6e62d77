[package]
name = "gptcommit"
version = "0.1.0"
edition = "2021"
publish = false

[dependencies]
git2 = "*"
which = "*"
clap = { version = "*", features = ["derive"] }
colored = "*"
