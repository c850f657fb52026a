[package]
name = "rslogo"
version = "0.1.0"
edition = "2021"
publish = false

[dependencies]
unsvg = "*"
clap = { version = "*", features = ["derive"] }
miette = { version = "*", features = ["fancy"] }
thiserror = "*"
