[package]
name = "pacinfo"
version = "0.1.0"
edition = "2021"
publish = false

[dependencies]
alpm = "*"
pacmanconf = "*"
termcolor = "1"
textwrap = { version = "0.16", features = ["terminal_size"] }
