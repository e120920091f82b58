[package]
name = "tclock"
version = "0.1.0"
edition = "2021"
publish = false

[dependencies]
chrono = "0.4"
failure = "0.1"
termion = "1.5"
tui = "0.8"
