[package]
name = "test_console"
version = "0.1.0"
edition = "2021"
publish = false

[dependencies]
ansi-parser = "0.9"
regex = "1"
crossterm = "0.25"
tui = "0.19"
notify = "6"
ignore = "0.4"
log = "0.4"
simplelog = "0.12"
