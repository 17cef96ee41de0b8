[package]
name = "syswatch"
version = "0.1.0"
edition = "2021"
publish = false

[dependencies]
crossterm = "0.28"
libc = "*"
ratatui = "*"
sysinfo = "*"
