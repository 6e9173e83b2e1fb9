[package]
name = "proctable"
version = "0.1.0"
edition = "2021"
publish = false

[dependencies]
crossterm = "0.25"
sysinfo = "0.29"
tui = "0.19"
