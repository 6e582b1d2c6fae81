[package]
name = "hyprclock"
version = "0.1.0"
edition = "2021"
publish = false

[dependencies]
chrono = "*"
gtk4 = "*"
gio = "*"
gtk4-layer-shell = "*"
