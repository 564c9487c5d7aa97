[package]
name = "capsule"
version = "0.1.0"
edition = "2021"
publish = false

[dependencies]
async-channel = "2"
chrono = "0.4"
gtk4 = "*"
gtk4-layer-shell = "*"
inotify = "*"
rand = "0.9"
signal-hook = "0.3"
