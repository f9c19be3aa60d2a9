[package]
name = "librewave-platform-linux"
version = "0.1.0"
edition = "2021"
publish = false

[dependencies]
alsa = "*"
libc = "0.2"
pipewire = "*"
rusb = "0.9"
