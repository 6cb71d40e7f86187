[package]
name = "lilac"
version = "0.1.0"
edition = "2021"
publish = false

[dependencies]
anyhow = "1"
crossterm = "0.28"
libc = "0.2"
memfd = "0.6"
mmap = "0.1"
ratatui = "0.29"
wayland-client = "0.31"
wayland-protocols = { version = "0.32", features = ["client", "staging"] }
