[package]
name = "kime"
version = "0.1.0"
edition = "2021"
publish = false

[dependencies]
image = { version = "=0.24.9", default-features = false }
ansi_term = "=0.12.1"
pad = "=0.1.6"
xdg = "=2.5.2"
libc = "0.2"
is_executable = "1"
serde = { version = "1", features = ["derive"] }
serde_json = "1"
