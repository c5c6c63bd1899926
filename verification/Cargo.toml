[package]
name = "minuteman"
version = "0.1.0"
edition = "2021"
publish = false

[dependencies]
anyhow = "*"
argh = "*"
libc = "*"
sysinfo = "*"
termion = "1.5"
tui = { version = "*", default-features = false, features = ["termion"] }
